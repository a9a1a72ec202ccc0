use vstd::prelude::*;

use crate::identity::Identity;

verus! {

/// What a transfer moves.
#[derive(Clone, Copy, Debug, PartialEq, Eq, Structural)]
pub enum Asset {
    /// Base units of the token on sale.
    Token,
    /// Units of the settlement currency.
    Currency,
}

/// Where a transfer takes from or puts to.
#[derive(Clone, Copy, Debug, PartialEq, Eq)]
pub enum Holder {
    /// The balance of a party.
    Wallet(Identity),
    /// The vault that holds the tokens on sale.
    Vault(Identity),
    /// The campaign's own balance: the escrow of the settlement currency.
    Campaign,
}

/// The movement of value that an accepted operation asks for.  The
/// operation has taken effect only once the transfer was carried out; if it
/// cannot be, the records stay as they were before the operation.
#[derive(Clone, Copy, Debug, PartialEq, Eq)]
pub struct Transfer {
    pub asset: Asset,
    pub from: Holder,
    pub to: Holder,
    pub amount: u64,
}

} // verus!
