use vstd::prelude::*;

use crate::identity::Identity;
use crate::state::Contribution;
use crate::state::IcoState;

verus! {

/// What the creation of a campaign reads.
#[derive(Debug, PartialEq, Eq)]
pub struct InitializeIco {
    /// Who creates the campaign and provides the tokens.
    pub authority: Identity,
    /// The token on sale.
    pub token_mint: Identity,
    /// The bytes of the token's mint record.
    pub mint_data: Vec<u8>,
    /// The vault that is to hold the tokens on sale.
    pub vault: Identity,
}

/// What a contribution reads and writes.
#[derive(Clone, Copy, Debug, PartialEq, Eq)]
pub struct Contribute {
    /// The contributor.
    pub user: Identity,
    /// The campaign's own identity.
    pub campaign: Identity,
    /// The campaign.
    pub ico_state: IcoState,
    /// The contributor's record in the campaign.
    pub contribution: Contribution,
}

/// What a claim reads and writes.
#[derive(Clone, Copy, Debug, PartialEq, Eq)]
pub struct ClaimTokens {
    /// The campaign.
    pub ico_state: IcoState,
    /// The claimant's record in the campaign.
    pub contribution: Contribution,
    /// Decimal places of the token on sale.
    pub token_decimals: u8,
}

/// What a withdrawal reads and writes.
#[derive(Clone, Copy, Debug, PartialEq, Eq)]
pub struct WithdrawSol {
    /// Who asks for the proceeds.
    pub authority: Identity,
    /// The campaign.
    pub ico_state: IcoState,
    /// The campaign's balance: what the escrow holds.
    pub lamports: u64,
}

/// What a refund reads and writes.
#[derive(Clone, Copy, Debug, PartialEq, Eq)]
pub struct Refund {
    /// The campaign.
    pub ico_state: IcoState,
    /// The contributor's record in the campaign.
    pub contribution: Contribution,
    /// The campaign's balance: what the escrow holds.
    pub lamports: u64,
}

/// What a change of status reads and writes.
#[derive(Clone, Copy, Debug, PartialEq, Eq)]
pub struct UpdateIcoStatus {
    /// Who asks for the change.
    pub authority: Identity,
    /// The campaign.
    pub ico_state: IcoState,
}

} // verus!
