use vstd::prelude::*;

verus! {

/// Why an operation on a campaign was refused.  A refused operation changes
/// nothing.
#[derive(Clone, Copy, Debug, PartialEq, Eq, Structural)]
pub enum IcoError {
    /// The signer derived for the campaign is not the expected one.
    InvalidSigner,
    /// The bytes of the token's mint record are not those of an initialized mint.
    InvalidMint,
    /// The vault is not owned by the campaign.
    InvalidVaultOwner,
    /// The vault holds another token than the one on sale.
    InvalidVaultMint,
    /// An addition left the range of the amounts.
    Overflow,
    /// The contributor has nothing to claim.
    NothingToClaim,
    /// The unit price is zero.
    InvalidPrice,
    /// A token account does not fit the operation.
    InvalidTokenAccount,
    /// The contribution record does not fit the operation.
    InvalidContribution,
    /// The caller is not the campaign's authority.
    Unauthorized,
    /// A multiplication left the range of the amounts.
    MathOverflow,
    /// The contribution was made outside the campaign's window.
    InvalidContributionTime,
    /// The campaign's end time has not been reached.
    IcoNotEndedYet,
    /// The contribution is below the minimum.
    BelowMinimumContribution,
    /// The contributor's cumulative amount would exceed the ceiling.
    AboveMaximumContribution,
    /// The soft cap is not below the hard cap.
    InvalidCapRange,
    /// Claims wait for the authority's withdrawal.
    ClaimNotAllowedYet,
    /// The campaign is not active, so nothing can be withdrawn.
    IcoWithdrawNotAllowed,
    /// The campaign raised less than its soft cap.
    SoftCapNotReached,
    /// The campaign neither failed nor was cancelled or stopped.
    RefundNotAllowed,
    /// The contributor has nothing to be refunded.
    NoContributionToRefund,
    /// The campaign is already cancelled or stopped.
    IcoAlreadyFinalized,
    /// The escrow holds less than the refund.
    InsufficientFunds,
    /// The stored status is none of the known ones.
    InvalidStatus,
    /// The campaign is not active.
    IcoNotActive,
    /// The escrow is empty, so nothing can be withdrawn.
    NothingToWithdraw,
    /// The campaign's total would exceed the hard cap.
    HardCapExceeded,
    /// The ledger's clock could not be read.
    ClockUnavailable,
}

} // verus!
