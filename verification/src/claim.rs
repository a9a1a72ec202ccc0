use vstd::prelude::*;

use crate::clock::ledger_time;
use crate::error::IcoError;
use crate::instructions::ClaimTokens;
use crate::policy::Policy;
use crate::pricing::pow10;
use crate::pricing::token_units;
use crate::pricing::tokens_for;
use crate::state::Contribution;
use crate::state::IcoState;
use crate::transfer::Asset;
use crate::transfer::Holder;
use crate::transfer::Transfer;

verus! {

/// The token base units that a claim at `now` pays out, or why it is
/// refused.  The conditions are tried in this order: the unlocking, where
/// the policy asks for it; the end time; the soft cap; the contributor's
/// amount; the size of the payout; the price.
pub open spec fn claim_units(
    policy: Policy,
    ico_state: IcoState,
    contribution: Contribution,
    token_decimals: u8,
    now: i64,
) -> Result<u64, IcoError> {
    if policy.claim_requires_unlock && !ico_state.claim_allowed {
        Err(IcoError::ClaimNotAllowedYet)
    } else if !ico_state.ended(now) {
        Err(IcoError::IcoNotEndedYet)
    } else if !ico_state.soft_cap_reached() {
        Err(IcoError::SoftCapNotReached)
    } else if contribution.amount == 0 {
        Err(IcoError::NothingToClaim)
    } else {
        token_units(contribution.amount, token_decimals, ico_state.token_price)
    }
}

/// The records after an accepted claim: the contributor's amount is used up.
pub open spec fn claimed(ctx: ClaimTokens) -> ClaimTokens {
    ClaimTokens { contribution: Contribution { amount: 0, ..ctx.contribution }, ..ctx }
}

/// The transfer that an accepted claim asks for: `units` token base units
/// from the vault to the contributor.
pub open spec fn claim_transfer(ctx: ClaimTokens, units: u64) -> Transfer {
    Transfer {
        asset: Asset::Token,
        from: Holder::Vault(ctx.ico_state.vault),
        to: Holder::Wallet(ctx.contribution.user),
        amount: units,
    }
}

/// What a claim at `now` comes to: the records to keep and the transfer to
/// carry out, or the reason of the refusal.
pub open spec fn claim_outcome(policy: Policy, ctx: ClaimTokens, now: i64) -> Result<
    (ClaimTokens, Transfer),
    IcoError,
> {
    match claim_units(policy, ctx.ico_state, ctx.contribution, ctx.token_decimals, now) {
        Err(e) => Err(e),
        Ok(units) => Ok((claimed(ctx), claim_transfer(ctx, units))),
    }
}

/// Turns a contributor's amount into tokens once the campaign has ended
/// with its soft cap raised.
///
/// The claim is accepted exactly when `claim_units` gives a number of token
/// base units: `amount * 10^decimals / price`, rounded down.  The record
/// returned then holds nothing, and comes with the payout from the vault to
/// the contributor.  A refused claim returns the reason.  The records given
/// are not changed: the caller keeps the records returned once the transfer
/// is carried out.
pub fn claim_tokens_at(ctx: &ClaimTokens, now: i64, policy: &Policy) -> (r: Result<
    (ClaimTokens, Transfer),
    IcoError,
>)
    ensures
        r == claim_outcome(*policy, *ctx, now),
        now < ctx.ico_state.end_date ==> r is Err,
        ctx.ico_state.total_contributed < ctx.ico_state.soft_cap ==> r is Err,
        ctx.contribution.amount == 0 ==> r is Err,
        r matches Ok((written, transfer)) ==> ({
            &&& written.contribution.amount == 0
            &&& written.ico_state == ctx.ico_state
            &&& ctx.ico_state.token_price > 0
            &&& transfer.amount == ctx.contribution.amount * pow10(ctx.token_decimals as nat) / (
            ctx.ico_state.token_price as int)
        }),
{
    if policy.claim_requires_unlock && !ctx.ico_state.claim_allowed {
        return Err(IcoError::ClaimNotAllowedYet);
    }
    if now < ctx.ico_state.end_date {
        return Err(IcoError::IcoNotEndedYet);
    }
    if ctx.ico_state.total_contributed < ctx.ico_state.soft_cap {
        return Err(IcoError::SoftCapNotReached);
    }
    if ctx.contribution.amount == 0 {
        return Err(IcoError::NothingToClaim);
    }
    let units: u64 = match tokens_for(
        ctx.contribution.amount,
        ctx.token_decimals,
        ctx.ico_state.token_price,
    ) {
        Ok(units) => units,
        Err(e) => {
            return Err(e);
        },
    };
    let transfer = Transfer {
        asset: Asset::Token,
        from: Holder::Vault(ctx.ico_state.vault),
        to: Holder::Wallet(ctx.contribution.user),
        amount: units,
    };
    let mut written = *ctx;
    written.contribution.amount = 0;
    Ok((written, transfer))
}

/// Turns a contributor's amount into tokens at the time that the ledger's
/// clock shows.
///
/// Where the clock cannot be read the claim is refused with
/// `ClockUnavailable`; otherwise the result is that of `claim_tokens_at` at
/// the time read.  Whatever that time is, a claim on a campaign that has not
/// raised its soft cap, or with nothing in the record, is refused.
pub fn claim_tokens(ctx: &ClaimTokens, policy: &Policy) -> (r: Result<
    (ClaimTokens, Transfer),
    IcoError,
>)
    ensures
        r == Err::<(ClaimTokens, Transfer), IcoError>(IcoError::ClockUnavailable) || exists|
            now: i64,
        |
            r == #[trigger] claim_outcome(*policy, *ctx, now),
        ctx.ico_state.total_contributed < ctx.ico_state.soft_cap ==> r is Err,
        ctx.contribution.amount == 0 ==> r is Err,
        r matches Ok((written, transfer)) ==> ({
            &&& written.contribution.amount == 0
            &&& written.ico_state == ctx.ico_state
            &&& ctx.ico_state.token_price > 0
            &&& transfer.amount == ctx.contribution.amount * pow10(ctx.token_decimals as nat) / (
            ctx.ico_state.token_price as int)
        }),
{
    match ledger_time() {
        Some(now) => claim_tokens_at(ctx, now, policy),
        None => Err(IcoError::ClockUnavailable),
    }
}

} // verus!
