use vstd::prelude::*;

use crate::clock::ledger_time;
use crate::error::IcoError;
use crate::instructions::WithdrawSol;
use crate::state::IcoState;
use crate::state::IcoStatus;
use crate::transfer::Asset;
use crate::transfer::Holder;
use crate::transfer::Transfer;

verus! {

/// Why a withdrawal at `now` is refused, if it is.  The conditions are
/// tried in this order: the end time, the caller, the status, the soft cap,
/// the escrow's balance.
pub open spec fn withdraw_rejection(ctx: WithdrawSol, now: i64) -> Option<IcoError> {
    if !ctx.ico_state.ended(now) {
        Some(IcoError::IcoNotEndedYet)
    } else if ctx.authority != ctx.ico_state.authority {
        Some(IcoError::Unauthorized)
    } else if ctx.ico_state.status != IcoStatus::Active {
        Some(IcoError::IcoWithdrawNotAllowed)
    } else if !ctx.ico_state.soft_cap_reached() {
        Some(IcoError::SoftCapNotReached)
    } else if ctx.lamports == 0 {
        Some(IcoError::NothingToWithdraw)
    } else {
        None
    }
}

/// The records after an accepted withdrawal: the escrow is empty and claims
/// are unlocked.
pub open spec fn withdrawn(ctx: WithdrawSol) -> WithdrawSol {
    WithdrawSol {
        authority: ctx.authority,
        ico_state: IcoState { claim_allowed: true, ..ctx.ico_state },
        lamports: 0,
    }
}

/// The transfer that an accepted withdrawal asks for: all that the escrow
/// holds, to the campaign's authority.
pub open spec fn withdrawal_transfer(ctx: WithdrawSol) -> Transfer {
    Transfer {
        asset: Asset::Currency,
        from: Holder::Campaign,
        to: Holder::Wallet(ctx.ico_state.authority),
        amount: ctx.lamports,
    }
}

/// What a withdrawal at `now` comes to: the records to keep and the
/// transfer to carry out, or the reason of the refusal.
pub open spec fn withdraw_outcome(ctx: WithdrawSol, now: i64) -> Result<
    (WithdrawSol, Transfer),
    IcoError,
> {
    match withdraw_rejection(ctx, now) {
        Some(e) => Err(e),
        None => Ok((withdrawn(ctx), withdrawal_transfer(ctx))),
    }
}

/// Pays the proceeds of a campaign that ended with its soft cap raised to
/// its authority.
///
/// The withdrawal is accepted exactly when `withdraw_rejection` finds no
/// reason against it.  The records returned then have the escrow empty and
/// the claims unlocked, and come with the transfer of the whole balance to
/// the authority.  A refused withdrawal returns the reason.  The records
/// given are not changed: the caller keeps the records returned once the
/// transfer is carried out.
pub fn withdraw_sol_at(ctx: &WithdrawSol, now: i64) -> (r: Result<
    (WithdrawSol, Transfer),
    IcoError,
>)
    ensures
        r == withdraw_outcome(*ctx, now),
        ctx.authority != ctx.ico_state.authority ==> r is Err,
        r matches Ok((written, transfer)) ==> ({
            &&& transfer.amount == ctx.lamports
            &&& written.lamports == 0
            &&& written.ico_state.claim_allowed
            &&& ctx.ico_state.well_formed() ==> written.ico_state.well_formed()
        }),
{
    if now < ctx.ico_state.end_date {
        return Err(IcoError::IcoNotEndedYet);
    }
    if !(ctx.authority == ctx.ico_state.authority) {
        return Err(IcoError::Unauthorized);
    }
    match ctx.ico_state.status {
        IcoStatus::Active => {},
        _ => {
            return Err(IcoError::IcoWithdrawNotAllowed);
        },
    }
    if ctx.ico_state.total_contributed < ctx.ico_state.soft_cap {
        return Err(IcoError::SoftCapNotReached);
    }
    if ctx.lamports == 0 {
        return Err(IcoError::NothingToWithdraw);
    }
    let transfer = Transfer {
        asset: Asset::Currency,
        from: Holder::Campaign,
        to: Holder::Wallet(ctx.ico_state.authority),
        amount: ctx.lamports,
    };
    let mut written = *ctx;
    written.lamports = 0;
    written.ico_state.claim_allowed = true;
    Ok((written, transfer))
}

/// Pays the proceeds of a campaign to its authority at the time that the
/// ledger's clock shows.
///
/// Where the clock cannot be read the withdrawal is refused with
/// `ClockUnavailable`; otherwise the result is that of `withdraw_sol_at` at
/// the time read.  Whatever that time is, no one but the campaign's
/// authority withdraws.
pub fn withdraw_sol(ctx: &WithdrawSol) -> (r: Result<(WithdrawSol, Transfer), IcoError>)
    ensures
        r == Err::<(WithdrawSol, Transfer), IcoError>(IcoError::ClockUnavailable) || exists|
            now: i64,
        |
            r == #[trigger] withdraw_outcome(*ctx, now),
        ctx.authority != ctx.ico_state.authority ==> r is Err,
        r matches Ok((written, transfer)) ==> ({
            &&& transfer.amount == ctx.lamports
            &&& written.lamports == 0
            &&& written.ico_state.claim_allowed
        }),
{
    match ledger_time() {
        Some(now) => withdraw_sol_at(ctx, now),
        None => Err(IcoError::ClockUnavailable),
    }
}

} // verus!
