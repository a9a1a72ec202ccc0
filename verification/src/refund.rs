use vstd::prelude::*;

use crate::clock::ledger_time;
use crate::error::IcoError;
use crate::instructions::Refund;
use crate::state::Contribution;
use crate::state::IcoState;
use crate::state::IcoStatus;
use crate::transfer::Asset;
use crate::transfer::Holder;
use crate::transfer::Transfer;

verus! {

/// Whether contributors of the campaign may take their money back at `now`:
/// the campaign was cancelled or stopped, or it is over without its soft cap.
pub open spec fn refund_allowed(ico_state: IcoState, now: i64) -> bool {
    ico_state.status.is_finalized() || ico_state.failed(now)
}

/// Why a refund at `now` is refused, if it is.  The conditions are tried in
/// this order: the campaign's fate, the contributor's amount, the escrow's
/// balance.
pub open spec fn refund_rejection(ctx: Refund, now: i64) -> Option<IcoError> {
    if !refund_allowed(ctx.ico_state, now) {
        Some(IcoError::RefundNotAllowed)
    } else if ctx.contribution.amount == 0 {
        Some(IcoError::NoContributionToRefund)
    } else if ctx.lamports < ctx.contribution.amount {
        Some(IcoError::InsufficientFunds)
    } else {
        None
    }
}

/// The records after an accepted refund: the contributor's amount has left
/// the escrow and the record.
pub open spec fn refunded(ctx: Refund) -> Refund {
    Refund {
        ico_state: ctx.ico_state,
        contribution: Contribution { amount: 0, ..ctx.contribution },
        lamports: (ctx.lamports - ctx.contribution.amount) as u64,
    }
}

/// The transfer that an accepted refund asks for: the contributor's amount,
/// from the escrow back to the contributor.
pub open spec fn refund_transfer(ctx: Refund) -> Transfer {
    Transfer {
        asset: Asset::Currency,
        from: Holder::Campaign,
        to: Holder::Wallet(ctx.contribution.user),
        amount: ctx.contribution.amount,
    }
}

/// What a refund at `now` comes to: the records to keep and the transfer
/// to carry out, or the reason of the refusal.
pub open spec fn refund_outcome(ctx: Refund, now: i64) -> Result<(Refund, Transfer), IcoError> {
    match refund_rejection(ctx, now) {
        Some(e) => Err(e),
        None => Ok((refunded(ctx), refund_transfer(ctx))),
    }
}

/// Gives a contributor the contributed amount back when the campaign was
/// cancelled or stopped, or is over without its soft cap.
///
/// The refund is accepted exactly when `refund_rejection` finds no reason
/// against it.  The records returned then hold nothing for the contributor
/// and that much less in the escrow, and come with the transfer back to the
/// contributor.  A refused refund returns the reason.  The records given are
/// not changed: the caller keeps the records returned once the transfer is
/// carried out.
pub fn refund_at(ctx: &Refund, now: i64) -> (r: Result<(Refund, Transfer), IcoError>)
    ensures
        r == refund_outcome(*ctx, now),
        r is Ok ==> refund_allowed(ctx.ico_state, now),
        r matches Ok((written, transfer)) ==> ({
            &&& transfer.amount == ctx.contribution.amount
            &&& written.contribution.amount == 0
            &&& written.lamports + transfer.amount == ctx.lamports
            &&& written.ico_state == ctx.ico_state
        }),
{
    let finalized = match ctx.ico_state.status {
        IcoStatus::Cancelled => true,
        IcoStatus::Stopped => true,
        _ => false,
    };
    let failed = now >= ctx.ico_state.end_date && ctx.ico_state.total_contributed
        < ctx.ico_state.soft_cap;
    if !(finalized || failed) {
        return Err(IcoError::RefundNotAllowed);
    }
    let refund_amount: u64 = ctx.contribution.amount;
    if refund_amount == 0 {
        return Err(IcoError::NoContributionToRefund);
    }
    if ctx.lamports < refund_amount {
        return Err(IcoError::InsufficientFunds);
    }
    let transfer = Transfer {
        asset: Asset::Currency,
        from: Holder::Campaign,
        to: Holder::Wallet(ctx.contribution.user),
        amount: refund_amount,
    };
    let mut written = *ctx;
    written.lamports = ctx.lamports - refund_amount;
    written.contribution.amount = 0;
    Ok((written, transfer))
}

/// Gives a contributor the contributed amount back at the time that the
/// ledger's clock shows.
///
/// Where the clock cannot be read the refund is refused with
/// `ClockUnavailable`; otherwise the result is that of `refund_at` at the
/// time read.  Whatever that time is, a refund is made only from a campaign
/// that was cancelled or stopped or has not raised its soft cap, and a
/// refund from a cancelled or stopped campaign depends on the records alone.
pub fn refund(ctx: &Refund) -> (r: Result<(Refund, Transfer), IcoError>)
    ensures
        r == Err::<(Refund, Transfer), IcoError>(IcoError::ClockUnavailable) || exists|now: i64|
            r == #[trigger] refund_outcome(*ctx, now),
        r is Ok ==> ctx.ico_state.status.is_finalized() || !ctx.ico_state.soft_cap_reached(),
        ctx.ico_state.status.is_finalized() ==> r == Err::<(Refund, Transfer), IcoError>(
            IcoError::ClockUnavailable,
        ) || r == refund_outcome(*ctx, 0),
        r matches Ok((written, transfer)) ==> ({
            &&& transfer.amount == ctx.contribution.amount
            &&& written.contribution.amount == 0
            &&& written.lamports + transfer.amount == ctx.lamports
            &&& written.ico_state == ctx.ico_state
        }),
{
    match ledger_time() {
        Some(now) => refund_at(ctx, now),
        None => Err(IcoError::ClockUnavailable),
    }
}

} // verus!
