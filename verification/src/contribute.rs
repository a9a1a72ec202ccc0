use vstd::prelude::*;

use crate::clock::ledger_time;
use crate::error::IcoError;
use crate::instructions::Contribute;
use crate::policy::Policy;
use crate::state::Contribution;
use crate::state::IcoState;
use crate::state::IcoStatus;
use crate::state::MAX_CONTRIBUTION;
use crate::state::MIN_CONTRIBUTION;
use crate::transfer::Asset;
use crate::transfer::Holder;
use crate::transfer::Transfer;

verus! {

/// Why a contribution of `amount` at `now` is refused, if it is.  The
/// conditions are tried in this order: the window, the status, the minimum,
/// the contributor's ceiling, the campaign's total.
pub open spec fn contribute_rejection(
    policy: Policy,
    ico_state: IcoState,
    contribution: Contribution,
    amount: u64,
    now: i64,
) -> Option<IcoError> {
    if !ico_state.in_window(now) {
        Some(IcoError::InvalidContributionTime)
    } else if ico_state.status != IcoStatus::Active {
        Some(IcoError::IcoNotActive)
    } else if amount < MIN_CONTRIBUTION {
        Some(IcoError::BelowMinimumContribution)
    } else if contribution.amount + amount > u64::MAX {
        Some(IcoError::Overflow)
    } else if contribution.amount + amount > MAX_CONTRIBUTION {
        Some(IcoError::AboveMaximumContribution)
    } else if ico_state.total_contributed + amount > u64::MAX {
        Some(IcoError::Overflow)
    } else if policy.enforce_hard_cap && ico_state.total_contributed + amount
        > ico_state.hard_cap {
        Some(IcoError::HardCapExceeded)
    } else {
        None
    }
}

/// The records after an accepted contribution of `amount`: the record is
/// that of the contributor in the campaign and holds `amount` more, and so
/// does the campaign's total.
pub open spec fn contributed(ctx: Contribute, amount: u64) -> Contribute {
    Contribute {
        user: ctx.user,
        campaign: ctx.campaign,
        ico_state: IcoState {
            total_contributed: (ctx.ico_state.total_contributed + amount) as u64,
            ..ctx.ico_state
        },
        contribution: Contribution {
            user: ctx.user,
            ico_state: ctx.campaign,
            amount: (ctx.contribution.amount + amount) as u64,
        },
    }
}

/// The transfer that an accepted contribution asks for: `amount` of the
/// settlement currency from the contributor into the campaign's escrow.
pub open spec fn contribution_transfer(ctx: Contribute, amount: u64) -> Transfer {
    Transfer {
        asset: Asset::Currency,
        from: Holder::Wallet(ctx.user),
        to: Holder::Campaign,
        amount,
    }
}

/// What a contribution of `amount` at `now` comes to: the records to keep
/// and the transfer to carry out, or the reason of the refusal.
pub open spec fn contribute_outcome(policy: Policy, ctx: Contribute, amount: u64, now: i64)
    -> Result<(Contribute, Transfer), IcoError> {
    match contribute_rejection(policy, ctx.ico_state, ctx.contribution, amount, now) {
        Some(e) => Err(e),
        None => Ok((contributed(ctx, amount), contribution_transfer(ctx, amount))),
    }
}

/// Takes a contribution of `amount` from `ctx.user` at the time `now`.
///
/// It is accepted exactly when `contribute_rejection` finds no reason
/// against it.  The records returned then hold `amount` more, in the
/// contributor's record and in the campaign's total, and come with the
/// transfer of `amount` into the escrow.  A refused contribution returns
/// the reason.  The records given are not changed: the caller keeps the
/// records returned once the transfer is carried out.
pub fn contribute_at(ctx: &Contribute, amount: u64, now: i64, policy: &Policy) -> (r: Result<
    (Contribute, Transfer),
    IcoError,
>)
    ensures
        r == contribute_outcome(*policy, *ctx, amount, now),
        amount < MIN_CONTRIBUTION ==> r is Err,
        ctx.contribution.amount + amount > MAX_CONTRIBUTION ==> r is Err,
        ctx.ico_state.total_contributed + amount > u64::MAX ==> r is Err,
        r matches Ok((written, transfer)) ==> ({
            &&& ctx.ico_state.in_window(now)
            &&& written.ico_state.total_contributed == ctx.ico_state.total_contributed + amount
            &&& written.contribution.amount == ctx.contribution.amount + amount
            &&& written.contribution.user == ctx.user
            &&& written.contribution.ico_state == ctx.campaign
            &&& transfer.amount == amount
            &&& written.contribution.well_formed()
            &&& ctx.ico_state.well_formed() ==> written.ico_state.well_formed()
        }),
{
    if now < ctx.ico_state.start_date || now > ctx.ico_state.end_date {
        return Err(IcoError::InvalidContributionTime);
    }
    match ctx.ico_state.status {
        IcoStatus::Active => {},
        _ => {
            return Err(IcoError::IcoNotActive);
        },
    }
    if amount < MIN_CONTRIBUTION {
        return Err(IcoError::BelowMinimumContribution);
    }
    let new_amount: u64 = match ctx.contribution.amount.checked_add(amount) {
        Some(sum) => sum,
        None => {
            return Err(IcoError::Overflow);
        },
    };
    if new_amount > MAX_CONTRIBUTION {
        return Err(IcoError::AboveMaximumContribution);
    }
    let new_total: u64 = match ctx.ico_state.total_contributed.checked_add(amount) {
        Some(sum) => sum,
        None => {
            return Err(IcoError::Overflow);
        },
    };
    if policy.enforce_hard_cap && new_total > ctx.ico_state.hard_cap {
        return Err(IcoError::HardCapExceeded);
    }
    let mut written = *ctx;
    written.contribution.user = ctx.user;
    written.contribution.ico_state = ctx.campaign;
    written.contribution.amount = new_amount;
    written.ico_state.total_contributed = new_total;
    let transfer = Transfer {
        asset: Asset::Currency,
        from: Holder::Wallet(ctx.user),
        to: Holder::Campaign,
        amount,
    };
    Ok((written, transfer))
}

/// Takes a contribution of `amount` from `ctx.user` at the time that the
/// ledger's clock shows.
///
/// Where the clock cannot be read the contribution is refused with
/// `ClockUnavailable`; otherwise the result is that of `contribute_at` at
/// the time read.  Whatever that time is, a contribution below the minimum,
/// above the contributor's ceiling or beyond the range of the total is
/// refused.
pub fn contribute(ctx: &Contribute, amount: u64, policy: &Policy) -> (r: Result<
    (Contribute, Transfer),
    IcoError,
>)
    ensures
        r == Err::<(Contribute, Transfer), IcoError>(IcoError::ClockUnavailable) || exists|
            now: i64,
        |
            r == #[trigger] contribute_outcome(*policy, *ctx, amount, now),
        amount < MIN_CONTRIBUTION ==> r is Err,
        ctx.contribution.amount + amount > MAX_CONTRIBUTION ==> r is Err,
        ctx.ico_state.total_contributed + amount > u64::MAX ==> r is Err,
        r matches Ok((written, transfer)) ==> ({
            &&& written.ico_state.total_contributed == ctx.ico_state.total_contributed + amount
            &&& written.contribution.amount == ctx.contribution.amount + amount
            &&& transfer.amount == amount
        }),
{
    match ledger_time() {
        Some(now) => contribute_at(ctx, amount, now, policy),
        None => Err(IcoError::ClockUnavailable),
    }
}

} // verus!
