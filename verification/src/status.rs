use vstd::prelude::*;

use crate::clock::ledger_time;
use crate::error::IcoError;
use crate::identity::Identity;
use crate::instructions::UpdateIcoStatus;
use crate::state::IcoState;
use crate::state::IcoStatus;
use crate::state::IcoStatusAccount;

verus! {

/// The status after the authority asks for `requested` while the campaign
/// is in `current`, or why the change is refused.  A campaign that is
/// cancelled or stopped cannot be cancelled; a campaign cannot be stopped
/// before its end; every other change is made.
pub open spec fn transition(current: IcoStatus, requested: IcoStatus, ended: bool) -> Result<
    IcoStatus,
    IcoError,
> {
    match requested {
        IcoStatus::Cancelled => if current.is_finalized() {
            Err(IcoError::IcoAlreadyFinalized)
        } else {
            Ok(requested)
        },
        IcoStatus::Stopped => if !ended {
            Err(IcoError::IcoNotEndedYet)
        } else {
            Ok(requested)
        },
        _ => Ok(requested),
    }
}

/// Computes `transition` for a campaign that ends at `end_date`, asked at `now`.
pub fn next_status(current: IcoStatus, requested: IcoStatus, now: i64, end_date: i64) -> (r:
    Result<IcoStatus, IcoError>)
    ensures
        r == transition(current, requested, now >= end_date),
        r matches Ok(status) ==> status == requested,
{
    match requested {
        IcoStatus::Cancelled => match current {
            IcoStatus::Cancelled => Err(IcoError::IcoAlreadyFinalized),
            IcoStatus::Stopped => Err(IcoError::IcoAlreadyFinalized),
            _ => Ok(requested),
        },
        IcoStatus::Stopped => if now >= end_date {
            Ok(requested)
        } else {
            Err(IcoError::IcoNotEndedYet)
        },
        _ => Ok(requested),
    }
}

/// What a change of status asked for by `ctx.authority` at `now` comes to:
/// the records to keep, in which only the status differs, or the reason of
/// the refusal.  The caller is tried before the change.
pub open spec fn status_outcome(ctx: UpdateIcoStatus, requested: IcoStatus, now: i64) -> Result<
    UpdateIcoStatus,
    IcoError,
> {
    if ctx.authority != ctx.ico_state.authority {
        Err(IcoError::Unauthorized)
    } else {
        match transition(ctx.ico_state.status, requested, ctx.ico_state.ended(now)) {
            Err(e) => Err(e),
            Ok(status) => Ok(
                UpdateIcoStatus { ico_state: IcoState { status, ..ctx.ico_state }, ..ctx },
            ),
        }
    }
}

/// Sets the status of a campaign at the request of its authority.
///
/// The change is made exactly when the caller is the campaign's authority
/// and `transition` allows it; the records returned differ from those given
/// in the status only.  A refused change returns the reason.
pub fn update_ico_status_at(ctx: &UpdateIcoStatus, new_status: IcoStatus, now: i64) -> (r:
    Result<UpdateIcoStatus, IcoError>)
    ensures
        r == status_outcome(*ctx, new_status, now),
        ctx.authority != ctx.ico_state.authority ==> r is Err,
        r matches Ok(written) ==> ({
            &&& written.ico_state.status == new_status
            &&& ctx.ico_state.well_formed() ==> written.ico_state.well_formed()
        }),
{
    if !(ctx.authority == ctx.ico_state.authority) {
        return Err(IcoError::Unauthorized);
    }
    match next_status(ctx.ico_state.status, new_status, now, ctx.ico_state.end_date) {
        Ok(status) => {
            let mut written = *ctx;
            written.ico_state.status = status;
            Ok(written)
        },
        Err(e) => Err(e),
    }
}

/// Sets the status of a campaign at the request of its authority, at the
/// time that the ledger's clock shows.
///
/// The clock is read only to stop a campaign at the request of its
/// authority: every other request has the result of `update_ico_status_at`,
/// which for it is the same at any time.  A request to stop is refused with
/// `ClockUnavailable` where the clock cannot be read, and otherwise has the
/// result of `update_ico_status_at` at the time read.
pub fn update_ico_status(ctx: &UpdateIcoStatus, new_status: IcoStatus) -> (r: Result<
    UpdateIcoStatus,
    IcoError,
>)
    ensures
        ctx.authority != ctx.ico_state.authority ==> r == Err::<UpdateIcoStatus, IcoError>(
            IcoError::Unauthorized,
        ),
        new_status != IcoStatus::Stopped ==> forall|now: i64|
            r == #[trigger] status_outcome(*ctx, new_status, now),
        r == Err::<UpdateIcoStatus, IcoError>(IcoError::ClockUnavailable) || exists|now: i64|
            r == #[trigger] status_outcome(*ctx, new_status, now),
        r matches Ok(written) ==> written.ico_state.status == new_status,
{
    if !(ctx.authority == ctx.ico_state.authority) {
        return Err(IcoError::Unauthorized);
    }
    match new_status {
        IcoStatus::Stopped => match ledger_time() {
            Some(now) => update_ico_status_at(ctx, new_status, now),
            None => Err(IcoError::ClockUnavailable),
        },
        _ => {
            let r = update_ico_status_at(ctx, new_status, 0);
            assert(r == status_outcome(*ctx, new_status, 0));
            r
        },
    }
}

impl IcoStatusAccount {
    /// The record after `caller` asks for `requested` at `now`, for a
    /// campaign that ends at `end_date`, or why the change is refused: the
    /// caller is tried first, then the stored byte, then the change.
    pub open spec fn updated(self, caller: Identity, requested: IcoStatus, now: i64, end_date: i64)
        -> Result<IcoStatusAccount, IcoError> {
        if caller != self.authority {
            Err(IcoError::Unauthorized)
        } else {
            match IcoStatus::parse(self.status) {
                Err(e) => Err(e),
                Ok(current) => match transition(current, requested, now >= end_date) {
                    Err(e) => Err(e),
                    Ok(status) => Ok(
                        IcoStatusAccount { status: status.tag_of(), authority: self.authority },
                    ),
                },
            }
        }
    }

    /// Sets the status in the record at the request of `caller`.
    ///
    /// The change is made exactly when `updated` gives a record, which the
    /// record then is: it stores the tag of the new status.  A refused change
    /// returns the reason and leaves the record as it was.
    pub fn update(&mut self, caller: &Identity, new_status: IcoStatus, now: i64, end_date: i64)
        -> (r: Result<(), IcoError>)
        ensures
            old(self).updated(*caller, new_status, now, end_date) matches Ok(written) ==> r is Ok
                && *final(self) == written,
            old(self).updated(*caller, new_status, now, end_date) matches Err(e) ==> r == Err::<
                (),
                IcoError,
            >(e) && *final(self) == *old(self),
            r is Ok ==> final(self).current_status() == Ok::<IcoStatus, IcoError>(new_status),
    {
        if !(*caller == self.authority) {
            return Err(IcoError::Unauthorized);
        }
        let current = match IcoStatus::from_tag(self.status) {
            Ok(current) => current,
            Err(e) => {
                return Err(e);
            },
        };
        match next_status(current, new_status, now, end_date) {
            Ok(status) => {
                self.status = status.tag();
                Ok(())
            },
            Err(e) => Err(e),
        }
    }
}

} // verus!
