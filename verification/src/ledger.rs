use vstd::prelude::*;

use crate::claim::claim_outcome;
use crate::contribute::contribute_outcome;
use crate::identity::Identity;
use crate::instructions::ClaimTokens;
use crate::instructions::Contribute;
use crate::instructions::Refund;
use crate::instructions::UpdateIcoStatus;
use crate::instructions::WithdrawSol;
use crate::policy::Policy;
use crate::refund::refund_outcome;
use crate::state::Contribution;
use crate::state::IcoState;
use crate::state::IcoStatus;
use crate::status::status_outcome;
use crate::transfer::Asset;
use crate::transfer::Holder;
use crate::transfer::Transfer;
use crate::withdraw::withdraw_outcome;

verus! {

/// What a party asks of a campaign.
pub enum Request {
    Contribute { user: Identity, amount: u64 },
    Claim { user: Identity },
    Refund { user: Identity },
    Withdraw { caller: Identity },
    UpdateStatus { caller: Identity, status: IcoStatus },
}

/// One request as it reaches the campaign: at the time `now`, and with the
/// word of whoever moves the value on whether the transfer that the request
/// asks for can be carried out.
pub struct Call {
    pub request: Request,
    pub now: i64,
    pub transferable: bool,
}

/// A campaign with the records of its contributors and the balance of its
/// escrow, under one policy.  A contributor without a record has contributed
/// nothing yet.
pub struct Ledger {
    pub policy: Policy,
    /// The campaign's own identity, to which the records refer.
    pub campaign: Identity,
    /// The campaign.
    pub ico_state: IcoState,
    /// Decimal places of the token on sale.
    pub token_decimals: u8,
    /// The records, by contributor.
    pub contributions: Map<Identity, Contribution>,
    /// What the escrow holds.
    pub lamports: u64,
}

impl Ledger {
    /// The record of `user`: the one that is kept, or an empty one.
    pub open spec fn record_of(self, user: Identity) -> Contribution {
        if self.contributions.dom().contains(user) {
            self.contributions[user]
        } else {
            Contribution { user, ico_state: self.campaign, amount: 0 }
        }
    }

    /// What a contribution of `user` reads.
    pub open spec fn contribution_of(self, user: Identity) -> Contribute {
        Contribute {
            user,
            campaign: self.campaign,
            ico_state: self.ico_state,
            contribution: self.record_of(user),
        }
    }

    /// What a claim of `user` reads.
    pub open spec fn claim_of(self, user: Identity) -> ClaimTokens {
        ClaimTokens {
            ico_state: self.ico_state,
            contribution: self.record_of(user),
            token_decimals: self.token_decimals,
        }
    }

    /// What a refund of `user` reads.
    pub open spec fn refund_of(self, user: Identity) -> Refund {
        Refund {
            ico_state: self.ico_state,
            contribution: self.record_of(user),
            lamports: self.lamports,
        }
    }

    /// What a withdrawal of `caller` reads.
    pub open spec fn withdrawal_of(self, caller: Identity) -> WithdrawSol {
        WithdrawSol { authority: caller, ico_state: self.ico_state, lamports: self.lamports }
    }

    /// What a change of status by `caller` reads.
    pub open spec fn status_update_of(self, caller: Identity) -> UpdateIcoStatus {
        UpdateIcoStatus { authority: caller, ico_state: self.ico_state }
    }

    /// The transfer that `call` brings about: the one that its operation
    /// asks for, if the operation accepts the request and the transfer can
    /// be carried out.  A contribution that the escrow cannot hold cannot be
    /// carried out.
    pub open spec fn transfer_of(self, call: Call) -> Option<Transfer> {
        if !call.transferable {
            None
        } else {
            match call.request {
                Request::Contribute { user, amount } => match contribute_outcome(
                    self.policy,
                    self.contribution_of(user),
                    amount,
                    call.now,
                ) {
                    Ok((_, transfer)) => if self.lamports + amount <= u64::MAX {
                        Some(transfer)
                    } else {
                        None
                    },
                    Err(_) => None,
                },
                Request::Claim { user } => match claim_outcome(
                    self.policy,
                    self.claim_of(user),
                    call.now,
                ) {
                    Ok((_, transfer)) => Some(transfer),
                    Err(_) => None,
                },
                Request::Refund { user } => match refund_outcome(self.refund_of(user), call.now) {
                    Ok((_, transfer)) => Some(transfer),
                    Err(_) => None,
                },
                Request::Withdraw { caller } => match withdraw_outcome(
                    self.withdrawal_of(caller),
                    call.now,
                ) {
                    Ok((_, transfer)) => Some(transfer),
                    Err(_) => None,
                },
                Request::UpdateStatus { .. } => None,
            }
        }
    }

    /// The ledger after `call`.  A request that moves value takes effect
    /// exactly when its transfer is brought about, and then leaves the
    /// records that its operation returns; a change of status takes effect
    /// when its operation accepts it.  Any other call changes nothing.
    pub open spec fn after(self, call: Call) -> Ledger {
        match call.request {
            Request::Contribute { user, amount } => match contribute_outcome(
                self.policy,
                self.contribution_of(user),
                amount,
                call.now,
            ) {
                Ok((written, _)) => if self.transfer_of(call) is Some {
                    Ledger {
                        ico_state: written.ico_state,
                        contributions: self.contributions.insert(user, written.contribution),
                        lamports: (self.lamports + amount) as u64,
                        ..self
                    }
                } else {
                    self
                },
                Err(_) => self,
            },
            Request::Claim { user } => match claim_outcome(
                self.policy,
                self.claim_of(user),
                call.now,
            ) {
                Ok((written, _)) => if self.transfer_of(call) is Some {
                    Ledger {
                        contributions: self.contributions.insert(user, written.contribution),
                        ..self
                    }
                } else {
                    self
                },
                Err(_) => self,
            },
            Request::Refund { user } => match refund_outcome(self.refund_of(user), call.now) {
                Ok((written, _)) => if self.transfer_of(call) is Some {
                    Ledger {
                        contributions: self.contributions.insert(user, written.contribution),
                        lamports: written.lamports,
                        ..self
                    }
                } else {
                    self
                },
                Err(_) => self,
            },
            Request::Withdraw { caller } => match withdraw_outcome(
                self.withdrawal_of(caller),
                call.now,
            ) {
                Ok((written, _)) => if self.transfer_of(call) is Some {
                    Ledger { ico_state: written.ico_state, lamports: written.lamports, ..self }
                } else {
                    self
                },
                Err(_) => self,
            },
            Request::UpdateStatus { caller, status } => match status_outcome(
                self.status_update_of(caller),
                status,
                call.now,
            ) {
                Ok(written) => Ledger { ico_state: written.ico_state, ..self },
                Err(_) => self,
            },
        }
    }

    /// The ledger after the calls of `calls`, one after the other.
    pub open spec fn after_all(self, calls: Seq<Call>) -> Ledger
        decreases calls.len(),
    {
        if calls.len() == 0 {
            self
        } else {
            self.after(calls[0]).after_all(calls.skip(1))
        }
    }

    /// What `call` adds to the campaign's total: the amount of a
    /// contribution that takes effect.
    pub open spec fn contributed_in(self, call: Call) -> int {
        match call.request {
            Request::Contribute { user, amount } => if self.transfer_of(call) is Some {
                amount as int
            } else {
                0
            },
            _ => 0,
        }
    }

    /// What `call` adds to the record of `user`: the amount of a
    /// contribution of `user` that takes effect.
    pub open spec fn contributed_by(self, call: Call, user: Identity) -> int {
        match call.request {
            Request::Contribute { user: payer, amount } => if payer == user && self.transfer_of(
                call,
            ) is Some {
                amount as int
            } else {
                0
            },
            _ => 0,
        }
    }

    /// What `call` uses up of the record of `user` for tokens: the amount
    /// in the record, if `call` is a claim of `user` that takes effect.
    pub open spec fn claimed_by(self, call: Call, user: Identity) -> int {
        match call.request {
            Request::Claim { user: claimant } => if claimant == user && self.transfer_of(call)
                is Some {
                self.record_of(user).amount as int
            } else {
                0
            },
            _ => 0,
        }
    }

    /// What `call` gives back of the record of `user`: the amount in the
    /// record, if `call` is a refund of `user` that takes effect.
    pub open spec fn refunded_to(self, call: Call, user: Identity) -> int {
        match call.request {
            Request::Refund { user: payee } => if payee == user && self.transfer_of(call)
                is Some {
                self.record_of(user).amount as int
            } else {
                0
            },
            _ => 0,
        }
    }

    /// What `call` moves into the escrow.
    pub open spec fn paid_in(self, call: Call) -> int {
        match self.transfer_of(call) {
            Some(transfer) => if transfer.asset == Asset::Currency && transfer.to
                == Holder::Campaign {
                transfer.amount as int
            } else {
                0
            },
            None => 0,
        }
    }

    /// What `call` moves out of the escrow.
    pub open spec fn paid_out(self, call: Call) -> int {
        match self.transfer_of(call) {
            Some(transfer) => if transfer.asset == Asset::Currency && transfer.from
                == Holder::Campaign {
                transfer.amount as int
            } else {
                0
            },
            None => 0,
        }
    }

    /// The sum of `contributed_in` over `calls`, made one after the other.
    pub open spec fn total_contributed_in(self, calls: Seq<Call>) -> int
        decreases calls.len(),
    {
        if calls.len() == 0 {
            0
        } else {
            self.contributed_in(calls[0]) + self.after(calls[0]).total_contributed_in(
                calls.skip(1),
            )
        }
    }

    /// The sum of `contributed_by` over `calls`, made one after the other.
    pub open spec fn total_contributed_by(self, calls: Seq<Call>, user: Identity) -> int
        decreases calls.len(),
    {
        if calls.len() == 0 {
            0
        } else {
            self.contributed_by(calls[0], user) + self.after(calls[0]).total_contributed_by(
                calls.skip(1),
                user,
            )
        }
    }

    /// The sum of `claimed_by` over `calls`, made one after the other.
    pub open spec fn total_claimed_by(self, calls: Seq<Call>, user: Identity) -> int
        decreases calls.len(),
    {
        if calls.len() == 0 {
            0
        } else {
            self.claimed_by(calls[0], user) + self.after(calls[0]).total_claimed_by(
                calls.skip(1),
                user,
            )
        }
    }

    /// The sum of `refunded_to` over `calls`, made one after the other.
    pub open spec fn total_refunded_to(self, calls: Seq<Call>, user: Identity) -> int
        decreases calls.len(),
    {
        if calls.len() == 0 {
            0
        } else {
            self.refunded_to(calls[0], user) + self.after(calls[0]).total_refunded_to(
                calls.skip(1),
                user,
            )
        }
    }

    /// The sum of `paid_in` over `calls`, made one after the other.
    pub open spec fn total_paid_in(self, calls: Seq<Call>) -> int
        decreases calls.len(),
    {
        if calls.len() == 0 {
            0
        } else {
            self.paid_in(calls[0]) + self.after(calls[0]).total_paid_in(calls.skip(1))
        }
    }

    /// The sum of `paid_out` over `calls`, made one after the other.
    pub open spec fn total_paid_out(self, calls: Seq<Call>) -> int
        decreases calls.len(),
    {
        if calls.len() == 0 {
            0
        } else {
            self.paid_out(calls[0]) + self.after(calls[0]).total_paid_out(calls.skip(1))
        }
    }
}

/// After any sequence of calls the campaign's total has grown by the sum of
/// the contributions that took effect, and by nothing else: whatever is
/// asked, by whom and when, and whichever calls are refused or fail.
pub proof fn lemma_total_is_sum_of_accepted(ledger: Ledger, calls: Seq<Call>)
    ensures
        ledger.after_all(calls).ico_state.total_contributed == ledger.ico_state.total_contributed
            + ledger.total_contributed_in(calls),
    decreases calls.len(),
{
    if calls.len() > 0 {
        lemma_total_is_sum_of_accepted(ledger.after(calls[0]), calls.skip(1));
    }
}

/// No amount is spent twice: after any sequence of calls, what a contributor
/// has paid in is what the contributor's record still holds, what claims
/// have turned into tokens and what refunds have given back.
pub proof fn lemma_contributions_are_spent_once(ledger: Ledger, calls: Seq<Call>, user: Identity)
    ensures
        ledger.record_of(user).amount + ledger.total_contributed_by(calls, user)
            == ledger.after_all(calls).record_of(user).amount + ledger.total_claimed_by(
            calls,
            user,
        ) + ledger.total_refunded_to(calls, user),
    decreases calls.len(),
{
    if calls.len() > 0 {
        lemma_contributions_are_spent_once(ledger.after(calls[0]), calls.skip(1), user);
    }
}

/// The escrow holds what came in and did not go out: after any sequence of
/// calls its balance is the balance before, with every contribution that
/// took effect added and every refund and withdrawal taken off.
pub proof fn lemma_escrow_is_conserved(ledger: Ledger, calls: Seq<Call>)
    ensures
        ledger.after_all(calls).lamports + ledger.total_paid_out(calls) == ledger.lamports
            + ledger.total_paid_in(calls),
    decreases calls.len(),
{
    if calls.len() > 0 {
        lemma_escrow_is_conserved(ledger.after(calls[0]), calls.skip(1));
    }
}

/// Nothing but contributions enters the escrow: what the calls pay in is
/// what they add to the campaign's total.
pub proof fn lemma_escrow_takes_contributions_only(ledger: Ledger, calls: Seq<Call>)
    ensures
        ledger.total_paid_in(calls) == ledger.total_contributed_in(calls),
    decreases calls.len(),
{
    if calls.len() > 0 {
        lemma_escrow_takes_contributions_only(ledger.after(calls[0]), calls.skip(1));
    }
}

/// Calls change nothing of what the campaign was created with, and nothing
/// of the ledger's policy.
pub proof fn lemma_campaign_terms_are_fixed(ledger: Ledger, calls: Seq<Call>)
    ensures
        ledger.after_all(calls).ico_state == (IcoState {
            total_contributed: ledger.after_all(calls).ico_state.total_contributed,
            claim_allowed: ledger.after_all(calls).ico_state.claim_allowed,
            status: ledger.after_all(calls).ico_state.status,
            ..ledger.ico_state
        }),
        ledger.after_all(calls).policy == ledger.policy,
        ledger.after_all(calls).campaign == ledger.campaign,
        ledger.after_all(calls).token_decimals == ledger.token_decimals,
        ledger.ico_state.well_formed() ==> ledger.after_all(calls).ico_state.well_formed(),
    decreases calls.len(),
{
    if calls.len() > 0 {
        lemma_campaign_terms_are_fixed(ledger.after(calls[0]), calls.skip(1));
    }
}

/// Where every record is within the contributor's ceiling before a sequence
/// of calls, every record is within it afterwards.
pub proof fn lemma_ceiling_is_kept(ledger: Ledger, calls: Seq<Call>, user: Identity)
    requires
        forall|u: Identity| #[trigger] ledger.record_of(u).well_formed(),
    ensures
        ledger.after_all(calls).record_of(user).well_formed(),
    decreases calls.len(),
{
    if calls.len() > 0 {
        let next = ledger.after(calls[0]);
        assert forall|u: Identity| #[trigger] next.record_of(u).well_formed() by {
            assert(ledger.record_of(u).well_formed());
        }
        lemma_ceiling_is_kept(next, calls.skip(1), user);
    }
}

/// Where the policy enforces the hard cap, a campaign whose total is within
/// its hard cap stays within it.
pub proof fn lemma_hard_cap_is_kept(ledger: Ledger, calls: Seq<Call>)
    requires
        ledger.policy.enforce_hard_cap,
        ledger.ico_state.total_contributed <= ledger.ico_state.hard_cap,
    ensures
        ledger.after_all(calls).ico_state.total_contributed <= ledger.after_all(
            calls,
        ).ico_state.hard_cap,
    decreases calls.len(),
{
    if calls.len() > 0 {
        lemma_hard_cap_is_kept(ledger.after(calls[0]), calls.skip(1));
    }
}

} // verus!
