use vstd::prelude::*;

use crate::claim::claim_outcome;
use crate::error::IcoError;
use crate::instructions::ClaimTokens;
use crate::instructions::Refund;
use crate::instructions::WithdrawSol;
use crate::policy::Policy;
use crate::refund::refund_outcome;
use crate::state::IcoStatus;
use crate::transfer::Transfer;
use crate::withdraw::withdraw_outcome;

verus! {

/// A claim can be made once: after an accepted claim the contributor's
/// amount is zero, and every further claim on the records it left is
/// refused, at any time; from the time of the first claim on, because
/// nothing is left to claim.
pub proof fn lemma_claim_is_single_shot(policy: Policy, ctx: ClaimTokens, now: i64, later: i64)
    requires
        claim_outcome(policy, ctx, now) is Ok,
    ensures
        ({
            &&& claim_outcome(policy, ctx, now) matches Ok((written, _))
            &&& written.contribution.amount == 0
            &&& claim_outcome(policy, written, later) is Err
            &&& later >= now ==> claim_outcome(policy, written, later) == Err::<
                (ClaimTokens, Transfer),
                IcoError,
            >(IcoError::NothingToClaim)
        }),
{
}

/// A refund can be made once: after an accepted refund the contributor's
/// amount is zero, and every further refund on the records it left is
/// refused, at any time; from the time of the first refund on, because
/// nothing is left to refund.
pub proof fn lemma_refund_is_single_shot(ctx: Refund, now: i64, later: i64)
    requires
        refund_outcome(ctx, now) is Ok,
    ensures
        ({
            &&& refund_outcome(ctx, now) matches Ok((written, _))
            &&& written.contribution.amount == 0
            &&& refund_outcome(written, later) is Err
            &&& later >= now ==> refund_outcome(written, later) == Err::<
                (Refund, Transfer),
                IcoError,
            >(IcoError::NoContributionToRefund)
        }),
{
}

/// What was claimed cannot be refunded: a refund on the record that an
/// accepted claim left is refused, whatever the escrow holds and whenever
/// it is asked for.
pub proof fn lemma_claimed_is_not_refunded(
    policy: Policy,
    ctx: ClaimTokens,
    now: i64,
    lamports: u64,
    later: i64,
)
    requires
        claim_outcome(policy, ctx, now) is Ok,
    ensures
        ({
            &&& claim_outcome(policy, ctx, now) matches Ok((written, _))
            &&& refund_outcome(
                Refund {
                    ico_state: written.ico_state,
                    contribution: written.contribution,
                    lamports,
                },
                later,
            ) is Err
        }),
{
}

/// What was refunded cannot be claimed: a claim on the record that an
/// accepted refund left is refused, whatever the policy and the token's
/// decimal places and whenever it is asked for.
pub proof fn lemma_refunded_is_not_claimed(
    ctx: Refund,
    now: i64,
    policy: Policy,
    token_decimals: u8,
    later: i64,
)
    requires
        refund_outcome(ctx, now) is Ok,
    ensures
        ({
            &&& refund_outcome(ctx, now) matches Ok((written, _))
            &&& claim_outcome(
                policy,
                ClaimTokens {
                    ico_state: written.ico_state,
                    contribution: written.contribution,
                    token_decimals,
                },
                later,
            ) is Err
        }),
{
}

/// The proceeds are paid once: a further withdrawal on the records that an
/// accepted withdrawal left is refused, at any time; from the time of the
/// first withdrawal on, because the escrow is empty.
pub proof fn lemma_withdrawal_is_single_shot(ctx: WithdrawSol, now: i64, later: i64)
    requires
        withdraw_outcome(ctx, now) is Ok,
    ensures
        ({
            &&& withdraw_outcome(ctx, now) matches Ok((written, _))
            &&& written.lamports == 0
            &&& written.ico_state.claim_allowed
            &&& withdraw_outcome(written, later) is Err
            &&& later >= now ==> withdraw_outcome(written, later) == Err::<
                (WithdrawSol, Transfer),
                IcoError,
            >(IcoError::NothingToWithdraw)
        }),
{
}

/// No one but the campaign's authority withdraws: whatever the time, the
/// status, the total and the escrow's balance.
pub proof fn lemma_withdrawal_needs_authority(ctx: WithdrawSol, now: i64)
    requires
        ctx.authority != ctx.ico_state.authority,
    ensures
        withdraw_outcome(ctx, now) is Err,
{
}

/// A campaign that is over without its soft cap pays no one but its
/// contributors: while it is still active, claims and withdrawals are
/// refused, and a contributor with an amount that the escrow covers is
/// refunded.
pub proof fn lemma_failed_campaign_only_refunds(
    policy: Policy,
    claim: ClaimTokens,
    withdrawal: WithdrawSol,
    refund: Refund,
    now: i64,
)
    requires
        claim.ico_state == refund.ico_state,
        withdrawal.ico_state == refund.ico_state,
        refund.ico_state.failed(now),
        refund.ico_state.status == IcoStatus::Active,
        0 < refund.contribution.amount <= refund.lamports,
    ensures
        claim_outcome(policy, claim, now) is Err,
        withdraw_outcome(withdrawal, now) is Err,
        refund_outcome(refund, now) is Ok,
{
}

/// A claim on a well-formed campaign is never refused for its price.
pub proof fn lemma_well_formed_campaign_has_a_price(policy: Policy, ctx: ClaimTokens, now: i64)
    requires
        ctx.ico_state.well_formed(),
    ensures
        claim_outcome(policy, ctx, now) != Err::<(ClaimTokens, Transfer), IcoError>(
            IcoError::InvalidPrice,
        ),
{
}

/// A status is stored under a tag of its own, and read back from it.
pub proof fn lemma_status_tag_round_trip(status: IcoStatus, tag: u8)
    ensures
        IcoStatus::parse(status.tag_of()) == Ok::<IcoStatus, IcoError>(status),
        IcoStatus::parse(tag) matches Ok(read) ==> read.tag_of() == tag,
        IcoStatus::parse(tag) is Ok <==> tag <= 3,
{
}

} // verus!
