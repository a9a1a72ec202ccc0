use vstd::prelude::*;

use crate::error::IcoError;
use crate::identity::Identity;
use crate::initialize::initialize_outcome;
use crate::instructions::InitializeIco;
use crate::ledger::lemma_hard_cap_is_kept;
use crate::ledger::lemma_total_is_sum_of_accepted;
use crate::ledger::Call;
use crate::ledger::Ledger;
use crate::ledger::Request;
use crate::mint::declared_decimals;
use crate::pricing::pow10;
use crate::state::Contribution;
use crate::transfer::Asset;

verus! {

/// The sum of `amount(u)` over the contributors `u` of `users`.
pub open spec fn sum_over(users: Set<Identity>, amount: spec_fn(Identity) -> int) -> int
    decreases users.len(),
    when users.finite()
{
    if users.is_empty() {
        0
    } else {
        let user = users.choose();
        amount(user) + sum_over(users.remove(user), amount)
    }
}

/// A sum over contributors can be taken with any of them first.
pub proof fn lemma_sum_takes_any_first(
    users: Set<Identity>,
    amount: spec_fn(Identity) -> int,
    user: Identity,
)
    requires
        users.finite(),
        users.contains(user),
    ensures
        sum_over(users, amount) == amount(user) + sum_over(users.remove(user), amount),
    decreases users.len(),
{
    let chosen = users.choose();
    if chosen != user {
        let rest = users.remove(chosen);
        lemma_sum_takes_any_first(rest, amount, user);
        lemma_sum_takes_any_first(users.remove(user), amount, chosen);
        assert(rest.remove(user) =~= users.remove(user).remove(chosen));
    }
}

/// A sum over contributors depends on the amounts of those contributors only.
pub proof fn lemma_sum_reads_its_users_only(
    users: Set<Identity>,
    amount: spec_fn(Identity) -> int,
    other: spec_fn(Identity) -> int,
)
    requires
        users.finite(),
        forall|u: Identity| users.contains(u) ==> amount(u) == other(u),
    ensures
        sum_over(users, amount) == sum_over(users, other),
    decreases users.len(),
{
    if !users.is_empty() {
        lemma_sum_reads_its_users_only(users.remove(users.choose()), amount, other);
    }
}

/// A sum of amounts of which none is negative is not negative.
pub proof fn lemma_sum_is_not_negative(users: Set<Identity>, amount: spec_fn(Identity) -> int)
    requires
        users.finite(),
        forall|u: Identity| users.contains(u) ==> amount(u) >= 0,
    ensures
        sum_over(users, amount) >= 0,
    decreases users.len(),
{
    if !users.is_empty() {
        lemma_sum_is_not_negative(users.remove(users.choose()), amount);
    }
}

/// Rounded-down shares add up to no more than the rounded-down whole.
pub proof fn lemma_shares_add_up(a: int, b: int, scale: int, price: int)
    requires
        a >= 0,
        b >= 0,
        scale >= 0,
        price > 0,
    ensures
        (a * scale) / price + (b * scale) / price <= ((a + b) * scale) / price,
{
    let x = a * scale;
    let y = b * scale;
    assert((a + b) * scale == x + y) by (nonlinear_arith)
        requires
            x == a * scale,
            y == b * scale,
    ;
    assert(x >= 0 && y >= 0) by (nonlinear_arith)
        requires
            x == a * scale,
            y == b * scale,
            a >= 0,
            b >= 0,
            scale >= 0,
    ;
    assert(x / price + y / price <= (x + y) / price) by (nonlinear_arith)
        requires
            x >= 0,
            y >= 0,
            price > 0,
    ;
}

/// A larger amount buys no fewer tokens.
pub proof fn lemma_share_grows(a: int, b: int, scale: int, price: int)
    requires
        0 <= a <= b,
        scale >= 0,
        price > 0,
    ensures
        (a * scale) / price <= (b * scale) / price,
{
    assert(a * scale <= b * scale) by (nonlinear_arith)
        requires
            0 <= a <= b,
            scale >= 0,
    ;
    vstd::arithmetic::div_mod::lemma_div_is_ordered(a * scale, b * scale, price);
}

impl Ledger {
    /// The amount in the record of each contributor.
    pub open spec fn amounts(self) -> spec_fn(Identity) -> int {
        |user: Identity| self.record_of(user).amount as int
    }

    /// Whether the ledger keeps finitely many records.
    pub open spec fn well_formed(self) -> bool {
        self.contributions.dom().finite()
    }

    /// The sum of the amounts in all records: what was contributed and
    /// neither claimed nor refunded.
    pub open spec fn outstanding(self) -> int {
        sum_over(self.contributions.dom(), self.amounts())
    }

    /// What `call` uses up of any record for tokens.
    pub open spec fn claimed_in(self, call: Call) -> int {
        match call.request {
            Request::Claim { user } => self.claimed_by(call, user),
            _ => 0,
        }
    }

    /// What `call` gives back of any record.
    pub open spec fn refunded_in(self, call: Call) -> int {
        match call.request {
            Request::Refund { user } => self.refunded_to(call, user),
            _ => 0,
        }
    }

    /// The token base units that `call` moves out of the vault.
    pub open spec fn tokens_paid(self, call: Call) -> int {
        match self.transfer_of(call) {
            Some(transfer) => if transfer.asset == Asset::Token {
                transfer.amount as int
            } else {
                0
            },
            None => 0,
        }
    }

    /// The sum of `claimed_in` over `calls`, made one after the other.
    pub open spec fn total_claimed(self, calls: Seq<Call>) -> int
        decreases calls.len(),
    {
        if calls.len() == 0 {
            0
        } else {
            self.claimed_in(calls[0]) + self.after(calls[0]).total_claimed(calls.skip(1))
        }
    }

    /// The sum of `refunded_in` over `calls`, made one after the other.
    pub open spec fn total_refunded(self, calls: Seq<Call>) -> int
        decreases calls.len(),
    {
        if calls.len() == 0 {
            0
        } else {
            self.refunded_in(calls[0]) + self.after(calls[0]).total_refunded(calls.skip(1))
        }
    }

    /// The sum of `tokens_paid` over `calls`, made one after the other.
    pub open spec fn total_tokens_paid(self, calls: Seq<Call>) -> int
        decreases calls.len(),
    {
        if calls.len() == 0 {
            0
        } else {
            self.tokens_paid(calls[0]) + self.after(calls[0]).total_tokens_paid(calls.skip(1))
        }
    }

    /// The token base units that the hard cap buys: the supply that a
    /// campaign is created with.
    pub open spec fn supply_for_hard_cap(self) -> int {
        self.ico_state.hard_cap * pow10(self.token_decimals as nat) / (
        self.ico_state.token_price as int)
    }
}

/// Writing the record of one contributor changes the outstanding sum by
/// what it changes in that record.
pub proof fn lemma_outstanding_after_writing(
    ledger: Ledger,
    written: Ledger,
    user: Identity,
    record: Contribution,
)
    requires
        ledger.well_formed(),
        written.contributions == ledger.contributions.insert(user, record),
        written.campaign == ledger.campaign,
    ensures
        written.well_formed(),
        written.outstanding() == ledger.outstanding() - ledger.record_of(user).amount
            + record.amount,
{
    let users = ledger.contributions.dom();
    let others = users.remove(user);
    assert(written.contributions.dom() =~= users.insert(user));
    assert(written.contributions.dom().remove(user) =~= others);
    lemma_sum_takes_any_first(written.contributions.dom(), written.amounts(), user);
    assert forall|u: Identity| others.contains(u) implies written.amounts()(u)
        == ledger.amounts()(u) by {
        assert(written.record_of(u) == ledger.record_of(u));
    }
    lemma_sum_reads_its_users_only(others, written.amounts(), ledger.amounts());
    if users.contains(user) {
        lemma_sum_takes_any_first(users, ledger.amounts(), user);
    } else {
        assert(others =~= users);
    }
}

/// One call leaves the outstanding sum with what it paid in, less what it
/// turned into tokens and what it gave back.
pub proof fn lemma_outstanding_after(ledger: Ledger, call: Call)
    requires
        ledger.well_formed(),
    ensures
        ledger.after(call).well_formed(),
        ledger.after(call).outstanding() + ledger.claimed_in(call) + ledger.refunded_in(call)
            == ledger.outstanding() + ledger.contributed_in(call),
{
    let next = ledger.after(call);
    match call.request {
        Request::Contribute { user, amount } => {
            if ledger.transfer_of(call) is Some {
                lemma_outstanding_after_writing(ledger, next, user, next.contributions[user]);
            }
        },
        Request::Claim { user } => {
            if ledger.transfer_of(call) is Some {
                lemma_outstanding_after_writing(ledger, next, user, next.contributions[user]);
            }
        },
        Request::Refund { user } => {
            if ledger.transfer_of(call) is Some {
                lemma_outstanding_after_writing(ledger, next, user, next.contributions[user]);
            }
        },
        Request::Withdraw { .. } => {
            assert(next.amounts() == ledger.amounts());
        },
        Request::UpdateStatus { .. } => {
            assert(next.amounts() == ledger.amounts());
        },
    }
}

/// What is outstanding is what was paid in and neither claimed nor
/// refunded: after any sequence of calls, over all contributors together.
pub proof fn lemma_outstanding_is_unspent(ledger: Ledger, calls: Seq<Call>)
    requires
        ledger.well_formed(),
    ensures
        ledger.after_all(calls).well_formed(),
        ledger.after_all(calls).outstanding() + ledger.total_claimed(calls)
            + ledger.total_refunded(calls) == ledger.outstanding() + ledger.total_contributed_in(
            calls,
        ),
        ledger.after_all(calls).outstanding() >= 0,
        ledger.total_claimed(calls) >= 0,
        ledger.total_refunded(calls) >= 0,
    decreases calls.len(),
{
    if calls.len() > 0 {
        lemma_outstanding_after(ledger, calls[0]);
        lemma_outstanding_is_unspent(ledger.after(calls[0]), calls.skip(1));
    } else {
        lemma_sum_is_not_negative(ledger.contributions.dom(), ledger.amounts());
    }
}

/// Claims are paid at the campaign's price: the tokens that a sequence of
/// calls pays out are no more than what the amounts it uses up buy together.
pub proof fn lemma_tokens_are_paid_for(ledger: Ledger, calls: Seq<Call>)
    requires
        ledger.ico_state.token_price > 0,
    ensures
        ledger.total_claimed(calls) >= 0,
        ledger.total_tokens_paid(calls) <= ledger.total_claimed(calls) * pow10(
            ledger.token_decimals as nat,
        ) / (ledger.ico_state.token_price as int),
    decreases calls.len(),
{
    let scale = pow10(ledger.token_decimals as nat) as int;
    let price = ledger.ico_state.token_price as int;
    if calls.len() > 0 {
        let next = ledger.after(calls[0]);
        lemma_tokens_are_paid_for(next, calls.skip(1));
        let first = ledger.claimed_in(calls[0]);
        let rest = next.total_claimed(calls.skip(1));
        assert(ledger.tokens_paid(calls[0]) <= first * scale / price) by {
            assert(0 * scale / price == 0);
        }
        lemma_shares_add_up(first, rest, scale, price);
    } else {
        assert(0 * scale / price == 0);
    }
}

/// Where the hard cap is enforced, the supply that the hard cap buys covers
/// every claim: a campaign whose total is within its hard cap, and whose
/// records hold no more than its total, never pays out more tokens than
/// `hard_cap * 10^decimals / price`, whatever calls it receives.
pub proof fn lemma_supply_covers_the_claims(ledger: Ledger, calls: Seq<Call>)
    requires
        ledger.well_formed(),
        ledger.policy.enforce_hard_cap,
        ledger.ico_state.token_price > 0,
        ledger.outstanding() <= ledger.ico_state.total_contributed <= ledger.ico_state.hard_cap,
    ensures
        ledger.total_tokens_paid(calls) <= ledger.supply_for_hard_cap(),
{
    let scale = pow10(ledger.token_decimals as nat) as int;
    let price = ledger.ico_state.token_price as int;
    lemma_outstanding_is_unspent(ledger, calls);
    lemma_total_is_sum_of_accepted(ledger, calls);
    lemma_hard_cap_is_kept(ledger, calls);
    crate::ledger::lemma_campaign_terms_are_fixed(ledger, calls);
    lemma_tokens_are_paid_for(ledger, calls);
    lemma_share_grows(
        ledger.total_claimed(calls),
        ledger.ico_state.hard_cap as int,
        scale,
        price,
    );
}

/// A campaign that starts without records and without a total, under a
/// policy that enforces the hard cap, never pays out more tokens than it
/// was created with, where that supply is what the hard cap buys.
pub proof fn lemma_new_campaign_covers_its_claims(ledger: Ledger, calls: Seq<Call>)
    requires
        ledger.contributions.dom().is_empty(),
        ledger.ico_state.total_contributed == 0,
        ledger.policy.enforce_hard_cap,
        ledger.ico_state.token_price > 0,
        ledger.ico_state.token_amount == ledger.supply_for_hard_cap(),
    ensures
        ledger.total_tokens_paid(calls) <= ledger.ico_state.token_amount,
{
    assert(ledger.contributions.dom().finite());
    lemma_supply_covers_the_claims(ledger, calls);
}

/// The supply that a campaign is created with covers its claims: where the
/// policy enforces the hard cap, a ledger that starts without records, with
/// the campaign as its creation returned it and the decimal places that the
/// token's mint record declares, never pays out more tokens than were put
/// into the vault at the creation.
pub proof fn lemma_created_campaign_covers_its_claims(
    ctx: InitializeIco,
    price: u64,
    start_date: i64,
    end_date: i64,
    soft_cap: u64,
    hard_cap: u64,
    ledger: Ledger,
    calls: Seq<Call>,
)
    requires
        initialize_outcome(ctx, price, start_date, end_date, soft_cap, hard_cap) matches Ok(
            (ico_state, _),
        ) && ledger.ico_state == ico_state,
        declared_decimals(ctx.mint_data@) == Ok::<u8, IcoError>(ledger.token_decimals),
        ledger.contributions.dom().is_empty(),
        ledger.policy.enforce_hard_cap,
    ensures
        initialize_outcome(ctx, price, start_date, end_date, soft_cap, hard_cap) matches Ok(
            (_, supply),
        ) && ledger.total_tokens_paid(calls) <= supply.amount,
{
    lemma_new_campaign_covers_its_claims(ledger, calls);
}

} // verus!
