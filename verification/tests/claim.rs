use ico_project::claim_tokens_at;
use ico_project::pricing::checked_pow10;
use ico_project::pricing::tokens_for;
use ico_project::Asset;
use ico_project::ClaimTokens;
use ico_project::Contribution;
use ico_project::Holder;
use ico_project::IcoError;
use ico_project::IcoState;
use ico_project::IcoStatus;
use ico_project::Identity;
use ico_project::Policy;
use ico_project::Transfer;

fn ended_campaign() -> IcoState {
    IcoState {
        authority: Identity::new([1u8; 32]),
        token_mint: Identity::new([2u8; 32]),
        vault: Identity::new([3u8; 32]),
        token_price: 1_000_000,
        total_contributed: 2_000_000,
        start_date: 100,
        end_date: 200,
        token_amount: 10_000_000_000,
        soft_cap: 1_000_000,
        hard_cap: 10_000_000,
        claim_allowed: false,
        status: IcoStatus::Active,
    }
}

fn claim_of(amount: u64) -> ClaimTokens {
    ClaimTokens {
        ico_state: ended_campaign(),
        contribution: Contribution {
            user: Identity::new([9u8; 32]),
            ico_state: Identity::new([4u8; 32]),
            amount,
        },
        token_decimals: 9,
    }
}

fn claim_refusal(ctx: &ClaimTokens, now: i64, policy: &Policy) -> Option<IcoError> {
    claim_tokens_at(ctx, now, policy).err()
}

#[test]
fn claim_pays_tokens_for_the_amount() {
    let ctx = claim_of(1_500_000);
    let (written, transfer) = claim_tokens_at(&ctx, 200, &Policy::lenient()).unwrap();
    assert_eq!(
        transfer,
        Transfer {
            asset: Asset::Token,
            from: Holder::Vault(Identity::new([3u8; 32])),
            to: Holder::Wallet(Identity::new([9u8; 32])),
            amount: 1_500_000_000,
        }
    );
    assert_eq!(written, claim_of(0));
    assert_eq!(ctx, claim_of(1_500_000));
}

#[test]
fn claim_cannot_be_repeated() {
    let policy = Policy::lenient();
    let (written, _) = claim_tokens_at(&claim_of(1_500_000), 200, &policy).unwrap();
    assert_eq!(written.contribution.amount, 0);
    assert_eq!(claim_tokens_at(&written, 200, &policy), Err(IcoError::NothingToClaim));
    assert_eq!(claim_tokens_at(&written, 5_000, &policy), Err(IcoError::NothingToClaim));
}

#[test]
fn claim_waits_for_the_end() {
    let policy = Policy::lenient();
    let ctx = claim_of(1_500_000);
    for now in [i64::MIN, 0, 100, 199] {
        assert_eq!(claim_tokens_at(&ctx, now, &policy), Err(IcoError::IcoNotEndedYet));
    }
    for now in [200i64, 201, i64::MAX] {
        assert!(claim_tokens_at(&ctx, now, &policy).is_ok());
    }
}

#[test]
fn claim_needs_the_soft_cap() {
    let policy = Policy::lenient();
    let mut ctx = claim_of(999_999);
    ctx.ico_state.total_contributed = 999_999;
    assert_eq!(claim_tokens_at(&ctx, 300, &policy), Err(IcoError::SoftCapNotReached));
    ctx.ico_state.total_contributed = 1_000_000;
    assert!(claim_tokens_at(&ctx, 300, &policy).is_ok());
}

#[test]
fn claim_needs_an_amount() {
    assert_eq!(
        claim_tokens_at(&claim_of(0), 300, &Policy::lenient()),
        Err(IcoError::NothingToClaim)
    );
}

#[test]
fn claim_refusals_come_in_order() {
    let gated = Policy { enforce_hard_cap: false, claim_requires_unlock: true };
    let mut ctx = claim_of(0);
    ctx.ico_state.total_contributed = 0;
    ctx.ico_state.token_price = 0;
    assert_eq!(claim_refusal(&ctx, 0, &gated), Some(IcoError::ClaimNotAllowedYet));
    ctx.ico_state.claim_allowed = true;
    assert_eq!(claim_refusal(&ctx, 0, &gated), Some(IcoError::IcoNotEndedYet));
    assert_eq!(claim_refusal(&ctx, 200, &gated), Some(IcoError::SoftCapNotReached));
    ctx.ico_state.total_contributed = 1_000_000;
    assert_eq!(claim_refusal(&ctx, 200, &gated), Some(IcoError::NothingToClaim));
    ctx.contribution.amount = u64::MAX;
    assert_eq!(claim_refusal(&ctx, 200, &gated), Some(IcoError::MathOverflow));
    ctx.contribution.amount = 5;
    assert_eq!(claim_refusal(&ctx, 200, &gated), Some(IcoError::InvalidPrice));
}

#[test]
fn claim_waits_for_the_withdrawal_only_on_request() {
    let gated = Policy { enforce_hard_cap: false, claim_requires_unlock: true };
    let mut ctx = claim_of(1_000_000);
    assert_eq!(claim_refusal(&ctx, 200, &gated), Some(IcoError::ClaimNotAllowedYet));
    assert!(claim_tokens_at(&ctx, 200, &Policy::lenient()).is_ok());
    ctx.ico_state.claim_allowed = true;
    assert!(claim_tokens_at(&ctx, 200, &gated).is_ok());
}

#[test]
fn claim_does_not_ask_for_the_status() {
    for status in [IcoStatus::Active, IcoStatus::Inactive, IcoStatus::Cancelled, IcoStatus::Stopped]
    {
        let mut ctx = claim_of(1_000_000);
        ctx.ico_state.status = status;
        let (_, transfer) = claim_tokens_at(&ctx, 200, &Policy::lenient()).unwrap();
        assert_eq!(transfer.amount, 1_000_000_000);
    }
}

#[test]
fn tokens_are_amount_times_scale_over_price() {
    assert_eq!(tokens_for(10_000_000, 6, 1_000_000), Ok(10_000_000));
    assert_eq!(tokens_for(10_000_000, 9, 1_000_000), Ok(10_000_000_000));
    assert_eq!(tokens_for(100_000, 9, 1_000_000), Ok(100_000_000));
    assert_eq!(tokens_for(7, 0, 2), Ok(3));
    assert_eq!(tokens_for(1, 3, 3), Ok(333));
    assert_eq!(tokens_for(2, 3, 3), Ok(666));
    assert_eq!(tokens_for(1, 0, 2), Ok(0));
    assert_eq!(tokens_for(0, 6, 5), Ok(0));
    assert_eq!(tokens_for(u64::MAX, 0, 1), Ok(u64::MAX));
    assert_eq!(tokens_for(u64::MAX, 0, u64::MAX), Ok(1));
}

#[test]
fn tokens_beyond_the_range_are_refused() {
    assert_eq!(tokens_for(u64::MAX, 1, 1), Err(IcoError::MathOverflow));
    assert_eq!(tokens_for(1_844_674_407_370_955_161, 1, 1), Ok(18_446_744_073_709_551_610));
    assert_eq!(tokens_for(1_844_674_407_370_955_162, 1, 1), Err(IcoError::MathOverflow));
    assert_eq!(tokens_for(1, 19, 1), Ok(10_000_000_000_000_000_000));
    assert_eq!(tokens_for(2, 19, 1), Err(IcoError::MathOverflow));
    assert_eq!(tokens_for(1, 20, 1), Err(IcoError::MathOverflow));
    assert_eq!(tokens_for(1, 255, u64::MAX), Err(IcoError::MathOverflow));
}

#[test]
fn nothing_times_any_scale_is_nothing() {
    assert_eq!(tokens_for(0, 20, 1), Ok(0));
    assert_eq!(tokens_for(0, 255, 7), Ok(0));
    assert_eq!(tokens_for(0, 255, 0), Err(IcoError::InvalidPrice));
}

#[test]
fn zero_price_is_refused_after_the_range() {
    assert_eq!(tokens_for(5, 6, 0), Err(IcoError::InvalidPrice));
    assert_eq!(tokens_for(u64::MAX, 6, 0), Err(IcoError::MathOverflow));
}

#[test]
fn powers_of_ten_up_to_the_range() {
    assert_eq!(checked_pow10(0), Some(1));
    assert_eq!(checked_pow10(1), Some(10));
    assert_eq!(checked_pow10(6), Some(1_000_000));
    assert_eq!(checked_pow10(19), Some(10_000_000_000_000_000_000));
    assert_eq!(checked_pow10(20), None);
    assert_eq!(checked_pow10(255), None);
}
