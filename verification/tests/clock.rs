use ico_project::claim_tokens;
use ico_project::contribute;
use ico_project::refund;
use ico_project::update_ico_status;
use ico_project::whitepaper::submit_whitepaper;
use ico_project::whitepaper::SubmitWhitepaper;
use ico_project::whitepaper::WhitepaperError;
use ico_project::whitepaper::WhitepaperMeta;
use ico_project::withdraw_sol;
use ico_project::ClaimTokens;
use ico_project::Contribute;
use ico_project::Contribution;
use ico_project::IcoError;
use ico_project::IcoState;
use ico_project::IcoStatus;
use ico_project::Identity;
use ico_project::Policy;
use ico_project::Refund;
use ico_project::UpdateIcoStatus;
use ico_project::WithdrawSol;

fn timeless_campaign() -> IcoState {
    IcoState {
        authority: Identity::new([1u8; 32]),
        token_mint: Identity::new([2u8; 32]),
        vault: Identity::new([3u8; 32]),
        token_price: 1_000_000,
        total_contributed: 2_000_000,
        start_date: i64::MIN,
        end_date: i64::MAX,
        token_amount: 10_000_000_000,
        soft_cap: 1_000_000,
        hard_cap: 10_000_000,
        claim_allowed: false,
        status: IcoStatus::Active,
    }
}

fn timeless_record() -> Contribution {
    Contribution {
        user: Identity::new([9u8; 32]),
        ico_state: Identity::new([4u8; 32]),
        amount: 500_000,
    }
}

#[test]
fn operations_that_need_the_time_wait_for_the_clock() {
    let policy = Policy::lenient();
    let ico_state = timeless_campaign();
    let contribution = timeless_record();
    let ctx = Contribute {
        user: contribution.user,
        campaign: contribution.ico_state,
        ico_state,
        contribution,
    };
    assert_eq!(contribute(&ctx, 100_000, &policy), Err(IcoError::ClockUnavailable));
    assert_eq!(contribute(&ctx, 1, &policy), Err(IcoError::ClockUnavailable));
    let ctx = ClaimTokens { ico_state, contribution, token_decimals: 9 };
    assert_eq!(claim_tokens(&ctx, &policy), Err(IcoError::ClockUnavailable));
    let ctx = WithdrawSol { authority: ico_state.authority, ico_state, lamports: 5 };
    assert_eq!(withdraw_sol(&ctx), Err(IcoError::ClockUnavailable));
    let ctx = Refund { ico_state, contribution, lamports: 500_000 };
    assert_eq!(refund(&ctx), Err(IcoError::ClockUnavailable));
}

#[test]
fn status_changes_need_the_clock_only_to_stop() {
    let authority = Identity::new([1u8; 32]);
    let ctx = UpdateIcoStatus { authority, ico_state: timeless_campaign() };
    for requested in [IcoStatus::Inactive, IcoStatus::Active, IcoStatus::Cancelled] {
        let written = update_ico_status(&ctx, requested).unwrap();
        let mut expected = ctx;
        expected.ico_state.status = requested;
        assert_eq!(written, expected);
    }
    assert_eq!(update_ico_status(&ctx, IcoStatus::Stopped), Err(IcoError::ClockUnavailable));
    let mut cancelled = ctx;
    cancelled.ico_state.status = IcoStatus::Cancelled;
    assert_eq!(
        update_ico_status(&cancelled, IcoStatus::Cancelled),
        Err(IcoError::IcoAlreadyFinalized)
    );
    assert_eq!(update_ico_status(&cancelled, IcoStatus::Active).unwrap().ico_state.status, IcoStatus::Active);
    let mut stranger = ctx;
    stranger.authority = Identity::new([7u8; 32]);
    for requested in
        [IcoStatus::Inactive, IcoStatus::Active, IcoStatus::Cancelled, IcoStatus::Stopped]
    {
        assert_eq!(update_ico_status(&stranger, requested), Err(IcoError::Unauthorized));
    }
}

#[test]
fn submission_is_tried_for_its_lengths_before_the_clock() {
    let fresh = || SubmitWhitepaper {
        meta: WhitepaperMeta {
            author: Identity::new([0u8; 32]),
            latest_cid: String::new(),
            version_count: 0,
            last_updated: 0,
            project_name: String::new(),
        },
        author: Identity::new([6u8; 32]),
        bump: 1,
    };
    let mut ctx = fresh();
    assert_eq!(
        submit_whitepaper(&mut ctx, "c".repeat(200), "Project".to_string()),
        Err(WhitepaperError::CIDTooLong)
    );
    assert_eq!(
        submit_whitepaper(&mut ctx, "cid".to_string(), "n".repeat(100)),
        Err(WhitepaperError::NameTooLong)
    );
    assert_eq!(
        submit_whitepaper(&mut ctx, "cid".to_string(), "Project".to_string()),
        Err(WhitepaperError::ClockUnavailable)
    );
    assert_eq!(ctx, fresh());
}
