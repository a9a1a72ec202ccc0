use ico_project::withdraw_sol_at;
use ico_project::Asset;
use ico_project::Holder;
use ico_project::IcoError;
use ico_project::IcoState;
use ico_project::IcoStatus;
use ico_project::Identity;
use ico_project::Transfer;
use ico_project::WithdrawSol;

fn funded_campaign() -> IcoState {
    IcoState {
        authority: Identity::new([1u8; 32]),
        token_mint: Identity::new([2u8; 32]),
        vault: Identity::new([3u8; 32]),
        token_price: 1_000_000,
        total_contributed: 2_000_000,
        start_date: 100,
        end_date: 200,
        token_amount: 10_000_000_000,
        soft_cap: 1_000_000,
        hard_cap: 10_000_000,
        claim_allowed: false,
        status: IcoStatus::Active,
    }
}

fn withdrawal() -> WithdrawSol {
    WithdrawSol {
        authority: Identity::new([1u8; 32]),
        ico_state: funded_campaign(),
        lamports: 2_001_000,
    }
}

fn withdrawal_refusal(ctx: &WithdrawSol, now: i64) -> Option<IcoError> {
    withdraw_sol_at(ctx, now).err()
}

#[test]
fn withdrawal_pays_the_whole_escrow() {
    let ctx = withdrawal();
    let (written, transfer) = withdraw_sol_at(&ctx, 200).unwrap();
    assert_eq!(
        transfer,
        Transfer {
            asset: Asset::Currency,
            from: Holder::Campaign,
            to: Holder::Wallet(Identity::new([1u8; 32])),
            amount: 2_001_000,
        }
    );
    let mut expected = withdrawal();
    expected.lamports = 0;
    expected.ico_state.claim_allowed = true;
    assert_eq!(written, expected);
    assert_eq!(ctx, withdrawal());
}

#[test]
fn withdrawal_cannot_be_repeated() {
    let (written, _) = withdraw_sol_at(&withdrawal(), 200).unwrap();
    assert_eq!(withdraw_sol_at(&written, 200), Err(IcoError::NothingToWithdraw));
    assert_eq!(withdraw_sol_at(&written, 9_999), Err(IcoError::NothingToWithdraw));
}

#[test]
fn empty_escrow_is_not_withdrawn() {
    let mut ctx = withdrawal();
    ctx.lamports = 0;
    assert_eq!(withdraw_sol_at(&ctx, 200), Err(IcoError::NothingToWithdraw));
    ctx.lamports = 1;
    assert_eq!(withdraw_sol_at(&ctx, 200).unwrap().1.amount, 1);
}

#[test]
fn stranger_never_withdraws() {
    let mut one_bit_off = [1u8; 32];
    one_bit_off[31] = 0;
    for stranger in [Identity::new([0u8; 32]), Identity::new([9u8; 32]), Identity::new(one_bit_off)]
    {
        for now in [i64::MIN, 0, 199, 200, 201, i64::MAX] {
            for status in
                [IcoStatus::Active, IcoStatus::Inactive, IcoStatus::Cancelled, IcoStatus::Stopped]
            {
                let mut ctx = withdrawal();
                ctx.authority = stranger;
                ctx.ico_state.status = status;
                let refused = withdrawal_refusal(&ctx, now);
                if now < 200 {
                    assert_eq!(refused, Some(IcoError::IcoNotEndedYet));
                } else {
                    assert_eq!(refused, Some(IcoError::Unauthorized));
                }
            }
        }
    }
}

#[test]
fn withdrawal_waits_for_the_end() {
    let ctx = withdrawal();
    assert_eq!(withdraw_sol_at(&ctx, 199), Err(IcoError::IcoNotEndedYet));
    assert!(withdraw_sol_at(&ctx, 200).is_ok());
}

#[test]
fn withdrawal_needs_an_active_campaign() {
    for status in [IcoStatus::Inactive, IcoStatus::Cancelled, IcoStatus::Stopped] {
        let mut ctx = withdrawal();
        ctx.ico_state.status = status;
        assert_eq!(withdraw_sol_at(&ctx, 300), Err(IcoError::IcoWithdrawNotAllowed));
    }
}

#[test]
fn withdrawal_needs_the_soft_cap() {
    let mut ctx = withdrawal();
    ctx.ico_state.total_contributed = 999_999;
    assert_eq!(withdraw_sol_at(&ctx, 300), Err(IcoError::SoftCapNotReached));
    ctx.ico_state.total_contributed = 1_000_000;
    assert!(withdraw_sol_at(&ctx, 300).is_ok());
}

#[test]
fn withdrawal_refusals_come_in_order() {
    let mut ctx = withdrawal();
    ctx.authority = Identity::new([8u8; 32]);
    ctx.ico_state.status = IcoStatus::Cancelled;
    ctx.ico_state.total_contributed = 0;
    ctx.lamports = 0;
    assert_eq!(withdrawal_refusal(&ctx, 0), Some(IcoError::IcoNotEndedYet));
    assert_eq!(withdrawal_refusal(&ctx, 200), Some(IcoError::Unauthorized));
    ctx.authority = Identity::new([1u8; 32]);
    assert_eq!(withdrawal_refusal(&ctx, 200), Some(IcoError::IcoWithdrawNotAllowed));
    ctx.ico_state.status = IcoStatus::Active;
    assert_eq!(withdrawal_refusal(&ctx, 200), Some(IcoError::SoftCapNotReached));
    ctx.ico_state.total_contributed = 1_000_000;
    assert_eq!(withdrawal_refusal(&ctx, 200), Some(IcoError::NothingToWithdraw));
}
