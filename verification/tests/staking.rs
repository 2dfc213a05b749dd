use reelfun_contract::clock::Clock;
use reelfun_contract::errors::ContractError;
use reelfun_contract::instructions::refund_deposit::{RefundDeposit, RefundDepositParams};
use reelfun_contract::instructions::stake::Stake;
use reelfun_contract::instructions::unstake::Unstake;
use reelfun_contract::pubkey::Pubkey;
use reelfun_contract::state::stake::{StakeParams, StakeWindow, UserStake};

fn key(b: u8) -> Pubkey {
    Pubkey::new_from_array([b; 32])
}

const CURVE: u8 = 3;
const WINDOW: u8 = 4;
const USER: u8 = 11;

fn open_window() -> StakeWindow {
    StakeWindow {
        drama_id: key(9),
        episode_id: 7,
        bonding_curve: key(CURVE),
        creator: key(5),
        open_time: 1_000,
        close_time: 1_000 + 86_400,
        is_closed: false,
        total_stake_weight: 0,
        bump: 250,
    }
}

fn blank_stake() -> UserStake {
    UserStake {
        stake_window: key(0),
        user: key(0),
        bonding_curve: key(0),
        stake_amount: 0,
        lock_days: 0,
        stake_weight: 0,
        normalized_weight: 0,
        prompt: String::new(),
        deposit_paid: 0,
        stake_time: 0,
        unlock_time: 0,
        is_unlocked: false,
        deposit_refunded: false,
        bump: 0,
    }
}

fn stake_ctx(window: StakeWindow) -> Stake {
    Stake {
        user: key(USER),
        bonding_curve: key(CURVE),
        stake_window_key: key(WINDOW),
        stake_window: window,
        user_stake: blank_stake(),
        user_stake_bump: 249,
    }
}

fn params(amount: u64, days: u16, prompt: &str) -> StakeParams {
    StakeParams {
        drama_id: key(9),
        episode_id: 7,
        stake_amount: amount,
        lock_days: days,
        prompt: prompt.to_string(),
    }
}

/// Runs both phases of a stake.
fn stake(ctx: &mut Stake, p: &StakeParams, now: i64) -> Result<(), ContractError> {
    ctx.handler(p, &Clock::at(now))?;
    ctx.record(p, &Clock::at(now))
}

#[test]
fn calculate_weight_is_amount_times_days() {
    assert_eq!(UserStake::calculate_weight(1_000, 7), 7_000);
    assert_eq!(UserStake::calculate_weight(0, 30), 0);
    assert_eq!(
        UserStake::calculate_weight(u64::MAX, u16::MAX),
        (u64::MAX as u128) * (u16::MAX as u128)
    );
}

#[test]
fn weight_grows_with_amount_and_days() {
    assert!(UserStake::calculate_weight(10, 3) <= UserStake::calculate_weight(11, 3));
    assert!(UserStake::calculate_weight(10, 3) <= UserStake::calculate_weight(10, 30));
}

#[test]
fn stake_checks_return_the_transfers() {
    let ctx = stake_ctx(open_window());
    let t = ctx.handler(&params(500, 3, "a scene"), &Clock::at(2_000)).unwrap();
    assert_eq!(t.token_amount, 500);
    assert_eq!(t.deposit_lamports, 10_000_000);
    assert_eq!(t.deposit_from, key(USER));
    assert_eq!(t.deposit_to, key(WINDOW));
    assert_eq!(UserStake::DEPOSIT_AMOUNT, 10_000_000);
}

#[test]
fn stake_records_the_user_stake() {
    let mut ctx = stake_ctx(open_window());
    let p = params(500, 3, "a scene");
    assert_eq!(stake(&mut ctx, &p, 2_000), Ok(()));
    let rec = &ctx.user_stake;
    assert_eq!(rec.stake_window, key(WINDOW));
    assert_eq!(rec.user, key(USER));
    assert_eq!(rec.bonding_curve, key(CURVE));
    assert_eq!(rec.stake_amount, 500);
    assert_eq!(rec.lock_days, 3);
    assert_eq!(rec.stake_weight, 1_500);
    assert_eq!(rec.normalized_weight, 1_500);
    assert_eq!(rec.prompt, "a scene");
    assert_eq!(rec.deposit_paid, 10_000_000);
    assert_eq!(rec.stake_time, 2_000);
    assert_eq!(rec.unlock_time, 2_000 + 3 * 86_400);
    assert!(!rec.is_unlocked);
    assert!(!rec.deposit_refunded);
    assert_eq!(rec.bump, 249);
    assert_eq!(ctx.stake_window.total_stake_weight, 1_500);
}

#[test]
fn total_weight_sums_the_stakes() {
    let mut window = open_window();
    let mut sum: u128 = 0;
    for (i, (amount, days)) in [(100u64, 1u16), (20, 30), (7, 365)].iter().enumerate() {
        let mut ctx = stake_ctx(window);
        ctx.user = key(20 + i as u8);
        assert_eq!(stake(&mut ctx, &params(*amount, *days, "p"), 5_000), Ok(()));
        sum += (*amount as u128) * (*days as u128);
        window = ctx.stake_window;
        assert_eq!(window.total_stake_weight, sum);
    }
    assert_eq!(sum, 100 + 600 + 2_555);
}

#[test]
fn stake_outside_the_window_fails() {
    let ctx = stake_ctx(open_window());
    let p = params(500, 3, "x");
    assert_eq!(ctx.handler(&p, &Clock::at(999)).unwrap_err(), ContractError::WindowNotOpen);
    assert_eq!(ctx.handler(&p, &Clock::at(1_000 + 86_400)).unwrap_err(), ContractError::WindowNotOpen);
    assert!(ctx.handler(&p, &Clock::at(1_000)).is_ok());
}

#[test]
fn stake_into_closed_window_fails() {
    let ctx = stake_ctx(StakeWindow { is_closed: true, ..open_window() });
    assert_eq!(ctx.handler(&params(500, 3, "x"), &Clock::at(2_000)).unwrap_err(), ContractError::WindowNotOpen);
}

#[test]
fn stake_with_wrong_bonding_curve_fails_first() {
    let mut ctx = stake_ctx(StakeWindow { is_closed: true, ..open_window() });
    ctx.bonding_curve = key(99);
    assert_eq!(ctx.handler(&params(0, 0, ""), &Clock::at(2_000)).unwrap_err(), ContractError::InvalidBondingCurve);
}

#[test]
fn stake_amount_must_be_positive() {
    let ctx = stake_ctx(open_window());
    assert_eq!(ctx.handler(&params(0, 3, "x"), &Clock::at(2_000)).unwrap_err(), ContractError::InvalidStakeAmount);
}

#[test]
fn lock_days_between_1_and_365() {
    let ctx = stake_ctx(open_window());
    let now = Clock::at(2_000);
    assert_eq!(ctx.handler(&params(1, 0, "x"), &now).unwrap_err(), ContractError::InvalidLockDays);
    assert_eq!(ctx.handler(&params(1, 366, "x"), &now).unwrap_err(), ContractError::InvalidLockDays);
    assert!(ctx.handler(&params(1, 1, "x"), &now).is_ok());
    assert!(ctx.handler(&params(1, 365, "x"), &now).is_ok());
}

#[test]
fn prompt_between_1_and_500_bytes() {
    let ctx = stake_ctx(open_window());
    let now = Clock::at(2_000);
    assert_eq!(ctx.handler(&params(1, 1, ""), &now).unwrap_err(), ContractError::InvalidPrompt);
    assert!(ctx.handler(&params(1, 1, &"a".repeat(500)), &now).is_ok());
    assert_eq!(ctx.handler(&params(1, 1, &"a".repeat(501)), &now).unwrap_err(), ContractError::InvalidPrompt);
    // the length is counted in bytes: 250 two-byte characters fit, 251 do not
    assert!(ctx.handler(&params(1, 1, &"é".repeat(250)), &now).is_ok());
    assert_eq!(ctx.handler(&params(1, 1, &"é".repeat(251)), &now).unwrap_err(), ContractError::InvalidPrompt);
}

#[test]
fn record_overflow_changes_nothing() {
    let mut ctx = stake_ctx(StakeWindow { total_stake_weight: u128::MAX - 10, ..open_window() });
    let p = params(11, 1, "x");
    assert!(ctx.handler(&p, &Clock::at(2_000)).is_ok());
    assert_eq!(ctx.record(&p, &Clock::at(2_000)), Err(ContractError::Overflow));
    assert_eq!(ctx.stake_window.total_stake_weight, u128::MAX - 10);
    assert_eq!(ctx.user_stake.stake_amount, 0);
    let p = params(10, 1, "x");
    assert_eq!(ctx.record(&p, &Clock::at(2_000)), Ok(()));
    assert_eq!(ctx.stake_window.total_stake_weight, u128::MAX);
}

fn staked_record(amount: u64, days: u16, now: i64) -> UserStake {
    let mut ctx = stake_ctx(open_window());
    stake(&mut ctx, &params(amount, days, "prompt"), now).unwrap();
    ctx.user_stake
}

fn closed_window() -> StakeWindow {
    StakeWindow { is_closed: true, ..open_window() }
}

fn unstake_ctx(rec: UserStake) -> Unstake {
    Unstake { user: key(USER), stake_window_key: key(WINDOW), stake_window: closed_window(), user_stake: rec }
}

#[test]
fn unstake_returns_the_staked_tokens_once() {
    let rec = staked_record(750, 7, 2_000);
    let unlock = 2_000 + 7 * 86_400;
    let mut ctx = unstake_ctx(rec);
    assert_eq!(ctx.handler(&Clock::at(unlock - 1)).unwrap_err(), ContractError::StillLocked);
    assert!(!ctx.user_stake.is_unlocked);
    let release = ctx.handler(&Clock::at(unlock)).unwrap();
    assert_eq!(release.amount, 750);
    assert_eq!(release.signer_seeds, closed_window().signer_seeds());
    assert!(ctx.user_stake.is_unlocked);
    assert_eq!(ctx.handler(&Clock::at(unlock + 5)).unwrap_err(), ContractError::AlreadyUnlocked);
}

#[test]
fn unstake_needs_closed_window() {
    let mut ctx = unstake_ctx(staked_record(750, 1, 2_000));
    ctx.stake_window = open_window();
    assert_eq!(ctx.handler(&Clock::at(i64::MAX)).unwrap_err(), ContractError::WindowStillOpen);
}

#[test]
fn unstake_needs_matching_window_and_user() {
    let mut ctx = unstake_ctx(staked_record(750, 1, 2_000));
    ctx.stake_window_key = key(77);
    assert_eq!(ctx.handler(&Clock::at(i64::MAX)).unwrap_err(), ContractError::InvalidStakeWindow);
    let mut ctx = unstake_ctx(staked_record(750, 1, 2_000));
    ctx.user = key(78);
    assert_eq!(ctx.handler(&Clock::at(i64::MAX)).unwrap_err(), ContractError::Unauthorized);
    assert!(!ctx.user_stake.is_unlocked);
}

fn refund_ctx(rec: UserStake) -> RefundDeposit {
    RefundDeposit { user: key(USER), stake_window_key: key(WINDOW), stake_window: closed_window(), user_stake: rec }
}

fn gct(t: i64) -> RefundDepositParams {
    RefundDepositParams { generation_complete_time: t }
}

#[test]
fn refund_returns_the_deposit_once() {
    let mut ctx = refund_ctx(staked_record(750, 30, 2_000));
    let done = 50_000;
    assert_eq!(
        ctx.handler(&gct(done), &Clock::at(done + 86_399)).unwrap_err(),
        ContractError::RefundNotReady
    );
    let t = ctx.handler(&gct(done), &Clock::at(done + 86_400)).unwrap();
    assert_eq!(t.lamports, 10_000_000);
    assert_eq!(t.from, key(WINDOW));
    assert_eq!(t.to, key(USER));
    assert_eq!(t.signer_seeds, closed_window().signer_seeds());
    assert!(ctx.user_stake.deposit_refunded);
    assert!(!ctx.user_stake.is_unlocked);
    assert_eq!(
        ctx.handler(&gct(done), &Clock::at(done + 90_000)).unwrap_err(),
        ContractError::DepositAlreadyRefunded
    );
}

#[test]
fn refund_needs_completed_generation() {
    let mut ctx = refund_ctx(staked_record(750, 30, 2_000));
    assert_eq!(ctx.handler(&gct(0), &Clock::at(i64::MAX)).unwrap_err(), ContractError::RefundNotReady);
    assert_eq!(ctx.handler(&gct(-5), &Clock::at(i64::MAX)).unwrap_err(), ContractError::RefundNotReady);
    assert!(!ctx.user_stake.deposit_refunded);
}

#[test]
fn refund_needs_closed_window_and_matching_accounts() {
    let mut ctx = refund_ctx(staked_record(750, 30, 2_000));
    ctx.stake_window = open_window();
    assert_eq!(ctx.handler(&gct(1), &Clock::at(i64::MAX)).unwrap_err(), ContractError::WindowStillOpen);
    let mut ctx = refund_ctx(staked_record(750, 30, 2_000));
    ctx.stake_window_key = key(1);
    assert_eq!(ctx.handler(&gct(1), &Clock::at(i64::MAX)).unwrap_err(), ContractError::InvalidStakeWindow);
    let mut ctx = refund_ctx(staked_record(750, 30, 2_000));
    ctx.user = key(2);
    assert_eq!(ctx.handler(&gct(1), &Clock::at(i64::MAX)).unwrap_err(), ContractError::Unauthorized);
}

#[test]
fn can_refund_deposit_a_day_after_generation() {
    let rec = staked_record(1, 1, 2_000);
    assert!(!rec.can_refund_deposit(&Clock::at(100 + 86_399), 100));
    assert!(rec.can_refund_deposit(&Clock::at(100 + 86_400), 100));
    assert!(!rec.can_refund_deposit(&Clock::at(i64::MAX), 0));
}

#[test]
fn can_unlock_from_unlock_time() {
    let rec = staked_record(1, 2, 2_010);
    assert!(!rec.can_unlock(&Clock::at(2_010 + 2 * 86_400 - 1)));
    assert!(rec.can_unlock(&Clock::at(2_010 + 2 * 86_400)));
    let done = UserStake { is_unlocked: true, ..rec };
    assert!(!done.can_unlock(&Clock::at(i64::MAX)));
}

#[test]
fn unstake_does_not_block_refund() {
    let rec = staked_record(5, 1, 2_000);
    let mut u = unstake_ctx(rec);
    assert!(u.handler(&Clock::at(2_000 + 86_400)).is_ok());
    let mut r = refund_ctx(u.user_stake.clone());
    assert_eq!(r.handler(&gct(1), &Clock::at(86_401)).unwrap().lamports, 10_000_000);
}

#[test]
fn refund_and_unstake_once_each_in_any_order() {
    let rec = staked_record(40, 1, 2_000);
    let mut r = refund_ctx(rec);
    assert!(r.handler(&gct(1), &Clock::at(100_000)).is_ok());
    let mut u = unstake_ctx(r.user_stake.clone());
    assert_eq!(u.handler(&Clock::at(100_000)).unwrap().amount, 40);
    let mut r = refund_ctx(u.user_stake.clone());
    assert_eq!(
        r.handler(&gct(1), &Clock::at(200_000)).unwrap_err(),
        ContractError::DepositAlreadyRefunded
    );
    let mut u = unstake_ctx(r.user_stake.clone());
    assert_eq!(u.handler(&Clock::at(200_000)).unwrap_err(), ContractError::AlreadyUnlocked);
    assert_eq!(u.user_stake.stake_amount, 40);
    assert_eq!(u.user_stake.stake_weight, 40);
    assert_eq!(u.user_stake.deposit_paid, 10_000_000);
}
