//! Properties of the program that span its instructions.
use vstd::prelude::*;

use crate::instructions::close_stake_window::CloseStakeWindow;
use crate::instructions::create_bonding_curve::{CreateBondingCurve, LaunchStep, TokenMetadata};
use crate::instructions::open_stake_window::OpenStakeWindow;
use crate::instructions::refund_deposit::{RefundDeposit, RefundDepositParams};
use crate::instructions::stake::Stake;
use crate::instructions::unstake::Unstake;
use crate::errors::ContractError;
use crate::history::{
    lemma_refund_count, lemma_run_keeps_deposit_amount, lemma_run_keeps_records,
    lemma_run_keeps_total, lemma_unstake_count, refund_count, refunded_lamports,
    released_tokens, run, sum_stake_weights, unstake_count, WindowEvent, WindowState,
};
use crate::instructions::create_bonding_curve::GlobalFlags;
use crate::instructions::transfers::StakeTransfers;
use crate::pubkey::{program_address, Pubkey};
use vstd::bytes::{lemma_auto_spec_u64_to_from_le_bytes, spec_u64_from_le_bytes};
use vstd::utf8::encode_utf8;
use crate::state::stake::{
    stake_weight_of, OpenStakeWindowParams, StakeParams, StakeWindow, UserStake, SECONDS_PER_DAY,
    SECONDS_PER_HOUR,
};

verus! {

/// A window is never open for stakes and ready to close at the same moment.
pub proof fn window_open_and_closable_exclude(w: StakeWindow, now: i64)
    ensures
        !(w.open_at(now) && w.closable_at(now)),
{
}

/// A closed window is neither open nor closable, at any time.
pub proof fn closed_window_is_final(w: StakeWindow, now: i64)
    requires
        w.is_closed,
    ensures
        !w.open_at(now),
        !w.closable_at(now),
{
}

/// A window that opens successfully starts empty and open at the opening
/// time, stays open for 24 to 48 hours exactly as asked, and becomes closable
/// exactly when that time has passed.
pub proof fn opened_window_lifetime(
    ctx: OpenStakeWindow,
    params: OpenStakeWindowParams,
    now: i64,
    later: i64,
)
    requires
        ctx.check(params, now) is Ok,
        now + params.window_duration_hours * SECONDS_PER_HOUR <= i64::MAX,
    ensures
        ({
            let w = ctx.check(params, now)->Ok_0;
            &&& w.open_at(now)
            &&& !w.closable_at(now)
            &&& w.total_stake_weight == 0
            &&& w.close_time - w.open_time == params.window_duration_hours * SECONDS_PER_HOUR
            &&& 24 * SECONDS_PER_HOUR <= w.close_time - w.open_time <= 48 * SECONDS_PER_HOUR
            &&& (now <= later ==> (w.open_at(later) <==> later < w.close_time))
            &&& (now <= later ==> (w.closable_at(later) <==> later >= w.close_time))
        }),
{
}

/// Once a window has been closed, it cannot be closed again and no stake into
/// it passes its checks.
pub proof fn closed_window_refuses_stakes(
    close: CloseStakeWindow,
    closed_at: i64,
    stake: Stake,
    params: StakeParams,
    now: i64,
)
    requires
        close.check(closed_at) is Ok,
        stake.stake_window == (StakeWindow { is_closed: true, ..close.stake_window }),
    ensures
        (CloseStakeWindow {
            stake_window: stake.stake_window,
            ..close
        }).check(now) == Err::<(), ContractError>(ContractError::WindowNotReady),
        stake.check(params, now) is Err,
        stake.stake_window.bonding_curve@ == stake.bonding_curve@ ==> stake.check(params, now)
            == Err::<crate::instructions::transfers::StakeTransfers, ContractError>(
            ContractError::WindowNotOpen,
        ),
{
}

/// A stake passes its checks only while its window is open, for a positive
/// amount, a lock of 1 to 365 days and a prompt of 1 to 500 bytes; it then
/// takes exactly the staked amount in tokens and the fixed deposit in lamports.
pub proof fn accepted_stake(stake: Stake, params: StakeParams, now: i64)
    requires
        stake.check(params, now) is Ok,
    ensures
        stake.stake_window.open_at(now),
        params.stake_amount > 0,
        1 <= params.lock_days <= 365,
        0 < crate::state::stake::prompt_len(params.prompt) <= 500,
        stake.check(params, now)->Ok_0.token_amount == params.stake_amount,
        stake.check(params, now)->Ok_0.deposit_lamports == UserStake::DEPOSIT_AMOUNT,
{
}

/// The record of an accepted stake carries a positive weight equal to the
/// amount times the lock days, unnormalized, and unlocks exactly the lock days
/// after it was made.
pub proof fn staked_record_shape(stake: Stake, params: StakeParams, now: i64)
    requires
        stake.check(params, now) is Ok,
        now + params.lock_days * SECONDS_PER_DAY <= i64::MAX,
    ensures
        ({
            let rec = stake.staked(params, now);
            &&& rec.stake_weight == params.stake_amount as int * params.lock_days as int
            &&& rec.stake_weight > 0
            &&& rec.normalized_weight == rec.stake_weight
            &&& rec.unlock_time - rec.stake_time == params.lock_days * SECONDS_PER_DAY
            &&& SECONDS_PER_DAY <= rec.unlock_time - rec.stake_time <= 365 * SECONDS_PER_DAY
            &&& !rec.is_unlocked
            &&& !rec.deposit_refunded
            &&& rec.deposit_paid == UserStake::DEPOSIT_AMOUNT
        }),
{
    crate::state::stake::lemma_weight_bound(params.stake_amount, params.lock_days);
    assert(params.stake_amount as int * params.lock_days as int > 0) by (nonlinear_arith)
        requires
            params.stake_amount > 0,
            params.lock_days > 0,
    ;
}

/// A larger amount or a longer lock never gives a smaller weight.
pub proof fn weight_is_monotone(a1: u64, d1: u16, a2: u64, d2: u16)
    requires
        a1 <= a2,
        d1 <= d2,
    ensures
        stake_weight_of(a1, d1) <= stake_weight_of(a2, d2),
{
    assert(a1 as int * d1 as int <= a2 as int * d2 as int) by (nonlinear_arith)
        requires
            0 <= a1 <= a2,
            0 <= d1 <= d2,
    ;
}

/// An unstake of a recorded stake, from its own window once that window is
/// closed, gives back exactly the tokens the stake took, and no sooner than
/// the lock days after staking.
pub proof fn unstake_returns_staked_tokens(
    stake: Stake,
    params: StakeParams,
    staked_at: i64,
    unstake: Unstake,
    now: i64,
)
    requires
        stake.check(params, staked_at) is Ok,
        staked_at + params.lock_days * SECONDS_PER_DAY <= i64::MAX,
        unstake.user_stake == stake.staked(params, staked_at),
        unstake.user == stake.user,
        unstake.stake_window_key == stake.stake_window_key,
        unstake.stake_window.is_closed,
    ensures
        now >= staked_at + params.lock_days * SECONDS_PER_DAY ==> unstake.check(now) == Ok::<
            u64,
            ContractError,
        >(stake.check(params, staked_at)->Ok_0.token_amount),
        now < staked_at + params.lock_days * SECONDS_PER_DAY ==> unstake.check(now) == Err::<
            u64,
            ContractError,
        >(ContractError::StillLocked),
{
}

/// A refund of a recorded stake, from its own window once that window is
/// closed, gives back exactly the deposit the stake paid, and only from one
/// day after the generation completed.
pub proof fn refund_returns_deposit(
    stake: Stake,
    params: StakeParams,
    staked_at: i64,
    refund: RefundDeposit,
    refund_params: RefundDepositParams,
    now: i64,
)
    requires
        stake.check(params, staked_at) is Ok,
        staked_at + params.lock_days * SECONDS_PER_DAY <= i64::MAX,
        refund.user_stake == stake.staked(params, staked_at),
        refund.user == stake.user,
        refund.stake_window_key == stake.stake_window_key,
        refund.stake_window.is_closed,
    ensures
        refund_params.generation_complete_time > 0 && now >= refund_params.generation_complete_time
            + SECONDS_PER_DAY ==> refund.check(refund_params, now) == Ok::<u64, ContractError>(
            stake.check(params, staked_at)->Ok_0.deposit_lamports,
        ),
        !(refund_params.generation_complete_time > 0 && now
            >= refund_params.generation_complete_time + SECONDS_PER_DAY) ==> refund.check(
            refund_params,
            now,
        ) == Err::<u64, ContractError>(ContractError::RefundNotReady),
{
}

/// A stake's tokens are given back at most once: after a successful unstake
/// the next one fails with `AlreadyUnlocked`.
pub proof fn unstake_at_most_once(unstake: Unstake, first: i64, second: i64)
    requires
        unstake.check(first) is Ok,
    ensures
        (Unstake {
            user_stake: UserStake { is_unlocked: true, ..unstake.user_stake },
            ..unstake
        }).check(second) == Err::<u64, ContractError>(ContractError::AlreadyUnlocked),
{
}

/// A deposit is refunded at most once: after a successful refund the next one
/// fails with `DepositAlreadyRefunded`.
pub proof fn refund_at_most_once(
    refund: RefundDeposit,
    first_params: RefundDepositParams,
    first: i64,
    second_params: RefundDepositParams,
    second: i64,
)
    requires
        refund.check(first_params, first) is Ok,
    ensures
        (RefundDeposit {
            user_stake: UserStake { deposit_refunded: true, ..refund.user_stake },
            ..refund
        }).check(second_params, second) == Err::<u64, ContractError>(
            ContractError::DepositAlreadyRefunded,
        ),
{
}

/// Unstaking and refunding touch separate flags: one never blocks the other.
pub proof fn unstake_and_refund_independent(
    unstake: Unstake,
    refund_params: RefundDepositParams,
    now: i64,
    later: i64,
)
    requires
        unstake.check(now) is Ok,
    ensures
        (RefundDeposit {
            user: unstake.user,
            stake_window_key: unstake.stake_window_key,
            stake_window: unstake.stake_window,
            user_stake: UserStake { is_unlocked: true, ..unstake.user_stake },
        }).check(refund_params, later) == (RefundDeposit {
            user: unstake.user,
            stake_window_key: unstake.stake_window_key,
            stake_window: unstake.stake_window,
            user_stake: unstake.user_stake,
        }).check(refund_params, later),
{
}

/// A launch that passes its checks mints the whole supply exactly once and
/// then revokes the mint authority, so no token can be minted afterwards.
pub proof fn launch_mints_supply_once(ctx: CreateBondingCurve, metadata: TokenMetadata)
    ensures
        ({
            let steps = ctx.steps(metadata);
            &&& steps.len() == 5
            &&& steps[2] == LaunchStep::MintSupply { amount: ctx.token_total_supply }
            &&& steps[3] == LaunchStep::RevokeMintAuthority
            &&& forall|i: int|
                0 <= i < steps.len() && i != 2 ==> !(#[trigger] steps[i] is MintSupply)
        }),
{
}

/// With the whitelist enabled, a launch passes its checks only from the
/// whitelist address derived from the creator, and only if it holds data.
pub proof fn launch_needs_whitelist_entry(ctx: CreateBondingCurve)
    requires
        ctx.global.whitelist_enabled,
        ctx.launch_check(ctx.expected_whitelist()) is Ok,
    ensures
        ctx.expected_whitelist() == Some(ctx.whitelist@),
        !ctx.whitelist_data_empty,
        ctx.global.initialized,
        ctx.global.running,
{
}

/// The window that a successful open at `now` creates at `window_key`, before
/// any stake is recorded in it.
pub open spec fn opened_window_state(
    ctx: OpenStakeWindow,
    params: OpenStakeWindowParams,
    now: i64,
    window_key: Pubkey,
) -> WindowState {
    WindowState { window_key, window: ctx.check(params, now)->Ok_0, stakes: Seq::empty() }
}

/// Over any history of stakes, closes, unstakes and refunds that reaches a
/// freshly opened window, its total weight is the sum of the weights of the
/// stakes recorded in it.
pub proof fn window_total_is_sum_over_history(
    ctx: OpenStakeWindow,
    params: OpenStakeWindowParams,
    now: i64,
    window_key: Pubkey,
    events: Seq<WindowEvent>,
)
    requires
        ctx.check(params, now) is Ok,
    ensures
        ({
            let end = run(opened_window_state(ctx, params, now, window_key), events);
            end.window.total_stake_weight == sum_stake_weights(end.stakes)
        }),
{
    lemma_run_keeps_total(opened_window_state(ctx, params, now, window_key), events);
}

/// Once a stake's deposit is refunded, or its tokens given back, it stays so
/// under every later instruction; its amounts and weight never change.
pub proof fn stake_flags_stay_set(s: WindowState, events: Seq<WindowEvent>, index: int)
    requires
        0 <= index < s.stakes.len(),
    ensures
        index < run(s, events).stakes.len(),
        s.stakes[index].deposit_refunded ==> run(s, events).stakes[index].deposit_refunded,
        s.stakes[index].is_unlocked ==> run(s, events).stakes[index].is_unlocked,
        run(s, events).stakes[index].stake_amount == s.stakes[index].stake_amount,
        run(s, events).stakes[index].stake_weight == s.stakes[index].stake_weight,
        run(s, events).stakes[index].deposit_paid == s.stakes[index].deposit_paid,
{
    lemma_run_keeps_records(s, events, index);
}

/// Over any history that reaches a freshly opened window, in any order and at
/// any times, each stake's deposit is refunded at most once, and what is
/// refunded for it is exactly the fixed deposit it paid.
pub proof fn deposit_refunded_at_most_once_over_history(
    ctx: OpenStakeWindow,
    params: OpenStakeWindowParams,
    now: i64,
    window_key: Pubkey,
    events: Seq<WindowEvent>,
    index: nat,
)
    requires
        ctx.check(params, now) is Ok,
    ensures
        ({
            let start = opened_window_state(ctx, params, now, window_key);
            &&& refund_count(start, events, index) <= 1
            &&& refunded_lamports(start, events, index) == if refund_count(start, events, index)
                == 0 {
                0
            } else {
                UserStake::DEPOSIT_AMOUNT as int
            }
        }),
{
    let start = opened_window_state(ctx, params, now, window_key);
    lemma_refund_count(start, events, index);
    lemma_run_keeps_deposit_amount(start, events);
    if refund_count(start, events, index) == 1 {
        assert(run(start, events).stakes[index as int].deposit_paid == UserStake::DEPOSIT_AMOUNT);
    }
}

/// Over any history that reaches a freshly opened window, each stake's tokens
/// are given back at most once, and what is given back is exactly the amount
/// the stake took.
pub proof fn tokens_given_back_at_most_once_over_history(
    ctx: OpenStakeWindow,
    params: OpenStakeWindowParams,
    now: i64,
    window_key: Pubkey,
    events: Seq<WindowEvent>,
    index: nat,
)
    requires
        ctx.check(params, now) is Ok,
    ensures
        ({
            let start = opened_window_state(ctx, params, now, window_key);
            let end = run(start, events);
            &&& unstake_count(start, events, index) <= 1
            &&& released_tokens(start, events, index) == if unstake_count(start, events, index)
                == 0 {
                0
            } else {
                end.stakes[index as int].stake_amount as int
            }
        }),
{
    lemma_unstake_count(opened_window_state(ctx, params, now, window_key), events, index);
}

/// A window is open for stakes exactly from its open time up to, not
/// including, its close time, while it is not closed; it may be closed exactly
/// from its close time on, while it is not closed.
pub proof fn window_times(w: StakeWindow, now: i64)
    ensures
        w.open_at(now) <==> (!w.is_closed && w.open_time <= now && now < w.close_time),
        w.closable_at(now) <==> (!w.is_closed && now >= w.close_time),
{
}

/// A stake is weighted by its amount times its lock days.
pub proof fn weight_is_amount_times_days(stake_amount: u64, lock_days: u16)
    ensures
        stake_weight_of(stake_amount, lock_days) == stake_amount as int * lock_days as int,
{
}

/// A stake's tokens may be withdrawn exactly from its unlock time on, once; its
/// deposit may be refunded exactly from one day after generation completed, if
/// it did, once.
pub proof fn stake_record_times(u: UserStake, now: i64, generation_complete_time: i64)
    ensures
        u.unlockable_at(now) <==> (!u.is_unlocked && now >= u.unlock_time),
        u.refundable_at(now, generation_complete_time) <==> (!u.deposit_refunded
            && generation_complete_time > 0 && now >= generation_complete_time + 86400),
{
}

/// Every stake that meets the stated rules is accepted: the window belongs to
/// the bonding curve, is not closed and `now` lies in `[open_time,
/// close_time)`, the amount is positive, the lock is 1 to 365 days and the
/// prompt is 1 to 500 bytes. It then takes the whole amount in tokens and the
/// fixed 0.01 SOL deposit from the user to the window. Each broken rule gives
/// its own error, checked in that order.
pub proof fn stake_rules(stake: Stake, params: StakeParams, now: i64)
    ensures
        ({
            let w = stake.stake_window;
            let len = encode_utf8(params.prompt@).len();
            let curve_ok = w.bonding_curve@ == stake.bonding_curve@;
            let open = !w.is_closed && w.open_time <= now && now < w.close_time;
            &&& !curve_ok ==> stake.check(params, now) == Err::<StakeTransfers, ContractError>(
                ContractError::InvalidBondingCurve,
            )
            &&& curve_ok && !open ==> stake.check(params, now) == Err::<
                StakeTransfers,
                ContractError,
            >(ContractError::WindowNotOpen)
            &&& curve_ok && open && params.stake_amount == 0 ==> stake.check(params, now) == Err::<
                StakeTransfers,
                ContractError,
            >(ContractError::InvalidStakeAmount)
            &&& curve_ok && open && params.stake_amount > 0 && (params.lock_days == 0
                || params.lock_days > 365) ==> stake.check(params, now) == Err::<
                StakeTransfers,
                ContractError,
            >(ContractError::InvalidLockDays)
            &&& curve_ok && open && params.stake_amount > 0 && 1 <= params.lock_days <= 365 && (
            len == 0 || 500 < len <= usize::MAX) ==> stake.check(params, now) == Err::<
                StakeTransfers,
                ContractError,
            >(ContractError::InvalidPrompt)
            &&& curve_ok && open && params.stake_amount > 0 && 1 <= params.lock_days <= 365 && 0
                < len <= 500 ==> stake.check(params, now) == Ok::<StakeTransfers, ContractError>(
                StakeTransfers {
                    token_amount: params.stake_amount,
                    deposit_from: stake.user,
                    deposit_to: stake.stake_window_key,
                    deposit_lamports: 10_000_000,
                },
            )
        }),
{
}

/// The record of a stake names the window, the user and the bonding curve,
/// keeps the amount, lock, prompt and deposit, is weighted by amount times
/// lock days (normalized alike), was made at `now` and unlocks exactly the
/// lock days later; neither its tokens nor its deposit have been given back.
pub proof fn stake_record_fields(stake: Stake, params: StakeParams, now: i64)
    ensures
        ({
            let rec = stake.staked(params, now);
            &&& rec.stake_window == stake.stake_window_key
            &&& rec.user == stake.user
            &&& rec.bonding_curve == stake.bonding_curve
            &&& rec.stake_amount == params.stake_amount
            &&& rec.lock_days == params.lock_days
            &&& rec.stake_weight == params.stake_amount as int * params.lock_days as int
            &&& rec.normalized_weight == rec.stake_weight
            &&& rec.prompt == params.prompt
            &&& rec.deposit_paid == 10_000_000
            &&& rec.stake_time == now
            &&& (now + params.lock_days * 86400 <= i64::MAX ==> rec.unlock_time == now
                + params.lock_days * 86400)
            &&& !rec.is_unlocked
            &&& !rec.deposit_refunded
            &&& rec.bump == stake.user_stake_bump
        }),
{
    crate::state::stake::lemma_weight_bound(params.stake_amount, params.lock_days);
}

/// Recording a stake overflows exactly when the window's total plus the
/// stake's amount times lock days exceeds `u128::MAX`.
pub proof fn stake_total_rule(stake: Stake, params: StakeParams)
    ensures
        stake.total_overflows(params) <==> stake.stake_window.total_stake_weight
            + params.stake_amount as int * params.lock_days as int > u128::MAX,
{
}

/// The signer of the curve may open a window for every length from 24 to 48
/// hours: it opens at `now`, closes exactly the asked hours later, is not
/// closed, holds no weight yet and records the drama, episode, curve, creator
/// and bump. Any other length is refused, and so is any other signer, first.
pub proof fn open_window_rules(ctx: OpenStakeWindow, params: OpenStakeWindowParams, now: i64)
    ensures
        !(ctx.bonding_curve_creator@ == ctx.creator@) ==> ctx.check(params, now) == Err::<
            StakeWindow,
            ContractError,
        >(ContractError::Unauthorized),
        ctx.bonding_curve_creator@ == ctx.creator@ && (params.window_duration_hours < 24
            || params.window_duration_hours > 48) ==> ctx.check(params, now) == Err::<
            StakeWindow,
            ContractError,
        >(ContractError::InvalidWindowDuration),
        ctx.bonding_curve_creator@ == ctx.creator@ && 24 <= params.window_duration_hours <= 48
            && now + params.window_duration_hours * 3600 <= i64::MAX ==> {
            &&& ctx.check(params, now) is Ok
            &&& ctx.check(params, now)->Ok_0.open_time == now
            &&& ctx.check(params, now)->Ok_0.close_time == now + params.window_duration_hours
                * 3600
            &&& !ctx.check(params, now)->Ok_0.is_closed
            &&& ctx.check(params, now)->Ok_0.total_stake_weight == 0
            &&& ctx.check(params, now)->Ok_0.drama_id == params.drama_id
            &&& ctx.check(params, now)->Ok_0.episode_id == params.episode_id
            &&& ctx.check(params, now)->Ok_0.bonding_curve == ctx.bonding_curve
            &&& ctx.check(params, now)->Ok_0.creator == ctx.creator
            &&& ctx.check(params, now)->Ok_0.bump == ctx.stake_window_bump
        },
{
}

/// A window can be closed only by its creator, only once, and only from its
/// close time on; then it always can.
pub proof fn close_window_rules(ctx: CloseStakeWindow, now: i64)
    ensures
        ctx.check(now) is Ok <==> (ctx.stake_window.creator@ == ctx.creator@
            && !ctx.stake_window.is_closed && now >= ctx.stake_window.close_time),
        !(ctx.stake_window.creator@ == ctx.creator@) ==> ctx.check(now) == Err::<(), ContractError>(
            ContractError::Unauthorized,
        ),
        ctx.stake_window.creator@ == ctx.creator@ && !(!ctx.stake_window.is_closed && now
            >= ctx.stake_window.close_time) ==> ctx.check(now) == Err::<(), ContractError>(
            ContractError::WindowNotReady,
        ),
{
}

/// An unstake gives back the record's whole amount exactly when the window is
/// closed, the record is the user's and of this window, not yet unlocked, and
/// its unlock time has come.
pub proof fn unstake_rules(ctx: Unstake, now: i64)
    ensures
        ctx.check(now) is Ok <==> (ctx.stake_window.is_closed && ctx.user_stake.stake_window@
            == ctx.stake_window_key@ && ctx.user_stake.user@ == ctx.user@
            && !ctx.user_stake.is_unlocked && now >= ctx.user_stake.unlock_time),
        ctx.check(now) is Ok ==> ctx.check(now) == Ok::<u64, ContractError>(
            ctx.user_stake.stake_amount,
        ),
{
}

/// A refund gives back the record's whole deposit exactly when the window is
/// closed, the record is the user's and of this window, the deposit was not
/// refunded, generation completed and a day has passed since.
pub proof fn refund_rules(ctx: RefundDeposit, params: RefundDepositParams, now: i64)
    ensures
        ctx.check(params, now) is Ok <==> (ctx.stake_window.is_closed
            && ctx.user_stake.stake_window@ == ctx.stake_window_key@ && ctx.user_stake.user@
            == ctx.user@ && !ctx.user_stake.deposit_refunded && params.generation_complete_time
            > 0 && now >= params.generation_complete_time + 86400),
        ctx.check(params, now) is Ok ==> ctx.check(params, now) == Ok::<u64, ContractError>(
            ctx.user_stake.deposit_paid,
        ),
{
}

/// A launch needs an initialized program that is running, whether or not the
/// whitelist is enabled; with the whitelist disabled nothing else is asked,
/// and with it enabled the whitelist account must be at the derived address
/// and hold data.
pub proof fn launch_rules(ctx: CreateBondingCurve, expected_whitelist: Option<Seq<u8>>)
    ensures
        !ctx.global.initialized ==> ctx.launch_check(expected_whitelist) == Err::<
            (),
            ContractError,
        >(ContractError::NotInitialized),
        ctx.global.initialized && !ctx.global.running ==> ctx.launch_check(expected_whitelist)
            == Err::<(), ContractError>(ContractError::ProgramNotRunning),
        ctx.launch_check(expected_whitelist) is Ok ==> ctx.global.initialized
            && ctx.global.running,
        ctx.global.initialized && ctx.global.running && !ctx.global.whitelist_enabled
            ==> ctx.launch_check(expected_whitelist) is Ok,
        ctx.global.initialized && ctx.global.running && ctx.global.whitelist_enabled ==> (
        ctx.launch_check(expected_whitelist) is Ok <==> (expected_whitelist == Some(
            ctx.whitelist@,
        ) && !ctx.whitelist_data_empty)),
        ctx.global.initialized && ctx.global.running && ctx.global.whitelist_enabled
            && ctx.launch_check(expected_whitelist) is Err ==> ctx.launch_check(expected_whitelist)
            == Err::<(), ContractError>(ContractError::NotWhiteList),
{
}

/// The window signs with the seeds its address was derived from, bump last:
/// the prefix, its drama id and its episode id in little-endian bytes, which
/// decode back to the episode id.
pub proof fn window_signer_seeds(w: StakeWindow)
    ensures
        w.signer_seeds_spec().len() == 4,
        w.signer_seeds_spec()[0] == encode_utf8(StakeWindow::SEED_PREFIX@),
        w.signer_seeds_spec()[1] == w.drama_id@,
        w.signer_seeds_spec()[1] == w.drama_id.bytes@,
        w.signer_seeds_spec()[2].len() == 8,
        spec_u64_from_le_bytes(w.signer_seeds_spec()[2]) == w.episode_id,
        w.signer_seeds_spec()[3] == seq![w.bump],
{
    lemma_auto_spec_u64_to_from_le_bytes();
}

/// A window opened with some drama and episode ids signs with exactly those
/// ids and the bump it was opened with, so the signer seeds derive its own
/// address.
pub proof fn opened_window_signs_with_its_ids(
    ctx: OpenStakeWindow,
    params: OpenStakeWindowParams,
    now: i64,
)
    requires
        ctx.check(params, now) is Ok,
    ensures
        ctx.check(params, now)->Ok_0.signer_seeds_spec()[1] == params.drama_id@,
        spec_u64_from_le_bytes(ctx.check(params, now)->Ok_0.signer_seeds_spec()[2])
            == params.episode_id,
        ctx.check(params, now)->Ok_0.signer_seeds_spec()[3] == seq![ctx.stake_window_bump],
{
    window_signer_seeds(ctx.check(params, now)->Ok_0);
}

/// A launch creates the curve's token account, then the metadata with the
/// given name, symbol and URI, no seller fee, immutable and with the curve as
/// signing update authority, mints the whole supply, revokes the mint
/// authority and freezes the curve's token account, in that order.
pub proof fn launch_step_order(ctx: CreateBondingCurve, metadata: TokenMetadata)
    ensures
        ({
            let steps = ctx.steps(metadata);
            &&& steps.len() == 5
            &&& steps[0] == LaunchStep::CreateCurveTokenAccount
            &&& steps[1] == LaunchStep::CreateMetadata {
                name: metadata.name,
                symbol: metadata.symbol,
                uri: metadata.uri,
                seller_fee_basis_points: 0,
                is_mutable: false,
                update_authority_is_signer: true,
            }
            &&& steps[2] == LaunchStep::MintSupply { amount: ctx.token_total_supply }
            &&& steps[3] == LaunchStep::RevokeMintAuthority
            &&& steps[4] == LaunchStep::FreezeCurveTokenAccount
        }),
{
}

/// The creator's whitelist entry must live at the address derived from the
/// whitelist prefix and the creator's address under the program's id.
pub proof fn whitelist_address_rule(ctx: CreateBondingCurve)
    ensures
        ctx.expected_whitelist() == match program_address(
            seq![ctx.whitelist_seed_prefix@, ctx.creator@],
            ctx.program_id@,
        ) {
            Some(found) => Some(found.0),
            None => None,
        },
{
}

} // verus!
