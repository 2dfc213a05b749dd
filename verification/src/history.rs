//! Histories of one stake window: the instructions that reach it, in order,
//! and the window and stake records they leave behind. Each step is what the
//! instruction's handler does, as its contract states it; an instruction that
//! fails, or that the runtime would abort, leaves everything as it was.
use vstd::prelude::*;
use vstd::pervasive::arbitrary;

use crate::instructions::close_stake_window::CloseStakeWindow;
use crate::instructions::refund_deposit::{RefundDeposit, RefundDepositParams};
use crate::instructions::stake::Stake;
use crate::instructions::unstake::Unstake;
use crate::pubkey::Pubkey;
use crate::state::stake::{
    stake_weight_of, StakeParams, StakeWindow, UserStake, SECONDS_PER_DAY,
};

verus! {

/// One instruction that reaches a stake window. `index` names a stake record
/// of the window by the order in which it was made.
pub enum WindowEvent {
    Stake { user: Pubkey, bonding_curve: Pubkey, user_stake_bump: u8, params: StakeParams, now: i64 },
    Close { creator: Pubkey, now: i64 },
    Unstake { index: nat, user: Pubkey, now: i64 },
    RefundDeposit { index: nat, user: Pubkey, params: RefundDepositParams, now: i64 },
}

/// A window (its address and data) and the stake records made in it, in order.
pub struct WindowState {
    pub window_key: Pubkey,
    pub window: StakeWindow,
    pub stakes: Seq<UserStake>,
}

/// A stake by `user` into the window of `s`.
pub open spec fn stake_context(
    s: WindowState,
    user: Pubkey,
    bonding_curve: Pubkey,
    user_stake_bump: u8,
) -> Stake {
    Stake {
        user,
        bonding_curve,
        stake_window_key: s.window_key,
        stake_window: s.window,
        user_stake: arbitrary(),
        user_stake_bump,
    }
}

/// The unstake instruction on record `index` of `s`.
pub open spec fn unstake_context(s: WindowState, index: nat, user: Pubkey) -> Unstake {
    Unstake {
        user,
        stake_window_key: s.window_key,
        stake_window: s.window,
        user_stake: s.stakes[index as int],
    }
}

/// The refund instruction on record `index` of `s`.
pub open spec fn refund_context(s: WindowState, index: nat, user: Pubkey) -> RefundDeposit {
    RefundDeposit {
        user,
        stake_window_key: s.window_key,
        stake_window: s.window,
        user_stake: s.stakes[index as int],
    }
}

/// `event` is a refund on record `index` that succeeds in `s`.
pub open spec fn refund_succeeds(s: WindowState, event: WindowEvent, index: nat) -> bool {
    match event {
        WindowEvent::RefundDeposit { index: j, user, params, now } => {
            &&& j == index
            &&& index < s.stakes.len()
            &&& refund_context(s, index, user).check(params, now) is Ok
        },
        _ => false,
    }
}

/// `event` is an unstake of record `index` that succeeds in `s`.
pub open spec fn unstake_succeeds(s: WindowState, event: WindowEvent, index: nat) -> bool {
    match event {
        WindowEvent::Unstake { index: j, user, now } => {
            &&& j == index
            &&& index < s.stakes.len()
            &&& unstake_context(s, index, user).check(now) is Ok
        },
        _ => false,
    }
}

/// The window and records after `event`.
pub open spec fn step(s: WindowState, event: WindowEvent) -> WindowState {
    match event {
        WindowEvent::Stake { user, bonding_curve, user_stake_bump, params, now } => {
            let ctx = stake_context(s, user, bonding_curve, user_stake_bump);
            if ctx.check(params, now) is Ok && now + params.lock_days * SECONDS_PER_DAY <= i64::MAX
                && !ctx.total_overflows(params) {
                WindowState {
                    window: StakeWindow {
                        total_stake_weight: (s.window.total_stake_weight + stake_weight_of(
                            params.stake_amount,
                            params.lock_days,
                        )) as u128,
                        ..s.window
                    },
                    stakes: s.stakes.push(ctx.staked(params, now)),
                    ..s
                }
            } else {
                s
            }
        },
        WindowEvent::Close { creator, now } => {
            if (CloseStakeWindow { creator, stake_window: s.window }).check(now) is Ok {
                WindowState { window: StakeWindow { is_closed: true, ..s.window }, ..s }
            } else {
                s
            }
        },
        WindowEvent::Unstake { index, user, now } => {
            if unstake_succeeds(s, event, index) {
                WindowState {
                    stakes: s.stakes.update(
                        index as int,
                        UserStake { is_unlocked: true, ..s.stakes[index as int] },
                    ),
                    ..s
                }
            } else {
                s
            }
        },
        WindowEvent::RefundDeposit { index, user, params, now } => {
            if refund_succeeds(s, event, index) {
                WindowState {
                    stakes: s.stakes.update(
                        index as int,
                        UserStake { deposit_refunded: true, ..s.stakes[index as int] },
                    ),
                    ..s
                }
            } else {
                s
            }
        },
    }
}

/// The window and records after `events`, in order.
pub open spec fn run(s: WindowState, events: Seq<WindowEvent>) -> WindowState
    decreases events.len(),
{
    if events.len() == 0 {
        s
    } else {
        run(step(s, events[0]), events.drop_first())
    }
}

/// The sum of the weights of `stakes`.
pub open spec fn sum_stake_weights(stakes: Seq<UserStake>) -> int
    decreases stakes.len(),
{
    if stakes.len() == 0 {
        0
    } else {
        sum_stake_weights(stakes.drop_last()) + stakes.last().stake_weight
    }
}

/// The number of successful refunds of record `index` in `events`.
pub open spec fn refund_count(s: WindowState, events: Seq<WindowEvent>, index: nat) -> nat
    decreases events.len(),
{
    if events.len() == 0 {
        0
    } else {
        (if refund_succeeds(s, events[0], index) { 1nat } else { 0nat }) + refund_count(
            step(s, events[0]),
            events.drop_first(),
            index,
        )
    }
}

/// The lamports refunded for record `index` over `events`.
pub open spec fn refunded_lamports(s: WindowState, events: Seq<WindowEvent>, index: nat) -> int
    decreases events.len(),
{
    if events.len() == 0 {
        0
    } else {
        (if refund_succeeds(s, events[0], index) {
            s.stakes[index as int].deposit_paid as int
        } else {
            0
        }) + refunded_lamports(step(s, events[0]), events.drop_first(), index)
    }
}

/// The number of successful unstakes of record `index` in `events`.
pub open spec fn unstake_count(s: WindowState, events: Seq<WindowEvent>, index: nat) -> nat
    decreases events.len(),
{
    if events.len() == 0 {
        0
    } else {
        (if unstake_succeeds(s, events[0], index) { 1nat } else { 0nat }) + unstake_count(
            step(s, events[0]),
            events.drop_first(),
            index,
        )
    }
}

/// The tokens given back for record `index` over `events`.
pub open spec fn released_tokens(s: WindowState, events: Seq<WindowEvent>, index: nat) -> int
    decreases events.len(),
{
    if events.len() == 0 {
        0
    } else {
        (if unstake_succeeds(s, events[0], index) {
            s.stakes[index as int].stake_amount as int
        } else {
            0
        }) + released_tokens(step(s, events[0]), events.drop_first(), index)
    }
}

/// A step keeps every existing record's amounts, weight and owner, never
/// clears its flags, and only ever appends a fresh record.
pub proof fn lemma_step_keeps_records(s: WindowState, event: WindowEvent)
    ensures
        step(s, event).window_key == s.window_key,
        step(s, event).stakes.len() == s.stakes.len() || step(s, event).stakes.len()
            == s.stakes.len() + 1,
        step(s, event).stakes.len() == s.stakes.len() + 1 ==> {
            let fresh = step(s, event).stakes[s.stakes.len() as int];
            &&& !fresh.deposit_refunded
            &&& !fresh.is_unlocked
            &&& fresh.deposit_paid == UserStake::DEPOSIT_AMOUNT
        },
        forall|i: int|
            0 <= i < s.stakes.len() ==> {
                let before = #[trigger] s.stakes[i];
                let after = step(s, event).stakes[i];
                &&& after.stake_weight == before.stake_weight
                &&& after.stake_amount == before.stake_amount
                &&& after.deposit_paid == before.deposit_paid
                &&& after.user == before.user
                &&& after.stake_window == before.stake_window
                &&& (before.deposit_refunded ==> after.deposit_refunded)
                &&& (before.is_unlocked ==> after.is_unlocked)
            },
{
}

/// Updating a record without changing its weight keeps the sum of weights.
pub proof fn lemma_sum_update(stakes: Seq<UserStake>, i: int, x: UserStake)
    requires
        0 <= i < stakes.len(),
        x.stake_weight == stakes[i].stake_weight,
    ensures
        sum_stake_weights(stakes.update(i, x)) == sum_stake_weights(stakes),
    decreases stakes.len(),
{
    let updated = stakes.update(i, x);
    if i == stakes.len() - 1 {
        assert(updated.drop_last() =~= stakes.drop_last());
    } else {
        assert(updated.drop_last() =~= stakes.drop_last().update(i, x));
        lemma_sum_update(stakes.drop_last(), i, x);
    }
}

/// A step keeps the window's total equal to the sum of its records' weights.
pub proof fn lemma_step_keeps_total(s: WindowState, event: WindowEvent)
    requires
        s.window.total_stake_weight == sum_stake_weights(s.stakes),
    ensures
        step(s, event).window.total_stake_weight == sum_stake_weights(step(s, event).stakes),
{
    match event {
        WindowEvent::Stake { user, bonding_curve, user_stake_bump, params, now } => {
            let ctx = stake_context(s, user, bonding_curve, user_stake_bump);
            if ctx.check(params, now) is Ok && now + params.lock_days * SECONDS_PER_DAY
                <= i64::MAX && !ctx.total_overflows(params) {
                crate::state::stake::lemma_weight_bound(params.stake_amount, params.lock_days);
                let pushed = s.stakes.push(ctx.staked(params, now));
                assert(pushed.drop_last() =~= s.stakes);
            }
        },
        WindowEvent::Close { .. } => {},
        WindowEvent::Unstake { index, user, now } => {
            if unstake_succeeds(s, event, index) {
                lemma_sum_update(
                    s.stakes,
                    index as int,
                    UserStake { is_unlocked: true, ..s.stakes[index as int] },
                );
            }
        },
        WindowEvent::RefundDeposit { index, user, params, now } => {
            if refund_succeeds(s, event, index) {
                lemma_sum_update(
                    s.stakes,
                    index as int,
                    UserStake { deposit_refunded: true, ..s.stakes[index as int] },
                );
            }
        },
    }
}

/// The window's address never changes, records are only appended, and every
/// record keeps its amounts, weight and owner and never has a flag cleared.
pub proof fn lemma_run_keeps_records(s: WindowState, events: Seq<WindowEvent>, i: int)
    requires
        0 <= i < s.stakes.len(),
    ensures
        run(s, events).window_key == s.window_key,
        i < run(s, events).stakes.len(),
        run(s, events).stakes[i].stake_weight == s.stakes[i].stake_weight,
        run(s, events).stakes[i].stake_amount == s.stakes[i].stake_amount,
        run(s, events).stakes[i].deposit_paid == s.stakes[i].deposit_paid,
        run(s, events).stakes[i].user == s.stakes[i].user,
        run(s, events).stakes[i].stake_window == s.stakes[i].stake_window,
        s.stakes[i].deposit_refunded ==> run(s, events).stakes[i].deposit_refunded,
        s.stakes[i].is_unlocked ==> run(s, events).stakes[i].is_unlocked,
    decreases events.len(),
{
    if events.len() > 0 {
        lemma_step_keeps_records(s, events[0]);
        lemma_run_keeps_records(step(s, events[0]), events.drop_first(), i);
    }
}

/// Every record made during a history carries the fixed deposit.
pub proof fn lemma_run_keeps_deposit_amount(s: WindowState, events: Seq<WindowEvent>)
    requires
        forall|j: int| 0 <= j < s.stakes.len() ==> (#[trigger] s.stakes[j]).deposit_paid
            == UserStake::DEPOSIT_AMOUNT,
    ensures
        forall|j: int|
            0 <= j < run(s, events).stakes.len() ==> (#[trigger] run(s, events).stakes[j]).deposit_paid
                == UserStake::DEPOSIT_AMOUNT,
    decreases events.len(),
{
    if events.len() > 0 {
        let next = step(s, events[0]);
        lemma_step_keeps_records(s, events[0]);
        assert forall|j: int| 0 <= j < next.stakes.len() implies (#[trigger] next.stakes[j]).deposit_paid
            == UserStake::DEPOSIT_AMOUNT by {
            if j < s.stakes.len() {
                assert(s.stakes[j].deposit_paid == UserStake::DEPOSIT_AMOUNT);
            }
        }
        lemma_run_keeps_deposit_amount(next, events.drop_first());
        assert(run(s, events) == run(next, events.drop_first()));
    } else {
        assert(run(s, events) == s);
    }
}

/// The window's total stays the sum of its records' weights over a history.
pub proof fn lemma_run_keeps_total(s: WindowState, events: Seq<WindowEvent>)
    requires
        s.window.total_stake_weight == sum_stake_weights(s.stakes),
    ensures
        run(s, events).window.total_stake_weight == sum_stake_weights(run(s, events).stakes),
    decreases events.len(),
{
    if events.len() > 0 {
        lemma_step_keeps_total(s, events[0]);
        lemma_run_keeps_total(step(s, events[0]), events.drop_first());
    }
}

/// A record's deposit is refunded at most once over a history, and never if it
/// was refunded before; what is refunded is the record's deposit, once.
pub proof fn lemma_refund_count(s: WindowState, events: Seq<WindowEvent>, index: nat)
    ensures
        refund_count(s, events, index) <= 1,
        index < s.stakes.len() && s.stakes[index as int].deposit_refunded ==> refund_count(
            s,
            events,
            index,
        ) == 0,
        refund_count(s, events, index) == 1 ==> index < run(s, events).stakes.len(),
        refunded_lamports(s, events, index) == if refund_count(s, events, index) == 0 {
            0
        } else {
            run(s, events).stakes[index as int].deposit_paid as int
        },
    decreases events.len(),
{
    if events.len() > 0 {
        let next = step(s, events[0]);
        let rest = events.drop_first();
        lemma_step_keeps_records(s, events[0]);
        lemma_refund_count(next, rest, index);
        if refund_succeeds(s, events[0], index) {
            assert(next.stakes[index as int].deposit_refunded);
            lemma_run_keeps_records(next, rest, index as int);
        } else if index < s.stakes.len() && s.stakes[index as int].deposit_refunded {
            assert(next.stakes[index as int].deposit_refunded);
        }
    }
}

/// A record's tokens are given back at most once over a history, and never if
/// they were given back before; what is given back is the staked amount, once.
pub proof fn lemma_unstake_count(s: WindowState, events: Seq<WindowEvent>, index: nat)
    ensures
        unstake_count(s, events, index) <= 1,
        index < s.stakes.len() && s.stakes[index as int].is_unlocked ==> unstake_count(
            s,
            events,
            index,
        ) == 0,
        unstake_count(s, events, index) == 1 ==> index < run(s, events).stakes.len(),
        released_tokens(s, events, index) == if unstake_count(s, events, index) == 0 {
            0
        } else {
            run(s, events).stakes[index as int].stake_amount as int
        },
    decreases events.len(),
{
    if events.len() > 0 {
        let next = step(s, events[0]);
        let rest = events.drop_first();
        lemma_step_keeps_records(s, events[0]);
        lemma_unstake_count(next, rest, index);
        if unstake_succeeds(s, events[0], index) {
            assert(next.stakes[index as int].is_unlocked);
            lemma_run_keeps_records(next, rest, index as int);
        } else if index < s.stakes.len() && s.stakes[index as int].is_unlocked {
            assert(next.stakes[index as int].is_unlocked);
        }
    }
}

} // verus!
