use vstd::prelude::*;

use crate::clock::Clock;
use crate::errors::ContractError;
use crate::instructions::transfers::StakeTransfers;
use crate::pubkey::Pubkey;
use crate::state::stake::{
    prompt_len, stake_weight_of, StakeParams, StakeWindow, UserStake, SECONDS_PER_DAY,
};

verus! {

/// What a stake reads and writes: the staking user, the bonding curve the
/// window must belong to, the window (its address and data) and the user's
/// freshly created stake record with its bump.
#[derive(Clone, Debug)]
pub struct Stake {
    pub user: Pubkey,
    pub bonding_curve: Pubkey,
    pub stake_window_key: Pubkey,
    pub stake_window: StakeWindow,
    pub user_stake: UserStake,
    pub user_stake_bump: u8,
}

impl Stake {
    /// The outcome of the checks of a stake at `now`: the first failed check,
    /// in the program's order, or the transfers to make.
    pub open spec fn check(self, params: StakeParams, now: i64) -> Result<
        StakeTransfers,
        ContractError,
    > {
        if !(self.stake_window.bonding_curve@ == self.bonding_curve@) {
            Err(ContractError::InvalidBondingCurve)
        } else if !self.stake_window.open_at(now) {
            Err(ContractError::WindowNotOpen)
        } else if !(params.stake_amount > 0) {
            Err(ContractError::InvalidStakeAmount)
        } else if !(params.lock_days > 0 && params.lock_days <= 365) {
            Err(ContractError::InvalidLockDays)
        } else if !(prompt_len(params.prompt) > 0 && prompt_len(params.prompt) <= 500) {
            Err(ContractError::InvalidPrompt)
        } else {
            Ok(
                StakeTransfers {
                    token_amount: params.stake_amount,
                    deposit_from: self.user,
                    deposit_to: self.stake_window_key,
                    deposit_lamports: UserStake::DEPOSIT_AMOUNT,
                },
            )
        }
    }

    /// The stake record written for `params` at `now`.
    pub open spec fn staked(self, params: StakeParams, now: i64) -> UserStake {
        UserStake {
            stake_window: self.stake_window_key,
            user: self.user,
            bonding_curve: self.bonding_curve,
            stake_amount: params.stake_amount,
            lock_days: params.lock_days,
            stake_weight: stake_weight_of(params.stake_amount, params.lock_days) as u128,
            normalized_weight: stake_weight_of(params.stake_amount, params.lock_days) as u128,
            prompt: params.prompt,
            deposit_paid: UserStake::DEPOSIT_AMOUNT,
            stake_time: now,
            unlock_time: (now + params.lock_days * SECONDS_PER_DAY) as i64,
            is_unlocked: false,
            deposit_refunded: false,
            bump: self.user_stake_bump,
        }
    }

    /// Recording the stake would carry the window's total weight past `u128`.
    pub open spec fn total_overflows(self, params: StakeParams) -> bool {
        self.stake_window.total_stake_weight + stake_weight_of(params.stake_amount, params.lock_days)
            > u128::MAX
    }

    /// Checks a stake at the clock's time. On success it returns the token and
    /// deposit transfers that must be made before the stake is recorded with
    /// `record`; it changes nothing.
    pub fn handler(&self, params: &StakeParams, clock: &Clock) -> (r: Result<
        StakeTransfers,
        ContractError,
    >)
        ensures
            r == self.check(*params, clock.unix_timestamp),
    {
        if !(self.stake_window.bonding_curve == self.bonding_curve) {
            return Err(ContractError::InvalidBondingCurve);
        }
        if !self.stake_window.is_open(clock) {
            return Err(ContractError::WindowNotOpen);
        }
        if !(params.stake_amount > 0) {
            return Err(ContractError::InvalidStakeAmount);
        }
        if !(params.lock_days > 0 && params.lock_days <= 365) {
            return Err(ContractError::InvalidLockDays);
        }
        let len: usize = params.prompt.as_str().len();
        if !(len > 0 && len <= 500) {
            return Err(ContractError::InvalidPrompt);
        }
        Ok(
            StakeTransfers {
                token_amount: params.stake_amount,
                deposit_from: self.user,
                deposit_to: self.stake_window_key,
                deposit_lamports: UserStake::DEPOSIT_AMOUNT,
            },
        )
    }

    /// Records a checked stake once its transfers are made: fills the stake
    /// record and adds its weight to the window's total, or fails with
    /// `Overflow` and changes nothing.
    pub fn record(&mut self, params: &StakeParams, clock: &Clock) -> (r: Result<(), ContractError>)
        requires
            old(self).check(*params, clock.unix_timestamp) is Ok,
            clock.unix_timestamp + params.lock_days * SECONDS_PER_DAY <= i64::MAX,
        ensures
            old(self).total_overflows(*params) ==> r == Err::<(), ContractError>(
                ContractError::Overflow,
            ) && *final(self) == *old(self),
            !old(self).total_overflows(*params) ==> {
                &&& r is Ok
                &&& final(self).user_stake == old(self).staked(*params, clock.unix_timestamp)
                &&& final(self).stake_window == (StakeWindow {
                    total_stake_weight: (old(self).stake_window.total_stake_weight
                        + stake_weight_of(params.stake_amount, params.lock_days)) as u128,
                    ..old(self).stake_window
                })
                &&& final(self).user == old(self).user
                &&& final(self).bonding_curve == old(self).bonding_curve
                &&& final(self).stake_window_key == old(self).stake_window_key
                &&& final(self).user_stake_bump == old(self).user_stake_bump
            },
    {
        let stake_weight: u128 = UserStake::calculate_weight(params.stake_amount, params.lock_days);
        let total: u128 = match self.stake_window.total_stake_weight.checked_add(stake_weight) {
            Some(t) => t,
            None => return Err(ContractError::Overflow),
        };
        let now: i64 = clock.unix_timestamp;
        self.user_stake = UserStake {
            stake_window: self.stake_window_key,
            user: self.user,
            bonding_curve: self.bonding_curve,
            stake_amount: params.stake_amount,
            lock_days: params.lock_days,
            stake_weight,
            normalized_weight: stake_weight,
            prompt: params.prompt.clone(),
            deposit_paid: UserStake::DEPOSIT_AMOUNT,
            stake_time: now,
            unlock_time: now + (params.lock_days as i64) * 86400,
            is_unlocked: false,
            deposit_refunded: false,
            bump: self.user_stake_bump,
        };
        self.stake_window.total_stake_weight = total;
        Ok(())
    }
}

} // verus!
