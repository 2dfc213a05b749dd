use vstd::prelude::*;

use crate::clock::Clock;
use crate::errors::ContractError;
use crate::instructions::transfers::TokenRelease;
use crate::pubkey::Pubkey;
use crate::state::stake::{StakeWindow, UserStake};

verus! {

/// What an unstake reads and writes: the user, the window (its address and
/// data) and the user's stake record.
#[derive(Clone, Debug)]
pub struct Unstake {
    pub user: Pubkey,
    pub stake_window_key: Pubkey,
    pub stake_window: StakeWindow,
    pub user_stake: UserStake,
}

impl Unstake {
    /// The outcome of the checks of an unstake at `now`: the first failed
    /// check, in the program's order, or the amount of tokens to give back.
    pub open spec fn check(self, now: i64) -> Result<u64, ContractError> {
        if !self.stake_window.is_closed {
            Err(ContractError::WindowStillOpen)
        } else if !(self.user_stake.stake_window@ == self.stake_window_key@) {
            Err(ContractError::InvalidStakeWindow)
        } else if !(self.user_stake.user@ == self.user@) {
            Err(ContractError::Unauthorized)
        } else if self.user_stake.is_unlocked {
            Err(ContractError::AlreadyUnlocked)
        } else if !self.user_stake.unlockable_at(now) {
            Err(ContractError::StillLocked)
        } else {
            Ok(self.user_stake.stake_amount)
        }
    }

    /// Gives a stake's tokens back once the window is closed and the lock has
    /// run out: marks the stake unlocked and returns the transfer of the
    /// staked amount out of the window's token account, signed by the window.
    /// On failure nothing changes.
    pub fn handler(&mut self, clock: &Clock) -> (r: Result<TokenRelease, ContractError>)
        ensures
            match old(self).check(clock.unix_timestamp) {
                Ok(amount) => {
                    &&& r is Ok
                    &&& r->Ok_0.amount == amount
                    &&& r->Ok_0.signer_seeds@.map_values(|s: Vec<u8>| s@)
                        == old(self).stake_window.signer_seeds_spec()
                    &&& final(self).user_stake == (UserStake {
                        is_unlocked: true,
                        ..old(self).user_stake
                    })
                    &&& final(self).user == old(self).user
                    &&& final(self).stake_window_key == old(self).stake_window_key
                    &&& final(self).stake_window == old(self).stake_window
                },
                Err(e) => r == Err::<TokenRelease, ContractError>(e) && *final(self) == *old(self),
            },
    {
        if !self.stake_window.is_closed {
            return Err(ContractError::WindowStillOpen);
        }
        if !(self.user_stake.stake_window == self.stake_window_key) {
            return Err(ContractError::InvalidStakeWindow);
        }
        if !(self.user_stake.user == self.user) {
            return Err(ContractError::Unauthorized);
        }
        if self.user_stake.is_unlocked {
            return Err(ContractError::AlreadyUnlocked);
        }
        if !self.user_stake.can_unlock(clock) {
            return Err(ContractError::StillLocked);
        }
        let signer_seeds = self.stake_window.signer_seeds();
        let amount: u64 = self.user_stake.stake_amount;
        self.user_stake.is_unlocked = true;
        Ok(TokenRelease { amount, signer_seeds })
    }
}

} // verus!
