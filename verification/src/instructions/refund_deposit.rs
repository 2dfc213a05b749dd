use vstd::prelude::*;

use crate::clock::Clock;
use crate::errors::ContractError;
use crate::instructions::transfers::LamportTransfer;
use crate::pubkey::Pubkey;
use crate::state::stake::{StakeWindow, UserStake, SECONDS_PER_DAY};

verus! {

/// The parameters of a deposit refund.
#[derive(Clone, Copy, Debug)]
pub struct RefundDepositParams {
    /// When the episode's generation completed; 0 or less while it has not.
    pub generation_complete_time: i64,
}

/// What a deposit refund reads and writes: the user, the window (its address
/// and data) and the user's stake record.
#[derive(Clone, Debug)]
pub struct RefundDeposit {
    pub user: Pubkey,
    pub stake_window_key: Pubkey,
    pub stake_window: StakeWindow,
    pub user_stake: UserStake,
}

impl RefundDeposit {
    /// The account checks pass: the window is closed and the stake record is
    /// the user's, in this window.
    pub open spec fn accounts_match(self) -> bool {
        &&& self.stake_window.is_closed
        &&& self.user_stake.stake_window@ == self.stake_window_key@
        &&& self.user_stake.user@ == self.user@
    }

    /// The outcome of the checks of a refund at `now`: the first failed
    /// check, in the program's order, or the lamports to give back.
    pub open spec fn check(self, params: RefundDepositParams, now: i64) -> Result<
        u64,
        ContractError,
    > {
        if !self.stake_window.is_closed {
            Err(ContractError::WindowStillOpen)
        } else if !(self.user_stake.stake_window@ == self.stake_window_key@) {
            Err(ContractError::InvalidStakeWindow)
        } else if !(self.user_stake.user@ == self.user@) {
            Err(ContractError::Unauthorized)
        } else if self.user_stake.deposit_refunded {
            Err(ContractError::DepositAlreadyRefunded)
        } else if !self.user_stake.refundable_at(now, params.generation_complete_time) {
            Err(ContractError::RefundNotReady)
        } else {
            Ok(self.user_stake.deposit_paid)
        }
    }

    /// Gives the deposit back a day after the episode's generation completed:
    /// marks it refunded and returns the lamport transfer of the deposit from
    /// the window's address to the user, signed by the window. On failure
    /// nothing changes.
    pub fn handler(&mut self, params: &RefundDepositParams, clock: &Clock) -> (r: Result<
        LamportTransfer,
        ContractError,
    >)
        requires
            old(self).accounts_match() && !old(self).user_stake.deposit_refunded
                && params.generation_complete_time > 0 ==> params.generation_complete_time
                + SECONDS_PER_DAY <= i64::MAX,
        ensures
            match old(self).check(*params, clock.unix_timestamp) {
                Ok(lamports) => {
                    &&& r is Ok
                    &&& r->Ok_0.lamports == lamports
                    &&& r->Ok_0.from == old(self).stake_window_key
                    &&& r->Ok_0.to == old(self).user_stake.user
                    &&& r->Ok_0.signer_seeds@.map_values(|s: Vec<u8>| s@)
                        == old(self).stake_window.signer_seeds_spec()
                    &&& final(self).user_stake == (UserStake {
                        deposit_refunded: true,
                        ..old(self).user_stake
                    })
                    &&& final(self).user == old(self).user
                    &&& final(self).stake_window_key == old(self).stake_window_key
                    &&& final(self).stake_window == old(self).stake_window
                },
                Err(e) => r == Err::<LamportTransfer, ContractError>(e) && *final(self)
                    == *old(self),
            },
    {
        if !self.stake_window.is_closed {
            return Err(ContractError::WindowStillOpen);
        }
        if !(self.user_stake.stake_window == self.stake_window_key) {
            return Err(ContractError::InvalidStakeWindow);
        }
        if !(self.user_stake.user == self.user) {
            return Err(ContractError::Unauthorized);
        }
        if self.user_stake.deposit_refunded {
            return Err(ContractError::DepositAlreadyRefunded);
        }
        if !self.user_stake.can_refund_deposit(clock, params.generation_complete_time) {
            return Err(ContractError::RefundNotReady);
        }
        let signer_seeds = self.stake_window.signer_seeds();
        let transfer = LamportTransfer {
            from: self.stake_window_key,
            to: self.user_stake.user,
            lamports: self.user_stake.deposit_paid,
            signer_seeds,
        };
        self.user_stake.deposit_refunded = true;
        Ok(transfer)
    }
}

} // verus!
