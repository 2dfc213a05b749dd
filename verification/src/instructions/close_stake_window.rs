use vstd::prelude::*;

use crate::clock::Clock;
use crate::errors::ContractError;
use crate::pubkey::Pubkey;
use crate::state::stake::StakeWindow;

verus! {

/// What closing a window reads and writes: the signing creator and the window.
#[derive(Clone, Copy, Debug)]
pub struct CloseStakeWindow {
    pub creator: Pubkey,
    pub stake_window: StakeWindow,
}

impl CloseStakeWindow {
    /// The outcome of the checks of a close at `now`.
    pub open spec fn check(self, now: i64) -> Result<(), ContractError> {
        if !(self.stake_window.creator@ == self.creator@) {
            Err(ContractError::Unauthorized)
        } else if !self.stake_window.closable_at(now) {
            Err(ContractError::WindowNotReady)
        } else {
            Ok(())
        }
    }

    /// Closes the window once its close time has come, if the signer is its
    /// creator. On failure nothing changes.
    pub fn handler(&mut self, clock: &Clock) -> (r: Result<(), ContractError>)
        ensures
            r == old(self).check(clock.unix_timestamp),
            r is Ok ==> final(self).stake_window == (StakeWindow {
                is_closed: true,
                ..old(self).stake_window
            }) && final(self).creator == old(self).creator,
            r is Err ==> *final(self) == *old(self),
    {
        if !(self.stake_window.creator == self.creator) {
            return Err(ContractError::Unauthorized);
        }
        if !self.stake_window.can_close(clock) {
            return Err(ContractError::WindowNotReady);
        }
        self.stake_window.is_closed = true;
        Ok(())
    }
}

} // verus!
