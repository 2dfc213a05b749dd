use vstd::prelude::*;

use crate::clock::Clock;
use crate::errors::ContractError;
use crate::pubkey::Pubkey;
use crate::state::stake::{OpenStakeWindowParams, StakeWindow, SECONDS_PER_HOUR};

verus! {

/// What opening a window reads and writes: the signing creator, the bonding
/// curve (its address and its recorded creator) and the freshly created
/// window with its bump.
#[derive(Clone, Copy, Debug)]
pub struct OpenStakeWindow {
    pub creator: Pubkey,
    pub bonding_curve: Pubkey,
    pub bonding_curve_creator: Pubkey,
    pub stake_window: StakeWindow,
    pub stake_window_bump: u8,
}

/// A window length the program accepts, in hours.
pub open spec fn valid_window_hours(hours: u16) -> bool {
    24 <= hours && hours <= 48
}

impl OpenStakeWindow {
    /// The outcome of opening a window at `now`: the first failed check, or
    /// the window's data.
    pub open spec fn check(self, params: OpenStakeWindowParams, now: i64) -> Result<
        StakeWindow,
        ContractError,
    > {
        if !(self.bonding_curve_creator@ == self.creator@) {
            Err(ContractError::Unauthorized)
        } else if !valid_window_hours(params.window_duration_hours) {
            Err(ContractError::InvalidWindowDuration)
        } else {
            Ok(
                StakeWindow {
                    drama_id: params.drama_id,
                    episode_id: params.episode_id,
                    bonding_curve: self.bonding_curve,
                    creator: self.creator,
                    open_time: now,
                    close_time: (now + params.window_duration_hours * SECONDS_PER_HOUR) as i64,
                    is_closed: false,
                    total_stake_weight: 0,
                    bump: self.stake_window_bump,
                },
            )
        }
    }

    /// Opens the window of an episode for 24 to 48 hours from the clock's
    /// time, if the signer created the bonding curve. On failure nothing
    /// changes.
    pub fn handler(&mut self, params: &OpenStakeWindowParams, clock: &Clock) -> (r: Result<
        (),
        ContractError,
    >)
        requires
            old(self).bonding_curve_creator@ == old(self).creator@ && valid_window_hours(
                params.window_duration_hours,
            ) ==> clock.unix_timestamp + params.window_duration_hours * SECONDS_PER_HOUR
                <= i64::MAX,
        ensures
            match old(self).check(*params, clock.unix_timestamp) {
                Ok(w) => r is Ok && *final(self) == (OpenStakeWindow {
                    stake_window: w,
                    ..*old(self)
                }),
                Err(e) => r == Err::<(), ContractError>(e) && *final(self) == *old(self),
            },
    {
        if !(self.bonding_curve_creator == self.creator) {
            return Err(ContractError::Unauthorized);
        }
        if !(params.window_duration_hours >= 24 && params.window_duration_hours <= 48) {
            return Err(ContractError::InvalidWindowDuration);
        }
        let window_duration_seconds: i64 = (params.window_duration_hours as i64) * 3600;
        let now: i64 = clock.unix_timestamp;
        self.stake_window.drama_id = params.drama_id;
        self.stake_window.episode_id = params.episode_id;
        self.stake_window.bonding_curve = self.bonding_curve;
        self.stake_window.creator = self.creator;
        self.stake_window.open_time = now;
        self.stake_window.close_time = now + window_duration_seconds;
        self.stake_window.is_closed = false;
        self.stake_window.total_stake_weight = 0;
        self.stake_window.bump = self.stake_window_bump;
        Ok(())
    }
}

} // verus!
