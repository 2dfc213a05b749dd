use vstd::prelude::*;
use vstd::bytes::{spec_u64_to_le_bytes, u64_to_le_bytes};
use vstd::slice::slice_to_vec;
use vstd::utf8::encode_utf8;

use crate::clock::Clock;
use crate::pubkey::Pubkey;

verus! {

/// Seconds in one hour.
pub const SECONDS_PER_HOUR: i64 = 3600;

/// Seconds in one day.
pub const SECONDS_PER_DAY: i64 = 86400;

/// The stake window of one episode of a drama.
#[derive(Clone, Copy, Debug)]
pub struct StakeWindow {
    pub drama_id: Pubkey,
    pub episode_id: u64,
    pub bonding_curve: Pubkey,
    pub creator: Pubkey,
    pub open_time: i64,
    pub close_time: i64,
    pub is_closed: bool,
    pub total_stake_weight: u128,
    pub bump: u8,
}

impl StakeWindow {
    pub const SEED_PREFIX: &'static str = "stake_window";

    /// Stakes are accepted at `now`.
    pub open spec fn open_at(&self, now: i64) -> bool {
        !self.is_closed && self.open_time <= now && now < self.close_time
    }

    /// The creator may close the window at `now`.
    pub open spec fn closable_at(&self, now: i64) -> bool {
        !self.is_closed && now >= self.close_time
    }

    /// The seeds, bump last, with which the window's address signs for its
    /// token and lamport transfers.
    pub open spec fn signer_seeds_spec(&self) -> Seq<Seq<u8>> {
        seq![
            encode_utf8(Self::SEED_PREFIX@),
            self.drama_id@,
            spec_u64_to_le_bytes(self.episode_id),
            seq![self.bump],
        ]
    }

    pub fn is_open(&self, clock: &Clock) -> (r: bool)
        ensures
            r == self.open_at(clock.unix_timestamp),
    {
        !self.is_closed && clock.unix_timestamp >= self.open_time && clock.unix_timestamp
            < self.close_time
    }

    pub fn can_close(&self, clock: &Clock) -> (r: bool)
        ensures
            r == self.closable_at(clock.unix_timestamp),
    {
        !self.is_closed && clock.unix_timestamp >= self.close_time
    }

    /// The signer seeds of the window's address: the prefix, the drama id, the
    /// episode id in little-endian bytes and the bump.
    pub fn signer_seeds(&self) -> (seeds: Vec<Vec<u8>>)
        ensures
            seeds@.map_values(|s: Vec<u8>| s@) == self.signer_seeds_spec(),
    {
        let mut seeds: Vec<Vec<u8>> = Vec::new();
        seeds.push(slice_to_vec(Self::SEED_PREFIX.as_bytes()));
        seeds.push(slice_to_vec(self.drama_id.bytes.as_slice()));
        seeds.push(u64_to_le_bytes(self.episode_id));
        let mut bump: Vec<u8> = Vec::new();
        bump.push(self.bump);
        seeds.push(bump);
        assert(seeds@.map_values(|s: Vec<u8>| s@) =~= self.signer_seeds_spec());
        seeds
    }
}

/// One user's stake in one window.
#[derive(Clone, Debug)]
pub struct UserStake {
    pub stake_window: Pubkey,
    pub user: Pubkey,
    pub bonding_curve: Pubkey,
    pub stake_amount: u64,
    pub lock_days: u16,
    pub stake_weight: u128,
    /// The weight after the per-user cap; equal to `stake_weight` when staked.
    pub normalized_weight: u128,
    pub prompt: String,
    /// The deposit paid at staking, in lamports.
    pub deposit_paid: u64,
    pub stake_time: i64,
    pub unlock_time: i64,
    pub is_unlocked: bool,
    pub deposit_refunded: bool,
    pub bump: u8,
}

/// The weight of a stake: the amount times the days it stays locked.
pub open spec fn stake_weight_of(stake_amount: u64, lock_days: u16) -> int {
    stake_amount as int * lock_days as int
}

/// The length of a prompt in UTF-8 bytes, as `str::len` reports it.
pub open spec fn prompt_len(prompt: String) -> usize {
    encode_utf8(prompt@).len() as usize
}

impl UserStake {
    pub const SEED_PREFIX: &'static str = "user_stake";

    /// The deposit a stake pays, in lamports (0.01 SOL).
    pub const DEPOSIT_AMOUNT: u64 = 10_000_000;

    /// The locked tokens may be withdrawn at `now`.
    pub open spec fn unlockable_at(&self, now: i64) -> bool {
        !self.is_unlocked && now >= self.unlock_time
    }

    /// The deposit may be refunded at `now`, one day after the generation
    /// completed at `generation_complete_time`.
    pub open spec fn refundable_at(&self, now: i64, generation_complete_time: i64) -> bool {
        !self.deposit_refunded && generation_complete_time > 0 && now
            >= generation_complete_time + SECONDS_PER_DAY
    }

    pub fn calculate_weight(stake_amount: u64, lock_days: u16) -> (w: u128)
        ensures
            w == stake_weight_of(stake_amount, lock_days),
    {
        proof {
            lemma_weight_bound(stake_amount, lock_days);
        }
        (stake_amount as u128) * (lock_days as u128)
    }

    pub fn can_unlock(&self, clock: &Clock) -> (r: bool)
        ensures
            r == self.unlockable_at(clock.unix_timestamp),
    {
        !self.is_unlocked && clock.unix_timestamp >= self.unlock_time
    }

    pub fn can_refund_deposit(&self, clock: &Clock, generation_complete_time: i64) -> (r: bool)
        requires
            !self.deposit_refunded && generation_complete_time > 0 ==> generation_complete_time
                + SECONDS_PER_DAY <= i64::MAX,
        ensures
            r == self.refundable_at(clock.unix_timestamp, generation_complete_time),
    {
        !self.deposit_refunded && generation_complete_time > 0 && clock.unix_timestamp
            >= generation_complete_time + 86400
    }
}

/// A weight never exceeds the largest amount times the largest lock.
pub proof fn lemma_weight_bound(stake_amount: u64, lock_days: u16)
    ensures
        0 <= stake_weight_of(stake_amount, lock_days) <= u64::MAX as int * u16::MAX as int,
{
    assert(0 <= stake_amount as int * lock_days as int <= u64::MAX as int * u16::MAX as int)
        by (nonlinear_arith);
}

/// The parameters with which a creator opens a window.
#[derive(Clone, Copy, Debug)]
pub struct OpenStakeWindowParams {
    pub drama_id: Pubkey,
    pub episode_id: u64,
    /// Between 24 and 48 hours.
    pub window_duration_hours: u16,
}

/// The parameters of a stake.
#[derive(Clone, Debug)]
pub struct StakeParams {
    pub drama_id: Pubkey,
    pub episode_id: u64,
    pub stake_amount: u64,
    /// 1 to 365 days.
    pub lock_days: u16,
    pub prompt: String,
}

} // verus!
