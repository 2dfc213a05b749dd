use vstd::prelude::*;

verus! {

/// The cluster clock as the program reads it: only `unix_timestamp` takes part
/// in any decision of this crate.
#[derive(Clone, Copy, Debug, PartialEq, Eq, Structural)]
pub struct Clock {
    pub slot: u64,
    pub epoch_start_timestamp: i64,
    pub epoch: u64,
    pub leader_schedule_epoch: u64,
    pub unix_timestamp: i64,
}

impl Clock {
    /// A clock that reads the given unix time, with all other fields zero.
    pub fn at(unix_timestamp: i64) -> (c: Clock)
        ensures
            c.unix_timestamp == unix_timestamp,
            c.slot == 0,
            c.epoch_start_timestamp == 0,
            c.epoch == 0,
            c.leader_schedule_epoch == 0,
    {
        Clock { slot: 0, epoch_start_timestamp: 0, epoch: 0, leader_schedule_epoch: 0, unix_timestamp }
    }
}

} // verus!
