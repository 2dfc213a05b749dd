pub mod close_stake_window;
pub mod create_bonding_curve;
pub mod open_stake_window;
pub mod refund_deposit;
pub mod stake;
pub mod transfers;
pub mod unstake;
