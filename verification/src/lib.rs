//! The reel staking program: stake windows that creators open for an episode,
//! user stakes with a lock period and a refundable deposit, and the checks and
//! steps with which a new bonding-curve token is launched.
//!
//! Every instruction is a function from the accounts it reads (held as plain
//! values) and the current clock to the new account data and the transfers
//! that the runtime must carry out.

pub mod clock;
pub mod errors;
pub mod pubkey;
pub mod state;
pub mod instructions;
pub mod history;
pub mod laws;
