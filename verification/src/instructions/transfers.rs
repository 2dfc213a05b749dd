use vstd::prelude::*;

use crate::pubkey::Pubkey;

verus! {

/// The two transfers a stake makes before it is recorded: the staked tokens
/// from the user's token account to the window's, signed by the user, and the
/// deposit in lamports from the user to the window's address.
#[derive(Clone, Copy, Debug)]
pub struct StakeTransfers {
    pub token_amount: u64,
    pub deposit_from: Pubkey,
    pub deposit_to: Pubkey,
    pub deposit_lamports: u64,
}

/// A token transfer out of the window's token account, signed by the window's
/// address with `signer_seeds`.
#[derive(Clone, Debug)]
pub struct TokenRelease {
    pub amount: u64,
    pub signer_seeds: Vec<Vec<u8>>,
}

/// A lamport transfer signed by the address that `signer_seeds` derive.
#[derive(Clone, Debug)]
pub struct LamportTransfer {
    pub from: Pubkey,
    pub to: Pubkey,
    pub lamports: u64,
    pub signer_seeds: Vec<Vec<u8>>,
}

} // verus!
