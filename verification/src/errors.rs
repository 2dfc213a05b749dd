use vstd::prelude::*;

verus! {

/// The errors that the program's instructions report.
#[derive(Clone, Copy, Debug, PartialEq, Eq, Structural)]
pub enum ContractError {
    NotInitialized,
    ProgramNotRunning,
    NotWhiteList,
    Unauthorized,
    InvalidBondingCurve,
    InvalidWindowDuration,
    WindowNotOpen,
    WindowNotReady,
    WindowStillOpen,
    InvalidStakeAmount,
    InvalidLockDays,
    InvalidPrompt,
    InvalidStakeWindow,
    Overflow,
    AlreadyUnlocked,
    StillLocked,
    DepositAlreadyRefunded,
    RefundNotReady,
}

} // verus!
