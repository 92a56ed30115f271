use vstd::prelude::*;

verus! {

/// Why a lifecycle operation was refused. A refused operation changes nothing.
#[derive(Clone, Copy, Debug, PartialEq, Eq, Structural)]
pub enum StakeMyScoreError {
    PoolFull,
    PoolLocked,
    UnauthorizedOracle,
    PoolNotOpen,
    PoolNotLocked,
    PoolNotSettled,
    InvalidBettorAccount,
    UnexpectedWinnerAccounts,
    NoWinnersProvided,
    UnauthorizedBettor,
    NotAWinner,
    FeeNotCollected,
    ResultsAlreadyAccepted,
    /// The record to create exists already.
    AccountAlreadyInitialized,
    /// The record to use does not exist (it was never created, or was closed).
    AccountNotInitialized,
    /// The paying account holds fewer lamports than the amount to move.
    InsufficientFunds,
    /// The receiving account's balance would exceed `u64::MAX`.
    LamportsOverflow,
    MatchIdTooLong,
    /// The pool's winners have been resolved already.
    AlreadyResolved,
    /// The pool's winners have not been resolved yet.
    WinnersNotResolved,
    /// More winner accounts were named than a pool can count.
    TooManyWinners,
}

impl StakeMyScoreError {
    /// A short human-readable description.
    pub fn message(&self) -> &'static str {
        match self {
            StakeMyScoreError::PoolFull => "Pool is full",
            StakeMyScoreError::PoolLocked => "Pool is locked, no more bets allowed",
            StakeMyScoreError::UnauthorizedOracle => "Unauthorized Oracle",
            StakeMyScoreError::PoolNotOpen => "Pool is not open, so can't be locked",
            StakeMyScoreError::PoolNotLocked => "Pool is not locked",
            StakeMyScoreError::PoolNotSettled => "Pool is not yet settled",
            StakeMyScoreError::InvalidBettorAccount => "The bettor account provided is invalid",
            StakeMyScoreError::UnexpectedWinnerAccounts => "If no winners, there shouldn't be any winner accounts",
            StakeMyScoreError::NoWinnersProvided => "Winners can't be empty",
            StakeMyScoreError::UnauthorizedBettor => "Wrong bettor account",
            StakeMyScoreError::NotAWinner => "You didn't win",
            StakeMyScoreError::FeeNotCollected => "Fee yet not collected",
            StakeMyScoreError::ResultsAlreadyAccepted => "Result is already updated",
            StakeMyScoreError::AccountAlreadyInitialized => "Account already exists",
            StakeMyScoreError::AccountNotInitialized => "Account does not exist",
            StakeMyScoreError::InsufficientFunds => "Insufficient lamports for the transfer",
            StakeMyScoreError::LamportsOverflow => "Lamport balance would overflow",
            StakeMyScoreError::MatchIdTooLong => "Match id is longer than 64 bytes",
            StakeMyScoreError::AlreadyResolved => "Winners are already resolved",
            StakeMyScoreError::WinnersNotResolved => "Winners are not resolved yet",
            StakeMyScoreError::TooManyWinners => "Too many winner accounts",
        }
    }
}

} // verus!
