//! The failure conditions an operation can report. Each call either completes
//! in full or raises exactly one of these and leaves no partial effect behind.

use vstd::prelude::*;

verus! {

/// Every error a round operation can raise.
#[derive(Clone, Copy, Debug, PartialEq, Eq, Structural)]
pub enum ContractError {
    /// The caller is not the configured authority (or, on claim, not the winner).
    IncorrectAuthority,
    /// The caller is not the configured payer.
    IncorrectPayerAuthority,
    /// The fee recipient is not the configured team wallet.
    IncorrectTeamWalletAuthority,
    /// The round number is not one the configuration has registered.
    RoundNumberError,
    /// The deposit is below the round's minimum.
    DepositAmountError,
    /// An amount is zero (or otherwise unusable) where a positive one is needed.
    InvalidAmount,
    /// Fee computation overflowed.
    ArithmeticError,
    /// The round is already closed to new joins.
    GameAlreadyCompleted,
    /// The round is not completed yet.
    GameNotCompleted,
    /// The winner was already selected for this round.
    SetWinnerCompleted,
    /// The reward was already claimed.
    WinnerClaimed,
    /// The join would push the round over its participant cap.
    UserCountOverError,
    /// The oracle has not fulfilled the randomness yet; the caller may retry.
    StillProcessing,
    /// The oracle account holds no data yet.
    UninitializedAccount,
    /// The oracle account bytes do not parse as a randomness account.
    InvalidAccountData,
}

impl ContractError {
    /// The one message each error kind maps to.
    pub fn message(&self) -> &'static str {
        match self {
            ContractError::IncorrectAuthority => "incorrect authority",
            ContractError::IncorrectPayerAuthority => "incorrect payer authority",
            ContractError::IncorrectTeamWalletAuthority => "incorrect team wallet authority",
            ContractError::RoundNumberError => "invalid round number",
            ContractError::DepositAmountError => "invalid deposit amount",
            ContractError::InvalidAmount => "invalid amount",
            ContractError::ArithmeticError => "arithmetic error",
            ContractError::GameAlreadyCompleted => "game already completed",
            ContractError::GameNotCompleted => "game not completed",
            ContractError::SetWinnerCompleted => "winner already selected",
            ContractError::WinnerClaimed => "reward already claimed",
            ContractError::UserCountOverError => "max user count exceeded",
            ContractError::StillProcessing => "randomness is still being processed",
            ContractError::UninitializedAccount => "uninitialized account",
            ContractError::InvalidAccountData => "invalid account data",
        }
    }
}

} // verus!
