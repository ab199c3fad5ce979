use vstd::prelude::*;

verus! {

/// Why an operation was rejected. A rejected operation changes nothing.
#[derive(Clone, Copy, Debug, PartialEq, Eq, Structural)]
pub enum ErrorCode {
    InvalidEpochDuration,
    InvalidSpendingLimit,
    InvalidDepositAmount,
    InvalidWithdrawAmount,
    InvalidTimestamp,
    ArithmeticOverflow,
    InsufficientFunds,
    UnauthorizedWithdrawal,
    UnauthorizedConfigUpdate,
    SpendingLimitExceeded,
    InvalidRole,
    UnauthorizedUser,
    RecipientNotWhitelisted,
    InvalidScheduleTime,
    InvalidRecurrenceInterval,
    PayoutNotDue,
    PayoutAlreadyExecuted,
    PayoutNotActive,
    RecipientNotActive,
    TreasuryPaused,
    TreasuryAlreadyPaused,
    TreasuryAlreadyUnpaused,
    UnauthorizedPauseAction,
    EpochDurationTooShort,
    TokenGateCheckFailed,
    InvalidTokenAccountOwner,
    InvalidTokenMint,
    InsufficientTokenBalance,
    InvalidTokenAccount,
    InvalidRecipientName,
}

/// The broad class of an error.
#[derive(Clone, Copy, Debug, PartialEq, Eq, Structural)]
pub enum ErrorKind {
    /// Malformed input.
    Validation,
    /// The caller lacks the required role, or the role is inactive.
    Authorization,
    /// The treasury or a record is not in a state that allows the operation.
    State,
    /// A balance or counter computation would overflow or underflow.
    Arithmetic,
    /// A balance or the epoch allowance does not cover the amount.
    Resource,
    /// The gating-asset ownership check failed or could not be made.
    Gate,
}

pub open spec fn kind_of(e: ErrorCode) -> ErrorKind {
    match e {
        ErrorCode::ArithmeticOverflow => ErrorKind::Arithmetic,
        ErrorCode::InsufficientFunds
        | ErrorCode::InsufficientTokenBalance
        | ErrorCode::SpendingLimitExceeded => ErrorKind::Resource,
        ErrorCode::UnauthorizedWithdrawal
        | ErrorCode::UnauthorizedConfigUpdate
        | ErrorCode::UnauthorizedUser
        | ErrorCode::UnauthorizedPauseAction => ErrorKind::Authorization,
        ErrorCode::PayoutNotDue
        | ErrorCode::PayoutAlreadyExecuted
        | ErrorCode::PayoutNotActive
        | ErrorCode::RecipientNotActive
        | ErrorCode::TreasuryPaused
        | ErrorCode::TreasuryAlreadyPaused
        | ErrorCode::TreasuryAlreadyUnpaused => ErrorKind::State,
        ErrorCode::TokenGateCheckFailed => ErrorKind::Gate,
        _ => ErrorKind::Validation,
    }
}

impl ErrorCode {
    pub fn kind(&self) -> (r: ErrorKind)
        ensures
            r == kind_of(*self),
    {
        match self {
            ErrorCode::ArithmeticOverflow => ErrorKind::Arithmetic,
            ErrorCode::InsufficientFunds
            | ErrorCode::InsufficientTokenBalance
            | ErrorCode::SpendingLimitExceeded => ErrorKind::Resource,
            ErrorCode::UnauthorizedWithdrawal
            | ErrorCode::UnauthorizedConfigUpdate
            | ErrorCode::UnauthorizedUser
            | ErrorCode::UnauthorizedPauseAction => ErrorKind::Authorization,
            ErrorCode::PayoutNotDue
            | ErrorCode::PayoutAlreadyExecuted
            | ErrorCode::PayoutNotActive
            | ErrorCode::RecipientNotActive
            | ErrorCode::TreasuryPaused
            | ErrorCode::TreasuryAlreadyPaused
            | ErrorCode::TreasuryAlreadyUnpaused => ErrorKind::State,
            ErrorCode::TokenGateCheckFailed => ErrorKind::Gate,
            _ => ErrorKind::Validation,
        }
    }
}

} // verus!
