//! Errors of the protocol's operations.
use vstd::prelude::*;

verus! {

/// Why an operation was refused. No operation changes any state when it
/// returns one of these.
#[derive(Clone, Copy, Debug, PartialEq, Eq, Structural)]
pub enum ErrorCode {
    NotApproved,
    InvalidOwner,
    EmptySupply,
    InvalidInput,
    IncorrectLpMint,
    ExceededSlippage,
    ZeroTradingTokens,
    NotSupportMint,
    InvalidVault,
    InitLpAmountTooLess,
    InvalidTimestamp,
    ClockUnavailable,
    Overflow,
    LockIsPermanent,
    LockAlreadyUnlocked,
    UnlockTimeNotReached,
    ZeroLpTokensToBurn,
    LockDurationTooLong,
    UnderflowError,
    ZeroLiquidity,
    InvalidLuxorMint,
    InvalidStakeProgram,
    InvalidStakePdaOwner,
    InsufficientRent,
    MathOverflow,
    InsufficientVault,
    InvalidFeeModel,
    NoRewardsToClaim,
    MissingRemainingAccount,
    InvalidParam,
    PurchaseDisabled,
    RedeemDisabled,
    BuybackAlreadyRequested,
    NoBuybackRequested,
    /// A computed amount differs from the amount the caller fixed.
    RequireEqViolated,
    /// The constant product of a market decreased.
    RequireGteViolated,
    /// An amount that must be positive is zero.
    RequireGtViolated,
    /// A key that must be set is the all-zero key.
    RequireKeysNeqViolated,
}

impl ErrorCode {
    /// A human-readable description of the error.
    pub fn message(&self) -> &'static str {
        match self {
            ErrorCode::NotApproved => "Not approved",
            ErrorCode::InvalidOwner => "Input account owner is not the program address",
            ErrorCode::EmptySupply => "Input token account is empty",
            ErrorCode::InvalidInput => "Invalid input token for swap",
            ErrorCode::IncorrectLpMint => "Address of the provided LP token mint is incorrect",
            ErrorCode::ExceededSlippage => "Exceeds desired slippage limit",
            ErrorCode::ZeroTradingTokens => "Given pool token amount results in zero trading tokens",
            ErrorCode::NotSupportMint => "Token-2022 mint extension is not supported",
            ErrorCode::InvalidVault => "Invalid vault account",
            ErrorCode::InitLpAmountTooLess => "Initial LP amount is too small",
            ErrorCode::InvalidTimestamp => "Invalid timestamp conversion",
            ErrorCode::ClockUnavailable => "Clock sysvar is unavailable",
            ErrorCode::Overflow => "Arithmetic overflow occurred",
            ErrorCode::LockIsPermanent => "This LP is locked permanently and cannot be unlocked",
            ErrorCode::LockAlreadyUnlocked => "This LP lock has already been unlocked",
            ErrorCode::UnlockTimeNotReached => "Unlock time has not yet been reached",
            ErrorCode::ZeroLpTokensToBurn => "Calculated LP tokens to burn is zero",
            ErrorCode::LockDurationTooLong => "The provided lock duration exceeds the maximum allowed limit",
            ErrorCode::UnderflowError => "Underflow occurred",
            ErrorCode::ZeroLiquidity => "Zero liquidity in the pool",
            ErrorCode::InvalidLuxorMint => "Invalid Luxor mint account",
            ErrorCode::InvalidStakeProgram => "Invalid Stake program account",
            ErrorCode::InvalidStakePdaOwner => "Stake PDA account already exists",
            ErrorCode::InsufficientRent => "Stake PDA account has insufficient rent",
            ErrorCode::MathOverflow => "Math operation overflowed or underflowed",
            ErrorCode::InsufficientVault => "Insufficient vault balance for the operation",
            ErrorCode::InvalidFeeModel => "Invalid fee model specified",
            ErrorCode::NoRewardsToClaim => "No rewards available to claim",
            ErrorCode::MissingRemainingAccount => "Missing remaining account",
            ErrorCode::InvalidParam => "Invalid parameter provided",
            ErrorCode::PurchaseDisabled => "Purchase functionality is currently disabled",
            ErrorCode::RedeemDisabled => "Redeem functionality is currently disabled",
            ErrorCode::BuybackAlreadyRequested => "Buyback has already been requested",
            ErrorCode::NoBuybackRequested => "No buyback has been requested",
            ErrorCode::RequireEqViolated => "A computed amount differs from the requested amount",
            ErrorCode::RequireGteViolated => "The constant product decreased",
            ErrorCode::RequireGtViolated => "An amount that must be positive is zero",
            ErrorCode::RequireKeysNeqViolated => "The key must not be the default key",
        }
    }
}

} // verus!
