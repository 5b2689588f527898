//! Closed error enumerations, one per area of the vault.

use vstd::prelude::*;

verus! {

/// Failures of the core accounting operations.
#[derive(Copy, Clone, Debug, PartialEq, Eq, Structural, PartialOrd, Ord)]
pub enum STokenCoreError {
    Unauthorized,
    InvalidFee,
    InvalidPrice,
    InvalidAmount,
    InvalidArgument,
    InsufficientBalance,
    InsufficientShares,
    MathOverflow,
    InvalidUnderlyingMint,
    InvalidSharesMint,
    InvalidTokenAccountMint,
    InvalidTokenAccountOwner,
    InvalidAtaAddress,
    InvalidTokenProgram,
    VaultNotInitialized,
    WithdrawalRequestNotFound,
    WithdrawalAmountTooLow,
    InvalidTimestamp,
    FeeCalculationError,
    PriceTooOld,
    InvalidOracle,
    InvalidManager,
    InvalidWithdrawalMinimum,
    MinimumTooHigh,
    InvalidAssetManager,
    ZeroSharesCalculated,
    ZeroAmountCalculated,
    UserNotWhitelisted,
    WhitelistNotEnabled,
    WhitelistAlreadyExists,
    WhitelistFull,
    AddressAlreadyWhitelisted,
    AddressNotWhitelisted,
    InvalidWhitelist,
    InvalidUserWhitelist,
    MaxTotalSharesExceeded,
    MaxSharesPerUserExceeded,
    MaxTotalIdleExceeded,
    InvalidRecipient,
    InitializationFailed,
    PriceCooldownNotExpired,
    SlippageNotMet,
    InvalidLimit,
    LimitExceedsMaximum,
    MinimumSharesNotMet,
    LimitsChangeTimelockActive,
    NoPendingLimitsChange,
    NoLimitsChanges,
    UserAlreadyWhitelisted,
    VaultPaused,
}

/// Failures of the price-oracle protocol.
#[derive(Copy, Clone, Debug, PartialEq, Eq, Structural, PartialOrd, Ord)]
pub enum STokenOracleError {
    PricePending,
    NoPendingPrice,
    PriceDeviationTooHigh,
    PriceCooldownNotExpired,
    PriceUpdateTooFrequent,
    InvalidDeviationThreshold,
    InvalidOracleData,
    InvalidPrice,
}

/// Failures of operations on a withdrawal request.
#[derive(Copy, Clone, Debug, PartialEq, Eq, Structural, PartialOrd, Ord)]
pub enum STokenWithdrawalRequestError {
    InvalidWithdrawalIndex,
    WithdrawalAlreadyFulfilled,
    WithdrawalAlreadyCancelled,
    InvalidWithdrawalRequestStatus,
    WithdrawalQueueEmpty,
    InvalidBatchSize,
    VaultPaused,
    InvalidWithdrawalRequest,
    TtlNotExpired,
    InvalidUserAccount,
    MathOverflow,
    MinimumCannotIncrease,
    InsufficientBalance,
    InsufficientVaultFunds,
}

/// Failures of the recovery of unexpected inbound transfers.
#[derive(Copy, Clone, Debug, PartialEq, Eq, Structural, PartialOrd, Ord)]
pub enum STokenInboundTransfersError {
    NoUnexpectedDeposits,
    UnexpectedDepositsCooldown,
}

/// Failures of the pause and emergency-withdrawal protocol.
#[derive(Copy, Clone, Debug, PartialEq, Eq, Structural, PartialOrd, Ord)]
pub enum STokenEmergencyWithdrawalError {
    VaultPaused,
    VaultNotPaused,
    EmergencyOnly,
    EmergencyWithdrawalTimelockActive,
    EmergencyWithdrawalTokenMismatch,
    EmergencyWithdrawalAmountMismatch,
    InvalidAmount,
    InvalidArgument,
    InvalidTokenAccountMint,
    InsufficientBalance,
}

/// Failures of a configuration change.
#[derive(Copy, Clone, Debug, PartialEq, Eq, Structural, PartialOrd, Ord)]
pub enum STokenConfigurationCooldownError {
    ConfigChangePending,
    ConfigCooldownNotExpired,
    NoConfigChangesPending,
    NoConfigChanges,
    TooManyPendingChanges,
    InvalidConfigChange,
}

/// Failures of a withdrawal fulfilment.
#[derive(Copy, Clone, Debug, PartialEq, Eq, Structural, PartialOrd, Ord)]
pub enum STokenFulfillWithdrawalError {
    InvalidWithdrawalRequest,
    InvalidUserTokenAccount,
    InsufficientVaultFunds,
}

/// Failures of a role change.
#[derive(Copy, Clone, Debug, PartialEq, Eq, Structural, PartialOrd, Ord)]
pub enum STokenRoleChangeError {
    RoleChangeTimelockActive,
    InvalidRole,
    NoPendingRolesChange,
}

/// Failures of a fee change.
#[derive(Copy, Clone, Debug, PartialEq, Eq, Structural, PartialOrd, Ord)]
pub enum STokenFeeChangeError {
    FeeChangeTimelockActive,
    NoPendingFeesChange,
    NoFeeChanges,
    InvalidFee,
}

/// Failures of a cooldown change.
#[derive(Copy, Clone, Debug, PartialEq, Eq, Structural, PartialOrd, Ord)]
pub enum STokenCooldownChangeError {
    CooldownChangeTimelockActive,
    NoPendingCooldownChange,
    NoCooldownChanges,
    CooldownUpdateBlockedByPendingChanges,
    InvalidCooldownDuration,
}

/// Failures of a whitelist toggle.
#[derive(Copy, Clone, Debug, PartialEq, Eq, Structural, PartialOrd, Ord)]
pub enum STokenWhitelistChangeError {
    WhitelistChangeTimelockActive,
    NoPendingWhitelistChange,
    NoWhitelistChanges,
}

/// Failures of a cross-vault swap.
#[derive(Copy, Clone, Debug, PartialEq, Eq, Structural, PartialOrd, Ord)]
pub enum STokenSwapError {
    InvalidSwapSameVault,
    IncompatibleUnderlyingTokens,
    MissingAssetManager,
    InvalidSwapFee,
    ZeroSwapAmount,
    SwapAmountTooSmall,
    UnderlyingMintMismatch,
    VaultsMustHaveAssetManagers,
    AssetManagerMismatch,
    VaultPaused,
    MathOverflow,
    TokenDecimalMismatch,
    UserNotWhitelisted,
    SlippageNotMet,
    MinimumSharesNotMet,
}

/// Failures of the withdrawal lifecycle rules.
#[derive(Copy, Clone, Debug, PartialEq, Eq, Structural, PartialOrd, Ord)]
pub enum STokenWithdrawalLifecycleError {
    MinimumCannotIncrease,
    InsufficientLiquidity,
    PriceDropExceedsDownsideCap,
    WithdrawalTtlNotExpired,
    InvalidWithdrawalMinimum,
    BotCancellationForbidden,
    WithdrawalAmountTooLow,
    MinimumTooHigh,
    TokenDecimalMismatch,
}

/// Failures of an allow-listed cross-vault mint.
#[derive(Copy, Clone, Debug, PartialEq, Eq, Structural, PartialOrd, Ord)]
pub enum STokenAllowlistMintError {
    AssetManagerMismatch,
    NotInAllowlist,
    VaultPaused,
}

} // verus!
