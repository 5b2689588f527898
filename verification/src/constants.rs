//! Fixed parameters of the vault.

use vstd::prelude::*;

verus! {

/// Fixed-point scale of a price: a price of `PRICE_PRECISION` values one
/// share at one unit of underlying.
pub const PRICE_PRECISION: u64 = 10_000_000;

/// Basis points in a whole (10,000 = 100%).
pub const BPS_PRECISION: u32 = 10_000;

/// Largest deposit or withdrawal fee (10%).
pub const MAX_FEE_BPS: u32 = 1_000;

/// Largest management fee per year (5%).
pub const MAX_MANAGEMENT_FEE_BPS_PER_YEAR: u32 = 500;

/// Seconds in a year of 365 days.
pub const SECONDS_PER_YEAR: u64 = 31_536_000;

/// Shortest cooldown that can be proposed.
pub const MIN_COOLDOWN_SECS: u64 = 1;

/// Longest cooldown that can be proposed (one year).
pub const MAX_COOLDOWN_SECS: u64 = 31_536_000;

/// Smallest fee charged on a non-zero amount at a non-zero rate.
pub const MIN_FEE_THRESHOLD: u64 = 1;

/// Largest deviation (20%) for which the manager may accept a pending
/// price before the acceptance cooldown has elapsed.
pub const MAX_MANAGER_BYPASS_DEVIATION_BPS: u32 = 2000;

/// Largest number of decimals of a token.
pub const MAX_TOKEN_DECIMALS: u8 = 7;

/// Ceiling of the total-shares limit.
pub const MAX_ALLOWED_TOTAL_SHARES: u64 = 10_000_000_000_000_000;

/// Ceiling of the per-user shares limit.
pub const MAX_ALLOWED_SHARES_PER_USER: u64 = 100_000_000_000_000;

/// Ceiling of the idle-funds limit.
pub const MAX_ALLOWED_TOTAL_IDLE: u64 = 100_000_000_000_000_000;

/// Ceiling of the minimum holding.
pub const MAX_ALLOWED_MIN_SHARES_TO_MINT: u64 = 1_000_000_000_000_000;

/// Largest swap fee (1%).
pub const MAX_SWAP_FEE_BPS: u16 = 100;

/// Swap fee used when none is given (0.1%).
pub const DEFAULT_SWAP_FEE_BPS: u16 = 10;

/// Downside cap used when none is configured (5%).
pub const DEFAULT_DOWNSIDE_CAP_BPS: u32 = 500;

/// Lifetime of a withdrawal request used when none is configured (24 hours).
pub const DEFAULT_WITHDRAWAL_TTL_SECS: u64 = 86400;

/// Early-cancellation fee used when none is configured (1%).
pub const DEFAULT_EARLY_CANCEL_FEE_BPS: u32 = 100;

/// Late-cancellation compensation used when none is configured (0.5%).
pub const DEFAULT_SYSTEM_PENALTY_BPS: u32 = 50;

/// Longest lifetime of a withdrawal request (7 days).
pub const MAX_WITHDRAWAL_TTL_SECS: u64 = 604_800;

/// Deviation threshold used when none is configured (5%).
pub const DEFAULT_MAX_DEVIATION_BPS: u32 = 500;

/// Price cooldowns used when none is configured (5 minutes).
pub const DEFAULT_PRICE_COOLDOWN_SECS: u64 = 300;

/// Configuration, fee and emergency cooldown used when none is configured
/// (24 hours).
pub const DEFAULT_CONFIG_COOLDOWN_SECS: u64 = 86400;

/// Role-change cooldown used when none is configured (48 hours).
pub const DEFAULT_ROLE_CHANGE_COOLDOWN_SECS: u64 = 172800;

} // verus!
