//! The scalar state of a vault, grouped by concern.

use vstd::prelude::*;
use crate::address::Address;
use crate::keys::PendingCooldowns;
use crate::keys::PendingFees;
use crate::keys::PendingLimits;
use crate::keys::PendingPrice;
use crate::keys::PendingRoles;
use crate::keys::PendingWhitelist;

verus! {

/// Roles, fee rates, counters and limits.
#[derive(Copy, Clone, Debug, PartialEq, Eq)]
pub struct StateCore {
    pub authority: Address,
    pub oracle: Address,
    pub manager: Address,
    pub processor: Address,
    pub accountant: Address,
    pub asset_manager: Address,
    pub deposit_fee_bps: u32,
    pub withdraw_fee_bps: u32,
    pub management_fee_bps_per_year: u32,
    pub last_mgmt_fee_ts: u64,
    /// Fixed point: `PRICE_PRECISION` is one unit of underlying per share.
    pub price: u64,
    pub total_shares: u64,
    /// Underlying held by the vault and not deployed to the asset manager.
    pub total_idle: u64,
    /// Sum of `amount_due` over the pending withdrawal requests.
    pub total_withdrawals_pending: u64,
    /// Shares escrowed for the pending withdrawal requests.
    pub shares_in_custody: u64,
    pub created_at: u64,
    /// `u64::MAX` stands for no limit.
    pub max_total_shares: u64,
    /// `u64::MAX` stands for no limit.
    pub max_shares_per_user: u64,
    /// `u64::MAX` stands for no limit.
    pub max_total_idle: u64,
    /// Smallest non-zero holding; zero stands for no minimum.
    pub min_shares_to_mint: u64,
    /// Largest deviation a reported price may have and still apply at once;
    /// zero switches the deviation check off.
    pub max_deviation_bps: u32,
    pub last_price_update_timestamp: u64,
    /// Id of the next withdrawal request.
    pub next_withdrawal_id: u64,
}

/// Cooldowns, withdrawal-lifecycle parameters and switches.
#[derive(Copy, Clone, Debug, PartialEq, Eq)]
pub struct StateConfig {
    pub price_update_cooldown_secs: u64,
    pub price_acceptance_cooldown_secs: u64,
    pub downside_cap_bps: u32,
    pub withdrawal_ttl_secs: u64,
    pub early_cancel_fee_bps: u32,
    pub system_penalty_bps: u32,
    pub whitelist_enabled: bool,
    pub paused: bool,
    pub role_change_cooldown_secs: u64,
    pub config_cooldown_secs: u64,
    pub fee_change_cooldown_secs: u64,
}

/// The price oracle's slot: no reported price awaits approval, or exactly
/// one does.
#[derive(Copy, Clone, Debug, PartialEq, Eq)]
pub enum OracleState {
    Stable,
    PendingApproval(PendingPrice),
}

/// The changes in flight, at most one per category.
#[derive(Copy, Clone, Debug, PartialEq, Eq)]
pub struct StatePending {
    pub pending_price: OracleState,
    pub pending_roles: Option<PendingRoles>,
    pub pending_fees: Option<PendingFees>,
    pub pending_limits: Option<PendingLimits>,
    pub pending_whitelist: Option<PendingWhitelist>,
    pub pending_cooldowns: Option<PendingCooldowns>,
}

/// The emergency-withdrawal timelock and the request pinned under it.
#[derive(Copy, Clone, Debug, PartialEq, Eq)]
pub struct StateEmergency {
    /// End of the timelock; zero while no request is pinned.
    pub emergency_withdraw_timelock_e: u64,
    pub emergency_withdrawal_cooldown: u64,
    pub emergency_withdraw_token_mint: Option<Address>,
    pub emergency_withdrawal_amount: u64,
}

/// The scalar state of a vault.
#[derive(Copy, Clone, Debug, PartialEq, Eq)]
pub struct State {
    pub core: StateCore,
    pub config: StateConfig,
    pub pending: StatePending,
    pub emergency: StateEmergency,
}

} // verus!
