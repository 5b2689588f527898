//! Records that the vault keeps: its initial configuration, the pending
//! changes of each governed category, and withdrawal requests.

use vstd::prelude::*;
use crate::address::Address;

verus! {

/// Configuration a vault is created with. An absent optional value selects
/// the default.
#[derive(Copy, Clone, Debug, PartialEq, Eq)]
pub struct VaultInitConfig {
    pub authority: Address,
    pub underlying_mint: Address,
    pub oracle: Address,
    pub manager: Address,
    pub processor: Address,
    pub accountant: Address,
    pub asset_manager: Address,
    pub deposit_fee_bps: u32,
    pub withdraw_fee_bps: u32,
    pub management_fee_bps_per_year: u32,
    pub max_total_shares: Option<u64>,
    pub max_shares_per_user: Option<u64>,
    pub max_total_idle: Option<u64>,
    pub min_shares_to_mint: Option<u64>,
    pub max_deviation_bps: Option<u32>,
    pub price_update_cooldown_secs: Option<u64>,
    pub price_acceptance_cooldown_secs: Option<u64>,
    pub config_cooldown_secs: Option<u64>,
    pub emergency_withdrawal_cooldown: Option<u64>,
    pub role_change_cooldown_secs: Option<u64>,
    pub fee_change_cooldown_secs: Option<u64>,
    pub initial_price: Option<u64>,
    pub whitelist_enabled: Option<bool>,
    pub downside_cap_bps: Option<u32>,
    pub withdrawal_ttl_secs: Option<u64>,
    pub early_cancel_fee_bps: Option<u32>,
    pub system_penalty_bps: Option<u32>,
}

/// A reported price that awaits approval, with the time it was reported.
#[derive(Copy, Clone, Debug, PartialEq, Eq)]
pub struct PendingPrice {
    pub value: u64,
    pub timestamp: u64,
}

/// Proposed role holders; an absent role is left unchanged.
#[derive(Copy, Clone, Debug, PartialEq, Eq)]
pub struct PendingRoles {
    pub new_manager: Option<Address>,
    pub new_processor: Option<Address>,
    pub new_accountant: Option<Address>,
    pub new_oracle: Option<Address>,
    pub new_asset_manager: Option<Address>,
    pub timestamp: u64,
}

/// Proposed fee rates.
#[derive(Copy, Clone, Debug, PartialEq, Eq)]
pub struct PendingFees {
    pub new_deposit_fee_bps: u32,
    pub new_withdraw_fee_bps: u32,
    pub new_management_fee_bps_peryear: u32,
    pub timestamp: u64,
}

/// Proposed limits; an absent limit is left unchanged.
#[derive(Copy, Clone, Debug, PartialEq, Eq)]
pub struct PendingLimits {
    pub new_max_total_shares: Option<u64>,
    pub new_max_shares_per_user: Option<u64>,
    pub new_max_total_idle: Option<u64>,
    pub new_max_deviation_bps: Option<u32>,
    pub new_min_shares_to_mint: Option<u64>,
    pub timestamp: u64,
}

/// Proposed setting of the whitelist switch.
#[derive(Copy, Clone, Debug, PartialEq, Eq)]
pub struct PendingWhitelist {
    pub new_enabled: bool,
    pub timestamp: u64,
}

/// Proposed cooldown durations; an absent duration is left unchanged.
#[derive(Copy, Clone, Debug, PartialEq, Eq)]
pub struct PendingCooldowns {
    pub new_price_update_cooldown_secs: Option<u64>,
    pub new_price_acceptance_cldwn_s: Option<u64>,
    pub new_config_cooldown_secs: Option<u64>,
    pub new_emergency_withdraw_cldwn_s: Option<u64>,
    pub new_role_change_cooldown_secs: Option<u64>,
    pub new_fee_change_cooldown_secs: Option<u64>,
    pub timestamp: u64,
}

/// Where a withdrawal request stands. `FULFILLED` and `CANCELLED` are
/// terminal.
#[allow(non_camel_case_types)]
#[derive(Copy, Clone, Debug, PartialEq, Eq, Structural, PartialOrd, Ord)]
pub enum WithdrawalRequestStatus {
    PENDING,
    FULFILLED,
    CANCELLED,
}

/// A withdrawal request. Its id is its position in the vault's book of
/// requests.
///
/// `shares` are the shares that will be burned on fulfilment, that is the
/// requested shares less the withdrawal fee; `fee_shares` is that fee.
/// Both are held in the vault's custody while the request is pending.
#[derive(Copy, Clone, Debug, PartialEq, Eq)]
pub struct WithdrawalRequest {
    pub user: Address,
    pub shares: u64,
    pub amount_due: u64,
    pub min_amount_out: u64,
    pub fee_shares: u64,
    pub price_at_request: u64,
    pub created_at: u64,
    pub status: WithdrawalRequestStatus,
    pub processed_at: Option<u64>,
}

} // verus!
