//! The governance timelock: roles, fees, limits, the whitelist switch and
//! the cooldowns themselves change by a proposal and, once the category's
//! cooldown has elapsed, its acceptance. One change per category can be in
//! flight. The manager authorizes every proposal and every acceptance.

use vstd::prelude::*;
use crate::address::Address;
use crate::constants::BPS_PRECISION;
use crate::constants::MAX_COOLDOWN_SECS;
use crate::constants::MIN_COOLDOWN_SECS;
use crate::errors::STokenCooldownChangeError;
use crate::errors::STokenCoreError;
use crate::errors::STokenFeeChangeError;
use crate::errors::STokenRoleChangeError;
use crate::errors::STokenWhitelistChangeError;
use crate::keys::PendingCooldowns;
use crate::keys::PendingFees;
use crate::keys::PendingLimits;
use crate::keys::PendingRoles;
use crate::keys::PendingWhitelist;
use crate::receipts::Authorization;
use crate::stoken::or_address;
use crate::stoken::or_u32;
use crate::stoken::or_u64;
use crate::stoken::SToken;
use crate::types::State;
use crate::types::StateConfig;
use crate::types::StateCore;
use crate::types::StateEmergency;
use crate::types::StatePending;
use crate::utils::elapsed;
use crate::utils::fees_valid;
use crate::utils::has_elapsed;
use crate::utils::new_limits_check;
use crate::utils::validate_fees;
use crate::utils::validate_new_limits;

verus! {

/// Whether a proposed cooldown, if any, is within
/// `MIN_COOLDOWN_SECS..=MAX_COOLDOWN_SECS`.
pub open spec fn cooldown_in_range(cooldown: Option<u64>) -> bool {
    match cooldown {
        Some(secs) => MIN_COOLDOWN_SECS <= secs <= MAX_COOLDOWN_SECS,
        None => true,
    }
}

/// Checks a proposed cooldown against the allowed range.
fn check_cooldown(cooldown: Option<u64>) -> (in_range: bool)
    ensures
        in_range == cooldown_in_range(cooldown),
{
    match cooldown {
        Some(secs) => MIN_COOLDOWN_SECS <= secs && secs <= MAX_COOLDOWN_SECS,
        None => true,
    }
}

/// Whether a proposed value leaves the current one as it is: it is absent,
/// or it is the current value.
pub open spec fn leaves_unchanged<T>(proposed: Option<T>, current: T) -> bool {
    proposed is None || proposed == Some(current)
}

/// Whether `proposed` leaves `current` as it is.
fn keeps_u64(proposed: Option<u64>, current: u64) -> (same: bool)
    ensures
        same == leaves_unchanged(proposed, current),
{
    match proposed {
        Some(value) => value == current,
        None => true,
    }
}

/// Whether `proposed` leaves `current` as it is.
fn keeps_u32(proposed: Option<u32>, current: u32) -> (same: bool)
    ensures
        same == leaves_unchanged(proposed, current),
{
    match proposed {
        Some(value) => value == current,
        None => true,
    }
}

/// Whether `proposed` leaves `current` as it is.
fn keeps_address(proposed: Option<Address>, current: Address) -> (same: bool)
    ensures
        same == leaves_unchanged(proposed, current),
{
    match proposed {
        Some(value) => value == current,
        None => true,
    }
}

impl State {
    // ----- roles -----

    /// Whether `proposal` changes no role: each role is absent from it or
    /// named with its holder in office.
    pub open spec fn roles_unchanged_by(self, proposal: PendingRoles) -> bool {
        &&& leaves_unchanged(proposal.new_manager, self.core.manager)
        &&& leaves_unchanged(proposal.new_processor, self.core.processor)
        &&& leaves_unchanged(proposal.new_accountant, self.core.accountant)
        &&& leaves_unchanged(proposal.new_oracle, self.core.oracle)
        &&& leaves_unchanged(proposal.new_asset_manager, self.core.asset_manager)
    }

    /// Why a proposal of roles is refused, if it is: one that changes no
    /// role is `InvalidRole`; one made while another is pending is
    /// `RoleChangeTimelockActive`.
    pub open spec fn propose_roles_error(self, proposal: PendingRoles) -> Option<
        STokenRoleChangeError,
    > {
        if self.roles_unchanged_by(proposal) {
            Some(STokenRoleChangeError::InvalidRole)
        } else if self.pending.pending_roles is Some {
            Some(STokenRoleChangeError::RoleChangeTimelockActive)
        } else {
            None
        }
    }

    /// The state with `proposal` pending.
    pub open spec fn with_pending_roles(self, proposal: Option<PendingRoles>) -> State {
        State { pending: StatePending { pending_roles: proposal, ..self.pending }, ..self }
    }

    /// Why the pending roles cannot be accepted at `now`, if they cannot:
    /// none are pending, or the role-change cooldown has not elapsed since
    /// the proposal.
    pub open spec fn accept_roles_error(self, now: u64) -> Option<STokenRoleChangeError> {
        match self.pending.pending_roles {
            None => Some(STokenRoleChangeError::NoPendingRolesChange),
            Some(pending) => if !elapsed(
                now,
                pending.timestamp,
                self.config.role_change_cooldown_secs,
            ) {
                Some(STokenRoleChangeError::RoleChangeTimelockActive)
            } else {
                None
            },
        }
    }

    /// The state with the roles of `pending` applied, each where it is
    /// given, and no roles pending.
    pub open spec fn after_accept_roles(self, pending: PendingRoles) -> State {
        State {
            core: StateCore {
                manager: pending.new_manager.unwrap_or(self.core.manager),
                processor: pending.new_processor.unwrap_or(self.core.processor),
                accountant: pending.new_accountant.unwrap_or(self.core.accountant),
                oracle: pending.new_oracle.unwrap_or(self.core.oracle),
                asset_manager: pending.new_asset_manager.unwrap_or(self.core.asset_manager),
                ..self.core
            },
            pending: StatePending { pending_roles: None, ..self.pending },
            ..self
        }
    }

    // ----- fees -----

    /// Why a proposal of fees is refused, if it is: a rate above its
    /// ceiling is `InvalidFee`; a proposal made while another is pending is
    /// `FeeChangeTimelockActive`; one that changes nothing is `NoFeeChanges`.
    pub open spec fn propose_fees_error(
        self,
        deposit_fee_bps: u32,
        withdraw_fee_bps: u32,
        management_fee_bps_per_year: u32,
    ) -> Option<STokenFeeChangeError> {
        if !fees_valid(deposit_fee_bps, withdraw_fee_bps, management_fee_bps_per_year) {
            Some(STokenFeeChangeError::InvalidFee)
        } else if self.pending.pending_fees is Some {
            Some(STokenFeeChangeError::FeeChangeTimelockActive)
        } else if deposit_fee_bps == self.core.deposit_fee_bps && withdraw_fee_bps
            == self.core.withdraw_fee_bps && management_fee_bps_per_year
            == self.core.management_fee_bps_per_year {
            Some(STokenFeeChangeError::NoFeeChanges)
        } else {
            None
        }
    }

    /// The state with `proposal` pending.
    pub open spec fn with_pending_fees(self, proposal: Option<PendingFees>) -> State {
        State { pending: StatePending { pending_fees: proposal, ..self.pending }, ..self }
    }

    /// Why the pending fees cannot be accepted at `now`, if they cannot:
    /// none are pending, or the fee-change cooldown has not elapsed since
    /// the proposal.
    pub open spec fn accept_fees_error(self, now: u64) -> Option<STokenFeeChangeError> {
        match self.pending.pending_fees {
            None => Some(STokenFeeChangeError::NoPendingFeesChange),
            Some(pending) => if !elapsed(
                now,
                pending.timestamp,
                self.config.fee_change_cooldown_secs,
            ) {
                Some(STokenFeeChangeError::FeeChangeTimelockActive)
            } else {
                None
            },
        }
    }

    /// The state with the fees of `pending` applied and no fees pending.
    pub open spec fn after_accept_fees(self, pending: PendingFees) -> State {
        State {
            core: StateCore {
                deposit_fee_bps: pending.new_deposit_fee_bps,
                withdraw_fee_bps: pending.new_withdraw_fee_bps,
                management_fee_bps_per_year: pending.new_management_fee_bps_peryear,
                ..self.core
            },
            pending: StatePending { pending_fees: None, ..self.pending },
            ..self
        }
    }

    // ----- limits -----

    /// Whether `proposal` changes no limit: each of the five limits is
    /// absent from it or given with its current value.
    pub open spec fn limits_unchanged_by(self, proposal: PendingLimits) -> bool {
        &&& leaves_unchanged(proposal.new_max_total_shares, self.core.max_total_shares)
        &&& leaves_unchanged(proposal.new_max_shares_per_user, self.core.max_shares_per_user)
        &&& leaves_unchanged(proposal.new_max_total_idle, self.core.max_total_idle)
        &&& leaves_unchanged(proposal.new_max_deviation_bps, self.core.max_deviation_bps)
        &&& leaves_unchanged(proposal.new_min_shares_to_mint, self.core.min_shares_to_mint)
    }

    /// Why a proposal of limits is refused, if it is.
    ///
    /// A limit above its absolute ceiling, a per-user limit above the total
    /// limit, whether proposed or current, or a minimum holding above the
    /// proposed per-user limit is `InvalidLimit`; a deviation threshold
    /// above 100% is `InvalidFee`; a proposal made while another is pending
    /// is `LimitsChangeTimelockActive`; one that changes none of the five
    /// limits is `NoLimitsChanges`.
    pub open spec fn propose_limits_error(self, proposal: PendingLimits) -> Option<
        STokenCoreError,
    > {
        if new_limits_check(
            proposal.new_max_total_shares,
            proposal.new_max_shares_per_user,
            proposal.new_max_total_idle,
            proposal.new_min_shares_to_mint,
        ) is Err {
            Some(STokenCoreError::InvalidLimit)
        } else if proposal.new_max_shares_per_user.unwrap_or(self.core.max_shares_per_user)
            > proposal.new_max_total_shares.unwrap_or(self.core.max_total_shares) {
            Some(STokenCoreError::InvalidLimit)
        } else if proposal.new_max_deviation_bps is Some && proposal.new_max_deviation_bps->Some_0
            > BPS_PRECISION {
            Some(STokenCoreError::InvalidFee)
        } else if self.pending.pending_limits is Some {
            Some(STokenCoreError::LimitsChangeTimelockActive)
        } else if self.limits_unchanged_by(proposal) {
            Some(STokenCoreError::NoLimitsChanges)
        } else {
            None
        }
    }

    /// The state with `proposal` pending.
    pub open spec fn with_pending_limits(self, proposal: Option<PendingLimits>) -> State {
        State { pending: StatePending { pending_limits: proposal, ..self.pending }, ..self }
    }

    /// Why the pending limits cannot be accepted at `now`, if they cannot:
    /// none are pending, or the configuration cooldown has not elapsed since
    /// the proposal.
    pub open spec fn accept_limits_error(self, now: u64) -> Option<STokenCoreError> {
        match self.pending.pending_limits {
            None => Some(STokenCoreError::NoPendingLimitsChange),
            Some(pending) => if !elapsed(now, pending.timestamp, self.config.config_cooldown_secs) {
                Some(STokenCoreError::LimitsChangeTimelockActive)
            } else {
                None
            },
        }
    }

    /// The state with the limits of `pending` applied, each where it is
    /// given, and no limits pending.
    pub open spec fn after_accept_limits(self, pending: PendingLimits) -> State {
        State {
            core: StateCore {
                max_total_shares: pending.new_max_total_shares.unwrap_or(
                    self.core.max_total_shares,
                ),
                max_shares_per_user: pending.new_max_shares_per_user.unwrap_or(
                    self.core.max_shares_per_user,
                ),
                max_total_idle: pending.new_max_total_idle.unwrap_or(self.core.max_total_idle),
                max_deviation_bps: pending.new_max_deviation_bps.unwrap_or(
                    self.core.max_deviation_bps,
                ),
                min_shares_to_mint: pending.new_min_shares_to_mint.unwrap_or(
                    self.core.min_shares_to_mint,
                ),
                ..self.core
            },
            pending: StatePending { pending_limits: None, ..self.pending },
            ..self
        }
    }

    // ----- whitelist switch -----

    /// Why a proposal to set the whitelist switch is refused, if it is: one
    /// made while another is pending is `WhitelistChangeTimelockActive`; one
    /// that proposes the current setting is `NoWhitelistChanges`.
    pub open spec fn propose_whitelist_error(self, enabled: bool) -> Option<
        STokenWhitelistChangeError,
    > {
        if self.pending.pending_whitelist is Some {
            Some(STokenWhitelistChangeError::WhitelistChangeTimelockActive)
        } else if self.config.whitelist_enabled == enabled {
            Some(STokenWhitelistChangeError::NoWhitelistChanges)
        } else {
            None
        }
    }

    /// The state with `proposal` pending.
    pub open spec fn with_pending_whitelist(self, proposal: Option<PendingWhitelist>) -> State {
        State { pending: StatePending { pending_whitelist: proposal, ..self.pending }, ..self }
    }

    /// Why the pending whitelist switch cannot be accepted at `now`, if it
    /// cannot: none is pending, or the configuration cooldown has not
    /// elapsed since the proposal.
    pub open spec fn accept_whitelist_error(self, now: u64) -> Option<
        STokenWhitelistChangeError,
    > {
        match self.pending.pending_whitelist {
            None => Some(STokenWhitelistChangeError::NoPendingWhitelistChange),
            Some(pending) => if !elapsed(now, pending.timestamp, self.config.config_cooldown_secs) {
                Some(STokenWhitelistChangeError::WhitelistChangeTimelockActive)
            } else {
                None
            },
        }
    }

    /// The state with the switch of `pending` applied and none pending.
    pub open spec fn after_accept_whitelist(self, pending: PendingWhitelist) -> State {
        State {
            config: StateConfig { whitelist_enabled: pending.new_enabled, ..self.config },
            pending: StatePending { pending_whitelist: None, ..self.pending },
            ..self
        }
    }

    // ----- cooldowns -----

    /// Whether a change of fees, limits, the whitelist switch or roles is in
    /// flight.
    pub open spec fn other_change_in_flight(self) -> bool {
        self.pending.pending_fees is Some || self.pending.pending_limits is Some
            || self.pending.pending_whitelist is Some || self.pending.pending_roles is Some
    }

    /// Whether `proposal` changes no cooldown: each of the six cooldowns
    /// is absent from it or given with its current value.
    pub open spec fn cooldowns_unchanged_by(self, proposal: PendingCooldowns) -> bool {
        &&& leaves_unchanged(
            proposal.new_price_update_cooldown_secs,
            self.config.price_update_cooldown_secs,
        )
        &&& leaves_unchanged(
            proposal.new_price_acceptance_cldwn_s,
            self.config.price_acceptance_cooldown_secs,
        )
        &&& leaves_unchanged(proposal.new_config_cooldown_secs, self.config.config_cooldown_secs)
        &&& leaves_unchanged(
            proposal.new_emergency_withdraw_cldwn_s,
            self.emergency.emergency_withdrawal_cooldown,
        )
        &&& leaves_unchanged(
            proposal.new_role_change_cooldown_secs,
            self.config.role_change_cooldown_secs,
        )
        &&& leaves_unchanged(
            proposal.new_fee_change_cooldown_secs,
            self.config.fee_change_cooldown_secs,
        )
    }

    /// Why a proposal of cooldowns is refused, if it is.
    ///
    /// A proposal made while a change of another category or of the
    /// cooldowns is in flight is `CooldownChangeTimelockActive`: a timelock
    /// that is running cannot be shortened. A duration out of range is
    /// `InvalidCooldownDuration`. A proposal that changes none of the six
    /// cooldowns is `NoCooldownChanges`.
    pub open spec fn propose_cooldowns_error(self, proposal: PendingCooldowns) -> Option<
        STokenCooldownChangeError,
    > {
        if self.other_change_in_flight() || self.pending.pending_cooldowns is Some {
            Some(STokenCooldownChangeError::CooldownChangeTimelockActive)
        } else if !cooldown_in_range(proposal.new_price_update_cooldown_secs)
            || !cooldown_in_range(proposal.new_price_acceptance_cldwn_s) || !cooldown_in_range(
            proposal.new_config_cooldown_secs,
        ) || !cooldown_in_range(proposal.new_emergency_withdraw_cldwn_s) || !cooldown_in_range(
            proposal.new_role_change_cooldown_secs,
        ) || !cooldown_in_range(proposal.new_fee_change_cooldown_secs) {
            Some(STokenCooldownChangeError::InvalidCooldownDuration)
        } else if self.cooldowns_unchanged_by(proposal) {
            Some(STokenCooldownChangeError::NoCooldownChanges)
        } else {
            None
        }
    }

    /// The state with `proposal` pending.
    pub open spec fn with_pending_cooldowns(self, proposal: Option<PendingCooldowns>) -> State {
        State { pending: StatePending { pending_cooldowns: proposal, ..self.pending }, ..self }
    }

    /// Why the pending cooldowns cannot be accepted at `now`, if they
    /// cannot: none are pending, or the configuration cooldown has not
    /// elapsed since the proposal.
    pub open spec fn accept_cooldowns_error(self, now: u64) -> Option<
        STokenCooldownChangeError,
    > {
        match self.pending.pending_cooldowns {
            None => Some(STokenCooldownChangeError::NoPendingCooldownChange),
            Some(pending) => if !elapsed(now, pending.timestamp, self.config.config_cooldown_secs) {
                Some(STokenCooldownChangeError::CooldownChangeTimelockActive)
            } else {
                None
            },
        }
    }

    /// The state with the cooldowns of `pending` applied, each where it is
    /// given, and none pending.
    pub open spec fn after_accept_cooldowns(self, pending: PendingCooldowns) -> State {
        State {
            config: StateConfig {
                price_update_cooldown_secs: pending.new_price_update_cooldown_secs.unwrap_or(
                    self.config.price_update_cooldown_secs,
                ),
                price_acceptance_cooldown_secs: pending.new_price_acceptance_cldwn_s.unwrap_or(
                    self.config.price_acceptance_cooldown_secs,
                ),
                config_cooldown_secs: pending.new_config_cooldown_secs.unwrap_or(
                    self.config.config_cooldown_secs,
                ),
                role_change_cooldown_secs: pending.new_role_change_cooldown_secs.unwrap_or(
                    self.config.role_change_cooldown_secs,
                ),
                fee_change_cooldown_secs: pending.new_fee_change_cooldown_secs.unwrap_or(
                    self.config.fee_change_cooldown_secs,
                ),
                ..self.config
            },
            emergency: StateEmergency {
                emergency_withdrawal_cooldown: pending.new_emergency_withdraw_cldwn_s.unwrap_or(
                    self.emergency.emergency_withdrawal_cooldown,
                ),
                ..self.emergency
            },
            pending: StatePending { pending_cooldowns: None, ..self.pending },
            ..self
        }
    }
}

impl SToken {
    /// Proposes new role holders at time `now`; `None` leaves a role as it
    /// is. On failure nothing changes.
    pub fn propose_roles(
        &mut self,
        new_manager: Option<Address>,
        new_processor: Option<Address>,
        new_accountant: Option<Address>,
        new_oracle: Option<Address>,
        new_asset_manager: Option<Address>,
        now: u64,
    ) -> (result: Result<Authorization, STokenRoleChangeError>)
        ensures
            ({
                let proposal = PendingRoles {
                    new_manager,
                    new_processor,
                    new_accountant,
                    new_oracle,
                    new_asset_manager,
                    timestamp: now,
                };
                match result {
                    Ok(authorization) => {
                        &&& old(self).state.propose_roles_error(proposal) is None
                        &&& authorization.authorizer == old(self).state.core.manager
                        &&& final(self)@ == old(self)@.with_state(
                            old(self).state.with_pending_roles(Some(proposal)),
                        )
                    },
                    Err(e) => {
                        &&& old(self).state.propose_roles_error(proposal) == Some(e)
                        &&& final(self)@ == old(self)@
                    },
                }
            }),
            old(self).wf() ==> final(self).wf(),
    {
        if keeps_address(new_manager, self.state.core.manager) && keeps_address(
            new_processor,
            self.state.core.processor,
        ) && keeps_address(new_accountant, self.state.core.accountant) && keeps_address(
            new_oracle,
            self.state.core.oracle,
        ) && keeps_address(new_asset_manager, self.state.core.asset_manager) {
            return Err(STokenRoleChangeError::InvalidRole);
        }
        if self.state.pending.pending_roles.is_some() {
            return Err(STokenRoleChangeError::RoleChangeTimelockActive);
        }
        self.state.pending.pending_roles = Some(
            PendingRoles {
                new_manager,
                new_processor,
                new_accountant,
                new_oracle,
                new_asset_manager,
                timestamp: now,
            },
        );
        Ok(Authorization { authorizer: self.state.core.manager })
    }

    /// Accepts the pending roles at time `now`. The manager who authorizes
    /// is the one in office before the change. On failure nothing changes.
    pub fn accept_roles(&mut self, now: u64) -> (result: Result<
        Authorization,
        STokenRoleChangeError,
    >)
        ensures
            match result {
                Ok(authorization) => {
                    &&& old(self).state.accept_roles_error(now) is None
                    &&& authorization.authorizer == old(self).state.core.manager
                    &&& final(self)@ == old(self)@.with_state(
                        old(self).state.after_accept_roles(
                            old(self).state.pending.pending_roles->Some_0,
                        ),
                    )
                },
                Err(e) => {
                    &&& old(self).state.accept_roles_error(now) == Some(e)
                    &&& final(self)@ == old(self)@
                },
            },
            old(self).wf() ==> final(self).wf(),
    {
        let pending: PendingRoles = match self.state.pending.pending_roles {
            None => {
                return Err(STokenRoleChangeError::NoPendingRolesChange);
            },
            Some(pending) => pending,
        };
        if !has_elapsed(now, pending.timestamp, self.state.config.role_change_cooldown_secs) {
            return Err(STokenRoleChangeError::RoleChangeTimelockActive);
        }
        let old_manager: Address = self.state.core.manager;
        self.state.core.manager = or_address(pending.new_manager, self.state.core.manager);
        self.state.core.processor = or_address(pending.new_processor, self.state.core.processor);
        self.state.core.accountant = or_address(pending.new_accountant, self.state.core.accountant);
        self.state.core.oracle = or_address(pending.new_oracle, self.state.core.oracle);
        self.state.core.asset_manager = or_address(
            pending.new_asset_manager,
            self.state.core.asset_manager,
        );
        self.state.pending.pending_roles = None;
        Ok(Authorization { authorizer: old_manager })
    }

    /// Proposes new fee rates at time `now`. On failure nothing changes.
    pub fn propose_fees(
        &mut self,
        deposit_fee_bps: u32,
        withdraw_fee_bps: u32,
        management_fee_bps_per_year: u32,
        now: u64,
    ) -> (result: Result<Authorization, STokenFeeChangeError>)
        ensures
            match result {
                Ok(authorization) => {
                    &&& old(self).state.propose_fees_error(
                        deposit_fee_bps,
                        withdraw_fee_bps,
                        management_fee_bps_per_year,
                    ) is None
                    &&& authorization.authorizer == old(self).state.core.manager
                    &&& final(self)@ == old(self)@.with_state(
                        old(self).state.with_pending_fees(
                            Some(
                                PendingFees {
                                    new_deposit_fee_bps: deposit_fee_bps,
                                    new_withdraw_fee_bps: withdraw_fee_bps,
                                    new_management_fee_bps_peryear: management_fee_bps_per_year,
                                    timestamp: now,
                                },
                            ),
                        ),
                    )
                },
                Err(e) => {
                    &&& old(self).state.propose_fees_error(
                        deposit_fee_bps,
                        withdraw_fee_bps,
                        management_fee_bps_per_year,
                    ) == Some(e)
                    &&& final(self)@ == old(self)@
                },
            },
            old(self).wf() ==> final(self).wf(),
    {
        if validate_fees(deposit_fee_bps, withdraw_fee_bps, management_fee_bps_per_year).is_err() {
            return Err(STokenFeeChangeError::InvalidFee);
        }
        if self.state.pending.pending_fees.is_some() {
            return Err(STokenFeeChangeError::FeeChangeTimelockActive);
        }
        if deposit_fee_bps == self.state.core.deposit_fee_bps && withdraw_fee_bps
            == self.state.core.withdraw_fee_bps && management_fee_bps_per_year
            == self.state.core.management_fee_bps_per_year {
            return Err(STokenFeeChangeError::NoFeeChanges);
        }
        self.state.pending.pending_fees = Some(
            PendingFees {
                new_deposit_fee_bps: deposit_fee_bps,
                new_withdraw_fee_bps: withdraw_fee_bps,
                new_management_fee_bps_peryear: management_fee_bps_per_year,
                timestamp: now,
            },
        );
        Ok(Authorization { authorizer: self.state.core.manager })
    }

    /// Accepts the pending fee rates at time `now`. On failure nothing
    /// changes.
    pub fn accept_fees(&mut self, now: u64) -> (result: Result<Authorization, STokenFeeChangeError>)
        ensures
            match result {
                Ok(authorization) => {
                    &&& old(self).state.accept_fees_error(now) is None
                    &&& authorization.authorizer == old(self).state.core.manager
                    &&& final(self)@ == old(self)@.with_state(
                        old(self).state.after_accept_fees(
                            old(self).state.pending.pending_fees->Some_0,
                        ),
                    )
                },
                Err(e) => {
                    &&& old(self).state.accept_fees_error(now) == Some(e)
                    &&& final(self)@ == old(self)@
                },
            },
            old(self).wf() ==> final(self).wf(),
    {
        let pending: PendingFees = match self.state.pending.pending_fees {
            None => {
                return Err(STokenFeeChangeError::NoPendingFeesChange);
            },
            Some(pending) => pending,
        };
        if !has_elapsed(now, pending.timestamp, self.state.config.fee_change_cooldown_secs) {
            return Err(STokenFeeChangeError::FeeChangeTimelockActive);
        }
        self.state.core.deposit_fee_bps = pending.new_deposit_fee_bps;
        self.state.core.withdraw_fee_bps = pending.new_withdraw_fee_bps;
        self.state.core.management_fee_bps_per_year = pending.new_management_fee_bps_peryear;
        self.state.pending.pending_fees = None;
        Ok(Authorization { authorizer: self.state.core.manager })
    }

    /// Proposes new limits at time `now`; `None` leaves a limit as it is.
    /// On failure nothing changes.
    pub fn propose_limits(
        &mut self,
        new_max_total_shares: Option<u64>,
        new_max_shares_per_user: Option<u64>,
        new_max_total_idle: Option<u64>,
        new_max_deviation_bps: Option<u32>,
        new_min_shares_to_mint: Option<u64>,
        now: u64,
    ) -> (result: Result<Authorization, STokenCoreError>)
        ensures
            ({
                let proposal = PendingLimits {
                    new_max_total_shares,
                    new_max_shares_per_user,
                    new_max_total_idle,
                    new_max_deviation_bps,
                    new_min_shares_to_mint,
                    timestamp: now,
                };
                match result {
                    Ok(authorization) => {
                        &&& old(self).state.propose_limits_error(proposal) is None
                        &&& authorization.authorizer == old(self).state.core.manager
                        &&& final(self)@ == old(self)@.with_state(
                            old(self).state.with_pending_limits(Some(proposal)),
                        )
                    },
                    Err(e) => {
                        &&& old(self).state.propose_limits_error(proposal) == Some(e)
                        &&& final(self)@ == old(self)@
                    },
                }
            }),
            old(self).wf() ==> final(self).wf(),
    {
        if validate_new_limits(
            new_max_total_shares,
            new_max_shares_per_user,
            new_max_total_idle,
            new_min_shares_to_mint,
        ).is_err() {
            return Err(STokenCoreError::InvalidLimit);
        }
        let effective_total_shares: u64 = or_u64(
            new_max_total_shares,
            self.state.core.max_total_shares,
        );
        let effective_shares_per_user: u64 = or_u64(
            new_max_shares_per_user,
            self.state.core.max_shares_per_user,
        );
        if effective_shares_per_user > effective_total_shares {
            return Err(STokenCoreError::InvalidLimit);
        }
        if let Some(deviation) = new_max_deviation_bps {
            if deviation > BPS_PRECISION {
                return Err(STokenCoreError::InvalidFee);
            }
        }
        if self.state.pending.pending_limits.is_some() {
            return Err(STokenCoreError::LimitsChangeTimelockActive);
        }
        if keeps_u64(new_max_total_shares, self.state.core.max_total_shares) && keeps_u64(
            new_max_shares_per_user,
            self.state.core.max_shares_per_user,
        ) && keeps_u64(new_max_total_idle, self.state.core.max_total_idle) && keeps_u32(
            new_max_deviation_bps,
            self.state.core.max_deviation_bps,
        ) && keeps_u64(new_min_shares_to_mint, self.state.core.min_shares_to_mint) {
            return Err(STokenCoreError::NoLimitsChanges);
        }
        self.state.pending.pending_limits = Some(
            PendingLimits {
                new_max_total_shares,
                new_max_shares_per_user,
                new_max_total_idle,
                new_max_deviation_bps,
                new_min_shares_to_mint,
                timestamp: now,
            },
        );
        Ok(Authorization { authorizer: self.state.core.manager })
    }

    /// Accepts the pending limits at time `now`. On failure nothing changes.
    pub fn accept_limits(&mut self, now: u64) -> (result: Result<Authorization, STokenCoreError>)
        ensures
            match result {
                Ok(authorization) => {
                    &&& old(self).state.accept_limits_error(now) is None
                    &&& authorization.authorizer == old(self).state.core.manager
                    &&& final(self)@ == old(self)@.with_state(
                        old(self).state.after_accept_limits(
                            old(self).state.pending.pending_limits->Some_0,
                        ),
                    )
                },
                Err(e) => {
                    &&& old(self).state.accept_limits_error(now) == Some(e)
                    &&& final(self)@ == old(self)@
                },
            },
            old(self).wf() ==> final(self).wf(),
    {
        let pending: PendingLimits = match self.state.pending.pending_limits {
            None => {
                return Err(STokenCoreError::NoPendingLimitsChange);
            },
            Some(pending) => pending,
        };
        if !has_elapsed(now, pending.timestamp, self.state.config.config_cooldown_secs) {
            return Err(STokenCoreError::LimitsChangeTimelockActive);
        }
        self.state.core.max_total_shares = or_u64(
            pending.new_max_total_shares,
            self.state.core.max_total_shares,
        );
        self.state.core.max_shares_per_user = or_u64(
            pending.new_max_shares_per_user,
            self.state.core.max_shares_per_user,
        );
        self.state.core.max_total_idle = or_u64(
            pending.new_max_total_idle,
            self.state.core.max_total_idle,
        );
        self.state.core.max_deviation_bps = or_u32(
            pending.new_max_deviation_bps,
            self.state.core.max_deviation_bps,
        );
        self.state.core.min_shares_to_mint = or_u64(
            pending.new_min_shares_to_mint,
            self.state.core.min_shares_to_mint,
        );
        self.state.pending.pending_limits = None;
        Ok(Authorization { authorizer: self.state.core.manager })
    }

    /// Proposes to set the whitelist switch to `enabled` at time `now`. On
    /// failure nothing changes.
    pub fn propose_whitelist(&mut self, enabled: bool, now: u64) -> (result: Result<
        Authorization,
        STokenWhitelistChangeError,
    >)
        ensures
            match result {
                Ok(authorization) => {
                    &&& old(self).state.propose_whitelist_error(enabled) is None
                    &&& authorization.authorizer == old(self).state.core.manager
                    &&& final(self)@ == old(self)@.with_state(
                        old(self).state.with_pending_whitelist(
                            Some(PendingWhitelist { new_enabled: enabled, timestamp: now }),
                        ),
                    )
                },
                Err(e) => {
                    &&& old(self).state.propose_whitelist_error(enabled) == Some(e)
                    &&& final(self)@ == old(self)@
                },
            },
            old(self).wf() ==> final(self).wf(),
    {
        if self.state.pending.pending_whitelist.is_some() {
            return Err(STokenWhitelistChangeError::WhitelistChangeTimelockActive);
        }
        if self.state.config.whitelist_enabled == enabled {
            return Err(STokenWhitelistChangeError::NoWhitelistChanges);
        }
        self.state.pending.pending_whitelist = Some(
            PendingWhitelist { new_enabled: enabled, timestamp: now },
        );
        Ok(Authorization { authorizer: self.state.core.manager })
    }

    /// Accepts the pending whitelist switch at time `now`. On failure
    /// nothing changes.
    pub fn accept_whitelist(&mut self, now: u64) -> (result: Result<
        Authorization,
        STokenWhitelistChangeError,
    >)
        ensures
            match result {
                Ok(authorization) => {
                    &&& old(self).state.accept_whitelist_error(now) is None
                    &&& authorization.authorizer == old(self).state.core.manager
                    &&& final(self)@ == old(self)@.with_state(
                        old(self).state.after_accept_whitelist(
                            old(self).state.pending.pending_whitelist->Some_0,
                        ),
                    )
                },
                Err(e) => {
                    &&& old(self).state.accept_whitelist_error(now) == Some(e)
                    &&& final(self)@ == old(self)@
                },
            },
            old(self).wf() ==> final(self).wf(),
    {
        let pending: PendingWhitelist = match self.state.pending.pending_whitelist {
            None => {
                return Err(STokenWhitelistChangeError::NoPendingWhitelistChange);
            },
            Some(pending) => pending,
        };
        if !has_elapsed(now, pending.timestamp, self.state.config.config_cooldown_secs) {
            return Err(STokenWhitelistChangeError::WhitelistChangeTimelockActive);
        }
        self.state.config.whitelist_enabled = pending.new_enabled;
        self.state.pending.pending_whitelist = None;
        Ok(Authorization { authorizer: self.state.core.manager })
    }

    /// Proposes new cooldowns at time `now`; `None` leaves a cooldown as it
    /// is. On failure nothing changes.
    pub fn propose_cooldowns(
        &mut self,
        new_price_update_cooldown_secs: Option<u64>,
        new_price_acceptance_cooldown: Option<u64>,
        new_config_cooldown_secs: Option<u64>,
        new_emergency_withdraw_cldwn: Option<u64>,
        new_role_change_cooldown_secs: Option<u64>,
        new_fee_change_cooldown_secs: Option<u64>,
        now: u64,
    ) -> (result: Result<Authorization, STokenCooldownChangeError>)
        ensures
            ({
                let proposal = PendingCooldowns {
                    new_price_update_cooldown_secs,
                    new_price_acceptance_cldwn_s: new_price_acceptance_cooldown,
                    new_config_cooldown_secs,
                    new_emergency_withdraw_cldwn_s: new_emergency_withdraw_cldwn,
                    new_role_change_cooldown_secs,
                    new_fee_change_cooldown_secs,
                    timestamp: now,
                };
                match result {
                    Ok(authorization) => {
                        &&& old(self).state.propose_cooldowns_error(proposal) is None
                        &&& authorization.authorizer == old(self).state.core.manager
                        &&& final(self)@ == old(self)@.with_state(
                            old(self).state.with_pending_cooldowns(Some(proposal)),
                        )
                    },
                    Err(e) => {
                        &&& old(self).state.propose_cooldowns_error(proposal) == Some(e)
                        &&& final(self)@ == old(self)@
                    },
                }
            }),
            old(self).wf() ==> final(self).wf(),
    {
        if self.state.pending.pending_fees.is_some() || self.state.pending.pending_limits.is_some()
            || self.state.pending.pending_whitelist.is_some()
            || self.state.pending.pending_roles.is_some() {
            return Err(STokenCooldownChangeError::CooldownChangeTimelockActive);
        }
        if self.state.pending.pending_cooldowns.is_some() {
            return Err(STokenCooldownChangeError::CooldownChangeTimelockActive);
        }
        if !check_cooldown(new_price_update_cooldown_secs) || !check_cooldown(
            new_price_acceptance_cooldown,
        ) || !check_cooldown(new_config_cooldown_secs) || !check_cooldown(
            new_emergency_withdraw_cldwn,
        ) || !check_cooldown(new_role_change_cooldown_secs) || !check_cooldown(
            new_fee_change_cooldown_secs,
        ) {
            return Err(STokenCooldownChangeError::InvalidCooldownDuration);
        }
        if keeps_u64(
            new_price_update_cooldown_secs,
            self.state.config.price_update_cooldown_secs,
        ) && keeps_u64(
            new_price_acceptance_cooldown,
            self.state.config.price_acceptance_cooldown_secs,
        ) && keeps_u64(new_config_cooldown_secs, self.state.config.config_cooldown_secs)
            && keeps_u64(
            new_emergency_withdraw_cldwn,
            self.state.emergency.emergency_withdrawal_cooldown,
        ) && keeps_u64(
            new_role_change_cooldown_secs,
            self.state.config.role_change_cooldown_secs,
        ) && keeps_u64(
            new_fee_change_cooldown_secs,
            self.state.config.fee_change_cooldown_secs,
        ) {
            return Err(STokenCooldownChangeError::NoCooldownChanges);
        }
        self.state.pending.pending_cooldowns = Some(
            PendingCooldowns {
                new_price_update_cooldown_secs,
                new_price_acceptance_cldwn_s: new_price_acceptance_cooldown,
                new_config_cooldown_secs,
                new_emergency_withdraw_cldwn_s: new_emergency_withdraw_cldwn,
                new_role_change_cooldown_secs,
                new_fee_change_cooldown_secs,
                timestamp: now,
            },
        );
        Ok(Authorization { authorizer: self.state.core.manager })
    }

    /// Accepts the pending cooldowns at time `now`. On failure nothing
    /// changes.
    pub fn accept_cooldowns(&mut self, now: u64) -> (result: Result<
        Authorization,
        STokenCooldownChangeError,
    >)
        ensures
            match result {
                Ok(authorization) => {
                    &&& old(self).state.accept_cooldowns_error(now) is None
                    &&& authorization.authorizer == old(self).state.core.manager
                    &&& final(self)@ == old(self)@.with_state(
                        old(self).state.after_accept_cooldowns(
                            old(self).state.pending.pending_cooldowns->Some_0,
                        ),
                    )
                },
                Err(e) => {
                    &&& old(self).state.accept_cooldowns_error(now) == Some(e)
                    &&& final(self)@ == old(self)@
                },
            },
            old(self).wf() ==> final(self).wf(),
    {
        let pending: PendingCooldowns = match self.state.pending.pending_cooldowns {
            None => {
                return Err(STokenCooldownChangeError::NoPendingCooldownChange);
            },
            Some(pending) => pending,
        };
        if !has_elapsed(now, pending.timestamp, self.state.config.config_cooldown_secs) {
            return Err(STokenCooldownChangeError::CooldownChangeTimelockActive);
        }
        self.state.config.price_update_cooldown_secs = or_u64(
            pending.new_price_update_cooldown_secs,
            self.state.config.price_update_cooldown_secs,
        );
        self.state.config.price_acceptance_cooldown_secs = or_u64(
            pending.new_price_acceptance_cldwn_s,
            self.state.config.price_acceptance_cooldown_secs,
        );
        self.state.config.config_cooldown_secs = or_u64(
            pending.new_config_cooldown_secs,
            self.state.config.config_cooldown_secs,
        );
        self.state.emergency.emergency_withdrawal_cooldown = or_u64(
            pending.new_emergency_withdraw_cldwn_s,
            self.state.emergency.emergency_withdrawal_cooldown,
        );
        self.state.config.role_change_cooldown_secs = or_u64(
            pending.new_role_change_cooldown_secs,
            self.state.config.role_change_cooldown_secs,
        );
        self.state.config.fee_change_cooldown_secs = or_u64(
            pending.new_fee_change_cooldown_secs,
            self.state.config.fee_change_cooldown_secs,
        );
        self.state.pending.pending_cooldowns = None;
        Ok(Authorization { authorizer: self.state.core.manager })
    }
}


/// A fee proposal cannot be accepted before the fee-change cooldown has
/// elapsed since it was made: the acceptance fails with
/// `FeeChangeTimelockActive`. From then on the acceptance succeeds, applies
/// the proposed fees and leaves no fee change pending.
pub proof fn lemma_fee_change_timelock(
    state: State,
    deposit_fee_bps: u32,
    withdraw_fee_bps: u32,
    management_fee_bps_per_year: u32,
    proposed_at: u64,
    now: u64,
)
    requires
        state.propose_fees_error(deposit_fee_bps, withdraw_fee_bps, management_fee_bps_per_year)
            is None,
    ensures
        ({
            let proposal = PendingFees {
                new_deposit_fee_bps: deposit_fee_bps,
                new_withdraw_fee_bps: withdraw_fee_bps,
                new_management_fee_bps_peryear: management_fee_bps_per_year,
                timestamp: proposed_at,
            };
            let proposed = state.with_pending_fees(Some(proposal));
            let accepted = proposed.after_accept_fees(proposal);
            &&& now < proposed_at + state.config.fee_change_cooldown_secs
                ==> proposed.accept_fees_error(now) == Some(
                STokenFeeChangeError::FeeChangeTimelockActive,
            )
            &&& now >= proposed_at + state.config.fee_change_cooldown_secs
                ==> proposed.accept_fees_error(now) is None
            &&& accepted.pending.pending_fees is None
            &&& accepted.core.deposit_fee_bps == deposit_fee_bps
            &&& accepted.core.withdraw_fee_bps == withdraw_fee_bps
            &&& accepted.core.management_fee_bps_per_year == management_fee_bps_per_year
            &&& accepted.pending == state.pending
            &&& accepted.config == state.config
            &&& accepted.emergency == state.emergency
        }),
{
}

/// While a change of fees, limits, the whitelist switch or roles is in
/// flight, no change of cooldowns can be proposed: the timelock of a change
/// in flight cannot be shortened.
pub proof fn lemma_cooldowns_wait_for_changes_in_flight(state: State, proposal: PendingCooldowns)
    requires
        state.other_change_in_flight(),
    ensures
        state.propose_cooldowns_error(proposal) == Some(
            STokenCooldownChangeError::CooldownChangeTimelockActive,
        ),
{
}


/// A proposal that is booked changes something: once accepted, the roles,
/// the limits or the cooldowns differ from what they were when it was made.
/// A proposal that would leave every value as it is is never booked.
pub proof fn lemma_booked_proposal_changes_something(
    state: State,
    roles: PendingRoles,
    limits: PendingLimits,
    cooldowns: PendingCooldowns,
)
    ensures
        state.propose_roles_error(roles) is None ==> state.after_accept_roles(roles).core
            != state.core,
        state.propose_limits_error(limits) is None ==> state.after_accept_limits(limits).core
            != state.core,
        state.propose_cooldowns_error(cooldowns) is None ==> (state.after_accept_cooldowns(
            cooldowns,
        ).config != state.config || state.after_accept_cooldowns(cooldowns).emergency
            != state.emergency),
        state.roles_unchanged_by(roles) ==> state.propose_roles_error(roles) is Some,
        state.limits_unchanged_by(limits) ==> state.propose_limits_error(limits) is Some,
        state.cooldowns_unchanged_by(cooldowns) ==> state.propose_cooldowns_error(cooldowns)
            is Some,
{
}

} // verus!
