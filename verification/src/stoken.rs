//! The vault: its state, what makes it well formed, how it is created and
//! how it is read.

use vstd::prelude::*;
use crate::address::Address;
use crate::address::AddressSet;
use crate::constants::DEFAULT_CONFIG_COOLDOWN_SECS;
use crate::constants::DEFAULT_DOWNSIDE_CAP_BPS;
use crate::constants::DEFAULT_EARLY_CANCEL_FEE_BPS;
use crate::constants::DEFAULT_MAX_DEVIATION_BPS;
use crate::constants::DEFAULT_PRICE_COOLDOWN_SECS;
use crate::constants::DEFAULT_ROLE_CHANGE_COOLDOWN_SECS;
use crate::constants::DEFAULT_SYSTEM_PENALTY_BPS;
use crate::constants::DEFAULT_WITHDRAWAL_TTL_SECS;
use crate::constants::PRICE_PRECISION;
use crate::errors::STokenCoreError;
use crate::keys::VaultInitConfig;
use crate::keys::WithdrawalRequest;
use crate::keys::WithdrawalRequestStatus;
use crate::types::OracleState;
use crate::types::State;
use crate::types::StateConfig;
use crate::types::StateCore;
use crate::types::StateEmergency;
use crate::types::StatePending;
use crate::utils::fees_valid;
use crate::utils::new_limits_check;
use crate::utils::validate_fees;
use crate::utils::validate_new_limits;

verus! {

/// A vault: the scalar state, the book of withdrawal requests indexed by
/// request id, the whitelist of users and the allowlist of peer vaults that
/// may mint.
pub struct SToken {
    pub state: State,
    /// The vault's own address, which is also that of its share token.
    pub vault: Address,
    /// The underlying asset.
    pub underlying_mint: Address,
    pub withdraw_requests: Vec<WithdrawalRequest>,
    pub whitelist: AddressSet,
    pub allowlist_mint: AddressSet,
}

/// The vault as a mathematical value: what the contracts of the
/// transitions are stated over.
pub struct VaultModel {
    pub state: State,
    pub vault: Address,
    pub underlying_mint: Address,
    /// The book of withdrawal requests; a request's id is its index.
    pub withdraw_requests: Seq<WithdrawalRequest>,
    pub whitelist: Set<Address>,
    pub allowlist_mint: Set<Address>,
}

impl View for SToken {
    type V = VaultModel;

    open spec fn view(&self) -> VaultModel {
        VaultModel {
            state: self.state,
            vault: self.vault,
            underlying_mint: self.underlying_mint,
            withdraw_requests: self.withdraw_requests@,
            whitelist: self.whitelist@,
            allowlist_mint: self.allowlist_mint@,
        }
    }
}

/// Whether every request of the book holds shares to burn: a request for
/// shares that the fee would use up is never booked.
pub open spec fn all_hold_shares(requests: Seq<WithdrawalRequest>) -> bool {
    forall|i: int| 0 <= i < requests.len() ==> (#[trigger] requests[i]).shares > 0
}

impl VaultModel {
    /// The book of withdrawal requests has one entry per id handed out,
    /// every entry holds shares to burn, and the custody and
    /// pending-withdrawal counters are the sums over its pending entries.
    pub open spec fn wf(self) -> bool {
        &&& self.withdraw_requests.len() == self.state.core.next_withdrawal_id
        &&& all_hold_shares(self.withdraw_requests)
        &&& self.state.core.shares_in_custody == pending_custody(self.withdraw_requests)
        &&& self.state.core.total_withdrawals_pending == pending_amount_due(
            self.withdraw_requests,
        )
    }

    /// This vault with its scalar state replaced.
    pub open spec fn with_state(self, state: State) -> VaultModel {
        VaultModel { state, ..self }
    }

    /// This vault with its core state replaced.
    pub open spec fn with_core(self, core: StateCore) -> VaultModel {
        VaultModel { state: State { core, ..self.state }, ..self }
    }
}

/// Shares that `request` keeps in custody: its shares and fee shares while
/// it is pending, nothing afterwards.
pub open spec fn custody_of(request: WithdrawalRequest) -> int {
    if request.status == WithdrawalRequestStatus::PENDING {
        request.shares + request.fee_shares
    } else {
        0
    }
}

/// Amount that `request` keeps reserved: its `amount_due` while it is
/// pending, nothing afterwards.
pub open spec fn reserved_by(request: WithdrawalRequest) -> int {
    if request.status == WithdrawalRequestStatus::PENDING {
        request.amount_due as int
    } else {
        0
    }
}

/// Shares in custody for all the pending requests of `requests`.
pub open spec fn pending_custody(requests: Seq<WithdrawalRequest>) -> int
    decreases requests.len(),
{
    if requests.len() == 0 {
        0
    } else {
        pending_custody(requests.drop_last()) + custody_of(requests.last())
    }
}

/// Amount due to all the pending requests of `requests`.
pub open spec fn pending_amount_due(requests: Seq<WithdrawalRequest>) -> int
    decreases requests.len(),
{
    if requests.len() == 0 {
        0
    } else {
        pending_amount_due(requests.drop_last()) + reserved_by(requests.last())
    }
}

/// Appending a request adds what it keeps in custody and reserved.
pub proof fn lemma_pending_sums_push(requests: Seq<WithdrawalRequest>, request: WithdrawalRequest)
    ensures
        pending_custody(requests.push(request)) == pending_custody(requests) + custody_of(request),
        pending_amount_due(requests.push(request)) == pending_amount_due(requests) + reserved_by(
            request,
        ),
{
    assert(requests.push(request).drop_last() =~= requests);
}

/// Replacing a request exchanges what it keeps in custody and reserved.
pub proof fn lemma_pending_sums_update(
    requests: Seq<WithdrawalRequest>,
    index: int,
    request: WithdrawalRequest,
)
    requires
        0 <= index < requests.len(),
    ensures
        pending_custody(requests.update(index, request)) == pending_custody(requests) - custody_of(
            requests[index],
        ) + custody_of(request),
        pending_amount_due(requests.update(index, request)) == pending_amount_due(requests)
            - reserved_by(requests[index]) + reserved_by(request),
    decreases requests.len(),
{
    if index == requests.len() - 1 {
        assert(requests.update(index, request).drop_last() =~= requests.drop_last());
    } else {
        lemma_pending_sums_update(requests.drop_last(), index, request);
        assert(requests.update(index, request).drop_last() =~= requests.drop_last().update(
            index,
            request,
        ));
    }
}

/// No request keeps a negative quantity, so each pending request keeps at
/// most the totals.
pub proof fn lemma_pending_sums_cover(requests: Seq<WithdrawalRequest>, index: int)
    requires
        0 <= index < requests.len(),
    ensures
        0 <= custody_of(requests[index]) <= pending_custody(requests),
        0 <= reserved_by(requests[index]) <= pending_amount_due(requests),
    decreases requests.len(),
{
    lemma_pending_sums_nonnegative(requests.drop_last());
    if index < requests.len() - 1 {
        lemma_pending_sums_cover(requests.drop_last(), index);
    }
}

/// The totals over a prefix of the book are at most the totals over the
/// book.
pub proof fn lemma_pending_sums_prefix(requests: Seq<WithdrawalRequest>, length: int)
    requires
        0 <= length <= requests.len(),
    ensures
        pending_custody(requests.take(length)) <= pending_custody(requests),
        pending_amount_due(requests.take(length)) <= pending_amount_due(requests),
    decreases requests.len(),
{
    if length == requests.len() {
        assert(requests.take(length) =~= requests);
    } else {
        lemma_pending_sums_prefix(requests.drop_last(), length);
        assert(requests.drop_last().take(length) =~= requests.take(length));
    }
}

/// The totals are never negative.
pub proof fn lemma_pending_sums_nonnegative(requests: Seq<WithdrawalRequest>)
    ensures
        0 <= pending_custody(requests),
        0 <= pending_amount_due(requests),
    decreases requests.len(),
{
    if requests.len() > 0 {
        lemma_pending_sums_nonnegative(requests.drop_last());
    }
}

/// The state a vault is created with from `config` at time `now`.
pub open spec fn initial_state(config: VaultInitConfig, now: u64) -> State {
    State {
        core: StateCore {
            authority: config.authority,
            oracle: config.oracle,
            manager: config.manager,
            processor: config.processor,
            accountant: config.accountant,
            asset_manager: config.asset_manager,
            deposit_fee_bps: config.deposit_fee_bps,
            withdraw_fee_bps: config.withdraw_fee_bps,
            management_fee_bps_per_year: config.management_fee_bps_per_year,
            last_mgmt_fee_ts: now,
            price: config.initial_price.unwrap_or(PRICE_PRECISION),
            total_shares: 0,
            total_idle: 0,
            total_withdrawals_pending: 0,
            shares_in_custody: 0,
            created_at: now,
            max_total_shares: config.max_total_shares.unwrap_or(u64::MAX),
            max_shares_per_user: config.max_shares_per_user.unwrap_or(u64::MAX),
            max_total_idle: config.max_total_idle.unwrap_or(u64::MAX),
            min_shares_to_mint: config.min_shares_to_mint.unwrap_or(0),
            max_deviation_bps: config.max_deviation_bps.unwrap_or(DEFAULT_MAX_DEVIATION_BPS),
            last_price_update_timestamp: 0,
            next_withdrawal_id: 0,
        },
        config: StateConfig {
            price_update_cooldown_secs: config.price_update_cooldown_secs.unwrap_or(
                DEFAULT_PRICE_COOLDOWN_SECS,
            ),
            price_acceptance_cooldown_secs: config.price_acceptance_cooldown_secs.unwrap_or(
                DEFAULT_PRICE_COOLDOWN_SECS,
            ),
            downside_cap_bps: config.downside_cap_bps.unwrap_or(DEFAULT_DOWNSIDE_CAP_BPS),
            withdrawal_ttl_secs: config.withdrawal_ttl_secs.unwrap_or(DEFAULT_WITHDRAWAL_TTL_SECS),
            early_cancel_fee_bps: config.early_cancel_fee_bps.unwrap_or(
                DEFAULT_EARLY_CANCEL_FEE_BPS,
            ),
            system_penalty_bps: config.system_penalty_bps.unwrap_or(DEFAULT_SYSTEM_PENALTY_BPS),
            whitelist_enabled: config.whitelist_enabled.unwrap_or(false),
            paused: false,
            role_change_cooldown_secs: config.role_change_cooldown_secs.unwrap_or(
                DEFAULT_ROLE_CHANGE_COOLDOWN_SECS,
            ),
            config_cooldown_secs: config.config_cooldown_secs.unwrap_or(
                DEFAULT_CONFIG_COOLDOWN_SECS,
            ),
            fee_change_cooldown_secs: config.fee_change_cooldown_secs.unwrap_or(
                DEFAULT_CONFIG_COOLDOWN_SECS,
            ),
        },
        pending: StatePending {
            pending_price: OracleState::Stable,
            pending_roles: None,
            pending_fees: None,
            pending_limits: None,
            pending_whitelist: None,
            pending_cooldowns: None,
        },
        emergency: StateEmergency {
            emergency_withdraw_timelock_e: 0,
            emergency_withdrawal_cooldown: config.emergency_withdrawal_cooldown.unwrap_or(
                DEFAULT_CONFIG_COOLDOWN_SECS,
            ),
            emergency_withdraw_token_mint: None,
            emergency_withdrawal_amount: 0,
        },
    }
}

/// Why a vault cannot be created from `config`, if it cannot: fee rates or
/// limits out of bounds are `InitializationFailed`, a zero initial price is
/// `InvalidPrice`.
pub open spec fn initialize_error(config: VaultInitConfig) -> Option<STokenCoreError> {
    if !fees_valid(
        config.deposit_fee_bps,
        config.withdraw_fee_bps,
        config.management_fee_bps_per_year,
    ) {
        Some(STokenCoreError::InitializationFailed)
    } else if new_limits_check(
        config.max_total_shares,
        config.max_shares_per_user,
        config.max_total_idle,
        config.min_shares_to_mint,
    ) is Err {
        Some(STokenCoreError::InitializationFailed)
    } else if config.initial_price == Some(0u64) {
        Some(STokenCoreError::InvalidPrice)
    } else {
        None
    }
}

impl SToken {
    /// Whether the vault is well formed, see [`VaultModel::wf`].
    pub open spec fn wf(&self) -> bool {
        self@.wf()
    }

    /// Creates the vault at address `vault` from `config` at time `now`.
    ///
    /// The host must have verified the authorization of `config.authority`,
    /// and that no vault exists at `vault` yet.
    pub fn initialize(config: VaultInitConfig, vault: Address, now: u64) -> (result: Result<
        SToken,
        STokenCoreError,
    >)
        ensures
            match result {
                Ok(token) => {
                    &&& initialize_error(config) is None
                    &&& token.wf()
                    &&& token@ == (VaultModel {
                        state: initial_state(config, now),
                        vault,
                        underlying_mint: config.underlying_mint,
                        withdraw_requests: Seq::<WithdrawalRequest>::empty(),
                        whitelist: Set::<Address>::empty(),
                        allowlist_mint: Set::<Address>::empty(),
                    })
                },
                Err(e) => initialize_error(config) == Some(e),
            },
    {
        if validate_fees(
            config.deposit_fee_bps,
            config.withdraw_fee_bps,
            config.management_fee_bps_per_year,
        ).is_err() {
            return Err(STokenCoreError::InitializationFailed);
        }
        if validate_new_limits(
            config.max_total_shares,
            config.max_shares_per_user,
            config.max_total_idle,
            config.min_shares_to_mint,
        ).is_err() {
            return Err(STokenCoreError::InitializationFailed);
        }
        let initial_price: u64 = match config.initial_price {
            Some(price) => price,
            None => PRICE_PRECISION,
        };
        if initial_price == 0 {
            return Err(STokenCoreError::InvalidPrice);
        }
        let core = StateCore {
            authority: config.authority,
            oracle: config.oracle,
            manager: config.manager,
            processor: config.processor,
            accountant: config.accountant,
            asset_manager: config.asset_manager,
            deposit_fee_bps: config.deposit_fee_bps,
            withdraw_fee_bps: config.withdraw_fee_bps,
            management_fee_bps_per_year: config.management_fee_bps_per_year,
            last_mgmt_fee_ts: now,
            price: initial_price,
            total_shares: 0,
            total_idle: 0,
            total_withdrawals_pending: 0,
            shares_in_custody: 0,
            created_at: now,
            max_total_shares: or_u64(config.max_total_shares, u64::MAX),
            max_shares_per_user: or_u64(config.max_shares_per_user, u64::MAX),
            max_total_idle: or_u64(config.max_total_idle, u64::MAX),
            min_shares_to_mint: or_u64(config.min_shares_to_mint, 0),
            max_deviation_bps: or_u32(config.max_deviation_bps, DEFAULT_MAX_DEVIATION_BPS),
            last_price_update_timestamp: 0,
            next_withdrawal_id: 0,
        };
        let settings = StateConfig {
            price_update_cooldown_secs: or_u64(
                config.price_update_cooldown_secs,
                DEFAULT_PRICE_COOLDOWN_SECS,
            ),
            price_acceptance_cooldown_secs: or_u64(
                config.price_acceptance_cooldown_secs,
                DEFAULT_PRICE_COOLDOWN_SECS,
            ),
            downside_cap_bps: or_u32(config.downside_cap_bps, DEFAULT_DOWNSIDE_CAP_BPS),
            withdrawal_ttl_secs: or_u64(config.withdrawal_ttl_secs, DEFAULT_WITHDRAWAL_TTL_SECS),
            early_cancel_fee_bps: or_u32(config.early_cancel_fee_bps, DEFAULT_EARLY_CANCEL_FEE_BPS),
            system_penalty_bps: or_u32(config.system_penalty_bps, DEFAULT_SYSTEM_PENALTY_BPS),
            whitelist_enabled: match config.whitelist_enabled {
                Some(enabled) => enabled,
                None => false,
            },
            paused: false,
            role_change_cooldown_secs: or_u64(
                config.role_change_cooldown_secs,
                DEFAULT_ROLE_CHANGE_COOLDOWN_SECS,
            ),
            config_cooldown_secs: or_u64(config.config_cooldown_secs, DEFAULT_CONFIG_COOLDOWN_SECS),
            fee_change_cooldown_secs: or_u64(
                config.fee_change_cooldown_secs,
                DEFAULT_CONFIG_COOLDOWN_SECS,
            ),
        };
        let pending = StatePending {
            pending_price: OracleState::Stable,
            pending_roles: None,
            pending_fees: None,
            pending_limits: None,
            pending_whitelist: None,
            pending_cooldowns: None,
        };
        let emergency = StateEmergency {
            emergency_withdraw_timelock_e: 0,
            emergency_withdrawal_cooldown: or_u64(
                config.emergency_withdrawal_cooldown,
                DEFAULT_CONFIG_COOLDOWN_SECS,
            ),
            emergency_withdraw_token_mint: None,
            emergency_withdrawal_amount: 0,
        };
        let state = State { core, config: settings, pending, emergency };
        assert(state == initial_state(config, now));
        let token = SToken {
            state,
            vault,
            underlying_mint: config.underlying_mint,
            withdraw_requests: Vec::new(),
            whitelist: AddressSet::new(),
            allowlist_mint: AddressSet::new(),
        };
        assert(token.withdraw_requests@ =~= Seq::<WithdrawalRequest>::empty());
        Ok(token)
    }

    /// Whether the vault is well formed, recomputed from the book of
    /// requests.
    pub fn is_well_formed(&self) -> (well_formed: bool)
        ensures
            well_formed == self.wf(),
    {
        if self.withdraw_requests.len() as u64 != self.state.core.next_withdrawal_id {
            return false;
        }
        let mut custody: u64 = 0;
        let mut reserved: u64 = 0;
        let mut i: usize = 0;
        while i < self.withdraw_requests.len()
            invariant
                i <= self.withdraw_requests.len(),
                custody == pending_custody(self.withdraw_requests@.take(i as int)),
                reserved == pending_amount_due(self.withdraw_requests@.take(i as int)),
                forall|j: int| 0 <= j < i ==> (#[trigger] self.withdraw_requests@[j]).shares > 0,
            decreases self.withdraw_requests.len() - i,
        {
            let request = self.withdraw_requests[i];
            if request.shares == 0 {
                return false;
            }
            proof {
                assert(self.withdraw_requests@.take(i + 1).drop_last()
                    =~= self.withdraw_requests@.take(i as int));
                lemma_pending_sums_prefix(self.withdraw_requests@, i + 1);
            }
            if request.status == WithdrawalRequestStatus::PENDING {
                let held: u128 = (custody as u128) + (request.shares as u128)
                    + (request.fee_shares as u128);
                let owed: u128 = (reserved as u128) + (request.amount_due as u128);
                if held > u64::MAX as u128 || owed > u64::MAX as u128 {
                    return false;
                }
                custody = held as u64;
                reserved = owed as u64;
            }
            i = i + 1;
        }
        assert(self.withdraw_requests@.take(i as int) =~= self.withdraw_requests@);
        custody == self.state.core.shares_in_custody && reserved
            == self.state.core.total_withdrawals_pending
    }

    /// Total shares in existence, as the vault counts them.
    pub fn total_shares(&self) -> (shares: u64)
        ensures
            shares == self.state.core.total_shares,
    {
        self.state.core.total_shares
    }

    /// Whether the vault is paused.
    pub fn is_paused(&self) -> (paused: bool)
        ensures
            paused == self.state.config.paused,
    {
        self.state.config.paused
    }

    /// The current price.
    pub fn price(&self) -> (price: u64)
        ensures
            price == self.state.core.price,
    {
        self.state.core.price
    }

    /// The asset manager.
    pub fn asset_manager(&self) -> (address: Address)
        ensures
            address == self.state.core.asset_manager,
    {
        self.state.core.asset_manager
    }

    /// The accountant, who receives all fee shares.
    pub fn accountant(&self) -> (address: Address)
        ensures
            address == self.state.core.accountant,
    {
        self.state.core.accountant
    }

    /// Whether only whitelisted users may deposit, withdraw and swap.
    pub fn whitelist_enabled(&self) -> (enabled: bool)
        ensures
            enabled == self.state.config.whitelist_enabled,
    {
        self.state.config.whitelist_enabled
    }

    /// Whether `caller` is on the whitelist.
    pub fn is_whitelisted(&self, caller: Address) -> (whitelisted: bool)
        ensures
            whitelisted == self.whitelist@.contains(caller),
    {
        self.whitelist.contains(caller)
    }

    /// The smallest non-zero holding.
    pub fn min_shares_to_mint(&self) -> (shares: u64)
        ensures
            shares == self.state.core.min_shares_to_mint,
    {
        self.state.core.min_shares_to_mint
    }

    /// The underlying asset.
    pub fn query_asset(&self) -> (asset: Address)
        ensures
            asset == self.underlying_mint,
    {
        self.underlying_mint
    }

    /// The withdrawal request with id `request_id`, if that id was handed
    /// out.
    pub fn withdraw_request_at(&self, request_id: u64) -> (found: Option<WithdrawalRequest>)
        ensures
            request_id < self.withdraw_requests@.len() ==> found == Some(
                self.withdraw_requests@[request_id as int],
            ),
            request_id >= self.withdraw_requests@.len() ==> found.is_none(),
    {
        match self.request_index(request_id) {
            Some(index) => Some(self.withdraw_requests[index]),
            None => None,
        }
    }

    /// Where request `request_id` stands in the book, if that id was handed
    /// out.
    pub(crate) fn request_index(&self, request_id: u64) -> (found: Option<usize>)
        ensures
            request_id < self.withdraw_requests@.len() ==> found == Some(request_id as usize)
                && request_id as usize == request_id,
            request_id >= self.withdraw_requests@.len() ==> found.is_none(),
    {
        let length: usize = self.withdraw_requests.len();
        if request_id < length as u64 {
            Some(request_id as usize)
        } else {
            None
        }
    }
}

/// `value`, or `default` where it is absent.
pub(crate) fn or_u64(value: Option<u64>, default: u64) -> (chosen: u64)
    ensures
        chosen == value.unwrap_or(default),
{
    match value {
        Some(v) => v,
        None => default,
    }
}

/// `value`, or `default` where it is absent.
pub(crate) fn or_u32(value: Option<u32>, default: u32) -> (chosen: u32)
    ensures
        chosen == value.unwrap_or(default),
{
    match value {
        Some(v) => v,
        None => default,
    }
}

/// `value`, or `default` where it is absent.
pub(crate) fn or_address(value: Option<Address>, default: Address) -> (chosen: Address)
    ensures
        chosen == value.unwrap_or(default),
{
    match value {
        Some(v) => v,
        None => default,
    }
}

} // verus!
