//! The price-oracle protocol.
//!
//! The oracle reports prices. A report within the deviation threshold
//! applies at once. One beyond it takes the single pending slot, replacing
//! what was there, until the manager, the processor or the oracle accepts it
//! or the manager rejects it.

use vstd::prelude::*;
use crate::address::Address;
use crate::constants::MAX_MANAGER_BYPASS_DEVIATION_BPS;
use crate::errors::STokenCoreError;
use crate::errors::STokenOracleError;
use crate::keys::PendingPrice;
use crate::receipts::Authorization;
use crate::stoken::SToken;
use crate::types::OracleState;
use crate::types::State;
use crate::types::StateCore;
use crate::types::StatePending;
use crate::utils::calculate_price_deviation;
use crate::utils::deviation_bps;
use crate::utils::price_deviation;
use crate::utils::elapsed;
use crate::utils::has_elapsed;

verus! {

impl State {
    /// Whether reported prices are checked for deviation: both the
    /// threshold and the acceptance cooldown are set.
    pub open spec fn deviation_checked(self) -> bool {
        self.core.max_deviation_bps > 0 && self.config.price_acceptance_cooldown_secs > 0
    }

    /// Whether a report of `new_price` has to await approval.
    pub open spec fn needs_approval(self, new_price: u64) -> bool {
        self.deviation_checked() && deviation_bps(self.core.price as int, new_price as int)
            > self.core.max_deviation_bps
    }

    /// Why a report of `new_price` at `now` is refused, if it is: a zero
    /// price is `InvalidPrice`; a report sooner than the update cooldown
    /// after the last applied price is `PriceUpdateTooFrequent`; a deviation
    /// that cannot be computed, the current price being zero, is
    /// `InvalidOracleData`.
    pub open spec fn update_price_error(self, new_price: u64, now: u64) -> Option<
        STokenOracleError,
    > {
        if new_price == 0 {
            Some(STokenOracleError::InvalidPrice)
        } else if !elapsed(
            now,
            self.core.last_price_update_timestamp,
            self.config.price_update_cooldown_secs,
        ) {
            Some(STokenOracleError::PriceUpdateTooFrequent)
        } else if self.deviation_checked() && self.core.price == 0 {
            Some(STokenOracleError::InvalidOracleData)
        } else {
            None
        }
    }

    /// The state with `price` applied at `now`: it is the current price, the
    /// time of the last update is `now` and nothing is pending.
    pub open spec fn with_price_applied(self, price: u64, now: u64) -> State {
        State {
            core: StateCore { price, last_price_update_timestamp: now, ..self.core },
            pending: StatePending { pending_price: OracleState::Stable, ..self.pending },
            ..self
        }
    }

    /// The state with the pending slot set to `slot`.
    pub open spec fn with_pending_price(self, slot: OracleState) -> State {
        State { pending: StatePending { pending_price: slot, ..self.pending }, ..self }
    }

    /// The state after an accepted report of `new_price` at `now`: applied
    /// at once, or put in the pending slot in place of what was there.
    pub open spec fn after_update_price(self, new_price: u64, now: u64) -> State {
        if self.needs_approval(new_price) {
            self.with_pending_price(
                OracleState::PendingApproval(PendingPrice { value: new_price, timestamp: now }),
            )
        } else {
            self.with_price_applied(new_price, now)
        }
    }

    /// Who accepts a pending price under the given claims: the first claim
    /// made, in the order manager, processor, oracle, must name the holder of
    /// its role. No claim, or a first claim that names another, is
    /// `Unauthorized`.
    pub open spec fn price_acceptor(
        self,
        manager_auth: Option<Address>,
        processor_auth: Option<Address>,
        oracle_auth: Option<Address>,
    ) -> Result<Address, STokenCoreError> {
        let claimed_role = if manager_auth is Some {
            Some((manager_auth->Some_0, self.core.manager))
        } else if processor_auth is Some {
            Some((processor_auth->Some_0, self.core.processor))
        } else if oracle_auth is Some {
            Some((oracle_auth->Some_0, self.core.oracle))
        } else {
            None
        };
        match claimed_role {
            Some((claim, holder)) => if claim == holder {
                Ok(holder)
            } else {
                Err(STokenCoreError::Unauthorized)
            },
            None => Err(STokenCoreError::Unauthorized),
        }
    }

    /// What accepting the pending price at `now` comes to.
    ///
    /// The acceptor is decided by [`State::price_acceptor`]. Without a
    /// pending price the failure is `InvalidPrice`. Anyone may accept once
    /// the acceptance cooldown has elapsed since the report; the manager may
    /// accept before that where the pending price deviates from the current
    /// one by at most `MAX_MANAGER_BYPASS_DEVIATION_BPS`, and fails with the
    /// error of the deviation where it cannot be computed. Otherwise the
    /// failure is `PriceCooldownNotExpired`.
    pub open spec fn accept_price_outcome(
        self,
        manager_auth: Option<Address>,
        processor_auth: Option<Address>,
        oracle_auth: Option<Address>,
        now: u64,
    ) -> Result<Authorization, STokenCoreError> {
        match self.price_acceptor(manager_auth, processor_auth, oracle_auth) {
            Err(e) => Err(e),
            Ok(acceptor) => match self.pending.pending_price {
                OracleState::Stable => Err(STokenCoreError::InvalidPrice),
                OracleState::PendingApproval(pending) => {
                    let cooldown_expired = elapsed(
                        now,
                        pending.timestamp,
                        self.config.price_acceptance_cooldown_secs,
                    );
                    let deviation = price_deviation(self.core.price, pending.value);
                    if manager_auth is Some && deviation is Err {
                        Err(deviation->Err_0)
                    } else if cooldown_expired || (manager_auth is Some && deviation->Ok_0
                        <= MAX_MANAGER_BYPASS_DEVIATION_BPS) {
                        Ok(Authorization { authorizer: acceptor })
                    } else {
                        Err(STokenCoreError::PriceCooldownNotExpired)
                    }
                },
            },
        }
    }
}

impl SToken {
    /// Takes the oracle's report of `new_price` at time `now`.
    ///
    /// On success the oracle is the authorizer and the state is
    /// [`State::after_update_price`]. On failure nothing changes.
    pub fn update_price(&mut self, new_price: u64, now: u64) -> (result: Result<
        Authorization,
        STokenOracleError,
    >)
        ensures
            match result {
                Ok(authorization) => {
                    &&& old(self).state.update_price_error(new_price, now) is None
                    &&& authorization.authorizer == old(self).state.core.oracle
                    &&& final(self)@ == old(self)@.with_state(
                        old(self).state.after_update_price(new_price, now),
                    )
                },
                Err(e) => {
                    &&& old(self).state.update_price_error(new_price, now) == Some(e)
                    &&& final(self)@ == old(self)@
                },
            },
            old(self).wf() ==> final(self).wf(),
    {
        if new_price == 0 {
            return Err(STokenOracleError::InvalidPrice);
        }
        let oracle: Address = self.state.core.oracle;
        if !has_elapsed(
            now,
            self.state.core.last_price_update_timestamp,
            self.state.config.price_update_cooldown_secs,
        ) {
            return Err(STokenOracleError::PriceUpdateTooFrequent);
        }
        let old_price: u64 = self.state.core.price;
        let max_deviation_bps: u32 = self.state.core.max_deviation_bps;
        let mut apply_now: bool = true;
        if max_deviation_bps > 0 && self.state.config.price_acceptance_cooldown_secs > 0 {
            let deviation: u32 = match calculate_price_deviation(old_price, new_price) {
                Err(_) => {
                    return Err(STokenOracleError::InvalidOracleData);
                },
                Ok(deviation) => deviation,
            };
            apply_now = deviation <= max_deviation_bps;
        }
        if apply_now {
            self.state.core.price = new_price;
            self.state.core.last_price_update_timestamp = now;
            self.state.pending.pending_price = OracleState::Stable;
        } else {
            self.state.pending.pending_price = OracleState::PendingApproval(
                PendingPrice { value: new_price, timestamp: now },
            );
        }
        Ok(Authorization { authorizer: oracle })
    }

    /// Accepts the pending price at time `now`, on the claim of being the
    /// manager, the processor or the oracle.
    ///
    /// On success the pending price is applied at `now`. On failure nothing
    /// changes.
    pub fn accept_price(
        &mut self,
        manager_auth: Option<Address>,
        processor_auth: Option<Address>,
        oracle_auth: Option<Address>,
        now: u64,
    ) -> (result: Result<Authorization, STokenCoreError>)
        ensures
            result == old(self).state.accept_price_outcome(
                manager_auth,
                processor_auth,
                oracle_auth,
                now,
            ),
            match result {
                Ok(_) => {
                    &&& old(self).state.pending.pending_price is PendingApproval
                    &&& final(self)@ == old(self)@.with_state(
                        old(self).state.with_price_applied(
                            old(self).state.pending.pending_price->PendingApproval_0.value,
                            now,
                        ),
                    )
                },
                Err(_) => final(self)@ == old(self)@,
            },
            old(self).wf() ==> final(self).wf(),
    {
        let is_manager: bool;
        let accepted_by: Address;
        if let Some(claim) = manager_auth {
            if claim == self.state.core.manager {
                is_manager = true;
                accepted_by = claim;
            } else {
                return Err(STokenCoreError::Unauthorized);
            }
        } else if let Some(claim) = processor_auth {
            if claim == self.state.core.processor {
                is_manager = false;
                accepted_by = claim;
            } else {
                return Err(STokenCoreError::Unauthorized);
            }
        } else if let Some(claim) = oracle_auth {
            if claim == self.state.core.oracle {
                is_manager = false;
                accepted_by = claim;
            } else {
                return Err(STokenCoreError::Unauthorized);
            }
        } else {
            return Err(STokenCoreError::Unauthorized);
        }
        let pending: PendingPrice = match self.state.pending.pending_price {
            OracleState::Stable => {
                return Err(STokenCoreError::InvalidPrice);
            },
            OracleState::PendingApproval(pending) => pending,
        };
        let cooldown_expired: bool = has_elapsed(
            now,
            pending.timestamp,
            self.state.config.price_acceptance_cooldown_secs,
        );
        let can_manager_bypass: bool = if is_manager {
            match calculate_price_deviation(self.state.core.price, pending.value) {
                Err(e) => {
                    return Err(e);
                },
                Ok(deviation) => deviation <= MAX_MANAGER_BYPASS_DEVIATION_BPS,
            }
        } else {
            false
        };
        if !can_manager_bypass && !cooldown_expired {
            return Err(STokenCoreError::PriceCooldownNotExpired);
        }
        self.state.core.price = pending.value;
        self.state.core.last_price_update_timestamp = now;
        self.state.pending.pending_price = OracleState::Stable;
        Ok(Authorization { authorizer: accepted_by })
    }

    /// Rejects the pending price: the slot is cleared and the price stays.
    ///
    /// The manager is the authorizer. Without a pending price the failure is
    /// `InvalidPrice` and nothing changes.
    pub fn reject_price(&mut self) -> (result: Result<Authorization, STokenCoreError>)
        ensures
            match result {
                Ok(authorization) => {
                    &&& old(self).state.pending.pending_price is PendingApproval
                    &&& authorization.authorizer == old(self).state.core.manager
                    &&& final(self)@ == old(self)@.with_state(
                        old(self).state.with_pending_price(OracleState::Stable),
                    )
                },
                Err(e) => {
                    &&& old(self).state.pending.pending_price is Stable
                    &&& e == STokenCoreError::InvalidPrice
                    &&& final(self)@ == old(self)@
                },
            },
            old(self).wf() ==> final(self).wf(),
    {
        match self.state.pending.pending_price {
            OracleState::Stable => {
                return Err(STokenCoreError::InvalidPrice);
            },
            OracleState::PendingApproval(_) => {},
        }
        let manager: Address = self.state.core.manager;
        self.state.pending.pending_price = OracleState::Stable;
        Ok(Authorization { authorizer: manager })
    }
}

/// Two reports in a row that both have to await approval leave exactly one
/// pending price, that of the second report: the slot is overwritten, the
/// current price and the time of its last update stay as they were.
pub proof fn lemma_second_report_overwrites(
    state: State,
    first_price: u64,
    first_at: u64,
    second_price: u64,
    second_at: u64,
)
    requires
        state.update_price_error(first_price, first_at) is None,
        state.needs_approval(first_price),
        state.after_update_price(first_price, first_at).update_price_error(second_price, second_at)
            is None,
        state.after_update_price(first_price, first_at).needs_approval(second_price),
    ensures
        ({
            let once = state.after_update_price(first_price, first_at);
            let twice = once.after_update_price(second_price, second_at);
            &&& once.pending.pending_price == OracleState::PendingApproval(
                PendingPrice { value: first_price, timestamp: first_at },
            )
            &&& twice.pending.pending_price == OracleState::PendingApproval(
                PendingPrice { value: second_price, timestamp: second_at },
            )
            &&& twice.core == state.core
            &&& twice == state.with_pending_price(twice.pending.pending_price)
        }),
{
}

} // verus!
