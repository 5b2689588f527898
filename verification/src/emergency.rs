//! Pausing the vault, and the two-step emergency withdrawal that a pause
//! allows.
//!
//! While the vault is paused the manager may take tokens out of it. The
//! first call pins the token and the amount and starts a timelock; nothing
//! moves. A later call releases them once the timelock has ended, and only
//! for the token and the amount that were pinned. Unpausing ends the cycle.

use vstd::prelude::*;
use crate::address::Address;
use crate::errors::STokenEmergencyWithdrawalError;
use crate::receipts::Authorization;
use crate::receipts::EmergencyStep;
use crate::receipts::TransferReceipt;
use crate::stoken::SToken;
use crate::stoken::VaultModel;
use crate::types::State;
use crate::types::StateConfig;
use crate::types::StateEmergency;

verus! {

impl State {
    /// The state with the pause switch set to `paused`.
    pub open spec fn with_paused(self, paused: bool) -> State {
        State { config: StateConfig { paused, ..self.config }, ..self }
    }

    /// The state after unpausing: not paused, and no emergency timelock
    /// running.
    pub open spec fn after_unpause(self) -> State {
        State {
            config: StateConfig { paused: false, ..self.config },
            emergency: StateEmergency { emergency_withdraw_timelock_e: 0, ..self.emergency },
            ..self
        }
    }

    /// Whether the call is the first of a pause cycle, the one that pins
    /// the request.
    pub open spec fn pins_emergency_request(self) -> bool {
        self.emergency.emergency_withdraw_timelock_e == 0
    }

    /// Why an emergency withdrawal of `amount` of `token_mint` at `now` is
    /// refused, if it is, `token_balance` being the vault's balance of the
    /// token.
    ///
    /// A zero amount is `InvalidAmount`; a vault that is not paused is
    /// `VaultNotPaused`. For the call that pins the request, a timelock end
    /// beyond 64 bits is `InvalidArgument`. For a later call, a timelock that
    /// has not ended is `EmergencyWithdrawalTimelockActive`; a token other
    /// than the pinned one is `InvalidTokenAccountMint`; an amount other than
    /// the pinned one is `InvalidAmount`; a balance below the amount is
    /// `InsufficientBalance`.
    pub open spec fn emergency_withdraw_error(
        self,
        token_mint: Address,
        amount: u64,
        token_balance: u64,
        now: u64,
    ) -> Option<STokenEmergencyWithdrawalError> {
        let emergency = self.emergency;
        if amount == 0 {
            Some(STokenEmergencyWithdrawalError::InvalidAmount)
        } else if !self.config.paused {
            Some(STokenEmergencyWithdrawalError::VaultNotPaused)
        } else if self.pins_emergency_request() {
            if now + emergency.emergency_withdrawal_cooldown > u64::MAX {
                Some(STokenEmergencyWithdrawalError::InvalidArgument)
            } else {
                None
            }
        } else if now < emergency.emergency_withdraw_timelock_e {
            Some(STokenEmergencyWithdrawalError::EmergencyWithdrawalTimelockActive)
        } else if emergency.emergency_withdraw_token_mint != Some(token_mint) {
            Some(STokenEmergencyWithdrawalError::InvalidTokenAccountMint)
        } else if emergency.emergency_withdrawal_amount != amount {
            Some(STokenEmergencyWithdrawalError::InvalidAmount)
        } else if token_balance < amount {
            Some(STokenEmergencyWithdrawalError::InsufficientBalance)
        } else {
            None
        }
    }

    /// The state after an emergency withdrawal that was not refused: the
    /// request pinned with its timelock running until `now` plus the
    /// emergency cooldown, or, after a release, nothing pinned.
    pub open spec fn after_emergency_withdraw(self, token_mint: Address, amount: u64, now: u64)
        -> State {
        if self.pins_emergency_request() {
            State {
                emergency: StateEmergency {
                    emergency_withdraw_timelock_e: (now
                        + self.emergency.emergency_withdrawal_cooldown) as u64,
                    emergency_withdraw_token_mint: Some(token_mint),
                    emergency_withdrawal_amount: amount,
                    ..self.emergency
                },
                ..self
            }
        } else {
            State {
                emergency: StateEmergency {
                    emergency_withdraw_timelock_e: 0,
                    emergency_withdraw_token_mint: None,
                    emergency_withdrawal_amount: 0,
                    ..self.emergency
                },
                ..self
            }
        }
    }
}

impl VaultModel {
    /// What the host is handed after an emergency withdrawal that was not
    /// refused: the end of the timelock that was started, or the transfer of
    /// the pinned amount from the vault to the manager.
    pub open spec fn emergency_step(self, token_mint: Address, amount: u64, now: u64)
        -> EmergencyStep {
        if self.state.pins_emergency_request() {
            EmergencyStep::TimelockStarted {
                authorizer: self.state.core.manager,
                timelock_end: (now + self.state.emergency.emergency_withdrawal_cooldown) as u64,
            }
        } else {
            EmergencyStep::Released(
                TransferReceipt {
                    authorizer: self.state.core.manager,
                    token: token_mint,
                    from: self.vault,
                    to: self.state.core.manager,
                    amount,
                },
            )
        }
    }
}

impl SToken {
    /// Pauses the vault. A vault that is paused already fails with
    /// `VaultPaused`, and nothing changes.
    pub fn pause_vault(&mut self) -> (result: Result<
        Authorization,
        STokenEmergencyWithdrawalError,
    >)
        ensures
            match result {
                Ok(authorization) => {
                    &&& !old(self).state.config.paused
                    &&& authorization.authorizer == old(self).state.core.manager
                    &&& final(self)@ == old(self)@.with_state(old(self).state.with_paused(true))
                },
                Err(e) => {
                    &&& old(self).state.config.paused
                    &&& e == STokenEmergencyWithdrawalError::VaultPaused
                    &&& final(self)@ == old(self)@
                },
            },
            old(self).wf() ==> final(self).wf(),
    {
        if self.state.config.paused {
            return Err(STokenEmergencyWithdrawalError::VaultPaused);
        }
        self.state.config.paused = true;
        Ok(Authorization { authorizer: self.state.core.manager })
    }

    /// Unpauses the vault and ends the emergency timelock, if one is
    /// running. A vault that is not paused fails with `VaultNotPaused`, and
    /// nothing changes.
    pub fn unpause_vault(&mut self) -> (result: Result<
        Authorization,
        STokenEmergencyWithdrawalError,
    >)
        ensures
            match result {
                Ok(authorization) => {
                    &&& old(self).state.config.paused
                    &&& authorization.authorizer == old(self).state.core.manager
                    &&& final(self)@ == old(self)@.with_state(old(self).state.after_unpause())
                },
                Err(e) => {
                    &&& !old(self).state.config.paused
                    &&& e == STokenEmergencyWithdrawalError::VaultNotPaused
                    &&& final(self)@ == old(self)@
                },
            },
            old(self).wf() ==> final(self).wf(),
    {
        if !self.state.config.paused {
            return Err(STokenEmergencyWithdrawalError::VaultNotPaused);
        }
        self.state.config.paused = false;
        self.state.emergency.emergency_withdraw_timelock_e = 0;
        Ok(Authorization { authorizer: self.state.core.manager })
    }

    /// Takes a step of the emergency withdrawal of `amount` of `token_mint`
    /// at time `now`. `token_balance` is the vault's balance of the token.
    /// On failure nothing changes.
    pub fn emergency_withdraw(
        &mut self,
        token_mint: Address,
        amount: u64,
        token_balance: u64,
        now: u64,
    ) -> (result: Result<EmergencyStep, STokenEmergencyWithdrawalError>)
        ensures
            match result {
                Ok(step) => {
                    &&& old(self).state.emergency_withdraw_error(
                        token_mint,
                        amount,
                        token_balance,
                        now,
                    ) is None
                    &&& step == old(self)@.emergency_step(token_mint, amount, now)
                    &&& final(self)@ == old(self)@.with_state(
                        old(self).state.after_emergency_withdraw(token_mint, amount, now),
                    )
                },
                Err(e) => {
                    &&& old(self).state.emergency_withdraw_error(
                        token_mint,
                        amount,
                        token_balance,
                        now,
                    ) == Some(e)
                    &&& final(self)@ == old(self)@
                },
            },
            old(self).wf() ==> final(self).wf(),
    {
        if amount == 0 {
            return Err(STokenEmergencyWithdrawalError::InvalidAmount);
        }
        let manager: Address = self.state.core.manager;
        if !self.state.config.paused {
            return Err(STokenEmergencyWithdrawalError::VaultNotPaused);
        }
        if self.state.emergency.emergency_withdraw_timelock_e == 0 {
            let timelock_end: u64 = match now.checked_add(
                self.state.emergency.emergency_withdrawal_cooldown,
            ) {
                None => {
                    return Err(STokenEmergencyWithdrawalError::InvalidArgument);
                },
                Some(end) => end,
            };
            self.state.emergency.emergency_withdraw_timelock_e = timelock_end;
            self.state.emergency.emergency_withdraw_token_mint = Some(token_mint);
            self.state.emergency.emergency_withdrawal_amount = amount;
            return Ok(EmergencyStep::TimelockStarted { authorizer: manager, timelock_end });
        }
        if now < self.state.emergency.emergency_withdraw_timelock_e {
            return Err(STokenEmergencyWithdrawalError::EmergencyWithdrawalTimelockActive);
        }
        let pinned_token: bool = match self.state.emergency.emergency_withdraw_token_mint {
            Some(pinned) => pinned == token_mint,
            None => false,
        };
        if !pinned_token {
            return Err(STokenEmergencyWithdrawalError::InvalidTokenAccountMint);
        }
        if self.state.emergency.emergency_withdrawal_amount != amount {
            return Err(STokenEmergencyWithdrawalError::InvalidAmount);
        }
        if token_balance < amount {
            return Err(STokenEmergencyWithdrawalError::InsufficientBalance);
        }
        self.state.emergency.emergency_withdraw_token_mint = None;
        self.state.emergency.emergency_withdrawal_amount = 0;
        self.state.emergency.emergency_withdraw_timelock_e = 0;
        Ok(
            EmergencyStep::Released(
                TransferReceipt {
                    authorizer: manager,
                    token: token_mint,
                    from: self.vault,
                    to: manager,
                    amount,
                },
            ),
        )
    }
}

} // verus!
