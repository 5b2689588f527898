//! The lifecycle of a withdrawal request: requested, then fulfilled or
//! cancelled.
//!
//! A request escrows the user's shares in the vault's custody and fixes the
//! amount due at the price of the moment. Fulfilment pays out, burns the
//! shares and hands the fee shares to the accountant. Cancellation returns
//! the shares: before the time-to-live has elapsed the fee is kept, after it
//! the fee is returned and compensation is minted.

use vstd::prelude::*;
use crate::address::Address;
use crate::constants::BPS_PRECISION;
use crate::constants::MAX_FEE_BPS;
use crate::errors::STokenCoreError;
use crate::errors::STokenWithdrawalRequestError;
use crate::keys::WithdrawalRequest;
use crate::keys::WithdrawalRequestStatus;
use crate::math::lemma_product_bound;
use crate::math::lemma_quotient_monotone;
use crate::receipts::Authorization;
use crate::receipts::CancellationReceipt;
use crate::receipts::FulfillmentReceipt;
use crate::receipts::WithdrawalTicket;
use crate::stoken::lemma_pending_sums_cover;
use crate::stoken::lemma_pending_sums_push;
use crate::stoken::lemma_pending_sums_update;
use crate::stoken::SToken;
use crate::stoken::VaultModel;
use crate::types::StateCore;
use crate::utils::apply_basis_points;
use crate::utils::apply_fee;
use crate::utils::basis_points_of;
use crate::utils::below_minimum;
use crate::utils::elapsed;
use crate::utils::has_elapsed;
use crate::utils::fee_of;
use crate::utils::lemma_fee_bounded;
use crate::utils::shares_to_amount;
use crate::utils::shares_to_amount_with_decimals;

verus! {

/// Largest minimum payout that a request for `amount_due` may ask for: the
/// amount due less the vault's downside cap.
pub open spec fn max_allowed_minimum(amount_due: u64, downside_cap_bps: u32) -> int {
    let kept_bps: int = if downside_cap_bps >= BPS_PRECISION {
        0
    } else {
        BPS_PRECISION - downside_cap_bps
    };
    basis_points_of(amount_due as int, kept_bps)
}

/// What a fulfilment pays: the user's minimum where the shares are now worth
/// less than it; the amount fixed at the request where the price has risen
/// since; what the shares are worth now otherwise.
pub open spec fn payout(
    theoretical_out: u64,
    min_amount_out: u64,
    current_price: u64,
    price_at_request: u64,
    amount_due: u64,
) -> u64 {
    if theoretical_out < min_amount_out {
        min_amount_out
    } else if current_price > price_at_request {
        amount_due
    } else {
        theoretical_out
    }
}

impl VaultModel {
    /// The request with id `request_id`, if that id was handed out.
    pub open spec fn request_at(self, request_id: u64) -> Option<WithdrawalRequest> {
        if request_id < self.withdraw_requests.len() {
            Some(self.withdraw_requests[request_id as int])
        } else {
            None
        }
    }

    /// What a withdrawal request comes to.
    ///
    /// The checks, in order: the shares are not zero and not more than the
    /// caller holds; they are at least the minimum holding, and what the
    /// caller keeps is empty or at least the minimum holding; the vault is
    /// not paused; the caller is on the whitelist if there is one; the
    /// withdrawal fee rate is valid; the shares after fee convert to an
    /// amount due; the caller's minimum payout is at most the amount due and
    /// at most the amount due less the downside cap; the counters stay within
    /// 64 bits.
    pub open spec fn withdraw_request_outcome(
        self,
        caller: Address,
        shares: u64,
        min_amount_out: u64,
        caller_balance: u64,
        underlying_decimals: u32,
        shares_decimals: u32,
        now: u64,
    ) -> Result<WithdrawalTicket, STokenCoreError> {
        let core = self.state.core;
        let config = self.state.config;
        if shares == 0 {
            Err(STokenCoreError::InvalidAmount)
        } else if shares > caller_balance {
            Err(STokenCoreError::InsufficientShares)
        } else if core.min_shares_to_mint > 0 && shares < core.min_shares_to_mint {
            Err(STokenCoreError::WithdrawalAmountTooLow)
        } else if below_minimum(caller_balance - shares, core.min_shares_to_mint) {
            Err(STokenCoreError::MinimumSharesNotMet)
        } else if config.paused {
            Err(STokenCoreError::VaultPaused)
        } else if config.whitelist_enabled && !self.whitelist.contains(caller) {
            Err(STokenCoreError::UserNotWhitelisted)
        } else if core.withdraw_fee_bps > MAX_FEE_BPS {
            Err(STokenCoreError::InvalidFee)
        } else {
            let fee_shares = fee_of(shares as int, core.withdraw_fee_bps as int) as u64;
            let shares_after_fee = (shares - fee_shares) as u64;
            match shares_to_amount(
                shares_after_fee,
                core.price,
                underlying_decimals,
                shares_decimals,
            ) {
                Err(e) => Err(e),
                Ok(amount_due) => {
                    if min_amount_out > amount_due {
                        Err(STokenCoreError::InvalidWithdrawalMinimum)
                    } else if min_amount_out > max_allowed_minimum(
                        amount_due,
                        config.downside_cap_bps,
                    ) {
                        Err(STokenCoreError::MinimumTooHigh)
                    } else if core.total_withdrawals_pending + amount_due > u64::MAX
                        || core.next_withdrawal_id + 1 > u64::MAX || core.shares_in_custody
                        + shares > u64::MAX {
                        Err(STokenCoreError::MathOverflow)
                    } else {
                        Ok(
                            WithdrawalTicket {
                                authorizer: caller,
                                request_id: core.next_withdrawal_id,
                                shares_escrowed: shares,
                                request: WithdrawalRequest {
                                    user: caller,
                                    shares: shares_after_fee,
                                    amount_due,
                                    min_amount_out,
                                    fee_shares,
                                    price_at_request: core.price,
                                    created_at: now,
                                    status: WithdrawalRequestStatus::PENDING,
                                    processed_at: None,
                                },
                            },
                        )
                    }
                },
            }
        }
    }

    /// The vault after the request of `ticket` was booked: the request is
    /// appended under the next id, its amount due is reserved and the
    /// escrowed shares are counted in custody. The total shares stay as they
    /// are: nothing is burned yet.
    pub open spec fn after_withdraw_request(self, ticket: WithdrawalTicket) -> VaultModel {
        let core = self.state.core;
        VaultModel {
            withdraw_requests: self.withdraw_requests.push(ticket.request),
            ..self.with_core(
                StateCore {
                    total_withdrawals_pending: (core.total_withdrawals_pending
                        + ticket.request.amount_due) as u64,
                    next_withdrawal_id: (core.next_withdrawal_id + 1) as u64,
                    shares_in_custody: (core.shares_in_custody + ticket.shares_escrowed) as u64,
                    ..core
                },
            )
        }
    }

    /// What lowering the minimum payout of a request comes to.
    pub open spec fn update_withdrawal_minimum_outcome(
        self,
        caller: Address,
        request_id: u64,
        new_minimum: u64,
    ) -> Result<Authorization, STokenWithdrawalRequestError> {
        if self.state.config.paused {
            Err(STokenWithdrawalRequestError::VaultPaused)
        } else {
            match self.request_at(request_id) {
                None => Err(STokenWithdrawalRequestError::InvalidWithdrawalRequest),
                Some(request) => {
                    if request.status != WithdrawalRequestStatus::PENDING {
                        Err(STokenWithdrawalRequestError::InvalidWithdrawalRequestStatus)
                    } else if caller != request.user {
                        Err(STokenWithdrawalRequestError::InvalidUserAccount)
                    } else if new_minimum > request.min_amount_out {
                        Err(STokenWithdrawalRequestError::MinimumCannotIncrease)
                    } else {
                        Ok(Authorization { authorizer: caller })
                    }
                },
            }
        }
    }

    /// The vault after request `request_id` was replaced by `request`.
    pub open spec fn with_request(self, request_id: u64, request: WithdrawalRequest) -> VaultModel {
        VaultModel {
            withdraw_requests: self.withdraw_requests.update(request_id as int, request),
            ..self
        }
    }

    /// What fulfilling a request comes to.
    ///
    /// The checks, in order: the request exists, is pending and belongs to
    /// `user`; the vault is not paused; the shares to burn convert to an
    /// amount at the current price; the payout is at most the vault's balance
    /// of underlying and at most its idle funds; the shares to burn are
    /// counted in the total shares.
    pub open spec fn fulfill_withdrawal_outcome(
        self,
        user: Address,
        request_id: u64,
        vault_balance: u64,
        underlying_decimals: u32,
        shares_decimals: u32,
    ) -> Result<FulfillmentReceipt, STokenWithdrawalRequestError> {
        let core = self.state.core;
        match self.request_at(request_id) {
            None => Err(STokenWithdrawalRequestError::InvalidWithdrawalRequest),
            Some(request) => {
                if request.status != WithdrawalRequestStatus::PENDING {
                    Err(STokenWithdrawalRequestError::InvalidWithdrawalRequestStatus)
                } else if user != request.user {
                    Err(STokenWithdrawalRequestError::InvalidUserAccount)
                } else if self.state.config.paused {
                    Err(STokenWithdrawalRequestError::VaultPaused)
                } else {
                    match shares_to_amount(
                        request.shares,
                        core.price,
                        underlying_decimals,
                        shares_decimals,
                    ) {
                        Err(_) => Err(STokenWithdrawalRequestError::MathOverflow),
                        Ok(theoretical_out) => {
                            let amount_to_pay = payout(
                                theoretical_out,
                                request.min_amount_out,
                                core.price,
                                request.price_at_request,
                                request.amount_due,
                            );
                            if amount_to_pay > vault_balance {
                                Err(STokenWithdrawalRequestError::InsufficientVaultFunds)
                            } else if amount_to_pay > core.total_idle {
                                Err(STokenWithdrawalRequestError::InsufficientBalance)
                            } else if core.total_shares < request.shares {
                                Err(STokenWithdrawalRequestError::MathOverflow)
                            } else {
                                Ok(
                                    FulfillmentReceipt {
                                        authorizer: core.processor,
                                        user: request.user,
                                        amount_paid: amount_to_pay,
                                        shares_burned: request.shares,
                                        fee_shares: request.fee_shares,
                                        accountant: core.accountant,
                                    },
                                )
                            }
                        },
                    }
                }
            },
        }
    }

    /// The vault after request `request_id` was fulfilled with `receipt` at
    /// time `now`: the request is `FULFILLED`; its amount due is no longer
    /// reserved; its shares and fee shares have left custody; the payout has
    /// left the idle funds; the burned shares have left the total.
    pub open spec fn after_fulfill_withdrawal(
        self,
        request_id: u64,
        receipt: FulfillmentReceipt,
        now: u64,
    ) -> VaultModel {
        let core = self.state.core;
        let request = self.withdraw_requests[request_id as int];
        self.with_request(
            request_id,
            WithdrawalRequest {
                status: WithdrawalRequestStatus::FULFILLED,
                processed_at: Some(now),
                ..request
            },
        ).with_core(
            StateCore {
                total_withdrawals_pending: (core.total_withdrawals_pending
                    - request.amount_due) as u64,
                shares_in_custody: (core.shares_in_custody - request.shares
                    - request.fee_shares) as u64,
                total_idle: (core.total_idle - receipt.amount_paid) as u64,
                total_shares: (core.total_shares - receipt.shares_burned) as u64,
                ..core
            },
        )
    }

    /// What cancelling a request comes to.
    ///
    /// The checks, in order: the vault is not paused; the request exists and
    /// is pending; the processor cancels only once the time-to-live has
    /// elapsed, anyone else only a request of their own; the compensation
    /// fits in 64 bits; some shares are returned; the total shares stay
    /// within 64 bits.
    ///
    /// Before the time-to-live has elapsed the user gets the shares after
    /// fee back and the accountant gets the fee shares, and nothing is
    /// minted. From then on the user gets the shares and the fee shares
    /// back, and `system_penalty_bps` basis points of the shares after fee
    /// are minted to the user; the accountant gets nothing.
    pub open spec fn cancel_withdrawal_outcome(
        self,
        caller: Address,
        request_id: u64,
        now: u64,
    ) -> Result<CancellationReceipt, STokenWithdrawalRequestError> {
        let core = self.state.core;
        let config = self.state.config;
        if config.paused {
            Err(STokenWithdrawalRequestError::VaultPaused)
        } else {
            match self.request_at(request_id) {
                None => Err(STokenWithdrawalRequestError::InvalidWithdrawalRequest),
                Some(request) => {
                    let expired = elapsed(now, request.created_at, config.withdrawal_ttl_secs);
                    let penalty = basis_points_of(
                        request.shares as int,
                        config.system_penalty_bps as int,
                    );
                    if request.status != WithdrawalRequestStatus::PENDING {
                        Err(STokenWithdrawalRequestError::InvalidWithdrawalRequestStatus)
                    } else if caller == core.processor && !expired {
                        Err(STokenWithdrawalRequestError::TtlNotExpired)
                    } else if caller != core.processor && caller != request.user {
                        Err(STokenWithdrawalRequestError::InvalidUserAccount)
                    } else if !expired {
                        if request.shares == 0 {
                            Err(STokenWithdrawalRequestError::InvalidWithdrawalRequest)
                        } else {
                            Ok(
                                CancellationReceipt {
                                    authorizer: caller,
                                    user: request.user,
                                    shares_returned: request.shares,
                                    fee_shares_to_accountant: request.fee_shares,
                                    penalty_shares_minted: 0,
                                    accountant: core.accountant,
                                    early: true,
                                },
                            )
                        }
                    } else if penalty > u64::MAX {
                        Err(STokenWithdrawalRequestError::MathOverflow)
                    } else if request.shares + request.fee_shares == 0 {
                        Err(STokenWithdrawalRequestError::InvalidWithdrawalRequest)
                    } else if core.total_shares + penalty > u64::MAX {
                        Err(STokenWithdrawalRequestError::MathOverflow)
                    } else {
                        Ok(
                            CancellationReceipt {
                                authorizer: caller,
                                user: request.user,
                                shares_returned: (request.shares + request.fee_shares) as u64,
                                fee_shares_to_accountant: 0,
                                penalty_shares_minted: penalty as u64,
                                accountant: core.accountant,
                                early: false,
                            },
                        )
                    }
                },
            }
        }
    }

    /// The vault after request `request_id` was cancelled with `receipt` at
    /// time `now`: the request is `CANCELLED`; its amount due is no longer
    /// reserved; its shares and fee shares have left custody; the minted
    /// compensation is counted in the total shares.
    pub open spec fn after_cancel_withdrawal(
        self,
        request_id: u64,
        receipt: CancellationReceipt,
        now: u64,
    ) -> VaultModel {
        let core = self.state.core;
        let request = self.withdraw_requests[request_id as int];
        self.with_request(
            request_id,
            WithdrawalRequest {
                status: WithdrawalRequestStatus::CANCELLED,
                processed_at: Some(now),
                ..request
            },
        ).with_core(
            StateCore {
                total_withdrawals_pending: (core.total_withdrawals_pending
                    - request.amount_due) as u64,
                shares_in_custody: (core.shares_in_custody - request.shares
                    - request.fee_shares) as u64,
                total_shares: (core.total_shares + receipt.penalty_shares_minted) as u64,
                ..core
            },
        )
    }
}

impl SToken {
    /// Books a request of `caller` to withdraw `shares`, to be paid at
    /// least `min_amount_out`.
    ///
    /// `caller_balance` is the caller's share balance; the decimals are
    /// those of the underlying and of the shares; `now` is the time. On
    /// failure nothing changes.
    pub fn withdraw_request(
        &mut self,
        caller: Address,
        shares: u64,
        min_amount_out: u64,
        caller_balance: u64,
        underlying_decimals: u32,
        shares_decimals: u32,
        now: u64,
    ) -> (result: Result<WithdrawalTicket, STokenCoreError>)
        ensures
            result == old(self)@.withdraw_request_outcome(
                caller,
                shares,
                min_amount_out,
                caller_balance,
                underlying_decimals,
                shares_decimals,
                now,
            ),
            match result {
                Ok(ticket) => final(self)@ == old(self)@.after_withdraw_request(ticket),
                Err(_) => final(self)@ == old(self)@,
            },
            old(self).wf() ==> final(self).wf(),
    {
        if shares == 0 {
            return Err(STokenCoreError::InvalidAmount);
        }
        if shares > caller_balance {
            return Err(STokenCoreError::InsufficientShares);
        }
        let remaining_shares: u64 = caller_balance - shares;
        let minimum: u64 = self.state.core.min_shares_to_mint;
        if minimum > 0 {
            if shares < minimum {
                return Err(STokenCoreError::WithdrawalAmountTooLow);
            }
            if remaining_shares > 0 && remaining_shares < minimum {
                return Err(STokenCoreError::MinimumSharesNotMet);
            }
        }
        if self.state.config.paused {
            return Err(STokenCoreError::VaultPaused);
        }
        if self.state.config.whitelist_enabled && !self.whitelist.contains(caller) {
            return Err(STokenCoreError::UserNotWhitelisted);
        }
        let current_price: u64 = self.state.core.price;
        let (shares_after_fee, fee_shares) = match apply_fee(
            shares,
            self.state.core.withdraw_fee_bps,
        ) {
            Err(e) => {
                return Err(e);
            },
            Ok(parts) => parts,
        };
        let amount_due: u64 = match shares_to_amount_with_decimals(
            shares_after_fee,
            current_price,
            underlying_decimals,
            shares_decimals,
        ) {
            Err(e) => {
                return Err(e);
            },
            Ok(amount) => amount,
        };
        if min_amount_out > amount_due {
            return Err(STokenCoreError::InvalidWithdrawalMinimum);
        }
        if min_amount_out > 0 {
            let downside_cap_bps: u32 = self.state.config.downside_cap_bps;
            let kept_bps: u32 = if downside_cap_bps >= BPS_PRECISION {
                0
            } else {
                BPS_PRECISION - downside_cap_bps
            };
            proof {
                lemma_product_bound(amount_due as int, kept_bps as int, amount_due as int, 10_000);
                lemma_quotient_monotone(amount_due * kept_bps, amount_due * 10_000, 10_000);
            }
            match apply_basis_points(amount_due, kept_bps) {
                Err(e) => {
                    return Err(e);
                },
                Ok(max_allowed_min) => {
                    if min_amount_out > max_allowed_min {
                        return Err(STokenCoreError::MinimumTooHigh);
                    }
                },
            }
        } else {
            proof {
                let kept_bps: int = if self.state.config.downside_cap_bps >= BPS_PRECISION {
                    0
                } else {
                    BPS_PRECISION - self.state.config.downside_cap_bps
                };
                lemma_product_bound(amount_due as int, kept_bps, amount_due as int, 10_000);
                lemma_quotient_monotone(0, amount_due * kept_bps, 10_000);
            }
        }
        let withdrawal_id: u64 = self.state.core.next_withdrawal_id;
        let new_pending: u64 = match self.state.core.total_withdrawals_pending.checked_add(
            amount_due,
        ) {
            None => {
                return Err(STokenCoreError::MathOverflow);
            },
            Some(total) => total,
        };
        let new_next_id: u64 = match withdrawal_id.checked_add(1) {
            None => {
                return Err(STokenCoreError::MathOverflow);
            },
            Some(next) => next,
        };
        let new_custody: u64 = match self.state.core.shares_in_custody.checked_add(shares) {
            None => {
                return Err(STokenCoreError::MathOverflow);
            },
            Some(total) => total,
        };
        let request = WithdrawalRequest {
            user: caller,
            shares: shares_after_fee,
            amount_due,
            min_amount_out,
            fee_shares,
            price_at_request: current_price,
            created_at: now,
            status: WithdrawalRequestStatus::PENDING,
            processed_at: None,
        };
        proof {
            lemma_pending_sums_push(self.withdraw_requests@, request);
        }
        self.withdraw_requests.push(request);
        self.state.core.total_withdrawals_pending = new_pending;
        self.state.core.next_withdrawal_id = new_next_id;
        self.state.core.shares_in_custody = new_custody;
        Ok(
            WithdrawalTicket {
                authorizer: caller,
                request_id: withdrawal_id,
                shares_escrowed: shares,
                request,
            },
        )
    }

    /// Lowers the minimum payout of the pending request `request_id` of
    /// `caller` to `new_minimum`. On failure nothing changes.
    pub fn update_withdrawal_minimum(&mut self, caller: Address, request_id: u64, new_minimum: u64)
        -> (result: Result<Authorization, STokenWithdrawalRequestError>)
        ensures
            result == old(self)@.update_withdrawal_minimum_outcome(caller, request_id, new_minimum),
            match result {
                Ok(_) => final(self)@ == old(self)@.with_request(
                    request_id,
                    WithdrawalRequest {
                        min_amount_out: new_minimum,
                        ..old(self).withdraw_requests@[request_id as int]
                    },
                ),
                Err(_) => final(self)@ == old(self)@,
            },
            old(self).wf() ==> final(self).wf(),
    {
        if self.state.config.paused {
            return Err(STokenWithdrawalRequestError::VaultPaused);
        }
        let index: usize = match self.request_index(request_id) {
            None => {
                return Err(STokenWithdrawalRequestError::InvalidWithdrawalRequest);
            },
            Some(index) => index,
        };
        let request = self.withdraw_requests[index];
        if request.status != WithdrawalRequestStatus::PENDING {
            return Err(STokenWithdrawalRequestError::InvalidWithdrawalRequestStatus);
        }
        if caller != request.user {
            return Err(STokenWithdrawalRequestError::InvalidUserAccount);
        }
        if new_minimum > request.min_amount_out {
            return Err(STokenWithdrawalRequestError::MinimumCannotIncrease);
        }
        let updated = WithdrawalRequest { min_amount_out: new_minimum, ..request };
        proof {
            lemma_pending_sums_update(self.withdraw_requests@, request_id as int, updated);
        }
        self.withdraw_requests.set(index, updated);
        Ok(Authorization { authorizer: caller })
    }

    /// Fulfils the pending request `request_id` of `user` at time `now`.
    ///
    /// `vault_balance` is the vault's balance of underlying; the decimals
    /// are those of the underlying and of the shares. On failure nothing
    /// changes.
    pub fn fulfill_withdrawal(
        &mut self,
        user: Address,
        request_id: u64,
        vault_balance: u64,
        underlying_decimals: u32,
        shares_decimals: u32,
        now: u64,
    ) -> (result: Result<FulfillmentReceipt, STokenWithdrawalRequestError>)
        requires
            old(self).wf(),
        ensures
            result == old(self)@.fulfill_withdrawal_outcome(
                user,
                request_id,
                vault_balance,
                underlying_decimals,
                shares_decimals,
            ),
            match result {
                Ok(receipt) => final(self)@ == old(self)@.after_fulfill_withdrawal(
                    request_id,
                    receipt,
                    now,
                ),
                Err(_) => final(self)@ == old(self)@,
            },
            final(self).wf(),
    {
        let index: usize = match self.request_index(request_id) {
            None => {
                return Err(STokenWithdrawalRequestError::InvalidWithdrawalRequest);
            },
            Some(index) => index,
        };
        let request = self.withdraw_requests[index];
        if request.status != WithdrawalRequestStatus::PENDING {
            return Err(STokenWithdrawalRequestError::InvalidWithdrawalRequestStatus);
        }
        if user != request.user {
            return Err(STokenWithdrawalRequestError::InvalidUserAccount);
        }
        if self.state.config.paused {
            return Err(STokenWithdrawalRequestError::VaultPaused);
        }
        let current_price: u64 = self.state.core.price;
        let theoretical_out: u64 = match shares_to_amount_with_decimals(
            request.shares,
            current_price,
            underlying_decimals,
            shares_decimals,
        ) {
            Err(_) => {
                return Err(STokenWithdrawalRequestError::MathOverflow);
            },
            Ok(amount) => amount,
        };
        let amount_to_pay: u64 = if theoretical_out < request.min_amount_out {
            request.min_amount_out
        } else if current_price > request.price_at_request {
            request.amount_due
        } else {
            theoretical_out
        };
        if amount_to_pay > vault_balance {
            return Err(STokenWithdrawalRequestError::InsufficientVaultFunds);
        }
        if amount_to_pay > self.state.core.total_idle {
            return Err(STokenWithdrawalRequestError::InsufficientBalance);
        }
        if self.state.core.total_shares < request.shares {
            return Err(STokenWithdrawalRequestError::MathOverflow);
        }
        let fulfilled = WithdrawalRequest {
            status: WithdrawalRequestStatus::FULFILLED,
            processed_at: Some(now),
            ..request
        };
        proof {
            lemma_pending_sums_cover(self.withdraw_requests@, request_id as int);
            lemma_pending_sums_update(self.withdraw_requests@, request_id as int, fulfilled);
        }
        let receipt = FulfillmentReceipt {
            authorizer: self.state.core.processor,
            user: request.user,
            amount_paid: amount_to_pay,
            shares_burned: request.shares,
            fee_shares: request.fee_shares,
            accountant: self.state.core.accountant,
        };
        self.withdraw_requests.set(index, fulfilled);
        self.state.core.total_withdrawals_pending = self.state.core.total_withdrawals_pending
            - request.amount_due;
        self.state.core.shares_in_custody = self.state.core.shares_in_custody - request.shares
            - request.fee_shares;
        self.state.core.total_idle = self.state.core.total_idle - amount_to_pay;
        self.state.core.total_shares = self.state.core.total_shares - request.shares;
        Ok(receipt)
    }

    /// Cancels the pending request `request_id` on behalf of `caller` at
    /// time `now`. On failure nothing changes.
    pub fn cancel_withdrawal(&mut self, caller: Address, request_id: u64, now: u64) -> (result:
        Result<CancellationReceipt, STokenWithdrawalRequestError>)
        requires
            old(self).wf(),
        ensures
            result == old(self)@.cancel_withdrawal_outcome(caller, request_id, now),
            match result {
                Ok(receipt) => final(self)@ == old(self)@.after_cancel_withdrawal(
                    request_id,
                    receipt,
                    now,
                ),
                Err(_) => final(self)@ == old(self)@,
            },
            final(self).wf(),
    {
        if self.state.config.paused {
            return Err(STokenWithdrawalRequestError::VaultPaused);
        }
        let index: usize = match self.request_index(request_id) {
            None => {
                return Err(STokenWithdrawalRequestError::InvalidWithdrawalRequest);
            },
            Some(index) => index,
        };
        let request = self.withdraw_requests[index];
        if request.status != WithdrawalRequestStatus::PENDING {
            return Err(STokenWithdrawalRequestError::InvalidWithdrawalRequestStatus);
        }
        let expired: bool = has_elapsed(
            now,
            request.created_at,
            self.state.config.withdrawal_ttl_secs,
        );
        if caller == self.state.core.processor {
            if !expired {
                return Err(STokenWithdrawalRequestError::TtlNotExpired);
            }
        } else if caller != request.user {
            return Err(STokenWithdrawalRequestError::InvalidUserAccount);
        }
        proof {
            lemma_pending_sums_cover(self.withdraw_requests@, request_id as int);
        }
        let shares_returned: u64;
        let fee_shares_to_accountant: u64;
        let penalty_shares_minted: u64;
        if !expired {
            shares_returned = request.shares;
            fee_shares_to_accountant = request.fee_shares;
            penalty_shares_minted = 0;
        } else {
            shares_returned = request.shares + request.fee_shares;
            fee_shares_to_accountant = 0;
            penalty_shares_minted = match apply_basis_points(
                request.shares,
                self.state.config.system_penalty_bps,
            ) {
                Err(_) => {
                    return Err(STokenWithdrawalRequestError::MathOverflow);
                },
                Ok(penalty) => penalty,
            };
        }
        if shares_returned == 0 {
            return Err(STokenWithdrawalRequestError::InvalidWithdrawalRequest);
        }
        let new_total_shares: u64 = match self.state.core.total_shares.checked_add(
            penalty_shares_minted,
        ) {
            None => {
                return Err(STokenWithdrawalRequestError::MathOverflow);
            },
            Some(total) => total,
        };
        let cancelled = WithdrawalRequest {
            status: WithdrawalRequestStatus::CANCELLED,
            processed_at: Some(now),
            ..request
        };
        proof {
            lemma_pending_sums_update(self.withdraw_requests@, request_id as int, cancelled);
        }
        let receipt = CancellationReceipt {
            authorizer: caller,
            user: request.user,
            shares_returned,
            fee_shares_to_accountant,
            penalty_shares_minted,
            accountant: self.state.core.accountant,
            early: !expired,
        };
        self.withdraw_requests.set(index, cancelled);
        self.state.core.total_withdrawals_pending = self.state.core.total_withdrawals_pending
            - request.amount_due;
        self.state.core.shares_in_custody = self.state.core.shares_in_custody - request.shares
            - request.fee_shares;
        self.state.core.total_shares = new_total_shares;
        Ok(receipt)
    }
}


/// A request that is fulfilled at the price it was made at pays exactly the
/// amount due that was fixed at the request; afterwards the shares in
/// custody and the pending withdrawals are what they were before the
/// request, and the total shares are less by the shares burned.
pub proof fn lemma_request_then_fulfill(
    vault: VaultModel,
    caller: Address,
    shares: u64,
    min_amount_out: u64,
    caller_balance: u64,
    underlying_decimals: u32,
    shares_decimals: u32,
    requested_at: u64,
    vault_balance: u64,
    fulfilled_at: u64,
)
    requires
        vault.wf(),
        vault.withdraw_request_outcome(
            caller,
            shares,
            min_amount_out,
            caller_balance,
            underlying_decimals,
            shares_decimals,
            requested_at,
        ) is Ok,
        ({
            let ticket = vault.withdraw_request_outcome(
                caller,
                shares,
                min_amount_out,
                caller_balance,
                underlying_decimals,
                shares_decimals,
                requested_at,
            )->Ok_0;
            vault.after_withdraw_request(ticket).fulfill_withdrawal_outcome(
                caller,
                ticket.request_id,
                vault_balance,
                underlying_decimals,
                shares_decimals,
            ) is Ok
        }),
    ensures
        ({
            let ticket = vault.withdraw_request_outcome(
                caller,
                shares,
                min_amount_out,
                caller_balance,
                underlying_decimals,
                shares_decimals,
                requested_at,
            )->Ok_0;
            let requested = vault.after_withdraw_request(ticket);
            let receipt = requested.fulfill_withdrawal_outcome(
                caller,
                ticket.request_id,
                vault_balance,
                underlying_decimals,
                shares_decimals,
            )->Ok_0;
            let fulfilled = requested.after_fulfill_withdrawal(
                ticket.request_id,
                receipt,
                fulfilled_at,
            );
            &&& requested.wf()
            &&& fulfilled.wf()
            &&& receipt.amount_paid == ticket.request.amount_due
            &&& receipt.shares_burned + receipt.fee_shares == shares
            &&& fulfilled.state.core.shares_in_custody == vault.state.core.shares_in_custody
            &&& fulfilled.state.core.total_withdrawals_pending
                == vault.state.core.total_withdrawals_pending
            &&& fulfilled.state.core.total_shares == vault.state.core.total_shares
                - receipt.shares_burned
            &&& fulfilled.state.core.total_idle == vault.state.core.total_idle
                - receipt.amount_paid
        }),
{
    let ticket = vault.withdraw_request_outcome(
        caller,
        shares,
        min_amount_out,
        caller_balance,
        underlying_decimals,
        shares_decimals,
        requested_at,
    )->Ok_0;
    let requested = vault.after_withdraw_request(ticket);
    let receipt = requested.fulfill_withdrawal_outcome(
        caller,
        ticket.request_id,
        vault_balance,
        underlying_decimals,
        shares_decimals,
    )->Ok_0;
    lemma_fee_bounded(shares as int, vault.state.core.withdraw_fee_bps as int);
    lemma_pending_sums_push(vault.withdraw_requests, ticket.request);
    assert(requested.withdraw_requests[ticket.request_id as int] == ticket.request);
    let done = WithdrawalRequest {
        status: WithdrawalRequestStatus::FULFILLED,
        processed_at: Some(fulfilled_at),
        ..ticket.request
    };
    lemma_pending_sums_update(requested.withdraw_requests, ticket.request_id as int, done);
}


/// What a cancellation returns. Before the request's time-to-live has
/// elapsed the user gets the shares after fee back, the accountant gets the
/// fee shares and nothing is minted. From then on the user gets the shares
/// after fee and the fee shares back, `system_penalty_bps` basis points of
/// the shares after fee are minted to the user and the accountant gets
/// nothing. Either way all that the request held in custody leaves it, and
/// the total shares grow by what was minted and nothing else.
pub proof fn lemma_cancel_refund(vault: VaultModel, caller: Address, request_id: u64, now: u64)
    requires
        vault.wf(),
        vault.cancel_withdrawal_outcome(caller, request_id, now) is Ok,
    ensures
        ({
            let receipt = vault.cancel_withdrawal_outcome(caller, request_id, now)->Ok_0;
            let request = vault.withdraw_requests[request_id as int];
            let cancelled = vault.after_cancel_withdrawal(request_id, receipt, now);
            let expired = elapsed(
                now,
                request.created_at,
                vault.state.config.withdrawal_ttl_secs,
            );
            &&& receipt.early == !expired
            &&& receipt.user == request.user
            &&& !expired ==> {
                &&& receipt.shares_returned == request.shares
                &&& receipt.fee_shares_to_accountant == request.fee_shares
                &&& receipt.penalty_shares_minted == 0
            }
            &&& expired ==> {
                &&& receipt.shares_returned == request.shares + request.fee_shares
                &&& receipt.fee_shares_to_accountant == 0
                &&& receipt.penalty_shares_minted == basis_points_of(
                    request.shares as int,
                    vault.state.config.system_penalty_bps as int,
                )
            }
            &&& cancelled.wf()
            &&& cancelled.state.core.shares_in_custody == vault.state.core.shares_in_custody
                - receipt.shares_returned - receipt.fee_shares_to_accountant
            &&& cancelled.state.core.total_withdrawals_pending
                == vault.state.core.total_withdrawals_pending - request.amount_due
            &&& cancelled.state.core.total_shares == vault.state.core.total_shares
                + receipt.penalty_shares_minted
        }),
{
    let receipt = vault.cancel_withdrawal_outcome(caller, request_id, now)->Ok_0;
    let request = vault.withdraw_requests[request_id as int];
    let done = WithdrawalRequest {
        status: WithdrawalRequestStatus::CANCELLED,
        processed_at: Some(now),
        ..request
    };
    lemma_pending_sums_cover(vault.withdraw_requests, request_id as int);
    lemma_pending_sums_update(vault.withdraw_requests, request_id as int, done);
}


/// The user who made a request can always cancel it while it is pending
/// and the vault is not paused. Before the time-to-live has elapsed this
/// returns the shares after fee, hands the fee shares to the accountant and
/// mints nothing, whatever the penalty rate: the total shares stay as they
/// are.
pub proof fn lemma_early_cancel_by_user(vault: VaultModel, request_id: u64, now: u64)
    requires
        vault.wf(),
        !vault.state.config.paused,
        request_id < vault.withdraw_requests.len(),
        vault.withdraw_requests[request_id as int].status == WithdrawalRequestStatus::PENDING,
        vault.withdraw_requests[request_id as int].user != vault.state.core.processor,
        !elapsed(
            now,
            vault.withdraw_requests[request_id as int].created_at,
            vault.state.config.withdrawal_ttl_secs,
        ),
    ensures
        ({
            let request = vault.withdraw_requests[request_id as int];
            let outcome = vault.cancel_withdrawal_outcome(request.user, request_id, now);
            let cancelled = vault.after_cancel_withdrawal(request_id, outcome->Ok_0, now);
            &&& outcome == Ok::<CancellationReceipt, STokenWithdrawalRequestError>(
                CancellationReceipt {
                    authorizer: request.user,
                    user: request.user,
                    shares_returned: request.shares,
                    fee_shares_to_accountant: request.fee_shares,
                    penalty_shares_minted: 0,
                    accountant: vault.state.core.accountant,
                    early: true,
                },
            )
            &&& cancelled.state.core.total_shares == vault.state.core.total_shares
            &&& cancelled.wf()
        }),
{
    let request = vault.withdraw_requests[request_id as int];
    let done = WithdrawalRequest {
        status: WithdrawalRequestStatus::CANCELLED,
        processed_at: Some(now),
        ..request
    };
    lemma_pending_sums_cover(vault.withdraw_requests, request_id as int);
    lemma_pending_sums_update(vault.withdraw_requests, request_id as int, done);
}

/// Once the time-to-live of a pending request has elapsed, its user and the
/// processor can cancel it in a vault that is not paused, unless the
/// compensation would take the total shares beyond 64 bits. The user gets
/// the shares after fee and the fee shares back, the accountant gets
/// nothing, and `system_penalty_bps` basis points of the shares after fee
/// are minted to the user.
pub proof fn lemma_late_cancel(vault: VaultModel, caller: Address, request_id: u64, now: u64)
    requires
        vault.wf(),
        !vault.state.config.paused,
        request_id < vault.withdraw_requests.len(),
        vault.withdraw_requests[request_id as int].status == WithdrawalRequestStatus::PENDING,
        caller == vault.withdraw_requests[request_id as int].user || caller
            == vault.state.core.processor,
        elapsed(
            now,
            vault.withdraw_requests[request_id as int].created_at,
            vault.state.config.withdrawal_ttl_secs,
        ),
    ensures
        ({
            let request = vault.withdraw_requests[request_id as int];
            let penalty = basis_points_of(
                request.shares as int,
                vault.state.config.system_penalty_bps as int,
            );
            let outcome = vault.cancel_withdrawal_outcome(caller, request_id, now);
            &&& vault.state.core.total_shares + penalty > u64::MAX ==> outcome == Err::<
                CancellationReceipt,
                STokenWithdrawalRequestError,
            >(STokenWithdrawalRequestError::MathOverflow)
            &&& vault.state.core.total_shares + penalty <= u64::MAX ==> outcome == Ok::<
                CancellationReceipt,
                STokenWithdrawalRequestError,
            >(
                CancellationReceipt {
                    authorizer: caller,
                    user: request.user,
                    shares_returned: (request.shares + request.fee_shares) as u64,
                    fee_shares_to_accountant: 0,
                    penalty_shares_minted: penalty as u64,
                    accountant: vault.state.core.accountant,
                    early: false,
                },
            )
            &&& request.shares + request.fee_shares <= u64::MAX
        }),
{
    let request = vault.withdraw_requests[request_id as int];
    lemma_pending_sums_cover(vault.withdraw_requests, request_id as int);
    lemma_product_bound(
        request.shares as int,
        vault.state.config.system_penalty_bps as int,
        u64::MAX as int,
        u32::MAX as int,
    );
}

/// A request that was fulfilled or cancelled is final: it can be neither
/// fulfilled nor cancelled, and its minimum cannot be changed, whoever asks
/// and whenever.
pub proof fn lemma_settled_request_is_final(
    vault: VaultModel,
    caller: Address,
    request_id: u64,
    new_minimum: u64,
    vault_balance: u64,
    underlying_decimals: u32,
    shares_decimals: u32,
    now: u64,
)
    requires
        request_id < vault.withdraw_requests.len(),
        vault.withdraw_requests[request_id as int].status != WithdrawalRequestStatus::PENDING,
    ensures
        vault.fulfill_withdrawal_outcome(
            caller,
            request_id,
            vault_balance,
            underlying_decimals,
            shares_decimals,
        ) == Err::<FulfillmentReceipt, STokenWithdrawalRequestError>(
            STokenWithdrawalRequestError::InvalidWithdrawalRequestStatus,
        ),
        vault.cancel_withdrawal_outcome(caller, request_id, now) is Err,
        vault.update_withdrawal_minimum_outcome(caller, request_id, new_minimum) is Err,
{
}

} // verus!
