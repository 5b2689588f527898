//! The vault's ledger: deposits, the movement of idle funds to and from the
//! asset manager, management-fee accrual, recovery of unexpected inbound
//! transfers, and the share count kept on behalf of allow-listed peers.

use vstd::prelude::*;
use crate::address::Address;
use crate::errors::STokenAllowlistMintError;
use crate::errors::STokenCoreError;
use crate::receipts::Authorization;
use crate::receipts::DepositReceipt;
use crate::receipts::FeeAccrual;
use crate::receipts::MintOrder;
use crate::receipts::TransferReceipt;
use crate::stoken::SToken;
use crate::stoken::VaultModel;
use crate::types::StateCore;
use crate::utils::amount_to_shares;
use crate::utils::amount_to_shares_with_decimals;
use crate::utils::apply_fee;
use crate::utils::below_minimum;
use crate::utils::calculate_management_fee;
use crate::utils::check_max_shares_per_user;
use crate::utils::check_max_total_idle_for_deposit;
use crate::utils::check_max_total_shares;
use crate::utils::fee_of;
use crate::utils::limit_error;
use crate::utils::management_fee_result;
use crate::constants::MAX_FEE_BPS;

verus! {

/// What of a token held by the vault is unexpected: of the underlying, what
/// exceeds the idle funds; of the vault's own shares, what exceeds the
/// shares in custody; of any other token, all of it.
pub open spec fn unexpected_balance(vault: VaultModel, token_mint: Address, token_balance: u64)
    -> int {
    if token_mint == vault.underlying_mint {
        if token_balance > vault.state.core.total_idle {
            token_balance - vault.state.core.total_idle
        } else {
            0
        }
    } else if token_mint == vault.vault {
        if token_balance > vault.state.core.shares_in_custody {
            token_balance - vault.state.core.shares_in_custody
        } else {
            0
        }
    } else {
        token_balance as int
    }
}

impl VaultModel {
    /// What a deposit comes to.
    ///
    /// The checks, in order: the amount is not zero; the vault is not
    /// paused; the caller is on the whitelist if there is one; the idle
    /// funds stay within their limit; the amount converts to shares; the
    /// deposit fee rate is valid; the total shares and the beneficiary's
    /// shares stay within their limits; the beneficiary's holding is at least
    /// the minimum holding; the beneficiary's shares are at least
    /// `min_shares`; the counters stay within 64 bits.
    pub open spec fn deposit_outcome(
        self,
        amount: u64,
        caller: Address,
        min_shares: Option<u64>,
        beneficiary: Option<Address>,
        beneficiary_balance: u64,
        underlying_decimals: u32,
        shares_decimals: u32,
    ) -> Result<DepositReceipt, STokenCoreError> {
        let core = self.state.core;
        let config = self.state.config;
        let idle_error = limit_error(
            core.total_idle,
            amount,
            core.max_total_idle,
            STokenCoreError::MaxTotalIdleExceeded,
        );
        if amount == 0 {
            Err(STokenCoreError::InvalidAmount)
        } else if config.paused {
            Err(STokenCoreError::VaultPaused)
        } else if config.whitelist_enabled && !self.whitelist.contains(caller) {
            Err(STokenCoreError::UserNotWhitelisted)
        } else if idle_error is Some {
            Err(idle_error->Some_0)
        } else {
            match amount_to_shares(amount, core.price, underlying_decimals, shares_decimals) {
                Err(e) => Err(e),
                Ok(total_new_shares) => {
                    let fee_shares = fee_of(
                        total_new_shares as int,
                        core.deposit_fee_bps as int,
                    ) as u64;
                    let user_shares = (total_new_shares - fee_shares) as u64;
                    let total_error = limit_error(
                        core.total_shares,
                        total_new_shares,
                        core.max_total_shares,
                        STokenCoreError::MaxTotalSharesExceeded,
                    );
                    let user_error = limit_error(
                        beneficiary_balance,
                        user_shares,
                        core.max_shares_per_user,
                        STokenCoreError::MaxSharesPerUserExceeded,
                    );
                    if core.deposit_fee_bps > MAX_FEE_BPS {
                        Err(STokenCoreError::InvalidFee)
                    } else if total_error is Some {
                        Err(total_error->Some_0)
                    } else if user_error is Some {
                        Err(user_error->Some_0)
                    } else if core.min_shares_to_mint > 0 && beneficiary_balance + user_shares
                        > u64::MAX {
                        Err(STokenCoreError::MathOverflow)
                    } else if below_minimum(
                        beneficiary_balance + user_shares,
                        core.min_shares_to_mint,
                    ) {
                        Err(STokenCoreError::MinimumSharesNotMet)
                    } else if min_shares is Some && user_shares < min_shares->Some_0 {
                        Err(STokenCoreError::SlippageNotMet)
                    } else if core.total_idle + amount > u64::MAX || core.total_shares
                        + total_new_shares > u64::MAX {
                        Err(STokenCoreError::MathOverflow)
                    } else {
                        Ok(
                            DepositReceipt {
                                authorizer: caller,
                                beneficiary: beneficiary.unwrap_or(caller),
                                amount,
                                user_shares,
                                fee_shares,
                                accountant: core.accountant,
                            },
                        )
                    }
                },
            }
        }
    }

    /// The vault after the deposit of `receipt`: the idle funds grow by the
    /// amount and the total shares by the shares minted.
    pub open spec fn after_deposit(self, receipt: DepositReceipt) -> VaultModel {
        let core = self.state.core;
        self.with_core(
            StateCore {
                total_idle: (core.total_idle + receipt.amount) as u64,
                total_shares: (core.total_shares + receipt.user_shares
                    + receipt.fee_shares) as u64,
                ..core
            },
        )
    }
}


impl VaultModel {
    /// What deploying `amount` of idle funds to the asset manager comes to.
    pub open spec fn process_deposits_outcome(self, amount: u64) -> Result<
        TransferReceipt,
        STokenCoreError,
    > {
        if amount == 0 {
            Err(STokenCoreError::InvalidAmount)
        } else if amount > self.state.core.total_idle {
            Err(STokenCoreError::InsufficientBalance)
        } else {
            Ok(
                TransferReceipt {
                    authorizer: self.state.core.processor,
                    token: self.underlying_mint,
                    from: self.vault,
                    to: self.state.core.asset_manager,
                    amount,
                },
            )
        }
    }

    /// What the asset manager's return of `amount` to the vault comes to.
    /// The limit on idle funds does not apply to it.
    pub open spec fn return_funds_outcome(self, amount: u64) -> Result<
        TransferReceipt,
        STokenCoreError,
    > {
        if amount == 0 {
            Err(STokenCoreError::InvalidAmount)
        } else if self.state.core.total_idle + amount > u64::MAX {
            Err(STokenCoreError::MathOverflow)
        } else {
            Ok(
                TransferReceipt {
                    authorizer: self.state.core.asset_manager,
                    token: self.underlying_mint,
                    from: self.state.core.asset_manager,
                    to: self.vault,
                    amount,
                },
            )
        }
    }

    /// This vault with its idle funds set to `total_idle`.
    pub open spec fn with_total_idle(self, total_idle: u64) -> VaultModel {
        self.with_core(StateCore { total_idle, ..self.state.core })
    }

    /// What an accrual of management fee at `now` comes to, `total_supply`
    /// being the supply of shares: the fee for the time since the last
    /// accrual. A time before the last accrual is `InvalidTimestamp`.
    pub open spec fn accrue_management_fee_outcome(self, total_supply: u64, now: u64) -> Result<
        FeeAccrual,
        STokenCoreError,
    > {
        let core = self.state.core;
        if now < core.last_mgmt_fee_ts {
            Err(STokenCoreError::InvalidTimestamp)
        } else {
            let time_elapsed = (now - core.last_mgmt_fee_ts) as u64;
            if time_elapsed == 0 {
                Ok(FeeAccrual { accountant: core.accountant, fee_shares: 0, time_elapsed })
            } else {
                match management_fee_result(
                    total_supply,
                    core.management_fee_bps_per_year,
                    time_elapsed,
                ) {
                    Err(e) => Err(e),
                    Ok(fee_shares) => if core.total_shares + fee_shares > u64::MAX {
                        Err(STokenCoreError::MathOverflow)
                    } else {
                        Ok(FeeAccrual { accountant: core.accountant, fee_shares, time_elapsed })
                    },
                }
            }
        }
    }

    /// The vault after the accrual of `accrual` at `now`: the fee shares are
    /// counted in the total and the time of the last accrual is `now`.
    pub open spec fn after_accrue_management_fee(self, accrual: FeeAccrual, now: u64)
        -> VaultModel {
        let core = self.state.core;
        self.with_core(
            StateCore {
                total_shares: (core.total_shares + accrual.fee_shares) as u64,
                last_mgmt_fee_ts: now,
                ..core
            },
        )
    }

    /// What the recovery of `amount` of a token that reached the vault
    /// unexpectedly comes to, `token_balance` being the vault's balance of
    /// that token.
    pub open spec fn withdraw_unexpected_deposits_outcome(
        self,
        token_mint: Address,
        amount: u64,
        token_balance: u64,
    ) -> Result<TransferReceipt, STokenCoreError> {
        if amount == 0 {
            Err(STokenCoreError::InvalidAmount)
        } else if unexpected_balance(self, token_mint, token_balance) < amount {
            Err(STokenCoreError::InsufficientBalance)
        } else {
            Ok(
                TransferReceipt {
                    authorizer: self.state.core.manager,
                    token: token_mint,
                    from: self.vault,
                    to: self.state.core.manager,
                    amount,
                },
            )
        }
    }

    /// Whether the peer vault `mint` may not act on this vault, and why:
    /// it is not on the allowlist, or this vault is paused.
    pub open spec fn allowlist_mint_error(self, mint: Address) -> Option<
        STokenAllowlistMintError,
    > {
        if !self.allowlist_mint.contains(mint) {
            Some(STokenAllowlistMintError::NotInAllowlist)
        } else if self.state.config.paused {
            Some(STokenAllowlistMintError::VaultPaused)
        } else {
            None
        }
    }
}

impl SToken {
    /// Deposits `amount` of underlying from `caller` for shares minted to
    /// `beneficiary`, or to the caller where none is named.
    ///
    /// `beneficiary_balance` is the share balance of the one who receives
    /// the shares; the decimals are those of the underlying and of the
    /// shares. On failure nothing changes.
    pub fn deposit_core(
        &mut self,
        amount: u64,
        caller: Address,
        min_shares: Option<u64>,
        beneficiary: Option<Address>,
        beneficiary_balance: u64,
        underlying_decimals: u32,
        shares_decimals: u32,
    ) -> (result: Result<DepositReceipt, STokenCoreError>)
        ensures
            result == old(self)@.deposit_outcome(
                amount,
                caller,
                min_shares,
                beneficiary,
                beneficiary_balance,
                underlying_decimals,
                shares_decimals,
            ),
            match result {
                Ok(receipt) => final(self)@ == old(self)@.after_deposit(receipt),
                Err(_) => final(self)@ == old(self)@,
            },
            old(self).wf() ==> final(self).wf(),
    {
        if amount == 0 {
            return Err(STokenCoreError::InvalidAmount);
        }
        if self.state.config.paused {
            return Err(STokenCoreError::VaultPaused);
        }
        if self.state.config.whitelist_enabled && !self.whitelist.contains(caller) {
            return Err(STokenCoreError::UserNotWhitelisted);
        }
        let recipient: Address = match beneficiary {
            Some(address) => address,
            None => caller,
        };
        let total_idle: u64 = self.state.core.total_idle;
        match check_max_total_idle_for_deposit(total_idle, amount, self.state.core.max_total_idle) {
            Err(e) => {
                return Err(e);
            },
            Ok(_) => {},
        }
        let total_new_shares: u64 = match amount_to_shares_with_decimals(
            amount,
            self.state.core.price,
            underlying_decimals,
            shares_decimals,
        ) {
            Err(e) => {
                return Err(e);
            },
            Ok(shares) => shares,
        };
        let (user_shares, fee_shares) = match apply_fee(
            total_new_shares,
            self.state.core.deposit_fee_bps,
        ) {
            Err(e) => {
                return Err(e);
            },
            Ok(parts) => parts,
        };
        match check_max_total_shares(
            self.state.core.total_shares,
            total_new_shares,
            self.state.core.max_total_shares,
        ) {
            Err(e) => {
                return Err(e);
            },
            Ok(_) => {},
        }
        match check_max_shares_per_user(
            beneficiary_balance,
            user_shares,
            self.state.core.max_shares_per_user,
        ) {
            Err(e) => {
                return Err(e);
            },
            Ok(_) => {},
        }
        let minimum: u64 = self.state.core.min_shares_to_mint;
        if minimum > 0 {
            match beneficiary_balance.checked_add(user_shares) {
                None => {
                    return Err(STokenCoreError::MathOverflow);
                },
                Some(holding) => {
                    if holding > 0 && holding < minimum {
                        return Err(STokenCoreError::MinimumSharesNotMet);
                    }
                },
            }
        }
        if let Some(least) = min_shares {
            if user_shares < least {
                return Err(STokenCoreError::SlippageNotMet);
            }
        }
        let new_total_idle: u64 = match total_idle.checked_add(amount) {
            None => {
                return Err(STokenCoreError::MathOverflow);
            },
            Some(total) => total,
        };
        let new_total_shares: u64 = match self.state.core.total_shares.checked_add(
            total_new_shares,
        ) {
            None => {
                return Err(STokenCoreError::MathOverflow);
            },
            Some(total) => total,
        };
        let receipt = DepositReceipt {
            authorizer: caller,
            beneficiary: recipient,
            amount,
            user_shares,
            fee_shares,
            accountant: self.state.core.accountant,
        };
        self.state.core.total_idle = new_total_idle;
        self.state.core.total_shares = new_total_shares;
        Ok(receipt)
    }

    /// Deploys `amount` of the idle funds to the asset manager. On failure
    /// nothing changes.
    pub fn process_deposits(&mut self, amount: u64) -> (result: Result<
        TransferReceipt,
        STokenCoreError,
    >)
        ensures
            result == old(self)@.process_deposits_outcome(amount),
            match result {
                Ok(_) => final(self)@ == old(self)@.with_total_idle(
                    (old(self).state.core.total_idle - amount) as u64,
                ),
                Err(_) => final(self)@ == old(self)@,
            },
            old(self).wf() ==> final(self).wf(),
    {
        if amount == 0 {
            return Err(STokenCoreError::InvalidAmount);
        }
        let total_idle: u64 = self.state.core.total_idle;
        if amount > total_idle {
            return Err(STokenCoreError::InsufficientBalance);
        }
        let receipt = TransferReceipt {
            authorizer: self.state.core.processor,
            token: self.underlying_mint,
            from: self.vault,
            to: self.state.core.asset_manager,
            amount,
        };
        self.state.core.total_idle = total_idle - amount;
        Ok(receipt)
    }

    /// Takes `amount` back from the asset manager into the idle funds. On
    /// failure nothing changes.
    pub fn return_funds(&mut self, amount: u64) -> (result: Result<
        TransferReceipt,
        STokenCoreError,
    >)
        ensures
            result == old(self)@.return_funds_outcome(amount),
            match result {
                Ok(_) => final(self)@ == old(self)@.with_total_idle(
                    (old(self).state.core.total_idle + amount) as u64,
                ),
                Err(_) => final(self)@ == old(self)@,
            },
            old(self).wf() ==> final(self).wf(),
    {
        if amount == 0 {
            return Err(STokenCoreError::InvalidAmount);
        }
        let new_total_idle: u64 = match self.state.core.total_idle.checked_add(amount) {
            None => {
                return Err(STokenCoreError::MathOverflow);
            },
            Some(total) => total,
        };
        let receipt = TransferReceipt {
            authorizer: self.state.core.asset_manager,
            token: self.underlying_mint,
            from: self.state.core.asset_manager,
            to: self.vault,
            amount,
        };
        self.state.core.total_idle = new_total_idle;
        Ok(receipt)
    }

    /// Accrues the management fee for the time since the last accrual.
    /// Anyone may call it. `total_supply` is the supply of shares.
    ///
    /// Where no time has passed nothing changes. On failure nothing changes.
    pub fn accrue_management_fee(&mut self, total_supply: u64, now: u64) -> (result: Result<
        FeeAccrual,
        STokenCoreError,
    >)
        ensures
            result == old(self)@.accrue_management_fee_outcome(total_supply, now),
            match result {
                Ok(accrual) => final(self)@ == (if accrual.time_elapsed == 0 {
                    old(self)@
                } else {
                    old(self)@.after_accrue_management_fee(accrual, now)
                }),
                Err(_) => final(self)@ == old(self)@,
            },
            old(self).wf() ==> final(self).wf(),
    {
        let accountant: Address = self.state.core.accountant;
        let time_elapsed: u64 = match now.checked_sub(self.state.core.last_mgmt_fee_ts) {
            None => {
                return Err(STokenCoreError::InvalidTimestamp);
            },
            Some(elapsed) => elapsed,
        };
        if time_elapsed == 0 {
            return Ok(FeeAccrual { accountant, fee_shares: 0, time_elapsed });
        }
        let fee_shares: u64 = match calculate_management_fee(
            total_supply,
            self.state.core.management_fee_bps_per_year,
            time_elapsed,
        ) {
            Err(e) => {
                return Err(e);
            },
            Ok(fee) => fee,
        };
        let new_total_shares: u64 = match self.state.core.total_shares.checked_add(fee_shares) {
            None => {
                return Err(STokenCoreError::MathOverflow);
            },
            Some(total) => total,
        };
        self.state.core.total_shares = new_total_shares;
        self.state.core.last_mgmt_fee_ts = now;
        Ok(FeeAccrual { accountant, fee_shares, time_elapsed })
    }

    /// Releases `amount` of a token that reached the vault unexpectedly to
    /// the manager. `token_balance` is the vault's balance of `token_mint`.
    /// The vault's state does not change.
    pub fn withdraw_unexpected_deposits(
        &self,
        token_mint: Address,
        amount: u64,
        token_balance: u64,
    ) -> (result: Result<TransferReceipt, STokenCoreError>)
        ensures
            result == self@.withdraw_unexpected_deposits_outcome(token_mint, amount, token_balance),
    {
        if amount == 0 {
            return Err(STokenCoreError::InvalidAmount);
        }
        let available_unexpected: u64 = if token_mint == self.underlying_mint {
            if token_balance > self.state.core.total_idle {
                token_balance - self.state.core.total_idle
            } else {
                0
            }
        } else if token_mint == self.vault {
            if token_balance > self.state.core.shares_in_custody {
                token_balance - self.state.core.shares_in_custody
            } else {
                0
            }
        } else {
            token_balance
        };
        if available_unexpected < amount {
            return Err(STokenCoreError::InsufficientBalance);
        }
        Ok(
            TransferReceipt {
                authorizer: self.state.core.manager,
                token: token_mint,
                from: self.vault,
                to: self.state.core.manager,
                amount,
            },
        )
    }

    /// Decides whether the peer vault `mint` may have `amount` shares
    /// minted to `to` by this vault: it must be on the allowlist and this
    /// vault must not be paused. The peer is the authorizer.
    pub fn mint_core(&self, mint: Address, to: Address, amount: u64) -> (result: Result<
        MintOrder,
        STokenAllowlistMintError,
    >)
        ensures
            match result {
                Ok(order) => self@.allowlist_mint_error(mint) is None && order == (MintOrder {
                    authorizer: mint,
                    to,
                    amount,
                }),
                Err(e) => self@.allowlist_mint_error(mint) == Some(e),
            },
    {
        if !self.allowlist_mint.contains(mint) {
            return Err(STokenAllowlistMintError::NotInAllowlist);
        }
        if self.state.config.paused {
            return Err(STokenAllowlistMintError::VaultPaused);
        }
        Ok(MintOrder { authorizer: mint, to, amount })
    }

    /// Records `shares` as the total shares on behalf of the allow-listed
    /// peer vault `mint`, which is the authorizer. On failure nothing
    /// changes.
    pub fn write_vault_total_shares(&mut self, mint: Address, shares: u64) -> (result: Result<
        Authorization,
        STokenAllowlistMintError,
    >)
        ensures
            match result {
                Ok(authorization) => {
                    &&& old(self)@.allowlist_mint_error(mint) is None
                    &&& authorization.authorizer == mint
                    &&& final(self)@ == old(self)@.with_core(
                        StateCore { total_shares: shares, ..old(self).state.core },
                    )
                },
                Err(e) => {
                    &&& old(self)@.allowlist_mint_error(mint) == Some(e)
                    &&& final(self)@ == old(self)@
                },
            },
            old(self).wf() ==> final(self).wf(),
    {
        if !self.allowlist_mint.contains(mint) {
            return Err(STokenAllowlistMintError::NotInAllowlist);
        }
        if self.state.config.paused {
            return Err(STokenAllowlistMintError::VaultPaused);
        }
        self.state.core.total_shares = shares;
        Ok(Authorization { authorizer: mint })
    }
}

} // verus!
