//! Settlement of a swap of one vault's shares for another's.
//!
//! The source vault settles: it checks both vaults against each other,
//! computes what is burned and minted on each side at each side's price and
//! updates its own share count. The destination mints through its
//! allowlist, see [`SToken::mint_core`].

use vstd::prelude::*;
use crate::address::Address;
use crate::constants::MAX_SWAP_FEE_BPS;
use crate::constants::PRICE_PRECISION;
use crate::errors::STokenSwapError;
use crate::receipts::PeerVault;
use crate::receipts::SwapAmounts;
use crate::receipts::SwapSettlement;
use crate::stoken::SToken;
use crate::stoken::VaultModel;
use crate::types::StateCore;
use crate::utils::apply_basis_points;
use crate::utils::basis_points_of;
use crate::utils::below_minimum;
use crate::utils::calculate_split_fee_tokens;
use crate::utils::mul_div;
use crate::utils::mul_div_u64_to_u64;
use crate::utils::split_fee_tokens;

verus! {

/// The amounts of a swap of `source_amount` shares at the two prices and
/// the fee rate, or `None` where one of them cannot be computed: a zero
/// price, or a quantity beyond 64 bits.
///
/// The value of the source shares is `source_amount * source_price /
/// PRICE_PRECISION`; the fee is `swap_fee_bps` basis points of it; what
/// remains buys `destination_amount = remainder * PRICE_PRECISION /
/// dest_price`; the fee is split in two halves, each converted at its own
/// vault's price.
pub open spec fn swap_amounts(
    source_amount: u64,
    source_price: u64,
    dest_price: u64,
    swap_fee_bps: u32,
) -> Option<SwapAmounts> {
    match mul_div(source_amount, source_price, PRICE_PRECISION) {
        Err(_) => None,
        Ok(underlying_value) => {
            let fee = basis_points_of(underlying_value as int, swap_fee_bps as int);
            if fee > underlying_value {
                None
            } else {
                let after_fee = (underlying_value - fee) as u64;
                match mul_div(after_fee, PRICE_PRECISION, dest_price) {
                    Err(_) => None,
                    Ok(destination_amount) => match split_fee_tokens(
                        fee as u64,
                        source_price,
                        dest_price,
                    ) {
                        Err(_) => None,
                        Ok(tokens) => Some(
                            SwapAmounts {
                                underlying_value,
                                fee_amount: fee as u64,
                                underlying_value_after_fee: after_fee,
                                destination_amount,
                                source_fee_tokens: tokens.0,
                                dest_fee_tokens: tokens.1,
                            },
                        ),
                    },
                }
            }
        },
    }
}

/// Computes the amounts of a swap.
///
/// Fails with `MathOverflow` exactly when [`swap_amounts`] is `None`.
pub fn compute_swap_amounts(
    source_amount: u64,
    source_price: u64,
    dest_price: u64,
    swap_fee_bps: u32,
) -> (result: Result<SwapAmounts, STokenSwapError>)
    ensures
        match result {
            Ok(amounts) => swap_amounts(source_amount, source_price, dest_price, swap_fee_bps)
                == Some(amounts),
            Err(e) => e == STokenSwapError::MathOverflow && swap_amounts(
                source_amount,
                source_price,
                dest_price,
                swap_fee_bps,
            ) is None,
        },
{
    let underlying_value: u64 = match mul_div_u64_to_u64(
        source_amount,
        source_price,
        PRICE_PRECISION,
    ) {
        Err(_) => {
            return Err(STokenSwapError::MathOverflow);
        },
        Ok(value) => value,
    };
    let fee_amount: u64 = match apply_basis_points(underlying_value, swap_fee_bps) {
        Err(_) => {
            proof {
                assert(basis_points_of(underlying_value as int, swap_fee_bps as int)
                    > underlying_value);
            }
            return Err(STokenSwapError::MathOverflow);
        },
        Ok(fee) => fee,
    };
    let underlying_value_after_fee: u64 = match underlying_value.checked_sub(fee_amount) {
        None => {
            return Err(STokenSwapError::MathOverflow);
        },
        Some(remainder) => remainder,
    };
    let destination_amount: u64 = match mul_div_u64_to_u64(
        underlying_value_after_fee,
        PRICE_PRECISION,
        dest_price,
    ) {
        Err(_) => {
            return Err(STokenSwapError::MathOverflow);
        },
        Ok(amount) => amount,
    };
    let (source_fee_tokens, dest_fee_tokens) = match calculate_split_fee_tokens(
        fee_amount,
        source_price,
        dest_price,
    ) {
        Err(_) => {
            return Err(STokenSwapError::MathOverflow);
        },
        Ok(tokens) => tokens,
    };
    Ok(
        SwapAmounts {
            underlying_value,
            fee_amount,
            underlying_value_after_fee,
            destination_amount,
            source_fee_tokens,
            dest_fee_tokens,
        },
    )
}

impl VaultModel {
    /// What a swap out of this vault comes to.
    ///
    /// The checks, in order: the vaults are distinct; the fee rate is at
    /// most `MAX_SWAP_FEE_BPS`; both have the same underlying; neither is
    /// paused; the amounts can be computed; both have the same asset
    /// manager and the same decimals; the user is on the whitelist of each
    /// vault that has one; the destination amount meets the user's minimum;
    /// what the user keeps in the source and holds in the destination is
    /// empty or at least that vault's minimum holding; the share counts of
    /// both vaults stay within 64 bits.
    pub open spec fn swap_outcome(
        self,
        caller: Address,
        destination: PeerVault,
        source_amount: u64,
        swap_fee_bps: u32,
        min_destination_amount: u64,
        caller_balance: u64,
        decimals: u32,
    ) -> Result<SwapSettlement, STokenSwapError> {
        let core = self.state.core;
        let config = self.state.config;
        if self.vault == destination.address {
            Err(STokenSwapError::InvalidSwapSameVault)
        } else if swap_fee_bps > MAX_SWAP_FEE_BPS {
            Err(STokenSwapError::InvalidSwapFee)
        } else if self.underlying_mint != destination.underlying_mint {
            Err(STokenSwapError::UnderlyingMintMismatch)
        } else if config.paused || destination.paused {
            Err(STokenSwapError::VaultPaused)
        } else {
            match swap_amounts(source_amount, core.price, destination.price, swap_fee_bps) {
                None => Err(STokenSwapError::MathOverflow),
                Some(amounts) => {
                    if core.asset_manager != destination.asset_manager {
                        Err(STokenSwapError::AssetManagerMismatch)
                    } else if decimals != destination.decimals {
                        Err(STokenSwapError::TokenDecimalMismatch)
                    } else if config.whitelist_enabled && !self.whitelist.contains(caller) {
                        Err(STokenSwapError::UserNotWhitelisted)
                    } else if destination.whitelist_enabled && !destination.caller_whitelisted {
                        Err(STokenSwapError::UserNotWhitelisted)
                    } else if amounts.destination_amount < min_destination_amount {
                        Err(STokenSwapError::SlippageNotMet)
                    } else if core.min_shares_to_mint > 0 && caller_balance < source_amount {
                        Err(STokenSwapError::MathOverflow)
                    } else if below_minimum(
                        caller_balance - source_amount,
                        core.min_shares_to_mint,
                    ) {
                        Err(STokenSwapError::MinimumSharesNotMet)
                    } else if destination.min_shares_to_mint > 0 && destination.caller_balance
                        + amounts.destination_amount > u64::MAX {
                        Err(STokenSwapError::MathOverflow)
                    } else if below_minimum(
                        destination.caller_balance + amounts.destination_amount,
                        destination.min_shares_to_mint,
                    ) {
                        Err(STokenSwapError::MinimumSharesNotMet)
                    } else if amounts.source_fee_tokens + amounts.dest_fee_tokens > u64::MAX
                        || core.total_shares < source_amount || core.total_shares - source_amount
                        + amounts.source_fee_tokens > u64::MAX || destination.total_shares
                        + amounts.destination_amount + amounts.dest_fee_tokens > u64::MAX {
                        Err(STokenSwapError::MathOverflow)
                    } else {
                        Ok(
                            SwapSettlement {
                                authorizer: caller,
                                source_amount,
                                destination_amount: amounts.destination_amount,
                                underlying_value_after_fee: amounts.underlying_value_after_fee,
                                fee_amount: amounts.fee_amount,
                                source_fee_tokens: amounts.source_fee_tokens,
                                dest_fee_tokens: amounts.dest_fee_tokens,
                                source_accountant: core.accountant,
                                dest_accountant: destination.accountant,
                                new_source_total_shares: (core.total_shares - source_amount
                                    + amounts.source_fee_tokens) as u64,
                                new_dest_total_shares: (destination.total_shares
                                    + amounts.destination_amount + amounts.dest_fee_tokens) as u64,
                            },
                        )
                    }
                },
            }
        }
    }

}

impl SToken {
    /// Settles a swap of `source_amount` of this vault's shares, held by
    /// `caller`, for shares of `destination`.
    ///
    /// `caller_balance` is the caller's share balance in this vault and
    /// `decimals` the decimals of this vault's shares. On success only this
    /// vault's share count changes, to `new_source_total_shares`; on failure
    /// nothing changes.
    pub fn swap_tokens(
        &mut self,
        caller: Address,
        destination: PeerVault,
        source_amount: u64,
        swap_fee_bps: u32,
        min_destination_amount: u64,
        caller_balance: u64,
        decimals: u32,
    ) -> (result: Result<SwapSettlement, STokenSwapError>)
        ensures
            result == old(self)@.swap_outcome(
                caller,
                destination,
                source_amount,
                swap_fee_bps,
                min_destination_amount,
                caller_balance,
                decimals,
            ),
            old(self).wf() ==> final(self).wf(),
            match result {
                Ok(settlement) => final(self)@ == old(self)@.with_core(
                    StateCore {
                        total_shares: settlement.new_source_total_shares,
                        ..old(self).state.core
                    },
                ),
                Err(_) => final(self)@ == old(self)@,
            },
    {
        if self.vault == destination.address {
            return Err(STokenSwapError::InvalidSwapSameVault);
        }
        if swap_fee_bps > MAX_SWAP_FEE_BPS as u32 {
            return Err(STokenSwapError::InvalidSwapFee);
        }
        if self.underlying_mint != destination.underlying_mint {
            return Err(STokenSwapError::UnderlyingMintMismatch);
        }
        if self.state.config.paused || destination.paused {
            return Err(STokenSwapError::VaultPaused);
        }
        let amounts = match compute_swap_amounts(
            source_amount,
            self.state.core.price,
            destination.price,
            swap_fee_bps,
        ) {
            Err(e) => {
                return Err(e);
            },
            Ok(amounts) => amounts,
        };
        if self.state.core.asset_manager != destination.asset_manager {
            return Err(STokenSwapError::AssetManagerMismatch);
        }
        if decimals != destination.decimals {
            return Err(STokenSwapError::TokenDecimalMismatch);
        }
        if self.state.config.whitelist_enabled && !self.whitelist.contains(caller) {
            return Err(STokenSwapError::UserNotWhitelisted);
        }
        if destination.whitelist_enabled && !destination.caller_whitelisted {
            return Err(STokenSwapError::UserNotWhitelisted);
        }
        if amounts.destination_amount < min_destination_amount {
            return Err(STokenSwapError::SlippageNotMet);
        }
        let source_minimum: u64 = self.state.core.min_shares_to_mint;
        if source_minimum > 0 {
            match caller_balance.checked_sub(source_amount) {
                None => {
                    return Err(STokenSwapError::MathOverflow);
                },
                Some(remaining) => {
                    if remaining > 0 && remaining < source_minimum {
                        return Err(STokenSwapError::MinimumSharesNotMet);
                    }
                },
            }
        }
        if destination.min_shares_to_mint > 0 {
            match destination.caller_balance.checked_add(amounts.destination_amount) {
                None => {
                    return Err(STokenSwapError::MathOverflow);
                },
                Some(holding) => {
                    if holding > 0 && holding < destination.min_shares_to_mint {
                        return Err(STokenSwapError::MinimumSharesNotMet);
                    }
                },
            }
        }
        if amounts.source_fee_tokens.checked_add(amounts.dest_fee_tokens).is_none() {
            return Err(STokenSwapError::MathOverflow);
        }
        let new_source_total_shares: u64 = match self.state.core.total_shares.checked_sub(
            source_amount,
        ) {
            None => {
                return Err(STokenSwapError::MathOverflow);
            },
            Some(burned) => match burned.checked_add(amounts.source_fee_tokens) {
                None => {
                    return Err(STokenSwapError::MathOverflow);
                },
                Some(total) => total,
            },
        };
        let new_dest_total_shares: u64 = match destination.total_shares.checked_add(
            amounts.destination_amount,
        ) {
            None => {
                return Err(STokenSwapError::MathOverflow);
            },
            Some(minted) => match minted.checked_add(amounts.dest_fee_tokens) {
                None => {
                    return Err(STokenSwapError::MathOverflow);
                },
                Some(total) => total,
            },
        };
        let settlement = SwapSettlement {
            authorizer: caller,
            source_amount,
            destination_amount: amounts.destination_amount,
            underlying_value_after_fee: amounts.underlying_value_after_fee,
            fee_amount: amounts.fee_amount,
            source_fee_tokens: amounts.source_fee_tokens,
            dest_fee_tokens: amounts.dest_fee_tokens,
            source_accountant: self.state.core.accountant,
            dest_accountant: destination.accountant,
            new_source_total_shares,
            new_dest_total_shares,
        };
        self.state.core.total_shares = new_source_total_shares;
        Ok(settlement)
    }
}

} // verus!
