//! What a transition hands back to the host: the address whose
//! authorization the host must have verified before it commits the new
//! state, and the token movements it has to perform.

use vstd::prelude::*;
use crate::address::Address;
use crate::keys::WithdrawalRequest;

verus! {

/// A transition that moves no tokens: only the authorization is owed.
#[derive(Copy, Clone, Debug, PartialEq, Eq)]
pub struct Authorization {
    /// The address that must have authorized the call.
    pub authorizer: Address,
}

/// A deposit: `amount` of underlying goes from the depositor to the vault,
/// `user_shares` are minted to the beneficiary and `fee_shares` to the
/// accountant.
#[derive(Copy, Clone, Debug, PartialEq, Eq)]
pub struct DepositReceipt {
    pub authorizer: Address,
    pub beneficiary: Address,
    pub amount: u64,
    pub user_shares: u64,
    pub fee_shares: u64,
    pub accountant: Address,
}

/// A new withdrawal request: `shares_escrowed` shares go from the user into
/// the vault's custody.
#[derive(Copy, Clone, Debug, PartialEq, Eq)]
pub struct WithdrawalTicket {
    pub authorizer: Address,
    pub request_id: u64,
    pub shares_escrowed: u64,
    pub request: WithdrawalRequest,
}

/// A fulfilled withdrawal: `amount_paid` of underlying goes from the vault
/// to the user, `fee_shares` go from custody to the accountant and
/// `shares_burned` are burned from custody.
#[derive(Copy, Clone, Debug, PartialEq, Eq)]
pub struct FulfillmentReceipt {
    pub authorizer: Address,
    pub user: Address,
    pub amount_paid: u64,
    pub shares_burned: u64,
    pub fee_shares: u64,
    pub accountant: Address,
}

/// A cancelled withdrawal: `shares_returned` go from custody back to the
/// user, `fee_shares_to_accountant` go from custody to the accountant and
/// `penalty_shares_minted` are minted to the user.
#[derive(Copy, Clone, Debug, PartialEq, Eq)]
pub struct CancellationReceipt {
    pub authorizer: Address,
    pub user: Address,
    pub shares_returned: u64,
    pub fee_shares_to_accountant: u64,
    pub penalty_shares_minted: u64,
    pub accountant: Address,
    /// Whether the request was cancelled before its time-to-live elapsed.
    pub early: bool,
}

/// A transfer of `amount` of `token` from `from` to `to`.
#[derive(Copy, Clone, Debug, PartialEq, Eq)]
pub struct TransferReceipt {
    pub authorizer: Address,
    pub token: Address,
    pub from: Address,
    pub to: Address,
    pub amount: u64,
}

/// A step of the emergency-withdrawal protocol.
#[derive(Copy, Clone, Debug, PartialEq, Eq)]
pub enum EmergencyStep {
    /// The request was pinned and its timelock started; nothing moves.
    TimelockStarted { authorizer: Address, timelock_end: u64 },
    /// The pinned request was released.
    Released(TransferReceipt),
}

/// An accrual of management fee: `fee_shares` are minted to the accountant.
#[derive(Copy, Clone, Debug, PartialEq, Eq)]
pub struct FeeAccrual {
    pub accountant: Address,
    pub fee_shares: u64,
    pub time_elapsed: u64,
}

/// A mint of `amount` shares to `to`, on behalf of the peer vault that
/// authorizes it.
#[derive(Copy, Clone, Debug, PartialEq, Eq)]
pub struct MintOrder {
    pub authorizer: Address,
    pub to: Address,
    pub amount: u64,
}

/// What the host reads from the destination vault of a swap before the
/// source vault settles it.
#[derive(Copy, Clone, Debug, PartialEq, Eq)]
pub struct PeerVault {
    pub address: Address,
    pub underlying_mint: Address,
    pub paused: bool,
    pub price: u64,
    pub asset_manager: Address,
    pub accountant: Address,
    pub decimals: u32,
    pub whitelist_enabled: bool,
    /// Whether the swapping user is on the destination's whitelist.
    pub caller_whitelisted: bool,
    pub min_shares_to_mint: u64,
    /// The swapping user's share balance in the destination vault.
    pub caller_balance: u64,
    pub total_shares: u64,
}

/// A settled swap: `source_amount` shares are burned from the user in the
/// source vault and `source_fee_tokens` minted to its accountant; the
/// destination vault mints `destination_amount` to the user and
/// `dest_fee_tokens` to its accountant and records
/// `new_dest_total_shares`.
#[derive(Copy, Clone, Debug, PartialEq, Eq)]
pub struct SwapSettlement {
    pub authorizer: Address,
    pub source_amount: u64,
    pub destination_amount: u64,
    pub underlying_value_after_fee: u64,
    pub fee_amount: u64,
    pub source_fee_tokens: u64,
    pub dest_fee_tokens: u64,
    pub source_accountant: Address,
    pub dest_accountant: Address,
    pub new_source_total_shares: u64,
    pub new_dest_total_shares: u64,
}

/// The amounts of a swap, before any rule of either vault is applied.
#[derive(Copy, Clone, Debug, PartialEq, Eq)]
pub struct SwapAmounts {
    /// Value of the source shares in underlying.
    pub underlying_value: u64,
    /// The swap fee, in underlying.
    pub fee_amount: u64,
    pub underlying_value_after_fee: u64,
    /// Shares of the destination vault that the value after fee buys.
    pub destination_amount: u64,
    /// Fee shares for the source vault's accountant.
    pub source_fee_tokens: u64,
    /// Fee shares for the destination vault's accountant.
    pub dest_fee_tokens: u64,
}

} // verus!
