use stoken::address::Address;
use stoken::errors::STokenCoreError;
use stoken::errors::STokenWithdrawalRequestError;
use stoken::keys::VaultInitConfig;
use stoken::keys::WithdrawalRequest;
use stoken::keys::WithdrawalRequestStatus;
use stoken::receipts::CancellationReceipt;
use stoken::receipts::FulfillmentReceipt;
use stoken::receipts::WithdrawalTicket;
use stoken::stoken::SToken;

fn user(n: u128) -> Address {
    Address::account(0, n)
}

fn processor() -> Address {
    user(5)
}

fn accountant() -> Address {
    user(6)
}

fn alice() -> Address {
    user(20)
}

fn config(withdraw_fee_bps: u32) -> VaultInitConfig {
    VaultInitConfig {
        authority: user(1),
        underlying_mint: Address::contract(0, 2),
        oracle: user(3),
        manager: user(4),
        processor: processor(),
        accountant: accountant(),
        asset_manager: user(7),
        deposit_fee_bps: 0,
        withdraw_fee_bps,
        management_fee_bps_per_year: 0,
        max_total_shares: None,
        max_shares_per_user: None,
        max_total_idle: None,
        min_shares_to_mint: None,
        max_deviation_bps: None,
        price_update_cooldown_secs: None,
        price_acceptance_cooldown_secs: None,
        config_cooldown_secs: None,
        emergency_withdrawal_cooldown: None,
        role_change_cooldown_secs: None,
        fee_change_cooldown_secs: None,
        initial_price: None,
        whitelist_enabled: None,
        downside_cap_bps: None,
        withdrawal_ttl_secs: None,
        early_cancel_fee_bps: None,
        system_penalty_bps: None,
    }
}

/// A vault with 5,000,000 shares and as much idle underlying, a 1%
/// withdrawal fee and a price of one.
fn funded_vault() -> SToken {
    let mut vault = SToken::initialize(config(100), Address::contract(0, 100), 1_000).unwrap();
    vault.deposit_core(5_000_000, alice(), None, None, 0, 7, 7).unwrap();
    vault
}

/// The vault of `funded_vault` with Alice's request for 1,000,000 shares
/// booked at time 2,000 under id 0.
fn vault_with_request(min_amount_out: u64) -> SToken {
    let mut vault = funded_vault();
    vault.withdraw_request(alice(), 1_000_000, min_amount_out, 5_000_000, 7, 7, 2_000).unwrap();
    vault
}

#[test]
fn request_escrows_the_shares_and_fixes_the_amount_due() {
    let mut vault = funded_vault();
    let ticket = vault.withdraw_request(alice(), 1_000_000, 900_000, 5_000_000, 7, 7, 2_000);
    let request = WithdrawalRequest {
        user: alice(),
        shares: 990_000,
        amount_due: 990_000,
        min_amount_out: 900_000,
        fee_shares: 10_000,
        price_at_request: 10_000_000,
        created_at: 2_000,
        status: WithdrawalRequestStatus::PENDING,
        processed_at: None,
    };
    assert_eq!(
        ticket,
        Ok(WithdrawalTicket {
            authorizer: alice(),
            request_id: 0,
            shares_escrowed: 1_000_000,
            request,
        })
    );
    assert_eq!(vault.withdraw_request_at(0), Some(request));
    assert_eq!(vault.withdraw_request_at(1), None);
    assert_eq!(vault.state.core.shares_in_custody, 1_000_000);
    assert_eq!(vault.state.core.total_withdrawals_pending, 990_000);
    assert_eq!(vault.state.core.next_withdrawal_id, 1);
    // nothing is burned yet
    assert_eq!(vault.state.core.total_shares, 5_000_000);
    assert_eq!(vault.state.core.total_idle, 5_000_000);
    assert!(vault.is_well_formed());
}

#[test]
fn request_ids_are_handed_out_in_order() {
    let mut vault = funded_vault();
    for expected in 0u64..4 {
        let ticket = vault.withdraw_request(alice(), 1_000, 0, 5_000_000, 7, 7, 2_000).unwrap();
        assert_eq!(ticket.request_id, expected);
    }
    assert_eq!(vault.state.core.next_withdrawal_id, 4);
    assert_eq!(vault.withdraw_requests.len(), 4);
    assert_eq!(vault.state.core.shares_in_custody, 4_000);
    assert_eq!(vault.state.core.total_withdrawals_pending, 4 * 990);
    assert!(vault.is_well_formed());
}

#[test]
fn request_amount_due_follows_the_price() {
    let mut custom = config(0);
    custom.initial_price = Some(12_500_000);
    let mut vault = SToken::initialize(custom, Address::contract(0, 100), 1_000).unwrap();
    let ticket = vault.withdraw_request(alice(), 800_000, 0, 800_000, 7, 7, 2_000).unwrap();
    assert_eq!(ticket.request.shares, 800_000);
    assert_eq!(ticket.request.fee_shares, 0);
    assert_eq!(ticket.request.amount_due, 1_000_000);
    assert_eq!(ticket.request.price_at_request, 12_500_000);
}

#[test]
fn request_errors_leave_the_vault_unchanged() {
    let mut custom = config(100);
    custom.min_shares_to_mint = Some(1_000);
    let mut vault = SToken::initialize(custom, Address::contract(0, 100), 1_000).unwrap();
    let before = vault.state;
    assert_eq!(
        vault.withdraw_request(alice(), 0, 0, 10_000, 7, 7, 2_000),
        Err(STokenCoreError::InvalidAmount)
    );
    assert_eq!(
        vault.withdraw_request(alice(), 10_001, 0, 10_000, 7, 7, 2_000),
        Err(STokenCoreError::InsufficientShares)
    );
    assert_eq!(
        vault.withdraw_request(alice(), 999, 0, 10_000, 7, 7, 2_000),
        Err(STokenCoreError::WithdrawalAmountTooLow)
    );
    assert_eq!(
        vault.withdraw_request(alice(), 9_001, 0, 10_000, 7, 7, 2_000),
        Err(STokenCoreError::MinimumSharesNotMet)
    );
    // 5,000 shares, 50 of them fee: worth 4,950
    assert_eq!(
        vault.withdraw_request(alice(), 5_000, 4_951, 10_000, 7, 7, 2_000),
        Err(STokenCoreError::InvalidWithdrawalMinimum)
    );
    // at most 95% of 4,950, truncated: 4,702
    assert_eq!(
        vault.withdraw_request(alice(), 5_000, 4_703, 10_000, 7, 7, 2_000),
        Err(STokenCoreError::MinimumTooHigh)
    );
    assert_eq!(
        vault.withdraw_request(alice(), 5_000, 0, 10_000, 9, 7, 2_000).map(|t| t.request.amount_due),
        Ok(495_000)
    );
    assert_eq!(vault.state.core.next_withdrawal_id, 1);
    let booked = vault.state;
    assert_eq!(
        vault.withdraw_request(alice(), 5_000, 0, 10_000, 7, 11, 2_000),
        Err(STokenCoreError::ZeroAmountCalculated)
    );
    assert_eq!(vault.state, booked);
    assert_ne!(vault.state, before);
    assert!(vault.withdraw_request(alice(), 5_000, 4_702, 10_000, 7, 7, 2_000).is_ok());
    // the whole holding may leave
    assert!(vault.withdraw_request(alice(), 10_000, 0, 10_000, 7, 7, 2_000).is_ok());
}

#[test]
fn request_for_one_share_is_all_fee() {
    let mut vault = funded_vault();
    assert_eq!(
        vault.withdraw_request(alice(), 1, 0, 5_000_000, 7, 7, 2_000),
        Err(STokenCoreError::InvalidAmount)
    );
    assert_eq!(vault.state.core.next_withdrawal_id, 0);
}

#[test]
fn request_needs_an_unpaused_vault_and_a_whitelisted_caller() {
    let mut custom = config(100);
    custom.whitelist_enabled = Some(true);
    let mut vault = SToken::initialize(custom, Address::contract(0, 100), 1_000).unwrap();
    assert_eq!(
        vault.withdraw_request(alice(), 1_000, 0, 10_000, 7, 7, 2_000),
        Err(STokenCoreError::UserNotWhitelisted)
    );
    vault.add_user_to_whitelist(alice()).unwrap();
    assert!(vault.withdraw_request(alice(), 1_000, 0, 10_000, 7, 7, 2_000).is_ok());
    vault.pause_vault().unwrap();
    assert_eq!(
        vault.withdraw_request(alice(), 1_000, 0, 10_000, 7, 7, 2_000),
        Err(STokenCoreError::VaultPaused)
    );
}

#[test]
fn request_with_a_full_downside_cap_takes_only_a_zero_minimum() {
    let mut custom = config(0);
    custom.downside_cap_bps = Some(10_000);
    let mut vault = SToken::initialize(custom, Address::contract(0, 100), 1_000).unwrap();
    assert_eq!(
        vault.withdraw_request(alice(), 1_000, 1, 10_000, 7, 7, 2_000),
        Err(STokenCoreError::MinimumTooHigh)
    );
    assert!(vault.withdraw_request(alice(), 1_000, 0, 10_000, 7, 7, 2_000).is_ok());
    let mut custom = config(0);
    custom.downside_cap_bps = Some(20_000);
    let mut vault = SToken::initialize(custom, Address::contract(0, 100), 1_000).unwrap();
    assert_eq!(
        vault.withdraw_request(alice(), 1_000, 1, 10_000, 7, 7, 2_000),
        Err(STokenCoreError::MinimumTooHigh)
    );
}

#[test]
fn fulfilment_at_the_same_price_pays_the_amount_due() {
    let mut vault = vault_with_request(900_000);
    let receipt = vault.fulfill_withdrawal(alice(), 0, 5_000_000, 7, 7, 3_000);
    assert_eq!(
        receipt,
        Ok(FulfillmentReceipt {
            authorizer: processor(),
            user: alice(),
            amount_paid: 990_000,
            shares_burned: 990_000,
            fee_shares: 10_000,
            accountant: accountant(),
        })
    );
    let core = vault.state.core;
    assert_eq!(core.shares_in_custody, 0);
    assert_eq!(core.total_withdrawals_pending, 0);
    assert_eq!(core.total_shares, 5_000_000 - 990_000);
    assert_eq!(core.total_idle, 5_000_000 - 990_000);
    let request = vault.withdraw_request_at(0).unwrap();
    assert_eq!(request.status, WithdrawalRequestStatus::FULFILLED);
    assert_eq!(request.processed_at, Some(3_000));
    assert_eq!(request.shares, 990_000);
    assert!(vault.is_well_formed());
}

#[test]
fn fulfilment_after_a_price_rise_pays_the_amount_fixed_at_the_request() {
    let mut vault = vault_with_request(900_000);
    vault.update_price(10_400_000, 2_500).unwrap();
    assert_eq!(vault.price(), 10_400_000);
    let receipt = vault.fulfill_withdrawal(alice(), 0, 5_000_000, 7, 7, 3_000).unwrap();
    assert_eq!(receipt.amount_paid, 990_000);
    assert_eq!(vault.state.core.total_idle, 5_000_000 - 990_000);
}

#[test]
fn fulfilment_after_a_price_fall_pays_what_the_shares_are_worth() {
    let mut vault = vault_with_request(900_000);
    vault.update_price(9_600_000, 2_500).unwrap();
    let receipt = vault.fulfill_withdrawal(alice(), 0, 5_000_000, 7, 7, 3_000).unwrap();
    // 990,000 shares at 0.96
    assert_eq!(receipt.amount_paid, 950_400);
    assert_eq!(receipt.shares_burned, 990_000);
    assert_eq!(vault.state.core.total_idle, 5_000_000 - 950_400);
    // the reservation made at the request is released in full
    assert_eq!(vault.state.core.total_withdrawals_pending, 0);
}

#[test]
fn fulfilment_never_pays_less_than_the_minimum() {
    let mut vault = vault_with_request(940_500);
    vault.update_price(9_600_000, 2_500).unwrap();
    vault.update_price(9_200_000, 2_900).unwrap();
    assert_eq!(vault.price(), 9_200_000);
    // the shares are worth 910,800 now
    let receipt = vault.fulfill_withdrawal(alice(), 0, 5_000_000, 7, 7, 3_000).unwrap();
    assert_eq!(receipt.amount_paid, 940_500);
}

#[test]
fn fulfilment_errors_leave_the_vault_unchanged() {
    let mut vault = vault_with_request(0);
    let before = vault.state;
    assert_eq!(
        vault.fulfill_withdrawal(alice(), 1, 5_000_000, 7, 7, 3_000),
        Err(STokenWithdrawalRequestError::InvalidWithdrawalRequest)
    );
    assert_eq!(
        vault.fulfill_withdrawal(user(21), 0, 5_000_000, 7, 7, 3_000),
        Err(STokenWithdrawalRequestError::InvalidUserAccount)
    );
    assert_eq!(
        vault.fulfill_withdrawal(alice(), 0, 989_999, 7, 7, 3_000),
        Err(STokenWithdrawalRequestError::InsufficientVaultFunds)
    );
    assert_eq!(
        vault.fulfill_withdrawal(alice(), 0, 5_000_000, 7, 30, 3_000),
        Err(STokenWithdrawalRequestError::MathOverflow)
    );
    assert_eq!(vault.state, before);
    assert_eq!(vault.withdraw_request_at(0).unwrap().status, WithdrawalRequestStatus::PENDING);
    vault.process_deposits(4_500_000).unwrap();
    assert_eq!(
        vault.fulfill_withdrawal(alice(), 0, 5_000_000, 7, 7, 3_000),
        Err(STokenWithdrawalRequestError::InsufficientBalance)
    );
    vault.return_funds(4_500_000).unwrap();
    vault.pause_vault().unwrap();
    assert_eq!(
        vault.fulfill_withdrawal(alice(), 0, 5_000_000, 7, 7, 3_000),
        Err(STokenWithdrawalRequestError::VaultPaused)
    );
    vault.unpause_vault().unwrap();
    assert!(vault.fulfill_withdrawal(alice(), 0, 5_000_000, 7, 7, 3_000).is_ok());
    assert_eq!(
        vault.fulfill_withdrawal(alice(), 0, 5_000_000, 7, 7, 3_000),
        Err(STokenWithdrawalRequestError::InvalidWithdrawalRequestStatus)
    );
}

#[test]
fn fulfilment_needs_the_shares_in_the_total() {
    let mut vault = vault_with_request(0);
    let peer = Address::contract(0, 200);
    vault.accept_allowlist_mint(peer, user(7)).unwrap();
    vault.write_vault_total_shares(peer, 989_999).unwrap();
    assert_eq!(
        vault.fulfill_withdrawal(alice(), 0, 5_000_000, 7, 7, 3_000),
        Err(STokenWithdrawalRequestError::MathOverflow)
    );
    assert_eq!(vault.state.core.shares_in_custody, 1_000_000);
}

#[test]
fn early_cancellation_keeps_the_fee() {
    let mut vault = vault_with_request(0);
    let receipt = vault.cancel_withdrawal(alice(), 0, 2_000 + 86_399);
    assert_eq!(
        receipt,
        Ok(CancellationReceipt {
            authorizer: alice(),
            user: alice(),
            shares_returned: 990_000,
            fee_shares_to_accountant: 10_000,
            penalty_shares_minted: 0,
            accountant: accountant(),
            early: true,
        })
    );
    let core = vault.state.core;
    assert_eq!(core.shares_in_custody, 0);
    assert_eq!(core.total_withdrawals_pending, 0);
    assert_eq!(core.total_shares, 5_000_000);
    assert_eq!(core.total_idle, 5_000_000);
    let request = vault.withdraw_request_at(0).unwrap();
    assert_eq!(request.status, WithdrawalRequestStatus::CANCELLED);
    assert_eq!(request.processed_at, Some(2_000 + 86_399));
    assert!(vault.is_well_formed());
}

#[test]
fn early_cancellation_mints_nothing_whatever_the_penalty_rate() {
    for penalty_bps in [0u32, 50, 10_000, u32::MAX] {
        let mut custom = config(100);
        custom.system_penalty_bps = Some(penalty_bps);
        let mut vault = SToken::initialize(custom, Address::contract(0, 100), 1_000).unwrap();
        vault.deposit_core(5_000_000, alice(), None, None, 0, 7, 7).unwrap();
        vault.withdraw_request(alice(), 1_000_000, 0, 5_000_000, 7, 7, 2_000).unwrap();
        let receipt = vault.cancel_withdrawal(alice(), 0, 2_000).unwrap();
        assert_eq!(receipt.penalty_shares_minted, 0);
        assert_eq!(receipt.shares_returned, 990_000);
        assert_eq!(receipt.fee_shares_to_accountant, 10_000);
        assert_eq!(vault.state.core.total_shares, 5_000_000);
    }
}

#[test]
fn late_cancellation_fails_where_the_compensation_overflows() {
    let mut custom = config(100);
    custom.system_penalty_bps = Some(10_000);
    let mut vault = SToken::initialize(custom, Address::contract(0, 100), 1_000).unwrap();
    vault.deposit_core(u64::MAX, alice(), None, None, 0, 7, 7).unwrap();
    vault.withdraw_request(alice(), 1_000_000, 0, 5_000_000, 7, 7, 2_000).unwrap();
    let before = vault.state;
    assert_eq!(
        vault.cancel_withdrawal(alice(), 0, 2_000 + 86_400),
        Err(STokenWithdrawalRequestError::MathOverflow)
    );
    assert_eq!(vault.state, before);
    // before the time-to-live nothing is minted, so nothing overflows
    assert!(vault.cancel_withdrawal(alice(), 0, 2_000 + 86_399).is_ok());
}

#[test]
fn late_cancellation_returns_the_fee_and_mints_compensation() {
    let mut vault = vault_with_request(0);
    let receipt = vault.cancel_withdrawal(alice(), 0, 2_000 + 86_400);
    assert_eq!(
        receipt,
        Ok(CancellationReceipt {
            authorizer: alice(),
            user: alice(),
            shares_returned: 1_000_000,
            fee_shares_to_accountant: 0,
            // 0.5% of 990,000
            penalty_shares_minted: 4_950,
            accountant: accountant(),
            early: false,
        })
    );
    let core = vault.state.core;
    assert_eq!(core.shares_in_custody, 0);
    assert_eq!(core.total_withdrawals_pending, 0);
    assert_eq!(core.total_shares, 5_004_950);
    assert!(vault.is_well_formed());
}

#[test]
fn processor_cancels_only_after_the_time_to_live() {
    let mut vault = vault_with_request(0);
    assert_eq!(
        vault.cancel_withdrawal(processor(), 0, 2_000 + 86_399),
        Err(STokenWithdrawalRequestError::TtlNotExpired)
    );
    assert_eq!(vault.state.core.shares_in_custody, 1_000_000);
    let receipt = vault.cancel_withdrawal(processor(), 0, 2_000 + 86_400).unwrap();
    assert_eq!(receipt.authorizer, processor());
    assert_eq!(receipt.user, alice());
    assert_eq!(receipt.shares_returned, 1_000_000);
    assert_eq!(receipt.penalty_shares_minted, 4_950);
    assert!(!receipt.early);
}

#[test]
fn cancellation_errors_leave_the_vault_unchanged() {
    let mut vault = vault_with_request(0);
    let before = vault.state;
    assert_eq!(
        vault.cancel_withdrawal(alice(), 7, 3_000),
        Err(STokenWithdrawalRequestError::InvalidWithdrawalRequest)
    );
    assert_eq!(
        vault.cancel_withdrawal(user(21), 0, 3_000),
        Err(STokenWithdrawalRequestError::InvalidUserAccount)
    );
    assert_eq!(
        vault.cancel_withdrawal(user(21), 0, 2_000 + 86_400),
        Err(STokenWithdrawalRequestError::InvalidUserAccount)
    );
    assert_eq!(vault.state, before);
    vault.pause_vault().unwrap();
    assert_eq!(
        vault.cancel_withdrawal(alice(), 0, 3_000),
        Err(STokenWithdrawalRequestError::VaultPaused)
    );
    vault.unpause_vault().unwrap();
    assert!(vault.cancel_withdrawal(alice(), 0, 3_000).is_ok());
    assert_eq!(
        vault.cancel_withdrawal(alice(), 0, 3_000),
        Err(STokenWithdrawalRequestError::InvalidWithdrawalRequestStatus)
    );
    assert_eq!(
        vault.fulfill_withdrawal(alice(), 0, 5_000_000, 7, 7, 3_000),
        Err(STokenWithdrawalRequestError::InvalidWithdrawalRequestStatus)
    );
}

#[test]
fn cancellation_time_to_live_never_overflows() {
    let mut custom = config(100);
    custom.withdrawal_ttl_secs = Some(u64::MAX);
    let mut vault = SToken::initialize(custom, Address::contract(0, 100), 1_000).unwrap();
    vault.withdraw_request(alice(), 1_000, 0, 10_000, 7, 7, 2_000).unwrap();
    let receipt = vault.cancel_withdrawal(alice(), 0, u64::MAX).unwrap();
    assert!(receipt.early);
    assert_eq!(receipt.shares_returned, 990);
}

#[test]
fn minimum_can_only_be_lowered() {
    let mut vault = vault_with_request(900_000);
    assert_eq!(
        vault.update_withdrawal_minimum(alice(), 0, 900_001),
        Err(STokenWithdrawalRequestError::MinimumCannotIncrease)
    );
    assert_eq!(
        vault.update_withdrawal_minimum(user(21), 0, 1),
        Err(STokenWithdrawalRequestError::InvalidUserAccount)
    );
    assert_eq!(
        vault.update_withdrawal_minimum(alice(), 1, 1),
        Err(STokenWithdrawalRequestError::InvalidWithdrawalRequest)
    );
    assert_eq!(vault.withdraw_request_at(0).unwrap().min_amount_out, 900_000);
    let authorization = vault.update_withdrawal_minimum(alice(), 0, 900_000).unwrap();
    assert_eq!(authorization.authorizer, alice());
    vault.update_withdrawal_minimum(alice(), 0, 100).unwrap();
    let request = vault.withdraw_request_at(0).unwrap();
    assert_eq!(request.min_amount_out, 100);
    assert_eq!(request.amount_due, 990_000);
    assert_eq!(request.status, WithdrawalRequestStatus::PENDING);
    assert!(vault.is_well_formed());
    vault.pause_vault().unwrap();
    assert_eq!(
        vault.update_withdrawal_minimum(alice(), 0, 50),
        Err(STokenWithdrawalRequestError::VaultPaused)
    );
    vault.unpause_vault().unwrap();
    vault.cancel_withdrawal(alice(), 0, 3_000).unwrap();
    assert_eq!(
        vault.update_withdrawal_minimum(alice(), 0, 50),
        Err(STokenWithdrawalRequestError::InvalidWithdrawalRequestStatus)
    );
}

#[test]
fn several_requests_are_settled_independently() {
    let mut vault = funded_vault();
    vault.deposit_core(3_000_000, user(21), None, None, 0, 7, 7).unwrap();
    vault.withdraw_request(alice(), 1_000_000, 0, 5_000_000, 7, 7, 2_000).unwrap();
    vault.withdraw_request(user(21), 2_000_000, 0, 3_000_000, 7, 7, 2_100).unwrap();
    vault.withdraw_request(alice(), 500_000, 0, 4_000_000, 7, 7, 2_200).unwrap();
    assert_eq!(vault.state.core.shares_in_custody, 3_500_000);
    assert_eq!(vault.state.core.total_withdrawals_pending, 990_000 + 1_980_000 + 495_000);
    vault.fulfill_withdrawal(user(21), 1, 8_000_000, 7, 7, 3_000).unwrap();
    assert_eq!(vault.state.core.shares_in_custody, 1_500_000);
    assert_eq!(vault.state.core.total_withdrawals_pending, 990_000 + 495_000);
    assert_eq!(vault.state.core.total_shares, 8_000_000 - 1_980_000);
    vault.cancel_withdrawal(alice(), 2, 3_100).unwrap();
    assert_eq!(vault.state.core.shares_in_custody, 1_000_000);
    assert_eq!(vault.state.core.total_withdrawals_pending, 990_000);
    vault.cancel_withdrawal(processor(), 0, 2_000 + 86_400).unwrap();
    assert_eq!(vault.state.core.shares_in_custody, 0);
    assert_eq!(vault.state.core.total_withdrawals_pending, 0);
    assert_eq!(vault.state.core.total_shares, 8_000_000 - 1_980_000 + 4_950);
    assert_eq!(vault.withdraw_requests.len(), 3);
    assert!(vault.is_well_formed());
}
