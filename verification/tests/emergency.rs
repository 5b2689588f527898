use stoken::address::Address;
use stoken::errors::STokenEmergencyWithdrawalError;
use stoken::keys::VaultInitConfig;
use stoken::receipts::EmergencyStep;
use stoken::receipts::TransferReceipt;
use stoken::stoken::SToken;

fn user(n: u128) -> Address {
    Address::account(0, n)
}

fn manager() -> Address {
    user(4)
}

fn token() -> Address {
    Address::contract(0, 2)
}

fn vault_address() -> Address {
    Address::contract(0, 100)
}

fn config() -> VaultInitConfig {
    VaultInitConfig {
        authority: user(1),
        underlying_mint: token(),
        oracle: user(3),
        manager: manager(),
        processor: user(5),
        accountant: user(6),
        asset_manager: user(7),
        deposit_fee_bps: 0,
        withdraw_fee_bps: 0,
        management_fee_bps_per_year: 0,
        max_total_shares: None,
        max_shares_per_user: None,
        max_total_idle: None,
        min_shares_to_mint: None,
        max_deviation_bps: None,
        price_update_cooldown_secs: None,
        price_acceptance_cooldown_secs: None,
        config_cooldown_secs: None,
        emergency_withdrawal_cooldown: None,
        role_change_cooldown_secs: None,
        fee_change_cooldown_secs: None,
        initial_price: None,
        whitelist_enabled: None,
        downside_cap_bps: None,
        withdrawal_ttl_secs: None,
        early_cancel_fee_bps: None,
        system_penalty_bps: None,
    }
}

fn vault() -> SToken {
    SToken::initialize(config(), vault_address(), 1_000).unwrap()
}

#[test]
fn pause_and_unpause_toggle_the_switch() {
    let mut vault = vault();
    assert_eq!(vault.unpause_vault(), Err(STokenEmergencyWithdrawalError::VaultNotPaused));
    assert_eq!(vault.pause_vault().unwrap().authorizer, manager());
    assert!(vault.is_paused());
    assert_eq!(vault.pause_vault(), Err(STokenEmergencyWithdrawalError::VaultPaused));
    assert!(vault.is_paused());
    assert_eq!(vault.unpause_vault().unwrap().authorizer, manager());
    assert!(!vault.is_paused());
}

#[test]
fn emergency_withdrawal_takes_two_steps() {
    let mut vault = vault();
    vault.pause_vault().unwrap();
    let step = vault.emergency_withdraw(token(), 500, 0, 2_000);
    assert_eq!(
        step,
        Ok(EmergencyStep::TimelockStarted { authorizer: manager(), timelock_end: 2_000 + 86_400 })
    );
    let emergency = vault.state.emergency;
    assert_eq!(emergency.emergency_withdraw_timelock_e, 88_400);
    assert_eq!(emergency.emergency_withdraw_token_mint, Some(token()));
    assert_eq!(emergency.emergency_withdrawal_amount, 500);
    assert_eq!(
        vault.emergency_withdraw(token(), 500, 1_000, 88_399),
        Err(STokenEmergencyWithdrawalError::EmergencyWithdrawalTimelockActive)
    );
    assert_eq!(vault.state.emergency, emergency);
    let step = vault.emergency_withdraw(token(), 500, 1_000, 88_400);
    assert_eq!(
        step,
        Ok(EmergencyStep::Released(TransferReceipt {
            authorizer: manager(),
            token: token(),
            from: vault_address(),
            to: manager(),
            amount: 500,
        }))
    );
    let emergency = vault.state.emergency;
    assert_eq!(emergency.emergency_withdraw_timelock_e, 0);
    assert_eq!(emergency.emergency_withdraw_token_mint, None);
    assert_eq!(emergency.emergency_withdrawal_amount, 0);
    assert_eq!(emergency.emergency_withdrawal_cooldown, 86_400);
    // the next call starts a new cycle
    assert_eq!(
        vault.emergency_withdraw(token(), 7, 0, 90_000),
        Ok(EmergencyStep::TimelockStarted { authorizer: manager(), timelock_end: 176_400 })
    );
}

#[test]
fn emergency_withdrawal_releases_only_what_was_pinned() {
    let mut vault = vault();
    vault.pause_vault().unwrap();
    vault.emergency_withdraw(token(), 500, 1_000, 2_000).unwrap();
    let pinned = vault.state.emergency;
    assert_eq!(
        vault.emergency_withdraw(Address::contract(0, 3), 500, 1_000, 90_000),
        Err(STokenEmergencyWithdrawalError::InvalidTokenAccountMint)
    );
    assert_eq!(
        vault.emergency_withdraw(token(), 501, 1_000, 90_000),
        Err(STokenEmergencyWithdrawalError::InvalidAmount)
    );
    assert_eq!(
        vault.emergency_withdraw(token(), 499, 1_000, 90_000),
        Err(STokenEmergencyWithdrawalError::InvalidAmount)
    );
    assert_eq!(
        vault.emergency_withdraw(token(), 500, 499, 90_000),
        Err(STokenEmergencyWithdrawalError::InsufficientBalance)
    );
    assert_eq!(vault.state.emergency, pinned);
    assert!(vault.emergency_withdraw(token(), 500, 500, 90_000).is_ok());
}

#[test]
fn emergency_withdrawal_errors() {
    let mut vault = vault();
    assert_eq!(
        vault.emergency_withdraw(token(), 0, 1_000, 2_000),
        Err(STokenEmergencyWithdrawalError::InvalidAmount)
    );
    assert_eq!(
        vault.emergency_withdraw(token(), 500, 1_000, 2_000),
        Err(STokenEmergencyWithdrawalError::VaultNotPaused)
    );
    vault.pause_vault().unwrap();
    assert_eq!(
        vault.emergency_withdraw(token(), 0, 1_000, 2_000),
        Err(STokenEmergencyWithdrawalError::InvalidAmount)
    );
    // a timelock that would end beyond the end of time cannot be started
    assert_eq!(
        vault.emergency_withdraw(token(), 500, 1_000, u64::MAX - 86_399),
        Err(STokenEmergencyWithdrawalError::InvalidArgument)
    );
    assert_eq!(vault.state.emergency.emergency_withdraw_timelock_e, 0);
    assert_eq!(vault.state.emergency.emergency_withdraw_token_mint, None);
    assert_eq!(
        vault.emergency_withdraw(token(), 500, 1_000, u64::MAX - 86_400),
        Ok(EmergencyStep::TimelockStarted { authorizer: manager(), timelock_end: u64::MAX })
    );
}

#[test]
fn unpausing_ends_the_timelock() {
    let mut vault = vault();
    vault.pause_vault().unwrap();
    vault.emergency_withdraw(token(), 500, 1_000, 2_000).unwrap();
    vault.unpause_vault().unwrap();
    assert_eq!(vault.state.emergency.emergency_withdraw_timelock_e, 0);
    assert_eq!(
        vault.emergency_withdraw(token(), 500, 1_000, 90_000),
        Err(STokenEmergencyWithdrawalError::VaultNotPaused)
    );
    vault.pause_vault().unwrap();
    // a new pause cycle pins anew, whatever was pinned before
    assert_eq!(
        vault.emergency_withdraw(Address::contract(0, 3), 9, 1_000, 90_000),
        Ok(EmergencyStep::TimelockStarted { authorizer: manager(), timelock_end: 176_400 })
    );
    assert_eq!(vault.state.emergency.emergency_withdraw_token_mint, Some(Address::contract(0, 3)));
    assert_eq!(vault.state.emergency.emergency_withdrawal_amount, 9);
}
