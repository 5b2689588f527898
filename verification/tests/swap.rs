use stoken::address::Address;
use stoken::errors::STokenSwapError;
use stoken::keys::VaultInitConfig;
use stoken::receipts::PeerVault;
use stoken::receipts::SwapAmounts;
use stoken::receipts::SwapSettlement;
use stoken::stoken::SToken;
use stoken::swap::compute_swap_amounts;

fn user(n: u128) -> Address {
    Address::account(0, n)
}

fn underlying() -> Address {
    Address::contract(0, 2)
}

fn asset_manager() -> Address {
    user(7)
}

fn source_address() -> Address {
    Address::contract(0, 100)
}

fn dest_address() -> Address {
    Address::contract(0, 200)
}

fn alice() -> Address {
    user(20)
}

fn config() -> VaultInitConfig {
    VaultInitConfig {
        authority: user(1),
        underlying_mint: underlying(),
        oracle: user(3),
        manager: user(4),
        processor: user(5),
        accountant: user(6),
        asset_manager: asset_manager(),
        deposit_fee_bps: 0,
        withdraw_fee_bps: 0,
        management_fee_bps_per_year: 0,
        max_total_shares: None,
        max_shares_per_user: None,
        max_total_idle: None,
        min_shares_to_mint: None,
        max_deviation_bps: None,
        price_update_cooldown_secs: None,
        price_acceptance_cooldown_secs: None,
        config_cooldown_secs: None,
        emergency_withdrawal_cooldown: None,
        role_change_cooldown_secs: None,
        fee_change_cooldown_secs: None,
        initial_price: None,
        whitelist_enabled: None,
        downside_cap_bps: None,
        withdrawal_ttl_secs: None,
        early_cancel_fee_bps: None,
        system_penalty_bps: None,
    }
}

/// A source vault with 5,000,000 shares at a price of one.
fn source() -> SToken {
    let mut vault = SToken::initialize(config(), source_address(), 1_000).unwrap();
    vault.deposit_core(5_000_000, alice(), None, None, 0, 7, 7).unwrap();
    vault
}

/// A destination vault at a price of 1.25 with 3,000,000 shares.
fn peer() -> PeerVault {
    PeerVault {
        address: dest_address(),
        underlying_mint: underlying(),
        paused: false,
        price: 12_500_000,
        asset_manager: asset_manager(),
        accountant: user(60),
        decimals: 7,
        whitelist_enabled: false,
        caller_whitelisted: false,
        min_shares_to_mint: 0,
        caller_balance: 0,
        total_shares: 3_000_000,
    }
}

#[test]
fn swap_amounts_exact_values() {
    assert_eq!(
        compute_swap_amounts(1_000_000, 10_000_000, 12_500_000, 100),
        Ok(SwapAmounts {
            underlying_value: 1_000_000,
            fee_amount: 10_000,
            underlying_value_after_fee: 990_000,
            destination_amount: 792_000,
            source_fee_tokens: 5_000,
            dest_fee_tokens: 4_000,
        })
    );
    assert_eq!(
        compute_swap_amounts(800_000, 12_500_000, 10_000_000, 10),
        Ok(SwapAmounts {
            underlying_value: 1_000_000,
            fee_amount: 1_000,
            underlying_value_after_fee: 999_000,
            destination_amount: 999_000,
            source_fee_tokens: 400,
            dest_fee_tokens: 500,
        })
    );
    assert_eq!(
        compute_swap_amounts(1_000, 10_000_000, 10_000_000, 0),
        Ok(SwapAmounts {
            underlying_value: 1_000,
            fee_amount: 0,
            underlying_value_after_fee: 1_000,
            destination_amount: 1_000,
            source_fee_tokens: 0,
            dest_fee_tokens: 0,
        })
    );
}

#[test]
fn swap_amounts_errors() {
    assert_eq!(
        compute_swap_amounts(u64::MAX, 20_000_000, 10_000_000, 10),
        Err(STokenSwapError::MathOverflow)
    );
    assert_eq!(
        compute_swap_amounts(1_000, 10_000_000, 0, 10),
        Err(STokenSwapError::MathOverflow)
    );
    assert_eq!(
        compute_swap_amounts(1_000_000, 0, 10_000_000, 10).map(|a| a.destination_amount),
        Ok(0)
    );
    assert_eq!(compute_swap_amounts(u64::MAX, 10_000_000, 1, 0), Err(STokenSwapError::MathOverflow));
    // a fee above the whole value
    assert_eq!(
        compute_swap_amounts(1_000, 10_000_000, 10_000_000, 20_000),
        Err(STokenSwapError::MathOverflow)
    );
}

#[test]
fn swap_settles_both_sides() {
    let mut vault = source();
    let settlement = vault.swap_tokens(alice(), peer(), 1_000_000, 100, 792_000, 5_000_000, 7);
    assert_eq!(
        settlement,
        Ok(SwapSettlement {
            authorizer: alice(),
            source_amount: 1_000_000,
            destination_amount: 792_000,
            underlying_value_after_fee: 990_000,
            fee_amount: 10_000,
            source_fee_tokens: 5_000,
            dest_fee_tokens: 4_000,
            source_accountant: user(6),
            dest_accountant: user(60),
            new_source_total_shares: 5_000_000 - 1_000_000 + 5_000,
            new_dest_total_shares: 3_000_000 + 792_000 + 4_000,
        })
    );
    assert_eq!(vault.total_shares(), 4_005_000);
    assert_eq!(vault.state.core.total_idle, 5_000_000);
    assert!(vault.is_well_formed());
}

#[test]
fn swap_fee_parts_value_back_to_the_fee() {
    let mut vault = source();
    let settlement =
        vault.swap_tokens(alice(), peer(), 1_000_000, 100, 0, 5_000_000, 7).unwrap();
    let source_back = settlement.source_fee_tokens as u128 * 10_000_000 / 10_000_000;
    let dest_back = settlement.dest_fee_tokens as u128 * 12_500_000 / 10_000_000;
    assert_eq!(source_back + dest_back, settlement.fee_amount as u128);
}

#[test]
fn swap_checks_the_vaults_against_each_other() {
    let mut vault = source();
    let before = vault.state;
    let mut same = peer();
    same.address = source_address();
    assert_eq!(
        vault.swap_tokens(alice(), same, 1_000, 10, 0, 5_000_000, 7),
        Err(STokenSwapError::InvalidSwapSameVault)
    );
    assert_eq!(
        vault.swap_tokens(alice(), peer(), 1_000, 101, 0, 5_000_000, 7),
        Err(STokenSwapError::InvalidSwapFee)
    );
    let mut other_underlying = peer();
    other_underlying.underlying_mint = Address::contract(0, 3);
    assert_eq!(
        vault.swap_tokens(alice(), other_underlying, 1_000, 10, 0, 5_000_000, 7),
        Err(STokenSwapError::UnderlyingMintMismatch)
    );
    let mut paused = peer();
    paused.paused = true;
    assert_eq!(
        vault.swap_tokens(alice(), paused, 1_000, 10, 0, 5_000_000, 7),
        Err(STokenSwapError::VaultPaused)
    );
    let mut no_price = peer();
    no_price.price = 0;
    assert_eq!(
        vault.swap_tokens(alice(), no_price, 1_000, 10, 0, 5_000_000, 7),
        Err(STokenSwapError::MathOverflow)
    );
    let mut other_manager = peer();
    other_manager.asset_manager = user(70);
    assert_eq!(
        vault.swap_tokens(alice(), other_manager, 1_000, 10, 0, 5_000_000, 7),
        Err(STokenSwapError::AssetManagerMismatch)
    );
    let mut other_decimals = peer();
    other_decimals.decimals = 6;
    assert_eq!(
        vault.swap_tokens(alice(), other_decimals, 1_000, 10, 0, 5_000_000, 7),
        Err(STokenSwapError::TokenDecimalMismatch)
    );
    let mut whitelisting = peer();
    whitelisting.whitelist_enabled = true;
    assert_eq!(
        vault.swap_tokens(alice(), whitelisting, 1_000, 10, 0, 5_000_000, 7),
        Err(STokenSwapError::UserNotWhitelisted)
    );
    whitelisting.caller_whitelisted = true;
    assert!(vault.swap_tokens(alice(), whitelisting, 1_000, 10, 0, 5_000_000, 7).is_ok());
    let after_one = vault.state;
    assert_ne!(after_one, before);
    assert_eq!(
        vault.swap_tokens(alice(), peer(), 1_000_000, 100, 792_001, 5_000_000, 7),
        Err(STokenSwapError::SlippageNotMet)
    );
    let mut full = peer();
    full.total_shares = u64::MAX - 795_999;
    assert_eq!(
        vault.swap_tokens(alice(), full, 1_000_000, 100, 0, 5_000_000, 7),
        Err(STokenSwapError::MathOverflow)
    );
    assert_eq!(
        vault.swap_tokens(alice(), peer(), 5_000_000, 100, 0, 5_000_000, 7),
        Err(STokenSwapError::MathOverflow)
    );
    assert_eq!(vault.state, after_one);
    vault.pause_vault().unwrap();
    assert_eq!(
        vault.swap_tokens(alice(), peer(), 1_000, 10, 0, 5_000_000, 7),
        Err(STokenSwapError::VaultPaused)
    );
}

#[test]
fn swap_needs_a_whitelisted_user_in_the_source() {
    let mut custom = config();
    custom.whitelist_enabled = Some(true);
    let mut vault = SToken::initialize(custom, source_address(), 1_000).unwrap();
    vault.add_user_to_whitelist(alice()).unwrap();
    vault.deposit_core(5_000_000, alice(), None, None, 0, 7, 7).unwrap();
    assert_eq!(
        vault.swap_tokens(user(21), peer(), 1_000, 10, 0, 5_000_000, 7),
        Err(STokenSwapError::UserNotWhitelisted)
    );
    assert!(vault.swap_tokens(alice(), peer(), 1_000, 10, 0, 5_000_000, 7).is_ok());
}

#[test]
fn swap_keeps_holdings_empty_or_at_least_the_minimum() {
    let mut custom = config();
    custom.min_shares_to_mint = Some(1_000);
    let mut vault = SToken::initialize(custom, source_address(), 1_000).unwrap();
    vault.deposit_core(5_000_000, alice(), None, None, 0, 7, 7).unwrap();
    // 999 would stay behind
    assert_eq!(
        vault.swap_tokens(alice(), peer(), 9_001, 0, 0, 10_000, 7),
        Err(STokenSwapError::MinimumSharesNotMet)
    );
    // more than is held
    assert_eq!(
        vault.swap_tokens(alice(), peer(), 10_001, 0, 0, 10_000, 7),
        Err(STokenSwapError::MathOverflow)
    );
    assert!(vault.swap_tokens(alice(), peer(), 9_000, 0, 0, 10_000, 7).is_ok());
    assert!(vault.swap_tokens(alice(), peer(), 10_000, 0, 0, 10_000, 7).is_ok());
    let mut demanding = peer();
    demanding.min_shares_to_mint = 1_000;
    // 1,000 shares at one buy 800 at 1.25
    assert_eq!(
        vault.swap_tokens(alice(), demanding, 1_000, 0, 0, 10_000, 7),
        Err(STokenSwapError::MinimumSharesNotMet)
    );
    demanding.caller_balance = 200;
    assert!(vault.swap_tokens(alice(), demanding, 1_000, 0, 0, 10_000, 7).is_ok());
    demanding.caller_balance = u64::MAX;
    assert_eq!(
        vault.swap_tokens(alice(), demanding, 1_000, 0, 0, 10_000, 7),
        Err(STokenSwapError::MathOverflow)
    );
}

#[test]
fn swap_then_mint_through_the_allowlist() {
    let mut source = source();
    let mut custom = config();
    custom.initial_price = Some(12_500_000);
    custom.accountant = user(60);
    let mut dest = SToken::initialize(custom, dest_address(), 1_000).unwrap();
    dest.accept_allowlist_mint(source_address(), source.asset_manager()).unwrap();
    let snapshot = PeerVault {
        address: dest.vault,
        underlying_mint: dest.query_asset(),
        paused: dest.is_paused(),
        price: dest.price(),
        asset_manager: dest.asset_manager(),
        accountant: dest.accountant(),
        decimals: 7,
        whitelist_enabled: dest.whitelist_enabled(),
        caller_whitelisted: dest.is_whitelisted(alice()),
        min_shares_to_mint: dest.min_shares_to_mint(),
        caller_balance: 0,
        total_shares: dest.total_shares(),
    };
    let settlement =
        source.swap_tokens(alice(), snapshot, 1_000_000, 100, 0, 5_000_000, 7).unwrap();
    let minted = dest.mint_core(source_address(), alice(), settlement.destination_amount).unwrap();
    assert_eq!(minted.amount, 792_000);
    let fee =
        dest.mint_core(source_address(), settlement.dest_accountant, settlement.dest_fee_tokens);
    assert_eq!(fee.unwrap().to, user(60));
    dest.write_vault_total_shares(source_address(), settlement.new_dest_total_shares).unwrap();
    assert_eq!(dest.total_shares(), 796_000);
    assert_eq!(source.total_shares(), 4_005_000);
}
