use stoken::constants::MAX_FEE_BPS;
use stoken::constants::MAX_MANAGEMENT_FEE_BPS_PER_YEAR;
use stoken::constants::SECONDS_PER_YEAR;
use stoken::errors::STokenCoreError;
use stoken::utils::apply_basis_points;
use stoken::utils::apply_fee;
use stoken::utils::calculate_management_fee;
use stoken::utils::calculate_price_deviation;
use stoken::utils::calculate_split_fee_tokens;
use stoken::utils::check_max_shares_per_user;
use stoken::utils::check_max_total_idle_for_deposit;
use stoken::utils::check_max_total_shares;
use stoken::utils::has_elapsed;
use stoken::utils::mul_div_u64_to_u64;
use stoken::utils::validate_fees;
use stoken::utils::validate_new_limits;

#[test]
fn fee_parts_add_up() {
    assert_eq!(apply_fee(1_000_000, 100), Ok((990_000, 10_000)));
    assert_eq!(apply_fee(123_456_789, 37), Ok((122_999_999, 456_790)));
    assert_eq!(apply_fee(1_000_000_000, 25), Ok((997_500_000, 2_500_000)));
    assert_eq!(apply_fee(999, 999), Ok((899, 100)));
}

#[test]
fn fee_rate_above_ceiling_is_rejected() {
    assert_eq!(apply_fee(1_000_000, MAX_FEE_BPS + 1), Err(STokenCoreError::InvalidFee));
    assert_eq!(apply_fee(0, u32::MAX), Err(STokenCoreError::InvalidFee));
    assert!(apply_fee(1_000_000, MAX_FEE_BPS).is_ok());
}

#[test]
fn fee_ties_round_to_even() {
    // 150 * 100 / 10000 = 1.5 -> 2
    assert_eq!(apply_fee(150, 100), Ok((148, 2)));
    // 250 * 100 / 10000 = 2.5 -> 2
    assert_eq!(apply_fee(250, 100), Ok((248, 2)));
    // 350 * 100 / 10000 = 3.5 -> 4
    assert_eq!(apply_fee(350, 100), Ok((346, 4)));
}

#[test]
fn fee_rounds_to_nearest() {
    // 1.51 -> 2
    assert_eq!(apply_fee(151, 100), Ok((149, 2)));
    // 1.49 -> 1
    assert_eq!(apply_fee(149, 100), Ok((148, 1)));
}

#[test]
fn fee_is_at_least_one_unit() {
    // 0.5 ties to 0, then the minimum applies
    assert_eq!(apply_fee(50, 100), Ok((49, 1)));
    assert_eq!(apply_fee(1, 1), Ok((0, 1)));
    assert_eq!(apply_fee(1, 1_000), Ok((0, 1)));
    assert_eq!(apply_fee(9, 10), Ok((8, 1)));
}

#[test]
fn fee_is_zero_only_for_zero_rate_or_amount() {
    assert_eq!(apply_fee(0, 100), Ok((0, 0)));
    assert_eq!(apply_fee(0, 0), Ok((0, 0)));
    assert_eq!(apply_fee(777, 0), Ok((777, 0)));
    assert_eq!(apply_fee(u64::MAX, 0), Ok((u64::MAX, 0)));
    for amount in 1u64..200 {
        for bps in 1u32..40 {
            let (after, fee) = apply_fee(amount, bps * 25).unwrap();
            assert!(fee > 0);
            assert_eq!(after + fee, amount);
        }
    }
}

#[test]
fn fee_on_the_largest_amount() {
    assert_eq!(
        apply_fee(u64::MAX, 1_000),
        Ok((16_602_069_666_338_596_453, 1_844_674_407_370_955_162))
    );
    assert_eq!(
        apply_fee(u64::MAX, 1),
        Ok((18_444_899_399_302_180_660, 1_844_674_407_370_955))
    );
}

#[test]
fn management_fee_exact_values() {
    // 2% a year for one year on 1e9: 1e9 * 0.02 / 1.02
    assert_eq!(calculate_management_fee(1_000_000_000, 200, SECONDS_PER_YEAR), Ok(19_607_843));
    assert_eq!(calculate_management_fee(1_000_000_000_000, 500, 86_400), Ok(136_967_538));
    assert_eq!(
        calculate_management_fee(u64::MAX, 500, SECONDS_PER_YEAR),
        Ok(878_416_384_462_359_600)
    );
    assert_eq!(calculate_management_fee(1, 500, 1), Ok(0));
}

#[test]
fn management_fee_is_zero_for_a_zero_input() {
    assert_eq!(calculate_management_fee(0, 500, 1_000), Ok(0));
    assert_eq!(calculate_management_fee(1_000, 0, 1_000), Ok(0));
    assert_eq!(calculate_management_fee(1_000, 500, 0), Ok(0));
}

#[test]
fn management_fee_errors() {
    assert_eq!(
        calculate_management_fee(1_000, MAX_MANAGEMENT_FEE_BPS_PER_YEAR + 1, 1_000),
        Err(STokenCoreError::InvalidFee)
    );
    assert_eq!(
        calculate_management_fee(0, MAX_MANAGEMENT_FEE_BPS_PER_YEAR + 1, 0),
        Err(STokenCoreError::InvalidFee)
    );
    // total * rate * elapsed beyond 128 bits
    assert_eq!(
        calculate_management_fee(u64::MAX, 500, u64::MAX),
        Err(STokenCoreError::MathOverflow)
    );
}

#[test]
fn price_deviation_exact_values() {
    assert_eq!(calculate_price_deviation(10_000_000, 10_500_000), Ok(500));
    assert_eq!(calculate_price_deviation(10_000_000, 10_500_001), Ok(500));
    assert_eq!(calculate_price_deviation(10_000_000, 9_000_000), Ok(1_000));
    assert_eq!(calculate_price_deviation(10_000_000, 10_000_000), Ok(0));
    assert_eq!(calculate_price_deviation(3, 4), Ok(3_333));
}

#[test]
fn price_deviation_saturates() {
    assert_eq!(calculate_price_deviation(1, u64::MAX), Ok(u32::MAX));
}

#[test]
fn price_deviation_rejects_zero_prices() {
    assert_eq!(calculate_price_deviation(0, 5), Err(STokenCoreError::InvalidPrice));
    assert_eq!(calculate_price_deviation(5, 0), Err(STokenCoreError::InvalidPrice));
    assert_eq!(calculate_price_deviation(0, 0), Err(STokenCoreError::InvalidPrice));
}

#[test]
fn basis_points_exact_values() {
    assert_eq!(apply_basis_points(1_000, 50), Ok(5));
    assert_eq!(apply_basis_points(199, 50), Ok(0));
    assert_eq!(apply_basis_points(1_000_000, 9_500), Ok(950_000));
    assert_eq!(apply_basis_points(u64::MAX, 10_000), Ok(u64::MAX));
    assert_eq!(apply_basis_points(12_345, 0), Ok(0));
    assert_eq!(apply_basis_points(u64::MAX, 10_001), Err(STokenCoreError::MathOverflow));
}

#[test]
fn mul_div_exact_values() {
    assert_eq!(mul_div_u64_to_u64(6, 7, 2), Ok(21));
    assert_eq!(mul_div_u64_to_u64(7, 7, 2), Ok(24));
    assert_eq!(mul_div_u64_to_u64(u64::MAX, u64::MAX, u64::MAX), Ok(u64::MAX));
    assert_eq!(mul_div_u64_to_u64(0, 9, 4), Ok(0));
}

#[test]
fn mul_div_errors() {
    assert_eq!(mul_div_u64_to_u64(1, 1, 0), Err(STokenCoreError::InvalidPrice));
    assert_eq!(mul_div_u64_to_u64(u64::MAX, 2, 1), Err(STokenCoreError::MathOverflow));
}

#[test]
fn split_fee_halves_and_converts() {
    assert_eq!(calculate_split_fee_tokens(0, 0, 0), Ok((0, 0)));
    assert_eq!(calculate_split_fee_tokens(1_000, 10_000_000, 10_000_000), Ok((500, 500)));
    // the odd unit goes to the destination; each half at its own price
    assert_eq!(calculate_split_fee_tokens(1_001, 12_500_000, 8_000_000), Ok((400, 626)));
}

#[test]
fn split_fee_errors() {
    assert_eq!(calculate_split_fee_tokens(10, 0, 10_000_000), Err(STokenCoreError::InvalidPrice));
    assert_eq!(calculate_split_fee_tokens(10, 10_000_000, 0), Err(STokenCoreError::InvalidPrice));
    assert_eq!(calculate_split_fee_tokens(u64::MAX, 1, 1), Err(STokenCoreError::MathOverflow));
}

#[test]
fn split_fee_values_back_within_the_fee() {
    let prices = [1u64, 3_333_333, 9_999_999, 10_000_000];
    for fee in [1u64, 2, 3, 17, 1_001, 999_999, 123_456_789] {
        for source_price in prices {
            for dest_price in prices {
                let (source, dest) =
                    calculate_split_fee_tokens(fee, source_price, dest_price).unwrap();
                let source_back = (source as u128 * source_price as u128 / 10_000_000) as u64;
                let dest_back = (dest as u128 * dest_price as u128 / 10_000_000) as u64;
                assert!(source_back <= fee / 2);
                assert!(dest_back <= fee - fee / 2);
                assert!(fee / 2 - source_back <= 1);
                assert!(fee - fee / 2 - dest_back <= 1);
            }
        }
    }
}

#[test]
fn fee_rates_are_validated() {
    assert_eq!(validate_fees(0, 0, 0), Ok(()));
    assert_eq!(validate_fees(1_000, 1_000, 500), Ok(()));
    assert_eq!(validate_fees(1_001, 0, 0), Err(STokenCoreError::InvalidFee));
    assert_eq!(validate_fees(0, 1_001, 0), Err(STokenCoreError::InvalidFee));
    assert_eq!(validate_fees(0, 0, 501), Err(STokenCoreError::InvalidFee));
}

#[test]
fn limits_are_validated() {
    assert_eq!(validate_new_limits(None, None, None, None), Ok(()));
    assert_eq!(
        validate_new_limits(
            Some(10_000_000_000_000_000),
            Some(100_000_000_000_000),
            Some(100_000_000_000_000_000),
            Some(100_000_000_000_000)
        ),
        Ok(())
    );
    assert_eq!(
        validate_new_limits(Some(10_000_000_000_000_001), None, None, None),
        Err(STokenCoreError::LimitExceedsMaximum)
    );
    assert_eq!(
        validate_new_limits(None, Some(100_000_000_000_001), None, None),
        Err(STokenCoreError::LimitExceedsMaximum)
    );
    assert_eq!(
        validate_new_limits(None, None, Some(100_000_000_000_000_001), None),
        Err(STokenCoreError::LimitExceedsMaximum)
    );
    assert_eq!(
        validate_new_limits(None, None, None, Some(1_000_000_000_000_001)),
        Err(STokenCoreError::LimitExceedsMaximum)
    );
    assert_eq!(
        validate_new_limits(Some(100), Some(101), None, None),
        Err(STokenCoreError::InvalidLimit)
    );
    assert_eq!(
        validate_new_limits(None, Some(100), None, Some(101)),
        Err(STokenCoreError::InvalidLimit)
    );
    // a ceiling violation is reported before an ordering violation
    assert_eq!(
        validate_new_limits(Some(100), Some(100_000_000_000_001), None, None),
        Err(STokenCoreError::LimitExceedsMaximum)
    );
}

#[test]
fn limit_checks() {
    assert_eq!(check_max_total_idle_for_deposit(90, 10, 100), Ok(()));
    assert_eq!(
        check_max_total_idle_for_deposit(90, 11, 100),
        Err(STokenCoreError::MaxTotalIdleExceeded)
    );
    assert_eq!(
        check_max_total_idle_for_deposit(u64::MAX, 1, 100),
        Err(STokenCoreError::MathOverflow)
    );
    assert_eq!(check_max_total_idle_for_deposit(u64::MAX, 1, u64::MAX), Ok(()));

    assert_eq!(check_max_total_shares(90, 10, 100), Ok(()));
    assert_eq!(check_max_total_shares(90, 11, 100), Err(STokenCoreError::MaxTotalSharesExceeded));
    assert_eq!(check_max_total_shares(u64::MAX, 1, 100), Err(STokenCoreError::MathOverflow));
    assert_eq!(check_max_total_shares(u64::MAX, u64::MAX, u64::MAX), Ok(()));

    assert_eq!(check_max_shares_per_user(90, 10, 100), Ok(()));
    assert_eq!(
        check_max_shares_per_user(90, 11, 100),
        Err(STokenCoreError::MaxSharesPerUserExceeded)
    );
    assert_eq!(check_max_shares_per_user(u64::MAX, 1, 100), Err(STokenCoreError::MathOverflow));
    assert_eq!(check_max_shares_per_user(5, u64::MAX, u64::MAX), Ok(()));
}

#[test]
fn elapsed_never_overflows() {
    assert!(has_elapsed(100, 40, 60));
    assert!(!has_elapsed(99, 40, 60));
    assert!(!has_elapsed(10, 40, 0));
    assert!(has_elapsed(40, 40, 0));
    assert!(!has_elapsed(u64::MAX, u64::MAX, 1));
    assert!(!has_elapsed(u64::MAX, 1, u64::MAX));
    assert!(has_elapsed(u64::MAX, 0, u64::MAX));
}
