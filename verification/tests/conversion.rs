use stoken::constants::PRICE_PRECISION;
use stoken::errors::STokenCoreError;
use stoken::utils::amount_to_shares_core;
use stoken::utils::amount_to_shares_with_decimals;
use stoken::utils::shares_to_amount_core;
use stoken::utils::shares_to_amount_with_decimals;

#[test]
fn amount_to_shares_exact_values() {
    assert_eq!(amount_to_shares_core(1_000_000_000, PRICE_PRECISION, 7, 7), Ok(1_000_000_000));
    assert_eq!(amount_to_shares_core(1_000_000_000, 12_500_000, 7, 7), Ok(800_000_000));
    assert_eq!(amount_to_shares_core(199, 1_000_000_000, 7, 7), Ok(1));
    assert_eq!(amount_to_shares_core(u64::MAX, PRICE_PRECISION, 7, 7), Ok(u64::MAX));
}

#[test]
fn amount_to_shares_scales_by_decimals() {
    // shares have one decimal more: multiplied by ten
    assert_eq!(amount_to_shares_core(1_000_000_000, 12_500_000, 6, 7), Ok(8_000_000_000));
    // shares have one decimal fewer: divided by ten
    assert_eq!(amount_to_shares_core(1_000_000_000, 12_500_000, 7, 6), Ok(80_000_000));
    // the division truncates before the price is applied
    assert_eq!(amount_to_shares_core(19, PRICE_PRECISION, 8, 7), Ok(1));
}

#[test]
fn amount_to_shares_errors() {
    assert_eq!(amount_to_shares_core(5, 0, 7, 7), Err(STokenCoreError::InvalidPrice));
    assert_eq!(amount_to_shares_core(0, 0, 7, 7), Err(STokenCoreError::InvalidPrice));
    assert_eq!(amount_to_shares_core(0, 5, 7, 7), Err(STokenCoreError::InvalidAmount));
    assert_eq!(amount_to_shares_core(u64::MAX, 1, 7, 7), Err(STokenCoreError::MathOverflow));
    assert_eq!(
        amount_to_shares_core(u64::MAX, PRICE_PRECISION, 7, 8),
        Err(STokenCoreError::MathOverflow)
    );
    assert_eq!(
        amount_to_shares_core(1, 20_000_000, 7, 7),
        Err(STokenCoreError::ZeroAmountCalculated)
    );
    assert_eq!(
        amount_to_shares_core(12_345, PRICE_PRECISION, 18, 7),
        Err(STokenCoreError::ZeroAmountCalculated)
    );
}

#[test]
fn amount_to_shares_with_any_decimals() {
    // a power of ten beyond 128 bits: the product is not representable
    assert_eq!(
        amount_to_shares_core(1, PRICE_PRECISION, 0, 39),
        Err(STokenCoreError::MathOverflow)
    );
    assert_eq!(
        amount_to_shares_core(1, u64::MAX, 0, u32::MAX),
        Err(STokenCoreError::MathOverflow)
    );
    // divided by it, every amount is zero
    assert_eq!(
        amount_to_shares_core(u64::MAX, 1, 39, 0),
        Err(STokenCoreError::ZeroAmountCalculated)
    );
    assert_eq!(
        amount_to_shares_core(u64::MAX, 1, u32::MAX, 0),
        Err(STokenCoreError::ZeroAmountCalculated)
    );
    // the largest power of ten within 128 bits is 10^38
    assert_eq!(
        amount_to_shares_core(u64::MAX, 1, 38, 0),
        Err(STokenCoreError::ZeroAmountCalculated)
    );
    // 10^19 / 10^19 = 1 share at a price of one
    assert_eq!(
        amount_to_shares_core(10_000_000_000_000_000_000, PRICE_PRECISION, 19, 0),
        Ok(1)
    );
}

#[test]
fn shares_to_amount_exact_values() {
    assert_eq!(shares_to_amount_core(1_000_000_000, PRICE_PRECISION, 7, 7), Ok(1_000_000_000));
    assert_eq!(shares_to_amount_core(1_000_000_000, 12_500_000, 7, 7), Ok(1_250_000_000));
    assert_eq!(shares_to_amount_core(800_000_000, 12_500_000, 6, 7), Ok(100_000_000));
    assert_eq!(shares_to_amount_core(80_000_000, 12_500_000, 7, 6), Ok(1_000_000_000));
    assert_eq!(shares_to_amount_core(u64::MAX, PRICE_PRECISION, 7, 7), Ok(u64::MAX));
}

#[test]
fn shares_to_amount_errors() {
    assert_eq!(shares_to_amount_core(5, 0, 7, 7), Err(STokenCoreError::InvalidPrice));
    assert_eq!(shares_to_amount_core(0, 5, 7, 7), Err(STokenCoreError::InvalidAmount));
    assert_eq!(
        shares_to_amount_core(u64::MAX, 20_000_000, 7, 7),
        Err(STokenCoreError::MathOverflow)
    );
    assert_eq!(
        shares_to_amount_core(3, 3_333_333, 7, 7),
        Err(STokenCoreError::ZeroAmountCalculated)
    );
    assert_eq!(
        shares_to_amount_core(5, PRICE_PRECISION, 7, 9),
        Err(STokenCoreError::ZeroAmountCalculated)
    );
    assert_eq!(
        shares_to_amount_core(5, PRICE_PRECISION, 39, 0),
        Err(STokenCoreError::MathOverflow)
    );
    // a value of zero stays zero whatever it is multiplied by
    assert_eq!(
        shares_to_amount_core(1, 1, u32::MAX, 0),
        Err(STokenCoreError::ZeroAmountCalculated)
    );
    assert_eq!(
        shares_to_amount_core(u64::MAX, u64::MAX, 0, u32::MAX),
        Err(STokenCoreError::ZeroAmountCalculated)
    );
}

#[test]
fn with_decimals_is_the_core_conversion() {
    for (amount, price, underlying, shares) in [
        (1_000_000_000u64, 12_500_000u64, 7u32, 7u32),
        (1, 20_000_000, 7, 7),
        (u64::MAX, 1, 7, 7),
        (19, PRICE_PRECISION, 8, 7),
        (0, 1, 1, 1),
        (1, 0, 1, 1),
    ] {
        assert_eq!(
            amount_to_shares_with_decimals(amount, price, underlying, shares),
            amount_to_shares_core(amount, price, underlying, shares)
        );
        assert_eq!(
            shares_to_amount_with_decimals(amount, price, underlying, shares),
            shares_to_amount_core(amount, price, underlying, shares)
        );
    }
}

#[test]
fn round_trip_stays_within_one_unit_when_a_share_is_worth_at_most_one_unit() {
    for price in [1_000u64, 3_333_333, 9_999_999, PRICE_PRECISION] {
        for amount in [1u64, 2, 3, 10, 999, 123_456_789, 1_000_000_000_007] {
            if let Ok(shares) = amount_to_shares_core(amount, price, 7, 7) {
                match shares_to_amount_core(shares, price, 7, 7) {
                    Ok(back) => {
                        assert!(back <= amount);
                        assert!(amount - back <= 1);
                    }
                    Err(e) => {
                        assert_eq!(e, STokenCoreError::ZeroAmountCalculated);
                        assert_eq!(amount, 1);
                    }
                }
            }
        }
    }
}

#[test]
fn round_trip_with_more_share_decimals() {
    // ten share units to one unit of underlying: exact at a price of one
    let shares = amount_to_shares_core(123_456, PRICE_PRECISION, 6, 7).unwrap();
    assert_eq!(shares, 1_234_560);
    assert_eq!(shares_to_amount_core(shares, PRICE_PRECISION, 6, 7), Ok(123_456));
}

#[test]
fn round_trip_loses_less_than_one_share() {
    // one share is worth 100 units: 199 units buy one share, worth 100
    let shares = amount_to_shares_core(199, 1_000_000_000, 7, 7).unwrap();
    assert_eq!(shares, 1);
    assert_eq!(shares_to_amount_core(shares, 1_000_000_000, 7, 7), Ok(100));
    // fewer share decimals: the amount is truncated to a multiple of ten
    let shares = amount_to_shares_core(19, PRICE_PRECISION, 8, 7).unwrap();
    assert_eq!(shares_to_amount_core(shares, PRICE_PRECISION, 8, 7), Ok(10));
}
