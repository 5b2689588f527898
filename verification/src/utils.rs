//! Fixed-point conversion between amounts and shares, fee arithmetic and
//! limit checks.
//!
//! Every function is total: an input that cannot be served is answered with
//! an error, never with a wrapped or truncated number. What each function
//! returns is stated as a function over the mathematical integers.

use vstd::prelude::*;
use vstd::arithmetic::power::pow;
use vstd::arithmetic::power::lemma_pow0;
use vstd::arithmetic::power::lemma_pow_positive;
use vstd::arithmetic::power::lemma_pow_increases;
use vstd::arithmetic::power::lemma_pow_adds;
use vstd::arithmetic::power::lemma_pow1;
use crate::constants::BPS_PRECISION;
use crate::constants::MAX_ALLOWED_MIN_SHARES_TO_MINT;
use crate::constants::MAX_ALLOWED_SHARES_PER_USER;
use crate::constants::MAX_ALLOWED_TOTAL_IDLE;
use crate::constants::MAX_ALLOWED_TOTAL_SHARES;
use crate::constants::MAX_FEE_BPS;
use crate::constants::MAX_MANAGEMENT_FEE_BPS_PER_YEAR;
use crate::constants::MIN_FEE_THRESHOLD;
use crate::constants::PRICE_PRECISION;
use crate::constants::SECONDS_PER_YEAR;
use crate::errors::STokenCoreError;
use crate::math::lemma_convert_and_back;
use crate::math::lemma_product_bound;
use crate::math::lemma_quotient_beyond_u64;
use crate::math::lemma_quotient_bounds;
use crate::math::lemma_quotient_monotone;
use crate::math::lemma_quotient_zero;

verus! {

/// Absolute deviation of `new_price` from `old_price` in basis points of
/// `old_price`, truncated, and capped at `u32::MAX`.
pub open spec fn deviation_bps(old_price: int, new_price: int) -> int {
    let distance = if new_price >= old_price {
        new_price - old_price
    } else {
        old_price - new_price
    };
    let bps = distance * (BPS_PRECISION as int) / old_price;
    if bps > u32::MAX as int {
        u32::MAX as int
    } else {
        bps
    }
}

/// What [`calculate_price_deviation`] returns.
pub open spec fn price_deviation(old_price: u64, new_price: u64) -> Result<u32, STokenCoreError> {
    if old_price == 0 || new_price == 0 {
        Err(STokenCoreError::InvalidPrice)
    } else {
        Ok(deviation_bps(old_price as int, new_price as int) as u32)
    }
}

/// Deviation of a new price from the old one, in basis points.
///
/// Fails with `InvalidPrice` exactly when one of the prices is zero.
pub fn calculate_price_deviation(old_price: u64, new_price: u64) -> (result: Result<
    u32,
    STokenCoreError,
>)
    ensures
        result == price_deviation(old_price, new_price),
{
    if old_price == 0 || new_price == 0 {
        return Err(STokenCoreError::InvalidPrice);
    }
    let distance: u64 = if new_price > old_price {
        new_price - old_price
    } else {
        old_price - new_price
    };
    proof {
        lemma_product_bound(distance as int, BPS_PRECISION as int, u64::MAX as int, 10_000);
    }
    let scaled: u128 = (distance as u128) * (BPS_PRECISION as u128);
    let bps: u128 = scaled / (old_price as u128);
    if bps > u32::MAX as u128 {
        Ok(u32::MAX)
    } else {
        Ok(bps as u32)
    }
}

/// Whether the three fee rates are within their ceilings.
pub open spec fn fees_valid(
    deposit_fee_bps: u32,
    withdraw_fee_bps: u32,
    management_fee_bps_per_year: u32,
) -> bool {
    &&& deposit_fee_bps <= MAX_FEE_BPS
    &&& withdraw_fee_bps <= MAX_FEE_BPS
    &&& management_fee_bps_per_year <= MAX_MANAGEMENT_FEE_BPS_PER_YEAR
}

/// Checks the three fee rates against their ceilings.
///
/// Fails with `InvalidFee` exactly when one of them is above its ceiling.
pub fn validate_fees(
    deposit_fee_bps: u32,
    withdraw_fee_bps: u32,
    management_fee_bps_per_year: u32,
) -> (result: Result<(), STokenCoreError>)
    ensures
        fees_valid(deposit_fee_bps, withdraw_fee_bps, management_fee_bps_per_year) ==> result
            == Ok::<(), STokenCoreError>(()),
        !fees_valid(deposit_fee_bps, withdraw_fee_bps, management_fee_bps_per_year) ==> result
            == Err::<(), STokenCoreError>(STokenCoreError::InvalidFee),
{
    if deposit_fee_bps > MAX_FEE_BPS {
        return Err(STokenCoreError::InvalidFee);
    }
    if withdraw_fee_bps > MAX_FEE_BPS {
        return Err(STokenCoreError::InvalidFee);
    }
    if management_fee_bps_per_year > MAX_MANAGEMENT_FEE_BPS_PER_YEAR {
        return Err(STokenCoreError::InvalidFee);
    }
    Ok(())
}

/// Whether a proposed limit, if any, is at most `ceiling`.
pub open spec fn within_ceiling(limit: Option<u64>, ceiling: u64) -> bool {
    match limit {
        Some(value) => value <= ceiling,
        None => true,
    }
}

/// Whether both limits are given and the first is above the second.
pub open spec fn exceeds(lower: Option<u64>, upper: Option<u64>) -> bool {
    match (lower, upper) {
        (Some(l), Some(u)) => l > u,
        _ => false,
    }
}

/// What [`validate_new_limits`] returns: each given limit must be within its
/// absolute ceiling (`LimitExceedsMaximum` otherwise), the per-user limit must
/// not exceed the total limit and the minimum holding must not exceed the
/// per-user limit (`InvalidLimit` otherwise).
pub open spec fn new_limits_check(
    max_total_shares: Option<u64>,
    max_shares_per_user: Option<u64>,
    max_total_idle: Option<u64>,
    min_shares_to_mint: Option<u64>,
) -> Result<(), STokenCoreError> {
    if !within_ceiling(max_total_shares, MAX_ALLOWED_TOTAL_SHARES) || !within_ceiling(
        max_shares_per_user,
        MAX_ALLOWED_SHARES_PER_USER,
    ) || !within_ceiling(max_total_idle, MAX_ALLOWED_TOTAL_IDLE) || !within_ceiling(
        min_shares_to_mint,
        MAX_ALLOWED_MIN_SHARES_TO_MINT,
    ) {
        Err(STokenCoreError::LimitExceedsMaximum)
    } else if exceeds(max_shares_per_user, max_total_shares) || exceeds(
        min_shares_to_mint,
        max_shares_per_user,
    ) {
        Err(STokenCoreError::InvalidLimit)
    } else {
        Ok(())
    }
}

/// Checks proposed limits; `None` stands for a limit that is not proposed.
pub fn validate_new_limits(
    max_total_shares: Option<u64>,
    max_shares_per_user: Option<u64>,
    max_total_idle: Option<u64>,
    min_shares_to_mint: Option<u64>,
) -> (result: Result<(), STokenCoreError>)
    ensures
        result == new_limits_check(
            max_total_shares,
            max_shares_per_user,
            max_total_idle,
            min_shares_to_mint,
        ),
{
    if let Some(total_shares) = max_total_shares {
        if total_shares > MAX_ALLOWED_TOTAL_SHARES {
            return Err(STokenCoreError::LimitExceedsMaximum);
        }
    }
    if let Some(shares_per_user) = max_shares_per_user {
        if shares_per_user > MAX_ALLOWED_SHARES_PER_USER {
            return Err(STokenCoreError::LimitExceedsMaximum);
        }
    }
    if let Some(total_idle) = max_total_idle {
        if total_idle > MAX_ALLOWED_TOTAL_IDLE {
            return Err(STokenCoreError::LimitExceedsMaximum);
        }
    }
    if let Some(min_shares) = min_shares_to_mint {
        if min_shares > MAX_ALLOWED_MIN_SHARES_TO_MINT {
            return Err(STokenCoreError::LimitExceedsMaximum);
        }
    }
    if let Some(total_limit) = max_total_shares {
        if let Some(user_limit) = max_shares_per_user {
            if user_limit > total_limit {
                return Err(STokenCoreError::InvalidLimit);
            }
        }
    }
    if let Some(user_limit) = max_shares_per_user {
        if let Some(min_shares) = min_shares_to_mint {
            if min_shares > user_limit {
                return Err(STokenCoreError::InvalidLimit);
            }
        }
    }
    Ok(())
}

/// Outcome of adding `additional` to `current` under `limit`, where a limit
/// of `u64::MAX` stands for no limit: an overflowing sum is `MathOverflow`,
/// a sum above the limit is `exceeded`.
pub open spec fn limit_check(
    current: u64,
    additional: u64,
    limit: u64,
    exceeded: STokenCoreError,
) -> Result<(), STokenCoreError> {
    if limit == u64::MAX {
        Ok(())
    } else if current + additional > u64::MAX {
        Err(STokenCoreError::MathOverflow)
    } else if current + additional > limit {
        Err(exceeded)
    } else {
        Ok(())
    }
}

/// The error of [`limit_check`], if any.
pub open spec fn limit_error(
    current: u64,
    additional: u64,
    limit: u64,
    exceeded: STokenCoreError,
) -> Option<STokenCoreError> {
    match limit_check(current, additional, limit, exceeded) {
        Err(e) => Some(e),
        Ok(_) => None,
    }
}

/// Checks that a deposit keeps the idle funds within their limit.
pub fn check_max_total_idle_for_deposit(
    current_total_idle: u64,
    deposit_amount: u64,
    max_total_idle: u64,
) -> (result: Result<(), STokenCoreError>)
    ensures
        result == limit_check(
            current_total_idle,
            deposit_amount,
            max_total_idle,
            STokenCoreError::MaxTotalIdleExceeded,
        ),
{
    if max_total_idle == u64::MAX {
        return Ok(());
    }
    match current_total_idle.checked_add(deposit_amount) {
        None => Err(STokenCoreError::MathOverflow),
        Some(new_total_idle) => {
            if new_total_idle > max_total_idle {
                Err(STokenCoreError::MaxTotalIdleExceeded)
            } else {
                Ok(())
            }
        },
    }
}

/// Checks that minting keeps the total shares within their limit.
pub fn check_max_total_shares(
    current_total_shares: u64,
    additional_shares: u64,
    max_total_shares: u64,
) -> (result: Result<(), STokenCoreError>)
    ensures
        result == limit_check(
            current_total_shares,
            additional_shares,
            max_total_shares,
            STokenCoreError::MaxTotalSharesExceeded,
        ),
{
    if max_total_shares == u64::MAX {
        return Ok(());
    }
    match current_total_shares.checked_add(additional_shares) {
        None => Err(STokenCoreError::MathOverflow),
        Some(new_total_shares) => {
            if new_total_shares > max_total_shares {
                Err(STokenCoreError::MaxTotalSharesExceeded)
            } else {
                Ok(())
            }
        },
    }
}

/// Checks that minting keeps one holder's shares within the per-user limit.
pub fn check_max_shares_per_user(
    user_current_shares: u64,
    additional_shares: u64,
    max_shares_per_user: u64,
) -> (result: Result<(), STokenCoreError>)
    ensures
        result == limit_check(
            user_current_shares,
            additional_shares,
            max_shares_per_user,
            STokenCoreError::MaxSharesPerUserExceeded,
        ),
{
    if max_shares_per_user == u64::MAX {
        return Ok(());
    }
    match user_current_shares.checked_add(additional_shares) {
        None => Err(STokenCoreError::MathOverflow),
        Some(new_user_shares) => {
            if new_user_shares > max_shares_per_user {
                Err(STokenCoreError::MaxSharesPerUserExceeded)
            } else {
                Ok(())
            }
        },
    }
}


/// Share of `total_supply` that the management fee mints for a period:
/// `total_supply * r / (1 + r)` with
/// `r = annual_bps * elapsed / (10000 * seconds per year)`, truncated.
pub open spec fn management_fee(total_supply: int, annual_bps: int, elapsed: int) -> int {
    let rate_numerator = annual_bps * elapsed;
    let rate_denominator = (BPS_PRECISION as int) * (SECONDS_PER_YEAR as int);
    total_supply * rate_numerator / (rate_denominator + rate_numerator)
}

/// What [`calculate_management_fee`] returns. The fee is zero when any input
/// is zero; the only overflow is that of `total_supply * annual_bps * elapsed`
/// beyond 128 bits.
pub open spec fn management_fee_result(
    total_supply: u64,
    management_fee_bps_per_year: u32,
    time_elapsed_seconds: u64,
) -> Result<u64, STokenCoreError> {
    if management_fee_bps_per_year > MAX_MANAGEMENT_FEE_BPS_PER_YEAR {
        Err(STokenCoreError::InvalidFee)
    } else if total_supply * (management_fee_bps_per_year * time_elapsed_seconds) > u128::MAX {
        Err(STokenCoreError::MathOverflow)
    } else {
        Ok(
            management_fee(
                total_supply as int,
                management_fee_bps_per_year as int,
                time_elapsed_seconds as int,
            ) as u64,
        )
    }
}

/// The denominator of the yearly rate, `10000 * seconds per year`.
pub proof fn lemma_rate_denominator()
    ensures
        (BPS_PRECISION as int) * (SECONDS_PER_YEAR as int) == 315_360_000_000,
{
    let bps = BPS_PRECISION as int;
    let year = SECONDS_PER_YEAR as int;
    assert(bps * year == 315_360_000_000) by (nonlinear_arith)
        requires
            bps == 10_000,
            year == 31_536_000,
    ;
}

/// The management fee never exceeds the supply it is charged on.
pub proof fn lemma_management_fee_bounded(total_supply: int, annual_bps: int, elapsed: int)
    requires
        0 <= total_supply,
        0 <= annual_bps,
        0 <= elapsed,
    ensures
        0 <= management_fee(total_supply, annual_bps, elapsed) <= total_supply,
        (total_supply == 0 || annual_bps == 0 || elapsed == 0) ==> management_fee(
            total_supply,
            annual_bps,
            elapsed,
        ) == 0,
{
    let n = annual_bps * elapsed;
    let d = (BPS_PRECISION as int) * (SECONDS_PER_YEAR as int);
    lemma_rate_denominator();
    assert(0 <= n) by (nonlinear_arith)
        requires
            n == annual_bps * elapsed,
            0 <= annual_bps,
            0 <= elapsed,
    ;
    assert(0 <= total_supply * n <= total_supply * (d + n)) by (nonlinear_arith)
        requires
            0 <= total_supply,
            0 <= n,
            0 < d,
    ;
    lemma_quotient_monotone(total_supply * n, total_supply * (d + n), d + n);
    assert(total_supply * (d + n) / (d + n) == total_supply) by (nonlinear_arith)
        requires
            0 < d + n,
    ;
    if total_supply == 0 || annual_bps == 0 || elapsed == 0 {
        assert(total_supply * n == 0) by (nonlinear_arith)
            requires
                n == annual_bps * elapsed,
                total_supply == 0 || annual_bps == 0 || elapsed == 0,
        ;
    }
}

/// Shares to mint as management fee for `time_elapsed_seconds`.
pub fn calculate_management_fee(
    total_supply: u64,
    management_fee_bps_per_year: u32,
    time_elapsed_seconds: u64,
) -> (result: Result<u64, STokenCoreError>)
    ensures
        result == management_fee_result(
            total_supply,
            management_fee_bps_per_year,
            time_elapsed_seconds,
        ),
        (management_fee_bps_per_year <= MAX_MANAGEMENT_FEE_BPS_PER_YEAR && (total_supply == 0
            || management_fee_bps_per_year == 0 || time_elapsed_seconds == 0)) ==> result == Ok::<
            u64,
            STokenCoreError,
        >(0),
        result matches Ok(fee) ==> fee <= total_supply,
{
    if management_fee_bps_per_year > MAX_MANAGEMENT_FEE_BPS_PER_YEAR {
        return Err(STokenCoreError::InvalidFee);
    }
    proof {
        lemma_management_fee_bounded(
            total_supply as int,
            management_fee_bps_per_year as int,
            time_elapsed_seconds as int,
        );
        lemma_product_bound(
            management_fee_bps_per_year as int,
            time_elapsed_seconds as int,
            500,
            u64::MAX as int,
        );
    }
    if management_fee_bps_per_year == 0 || time_elapsed_seconds == 0 || total_supply == 0 {
        proof {
            let n = management_fee_bps_per_year * time_elapsed_seconds;
            assert(total_supply * n == 0) by (nonlinear_arith)
                requires
                    n == management_fee_bps_per_year * time_elapsed_seconds,
                    management_fee_bps_per_year == 0 || time_elapsed_seconds == 0 || total_supply
                        == 0,
            ;
        }
        return Ok(0);
    }
    let rate_numerator: u128 = (management_fee_bps_per_year as u128)
        * (time_elapsed_seconds as u128);
    let rate_denominator: u128 = 315_360_000_000;
    proof {
        lemma_rate_denominator();
    }
    match (total_supply as u128).checked_mul(rate_numerator) {
        None => Err(STokenCoreError::MathOverflow),
        Some(fee_numerator) => {
            let fee_denominator: u128 = rate_denominator + rate_numerator;
            let fee_shares: u128 = fee_numerator / fee_denominator;
            Ok(fee_shares as u64)
        },
    }
}

/// `10^exponent`.
pub open spec fn pow10(exponent: nat) -> int {
    pow(10, exponent)
}

/// `value`, given with `from_decimals` decimals, expressed with `to_decimals`
/// decimals: multiplied by a power of ten when decimals are gained,
/// divided (truncating) when they are lost.
pub open spec fn rescale(value: int, from_decimals: u32, to_decimals: u32) -> int {
    if to_decimals >= from_decimals {
        value * pow10((to_decimals - from_decimals) as nat)
    } else {
        value / pow10((from_decimals - to_decimals) as nat)
    }
}

/// Shares that `amount_underlying` buys at `price`:
/// the amount brought to the shares' decimals, times `PRICE_PRECISION`,
/// divided by the price, truncated.
pub open spec fn shares_for_amount(
    amount_underlying: int,
    price: int,
    underlying_decimals: u32,
    shares_decimals: u32,
) -> int {
    rescale(amount_underlying, underlying_decimals, shares_decimals) * (PRICE_PRECISION as int)
        / price
}

/// Underlying amount that `shares` are worth at `price`:
/// shares times price divided by `PRICE_PRECISION`, truncated, then brought
/// to the underlying's decimals.
pub open spec fn amount_for_shares(
    shares: int,
    price: int,
    underlying_decimals: u32,
    shares_decimals: u32,
) -> int {
    rescale(shares * price / (PRICE_PRECISION as int), shares_decimals, underlying_decimals)
}

/// A converted quantity as a result: beyond 64 bits it is `MathOverflow`,
/// zero is `ZeroAmountCalculated`.
pub open spec fn converted(quantity: int) -> Result<u64, STokenCoreError> {
    if quantity > u64::MAX {
        Err(STokenCoreError::MathOverflow)
    } else if quantity <= 0 {
        Err(STokenCoreError::ZeroAmountCalculated)
    } else {
        Ok(quantity as u64)
    }
}

/// What [`amount_to_shares_core`] returns.
pub open spec fn amount_to_shares(
    amount_underlying: u64,
    price: u64,
    underlying_decimals: u32,
    shares_decimals: u32,
) -> Result<u64, STokenCoreError> {
    if price == 0 {
        Err(STokenCoreError::InvalidPrice)
    } else if amount_underlying == 0 {
        Err(STokenCoreError::InvalidAmount)
    } else {
        converted(
            shares_for_amount(
                amount_underlying as int,
                price as int,
                underlying_decimals,
                shares_decimals,
            ),
        )
    }
}

/// What [`shares_to_amount_core`] returns.
pub open spec fn shares_to_amount(
    shares: u64,
    price: u64,
    underlying_decimals: u32,
    shares_decimals: u32,
) -> Result<u64, STokenCoreError> {
    if price == 0 {
        Err(STokenCoreError::InvalidPrice)
    } else if shares == 0 {
        Err(STokenCoreError::InvalidAmount)
    } else {
        converted(
            amount_for_shares(shares as int, price as int, underlying_decimals, shares_decimals),
        )
    }
}

/// `10^exponent` if it fits in 128 bits.
fn checked_pow10(exponent: u32) -> (result: Option<u128>)
    ensures
        match result {
            Some(value) => value == pow10(exponent as nat) && value >= 1,
            None => pow10(exponent as nat) > u128::MAX,
        },
{
    let mut power: u128 = 1;
    let mut done: u32 = 0;
    proof {
        lemma_pow0(10);
    }
    while done < exponent
        invariant
            done <= exponent,
            power == pow10(done as nat),
            power >= 1,
        decreases exponent - done,
    {
        proof {
            lemma_pow_adds(10, done as nat, 1);
            lemma_pow1(10);
            assert(pow10((done + 1) as nat) == power * 10);
        }
        match power.checked_mul(10) {
            None => {
                proof {
                    lemma_pow_increases(10, (done + 1) as nat, exponent as nat);
                }
                return None;
            },
            Some(next) => {
                power = next;
            },
        }
        done = done + 1;
    }
    Some(power)
}

/// `value` rescaled by `from_decimals -> to_decimals`, if it fits in 128 bits.
fn checked_rescale(value: u128, from_decimals: u32, to_decimals: u32) -> (result: Option<u128>)
    ensures
        match result {
            Some(scaled) => scaled == rescale(value as int, from_decimals, to_decimals),
            None => rescale(value as int, from_decimals, to_decimals) > u128::MAX,
        },
{
    if to_decimals >= from_decimals {
        let gained: u32 = to_decimals - from_decimals;
        if value == 0 {
            assert(0 * pow10(gained as nat) == 0);
            return Some(0);
        }
        match checked_pow10(gained) {
            None => {
                proof {
                    let factor = pow10(gained as nat);
                    assert(value * factor > u128::MAX) by (nonlinear_arith)
                        requires
                            value >= 1,
                            factor > u128::MAX,
                    ;
                }
                None
            },
            Some(factor) => value.checked_mul(factor),
        }
    } else {
        let lost: u32 = from_decimals - to_decimals;
        match checked_pow10(lost) {
            None => {
                proof {
                    lemma_quotient_zero(value as int, pow10(lost as nat));
                }
                Some(0)
            },
            Some(divisor) => Some(value / divisor),
        }
    }
}

/// Narrows a converted quantity to 64 bits.
fn narrow_converted(quantity: u128) -> (result: Result<u64, STokenCoreError>)
    ensures
        result == converted(quantity as int),
{
    if quantity > u64::MAX as u128 {
        Err(STokenCoreError::MathOverflow)
    } else if quantity == 0 {
        Err(STokenCoreError::ZeroAmountCalculated)
    } else {
        Ok(quantity as u64)
    }
}

/// Converts an amount of underlying to shares at `price`, aware of the two
/// tokens' decimals.
///
/// Fails with `InvalidPrice` for a zero price, `InvalidAmount` for a zero
/// amount, `MathOverflow` when the shares do not fit in 64 bits and
/// `ZeroAmountCalculated` when they round down to zero.
pub fn amount_to_shares_core(
    amount_underlying: u64,
    price: u64,
    underlying_decimals: u32,
    shares_decimals: u32,
) -> (result: Result<u64, STokenCoreError>)
    ensures
        result == amount_to_shares(amount_underlying, price, underlying_decimals, shares_decimals),
{
    if price == 0 {
        return Err(STokenCoreError::InvalidPrice);
    }
    if amount_underlying == 0 {
        return Err(STokenCoreError::InvalidAmount);
    }
    let ghost normalized_exact = rescale(
        amount_underlying as int,
        underlying_decimals,
        shares_decimals,
    );
    let ghost precision = PRICE_PRECISION as int;
    match checked_rescale(amount_underlying as u128, underlying_decimals, shares_decimals) {
        None => {
            proof {
                assert(normalized_exact * precision > u128::MAX) by (nonlinear_arith)
                    requires
                        normalized_exact > u128::MAX,
                        precision >= 1,
                ;
                lemma_quotient_beyond_u64(normalized_exact * precision, price as int);
            }
            Err(STokenCoreError::MathOverflow)
        },
        Some(normalized) => {
            match normalized.checked_mul(PRICE_PRECISION as u128) {
                None => {
                    proof {
                        lemma_quotient_beyond_u64(normalized_exact * precision, price as int);
                    }
                    Err(STokenCoreError::MathOverflow)
                },
                Some(scaled) => narrow_converted(scaled / (price as u128)),
            }
        },
    }
}

/// Converts an amount of underlying to shares at `price`.
///
/// Same as [`amount_to_shares_core`].
pub fn amount_to_shares_with_decimals(
    amount_underlying: u64,
    price: u64,
    underlying_mint_decimals: u32,
    shares_mint_decimals: u32,
) -> (result: Result<u64, STokenCoreError>)
    ensures
        result == amount_to_shares(
            amount_underlying,
            price,
            underlying_mint_decimals,
            shares_mint_decimals,
        ),
{
    amount_to_shares_core(amount_underlying, price, underlying_mint_decimals, shares_mint_decimals)
}

/// Converts shares to the amount of underlying they are worth at `price`,
/// aware of the two tokens' decimals.
///
/// Fails with `InvalidPrice` for a zero price, `InvalidAmount` for zero
/// shares, `MathOverflow` when the amount does not fit in 64 bits and
/// `ZeroAmountCalculated` when it rounds down to zero.
pub fn shares_to_amount_core(
    shares: u64,
    price: u64,
    underlying_decimals: u32,
    shares_decimals: u32,
) -> (result: Result<u64, STokenCoreError>)
    ensures
        result == shares_to_amount(shares, price, underlying_decimals, shares_decimals),
{
    if price == 0 {
        return Err(STokenCoreError::InvalidPrice);
    }
    if shares == 0 {
        return Err(STokenCoreError::InvalidAmount);
    }
    proof {
        lemma_product_bound(shares as int, price as int, u64::MAX as int, u64::MAX as int);
        assert(0xffff_ffff_ffff_ffffint * 0xffff_ffff_ffff_ffffint <= u128::MAX);
    }
    let value: u128 = (shares as u128) * (price as u128) / (PRICE_PRECISION as u128);
    match checked_rescale(value, shares_decimals, underlying_decimals) {
        None => Err(STokenCoreError::MathOverflow),
        Some(amount) => narrow_converted(amount),
    }
}

/// Converts shares to the amount of underlying they are worth at `price`.
///
/// Same as [`shares_to_amount_core`].
pub fn shares_to_amount_with_decimals(
    shares: u64,
    price: u64,
    underlying_mint_decimals: u32,
    shares_mint_decimals: u32,
) -> (result: Result<u64, STokenCoreError>)
    ensures
        result == shares_to_amount(shares, price, underlying_mint_decimals, shares_mint_decimals),
{
    shares_to_amount_core(shares, price, underlying_mint_decimals, shares_mint_decimals)
}


/// Whether at `now` at least `duration` has passed since `since`.
pub open spec fn elapsed(now: u64, since: u64, duration: u64) -> bool {
    now >= since + duration
}

/// Whether at `now` at least `duration` has passed since `since`. The sum
/// `since + duration` is never formed, so it cannot overflow.
pub fn has_elapsed(now: u64, since: u64, duration: u64) -> (result: bool)
    ensures
        result == elapsed(now, since, duration),
{
    now >= since && now - since >= duration
}

/// A holding that is neither empty nor at least the minimum holding, where
/// a minimum of zero stands for none.
pub open spec fn below_minimum(holding: int, minimum: u64) -> bool {
    minimum > 0 && 0 < holding < minimum
}

/// `numerator / denominator` rounded to the nearest integer, a tie going to
/// the even neighbour.
pub open spec fn round_half_even(numerator: int, denominator: int) -> int {
    let quotient = numerator / denominator;
    let remainder = numerator % denominator;
    if 2 * remainder > denominator || (2 * remainder == denominator && quotient % 2 == 1) {
        quotient + 1
    } else {
        quotient
    }
}

/// Fee on `amount` at `fee_bps` basis points: `amount * fee_bps / 10000`
/// rounded half to even, and at least `MIN_FEE_THRESHOLD` when both the rate
/// and the amount are non-zero.
pub open spec fn fee_of(amount: int, fee_bps: int) -> int {
    if fee_bps == 0 {
        0
    } else {
        let rounded = round_half_even(amount * fee_bps, BPS_PRECISION as int);
        if rounded == 0 && amount >= MIN_FEE_THRESHOLD {
            MIN_FEE_THRESHOLD as int
        } else {
            rounded
        }
    }
}

/// At a rate of at most `MAX_FEE_BPS` the fee is never more than the amount,
/// and it is zero exactly when the rate or the amount is zero.
pub proof fn lemma_fee_bounded(amount: int, fee_bps: int)
    requires
        0 <= amount,
        0 <= fee_bps <= MAX_FEE_BPS,
    ensures
        0 <= fee_of(amount, fee_bps) <= amount,
        fee_of(amount, fee_bps) == 0 <==> (fee_bps == 0 || amount == 0),
{
    if fee_bps != 0 {
        let scaled = amount * fee_bps;
        lemma_product_bound(amount, fee_bps, amount, 1000);
        lemma_quotient_bounds(scaled, 10_000);
        if amount == 0 {
            assert(scaled == 0);
        } else if amount == 1 {
            assert(scaled == fee_bps) by (nonlinear_arith)
                requires
                    scaled == amount * fee_bps,
                    amount == 1,
            ;
        } else {
            assert(scaled / 10_000 * 10 <= amount);
        }
    }
}

/// Splits `amount` into what remains and the fee at `fee_bps` basis points.
///
/// Fails with `InvalidFee` exactly when `fee_bps` is above `MAX_FEE_BPS`.
/// Otherwise the two parts add up to `amount`, and the fee is zero exactly
/// when the rate or the amount is zero.
pub fn apply_fee(amount: u64, fee_bps: u32) -> (result: Result<(u64, u64), STokenCoreError>)
    ensures
        fee_bps > MAX_FEE_BPS ==> result == Err::<(u64, u64), STokenCoreError>(
            STokenCoreError::InvalidFee,
        ),
        fee_bps <= MAX_FEE_BPS ==> result == Ok::<(u64, u64), STokenCoreError>(
            ((amount - fee_of(amount as int, fee_bps as int)) as u64, fee_of(
                amount as int,
                fee_bps as int,
            ) as u64),
        ),
        result matches Ok((after, fee)) ==> after + fee == amount && (fee == 0 <==> (fee_bps == 0
            || amount == 0)),
{
    if fee_bps > MAX_FEE_BPS {
        return Err(STokenCoreError::InvalidFee);
    }
    proof {
        lemma_fee_bounded(amount as int, fee_bps as int);
    }
    if fee_bps == 0 {
        return Ok((amount, 0));
    }
    proof {
        lemma_product_bound(amount as int, fee_bps as int, u64::MAX as int, 1000);
    }
    let scaled: u128 = (amount as u128) * (fee_bps as u128);
    let quotient: u128 = scaled / 10_000;
    let remainder: u128 = scaled % 10_000;
    let half: u128 = 5_000;
    let rounded: u128 = if remainder > half {
        quotient + 1
    } else if remainder < half {
        quotient
    } else if quotient % 2 == 0 {
        quotient
    } else {
        quotient + 1
    };
    let fee_amount: u128 = if rounded == 0 && amount >= MIN_FEE_THRESHOLD {
        MIN_FEE_THRESHOLD as u128
    } else {
        rounded
    };
    assert(fee_amount == fee_of(amount as int, fee_bps as int));
    let fee: u64 = fee_amount as u64;
    Ok((amount - fee, fee))
}

/// `amount * bps / 10000`, truncated.
pub open spec fn basis_points_of(amount: int, bps: int) -> int {
    amount * bps / (BPS_PRECISION as int)
}

/// Applies basis points to an amount without rounding up.
///
/// Fails with `MathOverflow` exactly when the result does not fit in 64
/// bits.
pub fn apply_basis_points(amount: u64, bps: u32) -> (result: Result<u64, STokenCoreError>)
    ensures
        basis_points_of(amount as int, bps as int) > u64::MAX ==> result == Err::<
            u64,
            STokenCoreError,
        >(STokenCoreError::MathOverflow),
        basis_points_of(amount as int, bps as int) <= u64::MAX ==> result == Ok::<
            u64,
            STokenCoreError,
        >(basis_points_of(amount as int, bps as int) as u64),
{
    proof {
        lemma_product_bound(amount as int, bps as int, u64::MAX as int, u32::MAX as int);
        assert(0xffff_ffff_ffff_ffffint * 0xffff_ffffint <= u128::MAX);
    }
    let scaled: u128 = (amount as u128) * (bps as u128);
    let share: u128 = scaled / 10_000;
    if share > u64::MAX as u128 {
        Err(STokenCoreError::MathOverflow)
    } else {
        Ok(share as u64)
    }
}

/// What [`mul_div_u64_to_u64`] returns: `a * b / denom`, truncated.
pub open spec fn mul_div(a: u64, b: u64, denom: u64) -> Result<u64, STokenCoreError> {
    if denom == 0 {
        Err(STokenCoreError::InvalidPrice)
    } else if a * b / (denom as int) > u64::MAX {
        Err(STokenCoreError::MathOverflow)
    } else {
        Ok((a * b / (denom as int)) as u64)
    }
}

/// `a * b / denom` with a 128-bit intermediate product.
///
/// Fails with `InvalidPrice` for a zero denominator and with `MathOverflow`
/// when the quotient does not fit in 64 bits.
pub fn mul_div_u64_to_u64(a: u64, b: u64, denom: u64) -> (result: Result<u64, STokenCoreError>)
    ensures
        result == mul_div(a, b, denom),
{
    if denom == 0 {
        return Err(STokenCoreError::InvalidPrice);
    }
    proof {
        lemma_product_bound(a as int, b as int, u64::MAX as int, u64::MAX as int);
        assert(0xffff_ffff_ffff_ffffint * 0xffff_ffff_ffff_ffffint <= u128::MAX);
    }
    let quotient: u128 = (a as u128) * (b as u128) / (denom as u128);
    if quotient > u64::MAX as u128 {
        Err(STokenCoreError::MathOverflow)
    } else {
        Ok(quotient as u64)
    }
}

/// What [`calculate_split_fee_tokens`] returns: the fee is halved, the odd
/// unit going to the destination, and each half is converted to shares at
/// its own vault's price.
pub open spec fn split_fee_tokens(fee_amount: u64, source_price: u64, dest_price: u64) -> Result<
    (u64, u64),
    STokenCoreError,
> {
    if fee_amount == 0 {
        Ok((0, 0))
    } else {
        match mul_div((fee_amount / 2) as u64, PRICE_PRECISION, source_price) {
            Err(e) => Err(e),
            Ok(source_fee_tokens) => match mul_div(
                (fee_amount - fee_amount / 2) as u64,
                PRICE_PRECISION,
                dest_price,
            ) {
                Err(e) => Err(e),
                Ok(dest_fee_tokens) => Ok((source_fee_tokens, dest_fee_tokens)),
            },
        }
    }
}

/// Fee shares for the source and the destination vault of a swap.
pub fn calculate_split_fee_tokens(fee_amount: u64, source_price: u64, dest_price: u64) -> (result:
    Result<(u64, u64), STokenCoreError>)
    ensures
        result == split_fee_tokens(fee_amount, source_price, dest_price),
{
    if fee_amount == 0 {
        return Ok((0, 0));
    }
    let source_fee_amount: u64 = fee_amount / 2;
    let dest_fee_amount: u64 = fee_amount - source_fee_amount;
    let source_fee_tokens: u64 = match mul_div_u64_to_u64(
        source_fee_amount,
        PRICE_PRECISION,
        source_price,
    ) {
        Err(e) => {
            return Err(e);
        },
        Ok(tokens) => tokens,
    };
    let dest_fee_tokens: u64 = match mul_div_u64_to_u64(
        dest_fee_amount,
        PRICE_PRECISION,
        dest_price,
    ) {
        Err(e) => {
            return Err(e);
        },
        Ok(tokens) => tokens,
    };
    Ok((source_fee_tokens, dest_fee_tokens))
}


/// Converting an amount to shares and the shares back to an amount never
/// gains, and loses less than the value of one share plus one unit.
///
/// With `back` the amount that comes back and `k` the power of ten between
/// the two tokens' decimals: when the shares have at least the underlying's
/// decimals, `(amount - back - 1) * k * PRICE_PRECISION < price`; when they
/// have fewer, `((amount - back) / k - 1) * PRICE_PRECISION < price`.
pub proof fn lemma_round_trip_loss(
    amount: int,
    price: int,
    underlying_decimals: u32,
    shares_decimals: u32,
)
    requires
        0 <= amount,
        0 < price,
    ensures
        ({
            let shares = shares_for_amount(amount, price, underlying_decimals, shares_decimals);
            let back = amount_for_shares(shares, price, underlying_decimals, shares_decimals);
            &&& 0 <= shares
            &&& 0 <= back <= amount
            &&& shares_decimals >= underlying_decimals ==> (amount - back - 1) * pow10(
                (shares_decimals - underlying_decimals) as nat,
            ) * (PRICE_PRECISION as int) < price
            &&& shares_decimals < underlying_decimals ==> ((amount - back) / pow10(
                (underlying_decimals - shares_decimals) as nat,
            ) - 1) * (PRICE_PRECISION as int) < price
        }),
{
    let precision = PRICE_PRECISION as int;
    let shares = shares_for_amount(amount, price, underlying_decimals, shares_decimals);
    let back = amount_for_shares(shares, price, underlying_decimals, shares_decimals);
    if shares_decimals >= underlying_decimals {
        let k = pow10((shares_decimals - underlying_decimals) as nat);
        lemma_pow_positive(10, (shares_decimals - underlying_decimals) as nat);
        let scaled = amount * k;
        assert(0 <= scaled) by (nonlinear_arith)
            requires
                scaled == amount * k,
                0 <= amount,
                0 < k,
        ;
        lemma_convert_and_back(scaled, precision, price);
        let value = shares * price / precision;
        assert(back == value / k) by {
            if shares_decimals == underlying_decimals {
                lemma_pow0(10);
                assert(value * 1 == value / 1);
            }
        }
        lemma_quotient_bounds(value, k);
        assert(back <= amount) by (nonlinear_arith)
            requires
                back * k <= value,
                value <= amount * k,
                0 < k,
        ;
        assert((amount - back - 1) * k * precision < price) by (nonlinear_arith)
            requires
                value < back * k + k,
                (amount * k - value - 1) * precision < price,
                0 < precision,
                0 < k,
        ;
    } else {
        let k = pow10((underlying_decimals - shares_decimals) as nat);
        lemma_pow_positive(10, (underlying_decimals - shares_decimals) as nat);
        let normalized = amount / k;
        lemma_quotient_bounds(amount, k);
        lemma_convert_and_back(normalized, precision, price);
        let value = shares * price / precision;
        assert(back == value * k);
        assert(0 <= back <= amount) by (nonlinear_arith)
            requires
                back == value * k,
                0 <= value <= normalized,
                normalized * k <= amount,
                0 < k,
        ;
        let lost = (amount - back) / k;
        lemma_quotient_bounds(amount - back, k);
        assert(lost <= normalized - value) by (nonlinear_arith)
            requires
                lost * k <= amount - back,
                back == value * k,
                amount < normalized * k + k,
                0 < k,
        ;
        assert((lost - 1) * precision < price) by (nonlinear_arith)
            requires
                lost <= normalized - value,
                (normalized - value - 1) * precision < price,
                0 < precision,
        ;
    }
}

/// Where the shares have at least the underlying's decimals and one share
/// unit is worth at most one unit of underlying, an amount that converts to
/// shares comes back, from those shares, as itself or as one unit less.
pub proof fn lemma_round_trip_within_one_unit(
    amount: u64,
    price: u64,
    underlying_decimals: u32,
    shares_decimals: u32,
)
    requires
        shares_decimals >= underlying_decimals,
        price <= PRICE_PRECISION * pow10((shares_decimals - underlying_decimals) as nat),
        amount_to_shares(amount, price, underlying_decimals, shares_decimals) is Ok,
    ensures
        ({
            let shares = amount_to_shares(
                amount,
                price,
                underlying_decimals,
                shares_decimals,
            )->Ok_0;
            let back = amount_for_shares(
                shares as int,
                price as int,
                underlying_decimals,
                shares_decimals,
            );
            &&& amount - 1 <= back <= amount
            &&& shares_to_amount(shares, price, underlying_decimals, shares_decimals) == converted(
                back,
            )
        }),
{
    let k = pow10((shares_decimals - underlying_decimals) as nat);
    let precision = PRICE_PRECISION as int;
    let shares = shares_for_amount(
        amount as int,
        price as int,
        underlying_decimals,
        shares_decimals,
    );
    let back = amount_for_shares(shares, price as int, underlying_decimals, shares_decimals);
    lemma_round_trip_loss(amount as int, price as int, underlying_decimals, shares_decimals);
    lemma_pow_positive(10, (shares_decimals - underlying_decimals) as nat);
    assert(amount - back - 1 < 1) by (nonlinear_arith)
        requires
            (amount - back - 1) * k * precision < price,
            price <= precision * k,
            0 < k,
            0 < precision,
    ;
}

/// The two fee parts of a swap, valued back at their vaults' prices, never
/// exceed the fee they were split from, and each leg loses less than the
/// value of one share plus one unit; a leg whose share is worth at most one
/// unit of underlying loses at most one unit.
pub proof fn lemma_split_fee_round_trip(fee_amount: u64, source_price: u64, dest_price: u64)
    requires
        split_fee_tokens(fee_amount, source_price, dest_price) is Ok,
    ensures
        ({
            let tokens = split_fee_tokens(fee_amount, source_price, dest_price)->Ok_0;
            let source_half = fee_amount as int / 2;
            let dest_half = fee_amount - fee_amount as int / 2;
            let source_back = tokens.0 * source_price / (PRICE_PRECISION as int);
            let dest_back = tokens.1 * dest_price / (PRICE_PRECISION as int);
            &&& 0 <= source_back <= source_half
            &&& 0 <= dest_back <= dest_half
            &&& source_back + dest_back <= fee_amount
            &&& (source_half - source_back - 1) * (PRICE_PRECISION as int) < source_price
            &&& (dest_half - dest_back - 1) * (PRICE_PRECISION as int) < dest_price
            &&& source_price <= PRICE_PRECISION ==> source_half - source_back <= 1
            &&& dest_price <= PRICE_PRECISION ==> dest_half - dest_back <= 1
        }),
{
    let precision = PRICE_PRECISION as int;
    if fee_amount == 0 {
        assert(0 * (source_price as int) / precision == 0);
        assert(0 * (dest_price as int) / precision == 0);
    } else {
        let source_half = fee_amount as int / 2;
        let dest_half = fee_amount - fee_amount as int / 2;
        lemma_convert_and_back(source_half, precision, source_price as int);
        lemma_convert_and_back(dest_half, precision, dest_price as int);
    }
}

} // verus!
