use crate::safe_number::{checked_pow10, pow10, round_div, rounded_div, MathError, SafeNumber};
use vstd::prelude::*;

verus! {

/// Smallest units of the pair asset in one whole unit.
pub const PAIR_UNITS_PER_WHOLE: u128 = 1_000_000_000;

/// Estimated cost, in lamports, of creating the migration pool: the pool
/// program's creation fee plus the rent of the accounts it opens.
pub fn get_estimated_raydium_cp_pool_creation_fee() -> (r: u64)
    ensures
        r == 2 * 1_000_000 + 15 * 100_000_000 + 203938 * 10,
{
    2u64 * 1_000_000u64 + 15u64 * 100_000_000u64 + 203938u64 * 10u64
}

/// The number `price * 10^expo` that a price feed reports, where it is
/// non-negative and fits a fixed-point number.
pub open spec fn spec_price_to_number(price: i64, expo: i32) -> Option<SafeNumber> {
    if price < 0 {
        None
    } else if expo <= 0 {
        Some(SafeNumber { value: price as u128, precision: (-expo) as u32 })
    } else if pow10(expo as nat) > u128::MAX || price * pow10(expo as nat) > u128::MAX {
        None
    } else {
        Some(SafeNumber { value: (price * pow10(expo as nat)) as u128, precision: 0 })
    }
}

/// Reads a price feed's mantissa and exponent as a fixed-point number.
pub fn price_to_number(price: i64, expo: i32) -> (r: Option<SafeNumber>)
    ensures
        r == spec_price_to_number(price, expo),
{
    if price < 0 {
        None
    } else if expo <= 0 {
        let precision = (-(expo as i64)) as u32;
        Some(SafeNumber { value: price as u128, precision })
    } else {
        match checked_pow10(expo as u32) {
            None => None,
            Some(scale) => match (price as u128).checked_mul(scale) {
                None => None,
                Some(value) => Some(SafeNumber { value, precision: 0 }),
            },
        }
    }
}

/// The amount, in smallest pair units, that `usd_valuation` dollars buy at
/// `pair_usd_price` dollars per whole pair unit, rounded once:
/// `usd_valuation * 10^9 * 10^precision / value`.
pub open spec fn spec_curve_pair_valuation(pair_usd_price: SafeNumber, usd_valuation: u16) -> Result<
    u64,
    MathError,
> {
    let scale = pow10(pair_usd_price.precision as nat);
    let numerator = usd_valuation * PAIR_UNITS_PER_WHOLE * scale;
    if pair_usd_price.value == 0 {
        Err(MathError::DivisionByZero)
    } else if scale > u128::MAX || numerator > u128::MAX {
        Err(MathError::Overflow)
    } else if round_div(numerator as nat, pair_usd_price.value as nat) > u64::MAX {
        Err(MathError::Overflow)
    } else {
        Ok(round_div(numerator as nat, pair_usd_price.value as nat) as u64)
    }
}

/// Converts a dollar valuation into smallest pair units at the feed price.
pub fn curve_pair_valuation(pair_usd_price: &SafeNumber, usd_valuation: u16) -> (r: Result<
    u64,
    MathError,
>)
    ensures
        r == spec_curve_pair_valuation(*pair_usd_price, usd_valuation),
{
    if pair_usd_price.value == 0 {
        return Err(MathError::DivisionByZero);
    }
    let scale = match checked_pow10(pair_usd_price.precision) {
        None => {
            return Err(MathError::Overflow);
        },
        Some(s) => s,
    };
    let units = usd_valuation as u128 * PAIR_UNITS_PER_WHOLE;
    let numerator = match units.checked_mul(scale) {
        None => {
            return Err(MathError::Overflow);
        },
        Some(n) => n,
    };
    let n = rounded_div(numerator, pair_usd_price.value);
    if n > u64::MAX as u128 {
        Err(MathError::Overflow)
    } else {
        Ok(n as u64)
    }
}

} // verus!
