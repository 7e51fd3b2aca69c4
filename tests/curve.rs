use zeroboost::curve::{ConstantCurveCalculator, CurveCalculator, TradeDirection};
use zeroboost::error::SwapTokenError;
use zeroboost::safe_number::{MathError, SafeNumber};

fn to_float(n: &SafeNumber) -> f64 {
    n.value as f64 / 10f64.powi(n.precision as i32)
}

#[test]
fn sell_mint_fraction_to_meet_maximum_token_b_balance() {
    let supply = 1_000_000_000u64 * 10u64.pow(6);
    let liquidity_percentage = 50;
    let maximum_token_b_reserve_balance = 13656u64 * 10u64.pow(7);

    let curve =
        ConstantCurveCalculator::new(supply, liquidity_percentage, maximum_token_b_reserve_balance);

    let supply = curve.get_bounding_curve_supply();
    let maximum_token_b_reserve_balance = curve.get_token_b_reserve_balance();

    let initial_price = curve.calculate_initial_price(9).unwrap();

    let token_amount_out = ConstantCurveCalculator::calculate_amount_out(
        initial_price,
        maximum_token_b_reserve_balance,
        TradeDirection::BtoA,
    )
    .unwrap();

    let token_b_amount_out =
        ConstantCurveCalculator::calculate_amount_out(initial_price, supply, TradeDirection::AtoB)
            .unwrap();

    assert_eq!(
        to_float(&initial_price),
        0.00013656,
        "assert valid initial price with correct percision"
    );
    assert_eq!(token_amount_out, supply, "assert when bought total token equal to curve supply");
    assert_eq!(
        token_b_amount_out, maximum_token_b_reserve_balance,
        "assert when sell equal to curve token B supply"
    );
}

#[test]
fn listing_shares_of_supply_and_reserve() {
    let curve = ConstantCurveCalculator::new(1_000_000_000_000_000, 50, 136_560_000_000);
    assert_eq!(curve.get_bounding_curve_supply(), 500_000_000_000_000);
    assert_eq!(curve.get_liquidity_supply(), 500_000_000_000_000);
    assert_eq!(curve.get_token_b_reserve_balance(), 68_280_000_000);
    let price = curve.calculate_initial_price(8).unwrap();
    assert_eq!(price, SafeNumber::from_parts(13656, 8));
}

#[test]
fn shares_round_to_nearest() {
    // 75% of 10 is 7.5: the sold share rounds up to 8, and the kept share is the rest.
    let curve = ConstantCurveCalculator::new(10, 25, 10);
    assert_eq!(curve.get_liquidity_supply(), 2);
    assert_eq!(curve.get_bounding_curve_supply(), 8);
    assert_eq!(curve.get_token_b_reserve_balance(), 3);
}

#[test]
fn shares_add_up_to_the_supply() {
    let curve = ConstantCurveCalculator::new(1, 50, 0);
    assert_eq!(curve.get_bounding_curve_supply(), 1);
    assert_eq!(curve.get_liquidity_supply(), 0);
    for (supply, pct) in [(10u64, 25u8), (7, 33), (999, 1), (u64::MAX, 50), (5, 0), (5, 100)] {
        let curve = ConstantCurveCalculator::new(supply, pct, 1);
        assert_eq!(curve.get_bounding_curve_supply() + curve.get_liquidity_supply(), supply);
    }
}

#[test]
fn listing_precision_is_fine_enough_for_a_round_trip() {
    let curve = ConstantCurveCalculator::new(1_000_000_000_000_000, 50, 136_560_000_000);
    assert_eq!(curve.listing_precision(), Ok(19));
    let price = curve.calculate_initial_price(19).unwrap();
    assert_eq!(price, SafeNumber::from_parts(1_365_600_000_000_000, 19));
    let supply = curve.get_bounding_curve_supply();
    let reserve = ConstantCurveCalculator::calculate_amount_out(price, supply, TradeDirection::AtoB);
    assert_eq!(reserve, Ok(68_280_000_000));
    let back =
        ConstantCurveCalculator::calculate_amount_out(price, 68_280_000_000, TradeDirection::BtoA);
    assert_eq!(back, Ok(supply));
}

#[test]
fn round_trip_with_a_price_of_a_third_of_a_millionth() {
    let curve = ConstantCurveCalculator::new(6_000_000, 50, 2);
    assert_eq!(curve.listing_precision(), Ok(13));
    let price = curve.calculate_initial_price(13).unwrap();
    assert_eq!(price, SafeNumber::from_parts(3_333_333, 13));
    let sold =
        ConstantCurveCalculator::calculate_amount_out(price, 3_000_000, TradeDirection::AtoB).unwrap();
    assert_eq!(sold, 1);
    let back = ConstantCurveCalculator::calculate_amount_out(price, sold, TradeDirection::BtoA);
    assert_eq!(back, Ok(3_000_000));
}

#[test]
fn listing_precision_without_target_and_beyond_range() {
    // no pair target: the least precision whose scale exceeds the supply
    let curve = ConstantCurveCalculator::new(1_000, 0, 1_000);
    assert_eq!(curve.listing_precision(), Ok(4));
    // a huge supply against a tiny target needs more than 38 digits
    let curve = ConstantCurveCalculator::new(u64::MAX, 50, 8);
    assert_eq!(curve.listing_precision(), Err(MathError::Overflow));
}

#[test]
fn initial_price_rounds_at_its_precision() {
    // 1 / 3 = 0.333.. at 4 digits is 0.3333
    let curve = ConstantCurveCalculator::new(6, 50, 2);
    assert_eq!(curve.calculate_initial_price(4).unwrap(), SafeNumber::from_parts(3333, 4));
    // 2 / 3 = 0.666.. at 4 digits rounds to 0.6667
    let curve = ConstantCurveCalculator::new(6, 50, 4);
    assert_eq!(curve.calculate_initial_price(4).unwrap(), SafeNumber::from_parts(6667, 4));
}

#[test]
fn initial_price_with_everything_kept_divides_by_zero() {
    let curve = ConstantCurveCalculator::new(1_000, 100, 1_000);
    assert_eq!(curve.calculate_initial_price(9), Err(MathError::DivisionByZero));
    let curve = ConstantCurveCalculator::new(0, 50, 1_000);
    assert_eq!(curve.calculate_initial_price(9), Err(MathError::DivisionByZero));
}

#[test]
fn initial_price_overflow() {
    let curve = ConstantCurveCalculator::new(1, 50, u64::MAX);
    assert_eq!(curve.calculate_initial_price(30), Err(MathError::Overflow));
    assert_eq!(curve.calculate_initial_price(40), Err(MathError::Overflow));
}

#[test]
fn token_to_pair_rounds_to_nearest() {
    let price = SafeNumber::from_parts(13656, 8);
    // 10000 * 0.00013656 = 1.3656 -> 1
    assert_eq!(
        ConstantCurveCalculator::calculate_amount_out(price, 10_000, TradeDirection::AtoB),
        Ok(1)
    );
    // 5000 * 0.00013656 = 0.6828 -> 1
    assert_eq!(
        ConstantCurveCalculator::calculate_amount_out(price, 5_000, TradeDirection::AtoB),
        Ok(1)
    );
    // 3000 * 0.00013656 = 0.40968 -> 0
    assert_eq!(
        ConstantCurveCalculator::calculate_amount_out(price, 3_000, TradeDirection::AtoB),
        Ok(0)
    );
}

#[test]
fn pair_to_token_rounds_to_nearest() {
    let price = SafeNumber::from_parts(13656, 8);
    // 1 / 0.00013656 = 7322.78.. -> 7323
    assert_eq!(
        ConstantCurveCalculator::calculate_amount_out(price, 1, TradeDirection::BtoA),
        Ok(7323)
    );
    // 2.5 / 1 = 2.5 -> 3 (halves up); price 2.0 at precision 1
    let two = SafeNumber::from_parts(20, 1);
    assert_eq!(
        ConstantCurveCalculator::calculate_amount_out(two, 5, TradeDirection::BtoA),
        Ok(3)
    );
}

#[test]
fn pair_to_token_at_zero_price_divides_by_zero() {
    let zero = SafeNumber::from_parts(0, 9);
    assert_eq!(
        ConstantCurveCalculator::calculate_amount_out(zero, 5, TradeDirection::BtoA),
        Err(MathError::DivisionByZero)
    );
}

#[test]
fn token_to_pair_overflow() {
    let big = SafeNumber::from_parts(u128::MAX / 2, 0);
    assert_eq!(
        ConstantCurveCalculator::calculate_amount_out(big, 3, TradeDirection::AtoB),
        Err(MathError::Overflow)
    );
    // fits u128 but not u64
    let price = SafeNumber::from_parts(4, 0);
    assert_eq!(
        ConstantCurveCalculator::calculate_amount_out(price, u64::MAX, TradeDirection::AtoB),
        Err(MathError::Overflow)
    );
}

#[test]
fn direction_codes() {
    assert_eq!(TradeDirection::from_code(0), Ok(TradeDirection::BtoA));
    assert_eq!(TradeDirection::from_code(1), Ok(TradeDirection::AtoB));
    assert_eq!(TradeDirection::from_code(2), Err(SwapTokenError::InvalidTradeDirection));
    assert_eq!(TradeDirection::from_code(255), Err(SwapTokenError::InvalidTradeDirection));
}
