use crate::error::SwapTokenError;
use crate::safe_number::{
    checked_pow10, lemma_pow10_positive, pow10, round_div, rounded_div, Math, MathError,
    SafeNumber, Unwrap,
};
use vstd::prelude::*;

verus! {

/// Which way an amount is converted: `AtoB` turns tokens into the pair
/// asset, `BtoA` turns the pair asset into tokens.
#[derive(Clone, Copy, Debug, PartialEq, Eq, Structural)]
pub enum TradeDirection {
    AtoB,
    BtoA,
}

impl TradeDirection {
    /// The direction that a wire code names: 0 is pair to token, 1 is token
    /// to pair.
    pub open spec fn spec_from_code(code: u8) -> Option<TradeDirection> {
        if code == 0 {
            Some(TradeDirection::BtoA)
        } else if code == 1 {
            Some(TradeDirection::AtoB)
        } else {
            None
        }
    }

    /// Reads a wire code; any code but 0 and 1 is refused.
    pub fn from_code(code: u8) -> (r: Result<TradeDirection, SwapTokenError>)
        ensures
            r matches Ok(d) ==> TradeDirection::spec_from_code(code) == Some(d),
            r is Err <==> TradeDirection::spec_from_code(code) is None,
            r is Err ==> r == Err::<TradeDirection, SwapTokenError>(
                SwapTokenError::InvalidTradeDirection,
            ),
    {
        if code == 0 {
            Ok(TradeDirection::BtoA)
        } else if code == 1 {
            Ok(TradeDirection::AtoB)
        } else {
            Err(SwapTokenError::InvalidTradeDirection)
        }
    }
}

/// A pricing strategy: how a market's price is set at listing and how an
/// amount converts at that price.
pub trait CurveCalculator {
    /// The parameters make sense for this strategy.
    spec fn spec_well_formed(&self) -> bool;

    /// What `calculate_initial_price` returns.
    spec fn spec_initial_price(&self, precision: u32) -> Result<SafeNumber, MathError>;

    /// What `calculate_amount_out` returns.
    spec fn spec_amount_out(
        initial_price: SafeNumber,
        amount: u64,
        direction: TradeDirection,
    ) -> Result<u64, MathError>;

    /// The listing price, with `precision` digits after the point.
    fn calculate_initial_price(&self, precision: u32) -> (r: Result<SafeNumber, MathError>)
        requires
            self.spec_well_formed(),
        ensures
            r == self.spec_initial_price(precision),
    ;

    /// Converts `amount` at `initial_price` in the given direction.
    fn calculate_amount_out(
        initial_price: SafeNumber,
        amount: u64,
        direction: TradeDirection,
    ) -> (r: Result<u64, MathError>)
        ensures
            r == Self::spec_amount_out(initial_price, amount, direction),
    ;
}

/// The constant-price curve: a share of the supply is sold on the curve for
/// the same share of the maximum pair reserve, at one fixed price.
#[derive(Clone, Copy, Debug, PartialEq, Eq, Structural)]
pub struct ConstantCurveCalculator {
    pub supply: u64,
    pub liquidity_percentage: u8,
    pub maximum_token_b_reserve_balance: u64,
}

/// The pair reserve that the curve collects:
/// `maximum_reserve * liquidity_percentage / 100`, rounded.
pub open spec fn target_pair_reserve(maximum_reserve: nat, liquidity_percentage: nat) -> nat {
    round_div(maximum_reserve * liquidity_percentage, 100)
}

/// The supply sold on the curve: `supply - supply * liquidity_percentage / 100`,
/// rounded.
pub open spec fn tradable_supply(supply: nat, liquidity_percentage: nat) -> nat {
    round_div(supply * (100 - liquidity_percentage) as nat, 100)
}

/// The supply kept for the pool: what the curve does not sell.
pub open spec fn liquidity_supply(supply: nat, liquidity_percentage: nat) -> nat {
    (supply - tradable_supply(supply, liquidity_percentage)) as nat
}

/// `TokenToPair`: `amount` tokens at `price`, in the pair asset, rounded.
pub open spec fn token_to_pair(price: SafeNumber, amount: u64) -> Result<u64, MathError> {
    match price.spec_mul(amount as u128) {
        Ok(n) => u64::spec_unwrap(n.value, n.precision),
        Err(e) => Err(e),
    }
}

/// `PairToToken`: `amount` of the pair asset divided by `price`, in tokens,
/// rounded: `amount * 10^precision / value`.
pub open spec fn pair_to_token(price: SafeNumber, amount: u64) -> Result<u64, MathError> {
    let scale = pow10(price.precision as nat);
    if price.value == 0 {
        Err(MathError::DivisionByZero)
    } else if scale > u128::MAX || amount * scale > u128::MAX {
        Err(MathError::Overflow)
    } else if round_div((amount * scale) as nat, price.value as nat) > u64::MAX {
        Err(MathError::Overflow)
    } else {
        Ok(round_div((amount * scale) as nat, price.value as nat) as u64)
    }
}

/// A precision at which the listing price of `supply` tokens for `reserve`
/// pair units keeps the round trip within one token: `10^precision` exceeds
/// the supply, and the scaled price is at least the supply.
pub open spec fn precision_fits(supply: nat, reserve: nat, precision: nat) -> bool {
    &&& pow10(precision) > supply
    &&& reserve == 0 || reserve * pow10(precision) >= supply * supply
}

/// The first precision from `from` up to 38 that fits.
pub open spec fn first_fitting_precision(supply: nat, reserve: nat, from: nat) -> Option<nat>
    decreases 39 - from,
{
    if from > 38 {
        None
    } else if precision_fits(supply, reserve, from) {
        Some(from)
    } else {
        first_fitting_precision(supply, reserve, from + 1)
    }
}

/// The listing precision: the least that fits, where the scaled reserve
/// (plus the supply) still fits 128 bits.
pub open spec fn spec_listing_precision(supply: nat, reserve: nat) -> Result<u32, MathError> {
    match first_fitting_precision(supply, reserve, 0) {
        None => Err(MathError::Overflow),
        Some(p) => if reserve * pow10(p) + supply <= u128::MAX {
            Ok(p as u32)
        } else {
            Err(MathError::Overflow)
        },
    }
}

pub proof fn lemma_first_fitting_precision(supply: nat, reserve: nat, from: nat)
    ensures
        first_fitting_precision(supply, reserve, from) matches Some(p) ==> from <= p <= 38
            && precision_fits(supply, reserve, p),
    decreases 39 - from,
{
    if from <= 38 && !precision_fits(supply, reserve, from) {
        lemma_first_fitting_precision(supply, reserve, from + 1);
    }
}

/// `10^38` fits 128 bits.
pub proof fn lemma_pow10_38()
    ensures
        pow10(38) == 100_000_000_000_000_000_000_000_000_000_000_000_000,
{
    reveal_with_fuel(pow10, 39);
}

/// A percentage of `base`, rounded, is at most `base`.
pub proof fn lemma_percent_at_most_base(base: nat, percentage: nat)
    requires
        percentage <= 100,
    ensures
        base * percentage <= 100 * base,
        round_div(base * percentage, 100) <= base,
{
    assert(base * percentage <= 100 * base) by (nonlinear_arith)
        requires
            percentage <= 100,
    ;
    let x = base * percentage;
    assert((2 * x + 100) / 200 <= base) by (nonlinear_arith)
        requires
            x <= 100 * base,
    ;
}

impl ConstantCurveCalculator {
    pub fn new(
        supply: u64,
        liquidity_percentage: u8,
        maximum_token_b_reserve_balance: u64,
    ) -> (r: ConstantCurveCalculator)
        ensures
            r == (ConstantCurveCalculator {
                supply,
                liquidity_percentage,
                maximum_token_b_reserve_balance,
            }),
    {
        ConstantCurveCalculator { supply, liquidity_percentage, maximum_token_b_reserve_balance }
    }

    /// The pair reserve that selling the whole tradable supply collects.
    pub fn get_token_b_reserve_balance(&self) -> (r: u64)
        requires
            self.liquidity_percentage <= 100,
        ensures
            r == target_pair_reserve(
                self.maximum_token_b_reserve_balance as nat,
                self.liquidity_percentage as nat,
            ),
    {
        proof {
            lemma_percent_at_most_base(
                self.maximum_token_b_reserve_balance as nat,
                self.liquidity_percentage as nat,
            );
        }
        let a = self.maximum_token_b_reserve_balance as u128 * self.liquidity_percentage as u128;
        let r = rounded_div(a, 100);
        r as u64
    }

    /// The supply kept aside for the pool at migration: the total less the
    /// tradable supply.
    pub fn get_liquidity_supply(&self) -> (r: u64)
        requires
            self.liquidity_percentage <= 100,
        ensures
            r == liquidity_supply(self.supply as nat, self.liquidity_percentage as nat),
            r + tradable_supply(self.supply as nat, self.liquidity_percentage as nat)
                == self.supply,
    {
        let tradable = self.get_bounding_curve_supply();
        self.supply - tradable
    }

    /// The supply sold on the curve.
    pub fn get_bounding_curve_supply(&self) -> (r: u64)
        requires
            self.liquidity_percentage <= 100,
        ensures
            r == tradable_supply(self.supply as nat, self.liquidity_percentage as nat),
            r <= self.supply,
    {
        proof {
            lemma_percent_at_most_base(
                self.supply as nat,
                (100 - self.liquidity_percentage) as nat,
            );
        }
        let a = self.supply as u128 * (100 - self.liquidity_percentage) as u128;
        let r = rounded_div(a, 100);
        r as u64
    }

    /// The precision that this listing's price is computed with: the least,
    /// up to 38, at which a round trip of the tradable supply stays within one
    /// token, where the scaled target reserve still fits 128 bits.
    pub fn listing_precision(&self) -> (r: Result<u32, MathError>)
        requires
            self.liquidity_percentage <= 100,
        ensures
            r == spec_listing_precision(
                tradable_supply(self.supply as nat, self.liquidity_percentage as nat),
                target_pair_reserve(
                    self.maximum_token_b_reserve_balance as nat,
                    self.liquidity_percentage as nat,
                ),
            ),
    {
        let supply = self.get_bounding_curve_supply() as u128;
        let reserve = self.get_token_b_reserve_balance() as u128;
        let ghost s = supply as nat;
        let ghost t = reserve as nat;
        proof {
            assert(supply * supply <= u128::MAX) by (nonlinear_arith)
                requires
                    supply <= u64::MAX,
            ;
        }
        let square = supply * supply;
        let mut p: u32 = 0;
        let mut scale: u128 = 1;
        while p <= 38
            invariant
                p <= 39,
                p <= 38 ==> scale == pow10(p as nat),
                s == supply,
                t == reserve,
                s == tradable_supply(self.supply as nat, self.liquidity_percentage as nat),
                t == target_pair_reserve(
                    self.maximum_token_b_reserve_balance as nat,
                    self.liquidity_percentage as nat,
                ),
                square == s * s,
                first_fitting_precision(s, t, 0) == first_fitting_precision(s, t, p as nat),
            decreases 39 - p,
        {
            let large = match reserve.checked_mul(scale) {
                None => true,
                Some(n) => n >= square,
            };
            if scale > supply && (reserve == 0 || large) {
                assert(precision_fits(s, t, p as nat));
                assert(first_fitting_precision(s, t, p as nat) == Some(p as nat));
                return match reserve.checked_mul(scale) {
                    None => Err(MathError::Overflow),
                    Some(n) => match n.checked_add(supply) {
                        None => Err(MathError::Overflow),
                        Some(_) => Ok(p),
                    },
                };
            }
            assert(!precision_fits(s, t, p as nat));
            if p == 38 {
                p = 39;
            } else {
                proof {
                    crate::safe_number::lemma_pow10_monotonic((p + 1) as nat, 38);
                    lemma_pow10_38();
                }
                scale = scale * 10;
                p = p + 1;
            }
        }
        Err(MathError::Overflow)
    }
}

impl CurveCalculator for ConstantCurveCalculator {
    open spec fn spec_well_formed(&self) -> bool {
        self.liquidity_percentage <= 100
    }

    /// `target / tradable`, scaled by `10^precision` and rounded.
    open spec fn spec_initial_price(&self, precision: u32) -> Result<SafeNumber, MathError> {
        let scale = pow10(precision as nat);
        let reserve = target_pair_reserve(
            self.maximum_token_b_reserve_balance as nat,
            self.liquidity_percentage as nat,
        );
        let supply = tradable_supply(self.supply as nat, self.liquidity_percentage as nat);
        if supply == 0 {
            Err(MathError::DivisionByZero)
        } else if scale > u128::MAX || reserve * scale > u128::MAX {
            Err(MathError::Overflow)
        } else {
            Ok(SafeNumber { value: round_div(reserve * scale, supply) as u128, precision })
        }
    }

    open spec fn spec_amount_out(
        initial_price: SafeNumber,
        amount: u64,
        direction: TradeDirection,
    ) -> Result<u64, MathError> {
        match direction {
            TradeDirection::AtoB => token_to_pair(initial_price, amount),
            TradeDirection::BtoA => pair_to_token(initial_price, amount),
        }
    }

    fn calculate_initial_price(&self, precision: u32) -> (r: Result<SafeNumber, MathError>) {
        let supply = self.get_bounding_curve_supply() as u128;
        if supply == 0 {
            return Err(MathError::DivisionByZero);
        }
        let scale = match checked_pow10(precision) {
            None => {
                return Err(MathError::Overflow);
            },
            Some(s) => s,
        };
        let reserve = self.get_token_b_reserve_balance() as u128;
        let numerator = match reserve.checked_mul(scale) {
            None => {
                return Err(MathError::Overflow);
            },
            Some(n) => n,
        };
        let value = rounded_div(numerator, supply);
        proof {
            assert((2 * numerator + supply) / (2 * supply) <= numerator) by (nonlinear_arith)
                requires
                    supply >= 1,
            ;
        }
        Ok(SafeNumber { value, precision })
    }

    fn calculate_amount_out(
        initial_price: SafeNumber,
        amount: u64,
        direction: TradeDirection,
    ) -> (r: Result<u64, MathError>) {
        match direction {
            TradeDirection::AtoB => match initial_price.mul(amount as u128) {
                Ok(n) => n.unwrap::<u64>(),
                Err(e) => Err(e),
            },
            TradeDirection::BtoA => {
                if initial_price.value == 0 {
                    return Err(MathError::DivisionByZero);
                }
                let scale = match checked_pow10(initial_price.precision) {
                    None => {
                        return Err(MathError::Overflow);
                    },
                    Some(s) => s,
                };
                let numerator = match (amount as u128).checked_mul(scale) {
                    None => {
                        return Err(MathError::Overflow);
                    },
                    Some(n) => n,
                };
                let n = rounded_div(numerator, initial_price.value);
                if n > u64::MAX as u128 {
                    Err(MathError::Overflow)
                } else {
                    Ok(n as u64)
                }
            },
        }
    }
}

} // verus!
