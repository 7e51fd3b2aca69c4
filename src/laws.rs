use crate::bounding_curve::{AccountKey, BoundingCurve, MigrationPlan, Pair, TradeOutcome};
use crate::config::Config;
use crate::curve::{
    lemma_first_fitting_precision, lemma_percent_at_most_base,
    pair_to_token, precision_fits, spec_listing_precision, target_pair_reserve, token_to_pair,
    tradable_supply, CurveCalculator, TradeDirection,
};
use crate::error::{MigrateFundError, SwapTokenError};
use crate::methods::spec_curve_pair_valuation;
use crate::mint::spec_mint_token;
use crate::params::{MigrateFundParams, MintTokenParams, SwapParams};
use crate::safe_number::{lemma_pow10_positive, pow10, round_div, Math, MathError, SafeNumber};
use vstd::arithmetic::div_mod::{lemma_fundamental_div_mod, lemma_fundamental_div_mod_converse};
use vstd::prelude::*;

verus! {

/// Round trip at a fitting precision: a price of `reserve / supply` scaled
/// by `10^precision` and rounded sells the `supply` for exactly `reserve`,
/// and buys back with `reserve` between `supply - 1` and `supply + 1`.
pub proof fn lemma_round_trip_at_precision(supply: nat, reserve: nat, precision: nat)
    requires
        supply > 0,
        reserve > 0,
        supply < u64::MAX,
        reserve <= u64::MAX,
        precision <= 38,
        precision_fits(supply, reserve, precision),
        reserve * pow10(precision) + supply <= u128::MAX,
    ensures
        ({
            let price = SafeNumber {
                value: round_div(reserve * pow10(precision), supply) as u128,
                precision: precision as u32,
            };
            &&& token_to_pair(price, supply as u64) == Ok::<u64, MathError>(reserve as u64)
            &&& pair_to_token(price, reserve as u64) matches Ok(back) && supply - 1 <= back
                <= supply + 1
        }),
{
    let s = supply;
    let t = reserve;
    let k = pow10(precision);
    lemma_pow10_positive(precision);
    assert(t * k >= 1) by (nonlinear_arith)
        requires
            t >= 1,
            k >= 1,
    ;
    // v = round(t * k / s): 2tk - s < 2sv <= 2tk + s.
    let v = round_div(t * k, s);
    lemma_fundamental_div_mod((2 * (t * k) + s) as int, (2 * s) as int);
    let rv = (2 * (t * k) + s) % (2 * s);
    assert(2 * (t * k) + s == 2 * s * v + rv);
    assert(0 <= rv < 2 * s);
    assert(v >= s) by (nonlinear_arith)
        requires
            2 * (t * k) + s == 2 * s * v + rv,
            rv < 2 * s,
            t * k >= s * s,
            s >= 1,
    ;
    assert(v * s <= t * k + s) by (nonlinear_arith)
        requires
            2 * (t * k) + s == 2 * s * v + rv,
            rv >= 0,
    ;
    assert(v <= v * s) by (nonlinear_arith)
        requires
            s >= 1,
    ;
    let price = SafeNumber { value: v as u128, precision: precision as u32 };
    // Selling: round(v * s / k) == t.
    let vs = v * s;
    assert(price.spec_mul(s as u128) == Ok::<SafeNumber, MathError>(
        SafeNumber { value: vs as u128, precision: precision as u32 },
    ));
    assert(2 * vs + k == t * (2 * k) + (2 * vs + k - 2 * (t * k))) by (nonlinear_arith);
    assert(0 <= 2 * vs + k - 2 * (t * k) < 2 * k) by (nonlinear_arith)
        requires
            2 * (t * k) + s == 2 * s * v + rv,
            0 <= rv < 2 * s,
            vs == v * s,
            k > s,
    ;
    lemma_fundamental_div_mod_converse(
        (2 * vs + k) as int,
        (2 * k) as int,
        t as int,
        (2 * vs + k - 2 * (t * k)) as int,
    );
    assert(k <= t * k) by (nonlinear_arith)
        requires
            t >= 1,
    ;
    assert(token_to_pair(price, s as u64) == Ok::<u64, MathError>(t as u64));
    // Buying back: round(t * k / v) is within one of s.
    let y = round_div(t * k, v);
    lemma_fundamental_div_mod((2 * (t * k) + v) as int, (2 * v) as int);
    let ry = (2 * (t * k) + v) % (2 * v);
    assert(2 * (t * k) + v == 2 * v * y + ry);
    assert(s - 1 <= y <= s + 1) by (nonlinear_arith)
        requires
            2 * (t * k) + s == 2 * s * v + rv,
            0 <= rv < 2 * s,
            2 * (t * k) + v == 2 * v * y + ry,
            0 <= ry < 2 * v,
            v >= s,
            s >= 1,
    ;
    assert(pair_to_token(price, t as u64) == Ok::<u64, MathError>(y as u64));
}

/// Round trip on a listed market: selling its whole tradable supply at its
/// price brings in exactly its maximum pair balance, and buying back with
/// that balance returns the tradable supply within one token. It holds for
/// every listing that `mint_token` accepts with a non-zero pair target and a
/// supply below `u64::MAX`.
pub proof fn lemma_listing_round_trip(
    slot: Option<BoundingCurve>,
    params: MintTokenParams,
    mint: AccountKey,
    pair: Pair,
    pair_usd_price: SafeNumber,
    config: Config,
)
    requires
        spec_mint_token(slot, params, mint, pair, pair_usd_price, config) matches Ok((market, _))
            && market.maximum_pair_balance > 0 && market.supply < u64::MAX,
    ensures
        spec_mint_token(slot, params, mint, pair, pair_usd_price, config) matches Ok((market, _))
            ==> {
            &&& token_to_pair(market.price, market.supply) == Ok::<u64, MathError>(
                market.maximum_pair_balance,
            )
            &&& pair_to_token(market.price, market.maximum_pair_balance) matches Ok(back)
                && market.supply - 1 <= back <= market.supply + 1
        },
{
    let maximum_valuation = spec_curve_pair_valuation(
        pair_usd_price,
        config.maximum_curve_usd_valuation,
    )->Ok_0;
    let pct = params.liquidity_percentage as nat;
    let s = tradable_supply(params.supply as nat, pct);
    let t = target_pair_reserve(maximum_valuation as nat, pct);
    let p = spec_listing_precision(s, t)->Ok_0;
    lemma_first_fitting_precision(s, t, 0);
    lemma_percent_at_most_base(maximum_valuation as nat, pct);
    lemma_percent_at_most_base(params.supply as nat, (100 - pct) as nat);
    lemma_round_trip_at_precision(s, t, p as nat);
}

/// A trade never overdraws the market. Where it succeeds, the balance it
/// draws from drops by exactly the amount, which it held, and the other
/// balance rises by exactly the converted amount. Where the amount exceeds
/// that balance, the trade is refused with `InsufficientLiquidity`.
pub proof fn lemma_trade_never_overdraws<C: CurveCalculator>(
    market: BoundingCurve,
    amount: u64,
    direction_code: u8,
)
    ensures
        market.spec_trade::<C>(amount, direction_code) matches Ok((next, o)) ==> match o.direction {
            TradeDirection::AtoB => {
                &&& amount <= market.virtual_token_balance
                &&& next.virtual_token_balance == market.virtual_token_balance - amount
                &&& next.virtual_pair_balance == market.virtual_pair_balance + o.pair_amount
            },
            TradeDirection::BtoA => {
                &&& amount <= market.virtual_pair_balance
                &&& next.virtual_pair_balance == market.virtual_pair_balance - amount
                &&& next.virtual_token_balance == market.virtual_token_balance + o.token_amount
            },
        },
        amount > 0 && market.tradeable && !market.migrated && TradeDirection::spec_from_code(
            direction_code,
        ) == Some(TradeDirection::AtoB) && amount > market.virtual_token_balance ==> market.spec_trade::<C>(amount, direction_code)
            == Err::<(BoundingCurve, TradeOutcome), SwapTokenError>(
            SwapTokenError::InsufficientLiquidity,
        ),
        amount > 0 && market.tradeable && !market.migrated && TradeDirection::spec_from_code(
            direction_code,
        ) == Some(TradeDirection::BtoA) && amount > market.virtual_pair_balance ==> market.spec_trade::<C>(amount, direction_code)
            == Err::<(BoundingCurve, TradeOutcome), SwapTokenError>(
            SwapTokenError::InsufficientLiquidity,
        ),
{
}

/// A market locks once, for good. Only a tradeable market that has not
/// migrated trades; a trade
/// locks it exactly when it leaves the pair balance at or above the maximum,
/// and says so; after that every trade is refused with `NotTradeable`.
pub proof fn lemma_single_lock<C: CurveCalculator>(
    market: BoundingCurve,
    amount: u64,
    direction_code: u8,
    later_amount: u64,
    later_direction_code: u8,
)
    ensures
        market.spec_trade::<C>(amount, direction_code) matches Ok((next, o)) ==> {
            &&& market.tradeable
            &&& o.migration_required <==> next.virtual_pair_balance >= next.maximum_pair_balance
            &&& next.tradeable == !o.migration_required
            &&& o.migration_required && later_amount > 0 ==> next.spec_trade::<C>(
                later_amount,
                later_direction_code,
            ) == Err::<(BoundingCurve, TradeOutcome), SwapTokenError>(
                SwapTokenError::NotTradeable,
            )
        },
        (!market.tradeable || market.migrated) && amount > 0 ==> market.spec_trade::<C>(
            amount,
            direction_code,
        )
            == Err::<(BoundingCurve, TradeOutcome), SwapTokenError>(SwapTokenError::NotTradeable),
{
}

/// Migration waits for the lock and happens once: a tradeable market is
/// refused with `NotMigratable`; a migrated market is refused with
/// `AlreadyMigrated` and trades no more.
pub proof fn lemma_migration_gating<C: CurveCalculator>(
    market: BoundingCurve,
    config: Config,
    params: MigrateFundParams,
    pair_reserve: u64,
    token_reserve: u64,
    later_config: Config,
    later_params: MigrateFundParams,
    later_pair_reserve: u64,
    later_token_reserve: u64,
    trade_amount: u64,
    trade_direction_code: u8,
)
    ensures
        market.tradeable ==> market.spec_migrate(config, params, pair_reserve, token_reserve)
            == Err::<(BoundingCurve, MigrationPlan), MigrateFundError>(
            MigrateFundError::NotMigratable,
        ),
        market.spec_migrate(config, params, pair_reserve, token_reserve) matches Ok((next, _))
            ==> {
            &&& next.migrated
            &&& next.spec_migrate(later_config, later_params, later_pair_reserve, later_token_reserve)
                == Err::<(BoundingCurve, MigrationPlan), MigrateFundError>(
                MigrateFundError::AlreadyMigrated,
            )
            &&& trade_amount > 0 ==> next.spec_trade::<C>(trade_amount, trade_direction_code)
                == Err::<(BoundingCurve, TradeOutcome), SwapTokenError>(
                SwapTokenError::NotTradeable,
            )
        },
{
}

/// Trades and migrations keep a market well formed: a migrated market is
/// never tradeable.
pub proof fn lemma_well_formed_preserved<C: CurveCalculator>(
    market: BoundingCurve,
    amount: u64,
    direction_code: u8,
    config: Config,
    params: MigrateFundParams,
    pair_reserve: u64,
    token_reserve: u64,
)
    requires
        market.well_formed(),
    ensures
        market.spec_trade::<C>(amount, direction_code) matches Ok((next, _)) ==> next.well_formed(),
        market.spec_migrate(config, params, pair_reserve, token_reserve) matches Ok((next, _))
            ==> next.well_formed(),
{
}

/// Fixed-point numbers are equal only when both their scaled value and
/// their precision are: two numbers of equal worth but different precision
/// are unequal.
pub proof fn lemma_equality_is_representational(a: SafeNumber, b: SafeNumber)
    ensures
        a == b <==> a.value == b.value && a.precision == b.precision,
        a.value * pow10(b.precision as nat) == b.value * pow10(a.precision as nat) && a.precision
            != b.precision ==> a != b,
{
}

/// The market after the trades `trades`, in order, each priced by `C`; a
/// refused trade leaves it as it was.
pub open spec fn run_trades<C: CurveCalculator>(market: BoundingCurve, trades: Seq<SwapParams>) -> BoundingCurve
    decreases trades.len(),
{
    if trades.len() == 0 {
        market
    } else {
        let last = trades.last();
        let before = run_trades::<C>(market, trades.drop_last());
        match before.spec_trade::<C>(last.amount, last.trade_direction) {
            Ok((next, _)) => next,
            Err(_) => before,
        }
    }
}

/// A locked market is frozen: no sequence of trades changes it.
pub proof fn lemma_locked_market_is_frozen<C: CurveCalculator>(
    market: BoundingCurve,
    trades: Seq<SwapParams>,
)
    requires
        !market.tradeable,
    ensures
        run_trades::<C>(market, trades) == market,
    decreases trades.len(),
{
    if trades.len() > 0 {
        lemma_locked_market_is_frozen::<C>(market, trades.drop_last());
    }
}

/// Along any sequence of trades a market stays well formed, and once it is
/// locked it stays locked: a later state is tradeable only where every
/// earlier one was.
pub proof fn lemma_lock_persists<C: CurveCalculator>(
    market: BoundingCurve,
    trades: Seq<SwapParams>,
    k: int,
)
    requires
        market.well_formed(),
        0 <= k <= trades.len(),
    ensures
        run_trades::<C>(market, trades).well_formed(),
        run_trades::<C>(market, trades).tradeable ==> run_trades::<C>(
            market,
            trades.take(k),
        ).tradeable,
    decreases trades.len(),
{
    if trades.len() > 0 {
        let prefix = trades.drop_last();
        if k == trades.len() {
            assert(trades.take(k) =~= trades);
            lemma_lock_persists::<C>(market, prefix, k - 1);
        } else {
            assert(prefix.take(k) =~= trades.take(k));
            lemma_lock_persists::<C>(market, prefix, k);
        }
    }
}

} // verus!
