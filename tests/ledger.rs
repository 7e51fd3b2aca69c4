use zeroboost::bounding_curve::{
    split_migration_fee, AccountKey, BoundingCurve, MigrationPlan, Pair, TradeOutcome,
};
use zeroboost::config::Config;
use zeroboost::curve::{ConstantCurveCalculator, TradeDirection};
use zeroboost::error::{MigrateFundError, SwapTokenError};
use zeroboost::events::SwapEvent;
use zeroboost::position::Position;
use zeroboost::params::{MigrateFundParams, SwapParams};
use zeroboost::safe_number::{MathError, SafeNumber};

fn key(n: u128) -> AccountKey {
    AccountKey { high: 0, low: n }
}

fn market(token_balance: u64, pair_balance: u64, maximum: u64) -> BoundingCurve {
    BoundingCurve {
        pair: Pair::new(key(2), true),
        mint: key(1),
        price: SafeNumber::from_parts(2, 0),
        supply: token_balance,
        migrated: false,
        tradeable: true,
        liquidity_percentage: 50,
        minimum_pair_balance: pair_balance,
        maximum_pair_balance: maximum,
        virtual_token_balance: token_balance,
        virtual_pair_balance: pair_balance,
    }
}

fn config(fee: u8) -> Config {
    Config {
        bump: 255,
        metadata_creation_fee: 1,
        migration_percentage_fee: fee,
        minimum_curve_usd_valuation: 30,
        maximum_curve_usd_valuation: 60_000,
        estimated_raydium_cp_pool_creation_fee: 1_504_039_380,
    }
}

fn swap(amount: u64, trade_direction: u8) -> SwapParams {
    SwapParams { amount, trade_direction }
}

#[test]
fn token_to_pair_trade_moves_both_balances() {
    let mut m = market(1_000, 100, 10_000);
    let o = m.trade::<ConstantCurveCalculator>(&swap(10, 1)).unwrap();
    assert_eq!(
        o,
        TradeOutcome {
            direction: TradeDirection::AtoB,
            token_amount: 10,
            pair_amount: 20,
            migration_required: false
        }
    );
    assert_eq!(m.virtual_token_balance, 990);
    assert_eq!(m.virtual_pair_balance, 120);
    assert!(m.tradeable);
}

#[test]
fn pair_to_token_trade_moves_both_balances() {
    let mut m = market(1_000, 100, 10_000);
    let o = m.trade::<ConstantCurveCalculator>(&swap(20, 0)).unwrap();
    assert_eq!(o.direction, TradeDirection::BtoA);
    assert_eq!(o.token_amount, 10);
    assert_eq!(o.pair_amount, 20);
    assert_eq!(m.virtual_token_balance, 1_010);
    assert_eq!(m.virtual_pair_balance, 80);
}

#[test]
fn overdrawing_trade_is_refused_and_changes_nothing() {
    let mut m = market(1_000, 100, 10_000);
    let before = m;
    assert_eq!(
        m.trade::<ConstantCurveCalculator>(&swap(1_001, 1)),
        Err(SwapTokenError::InsufficientLiquidity)
    );
    assert_eq!(m, before);
    assert_eq!(
        m.trade::<ConstantCurveCalculator>(&swap(101, 0)),
        Err(SwapTokenError::InsufficientLiquidity)
    );
    assert_eq!(m, before);
    // drawing the whole balance is allowed and leaves zero
    m.trade::<ConstantCurveCalculator>(&swap(100, 0)).unwrap();
    assert_eq!(m.virtual_pair_balance, 0);
}

#[test]
fn trade_errors_in_order() {
    let mut m = market(1_000, 100, 10_000);
    assert_eq!(m.trade::<ConstantCurveCalculator>(&swap(0, 7)), Err(SwapTokenError::InvalidAmount));
    assert_eq!(
        m.trade::<ConstantCurveCalculator>(&swap(5, 2)),
        Err(SwapTokenError::InvalidTradeDirection)
    );
    m.tradeable = false;
    assert_eq!(m.trade::<ConstantCurveCalculator>(&swap(5, 2)), Err(SwapTokenError::NotTradeable));
}

#[test]
fn trade_overflow_is_refused() {
    let mut m = market(1_000, u64::MAX - 5, u64::MAX);
    let before = m;
    assert_eq!(
        m.trade::<ConstantCurveCalculator>(&swap(10, 1)),
        Err(SwapTokenError::Arithmetic(MathError::Overflow))
    );
    assert_eq!(m, before);
}

#[test]
fn reaching_the_maximum_locks_once() {
    let mut m = market(1_000, 100, 120);
    let o = m.trade::<ConstantCurveCalculator>(&swap(10, 1)).unwrap();
    assert!(o.migration_required);
    assert!(!m.tradeable);
    let locked = m;
    assert_eq!(m.trade::<ConstantCurveCalculator>(&swap(1, 1)), Err(SwapTokenError::NotTradeable));
    assert_eq!(m.trade::<ConstantCurveCalculator>(&swap(1, 0)), Err(SwapTokenError::NotTradeable));
    assert_eq!(m, locked);
}

#[test]
fn below_the_maximum_stays_tradeable() {
    let mut m = market(1_000, 100, 121);
    let o = m.trade::<ConstantCurveCalculator>(&swap(10, 1)).unwrap();
    assert!(!o.migration_required);
    assert!(m.tradeable);
}

#[test]
fn migration_waits_for_lock_and_happens_once() {
    let mut m = market(1_000, 100, 120);
    let params = MigrateFundParams { open_time: None };
    assert_eq!(m.migrate(&config(10), &params, 1_000, 500), Err(MigrateFundError::NotMigratable));
    assert!(!m.migrated);
    m.trade::<ConstantCurveCalculator>(&swap(10, 1)).unwrap();
    let plan = m.migrate(&config(10), &params, 1_000, 500).unwrap();
    assert_eq!(
        plan,
        MigrationPlan {
            admin_fee: 100,
            pair_amount: 900,
            token_amount: 500,
            open_time: 0,
            pool_creation_fee: 1_504_039_380
        }
    );
    assert!(m.migrated);
    assert_eq!(
        m.migrate(&config(10), &params, 1_000, 500),
        Err(MigrateFundError::AlreadyMigrated)
    );
    assert_eq!(m.trade::<ConstantCurveCalculator>(&swap(1, 1)), Err(SwapTokenError::NotTradeable));
}

#[test]
fn migration_fee_of_ten_percent_on_a_thousand() {
    assert_eq!(split_migration_fee(1_000, 10), (100, 900));
    assert_eq!(split_migration_fee(999, 10), (99, 900));
    assert_eq!(split_migration_fee(1_000, 0), (0, 1_000));
    assert_eq!(split_migration_fee(1_000, 100), (1_000, 0));
}

#[test]
fn migration_with_open_time_and_bad_fee() {
    let mut m = market(1_000, 100, 0);
    m.tradeable = false;
    let before = m;
    let later = MigrateFundParams { open_time: Some(1_700_000_000) };
    assert_eq!(
        m.migrate(&config(101), &later, 1_000, 500),
        Err(MigrateFundError::InvalidMigrationFee)
    );
    assert_eq!(m, before);
    let plan = m.migrate(&config(0), &later, 1_000, 500).unwrap();
    assert_eq!(plan.open_time, 1_700_000_000);
    assert_eq!(plan.admin_fee, 0);
    assert_eq!(plan.pair_amount, 1_000);
}

#[test]
fn add_and_sub_by_asset() {
    let mut m = market(1_000, 100, 10_000);
    m.add(key(1), 5).unwrap();
    assert_eq!(m.virtual_token_balance, 1_005);
    m.add(key(2), 7).unwrap();
    assert_eq!(m.virtual_pair_balance, 107);
    m.add(key(9), 7).unwrap();
    m.sub(key(9), 7).unwrap();
    assert_eq!((m.virtual_token_balance, m.virtual_pair_balance), (1_005, 107));
    m.sub(key(1), 1_005).unwrap();
    assert_eq!(m.virtual_token_balance, 0);
    assert_eq!(m.sub(key(1), 1), Err(SwapTokenError::InsufficientLiquidity));
    assert_eq!(m.sub(key(2), 108), Err(SwapTokenError::InsufficientLiquidity));
    assert_eq!(m.virtual_pair_balance, 107);
    let mut full = market(u64::MAX, 0, 0);
    assert_eq!(full.add(key(1), 1), Err(SwapTokenError::Arithmetic(MathError::Overflow)));
}

#[test]
fn copy_keeps_every_field() {
    let mut m = market(1_000, 100, 10_000);
    m.minimum_pair_balance = 3;
    let c = m.copy();
    assert_eq!(*c, m);
    assert_eq!(c.minimum_pair_balance, 3);
}

#[test]
fn swap_event_records_the_trade() {
    let mut m = market(1_000, 100, 10_000);
    let o = m.trade::<ConstantCurveCalculator>(&swap(10, 1)).unwrap();
    let e = SwapEvent::from_trade(key(7), &m, &o, key(8), 42);
    assert_eq!(e.mint, key(1));
    assert_eq!(e.token_amount, 10);
    assert_eq!(e.pair_amount, 20);
    assert_eq!(e.virtual_token_balance, 990);
    assert_eq!(e.virtual_pair_balance, 120);
    assert_eq!(e.trade_direction, 1);
    assert_eq!(e.payer, key(8));
    assert_eq!(e.timestamp, 42);
}

#[test]
fn migrated_market_does_not_trade_even_if_flagged_tradeable() {
    let mut m = market(1_000, 100, 10_000);
    m.migrated = true;
    let before = m;
    assert_eq!(m.trade::<ConstantCurveCalculator>(&swap(1, 1)), Err(SwapTokenError::NotTradeable));
    assert_eq!(m.trade::<ConstantCurveCalculator>(&swap(1, 0)), Err(SwapTokenError::NotTradeable));
    assert_eq!(m, before);
}

#[test]
fn overdraft_is_refused_before_pricing() {
    let mut m = market(1_000, 100, u64::MAX);
    m.price = SafeNumber::from_parts(u128::MAX, 0);
    assert_eq!(
        m.trade::<ConstantCurveCalculator>(&swap(1_001, 1)),
        Err(SwapTokenError::InsufficientLiquidity)
    );
    assert_eq!(
        m.trade::<ConstantCurveCalculator>(&swap(10, 1)),
        Err(SwapTokenError::Arithmetic(MathError::Overflow))
    );
    m.price = SafeNumber::from_parts(0, 0);
    assert_eq!(
        m.trade::<ConstantCurveCalculator>(&swap(101, 0)),
        Err(SwapTokenError::InsufficientLiquidity)
    );
    assert_eq!(
        m.trade::<ConstantCurveCalculator>(&swap(10, 0)),
        Err(SwapTokenError::Arithmetic(MathError::DivisionByZero))
    );
}

#[test]
fn position_records_the_purchase() {
    let price = SafeNumber::from_parts(13656, 8);
    let p = Position::open(price, key(3), key(4), key(5), 1_700_000_000);
    assert_eq!(p.price, price);
    assert_eq!(p.token, key(3));
    assert_eq!(p.bounding_curve, key(4));
    assert_eq!(p.creator, key(5));
    assert_eq!(p.timestamp, 1_700_000_000);
}
