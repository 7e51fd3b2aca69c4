use crate::safe_number::MathError;
use vstd::prelude::*;

verus! {

/// Why creating a market was refused.
#[derive(Clone, Copy, Debug, PartialEq, Eq, Structural)]
pub enum MintTokenError {
    /// The liquidity percentage is above 100.
    InvalidLiquidityPercentage,
    /// The price-feed account is not owned by the price oracle.
    InvalidFeedAccount,
    /// The price feed reports a price that no fixed-point number holds.
    InvalidFeedPrice,
    /// A market already exists for this token.
    AlreadyInitialized,
    /// The pricing arithmetic overflowed or divided by zero.
    Arithmetic(MathError),
}

/// Why a trade was refused.
#[derive(Clone, Copy, Debug, PartialEq, Eq, Structural)]
pub enum SwapTokenError {
    /// The direction code is neither 0 nor 1.
    InvalidTradeDirection,
    /// The market is locked or migrated.
    NotTradeable,
    /// The amount is zero.
    InvalidAmount,
    /// The token supply of the market is empty.
    EmptySupply,
    /// A virtual balance would drop below zero.
    InsufficientLiquidity,
    /// The conversion or a balance update overflowed or divided by zero.
    Arithmetic(MathError),
}

/// Why a migration was refused.
#[derive(Clone, Copy, Debug, PartialEq, Eq, Structural)]
pub enum MigrateFundError {
    /// The market is still tradeable.
    NotMigratable,
    /// The market has migrated already.
    AlreadyMigrated,
    /// The migration fee percentage is above 100.
    InvalidMigrationFee,
}

} // verus!
