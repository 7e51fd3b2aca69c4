use crate::bounding_curve::MigrationTarget;
use crate::error::{MintTokenError, SwapTokenError};
use crate::validate::Validate;
use vstd::prelude::*;

verus! {

/// A creator's request to list a new token.
#[derive(Clone, Debug)]
pub struct MintTokenParams {
    pub name: String,
    pub symbol: String,
    pub uri: String,
    pub supply: u64,
    pub decimals: u8,
    pub liquidity_percentage: u8,
    pub migration_target: MigrationTarget,
}

impl MintTokenParams {
    /// The liquidity percentage lies in `0..=100`.
    pub fn validate_liquidity_percentage(&self) -> (r: Result<(), MintTokenError>)
        ensures
            r is Ok <==> self.liquidity_percentage <= 100,
            r is Err ==> r == Err::<(), MintTokenError>(
                MintTokenError::InvalidLiquidityPercentage,
            ),
    {
        if self.liquidity_percentage > 100 {
            return Err(MintTokenError::InvalidLiquidityPercentage);
        }
        Ok(())
    }
}

impl Validate for MintTokenParams {
    type Error = MintTokenError;

    open spec fn spec_valid(&self) -> bool {
        self.liquidity_percentage <= 100
    }

    open spec fn spec_error(&self) -> MintTokenError {
        MintTokenError::InvalidLiquidityPercentage
    }

    fn validate(&self) -> (r: Result<(), MintTokenError>) {
        self.validate_liquidity_percentage()
    }
}

/// A purchase of `amount` on the curve.
#[derive(Clone, Copy, Debug, PartialEq, Eq, Structural)]
pub struct BuyParams {
    pub amount: u64,
}

impl Validate for BuyParams {
    type Error = SwapTokenError;

    open spec fn spec_valid(&self) -> bool {
        self.amount > 0
    }

    open spec fn spec_error(&self) -> SwapTokenError {
        SwapTokenError::InvalidAmount
    }

    fn validate(&self) -> (r: Result<(), SwapTokenError>) {
        if self.amount == 0 {
            return Err(SwapTokenError::InvalidAmount);
        }
        Ok(())
    }
}

/// A sale of `amount` on the curve.
#[derive(Clone, Copy, Debug, PartialEq, Eq, Structural)]
pub struct SellParams {
    pub amount: u64,
}

impl Validate for SellParams {
    type Error = SwapTokenError;

    open spec fn spec_valid(&self) -> bool {
        self.amount > 0
    }

    open spec fn spec_error(&self) -> SwapTokenError {
        SwapTokenError::InvalidAmount
    }

    fn validate(&self) -> (r: Result<(), SwapTokenError>) {
        if self.amount == 0 {
            return Err(SwapTokenError::InvalidAmount);
        }
        Ok(())
    }
}

/// A trade of `amount` in the direction that `trade_direction` codes
/// (0: pair to token, 1: token to pair).
#[derive(Clone, Copy, Debug, PartialEq, Eq, Structural)]
pub struct SwapParams {
    pub amount: u64,
    pub trade_direction: u8,
}

impl Validate for SwapParams {
    type Error = SwapTokenError;

    open spec fn spec_valid(&self) -> bool {
        self.amount > 0
    }

    open spec fn spec_error(&self) -> SwapTokenError {
        SwapTokenError::InvalidAmount
    }

    fn validate(&self) -> (r: Result<(), SwapTokenError>) {
        if self.amount == 0 {
            return Err(SwapTokenError::InvalidAmount);
        }
        Ok(())
    }
}

/// When the pool that a migration creates opens for trading; `None` opens
/// it at once.
#[derive(Clone, Copy, Debug, PartialEq, Eq, Structural)]
pub struct MigrateFundParams {
    pub open_time: Option<u64>,
}

} // verus!
