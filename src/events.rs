use crate::bounding_curve::{AccountKey, BoundingCurve, TradeOutcome};
use crate::curve::TradeDirection;
use vstd::prelude::*;

verus! {

/// A token was listed.
#[derive(Clone, Debug)]
pub struct MintEvent {
    pub mint: AccountKey,
    pub name: String,
    pub symbol: String,
    pub uri: String,
    pub supply: u64,
    pub decimals: u8,
    pub bounding_curve: AccountKey,
    pub creator: AccountKey,
    pub timestamp: i64,
}

/// A trade went through.
#[derive(Clone, Copy, Debug, PartialEq, Eq, Structural)]
pub struct SwapEvent {
    pub token: AccountKey,
    pub mint: AccountKey,
    pub token_amount: u64,
    pub pair_amount: u64,
    pub virtual_token_balance: u64,
    pub virtual_pair_balance: u64,
    /// The wire code of the direction: 0 pair to token, 1 token to pair.
    pub trade_direction: u8,
    pub payer: AccountKey,
    pub timestamp: i64,
}

impl SwapEvent {
    /// The record of `outcome`, a trade on `market` that left it in the state
    /// given, by `payer` at `timestamp`.
    pub fn from_trade(
        token: AccountKey,
        market: &BoundingCurve,
        outcome: &TradeOutcome,
        payer: AccountKey,
        timestamp: i64,
    ) -> (r: SwapEvent)
        ensures
            r == (SwapEvent {
                token,
                mint: market.mint,
                token_amount: outcome.token_amount,
                pair_amount: outcome.pair_amount,
                virtual_token_balance: market.virtual_token_balance,
                virtual_pair_balance: market.virtual_pair_balance,
                trade_direction: match outcome.direction {
                    TradeDirection::BtoA => 0,
                    TradeDirection::AtoB => 1,
                },
                payer,
                timestamp,
            }),
    {
        let trade_direction: u8 = match outcome.direction {
            TradeDirection::BtoA => 0,
            TradeDirection::AtoB => 1,
        };
        SwapEvent {
            token,
            mint: market.mint,
            token_amount: outcome.token_amount,
            pair_amount: outcome.pair_amount,
            virtual_token_balance: market.virtual_token_balance,
            virtual_pair_balance: market.virtual_pair_balance,
            trade_direction,
            payer,
            timestamp,
        }
    }
}

/// A trade locked the market: it must migrate.
#[derive(Clone, Copy, Debug, PartialEq, Eq, Structural)]
pub struct MigrateTriggerEvent {
    pub mint: AccountKey,
    pub timestamp: i64,
}

/// A market's reserves moved into a pool.
#[derive(Clone, Copy, Debug, PartialEq, Eq, Structural)]
pub struct MigrateEvent {
    pub mint: AccountKey,
    pub timestamp: i64,
}

} // verus!
