use crate::bounding_curve::{AccountKey, BoundingCurve, Pair};
use crate::config::Config;
use crate::curve::{
    spec_listing_precision, target_pair_reserve, tradable_supply, ConstantCurveCalculator,
    CurveCalculator,
};
use crate::error::MintTokenError;
use crate::methods::{curve_pair_valuation, spec_curve_pair_valuation};
use crate::params::MintTokenParams;
use crate::safe_number::SafeNumber;
use crate::validate::Validate;
use vstd::prelude::*;

verus! {

/// What listing a token fixed.
#[derive(Clone, Copy, Debug, PartialEq, Eq, Structural)]
pub struct MintOutcome {
    pub initial_price: SafeNumber,
    /// Tokens sold on the curve.
    pub tradable_supply: u64,
    /// Pair balance at which the market locks.
    pub maximum_pair_balance: u64,
    /// Pair balance that the market starts with.
    pub minimum_pair_balance: u64,
    /// Lamports that the creator pays for registering metadata.
    pub metadata_fee: u64,
}

/// The market that listing `params` creates, with what it fixed; `slot`
/// holds the market of this token, if there is one already.
pub open spec fn spec_mint_token(
    slot: Option<BoundingCurve>,
    params: MintTokenParams,
    mint: AccountKey,
    pair: Pair,
    pair_usd_price: SafeNumber,
    config: Config,
) -> Result<(BoundingCurve, MintOutcome), MintTokenError> {
    if slot is Some {
        Err(MintTokenError::AlreadyInitialized)
    } else if params.liquidity_percentage > 100 {
        Err(MintTokenError::InvalidLiquidityPercentage)
    } else {
        match spec_curve_pair_valuation(pair_usd_price, config.maximum_curve_usd_valuation) {
            Err(e) => Err(MintTokenError::Arithmetic(e)),
            Ok(maximum_valuation) => match spec_curve_pair_valuation(
                pair_usd_price,
                config.minimum_curve_usd_valuation,
            ) {
                Err(e) => Err(MintTokenError::Arithmetic(e)),
                Ok(minimum_valuation) => {
                    let curve = ConstantCurveCalculator {
                        supply: params.supply,
                        liquidity_percentage: params.liquidity_percentage,
                        maximum_token_b_reserve_balance: maximum_valuation,
                    };
                    match spec_listing_precision(
                        tradable_supply(params.supply as nat, params.liquidity_percentage as nat),
                        target_pair_reserve(
                            maximum_valuation as nat,
                            params.liquidity_percentage as nat,
                        ),
                    ) {
                        Err(e) => Err(MintTokenError::Arithmetic(e)),
                        Ok(precision) => match curve.spec_initial_price(precision) {
                        Err(e) => Err(MintTokenError::Arithmetic(e)),
                        Ok(price) => {
                            let supply = tradable_supply(
                                params.supply as nat,
                                params.liquidity_percentage as nat,
                            ) as u64;
                            let maximum = target_pair_reserve(
                                maximum_valuation as nat,
                                params.liquidity_percentage as nat,
                            ) as u64;
                            Ok(
                                (
                                    BoundingCurve {
                                        pair,
                                        mint,
                                        price,
                                        supply,
                                        migrated: false,
                                        tradeable: true,
                                        liquidity_percentage: params.liquidity_percentage,
                                        minimum_pair_balance: minimum_valuation,
                                        maximum_pair_balance: maximum,
                                        virtual_token_balance: supply,
                                        virtual_pair_balance: minimum_valuation,
                                    },
                                    MintOutcome {
                                        initial_price: price,
                                        tradable_supply: supply,
                                        maximum_pair_balance: maximum,
                                        minimum_pair_balance: minimum_valuation,
                                        metadata_fee: (config.metadata_creation_fee
                                            * 100_000) as u64,
                                    },
                                ),
                            )
                        },
                    },
                    }
                },
            },
        }
    }
}

/// Lists a token: prices its curve from the dollar valuation band at the
/// feed price `pair_usd_price`, at the listing precision of its curve, and opens its market in `slot`, tradeable,
/// with the whole tradable supply and the minimum pair balance. A refused
/// listing leaves `slot` as it was.
pub fn mint_token(
    slot: &mut Option<BoundingCurve>,
    params: &MintTokenParams,
    mint: AccountKey,
    pair: Pair,
    pair_usd_price: SafeNumber,
    config: &Config,
) -> (r: Result<MintOutcome, MintTokenError>)
    ensures
        match r {
            Ok(o) => spec_mint_token(*old(slot), *params, mint, pair, pair_usd_price, *config)
                matches Ok((market, outcome)) && outcome == o && *final(slot) == Some(market),
            Err(e) => spec_mint_token(*old(slot), *params, mint, pair, pair_usd_price, *config)
                == Err::<(BoundingCurve, MintOutcome), MintTokenError>(e) && *final(slot)
                == *old(slot),
        },
{
    if slot.is_some() {
        return Err(MintTokenError::AlreadyInitialized);
    }
    match params.validate() {
        Err(e) => {
            return Err(e);
        },
        Ok(()) => {},
    }
    let maximum_valuation = match curve_pair_valuation(
        &pair_usd_price,
        config.maximum_curve_usd_valuation,
    ) {
        Err(e) => {
            return Err(MintTokenError::Arithmetic(e));
        },
        Ok(v) => v,
    };
    let minimum_valuation = match curve_pair_valuation(
        &pair_usd_price,
        config.minimum_curve_usd_valuation,
    ) {
        Err(e) => {
            return Err(MintTokenError::Arithmetic(e));
        },
        Ok(v) => v,
    };
    let curve = ConstantCurveCalculator::new(
        params.supply,
        params.liquidity_percentage,
        maximum_valuation,
    );
    let precision = match curve.listing_precision() {
        Err(e) => {
            return Err(MintTokenError::Arithmetic(e));
        },
        Ok(p) => p,
    };
    let price = match curve.calculate_initial_price(precision) {
        Err(e) => {
            return Err(MintTokenError::Arithmetic(e));
        },
        Ok(p) => p,
    };
    let supply = curve.get_bounding_curve_supply();
    let maximum = curve.get_token_b_reserve_balance();
    let metadata_fee = config.metadata_creation_fee as u64 * 100_000;
    *slot = Some(
        BoundingCurve {
            pair,
            mint,
            price,
            supply,
            migrated: false,
            tradeable: true,
            liquidity_percentage: params.liquidity_percentage,
            minimum_pair_balance: minimum_valuation,
            maximum_pair_balance: maximum,
            virtual_token_balance: supply,
            virtual_pair_balance: minimum_valuation,
        },
    );
    Ok(
        MintOutcome {
            initial_price: price,
            tradable_supply: supply,
            maximum_pair_balance: maximum,
            minimum_pair_balance: minimum_valuation,
            metadata_fee,
        },
    )
}

} // verus!
