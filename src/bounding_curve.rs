use crate::config::Config;
use crate::curve::{CurveCalculator, TradeDirection};
use crate::error::{MigrateFundError, SwapTokenError};
use crate::params::{MigrateFundParams, SwapParams};
use crate::safe_number::{MathError, SafeNumber};
use crate::validate::Validate;
use vstd::prelude::*;

verus! {

/// The 32-byte address of an account or an asset, read big-endian as two
/// 128-bit halves.
#[derive(Clone, Copy, Debug, PartialEq, Eq, Structural)]
pub struct AccountKey {
    pub high: u128,
    pub low: u128,
}

/// Where a market's reserves go once it locks.
#[derive(Clone, Copy, Debug, PartialEq, Eq, Structural)]
pub enum MigrationTarget {
    Raydium,
}

/// The asset that tokens are traded against.
#[derive(Clone, Copy, Debug, PartialEq, Eq, Structural)]
pub struct Pair {
    pub mint: AccountKey,
    /// The pair is the ledger's native asset rather than a token.
    pub is_native: bool,
}

impl Pair {
    pub fn new(mint: AccountKey, is_native: bool) -> (r: Pair)
        ensures
            r == (Pair { mint, is_native }),
    {
        Pair { mint, is_native }
    }
}

/// A market: one token's bonding curve, with its fixed price and the
/// virtual balances that trades move.
#[derive(Clone, Copy, Debug, PartialEq, Eq, Structural)]
pub struct BoundingCurve {
    pub pair: Pair,
    pub mint: AccountKey,
    /// The listing price: pair units per token unit.
    pub price: SafeNumber,
    /// The supply sold on the curve.
    pub supply: u64,
    pub migrated: bool,
    pub tradeable: bool,
    pub liquidity_percentage: u8,
    pub minimum_pair_balance: u64,
    pub maximum_pair_balance: u64,
    pub virtual_token_balance: u64,
    pub virtual_pair_balance: u64,
}

/// What a successful trade moved.
#[derive(Clone, Copy, Debug, PartialEq, Eq, Structural)]
pub struct TradeOutcome {
    pub direction: TradeDirection,
    /// Tokens that left (`AtoB`) or entered (`BtoA`) the curve.
    pub token_amount: u64,
    /// Pair units that entered (`AtoB`) or left (`BtoA`) the curve.
    pub pair_amount: u64,
    /// This trade locked the market: it must now migrate.
    pub migration_required: bool,
}

/// What a migration hands to the pool, and the fee it keeps.
#[derive(Clone, Copy, Debug, PartialEq, Eq, Structural)]
pub struct MigrationPlan {
    /// Pair units kept as migration fee.
    pub admin_fee: u64,
    /// Pair units deposited into the pool.
    pub pair_amount: u64,
    /// Tokens deposited into the pool.
    pub token_amount: u64,
    /// When the pool opens; 0 opens it at once.
    pub open_time: u64,
    /// Lamports advanced for creating the pool.
    pub pool_creation_fee: u64,
}

/// The fee that a migration keeps of `pair_reserve`, in percent, truncated.
pub open spec fn migration_fee(pair_reserve: nat, fee_percentage: nat) -> nat {
    pair_reserve * fee_percentage / 100
}

/// Splits `pair_reserve` into the migration fee and the part that goes to
/// the pool.
pub fn split_migration_fee(pair_reserve: u64, fee_percentage: u8) -> (r: (u64, u64))
    requires
        fee_percentage <= 100,
    ensures
        r.0 == migration_fee(pair_reserve as nat, fee_percentage as nat),
        r.1 == pair_reserve - r.0,
{
    proof {
        assert(pair_reserve * fee_percentage / 100 <= pair_reserve) by (nonlinear_arith)
            requires
                fee_percentage <= 100,
        ;
    }
    let fee = (pair_reserve as u128 * fee_percentage as u128 / 100) as u64;
    (fee, pair_reserve - fee)
}

impl BoundingCurve {
    /// A market that has migrated is no longer tradeable.
    pub open spec fn well_formed(&self) -> bool {
        self.migrated ==> !self.tradeable
    }

    /// Adds `amount` to the balance of the asset `mint`: the token's or the
    /// pair's; another asset changes nothing.
    pub fn add(&mut self, mint: AccountKey, amount: u64) -> (r: Result<(), SwapTokenError>)
        ensures
            mint == old(self).mint ==> {
                &&& r is Ok <==> old(self).virtual_token_balance + amount <= u64::MAX
                &&& r is Ok ==> *final(self) == (BoundingCurve {
                    virtual_token_balance: (old(self).virtual_token_balance + amount) as u64,
                    ..*old(self)
                })
            },
            mint != old(self).mint && mint == old(self).pair.mint ==> {
                &&& r is Ok <==> old(self).virtual_pair_balance + amount <= u64::MAX
                &&& r is Ok ==> *final(self) == (BoundingCurve {
                    virtual_pair_balance: (old(self).virtual_pair_balance + amount) as u64,
                    ..*old(self)
                })
            },
            mint != old(self).mint && mint != old(self).pair.mint ==> r is Ok,
            r is Err ==> r == Err::<(), SwapTokenError>(SwapTokenError::Arithmetic(MathError::Overflow)),
            r is Err || (mint != old(self).mint && mint != old(self).pair.mint) ==> *final(self)
                == *old(self),
    {
        if mint == self.mint {
            match self.virtual_token_balance.checked_add(amount) {
                None => Err(SwapTokenError::Arithmetic(MathError::Overflow)),
                Some(b) => {
                    self.virtual_token_balance = b;
                    Ok(())
                },
            }
        } else if mint == self.pair.mint {
            match self.virtual_pair_balance.checked_add(amount) {
                None => Err(SwapTokenError::Arithmetic(MathError::Overflow)),
                Some(b) => {
                    self.virtual_pair_balance = b;
                    Ok(())
                },
            }
        } else {
            Ok(())
        }
    }

    /// Takes `amount` off the balance of the asset `mint`: the token's or the
    /// pair's; another asset changes nothing. A balance never drops below zero.
    pub fn sub(&mut self, mint: AccountKey, amount: u64) -> (r: Result<(), SwapTokenError>)
        ensures
            mint == old(self).mint ==> {
                &&& r is Ok <==> amount <= old(self).virtual_token_balance
                &&& r is Ok ==> *final(self) == (BoundingCurve {
                    virtual_token_balance: (old(self).virtual_token_balance - amount) as u64,
                    ..*old(self)
                })
            },
            mint != old(self).mint && mint == old(self).pair.mint ==> {
                &&& r is Ok <==> amount <= old(self).virtual_pair_balance
                &&& r is Ok ==> *final(self) == (BoundingCurve {
                    virtual_pair_balance: (old(self).virtual_pair_balance - amount) as u64,
                    ..*old(self)
                })
            },
            mint != old(self).mint && mint != old(self).pair.mint ==> r is Ok,
            r is Err ==> r == Err::<(), SwapTokenError>(SwapTokenError::InsufficientLiquidity),
            r is Err || (mint != old(self).mint && mint != old(self).pair.mint) ==> *final(self)
                == *old(self),
    {
        if mint == self.mint {
            if self.virtual_token_balance < amount {
                return Err(SwapTokenError::InsufficientLiquidity);
            }
            self.virtual_token_balance = self.virtual_token_balance - amount;
            Ok(())
        } else if mint == self.pair.mint {
            if self.virtual_pair_balance < amount {
                return Err(SwapTokenError::InsufficientLiquidity);
            }
            self.virtual_pair_balance = self.virtual_pair_balance - amount;
            Ok(())
        } else {
            Ok(())
        }
    }

    /// A boxed copy of the market.
    pub fn copy(&self) -> (r: Box<BoundingCurve>)
        ensures
            *r == *self,
    {
        Box::new(*self)
    }

    /// The market after a trade of `amount` in the direction coded by
    /// `direction_code`, priced by the strategy `C`, and what it moved.
    pub open spec fn spec_trade<C: CurveCalculator>(self, amount: u64, direction_code: u8) -> Result<
        (BoundingCurve, TradeOutcome),
        SwapTokenError,
    > {
        if amount == 0 {
            Err(SwapTokenError::InvalidAmount)
        } else if !self.tradeable || self.migrated {
            Err(SwapTokenError::NotTradeable)
        } else {
            match TradeDirection::spec_from_code(direction_code) {
                None => Err(SwapTokenError::InvalidTradeDirection),
                Some(direction) => {
                    let drawn = match direction {
                        TradeDirection::AtoB => self.virtual_token_balance,
                        TradeDirection::BtoA => self.virtual_pair_balance,
                    };
                    if amount > drawn {
                        Err(SwapTokenError::InsufficientLiquidity)
                    } else {
                        match C::spec_amount_out(self.price, amount, direction) {
                            Err(e) => Err(SwapTokenError::Arithmetic(e)),
                            Ok(counter) => {
                                let token_balance: int = match direction {
                                    TradeDirection::AtoB => self.virtual_token_balance - amount,
                                    TradeDirection::BtoA => self.virtual_token_balance + counter,
                                };
                                let pair_balance: int = match direction {
                                    TradeDirection::AtoB => self.virtual_pair_balance + counter,
                                    TradeDirection::BtoA => self.virtual_pair_balance - amount,
                                };
                                if token_balance > u64::MAX || pair_balance > u64::MAX {
                                    Err(SwapTokenError::Arithmetic(MathError::Overflow))
                                } else {
                                    let locked = pair_balance >= self.maximum_pair_balance;
                                    let outcome = TradeOutcome {
                                        direction,
                                        token_amount: match direction {
                                            TradeDirection::AtoB => amount,
                                            TradeDirection::BtoA => counter,
                                        },
                                        pair_amount: match direction {
                                            TradeDirection::AtoB => counter,
                                            TradeDirection::BtoA => amount,
                                        },
                                        migration_required: locked,
                                    };
                                    Ok(
                                        (
                                            BoundingCurve {
                                                virtual_token_balance: token_balance as u64,
                                                virtual_pair_balance: pair_balance as u64,
                                                tradeable: !locked,
                                                ..self
                                            },
                                            outcome,
                                        ),
                                    )
                                }
                            },
                        }
                    }
                },
            }
        }
    }

    /// Trades on the market at its fixed price.
    ///
    /// `AtoB` (code 1) takes `amount` tokens off the curve's token balance and
    /// adds their price in the pair asset to its pair balance; `BtoA` (code 0)
    /// takes `amount` off the pair balance and adds its worth in tokens to the
    /// token balance. A locked or migrated market does not trade, and an
    /// amount above the balance it draws from is refused before it is priced.
    /// A trade that leaves the pair balance at or above the maximum locks the
    /// market. A refused trade changes nothing.
    pub fn trade<C: CurveCalculator>(&mut self, params: &SwapParams) -> (r: Result<
        TradeOutcome,
        SwapTokenError,
    >)
        ensures
            match r {
                Ok(o) => old(self).spec_trade::<C>(params.amount, params.trade_direction) == Ok::<
                    (BoundingCurve, TradeOutcome),
                    SwapTokenError,
                >((*final(self), o)),
                Err(e) => old(self).spec_trade::<C>(params.amount, params.trade_direction)
                    == Err::<(BoundingCurve, TradeOutcome), SwapTokenError>(e) && *final(self)
                    == *old(self),
            },
    {
        match params.validate() {
            Err(e) => {
                return Err(e);
            },
            Ok(()) => {},
        }
        if !self.tradeable || self.migrated {
            return Err(SwapTokenError::NotTradeable);
        }
        let direction = match TradeDirection::from_code(params.trade_direction) {
            Err(e) => {
                return Err(e);
            },
            Ok(d) => d,
        };
        let drawn = match direction {
            TradeDirection::AtoB => self.virtual_token_balance,
            TradeDirection::BtoA => self.virtual_pair_balance,
        };
        if params.amount > drawn {
            return Err(SwapTokenError::InsufficientLiquidity);
        }
        let counter = match C::calculate_amount_out(self.price, params.amount, direction) {
            Err(e) => {
                return Err(SwapTokenError::Arithmetic(e));
            },
            Ok(c) => c,
        };
        let (token_balance, pair_balance, token_amount, pair_amount) = match direction {
            TradeDirection::AtoB => match self.virtual_pair_balance.checked_add(counter) {
                None => {
                    return Err(SwapTokenError::Arithmetic(MathError::Overflow));
                },
                Some(p) => (self.virtual_token_balance - params.amount, p, params.amount, counter),
            },
            TradeDirection::BtoA => match self.virtual_token_balance.checked_add(counter) {
                None => {
                    return Err(SwapTokenError::Arithmetic(MathError::Overflow));
                },
                Some(t) => (t, self.virtual_pair_balance - params.amount, counter, params.amount),
            },
        };
        let locked = pair_balance >= self.maximum_pair_balance;
        self.virtual_token_balance = token_balance;
        self.virtual_pair_balance = pair_balance;
        if locked {
            self.tradeable = false;
        }
        Ok(TradeOutcome { direction, token_amount, pair_amount, migration_required: locked })
    }

    /// The market after migrating reserves of `pair_reserve` pair units and
    /// `token_reserve` tokens under `config`, and the plan of the migration.
    pub open spec fn spec_migrate(
        self,
        config: Config,
        params: MigrateFundParams,
        pair_reserve: u64,
        token_reserve: u64,
    ) -> Result<(BoundingCurve, MigrationPlan), MigrateFundError> {
        if self.tradeable {
            Err(MigrateFundError::NotMigratable)
        } else if self.migrated {
            Err(MigrateFundError::AlreadyMigrated)
        } else if config.migration_percentage_fee > 100 {
            Err(MigrateFundError::InvalidMigrationFee)
        } else {
            let fee = migration_fee(pair_reserve as nat, config.migration_percentage_fee as nat);
            Ok(
                (
                    BoundingCurve { migrated: true, ..self },
                    MigrationPlan {
                        admin_fee: fee as u64,
                        pair_amount: (pair_reserve - fee) as u64,
                        token_amount: token_reserve,
                        open_time: match params.open_time {
                            Some(t) => t,
                            None => 0,
                        },
                        pool_creation_fee: config.estimated_raydium_cp_pool_creation_fee,
                    },
                ),
            )
        }
    }

    /// Migrates a locked market: keeps the configured fee of the pair
    /// reserve and plans the deposit of the rest, with all the tokens, into
    /// a new pool. A refused migration changes nothing.
    pub fn migrate(
        &mut self,
        config: &Config,
        params: &MigrateFundParams,
        pair_reserve: u64,
        token_reserve: u64,
    ) -> (r: Result<MigrationPlan, MigrateFundError>)
        ensures
            match r {
                Ok(plan) => old(self).spec_migrate(*config, *params, pair_reserve, token_reserve)
                    == Ok::<(BoundingCurve, MigrationPlan), MigrateFundError>((*final(self), plan)),
                Err(e) => old(self).spec_migrate(*config, *params, pair_reserve, token_reserve)
                    == Err::<(BoundingCurve, MigrationPlan), MigrateFundError>(e) && *final(self)
                    == *old(self),
            },
    {
        if self.tradeable {
            return Err(MigrateFundError::NotMigratable);
        }
        if self.migrated {
            return Err(MigrateFundError::AlreadyMigrated);
        }
        if config.migration_percentage_fee > 100 {
            return Err(MigrateFundError::InvalidMigrationFee);
        }
        let (admin_fee, pair_amount) = split_migration_fee(
            pair_reserve,
            config.migration_percentage_fee,
        );
        let open_time = match params.open_time {
            Some(t) => t,
            None => 0,
        };
        self.migrated = true;
        Ok(
            MigrationPlan {
                admin_fee,
                pair_amount,
                token_amount: token_reserve,
                open_time,
                pool_creation_fee: config.estimated_raydium_cp_pool_creation_fee,
            },
        )
    }
}

} // verus!
