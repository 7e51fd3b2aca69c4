use vstd::prelude::*;

verus! {

/// Program-wide settings that the administrator writes once.
#[derive(Clone, Copy, Debug, PartialEq, Eq, Structural)]
pub struct Config {
    pub bump: u8,
    /// Fee for registering token metadata, in units of 10^5 lamports.
    pub metadata_creation_fee: u8,
    /// Share of the pair reserve, in percent, kept as fee at migration.
    pub migration_percentage_fee: u8,
    /// Market valuation, in USD, that a new curve starts at.
    pub minimum_curve_usd_valuation: u16,
    /// Market valuation, in USD, at which a curve locks.
    pub maximum_curve_usd_valuation: u16,
    /// Lamports that the payer advances for creating the pool at migration.
    pub estimated_raydium_cp_pool_creation_fee: u64,
}

/// The administrator's input to `initialize_config`.
#[derive(Clone, Copy, Debug, PartialEq, Eq, Structural)]
pub struct InitializeConfigParams {
    pub metadata_creation_fee: u8,
    pub migration_percentage_fee: u8,
    pub minimum_curve_usd_valuation: u16,
    pub maximum_curve_usd_valuation: u16,
    pub estimated_raydium_cp_pool_fee: u64,
}

/// The settings that `params` describe, stored under the account's `bump`.
pub fn initialize_config(params: &InitializeConfigParams, bump: u8) -> (r: Config)
    ensures
        r == (Config {
            bump,
            metadata_creation_fee: params.metadata_creation_fee,
            migration_percentage_fee: params.migration_percentage_fee,
            minimum_curve_usd_valuation: params.minimum_curve_usd_valuation,
            maximum_curve_usd_valuation: params.maximum_curve_usd_valuation,
            estimated_raydium_cp_pool_creation_fee: params.estimated_raydium_cp_pool_fee,
        }),
{
    Config {
        bump,
        metadata_creation_fee: params.metadata_creation_fee,
        migration_percentage_fee: params.migration_percentage_fee,
        minimum_curve_usd_valuation: params.minimum_curve_usd_valuation,
        maximum_curve_usd_valuation: params.maximum_curve_usd_valuation,
        estimated_raydium_cp_pool_creation_fee: params.estimated_raydium_cp_pool_fee,
    }
}

} // verus!
