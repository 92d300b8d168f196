use vstd::prelude::*;
use crate::address::Address;
use crate::constants::{
    DEFAULT_BASE_RATE_BPS,
    DEFAULT_OPTIMAL_UTILIZATION_BPS,
    DEFAULT_RESERVE_FACTOR_BPS,
    DEFAULT_SLOPE1_BPS,
    DEFAULT_SLOPE2_BPS,
    INDEX_ONE,
    MAX_RESERVES,
};
use crate::market::LendingMarket;
use crate::reserve::{InterestRateConfig, Reserve, ReserveConfig, ReserveLiquidity};

verus! {

/// Parameters of a new reserve; missing limits are unlimited and a missing
/// rate model takes the default one.
#[derive(Clone, Copy, Debug, PartialEq, Eq, Structural)]
pub struct InitializeReserveParams {
    pub ltv_bps: u16,
    pub liquidation_threshold_bps: u16,
    pub deposit_limit: Option<u64>,
    pub borrow_limit: Option<u64>,
    pub interest_rate_config: Option<InterestRateConfigParams>,
}

/// An interest rate model given at reserve creation.
#[derive(Clone, Copy, Debug, PartialEq, Eq, Structural)]
pub struct InterestRateConfigParams {
    pub optimal_utilization_bps: u16,
    pub base_rate_bps: u16,
    pub slope1_bps: u16,
    pub slope2_bps: u16,
    pub reserve_factor_bps: u16,
}

/// The accounts a new reserve is tied to: its token, vault, fee receiver and oracle.
#[derive(Clone, Copy, Debug, PartialEq, Eq, Structural)]
pub struct ReserveAccounts {
    pub token_mint: Address,
    pub token_decimals: u8,
    pub token_vault: Address,
    pub fee_receiver: Address,
    pub oracle: Address,
    pub bump: u8,
}

/// Errors of reserve creation.
#[derive(Clone, Copy, Debug, PartialEq, Eq, Structural)]
pub enum ReserveError {
    InvalidLtvThreshold,
    InvalidLiquidationThreshold,
    MaxReservesReached,
    InvalidReserveConfig,
}

/// The rate model a reserve is created with.
pub open spec fn initial_rate_config(p: Option<InterestRateConfigParams>) -> InterestRateConfig {
    match p {
        Some(c) => InterestRateConfig {
            optimal_utilization_bps: c.optimal_utilization_bps,
            base_rate_bps: c.base_rate_bps,
            slope1_bps: c.slope1_bps,
            slope2_bps: c.slope2_bps,
            reserve_factor_bps: c.reserve_factor_bps,
        },
        None => InterestRateConfig {
            optimal_utilization_bps: DEFAULT_OPTIMAL_UTILIZATION_BPS,
            base_rate_bps: DEFAULT_BASE_RATE_BPS,
            slope1_bps: DEFAULT_SLOPE1_BPS,
            slope2_bps: DEFAULT_SLOPE2_BPS,
            reserve_factor_bps: DEFAULT_RESERVE_FACTOR_BPS,
        },
    }
}

/// The configuration a reserve is created with: deposits and borrows enabled.
pub open spec fn initial_config(p: InitializeReserveParams) -> ReserveConfig {
    ReserveConfig {
        ltv_bps: p.ltv_bps,
        liquidation_threshold_bps: p.liquidation_threshold_bps,
        deposit_limit: match p.deposit_limit {
            Some(v) => v,
            None => 0,
        },
        borrow_limit: match p.borrow_limit {
            Some(v) => v,
            None => 0,
        },
        deposits_enabled: true,
        borrows_enabled: true,
        interest_rate_config: initial_rate_config(p.interest_rate_config),
    }
}

/// Creates an empty reserve in the market, with both indexes at 1.0 and no
/// rates yet, and counts it in the market.
pub fn handler(
    market: &mut LendingMarket,
    market_key: &Address,
    accounts: &ReserveAccounts,
    params: &InitializeReserveParams,
    current_slot: u64,
    current_timestamp: i64,
) -> (r: Result<Reserve, ReserveError>)
    ensures
        ({
            let e = if params.ltv_bps >= params.liquidation_threshold_bps {
                Some(ReserveError::InvalidLtvThreshold)
            } else if params.liquidation_threshold_bps > 10_000 {
                Some(ReserveError::InvalidLiquidationThreshold)
            } else if old(market).reserves_count >= MAX_RESERVES {
                Some(ReserveError::MaxReservesReached)
            } else if !initial_config(*params).valid() {
                Some(ReserveError::InvalidReserveConfig)
            } else {
                None
            };
            match r {
                Ok(reserve) => e is None && reserve == (Reserve {
                    version: 1,
                    bump: accounts.bump,
                    lending_market: *market_key,
                    token_mint: accounts.token_mint,
                    token_decimals: accounts.token_decimals,
                    token_vault: accounts.token_vault,
                    fee_receiver: accounts.fee_receiver,
                    oracle: accounts.oracle,
                    last_update_slot: current_slot,
                    last_update_timestamp: current_timestamp,
                    config: initial_config(*params),
                    liquidity: ReserveLiquidity {
                        total_deposits: 0,
                        total_borrows: 0,
                        accumulated_protocol_fees: 0,
                        cumulative_borrow_index: INDEX_ONE,
                        cumulative_supply_index: INDEX_ONE,
                        current_borrow_rate_bps: 0,
                        current_supply_rate_bps: 0,
                    },
                }) && *final(market) == (LendingMarket {
                    reserves_count: (old(market).reserves_count + 1) as u8,
                    ..*old(market)
                }) && reserve.wf(),
                Err(err) => e == Some(err) && *final(market) == *old(market),
            }
        }),
{
    if params.ltv_bps >= params.liquidation_threshold_bps {
        return Err(ReserveError::InvalidLtvThreshold);
    }
    if params.liquidation_threshold_bps > 10000 {
        return Err(ReserveError::InvalidLiquidationThreshold);
    }
    if market.reserves_count >= MAX_RESERVES {
        return Err(ReserveError::MaxReservesReached);
    }
    let interest_rate_config = match params.interest_rate_config {
        Some(c) => InterestRateConfig {
            optimal_utilization_bps: c.optimal_utilization_bps,
            base_rate_bps: c.base_rate_bps,
            slope1_bps: c.slope1_bps,
            slope2_bps: c.slope2_bps,
            reserve_factor_bps: c.reserve_factor_bps,
        },
        None => InterestRateConfig {
            optimal_utilization_bps: DEFAULT_OPTIMAL_UTILIZATION_BPS,
            base_rate_bps: DEFAULT_BASE_RATE_BPS,
            slope1_bps: DEFAULT_SLOPE1_BPS,
            slope2_bps: DEFAULT_SLOPE2_BPS,
            reserve_factor_bps: DEFAULT_RESERVE_FACTOR_BPS,
        },
    };
    let config = ReserveConfig {
        ltv_bps: params.ltv_bps,
        liquidation_threshold_bps: params.liquidation_threshold_bps,
        deposit_limit: match params.deposit_limit {
            Some(v) => v,
            None => 0,
        },
        borrow_limit: match params.borrow_limit {
            Some(v) => v,
            None => 0,
        },
        deposits_enabled: true,
        borrows_enabled: true,
        interest_rate_config,
    };
    if !Reserve::validate_config(&config) {
        return Err(ReserveError::InvalidReserveConfig);
    }
    market.reserves_count = market.reserves_count + 1;
    Ok(
        Reserve {
            version: 1,
            bump: accounts.bump,
            lending_market: *market_key,
            token_mint: accounts.token_mint,
            token_decimals: accounts.token_decimals,
            token_vault: accounts.token_vault,
            fee_receiver: accounts.fee_receiver,
            oracle: accounts.oracle,
            last_update_slot: current_slot,
            last_update_timestamp: current_timestamp,
            config,
            liquidity: ReserveLiquidity {
                total_deposits: 0,
                total_borrows: 0,
                accumulated_protocol_fees: 0,
                cumulative_borrow_index: INDEX_ONE,
                cumulative_supply_index: INDEX_ONE,
                current_borrow_rate_bps: 0,
                current_supply_rate_bps: 0,
            },
        },
    )
}

} // verus!
