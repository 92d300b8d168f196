use vstd::prelude::*;
use crate::address::Address;
use crate::reserve::{InterestRateConfig, Reserve, ReserveConfig};

verus! {

/// Changes to a reserve's configuration; a missing field keeps its value.
#[derive(Clone, Copy, Debug, PartialEq, Eq, Structural)]
pub struct UpdateReserveConfigParams {
    pub ltv_bps: Option<u16>,
    pub liquidation_threshold_bps: Option<u16>,
    pub deposit_limit: Option<u64>,
    pub borrow_limit: Option<u64>,
    pub deposits_enabled: Option<bool>,
    pub borrows_enabled: Option<bool>,
    pub optimal_utilization_bps: Option<u16>,
    pub base_rate_bps: Option<u16>,
    pub slope1_bps: Option<u16>,
    pub slope2_bps: Option<u16>,
    pub reserve_factor_bps: Option<u16>,
}

/// Errors of a configuration change.
#[derive(Clone, Copy, Debug, PartialEq, Eq, Structural)]
pub enum UpdateConfigError {
    /// The reserve belongs to another market.
    InvalidReserve,
    InvalidLtvThreshold,
    InvalidLiquidationThreshold,
    InvalidOptimalUtilization,
    InvalidReserveFactor,
    InvalidReserveConfig,
}

/// A new value if one is given, else the current one.
pub open spec fn pick<T>(p: Option<T>, current: T) -> T {
    match p {
        Some(v) => v,
        None => current,
    }
}

/// The configuration with every given field replaced.
pub open spec fn updated_config(c: ReserveConfig, p: UpdateReserveConfigParams) -> ReserveConfig {
    let ir = c.interest_rate_config;
    ReserveConfig {
        ltv_bps: pick(p.ltv_bps, c.ltv_bps),
        liquidation_threshold_bps: pick(p.liquidation_threshold_bps, c.liquidation_threshold_bps),
        deposit_limit: pick(p.deposit_limit, c.deposit_limit),
        borrow_limit: pick(p.borrow_limit, c.borrow_limit),
        deposits_enabled: pick(p.deposits_enabled, c.deposits_enabled),
        borrows_enabled: pick(p.borrows_enabled, c.borrows_enabled),
        interest_rate_config: InterestRateConfig {
            optimal_utilization_bps: pick(p.optimal_utilization_bps, ir.optimal_utilization_bps),
            base_rate_bps: pick(p.base_rate_bps, ir.base_rate_bps),
            slope1_bps: pick(p.slope1_bps, ir.slope1_bps),
            slope2_bps: pick(p.slope2_bps, ir.slope2_bps),
            reserve_factor_bps: pick(p.reserve_factor_bps, ir.reserve_factor_bps),
        },
    }
}

/// Why a configuration change fails, in the order the checks are made.
pub open spec fn update_failure(
    market_key: Address,
    reserve: Reserve,
    p: UpdateReserveConfigParams,
) -> Option<UpdateConfigError> {
    let n = updated_config(reserve.config, p);
    if reserve.lending_market != market_key {
        Some(UpdateConfigError::InvalidReserve)
    } else if n.ltv_bps >= n.liquidation_threshold_bps {
        Some(UpdateConfigError::InvalidLtvThreshold)
    } else if n.liquidation_threshold_bps > 10_000 {
        Some(UpdateConfigError::InvalidLiquidationThreshold)
    } else if p.optimal_utilization_bps matches Some(v) && v > 10_000 {
        Some(UpdateConfigError::InvalidOptimalUtilization)
    } else if p.reserve_factor_bps matches Some(v) && v > 10_000 {
        Some(UpdateConfigError::InvalidReserveFactor)
    } else if !n.valid() {
        Some(UpdateConfigError::InvalidReserveConfig)
    } else {
        None
    }
}

/// Replaces the given fields of the reserve's configuration, provided the
/// result keeps the configuration invariant.
pub fn handler(market_key: &Address, reserve: &mut Reserve, params: &UpdateReserveConfigParams) -> (r:
    Result<(), UpdateConfigError>)
    ensures
        match r {
            Ok(()) => update_failure(*market_key, *old(reserve), *params) is None
                && *final(reserve) == (Reserve {
                config: updated_config(old(reserve).config, *params),
                ..*old(reserve)
            }) && final(reserve).wf(),
            Err(e) => update_failure(*market_key, *old(reserve), *params) == Some(e)
                && *final(reserve) == *old(reserve),
        },
{
    if reserve.lending_market != *market_key {
        return Err(UpdateConfigError::InvalidReserve);
    }
    let mut new_config = reserve.config;
    if let Some(ltv) = params.ltv_bps {
        new_config.ltv_bps = ltv;
    }
    if let Some(liq_threshold) = params.liquidation_threshold_bps {
        new_config.liquidation_threshold_bps = liq_threshold;
    }
    if new_config.ltv_bps >= new_config.liquidation_threshold_bps {
        return Err(UpdateConfigError::InvalidLtvThreshold);
    }
    if new_config.liquidation_threshold_bps > 10000 {
        return Err(UpdateConfigError::InvalidLiquidationThreshold);
    }
    if let Some(deposit_limit) = params.deposit_limit {
        new_config.deposit_limit = deposit_limit;
    }
    if let Some(borrow_limit) = params.borrow_limit {
        new_config.borrow_limit = borrow_limit;
    }
    if let Some(deposits_enabled) = params.deposits_enabled {
        new_config.deposits_enabled = deposits_enabled;
    }
    if let Some(borrows_enabled) = params.borrows_enabled {
        new_config.borrows_enabled = borrows_enabled;
    }
    let mut new_ir_config = new_config.interest_rate_config;
    if let Some(optimal_util) = params.optimal_utilization_bps {
        if optimal_util > 10000 {
            return Err(UpdateConfigError::InvalidOptimalUtilization);
        }
        new_ir_config.optimal_utilization_bps = optimal_util;
    }
    if let Some(base_rate) = params.base_rate_bps {
        new_ir_config.base_rate_bps = base_rate;
    }
    if let Some(slope1) = params.slope1_bps {
        new_ir_config.slope1_bps = slope1;
    }
    if let Some(slope2) = params.slope2_bps {
        new_ir_config.slope2_bps = slope2;
    }
    if let Some(reserve_factor) = params.reserve_factor_bps {
        if reserve_factor > 10000 {
            return Err(UpdateConfigError::InvalidReserveFactor);
        }
        new_ir_config.reserve_factor_bps = reserve_factor;
    }
    new_config.interest_rate_config = new_ir_config;
    if !Reserve::validate_config(&new_config) {
        return Err(UpdateConfigError::InvalidReserveConfig);
    }
    reserve.config = new_config;
    Ok(())
}

} // verus!
