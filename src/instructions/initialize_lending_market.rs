use vstd::prelude::*;
use crate::address::Address;
use crate::constants::{
    DEFAULT_CLOSE_FACTOR_BPS,
    DEFAULT_LIQUIDATION_BONUS_BPS,
    DEFAULT_PROTOCOL_FEE_BPS,
    MAX_LIQUIDATION_BONUS_BPS,
};
use crate::market::LendingMarket;

verus! {

/// Optional market parameters; a missing one takes its default.
#[derive(Clone, Copy, Debug, PartialEq, Eq, Structural)]
pub struct InitializeLendingMarketParams {
    pub close_factor_bps: Option<u16>,
    pub liquidation_bonus_bps: Option<u16>,
    pub protocol_fee_bps: Option<u16>,
}

/// Errors of market creation.
#[derive(Clone, Copy, Debug, PartialEq, Eq, Structural)]
pub enum LendingMarketError {
    InvalidCloseFactor,
    InvalidLiquidationBonus,
    InvalidProtocolFee,
}

/// A parameter, or its default when it is missing.
pub open spec fn or_default(p: Option<u16>, default: u16) -> u16 {
    match p {
        Some(v) => v,
        None => default,
    }
}

/// Creates a market out of emergency mode and without reserves, with the
/// given parameters or their defaults.
pub fn handler(
    authority: &Address,
    treasury: &Address,
    bump: u8,
    params: &InitializeLendingMarketParams,
) -> (r: Result<LendingMarket, LendingMarketError>)
    ensures
        ({
            let close = or_default(params.close_factor_bps, DEFAULT_CLOSE_FACTOR_BPS);
            let bonus = or_default(params.liquidation_bonus_bps, DEFAULT_LIQUIDATION_BONUS_BPS);
            let fee = or_default(params.protocol_fee_bps, DEFAULT_PROTOCOL_FEE_BPS);
            r == if close > 10_000 {
                Err(LendingMarketError::InvalidCloseFactor)
            } else if bonus > MAX_LIQUIDATION_BONUS_BPS {
                Err(LendingMarketError::InvalidLiquidationBonus)
            } else if fee > 10_000 {
                Err(LendingMarketError::InvalidProtocolFee)
            } else {
                Ok(
                    LendingMarket {
                        version: 1,
                        bump,
                        authority: *authority,
                        treasury: *treasury,
                        emergency_mode: false,
                        close_factor_bps: close,
                        liquidation_bonus_bps: bonus,
                        protocol_fee_bps: fee,
                        reserves_count: 0,
                    },
                )
            }
        }),
        r matches Ok(m) ==> m.wf(),
{
    let close_factor = match params.close_factor_bps {
        Some(v) => v,
        None => DEFAULT_CLOSE_FACTOR_BPS,
    };
    if !LendingMarket::validate_close_factor(close_factor) {
        return Err(LendingMarketError::InvalidCloseFactor);
    }
    let liq_bonus = match params.liquidation_bonus_bps {
        Some(v) => v,
        None => DEFAULT_LIQUIDATION_BONUS_BPS,
    };
    if !LendingMarket::validate_liquidation_bonus(liq_bonus) {
        return Err(LendingMarketError::InvalidLiquidationBonus);
    }
    let protocol_fee = match params.protocol_fee_bps {
        Some(v) => v,
        None => DEFAULT_PROTOCOL_FEE_BPS,
    };
    if protocol_fee > 10000 {
        return Err(LendingMarketError::InvalidProtocolFee);
    }
    Ok(
        LendingMarket {
            version: 1,
            bump,
            authority: *authority,
            treasury: *treasury,
            emergency_mode: false,
            close_factor_bps: close_factor,
            liquidation_bonus_bps: liq_bonus,
            protocol_fee_bps: protocol_fee,
            reserves_count: 0,
        },
    )
}

} // verus!
