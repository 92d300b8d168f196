use vstd::prelude::*;
use crate::address::Address;
use crate::constants::{MAX_LIQUIDATION_BONUS_BPS, MAX_RESERVES};

verus! {

/// Global configuration of a lending market.
#[derive(Clone, Copy, Debug, PartialEq, Eq, Structural)]
pub struct LendingMarket {
    pub version: u8,
    pub bump: u8,
    /// May add reserves, change configs, set emergency mode, collect fees.
    pub authority: Address,
    /// Receives collected protocol fees.
    pub treasury: Address,
    /// When set, deposits and borrows are refused.
    pub emergency_mode: bool,
    /// Largest share of one debt a single liquidation may repay.
    pub close_factor_bps: u16,
    /// Extra collateral a liquidator receives, relative to the repaid debt.
    pub liquidation_bonus_bps: u16,
    /// Protocol share of the liquidation bonus.
    pub protocol_fee_bps: u16,
    pub reserves_count: u8,
}

impl LendingMarket {
    /// The market's configuration bounds.
    pub open spec fn wf(&self) -> bool {
        &&& self.close_factor_bps <= 10_000
        &&& self.liquidation_bonus_bps <= MAX_LIQUIDATION_BONUS_BPS
        &&& self.protocol_fee_bps <= 10_000
        &&& self.reserves_count <= MAX_RESERVES
    }

    pub fn is_emergency(&self) -> (r: bool)
        ensures
            r == self.emergency_mode,
    {
        self.emergency_mode
    }

    /// A close factor is valid when it is at most 100%.
    pub fn validate_close_factor(close_factor_bps: u16) -> (r: bool)
        ensures
            r == (close_factor_bps <= 10_000),
    {
        close_factor_bps <= 10000
    }

    /// A liquidation bonus is valid when it is at most 25%.
    pub fn validate_liquidation_bonus(bonus_bps: u16) -> (r: bool)
        ensures
            r == (bonus_bps <= MAX_LIQUIDATION_BONUS_BPS),
    {
        bonus_bps <= MAX_LIQUIDATION_BONUS_BPS
    }
}

} // verus!
