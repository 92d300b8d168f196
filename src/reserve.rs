use vstd::prelude::*;
use crate::address::Address;
use crate::math::{lemma_div_le, lemma_div_mul_le, lemma_mul_le};

verus! {

/// Clamps a mathematical value to the `u64` range from above.
pub open spec fn sat_u64(x: int) -> int {
    if x > u64::MAX as int {
        u64::MAX as int
    } else {
        x
    }
}

/// Utilization in BPS: borrows over deposits, 0 for an empty pool.
pub open spec fn utilization_spec(total_borrows: int, total_deposits: int) -> int {
    if total_deposits == 0 {
        0
    } else {
        total_borrows * 10_000 / total_deposits
    }
}

/// Kinked, piecewise-linear interest rate model.
#[derive(Clone, Copy, Debug, PartialEq, Eq, Structural)]
pub struct InterestRateConfig {
    /// Utilization at the kink.
    pub optimal_utilization_bps: u16,
    /// Borrow rate at zero utilization.
    pub base_rate_bps: u16,
    /// Rate added between zero and the optimal utilization.
    pub slope1_bps: u16,
    /// Rate added between the optimal and full utilization.
    pub slope2_bps: u16,
    /// Protocol share of borrow interest.
    pub reserve_factor_bps: u16,
}

/// Risk parameters and switches of a reserve.
#[derive(Clone, Copy, Debug, PartialEq, Eq, Structural)]
pub struct ReserveConfig {
    pub ltv_bps: u16,
    pub liquidation_threshold_bps: u16,
    /// Largest total of deposits; 0 means unlimited.
    pub deposit_limit: u64,
    /// Largest total of borrows; 0 means unlimited.
    pub borrow_limit: u64,
    pub deposits_enabled: bool,
    pub borrows_enabled: bool,
    pub interest_rate_config: InterestRateConfig,
}

/// Pool totals, cumulative indexes (scaled by `INDEX_ONE`) and current rates.
#[derive(Clone, Copy, Debug, PartialEq, Eq, Structural)]
pub struct ReserveLiquidity {
    pub total_deposits: u64,
    pub total_borrows: u64,
    pub accumulated_protocol_fees: u64,
    pub cumulative_borrow_index: u128,
    pub cumulative_supply_index: u128,
    pub current_borrow_rate_bps: u64,
    pub current_supply_rate_bps: u64,
}

/// A per-asset liquidity pool.
#[derive(Clone, Copy, Debug, PartialEq, Eq, Structural)]
pub struct Reserve {
    pub version: u8,
    pub bump: u8,
    pub lending_market: Address,
    pub token_mint: Address,
    pub token_decimals: u8,
    pub token_vault: Address,
    pub fee_receiver: Address,
    pub oracle: Address,
    pub last_update_slot: u64,
    pub last_update_timestamp: i64,
    pub config: ReserveConfig,
    pub liquidity: ReserveLiquidity,
}

impl InterestRateConfig {
    /// The borrow rate of the kinked model at utilization `u`.
    pub open spec fn borrow_rate_spec(self, u: int) -> int {
        let opt = self.optimal_utilization_bps as int;
        if u <= opt {
            self.base_rate_bps + if opt == 0 {
                0
            } else {
                u * self.slope1_bps / opt
            }
        } else {
            self.base_rate_bps + self.slope1_bps + if opt == 10_000 {
                self.slope2_bps as int
            } else {
                (u - opt) * self.slope2_bps / (10_000 - opt)
            }
        }
    }

    /// Supply rate: the borrow rate weighted by utilization, net of the reserve factor.
    pub open spec fn supply_rate_spec(self, borrow_rate: int, u: int) -> int {
        (borrow_rate * u / 10_000) * (10_000 - self.reserve_factor_bps) / 10_000
    }

    /// Borrow rate in BPS for a utilization in BPS (saturating at `u64::MAX`).
    pub fn calculate_borrow_rate(&self, utilization_bps: u64) -> (r: u64)
        requires
            self.optimal_utilization_bps <= 10_000,
        ensures
            r == sat_u64(self.borrow_rate_spec(utilization_bps as int)),
    {
        let opt = self.optimal_utilization_bps as u64;
        let s1 = self.slope1_bps as u64;
        if utilization_bps <= opt {
            let slope_rate: u64 = if opt == 0 {
                0
            } else {
                assert(utilization_bps * s1 <= 10_000 * 65_535) by (nonlinear_arith)
                    requires
                        utilization_bps <= 10_000,
                        s1 <= 65_535,
                ;
                (utilization_bps * s1) / opt
            };
            proof {
                if opt != 0 {
                    lemma_div_le(utilization_bps * s1, opt as int);
                }
            }
            self.base_rate_bps as u64 + slope_rate
        } else {
            let excess = (utilization_bps - opt) as u128;
            let remaining = (10_000 - opt) as u128;
            let s2 = self.slope2_bps as u128;
            let steep: u128 = if remaining == 0 {
                s2
            } else {
                assert(excess * s2 <= 0xffff_ffff_ffff_ffff * 65_535) by (nonlinear_arith)
                    requires
                        excess <= 0xffff_ffff_ffff_ffff,
                        s2 <= 65_535,
                ;
                proof {
                    lemma_div_le(excess * s2, remaining as int);
                }
                (excess * s2) / remaining
            };
            let total: u128 = self.base_rate_bps as u128 + s1 as u128 + steep;
            if total > u64::MAX as u128 {
                u64::MAX
            } else {
                total as u64
            }
        }
    }

    /// Supply rate in BPS for a borrow rate and a utilization (saturating at `u64::MAX`).
    pub fn calculate_supply_rate(&self, borrow_rate_bps: u64, utilization_bps: u64) -> (r: u64)
        requires
            self.reserve_factor_bps <= 10_000,
        ensures
            r == sat_u64(self.supply_rate_spec(borrow_rate_bps as int, utilization_bps as int)),
    {
        let br = borrow_rate_bps as u128;
        let u = utilization_bps as u128;
        assert(br * u <= 0xffff_ffff_ffff_ffff * 0xffff_ffff_ffff_ffff) by (nonlinear_arith)
            requires
                br <= 0xffff_ffff_ffff_ffff,
                u <= 0xffff_ffff_ffff_ffff,
        ;
        let gross = (br * u) / 10_000;
        let keep = (10_000 - self.reserve_factor_bps) as u128;
        proof {
            lemma_mul_le(br as int, u as int, 0xffff_ffff_ffff_ffff, 0xffff_ffff_ffff_ffff);
            lemma_div_mul_le(br * u, 10_000);
            lemma_mul_le(gross as int, keep as int, gross as int, 10_000);
        }
        let net = (gross * keep) / 10_000;
        if net > u64::MAX as u128 {
            u64::MAX
        } else {
            net as u64
        }
    }
}

impl ReserveConfig {
    /// The configuration invariant of a reserve.
    pub open spec fn valid(&self) -> bool {
        &&& self.ltv_bps < self.liquidation_threshold_bps
        &&& self.liquidation_threshold_bps <= 10_000
        &&& self.interest_rate_config.optimal_utilization_bps <= 10_000
        &&& self.interest_rate_config.reserve_factor_bps <= 10_000
    }
}

impl Reserve {
    /// A reserve whose configuration holds its invariant.
    pub open spec fn wf(&self) -> bool {
        self.config.valid()
    }

    /// Current utilization of the reserve, as computed on chain.
    pub open spec fn utilization(self) -> int {
        sat_u64(utilization_spec(self.liquidity.total_borrows as int, self.liquidity.total_deposits as int))
    }

    /// Borrow rate at the current utilization.
    pub open spec fn borrow_rate(self) -> int {
        sat_u64(self.config.interest_rate_config.borrow_rate_spec(self.utilization()))
    }

    /// Supply rate at the current utilization.
    pub open spec fn supply_rate(self) -> int {
        sat_u64(self.config.interest_rate_config.supply_rate_spec(self.borrow_rate(), self.utilization()))
    }

    /// The reserve with its rates recomputed from its utilization.
    pub open spec fn with_rates(self) -> Reserve {
        Reserve {
            liquidity: ReserveLiquidity {
                current_borrow_rate_bps: self.borrow_rate() as u64,
                current_supply_rate_bps: self.supply_rate() as u64,
                ..self.liquidity
            },
            ..self
        }
    }

    /// The reserve with new pool totals, updated at `slot` and `timestamp`,
    /// and rates recomputed from the new utilization.
    pub open spec fn touched(self, liquidity: ReserveLiquidity, slot: u64, timestamp: i64) -> Reserve {
        Reserve { liquidity, last_update_slot: slot, last_update_timestamp: timestamp, ..self }.with_rates()
    }

    /// How far borrows exceed deposits; 0 when they do not.
    pub open spec fn borrow_excess(self) -> int {
        if self.liquidity.total_borrows > self.liquidity.total_deposits {
            self.liquidity.total_borrows - self.liquidity.total_deposits
        } else {
            0
        }
    }

    /// Deposits not lent out, or 0 when borrows exceed deposits.
    pub open spec fn available_spec(self) -> int {
        if self.liquidity.total_deposits >= self.liquidity.total_borrows {
            self.liquidity.total_deposits - self.liquidity.total_borrows
        } else {
            0
        }
    }

    /// Utilization in BPS (saturating at `u64::MAX`).
    pub fn calculate_utilization_bps(&self) -> (r: u64)
        ensures
            r == self.utilization(),
    {
        if self.liquidity.total_deposits == 0 {
            return 0;
        }
        let num = self.liquidity.total_borrows as u128 * 10_000;
        let u = num / self.liquidity.total_deposits as u128;
        if u > u64::MAX as u128 {
            u64::MAX
        } else {
            u as u64
        }
    }

    /// Liquidity available for borrowing and withdrawal.
    pub fn available_liquidity(&self) -> (r: u64)
        ensures
            r == self.available_spec(),
    {
        self.liquidity.total_deposits.saturating_sub(self.liquidity.total_borrows)
    }

    /// Whether more than `max_age_slots` slots passed since the last update.
    pub fn is_stale(&self, current_slot: u64, max_age_slots: u64) -> (r: bool)
        ensures
            r == (current_slot > self.last_update_slot + max_age_slots),
    {
        current_slot > self.last_update_slot && current_slot - self.last_update_slot > max_age_slots
    }

    /// Whether a configuration holds the reserve invariant.
    pub fn validate_config(config: &ReserveConfig) -> (r: bool)
        ensures
            r == config.valid(),
    {
        config.ltv_bps < config.liquidation_threshold_bps && config.liquidation_threshold_bps
            <= 10000 && config.interest_rate_config.optimal_utilization_bps <= 10000
            && config.interest_rate_config.reserve_factor_bps <= 10000
    }

    /// Recomputes the current borrow and supply rates from the utilization.
    pub fn update_rates(&mut self)
        requires
            old(self).wf(),
        ensures
            *final(self) == old(self).with_rates(),
    {
        let utilization_bps = self.calculate_utilization_bps();
        let borrow_rate = self.config.interest_rate_config.calculate_borrow_rate(utilization_bps);
        let supply_rate = self.config.interest_rate_config.calculate_supply_rate(
            borrow_rate,
            utilization_bps,
        );
        self.liquidity.current_borrow_rate_bps = borrow_rate;
        self.liquidity.current_supply_rate_bps = supply_rate;
    }
}

} // verus!
