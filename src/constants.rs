use vstd::prelude::*;

verus! {

/// Basis points denominator (100% = 10 000 BPS).
pub const BPS_DENOMINATOR: u64 = 10_000;

/// Index scale factor: 1.0 for the cumulative interest indexes.
pub const INDEX_ONE: u128 = 1_000_000_000_000_000_000;

/// Number of decimals of USD values.
pub const USD_DECIMALS: u8 = 6;

/// USD value scale factor.
pub const USD_SCALE: u128 = 1_000_000;

/// Seconds in a (365-day) year.
pub const SECONDS_PER_YEAR: u64 = 31_536_000;

/// Slots per year, at roughly 400 ms per slot.
pub const SLOTS_PER_YEAR: u64 = 78_840_000;

/// Default close factor: at most half of a debt is repaid per liquidation.
pub const DEFAULT_CLOSE_FACTOR_BPS: u16 = 5_000;

/// Default liquidation bonus (5%).
pub const DEFAULT_LIQUIDATION_BONUS_BPS: u16 = 500;

/// Default protocol cut of the liquidation bonus (10%).
pub const DEFAULT_PROTOCOL_FEE_BPS: u16 = 1_000;

/// Default optimal utilization (80%).
pub const DEFAULT_OPTIMAL_UTILIZATION_BPS: u16 = 8_000;

/// Default base borrow rate (2%).
pub const DEFAULT_BASE_RATE_BPS: u16 = 200;

/// Default slope below the optimal utilization (10%).
pub const DEFAULT_SLOPE1_BPS: u16 = 1_000;

/// Default slope above the optimal utilization (100%).
pub const DEFAULT_SLOPE2_BPS: u16 = 10_000;

/// Default reserve factor: the protocol's share of borrow interest (10%).
pub const DEFAULT_RESERVE_FACTOR_BPS: u16 = 1_000;

/// Maximum number of reserves per lending market.
pub const MAX_RESERVES: u8 = 32;

/// Maximum number of collateral entries per obligation.
pub const MAX_OBLIGATION_DEPOSITS: usize = 8;

/// Maximum number of borrow entries per obligation.
pub const MAX_OBLIGATION_BORROWS: usize = 8;

/// Maximum loan-to-value (95%).
pub const MAX_LTV_BPS: u16 = 9_500;

/// Maximum liquidation threshold (98%).
pub const MAX_LIQUIDATION_THRESHOLD_BPS: u16 = 9_800;

/// Maximum liquidation bonus (25%).
pub const MAX_LIQUIDATION_BONUS_BPS: u16 = 2_500;

/// Maximum reserve factor (50%).
pub const MAX_RESERVE_FACTOR_BPS: u16 = 5_000;

/// Oldest oracle price accepted, in slots.
pub const MAX_ORACLE_STALENESS_SLOTS: u64 = 150;

/// Oldest reserve state accepted by an operation, in slots.
pub const MAX_RESERVE_STALENESS_SLOTS: u64 = 1_500;

/// Health factor of 1.0.
pub const HEALTH_FACTOR_ONE: u64 = 10_000;

/// Lowest health factor a borrow or withdrawal may leave.
pub const MIN_HEALTH_FACTOR_AFTER_BORROW: u64 = 10_000;

/// Smallest deposit accepted, in native units.
pub const MIN_DEPOSIT_AMOUNT: u64 = 1_000;

/// Smallest borrow accepted, in native units.
pub const MIN_BORROW_AMOUNT: u64 = 1_000;

/// Smallest collateral value, in scaled USD, for opening a borrow ($10).
pub const MIN_COLLATERAL_VALUE_USD: u128 = 10_000_000;

} // verus!
