use radiant::address::Address;
use radiant::constants::INDEX_ONE;
use radiant::instructions::borrow::{self, BorrowError};
use radiant::instructions::collect_fees::{self, CollectFeesError};
use radiant::instructions::deposit::{self, DepositError};
use radiant::instructions::initialize_lending_market::{
    self, InitializeLendingMarketParams, LendingMarketError,
};
use radiant::instructions::initialize_obligation;
use radiant::instructions::initialize_reserve::{
    self, InitializeReserveParams, InterestRateConfigParams, ReserveAccounts, ReserveError,
};
use radiant::instructions::liquidate::{self, LiquidateError};
use radiant::instructions::refresh_obligation::{self, PricedReserve, RefreshObligationError};
use radiant::instructions::refresh_reserve::{
    self, calculate_compound_factor, calculate_interest_earned, RefreshReserveError,
};
use radiant::instructions::repay::{self, RepayError};
use radiant::instructions::update_reserve_config::{
    self, UpdateConfigError, UpdateReserveConfigParams,
};
use radiant::instructions::withdraw::{self, WithdrawError};
use radiant::market::LendingMarket;
use radiant::obligation::{amount_with_interest, Obligation, ObligationCollateral, ObligationLiquidity};
use radiant::oracle::{checked_pow10, usd_value, OraclePrice, PriceError};
use radiant::reserve::{InterestRateConfig, Reserve, ReserveConfig};

const MK: Address = Address { hi: 0, lo: 1 };

fn addr(n: u128) -> Address {
    Address::new(7, n)
}

fn default_rates() -> InterestRateConfig {
    InterestRateConfig {
        optimal_utilization_bps: 8_000,
        base_rate_bps: 200,
        slope1_bps: 1_000,
        slope2_bps: 10_000,
        reserve_factor_bps: 1_000,
    }
}

fn market() -> LendingMarket {
    let p = InitializeLendingMarketParams {
        close_factor_bps: None,
        liquidation_bonus_bps: None,
        protocol_fee_bps: None,
    };
    initialize_lending_market::handler(&addr(1), &addr(2), 1, &p).unwrap()
}

fn reserve_params() -> InitializeReserveParams {
    InitializeReserveParams {
        ltv_bps: 8_000,
        liquidation_threshold_bps: 8_500,
        deposit_limit: None,
        borrow_limit: None,
        interest_rate_config: None,
    }
}

fn accounts(mint: u128) -> ReserveAccounts {
    ReserveAccounts {
        token_mint: addr(mint),
        token_decimals: 0,
        token_vault: addr(mint + 100),
        fee_receiver: addr(mint + 200),
        oracle: addr(mint + 300),
        bump: 9,
    }
}

fn reserve_with(params: &InitializeReserveParams) -> Reserve {
    let mut m = market();
    initialize_reserve::handler(&mut m, &MK, &accounts(50), params, 10, 10).unwrap()
}

fn plain_reserve() -> Reserve {
    reserve_with(&reserve_params())
}

fn obligation() -> Obligation {
    initialize_obligation::handler(&MK, &addr(5), 2, 10)
}

fn dep(m: &LendingMarket, r: &mut Reserve, o: &mut Obligation, amount: u64) -> Result<u64, DepositError> {
    deposit::handler(m, &MK, &addr(50), r, o, amount, 11, 11)
}

fn bor(
    m: &LendingMarket,
    r: &mut Reserve,
    o: &mut Obligation,
    amount: u64,
    p: OraclePrice,
    vault: u64,
) -> Result<u64, BorrowError> {
    borrow::handler(m, &MK, &addr(50), r, o, amount, &p, vault, 11, 11)
}

/// One scaled USD unit per whole token: with no decimals, values equal amounts.
fn good_price() -> OraclePrice {
    OraclePrice { price_usd: 1, last_updated_slot: 11 }
}

fn valued(o: &mut Obligation, r: &Reserve) {
    let q = vec![PricedReserve { key: addr(50), reserve: *r, price: good_price() }];
    refresh_obligation::handler(&MK, o, &q, &vec![], 11).unwrap();
}

// ---------- rate model and reserve helpers ----------

#[test]
fn borrow_rate_below_and_at_kink() {
    let c = default_rates();
    assert_eq!(c.calculate_borrow_rate(0), 200);
    assert_eq!(c.calculate_borrow_rate(2_666), 533);
    assert_eq!(c.calculate_borrow_rate(8_000), 1_200);
}

#[test]
fn borrow_rate_above_kink() {
    let c = default_rates();
    assert_eq!(c.calculate_borrow_rate(9_000), 6_200);
    assert_eq!(c.calculate_borrow_rate(10_000), 11_200);
}

#[test]
fn borrow_rate_degenerate_kinks() {
    let zero = InterestRateConfig { optimal_utilization_bps: 0, ..default_rates() };
    assert_eq!(zero.calculate_borrow_rate(0), 200);
    assert_eq!(zero.calculate_borrow_rate(5_000), 200 + 1_000 + 5_000);
    let full = InterestRateConfig { optimal_utilization_bps: 10_000, ..default_rates() };
    assert_eq!(full.calculate_borrow_rate(10_000), 1_200);
    assert_eq!(full.calculate_borrow_rate(12_000), 200 + 1_000 + 10_000);
}

#[test]
fn borrow_rate_saturates() {
    let c = InterestRateConfig { slope2_bps: u16::MAX, ..default_rates() };
    assert_eq!(c.calculate_borrow_rate(u64::MAX), u64::MAX);
}

#[test]
fn supply_rate_formula() {
    let c = default_rates();
    assert_eq!(c.calculate_supply_rate(533, 2_666), 127);
    assert_eq!(c.calculate_supply_rate(10_000, 10_000), 9_000);
    assert_eq!(c.calculate_supply_rate(0, 5_000), 0);
}

#[test]
fn utilization_and_available_liquidity() {
    let mut r = plain_reserve();
    assert_eq!(r.calculate_utilization_bps(), 0);
    assert_eq!(r.available_liquidity(), 0);
    r.liquidity.total_deposits = 15_000;
    r.liquidity.total_borrows = 4_000;
    assert_eq!(r.calculate_utilization_bps(), 2_666);
    assert_eq!(r.available_liquidity(), 11_000);
    r.liquidity.total_borrows = 20_000;
    assert_eq!(r.calculate_utilization_bps(), 13_333);
    assert_eq!(r.available_liquidity(), 0);
}

#[test]
fn staleness_window() {
    let r = plain_reserve();
    assert!(!r.is_stale(10, 1_500));
    assert!(!r.is_stale(1_510, 1_500));
    assert!(r.is_stale(1_511, 1_500));
    assert!(!r.is_stale(u64::MAX, u64::MAX));
}

#[test]
fn config_validation() {
    let c = ReserveConfig {
        ltv_bps: 8_000,
        liquidation_threshold_bps: 8_500,
        deposit_limit: 0,
        borrow_limit: 0,
        deposits_enabled: true,
        borrows_enabled: true,
        interest_rate_config: default_rates(),
    };
    assert!(Reserve::validate_config(&c));
    assert!(!Reserve::validate_config(&ReserveConfig { ltv_bps: 8_500, ..c }));
    assert!(!Reserve::validate_config(&ReserveConfig { liquidation_threshold_bps: 10_001, ..c }));
    let bad_rf = InterestRateConfig { reserve_factor_bps: 10_001, ..default_rates() };
    assert!(!Reserve::validate_config(&ReserveConfig { interest_rate_config: bad_rf, ..c }));
    let bad_opt = InterestRateConfig { optimal_utilization_bps: 10_001, ..default_rates() };
    assert!(!Reserve::validate_config(&ReserveConfig { interest_rate_config: bad_opt, ..c }));
}

#[test]
fn market_validators() {
    assert!(LendingMarket::validate_close_factor(10_000));
    assert!(!LendingMarket::validate_close_factor(10_001));
    assert!(LendingMarket::validate_liquidation_bonus(2_500));
    assert!(!LendingMarket::validate_liquidation_bonus(2_501));
}

// ---------- interest accrual ----------

#[test]
fn compound_factor_values() {
    assert_eq!(calculate_compound_factor(10_000, 31_536_000), Ok(INDEX_ONE));
    assert_eq!(calculate_compound_factor(533, 31_536_000), Ok(53_300_000_000_000_000));
    assert_eq!(calculate_compound_factor(0, 31_536_000), Ok(0));
    assert_eq!(
        calculate_compound_factor(u64::MAX, u64::MAX),
        Err(RefreshReserveError::MathOverflow)
    );
}

#[test]
fn interest_earned_values() {
    assert_eq!(calculate_interest_earned(400_000, 53_300_000_000_000_000), Ok(21_320));
    assert_eq!(calculate_interest_earned(1_000, INDEX_ONE / 2), Ok(500));
    assert_eq!(
        calculate_interest_earned(u64::MAX, INDEX_ONE * 2),
        Err(RefreshReserveError::MathOverflow)
    );
}

#[test]
fn refresh_without_borrows_only_moves_clock() {
    let mut r = plain_reserve();
    r.liquidity.total_deposits = 1_000;
    refresh_reserve::handler(&MK, &mut r, 50, 500).unwrap();
    assert_eq!(r.last_update_slot, 50);
    assert_eq!(r.last_update_timestamp, 500);
    assert_eq!(r.liquidity.cumulative_borrow_index, INDEX_ONE);
    assert_eq!(r.liquidity.current_borrow_rate_bps, 200);
    assert_eq!(r.liquidity.current_supply_rate_bps, 0);
}

#[test]
fn refresh_caps_elapsed_time_at_one_year() {
    let mut r = plain_reserve();
    r.liquidity.total_deposits = 1_000_000;
    r.liquidity.total_borrows = 100_000;
    r.liquidity.current_borrow_rate_bps = 10_000;
    let mut s = r;
    refresh_reserve::handler(&MK, &mut r, 20, 10 + 31_536_000).unwrap();
    refresh_reserve::handler(&MK, &mut s, 20, 10 + 5 * 31_536_000).unwrap();
    assert_eq!(r.liquidity.cumulative_borrow_index, 2 * INDEX_ONE);
    assert_eq!(s.liquidity.cumulative_borrow_index, 2 * INDEX_ONE);
    assert_eq!(r.liquidity.total_borrows, 200_000);
    assert_eq!(r.liquidity.accumulated_protocol_fees, 10_000);
    assert_eq!(r.liquidity.cumulative_supply_index, INDEX_ONE + INDEX_ONE * 90_000 / 1_000_000);
}

#[test]
fn refresh_in_earlier_slot_changes_nothing() {
    let mut r = plain_reserve();
    r.liquidity.total_borrows = 5;
    let before = r;
    refresh_reserve::handler(&MK, &mut r, 3, 99_999).unwrap();
    assert_eq!(r, before);
}

#[test]
fn refresh_rejects_foreign_reserve() {
    let mut r = plain_reserve();
    let before = r;
    assert_eq!(
        refresh_reserve::handler(&addr(99), &mut r, 20, 20),
        Err(RefreshReserveError::InvalidReserve)
    );
    assert_eq!(r, before);
}

#[test]
fn refresh_overflow_leaves_reserve_unchanged() {
    let mut r = plain_reserve();
    r.liquidity.total_borrows = u64::MAX;
    r.liquidity.total_deposits = 1;
    r.liquidity.current_borrow_rate_bps = u64::MAX;
    let before = r;
    assert_eq!(
        refresh_reserve::handler(&MK, &mut r, 20, 10 + 31_536_000),
        Err(RefreshReserveError::MathOverflow)
    );
    assert_eq!(r, before);
}

// ---------- obligation helpers ----------

fn entry_obligation() -> Obligation {
    let mut o = obligation();
    o.deposits.push(ObligationCollateral::new(addr(60), 1_000, INDEX_ONE));
    o.deposits.push(ObligationCollateral::new(addr(61), 2_000, 0));
    o.borrows.push(ObligationLiquidity::new(addr(62), 500, INDEX_ONE));
    o
}

#[test]
fn entry_constructors() {
    let c = ObligationCollateral::new(addr(60), 1_000, INDEX_ONE);
    assert_eq!(c.deposited_amount, 1_000);
    assert_eq!(c.supply_index_snapshot, INDEX_ONE);
    assert_eq!(c.market_value_usd, 0);
    let l = ObligationLiquidity::new(addr(62), 500, 7);
    assert_eq!(l.reserve, addr(62));
    assert_eq!(l.borrowed_amount, 500);
    assert_eq!(l.borrow_index_snapshot, 7);
    assert_eq!(l.market_value_usd, 0);
}

#[test]
fn finding_entries() {
    let o = entry_obligation();
    assert_eq!(o.find_deposit(&addr(61)), Some(1));
    assert_eq!(o.find_deposit(&addr(62)), None);
    assert_eq!(o.find_borrow(&addr(62)), Some(0));
    assert_eq!(o.find_borrow(&addr(60)), None);
    assert!(o.has_deposits());
    assert!(o.has_borrows());
    assert!(!obligation().has_deposits());
    assert!(!obligation().has_borrows());
}

#[test]
fn amounts_with_interest() {
    let o = entry_obligation();
    assert_eq!(o.get_deposit_amount_with_interest(0, INDEX_ONE * 3 / 2), Some(1_500));
    assert_eq!(o.get_deposit_amount_with_interest(1, INDEX_ONE * 2), Some(0));
    assert_eq!(o.get_deposit_amount_with_interest(2, INDEX_ONE), None);
    assert_eq!(o.get_borrow_amount_with_interest(0, INDEX_ONE * 11 / 10), Some(550));
    assert_eq!(o.get_borrow_amount_with_interest(1, INDEX_ONE), None);
    assert_eq!(amount_with_interest(10, 3, 2), Some(15));
    assert_eq!(amount_with_interest(10, 3, 0), Some(10));
    assert_eq!(amount_with_interest(u64::MAX, 2, 1), None);
}

#[test]
fn health_factor_values() {
    let mut o = obligation();
    assert_eq!(o.calculate_health_factor(), None);
    assert!(o.is_healthy());
    assert!(!o.is_liquidatable());
    o.borrowed_value_usd = 80_000;
    o.unhealthy_borrow_value_usd = 85_000;
    assert_eq!(o.calculate_health_factor(), Some(10_625));
    assert!(o.is_healthy());
    o.borrowed_value_usd = 85_000;
    assert_eq!(o.calculate_health_factor(), Some(10_000));
    assert!(o.is_liquidatable());
    o.borrowed_value_usd = 1;
    o.unhealthy_borrow_value_usd = u128::MAX / 10_000;
    assert_eq!(o.calculate_health_factor(), Some(u64::MAX));
}

#[test]
fn health_factor_law_on_values() {
    let mut o = obligation();
    o.borrowed_value_usd = 1_000;
    o.unhealthy_borrow_value_usd = 999;
    assert!(o.is_liquidatable());
    o.unhealthy_borrow_value_usd = 1_000;
    assert!(o.is_liquidatable());
    o.unhealthy_borrow_value_usd = 1_001;
    assert!(!o.is_liquidatable());
    // Within one part in 10 000 above the debt the floored factor is exactly 1.0.
    o.borrowed_value_usd = 100_000;
    o.unhealthy_borrow_value_usd = 100_001;
    assert_eq!(o.calculate_health_factor(), Some(10_000));
    assert!(o.is_liquidatable());
}

#[test]
fn remaining_capacity() {
    let mut o = obligation();
    o.allowed_borrow_value_usd = 800;
    o.borrowed_value_usd = 300;
    assert_eq!(o.remaining_borrow_capacity_usd(), 500);
    o.borrowed_value_usd = 900;
    assert_eq!(o.remaining_borrow_capacity_usd(), 0);
}

#[test]
fn oracle_helpers() {
    assert_eq!(checked_pow10(0), Some(1));
    assert_eq!(checked_pow10(6), Some(1_000_000));
    assert_eq!(checked_pow10(38), Some(10u128.pow(38)));
    assert_eq!(checked_pow10(39), None);
    assert_eq!(usd_value(1_000_000, 1_000_000, 3), Some(1_000_000_000));
    assert_eq!(usd_value(5, 7, 0), Some(35));
    assert_eq!(usd_value(u128::MAX, 2, 0), None);
    assert_eq!(usd_value(1, 1, 40), None);
    let p = OraclePrice { price_usd: 5, last_updated_slot: 100 };
    assert_eq!(p.check(250), Ok(()));
    assert_eq!(p.check(251), Err(PriceError::Stale));
    assert_eq!(OraclePrice { price_usd: 0, last_updated_slot: 100 }.check(100), Err(PriceError::Invalid));
}

// ---------- market and reserve lifecycle ----------

#[test]
fn market_defaults_and_overrides() {
    let m = market();
    assert_eq!(m.close_factor_bps, 5_000);
    assert_eq!(m.liquidation_bonus_bps, 500);
    assert_eq!(m.protocol_fee_bps, 1_000);
    assert_eq!(m.reserves_count, 0);
    assert!(!m.emergency_mode);
    assert_eq!(m.authority, addr(1));
    let p = InitializeLendingMarketParams {
        close_factor_bps: Some(10_000),
        liquidation_bonus_bps: Some(2_500),
        protocol_fee_bps: Some(0),
    };
    let m = initialize_lending_market::handler(&addr(1), &addr(2), 1, &p).unwrap();
    assert_eq!((m.close_factor_bps, m.liquidation_bonus_bps, m.protocol_fee_bps), (10_000, 2_500, 0));
}

#[test]
fn market_parameter_errors() {
    let base = InitializeLendingMarketParams {
        close_factor_bps: None,
        liquidation_bonus_bps: None,
        protocol_fee_bps: None,
    };
    let p = InitializeLendingMarketParams { close_factor_bps: Some(10_001), ..base };
    assert_eq!(initialize_lending_market::handler(&addr(1), &addr(2), 1, &p), Err(LendingMarketError::InvalidCloseFactor));
    let p = InitializeLendingMarketParams { liquidation_bonus_bps: Some(2_501), ..base };
    assert_eq!(initialize_lending_market::handler(&addr(1), &addr(2), 1, &p), Err(LendingMarketError::InvalidLiquidationBonus));
    let p = InitializeLendingMarketParams { protocol_fee_bps: Some(10_001), ..base };
    assert_eq!(initialize_lending_market::handler(&addr(1), &addr(2), 1, &p), Err(LendingMarketError::InvalidProtocolFee));
}

#[test]
fn reserve_creation() {
    let mut m = market();
    let r = initialize_reserve::handler(&mut m, &MK, &accounts(50), &reserve_params(), 10, 20).unwrap();
    assert_eq!(m.reserves_count, 1);
    assert_eq!(r.lending_market, MK);
    assert_eq!(r.config.interest_rate_config, default_rates());
    assert_eq!(r.liquidity.cumulative_borrow_index, INDEX_ONE);
    assert_eq!(r.liquidity.cumulative_supply_index, INDEX_ONE);
    assert_eq!((r.last_update_slot, r.last_update_timestamp), (10, 20));
    assert!(r.config.deposits_enabled && r.config.borrows_enabled);
    assert_eq!((r.config.deposit_limit, r.config.borrow_limit), (0, 0));
}

#[test]
fn reserve_creation_errors() {
    let mut m = market();
    let p = InitializeReserveParams { ltv_bps: 8_500, ..reserve_params() };
    assert_eq!(initialize_reserve::handler(&mut m, &MK, &accounts(50), &p, 1, 1), Err(ReserveError::InvalidLtvThreshold));
    let p = InitializeReserveParams { ltv_bps: 9_000, liquidation_threshold_bps: 10_001, ..reserve_params() };
    assert_eq!(initialize_reserve::handler(&mut m, &MK, &accounts(50), &p, 1, 1), Err(ReserveError::InvalidLiquidationThreshold));
    let rates = InterestRateConfigParams {
        optimal_utilization_bps: 10_001,
        base_rate_bps: 0,
        slope1_bps: 0,
        slope2_bps: 0,
        reserve_factor_bps: 0,
    };
    let p = InitializeReserveParams { interest_rate_config: Some(rates), ..reserve_params() };
    assert_eq!(initialize_reserve::handler(&mut m, &MK, &accounts(50), &p, 1, 1), Err(ReserveError::InvalidReserveConfig));
    m.reserves_count = 32;
    assert_eq!(
        initialize_reserve::handler(&mut m, &MK, &accounts(50), &reserve_params(), 1, 1),
        Err(ReserveError::MaxReservesReached)
    );
    assert_eq!(m.reserves_count, 32);
}

fn no_update() -> UpdateReserveConfigParams {
    UpdateReserveConfigParams {
        ltv_bps: None,
        liquidation_threshold_bps: None,
        deposit_limit: None,
        borrow_limit: None,
        deposits_enabled: None,
        borrows_enabled: None,
        optimal_utilization_bps: None,
        base_rate_bps: None,
        slope1_bps: None,
        slope2_bps: None,
        reserve_factor_bps: None,
    }
}

#[test]
fn config_update() {
    let mut r = plain_reserve();
    let p = UpdateReserveConfigParams {
        ltv_bps: Some(7_000),
        deposit_limit: Some(5_000),
        borrows_enabled: Some(false),
        slope2_bps: Some(30_000),
        ..no_update()
    };
    update_reserve_config::handler(&MK, &mut r, &p).unwrap();
    assert_eq!(r.config.ltv_bps, 7_000);
    assert_eq!(r.config.liquidation_threshold_bps, 8_500);
    assert_eq!(r.config.deposit_limit, 5_000);
    assert!(!r.config.borrows_enabled);
    assert!(r.config.deposits_enabled);
    assert_eq!(r.config.interest_rate_config.slope2_bps, 30_000);
    assert_eq!(r.config.interest_rate_config.base_rate_bps, 200);
}

#[test]
fn config_update_errors() {
    let mut r = plain_reserve();
    let before = r;
    assert_eq!(update_reserve_config::handler(&addr(9), &mut r, &no_update()), Err(UpdateConfigError::InvalidReserve));
    let p = UpdateReserveConfigParams { ltv_bps: Some(9_000), ..no_update() };
    assert_eq!(update_reserve_config::handler(&MK, &mut r, &p), Err(UpdateConfigError::InvalidLtvThreshold));
    let p = UpdateReserveConfigParams { liquidation_threshold_bps: Some(10_001), ..no_update() };
    assert_eq!(update_reserve_config::handler(&MK, &mut r, &p), Err(UpdateConfigError::InvalidLiquidationThreshold));
    let p = UpdateReserveConfigParams { optimal_utilization_bps: Some(10_001), ..no_update() };
    assert_eq!(update_reserve_config::handler(&MK, &mut r, &p), Err(UpdateConfigError::InvalidOptimalUtilization));
    let p = UpdateReserveConfigParams { reserve_factor_bps: Some(10_001), ..no_update() };
    assert_eq!(update_reserve_config::handler(&MK, &mut r, &p), Err(UpdateConfigError::InvalidReserveFactor));
    assert_eq!(r, before);
}

#[test]
fn fee_collection() {
    let mut r = plain_reserve();
    assert_eq!(collect_fees::handler(&MK, &mut r, 0, 20, 20), Err(CollectFeesError::NoFeesToCollect));
    assert_eq!(collect_fees::handler(&addr(9), &mut r, 0, 20, 20), Err(CollectFeesError::InvalidReserve));
    r.liquidity.accumulated_protocol_fees = 1_000;
    assert_eq!(collect_fees::handler(&MK, &mut r, 300, 20, 20), Ok(300));
    assert_eq!(r.liquidity.accumulated_protocol_fees, 700);
    assert_eq!(collect_fees::handler(&MK, &mut r, 5_000, 21, 21), Ok(700));
    assert_eq!(r.liquidity.accumulated_protocol_fees, 0);
    assert_eq!(r.last_update_slot, 21);
}

#[test]
fn obligation_creation() {
    let o = obligation();
    assert_eq!(o.owner, addr(5));
    assert_eq!(o.lending_market, MK);
    assert!(o.deposits.is_empty() && o.borrows.is_empty());
    assert_eq!(o.deposited_value_usd, 0);
}

// ---------- deposits ----------

#[test]
fn deposit_errors() {
    let m = market();
    let mut r = plain_reserve();
    let mut o = obligation();
    assert_eq!(dep(&m, &mut r, &mut o, 0), Err(DepositError::AmountZero));
    assert_eq!(dep(&m, &mut r, &mut o, 999), Err(DepositError::AmountTooSmall));
    let mut foreign = o.clone();
    foreign.lending_market = addr(9);
    assert_eq!(dep(&m, &mut r, &mut foreign, 1_000), Err(DepositError::InvalidObligation));
    let mut other = r;
    other.lending_market = addr(9);
    assert_eq!(dep(&m, &mut other, &mut o, 1_000), Err(DepositError::InvalidReserve));
    let mut off = r;
    off.config.deposits_enabled = false;
    assert_eq!(dep(&m, &mut off, &mut o, 1_000), Err(DepositError::DepositsDisabled));
    let mut limited = r;
    limited.config.deposit_limit = 1_500;
    assert_eq!(dep(&m, &mut limited, &mut o, 1_000), Ok(1_000));
    assert_eq!(dep(&m, &mut limited, &mut o, 1_000), Err(DepositError::DepositLimitExceeded));
    let mut full = r;
    full.liquidity.total_deposits = u64::MAX;
    assert_eq!(dep(&m, &mut full, &mut o, 1_000), Err(DepositError::MathOverflow));
}

#[test]
fn deposit_limit_of_entries() {
    let m = market();
    let mut r = plain_reserve();
    let mut o = obligation();
    for i in 0..8 {
        o.deposits.push(ObligationCollateral::new(addr(200 + i), 1_000, INDEX_ONE));
    }
    let before = r;
    assert_eq!(dep(&m, &mut r, &mut o, 1_000), Err(DepositError::MaxDepositsReached));
    assert_eq!(r, before);
    assert_eq!(o.deposits.len(), 8);
}

#[test]
fn deposit_folds_interest_into_entry() {
    let m = market();
    let mut r = plain_reserve();
    let mut o = obligation();
    assert_eq!(dep(&m, &mut r, &mut o, 2_000), Ok(2_000));
    r.liquidity.cumulative_supply_index = INDEX_ONE * 3 / 2;
    assert_eq!(dep(&m, &mut r, &mut o, 1_000), Ok(4_000));
    assert_eq!(o.deposits.len(), 1);
    assert_eq!(o.deposits[0].supply_index_snapshot, INDEX_ONE * 3 / 2);
    assert_eq!(r.liquidity.total_deposits, 3_000);
    assert_eq!(r.last_update_slot, 11);
}

// ---------- withdrawals ----------

#[test]
fn withdraw_errors() {
    let m = market();
    let mut r = plain_reserve();
    let mut o = obligation();
    let w = |r: &mut Reserve, o: &mut Obligation, amount: u64, vault: u64| {
        withdraw::handler(&MK, &addr(50), r, o, amount, vault, 11, 11)
    };
    assert_eq!(w(&mut r, &mut o, 10, u64::MAX), Err(WithdrawError::NoDepositFound));
    dep(&m, &mut r, &mut o, 5_000).unwrap();
    assert_eq!(w(&mut r, &mut o, 5_001, u64::MAX), Err(WithdrawError::InsufficientDeposit));
    assert_eq!(w(&mut r, &mut o, 5_000, 4_999), Err(WithdrawError::InsufficientVaultBalance));
    r.liquidity.total_borrows = 4_000;
    assert_eq!(w(&mut r, &mut o, 1_001, u64::MAX), Err(WithdrawError::InsufficientLiquidity));
    assert_eq!(w(&mut r, &mut o, 1_000, u64::MAX), Ok((1_000, 4_000)));
    assert_eq!(r.liquidity.total_deposits, 4_000);
    let mut stale = r;
    assert_eq!(
        withdraw::handler(&MK, &addr(50), &mut stale, &mut o, 1, u64::MAX, 11 + 1_501, 11),
        Err(WithdrawError::ReserveStale)
    );
}

#[test]
fn withdraw_all_with_zero_request() {
    let m = market();
    let mut r = plain_reserve();
    let mut o = obligation();
    dep(&m, &mut r, &mut o, 5_000).unwrap();
    r.liquidity.cumulative_supply_index = INDEX_ONE * 2;
    r.liquidity.total_deposits = 20_000;
    let out = withdraw::handler(&MK, &addr(50), &mut r, &mut o, 0, u64::MAX, 11, 11);
    assert_eq!(out, Ok((10_000, 0)));
    assert!(o.deposits.is_empty());
    assert_eq!(r.liquidity.total_deposits, 10_000);
}

#[test]
fn withdraw_health_checks() {
    let m = market();
    let mut r = plain_reserve();
    let mut o = obligation();
    dep(&m, &mut r, &mut o, 10_000).unwrap();
    valued(&mut o, &r);
    o.borrows.push(ObligationLiquidity::new(addr(77), 1, INDEX_ONE));
    // Allowed 8 000, threshold 8 500 on 10 000 of collateral.
    o.borrowed_value_usd = 7_000;
    let w = |r: &mut Reserve, o: &mut Obligation, amount: u64| {
        withdraw::handler(&MK, &addr(50), r, o, amount, u64::MAX, 11, 11)
    };
    assert_eq!(w(&mut r, &mut o, 1_500), Err(WithdrawError::InsufficientBorrowCapacity));
    assert_eq!(w(&mut r, &mut o, 1_000), Ok((1_000, 9_000)));
    // A stale valuation that no longer covers the debt.
    let mut sick = o.clone();
    sick.allowed_borrow_value_usd = 0;
    sick.unhealthy_borrow_value_usd = 6_000;
    assert_eq!(w(&mut r, &mut sick, 1_000), Err(WithdrawError::PositionUnhealthy));
}

#[test]
fn withdraw_near_the_threshold() {
    let m = market();
    let mut r = plain_reserve();
    r.config.ltv_bps = 8_499;
    let mut o = obligation();
    dep(&m, &mut r, &mut o, 10_000).unwrap();
    valued(&mut o, &r);
    o.borrows.push(ObligationLiquidity::new(addr(77), 1, INDEX_ONE));
    o.borrowed_value_usd = 8_400;
    // 100 out leaves 9 900: allowed 8 414, threshold 8 415, factor 10 017.
    assert_eq!(
        withdraw::handler(&MK, &addr(50), &mut r, &mut o, 100, u64::MAX, 11, 11),
        Ok((100, 9_900))
    );
    // 200 more leaves an estimated 9 697: allowed 8 241 < 8 400.
    assert_eq!(
        withdraw::handler(&MK, &addr(50), &mut r, &mut o, 200, u64::MAX, 11, 11),
        Err(WithdrawError::InsufficientBorrowCapacity)
    );
}

// ---------- borrows ----------

#[test]
fn borrow_errors() {
    let m = market();
    let mut r = plain_reserve();
    let mut o = obligation();
    let p = good_price();
    assert_eq!(bor(&m, &mut r, &mut o, 0, p, u64::MAX), Err(BorrowError::AmountZero));
    assert_eq!(bor(&m, &mut r, &mut o, 999, p, u64::MAX), Err(BorrowError::AmountTooSmall));
    assert_eq!(bor(&m, &mut r, &mut o, 1_000, p, u64::MAX), Err(BorrowError::NoCollateral));
    dep(&m, &mut r, &mut o, 100_000).unwrap();
    assert_eq!(bor(&m, &mut r, &mut o, 1_000, p, u64::MAX), Err(BorrowError::InsufficientBorrowingCapacity));
    valued(&mut o, &r);
    let mut off = r;
    off.config.borrows_enabled = false;
    assert_eq!(bor(&m, &mut off, &mut o, 1_000, p, u64::MAX), Err(BorrowError::BorrowsDisabled));
    let mut limited = r;
    limited.config.borrow_limit = 1_500;
    limited.liquidity.total_borrows = 1_000;
    assert_eq!(bor(&m, &mut limited, &mut o, 1_000, p, u64::MAX), Err(BorrowError::BorrowLimitExceeded));
    assert_eq!(bor(&m, &mut r, &mut o, 100_001, p, u64::MAX), Err(BorrowError::InsufficientLiquidity));
    assert_eq!(
        borrow::handler(&m, &MK, &addr(50), &mut r, &mut o, 1_000, &p, u64::MAX, 162, 12),
        Err(BorrowError::StaleOraclePrice)
    );
    let zero_price = OraclePrice { price_usd: 0, last_updated_slot: 11 };
    assert_eq!(bor(&m, &mut r, &mut o, 1_000, zero_price, u64::MAX), Err(BorrowError::InvalidOraclePrice));
    assert_eq!(bor(&m, &mut r, &mut o, 1_000, p, 999), Err(BorrowError::InsufficientVaultBalance));
    let mut foreign = r;
    foreign.lending_market = addr(9);
    assert_eq!(bor(&m, &mut foreign, &mut o, 1_000, p, u64::MAX), Err(BorrowError::InvalidReserve));
    assert!(o.borrows.is_empty());
}

#[test]
fn borrow_health_floor_and_entry_limit() {
    let m = market();
    let mut r = plain_reserve();
    let mut o = obligation();
    dep(&m, &mut r, &mut o, 100_000).unwrap();
    valued(&mut o, &r);
    let p = good_price();
    let mut thin = o.clone();
    thin.unhealthy_borrow_value_usd = 1_000;
    assert_eq!(bor(&m, &mut r, &mut thin, 2_000, p, u64::MAX), Err(BorrowError::InsufficientHealthFactor));
    let mut crowded = o.clone();
    for i in 0..8 {
        crowded.borrows.push(ObligationLiquidity::new(addr(300 + i), 1, INDEX_ONE));
    }
    assert_eq!(bor(&m, &mut r, &mut crowded, 1_000, p, u64::MAX), Err(BorrowError::MaxBorrowsReached));
}

#[test]
fn borrow_updates_pool_and_rates() {
    let m = market();
    let mut r = plain_reserve();
    let mut o = obligation();
    dep(&m, &mut r, &mut o, 100_000).unwrap();
    valued(&mut o, &r);
    assert_eq!(bor(&m, &mut r, &mut o, 20_000, good_price(), u64::MAX), Ok(20_000));
    assert_eq!(r.liquidity.total_borrows, 20_000);
    assert_eq!(r.liquidity.current_borrow_rate_bps, 200 + 2_000 * 1_000 / 8_000);
    assert_eq!(o.borrowed_value_usd, 20_000);
    // A new entry is valued by the next obligation refresh.
    assert_eq!(o.borrows[0].market_value_usd, 0);
    r.liquidity.cumulative_borrow_index = INDEX_ONE * 11 / 10;
    assert_eq!(bor(&m, &mut r, &mut o, 10_000, good_price(), u64::MAX), Ok(32_000));
    assert_eq!(o.borrows.len(), 1);
    assert_eq!(o.borrowed_value_usd, 30_000);
}

// ---------- repayments ----------

#[test]
fn repay_errors_and_amounts() {
    let m = market();
    let mut r = plain_reserve();
    let mut o = obligation();
    let rp = |r: &mut Reserve, o: &mut Obligation, amount: u64| repay::handler(&MK, &addr(50), r, o, amount, 11, 11);
    assert_eq!(rp(&mut r, &mut o, 0), Err(RepayError::NoBorrowFound));
    dep(&m, &mut r, &mut o, 100_000).unwrap();
    valued(&mut o, &r);
    bor(&m, &mut r, &mut o, 10_000, good_price(), u64::MAX).unwrap();
    assert_eq!(rp(&mut r, &mut o, 4_000), Ok((4_000, 6_000)));
    assert_eq!(r.liquidity.total_borrows, 6_000);
    assert_eq!(rp(&mut r, &mut o, 50_000), Ok((6_000, 0)));
    assert!(o.borrows.is_empty());
    assert_eq!(r.liquidity.total_borrows, 0);
    o.borrows.push(ObligationLiquidity::new(addr(50), 0, INDEX_ONE));
    assert_eq!(rp(&mut r, &mut o, 0), Err(RepayError::NothingToRepay));
    o.borrows[0].borrowed_amount = 10;
    assert_eq!(rp(&mut r, &mut o, 0), Err(RepayError::MathOverflow));
}

// ---------- liquidations ----------

fn sick_position() -> (LendingMarket, Reserve, Reserve, Obligation) {
    let m = market();
    let mut debt = plain_reserve();
    debt.liquidity.total_deposits = 100_000;
    debt.liquidity.total_borrows = 10_000;
    let mut coll = plain_reserve();
    coll.liquidity.total_deposits = 100_000;
    let mut o = obligation();
    o.borrows.push(ObligationLiquidity::new(addr(51), 10_000, INDEX_ONE));
    o.deposits.push(ObligationCollateral::new(addr(52), 11_000, INDEX_ONE));
    o.borrowed_value_usd = 10_000;
    o.unhealthy_borrow_value_usd = 9_350;
    (m, debt, coll, o)
}

fn liq(
    m: &LendingMarket,
    debt: &mut Reserve,
    coll: &mut Reserve,
    o: &mut Obligation,
    amount: u64,
) -> Result<liquidate::LiquidationOutcome, LiquidateError> {
    liquidate::handler(m, &MK, &addr(51), debt, &addr(52), coll, o, amount, 11, 11)
}

#[test]
fn liquidation_close_factor_and_fee_split() {
    let (m, mut debt, mut coll, mut o) = sick_position();
    let out = liq(&m, &mut debt, &mut coll, &mut o, 9_000).unwrap();
    assert_eq!(out.repay_amount, 5_000);
    assert_eq!(out.collateral_seized, 5_250);
    assert!(out.collateral_seized >= out.repay_amount);
    assert_eq!(out.protocol_fee, 25);
    assert_eq!(out.protocol_fee + out.liquidator_reward, out.collateral_seized);
    assert_eq!(o.borrows[0].borrowed_amount, 5_000);
    assert_eq!(o.deposits[0].deposited_amount, 5_750);
    assert_eq!(debt.liquidity.total_borrows, 5_000);
    assert_eq!(coll.liquidity.total_deposits, 94_750);
}

#[test]
fn liquidation_cannot_take_more_than_the_pools_hold() {
    let (m, mut debt, mut coll, mut o) = sick_position();
    coll.liquidity.total_deposits = 500;
    let (debt_before, coll_before, o_before) = (debt, coll, o.clone());
    assert_eq!(liq(&m, &mut debt, &mut coll, &mut o, 1_000), Err(LiquidateError::MathOverflow));
    assert_eq!((debt, coll), (debt_before, coll_before));
    assert_eq!(o, o_before);
    let (m, mut debt, mut coll, mut o) = sick_position();
    debt.liquidity.total_borrows = 999;
    assert_eq!(liq(&m, &mut debt, &mut coll, &mut o, 1_000), Err(LiquidateError::MathOverflow));
}

#[test]
fn liquidation_needs_fresh_reserves() {
    let (m, mut debt, mut coll, mut o) = sick_position();
    let late = 10 + 1_501;
    assert_eq!(
        liquidate::handler(&m, &MK, &addr(51), &mut debt, &addr(52), &mut coll, &mut o, 1_000, late, 11),
        Err(LiquidateError::ReserveStale)
    );
    coll.last_update_slot = late;
    assert_eq!(
        liquidate::handler(&m, &MK, &addr(51), &mut debt, &addr(52), &mut coll, &mut o, 1_000, late, 11),
        Err(LiquidateError::ReserveStale)
    );
    debt.last_update_slot = late;
    let out = liquidate::handler(&m, &MK, &addr(51), &mut debt, &addr(52), &mut coll, &mut o, 1_000, late, 11);
    assert_eq!(out.map(|x| x.collateral_seized), Ok(1_050));
    assert_eq!(coll.liquidity.total_deposits, 100_000 - 1_050);
}

#[test]
fn liquidation_errors() {
    let (m, mut debt, mut coll, mut o) = sick_position();
    let mut healthy = o.clone();
    healthy.unhealthy_borrow_value_usd = 20_000;
    assert_eq!(liq(&m, &mut debt, &mut coll, &mut healthy, 1_000), Err(LiquidateError::ObligationHealthy));
    assert_eq!(liq(&m, &mut debt, &mut coll, &mut o, 0), Err(LiquidateError::RepayAmountTooSmall));
    let mut no_borrow = o.clone();
    no_borrow.borrows[0].reserve = addr(99);
    assert_eq!(liq(&m, &mut debt, &mut coll, &mut no_borrow, 1_000), Err(LiquidateError::NoBorrowFound));
    let mut no_coll = o.clone();
    no_coll.deposits[0].reserve = addr(99);
    assert_eq!(liq(&m, &mut debt, &mut coll, &mut no_coll, 1_000), Err(LiquidateError::NoCollateralFound));
    let mut thin = o.clone();
    thin.deposits[0].deposited_amount = 1_000;
    assert_eq!(liq(&m, &mut debt, &mut coll, &mut thin, 1_000), Err(LiquidateError::InsufficientCollateral));
    let mut foreign = debt;
    foreign.lending_market = addr(9);
    assert_eq!(liq(&m, &mut foreign, &mut coll, &mut o, 1_000), Err(LiquidateError::InvalidReserve));
    assert_eq!(o.borrows[0].borrowed_amount, 10_000);
}

// ---------- obligation refresh ----------

#[test]
fn obligation_refresh_uses_each_reserve() {
    let mut o = obligation();
    o.deposits.push(ObligationCollateral::new(addr(60), 1_000, INDEX_ONE));
    o.deposits.push(ObligationCollateral::new(addr(61), 500, INDEX_ONE));
    o.borrows.push(ObligationLiquidity::new(addr(62), 100, INDEX_ONE));
    let a = plain_reserve();
    let mut b = plain_reserve();
    b.config.ltv_bps = 5_000;
    b.config.liquidation_threshold_bps = 6_000;
    b.token_decimals = 2;
    let mut c = plain_reserve();
    c.liquidity.cumulative_borrow_index = INDEX_ONE * 2;
    let deposits = vec![
        PricedReserve { key: addr(60), reserve: a, price: OraclePrice { price_usd: 3, last_updated_slot: 20 } },
        PricedReserve { key: addr(61), reserve: b, price: OraclePrice { price_usd: 400, last_updated_slot: 20 } },
    ];
    let borrows = vec![PricedReserve { key: addr(62), reserve: c, price: OraclePrice { price_usd: 5, last_updated_slot: 20 } }];
    refresh_obligation::handler(&MK, &mut o, &deposits, &borrows, 20).unwrap();
    assert_eq!(o.deposits[0].market_value_usd, 3_000);
    assert_eq!(o.deposits[1].market_value_usd, 2_000);
    assert_eq!(o.deposited_value_usd, 5_000);
    assert_eq!(o.allowed_borrow_value_usd, 2_400 + 1_000);
    assert_eq!(o.unhealthy_borrow_value_usd, 2_550 + 1_200);
    assert_eq!(o.borrows[0].market_value_usd, 1_000);
    assert_eq!(o.borrowed_value_usd, 1_000);
    assert_eq!(o.last_update_slot, 20);
}

#[test]
fn obligation_refresh_errors() {
    let mut o = obligation();
    o.deposits.push(ObligationCollateral::new(addr(60), 1_000, INDEX_ONE));
    let r = plain_reserve();
    let q = |k: u128, usd: u64, slot: u64| PricedReserve {
        key: addr(k),
        reserve: r,
        price: OraclePrice { price_usd: usd, last_updated_slot: slot },
    };
    let before = o.clone();
    assert_eq!(refresh_obligation::handler(&MK, &mut o, &vec![], &vec![], 20), Err(RefreshObligationError::ReserveNotFound));
    assert_eq!(refresh_obligation::handler(&MK, &mut o, &vec![q(61, 1, 20)], &vec![], 20), Err(RefreshObligationError::ReserveNotFound));
    assert_eq!(refresh_obligation::handler(&MK, &mut o, &vec![q(60, 1, 20)], &vec![], 171), Err(RefreshObligationError::StaleOraclePrice));
    assert_eq!(refresh_obligation::handler(&MK, &mut o, &vec![q(60, 0, 20)], &vec![], 20), Err(RefreshObligationError::InvalidOraclePrice));
    assert_eq!(refresh_obligation::handler(&MK, &mut o, &vec![q(60, 1, 1_511)], &vec![], 1_511), Err(RefreshObligationError::ReserveStale));
    assert_eq!(refresh_obligation::handler(&addr(9), &mut o, &vec![q(60, 1, 20)], &vec![], 20), Err(RefreshObligationError::InvalidObligation));
    o.deposits[0].deposited_amount = u64::MAX;
    let mut big = r;
    big.liquidity.cumulative_supply_index = u128::MAX;
    let overflow = vec![PricedReserve { key: addr(60), reserve: big, price: OraclePrice { price_usd: 1, last_updated_slot: 20 } }];
    assert_eq!(refresh_obligation::handler(&MK, &mut o, &overflow, &vec![], 20), Err(RefreshObligationError::MathOverflow));
    o.deposits[0].deposited_amount = 1_000;
    assert_eq!(o, before);
}
