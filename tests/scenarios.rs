use radiant::address::Address;
use radiant::constants::{INDEX_ONE, MAX_RESERVE_STALENESS_SLOTS, SECONDS_PER_YEAR, SLOTS_PER_YEAR};
use radiant::instructions::borrow::{self, BorrowError};
use radiant::instructions::deposit::{self, DepositError};
use radiant::instructions::initialize_lending_market::{self, InitializeLendingMarketParams};
use radiant::instructions::initialize_obligation;
use radiant::instructions::initialize_reserve::{
    self, InitializeReserveParams, InterestRateConfigParams, ReserveAccounts,
};
use radiant::instructions::liquidate;
use radiant::instructions::refresh_obligation::{self, PricedReserve};
use radiant::instructions::refresh_reserve;
use radiant::instructions::repay;
use radiant::instructions::set_emergency_mode;
use radiant::instructions::withdraw::{self, WithdrawError};
use radiant::market::LendingMarket;
use radiant::obligation::Obligation;
use radiant::oracle::OraclePrice;
use radiant::reserve::Reserve;

const START_SLOT: u64 = 100;
const START_TS: i64 = 1_000;
const USD: u64 = 1_000_000;

fn key(n: u128) -> Address {
    Address::new(0, n)
}

fn market_key() -> Address {
    key(1)
}

fn new_market() -> LendingMarket {
    let params = InitializeLendingMarketParams {
        close_factor_bps: None,
        liquidation_bonus_bps: None,
        protocol_fee_bps: None,
    };
    initialize_lending_market::handler(&key(2), &key(3), 255, &params).unwrap()
}

fn new_reserve(market: &mut LendingMarket, mint: u128, decimals: u8) -> Reserve {
    let accounts = ReserveAccounts {
        token_mint: key(mint),
        token_decimals: decimals,
        token_vault: key(mint + 1000),
        fee_receiver: key(mint + 2000),
        oracle: key(mint + 3000),
        bump: 254,
    };
    let params = InitializeReserveParams {
        ltv_bps: 8_000,
        liquidation_threshold_bps: 8_500,
        deposit_limit: None,
        borrow_limit: None,
        interest_rate_config: Some(InterestRateConfigParams {
            optimal_utilization_bps: 8_000,
            base_rate_bps: 200,
            slope1_bps: 1_000,
            slope2_bps: 10_000,
            reserve_factor_bps: 1_000,
        }),
    };
    initialize_reserve::handler(market, &market_key(), &accounts, &params, START_SLOT, START_TS)
        .unwrap()
}

fn new_obligation(owner: u128) -> Obligation {
    initialize_obligation::handler(&market_key(), &key(owner), 253, START_SLOT)
}

fn price(usd: u64, slot: u64) -> OraclePrice {
    OraclePrice { price_usd: usd, last_updated_slot: slot }
}

fn priced(k: u128, reserve: &Reserve, usd: u64, slot: u64) -> PricedReserve {
    PricedReserve { key: key(k), reserve: *reserve, price: price(usd, slot) }
}

fn deposit_into(
    market: &LendingMarket,
    reserve_key: u128,
    reserve: &mut Reserve,
    obligation: &mut Obligation,
    amount: u64,
    slot: u64,
) -> Result<u64, DepositError> {
    deposit::handler(
        market,
        &market_key(),
        &key(reserve_key),
        reserve,
        obligation,
        amount,
        slot,
        START_TS + (slot - START_SLOT) as i64,
    )
}

fn borrow_from(
    market: &LendingMarket,
    reserve_key: u128,
    reserve: &mut Reserve,
    obligation: &mut Obligation,
    amount: u64,
    usd: u64,
    slot: u64,
) -> Result<u64, BorrowError> {
    borrow::handler(
        market,
        &market_key(),
        &key(reserve_key),
        reserve,
        obligation,
        amount,
        &price(usd, slot),
        u64::MAX,
        slot,
        START_TS + (slot - START_SLOT) as i64,
    )
}

#[test]
fn open_and_accrue_one_year() {
    let mut market = new_market();
    let mut reserve = new_reserve(&mut market, 10, 6);
    let mut lender = new_obligation(20);
    let mut borrower = new_obligation(21);
    deposit_into(&market, 10, &mut reserve, &mut lender, 1_000_000, 101).unwrap();
    deposit_into(&market, 10, &mut reserve, &mut borrower, 500_000, 101).unwrap();
    let quotes = vec![priced(10, &reserve, USD, 101)];
    refresh_obligation::handler(&market_key(), &mut borrower, &quotes, &vec![], 101).unwrap();
    borrow_from(&market, 10, &mut reserve, &mut borrower, 400_000, USD, 101).unwrap();
    assert_eq!(reserve.calculate_utilization_bps(), 2_666);
    assert_eq!(reserve.liquidity.current_borrow_rate_bps, 533);

    let slot = 101 + SLOTS_PER_YEAR;
    let ts = reserve.last_update_timestamp + SECONDS_PER_YEAR as i64;
    refresh_reserve::handler(&market_key(), &mut reserve, slot, ts).unwrap();
    assert_eq!(reserve.liquidity.cumulative_borrow_index, INDEX_ONE + INDEX_ONE * 533 / 10_000);
    assert_eq!(reserve.liquidity.cumulative_borrow_index, 1_053_300_000_000_000_000);
    assert_eq!(reserve.liquidity.total_borrows, 421_320);
    assert_eq!(reserve.liquidity.accumulated_protocol_fees, 2_132);
    assert!(reserve.liquidity.cumulative_supply_index > INDEX_ONE);
}

/// Two reserves with 3 decimals at $1 per token: 1 000 000 native units are worth $1 000.
fn capacity_setup() -> (LendingMarket, Reserve, Reserve, Obligation) {
    let mut market = new_market();
    let mut collateral = new_reserve(&mut market, 10, 3);
    let mut debt = new_reserve(&mut market, 11, 3);
    let mut lender = new_obligation(20);
    deposit_into(&market, 11, &mut debt, &mut lender, 10_000_000, 101).unwrap();
    let mut user = new_obligation(21);
    deposit_into(&market, 10, &mut collateral, &mut user, 1_000_000, 101).unwrap();
    let quotes = vec![priced(10, &collateral, USD, 101)];
    refresh_obligation::handler(&market_key(), &mut user, &quotes, &vec![], 101).unwrap();
    assert_eq!(user.deposited_value_usd, 1_000 * USD as u128);
    assert_eq!(user.allowed_borrow_value_usd, 800 * USD as u128);
    (market, collateral, debt, user)
}

#[test]
fn borrow_at_capacity() {
    let (market, _collateral, mut debt, mut user) = capacity_setup();
    assert_eq!(borrow_from(&market, 11, &mut debt, &mut user, 800_000, USD, 102), Ok(800_000));
    assert_eq!(user.remaining_borrow_capacity_usd(), 0);
    assert_eq!(user.borrowed_value_usd, 800 * USD as u128);
}

#[test]
fn borrow_over_capacity_fails() {
    let (market, _collateral, mut debt, mut user) = capacity_setup();
    let before = debt;
    assert_eq!(
        borrow_from(&market, 11, &mut debt, &mut user, 801_000, USD, 102),
        Err(BorrowError::InsufficientBorrowingCapacity)
    );
    assert_eq!(debt, before);
    assert!(user.borrows.is_empty());
}

#[test]
fn withdraw_with_open_borrow_fails() {
    let (market, mut collateral, mut debt, mut user) = capacity_setup();
    borrow_from(&market, 11, &mut debt, &mut user, 800_000, USD, 102).unwrap();
    let _ = market;
    let r = withdraw::handler(
        &market_key(),
        &key(10),
        &mut collateral,
        &mut user,
        100_000,
        u64::MAX,
        102,
        START_TS + 2,
    );
    assert_eq!(r, Err(WithdrawError::InsufficientBorrowCapacity));
    assert_eq!(user.deposits[0].deposited_amount, 1_000_000);
}

#[test]
fn liquidation_at_threshold() {
    let mut market = new_market();
    let mut collateral = new_reserve(&mut market, 10, 0);
    let mut debt = new_reserve(&mut market, 11, 0);
    let mut lender = new_obligation(20);
    deposit_into(&market, 11, &mut debt, &mut lender, 1_000_000, 101).unwrap();
    let mut user = new_obligation(21);
    deposit_into(&market, 10, &mut collateral, &mut user, 4_000, 101).unwrap();
    let quotes = vec![priced(10, &collateral, 100 * USD, 101)];
    refresh_obligation::handler(&market_key(), &mut user, &quotes, &vec![], 101).unwrap();
    borrow_from(&market, 11, &mut debt, &mut user, 2_000, 17 * USD, 101).unwrap();

    // The collateral price falls until the debt equals the threshold value.
    let deposits = vec![priced(10, &collateral, 10 * USD, 102)];
    let borrows = vec![priced(11, &debt, 17 * USD, 102)];
    refresh_obligation::handler(&market_key(), &mut user, &deposits, &borrows, 102).unwrap();
    assert_eq!(user.borrowed_value_usd, user.unhealthy_borrow_value_usd);
    assert_eq!(user.calculate_health_factor(), Some(10_000));
    assert!(user.is_liquidatable());

    let out = liquidate::handler(
        &market,
        &market_key(),
        &key(11),
        &mut debt,
        &key(10),
        &mut collateral,
        &mut user,
        1_000,
        103,
        START_TS + 3,
    )
    .unwrap();
    assert_eq!(out.repay_amount, 1_000);
    assert_eq!(out.collateral_seized, 1_050);
    assert_eq!(out.liquidation_bonus, 50);
    assert_eq!(out.protocol_fee, 5);
    assert_eq!(out.liquidator_reward, 1_045);
    assert_eq!(user.borrows[0].borrowed_amount, 1_000);
    assert_eq!(user.deposits[0].deposited_amount, 2_950);
    assert_eq!(debt.liquidity.total_borrows, 1_000);
    assert_eq!(collateral.liquidity.total_deposits, 2_950);
}

#[test]
fn emergency_mode_blocks_deposits_and_borrows_only() {
    let (mut market, mut collateral, mut debt, mut user) = capacity_setup();
    borrow_from(&market, 11, &mut debt, &mut user, 100_000, USD, 102).unwrap();
    assert!(!set_emergency_mode::handler(&mut market, true));
    assert!(market.is_emergency());

    assert_eq!(
        deposit_into(&market, 10, &mut collateral, &mut user, 5_000, 103),
        Err(DepositError::EmergencyModeActive)
    );
    assert_eq!(
        borrow_from(&market, 11, &mut debt, &mut user, 5_000, USD, 103),
        Err(BorrowError::EmergencyModeActive)
    );
    assert!(refresh_reserve::handler(&market_key(), &mut collateral, 104, START_TS + 4).is_ok());
    assert!(refresh_reserve::handler(&market_key(), &mut debt, 104, START_TS + 4).is_ok());
    let r = repay::handler(&market_key(), &key(11), &mut debt, &mut user, 10_000, 104, START_TS + 4);
    assert_eq!(r, Ok((10_000, 90_000)));
    let r = withdraw::handler(
        &market_key(),
        &key(10),
        &mut collateral,
        &mut user,
        10_000,
        u64::MAX,
        104,
        START_TS + 4,
    );
    assert_eq!(r, Ok((10_000, 990_000)));

    // A price fall makes the position liquidatable.
    let deposits = vec![priced(10, &collateral, USD / 10, 105)];
    let borrows = vec![priced(11, &debt, USD, 105)];
    refresh_obligation::handler(&market_key(), &mut user, &deposits, &borrows, 105).unwrap();
    assert!(user.is_liquidatable());
    let out = liquidate::handler(
        &market,
        &market_key(),
        &key(11),
        &mut debt,
        &key(10),
        &mut collateral,
        &mut user,
        10_000,
        105,
        START_TS + 5,
    );
    assert!(out.is_ok());
}

#[test]
fn stale_reserve_needs_refresh() {
    let mut market = new_market();
    let mut reserve = new_reserve(&mut market, 10, 6);
    let mut user = new_obligation(20);
    let slot = START_SLOT + MAX_RESERVE_STALENESS_SLOTS + 1;
    assert_eq!(
        deposit_into(&market, 10, &mut reserve, &mut user, 5_000, slot),
        Err(DepositError::ReserveStale)
    );
    refresh_reserve::handler(&market_key(), &mut reserve, slot, START_TS + 600).unwrap();
    assert_eq!(reserve.last_update_slot, slot);
    assert_eq!(deposit_into(&market, 10, &mut reserve, &mut user, 5_000, slot), Ok(5_000));
}

#[test]
fn reserve_within_staleness_window_accepts_deposit() {
    let mut market = new_market();
    let mut reserve = new_reserve(&mut market, 10, 6);
    let mut user = new_obligation(20);
    let slot = START_SLOT + MAX_RESERVE_STALENESS_SLOTS;
    assert_eq!(deposit_into(&market, 10, &mut reserve, &mut user, 5_000, slot), Ok(5_000));
}

#[test]
fn deposit_then_withdraw_round_trip() {
    let mut market = new_market();
    let mut reserve = new_reserve(&mut market, 10, 6);
    let mut user = new_obligation(20);
    let mut other = new_obligation(21);
    deposit_into(&market, 10, &mut reserve, &mut other, 7_000, 101).unwrap();
    let before = reserve.liquidity.total_deposits;
    deposit_into(&market, 10, &mut reserve, &mut user, 3_000, 101).unwrap();
    assert_eq!(reserve.liquidity.total_deposits, before + 3_000);
    let r = withdraw::handler(&market_key(), &key(10), &mut reserve, &mut user, 3_000, u64::MAX, 101, START_TS + 1);
    assert_eq!(r, Ok((3_000, 0)));
    assert_eq!(reserve.liquidity.total_deposits, before);
    assert!(user.deposits.is_empty());
}

#[test]
fn refresh_twice_in_one_slot_is_idempotent() {
    let (market, _collateral, mut debt, mut user) = capacity_setup();
    borrow_from(&market, 11, &mut debt, &mut user, 500_000, USD, 102).unwrap();
    refresh_reserve::handler(&market_key(), &mut debt, 5_000, START_TS + 2_000).unwrap();
    let once = debt;
    refresh_reserve::handler(&market_key(), &mut debt, 5_000, START_TS + 9_000).unwrap();
    assert_eq!(debt, once);
    assert!(once.liquidity.cumulative_borrow_index > INDEX_ONE);
}

#[test]
fn accrual_respects_linear_bound_and_fee_split() {
    let (market, _collateral, mut debt, mut user) = capacity_setup();
    borrow_from(&market, 11, &mut debt, &mut user, 500_000, USD, 102).unwrap();
    let before = debt;
    let elapsed: i64 = 86_400 * 30;
    refresh_reserve::handler(&market_key(), &mut debt, 200_000, before.last_update_timestamp + elapsed)
        .unwrap();
    let rate = before.liquidity.current_borrow_rate_bps as u128;
    let year = 10_000u128 * SECONDS_PER_YEAR as u128;
    let old_index = before.liquidity.cumulative_borrow_index;
    let new_index = debt.liquidity.cumulative_borrow_index;
    assert!(new_index >= old_index);
    assert!(new_index * year <= old_index * (year + rate * elapsed as u128));
    let interest = (debt.liquidity.total_borrows - before.liquidity.total_borrows) as u128;
    assert!(interest > 0);
    let fees = (debt.liquidity.accumulated_protocol_fees - before.liquidity.accumulated_protocol_fees) as u128;
    assert_eq!(fees, interest * 1_000 / 10_000);
}

#[test]
fn borrows_stay_within_deposits_plus_accrued_interest() {
    let (market, mut collateral, mut debt, mut user) = capacity_setup();
    let mut accrued: u128 = 0;
    let check = |r: &Reserve, accrued: u128| {
        assert!(r.liquidity.total_borrows as u128 <= r.liquidity.total_deposits as u128 + accrued);
    };
    borrow_from(&market, 11, &mut debt, &mut user, 700_000, USD, 102).unwrap();
    check(&debt, accrued);
    let mut slot = 102;
    let mut last_index = debt.liquidity.cumulative_borrow_index;
    let mut last_supply = debt.liquidity.cumulative_supply_index;
    for step in 1..=5u64 {
        slot += 1_000;
        let before = debt.liquidity.total_borrows;
        let ts = debt.last_update_timestamp + 86_400 * step as i64;
        refresh_reserve::handler(&market_key(), &mut debt, slot, ts).unwrap();
        accrued += (debt.liquidity.total_borrows - before) as u128;
        check(&debt, accrued);
        assert!(debt.liquidity.cumulative_borrow_index >= last_index);
        assert!(debt.liquidity.cumulative_supply_index >= last_supply);
        last_index = debt.liquidity.cumulative_borrow_index;
        last_supply = debt.liquidity.cumulative_supply_index;
        let ts = debt.last_update_timestamp;
        repay::handler(&market_key(), &key(11), &mut debt, &mut user, 50_000, slot, ts).unwrap();
        check(&debt, accrued);
    }
    refresh_reserve::handler(&market_key(), &mut collateral, slot, START_TS + 10).unwrap();
    let r = withdraw::handler(&market_key(), &key(10), &mut collateral, &mut user, 1_000, u64::MAX, slot, START_TS + 10);
    assert!(r.is_ok());
    check(&collateral, 0);
    assert!(accrued > 0);
}
