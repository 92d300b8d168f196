use vstd::prelude::*;
use crate::address::Address;
use crate::constants::{
    MAX_OBLIGATION_BORROWS,
    MAX_RESERVE_STALENESS_SLOTS,
    MIN_BORROW_AMOUNT,
    MIN_HEALTH_FACTOR_AFTER_BORROW,
};
use crate::market::LendingMarket;
use crate::obligation::{
    accrual_fits,
    accrued_amount,
    amount_with_interest,
    first_liquidity,
    health_spec,
    lemma_liquidity_position,
    liquidity_position,
    Obligation,
    ObligationLiquidity,
};
use crate::oracle::{usd_value, usd_value_fits, usd_value_spec, OraclePrice, PriceError};
use crate::reserve::{Reserve, ReserveLiquidity};

verus! {

/// Errors of a borrow.
#[derive(Clone, Copy, Debug, PartialEq, Eq, Structural)]
pub enum BorrowError {
    EmergencyModeActive,
    /// The reserve belongs to another market.
    InvalidReserve,
    BorrowsDisabled,
    /// The obligation belongs to another market.
    InvalidObligation,
    InvalidObligationOwner,
    InvalidVault,
    InvalidTokenMint,
    InvalidTokenOwner,
    AmountZero,
    AmountTooSmall,
    NoCollateral,
    BorrowLimitExceeded,
    InsufficientLiquidity,
    InsufficientBorrowingCapacity,
    InsufficientHealthFactor,
    MaxBorrowsReached,
    ReserveStale,
    InsufficientVaultBalance,
    /// The price of the borrowed asset is too old.
    StaleOraclePrice,
    /// The price of the borrowed asset is zero.
    InvalidOraclePrice,
    MathOverflow,
}

/// Value in scaled USD of the borrowed amount.
pub open spec fn borrow_value(reserve: Reserve, amount: u64, price: OraclePrice) -> int {
    usd_value_spec(amount as int, price.price_usd as int, reserve.token_decimals as nat)
}

/// Why a borrow fails once the amount, its value and the market's own
/// checks have passed: the obligation's entry and the health floor.
pub open spec fn borrow_entry_failure(
    reserve_key: Address,
    reserve: Reserve,
    obligation: Obligation,
    amount: u64,
    value: int,
) -> Option<BorrowError> {
    let entry_failure = match liquidity_position(obligation.borrows@, reserve_key) {
        Some(i) => {
            let b = obligation.borrows@[i];
            let index = reserve.liquidity.cumulative_borrow_index as int;
            if !accrual_fits(b.borrowed_amount as int, index, b.borrow_index_snapshot as int)
                || accrued_amount(b.borrowed_amount as int, index, b.borrow_index_snapshot as int)
                + amount > u64::MAX {
                Some(BorrowError::MathOverflow)
            } else {
                None
            }
        },
        None => if obligation.borrows@.len() >= MAX_OBLIGATION_BORROWS {
            Some(BorrowError::MaxBorrowsReached)
        } else {
            None
        },
    };
    let new_borrowed = obligation.borrowed_value_usd + value;
    if entry_failure is Some {
        entry_failure
    } else if new_borrowed > 0 && obligation.unhealthy_borrow_value_usd * 10_000 > u128::MAX {
        Some(BorrowError::MathOverflow)
    } else if new_borrowed > 0 && health_spec(
        obligation.unhealthy_borrow_value_usd as int,
        new_borrowed,
    )->0 < MIN_HEALTH_FACTOR_AFTER_BORROW {
        Some(BorrowError::InsufficientHealthFactor)
    } else {
        None
    }
}

/// Why a borrow fails, in the order the checks are made; `None` when it succeeds.
pub open spec fn borrow_failure(
    market: LendingMarket,
    market_key: Address,
    reserve_key: Address,
    reserve: Reserve,
    obligation: Obligation,
    amount: u64,
    price: OraclePrice,
    vault_balance: u64,
    slot: u64,
) -> Option<BorrowError> {
    let liq = reserve.liquidity;
    let value = borrow_value(reserve, amount, price);
    if market.emergency_mode {
        Some(BorrowError::EmergencyModeActive)
    } else if reserve.lending_market != market_key {
        Some(BorrowError::InvalidReserve)
    } else if !reserve.config.borrows_enabled {
        Some(BorrowError::BorrowsDisabled)
    } else if obligation.lending_market != market_key {
        Some(BorrowError::InvalidObligation)
    } else if amount == 0 {
        Some(BorrowError::AmountZero)
    } else if amount < MIN_BORROW_AMOUNT {
        Some(BorrowError::AmountTooSmall)
    } else if slot > reserve.last_update_slot + MAX_RESERVE_STALENESS_SLOTS {
        Some(BorrowError::ReserveStale)
    } else if obligation.deposits@.len() == 0 {
        Some(BorrowError::NoCollateral)
    } else if reserve.config.borrow_limit > 0 && liq.total_borrows + amount > u64::MAX {
        Some(BorrowError::MathOverflow)
    } else if reserve.config.borrow_limit > 0 && liq.total_borrows + amount
        > reserve.config.borrow_limit {
        Some(BorrowError::BorrowLimitExceeded)
    } else if amount > reserve.available_spec() {
        Some(BorrowError::InsufficientLiquidity)
    } else if obligation.allowed_borrow_value_usd <= obligation.borrowed_value_usd {
        Some(BorrowError::InsufficientBorrowingCapacity)
    } else if price.failure(slot) == Some(PriceError::Stale) {
        Some(BorrowError::StaleOraclePrice)
    } else if price.failure(slot) == Some(PriceError::Invalid) {
        Some(BorrowError::InvalidOraclePrice)
    } else if !usd_value_fits(amount as int, price.price_usd as int, reserve.token_decimals as nat) {
        Some(BorrowError::MathOverflow)
    } else if obligation.borrowed_value_usd + value > obligation.allowed_borrow_value_usd {
        Some(BorrowError::InsufficientBorrowingCapacity)
    } else if amount > vault_balance {
        Some(BorrowError::InsufficientVaultBalance)
    } else {
        borrow_entry_failure(reserve_key, reserve, obligation, amount, value)
    }
}

/// The borrow entries after borrowing `amount` at borrow index `index`: an
/// existing entry is renormalized to its accrued amount plus `amount`, else a
/// new entry, not yet valued, is appended.
pub open spec fn borrowed_entries(
    entries: Seq<ObligationLiquidity>,
    reserve_key: Address,
    index: u128,
    amount: u64,
) -> Seq<ObligationLiquidity> {
    match liquidity_position(entries, reserve_key) {
        Some(i) => {
            let b = entries[i];
            entries.update(
                i,
                ObligationLiquidity {
                    borrowed_amount: (accrued_amount(
                        b.borrowed_amount as int,
                        index as int,
                        b.borrow_index_snapshot as int,
                    ) + amount) as u64,
                    borrow_index_snapshot: index,
                    ..b
                },
            )
        },
        None => entries.push(
            ObligationLiquidity {
                reserve: reserve_key,
                borrowed_amount: amount,
                borrow_index_snapshot: index,
                market_value_usd: 0,
            },
        ),
    }
}

/// Lends `amount` of the reserve's token against the obligation's collateral.
/// The amount's value at `price` must fit in the remaining borrow capacity;
/// it is added to the obligation's cached debt, and the health factor from
/// the cached valuation must then stay at or above 1.0. Returns the borrow
/// entry's new amount.
pub fn handler(
    market: &LendingMarket,
    market_key: &Address,
    reserve_key: &Address,
    reserve: &mut Reserve,
    obligation: &mut Obligation,
    amount: u64,
    price: &OraclePrice,
    vault_balance: u64,
    current_slot: u64,
    current_timestamp: i64,
) -> (r: Result<u64, BorrowError>)
    requires
        old(reserve).wf(),
    ensures
        match r {
            Ok(new_amount) => {
                let value = borrow_value(*old(reserve), amount, *price);
                &&& borrow_failure(
                    *market,
                    *market_key,
                    *reserve_key,
                    *old(reserve),
                    *old(obligation),
                    amount,
                    *price,
                    vault_balance,
                    current_slot,
                ) is None
                &&& *final(reserve) == old(reserve).touched(
                    ReserveLiquidity {
                        total_borrows: (old(reserve).liquidity.total_borrows + amount) as u64,
                        ..old(reserve).liquidity
                    },
                    current_slot,
                    current_timestamp,
                )
                &&& final(obligation).borrows@ == borrowed_entries(
                    old(obligation).borrows@,
                    *reserve_key,
                    old(reserve).liquidity.cumulative_borrow_index,
                    amount,
                )
                &&& final(obligation).deposits == old(obligation).deposits
                &&& final(obligation).borrowed_value_usd == old(obligation).borrowed_value_usd + value
                &&& final(obligation).deposited_value_usd == old(obligation).deposited_value_usd
                &&& final(obligation).allowed_borrow_value_usd == old(
                    obligation,
                ).allowed_borrow_value_usd
                &&& final(obligation).unhealthy_borrow_value_usd == old(
                    obligation,
                ).unhealthy_borrow_value_usd
                &&& final(obligation).lending_market == old(obligation).lending_market
                &&& final(obligation).owner == old(obligation).owner
                &&& final(obligation).version == old(obligation).version
                &&& final(obligation).bump == old(obligation).bump
                &&& final(obligation).last_update_slot == current_slot
                &&& final(reserve).borrow_excess() <= old(reserve).borrow_excess()
                &&& final(obligation).borrowed_value_usd > 0 ==> final(obligation).health_computable()
                    && final(obligation).health()->0 >= MIN_HEALTH_FACTOR_AFTER_BORROW
                &&& final(reserve).liquidity.cumulative_borrow_index == old(
                    reserve,
                ).liquidity.cumulative_borrow_index
                &&& final(reserve).liquidity.cumulative_supply_index == old(
                    reserve,
                ).liquidity.cumulative_supply_index
                &&& liquidity_position(final(obligation).borrows@, *reserve_key) matches Some(i)
                    && final(obligation).borrows@[i].borrowed_amount == new_amount
            },
            Err(e) => {
                &&& borrow_failure(
                    *market,
                    *market_key,
                    *reserve_key,
                    *old(reserve),
                    *old(obligation),
                    amount,
                    *price,
                    vault_balance,
                    current_slot,
                ) == Some(e)
                &&& *final(reserve) == *old(reserve)
                &&& *final(obligation) == *old(obligation)
            },
        },
        old(obligation).wf() ==> final(obligation).wf(),
{
    if market.emergency_mode {
        return Err(BorrowError::EmergencyModeActive);
    }
    if reserve.lending_market != *market_key {
        return Err(BorrowError::InvalidReserve);
    }
    if !reserve.config.borrows_enabled {
        return Err(BorrowError::BorrowsDisabled);
    }
    if obligation.lending_market != *market_key {
        return Err(BorrowError::InvalidObligation);
    }
    if amount == 0 {
        return Err(BorrowError::AmountZero);
    }
    if amount < MIN_BORROW_AMOUNT {
        return Err(BorrowError::AmountTooSmall);
    }
    if reserve.is_stale(current_slot, MAX_RESERVE_STALENESS_SLOTS) {
        return Err(BorrowError::ReserveStale);
    }
    if !obligation.has_deposits() {
        return Err(BorrowError::NoCollateral);
    }
    if reserve.config.borrow_limit > 0 {
        let new_total_borrows = match reserve.liquidity.total_borrows.checked_add(amount) {
            None => { return Err(BorrowError::MathOverflow); },
            Some(v) => v,
        };
        if new_total_borrows > reserve.config.borrow_limit {
            return Err(BorrowError::BorrowLimitExceeded);
        }
    }
    if amount > reserve.available_liquidity() {
        return Err(BorrowError::InsufficientLiquidity);
    }
    if obligation.remaining_borrow_capacity_usd() == 0 {
        return Err(BorrowError::InsufficientBorrowingCapacity);
    }
    match price.check(current_slot) {
        Err(PriceError::Stale) => { return Err(BorrowError::StaleOraclePrice); },
        Err(PriceError::Invalid) => { return Err(BorrowError::InvalidOraclePrice); },
        Ok(()) => {},
    }
    let value = match usd_value(amount as u128, price.price_usd, reserve.token_decimals) {
        None => { return Err(BorrowError::MathOverflow); },
        Some(v) => v,
    };
    if value > obligation.allowed_borrow_value_usd - obligation.borrowed_value_usd {
        return Err(BorrowError::InsufficientBorrowingCapacity);
    }
    if vault_balance < amount {
        return Err(BorrowError::InsufficientVaultBalance);
    }
    let new_borrowed_value = obligation.borrowed_value_usd + value;
    let current_borrow_index = reserve.liquidity.cumulative_borrow_index;
    let found = obligation.find_borrow(reserve_key);
    let new_entry = match found {
        Some(i) => {
            let b = obligation.borrows[i];
            let current = match amount_with_interest(
                b.borrowed_amount,
                current_borrow_index,
                b.borrow_index_snapshot,
            ) {
                None => { return Err(BorrowError::MathOverflow); },
                Some(v) => v,
            };
            let new_amount = match current.checked_add(amount) {
                None => { return Err(BorrowError::MathOverflow); },
                Some(v) => v,
            };
            ObligationLiquidity {
                borrowed_amount: new_amount,
                borrow_index_snapshot: current_borrow_index,
                ..b
            }
        },
        None => {
            if obligation.borrows.len() >= MAX_OBLIGATION_BORROWS {
                return Err(BorrowError::MaxBorrowsReached);
            }
            ObligationLiquidity::new(*reserve_key, amount, current_borrow_index)
        },
    };
    if new_borrowed_value > 0 {
        if obligation.unhealthy_borrow_value_usd > u128::MAX / 10000 {
            return Err(BorrowError::MathOverflow);
        }
        let health = (obligation.unhealthy_borrow_value_usd * 10000) / new_borrowed_value;
        if health < MIN_HEALTH_FACTOR_AFTER_BORROW as u128 {
            return Err(BorrowError::InsufficientHealthFactor);
        }
    }
    let ghost old_entries = obligation.borrows@;
    match found {
        Some(i) => {
            obligation.borrows.set(i, new_entry);
            proof {
                assert(first_liquidity(obligation.borrows@, *reserve_key, i as int));
                lemma_liquidity_position(obligation.borrows@, *reserve_key, i as int);
            }
        },
        None => {
            obligation.borrows.push(new_entry);
            proof {
                let k = old_entries.len() as int;
                assert(first_liquidity(obligation.borrows@, *reserve_key, k));
                lemma_liquidity_position(obligation.borrows@, *reserve_key, k);
            }
        },
    }
    obligation.borrowed_value_usd = new_borrowed_value;
    reserve.liquidity.total_borrows = reserve.liquidity.total_borrows + amount;
    reserve.last_update_slot = current_slot;
    reserve.last_update_timestamp = current_timestamp;
    reserve.update_rates();
    obligation.last_update_slot = current_slot;
    Ok(new_entry.borrowed_amount)
}

/// After a successful borrow the cached health factor is at least 1.0, and
/// above it unless it lands on 1.0 exactly.
pub proof fn lemma_borrow_solvent(
    market: LendingMarket,
    market_key: Address,
    reserve_key: Address,
    reserve: Reserve,
    obligation: Obligation,
    amount: u64,
    price: OraclePrice,
    vault_balance: u64,
    slot: u64,
)
    requires
        borrow_failure(
            market,
            market_key,
            reserve_key,
            reserve,
            obligation,
            amount,
            price,
            vault_balance,
            slot,
        ) is None,
        health_spec(
            obligation.unhealthy_borrow_value_usd as int,
            obligation.borrowed_value_usd + borrow_value(reserve, amount, price),
        ) != Some(10_000int),
    ensures
        ({
            let debt = obligation.borrowed_value_usd + borrow_value(reserve, amount, price);
            debt > 0 ==> health_spec(obligation.unhealthy_borrow_value_usd as int, debt)->0
                > 10_000
        }),
{
}

} // verus!
