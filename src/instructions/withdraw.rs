use vstd::prelude::*;
use crate::address::Address;
use crate::constants::{MAX_RESERVE_STALENESS_SLOTS, MIN_HEALTH_FACTOR_AFTER_BORROW};
use crate::instructions::deposit::{deposit_failure, deposited_entries, deposited_reserve};
use crate::market::LendingMarket;
use crate::obligation::{
    first_collateral,
    lemma_collateral_position,
    accrual_fits,
    accrued_amount,
    amount_with_interest,
    collateral_position,
    Obligation,
    ObligationCollateral,
};
use crate::reserve::{Reserve, ReserveLiquidity};

verus! {

/// Errors of a withdrawal.
#[derive(Clone, Copy, Debug, PartialEq, Eq, Structural)]
pub enum WithdrawError {
    /// The reserve belongs to another market.
    InvalidReserve,
    /// The obligation belongs to another market.
    InvalidObligation,
    InvalidObligationOwner,
    InvalidVault,
    InvalidTokenMint,
    InvalidTokenOwner,
    NoDepositFound,
    InsufficientDeposit,
    InsufficientLiquidity,
    PositionUnhealthy,
    InsufficientBorrowCapacity,
    HealthFactorTooLow,
    ReserveStale,
    InsufficientVaultBalance,
    MathOverflow,
}

/// Why the solvency check of a withdrawal fails, for an obligation with
/// borrows. The value removed is the entry's cached value scaled by the share
/// withdrawn, and the remaining collateral is weighed with this reserve's
/// LTV and liquidation threshold.
pub open spec fn solvency_failure(
    obligation: Obligation,
    market_value: int,
    withdraw: int,
    current: int,
    ltv_bps: int,
    threshold_bps: int,
) -> Option<WithdrawError> {
    let removed = if current > 0 {
        market_value * withdraw / current
    } else {
        0
    };
    let new_deposited = if obligation.deposited_value_usd >= removed {
        obligation.deposited_value_usd - removed
    } else {
        0
    };
    let new_allowed = new_deposited * ltv_bps / 10_000;
    let new_unhealthy = new_deposited * threshold_bps / 10_000;
    let borrowed = obligation.borrowed_value_usd as int;
    if market_value * withdraw > u128::MAX || new_deposited * ltv_bps > u128::MAX || new_deposited
        * threshold_bps > u128::MAX {
        Some(WithdrawError::MathOverflow)
    } else if borrowed > new_allowed {
        Some(WithdrawError::InsufficientBorrowCapacity)
    } else if new_unhealthy * 10_000 > u128::MAX {
        Some(WithdrawError::MathOverflow)
    } else if borrowed > 0 && new_unhealthy * 10_000 / borrowed < MIN_HEALTH_FACTOR_AFTER_BORROW {
        Some(WithdrawError::HealthFactorTooLow)
    } else if !obligation.health_computable() {
        Some(WithdrawError::MathOverflow)
    } else if !obligation.healthy() {
        Some(WithdrawError::PositionUnhealthy)
    } else {
        None
    }
}

/// The amount a withdrawal request takes: all of `current` for a request of 0.
pub open spec fn withdraw_amount_spec(amount: int, current: int) -> int {
    if amount == 0 {
        current
    } else {
        amount
    }
}

/// Why a withdrawal fails, in the order the checks are made; `None` when it succeeds.
pub open spec fn withdraw_failure(
    market_key: Address,
    reserve_key: Address,
    reserve: Reserve,
    obligation: Obligation,
    amount: u64,
    vault_balance: u64,
    slot: u64,
) -> Option<WithdrawError> {
    if reserve.lending_market != market_key {
        Some(WithdrawError::InvalidReserve)
    } else if obligation.lending_market != market_key {
        Some(WithdrawError::InvalidObligation)
    } else if slot > reserve.last_update_slot + MAX_RESERVE_STALENESS_SLOTS {
        Some(WithdrawError::ReserveStale)
    } else {
        match collateral_position(obligation.deposits@, reserve_key) {
            None => Some(WithdrawError::NoDepositFound),
            Some(i) => {
                let d = obligation.deposits@[i];
                let index = reserve.liquidity.cumulative_supply_index as int;
                if !accrual_fits(d.deposited_amount as int, index, d.supply_index_snapshot as int) {
                    Some(WithdrawError::MathOverflow)
                } else {
                    let current = accrued_amount(
                        d.deposited_amount as int,
                        index,
                        d.supply_index_snapshot as int,
                    );
                    let w = withdraw_amount_spec(amount as int, current);
                    if w > current {
                        Some(WithdrawError::InsufficientDeposit)
                    } else if w > reserve.available_spec() {
                        Some(WithdrawError::InsufficientLiquidity)
                    } else if w > vault_balance {
                        Some(WithdrawError::InsufficientVaultBalance)
                    } else if obligation.borrows@.len() > 0 {
                        solvency_failure(
                            obligation,
                            d.market_value_usd as int,
                            w,
                            current,
                            reserve.config.ltv_bps as int,
                            reserve.config.liquidation_threshold_bps as int,
                        )
                    } else {
                        None
                    }
                }
            },
        }
    }
}

/// The collateral entries after entry `i` is reduced to `remaining` at
/// supply index `index`; an entry reduced to zero is removed.
pub open spec fn reduced_collateral(
    entries: Seq<ObligationCollateral>,
    i: int,
    remaining: int,
    index: u128,
) -> Seq<ObligationCollateral> {
    if remaining == 0 {
        entries.remove(i)
    } else {
        entries.update(
            i,
            ObligationCollateral {
                deposited_amount: remaining as u64,
                supply_index_snapshot: index,
                ..entries[i]
            },
        )
    }
}

/// Moves collateral out of the pool back to its owner. A request of 0 takes
/// the whole accrued deposit. With open borrows, the position must stay
/// within its LTV and health floor after the withdrawal and be healthy
/// before it. Returns the amount withdrawn and what remains deposited.
pub fn handler(
    market_key: &Address,
    reserve_key: &Address,
    reserve: &mut Reserve,
    obligation: &mut Obligation,
    amount: u64,
    vault_balance: u64,
    current_slot: u64,
    current_timestamp: i64,
) -> (r: Result<(u64, u64), WithdrawError>)
    requires
        old(reserve).wf(),
    ensures
        match r {
            Ok((withdrawn, remaining)) => {
                let i = collateral_position(old(obligation).deposits@, *reserve_key)->0;
                let d = old(obligation).deposits@[i];
                let current = accrued_amount(
                    d.deposited_amount as int,
                    old(reserve).liquidity.cumulative_supply_index as int,
                    d.supply_index_snapshot as int,
                );
                &&& withdraw_failure(
                    *market_key,
                    *reserve_key,
                    *old(reserve),
                    *old(obligation),
                    amount,
                    vault_balance,
                    current_slot,
                ) is None
                &&& withdrawn == withdraw_amount_spec(amount as int, current)
                &&& remaining == current - withdrawn
                &&& *final(reserve) == old(reserve).touched(
                    ReserveLiquidity {
                        total_deposits: (old(reserve).liquidity.total_deposits - withdrawn) as u64,
                        ..old(reserve).liquidity
                    },
                    current_slot,
                    current_timestamp,
                )
                &&& final(obligation).deposits@ == reduced_collateral(
                    old(obligation).deposits@,
                    i,
                    remaining as int,
                    old(reserve).liquidity.cumulative_supply_index,
                )
                &&& final(obligation).borrows == old(obligation).borrows
                &&& final(obligation).same_but_entries(old(obligation))
                &&& final(obligation).last_update_slot == current_slot
                &&& final(reserve).borrow_excess() <= old(reserve).borrow_excess()
                &&& old(obligation).borrows@.len() > 0 ==> final(obligation).healthy()
                &&& final(reserve).liquidity.cumulative_borrow_index == old(
                    reserve,
                ).liquidity.cumulative_borrow_index
                &&& final(reserve).liquidity.cumulative_supply_index == old(
                    reserve,
                ).liquidity.cumulative_supply_index
            },
            Err(e) => {
                &&& withdraw_failure(
                    *market_key,
                    *reserve_key,
                    *old(reserve),
                    *old(obligation),
                    amount,
                    vault_balance,
                    current_slot,
                ) == Some(e)
                &&& *final(reserve) == *old(reserve)
                &&& *final(obligation) == *old(obligation)
            },
        },
        old(obligation).wf() ==> final(obligation).wf(),
{
    if reserve.lending_market != *market_key {
        return Err(WithdrawError::InvalidReserve);
    }
    if obligation.lending_market != *market_key {
        return Err(WithdrawError::InvalidObligation);
    }
    if reserve.is_stale(current_slot, MAX_RESERVE_STALENESS_SLOTS) {
        return Err(WithdrawError::ReserveStale);
    }
    let deposit_index = match obligation.find_deposit(reserve_key) {
        None => { return Err(WithdrawError::NoDepositFound); },
        Some(i) => i,
    };
    let current_supply_index = reserve.liquidity.cumulative_supply_index;
    let deposit = obligation.deposits[deposit_index];
    let current_deposit_amount = match amount_with_interest(
        deposit.deposited_amount,
        current_supply_index,
        deposit.supply_index_snapshot,
    ) {
        None => { return Err(WithdrawError::MathOverflow); },
        Some(v) => v,
    };
    let withdraw_amount = if amount == 0 {
        current_deposit_amount
    } else {
        amount
    };
    if withdraw_amount > current_deposit_amount {
        return Err(WithdrawError::InsufficientDeposit);
    }
    if withdraw_amount > reserve.available_liquidity() {
        return Err(WithdrawError::InsufficientLiquidity);
    }
    if vault_balance < withdraw_amount {
        return Err(WithdrawError::InsufficientVaultBalance);
    }
    let remaining_deposit = current_deposit_amount - withdraw_amount;
    if obligation.has_borrows() {
        let removed_num = match deposit.market_value_usd.checked_mul(withdraw_amount as u128) {
            None => { return Err(WithdrawError::MathOverflow); },
            Some(v) => v,
        };
        let withdraw_value_usd: u128 = if current_deposit_amount > 0 {
            removed_num / current_deposit_amount as u128
        } else {
            0
        };
        let new_deposited_value_usd = obligation.deposited_value_usd.saturating_sub(
            withdraw_value_usd,
        );
        let allowed_num = match new_deposited_value_usd.checked_mul(reserve.config.ltv_bps as u128) {
            None => { return Err(WithdrawError::MathOverflow); },
            Some(v) => v,
        };
        let unhealthy_num = match new_deposited_value_usd.checked_mul(
            reserve.config.liquidation_threshold_bps as u128,
        ) {
            None => { return Err(WithdrawError::MathOverflow); },
            Some(v) => v,
        };
        let new_allowed_borrow_value_usd = allowed_num / 10000;
        let new_unhealthy_borrow_value_usd = unhealthy_num / 10000;
        if obligation.borrowed_value_usd > new_allowed_borrow_value_usd {
            return Err(WithdrawError::InsufficientBorrowCapacity);
        }
        let health_num = match new_unhealthy_borrow_value_usd.checked_mul(10000) {
            None => { return Err(WithdrawError::MathOverflow); },
            Some(v) => v,
        };
        if obligation.borrowed_value_usd > 0 && health_num / obligation.borrowed_value_usd
            < MIN_HEALTH_FACTOR_AFTER_BORROW as u128 {
            return Err(WithdrawError::HealthFactorTooLow);
        }
        if obligation.unhealthy_borrow_value_usd > u128::MAX / 10000 {
            return Err(WithdrawError::MathOverflow);
        }
        if !obligation.is_healthy() {
            return Err(WithdrawError::PositionUnhealthy);
        }
    }
    reserve.liquidity.total_deposits = reserve.liquidity.total_deposits - withdraw_amount;
    let ghost old_entries = obligation.deposits@;
    if remaining_deposit == 0 {
        obligation.deposits.remove(deposit_index);
        proof {
            if old(obligation).wf() {
                assert forall|a: int, b: int|
                    0 <= a < b < obligation.deposits@.len() implies obligation.deposits@[a].reserve
                    != obligation.deposits@[b].reserve by {
                    let a2 = if a < deposit_index { a } else { a + 1 };
                    let b2 = if b < deposit_index { b } else { b + 1 };
                    assert(obligation.deposits@[a] == old_entries[a2]);
                    assert(obligation.deposits@[b] == old_entries[b2]);
                }
            }
        }
    } else {
        obligation.deposits.set(
            deposit_index,
            ObligationCollateral {
                deposited_amount: remaining_deposit,
                supply_index_snapshot: current_supply_index,
                ..deposit
            },
        );
    }
    reserve.last_update_slot = current_slot;
    reserve.last_update_timestamp = current_timestamp;
    reserve.update_rates();
    obligation.last_update_slot = current_slot;
    Ok((withdraw_amount, remaining_deposit))
}

/// After a successful withdrawal from an obligation with borrows, the
/// position is healthy: no debt, or a health factor above 1.0.
pub proof fn lemma_withdraw_solvent(
    market_key: Address,
    reserve_key: Address,
    reserve: Reserve,
    obligation: Obligation,
    amount: u64,
    vault_balance: u64,
    slot: u64,
)
    requires
        withdraw_failure(
            market_key,
            reserve_key,
            reserve,
            obligation,
            amount,
            vault_balance,
            slot,
        ) is None,
        obligation.borrows@.len() > 0,
    ensures
        obligation.healthy(),
{
}

/// With no time passing, withdrawing what was just deposited into a new
/// collateral entry succeeds (for an obligation without borrows, a pool whose
/// borrows do not exceed its deposits, and a vault holding the amount),
/// returns the pool's deposits to what they were, and removes the entry again.
pub proof fn lemma_deposit_withdraw_round_trip(
    market: LendingMarket,
    market_key: Address,
    reserve_key: Address,
    reserve: Reserve,
    obligation: Obligation,
    after_deposit: Obligation,
    amount: u64,
    vault_balance: u64,
    slot: u64,
    timestamp: i64,
)
    requires
        reserve.wf(),
        forall|j: int|
            0 <= j < obligation.deposits@.len() ==> obligation.deposits@[j].reserve != reserve_key,
        deposit_failure(market, market_key, reserve_key, reserve, obligation, amount, slot) is None,
        after_deposit.deposits@ == deposited_entries(
            obligation.deposits@,
            reserve_key,
            reserve.liquidity.cumulative_supply_index,
            amount,
        ),
        after_deposit.lending_market == obligation.lending_market,
        after_deposit.borrows@.len() == 0,
        reserve.liquidity.total_borrows <= reserve.liquidity.total_deposits,
        vault_balance >= amount,
        amount * reserve.liquidity.cumulative_supply_index <= u128::MAX,
    ensures
        ({
            let r1 = deposited_reserve(reserve, amount, slot, timestamp);
            let i = collateral_position(after_deposit.deposits@, reserve_key)->0;
            let d = after_deposit.deposits@[i];
            let current = accrued_amount(
                d.deposited_amount as int,
                r1.liquidity.cumulative_supply_index as int,
                d.supply_index_snapshot as int,
            );
            let w = withdraw_amount_spec(amount as int, current);
            &&& withdraw_failure(
                market_key,
                reserve_key,
                r1,
                after_deposit,
                amount,
                vault_balance,
                slot,
            ) is None
            &&& w == amount
            &&& r1.liquidity.total_deposits - w == reserve.liquidity.total_deposits
            &&& reduced_collateral(
                after_deposit.deposits@,
                i,
                current - w,
                r1.liquidity.cumulative_supply_index,
            ) == obligation.deposits@
        }),
{
    let s0 = obligation.deposits@;
    let s1 = after_deposit.deposits@;
    let k = s0.len() as int;
    assert(!exists|i: int| first_collateral(s0, reserve_key, i));
    assert(collateral_position(s0, reserve_key) is None);
    assert(first_collateral(s1, reserve_key, k));
    lemma_collateral_position(s1, reserve_key, k);
    let si = reserve.liquidity.cumulative_supply_index as int;
    if si != 0 {
        assert(amount * si / si == amount) by (nonlinear_arith)
            requires
                si > 0,
        ;
    }
    let r1 = deposited_reserve(reserve, amount, slot, timestamp);
    assert(r1.last_update_slot == slot);
    assert(r1.lending_market == reserve.lending_market);
    assert(r1.liquidity.total_deposits == reserve.liquidity.total_deposits + amount);
    assert(r1.liquidity.total_borrows == reserve.liquidity.total_borrows);
    assert(s1.remove(k) =~= s0);
}

} // verus!
