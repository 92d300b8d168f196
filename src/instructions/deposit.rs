use vstd::prelude::*;
use crate::address::Address;
use crate::constants::{MAX_OBLIGATION_DEPOSITS, MAX_RESERVE_STALENESS_SLOTS, MIN_DEPOSIT_AMOUNT};
use crate::market::LendingMarket;
use crate::obligation::{
    accrual_fits,
    accrued_amount,
    amount_with_interest,
    collateral_position,
    first_collateral,
    lemma_collateral_position,
    Obligation,
    ObligationCollateral,
};
use crate::reserve::{Reserve, ReserveLiquidity};
use crate::instructions::refresh_reserve::{lemma_refresh_monotone, refresh_spec};

verus! {

/// Errors of a deposit.
#[derive(Clone, Copy, Debug, PartialEq, Eq, Structural)]
pub enum DepositError {
    EmergencyModeActive,
    /// The reserve belongs to another market.
    InvalidReserve,
    DepositsDisabled,
    /// The obligation belongs to another market.
    InvalidObligation,
    InvalidObligationOwner,
    InvalidTokenMint,
    InvalidTokenOwner,
    InvalidVault,
    AmountZero,
    AmountTooSmall,
    DepositLimitExceeded,
    MaxDepositsReached,
    ReserveStale,
    MathOverflow,
}

/// Why a deposit of `amount` fails, in the order the checks are made; `None` when it succeeds.
pub open spec fn deposit_failure(
    market: LendingMarket,
    market_key: Address,
    reserve_key: Address,
    reserve: Reserve,
    obligation: Obligation,
    amount: u64,
    slot: u64,
) -> Option<DepositError> {
    let liq = reserve.liquidity;
    if market.emergency_mode {
        Some(DepositError::EmergencyModeActive)
    } else if reserve.lending_market != market_key {
        Some(DepositError::InvalidReserve)
    } else if !reserve.config.deposits_enabled {
        Some(DepositError::DepositsDisabled)
    } else if obligation.lending_market != market_key {
        Some(DepositError::InvalidObligation)
    } else if amount == 0 {
        Some(DepositError::AmountZero)
    } else if amount < MIN_DEPOSIT_AMOUNT {
        Some(DepositError::AmountTooSmall)
    } else if slot > reserve.last_update_slot + MAX_RESERVE_STALENESS_SLOTS {
        Some(DepositError::ReserveStale)
    } else if liq.total_deposits + amount > u64::MAX {
        Some(DepositError::MathOverflow)
    } else if reserve.config.deposit_limit > 0 && liq.total_deposits + amount
        > reserve.config.deposit_limit {
        Some(DepositError::DepositLimitExceeded)
    } else {
        match collateral_position(obligation.deposits@, reserve_key) {
            Some(i) => {
                let d = obligation.deposits@[i];
                if !accrual_fits(
                    d.deposited_amount as int,
                    liq.cumulative_supply_index as int,
                    d.supply_index_snapshot as int,
                ) || accrued_amount(
                    d.deposited_amount as int,
                    liq.cumulative_supply_index as int,
                    d.supply_index_snapshot as int,
                ) + amount > u64::MAX {
                    Some(DepositError::MathOverflow)
                } else {
                    None
                }
            },
            None => if obligation.deposits@.len() >= MAX_OBLIGATION_DEPOSITS {
                Some(DepositError::MaxDepositsReached)
            } else {
                None
            },
        }
    }
}

/// The collateral entries after depositing `amount` at supply index `index`:
/// an existing entry is renormalized to its accrued amount plus `amount`,
/// else a new entry is appended.
pub open spec fn deposited_entries(
    entries: Seq<ObligationCollateral>,
    reserve_key: Address,
    index: u128,
    amount: u64,
) -> Seq<ObligationCollateral> {
    match collateral_position(entries, reserve_key) {
        Some(i) => {
            let d = entries[i];
            entries.update(
                i,
                ObligationCollateral {
                    deposited_amount: (accrued_amount(
                        d.deposited_amount as int,
                        index as int,
                        d.supply_index_snapshot as int,
                    ) + amount) as u64,
                    supply_index_snapshot: index,
                    ..d
                },
            )
        },
        None => entries.push(
            ObligationCollateral {
                reserve: reserve_key,
                deposited_amount: amount,
                supply_index_snapshot: index,
                market_value_usd: 0,
            },
        ),
    }
}

/// The pool after a deposit of `amount`.
pub open spec fn deposited_reserve(reserve: Reserve, amount: u64, slot: u64, timestamp: i64) -> Reserve {
    reserve.touched(
        ReserveLiquidity {
            total_deposits: (reserve.liquidity.total_deposits + amount) as u64,
            ..reserve.liquidity
        },
        slot,
        timestamp,
    )
}

/// Moves `amount` of the reserve's token into its pool and credits it to the
/// obligation's collateral entry for the reserve. Returns the entry's new amount.
pub fn handler(
    market: &LendingMarket,
    market_key: &Address,
    reserve_key: &Address,
    reserve: &mut Reserve,
    obligation: &mut Obligation,
    amount: u64,
    current_slot: u64,
    current_timestamp: i64,
) -> (r: Result<u64, DepositError>)
    requires
        old(reserve).wf(),
    ensures
        match r {
            Ok(new_amount) => {
                &&& deposit_failure(
                    *market,
                    *market_key,
                    *reserve_key,
                    *old(reserve),
                    *old(obligation),
                    amount,
                    current_slot,
                ) is None
                &&& *final(reserve) == deposited_reserve(
                    *old(reserve),
                    amount,
                    current_slot,
                    current_timestamp,
                )
                &&& final(obligation).deposits@ == deposited_entries(
                    old(obligation).deposits@,
                    *reserve_key,
                    old(reserve).liquidity.cumulative_supply_index,
                    amount,
                )
                &&& final(obligation).borrows == old(obligation).borrows
                &&& final(obligation).same_but_entries(old(obligation))
                &&& final(obligation).last_update_slot == current_slot
                &&& final(reserve).borrow_excess() <= old(reserve).borrow_excess()
                &&& final(reserve).liquidity.cumulative_borrow_index == old(
                    reserve,
                ).liquidity.cumulative_borrow_index
                &&& final(reserve).liquidity.cumulative_supply_index == old(
                    reserve,
                ).liquidity.cumulative_supply_index
                &&& collateral_position(final(obligation).deposits@, *reserve_key) matches Some(
                    i,
                ) && final(obligation).deposits@[i].deposited_amount == new_amount
            },
            Err(e) => {
                &&& deposit_failure(
                    *market,
                    *market_key,
                    *reserve_key,
                    *old(reserve),
                    *old(obligation),
                    amount,
                    current_slot,
                ) == Some(e)
                &&& *final(reserve) == *old(reserve)
                &&& *final(obligation) == *old(obligation)
            },
        },
        old(obligation).wf() ==> final(obligation).wf(),
{
    if market.emergency_mode {
        return Err(DepositError::EmergencyModeActive);
    }
    if reserve.lending_market != *market_key {
        return Err(DepositError::InvalidReserve);
    }
    if !reserve.config.deposits_enabled {
        return Err(DepositError::DepositsDisabled);
    }
    if obligation.lending_market != *market_key {
        return Err(DepositError::InvalidObligation);
    }
    if amount == 0 {
        return Err(DepositError::AmountZero);
    }
    if amount < MIN_DEPOSIT_AMOUNT {
        return Err(DepositError::AmountTooSmall);
    }
    if reserve.is_stale(current_slot, MAX_RESERVE_STALENESS_SLOTS) {
        return Err(DepositError::ReserveStale);
    }
    let new_total = match reserve.liquidity.total_deposits.checked_add(amount) {
        None => { return Err(DepositError::MathOverflow); },
        Some(v) => v,
    };
    if reserve.config.deposit_limit > 0 && new_total > reserve.config.deposit_limit {
        return Err(DepositError::DepositLimitExceeded);
    }
    let current_supply_index = reserve.liquidity.cumulative_supply_index;
    let ghost old_entries = obligation.deposits@;
    let new_amount = match obligation.find_deposit(reserve_key) {
        Some(i) => {
            let d = obligation.deposits[i];
            let current = match amount_with_interest(
                d.deposited_amount,
                current_supply_index,
                d.supply_index_snapshot,
            ) {
                None => { return Err(DepositError::MathOverflow); },
                Some(v) => v,
            };
            let new_amount = match current.checked_add(amount) {
                None => { return Err(DepositError::MathOverflow); },
                Some(v) => v,
            };
            obligation.deposits.set(
                i,
                ObligationCollateral {
                    deposited_amount: new_amount,
                    supply_index_snapshot: current_supply_index,
                    ..d
                },
            );
            proof {
                assert(first_collateral(obligation.deposits@, *reserve_key, i as int));
                lemma_collateral_position(obligation.deposits@, *reserve_key, i as int);
            }
            new_amount
        },
        None => {
            if obligation.deposits.len() >= MAX_OBLIGATION_DEPOSITS {
                return Err(DepositError::MaxDepositsReached);
            }
            obligation.deposits.push(
                ObligationCollateral::new(*reserve_key, amount, current_supply_index),
            );
            proof {
                let s = obligation.deposits@;
                let k = old_entries.len() as int;
                assert(first_collateral(s, *reserve_key, k));
                lemma_collateral_position(s, *reserve_key, k);
            }
            amount
        },
    };
    reserve.liquidity.total_deposits = new_total;
    reserve.last_update_slot = current_slot;
    reserve.last_update_timestamp = current_timestamp;
    reserve.update_rates();
    obligation.last_update_slot = current_slot;
    Ok(new_amount)
}

/// A deposit into a reserve last updated more than the staleness window ago
/// fails as stale; once a refresh at the current slot succeeds, the same
/// deposit into a new collateral entry succeeds and adds the amount to the pool.
pub proof fn lemma_refresh_unblocks_deposit(
    market: LendingMarket,
    market_key: Address,
    reserve_key: Address,
    reserve: Reserve,
    obligation: Obligation,
    amount: u64,
    slot: u64,
    timestamp: i64,
)
    requires
        reserve.wf(),
        !market.emergency_mode,
        reserve.lending_market == market_key,
        reserve.config.deposits_enabled,
        obligation.lending_market == market_key,
        amount >= MIN_DEPOSIT_AMOUNT,
        slot > reserve.last_update_slot + MAX_RESERVE_STALENESS_SLOTS,
        reserve.liquidity.total_deposits + amount <= u64::MAX,
        reserve.config.deposit_limit == 0 || reserve.liquidity.total_deposits + amount
            <= reserve.config.deposit_limit,
        forall|j: int|
            0 <= j < obligation.deposits@.len() ==> obligation.deposits@[j].reserve != reserve_key,
        obligation.deposits@.len() < MAX_OBLIGATION_DEPOSITS,
        refresh_spec(reserve, slot, timestamp) is Some,
    ensures
        deposit_failure(market, market_key, reserve_key, reserve, obligation, amount, slot) == Some(
            DepositError::ReserveStale,
        ),
        ({
            let refreshed = refresh_spec(reserve, slot, timestamp)->0;
            &&& deposit_failure(
                market,
                market_key,
                reserve_key,
                refreshed,
                obligation,
                amount,
                slot,
            ) is None
            &&& deposited_reserve(refreshed, amount, slot, timestamp).liquidity.total_deposits
                == reserve.liquidity.total_deposits + amount
        }),
{
    lemma_refresh_monotone(reserve, slot, timestamp);
    let refreshed = refresh_spec(reserve, slot, timestamp)->0;
    assert(refreshed.last_update_slot == slot);
    assert(refreshed.lending_market == reserve.lending_market);
    assert(!exists|i: int| first_collateral(obligation.deposits@, reserve_key, i));
}

} // verus!
