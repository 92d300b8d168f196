use vstd::prelude::*;
use crate::address::Address;
use crate::constants::MAX_RESERVE_STALENESS_SLOTS;
use crate::obligation::{
    accrual_fits,
    accrued_amount,
    amount_with_interest,
    liquidity_position,
    Obligation,
    ObligationLiquidity,
};
use crate::reserve::{Reserve, ReserveLiquidity};

verus! {

/// Errors of a repayment.
#[derive(Clone, Copy, Debug, PartialEq, Eq, Structural)]
pub enum RepayError {
    /// The reserve belongs to another market.
    InvalidReserve,
    /// The obligation belongs to another market.
    InvalidObligation,
    InvalidVault,
    InvalidTokenMint,
    InvalidTokenOwner,
    NoBorrowFound,
    NothingToRepay,
    ReserveStale,
    MathOverflow,
}

/// The amount a repayment request takes: all of `current` for a request of 0
/// or of more than the debt.
pub open spec fn repay_amount_spec(amount: int, current: int) -> int {
    if amount == 0 || amount >= current {
        current
    } else {
        amount
    }
}

/// Why a repayment fails, in the order the checks are made; `None` when it succeeds.
pub open spec fn repay_failure(
    market_key: Address,
    reserve_key: Address,
    reserve: Reserve,
    obligation: Obligation,
    amount: u64,
    slot: u64,
) -> Option<RepayError> {
    if reserve.lending_market != market_key {
        Some(RepayError::InvalidReserve)
    } else if obligation.lending_market != market_key {
        Some(RepayError::InvalidObligation)
    } else if slot > reserve.last_update_slot + MAX_RESERVE_STALENESS_SLOTS {
        Some(RepayError::ReserveStale)
    } else {
        match liquidity_position(obligation.borrows@, reserve_key) {
            None => Some(RepayError::NoBorrowFound),
            Some(i) => {
                let b = obligation.borrows@[i];
                let index = reserve.liquidity.cumulative_borrow_index as int;
                if !accrual_fits(b.borrowed_amount as int, index, b.borrow_index_snapshot as int) {
                    Some(RepayError::MathOverflow)
                } else {
                    let current = accrued_amount(
                        b.borrowed_amount as int,
                        index,
                        b.borrow_index_snapshot as int,
                    );
                    if current == 0 {
                        Some(RepayError::NothingToRepay)
                    } else if repay_amount_spec(amount as int, current)
                        > reserve.liquidity.total_borrows {
                        Some(RepayError::MathOverflow)
                    } else {
                        None
                    }
                }
            },
        }
    }
}

/// The borrow entries after entry `i` is reduced to `remaining` at borrow
/// index `index`; an entry reduced to zero is removed.
pub open spec fn reduced_liquidity(
    entries: Seq<ObligationLiquidity>,
    i: int,
    remaining: int,
    index: u128,
) -> Seq<ObligationLiquidity> {
    if remaining == 0 {
        entries.remove(i)
    } else {
        entries.update(
            i,
            ObligationLiquidity {
                borrowed_amount: remaining as u64,
                borrow_index_snapshot: index,
                ..entries[i]
            },
        )
    }
}

/// Repays debt of the obligation in this reserve; anyone may pay. A request
/// of 0, or of more than the debt, repays all of it. Returns the amount
/// repaid and the debt that remains.
pub fn handler(
    market_key: &Address,
    reserve_key: &Address,
    reserve: &mut Reserve,
    obligation: &mut Obligation,
    amount: u64,
    current_slot: u64,
    current_timestamp: i64,
) -> (r: Result<(u64, u64), RepayError>)
    requires
        old(reserve).wf(),
    ensures
        match r {
            Ok((repaid, remaining)) => {
                let i = liquidity_position(old(obligation).borrows@, *reserve_key)->0;
                let b = old(obligation).borrows@[i];
                let current = accrued_amount(
                    b.borrowed_amount as int,
                    old(reserve).liquidity.cumulative_borrow_index as int,
                    b.borrow_index_snapshot as int,
                );
                &&& repay_failure(
                    *market_key,
                    *reserve_key,
                    *old(reserve),
                    *old(obligation),
                    amount,
                    current_slot,
                ) is None
                &&& repaid == repay_amount_spec(amount as int, current)
                &&& remaining == current - repaid
                &&& *final(reserve) == old(reserve).touched(
                    ReserveLiquidity {
                        total_borrows: (old(reserve).liquidity.total_borrows - repaid) as u64,
                        ..old(reserve).liquidity
                    },
                    current_slot,
                    current_timestamp,
                )
                &&& final(obligation).borrows@ == reduced_liquidity(
                    old(obligation).borrows@,
                    i,
                    remaining as int,
                    old(reserve).liquidity.cumulative_borrow_index,
                )
                &&& final(obligation).deposits == old(obligation).deposits
                &&& final(obligation).same_but_entries(old(obligation))
                &&& final(obligation).last_update_slot == current_slot
                &&& final(reserve).borrow_excess() <= old(reserve).borrow_excess()
                &&& final(reserve).liquidity.cumulative_borrow_index == old(
                    reserve,
                ).liquidity.cumulative_borrow_index
                &&& final(reserve).liquidity.cumulative_supply_index == old(
                    reserve,
                ).liquidity.cumulative_supply_index
            },
            Err(e) => {
                &&& repay_failure(
                    *market_key,
                    *reserve_key,
                    *old(reserve),
                    *old(obligation),
                    amount,
                    current_slot,
                ) == Some(e)
                &&& *final(reserve) == *old(reserve)
                &&& *final(obligation) == *old(obligation)
            },
        },
        old(obligation).wf() ==> final(obligation).wf(),
{
    if reserve.lending_market != *market_key {
        return Err(RepayError::InvalidReserve);
    }
    if obligation.lending_market != *market_key {
        return Err(RepayError::InvalidObligation);
    }
    if reserve.is_stale(current_slot, MAX_RESERVE_STALENESS_SLOTS) {
        return Err(RepayError::ReserveStale);
    }
    let borrow_index = match obligation.find_borrow(reserve_key) {
        None => { return Err(RepayError::NoBorrowFound); },
        Some(i) => i,
    };
    let current_borrow_index = reserve.liquidity.cumulative_borrow_index;
    let borrow = obligation.borrows[borrow_index];
    let current_borrow_amount = match amount_with_interest(
        borrow.borrowed_amount,
        current_borrow_index,
        borrow.borrow_index_snapshot,
    ) {
        None => { return Err(RepayError::MathOverflow); },
        Some(v) => v,
    };
    if current_borrow_amount == 0 {
        return Err(RepayError::NothingToRepay);
    }
    let repay_amount = if amount == 0 || amount >= current_borrow_amount {
        current_borrow_amount
    } else {
        amount
    };
    let total_borrows = match reserve.liquidity.total_borrows.checked_sub(repay_amount) {
        None => { return Err(RepayError::MathOverflow); },
        Some(v) => v,
    };
    let remaining_borrow = current_borrow_amount - repay_amount;
    reserve.liquidity.total_borrows = total_borrows;
    let ghost old_entries = obligation.borrows@;
    if remaining_borrow == 0 {
        obligation.borrows.remove(borrow_index);
        proof {
            if old(obligation).wf() {
                assert forall|a: int, b: int|
                    0 <= a < b < obligation.borrows@.len() implies obligation.borrows@[a].reserve
                    != obligation.borrows@[b].reserve by {
                    let a2 = if a < borrow_index { a } else { a + 1 };
                    let b2 = if b < borrow_index { b } else { b + 1 };
                    assert(obligation.borrows@[a] == old_entries[a2]);
                    assert(obligation.borrows@[b] == old_entries[b2]);
                }
            }
        }
    } else {
        obligation.borrows.set(
            borrow_index,
            ObligationLiquidity {
                borrowed_amount: remaining_borrow,
                borrow_index_snapshot: current_borrow_index,
                ..borrow
            },
        );
    }
    reserve.last_update_slot = current_slot;
    reserve.last_update_timestamp = current_timestamp;
    reserve.update_rates();
    obligation.last_update_slot = current_slot;
    Ok((repay_amount, remaining_borrow))
}

} // verus!
