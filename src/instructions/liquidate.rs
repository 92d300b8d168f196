use vstd::prelude::*;
use crate::address::Address;
use crate::constants::MAX_RESERVE_STALENESS_SLOTS;
use crate::market::LendingMarket;
use crate::math::{lemma_mul_div_le, lemma_mul_le};
use crate::obligation::{
    accrual_fits,
    accrued_amount,
    amount_with_interest,
    collateral_position,
    liquidity_position,
    Obligation,
    ObligationCollateral,
    ObligationLiquidity,
};
use crate::reserve::{Reserve, ReserveLiquidity};
use crate::instructions::repay::reduced_liquidity;
use crate::instructions::withdraw::reduced_collateral;

verus! {

/// Errors of a liquidation.
#[derive(Clone, Copy, Debug, PartialEq, Eq, Structural)]
pub enum LiquidateError {
    /// A reserve belongs to another market.
    InvalidReserve,
    /// The obligation belongs to another market.
    InvalidObligation,
    InvalidVault,
    InvalidFeeReceiver,
    InvalidTokenMint,
    InvalidTokenOwner,
    ObligationHealthy,
    ReserveStale,
    NoBorrowFound,
    NoCollateralFound,
    RepayAmountTooSmall,
    InsufficientCollateral,
    MathOverflow,
}

/// The amounts of a liquidation, in native units.
#[derive(Clone, Copy, Debug, PartialEq, Eq, Structural)]
pub struct LiquidationOutcome {
    /// Debt repaid by the liquidator.
    pub repay_amount: u64,
    /// Collateral taken from the obligation.
    pub collateral_seized: u64,
    /// Seized collateral beyond the repaid amount.
    pub liquidation_bonus: u64,
    /// Part of the bonus that goes to the reserve's fee receiver.
    pub protocol_fee: u64,
    /// Collateral that goes to the liquidator.
    pub liquidator_reward: u64,
}

/// The close-factor ceiling on one repayment.
pub open spec fn max_repay_spec(current_borrow: int, close_factor_bps: int) -> int {
    current_borrow * close_factor_bps / 10_000
}

/// The repayment: the request bounded by the close factor and by the debt.
pub open spec fn actual_repay_spec(request: int, current_borrow: int, close_factor_bps: int) -> int {
    let m = max_repay_spec(current_borrow, close_factor_bps);
    let a = if request < m {
        request
    } else {
        m
    };
    if a < current_borrow {
        a
    } else {
        current_borrow
    }
}

/// Collateral seized for a repayment: the repayment plus the bonus, at a
/// one-to-one price between the two assets.
pub open spec fn seize_spec(repay: int, bonus_bps: int) -> int {
    repay * (10_000 + bonus_bps) / 10_000
}

/// The protocol's share of the bonus.
pub open spec fn protocol_fee_spec(seized: int, repay: int, protocol_fee_bps: int) -> int {
    (seized - repay) * protocol_fee_bps / 10_000
}

/// Why a liquidation fails, in the order the checks are made; `None` when it succeeds.
pub open spec fn liquidate_failure(
    market: LendingMarket,
    market_key: Address,
    repay_reserve_key: Address,
    repay_reserve: Reserve,
    collateral_reserve_key: Address,
    collateral_reserve: Reserve,
    obligation: Obligation,
    request: u64,
    slot: u64,
) -> Option<LiquidateError> {
    if repay_reserve.lending_market != market_key || collateral_reserve.lending_market
        != market_key {
        Some(LiquidateError::InvalidReserve)
    } else if obligation.lending_market != market_key {
        Some(LiquidateError::InvalidObligation)
    } else if slot > repay_reserve.last_update_slot + MAX_RESERVE_STALENESS_SLOTS || slot
        > collateral_reserve.last_update_slot + MAX_RESERVE_STALENESS_SLOTS {
        Some(LiquidateError::ReserveStale)
    } else if !obligation.health_computable() {
        Some(LiquidateError::MathOverflow)
    } else if obligation.healthy() {
        Some(LiquidateError::ObligationHealthy)
    } else if liquidity_position(obligation.borrows@, repay_reserve_key) is None {
        Some(LiquidateError::NoBorrowFound)
    } else if collateral_position(obligation.deposits@, collateral_reserve_key) is None {
        Some(LiquidateError::NoCollateralFound)
    } else {
        let b = obligation.borrows@[liquidity_position(obligation.borrows@, repay_reserve_key)->0];
        let d = obligation.deposits@[collateral_position(
            obligation.deposits@,
            collateral_reserve_key,
        )->0];
        let bi = repay_reserve.liquidity.cumulative_borrow_index as int;
        let si = collateral_reserve.liquidity.cumulative_supply_index as int;
        let current_borrow = accrued_amount(
            b.borrowed_amount as int,
            bi,
            b.borrow_index_snapshot as int,
        );
        let repay = actual_repay_spec(
            request as int,
            current_borrow,
            market.close_factor_bps as int,
        );
        let seized = seize_spec(repay, market.liquidation_bonus_bps as int);
        if !accrual_fits(b.borrowed_amount as int, bi, b.borrow_index_snapshot as int) {
            Some(LiquidateError::MathOverflow)
        } else if repay == 0 {
            Some(LiquidateError::RepayAmountTooSmall)
        } else if seized > u64::MAX || !accrual_fits(
            d.deposited_amount as int,
            si,
            d.supply_index_snapshot as int,
        ) {
            Some(LiquidateError::MathOverflow)
        } else if seized > accrued_amount(
            d.deposited_amount as int,
            si,
            d.supply_index_snapshot as int,
        ) {
            Some(LiquidateError::InsufficientCollateral)
        } else if repay > repay_reserve.liquidity.total_borrows || seized
            > collateral_reserve.liquidity.total_deposits {
            Some(LiquidateError::MathOverflow)
        } else {
            None
        }
    }
}

/// Repays part of the debt of an obligation whose health factor is at most
/// 1.0 and hands the liquidator collateral worth the repayment plus a bonus,
/// less the protocol's share of the bonus.
pub fn handler(
    market: &LendingMarket,
    market_key: &Address,
    repay_reserve_key: &Address,
    repay_reserve: &mut Reserve,
    collateral_reserve_key: &Address,
    collateral_reserve: &mut Reserve,
    obligation: &mut Obligation,
    repay_amount: u64,
    current_slot: u64,
    current_timestamp: i64,
) -> (r: Result<LiquidationOutcome, LiquidateError>)
    requires
        market.wf(),
        old(repay_reserve).wf(),
        old(collateral_reserve).wf(),
    ensures
        match r {
            Ok(out) => {
                let bi = liquidity_position(old(obligation).borrows@, *repay_reserve_key)->0;
                let di = collateral_position(old(obligation).deposits@, *collateral_reserve_key)->0;
                let b = old(obligation).borrows@[bi];
                let d = old(obligation).deposits@[di];
                let current_borrow = accrued_amount(
                    b.borrowed_amount as int,
                    old(repay_reserve).liquidity.cumulative_borrow_index as int,
                    b.borrow_index_snapshot as int,
                );
                let current_deposit = accrued_amount(
                    d.deposited_amount as int,
                    old(collateral_reserve).liquidity.cumulative_supply_index as int,
                    d.supply_index_snapshot as int,
                );
                &&& liquidate_failure(
                    *market,
                    *market_key,
                    *repay_reserve_key,
                    *old(repay_reserve),
                    *collateral_reserve_key,
                    *old(collateral_reserve),
                    *old(obligation),
                    repay_amount,
                    current_slot,
                ) is None
                &&& out.repay_amount == actual_repay_spec(
                    repay_amount as int,
                    current_borrow,
                    market.close_factor_bps as int,
                )
                &&& out.repay_amount <= max_repay_spec(current_borrow, market.close_factor_bps as int)
                &&& out.collateral_seized == seize_spec(
                    out.repay_amount as int,
                    market.liquidation_bonus_bps as int,
                )
                &&& out.collateral_seized >= out.repay_amount
                &&& out.liquidation_bonus == out.collateral_seized - out.repay_amount
                &&& out.protocol_fee == protocol_fee_spec(
                    out.collateral_seized as int,
                    out.repay_amount as int,
                    market.protocol_fee_bps as int,
                )
                &&& out.protocol_fee + out.liquidator_reward == out.collateral_seized
                &&& *final(repay_reserve) == old(repay_reserve).touched(
                    ReserveLiquidity {
                        total_borrows: (old(repay_reserve).liquidity.total_borrows
                            - out.repay_amount) as u64,
                        ..old(repay_reserve).liquidity
                    },
                    current_slot,
                    current_timestamp,
                )
                &&& *final(collateral_reserve) == old(collateral_reserve).touched(
                    ReserveLiquidity {
                        total_deposits: (old(collateral_reserve).liquidity.total_deposits
                            - out.collateral_seized) as u64,
                        ..old(collateral_reserve).liquidity
                    },
                    current_slot,
                    current_timestamp,
                )
                &&& final(obligation).borrows@ == reduced_liquidity(
                    old(obligation).borrows@,
                    bi,
                    current_borrow - out.repay_amount,
                    old(repay_reserve).liquidity.cumulative_borrow_index,
                )
                &&& final(obligation).deposits@ == reduced_collateral(
                    old(obligation).deposits@,
                    di,
                    current_deposit - out.collateral_seized,
                    old(collateral_reserve).liquidity.cumulative_supply_index,
                )
                &&& final(obligation).same_but_entries(old(obligation))
                &&& final(obligation).last_update_slot == current_slot
            },
            Err(e) => {
                &&& liquidate_failure(
                    *market,
                    *market_key,
                    *repay_reserve_key,
                    *old(repay_reserve),
                    *collateral_reserve_key,
                    *old(collateral_reserve),
                    *old(obligation),
                    repay_amount,
                    current_slot,
                ) == Some(e)
                &&& *final(repay_reserve) == *old(repay_reserve)
                &&& *final(collateral_reserve) == *old(collateral_reserve)
                &&& *final(obligation) == *old(obligation)
            },
        },
        old(obligation).wf() ==> final(obligation).wf(),
{
    if repay_reserve.lending_market != *market_key || collateral_reserve.lending_market
        != *market_key {
        return Err(LiquidateError::InvalidReserve);
    }
    if obligation.lending_market != *market_key {
        return Err(LiquidateError::InvalidObligation);
    }
    if repay_reserve.is_stale(current_slot, MAX_RESERVE_STALENESS_SLOTS)
        || collateral_reserve.is_stale(current_slot, MAX_RESERVE_STALENESS_SLOTS) {
        return Err(LiquidateError::ReserveStale);
    }
    if obligation.unhealthy_borrow_value_usd > u128::MAX / 10000 {
        return Err(LiquidateError::MathOverflow);
    }
    if !obligation.is_liquidatable() {
        return Err(LiquidateError::ObligationHealthy);
    }
    let borrow_index = match obligation.find_borrow(repay_reserve_key) {
        None => { return Err(LiquidateError::NoBorrowFound); },
        Some(i) => i,
    };
    let deposit_index = match obligation.find_deposit(collateral_reserve_key) {
        None => { return Err(LiquidateError::NoCollateralFound); },
        Some(i) => i,
    };
    let borrow = obligation.borrows[borrow_index];
    let current_borrow_index = repay_reserve.liquidity.cumulative_borrow_index;
    let current_borrow_amount = match amount_with_interest(
        borrow.borrowed_amount,
        current_borrow_index,
        borrow.borrow_index_snapshot,
    ) {
        None => { return Err(LiquidateError::MathOverflow); },
        Some(v) => v,
    };
    proof {
        lemma_mul_div_le(current_borrow_amount as int, market.close_factor_bps as int, 10_000);
        lemma_mul_le(current_borrow_amount as int, market.close_factor_bps as int, u64::MAX as int, 10_000);
    }
    let max_repay = (current_borrow_amount as u128 * market.close_factor_bps as u128 / 10000) as u64;
    let capped = if repay_amount < max_repay {
        repay_amount
    } else {
        max_repay
    };
    let actual_repay = if capped < current_borrow_amount {
        capped
    } else {
        current_borrow_amount
    };
    if actual_repay == 0 {
        return Err(LiquidateError::RepayAmountTooSmall);
    }
    let bonus_bps = market.liquidation_bonus_bps as u128;
    proof {
        lemma_mul_le(actual_repay as int, 10_000 + bonus_bps, u64::MAX as int, 12_500);
        assert(actual_repay * (10_000 + bonus_bps) / 10_000 >= actual_repay) by (nonlinear_arith)
            requires
                bonus_bps >= 0,
                actual_repay >= 0,
        ;
    }
    let seize_wide = actual_repay as u128 * (10000 + bonus_bps) / 10000;
    if seize_wide > u64::MAX as u128 {
        return Err(LiquidateError::MathOverflow);
    }
    let collateral_to_seize = seize_wide as u64;
    let deposit = obligation.deposits[deposit_index];
    let current_supply_index = collateral_reserve.liquidity.cumulative_supply_index;
    let current_deposit_amount = match amount_with_interest(
        deposit.deposited_amount,
        current_supply_index,
        deposit.supply_index_snapshot,
    ) {
        None => { return Err(LiquidateError::MathOverflow); },
        Some(v) => v,
    };
    if collateral_to_seize > current_deposit_amount {
        return Err(LiquidateError::InsufficientCollateral);
    }
    let liquidation_bonus_amount = collateral_to_seize - actual_repay;
    proof {
        lemma_mul_div_le(liquidation_bonus_amount as int, market.protocol_fee_bps as int, 10_000);
        lemma_mul_le(liquidation_bonus_amount as int, market.protocol_fee_bps as int, u64::MAX as int, 10_000);
    }
    let protocol_fee = (liquidation_bonus_amount as u128 * market.protocol_fee_bps as u128 / 10000) as u64;
    let liquidator_reward = collateral_to_seize - protocol_fee;
    if actual_repay > repay_reserve.liquidity.total_borrows || collateral_to_seize
        > collateral_reserve.liquidity.total_deposits {
        return Err(LiquidateError::MathOverflow);
    }
    repay_reserve.liquidity.total_borrows = repay_reserve.liquidity.total_borrows - actual_repay;
    collateral_reserve.liquidity.total_deposits = collateral_reserve.liquidity.total_deposits
        - collateral_to_seize;
    let remaining_borrow = current_borrow_amount - actual_repay;
    let ghost old_borrows = obligation.borrows@;
    if remaining_borrow == 0 {
        obligation.borrows.remove(borrow_index);
        proof {
            if old(obligation).wf() {
                assert forall|a: int, b: int|
                    0 <= a < b < obligation.borrows@.len() implies obligation.borrows@[a].reserve
                    != obligation.borrows@[b].reserve by {
                    let a2 = if a < borrow_index { a } else { a + 1 };
                    let b2 = if b < borrow_index { b } else { b + 1 };
                    assert(obligation.borrows@[a] == old_borrows[a2]);
                    assert(obligation.borrows@[b] == old_borrows[b2]);
                }
            }
        }
    } else {
        obligation.borrows.set(
            borrow_index,
            ObligationLiquidity {
                borrowed_amount: remaining_borrow,
                borrow_index_snapshot: current_borrow_index,
                ..borrow
            },
        );
    }
    let remaining_deposit = current_deposit_amount - collateral_to_seize;
    let ghost old_deposits = obligation.deposits@;
    if remaining_deposit == 0 {
        obligation.deposits.remove(deposit_index);
        proof {
            if old(obligation).wf() {
                assert forall|a: int, b: int|
                    0 <= a < b < obligation.deposits@.len() implies obligation.deposits@[a].reserve
                    != obligation.deposits@[b].reserve by {
                    let a2 = if a < deposit_index { a } else { a + 1 };
                    let b2 = if b < deposit_index { b } else { b + 1 };
                    assert(obligation.deposits@[a] == old_deposits[a2]);
                    assert(obligation.deposits@[b] == old_deposits[b2]);
                }
            }
        }
    } else {
        obligation.deposits.set(
            deposit_index,
            ObligationCollateral {
                deposited_amount: remaining_deposit,
                supply_index_snapshot: current_supply_index,
                ..deposit
            },
        );
    }
    repay_reserve.last_update_slot = current_slot;
    repay_reserve.last_update_timestamp = current_timestamp;
    repay_reserve.update_rates();
    collateral_reserve.last_update_slot = current_slot;
    collateral_reserve.last_update_timestamp = current_timestamp;
    collateral_reserve.update_rates();
    obligation.last_update_slot = current_slot;
    Ok(
        LiquidationOutcome {
            repay_amount: actual_repay,
            collateral_seized: collateral_to_seize,
            liquidation_bonus: liquidation_bonus_amount,
            protocol_fee,
            liquidator_reward,
        },
    )
}

} // verus!
