use vstd::prelude::*;
use crate::address::Address;
use crate::constants::{INDEX_ONE, SECONDS_PER_YEAR};
use crate::math::{lemma_div_le, lemma_div_mono, lemma_mul_div_le, lemma_mul_le};
use crate::reserve::{Reserve, ReserveLiquidity};

verus! {

/// Errors of a reserve refresh.
#[derive(Clone, Copy, Debug, PartialEq, Eq, Structural)]
pub enum RefreshReserveError {
    /// The reserve belongs to another market.
    InvalidReserve,
    /// The oracle account is not the reserve's.
    InvalidOracle,
    MathOverflow,
}

/// Denominator turning a BPS rate times seconds into a fraction of a year.
pub open spec fn year_bps() -> int {
    10_000 * SECONDS_PER_YEAR
}

/// Seconds since the last update, 0 if the clock did not advance, capped at one year.
pub open spec fn elapsed_spec(last_timestamp: int, timestamp: int) -> int {
    if timestamp <= last_timestamp {
        0
    } else if timestamp - last_timestamp > SECONDS_PER_YEAR {
        SECONDS_PER_YEAR as int
    } else {
        timestamp - last_timestamp
    }
}

/// Linear interest factor, scaled by `(INDEX_ONE as int)`, of a rate over `t` seconds.
pub open spec fn compound_factor_spec(rate_bps: int, t: int) -> int {
    rate_bps * t * (INDEX_ONE as int) / year_bps()
}

/// Interest of a principal under a factor scaled by `(INDEX_ONE as int)`.
pub open spec fn interest_spec(principal: int, factor: int) -> int {
    principal * factor / (INDEX_ONE as int)
}

/// The protocol's share of an interest amount.
pub open spec fn protocol_cut_spec(interest: int, reserve_factor_bps: int) -> int {
    interest * reserve_factor_bps / 10_000
}

/// Growth factor of the supply index, scaled by `(INDEX_ONE as int)`.
pub open spec fn supply_factor_spec(supply_interest: int, total_deposits: int) -> int {
    if total_deposits > 0 {
        supply_interest * (INDEX_ONE as int) / total_deposits
    } else {
        0
    }
}

/// Liquidity after `t > 0` seconds of interest at the current borrow rate,
/// or `None` where a step overflows.
pub open spec fn accrue_spec(liq: ReserveLiquidity, reserve_factor_bps: int, t: int) -> Option<
    ReserveLiquidity,
> {
    let f = compound_factor_spec(liq.current_borrow_rate_bps as int, t);
    let grown_borrow = liq.cumulative_borrow_index * ((INDEX_ONE as int) + f);
    let interest = interest_spec(liq.total_borrows as int, f);
    let cut = protocol_cut_spec(interest, reserve_factor_bps);
    let sf = supply_factor_spec(interest - cut, liq.total_deposits as int);
    let supply_growth = liq.cumulative_supply_index * sf;
    let new_supply = liq.cumulative_supply_index + supply_growth / (INDEX_ONE as int);
    if liq.current_borrow_rate_bps * t * (INDEX_ONE as int) > u128::MAX || grown_borrow > u128::MAX
        || liq.total_borrows * f > u128::MAX || interest > u64::MAX || liq.total_borrows
        + interest > u64::MAX || liq.accumulated_protocol_fees + cut > u64::MAX || supply_growth
        > u128::MAX || new_supply > u128::MAX {
        None
    } else {
        Some(
            ReserveLiquidity {
                total_borrows: (liq.total_borrows + interest) as u64,
                accumulated_protocol_fees: (liq.accumulated_protocol_fees + cut) as u64,
                cumulative_borrow_index: (grown_borrow / (INDEX_ONE as int)) as u128,
                cumulative_supply_index: new_supply as u128,
                ..liq
            },
        )
    }
}

/// Whether a refresh at this timestamp accrues interest.
pub open spec fn accrues(r: Reserve, timestamp: i64) -> bool {
    r.liquidity.total_borrows > 0 && elapsed_spec(r.last_update_timestamp as int, timestamp as int)
        > 0
}

/// The reserve after a refresh at `slot` and `timestamp`, or `None` on overflow.
/// A refresh in the slot of the last update, or an earlier one, changes nothing.
pub open spec fn refresh_spec(r: Reserve, slot: u64, timestamp: i64) -> Option<Reserve> {
    if slot <= r.last_update_slot {
        Some(r)
    } else {
        let accrued = if accrues(r, timestamp) {
            accrue_spec(
                r.liquidity,
                r.config.interest_rate_config.reserve_factor_bps as int,
                elapsed_spec(r.last_update_timestamp as int, timestamp as int),
            )
        } else {
            Some(r.liquidity)
        };
        match accrued {
            Some(liq) => Some(
                Reserve {
                    liquidity: liq,
                    last_update_slot: slot,
                    last_update_timestamp: timestamp,
                    ..r
                }.with_rates(),
            ),
            None => None,
        }
    }
}

/// Interest factor of a rate over a number of seconds, scaled by `INDEX_ONE`.
pub fn calculate_compound_factor(rate_bps: u64, time_elapsed_seconds: u64) -> (r: Result<
    u128,
    RefreshReserveError,
>)
    ensures
        match r {
            Ok(f) => rate_bps * time_elapsed_seconds * INDEX_ONE <= u128::MAX && f
                == compound_factor_spec(rate_bps as int, time_elapsed_seconds as int),
            Err(e) => rate_bps * time_elapsed_seconds * INDEX_ONE > u128::MAX && e
                == RefreshReserveError::MathOverflow,
        },
{
    proof {
        lemma_mul_le(
            rate_bps as int,
            time_elapsed_seconds as int,
            u64::MAX as int,
            u64::MAX as int,
        );
    }
    let rt = rate_bps as u128 * time_elapsed_seconds as u128;
    match rt.checked_mul(INDEX_ONE) {
        None => Err(RefreshReserveError::MathOverflow),
        Some(numerator) => {
            let denominator: u128 = 10000u128 * SECONDS_PER_YEAR as u128;
            Ok(numerator / denominator)
        },
    }
}

/// Interest earned by a principal under a factor scaled by `INDEX_ONE`.
pub fn calculate_interest_earned(principal: u64, compound_factor: u128) -> (r: Result<
    u64,
    RefreshReserveError,
>)
    ensures
        match r {
            Ok(i) => principal * compound_factor <= u128::MAX && interest_spec(
                principal as int,
                compound_factor as int,
            ) <= u64::MAX && i == interest_spec(principal as int, compound_factor as int),
            Err(e) => (principal * compound_factor > u128::MAX || interest_spec(
                principal as int,
                compound_factor as int,
            ) > u64::MAX) && e == RefreshReserveError::MathOverflow,
        },
{
    match (principal as u128).checked_mul(compound_factor) {
        None => Err(RefreshReserveError::MathOverflow),
        Some(p) => {
            let interest = p / INDEX_ONE;
            if interest > u64::MAX as u128 {
                Err(RefreshReserveError::MathOverflow)
            } else {
                Ok(interest as u64)
            }
        },
    }
}

/// Applies `t > 0` seconds of interest to the pool's totals and indexes.
pub fn accrue_interest(liq: &ReserveLiquidity, reserve_factor_bps: u16, t: u64) -> (r: Result<
    ReserveLiquidity,
    RefreshReserveError,
>)
    requires
        reserve_factor_bps <= 10_000,
    ensures
        match r {
            Ok(n) => accrue_spec(*liq, reserve_factor_bps as int, t as int) == Some(n),
            Err(e) => accrue_spec(*liq, reserve_factor_bps as int, t as int) is None && e
                == RefreshReserveError::MathOverflow,
        },
{
    let f = calculate_compound_factor(liq.current_borrow_rate_bps, t)?;
    proof {
        lemma_div_mono(
            liq.current_borrow_rate_bps * t * INDEX_ONE,
            u128::MAX as int,
            year_bps(),
        );
    }
    let new_borrow_index = match liq.cumulative_borrow_index.checked_mul(INDEX_ONE + f) {
        None => { return Err(RefreshReserveError::MathOverflow); },
        Some(p) => p / INDEX_ONE,
    };
    let interest_earned = calculate_interest_earned(liq.total_borrows, f)?;
    let total_borrows = match liq.total_borrows.checked_add(interest_earned) {
        None => { return Err(RefreshReserveError::MathOverflow); },
        Some(v) => v,
    };
    proof {
        lemma_mul_div_le(interest_earned as int, reserve_factor_bps as int, 10_000);
        lemma_mul_le(interest_earned as int, reserve_factor_bps as int, u64::MAX as int, 10_000);
    }
    let protocol_cut = (interest_earned as u128 * reserve_factor_bps as u128 / 10000) as u64;
    let fees = match liq.accumulated_protocol_fees.checked_add(protocol_cut) {
        None => { return Err(RefreshReserveError::MathOverflow); },
        Some(v) => v,
    };
    let supply_interest = interest_earned - protocol_cut;
    proof {
        lemma_mul_le(supply_interest as int, INDEX_ONE as int, u64::MAX as int, INDEX_ONE as int);
    }
    let supply_factor: u128 = if liq.total_deposits > 0 {
        (supply_interest as u128 * INDEX_ONE) / liq.total_deposits as u128
    } else {
        0
    };
    let growth = match liq.cumulative_supply_index.checked_mul(supply_factor) {
        None => { return Err(RefreshReserveError::MathOverflow); },
        Some(p) => p / INDEX_ONE,
    };
    let new_supply_index = match liq.cumulative_supply_index.checked_add(growth) {
        None => { return Err(RefreshReserveError::MathOverflow); },
        Some(v) => v,
    };
    Ok(
        ReserveLiquidity {
            total_borrows,
            accumulated_protocol_fees: fees,
            cumulative_borrow_index: new_borrow_index,
            cumulative_supply_index: new_supply_index,
            ..*liq
        },
    )
}

/// Accrues interest since the last update, then recomputes the rates from the
/// new utilization and records the slot and time. Does nothing when the
/// reserve was already updated in this slot or a later one.
pub fn handler(
    market_key: &Address,
    reserve: &mut Reserve,
    current_slot: u64,
    current_timestamp: i64,
) -> (r: Result<(), RefreshReserveError>)
    requires
        old(reserve).wf(),
    ensures
        old(reserve).lending_market != *market_key ==> r == Err::<(), _>(
            RefreshReserveError::InvalidReserve,
        ) && *final(reserve) == *old(reserve),
        old(reserve).lending_market == *market_key ==> match refresh_spec(
            *old(reserve),
            current_slot,
            current_timestamp,
        ) {
            Some(n) => r is Ok && *final(reserve) == n && n.liquidity.cumulative_borrow_index
                >= old(reserve).liquidity.cumulative_borrow_index
                && n.liquidity.cumulative_supply_index
                >= old(reserve).liquidity.cumulative_supply_index && n.borrow_excess()
                <= old(reserve).borrow_excess() + (n.liquidity.total_borrows - old(
                reserve,
            ).liquidity.total_borrows),
            None => r == Err::<(), _>(RefreshReserveError::MathOverflow) && *final(reserve) == *old(
                reserve,
            ),
        },
{
    if reserve.lending_market != *market_key {
        return Err(RefreshReserveError::InvalidReserve);
    }
    proof {
        if refresh_spec(*old(reserve), current_slot, current_timestamp) is Some {
            lemma_refresh_monotone(*old(reserve), current_slot, current_timestamp);
        }
    }
    if current_slot <= reserve.last_update_slot {
        return Ok(());
    }
    let elapsed: u64 = if current_timestamp <= reserve.last_update_timestamp {
        0
    } else {
        let d: i128 = current_timestamp as i128 - reserve.last_update_timestamp as i128;
        if d > SECONDS_PER_YEAR as i128 {
            SECONDS_PER_YEAR
        } else {
            d as u64
        }
    };
    if reserve.liquidity.total_borrows > 0 && elapsed > 0 {
        let liq = accrue_interest(
            &reserve.liquidity,
            reserve.config.interest_rate_config.reserve_factor_bps,
            elapsed,
        )?;
        reserve.liquidity = liq;
    }
    reserve.last_update_slot = current_slot;
    reserve.last_update_timestamp = current_timestamp;
    reserve.update_rates();
    Ok(())
}

/// Both cumulative indexes never decrease across a refresh, and the pool's
/// deposits and configuration are left as they were.
pub proof fn lemma_refresh_monotone(r: Reserve, slot: u64, timestamp: i64)
    requires
        r.wf(),
        refresh_spec(r, slot, timestamp) is Some,
    ensures
        ({
            let n = refresh_spec(r, slot, timestamp)->0;
            &&& n.liquidity.cumulative_borrow_index >= r.liquidity.cumulative_borrow_index
            &&& n.liquidity.cumulative_supply_index >= r.liquidity.cumulative_supply_index
            &&& n.liquidity.total_deposits == r.liquidity.total_deposits
            &&& n.liquidity.total_borrows >= r.liquidity.total_borrows
            &&& n.config == r.config
        }),
{
    if slot > r.last_update_slot && accrues(r, timestamp) {
        let liq = r.liquidity;
        let rf = r.config.interest_rate_config.reserve_factor_bps as int;
        let t = elapsed_spec(r.last_update_timestamp as int, timestamp as int);
        let f = compound_factor_spec(liq.current_borrow_rate_bps as int, t);
        let one = INDEX_ONE as int;
        assert(f >= 0) by (nonlinear_arith)
            requires
                f == liq.current_borrow_rate_bps * t * one / year_bps(),
                liq.current_borrow_rate_bps >= 0,
                t >= 0,
                one > 0,
        ;
        let bi = liq.cumulative_borrow_index as int;
        assert(bi * (one + f) / one >= bi) by (nonlinear_arith)
            requires
                bi >= 0,
                f >= 0,
                one > 0,
        ;
        let interest = interest_spec(liq.total_borrows as int, f);
        lemma_mul_le(liq.total_borrows as int, f, liq.total_borrows as int, f);
        lemma_div_le(liq.total_borrows * f, one);
        lemma_mul_div_le(interest, rf, 10_000);
        let cut = protocol_cut_spec(interest, rf);
        let sf = supply_factor_spec(interest - cut, liq.total_deposits as int);
        if liq.total_deposits > 0 {
            lemma_mul_le(interest - cut, one, interest - cut, one);
            lemma_div_le((interest - cut) * one, liq.total_deposits as int);
        }
        lemma_mul_le(liq.cumulative_supply_index as int, sf, liq.cumulative_supply_index as int, sf);
        lemma_div_le(liq.cumulative_supply_index * sf, one);
    }
}

/// Indexes never decrease along a chain of refreshes, each taking the
/// reserve that the previous one produced.
pub proof fn lemma_refresh_chain_monotone(rs: Seq<Reserve>, slots: Seq<u64>, timestamps: Seq<i64>)
    requires
        rs.len() >= 1,
        rs[0].wf(),
        slots.len() == rs.len() - 1,
        timestamps.len() == rs.len() - 1,
        forall|i: int|
            0 <= i < rs.len() - 1 ==> refresh_spec(rs[i], slots[i], timestamps[i]) == Some(
                rs[i + 1],
            ),
    ensures
        forall|i: int, j: int|
            0 <= i <= j < rs.len() ==> rs[i].liquidity.cumulative_borrow_index
                <= rs[j].liquidity.cumulative_borrow_index
                && rs[i].liquidity.cumulative_supply_index
                <= rs[j].liquidity.cumulative_supply_index,
    decreases rs.len(),
{
    if rs.len() > 1 {
        let k = rs.len() - 1;
        let front = rs.subrange(0, k as int);
        lemma_refresh_chain_monotone(
            front,
            slots.subrange(0, k - 1),
            timestamps.subrange(0, k - 1),
        );
        assert forall|i: int| 0 <= i < k implies rs[i].wf() by {
            lemma_chain_wf(rs, slots, timestamps, i);
        }
        lemma_refresh_monotone(rs[k - 1], slots[k - 1], timestamps[k - 1]);
        assert forall|i: int, j: int| 0 <= i <= j < rs.len() implies rs[i].liquidity.cumulative_borrow_index
            <= rs[j].liquidity.cumulative_borrow_index && rs[i].liquidity.cumulative_supply_index
            <= rs[j].liquidity.cumulative_supply_index by {
            if j < k {
                assert(front[i] == rs[i] && front[j] == rs[j]);
            } else if i < k {
                assert(front[i] == rs[i] && front[k - 1] == rs[k - 1]);
            }
        }
    }
}

/// Every reserve along a chain of refreshes keeps the first one's configuration.
pub proof fn lemma_chain_wf(rs: Seq<Reserve>, slots: Seq<u64>, timestamps: Seq<i64>, i: int)
    requires
        rs.len() >= 1,
        rs[0].wf(),
        slots.len() == rs.len() - 1,
        timestamps.len() == rs.len() - 1,
        forall|k: int|
            0 <= k < rs.len() - 1 ==> refresh_spec(rs[k], slots[k], timestamps[k]) == Some(
                rs[k + 1],
            ),
        0 <= i < rs.len(),
    ensures
        rs[i].wf(),
    decreases i,
{
    if i > 0 {
        lemma_chain_wf(rs, slots, timestamps, i - 1);
        lemma_refresh_monotone(rs[i - 1], slots[i - 1], timestamps[i - 1]);
    }
}

/// A second refresh in the same slot leaves the reserve as the first left it.
pub proof fn lemma_refresh_idempotent(r: Reserve, slot: u64, timestamp: i64, later_timestamp: i64)
    requires
        refresh_spec(r, slot, timestamp) is Some,
    ensures
        refresh_spec(refresh_spec(r, slot, timestamp)->0, slot, later_timestamp) == refresh_spec(
            r,
            slot,
            timestamp,
        ),
{
}

/// The borrow index grows at most linearly in the capped elapsed time:
/// `new * (10 000 * year) <= old * (10 000 * year + rate * elapsed)`.
pub proof fn lemma_refresh_accrual_bound(r: Reserve, slot: u64, timestamp: i64)
    requires
        refresh_spec(r, slot, timestamp) is Some,
    ensures
        refresh_spec(r, slot, timestamp)->0.liquidity.cumulative_borrow_index * year_bps()
            <= r.liquidity.cumulative_borrow_index * (year_bps()
            + r.liquidity.current_borrow_rate_bps * elapsed_spec(
            r.last_update_timestamp as int,
            timestamp as int,
        )),
{
    let bi = r.liquidity.cumulative_borrow_index as int;
    let rt = r.liquidity.current_borrow_rate_bps * elapsed_spec(
        r.last_update_timestamp as int,
        timestamp as int,
    );
    let y = year_bps();
    let n = refresh_spec(r, slot, timestamp)->0.liquidity.cumulative_borrow_index as int;
    let one = INDEX_ONE as int;
    assert(rt >= 0) by (nonlinear_arith)
        requires
            rt == r.liquidity.current_borrow_rate_bps * elapsed_spec(
                r.last_update_timestamp as int,
                timestamp as int,
            ),
            elapsed_spec(r.last_update_timestamp as int, timestamp as int) >= 0,
    ;
    if slot > r.last_update_slot && accrues(r, timestamp) {
        let f = compound_factor_spec(r.liquidity.current_borrow_rate_bps as int, elapsed_spec(
            r.last_update_timestamp as int,
            timestamp as int,
        ));
        assert(f * y <= rt * one) by (nonlinear_arith)
            requires
                f == rt * one / y,
                y > 0,
        ;
        assert(n * one <= bi * (one + f)) by (nonlinear_arith)
            requires
                n == bi * (one + f) / one,
                one > 0,
        ;
        assert(n * y <= bi * (y + rt)) by (nonlinear_arith)
            requires
                n * one <= bi * (one + f),
                f * y <= rt * one,
                one > 0,
                y > 0,
                bi >= 0,
        ;
    } else {
        assert(bi * y <= bi * (y + rt)) by (nonlinear_arith)
            requires
                bi >= 0,
                rt >= 0,
        ;
    }
}

/// The protocol fees grow by exactly the reserve factor's share of the
/// interest added to the borrows.
pub proof fn lemma_refresh_fee_split(r: Reserve, slot: u64, timestamp: i64)
    requires
        refresh_spec(r, slot, timestamp) is Some,
    ensures
        ({
            let n = refresh_spec(r, slot, timestamp)->0;
            n.liquidity.accumulated_protocol_fees - r.liquidity.accumulated_protocol_fees == (
            n.liquidity.total_borrows - r.liquidity.total_borrows)
                * r.config.interest_rate_config.reserve_factor_bps / 10_000
        }),
{
    let n = refresh_spec(r, slot, timestamp)->0;
    let rf = r.config.interest_rate_config.reserve_factor_bps as int;
    if slot > r.last_update_slot && accrues(r, timestamp) {
        let liq = r.liquidity;
        let f = compound_factor_spec(
            liq.current_borrow_rate_bps as int,
            elapsed_spec(r.last_update_timestamp as int, timestamp as int),
        );
        let interest = interest_spec(liq.total_borrows as int, f);
        assert(n.liquidity.total_borrows - liq.total_borrows == interest);
        assert(n.liquidity.accumulated_protocol_fees - liq.accumulated_protocol_fees
            == protocol_cut_spec(interest, rf));
    } else {
        assert(n.liquidity.total_borrows == r.liquidity.total_borrows);
        assert(n.liquidity.accumulated_protocol_fees == r.liquidity.accumulated_protocol_fees);
        assert(0 * rf / 10_000 == 0) by (nonlinear_arith);
    }
}

} // verus!
