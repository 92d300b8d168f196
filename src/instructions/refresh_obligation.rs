use vstd::prelude::*;
use crate::address::Address;
use crate::constants::MAX_RESERVE_STALENESS_SLOTS;
use crate::obligation::{accrued_amount, Obligation, ObligationCollateral, ObligationLiquidity};
use crate::oracle::{usd_value, usd_value_fits, usd_value_spec, OraclePrice, PriceError};
use crate::reserve::Reserve;

verus! {

/// Errors of an obligation refresh.
#[derive(Clone, Copy, Debug, PartialEq, Eq, Structural)]
pub enum RefreshObligationError {
    /// The obligation belongs to another market.
    InvalidObligation,
    /// The reserves given do not match the obligation's entries one for one.
    ReserveNotFound,
    /// A zero price.
    InvalidOraclePrice,
    /// A price published too long ago.
    StaleOraclePrice,
    /// A reserve not refreshed recently enough.
    ReserveStale,
    MathOverflow,
}

/// A refreshed reserve, its account key and its current oracle price.
#[derive(Clone, Copy, Debug, PartialEq, Eq, Structural)]
pub struct PricedReserve {
    pub key: Address,
    pub reserve: Reserve,
    pub price: OraclePrice,
}

/// Why a priced reserve cannot value an entry of reserve `key` at `slot`:
/// another reserve, a reserve not refreshed recently, or an unusable price.
pub open spec fn quote_failure(key: Address, q: PricedReserve, slot: u64) -> Option<
    RefreshObligationError,
> {
    if q.key != key {
        Some(RefreshObligationError::ReserveNotFound)
    } else if slot > q.reserve.last_update_slot + MAX_RESERVE_STALENESS_SLOTS {
        Some(RefreshObligationError::ReserveStale)
    } else if q.price.failure(slot) == Some(PriceError::Stale) {
        Some(RefreshObligationError::StaleOraclePrice)
    } else if q.price.failure(slot) == Some(PriceError::Invalid) {
        Some(RefreshObligationError::InvalidOraclePrice)
    } else {
        None
    }
}

/// Whether an amount grown by an index ratio can be computed in 128 bits.
pub open spec fn growth_fits(stored: int, index: int, snapshot: int) -> bool {
    snapshot == 0 || stored * index <= u128::MAX
}

/// Accrued amount of a collateral entry under its reserve's supply index.
pub open spec fn collateral_amount(e: ObligationCollateral, q: PricedReserve) -> int {
    accrued_amount(
        e.deposited_amount as int,
        q.reserve.liquidity.cumulative_supply_index as int,
        e.supply_index_snapshot as int,
    )
}

/// Value in scaled USD of a collateral entry.
pub open spec fn collateral_value(e: ObligationCollateral, q: PricedReserve) -> int {
    usd_value_spec(
        collateral_amount(e, q),
        q.price.price_usd as int,
        q.reserve.token_decimals as nat,
    )
}

/// Whether the value of a collateral entry and its weighted parts fit in 128 bits.
pub open spec fn collateral_fits(e: ObligationCollateral, q: PricedReserve) -> bool {
    let v = collateral_value(e, q);
    &&& growth_fits(
        e.deposited_amount as int,
        q.reserve.liquidity.cumulative_supply_index as int,
        e.supply_index_snapshot as int,
    )
    &&& usd_value_fits(
        collateral_amount(e, q),
        q.price.price_usd as int,
        q.reserve.token_decimals as nat,
    )
    &&& v * q.reserve.config.ltv_bps <= u128::MAX
    &&& v * q.reserve.config.liquidation_threshold_bps <= u128::MAX
}

/// Accrued amount of a borrow entry under its reserve's borrow index.
pub open spec fn liquidity_amount(e: ObligationLiquidity, q: PricedReserve) -> int {
    accrued_amount(
        e.borrowed_amount as int,
        q.reserve.liquidity.cumulative_borrow_index as int,
        e.borrow_index_snapshot as int,
    )
}

/// Value in scaled USD of a borrow entry.
pub open spec fn liquidity_value(e: ObligationLiquidity, q: PricedReserve) -> int {
    usd_value_spec(
        liquidity_amount(e, q),
        q.price.price_usd as int,
        q.reserve.token_decimals as nat,
    )
}

/// Whether the value of a borrow entry fits in 128 bits.
pub open spec fn liquidity_fits(e: ObligationLiquidity, q: PricedReserve) -> bool {
    &&& growth_fits(
        e.borrowed_amount as int,
        q.reserve.liquidity.cumulative_borrow_index as int,
        e.borrow_index_snapshot as int,
    )
    &&& usd_value_fits(
        liquidity_amount(e, q),
        q.price.price_usd as int,
        q.reserve.token_decimals as nat,
    )
}

/// Total value of the first `n` collateral entries.
pub open spec fn deposited_sum(
    ds: Seq<ObligationCollateral>,
    qs: Seq<PricedReserve>,
    n: nat,
) -> int
    decreases n,
{
    if n == 0 {
        0
    } else {
        deposited_sum(ds, qs, (n - 1) as nat) + collateral_value(ds[n - 1], qs[n - 1])
    }
}

/// Borrow capacity of the first `n` collateral entries, each weighted by its reserve's LTV.
pub open spec fn allowed_sum(ds: Seq<ObligationCollateral>, qs: Seq<PricedReserve>, n: nat) -> int
    decreases n,
{
    if n == 0 {
        0
    } else {
        allowed_sum(ds, qs, (n - 1) as nat) + collateral_value(ds[n - 1], qs[n - 1])
            * qs[n - 1].reserve.config.ltv_bps / 10_000
    }
}

/// Liquidation threshold value of the first `n` collateral entries.
pub open spec fn unhealthy_sum(
    ds: Seq<ObligationCollateral>,
    qs: Seq<PricedReserve>,
    n: nat,
) -> int
    decreases n,
{
    if n == 0 {
        0
    } else {
        unhealthy_sum(ds, qs, (n - 1) as nat) + collateral_value(ds[n - 1], qs[n - 1])
            * qs[n - 1].reserve.config.liquidation_threshold_bps / 10_000
    }
}

/// Total value of the first `n` borrow entries.
pub open spec fn borrowed_sum(bs: Seq<ObligationLiquidity>, qs: Seq<PricedReserve>, n: nat) -> int
    decreases n,
{
    if n == 0 {
        0
    } else {
        borrowed_sum(bs, qs, (n - 1) as nat) + liquidity_value(bs[n - 1], qs[n - 1])
    }
}

/// The first failure met while valuing the first `n` collateral entries.
pub open spec fn deposits_failure(
    ds: Seq<ObligationCollateral>,
    qs: Seq<PricedReserve>,
    slot: u64,
    n: nat,
) -> Option<RefreshObligationError>
    decreases n,
{
    if n == 0 {
        None
    } else if deposits_failure(ds, qs, slot, (n - 1) as nat) is Some {
        deposits_failure(ds, qs, slot, (n - 1) as nat)
    } else if quote_failure(ds[n - 1].reserve, qs[n - 1], slot) is Some {
        quote_failure(ds[n - 1].reserve, qs[n - 1], slot)
    } else if !collateral_fits(ds[n - 1], qs[n - 1]) || deposited_sum(ds, qs, n) > u128::MAX
        || allowed_sum(ds, qs, n) > u128::MAX || unhealthy_sum(ds, qs, n) > u128::MAX {
        Some(RefreshObligationError::MathOverflow)
    } else {
        None
    }
}

/// The first failure met while valuing the first `n` borrow entries.
pub open spec fn borrows_failure(
    bs: Seq<ObligationLiquidity>,
    qs: Seq<PricedReserve>,
    slot: u64,
    n: nat,
) -> Option<RefreshObligationError>
    decreases n,
{
    if n == 0 {
        None
    } else if borrows_failure(bs, qs, slot, (n - 1) as nat) is Some {
        borrows_failure(bs, qs, slot, (n - 1) as nat)
    } else if quote_failure(bs[n - 1].reserve, qs[n - 1], slot) is Some {
        quote_failure(bs[n - 1].reserve, qs[n - 1], slot)
    } else if !liquidity_fits(bs[n - 1], qs[n - 1]) || borrowed_sum(bs, qs, n) > u128::MAX {
        Some(RefreshObligationError::MathOverflow)
    } else {
        None
    }
}

/// Why a refresh fails: the market, then the reserves given, then the first
/// collateral entry and the first borrow entry that cannot be valued.
pub open spec fn refresh_obligation_failure(
    market_key: Address,
    obligation: Obligation,
    deposit_reserves: Seq<PricedReserve>,
    borrow_reserves: Seq<PricedReserve>,
    slot: u64,
) -> Option<RefreshObligationError> {
    let ds = obligation.deposits@;
    let bs = obligation.borrows@;
    if obligation.lending_market != market_key {
        Some(RefreshObligationError::InvalidObligation)
    } else if deposit_reserves.len() != ds.len() || borrow_reserves.len() != bs.len() {
        Some(RefreshObligationError::ReserveNotFound)
    } else if deposits_failure(ds, deposit_reserves, slot, ds.len()) is Some {
        deposits_failure(ds, deposit_reserves, slot, ds.len())
    } else {
        borrows_failure(bs, borrow_reserves, slot, bs.len())
    }
}

/// Values one collateral entry; `Err` when its reserve, price or value does not qualify.
fn value_collateral(e: &ObligationCollateral, q: &PricedReserve, slot: u64) -> (r: Result<
    u128,
    RefreshObligationError,
>)
    ensures
        match r {
            Ok(v) => quote_failure(e.reserve, *q, slot) is None && collateral_fits(*e, *q) && v
                == collateral_value(*e, *q),
            Err(err) => if quote_failure(e.reserve, *q, slot) is Some {
                quote_failure(e.reserve, *q, slot) == Some(err)
            } else {
                !collateral_fits(*e, *q) && err == RefreshObligationError::MathOverflow
            },
        },
{
    if q.key != e.reserve {
        return Err(RefreshObligationError::ReserveNotFound);
    }
    if q.reserve.is_stale(slot, MAX_RESERVE_STALENESS_SLOTS) {
        return Err(RefreshObligationError::ReserveStale);
    }
    match q.price.check(slot) {
        Err(PriceError::Stale) => { return Err(RefreshObligationError::StaleOraclePrice); },
        Err(PriceError::Invalid) => { return Err(RefreshObligationError::InvalidOraclePrice); },
        Ok(()) => {},
    }
    let index = q.reserve.liquidity.cumulative_supply_index;
    let amount: u128 = if e.supply_index_snapshot == 0 {
        e.deposited_amount as u128
    } else {
        match (e.deposited_amount as u128).checked_mul(index) {
            None => { return Err(RefreshObligationError::MathOverflow); },
            Some(p) => p / e.supply_index_snapshot,
        }
    };
    let value = match usd_value(amount, q.price.price_usd, q.reserve.token_decimals) {
        None => { return Err(RefreshObligationError::MathOverflow); },
        Some(v) => v,
    };
    if value.checked_mul(q.reserve.config.ltv_bps as u128).is_none() || value.checked_mul(
        q.reserve.config.liquidation_threshold_bps as u128,
    ).is_none() {
        return Err(RefreshObligationError::MathOverflow);
    }
    Ok(value)
}

/// Values one borrow entry; `Err` when its reserve, price or value does not qualify.
fn value_liquidity(e: &ObligationLiquidity, q: &PricedReserve, slot: u64) -> (r: Result<
    u128,
    RefreshObligationError,
>)
    ensures
        match r {
            Ok(v) => quote_failure(e.reserve, *q, slot) is None && liquidity_fits(*e, *q) && v
                == liquidity_value(*e, *q),
            Err(err) => if quote_failure(e.reserve, *q, slot) is Some {
                quote_failure(e.reserve, *q, slot) == Some(err)
            } else {
                !liquidity_fits(*e, *q) && err == RefreshObligationError::MathOverflow
            },
        },
{
    if q.key != e.reserve {
        return Err(RefreshObligationError::ReserveNotFound);
    }
    if q.reserve.is_stale(slot, MAX_RESERVE_STALENESS_SLOTS) {
        return Err(RefreshObligationError::ReserveStale);
    }
    match q.price.check(slot) {
        Err(PriceError::Stale) => { return Err(RefreshObligationError::StaleOraclePrice); },
        Err(PriceError::Invalid) => { return Err(RefreshObligationError::InvalidOraclePrice); },
        Ok(()) => {},
    }
    let index = q.reserve.liquidity.cumulative_borrow_index;
    let amount: u128 = if e.borrow_index_snapshot == 0 {
        e.borrowed_amount as u128
    } else {
        match (e.borrowed_amount as u128).checked_mul(index) {
            None => { return Err(RefreshObligationError::MathOverflow); },
            Some(p) => p / e.borrow_index_snapshot,
        }
    };
    match usd_value(amount, q.price.price_usd, q.reserve.token_decimals) {
        None => Err(RefreshObligationError::MathOverflow),
        Some(v) => Ok(v),
    }
}

/// Revalues every entry of the obligation from its reserve's current index
/// and price, and recomputes the cached totals: deposited value, borrow
/// capacity (each deposit weighted by its reserve's LTV), liquidation
/// threshold value, and borrowed value. `deposit_reserves[i]` and
/// `borrow_reserves[i]` price the obligation's `i`-th collateral and borrow entry.
pub fn handler(
    market_key: &Address,
    obligation: &mut Obligation,
    deposit_reserves: &Vec<PricedReserve>,
    borrow_reserves: &Vec<PricedReserve>,
    current_slot: u64,
) -> (r: Result<(), RefreshObligationError>)
    ensures
        match r {
            Ok(()) => {
                let ds = old(obligation).deposits@;
                let bs = old(obligation).borrows@;
                let dq = deposit_reserves@;
                let bq = borrow_reserves@;
                &&& refresh_obligation_failure(
                    *market_key,
                    *old(obligation),
                    dq,
                    bq,
                    current_slot,
                ) is None
                &&& final(obligation).deposited_value_usd == deposited_sum(ds, dq, ds.len())
                &&& final(obligation).allowed_borrow_value_usd == allowed_sum(ds, dq, ds.len())
                &&& final(obligation).unhealthy_borrow_value_usd == unhealthy_sum(ds, dq, ds.len())
                &&& final(obligation).borrowed_value_usd == borrowed_sum(bs, bq, bs.len())
                &&& final(obligation).deposits@.len() == ds.len()
                &&& forall|i: int|
                    0 <= i < ds.len() ==> final(obligation).deposits@[i] == (ObligationCollateral {
                        market_value_usd: collateral_value(ds[i], dq[i]) as u128,
                        ..ds[i]
                    })
                &&& final(obligation).borrows@.len() == bs.len()
                &&& forall|i: int|
                    0 <= i < bs.len() ==> final(obligation).borrows@[i] == (ObligationLiquidity {
                        market_value_usd: liquidity_value(bs[i], bq[i]) as u128,
                        ..bs[i]
                    })
                &&& final(obligation).lending_market == old(obligation).lending_market
                &&& final(obligation).owner == old(obligation).owner
                &&& final(obligation).version == old(obligation).version
                &&& final(obligation).bump == old(obligation).bump
                &&& final(obligation).last_update_slot == current_slot
            },
            Err(e) => {
                &&& refresh_obligation_failure(
                    *market_key,
                    *old(obligation),
                    deposit_reserves@,
                    borrow_reserves@,
                    current_slot,
                ) == Some(e)
                &&& *final(obligation) == *old(obligation)
            },
        },
        old(obligation).wf() ==> final(obligation).wf(),
{
    if obligation.lending_market != *market_key {
        return Err(RefreshObligationError::InvalidObligation);
    }
    if deposit_reserves.len() != obligation.deposits.len() || borrow_reserves.len()
        != obligation.borrows.len() {
        return Err(RefreshObligationError::ReserveNotFound);
    }
    let ghost ds = obligation.deposits@;
    let ghost bs = obligation.borrows@;
    let ghost dq = deposit_reserves@;
    let ghost bq = borrow_reserves@;
    let mut deposited_value_usd: u128 = 0;
    let mut allowed_borrow_value_usd: u128 = 0;
    let mut unhealthy_borrow_value_usd: u128 = 0;
    let mut deposits: Vec<ObligationCollateral> = Vec::new();
    let mut i: usize = 0;
    while i < obligation.deposits.len()
        invariant
            *obligation == *old(obligation),
            obligation.lending_market == *market_key,
            ds == obligation.deposits@,
            dq == deposit_reserves@,
            dq.len() == ds.len(),
            bs == obligation.borrows@,
            bq == borrow_reserves@,
            bq.len() == bs.len(),
            i <= ds.len(),
            deposits_failure(ds, dq, current_slot, i as nat) is None,
            deposited_value_usd == deposited_sum(ds, dq, i as nat),
            allowed_borrow_value_usd == allowed_sum(ds, dq, i as nat),
            unhealthy_borrow_value_usd == unhealthy_sum(ds, dq, i as nat),
            deposits@.len() == i,
            forall|k: int|
                0 <= k < i ==> deposits@[k] == (ObligationCollateral {
                    market_value_usd: collateral_value(ds[k], dq[k]) as u128,
                    ..ds[k]
                }),
        decreases ds.len() - i,
    {
        let e = obligation.deposits[i];
        let q = deposit_reserves[i];
        let ghost n = (i + 1) as nat;
        assert(deposited_sum(ds, dq, n) == deposited_sum(ds, dq, i as nat) + collateral_value(
            ds[i as int],
            dq[i as int],
        ));
        assert(allowed_sum(ds, dq, n) == allowed_sum(ds, dq, i as nat) + collateral_value(
            ds[i as int],
            dq[i as int],
        ) * dq[i as int].reserve.config.ltv_bps / 10_000);
        assert(unhealthy_sum(ds, dq, n) == unhealthy_sum(ds, dq, i as nat) + collateral_value(
            ds[i as int],
            dq[i as int],
        ) * dq[i as int].reserve.config.liquidation_threshold_bps / 10_000);
        assert(ds[i as int] == e && dq[i as int] == q);
        let value = match value_collateral(&e, &q, current_slot) {
            Err(err) => {
                proof {
                    assert(deposits_failure(ds, dq, current_slot, n) == Some(err));
                    lemma_deposits_failure_persists(ds, dq, current_slot, n, ds.len());
                }
                return Err(err);
            },
            Ok(v) => v,
        };
        let new_deposited = deposited_value_usd.checked_add(value);
        let new_allowed = allowed_borrow_value_usd.checked_add(
            value * q.reserve.config.ltv_bps as u128 / 10000,
        );
        let new_unhealthy = unhealthy_borrow_value_usd.checked_add(
            value * q.reserve.config.liquidation_threshold_bps as u128 / 10000,
        );
        if new_deposited.is_none() || new_allowed.is_none() || new_unhealthy.is_none() {
            proof {
                assert(deposits_failure(ds, dq, current_slot, n) == Some(
                    RefreshObligationError::MathOverflow,
                ));
                lemma_deposits_failure_persists(ds, dq, current_slot, n, ds.len());
            }
            return Err(RefreshObligationError::MathOverflow);
        }
        deposited_value_usd = new_deposited.unwrap();
        allowed_borrow_value_usd = new_allowed.unwrap();
        unhealthy_borrow_value_usd = new_unhealthy.unwrap();
        deposits.push(ObligationCollateral { market_value_usd: value, ..e });
        i += 1;
    }
    let mut borrowed_value_usd: u128 = 0;
    let mut borrows: Vec<ObligationLiquidity> = Vec::new();
    let mut j: usize = 0;
    while j < obligation.borrows.len()
        invariant
            *obligation == *old(obligation),
            ds == obligation.deposits@,
            obligation.lending_market == *market_key,
            dq == deposit_reserves@,
            dq.len() == ds.len(),
            bs == obligation.borrows@,
            bq == borrow_reserves@,
            bq.len() == bs.len(),
            j <= bs.len(),
            deposits_failure(ds, dq, current_slot, ds.len()) is None,
            deposited_value_usd == deposited_sum(ds, dq, ds.len()),
            allowed_borrow_value_usd == allowed_sum(ds, dq, ds.len()),
            unhealthy_borrow_value_usd == unhealthy_sum(ds, dq, ds.len()),
            deposits@.len() == ds.len(),
            forall|k: int|
                0 <= k < ds.len() ==> deposits@[k] == (ObligationCollateral {
                    market_value_usd: collateral_value(ds[k], dq[k]) as u128,
                    ..ds[k]
                }),
            borrows_failure(bs, bq, current_slot, j as nat) is None,
            borrowed_value_usd == borrowed_sum(bs, bq, j as nat),
            borrows@.len() == j,
            forall|k: int|
                0 <= k < j ==> borrows@[k] == (ObligationLiquidity {
                    market_value_usd: liquidity_value(bs[k], bq[k]) as u128,
                    ..bs[k]
                }),
        decreases bs.len() - j,
    {
        let e = obligation.borrows[j];
        let q = borrow_reserves[j];
        let ghost n = (j + 1) as nat;
        assert(borrowed_sum(bs, bq, n) == borrowed_sum(bs, bq, j as nat) + liquidity_value(
            bs[j as int],
            bq[j as int],
        ));
        assert(bs[j as int] == e && bq[j as int] == q);
        let value = match value_liquidity(&e, &q, current_slot) {
            Err(err) => {
                proof {
                    assert(borrows_failure(bs, bq, current_slot, n) == Some(err));
                    lemma_borrows_failure_persists(bs, bq, current_slot, n, bs.len());
                }
                return Err(err);
            },
            Ok(v) => v,
        };
        borrowed_value_usd = match borrowed_value_usd.checked_add(value) {
            None => {
                proof {
                    assert(borrows_failure(bs, bq, current_slot, n) == Some(
                        RefreshObligationError::MathOverflow,
                    ));
                    lemma_borrows_failure_persists(bs, bq, current_slot, n, bs.len());
                }
                return Err(RefreshObligationError::MathOverflow);
            },
            Some(v) => v,
        };
        borrows.push(ObligationLiquidity { market_value_usd: value, ..e });
        j += 1;
    }
    proof {
        assert(deposits@.len() == ds.len());
    }
    obligation.deposits = deposits;
    obligation.borrows = borrows;
    obligation.deposited_value_usd = deposited_value_usd;
    obligation.allowed_borrow_value_usd = allowed_borrow_value_usd;
    obligation.unhealthy_borrow_value_usd = unhealthy_borrow_value_usd;
    obligation.borrowed_value_usd = borrowed_value_usd;
    obligation.last_update_slot = current_slot;
    Ok(())
}

/// Once valuing the collateral entries has failed, it stays failed, with the same error.
proof fn lemma_deposits_failure_persists(
    ds: Seq<ObligationCollateral>,
    qs: Seq<PricedReserve>,
    slot: u64,
    m: nat,
    n: nat,
)
    requires
        m <= n,
        deposits_failure(ds, qs, slot, m) is Some,
    ensures
        deposits_failure(ds, qs, slot, n) == deposits_failure(ds, qs, slot, m),
    decreases n - m,
{
    if m < n {
        lemma_deposits_failure_persists(ds, qs, slot, m, (n - 1) as nat);
    }
}

/// Once valuing the borrow entries has failed, it stays failed, with the same error.
proof fn lemma_borrows_failure_persists(
    bs: Seq<ObligationLiquidity>,
    qs: Seq<PricedReserve>,
    slot: u64,
    m: nat,
    n: nat,
)
    requires
        m <= n,
        borrows_failure(bs, qs, slot, m) is Some,
    ensures
        borrows_failure(bs, qs, slot, n) == borrows_failure(bs, qs, slot, m),
    decreases n - m,
{
    if m < n {
        lemma_borrows_failure_persists(bs, qs, slot, m, (n - 1) as nat);
    }
}

} // verus!
