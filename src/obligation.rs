use vstd::prelude::*;
use crate::address::Address;
use crate::constants::{MAX_OBLIGATION_BORROWS, MAX_OBLIGATION_DEPOSITS};

verus! {

/// Collateral deposited by the owner of an obligation.
#[derive(Clone, Copy, Debug, PartialEq, Eq, Structural)]
pub struct ObligationCollateral {
    pub reserve: Address,
    /// Amount in native units at the time of the snapshot.
    pub deposited_amount: u64,
    /// Supply index when `deposited_amount` was set.
    pub supply_index_snapshot: u128,
    /// Value in scaled USD at the last valuation.
    pub market_value_usd: u128,
}

/// Liquidity borrowed by the owner of an obligation.
#[derive(Clone, Copy, Debug, PartialEq, Eq, Structural)]
pub struct ObligationLiquidity {
    pub reserve: Address,
    /// Amount in native units at the time of the snapshot.
    pub borrowed_amount: u64,
    /// Borrow index when `borrowed_amount` was set.
    pub borrow_index_snapshot: u128,
    /// Value in scaled USD at the last valuation.
    pub market_value_usd: u128,
}

/// A user's position in one lending market.
#[derive(Clone, Debug, PartialEq, Eq)]
pub struct Obligation {
    pub version: u8,
    pub bump: u8,
    pub lending_market: Address,
    pub owner: Address,
    pub last_update_slot: u64,
    pub deposits: Vec<ObligationCollateral>,
    pub borrows: Vec<ObligationLiquidity>,
    /// Cached valuation, in scaled USD, from the last refresh.
    pub deposited_value_usd: u128,
    pub borrowed_value_usd: u128,
    pub allowed_borrow_value_usd: u128,
    pub unhealthy_borrow_value_usd: u128,
}

/// Amount grown by the ratio of the current index to its snapshot; a zero
/// snapshot leaves the amount as stored.
pub open spec fn accrued_amount(stored: int, index: int, snapshot: int) -> int {
    if snapshot == 0 {
        stored
    } else {
        stored * index / snapshot
    }
}

/// Whether the product behind `accrued_amount` and its result fit their types.
pub open spec fn accrual_fits(stored: int, index: int, snapshot: int) -> bool {
    snapshot == 0 || (stored * index <= u128::MAX && stored * index / snapshot <= u64::MAX)
}

/// `accrued_amount` in checked arithmetic: `None` when it does not fit.
pub fn amount_with_interest(stored: u64, index: u128, snapshot: u128) -> (r: Option<u64>)
    ensures
        r == if accrual_fits(stored as int, index as int, snapshot as int) {
            Some(accrued_amount(stored as int, index as int, snapshot as int) as u64)
        } else {
            None::<u64>
        },
{
    if snapshot == 0 {
        return Some(stored);
    }
    match (stored as u128).checked_mul(index) {
        None => None,
        Some(p) => {
            let a = p / snapshot;
            if a > u64::MAX as u128 {
                None
            } else {
                Some(a as u64)
            }
        },
    }
}

/// `i` is the first position of `s` whose entry belongs to `key`.
pub open spec fn first_collateral(s: Seq<ObligationCollateral>, key: Address, i: int) -> bool {
    &&& 0 <= i < s.len()
    &&& s[i].reserve == key
    &&& forall|j: int| 0 <= j < i ==> s[j].reserve != key
}

/// `i` is the first position of `s` whose entry belongs to `key`.
pub open spec fn first_liquidity(s: Seq<ObligationLiquidity>, key: Address, i: int) -> bool {
    &&& 0 <= i < s.len()
    &&& s[i].reserve == key
    &&& forall|j: int| 0 <= j < i ==> s[j].reserve != key
}

/// Position of the collateral entry of a reserve, if there is one.
pub open spec fn collateral_position(s: Seq<ObligationCollateral>, key: Address) -> Option<int> {
    if exists|i: int| first_collateral(s, key, i) {
        Some(choose|i: int| first_collateral(s, key, i))
    } else {
        None
    }
}

/// Position of the borrow entry of a reserve, if there is one.
pub open spec fn liquidity_position(s: Seq<ObligationLiquidity>, key: Address) -> Option<int> {
    if exists|i: int| first_liquidity(s, key, i) {
        Some(choose|i: int| first_liquidity(s, key, i))
    } else {
        None
    }
}

/// The first entry of a reserve is where `collateral_position` points.
pub proof fn lemma_collateral_position(s: Seq<ObligationCollateral>, key: Address, i: int)
    requires
        first_collateral(s, key, i),
    ensures
        collateral_position(s, key) == Some(i),
{
    let c = choose|k: int| first_collateral(s, key, k);
    assert(c == i) by {
        if c < i {
            assert(s[c].reserve != key);
        }
        if c > i {
            assert(s[i].reserve == key);
        }
    }
}

/// The first entry of a reserve is where `liquidity_position` points.
pub proof fn lemma_liquidity_position(s: Seq<ObligationLiquidity>, key: Address, i: int)
    requires
        first_liquidity(s, key, i),
    ensures
        liquidity_position(s, key) == Some(i),
{
    let c = choose|k: int| first_liquidity(s, key, k);
    assert(c == i) by {
        if c < i {
            assert(s[c].reserve != key);
        }
        if c > i {
            assert(s[i].reserve == key);
        }
    }
}

/// Health factor in BPS: `None` without debt, else the liquidation
/// threshold value over the debt (saturating at `u64::MAX`).
pub open spec fn health_spec(unhealthy: int, borrowed: int) -> Option<int> {
    if borrowed == 0 {
        None
    } else {
        let h = unhealthy * 10_000 / borrowed;
        Some(if h > u64::MAX as int { u64::MAX as int } else { h })
    }
}

/// Healthy means no debt or a health factor above 1.0.
pub open spec fn healthy_spec(unhealthy: int, borrowed: int) -> bool {
    match health_spec(unhealthy, borrowed) {
        None => true,
        Some(h) => h > 10_000,
    }
}

/// An obligation has no health factor exactly when it has no debt; with debt
/// it is liquidatable exactly when its health factor is at most 1.0, and a
/// debt at or above the liquidation threshold value makes it liquidatable.
pub proof fn lemma_health_factor_law(o: Obligation)
    ensures
        o.health() is None <==> o.borrowed_value_usd == 0,
        o.borrowed_value_usd > 0 ==> (!o.healthy() <==> o.health()->0 <= 10_000),
        o.borrowed_value_usd > 0 && o.borrowed_value_usd >= o.unhealthy_borrow_value_usd
            ==> !o.healthy(),
{
    let u = o.unhealthy_borrow_value_usd as int;
    let b = o.borrowed_value_usd as int;
    if b > 0 && b >= u {
        assert(u * 10_000 / b <= 10_000) by (nonlinear_arith)
            requires
                0 <= u <= b,
                b > 0,
        ;
    }
}

/// With debt, an obligation is liquidatable exactly when its debt is at or
/// above its liquidation threshold value, outside the band where the
/// threshold value is above the debt by less than one part in 10 000 (there
/// the floored health factor is exactly 1.0).
pub proof fn lemma_liquidatable_iff_debt_reaches_threshold(o: Obligation)
    requires
        o.borrowed_value_usd > 0,
        o.unhealthy_borrow_value_usd <= o.borrowed_value_usd || o.unhealthy_borrow_value_usd
            * 10_000 >= o.borrowed_value_usd * 10_001,
    ensures
        !o.healthy() <==> o.borrowed_value_usd >= o.unhealthy_borrow_value_usd,
{
    lemma_health_factor_law(o);
    let u = o.unhealthy_borrow_value_usd as int;
    let b = o.borrowed_value_usd as int;
    if u > b {
        assert(u * 10_000 / b >= 10_001) by (nonlinear_arith)
            requires
                u * 10_000 >= b * 10_001,
                b > 0,
        ;
    }
}

impl Obligation {
    /// At most one entry per reserve on each side, within the size limits.
    pub open spec fn wf(&self) -> bool {
        &&& self.deposits@.len() <= MAX_OBLIGATION_DEPOSITS
        &&& self.borrows@.len() <= MAX_OBLIGATION_BORROWS
        &&& forall|i: int, j: int|
            0 <= i < j < self.deposits@.len() ==> self.deposits@[i].reserve
                != self.deposits@[j].reserve
        &&& forall|i: int, j: int|
            0 <= i < j < self.borrows@.len() ==> self.borrows@[i].reserve
                != self.borrows@[j].reserve
    }

    /// Equal but for the entries and the slot of the last update.
    pub open spec fn same_but_entries(&self, other: &Obligation) -> bool {
        &&& self.version == other.version
        &&& self.bump == other.bump
        &&& self.lending_market == other.lending_market
        &&& self.owner == other.owner
        &&& self.deposited_value_usd == other.deposited_value_usd
        &&& self.borrowed_value_usd == other.borrowed_value_usd
        &&& self.allowed_borrow_value_usd == other.allowed_borrow_value_usd
        &&& self.unhealthy_borrow_value_usd == other.unhealthy_borrow_value_usd
    }

    /// The health factor can be computed without overflow.
    pub open spec fn health_computable(&self) -> bool {
        self.unhealthy_borrow_value_usd * 10_000 <= u128::MAX
    }

    pub open spec fn health(&self) -> Option<int> {
        health_spec(self.unhealthy_borrow_value_usd as int, self.borrowed_value_usd as int)
    }

    pub open spec fn healthy(&self) -> bool {
        healthy_spec(self.unhealthy_borrow_value_usd as int, self.borrowed_value_usd as int)
    }

    /// Health factor from the cached valuation, scaled by 10 000.
    pub fn calculate_health_factor(&self) -> (r: Option<u64>)
        requires
            self.health_computable(),
        ensures
            r matches Some(h) ==> self.health() == Some(h as int),
            r is None ==> self.health() is None,
    {
        if self.borrowed_value_usd == 0 {
            return None;
        }
        let h = (self.unhealthy_borrow_value_usd * 10000) / self.borrowed_value_usd;
        if h > u64::MAX as u128 {
            Some(u64::MAX)
        } else {
            Some(h as u64)
        }
    }

    /// No debt, or a health factor above 1.0.
    pub fn is_healthy(&self) -> (r: bool)
        requires
            self.health_computable(),
        ensures
            r == self.healthy(),
    {
        match self.calculate_health_factor() {
            None => true,
            Some(health) => health > 10000,
        }
    }

    /// Debt with a health factor of at most 1.0.
    pub fn is_liquidatable(&self) -> (r: bool)
        requires
            self.health_computable(),
        ensures
            r == !self.healthy(),
    {
        !self.is_healthy()
    }

    /// Allowed borrow value minus borrowed value, or 0 when exceeded.
    pub fn remaining_borrow_capacity_usd(&self) -> (r: u128)
        ensures
            r == if self.allowed_borrow_value_usd >= self.borrowed_value_usd {
                self.allowed_borrow_value_usd - self.borrowed_value_usd
            } else {
                0
            },
    {
        self.allowed_borrow_value_usd.saturating_sub(self.borrowed_value_usd)
    }

    /// Position of the collateral entry for `reserve`.
    pub fn find_deposit(&self, reserve: &Address) -> (r: Option<usize>)
        ensures
            r matches Some(i) ==> collateral_position(self.deposits@, *reserve) == Some(i as int),
            r is None ==> collateral_position(self.deposits@, *reserve) is None,
            r is None ==> forall|j: int|
                0 <= j < self.deposits@.len() ==> self.deposits@[j].reserve != *reserve,
    {
        let mut i: usize = 0;
        while i < self.deposits.len()
            invariant
                i <= self.deposits@.len(),
                forall|j: int| 0 <= j < i ==> self.deposits@[j].reserve != *reserve,
            decreases self.deposits@.len() - i,
        {
            if self.deposits[i].reserve == *reserve {
                proof {
                    lemma_collateral_position(self.deposits@, *reserve, i as int);
                }
                return Some(i);
            }
            i += 1;
        }
        None
    }

    /// Position of the borrow entry for `reserve`.
    pub fn find_borrow(&self, reserve: &Address) -> (r: Option<usize>)
        ensures
            r matches Some(i) ==> liquidity_position(self.borrows@, *reserve) == Some(i as int),
            r is None ==> liquidity_position(self.borrows@, *reserve) is None,
            r is None ==> forall|j: int|
                0 <= j < self.borrows@.len() ==> self.borrows@[j].reserve != *reserve,
    {
        let mut i: usize = 0;
        while i < self.borrows.len()
            invariant
                i <= self.borrows@.len(),
                forall|j: int| 0 <= j < i ==> self.borrows@[j].reserve != *reserve,
            decreases self.borrows@.len() - i,
        {
            if self.borrows[i].reserve == *reserve {
                proof {
                    lemma_liquidity_position(self.borrows@, *reserve, i as int);
                }
                return Some(i);
            }
            i += 1;
        }
        None
    }

    pub fn has_deposits(&self) -> (r: bool)
        ensures
            r == (self.deposits@.len() > 0),
    {
        !self.deposits.is_empty()
    }

    pub fn has_borrows(&self) -> (r: bool)
        ensures
            r == (self.borrows@.len() > 0),
    {
        !self.borrows.is_empty()
    }

    /// Current amount of the borrow entry at `borrow_index` under the given
    /// borrow index: `None` when there is no such entry or the amount does
    /// not fit; 0 for an entry without snapshot.
    pub fn get_borrow_amount_with_interest(&self, borrow_index: usize, current_borrow_index: u128) -> (r:
        Option<u64>)
        ensures
            borrow_index >= self.borrows@.len() ==> r is None,
            borrow_index < self.borrows@.len() ==> {
                let b = self.borrows@[borrow_index as int];
                r == if b.borrow_index_snapshot == 0 {
                    Some(0u64)
                } else if accrual_fits(
                    b.borrowed_amount as int,
                    current_borrow_index as int,
                    b.borrow_index_snapshot as int,
                ) {
                    Some(
                        accrued_amount(
                            b.borrowed_amount as int,
                            current_borrow_index as int,
                            b.borrow_index_snapshot as int,
                        ) as u64,
                    )
                } else {
                    None::<u64>
                }
            },
    {
        if borrow_index >= self.borrows.len() {
            return None;
        }
        let borrow = &self.borrows[borrow_index];
        if borrow.borrow_index_snapshot == 0 {
            return Some(0);
        }
        amount_with_interest(borrow.borrowed_amount, current_borrow_index, borrow.borrow_index_snapshot)
    }

    /// Current amount of the collateral entry at `deposit_index` under the
    /// given supply index: `None` when there is no such entry or the amount
    /// does not fit; 0 for an entry without snapshot.
    pub fn get_deposit_amount_with_interest(&self, deposit_index: usize, current_supply_index: u128) -> (r:
        Option<u64>)
        ensures
            deposit_index >= self.deposits@.len() ==> r is None,
            deposit_index < self.deposits@.len() ==> {
                let d = self.deposits@[deposit_index as int];
                r == if d.supply_index_snapshot == 0 {
                    Some(0u64)
                } else if accrual_fits(
                    d.deposited_amount as int,
                    current_supply_index as int,
                    d.supply_index_snapshot as int,
                ) {
                    Some(
                        accrued_amount(
                            d.deposited_amount as int,
                            current_supply_index as int,
                            d.supply_index_snapshot as int,
                        ) as u64,
                    )
                } else {
                    None::<u64>
                }
            },
    {
        if deposit_index >= self.deposits.len() {
            return None;
        }
        let deposit = &self.deposits[deposit_index];
        if deposit.supply_index_snapshot == 0 {
            return Some(0);
        }
        amount_with_interest(deposit.deposited_amount, current_supply_index, deposit.supply_index_snapshot)
    }
}

impl ObligationCollateral {
    /// A fresh entry: `amount` at the current supply index, not yet valued.
    pub fn new(reserve: Address, amount: u64, supply_index: u128) -> (r: Self)
        ensures
            r == (ObligationCollateral {
                reserve,
                deposited_amount: amount,
                supply_index_snapshot: supply_index,
                market_value_usd: 0,
            }),
    {
        ObligationCollateral {
            reserve,
            deposited_amount: amount,
            supply_index_snapshot: supply_index,
            market_value_usd: 0,
        }
    }
}

impl ObligationLiquidity {
    /// A fresh entry: `amount` at the current borrow index, not yet valued.
    pub fn new(reserve: Address, amount: u64, borrow_index: u128) -> (r: Self)
        ensures
            r == (ObligationLiquidity {
                reserve,
                borrowed_amount: amount,
                borrow_index_snapshot: borrow_index,
                market_value_usd: 0,
            }),
    {
        ObligationLiquidity {
            reserve,
            borrowed_amount: amount,
            borrow_index_snapshot: borrow_index,
            market_value_usd: 0,
        }
    }
}

} // verus!
