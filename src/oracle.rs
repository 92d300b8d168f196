use vstd::prelude::*;
use crate::constants::MAX_ORACLE_STALENESS_SLOTS;
use crate::math::lemma_div_le;

verus! {

/// An asset's price in scaled USD per whole token, and the slot it was published in.
#[derive(Clone, Copy, Debug, PartialEq, Eq, Structural)]
pub struct OraclePrice {
    pub price_usd: u64,
    pub last_updated_slot: u64,
}

/// Why a price cannot be used.
#[derive(Clone, Copy, Debug, PartialEq, Eq, Structural)]
pub enum PriceError {
    /// Published more than the allowed number of slots ago.
    Stale,
    /// A zero price.
    Invalid,
}

/// Ten to the power `d`.
pub open spec fn pow10(d: nat) -> int
    decreases d,
{
    if d == 0 {
        1
    } else {
        10 * pow10((d - 1) as nat)
    }
}

/// Powers of ten are positive and grow with the exponent.
pub proof fn lemma_pow10_pos(d: nat)
    ensures
        pow10(d) >= 1,
    decreases d,
{
    if d > 0 {
        lemma_pow10_pos((d - 1) as nat);
    }
}

/// Value in scaled USD of `amount` native units of a token with `decimals`
/// decimals, at a price per whole token.
pub open spec fn usd_value_spec(amount: int, price_usd: int, decimals: nat) -> int {
    amount * price_usd / pow10(decimals)
}

/// Whether `usd_value_spec` can be computed in 128 bits.
pub open spec fn usd_value_fits(amount: int, price_usd: int, decimals: nat) -> bool {
    amount * price_usd <= u128::MAX && decimals <= 38
}

impl OraclePrice {
    /// Why this price cannot be used at `slot`, if it cannot.
    pub open spec fn failure(self, slot: u64) -> Option<PriceError> {
        if slot > self.last_updated_slot + MAX_ORACLE_STALENESS_SLOTS {
            Some(PriceError::Stale)
        } else if self.price_usd == 0 {
            Some(PriceError::Invalid)
        } else {
            None
        }
    }

    /// Checks that the price is recent enough at `current_slot` and not zero.
    pub fn check(&self, current_slot: u64) -> (r: Result<(), PriceError>)
        ensures
            r matches Err(e) ==> self.failure(current_slot) == Some(e),
            r is Ok ==> self.failure(current_slot) is None,
    {
        if current_slot > self.last_updated_slot && current_slot - self.last_updated_slot
            > MAX_ORACLE_STALENESS_SLOTS {
            return Err(PriceError::Stale);
        }
        if self.price_usd == 0 {
            return Err(PriceError::Invalid);
        }
        Ok(())
    }
}

/// Ten to the power `d`, or `None` past 10^38.
pub fn checked_pow10(d: u8) -> (r: Option<u128>)
    ensures
        d <= 38 ==> r is Some,
        r matches Some(p) ==> p as int == pow10(d as nat),
        d > 38 ==> r is None,
{
    if d > 38 {
        return None;
    }
    let mut p: u128 = 1;
    let mut i: u8 = 0;
    while i < d
        invariant
            i <= d <= 38,
            p == pow10(i as nat),
        decreases d - i,
    {
        proof {
            assert(pow10((i + 1) as nat) == 10 * pow10(i as nat));
            lemma_pow10_bound(i as nat);
        }
        p = p * 10;
        i = i + 1;
    }
    Some(p)
}

/// Powers of ten up to 10^38 fit in 128 bits.
pub proof fn lemma_pow10_bound(d: nat)
    requires
        d < 38,
    ensures
        10 * pow10(d) <= u128::MAX,
    decreases d,
{
    lemma_pow10_monotone(d, 37);
    reveal_with_fuel(pow10, 38);
    assert(pow10(37) == 10_000_000_000_000_000_000_000_000_000_000_000_000);
}

/// Powers of ten grow with the exponent.
pub proof fn lemma_pow10_monotone(a: nat, b: nat)
    requires
        a <= b,
    ensures
        pow10(a) <= pow10(b),
    decreases b - a,
{
    if a < b {
        lemma_pow10_monotone(a, (b - 1) as nat);
        lemma_pow10_pos((b - 1) as nat);
    }
}

/// Value in scaled USD of a token amount; `None` when it does not fit in 128 bits.
pub fn usd_value(amount: u128, price_usd: u64, decimals: u8) -> (r: Option<u128>)
    ensures
        usd_value_fits(amount as int, price_usd as int, decimals as nat) ==> r == Some(
            usd_value_spec(amount as int, price_usd as int, decimals as nat) as u128,
        ),
        !usd_value_fits(amount as int, price_usd as int, decimals as nat) ==> r is None,
        r matches Some(v) ==> v as int == usd_value_spec(amount as int, price_usd as int, decimals as nat),
{
    let scale = match checked_pow10(decimals) {
        None => { return None; },
        Some(p) => p,
    };
    proof {
        lemma_pow10_pos(decimals as nat);
    }
    match amount.checked_mul(price_usd as u128) {
        None => None,
        Some(v) => {
            proof {
                lemma_div_le(v as int, scale as int);
            }
            Some(v / scale)
        },
    }
}

} // verus!
