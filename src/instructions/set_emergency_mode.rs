use vstd::prelude::*;
use crate::market::LendingMarket;

verus! {

/// Turns emergency mode on or off. While it is on, deposits and borrows are
/// refused; withdrawals, repayments, liquidations and refreshes go on.
/// Returns the previous setting.
pub fn handler(market: &mut LendingMarket, emergency: bool) -> (previous: bool)
    ensures
        previous == old(market).emergency_mode,
        *final(market) == (LendingMarket { emergency_mode: emergency, ..*old(market) }),
{
    let previous_state = market.emergency_mode;
    market.emergency_mode = emergency;
    previous_state
}

} // verus!
