use vstd::prelude::*;
use crate::address::Address;
use crate::obligation::Obligation;

verus! {

/// Opens an empty obligation for `owner` in a market.
pub fn handler(market_key: &Address, owner: &Address, bump: u8, current_slot: u64) -> (r: Obligation)
    ensures
        r.version == 1,
        r.bump == bump,
        r.lending_market == *market_key,
        r.owner == *owner,
        r.last_update_slot == current_slot,
        r.deposits@.len() == 0,
        r.borrows@.len() == 0,
        r.deposited_value_usd == 0,
        r.borrowed_value_usd == 0,
        r.allowed_borrow_value_usd == 0,
        r.unhealthy_borrow_value_usd == 0,
        r.wf(),
{
    Obligation {
        version: 1,
        bump,
        lending_market: *market_key,
        owner: *owner,
        last_update_slot: current_slot,
        deposits: Vec::new(),
        borrows: Vec::new(),
        deposited_value_usd: 0,
        borrowed_value_usd: 0,
        allowed_borrow_value_usd: 0,
        unhealthy_borrow_value_usd: 0,
    }
}

} // verus!
