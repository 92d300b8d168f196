use vstd::prelude::*;
use crate::address::Address;
use crate::reserve::{Reserve, ReserveLiquidity};

verus! {

/// Errors of a fee collection.
#[derive(Clone, Copy, Debug, PartialEq, Eq, Structural)]
pub enum CollectFeesError {
    /// The reserve belongs to another market.
    InvalidReserve,
    InvalidVault,
    InvalidTokenMint,
    InvalidTreasuryOwner,
    NoFeesToCollect,
    MathOverflow,
}

/// Takes `amount` of the reserve's accumulated protocol fees (all of them for
/// 0 or for more than there are) and returns the amount taken.
pub fn handler(
    market_key: &Address,
    reserve: &mut Reserve,
    amount: u64,
    current_slot: u64,
    current_timestamp: i64,
) -> (r: Result<u64, CollectFeesError>)
    ensures
        ({
            let fees = old(reserve).liquidity.accumulated_protocol_fees;
            let take = if amount == 0 || amount > fees {
                fees
            } else {
                amount
            };
            if old(reserve).lending_market != *market_key {
                r == Err::<u64, _>(CollectFeesError::InvalidReserve) && *final(reserve) == *old(
                    reserve,
                )
            } else if fees == 0 {
                r == Err::<u64, _>(CollectFeesError::NoFeesToCollect) && *final(reserve) == *old(
                    reserve,
                )
            } else {
                r == Ok::<u64, CollectFeesError>(take) && *final(reserve) == (Reserve {
                    liquidity: ReserveLiquidity {
                        accumulated_protocol_fees: (fees - take) as u64,
                        ..old(reserve).liquidity
                    },
                    last_update_slot: current_slot,
                    last_update_timestamp: current_timestamp,
                    ..*old(reserve)
                })
            }
        }),
{
    if reserve.lending_market != *market_key {
        return Err(CollectFeesError::InvalidReserve);
    }
    let available_fees = reserve.liquidity.accumulated_protocol_fees;
    if available_fees == 0 {
        return Err(CollectFeesError::NoFeesToCollect);
    }
    let collect_amount = if amount == 0 || amount > available_fees {
        available_fees
    } else {
        amount
    };
    reserve.liquidity.accumulated_protocol_fees = available_fees - collect_amount;
    reserve.last_update_slot = current_slot;
    reserve.last_update_timestamp = current_timestamp;
    Ok(collect_amount)
}

} // verus!
