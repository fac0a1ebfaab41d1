//! The win/loss determination rule.

use vstd::prelude::*;

use crate::types::Direction;

verus! {

/// Whether a settled prediction counts as won.
///
/// Long: won iff the realized price reached the take-profit target, or rose
/// above the entry while staying above the stop-loss. Short: the mirror
/// image, with every comparison reversed.
pub open spec fn spec_is_win(
    direction: Direction,
    entry_price: u64,
    take_profit: u64,
    stop_loss: u64,
    result_price: u64,
) -> bool {
    match direction {
        Direction::Long => result_price >= take_profit || (result_price > entry_price
            && result_price > stop_loss),
        Direction::Short => result_price <= take_profit || (result_price < entry_price
            && result_price < stop_loss),
    }
}

/// Decides the outcome of a settlement: returns exactly `spec_is_win`.
pub fn is_win(
    direction: Direction,
    entry_price: u64,
    take_profit: u64,
    stop_loss: u64,
    result_price: u64,
) -> (r: bool)
    ensures
        r == spec_is_win(direction, entry_price, take_profit, stop_loss, result_price),
{
    match direction {
        Direction::Long => result_price >= take_profit || (result_price > entry_price
            && result_price > stop_loss),
        Direction::Short => result_price <= take_profit || (result_price < entry_price
            && result_price < stop_loss),
    }
}

} // verus!
