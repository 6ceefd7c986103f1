use vstd::prelude::*;
use crate::types::MILLIS_PER_UNIT;

verus! {

/// Whole time units elapsed between `started_at` and `now` (zero when `now`
/// is earlier).
pub open spec fn elapsed_units(now: u64, started_at: u64) -> int {
    if now >= started_at { (now - started_at) / (MILLIS_PER_UNIT as int) } else { 0 }
}

/// The price at `now`: the starting price less `discount_rate` per elapsed
/// unit, floored at zero.
pub open spec fn price_at(now: u64, started_at: u64, starting_price: u128, discount_rate: u128) -> int {
    let discount = discount_rate * elapsed_units(now, started_at);
    if discount >= starting_price { 0 } else { starting_price - discount }
}

/// The current price of the asset in a Dutch auction.
pub fn current_price(now: u64, started_at: u64, starting_price: u128, discount_rate: u128) -> (r: u128)
    ensures
        r as int == price_at(now, started_at, starting_price, discount_rate),
{
    let elapsed: u64 = now.saturating_sub(started_at) / MILLIS_PER_UNIT;
    match discount_rate.checked_mul(elapsed as u128) {
        Some(discount) => {
            if discount >= starting_price { 0 } else { starting_price - discount }
        },
        None => {
            assert(discount_rate * elapsed_units(now, started_at) > u128::MAX);
            0
        },
    }
}

/// The price never exceeds the starting price and never rises as time
/// passes.
pub proof fn lemma_price_bounded_non_increasing(
    now1: u64,
    now2: u64,
    started_at: u64,
    starting_price: u128,
    discount_rate: u128,
)
    requires
        started_at <= now1 <= now2,
    ensures
        0 <= price_at(now1, started_at, starting_price, discount_rate) <= starting_price,
        0 <= price_at(now2, started_at, starting_price, discount_rate) <= starting_price,
        price_at(now2, started_at, starting_price, discount_rate)
            <= price_at(now1, started_at, starting_price, discount_rate),
{
    let e1 = elapsed_units(now1, started_at);
    let e2 = elapsed_units(now2, started_at);
    assert(e1 <= e2) by {
        vstd::arithmetic::div_mod::lemma_div_is_ordered(
            (now1 - started_at) as int, (now2 - started_at) as int, 1000);
    }
    assert(0 <= e1) by {
        vstd::arithmetic::div_mod::lemma_div_pos_is_pos((now1 - started_at) as int, 1000);
    }
    assert(discount_rate * e1 <= discount_rate * e2) by (nonlinear_arith)
        requires 0 <= e1 <= e2, discount_rate >= 0;
    assert(0 <= discount_rate * e1) by (nonlinear_arith)
        requires 0 <= e1, discount_rate >= 0;
}

} // verus!
