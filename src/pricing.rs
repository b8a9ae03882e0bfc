use vstd::prelude::*;
use vstd::arithmetic::div_mod::{
    lemma_basic_div, lemma_div_is_ordered, lemma_div_multiples_vanish_fancy, lemma_div_plus_one,
};
use vstd::arithmetic::mul::lemma_mul_inequality;

use crate::state::Auction;

verus! {

/// Where an auction stands at a given moment.
#[derive(Clone, Copy, Debug, PartialEq, Eq, Structural)]
pub enum PriceState {
    /// Bidding has not opened yet.
    NotStarted,
    /// Bidding is open at this price per token.
    Active(u64),
    /// The price has decayed to zero or below: no more bids.
    Finished,
}

/// The number of whole steps that have passed between the start and `now`.
pub open spec fn steps_at(a: Auction, now: int) -> int {
    (now - a.time_start) / (a.time_step as int)
}

/// The price rule: the start price less one price step per whole time step
/// since the start, finished once that reaches zero or would go below it.
pub open spec fn spec_current_price(a: Auction, now: int) -> PriceState {
    if now < a.time_start {
        PriceState::NotStarted
    } else if a.price_step * steps_at(a, now) < a.price_start {
        PriceState::Active((a.price_start - a.price_step * steps_at(a, now)) as u64)
    } else {
        PriceState::Finished
    }
}

/// Where `auction` stands at time `now`.
pub fn current_price(auction: &Auction, now: i64) -> (r: PriceState)
    requires
        auction.time_step > 0,
    ensures
        r == spec_current_price(*auction, now as int),
{
    if now < auction.time_start {
        return PriceState::NotStarted;
    }
    let elapsed = ((now as i128) - (auction.time_start as i128)) as u64;
    let steps = elapsed / (auction.time_step as u64);
    match auction.price_step.checked_mul(steps) {
        None => PriceState::Finished,
        Some(cut) => {
            if cut < auction.price_start {
                PriceState::Active(auction.price_start - cut)
            } else {
                PriceState::Finished
            }
        },
    }
}

/// Later never means dearer: once finished an auction stays finished, it never
/// goes back to not started, and an active price only falls.
pub proof fn lemma_price_non_increasing(a: Auction, t1: int, t2: int)
    requires
        a.time_step > 0,
        t1 <= t2,
    ensures
        spec_current_price(a, t1) is Finished ==> spec_current_price(a, t2) is Finished,
        spec_current_price(a, t2) is NotStarted ==> spec_current_price(a, t1) is NotStarted,
        spec_current_price(a, t1) is Active && spec_current_price(a, t2) is Active
            ==> spec_current_price(a, t2)->Active_0 <= spec_current_price(a, t1)->Active_0,
{
    if t1 >= a.time_start {
        lemma_div_is_ordered(t1 - a.time_start, t2 - a.time_start, a.time_step as int);
        lemma_mul_inequality(steps_at(a, t1), steps_at(a, t2), a.price_step as int);
        assert(a.price_step * steps_at(a, t1) <= a.price_step * steps_at(a, t2)) by (
        nonlinear_arith)
            requires
                steps_at(a, t1) * a.price_step <= steps_at(a, t2) * a.price_step,
        ;
    }
}

/// Throughout the first step the price is the start price.
pub proof fn lemma_price_first_step(a: Auction, now: int)
    requires
        a.time_step > 0,
        a.time_start <= now < a.time_start + a.time_step,
        a.price_start > 0,
    ensures
        spec_current_price(a, now) == PriceState::Active(a.price_start),
{
    lemma_basic_div(now - a.time_start, a.time_step as int);
    assert(steps_at(a, now) == 0);
    assert(a.price_step * steps_at(a, now) == 0);
}

/// During step `k` (from `k` whole steps after the start) the price is the
/// start price less `k` price steps, or the auction is finished if that is
/// not positive.
pub proof fn lemma_price_at_step(a: Auction, k: nat, r: int)
    requires
        a.time_step > 0,
        0 <= r < a.time_step,
    ensures
        spec_current_price(a, a.time_start + k * a.time_step + r) == (if a.price_step * k
            < a.price_start {
            PriceState::Active((a.price_start - a.price_step * k) as u64)
        } else {
            PriceState::Finished
        }),
{
    let now = a.time_start + k * a.time_step + r;
    assert(k * a.time_step >= 0) by (nonlinear_arith)
        requires
            a.time_step > 0,
    ;
    lemma_div_multiples_vanish_fancy(k as int, r, a.time_step as int);
    assert(now - a.time_start == a.time_step * k + r) by (nonlinear_arith)
        requires
            now == a.time_start + k * a.time_step + r,
    ;
    assert(steps_at(a, now) == k);
}

/// Each time-step boundary cuts an active price by exactly one price step,
/// or finishes the auction when the price is not above the price step.
pub proof fn lemma_price_step_boundary(a: Auction, now: int)
    requires
        a.time_step > 0,
        spec_current_price(a, now) is Active,
    ensures
        a.price_step < spec_current_price(a, now)->Active_0 ==> spec_current_price(
            a,
            now + a.time_step,
        ) == PriceState::Active(
            (spec_current_price(a, now)->Active_0 - a.price_step) as u64,
        ),
        a.price_step >= spec_current_price(a, now)->Active_0 ==> spec_current_price(
            a,
            now + a.time_step,
        ) is Finished,
{
    lemma_div_plus_one(now - a.time_start, a.time_step as int);
    assert(steps_at(a, now + a.time_step) == steps_at(a, now) + 1);
    assert(a.price_step * (steps_at(a, now) + 1) == a.price_step * steps_at(a, now)
        + a.price_step) by (nonlinear_arith);
}

/// Once started, the auction is finished exactly when the accumulated price
/// cut reaches the start price, that is when the subtraction would underflow
/// or give zero.
pub proof fn lemma_price_finished_iff(a: Auction, now: int)
    requires
        a.time_step > 0,
        now >= a.time_start,
    ensures
        spec_current_price(a, now) is Finished <==> a.price_step * steps_at(a, now)
            >= a.price_start,
{
}

} // verus!
