//! Arithmetic on a top-of-book quote: the spread filter, the spot price and
//! the per-update clamp.

use vstd::prelude::*;

verus! {

/// The mean of two integers, rounded up.
pub open spec fn ceil_average(a: int, b: int) -> int {
    (a + b + 1) / 2
}

/// Quotient of `x` by ten, rounded toward zero.
pub open spec fn tenth(x: int) -> int {
    if x >= 0 {
        x / 10
    } else {
        -((-x) / 10)
    }
}

/// The highest ask still accepted beside `best_bid`: twelve tenths of the bid,
/// where the product is held to the range of `i64` before it is divided.
pub open spec fn spread_limit(best_bid: i64) -> int {
    let scaled = best_bid * 12;
    if scaled > i64::MAX {
        tenth(i64::MAX as int)
    } else if scaled < i64::MIN {
        tenth(i64::MIN as int)
    } else {
        tenth(scaled)
    }
}

/// Whether the quote is turned away because the ask lies more than a fifth
/// above the bid.
pub open spec fn spread_too_wide(best_bid: i64, best_ask: i64) -> bool {
    best_ask > spread_limit(best_bid)
}

/// The unsigned number with the same 64 bits as the signed `x`: `x` itself
/// unless it is negative.
pub open spec fn same_bits(x: int) -> nat {
    if x >= 0 {
        x as nat
    } else {
        (x + 0x1_0000_0000_0000_0000) as nat
    }
}

/// The spot price of a quote: the mean of bid and ask, rounded up, as an
/// unsigned number.
pub open spec fn spot_price(best_bid: i64, best_ask: i64) -> nat {
    same_bits(ceil_average(best_bid as int, best_ask as int))
}

/// The value nearest to `spot` that lies no further than `max_change` from
/// `previous`.
pub open spec fn clamp_observation(previous: nat, spot: nat, max_change: nat) -> nat {
    if spot > previous + max_change {
        previous + max_change
    } else if spot + max_change < previous {
        (previous - max_change) as nat
    } else {
        spot
    }
}

/// `num::integer::Average::average_ceil` on `i64`. The crate documents the
/// result as the ceiling of the mean of the two arguments, computed without
/// overflow.
#[verifier::external_body]
fn average_ceil(a: i64, b: i64) -> (mean: i64)
    ensures
        mean == ceil_average(a as int, b as int),
{
    num::integer::Average::average_ceil(&a, &b)
}

/// Computes [`spread_limit`].
pub fn highest_accepted_ask(best_bid: i64) -> (limit: i64)
    ensures
        limit == spread_limit(best_bid),
{
    let scaled: i64 = match best_bid.checked_mul(12) {
        Some(product) => product,
        None => if best_bid > 0 {
            i64::MAX
        } else {
            i64::MIN
        },
    };
    scaled / 10
}

/// Computes [`same_bits`]: what `x as u64` gives.
pub fn to_unsigned(x: i64) -> (bits: u64)
    ensures
        bits == same_bits(x as int),
{
    if x >= 0 {
        x as u64
    } else {
        u64::MAX - ((-(x + 1)) as u64)
    }
}

/// Computes [`spot_price`].
pub fn spot_price_of(best_bid: i64, best_ask: i64) -> (spot: u64)
    ensures
        spot == spot_price(best_bid, best_ask),
{
    to_unsigned(average_ceil(best_bid, best_ask))
}

/// Computes [`clamp_observation`].
pub fn clamp(previous: u64, spot: u64, max_change: u64) -> (next: u64)
    ensures
        next == clamp_observation(previous as nat, spot as nat, max_change as nat),
{
    if spot > previous {
        let highest: u64 = previous.saturating_add(max_change);
        if spot < highest {
            spot
        } else {
            highest
        }
    } else {
        let lowest: u64 = previous.saturating_sub(max_change);
        if spot > lowest {
            spot
        } else {
            lowest
        }
    }
}

/// On a bid that is not negative, an ask above six fifths of the bid is always
/// turned away; while twelve times the bid fits `i64`, no other ask is.
pub proof fn lemma_spread_rule(best_bid: i64, best_ask: i64)
    requires
        best_bid >= 0,
    ensures
        10 * best_ask > 12 * best_bid ==> spread_too_wide(best_bid, best_ask),
        12 * best_bid <= i64::MAX ==> (spread_too_wide(best_bid, best_ask) <==> 10 * best_ask > 12
            * best_bid),
{
}

/// The spot price is a 64-bit number, and for a quote without a negative side
/// it lies between the two sides.
pub proof fn lemma_spot_price_bounds(best_bid: i64, best_ask: i64)
    ensures
        spot_price(best_bid, best_ask) <= u64::MAX,
        0 <= best_bid <= best_ask ==> best_bid <= spot_price(best_bid, best_ask) <= best_ask,
        0 <= best_ask <= best_bid ==> best_ask <= spot_price(best_bid, best_ask) <= best_bid,
{
}

/// The clamped value is within `max_change` of `previous`, never on the far
/// side of `spot`, and is `spot` itself where that is near enough.
pub proof fn lemma_clamp_bounds(previous: nat, spot: nat, max_change: nat)
    ensures
        clamp_observation(previous, spot, max_change) <= previous + max_change,
        previous <= clamp_observation(previous, spot, max_change) + max_change,
        spot <= previous ==> spot <= clamp_observation(previous, spot, max_change) <= previous,
        previous <= spot ==> previous <= clamp_observation(previous, spot, max_change) <= spot,
        (spot <= previous + max_change && previous <= spot + max_change) ==> clamp_observation(
            previous,
            spot,
            max_change,
        ) == spot,
{
}

} // verus!
