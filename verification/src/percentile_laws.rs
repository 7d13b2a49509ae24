//! What medians and percentiles are of the numbers that were taken in.

use vstd::prelude::*;
use crate::percentile;
use crate::percentile::{HUNDRED, MedianOutcome, ONE, PercentileModel};
use crate::value::Real;

verus! {

/// The median stands in the middle: seen from either end it is the same, and with
/// an even number of numbers the two in the middle change places. Of an odd number
/// of them as many come before it as behind it.
pub proof fn the_median_is_in_the_middle(s: Seq<Real>, k: nat)
    ensures
        percentile::middle(s.reverse()) == match percentile::middle(s) {
            MedianOutcome::Mean(a, b) => MedianOutcome::Mean(b, a),
            other => other,
        },
        s.len() == 2 * k + 1 ==> percentile::middle(s) == MedianOutcome::Value(s[k as int]),
        s.len() == 2 * k + 2 ==> percentile::middle(s) == MedianOutcome::Mean(
            s[k as int],
            s[k as int + 1],
        ),
        s.len() == 0 <==> percentile::middle(s) is Null,
{
    let n = s.len() as int;
    if n > 0 {
        assert(s.reverse()[n / 2] == s[n - 1 - n / 2]);
        if n % 2 == 0 {
            assert(s.reverse()[n / 2 - 1] == s[n - n / 2]);
        }
    }
}

/// A number by its bits, as far as it is normal and not negative: a fraction of 53
/// bits and how often it is doubled.
pub open spec fn fraction(bits: u64) -> int {
    0x10_0000_0000_0000 + bits % 0x10_0000_0000_0000
}

pub open spec fn doublings(bits: u64) -> int {
    bits / 0x10_0000_0000_0000 - 1023
}

/// Percentages go up to a hundred, and fractions up to one.
pub proof fn bounds_are_a_hundred_and_one()
    ensures
        doublings(ONE) == 0 && fraction(ONE) == 0x10_0000_0000_0000,
        doublings(HUNDRED) == 6 && fraction(HUNDRED) * 64 == 100 * 0x10_0000_0000_0000,
{
    assert(ONE / 0x10_0000_0000_0000 == 1023 && ONE % 0x10_0000_0000_0000 == 0);
    assert(HUNDRED / 0x10_0000_0000_0000 == 1029);
    assert(HUNDRED % 0x10_0000_0000_0000 == 0x9_0000_0000_0000);
}

/// Numbers are ordered as they are: negative ones come first, and among them the
/// larger by magnitude; among the others the smaller.
pub proof fn ranks_are_the_order_of_numbers(a: Real, b: Real)
    ensures
        a.negative() && !b.negative() ==> percentile::rank(a) < percentile::rank(b),
        !a.negative() && !b.negative() ==> (percentile::rank(a) <= percentile::rank(b)
            <==> a.magnitude() <= b.magnitude()),
        a.negative() && b.negative() ==> (percentile::rank(a) <= percentile::rank(b)
            <==> a.magnitude() >= b.magnitude()),
{
}

/// A place within bounds is nought or lies between nought and the bound; of two
/// places with the larger within bounds the smaller is too.
pub proof fn places_lie_between_nought_and_the_bound(p: Real, q: Real, max: u64)
    requires
        max < 0x7ff0_0000_0000_0000,
        !p.negative(),
        !q.negative(),
        p.magnitude() <= q.magnitude(),
    ensures
        percentile::within(q, max) ==> percentile::within(p, max),
        percentile::within(q, max) ==> q.magnitude() <= max,
        percentile::within(Real { bits: max }, max),
        percentile::within(Real { bits: 0 }, max),
        q.nan() || q.infinite() ==> !percentile::within(q, max),
{
}

/// Negative places are out of bounds, but for the nought with a sign.
pub proof fn negative_places_are_out_of_bounds(p: Real, max: u64)
    requires
        p.negative(),
    ensures
        percentile::within(p, max) <==> p.magnitude() == 0,
{
}

/// A row is taken in or leaves the numbers as they are. What was taken in stays, and
/// the first place counts. Rows with a NULL change nothing at all.
pub proof fn rows_are_taken_in_whole(
    state: PercentileModel,
    y: Option<Real>,
    p: Option<Real>,
    apart: bool,
    max: u64,
    refusal: Seq<char>,
)
    ensures
        ({
            let after = percentile::taken_in(state, (y, p), apart, max, refusal);
            &&& y is None || p is None ==> after == state
            &&& after.values == state.values || (y is Some && after.values == state.values.push(
                y->Some_0,
            ))
            &&& after.values != state.values ==> after.p == (if state.p is Some {
                state.p
            } else {
                p
            }) && after.error == state.error && percentile::within(p->Some_0, max)
            &&& y is Some && p is Some && percentile::within(p->Some_0, max) && !apart
                ==> after.values == state.values.push(y->Some_0)
            &&& y is Some && p is Some && state.error is None && after.values == state.values
                ==> after.error is Some
            &&& y is Some && p is Some && !percentile::within(p->Some_0, max) && state.error is None
                ==> after.error == Some(refusal)
        }),
{
    if y is Some {
        assert(state.values.push(y->Some_0).len() == state.values.len() + 1);
    }
}

} // verus!
