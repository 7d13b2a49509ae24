//! Aggregates over sorted numbers: the median and percentiles.
//!
//! Numbers are held by their bits. They are sorted by the total order of
//! floating-point numbers, in which the negative come first, and what is no
//! number stands at the ends. What needs the arithmetic of floating-point
//! numbers is left to the caller, which is handed the numbers to compute with.

use vstd::prelude::*;
use crate::value::Real;

verus! {

/// The place of a number in the total order: without their signs, negative
/// numbers are ordered the other way round.
pub open spec fn rank(r: Real) -> int {
    if r.negative() {
        -1 - r.magnitude()
    } else {
        r.magnitude() as int
    }
}

fn rank_of(r: &Real) -> (n: i128)
    ensures
        n == rank(*r),
{
    if r.bits >= 0x8000_0000_0000_0000 {
        -1 - (r.bits - 0x8000_0000_0000_0000) as i128
    } else {
        r.bits as i128
    }
}

/// Numbers with the same place in the order are the same.
pub proof fn ranks_tell_apart(a: Real, b: Real)
    requires
        rank(a) == rank(b),
    ensures
        a == b,
{
}

/// Whether numbers are in order.
pub open spec fn in_order(s: Seq<Real>) -> bool {
    forall|i: int, j: int| 0 <= i <= j < s.len() ==> rank(#[trigger] s[i]) <= rank(#[trigger] s[j])
}

/// Merges numbers that are in order.
fn merge(a: &Vec<Real>, b: &Vec<Real>) -> (r: Vec<Real>)
    requires
        in_order(a@),
        in_order(b@),
    ensures
        in_order(r@),
        r@.to_multiset() == a@.to_multiset().add(b@.to_multiset()),
        r@.len() == a@.len() + b@.len(),
{
    let mut r: Vec<Real> = Vec::new();
    let mut i: usize = 0;
    let mut j: usize = 0;
    assert(a@.take(0) =~= Seq::<Real>::empty());
    assert(b@.take(0) =~= Seq::<Real>::empty());
    assert(r@.to_multiset() =~= a@.take(0).to_multiset().add(b@.take(0).to_multiset())) by {
        r@.to_multiset_ensures();
    }
    while i < a.len() || j < b.len()
        invariant
            i <= a@.len(),
            j <= b@.len(),
            in_order(a@),
            in_order(b@),
            in_order(r@),
            r@.len() == i + j,
            r@.to_multiset() == a@.take(i as int).to_multiset().add(
                b@.take(j as int).to_multiset(),
            ),
            forall|k: int, l: int|
                0 <= k < r@.len() && i <= l < a@.len() ==> rank(#[trigger] r@[k]) <= rank(
                    #[trigger] a@[l],
                ),
            forall|k: int, l: int|
                0 <= k < r@.len() && j <= l < b@.len() ==> rank(#[trigger] r@[k]) <= rank(
                    #[trigger] b@[l],
                ),
        decreases a@.len() - i + b@.len() - j,
    {
        let from_a: bool = if i == a.len() {
            false
        } else if j == b.len() {
            true
        } else {
            rank_of(&a[i]) <= rank_of(&b[j])
        };
        let ghost before = r@;
        let v = if from_a {
            a[i]
        } else {
            b[j]
        };
        r.push(v);
        proof {
            before.to_multiset_ensures();
            let done_a = a@.take(i as int);
            let done_b = b@.take(j as int);
            if from_a {
                done_a.to_multiset_ensures();
                assert(a@.take(i + 1) =~= done_a.push(v));
                assert(r@.to_multiset() =~= done_a.push(v).to_multiset().add(
                    done_b.to_multiset(),
                ));
            } else {
                done_b.to_multiset_ensures();
                assert(b@.take(j + 1) =~= done_b.push(v));
                assert(r@.to_multiset() =~= done_a.to_multiset().add(
                    done_b.push(v).to_multiset(),
                ));
            }
        }
        if from_a {
            i = i + 1;
        } else {
            j = j + 1;
        }
    }
    assert(a@.take(i as int) =~= a@);
    assert(b@.take(j as int) =~= b@);
    r
}

/// Sorts the numbers from `lo` on and before `hi`.
fn sorted_between(values: &Vec<Real>, lo: usize, hi: usize) -> (r: Vec<Real>)
    requires
        lo <= hi <= values@.len(),
    ensures
        in_order(r@),
        r@.to_multiset() == values@.subrange(lo as int, hi as int).to_multiset(),
        r@.len() == hi - lo,
    decreases hi - lo,
{
    if hi - lo <= 1 {
        let mut r: Vec<Real> = Vec::new();
        if lo < hi {
            r.push(values[lo]);
        }
        assert(r@ =~= values@.subrange(lo as int, hi as int));
        return r;
    }
    let mid: usize = lo + (hi - lo) / 2;
    let a = sorted_between(values, lo, mid);
    let b = sorted_between(values, mid, hi);
    proof {
        let first = values@.subrange(lo as int, mid as int);
        let second = values@.subrange(mid as int, hi as int);
        vstd::seq_lib::lemma_multiset_commutative(first, second);
        assert(first + second =~= values@.subrange(lo as int, hi as int));
    }
    merge(&a, &b)
}

/// Sorts numbers.
pub fn sorted(values: Vec<Real>) -> (r: Vec<Real>)
    ensures
        in_order(r@),
        r@.to_multiset() == values@.to_multiset(),
        r@.len() == values@.len(),
{
    assert(values@.subrange(0, values@.len() as int) =~= values@);
    sorted_between(&values, 0, values.len())
}

/// What is to be computed for the median.
#[derive(Clone, Copy, Debug, PartialEq, Eq, Structural)]
pub enum MedianOutcome {
    /// There are no numbers.
    Null,
    /// One of the numbers.
    Value(Real),
    /// Halfway between two of the numbers.
    Mean(Real, Real),
}

/// The median of numbers that are in order: the one in the middle, or halfway
/// between the two there.
pub open spec fn middle(s: Seq<Real>) -> MedianOutcome {
    let n = s.len() as int;
    if n == 0 {
        MedianOutcome::Null
    } else if n % 2 == 1 {
        MedianOutcome::Value(s[n / 2])
    } else {
        MedianOutcome::Mean(s[n / 2 - 1], s[n / 2])
    }
}

/// The median.
pub struct Median;

impl Median {
    /// Takes in one row: a number, or what is none and does not count.
    pub fn step(state: &mut Vec<Real>, value: Option<Real>)
        ensures
            final(state)@ == match value {
                Some(v) => old(state)@.push(v),
                None => old(state)@,
            },
    {
        if let Some(v) = value {
            state.push(v);
        }
    }

    /// The median of the numbers.
    pub fn finalize(state: Vec<Real>) -> (r: MedianOutcome)
        ensures
            exists|s: Seq<Real>| #[trigger]
                in_order(s) && s.to_multiset() == state@.to_multiset() && s.len() == state@.len()
                    && r == middle(s),
    {
        let s = sorted(state);
        let n: usize = s.len();
        assert(in_order(s@));
        if n == 0 {
            MedianOutcome::Null
        } else if n % 2 == 1 {
            MedianOutcome::Value(s[n / 2])
        } else {
            MedianOutcome::Mean(s[n / 2 - 1], s[n / 2])
        }
    }
}

/// Sequences in order that hold the same numbers are the same, so the order
/// leaves no choice.
pub proof fn order_leaves_no_choice(a: Seq<Real>, b: Seq<Real>)
    requires
        in_order(a),
        in_order(b),
        a.to_multiset() == b.to_multiset(),
    ensures
        a == b,
    decreases a.len(),
{
    a.to_multiset_ensures();
    b.to_multiset_ensures();
    assert(a.len() == b.len());
    if a.len() > 0 {
        let x = a.last();
        let y = b.last();
        assert(a.contains(x));
        assert(b.to_multiset().contains(x));
        assert(b.contains(x));
        assert(b.contains(y));
        assert(a.to_multiset().contains(y));
        assert(a.contains(y));
        let i = choose|i: int| 0 <= i < b.len() && b[i] == x;
        let j = choose|j: int| 0 <= j < a.len() && a[j] == y;
        assert(rank(b[i]) <= rank(b[b.len() - 1]));
        assert(rank(a[j]) <= rank(a[a.len() - 1]));
        ranks_tell_apart(x, y);
        let s = a.drop_last();
        let t = b.drop_last();
        assert(a =~= s.push(x));
        assert(b =~= t.push(x));
        s.to_multiset_ensures();
        t.to_multiset_ensures();
        assert(s.push(x).to_multiset() =~= s.to_multiset().insert(x));
        assert(t.push(x).to_multiset() =~= t.to_multiset().insert(x));
        assert(s.to_multiset() =~= a.to_multiset().remove(x));
        assert(t.to_multiset() =~= b.to_multiset().remove(x));
        order_leaves_no_choice(s, t);
    } else {
        assert(a =~= b);
    }
}

/// The bits of the largest percentage.
pub const HUNDRED: u64 = 0x4059_0000_0000_0000;

/// The bits of the largest fraction.
pub const ONE: u64 = 0x3ff0_0000_0000_0000;

/// Whether a number lies from zero to the positive number with the bits `max`,
/// both included. Zero may have either sign.
pub open spec fn within(p: Real, max: u64) -> bool {
    p.magnitude() == 0 || (!p.negative() && p.bits <= max)
}

fn is_within(p: &Real, max: u64) -> (r: bool)
    ensures
        r == within(*p, max),
{
    p.bits == 0 || p.bits == 0x8000_0000_0000_0000 || (p.bits < 0x8000_0000_0000_0000 && p.bits
        <= max)
}

/// The rows that a percentile has taken in: the numbers, which percentile of
/// them is asked for, and what was wrong first.
#[derive(Debug)]
pub struct PercentileState {
    pub values: Vec<Real>,
    pub p: Option<Real>,
    pub error: Option<&'static str>,
}

/// The rows that a percentile has taken in, by what they hold.
#[verifier::ext_equal]
pub struct PercentileModel {
    pub values: Seq<Real>,
    pub p: Option<Real>,
    pub error: Option<Seq<char>>,
}

impl View for PercentileState {
    type V = PercentileModel;

    open spec fn view(&self) -> PercentileModel {
        PercentileModel {
            values: self.values@,
            p: self.p,
            error: match self.error {
                Some(e) => Some(e@),
                None => None,
            },
        }
    }
}

/// What was wrong first.
pub open spec fn with_error(state: PercentileModel, error: Seq<char>) -> PercentileModel {
    match state.error {
        Some(_) => state,
        None => PercentileModel { error: Some(error), ..state },
    }
}

/// What is wrong with a row that asks for another percentile than those before.
pub open spec fn inconsistent() -> Seq<char> {
    "Inconsistent percentile values across rows"@
}

/// One more row: a number and a percentile. A row without one of them does not
/// count. `apart` says that the percentile is apart from the one that was asked
/// for first; percentiles up to the one with the bits `max` are accepted.
pub open spec fn taken_in(
    state: PercentileModel,
    row: (Option<Real>, Option<Real>),
    apart: bool,
    max: u64,
    refusal: Seq<char>,
) -> PercentileModel {
    match row {
        (Some(y), Some(p)) => if !within(p, max) {
            with_error(state, refusal)
        } else if state.p is Some && apart {
            with_error(state, inconsistent())
        } else {
            PercentileModel {
                values: state.values.push(y),
                p: Some(
                    match state.p {
                        Some(first) => first,
                        None => p,
                    },
                ),
                ..state
            }
        },
        _ => state,
    }
}

impl PercentileState {
    /// No rows yet.
    pub fn new() -> (r: PercentileState)
        ensures
            r@ == (PercentileModel { values: Seq::empty(), p: None, error: None }),
    {
        PercentileState { values: Vec::new(), p: None, error: None }
    }

    fn fail(&mut self, error: &'static str)
        ensures
            final(self)@ == with_error(old(self)@, error@),
    {
        if self.error.is_none() {
            self.error = Some(error);
        }
    }

    fn take_in(
        &mut self,
        y: Option<Real>,
        p: Option<Real>,
        apart: bool,
        max: u64,
        refusal: &'static str,
    )
        ensures
            final(self)@ == taken_in(old(self)@, (y, p), apart, max, refusal@),
    {
        match (y, p) {
            (Some(y), Some(p)) => {
                if !is_within(&p, max) {
                    self.fail(refusal);
                    return;
                }
                if self.p.is_some() {
                    if apart {
                        self.fail("Inconsistent percentile values across rows");
                        return;
                    }
                } else {
                    self.p = Some(p);
                }
                self.values.push(y);
            },
            _ => {},
        }
    }
}

/// What is to be computed for a percentile.
#[derive(Debug)]
pub enum PercentileOutcome {
    /// There are no numbers.
    Null,
    /// Something was wrong with a row.
    Error(&'static str),
    /// One of the numbers.
    Value(Real),
    /// What stands at the place for `p` among the numbers in order.
    Select { sorted: Vec<Real>, p: Real },
}

/// Whether an outcome is what the rows come to. A single number is every
/// percentile, where `single` says so.
pub open spec fn is_outcome(state: PercentileModel, single: bool, r: PercentileOutcome) -> bool {
    if state.values.len() == 0 {
        r is Null
    } else if state.error is Some {
        r matches PercentileOutcome::Error(e) && Some(e@) == state.error
    } else if single && state.values.len() == 1 {
        r matches PercentileOutcome::Value(v) && v == state.values[0]
    } else {
        match state.p {
            None => r matches PercentileOutcome::Error(e) && e@
                == "percentile value must be provided"@,
            Some(asked) => r matches PercentileOutcome::Select { sorted, p } && p == asked
                && in_order(sorted@) && sorted@.to_multiset() == state.values.to_multiset()
                && sorted@.len() == state.values.len(),
        }
    }
}

fn outcome(state: PercentileState, single: bool) -> (r: PercentileOutcome)
    ensures
        is_outcome(state@, single, r),
{
    if state.values.len() == 0 {
        return PercentileOutcome::Null;
    }
    if let Some(e) = state.error {
        return PercentileOutcome::Error(e);
    }
    if single && state.values.len() == 1 {
        return PercentileOutcome::Value(state.values[0]);
    }
    match state.p {
        None => PercentileOutcome::Error("percentile value must be provided"),
        Some(p) => PercentileOutcome::Select { sorted: sorted(state.values), p },
    }
}

/// The percentile of a percentage, between two numbers where it lies there.
pub struct Percentile;

impl Percentile {
    /// Takes in one row.
    pub fn step(state: &mut PercentileState, y: Option<Real>, p: Option<Real>, apart: bool)
        ensures
            final(state)@ == taken_in(
                old(state)@,
                (y, p),
                apart,
                HUNDRED,
                "Invalid percentile value"@,
            ),
    {
        state.take_in(y, p, apart, HUNDRED, "Invalid percentile value");
    }

    /// What is to be computed of the rows.
    pub fn finalize(state: PercentileState) -> (r: PercentileOutcome)
        ensures
            is_outcome(state@, true, r),
    {
        outcome(state, true)
    }
}

/// The percentile of a fraction, between two numbers where it lies there.
pub struct PercentileCont;

impl PercentileCont {
    /// Takes in one row.
    pub fn step(state: &mut PercentileState, y: Option<Real>, p: Option<Real>, apart: bool)
        ensures
            final(state)@ == taken_in(
                old(state)@,
                (y, p),
                apart,
                ONE,
                "Percentile value must be between 0.0 and 1.0 inclusive"@,
            ),
    {
        state.take_in(
            y,
            p,
            apart,
            ONE,
            "Percentile value must be between 0.0 and 1.0 inclusive",
        );
    }

    /// What is to be computed of the rows.
    pub fn finalize(state: PercentileState) -> (r: PercentileOutcome)
        ensures
            is_outcome(state@, true, r),
    {
        outcome(state, true)
    }
}

/// The percentile of a fraction: always one of the numbers.
pub struct PercentileDisc;

impl PercentileDisc {
    /// Takes in one row. Fractions are accepted, and not percentages.
    pub fn step(state: &mut PercentileState, y: Option<Real>, p: Option<Real>, apart: bool)
        ensures
            final(state)@ == taken_in(
                old(state)@,
                (y, p),
                apart,
                ONE,
                "Percentile value must be between 0.0 and 1.0 inclusive"@,
            ),
    {
        PercentileCont::step(state, y, p, apart);
    }

    /// What is to be computed of the rows.
    pub fn finalize(state: PercentileState) -> (r: PercentileOutcome)
        ensures
            is_outcome(state@, false, r),
    {
        outcome(state, false)
    }

    /// The number at a place among the numbers in order.
    pub fn select(sorted: &Vec<Real>, index: usize) -> (r: Real)
        requires
            index < sorted@.len(),
        ensures
            r == sorted@[index as int],
    {
        sorted[index]
    }
}

/// What is to be computed between two places.
#[derive(Clone, Copy, Debug, PartialEq, Eq, Structural)]
pub enum Interpolation {
    /// One of the numbers.
    Value(Real),
    /// Between two of the numbers.
    Between(Real, Real),
}

/// The numbers at the places below and above an index among the numbers in
/// order.
pub fn interpolate(sorted: &Vec<Real>, lower: usize, upper: usize) -> (r: Interpolation)
    requires
        lower < sorted@.len(),
        upper < sorted@.len(),
    ensures
        r == if lower == upper {
            Interpolation::Value(sorted@[lower as int])
        } else {
            Interpolation::Between(sorted@[lower as int], sorted@[upper as int])
        },
{
    if lower == upper {
        Interpolation::Value(sorted[lower])
    } else {
        Interpolation::Between(sorted[lower], sorted[upper])
    }
}

/// What stands among the numbers in order is one of the numbers that were taken
/// in.
pub proof fn selected_was_taken_in(values: Seq<Real>, sorted: Seq<Real>, index: int)
    requires
        sorted.to_multiset() == values.to_multiset(),
        0 <= index < sorted.len(),
    ensures
        values.contains(sorted[index]),
{
    sorted.to_multiset_ensures();
    values.to_multiset_ensures();
    assert(sorted.contains(sorted[index]));
    assert(values.to_multiset().contains(sorted[index]));
}

/// A row whose percentile is not accepted leaves the numbers and the percentile
/// as they were, and the first error stays.
pub proof fn refused_rows_change_nothing_else(
    state: PercentileModel,
    row: (Option<Real>, Option<Real>),
    apart: bool,
    max: u64,
    refusal: Seq<char>,
)
    ensures
        ({
            let after = taken_in(state, row, apart, max, refusal);
            &&& row.1 matches Some(p) ==> !within(p, max) ==> after.values == state.values
                && after.p == state.p
            &&& state.error is Some ==> after.error == state.error
            &&& state.p is Some ==> after.p == state.p
        }),
{
}

} // verus!
