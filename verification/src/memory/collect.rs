//! Collecting items where the memory for them may not be had. An item that is
//! missing or an error ends the collection.

use vstd::prelude::*;
use vstd::std_specs::convert::FromSpec;

verus! {

/// The memory for a collection could not be had.
#[derive(Clone, Copy, Debug, PartialEq, Eq, Structural)]
pub struct TryReserveError;

/// How many items a source still has that counts them exactly. A source that
/// does not know, because there are more than can be counted, is refused.
pub fn trusted_len(size_hint: (usize, Option<usize>)) -> (r: Result<usize, TryReserveError>)
    requires
        size_hint.1 matches Some(upper) ==> upper == size_hint.0,
    ensures
        r == match size_hint.1 {
            Some(upper) => Ok::<usize, TryReserveError>(upper),
            None => Err(TryReserveError),
        },
{
    match size_hint.1 {
        None => Err(TryReserveError),
        Some(additional) => Ok(additional),
    }
}

/// What items can be collected into. A collection may stop before it has seen
/// all items. Where memory for them cannot be had, what was collected is of no
/// use.
pub trait TursoFromIterator<T>: Sized {
    /// Whether `r` is what the items are collected into.
    spec fn collected(items: Seq<T>, r: Self) -> bool;

    /// Whether `after` is `before` with the items behind what it has.
    spec fn extended(before: Self, items: Seq<T>, after: Self) -> bool;

    /// Whether collecting stops before it asks for an item behind these.
    spec fn stops(items: Seq<T>) -> bool;

    /// Whether adding stops before it asks for an item behind these.
    spec fn stops_extending(before: Self, items: Seq<T>) -> bool;

    /// Whether the items are collected without asking for memory.
    spec fn free_to_collect(items: Seq<T>) -> bool;

    /// Whether the items are added without asking for memory.
    spec fn free_to_extend(before: Self, items: Seq<T>) -> bool;

    /// What stands behind the items at which collecting stops is not looked at.
    proof fn collecting_reads_no_further(items: Seq<T>, more: Seq<T>, r: Self)
        requires
            Self::stops(items),
        ensures
            Self::stops(items + more),
            Self::collected(items + more, r) == Self::collected(items, r),
    ;

    /// What stands behind the items at which adding stops is not looked at.
    proof fn extending_reads_no_further(before: Self, items: Seq<T>, more: Seq<T>, after: Self)
        requires
            Self::stops_extending(before, items),
        ensures
            Self::stops_extending(before, items + more),
            Self::extended(before, items + more, after) == Self::extended(before, items, after),
    ;

    /// Collects items, and says whether it stopped before it asked for one behind
    /// them. Nothing is said of when the allocator refuses.
    fn collect_and_report(items: Vec<T>) -> (r: Result<(Self, bool), TryReserveError>)
        ensures
            match r {
                Ok((c, stopped)) => {
                    &&& Self::collected(items@, c)
                    &&& stopped == Self::stops(items@)
                },
                Err(_) => !Self::free_to_collect(items@),
            },
    ;

    /// Adds items, and says whether it stopped before it asked for one behind
    /// them. Nothing is said of when the allocator refuses.
    fn extend_and_report(&mut self, items: Vec<T>) -> (r: Result<bool, TryReserveError>)
        ensures
            match r {
                Ok(stopped) => {
                    &&& Self::extended(*old(self), items@, *final(self))
                    &&& stopped == Self::stops_extending(*old(self), items@)
                },
                Err(_) => !Self::free_to_extend(*old(self), items@),
            },
    ;

    /// Collects items. Nothing is said of when the allocator refuses.
    fn try_from_iter(items: Vec<T>) -> (r: Result<Self, TryReserveError>)
        ensures
            r matches Ok(c) ==> Self::collected(items@, c),
            r is Err ==> !Self::free_to_collect(items@),
    {
        match Self::collect_and_report(items) {
            Ok((c, _)) => Ok(c),
            Err(e) => Err(e),
        }
    }

    /// Adds items. Nothing is said of when the allocator refuses.
    fn try_extend(&mut self, items: Vec<T>) -> (r: Result<(), TryReserveError>)
        ensures
            r is Ok ==> Self::extended(*old(self), items@, *final(self)),
            r is Err ==> !Self::free_to_extend(*old(self), items@),
    {
        match self.extend_and_report(items) {
            Ok(_) => Ok(()),
            Err(e) => Err(e),
        }
    }
}

impl<T> TursoFromIterator<T> for Vec<T> {
    open spec fn collected(items: Seq<T>, r: Vec<T>) -> bool {
        r@ == items
    }

    open spec fn extended(before: Vec<T>, items: Seq<T>, after: Vec<T>) -> bool {
        after@ == before@ + items
    }

    /// A vector takes all items.
    open spec fn stops(items: Seq<T>) -> bool {
        false
    }

    open spec fn stops_extending(before: Vec<T>, items: Seq<T>) -> bool {
        false
    }

    /// The memory that the items are in is taken over.
    open spec fn free_to_collect(items: Seq<T>) -> bool {
        true
    }

    /// Where there is nothing to add, nothing is asked for.
    open spec fn free_to_extend(before: Vec<T>, items: Seq<T>) -> bool {
        items.len() == 0
    }

    proof fn collecting_reads_no_further(items: Seq<T>, more: Seq<T>, r: Vec<T>) {
    }

    proof fn extending_reads_no_further(
        before: Vec<T>,
        items: Seq<T>,
        more: Seq<T>,
        after: Vec<T>,
    ) {
    }

    fn collect_and_report(items: Vec<T>) -> (r: Result<(Vec<T>, bool), TryReserveError>) {
        assert(!Self::stops(items@));
        Ok((items, false))
    }

    fn extend_and_report(&mut self, items: Vec<T>) -> (r: Result<bool, TryReserveError>)
        ensures
            r is Err ==> final(self)@ == old(self)@,
    {
        match self.try_extend(items) {
            Ok(_) => Ok(false),
            Err(e) => Err(e),
        }
    }

    /// A vector for which memory cannot be had keeps what it holds.
    fn try_extend(&mut self, items: Vec<T>) -> (r: Result<(), TryReserveError>)
        ensures
            r is Err ==> final(self)@ == old(self)@,
    {
        if items.len() == 0 {
            assert(self@ + items@ =~= self@);
            return Ok(());
        }
        match self.try_reserve(items.len()) {
            Ok(_) => {
                let mut items = items;
                self.append(&mut items);
                Ok(())
            },
            Err(_) => Err(TryReserveError),
        }
    }
}

/// The items before the first that is missing.
pub open spec fn present<T>(items: Seq<Option<T>>) -> Seq<T>
    decreases items.len(),
{
    if items.len() == 0 || items[0] is None {
        Seq::empty()
    } else {
        seq![items[0]->0] + present(items.skip(1))
    }
}

/// Whether an item is missing.
pub open spec fn has_missing<T>(items: Seq<Option<T>>) -> bool {
    exists|i: int| 0 <= i < items.len() && (#[trigger] items[i]) is None
}

/// The values before the first error.
pub open spec fn succeeded<T, E>(items: Seq<Result<T, E>>) -> Seq<T>
    decreases items.len(),
{
    if items.len() == 0 || items[0] is Err {
        Seq::empty()
    } else {
        seq![items[0]->Ok_0] + succeeded(items.skip(1))
    }
}

/// The first error.
pub open spec fn first_error<T, E>(items: Seq<Result<T, E>>) -> Option<E>
    decreases items.len(),
{
    if items.len() == 0 {
        None
    } else {
        match items[0] {
            Err(e) => Some(e),
            Ok(_) => first_error(items.skip(1)),
        }
    }
}

proof fn present_splits<T>(items: Seq<Option<T>>, more: Seq<Option<T>>)
    ensures
        has_missing(items) ==> has_missing(items + more) && present(items + more) == present(items),
        !has_missing(items) ==> present(items + more) == present(items) + present(more),
    decreases items.len(),
{
    let all = items + more;
    if items.len() == 0 {
        assert(all =~= more);
        assert(present(items) + present(more) =~= present(more));
    } else {
        assert(all[0] == items[0]);
        if has_missing(items) {
            let i = choose|i: int| 0 <= i < items.len() && (#[trigger] items[i]) is None;
            assert(all[i] is None);
        }
        if items[0] is Some {
            let rest = items.skip(1);
            present_splits(rest, more);
            assert(all.skip(1) =~= rest + more);
            assert forall|i: int| 0 <= i < rest.len() implies (#[trigger] rest[i]) == items[i + 1] by {}
            if has_missing(items) {
                let i = choose|i: int| 0 <= i < items.len() && (#[trigger] items[i]) is None;
                assert(rest[i - 1] is None);
            } else {
                assert(!has_missing(rest));
                assert(seq![items[0]->0] + (present(rest) + present(more)) =~= present(items)
                    + present(more));
            }
        } else {
            assert(items[0] is None);
        }
    }
}

proof fn succeeded_splits<T, E>(items: Seq<Result<T, E>>, more: Seq<Result<T, E>>)
    ensures
        first_error(items) is Some ==> first_error(items + more) == first_error(items)
            && succeeded(items + more) == succeeded(items),
        first_error(items) is None ==> succeeded(items + more) == succeeded(items) + succeeded(
            more,
        ),
    decreases items.len(),
{
    let all = items + more;
    if items.len() == 0 {
        assert(all =~= more);
        assert(succeeded(items) + succeeded(more) =~= succeeded(more));
    } else {
        assert(all[0] == items[0]);
        if items[0] is Ok {
            let rest = items.skip(1);
            succeeded_splits(rest, more);
            assert(all.skip(1) =~= rest + more);
            assert(first_error(items) is None ==> seq![items[0]->Ok_0] + (succeeded(rest)
                + succeeded(more)) =~= succeeded(items) + succeeded(more));
        }
    }
}

/// Appends the items before the first that is missing; says whether one is.
pub fn gather_present<T>(values: &mut Vec<T>, items: Vec<Option<T>>) -> (missing: bool)
    ensures
        final(values)@ == old(values)@ + present(items@),
        missing == has_missing(items@),
{
    let ghost all = items@;
    let ghost start = values@;
    assert(all.skip(0) =~= all);
    for item in it: items.into_iter()
        invariant
            it.seq() == all,
            all == items@,
            start == old(values)@,
            values@ + present(all.skip(it.index() as int)) == start + present(all),
            forall|j: int| 0 <= j < it.index() ==> (#[trigger] all[j]) is Some,
    {
        let ghost i = it.index() as int;
        let ghost rest = all.skip(i);
        assert(rest[0] == all[i]);
        assert(rest.skip(1) =~= all.skip(i + 1));
        match item {
            Some(value) => {
                let ghost before = values@;
                values.push(value);
                assert(values@ + present(all.skip(i + 1)) =~= before + present(rest));
            },
            None => {
                assert(values@ + present(rest) =~= values@);
                assert(all[i] is None);
                return true;
            },
        }
    }
    assert(all.skip(all.len() as int) =~= Seq::<Option<T>>::empty());
    assert(values@ + Seq::<T>::empty() =~= values@);
    false
}

/// Appends the values before the first error; gives the error.
pub fn gather_succeeded<T, E>(values: &mut Vec<T>, items: Vec<Result<T, E>>) -> (error: Option<E>)
    ensures
        final(values)@ == old(values)@ + succeeded(items@),
        error == first_error(items@),
{
    let ghost all = items@;
    let ghost start = values@;
    assert(all.skip(0) =~= all);
    for item in it: items.into_iter()
        invariant
            it.seq() == all,
            all == items@,
            start == old(values)@,
            values@ + succeeded(all.skip(it.index() as int)) == start + succeeded(all),
            first_error(all) == first_error(all.skip(it.index() as int)),
    {
        let ghost i = it.index() as int;
        let ghost rest = all.skip(i);
        assert(rest[0] == all[i]);
        assert(rest.skip(1) =~= all.skip(i + 1));
        match item {
            Ok(value) => {
                let ghost before = values@;
                values.push(value);
                assert(values@ + succeeded(all.skip(i + 1)) =~= before + succeeded(rest));
            },
            Err(e) => {
                assert(values@ + succeeded(rest) =~= values@);
                return Some(e);
            },
        }
    }
    assert(all.skip(all.len() as int) =~= Seq::<Result<T, E>>::empty());
    assert(values@ + Seq::<T>::empty() =~= values@);
    None
}

/// What a collection of the present items comes to: nothing, where a missing one
/// was seen.
pub fn settle_option<C>(collected: Result<C, TryReserveError>, missing: bool) -> (r: Result<
    Option<C>,
    TryReserveError,
>)
    ensures
        match collected {
            Err(e) => r == Err::<Option<C>, TryReserveError>(e),
            Ok(c) => r == Ok::<Option<C>, TryReserveError>(
                if missing {
                    None
                } else {
                    Some(c)
                },
            ),
        },
{
    match collected {
        Ok(c) => if missing {
            Ok(None)
        } else {
            Ok(Some(c))
        },
        Err(e) => Err(e),
    }
}

/// What a collection to which the present items were added comes to, and whether
/// adding stopped: a missing item makes it nothing, where it was seen. One that
/// was refused memory stays.
pub fn settle_extended_option<C>(
    collection: C,
    outcome: Result<bool, TryReserveError>,
    missing: bool,
) -> (r: (Option<C>, Result<bool, TryReserveError>))
    ensures
        match outcome {
            Err(e) => r.0 == Some(collection) && r.1 == Err::<bool, TryReserveError>(e),
            Ok(stopped) => {
                &&& r.0 == if missing && !stopped {
                    None
                } else {
                    Some(collection)
                }
                &&& r.1 == Ok::<bool, TryReserveError>(missing || stopped)
            },
        },
{
    match outcome {
        Ok(stopped) => if missing && !stopped {
            (None, Ok(true))
        } else {
            (Some(collection), Ok(missing || stopped))
        },
        Err(e) => (Some(collection), Err(e)),
    }
}

impl<T, C: TursoFromIterator<T>> TursoFromIterator<Option<T>> for Option<C> {
    /// Nothing, if an item is missing that is looked at.
    open spec fn collected(items: Seq<Option<T>>, r: Option<C>) -> bool {
        if has_missing(items) && !C::stops(present(items)) {
            r is None
        } else {
            r matches Some(c) && C::collected(present(items), c)
        }
    }

    /// Nothing stays nothing, and an item that is missing makes it so, if it is
    /// looked at.
    open spec fn extended(before: Option<C>, items: Seq<Option<T>>, after: Option<C>) -> bool {
        match before {
            None => after is None,
            Some(b) => if has_missing(items) && !C::stops_extending(b, present(items)) {
                after is None
            } else {
                after matches Some(c) && C::extended(b, present(items), c)
            },
        }
    }

    open spec fn stops(items: Seq<Option<T>>) -> bool {
        has_missing(items) || C::stops(present(items))
    }

    open spec fn stops_extending(before: Option<C>, items: Seq<Option<T>>) -> bool {
        before is None || has_missing(items) || C::stops_extending(before->0, present(items))
    }

    open spec fn free_to_collect(items: Seq<Option<T>>) -> bool {
        C::free_to_collect(present(items))
    }

    open spec fn free_to_extend(before: Option<C>, items: Seq<Option<T>>) -> bool {
        before is None || C::free_to_extend(before->0, present(items))
    }

    proof fn collecting_reads_no_further(
        items: Seq<Option<T>>,
        more: Seq<Option<T>>,
        r: Option<C>,
    ) {
        present_splits(items, more);
        if !has_missing(items) {
            if let Some(c) = r {
                C::collecting_reads_no_further(present(items), present(more), c);
            } else {
                C::collecting_reads_no_further(present(items), present(more), arbitrary());
            }
        }
    }

    proof fn extending_reads_no_further(
        before: Option<C>,
        items: Seq<Option<T>>,
        more: Seq<Option<T>>,
        after: Option<C>,
    ) {
        present_splits(items, more);
        if let Some(b) = before {
            if !has_missing(items) {
                if let Some(c) = after {
                    C::extending_reads_no_further(b, present(items), present(more), c);
                } else {
                    C::extending_reads_no_further(b, present(items), present(more), b);
                }
            }
        }
    }

    fn collect_and_report(items: Vec<Option<T>>) -> (r: Result<
        (Option<C>, bool),
        TryReserveError,
    >) {
        let mut values: Vec<T> = Vec::new();
        let missing = gather_present(&mut values, items);
        assert(values@ =~= present(items@));
        let (c, stopped) = C::collect_and_report(values)?;
        let settled = settle_option(Ok(c), missing && !stopped)?;
        assert(Self::stops(items@) == (has_missing(items@) || C::stops(present(items@))));
        Ok((settled, missing || stopped))
    }

    fn extend_and_report(&mut self, items: Vec<Option<T>>) -> (r: Result<bool, TryReserveError>) {
        match self.take() {
            None => {
                assert(Self::stops_extending(*old(self), items@));
                Ok(true)
            },
            Some(collection) => {
                let mut collection = collection;
                let ghost held = collection;
                let mut values: Vec<T> = Vec::new();
                let missing = gather_present(&mut values, items);
                assert(values@ =~= present(items@));
                let outcome = collection.extend_and_report(values);
                let (settled, r) = settle_extended_option(collection, outcome, missing);
                *self = settled;
                assert(Self::stops_extending(*old(self), items@) == (has_missing(items@)
                    || C::stops_extending(held, present(items@))));
                r
            },
        }
    }
}

/// Whether `to` is what an error is converted to.
pub open spec fn converted<E, F: From<E>>(from: E, to: F) -> bool {
    F::obeys_from_spec() ==> to == F::from_spec(from)
}

/// What a collection of the values comes to: the error, where one was seen.
pub fn settle_result<C, E, F: From<E>>(
    collected: Result<C, TryReserveError>,
    error: Option<E>,
) -> (r: Result<Result<C, F>, TryReserveError>)
    ensures
        match (collected, error) {
            (Err(e), _) => r == Err::<Result<C, F>, TryReserveError>(e),
            (Ok(_), Some(e)) => r matches Ok(Err(f)) && converted(e, f),
            (Ok(c), None) => r == Ok::<Result<C, F>, TryReserveError>(Ok(c)),
        },
{
    match collected {
        Ok(c) => match error {
            Some(e) => Ok(Err(F::from(e))),
            None => Ok(Ok(c)),
        },
        Err(e) => Err(e),
    }
}

/// What is seen of an error behind the values, given what became of those, and
/// whether the items were stopped at: an error is not seen where the values were
/// stopped at.
pub fn seen_error<E>(outcome: Result<bool, TryReserveError>, error: Option<E>) -> (r: Result<
    (Option<E>, bool),
    TryReserveError,
>)
    ensures
        match outcome {
            Err(e) => r == Err::<(Option<E>, bool), TryReserveError>(e),
            Ok(stopped) => r == Ok::<(Option<E>, bool), TryReserveError>(
                (
                    if stopped {
                        None
                    } else {
                        error
                    },
                    stopped || error is Some,
                ),
            ),
        },
{
    match outcome {
        Ok(stopped) => {
            let ended = stopped || error.is_some();
            if stopped {
                Ok((None, ended))
            } else {
                Ok((error, ended))
            }
        },
        Err(e) => Err(e),
    }
}

impl<T, E, F: From<E>, C: TursoFromIterator<T>> TursoFromIterator<Result<T, E>> for Result<C, F> {
    /// The first error, if there is one and it is looked at.
    open spec fn collected(items: Seq<Result<T, E>>, r: Result<C, F>) -> bool {
        match first_error(items) {
            Some(e) if !C::stops(succeeded(items)) => r matches Err(f) && converted(e, f),
            _ => r matches Ok(c) && C::collected(succeeded(items), c),
        }
    }

    /// An error stays as it is, and the first error among the items takes the
    /// place of what was collected, if it is looked at.
    open spec fn extended(
        before: Result<C, F>,
        items: Seq<Result<T, E>>,
        after: Result<C, F>,
    ) -> bool {
        match before {
            Err(_) => after == before,
            Ok(b) => match first_error(items) {
                Some(e) if !C::stops_extending(b, succeeded(items)) => after matches Err(f)
                    && converted(e, f),
                _ => after matches Ok(c) && C::extended(b, succeeded(items), c),
            },
        }
    }

    open spec fn stops(items: Seq<Result<T, E>>) -> bool {
        first_error(items) is Some || C::stops(succeeded(items))
    }

    open spec fn stops_extending(before: Result<C, F>, items: Seq<Result<T, E>>) -> bool {
        before is Err || first_error(items) is Some || C::stops_extending(
            before->Ok_0,
            succeeded(items),
        )
    }

    open spec fn free_to_collect(items: Seq<Result<T, E>>) -> bool {
        C::free_to_collect(succeeded(items))
    }

    open spec fn free_to_extend(before: Result<C, F>, items: Seq<Result<T, E>>) -> bool {
        before is Err || C::free_to_extend(before->Ok_0, succeeded(items))
    }

    proof fn collecting_reads_no_further(
        items: Seq<Result<T, E>>,
        more: Seq<Result<T, E>>,
        r: Result<C, F>,
    ) {
        succeeded_splits(items, more);
        if first_error(items) is None {
            if let Ok(c) = r {
                C::collecting_reads_no_further(succeeded(items), succeeded(more), c);
            } else {
                C::collecting_reads_no_further(succeeded(items), succeeded(more), arbitrary());
            }
        }
    }

    proof fn extending_reads_no_further(
        before: Result<C, F>,
        items: Seq<Result<T, E>>,
        more: Seq<Result<T, E>>,
        after: Result<C, F>,
    ) {
        succeeded_splits(items, more);
        if let Ok(b) = before {
            if first_error(items) is None {
                if let Ok(c) = after {
                    C::extending_reads_no_further(b, succeeded(items), succeeded(more), c);
                } else {
                    C::extending_reads_no_further(b, succeeded(items), succeeded(more), b);
                }
            }
        }
    }

    fn collect_and_report(items: Vec<Result<T, E>>) -> (r: Result<
        (Result<C, F>, bool),
        TryReserveError,
    >) {
        let mut values: Vec<T> = Vec::new();
        let error = gather_succeeded(&mut values, items);
        assert(values@ =~= succeeded(items@));
        let (c, stopped) = C::collect_and_report(values)?;
        let (seen, ended) = seen_error(Ok(stopped), error)?;
        let settled = settle_result(Ok(c), seen)?;
        assert(Self::stops(items@) == (first_error(items@) is Some || C::stops(
            succeeded(items@),
        )));
        Ok((settled, ended))
    }

    fn extend_and_report(&mut self, items: Vec<Result<T, E>>) -> (r: Result<
        bool,
        TryReserveError,
    >) {
        match self {
            Err(_) => {
                assert(Self::stops_extending(*old(self), items@));
                Ok(true)
            },
            Ok(collection) => {
                let ghost held = *collection;
                let mut values: Vec<T> = Vec::new();
                let error = gather_succeeded(&mut values, items);
                assert(values@ =~= succeeded(items@));
                let (seen, ended) = seen_error(collection.extend_and_report(values), error)?;
                if let Some(e) = seen {
                    *self = Err(F::from(e));
                }
                assert(Self::stops_extending(*old(self), items@) == (first_error(items@) is Some
                    || C::stops_extending(held, succeeded(items@))));
                Ok(ended)
            },
        }
    }
}

/// Whether `after` is `before` with the items added one by one.
pub open spec fn extended_one_by_one<T, C: TursoFromIterator<T>>(
    before: C,
    items: Seq<T>,
    after: C,
) -> bool
    decreases items.len(),
{
    if items.len() == 0 {
        after == before
    } else {
        exists|between: C|
            extended_one_by_one(before, items.drop_last(), between) && #[trigger] C::extended(
                between,
                seq![items.last()],
                after,
            )
    }
}

/// Whether `r` is nothing, with the items added one by one.
pub open spec fn collected_one_by_one<T, C: TursoFromIterator<T>>(items: Seq<T>, r: C) -> bool {
    exists|empty: C| C::collected(Seq::empty(), empty) && #[trigger] extended_one_by_one(
        empty,
        items,
        r,
    )
}

/// Adds one item. It is refused only where memory has to be asked for.
fn extend_one<T, C: TursoFromIterator<T>>(collection: &mut C, item: T) -> (r: Result<
    (),
    TryReserveError,
>)
    ensures
        r is Ok ==> C::extended(*old(collection), seq![item], *final(collection)),
        r is Err ==> !C::free_to_extend(*old(collection), seq![item]),
{
    let mut one: Vec<T> = Vec::new();
    one.push(item);
    assert(one@ =~= seq![item]);
    collection.try_extend(one)
}

proof fn one_more<T, C: TursoFromIterator<T>>(
    before: C,
    items: Seq<T>,
    between: C,
    item: T,
    after: C,
)
    requires
        extended_one_by_one(before, items, between),
        C::extended(between, seq![item], after),
    ensures
        extended_one_by_one(before, items.push(item), after),
{
    let more = items.push(item);
    assert(more.drop_last() =~= items);
    assert(C::extended(between, seq![more.last()], after));
}

/// Vectors that grow one item at a time hold the items in their order.
pub proof fn vectors_keep_the_order<T>(before: Vec<T>, items: Seq<T>, after: Vec<T>)
    requires
        extended_one_by_one(before, items, after),
    ensures
        after@ == before@ + items,
    decreases items.len(),
{
    if items.len() == 0 {
        assert(before@ + items =~= before@);
    } else {
        let between = choose|between: Vec<T>|
            extended_one_by_one(before, items.drop_last(), between)
                && #[trigger] <Vec<T> as TursoFromIterator<T>>::extended(
                between,
                seq![items.last()],
                after,
            );
        vectors_keep_the_order(before, items.drop_last(), between);
        assert(before@ + items =~= before@ + items.drop_last() + seq![items.last()]);
    }
}

/// Whether the items are added one by one without asking for memory.
pub open spec fn free_one_by_one<T, C: TursoFromIterator<T>>(before: C, items: Seq<T>) -> bool
    decreases items.len(),
{
    items.len() == 0 || {
        &&& free_one_by_one(before, items.drop_last())
        &&& forall|between: C| #[trigger]
            extended_one_by_one(before, items.drop_last(), between) ==> C::free_to_extend(
                between,
                seq![items.last()],
            )
    }
}

/// Whether the items are added to nothing one by one without asking for memory.
pub open spec fn free_from_nothing<T, C: TursoFromIterator<T>>(items: Seq<T>) -> bool {
    &&& C::free_to_collect(Seq::empty())
    &&& forall|empty: C| #[trigger]
        C::collected(Seq::empty(), empty) ==> free_one_by_one(empty, items)
}

/// Items among which one has to ask for memory are not added freely.
proof fn one_asks<T, C: TursoFromIterator<T>>(before: C, items: Seq<T>, i: int, held: C)
    requires
        0 <= i < items.len(),
        extended_one_by_one(before, items.take(i), held),
    ensures
        free_one_by_one(before, items) ==> C::free_to_extend(held, seq![items[i]]),
    decreases items.len(),
{
    if i == items.len() - 1 {
        assert(items.take(i) =~= items.drop_last());
    } else {
        assert(items.drop_last().take(i) =~= items.take(i));
        one_asks(before, items.drop_last(), i, held);
    }
}

impl<A, FromA: TursoFromIterator<A>> TursoFromIterator<(A,)> for (FromA,) {
    open spec fn collected(items: Seq<(A,)>, r: (FromA,)) -> bool {
        &&& collected_one_by_one(items.map_values(|p: (A,)| p.0), r.0)
    }

    open spec fn extended(
        before: (FromA,),
        items: Seq<(A,)>,
        after: (FromA,),
    ) -> bool {
        &&& extended_one_by_one(before.0, items.map_values(|p: (A,)| p.0), after.0)
    }

    open spec fn stops(items: Seq<(A,)>) -> bool {
        false
    }

    open spec fn stops_extending(before: (FromA,), items: Seq<(A,)>) -> bool {
        false
    }

    open spec fn free_to_collect(items: Seq<(A,)>) -> bool {
        &&& free_from_nothing::<A, FromA>(items.map_values(|p: (A,)| p.0))
    }

    open spec fn free_to_extend(before: (FromA,), items: Seq<(A,)>) -> bool {
        &&& free_one_by_one(before.0, items.map_values(|p: (A,)| p.0))
    }

    proof fn collecting_reads_no_further(items: Seq<(A,)>, more: Seq<(A,)>, r: (FromA,)) {
    }

    proof fn extending_reads_no_further(
        before: (FromA,),
        items: Seq<(A,)>,
        more: Seq<(A,)>,
        after: (FromA,),
    ) {
    }

    fn collect_and_report(items: Vec<(A,)>) -> (r: Result<((FromA,), bool), TryReserveError>) {
        let empty_a = FromA::try_from_iter(Vec::new())?;
        let mut values = (empty_a,);
        values.try_extend(items)?;
        assert(!Self::stops(items@));
        Ok((values, false))
    }

    fn extend_and_report(&mut self, items: Vec<(A,)>) -> (r: Result<bool, TryReserveError>) {
        let ghost start = *self;
        let ghost all = items@;
        proof {
            assert(all.take(0).map_values(|p: (A,)| p.0) =~= Seq::empty());
        }
        for item in it: items.into_iter()
            invariant
                it.seq() == all,
                all == items@,
                start == *old(self),
                extended_one_by_one(
                    start.0,
                    all.take(it.index() as int).map_values(|p: (A,)| p.0),
                    self.0,
                ),
        {
            let ghost i = it.index() as int;
            let ghost held = *self;
            let ghost taken = all.take(i);
            let ghost more = all.take(i + 1);
            proof {
                assert(all.map_values(|p: (A,)| p.0).take(i) =~= taken.map_values(|p: (A,)| p.0));
                one_asks(start.0, all.map_values(|p: (A,)| p.0), i, held.0);
            }
            extend_one(&mut self.0, item.0)?;
            proof {
                one_more(start.0, taken.map_values(|p: (A,)| p.0), held.0, all[i].0, self.0);
                assert(more.map_values(|p: (A,)| p.0) =~=
                    taken.map_values(|p: (A,)| p.0).push(all[i].0));
            }
        }
        assert(all.take(all.len() as int) =~= all);
        assert(!Self::stops_extending(*old(self), items@));
        Ok(false)
    }
}

impl<
    A,
    B,
    FromA: TursoFromIterator<A>,
    FromB: TursoFromIterator<B>,
> TursoFromIterator<(A, B)> for (FromA, FromB) {
    open spec fn collected(items: Seq<(A, B)>, r: (FromA, FromB)) -> bool {
        &&& collected_one_by_one(items.map_values(|p: (A, B)| p.0), r.0)
        &&& collected_one_by_one(items.map_values(|p: (A, B)| p.1), r.1)
    }

    open spec fn extended(
        before: (FromA, FromB),
        items: Seq<(A, B)>,
        after: (FromA, FromB),
    ) -> bool {
        &&& extended_one_by_one(before.0, items.map_values(|p: (A, B)| p.0), after.0)
        &&& extended_one_by_one(before.1, items.map_values(|p: (A, B)| p.1), after.1)
    }

    open spec fn stops(items: Seq<(A, B)>) -> bool {
        false
    }

    open spec fn stops_extending(before: (FromA, FromB), items: Seq<(A, B)>) -> bool {
        false
    }

    open spec fn free_to_collect(items: Seq<(A, B)>) -> bool {
        &&& free_from_nothing::<A, FromA>(items.map_values(|p: (A, B)| p.0))
        &&& free_from_nothing::<B, FromB>(items.map_values(|p: (A, B)| p.1))
    }

    open spec fn free_to_extend(before: (FromA, FromB), items: Seq<(A, B)>) -> bool {
        &&& free_one_by_one(before.0, items.map_values(|p: (A, B)| p.0))
        &&& free_one_by_one(before.1, items.map_values(|p: (A, B)| p.1))
    }

    proof fn collecting_reads_no_further(items: Seq<(A, B)>, more: Seq<(A, B)>, r: (FromA, FromB)) {
    }

    proof fn extending_reads_no_further(
        before: (FromA, FromB),
        items: Seq<(A, B)>,
        more: Seq<(A, B)>,
        after: (FromA, FromB),
    ) {
    }

    fn collect_and_report(
        items: Vec<(A, B)>,
    ) -> (r: Result<((FromA, FromB), bool), TryReserveError>) {
        let empty_a = FromA::try_from_iter(Vec::new())?;
        let empty_b = FromB::try_from_iter(Vec::new())?;
        let mut values = (empty_a, empty_b);
        values.try_extend(items)?;
        assert(!Self::stops(items@));
        Ok((values, false))
    }

    fn extend_and_report(&mut self, items: Vec<(A, B)>) -> (r: Result<bool, TryReserveError>) {
        let ghost start = *self;
        let ghost all = items@;
        proof {
            assert(all.take(0).map_values(|p: (A, B)| p.0) =~= Seq::empty());
            assert(all.take(0).map_values(|p: (A, B)| p.1) =~= Seq::empty());
        }
        for item in it: items.into_iter()
            invariant
                it.seq() == all,
                all == items@,
                start == *old(self),
                extended_one_by_one(
                    start.0,
                    all.take(it.index() as int).map_values(|p: (A, B)| p.0),
                    self.0,
                ),
                extended_one_by_one(
                    start.1,
                    all.take(it.index() as int).map_values(|p: (A, B)| p.1),
                    self.1,
                ),
        {
            let ghost i = it.index() as int;
            let ghost held = *self;
            let ghost taken = all.take(i);
            let ghost more = all.take(i + 1);
            proof {
                assert(all.map_values(|p: (A, B)| p.0).take(i)
                    =~= taken.map_values(|p: (A, B)| p.0));
                one_asks(start.0, all.map_values(|p: (A, B)| p.0), i, held.0);
                assert(all.map_values(|p: (A, B)| p.1).take(i)
                    =~= taken.map_values(|p: (A, B)| p.1));
                one_asks(start.1, all.map_values(|p: (A, B)| p.1), i, held.1);
            }
            extend_one(&mut self.0, item.0)?;
            extend_one(&mut self.1, item.1)?;
            proof {
                one_more(start.0, taken.map_values(|p: (A, B)| p.0), held.0, all[i].0, self.0);
                assert(more.map_values(|p: (A, B)| p.0) =~=
                    taken.map_values(|p: (A, B)| p.0).push(all[i].0));
                one_more(start.1, taken.map_values(|p: (A, B)| p.1), held.1, all[i].1, self.1);
                assert(more.map_values(|p: (A, B)| p.1) =~=
                    taken.map_values(|p: (A, B)| p.1).push(all[i].1));
            }
        }
        assert(all.take(all.len() as int) =~= all);
        assert(!Self::stops_extending(*old(self), items@));
        Ok(false)
    }
}

impl<
    A,
    B,
    C,
    FromA: TursoFromIterator<A>,
    FromB: TursoFromIterator<B>,
    FromC: TursoFromIterator<C>,
> TursoFromIterator<(A, B, C)> for (FromA, FromB, FromC) {
    open spec fn collected(items: Seq<(A, B, C)>, r: (FromA, FromB, FromC)) -> bool {
        &&& collected_one_by_one(items.map_values(|p: (A, B, C)| p.0), r.0)
        &&& collected_one_by_one(items.map_values(|p: (A, B, C)| p.1), r.1)
        &&& collected_one_by_one(items.map_values(|p: (A, B, C)| p.2), r.2)
    }

    open spec fn extended(
        before: (FromA, FromB, FromC),
        items: Seq<(A, B, C)>,
        after: (FromA, FromB, FromC),
    ) -> bool {
        &&& extended_one_by_one(before.0, items.map_values(|p: (A, B, C)| p.0), after.0)
        &&& extended_one_by_one(before.1, items.map_values(|p: (A, B, C)| p.1), after.1)
        &&& extended_one_by_one(before.2, items.map_values(|p: (A, B, C)| p.2), after.2)
    }

    open spec fn stops(items: Seq<(A, B, C)>) -> bool {
        false
    }

    open spec fn stops_extending(before: (FromA, FromB, FromC), items: Seq<(A, B, C)>) -> bool {
        false
    }

    open spec fn free_to_collect(items: Seq<(A, B, C)>) -> bool {
        &&& free_from_nothing::<A, FromA>(items.map_values(|p: (A, B, C)| p.0))
        &&& free_from_nothing::<B, FromB>(items.map_values(|p: (A, B, C)| p.1))
        &&& free_from_nothing::<C, FromC>(items.map_values(|p: (A, B, C)| p.2))
    }

    open spec fn free_to_extend(before: (FromA, FromB, FromC), items: Seq<(A, B, C)>) -> bool {
        &&& free_one_by_one(before.0, items.map_values(|p: (A, B, C)| p.0))
        &&& free_one_by_one(before.1, items.map_values(|p: (A, B, C)| p.1))
        &&& free_one_by_one(before.2, items.map_values(|p: (A, B, C)| p.2))
    }

    proof fn collecting_reads_no_further(
        items: Seq<(A, B, C)>,
        more: Seq<(A, B, C)>,
        r: (FromA, FromB, FromC),
    ) {
    }

    proof fn extending_reads_no_further(
        before: (FromA, FromB, FromC),
        items: Seq<(A, B, C)>,
        more: Seq<(A, B, C)>,
        after: (FromA, FromB, FromC),
    ) {
    }

    fn collect_and_report(
        items: Vec<(A, B, C)>,
    ) -> (r: Result<((FromA, FromB, FromC), bool), TryReserveError>) {
        let empty_a = FromA::try_from_iter(Vec::new())?;
        let empty_b = FromB::try_from_iter(Vec::new())?;
        let empty_c = FromC::try_from_iter(Vec::new())?;
        let mut values = (empty_a, empty_b, empty_c);
        values.try_extend(items)?;
        assert(!Self::stops(items@));
        Ok((values, false))
    }

    fn extend_and_report(&mut self, items: Vec<(A, B, C)>) -> (r: Result<bool, TryReserveError>) {
        let ghost start = *self;
        let ghost all = items@;
        proof {
            assert(all.take(0).map_values(|p: (A, B, C)| p.0) =~= Seq::empty());
            assert(all.take(0).map_values(|p: (A, B, C)| p.1) =~= Seq::empty());
            assert(all.take(0).map_values(|p: (A, B, C)| p.2) =~= Seq::empty());
        }
        for item in it: items.into_iter()
            invariant
                it.seq() == all,
                all == items@,
                start == *old(self),
                extended_one_by_one(
                    start.0,
                    all.take(it.index() as int).map_values(|p: (A, B, C)| p.0),
                    self.0,
                ),
                extended_one_by_one(
                    start.1,
                    all.take(it.index() as int).map_values(|p: (A, B, C)| p.1),
                    self.1,
                ),
                extended_one_by_one(
                    start.2,
                    all.take(it.index() as int).map_values(|p: (A, B, C)| p.2),
                    self.2,
                ),
        {
            let ghost i = it.index() as int;
            let ghost held = *self;
            let ghost taken = all.take(i);
            let ghost more = all.take(i + 1);
            proof {
                assert(all.map_values(|p: (A, B, C)| p.0).take(i)
                    =~= taken.map_values(|p: (A, B, C)| p.0));
                one_asks(start.0, all.map_values(|p: (A, B, C)| p.0), i, held.0);
                assert(all.map_values(|p: (A, B, C)| p.1).take(i)
                    =~= taken.map_values(|p: (A, B, C)| p.1));
                one_asks(start.1, all.map_values(|p: (A, B, C)| p.1), i, held.1);
                assert(all.map_values(|p: (A, B, C)| p.2).take(i)
                    =~= taken.map_values(|p: (A, B, C)| p.2));
                one_asks(start.2, all.map_values(|p: (A, B, C)| p.2), i, held.2);
            }
            extend_one(&mut self.0, item.0)?;
            extend_one(&mut self.1, item.1)?;
            extend_one(&mut self.2, item.2)?;
            proof {
                one_more(start.0, taken.map_values(|p: (A, B, C)| p.0), held.0, all[i].0, self.0);
                assert(more.map_values(|p: (A, B, C)| p.0) =~=
                    taken.map_values(|p: (A, B, C)| p.0).push(all[i].0));
                one_more(start.1, taken.map_values(|p: (A, B, C)| p.1), held.1, all[i].1, self.1);
                assert(more.map_values(|p: (A, B, C)| p.1) =~=
                    taken.map_values(|p: (A, B, C)| p.1).push(all[i].1));
                one_more(start.2, taken.map_values(|p: (A, B, C)| p.2), held.2, all[i].2, self.2);
                assert(more.map_values(|p: (A, B, C)| p.2) =~=
                    taken.map_values(|p: (A, B, C)| p.2).push(all[i].2));
            }
        }
        assert(all.take(all.len() as int) =~= all);
        assert(!Self::stops_extending(*old(self), items@));
        Ok(false)
    }
}

impl<
    A,
    B,
    C,
    D,
    FromA: TursoFromIterator<A>,
    FromB: TursoFromIterator<B>,
    FromC: TursoFromIterator<C>,
    FromD: TursoFromIterator<D>,
> TursoFromIterator<(A, B, C, D)> for (FromA, FromB, FromC, FromD) {
    open spec fn collected(items: Seq<(A, B, C, D)>, r: (FromA, FromB, FromC, FromD)) -> bool {
        &&& collected_one_by_one(items.map_values(|p: (A, B, C, D)| p.0), r.0)
        &&& collected_one_by_one(items.map_values(|p: (A, B, C, D)| p.1), r.1)
        &&& collected_one_by_one(items.map_values(|p: (A, B, C, D)| p.2), r.2)
        &&& collected_one_by_one(items.map_values(|p: (A, B, C, D)| p.3), r.3)
    }

    open spec fn extended(
        before: (FromA, FromB, FromC, FromD),
        items: Seq<(A, B, C, D)>,
        after: (FromA, FromB, FromC, FromD),
    ) -> bool {
        &&& extended_one_by_one(before.0, items.map_values(|p: (A, B, C, D)| p.0), after.0)
        &&& extended_one_by_one(before.1, items.map_values(|p: (A, B, C, D)| p.1), after.1)
        &&& extended_one_by_one(before.2, items.map_values(|p: (A, B, C, D)| p.2), after.2)
        &&& extended_one_by_one(before.3, items.map_values(|p: (A, B, C, D)| p.3), after.3)
    }

    open spec fn stops(items: Seq<(A, B, C, D)>) -> bool {
        false
    }

    open spec fn stops_extending(
        before: (FromA, FromB, FromC, FromD),
        items: Seq<(A, B, C, D)>,
    ) -> bool {
        false
    }

    open spec fn free_to_collect(items: Seq<(A, B, C, D)>) -> bool {
        &&& free_from_nothing::<A, FromA>(items.map_values(|p: (A, B, C, D)| p.0))
        &&& free_from_nothing::<B, FromB>(items.map_values(|p: (A, B, C, D)| p.1))
        &&& free_from_nothing::<C, FromC>(items.map_values(|p: (A, B, C, D)| p.2))
        &&& free_from_nothing::<D, FromD>(items.map_values(|p: (A, B, C, D)| p.3))
    }

    open spec fn free_to_extend(
        before: (FromA, FromB, FromC, FromD),
        items: Seq<(A, B, C, D)>,
    ) -> bool {
        &&& free_one_by_one(before.0, items.map_values(|p: (A, B, C, D)| p.0))
        &&& free_one_by_one(before.1, items.map_values(|p: (A, B, C, D)| p.1))
        &&& free_one_by_one(before.2, items.map_values(|p: (A, B, C, D)| p.2))
        &&& free_one_by_one(before.3, items.map_values(|p: (A, B, C, D)| p.3))
    }

    proof fn collecting_reads_no_further(
        items: Seq<(A, B, C, D)>,
        more: Seq<(A, B, C, D)>,
        r: (FromA, FromB, FromC, FromD),
    ) {
    }

    proof fn extending_reads_no_further(
        before: (FromA, FromB, FromC, FromD),
        items: Seq<(A, B, C, D)>,
        more: Seq<(A, B, C, D)>,
        after: (FromA, FromB, FromC, FromD),
    ) {
    }

    fn collect_and_report(
        items: Vec<(A, B, C, D)>,
    ) -> (r: Result<((FromA, FromB, FromC, FromD), bool), TryReserveError>) {
        let empty_a = FromA::try_from_iter(Vec::new())?;
        let empty_b = FromB::try_from_iter(Vec::new())?;
        let empty_c = FromC::try_from_iter(Vec::new())?;
        let empty_d = FromD::try_from_iter(Vec::new())?;
        let mut values = (empty_a, empty_b, empty_c, empty_d);
        values.try_extend(items)?;
        assert(!Self::stops(items@));
        Ok((values, false))
    }

    fn extend_and_report(
        &mut self,
        items: Vec<(A, B, C, D)>,
    ) -> (r: Result<bool, TryReserveError>) {
        let ghost start = *self;
        let ghost all = items@;
        proof {
            assert(all.take(0).map_values(|p: (A, B, C, D)| p.0) =~= Seq::empty());
            assert(all.take(0).map_values(|p: (A, B, C, D)| p.1) =~= Seq::empty());
            assert(all.take(0).map_values(|p: (A, B, C, D)| p.2) =~= Seq::empty());
            assert(all.take(0).map_values(|p: (A, B, C, D)| p.3) =~= Seq::empty());
        }
        for item in it: items.into_iter()
            invariant
                it.seq() == all,
                all == items@,
                start == *old(self),
                extended_one_by_one(
                    start.0,
                    all.take(it.index() as int).map_values(|p: (A, B, C, D)| p.0),
                    self.0,
                ),
                extended_one_by_one(
                    start.1,
                    all.take(it.index() as int).map_values(|p: (A, B, C, D)| p.1),
                    self.1,
                ),
                extended_one_by_one(
                    start.2,
                    all.take(it.index() as int).map_values(|p: (A, B, C, D)| p.2),
                    self.2,
                ),
                extended_one_by_one(
                    start.3,
                    all.take(it.index() as int).map_values(|p: (A, B, C, D)| p.3),
                    self.3,
                ),
        {
            let ghost i = it.index() as int;
            let ghost held = *self;
            let ghost taken = all.take(i);
            let ghost more = all.take(i + 1);
            proof {
                assert(all.map_values(|p: (A, B, C, D)| p.0).take(i)
                    =~= taken.map_values(|p: (A, B, C, D)| p.0));
                one_asks(start.0, all.map_values(|p: (A, B, C, D)| p.0), i, held.0);
                assert(all.map_values(|p: (A, B, C, D)| p.1).take(i)
                    =~= taken.map_values(|p: (A, B, C, D)| p.1));
                one_asks(start.1, all.map_values(|p: (A, B, C, D)| p.1), i, held.1);
                assert(all.map_values(|p: (A, B, C, D)| p.2).take(i)
                    =~= taken.map_values(|p: (A, B, C, D)| p.2));
                one_asks(start.2, all.map_values(|p: (A, B, C, D)| p.2), i, held.2);
                assert(all.map_values(|p: (A, B, C, D)| p.3).take(i)
                    =~= taken.map_values(|p: (A, B, C, D)| p.3));
                one_asks(start.3, all.map_values(|p: (A, B, C, D)| p.3), i, held.3);
            }
            extend_one(&mut self.0, item.0)?;
            extend_one(&mut self.1, item.1)?;
            extend_one(&mut self.2, item.2)?;
            extend_one(&mut self.3, item.3)?;
            proof {
                one_more(
                    start.0,
                    taken.map_values(|p: (A, B, C, D)| p.0),
                    held.0,
                    all[i].0,
                    self.0,
                );
                assert(more.map_values(|p: (A, B, C, D)| p.0) =~=
                    taken.map_values(|p: (A, B, C, D)| p.0).push(all[i].0));
                one_more(
                    start.1,
                    taken.map_values(|p: (A, B, C, D)| p.1),
                    held.1,
                    all[i].1,
                    self.1,
                );
                assert(more.map_values(|p: (A, B, C, D)| p.1) =~=
                    taken.map_values(|p: (A, B, C, D)| p.1).push(all[i].1));
                one_more(
                    start.2,
                    taken.map_values(|p: (A, B, C, D)| p.2),
                    held.2,
                    all[i].2,
                    self.2,
                );
                assert(more.map_values(|p: (A, B, C, D)| p.2) =~=
                    taken.map_values(|p: (A, B, C, D)| p.2).push(all[i].2));
                one_more(
                    start.3,
                    taken.map_values(|p: (A, B, C, D)| p.3),
                    held.3,
                    all[i].3,
                    self.3,
                );
                assert(more.map_values(|p: (A, B, C, D)| p.3) =~=
                    taken.map_values(|p: (A, B, C, D)| p.3).push(all[i].3));
            }
        }
        assert(all.take(all.len() as int) =~= all);
        assert(!Self::stops_extending(*old(self), items@));
        Ok(false)
    }
}

impl<
    A,
    B,
    C,
    D,
    E,
    FromA: TursoFromIterator<A>,
    FromB: TursoFromIterator<B>,
    FromC: TursoFromIterator<C>,
    FromD: TursoFromIterator<D>,
    FromE: TursoFromIterator<E>,
> TursoFromIterator<(A, B, C, D, E)> for (FromA, FromB, FromC, FromD, FromE) {
    open spec fn collected(
        items: Seq<(A, B, C, D, E)>,
        r: (FromA, FromB, FromC, FromD, FromE),
    ) -> bool {
        &&& collected_one_by_one(items.map_values(|p: (A, B, C, D, E)| p.0), r.0)
        &&& collected_one_by_one(items.map_values(|p: (A, B, C, D, E)| p.1), r.1)
        &&& collected_one_by_one(items.map_values(|p: (A, B, C, D, E)| p.2), r.2)
        &&& collected_one_by_one(items.map_values(|p: (A, B, C, D, E)| p.3), r.3)
        &&& collected_one_by_one(items.map_values(|p: (A, B, C, D, E)| p.4), r.4)
    }

    open spec fn extended(
        before: (FromA, FromB, FromC, FromD, FromE),
        items: Seq<(A, B, C, D, E)>,
        after: (FromA, FromB, FromC, FromD, FromE),
    ) -> bool {
        &&& extended_one_by_one(before.0, items.map_values(|p: (A, B, C, D, E)| p.0), after.0)
        &&& extended_one_by_one(before.1, items.map_values(|p: (A, B, C, D, E)| p.1), after.1)
        &&& extended_one_by_one(before.2, items.map_values(|p: (A, B, C, D, E)| p.2), after.2)
        &&& extended_one_by_one(before.3, items.map_values(|p: (A, B, C, D, E)| p.3), after.3)
        &&& extended_one_by_one(before.4, items.map_values(|p: (A, B, C, D, E)| p.4), after.4)
    }

    open spec fn stops(items: Seq<(A, B, C, D, E)>) -> bool {
        false
    }

    open spec fn stops_extending(
        before: (FromA, FromB, FromC, FromD, FromE),
        items: Seq<(A, B, C, D, E)>,
    ) -> bool {
        false
    }

    open spec fn free_to_collect(items: Seq<(A, B, C, D, E)>) -> bool {
        &&& free_from_nothing::<A, FromA>(items.map_values(|p: (A, B, C, D, E)| p.0))
        &&& free_from_nothing::<B, FromB>(items.map_values(|p: (A, B, C, D, E)| p.1))
        &&& free_from_nothing::<C, FromC>(items.map_values(|p: (A, B, C, D, E)| p.2))
        &&& free_from_nothing::<D, FromD>(items.map_values(|p: (A, B, C, D, E)| p.3))
        &&& free_from_nothing::<E, FromE>(items.map_values(|p: (A, B, C, D, E)| p.4))
    }

    open spec fn free_to_extend(
        before: (FromA, FromB, FromC, FromD, FromE),
        items: Seq<(A, B, C, D, E)>,
    ) -> bool {
        &&& free_one_by_one(before.0, items.map_values(|p: (A, B, C, D, E)| p.0))
        &&& free_one_by_one(before.1, items.map_values(|p: (A, B, C, D, E)| p.1))
        &&& free_one_by_one(before.2, items.map_values(|p: (A, B, C, D, E)| p.2))
        &&& free_one_by_one(before.3, items.map_values(|p: (A, B, C, D, E)| p.3))
        &&& free_one_by_one(before.4, items.map_values(|p: (A, B, C, D, E)| p.4))
    }

    proof fn collecting_reads_no_further(
        items: Seq<(A, B, C, D, E)>,
        more: Seq<(A, B, C, D, E)>,
        r: (FromA, FromB, FromC, FromD, FromE),
    ) {
    }

    proof fn extending_reads_no_further(
        before: (FromA, FromB, FromC, FromD, FromE),
        items: Seq<(A, B, C, D, E)>,
        more: Seq<(A, B, C, D, E)>,
        after: (FromA, FromB, FromC, FromD, FromE),
    ) {
    }

    fn collect_and_report(
        items: Vec<(A, B, C, D, E)>,
    ) -> (r: Result<((FromA, FromB, FromC, FromD, FromE), bool), TryReserveError>) {
        let empty_a = FromA::try_from_iter(Vec::new())?;
        let empty_b = FromB::try_from_iter(Vec::new())?;
        let empty_c = FromC::try_from_iter(Vec::new())?;
        let empty_d = FromD::try_from_iter(Vec::new())?;
        let empty_e = FromE::try_from_iter(Vec::new())?;
        let mut values = (empty_a, empty_b, empty_c, empty_d, empty_e);
        values.try_extend(items)?;
        assert(!Self::stops(items@));
        Ok((values, false))
    }

    fn extend_and_report(
        &mut self,
        items: Vec<(A, B, C, D, E)>,
    ) -> (r: Result<bool, TryReserveError>) {
        let ghost start = *self;
        let ghost all = items@;
        proof {
            assert(all.take(0).map_values(|p: (A, B, C, D, E)| p.0) =~= Seq::empty());
            assert(all.take(0).map_values(|p: (A, B, C, D, E)| p.1) =~= Seq::empty());
            assert(all.take(0).map_values(|p: (A, B, C, D, E)| p.2) =~= Seq::empty());
            assert(all.take(0).map_values(|p: (A, B, C, D, E)| p.3) =~= Seq::empty());
            assert(all.take(0).map_values(|p: (A, B, C, D, E)| p.4) =~= Seq::empty());
        }
        for item in it: items.into_iter()
            invariant
                it.seq() == all,
                all == items@,
                start == *old(self),
                extended_one_by_one(
                    start.0,
                    all.take(it.index() as int).map_values(|p: (A, B, C, D, E)| p.0),
                    self.0,
                ),
                extended_one_by_one(
                    start.1,
                    all.take(it.index() as int).map_values(|p: (A, B, C, D, E)| p.1),
                    self.1,
                ),
                extended_one_by_one(
                    start.2,
                    all.take(it.index() as int).map_values(|p: (A, B, C, D, E)| p.2),
                    self.2,
                ),
                extended_one_by_one(
                    start.3,
                    all.take(it.index() as int).map_values(|p: (A, B, C, D, E)| p.3),
                    self.3,
                ),
                extended_one_by_one(
                    start.4,
                    all.take(it.index() as int).map_values(|p: (A, B, C, D, E)| p.4),
                    self.4,
                ),
        {
            let ghost i = it.index() as int;
            let ghost held = *self;
            let ghost taken = all.take(i);
            let ghost more = all.take(i + 1);
            proof {
                assert(all.map_values(|p: (A, B, C, D, E)| p.0).take(i)
                    =~= taken.map_values(|p: (A, B, C, D, E)| p.0));
                one_asks(start.0, all.map_values(|p: (A, B, C, D, E)| p.0), i, held.0);
                assert(all.map_values(|p: (A, B, C, D, E)| p.1).take(i)
                    =~= taken.map_values(|p: (A, B, C, D, E)| p.1));
                one_asks(start.1, all.map_values(|p: (A, B, C, D, E)| p.1), i, held.1);
                assert(all.map_values(|p: (A, B, C, D, E)| p.2).take(i)
                    =~= taken.map_values(|p: (A, B, C, D, E)| p.2));
                one_asks(start.2, all.map_values(|p: (A, B, C, D, E)| p.2), i, held.2);
                assert(all.map_values(|p: (A, B, C, D, E)| p.3).take(i)
                    =~= taken.map_values(|p: (A, B, C, D, E)| p.3));
                one_asks(start.3, all.map_values(|p: (A, B, C, D, E)| p.3), i, held.3);
                assert(all.map_values(|p: (A, B, C, D, E)| p.4).take(i)
                    =~= taken.map_values(|p: (A, B, C, D, E)| p.4));
                one_asks(start.4, all.map_values(|p: (A, B, C, D, E)| p.4), i, held.4);
            }
            extend_one(&mut self.0, item.0)?;
            extend_one(&mut self.1, item.1)?;
            extend_one(&mut self.2, item.2)?;
            extend_one(&mut self.3, item.3)?;
            extend_one(&mut self.4, item.4)?;
            proof {
                one_more(
                    start.0,
                    taken.map_values(|p: (A, B, C, D, E)| p.0),
                    held.0,
                    all[i].0,
                    self.0,
                );
                assert(more.map_values(|p: (A, B, C, D, E)| p.0) =~=
                    taken.map_values(|p: (A, B, C, D, E)| p.0).push(all[i].0));
                one_more(
                    start.1,
                    taken.map_values(|p: (A, B, C, D, E)| p.1),
                    held.1,
                    all[i].1,
                    self.1,
                );
                assert(more.map_values(|p: (A, B, C, D, E)| p.1) =~=
                    taken.map_values(|p: (A, B, C, D, E)| p.1).push(all[i].1));
                one_more(
                    start.2,
                    taken.map_values(|p: (A, B, C, D, E)| p.2),
                    held.2,
                    all[i].2,
                    self.2,
                );
                assert(more.map_values(|p: (A, B, C, D, E)| p.2) =~=
                    taken.map_values(|p: (A, B, C, D, E)| p.2).push(all[i].2));
                one_more(
                    start.3,
                    taken.map_values(|p: (A, B, C, D, E)| p.3),
                    held.3,
                    all[i].3,
                    self.3,
                );
                assert(more.map_values(|p: (A, B, C, D, E)| p.3) =~=
                    taken.map_values(|p: (A, B, C, D, E)| p.3).push(all[i].3));
                one_more(
                    start.4,
                    taken.map_values(|p: (A, B, C, D, E)| p.4),
                    held.4,
                    all[i].4,
                    self.4,
                );
                assert(more.map_values(|p: (A, B, C, D, E)| p.4) =~=
                    taken.map_values(|p: (A, B, C, D, E)| p.4).push(all[i].4));
            }
        }
        assert(all.take(all.len() as int) =~= all);
        assert(!Self::stops_extending(*old(self), items@));
        Ok(false)
    }
}

impl<
    A,
    B,
    C,
    D,
    E,
    F,
    FromA: TursoFromIterator<A>,
    FromB: TursoFromIterator<B>,
    FromC: TursoFromIterator<C>,
    FromD: TursoFromIterator<D>,
    FromE: TursoFromIterator<E>,
    FromF: TursoFromIterator<F>,
> TursoFromIterator<(A, B, C, D, E, F)> for (FromA, FromB, FromC, FromD, FromE, FromF) {
    open spec fn collected(
        items: Seq<(A, B, C, D, E, F)>,
        r: (FromA, FromB, FromC, FromD, FromE, FromF),
    ) -> bool {
        &&& collected_one_by_one(items.map_values(|p: (A, B, C, D, E, F)| p.0), r.0)
        &&& collected_one_by_one(items.map_values(|p: (A, B, C, D, E, F)| p.1), r.1)
        &&& collected_one_by_one(items.map_values(|p: (A, B, C, D, E, F)| p.2), r.2)
        &&& collected_one_by_one(items.map_values(|p: (A, B, C, D, E, F)| p.3), r.3)
        &&& collected_one_by_one(items.map_values(|p: (A, B, C, D, E, F)| p.4), r.4)
        &&& collected_one_by_one(items.map_values(|p: (A, B, C, D, E, F)| p.5), r.5)
    }

    open spec fn extended(
        before: (FromA, FromB, FromC, FromD, FromE, FromF),
        items: Seq<(A, B, C, D, E, F)>,
        after: (FromA, FromB, FromC, FromD, FromE, FromF),
    ) -> bool {
        &&& extended_one_by_one(before.0, items.map_values(|p: (A, B, C, D, E, F)| p.0), after.0)
        &&& extended_one_by_one(before.1, items.map_values(|p: (A, B, C, D, E, F)| p.1), after.1)
        &&& extended_one_by_one(before.2, items.map_values(|p: (A, B, C, D, E, F)| p.2), after.2)
        &&& extended_one_by_one(before.3, items.map_values(|p: (A, B, C, D, E, F)| p.3), after.3)
        &&& extended_one_by_one(before.4, items.map_values(|p: (A, B, C, D, E, F)| p.4), after.4)
        &&& extended_one_by_one(before.5, items.map_values(|p: (A, B, C, D, E, F)| p.5), after.5)
    }

    open spec fn stops(items: Seq<(A, B, C, D, E, F)>) -> bool {
        false
    }

    open spec fn stops_extending(
        before: (FromA, FromB, FromC, FromD, FromE, FromF),
        items: Seq<(A, B, C, D, E, F)>,
    ) -> bool {
        false
    }

    open spec fn free_to_collect(items: Seq<(A, B, C, D, E, F)>) -> bool {
        &&& free_from_nothing::<A, FromA>(items.map_values(|p: (A, B, C, D, E, F)| p.0))
        &&& free_from_nothing::<B, FromB>(items.map_values(|p: (A, B, C, D, E, F)| p.1))
        &&& free_from_nothing::<C, FromC>(items.map_values(|p: (A, B, C, D, E, F)| p.2))
        &&& free_from_nothing::<D, FromD>(items.map_values(|p: (A, B, C, D, E, F)| p.3))
        &&& free_from_nothing::<E, FromE>(items.map_values(|p: (A, B, C, D, E, F)| p.4))
        &&& free_from_nothing::<F, FromF>(items.map_values(|p: (A, B, C, D, E, F)| p.5))
    }

    open spec fn free_to_extend(
        before: (FromA, FromB, FromC, FromD, FromE, FromF),
        items: Seq<(A, B, C, D, E, F)>,
    ) -> bool {
        &&& free_one_by_one(before.0, items.map_values(|p: (A, B, C, D, E, F)| p.0))
        &&& free_one_by_one(before.1, items.map_values(|p: (A, B, C, D, E, F)| p.1))
        &&& free_one_by_one(before.2, items.map_values(|p: (A, B, C, D, E, F)| p.2))
        &&& free_one_by_one(before.3, items.map_values(|p: (A, B, C, D, E, F)| p.3))
        &&& free_one_by_one(before.4, items.map_values(|p: (A, B, C, D, E, F)| p.4))
        &&& free_one_by_one(before.5, items.map_values(|p: (A, B, C, D, E, F)| p.5))
    }

    proof fn collecting_reads_no_further(
        items: Seq<(A, B, C, D, E, F)>,
        more: Seq<(A, B, C, D, E, F)>,
        r: (FromA, FromB, FromC, FromD, FromE, FromF),
    ) {
    }

    proof fn extending_reads_no_further(
        before: (FromA, FromB, FromC, FromD, FromE, FromF),
        items: Seq<(A, B, C, D, E, F)>,
        more: Seq<(A, B, C, D, E, F)>,
        after: (FromA, FromB, FromC, FromD, FromE, FromF),
    ) {
    }

    fn collect_and_report(
        items: Vec<(A, B, C, D, E, F)>,
    ) -> (r: Result<((FromA, FromB, FromC, FromD, FromE, FromF), bool), TryReserveError>) {
        let empty_a = FromA::try_from_iter(Vec::new())?;
        let empty_b = FromB::try_from_iter(Vec::new())?;
        let empty_c = FromC::try_from_iter(Vec::new())?;
        let empty_d = FromD::try_from_iter(Vec::new())?;
        let empty_e = FromE::try_from_iter(Vec::new())?;
        let empty_f = FromF::try_from_iter(Vec::new())?;
        let mut values = (empty_a, empty_b, empty_c, empty_d, empty_e, empty_f);
        values.try_extend(items)?;
        assert(!Self::stops(items@));
        Ok((values, false))
    }

    fn extend_and_report(
        &mut self,
        items: Vec<(A, B, C, D, E, F)>,
    ) -> (r: Result<bool, TryReserveError>) {
        let ghost start = *self;
        let ghost all = items@;
        proof {
            assert(all.take(0).map_values(|p: (A, B, C, D, E, F)| p.0) =~= Seq::empty());
            assert(all.take(0).map_values(|p: (A, B, C, D, E, F)| p.1) =~= Seq::empty());
            assert(all.take(0).map_values(|p: (A, B, C, D, E, F)| p.2) =~= Seq::empty());
            assert(all.take(0).map_values(|p: (A, B, C, D, E, F)| p.3) =~= Seq::empty());
            assert(all.take(0).map_values(|p: (A, B, C, D, E, F)| p.4) =~= Seq::empty());
            assert(all.take(0).map_values(|p: (A, B, C, D, E, F)| p.5) =~= Seq::empty());
        }
        for item in it: items.into_iter()
            invariant
                it.seq() == all,
                all == items@,
                start == *old(self),
                extended_one_by_one(
                    start.0,
                    all.take(it.index() as int).map_values(|p: (A, B, C, D, E, F)| p.0),
                    self.0,
                ),
                extended_one_by_one(
                    start.1,
                    all.take(it.index() as int).map_values(|p: (A, B, C, D, E, F)| p.1),
                    self.1,
                ),
                extended_one_by_one(
                    start.2,
                    all.take(it.index() as int).map_values(|p: (A, B, C, D, E, F)| p.2),
                    self.2,
                ),
                extended_one_by_one(
                    start.3,
                    all.take(it.index() as int).map_values(|p: (A, B, C, D, E, F)| p.3),
                    self.3,
                ),
                extended_one_by_one(
                    start.4,
                    all.take(it.index() as int).map_values(|p: (A, B, C, D, E, F)| p.4),
                    self.4,
                ),
                extended_one_by_one(
                    start.5,
                    all.take(it.index() as int).map_values(|p: (A, B, C, D, E, F)| p.5),
                    self.5,
                ),
        {
            let ghost i = it.index() as int;
            let ghost held = *self;
            let ghost taken = all.take(i);
            let ghost more = all.take(i + 1);
            proof {
                assert(all.map_values(|p: (A, B, C, D, E, F)| p.0).take(i)
                    =~= taken.map_values(|p: (A, B, C, D, E, F)| p.0));
                one_asks(start.0, all.map_values(|p: (A, B, C, D, E, F)| p.0), i, held.0);
                assert(all.map_values(|p: (A, B, C, D, E, F)| p.1).take(i)
                    =~= taken.map_values(|p: (A, B, C, D, E, F)| p.1));
                one_asks(start.1, all.map_values(|p: (A, B, C, D, E, F)| p.1), i, held.1);
                assert(all.map_values(|p: (A, B, C, D, E, F)| p.2).take(i)
                    =~= taken.map_values(|p: (A, B, C, D, E, F)| p.2));
                one_asks(start.2, all.map_values(|p: (A, B, C, D, E, F)| p.2), i, held.2);
                assert(all.map_values(|p: (A, B, C, D, E, F)| p.3).take(i)
                    =~= taken.map_values(|p: (A, B, C, D, E, F)| p.3));
                one_asks(start.3, all.map_values(|p: (A, B, C, D, E, F)| p.3), i, held.3);
                assert(all.map_values(|p: (A, B, C, D, E, F)| p.4).take(i)
                    =~= taken.map_values(|p: (A, B, C, D, E, F)| p.4));
                one_asks(start.4, all.map_values(|p: (A, B, C, D, E, F)| p.4), i, held.4);
                assert(all.map_values(|p: (A, B, C, D, E, F)| p.5).take(i)
                    =~= taken.map_values(|p: (A, B, C, D, E, F)| p.5));
                one_asks(start.5, all.map_values(|p: (A, B, C, D, E, F)| p.5), i, held.5);
            }
            extend_one(&mut self.0, item.0)?;
            extend_one(&mut self.1, item.1)?;
            extend_one(&mut self.2, item.2)?;
            extend_one(&mut self.3, item.3)?;
            extend_one(&mut self.4, item.4)?;
            extend_one(&mut self.5, item.5)?;
            proof {
                one_more(
                    start.0,
                    taken.map_values(|p: (A, B, C, D, E, F)| p.0),
                    held.0,
                    all[i].0,
                    self.0,
                );
                assert(more.map_values(|p: (A, B, C, D, E, F)| p.0) =~=
                    taken.map_values(|p: (A, B, C, D, E, F)| p.0).push(all[i].0));
                one_more(
                    start.1,
                    taken.map_values(|p: (A, B, C, D, E, F)| p.1),
                    held.1,
                    all[i].1,
                    self.1,
                );
                assert(more.map_values(|p: (A, B, C, D, E, F)| p.1) =~=
                    taken.map_values(|p: (A, B, C, D, E, F)| p.1).push(all[i].1));
                one_more(
                    start.2,
                    taken.map_values(|p: (A, B, C, D, E, F)| p.2),
                    held.2,
                    all[i].2,
                    self.2,
                );
                assert(more.map_values(|p: (A, B, C, D, E, F)| p.2) =~=
                    taken.map_values(|p: (A, B, C, D, E, F)| p.2).push(all[i].2));
                one_more(
                    start.3,
                    taken.map_values(|p: (A, B, C, D, E, F)| p.3),
                    held.3,
                    all[i].3,
                    self.3,
                );
                assert(more.map_values(|p: (A, B, C, D, E, F)| p.3) =~=
                    taken.map_values(|p: (A, B, C, D, E, F)| p.3).push(all[i].3));
                one_more(
                    start.4,
                    taken.map_values(|p: (A, B, C, D, E, F)| p.4),
                    held.4,
                    all[i].4,
                    self.4,
                );
                assert(more.map_values(|p: (A, B, C, D, E, F)| p.4) =~=
                    taken.map_values(|p: (A, B, C, D, E, F)| p.4).push(all[i].4));
                one_more(
                    start.5,
                    taken.map_values(|p: (A, B, C, D, E, F)| p.5),
                    held.5,
                    all[i].5,
                    self.5,
                );
                assert(more.map_values(|p: (A, B, C, D, E, F)| p.5) =~=
                    taken.map_values(|p: (A, B, C, D, E, F)| p.5).push(all[i].5));
            }
        }
        assert(all.take(all.len() as int) =~= all);
        assert(!Self::stops_extending(*old(self), items@));
        Ok(false)
    }
}

impl<
    A,
    B,
    C,
    D,
    E,
    F,
    G,
    FromA: TursoFromIterator<A>,
    FromB: TursoFromIterator<B>,
    FromC: TursoFromIterator<C>,
    FromD: TursoFromIterator<D>,
    FromE: TursoFromIterator<E>,
    FromF: TursoFromIterator<F>,
    FromG: TursoFromIterator<G>,
> TursoFromIterator<(A, B, C, D, E, F, G)> for (FromA, FromB, FromC, FromD, FromE, FromF, FromG) {
    open spec fn collected(
        items: Seq<(A, B, C, D, E, F, G)>,
        r: (FromA, FromB, FromC, FromD, FromE, FromF, FromG),
    ) -> bool {
        &&& collected_one_by_one(items.map_values(|p: (A, B, C, D, E, F, G)| p.0), r.0)
        &&& collected_one_by_one(items.map_values(|p: (A, B, C, D, E, F, G)| p.1), r.1)
        &&& collected_one_by_one(items.map_values(|p: (A, B, C, D, E, F, G)| p.2), r.2)
        &&& collected_one_by_one(items.map_values(|p: (A, B, C, D, E, F, G)| p.3), r.3)
        &&& collected_one_by_one(items.map_values(|p: (A, B, C, D, E, F, G)| p.4), r.4)
        &&& collected_one_by_one(items.map_values(|p: (A, B, C, D, E, F, G)| p.5), r.5)
        &&& collected_one_by_one(items.map_values(|p: (A, B, C, D, E, F, G)| p.6), r.6)
    }

    open spec fn extended(
        before: (FromA, FromB, FromC, FromD, FromE, FromF, FromG),
        items: Seq<(A, B, C, D, E, F, G)>,
        after: (FromA, FromB, FromC, FromD, FromE, FromF, FromG),
    ) -> bool {
        &&& extended_one_by_one(before.0, items.map_values(|p: (A, B, C, D, E, F, G)| p.0), after.0)
        &&& extended_one_by_one(before.1, items.map_values(|p: (A, B, C, D, E, F, G)| p.1), after.1)
        &&& extended_one_by_one(before.2, items.map_values(|p: (A, B, C, D, E, F, G)| p.2), after.2)
        &&& extended_one_by_one(before.3, items.map_values(|p: (A, B, C, D, E, F, G)| p.3), after.3)
        &&& extended_one_by_one(before.4, items.map_values(|p: (A, B, C, D, E, F, G)| p.4), after.4)
        &&& extended_one_by_one(before.5, items.map_values(|p: (A, B, C, D, E, F, G)| p.5), after.5)
        &&& extended_one_by_one(before.6, items.map_values(|p: (A, B, C, D, E, F, G)| p.6), after.6)
    }

    open spec fn stops(items: Seq<(A, B, C, D, E, F, G)>) -> bool {
        false
    }

    open spec fn stops_extending(
        before: (FromA, FromB, FromC, FromD, FromE, FromF, FromG),
        items: Seq<(A, B, C, D, E, F, G)>,
    ) -> bool {
        false
    }

    open spec fn free_to_collect(items: Seq<(A, B, C, D, E, F, G)>) -> bool {
        &&& free_from_nothing::<A, FromA>(items.map_values(|p: (A, B, C, D, E, F, G)| p.0))
        &&& free_from_nothing::<B, FromB>(items.map_values(|p: (A, B, C, D, E, F, G)| p.1))
        &&& free_from_nothing::<C, FromC>(items.map_values(|p: (A, B, C, D, E, F, G)| p.2))
        &&& free_from_nothing::<D, FromD>(items.map_values(|p: (A, B, C, D, E, F, G)| p.3))
        &&& free_from_nothing::<E, FromE>(items.map_values(|p: (A, B, C, D, E, F, G)| p.4))
        &&& free_from_nothing::<F, FromF>(items.map_values(|p: (A, B, C, D, E, F, G)| p.5))
        &&& free_from_nothing::<G, FromG>(items.map_values(|p: (A, B, C, D, E, F, G)| p.6))
    }

    open spec fn free_to_extend(
        before: (FromA, FromB, FromC, FromD, FromE, FromF, FromG),
        items: Seq<(A, B, C, D, E, F, G)>,
    ) -> bool {
        &&& free_one_by_one(before.0, items.map_values(|p: (A, B, C, D, E, F, G)| p.0))
        &&& free_one_by_one(before.1, items.map_values(|p: (A, B, C, D, E, F, G)| p.1))
        &&& free_one_by_one(before.2, items.map_values(|p: (A, B, C, D, E, F, G)| p.2))
        &&& free_one_by_one(before.3, items.map_values(|p: (A, B, C, D, E, F, G)| p.3))
        &&& free_one_by_one(before.4, items.map_values(|p: (A, B, C, D, E, F, G)| p.4))
        &&& free_one_by_one(before.5, items.map_values(|p: (A, B, C, D, E, F, G)| p.5))
        &&& free_one_by_one(before.6, items.map_values(|p: (A, B, C, D, E, F, G)| p.6))
    }

    proof fn collecting_reads_no_further(
        items: Seq<(A, B, C, D, E, F, G)>,
        more: Seq<(A, B, C, D, E, F, G)>,
        r: (FromA, FromB, FromC, FromD, FromE, FromF, FromG),
    ) {
    }

    proof fn extending_reads_no_further(
        before: (FromA, FromB, FromC, FromD, FromE, FromF, FromG),
        items: Seq<(A, B, C, D, E, F, G)>,
        more: Seq<(A, B, C, D, E, F, G)>,
        after: (FromA, FromB, FromC, FromD, FromE, FromF, FromG),
    ) {
    }

    fn collect_and_report(
        items: Vec<(A, B, C, D, E, F, G)>,
    ) -> (r: Result<((FromA, FromB, FromC, FromD, FromE, FromF, FromG), bool), TryReserveError>) {
        let empty_a = FromA::try_from_iter(Vec::new())?;
        let empty_b = FromB::try_from_iter(Vec::new())?;
        let empty_c = FromC::try_from_iter(Vec::new())?;
        let empty_d = FromD::try_from_iter(Vec::new())?;
        let empty_e = FromE::try_from_iter(Vec::new())?;
        let empty_f = FromF::try_from_iter(Vec::new())?;
        let empty_g = FromG::try_from_iter(Vec::new())?;
        let mut values = (empty_a, empty_b, empty_c, empty_d, empty_e, empty_f, empty_g);
        values.try_extend(items)?;
        assert(!Self::stops(items@));
        Ok((values, false))
    }

    fn extend_and_report(
        &mut self,
        items: Vec<(A, B, C, D, E, F, G)>,
    ) -> (r: Result<bool, TryReserveError>) {
        let ghost start = *self;
        let ghost all = items@;
        proof {
            assert(all.take(0).map_values(|p: (A, B, C, D, E, F, G)| p.0) =~= Seq::empty());
            assert(all.take(0).map_values(|p: (A, B, C, D, E, F, G)| p.1) =~= Seq::empty());
            assert(all.take(0).map_values(|p: (A, B, C, D, E, F, G)| p.2) =~= Seq::empty());
            assert(all.take(0).map_values(|p: (A, B, C, D, E, F, G)| p.3) =~= Seq::empty());
            assert(all.take(0).map_values(|p: (A, B, C, D, E, F, G)| p.4) =~= Seq::empty());
            assert(all.take(0).map_values(|p: (A, B, C, D, E, F, G)| p.5) =~= Seq::empty());
            assert(all.take(0).map_values(|p: (A, B, C, D, E, F, G)| p.6) =~= Seq::empty());
        }
        for item in it: items.into_iter()
            invariant
                it.seq() == all,
                all == items@,
                start == *old(self),
                extended_one_by_one(
                    start.0,
                    all.take(it.index() as int).map_values(|p: (A, B, C, D, E, F, G)| p.0),
                    self.0,
                ),
                extended_one_by_one(
                    start.1,
                    all.take(it.index() as int).map_values(|p: (A, B, C, D, E, F, G)| p.1),
                    self.1,
                ),
                extended_one_by_one(
                    start.2,
                    all.take(it.index() as int).map_values(|p: (A, B, C, D, E, F, G)| p.2),
                    self.2,
                ),
                extended_one_by_one(
                    start.3,
                    all.take(it.index() as int).map_values(|p: (A, B, C, D, E, F, G)| p.3),
                    self.3,
                ),
                extended_one_by_one(
                    start.4,
                    all.take(it.index() as int).map_values(|p: (A, B, C, D, E, F, G)| p.4),
                    self.4,
                ),
                extended_one_by_one(
                    start.5,
                    all.take(it.index() as int).map_values(|p: (A, B, C, D, E, F, G)| p.5),
                    self.5,
                ),
                extended_one_by_one(
                    start.6,
                    all.take(it.index() as int).map_values(|p: (A, B, C, D, E, F, G)| p.6),
                    self.6,
                ),
        {
            let ghost i = it.index() as int;
            let ghost held = *self;
            let ghost taken = all.take(i);
            let ghost more = all.take(i + 1);
            proof {
                assert(all.map_values(|p: (A, B, C, D, E, F, G)| p.0).take(i)
                    =~= taken.map_values(|p: (A, B, C, D, E, F, G)| p.0));
                one_asks(start.0, all.map_values(|p: (A, B, C, D, E, F, G)| p.0), i, held.0);
                assert(all.map_values(|p: (A, B, C, D, E, F, G)| p.1).take(i)
                    =~= taken.map_values(|p: (A, B, C, D, E, F, G)| p.1));
                one_asks(start.1, all.map_values(|p: (A, B, C, D, E, F, G)| p.1), i, held.1);
                assert(all.map_values(|p: (A, B, C, D, E, F, G)| p.2).take(i)
                    =~= taken.map_values(|p: (A, B, C, D, E, F, G)| p.2));
                one_asks(start.2, all.map_values(|p: (A, B, C, D, E, F, G)| p.2), i, held.2);
                assert(all.map_values(|p: (A, B, C, D, E, F, G)| p.3).take(i)
                    =~= taken.map_values(|p: (A, B, C, D, E, F, G)| p.3));
                one_asks(start.3, all.map_values(|p: (A, B, C, D, E, F, G)| p.3), i, held.3);
                assert(all.map_values(|p: (A, B, C, D, E, F, G)| p.4).take(i)
                    =~= taken.map_values(|p: (A, B, C, D, E, F, G)| p.4));
                one_asks(start.4, all.map_values(|p: (A, B, C, D, E, F, G)| p.4), i, held.4);
                assert(all.map_values(|p: (A, B, C, D, E, F, G)| p.5).take(i)
                    =~= taken.map_values(|p: (A, B, C, D, E, F, G)| p.5));
                one_asks(start.5, all.map_values(|p: (A, B, C, D, E, F, G)| p.5), i, held.5);
                assert(all.map_values(|p: (A, B, C, D, E, F, G)| p.6).take(i)
                    =~= taken.map_values(|p: (A, B, C, D, E, F, G)| p.6));
                one_asks(start.6, all.map_values(|p: (A, B, C, D, E, F, G)| p.6), i, held.6);
            }
            extend_one(&mut self.0, item.0)?;
            extend_one(&mut self.1, item.1)?;
            extend_one(&mut self.2, item.2)?;
            extend_one(&mut self.3, item.3)?;
            extend_one(&mut self.4, item.4)?;
            extend_one(&mut self.5, item.5)?;
            extend_one(&mut self.6, item.6)?;
            proof {
                one_more(
                    start.0,
                    taken.map_values(|p: (A, B, C, D, E, F, G)| p.0),
                    held.0,
                    all[i].0,
                    self.0,
                );
                assert(more.map_values(|p: (A, B, C, D, E, F, G)| p.0) =~=
                    taken.map_values(|p: (A, B, C, D, E, F, G)| p.0).push(all[i].0));
                one_more(
                    start.1,
                    taken.map_values(|p: (A, B, C, D, E, F, G)| p.1),
                    held.1,
                    all[i].1,
                    self.1,
                );
                assert(more.map_values(|p: (A, B, C, D, E, F, G)| p.1) =~=
                    taken.map_values(|p: (A, B, C, D, E, F, G)| p.1).push(all[i].1));
                one_more(
                    start.2,
                    taken.map_values(|p: (A, B, C, D, E, F, G)| p.2),
                    held.2,
                    all[i].2,
                    self.2,
                );
                assert(more.map_values(|p: (A, B, C, D, E, F, G)| p.2) =~=
                    taken.map_values(|p: (A, B, C, D, E, F, G)| p.2).push(all[i].2));
                one_more(
                    start.3,
                    taken.map_values(|p: (A, B, C, D, E, F, G)| p.3),
                    held.3,
                    all[i].3,
                    self.3,
                );
                assert(more.map_values(|p: (A, B, C, D, E, F, G)| p.3) =~=
                    taken.map_values(|p: (A, B, C, D, E, F, G)| p.3).push(all[i].3));
                one_more(
                    start.4,
                    taken.map_values(|p: (A, B, C, D, E, F, G)| p.4),
                    held.4,
                    all[i].4,
                    self.4,
                );
                assert(more.map_values(|p: (A, B, C, D, E, F, G)| p.4) =~=
                    taken.map_values(|p: (A, B, C, D, E, F, G)| p.4).push(all[i].4));
                one_more(
                    start.5,
                    taken.map_values(|p: (A, B, C, D, E, F, G)| p.5),
                    held.5,
                    all[i].5,
                    self.5,
                );
                assert(more.map_values(|p: (A, B, C, D, E, F, G)| p.5) =~=
                    taken.map_values(|p: (A, B, C, D, E, F, G)| p.5).push(all[i].5));
                one_more(
                    start.6,
                    taken.map_values(|p: (A, B, C, D, E, F, G)| p.6),
                    held.6,
                    all[i].6,
                    self.6,
                );
                assert(more.map_values(|p: (A, B, C, D, E, F, G)| p.6) =~=
                    taken.map_values(|p: (A, B, C, D, E, F, G)| p.6).push(all[i].6));
            }
        }
        assert(all.take(all.len() as int) =~= all);
        assert(!Self::stops_extending(*old(self), items@));
        Ok(false)
    }
}

impl<
    A,
    B,
    C,
    D,
    E,
    F,
    G,
    H,
    FromA: TursoFromIterator<A>,
    FromB: TursoFromIterator<B>,
    FromC: TursoFromIterator<C>,
    FromD: TursoFromIterator<D>,
    FromE: TursoFromIterator<E>,
    FromF: TursoFromIterator<F>,
    FromG: TursoFromIterator<G>,
    FromH: TursoFromIterator<H>,
> TursoFromIterator<(A, B, C, D, E, F, G, H)> for (FromA, FromB, FromC, FromD, FromE, FromF, FromG, FromH) {
    open spec fn collected(
        items: Seq<(A, B, C, D, E, F, G, H)>,
        r: (FromA, FromB, FromC, FromD, FromE, FromF, FromG, FromH),
    ) -> bool {
        &&& collected_one_by_one(items.map_values(|p: (A, B, C, D, E, F, G, H)| p.0), r.0)
        &&& collected_one_by_one(items.map_values(|p: (A, B, C, D, E, F, G, H)| p.1), r.1)
        &&& collected_one_by_one(items.map_values(|p: (A, B, C, D, E, F, G, H)| p.2), r.2)
        &&& collected_one_by_one(items.map_values(|p: (A, B, C, D, E, F, G, H)| p.3), r.3)
        &&& collected_one_by_one(items.map_values(|p: (A, B, C, D, E, F, G, H)| p.4), r.4)
        &&& collected_one_by_one(items.map_values(|p: (A, B, C, D, E, F, G, H)| p.5), r.5)
        &&& collected_one_by_one(items.map_values(|p: (A, B, C, D, E, F, G, H)| p.6), r.6)
        &&& collected_one_by_one(items.map_values(|p: (A, B, C, D, E, F, G, H)| p.7), r.7)
    }

    open spec fn extended(
        before: (FromA, FromB, FromC, FromD, FromE, FromF, FromG, FromH),
        items: Seq<(A, B, C, D, E, F, G, H)>,
        after: (FromA, FromB, FromC, FromD, FromE, FromF, FromG, FromH),
    ) -> bool {
        &&& extended_one_by_one(
            before.0,
            items.map_values(|p: (A, B, C, D, E, F, G, H)| p.0),
            after.0,
        )
        &&& extended_one_by_one(
            before.1,
            items.map_values(|p: (A, B, C, D, E, F, G, H)| p.1),
            after.1,
        )
        &&& extended_one_by_one(
            before.2,
            items.map_values(|p: (A, B, C, D, E, F, G, H)| p.2),
            after.2,
        )
        &&& extended_one_by_one(
            before.3,
            items.map_values(|p: (A, B, C, D, E, F, G, H)| p.3),
            after.3,
        )
        &&& extended_one_by_one(
            before.4,
            items.map_values(|p: (A, B, C, D, E, F, G, H)| p.4),
            after.4,
        )
        &&& extended_one_by_one(
            before.5,
            items.map_values(|p: (A, B, C, D, E, F, G, H)| p.5),
            after.5,
        )
        &&& extended_one_by_one(
            before.6,
            items.map_values(|p: (A, B, C, D, E, F, G, H)| p.6),
            after.6,
        )
        &&& extended_one_by_one(
            before.7,
            items.map_values(|p: (A, B, C, D, E, F, G, H)| p.7),
            after.7,
        )
    }

    open spec fn stops(items: Seq<(A, B, C, D, E, F, G, H)>) -> bool {
        false
    }

    open spec fn stops_extending(
        before: (FromA, FromB, FromC, FromD, FromE, FromF, FromG, FromH),
        items: Seq<(A, B, C, D, E, F, G, H)>,
    ) -> bool {
        false
    }

    open spec fn free_to_collect(items: Seq<(A, B, C, D, E, F, G, H)>) -> bool {
        &&& free_from_nothing::<A, FromA>(items.map_values(|p: (A, B, C, D, E, F, G, H)| p.0))
        &&& free_from_nothing::<B, FromB>(items.map_values(|p: (A, B, C, D, E, F, G, H)| p.1))
        &&& free_from_nothing::<C, FromC>(items.map_values(|p: (A, B, C, D, E, F, G, H)| p.2))
        &&& free_from_nothing::<D, FromD>(items.map_values(|p: (A, B, C, D, E, F, G, H)| p.3))
        &&& free_from_nothing::<E, FromE>(items.map_values(|p: (A, B, C, D, E, F, G, H)| p.4))
        &&& free_from_nothing::<F, FromF>(items.map_values(|p: (A, B, C, D, E, F, G, H)| p.5))
        &&& free_from_nothing::<G, FromG>(items.map_values(|p: (A, B, C, D, E, F, G, H)| p.6))
        &&& free_from_nothing::<H, FromH>(items.map_values(|p: (A, B, C, D, E, F, G, H)| p.7))
    }

    open spec fn free_to_extend(
        before: (FromA, FromB, FromC, FromD, FromE, FromF, FromG, FromH),
        items: Seq<(A, B, C, D, E, F, G, H)>,
    ) -> bool {
        &&& free_one_by_one(before.0, items.map_values(|p: (A, B, C, D, E, F, G, H)| p.0))
        &&& free_one_by_one(before.1, items.map_values(|p: (A, B, C, D, E, F, G, H)| p.1))
        &&& free_one_by_one(before.2, items.map_values(|p: (A, B, C, D, E, F, G, H)| p.2))
        &&& free_one_by_one(before.3, items.map_values(|p: (A, B, C, D, E, F, G, H)| p.3))
        &&& free_one_by_one(before.4, items.map_values(|p: (A, B, C, D, E, F, G, H)| p.4))
        &&& free_one_by_one(before.5, items.map_values(|p: (A, B, C, D, E, F, G, H)| p.5))
        &&& free_one_by_one(before.6, items.map_values(|p: (A, B, C, D, E, F, G, H)| p.6))
        &&& free_one_by_one(before.7, items.map_values(|p: (A, B, C, D, E, F, G, H)| p.7))
    }

    proof fn collecting_reads_no_further(
        items: Seq<(A, B, C, D, E, F, G, H)>,
        more: Seq<(A, B, C, D, E, F, G, H)>,
        r: (FromA, FromB, FromC, FromD, FromE, FromF, FromG, FromH),
    ) {
    }

    proof fn extending_reads_no_further(
        before: (FromA, FromB, FromC, FromD, FromE, FromF, FromG, FromH),
        items: Seq<(A, B, C, D, E, F, G, H)>,
        more: Seq<(A, B, C, D, E, F, G, H)>,
        after: (FromA, FromB, FromC, FromD, FromE, FromF, FromG, FromH),
    ) {
    }

    fn collect_and_report(
        items: Vec<(A, B, C, D, E, F, G, H)>,
    ) -> (r: Result<
        ((FromA, FromB, FromC, FromD, FromE, FromF, FromG, FromH), bool),
        TryReserveError,
    >) {
        let empty_a = FromA::try_from_iter(Vec::new())?;
        let empty_b = FromB::try_from_iter(Vec::new())?;
        let empty_c = FromC::try_from_iter(Vec::new())?;
        let empty_d = FromD::try_from_iter(Vec::new())?;
        let empty_e = FromE::try_from_iter(Vec::new())?;
        let empty_f = FromF::try_from_iter(Vec::new())?;
        let empty_g = FromG::try_from_iter(Vec::new())?;
        let empty_h = FromH::try_from_iter(Vec::new())?;
        let mut values = (empty_a, empty_b, empty_c, empty_d, empty_e, empty_f, empty_g, empty_h);
        values.try_extend(items)?;
        assert(!Self::stops(items@));
        Ok((values, false))
    }

    fn extend_and_report(
        &mut self,
        items: Vec<(A, B, C, D, E, F, G, H)>,
    ) -> (r: Result<bool, TryReserveError>) {
        let ghost start = *self;
        let ghost all = items@;
        proof {
            assert(all.take(0).map_values(|p: (A, B, C, D, E, F, G, H)| p.0) =~= Seq::empty());
            assert(all.take(0).map_values(|p: (A, B, C, D, E, F, G, H)| p.1) =~= Seq::empty());
            assert(all.take(0).map_values(|p: (A, B, C, D, E, F, G, H)| p.2) =~= Seq::empty());
            assert(all.take(0).map_values(|p: (A, B, C, D, E, F, G, H)| p.3) =~= Seq::empty());
            assert(all.take(0).map_values(|p: (A, B, C, D, E, F, G, H)| p.4) =~= Seq::empty());
            assert(all.take(0).map_values(|p: (A, B, C, D, E, F, G, H)| p.5) =~= Seq::empty());
            assert(all.take(0).map_values(|p: (A, B, C, D, E, F, G, H)| p.6) =~= Seq::empty());
            assert(all.take(0).map_values(|p: (A, B, C, D, E, F, G, H)| p.7) =~= Seq::empty());
        }
        for item in it: items.into_iter()
            invariant
                it.seq() == all,
                all == items@,
                start == *old(self),
                extended_one_by_one(
                    start.0,
                    all.take(it.index() as int).map_values(|p: (A, B, C, D, E, F, G, H)| p.0),
                    self.0,
                ),
                extended_one_by_one(
                    start.1,
                    all.take(it.index() as int).map_values(|p: (A, B, C, D, E, F, G, H)| p.1),
                    self.1,
                ),
                extended_one_by_one(
                    start.2,
                    all.take(it.index() as int).map_values(|p: (A, B, C, D, E, F, G, H)| p.2),
                    self.2,
                ),
                extended_one_by_one(
                    start.3,
                    all.take(it.index() as int).map_values(|p: (A, B, C, D, E, F, G, H)| p.3),
                    self.3,
                ),
                extended_one_by_one(
                    start.4,
                    all.take(it.index() as int).map_values(|p: (A, B, C, D, E, F, G, H)| p.4),
                    self.4,
                ),
                extended_one_by_one(
                    start.5,
                    all.take(it.index() as int).map_values(|p: (A, B, C, D, E, F, G, H)| p.5),
                    self.5,
                ),
                extended_one_by_one(
                    start.6,
                    all.take(it.index() as int).map_values(|p: (A, B, C, D, E, F, G, H)| p.6),
                    self.6,
                ),
                extended_one_by_one(
                    start.7,
                    all.take(it.index() as int).map_values(|p: (A, B, C, D, E, F, G, H)| p.7),
                    self.7,
                ),
        {
            let ghost i = it.index() as int;
            let ghost held = *self;
            let ghost taken = all.take(i);
            let ghost more = all.take(i + 1);
            proof {
                assert(all.map_values(|p: (A, B, C, D, E, F, G, H)| p.0).take(i)
                    =~= taken.map_values(|p: (A, B, C, D, E, F, G, H)| p.0));
                one_asks(start.0, all.map_values(|p: (A, B, C, D, E, F, G, H)| p.0), i, held.0);
                assert(all.map_values(|p: (A, B, C, D, E, F, G, H)| p.1).take(i)
                    =~= taken.map_values(|p: (A, B, C, D, E, F, G, H)| p.1));
                one_asks(start.1, all.map_values(|p: (A, B, C, D, E, F, G, H)| p.1), i, held.1);
                assert(all.map_values(|p: (A, B, C, D, E, F, G, H)| p.2).take(i)
                    =~= taken.map_values(|p: (A, B, C, D, E, F, G, H)| p.2));
                one_asks(start.2, all.map_values(|p: (A, B, C, D, E, F, G, H)| p.2), i, held.2);
                assert(all.map_values(|p: (A, B, C, D, E, F, G, H)| p.3).take(i)
                    =~= taken.map_values(|p: (A, B, C, D, E, F, G, H)| p.3));
                one_asks(start.3, all.map_values(|p: (A, B, C, D, E, F, G, H)| p.3), i, held.3);
                assert(all.map_values(|p: (A, B, C, D, E, F, G, H)| p.4).take(i)
                    =~= taken.map_values(|p: (A, B, C, D, E, F, G, H)| p.4));
                one_asks(start.4, all.map_values(|p: (A, B, C, D, E, F, G, H)| p.4), i, held.4);
                assert(all.map_values(|p: (A, B, C, D, E, F, G, H)| p.5).take(i)
                    =~= taken.map_values(|p: (A, B, C, D, E, F, G, H)| p.5));
                one_asks(start.5, all.map_values(|p: (A, B, C, D, E, F, G, H)| p.5), i, held.5);
                assert(all.map_values(|p: (A, B, C, D, E, F, G, H)| p.6).take(i)
                    =~= taken.map_values(|p: (A, B, C, D, E, F, G, H)| p.6));
                one_asks(start.6, all.map_values(|p: (A, B, C, D, E, F, G, H)| p.6), i, held.6);
                assert(all.map_values(|p: (A, B, C, D, E, F, G, H)| p.7).take(i)
                    =~= taken.map_values(|p: (A, B, C, D, E, F, G, H)| p.7));
                one_asks(start.7, all.map_values(|p: (A, B, C, D, E, F, G, H)| p.7), i, held.7);
            }
            extend_one(&mut self.0, item.0)?;
            extend_one(&mut self.1, item.1)?;
            extend_one(&mut self.2, item.2)?;
            extend_one(&mut self.3, item.3)?;
            extend_one(&mut self.4, item.4)?;
            extend_one(&mut self.5, item.5)?;
            extend_one(&mut self.6, item.6)?;
            extend_one(&mut self.7, item.7)?;
            proof {
                one_more(
                    start.0,
                    taken.map_values(|p: (A, B, C, D, E, F, G, H)| p.0),
                    held.0,
                    all[i].0,
                    self.0,
                );
                assert(more.map_values(|p: (A, B, C, D, E, F, G, H)| p.0) =~=
                    taken.map_values(|p: (A, B, C, D, E, F, G, H)| p.0).push(all[i].0));
                one_more(
                    start.1,
                    taken.map_values(|p: (A, B, C, D, E, F, G, H)| p.1),
                    held.1,
                    all[i].1,
                    self.1,
                );
                assert(more.map_values(|p: (A, B, C, D, E, F, G, H)| p.1) =~=
                    taken.map_values(|p: (A, B, C, D, E, F, G, H)| p.1).push(all[i].1));
                one_more(
                    start.2,
                    taken.map_values(|p: (A, B, C, D, E, F, G, H)| p.2),
                    held.2,
                    all[i].2,
                    self.2,
                );
                assert(more.map_values(|p: (A, B, C, D, E, F, G, H)| p.2) =~=
                    taken.map_values(|p: (A, B, C, D, E, F, G, H)| p.2).push(all[i].2));
                one_more(
                    start.3,
                    taken.map_values(|p: (A, B, C, D, E, F, G, H)| p.3),
                    held.3,
                    all[i].3,
                    self.3,
                );
                assert(more.map_values(|p: (A, B, C, D, E, F, G, H)| p.3) =~=
                    taken.map_values(|p: (A, B, C, D, E, F, G, H)| p.3).push(all[i].3));
                one_more(
                    start.4,
                    taken.map_values(|p: (A, B, C, D, E, F, G, H)| p.4),
                    held.4,
                    all[i].4,
                    self.4,
                );
                assert(more.map_values(|p: (A, B, C, D, E, F, G, H)| p.4) =~=
                    taken.map_values(|p: (A, B, C, D, E, F, G, H)| p.4).push(all[i].4));
                one_more(
                    start.5,
                    taken.map_values(|p: (A, B, C, D, E, F, G, H)| p.5),
                    held.5,
                    all[i].5,
                    self.5,
                );
                assert(more.map_values(|p: (A, B, C, D, E, F, G, H)| p.5) =~=
                    taken.map_values(|p: (A, B, C, D, E, F, G, H)| p.5).push(all[i].5));
                one_more(
                    start.6,
                    taken.map_values(|p: (A, B, C, D, E, F, G, H)| p.6),
                    held.6,
                    all[i].6,
                    self.6,
                );
                assert(more.map_values(|p: (A, B, C, D, E, F, G, H)| p.6) =~=
                    taken.map_values(|p: (A, B, C, D, E, F, G, H)| p.6).push(all[i].6));
                one_more(
                    start.7,
                    taken.map_values(|p: (A, B, C, D, E, F, G, H)| p.7),
                    held.7,
                    all[i].7,
                    self.7,
                );
                assert(more.map_values(|p: (A, B, C, D, E, F, G, H)| p.7) =~=
                    taken.map_values(|p: (A, B, C, D, E, F, G, H)| p.7).push(all[i].7));
            }
        }
        assert(all.take(all.len() as int) =~= all);
        assert(!Self::stops_extending(*old(self), items@));
        Ok(false)
    }
}

impl<
    A,
    B,
    C,
    D,
    E,
    F,
    G,
    H,
    I,
    FromA: TursoFromIterator<A>,
    FromB: TursoFromIterator<B>,
    FromC: TursoFromIterator<C>,
    FromD: TursoFromIterator<D>,
    FromE: TursoFromIterator<E>,
    FromF: TursoFromIterator<F>,
    FromG: TursoFromIterator<G>,
    FromH: TursoFromIterator<H>,
    FromI: TursoFromIterator<I>,
> TursoFromIterator<(A, B, C, D, E, F, G, H, I)> for (FromA, FromB, FromC, FromD, FromE, FromF, FromG, FromH, FromI) {
    open spec fn collected(
        items: Seq<(A, B, C, D, E, F, G, H, I)>,
        r: (FromA, FromB, FromC, FromD, FromE, FromF, FromG, FromH, FromI),
    ) -> bool {
        &&& collected_one_by_one(items.map_values(|p: (A, B, C, D, E, F, G, H, I)| p.0), r.0)
        &&& collected_one_by_one(items.map_values(|p: (A, B, C, D, E, F, G, H, I)| p.1), r.1)
        &&& collected_one_by_one(items.map_values(|p: (A, B, C, D, E, F, G, H, I)| p.2), r.2)
        &&& collected_one_by_one(items.map_values(|p: (A, B, C, D, E, F, G, H, I)| p.3), r.3)
        &&& collected_one_by_one(items.map_values(|p: (A, B, C, D, E, F, G, H, I)| p.4), r.4)
        &&& collected_one_by_one(items.map_values(|p: (A, B, C, D, E, F, G, H, I)| p.5), r.5)
        &&& collected_one_by_one(items.map_values(|p: (A, B, C, D, E, F, G, H, I)| p.6), r.6)
        &&& collected_one_by_one(items.map_values(|p: (A, B, C, D, E, F, G, H, I)| p.7), r.7)
        &&& collected_one_by_one(items.map_values(|p: (A, B, C, D, E, F, G, H, I)| p.8), r.8)
    }

    open spec fn extended(
        before: (FromA, FromB, FromC, FromD, FromE, FromF, FromG, FromH, FromI),
        items: Seq<(A, B, C, D, E, F, G, H, I)>,
        after: (FromA, FromB, FromC, FromD, FromE, FromF, FromG, FromH, FromI),
    ) -> bool {
        &&& extended_one_by_one(
            before.0,
            items.map_values(|p: (A, B, C, D, E, F, G, H, I)| p.0),
            after.0,
        )
        &&& extended_one_by_one(
            before.1,
            items.map_values(|p: (A, B, C, D, E, F, G, H, I)| p.1),
            after.1,
        )
        &&& extended_one_by_one(
            before.2,
            items.map_values(|p: (A, B, C, D, E, F, G, H, I)| p.2),
            after.2,
        )
        &&& extended_one_by_one(
            before.3,
            items.map_values(|p: (A, B, C, D, E, F, G, H, I)| p.3),
            after.3,
        )
        &&& extended_one_by_one(
            before.4,
            items.map_values(|p: (A, B, C, D, E, F, G, H, I)| p.4),
            after.4,
        )
        &&& extended_one_by_one(
            before.5,
            items.map_values(|p: (A, B, C, D, E, F, G, H, I)| p.5),
            after.5,
        )
        &&& extended_one_by_one(
            before.6,
            items.map_values(|p: (A, B, C, D, E, F, G, H, I)| p.6),
            after.6,
        )
        &&& extended_one_by_one(
            before.7,
            items.map_values(|p: (A, B, C, D, E, F, G, H, I)| p.7),
            after.7,
        )
        &&& extended_one_by_one(
            before.8,
            items.map_values(|p: (A, B, C, D, E, F, G, H, I)| p.8),
            after.8,
        )
    }

    open spec fn stops(items: Seq<(A, B, C, D, E, F, G, H, I)>) -> bool {
        false
    }

    open spec fn stops_extending(
        before: (FromA, FromB, FromC, FromD, FromE, FromF, FromG, FromH, FromI),
        items: Seq<(A, B, C, D, E, F, G, H, I)>,
    ) -> bool {
        false
    }

    open spec fn free_to_collect(items: Seq<(A, B, C, D, E, F, G, H, I)>) -> bool {
        &&& free_from_nothing::<A, FromA>(items.map_values(|p: (A, B, C, D, E, F, G, H, I)| p.0))
        &&& free_from_nothing::<B, FromB>(items.map_values(|p: (A, B, C, D, E, F, G, H, I)| p.1))
        &&& free_from_nothing::<C, FromC>(items.map_values(|p: (A, B, C, D, E, F, G, H, I)| p.2))
        &&& free_from_nothing::<D, FromD>(items.map_values(|p: (A, B, C, D, E, F, G, H, I)| p.3))
        &&& free_from_nothing::<E, FromE>(items.map_values(|p: (A, B, C, D, E, F, G, H, I)| p.4))
        &&& free_from_nothing::<F, FromF>(items.map_values(|p: (A, B, C, D, E, F, G, H, I)| p.5))
        &&& free_from_nothing::<G, FromG>(items.map_values(|p: (A, B, C, D, E, F, G, H, I)| p.6))
        &&& free_from_nothing::<H, FromH>(items.map_values(|p: (A, B, C, D, E, F, G, H, I)| p.7))
        &&& free_from_nothing::<I, FromI>(items.map_values(|p: (A, B, C, D, E, F, G, H, I)| p.8))
    }

    open spec fn free_to_extend(
        before: (FromA, FromB, FromC, FromD, FromE, FromF, FromG, FromH, FromI),
        items: Seq<(A, B, C, D, E, F, G, H, I)>,
    ) -> bool {
        &&& free_one_by_one(before.0, items.map_values(|p: (A, B, C, D, E, F, G, H, I)| p.0))
        &&& free_one_by_one(before.1, items.map_values(|p: (A, B, C, D, E, F, G, H, I)| p.1))
        &&& free_one_by_one(before.2, items.map_values(|p: (A, B, C, D, E, F, G, H, I)| p.2))
        &&& free_one_by_one(before.3, items.map_values(|p: (A, B, C, D, E, F, G, H, I)| p.3))
        &&& free_one_by_one(before.4, items.map_values(|p: (A, B, C, D, E, F, G, H, I)| p.4))
        &&& free_one_by_one(before.5, items.map_values(|p: (A, B, C, D, E, F, G, H, I)| p.5))
        &&& free_one_by_one(before.6, items.map_values(|p: (A, B, C, D, E, F, G, H, I)| p.6))
        &&& free_one_by_one(before.7, items.map_values(|p: (A, B, C, D, E, F, G, H, I)| p.7))
        &&& free_one_by_one(before.8, items.map_values(|p: (A, B, C, D, E, F, G, H, I)| p.8))
    }

    proof fn collecting_reads_no_further(
        items: Seq<(A, B, C, D, E, F, G, H, I)>,
        more: Seq<(A, B, C, D, E, F, G, H, I)>,
        r: (FromA, FromB, FromC, FromD, FromE, FromF, FromG, FromH, FromI),
    ) {
    }

    proof fn extending_reads_no_further(
        before: (FromA, FromB, FromC, FromD, FromE, FromF, FromG, FromH, FromI),
        items: Seq<(A, B, C, D, E, F, G, H, I)>,
        more: Seq<(A, B, C, D, E, F, G, H, I)>,
        after: (FromA, FromB, FromC, FromD, FromE, FromF, FromG, FromH, FromI),
    ) {
    }

    fn collect_and_report(
        items: Vec<(A, B, C, D, E, F, G, H, I)>,
    ) -> (r: Result<
        ((FromA, FromB, FromC, FromD, FromE, FromF, FromG, FromH, FromI), bool),
        TryReserveError,
    >) {
        let empty_a = FromA::try_from_iter(Vec::new())?;
        let empty_b = FromB::try_from_iter(Vec::new())?;
        let empty_c = FromC::try_from_iter(Vec::new())?;
        let empty_d = FromD::try_from_iter(Vec::new())?;
        let empty_e = FromE::try_from_iter(Vec::new())?;
        let empty_f = FromF::try_from_iter(Vec::new())?;
        let empty_g = FromG::try_from_iter(Vec::new())?;
        let empty_h = FromH::try_from_iter(Vec::new())?;
        let empty_i = FromI::try_from_iter(Vec::new())?;
        let mut values = (empty_a, empty_b, empty_c, empty_d, empty_e, empty_f, empty_g, empty_h, empty_i);
        values.try_extend(items)?;
        assert(!Self::stops(items@));
        Ok((values, false))
    }

    fn extend_and_report(
        &mut self,
        items: Vec<(A, B, C, D, E, F, G, H, I)>,
    ) -> (r: Result<bool, TryReserveError>) {
        let ghost start = *self;
        let ghost all = items@;
        proof {
            assert(all.take(0).map_values(|p: (A, B, C, D, E, F, G, H, I)| p.0) =~= Seq::empty());
            assert(all.take(0).map_values(|p: (A, B, C, D, E, F, G, H, I)| p.1) =~= Seq::empty());
            assert(all.take(0).map_values(|p: (A, B, C, D, E, F, G, H, I)| p.2) =~= Seq::empty());
            assert(all.take(0).map_values(|p: (A, B, C, D, E, F, G, H, I)| p.3) =~= Seq::empty());
            assert(all.take(0).map_values(|p: (A, B, C, D, E, F, G, H, I)| p.4) =~= Seq::empty());
            assert(all.take(0).map_values(|p: (A, B, C, D, E, F, G, H, I)| p.5) =~= Seq::empty());
            assert(all.take(0).map_values(|p: (A, B, C, D, E, F, G, H, I)| p.6) =~= Seq::empty());
            assert(all.take(0).map_values(|p: (A, B, C, D, E, F, G, H, I)| p.7) =~= Seq::empty());
            assert(all.take(0).map_values(|p: (A, B, C, D, E, F, G, H, I)| p.8) =~= Seq::empty());
        }
        for item in it: items.into_iter()
            invariant
                it.seq() == all,
                all == items@,
                start == *old(self),
                extended_one_by_one(
                    start.0,
                    all.take(it.index() as int).map_values(|p: (A, B, C, D, E, F, G, H, I)| p.0),
                    self.0,
                ),
                extended_one_by_one(
                    start.1,
                    all.take(it.index() as int).map_values(|p: (A, B, C, D, E, F, G, H, I)| p.1),
                    self.1,
                ),
                extended_one_by_one(
                    start.2,
                    all.take(it.index() as int).map_values(|p: (A, B, C, D, E, F, G, H, I)| p.2),
                    self.2,
                ),
                extended_one_by_one(
                    start.3,
                    all.take(it.index() as int).map_values(|p: (A, B, C, D, E, F, G, H, I)| p.3),
                    self.3,
                ),
                extended_one_by_one(
                    start.4,
                    all.take(it.index() as int).map_values(|p: (A, B, C, D, E, F, G, H, I)| p.4),
                    self.4,
                ),
                extended_one_by_one(
                    start.5,
                    all.take(it.index() as int).map_values(|p: (A, B, C, D, E, F, G, H, I)| p.5),
                    self.5,
                ),
                extended_one_by_one(
                    start.6,
                    all.take(it.index() as int).map_values(|p: (A, B, C, D, E, F, G, H, I)| p.6),
                    self.6,
                ),
                extended_one_by_one(
                    start.7,
                    all.take(it.index() as int).map_values(|p: (A, B, C, D, E, F, G, H, I)| p.7),
                    self.7,
                ),
                extended_one_by_one(
                    start.8,
                    all.take(it.index() as int).map_values(|p: (A, B, C, D, E, F, G, H, I)| p.8),
                    self.8,
                ),
        {
            let ghost i = it.index() as int;
            let ghost held = *self;
            let ghost taken = all.take(i);
            let ghost more = all.take(i + 1);
            proof {
                assert(all.map_values(|p: (A, B, C, D, E, F, G, H, I)| p.0).take(i)
                    =~= taken.map_values(|p: (A, B, C, D, E, F, G, H, I)| p.0));
                one_asks(start.0, all.map_values(|p: (A, B, C, D, E, F, G, H, I)| p.0), i, held.0);
                assert(all.map_values(|p: (A, B, C, D, E, F, G, H, I)| p.1).take(i)
                    =~= taken.map_values(|p: (A, B, C, D, E, F, G, H, I)| p.1));
                one_asks(start.1, all.map_values(|p: (A, B, C, D, E, F, G, H, I)| p.1), i, held.1);
                assert(all.map_values(|p: (A, B, C, D, E, F, G, H, I)| p.2).take(i)
                    =~= taken.map_values(|p: (A, B, C, D, E, F, G, H, I)| p.2));
                one_asks(start.2, all.map_values(|p: (A, B, C, D, E, F, G, H, I)| p.2), i, held.2);
                assert(all.map_values(|p: (A, B, C, D, E, F, G, H, I)| p.3).take(i)
                    =~= taken.map_values(|p: (A, B, C, D, E, F, G, H, I)| p.3));
                one_asks(start.3, all.map_values(|p: (A, B, C, D, E, F, G, H, I)| p.3), i, held.3);
                assert(all.map_values(|p: (A, B, C, D, E, F, G, H, I)| p.4).take(i)
                    =~= taken.map_values(|p: (A, B, C, D, E, F, G, H, I)| p.4));
                one_asks(start.4, all.map_values(|p: (A, B, C, D, E, F, G, H, I)| p.4), i, held.4);
                assert(all.map_values(|p: (A, B, C, D, E, F, G, H, I)| p.5).take(i)
                    =~= taken.map_values(|p: (A, B, C, D, E, F, G, H, I)| p.5));
                one_asks(start.5, all.map_values(|p: (A, B, C, D, E, F, G, H, I)| p.5), i, held.5);
                assert(all.map_values(|p: (A, B, C, D, E, F, G, H, I)| p.6).take(i)
                    =~= taken.map_values(|p: (A, B, C, D, E, F, G, H, I)| p.6));
                one_asks(start.6, all.map_values(|p: (A, B, C, D, E, F, G, H, I)| p.6), i, held.6);
                assert(all.map_values(|p: (A, B, C, D, E, F, G, H, I)| p.7).take(i)
                    =~= taken.map_values(|p: (A, B, C, D, E, F, G, H, I)| p.7));
                one_asks(start.7, all.map_values(|p: (A, B, C, D, E, F, G, H, I)| p.7), i, held.7);
                assert(all.map_values(|p: (A, B, C, D, E, F, G, H, I)| p.8).take(i)
                    =~= taken.map_values(|p: (A, B, C, D, E, F, G, H, I)| p.8));
                one_asks(start.8, all.map_values(|p: (A, B, C, D, E, F, G, H, I)| p.8), i, held.8);
            }
            extend_one(&mut self.0, item.0)?;
            extend_one(&mut self.1, item.1)?;
            extend_one(&mut self.2, item.2)?;
            extend_one(&mut self.3, item.3)?;
            extend_one(&mut self.4, item.4)?;
            extend_one(&mut self.5, item.5)?;
            extend_one(&mut self.6, item.6)?;
            extend_one(&mut self.7, item.7)?;
            extend_one(&mut self.8, item.8)?;
            proof {
                one_more(
                    start.0,
                    taken.map_values(|p: (A, B, C, D, E, F, G, H, I)| p.0),
                    held.0,
                    all[i].0,
                    self.0,
                );
                assert(more.map_values(|p: (A, B, C, D, E, F, G, H, I)| p.0) =~=
                    taken.map_values(|p: (A, B, C, D, E, F, G, H, I)| p.0).push(all[i].0));
                one_more(
                    start.1,
                    taken.map_values(|p: (A, B, C, D, E, F, G, H, I)| p.1),
                    held.1,
                    all[i].1,
                    self.1,
                );
                assert(more.map_values(|p: (A, B, C, D, E, F, G, H, I)| p.1) =~=
                    taken.map_values(|p: (A, B, C, D, E, F, G, H, I)| p.1).push(all[i].1));
                one_more(
                    start.2,
                    taken.map_values(|p: (A, B, C, D, E, F, G, H, I)| p.2),
                    held.2,
                    all[i].2,
                    self.2,
                );
                assert(more.map_values(|p: (A, B, C, D, E, F, G, H, I)| p.2) =~=
                    taken.map_values(|p: (A, B, C, D, E, F, G, H, I)| p.2).push(all[i].2));
                one_more(
                    start.3,
                    taken.map_values(|p: (A, B, C, D, E, F, G, H, I)| p.3),
                    held.3,
                    all[i].3,
                    self.3,
                );
                assert(more.map_values(|p: (A, B, C, D, E, F, G, H, I)| p.3) =~=
                    taken.map_values(|p: (A, B, C, D, E, F, G, H, I)| p.3).push(all[i].3));
                one_more(
                    start.4,
                    taken.map_values(|p: (A, B, C, D, E, F, G, H, I)| p.4),
                    held.4,
                    all[i].4,
                    self.4,
                );
                assert(more.map_values(|p: (A, B, C, D, E, F, G, H, I)| p.4) =~=
                    taken.map_values(|p: (A, B, C, D, E, F, G, H, I)| p.4).push(all[i].4));
                one_more(
                    start.5,
                    taken.map_values(|p: (A, B, C, D, E, F, G, H, I)| p.5),
                    held.5,
                    all[i].5,
                    self.5,
                );
                assert(more.map_values(|p: (A, B, C, D, E, F, G, H, I)| p.5) =~=
                    taken.map_values(|p: (A, B, C, D, E, F, G, H, I)| p.5).push(all[i].5));
                one_more(
                    start.6,
                    taken.map_values(|p: (A, B, C, D, E, F, G, H, I)| p.6),
                    held.6,
                    all[i].6,
                    self.6,
                );
                assert(more.map_values(|p: (A, B, C, D, E, F, G, H, I)| p.6) =~=
                    taken.map_values(|p: (A, B, C, D, E, F, G, H, I)| p.6).push(all[i].6));
                one_more(
                    start.7,
                    taken.map_values(|p: (A, B, C, D, E, F, G, H, I)| p.7),
                    held.7,
                    all[i].7,
                    self.7,
                );
                assert(more.map_values(|p: (A, B, C, D, E, F, G, H, I)| p.7) =~=
                    taken.map_values(|p: (A, B, C, D, E, F, G, H, I)| p.7).push(all[i].7));
                one_more(
                    start.8,
                    taken.map_values(|p: (A, B, C, D, E, F, G, H, I)| p.8),
                    held.8,
                    all[i].8,
                    self.8,
                );
                assert(more.map_values(|p: (A, B, C, D, E, F, G, H, I)| p.8) =~=
                    taken.map_values(|p: (A, B, C, D, E, F, G, H, I)| p.8).push(all[i].8));
            }
        }
        assert(all.take(all.len() as int) =~= all);
        assert(!Self::stops_extending(*old(self), items@));
        Ok(false)
    }
}

impl<
    A,
    B,
    C,
    D,
    E,
    F,
    G,
    H,
    I,
    J,
    FromA: TursoFromIterator<A>,
    FromB: TursoFromIterator<B>,
    FromC: TursoFromIterator<C>,
    FromD: TursoFromIterator<D>,
    FromE: TursoFromIterator<E>,
    FromF: TursoFromIterator<F>,
    FromG: TursoFromIterator<G>,
    FromH: TursoFromIterator<H>,
    FromI: TursoFromIterator<I>,
    FromJ: TursoFromIterator<J>,
> TursoFromIterator<(A, B, C, D, E, F, G, H, I, J)> for (FromA, FromB, FromC, FromD, FromE, FromF, FromG, FromH, FromI, FromJ) {
    open spec fn collected(
        items: Seq<(A, B, C, D, E, F, G, H, I, J)>,
        r: (FromA, FromB, FromC, FromD, FromE, FromF, FromG, FromH, FromI, FromJ),
    ) -> bool {
        &&& collected_one_by_one(items.map_values(|p: (A, B, C, D, E, F, G, H, I, J)| p.0), r.0)
        &&& collected_one_by_one(items.map_values(|p: (A, B, C, D, E, F, G, H, I, J)| p.1), r.1)
        &&& collected_one_by_one(items.map_values(|p: (A, B, C, D, E, F, G, H, I, J)| p.2), r.2)
        &&& collected_one_by_one(items.map_values(|p: (A, B, C, D, E, F, G, H, I, J)| p.3), r.3)
        &&& collected_one_by_one(items.map_values(|p: (A, B, C, D, E, F, G, H, I, J)| p.4), r.4)
        &&& collected_one_by_one(items.map_values(|p: (A, B, C, D, E, F, G, H, I, J)| p.5), r.5)
        &&& collected_one_by_one(items.map_values(|p: (A, B, C, D, E, F, G, H, I, J)| p.6), r.6)
        &&& collected_one_by_one(items.map_values(|p: (A, B, C, D, E, F, G, H, I, J)| p.7), r.7)
        &&& collected_one_by_one(items.map_values(|p: (A, B, C, D, E, F, G, H, I, J)| p.8), r.8)
        &&& collected_one_by_one(items.map_values(|p: (A, B, C, D, E, F, G, H, I, J)| p.9), r.9)
    }

    open spec fn extended(
        before: (FromA, FromB, FromC, FromD, FromE, FromF, FromG, FromH, FromI, FromJ),
        items: Seq<(A, B, C, D, E, F, G, H, I, J)>,
        after: (FromA, FromB, FromC, FromD, FromE, FromF, FromG, FromH, FromI, FromJ),
    ) -> bool {
        &&& extended_one_by_one(
            before.0,
            items.map_values(|p: (A, B, C, D, E, F, G, H, I, J)| p.0),
            after.0,
        )
        &&& extended_one_by_one(
            before.1,
            items.map_values(|p: (A, B, C, D, E, F, G, H, I, J)| p.1),
            after.1,
        )
        &&& extended_one_by_one(
            before.2,
            items.map_values(|p: (A, B, C, D, E, F, G, H, I, J)| p.2),
            after.2,
        )
        &&& extended_one_by_one(
            before.3,
            items.map_values(|p: (A, B, C, D, E, F, G, H, I, J)| p.3),
            after.3,
        )
        &&& extended_one_by_one(
            before.4,
            items.map_values(|p: (A, B, C, D, E, F, G, H, I, J)| p.4),
            after.4,
        )
        &&& extended_one_by_one(
            before.5,
            items.map_values(|p: (A, B, C, D, E, F, G, H, I, J)| p.5),
            after.5,
        )
        &&& extended_one_by_one(
            before.6,
            items.map_values(|p: (A, B, C, D, E, F, G, H, I, J)| p.6),
            after.6,
        )
        &&& extended_one_by_one(
            before.7,
            items.map_values(|p: (A, B, C, D, E, F, G, H, I, J)| p.7),
            after.7,
        )
        &&& extended_one_by_one(
            before.8,
            items.map_values(|p: (A, B, C, D, E, F, G, H, I, J)| p.8),
            after.8,
        )
        &&& extended_one_by_one(
            before.9,
            items.map_values(|p: (A, B, C, D, E, F, G, H, I, J)| p.9),
            after.9,
        )
    }

    open spec fn stops(items: Seq<(A, B, C, D, E, F, G, H, I, J)>) -> bool {
        false
    }

    open spec fn stops_extending(
        before: (FromA, FromB, FromC, FromD, FromE, FromF, FromG, FromH, FromI, FromJ),
        items: Seq<(A, B, C, D, E, F, G, H, I, J)>,
    ) -> bool {
        false
    }

    open spec fn free_to_collect(items: Seq<(A, B, C, D, E, F, G, H, I, J)>) -> bool {
        &&& free_from_nothing::<A, FromA>(items.map_values(|p: (A, B, C, D, E, F, G, H, I, J)| p.0))
        &&& free_from_nothing::<B, FromB>(items.map_values(|p: (A, B, C, D, E, F, G, H, I, J)| p.1))
        &&& free_from_nothing::<C, FromC>(items.map_values(|p: (A, B, C, D, E, F, G, H, I, J)| p.2))
        &&& free_from_nothing::<D, FromD>(items.map_values(|p: (A, B, C, D, E, F, G, H, I, J)| p.3))
        &&& free_from_nothing::<E, FromE>(items.map_values(|p: (A, B, C, D, E, F, G, H, I, J)| p.4))
        &&& free_from_nothing::<F, FromF>(items.map_values(|p: (A, B, C, D, E, F, G, H, I, J)| p.5))
        &&& free_from_nothing::<G, FromG>(items.map_values(|p: (A, B, C, D, E, F, G, H, I, J)| p.6))
        &&& free_from_nothing::<H, FromH>(items.map_values(|p: (A, B, C, D, E, F, G, H, I, J)| p.7))
        &&& free_from_nothing::<I, FromI>(items.map_values(|p: (A, B, C, D, E, F, G, H, I, J)| p.8))
        &&& free_from_nothing::<J, FromJ>(items.map_values(|p: (A, B, C, D, E, F, G, H, I, J)| p.9))
    }

    open spec fn free_to_extend(
        before: (FromA, FromB, FromC, FromD, FromE, FromF, FromG, FromH, FromI, FromJ),
        items: Seq<(A, B, C, D, E, F, G, H, I, J)>,
    ) -> bool {
        &&& free_one_by_one(before.0, items.map_values(|p: (A, B, C, D, E, F, G, H, I, J)| p.0))
        &&& free_one_by_one(before.1, items.map_values(|p: (A, B, C, D, E, F, G, H, I, J)| p.1))
        &&& free_one_by_one(before.2, items.map_values(|p: (A, B, C, D, E, F, G, H, I, J)| p.2))
        &&& free_one_by_one(before.3, items.map_values(|p: (A, B, C, D, E, F, G, H, I, J)| p.3))
        &&& free_one_by_one(before.4, items.map_values(|p: (A, B, C, D, E, F, G, H, I, J)| p.4))
        &&& free_one_by_one(before.5, items.map_values(|p: (A, B, C, D, E, F, G, H, I, J)| p.5))
        &&& free_one_by_one(before.6, items.map_values(|p: (A, B, C, D, E, F, G, H, I, J)| p.6))
        &&& free_one_by_one(before.7, items.map_values(|p: (A, B, C, D, E, F, G, H, I, J)| p.7))
        &&& free_one_by_one(before.8, items.map_values(|p: (A, B, C, D, E, F, G, H, I, J)| p.8))
        &&& free_one_by_one(before.9, items.map_values(|p: (A, B, C, D, E, F, G, H, I, J)| p.9))
    }

    proof fn collecting_reads_no_further(
        items: Seq<(A, B, C, D, E, F, G, H, I, J)>,
        more: Seq<(A, B, C, D, E, F, G, H, I, J)>,
        r: (FromA, FromB, FromC, FromD, FromE, FromF, FromG, FromH, FromI, FromJ),
    ) {
    }

    proof fn extending_reads_no_further(
        before: (FromA, FromB, FromC, FromD, FromE, FromF, FromG, FromH, FromI, FromJ),
        items: Seq<(A, B, C, D, E, F, G, H, I, J)>,
        more: Seq<(A, B, C, D, E, F, G, H, I, J)>,
        after: (FromA, FromB, FromC, FromD, FromE, FromF, FromG, FromH, FromI, FromJ),
    ) {
    }

    fn collect_and_report(
        items: Vec<(A, B, C, D, E, F, G, H, I, J)>,
    ) -> (r: Result<
        ((FromA, FromB, FromC, FromD, FromE, FromF, FromG, FromH, FromI, FromJ), bool),
        TryReserveError,
    >) {
        let empty_a = FromA::try_from_iter(Vec::new())?;
        let empty_b = FromB::try_from_iter(Vec::new())?;
        let empty_c = FromC::try_from_iter(Vec::new())?;
        let empty_d = FromD::try_from_iter(Vec::new())?;
        let empty_e = FromE::try_from_iter(Vec::new())?;
        let empty_f = FromF::try_from_iter(Vec::new())?;
        let empty_g = FromG::try_from_iter(Vec::new())?;
        let empty_h = FromH::try_from_iter(Vec::new())?;
        let empty_i = FromI::try_from_iter(Vec::new())?;
        let empty_j = FromJ::try_from_iter(Vec::new())?;
        let mut values = (empty_a, empty_b, empty_c, empty_d, empty_e, empty_f, empty_g, empty_h, empty_i, empty_j);
        values.try_extend(items)?;
        assert(!Self::stops(items@));
        Ok((values, false))
    }

    fn extend_and_report(
        &mut self,
        items: Vec<(A, B, C, D, E, F, G, H, I, J)>,
    ) -> (r: Result<bool, TryReserveError>) {
        let ghost start = *self;
        let ghost all = items@;
        proof {
            assert(all.take(0).map_values(|p: (A, B, C, D, E, F, G, H, I, J)| p.0)
                =~= Seq::empty());
            assert(all.take(0).map_values(|p: (A, B, C, D, E, F, G, H, I, J)| p.1)
                =~= Seq::empty());
            assert(all.take(0).map_values(|p: (A, B, C, D, E, F, G, H, I, J)| p.2)
                =~= Seq::empty());
            assert(all.take(0).map_values(|p: (A, B, C, D, E, F, G, H, I, J)| p.3)
                =~= Seq::empty());
            assert(all.take(0).map_values(|p: (A, B, C, D, E, F, G, H, I, J)| p.4)
                =~= Seq::empty());
            assert(all.take(0).map_values(|p: (A, B, C, D, E, F, G, H, I, J)| p.5)
                =~= Seq::empty());
            assert(all.take(0).map_values(|p: (A, B, C, D, E, F, G, H, I, J)| p.6)
                =~= Seq::empty());
            assert(all.take(0).map_values(|p: (A, B, C, D, E, F, G, H, I, J)| p.7)
                =~= Seq::empty());
            assert(all.take(0).map_values(|p: (A, B, C, D, E, F, G, H, I, J)| p.8)
                =~= Seq::empty());
            assert(all.take(0).map_values(|p: (A, B, C, D, E, F, G, H, I, J)| p.9)
                =~= Seq::empty());
        }
        for item in it: items.into_iter()
            invariant
                it.seq() == all,
                all == items@,
                start == *old(self),
                extended_one_by_one(
                    start.0,
                    all.take(it.index() as int).map_values(|p: (A, B, C, D, E, F, G, H, I, J)| p.0),
                    self.0,
                ),
                extended_one_by_one(
                    start.1,
                    all.take(it.index() as int).map_values(|p: (A, B, C, D, E, F, G, H, I, J)| p.1),
                    self.1,
                ),
                extended_one_by_one(
                    start.2,
                    all.take(it.index() as int).map_values(|p: (A, B, C, D, E, F, G, H, I, J)| p.2),
                    self.2,
                ),
                extended_one_by_one(
                    start.3,
                    all.take(it.index() as int).map_values(|p: (A, B, C, D, E, F, G, H, I, J)| p.3),
                    self.3,
                ),
                extended_one_by_one(
                    start.4,
                    all.take(it.index() as int).map_values(|p: (A, B, C, D, E, F, G, H, I, J)| p.4),
                    self.4,
                ),
                extended_one_by_one(
                    start.5,
                    all.take(it.index() as int).map_values(|p: (A, B, C, D, E, F, G, H, I, J)| p.5),
                    self.5,
                ),
                extended_one_by_one(
                    start.6,
                    all.take(it.index() as int).map_values(|p: (A, B, C, D, E, F, G, H, I, J)| p.6),
                    self.6,
                ),
                extended_one_by_one(
                    start.7,
                    all.take(it.index() as int).map_values(|p: (A, B, C, D, E, F, G, H, I, J)| p.7),
                    self.7,
                ),
                extended_one_by_one(
                    start.8,
                    all.take(it.index() as int).map_values(|p: (A, B, C, D, E, F, G, H, I, J)| p.8),
                    self.8,
                ),
                extended_one_by_one(
                    start.9,
                    all.take(it.index() as int).map_values(|p: (A, B, C, D, E, F, G, H, I, J)| p.9),
                    self.9,
                ),
        {
            let ghost i = it.index() as int;
            let ghost held = *self;
            let ghost taken = all.take(i);
            let ghost more = all.take(i + 1);
            proof {
                assert(all.map_values(|p: (A, B, C, D, E, F, G, H, I, J)| p.0).take(i)
                    =~= taken.map_values(|p: (A, B, C, D, E, F, G, H, I, J)| p.0));
                one_asks(
                    start.0,
                    all.map_values(|p: (A, B, C, D, E, F, G, H, I, J)| p.0),
                    i,
                    held.0,
                );
                assert(all.map_values(|p: (A, B, C, D, E, F, G, H, I, J)| p.1).take(i)
                    =~= taken.map_values(|p: (A, B, C, D, E, F, G, H, I, J)| p.1));
                one_asks(
                    start.1,
                    all.map_values(|p: (A, B, C, D, E, F, G, H, I, J)| p.1),
                    i,
                    held.1,
                );
                assert(all.map_values(|p: (A, B, C, D, E, F, G, H, I, J)| p.2).take(i)
                    =~= taken.map_values(|p: (A, B, C, D, E, F, G, H, I, J)| p.2));
                one_asks(
                    start.2,
                    all.map_values(|p: (A, B, C, D, E, F, G, H, I, J)| p.2),
                    i,
                    held.2,
                );
                assert(all.map_values(|p: (A, B, C, D, E, F, G, H, I, J)| p.3).take(i)
                    =~= taken.map_values(|p: (A, B, C, D, E, F, G, H, I, J)| p.3));
                one_asks(
                    start.3,
                    all.map_values(|p: (A, B, C, D, E, F, G, H, I, J)| p.3),
                    i,
                    held.3,
                );
                assert(all.map_values(|p: (A, B, C, D, E, F, G, H, I, J)| p.4).take(i)
                    =~= taken.map_values(|p: (A, B, C, D, E, F, G, H, I, J)| p.4));
                one_asks(
                    start.4,
                    all.map_values(|p: (A, B, C, D, E, F, G, H, I, J)| p.4),
                    i,
                    held.4,
                );
                assert(all.map_values(|p: (A, B, C, D, E, F, G, H, I, J)| p.5).take(i)
                    =~= taken.map_values(|p: (A, B, C, D, E, F, G, H, I, J)| p.5));
                one_asks(
                    start.5,
                    all.map_values(|p: (A, B, C, D, E, F, G, H, I, J)| p.5),
                    i,
                    held.5,
                );
                assert(all.map_values(|p: (A, B, C, D, E, F, G, H, I, J)| p.6).take(i)
                    =~= taken.map_values(|p: (A, B, C, D, E, F, G, H, I, J)| p.6));
                one_asks(
                    start.6,
                    all.map_values(|p: (A, B, C, D, E, F, G, H, I, J)| p.6),
                    i,
                    held.6,
                );
                assert(all.map_values(|p: (A, B, C, D, E, F, G, H, I, J)| p.7).take(i)
                    =~= taken.map_values(|p: (A, B, C, D, E, F, G, H, I, J)| p.7));
                one_asks(
                    start.7,
                    all.map_values(|p: (A, B, C, D, E, F, G, H, I, J)| p.7),
                    i,
                    held.7,
                );
                assert(all.map_values(|p: (A, B, C, D, E, F, G, H, I, J)| p.8).take(i)
                    =~= taken.map_values(|p: (A, B, C, D, E, F, G, H, I, J)| p.8));
                one_asks(
                    start.8,
                    all.map_values(|p: (A, B, C, D, E, F, G, H, I, J)| p.8),
                    i,
                    held.8,
                );
                assert(all.map_values(|p: (A, B, C, D, E, F, G, H, I, J)| p.9).take(i)
                    =~= taken.map_values(|p: (A, B, C, D, E, F, G, H, I, J)| p.9));
                one_asks(
                    start.9,
                    all.map_values(|p: (A, B, C, D, E, F, G, H, I, J)| p.9),
                    i,
                    held.9,
                );
            }
            extend_one(&mut self.0, item.0)?;
            extend_one(&mut self.1, item.1)?;
            extend_one(&mut self.2, item.2)?;
            extend_one(&mut self.3, item.3)?;
            extend_one(&mut self.4, item.4)?;
            extend_one(&mut self.5, item.5)?;
            extend_one(&mut self.6, item.6)?;
            extend_one(&mut self.7, item.7)?;
            extend_one(&mut self.8, item.8)?;
            extend_one(&mut self.9, item.9)?;
            proof {
                one_more(
                    start.0,
                    taken.map_values(|p: (A, B, C, D, E, F, G, H, I, J)| p.0),
                    held.0,
                    all[i].0,
                    self.0,
                );
                assert(more.map_values(|p: (A, B, C, D, E, F, G, H, I, J)| p.0) =~=
                    taken.map_values(|p: (A, B, C, D, E, F, G, H, I, J)| p.0).push(all[i].0));
                one_more(
                    start.1,
                    taken.map_values(|p: (A, B, C, D, E, F, G, H, I, J)| p.1),
                    held.1,
                    all[i].1,
                    self.1,
                );
                assert(more.map_values(|p: (A, B, C, D, E, F, G, H, I, J)| p.1) =~=
                    taken.map_values(|p: (A, B, C, D, E, F, G, H, I, J)| p.1).push(all[i].1));
                one_more(
                    start.2,
                    taken.map_values(|p: (A, B, C, D, E, F, G, H, I, J)| p.2),
                    held.2,
                    all[i].2,
                    self.2,
                );
                assert(more.map_values(|p: (A, B, C, D, E, F, G, H, I, J)| p.2) =~=
                    taken.map_values(|p: (A, B, C, D, E, F, G, H, I, J)| p.2).push(all[i].2));
                one_more(
                    start.3,
                    taken.map_values(|p: (A, B, C, D, E, F, G, H, I, J)| p.3),
                    held.3,
                    all[i].3,
                    self.3,
                );
                assert(more.map_values(|p: (A, B, C, D, E, F, G, H, I, J)| p.3) =~=
                    taken.map_values(|p: (A, B, C, D, E, F, G, H, I, J)| p.3).push(all[i].3));
                one_more(
                    start.4,
                    taken.map_values(|p: (A, B, C, D, E, F, G, H, I, J)| p.4),
                    held.4,
                    all[i].4,
                    self.4,
                );
                assert(more.map_values(|p: (A, B, C, D, E, F, G, H, I, J)| p.4) =~=
                    taken.map_values(|p: (A, B, C, D, E, F, G, H, I, J)| p.4).push(all[i].4));
                one_more(
                    start.5,
                    taken.map_values(|p: (A, B, C, D, E, F, G, H, I, J)| p.5),
                    held.5,
                    all[i].5,
                    self.5,
                );
                assert(more.map_values(|p: (A, B, C, D, E, F, G, H, I, J)| p.5) =~=
                    taken.map_values(|p: (A, B, C, D, E, F, G, H, I, J)| p.5).push(all[i].5));
                one_more(
                    start.6,
                    taken.map_values(|p: (A, B, C, D, E, F, G, H, I, J)| p.6),
                    held.6,
                    all[i].6,
                    self.6,
                );
                assert(more.map_values(|p: (A, B, C, D, E, F, G, H, I, J)| p.6) =~=
                    taken.map_values(|p: (A, B, C, D, E, F, G, H, I, J)| p.6).push(all[i].6));
                one_more(
                    start.7,
                    taken.map_values(|p: (A, B, C, D, E, F, G, H, I, J)| p.7),
                    held.7,
                    all[i].7,
                    self.7,
                );
                assert(more.map_values(|p: (A, B, C, D, E, F, G, H, I, J)| p.7) =~=
                    taken.map_values(|p: (A, B, C, D, E, F, G, H, I, J)| p.7).push(all[i].7));
                one_more(
                    start.8,
                    taken.map_values(|p: (A, B, C, D, E, F, G, H, I, J)| p.8),
                    held.8,
                    all[i].8,
                    self.8,
                );
                assert(more.map_values(|p: (A, B, C, D, E, F, G, H, I, J)| p.8) =~=
                    taken.map_values(|p: (A, B, C, D, E, F, G, H, I, J)| p.8).push(all[i].8));
                one_more(
                    start.9,
                    taken.map_values(|p: (A, B, C, D, E, F, G, H, I, J)| p.9),
                    held.9,
                    all[i].9,
                    self.9,
                );
                assert(more.map_values(|p: (A, B, C, D, E, F, G, H, I, J)| p.9) =~=
                    taken.map_values(|p: (A, B, C, D, E, F, G, H, I, J)| p.9).push(all[i].9));
            }
        }
        assert(all.take(all.len() as int) =~= all);
        assert(!Self::stops_extending(*old(self), items@));
        Ok(false)
    }
}

impl<
    A,
    B,
    C,
    D,
    E,
    F,
    G,
    H,
    I,
    J,
    K,
    FromA: TursoFromIterator<A>,
    FromB: TursoFromIterator<B>,
    FromC: TursoFromIterator<C>,
    FromD: TursoFromIterator<D>,
    FromE: TursoFromIterator<E>,
    FromF: TursoFromIterator<F>,
    FromG: TursoFromIterator<G>,
    FromH: TursoFromIterator<H>,
    FromI: TursoFromIterator<I>,
    FromJ: TursoFromIterator<J>,
    FromK: TursoFromIterator<K>,
> TursoFromIterator<(A, B, C, D, E, F, G, H, I, J, K)> for (FromA, FromB, FromC, FromD, FromE, FromF, FromG, FromH, FromI, FromJ, FromK) {
    open spec fn collected(
        items: Seq<(A, B, C, D, E, F, G, H, I, J, K)>,
        r: (FromA, FromB, FromC, FromD, FromE, FromF, FromG, FromH, FromI, FromJ, FromK),
    ) -> bool {
        &&& collected_one_by_one(items.map_values(|p: (A, B, C, D, E, F, G, H, I, J, K)| p.0), r.0)
        &&& collected_one_by_one(items.map_values(|p: (A, B, C, D, E, F, G, H, I, J, K)| p.1), r.1)
        &&& collected_one_by_one(items.map_values(|p: (A, B, C, D, E, F, G, H, I, J, K)| p.2), r.2)
        &&& collected_one_by_one(items.map_values(|p: (A, B, C, D, E, F, G, H, I, J, K)| p.3), r.3)
        &&& collected_one_by_one(items.map_values(|p: (A, B, C, D, E, F, G, H, I, J, K)| p.4), r.4)
        &&& collected_one_by_one(items.map_values(|p: (A, B, C, D, E, F, G, H, I, J, K)| p.5), r.5)
        &&& collected_one_by_one(items.map_values(|p: (A, B, C, D, E, F, G, H, I, J, K)| p.6), r.6)
        &&& collected_one_by_one(items.map_values(|p: (A, B, C, D, E, F, G, H, I, J, K)| p.7), r.7)
        &&& collected_one_by_one(items.map_values(|p: (A, B, C, D, E, F, G, H, I, J, K)| p.8), r.8)
        &&& collected_one_by_one(items.map_values(|p: (A, B, C, D, E, F, G, H, I, J, K)| p.9), r.9)
        &&& collected_one_by_one(
            items.map_values(|p: (A, B, C, D, E, F, G, H, I, J, K)| p.10),
            r.10,
        )
    }

    open spec fn extended(
        before: (FromA, FromB, FromC, FromD, FromE, FromF, FromG, FromH, FromI, FromJ, FromK),
        items: Seq<(A, B, C, D, E, F, G, H, I, J, K)>,
        after: (FromA, FromB, FromC, FromD, FromE, FromF, FromG, FromH, FromI, FromJ, FromK),
    ) -> bool {
        &&& extended_one_by_one(
            before.0,
            items.map_values(|p: (A, B, C, D, E, F, G, H, I, J, K)| p.0),
            after.0,
        )
        &&& extended_one_by_one(
            before.1,
            items.map_values(|p: (A, B, C, D, E, F, G, H, I, J, K)| p.1),
            after.1,
        )
        &&& extended_one_by_one(
            before.2,
            items.map_values(|p: (A, B, C, D, E, F, G, H, I, J, K)| p.2),
            after.2,
        )
        &&& extended_one_by_one(
            before.3,
            items.map_values(|p: (A, B, C, D, E, F, G, H, I, J, K)| p.3),
            after.3,
        )
        &&& extended_one_by_one(
            before.4,
            items.map_values(|p: (A, B, C, D, E, F, G, H, I, J, K)| p.4),
            after.4,
        )
        &&& extended_one_by_one(
            before.5,
            items.map_values(|p: (A, B, C, D, E, F, G, H, I, J, K)| p.5),
            after.5,
        )
        &&& extended_one_by_one(
            before.6,
            items.map_values(|p: (A, B, C, D, E, F, G, H, I, J, K)| p.6),
            after.6,
        )
        &&& extended_one_by_one(
            before.7,
            items.map_values(|p: (A, B, C, D, E, F, G, H, I, J, K)| p.7),
            after.7,
        )
        &&& extended_one_by_one(
            before.8,
            items.map_values(|p: (A, B, C, D, E, F, G, H, I, J, K)| p.8),
            after.8,
        )
        &&& extended_one_by_one(
            before.9,
            items.map_values(|p: (A, B, C, D, E, F, G, H, I, J, K)| p.9),
            after.9,
        )
        &&& extended_one_by_one(
            before.10,
            items.map_values(|p: (A, B, C, D, E, F, G, H, I, J, K)| p.10),
            after.10,
        )
    }

    open spec fn stops(items: Seq<(A, B, C, D, E, F, G, H, I, J, K)>) -> bool {
        false
    }

    open spec fn stops_extending(
        before: (FromA, FromB, FromC, FromD, FromE, FromF, FromG, FromH, FromI, FromJ, FromK),
        items: Seq<(A, B, C, D, E, F, G, H, I, J, K)>,
    ) -> bool {
        false
    }

    open spec fn free_to_collect(items: Seq<(A, B, C, D, E, F, G, H, I, J, K)>) -> bool {
        &&& free_from_nothing::<A, FromA>(
            items.map_values(|p: (A, B, C, D, E, F, G, H, I, J, K)| p.0),
        )
        &&& free_from_nothing::<B, FromB>(
            items.map_values(|p: (A, B, C, D, E, F, G, H, I, J, K)| p.1),
        )
        &&& free_from_nothing::<C, FromC>(
            items.map_values(|p: (A, B, C, D, E, F, G, H, I, J, K)| p.2),
        )
        &&& free_from_nothing::<D, FromD>(
            items.map_values(|p: (A, B, C, D, E, F, G, H, I, J, K)| p.3),
        )
        &&& free_from_nothing::<E, FromE>(
            items.map_values(|p: (A, B, C, D, E, F, G, H, I, J, K)| p.4),
        )
        &&& free_from_nothing::<F, FromF>(
            items.map_values(|p: (A, B, C, D, E, F, G, H, I, J, K)| p.5),
        )
        &&& free_from_nothing::<G, FromG>(
            items.map_values(|p: (A, B, C, D, E, F, G, H, I, J, K)| p.6),
        )
        &&& free_from_nothing::<H, FromH>(
            items.map_values(|p: (A, B, C, D, E, F, G, H, I, J, K)| p.7),
        )
        &&& free_from_nothing::<I, FromI>(
            items.map_values(|p: (A, B, C, D, E, F, G, H, I, J, K)| p.8),
        )
        &&& free_from_nothing::<J, FromJ>(
            items.map_values(|p: (A, B, C, D, E, F, G, H, I, J, K)| p.9),
        )
        &&& free_from_nothing::<K, FromK>(
            items.map_values(|p: (A, B, C, D, E, F, G, H, I, J, K)| p.10),
        )
    }

    open spec fn free_to_extend(
        before: (FromA, FromB, FromC, FromD, FromE, FromF, FromG, FromH, FromI, FromJ, FromK),
        items: Seq<(A, B, C, D, E, F, G, H, I, J, K)>,
    ) -> bool {
        &&& free_one_by_one(before.0, items.map_values(|p: (A, B, C, D, E, F, G, H, I, J, K)| p.0))
        &&& free_one_by_one(before.1, items.map_values(|p: (A, B, C, D, E, F, G, H, I, J, K)| p.1))
        &&& free_one_by_one(before.2, items.map_values(|p: (A, B, C, D, E, F, G, H, I, J, K)| p.2))
        &&& free_one_by_one(before.3, items.map_values(|p: (A, B, C, D, E, F, G, H, I, J, K)| p.3))
        &&& free_one_by_one(before.4, items.map_values(|p: (A, B, C, D, E, F, G, H, I, J, K)| p.4))
        &&& free_one_by_one(before.5, items.map_values(|p: (A, B, C, D, E, F, G, H, I, J, K)| p.5))
        &&& free_one_by_one(before.6, items.map_values(|p: (A, B, C, D, E, F, G, H, I, J, K)| p.6))
        &&& free_one_by_one(before.7, items.map_values(|p: (A, B, C, D, E, F, G, H, I, J, K)| p.7))
        &&& free_one_by_one(before.8, items.map_values(|p: (A, B, C, D, E, F, G, H, I, J, K)| p.8))
        &&& free_one_by_one(before.9, items.map_values(|p: (A, B, C, D, E, F, G, H, I, J, K)| p.9))
        &&& free_one_by_one(
            before.10,
            items.map_values(|p: (A, B, C, D, E, F, G, H, I, J, K)| p.10),
        )
    }

    proof fn collecting_reads_no_further(
        items: Seq<(A, B, C, D, E, F, G, H, I, J, K)>,
        more: Seq<(A, B, C, D, E, F, G, H, I, J, K)>,
        r: (FromA, FromB, FromC, FromD, FromE, FromF, FromG, FromH, FromI, FromJ, FromK),
    ) {
    }

    proof fn extending_reads_no_further(
        before: (FromA, FromB, FromC, FromD, FromE, FromF, FromG, FromH, FromI, FromJ, FromK),
        items: Seq<(A, B, C, D, E, F, G, H, I, J, K)>,
        more: Seq<(A, B, C, D, E, F, G, H, I, J, K)>,
        after: (FromA, FromB, FromC, FromD, FromE, FromF, FromG, FromH, FromI, FromJ, FromK),
    ) {
    }

    fn collect_and_report(
        items: Vec<(A, B, C, D, E, F, G, H, I, J, K)>,
    ) -> (r: Result<
        ((FromA, FromB, FromC, FromD, FromE, FromF, FromG, FromH, FromI, FromJ, FromK), bool),
        TryReserveError,
    >) {
        let empty_a = FromA::try_from_iter(Vec::new())?;
        let empty_b = FromB::try_from_iter(Vec::new())?;
        let empty_c = FromC::try_from_iter(Vec::new())?;
        let empty_d = FromD::try_from_iter(Vec::new())?;
        let empty_e = FromE::try_from_iter(Vec::new())?;
        let empty_f = FromF::try_from_iter(Vec::new())?;
        let empty_g = FromG::try_from_iter(Vec::new())?;
        let empty_h = FromH::try_from_iter(Vec::new())?;
        let empty_i = FromI::try_from_iter(Vec::new())?;
        let empty_j = FromJ::try_from_iter(Vec::new())?;
        let empty_k = FromK::try_from_iter(Vec::new())?;
        let mut values = (empty_a, empty_b, empty_c, empty_d, empty_e, empty_f, empty_g, empty_h, empty_i, empty_j, empty_k);
        values.try_extend(items)?;
        assert(!Self::stops(items@));
        Ok((values, false))
    }

    fn extend_and_report(
        &mut self,
        items: Vec<(A, B, C, D, E, F, G, H, I, J, K)>,
    ) -> (r: Result<bool, TryReserveError>) {
        let ghost start = *self;
        let ghost all = items@;
        proof {
            assert(all.take(0).map_values(|p: (A, B, C, D, E, F, G, H, I, J, K)| p.0)
                =~= Seq::empty());
            assert(all.take(0).map_values(|p: (A, B, C, D, E, F, G, H, I, J, K)| p.1)
                =~= Seq::empty());
            assert(all.take(0).map_values(|p: (A, B, C, D, E, F, G, H, I, J, K)| p.2)
                =~= Seq::empty());
            assert(all.take(0).map_values(|p: (A, B, C, D, E, F, G, H, I, J, K)| p.3)
                =~= Seq::empty());
            assert(all.take(0).map_values(|p: (A, B, C, D, E, F, G, H, I, J, K)| p.4)
                =~= Seq::empty());
            assert(all.take(0).map_values(|p: (A, B, C, D, E, F, G, H, I, J, K)| p.5)
                =~= Seq::empty());
            assert(all.take(0).map_values(|p: (A, B, C, D, E, F, G, H, I, J, K)| p.6)
                =~= Seq::empty());
            assert(all.take(0).map_values(|p: (A, B, C, D, E, F, G, H, I, J, K)| p.7)
                =~= Seq::empty());
            assert(all.take(0).map_values(|p: (A, B, C, D, E, F, G, H, I, J, K)| p.8)
                =~= Seq::empty());
            assert(all.take(0).map_values(|p: (A, B, C, D, E, F, G, H, I, J, K)| p.9)
                =~= Seq::empty());
            assert(all.take(0).map_values(|p: (A, B, C, D, E, F, G, H, I, J, K)| p.10)
                =~= Seq::empty());
        }
        for item in it: items.into_iter()
            invariant
                it.seq() == all,
                all == items@,
                start == *old(self),
                extended_one_by_one(
                    start.0,
                    all.take(it.index() as int).map_values(|p: (A, B, C, D, E, F, G, H, I, J, K)| p.0),
                    self.0,
                ),
                extended_one_by_one(
                    start.1,
                    all.take(it.index() as int).map_values(|p: (A, B, C, D, E, F, G, H, I, J, K)| p.1),
                    self.1,
                ),
                extended_one_by_one(
                    start.2,
                    all.take(it.index() as int).map_values(|p: (A, B, C, D, E, F, G, H, I, J, K)| p.2),
                    self.2,
                ),
                extended_one_by_one(
                    start.3,
                    all.take(it.index() as int).map_values(|p: (A, B, C, D, E, F, G, H, I, J, K)| p.3),
                    self.3,
                ),
                extended_one_by_one(
                    start.4,
                    all.take(it.index() as int).map_values(|p: (A, B, C, D, E, F, G, H, I, J, K)| p.4),
                    self.4,
                ),
                extended_one_by_one(
                    start.5,
                    all.take(it.index() as int).map_values(|p: (A, B, C, D, E, F, G, H, I, J, K)| p.5),
                    self.5,
                ),
                extended_one_by_one(
                    start.6,
                    all.take(it.index() as int).map_values(|p: (A, B, C, D, E, F, G, H, I, J, K)| p.6),
                    self.6,
                ),
                extended_one_by_one(
                    start.7,
                    all.take(it.index() as int).map_values(|p: (A, B, C, D, E, F, G, H, I, J, K)| p.7),
                    self.7,
                ),
                extended_one_by_one(
                    start.8,
                    all.take(it.index() as int).map_values(|p: (A, B, C, D, E, F, G, H, I, J, K)| p.8),
                    self.8,
                ),
                extended_one_by_one(
                    start.9,
                    all.take(it.index() as int).map_values(|p: (A, B, C, D, E, F, G, H, I, J, K)| p.9),
                    self.9,
                ),
                extended_one_by_one(
                    start.10,
                    all.take(it.index() as int).map_values(|p: (A, B, C, D, E, F, G, H, I, J, K)| p.10),
                    self.10,
                ),
        {
            let ghost i = it.index() as int;
            let ghost held = *self;
            let ghost taken = all.take(i);
            let ghost more = all.take(i + 1);
            proof {
                assert(all.map_values(|p: (A, B, C, D, E, F, G, H, I, J, K)| p.0).take(i)
                    =~= taken.map_values(|p: (A, B, C, D, E, F, G, H, I, J, K)| p.0));
                one_asks(
                    start.0,
                    all.map_values(|p: (A, B, C, D, E, F, G, H, I, J, K)| p.0),
                    i,
                    held.0,
                );
                assert(all.map_values(|p: (A, B, C, D, E, F, G, H, I, J, K)| p.1).take(i)
                    =~= taken.map_values(|p: (A, B, C, D, E, F, G, H, I, J, K)| p.1));
                one_asks(
                    start.1,
                    all.map_values(|p: (A, B, C, D, E, F, G, H, I, J, K)| p.1),
                    i,
                    held.1,
                );
                assert(all.map_values(|p: (A, B, C, D, E, F, G, H, I, J, K)| p.2).take(i)
                    =~= taken.map_values(|p: (A, B, C, D, E, F, G, H, I, J, K)| p.2));
                one_asks(
                    start.2,
                    all.map_values(|p: (A, B, C, D, E, F, G, H, I, J, K)| p.2),
                    i,
                    held.2,
                );
                assert(all.map_values(|p: (A, B, C, D, E, F, G, H, I, J, K)| p.3).take(i)
                    =~= taken.map_values(|p: (A, B, C, D, E, F, G, H, I, J, K)| p.3));
                one_asks(
                    start.3,
                    all.map_values(|p: (A, B, C, D, E, F, G, H, I, J, K)| p.3),
                    i,
                    held.3,
                );
                assert(all.map_values(|p: (A, B, C, D, E, F, G, H, I, J, K)| p.4).take(i)
                    =~= taken.map_values(|p: (A, B, C, D, E, F, G, H, I, J, K)| p.4));
                one_asks(
                    start.4,
                    all.map_values(|p: (A, B, C, D, E, F, G, H, I, J, K)| p.4),
                    i,
                    held.4,
                );
                assert(all.map_values(|p: (A, B, C, D, E, F, G, H, I, J, K)| p.5).take(i)
                    =~= taken.map_values(|p: (A, B, C, D, E, F, G, H, I, J, K)| p.5));
                one_asks(
                    start.5,
                    all.map_values(|p: (A, B, C, D, E, F, G, H, I, J, K)| p.5),
                    i,
                    held.5,
                );
                assert(all.map_values(|p: (A, B, C, D, E, F, G, H, I, J, K)| p.6).take(i)
                    =~= taken.map_values(|p: (A, B, C, D, E, F, G, H, I, J, K)| p.6));
                one_asks(
                    start.6,
                    all.map_values(|p: (A, B, C, D, E, F, G, H, I, J, K)| p.6),
                    i,
                    held.6,
                );
                assert(all.map_values(|p: (A, B, C, D, E, F, G, H, I, J, K)| p.7).take(i)
                    =~= taken.map_values(|p: (A, B, C, D, E, F, G, H, I, J, K)| p.7));
                one_asks(
                    start.7,
                    all.map_values(|p: (A, B, C, D, E, F, G, H, I, J, K)| p.7),
                    i,
                    held.7,
                );
                assert(all.map_values(|p: (A, B, C, D, E, F, G, H, I, J, K)| p.8).take(i)
                    =~= taken.map_values(|p: (A, B, C, D, E, F, G, H, I, J, K)| p.8));
                one_asks(
                    start.8,
                    all.map_values(|p: (A, B, C, D, E, F, G, H, I, J, K)| p.8),
                    i,
                    held.8,
                );
                assert(all.map_values(|p: (A, B, C, D, E, F, G, H, I, J, K)| p.9).take(i)
                    =~= taken.map_values(|p: (A, B, C, D, E, F, G, H, I, J, K)| p.9));
                one_asks(
                    start.9,
                    all.map_values(|p: (A, B, C, D, E, F, G, H, I, J, K)| p.9),
                    i,
                    held.9,
                );
                assert(all.map_values(|p: (A, B, C, D, E, F, G, H, I, J, K)| p.10).take(i)
                    =~= taken.map_values(|p: (A, B, C, D, E, F, G, H, I, J, K)| p.10));
                one_asks(
                    start.10,
                    all.map_values(|p: (A, B, C, D, E, F, G, H, I, J, K)| p.10),
                    i,
                    held.10,
                );
            }
            extend_one(&mut self.0, item.0)?;
            extend_one(&mut self.1, item.1)?;
            extend_one(&mut self.2, item.2)?;
            extend_one(&mut self.3, item.3)?;
            extend_one(&mut self.4, item.4)?;
            extend_one(&mut self.5, item.5)?;
            extend_one(&mut self.6, item.6)?;
            extend_one(&mut self.7, item.7)?;
            extend_one(&mut self.8, item.8)?;
            extend_one(&mut self.9, item.9)?;
            extend_one(&mut self.10, item.10)?;
            proof {
                one_more(
                    start.0,
                    taken.map_values(|p: (A, B, C, D, E, F, G, H, I, J, K)| p.0),
                    held.0,
                    all[i].0,
                    self.0,
                );
                assert(more.map_values(|p: (A, B, C, D, E, F, G, H, I, J, K)| p.0) =~=
                    taken.map_values(|p: (A, B, C, D, E, F, G, H, I, J, K)| p.0).push(all[i].0));
                one_more(
                    start.1,
                    taken.map_values(|p: (A, B, C, D, E, F, G, H, I, J, K)| p.1),
                    held.1,
                    all[i].1,
                    self.1,
                );
                assert(more.map_values(|p: (A, B, C, D, E, F, G, H, I, J, K)| p.1) =~=
                    taken.map_values(|p: (A, B, C, D, E, F, G, H, I, J, K)| p.1).push(all[i].1));
                one_more(
                    start.2,
                    taken.map_values(|p: (A, B, C, D, E, F, G, H, I, J, K)| p.2),
                    held.2,
                    all[i].2,
                    self.2,
                );
                assert(more.map_values(|p: (A, B, C, D, E, F, G, H, I, J, K)| p.2) =~=
                    taken.map_values(|p: (A, B, C, D, E, F, G, H, I, J, K)| p.2).push(all[i].2));
                one_more(
                    start.3,
                    taken.map_values(|p: (A, B, C, D, E, F, G, H, I, J, K)| p.3),
                    held.3,
                    all[i].3,
                    self.3,
                );
                assert(more.map_values(|p: (A, B, C, D, E, F, G, H, I, J, K)| p.3) =~=
                    taken.map_values(|p: (A, B, C, D, E, F, G, H, I, J, K)| p.3).push(all[i].3));
                one_more(
                    start.4,
                    taken.map_values(|p: (A, B, C, D, E, F, G, H, I, J, K)| p.4),
                    held.4,
                    all[i].4,
                    self.4,
                );
                assert(more.map_values(|p: (A, B, C, D, E, F, G, H, I, J, K)| p.4) =~=
                    taken.map_values(|p: (A, B, C, D, E, F, G, H, I, J, K)| p.4).push(all[i].4));
                one_more(
                    start.5,
                    taken.map_values(|p: (A, B, C, D, E, F, G, H, I, J, K)| p.5),
                    held.5,
                    all[i].5,
                    self.5,
                );
                assert(more.map_values(|p: (A, B, C, D, E, F, G, H, I, J, K)| p.5) =~=
                    taken.map_values(|p: (A, B, C, D, E, F, G, H, I, J, K)| p.5).push(all[i].5));
                one_more(
                    start.6,
                    taken.map_values(|p: (A, B, C, D, E, F, G, H, I, J, K)| p.6),
                    held.6,
                    all[i].6,
                    self.6,
                );
                assert(more.map_values(|p: (A, B, C, D, E, F, G, H, I, J, K)| p.6) =~=
                    taken.map_values(|p: (A, B, C, D, E, F, G, H, I, J, K)| p.6).push(all[i].6));
                one_more(
                    start.7,
                    taken.map_values(|p: (A, B, C, D, E, F, G, H, I, J, K)| p.7),
                    held.7,
                    all[i].7,
                    self.7,
                );
                assert(more.map_values(|p: (A, B, C, D, E, F, G, H, I, J, K)| p.7) =~=
                    taken.map_values(|p: (A, B, C, D, E, F, G, H, I, J, K)| p.7).push(all[i].7));
                one_more(
                    start.8,
                    taken.map_values(|p: (A, B, C, D, E, F, G, H, I, J, K)| p.8),
                    held.8,
                    all[i].8,
                    self.8,
                );
                assert(more.map_values(|p: (A, B, C, D, E, F, G, H, I, J, K)| p.8) =~=
                    taken.map_values(|p: (A, B, C, D, E, F, G, H, I, J, K)| p.8).push(all[i].8));
                one_more(
                    start.9,
                    taken.map_values(|p: (A, B, C, D, E, F, G, H, I, J, K)| p.9),
                    held.9,
                    all[i].9,
                    self.9,
                );
                assert(more.map_values(|p: (A, B, C, D, E, F, G, H, I, J, K)| p.9) =~=
                    taken.map_values(|p: (A, B, C, D, E, F, G, H, I, J, K)| p.9).push(all[i].9));
                one_more(
                    start.10,
                    taken.map_values(|p: (A, B, C, D, E, F, G, H, I, J, K)| p.10),
                    held.10,
                    all[i].10,
                    self.10,
                );
                assert(more.map_values(|p: (A, B, C, D, E, F, G, H, I, J, K)| p.10) =~=
                    taken.map_values(|p: (A, B, C, D, E, F, G, H, I, J, K)| p.10).push(all[i].10));
            }
        }
        assert(all.take(all.len() as int) =~= all);
        assert(!Self::stops_extending(*old(self), items@));
        Ok(false)
    }
}

impl<
    A,
    B,
    C,
    D,
    E,
    F,
    G,
    H,
    I,
    J,
    K,
    L,
    FromA: TursoFromIterator<A>,
    FromB: TursoFromIterator<B>,
    FromC: TursoFromIterator<C>,
    FromD: TursoFromIterator<D>,
    FromE: TursoFromIterator<E>,
    FromF: TursoFromIterator<F>,
    FromG: TursoFromIterator<G>,
    FromH: TursoFromIterator<H>,
    FromI: TursoFromIterator<I>,
    FromJ: TursoFromIterator<J>,
    FromK: TursoFromIterator<K>,
    FromL: TursoFromIterator<L>,
> TursoFromIterator<(A, B, C, D, E, F, G, H, I, J, K, L)> for (FromA, FromB, FromC, FromD, FromE, FromF, FromG, FromH, FromI, FromJ, FromK, FromL) {
    open spec fn collected(
        items: Seq<(A, B, C, D, E, F, G, H, I, J, K, L)>,
        r: (FromA, FromB, FromC, FromD, FromE, FromF, FromG, FromH, FromI, FromJ, FromK, FromL),
    ) -> bool {
        &&& collected_one_by_one(
            items.map_values(|p: (A, B, C, D, E, F, G, H, I, J, K, L)| p.0),
            r.0,
        )
        &&& collected_one_by_one(
            items.map_values(|p: (A, B, C, D, E, F, G, H, I, J, K, L)| p.1),
            r.1,
        )
        &&& collected_one_by_one(
            items.map_values(|p: (A, B, C, D, E, F, G, H, I, J, K, L)| p.2),
            r.2,
        )
        &&& collected_one_by_one(
            items.map_values(|p: (A, B, C, D, E, F, G, H, I, J, K, L)| p.3),
            r.3,
        )
        &&& collected_one_by_one(
            items.map_values(|p: (A, B, C, D, E, F, G, H, I, J, K, L)| p.4),
            r.4,
        )
        &&& collected_one_by_one(
            items.map_values(|p: (A, B, C, D, E, F, G, H, I, J, K, L)| p.5),
            r.5,
        )
        &&& collected_one_by_one(
            items.map_values(|p: (A, B, C, D, E, F, G, H, I, J, K, L)| p.6),
            r.6,
        )
        &&& collected_one_by_one(
            items.map_values(|p: (A, B, C, D, E, F, G, H, I, J, K, L)| p.7),
            r.7,
        )
        &&& collected_one_by_one(
            items.map_values(|p: (A, B, C, D, E, F, G, H, I, J, K, L)| p.8),
            r.8,
        )
        &&& collected_one_by_one(
            items.map_values(|p: (A, B, C, D, E, F, G, H, I, J, K, L)| p.9),
            r.9,
        )
        &&& collected_one_by_one(
            items.map_values(|p: (A, B, C, D, E, F, G, H, I, J, K, L)| p.10),
            r.10,
        )
        &&& collected_one_by_one(
            items.map_values(|p: (A, B, C, D, E, F, G, H, I, J, K, L)| p.11),
            r.11,
        )
    }

    open spec fn extended(
        before: (FromA, FromB, FromC, FromD, FromE, FromF, FromG, FromH, FromI, FromJ, FromK, FromL),
        items: Seq<(A, B, C, D, E, F, G, H, I, J, K, L)>,
        after: (FromA, FromB, FromC, FromD, FromE, FromF, FromG, FromH, FromI, FromJ, FromK, FromL),
    ) -> bool {
        &&& extended_one_by_one(
            before.0,
            items.map_values(|p: (A, B, C, D, E, F, G, H, I, J, K, L)| p.0),
            after.0,
        )
        &&& extended_one_by_one(
            before.1,
            items.map_values(|p: (A, B, C, D, E, F, G, H, I, J, K, L)| p.1),
            after.1,
        )
        &&& extended_one_by_one(
            before.2,
            items.map_values(|p: (A, B, C, D, E, F, G, H, I, J, K, L)| p.2),
            after.2,
        )
        &&& extended_one_by_one(
            before.3,
            items.map_values(|p: (A, B, C, D, E, F, G, H, I, J, K, L)| p.3),
            after.3,
        )
        &&& extended_one_by_one(
            before.4,
            items.map_values(|p: (A, B, C, D, E, F, G, H, I, J, K, L)| p.4),
            after.4,
        )
        &&& extended_one_by_one(
            before.5,
            items.map_values(|p: (A, B, C, D, E, F, G, H, I, J, K, L)| p.5),
            after.5,
        )
        &&& extended_one_by_one(
            before.6,
            items.map_values(|p: (A, B, C, D, E, F, G, H, I, J, K, L)| p.6),
            after.6,
        )
        &&& extended_one_by_one(
            before.7,
            items.map_values(|p: (A, B, C, D, E, F, G, H, I, J, K, L)| p.7),
            after.7,
        )
        &&& extended_one_by_one(
            before.8,
            items.map_values(|p: (A, B, C, D, E, F, G, H, I, J, K, L)| p.8),
            after.8,
        )
        &&& extended_one_by_one(
            before.9,
            items.map_values(|p: (A, B, C, D, E, F, G, H, I, J, K, L)| p.9),
            after.9,
        )
        &&& extended_one_by_one(
            before.10,
            items.map_values(|p: (A, B, C, D, E, F, G, H, I, J, K, L)| p.10),
            after.10,
        )
        &&& extended_one_by_one(
            before.11,
            items.map_values(|p: (A, B, C, D, E, F, G, H, I, J, K, L)| p.11),
            after.11,
        )
    }

    open spec fn stops(items: Seq<(A, B, C, D, E, F, G, H, I, J, K, L)>) -> bool {
        false
    }

    open spec fn stops_extending(
        before: (FromA, FromB, FromC, FromD, FromE, FromF, FromG, FromH, FromI, FromJ, FromK, FromL),
        items: Seq<(A, B, C, D, E, F, G, H, I, J, K, L)>,
    ) -> bool {
        false
    }

    open spec fn free_to_collect(items: Seq<(A, B, C, D, E, F, G, H, I, J, K, L)>) -> bool {
        &&& free_from_nothing::<A, FromA>(
            items.map_values(|p: (A, B, C, D, E, F, G, H, I, J, K, L)| p.0),
        )
        &&& free_from_nothing::<B, FromB>(
            items.map_values(|p: (A, B, C, D, E, F, G, H, I, J, K, L)| p.1),
        )
        &&& free_from_nothing::<C, FromC>(
            items.map_values(|p: (A, B, C, D, E, F, G, H, I, J, K, L)| p.2),
        )
        &&& free_from_nothing::<D, FromD>(
            items.map_values(|p: (A, B, C, D, E, F, G, H, I, J, K, L)| p.3),
        )
        &&& free_from_nothing::<E, FromE>(
            items.map_values(|p: (A, B, C, D, E, F, G, H, I, J, K, L)| p.4),
        )
        &&& free_from_nothing::<F, FromF>(
            items.map_values(|p: (A, B, C, D, E, F, G, H, I, J, K, L)| p.5),
        )
        &&& free_from_nothing::<G, FromG>(
            items.map_values(|p: (A, B, C, D, E, F, G, H, I, J, K, L)| p.6),
        )
        &&& free_from_nothing::<H, FromH>(
            items.map_values(|p: (A, B, C, D, E, F, G, H, I, J, K, L)| p.7),
        )
        &&& free_from_nothing::<I, FromI>(
            items.map_values(|p: (A, B, C, D, E, F, G, H, I, J, K, L)| p.8),
        )
        &&& free_from_nothing::<J, FromJ>(
            items.map_values(|p: (A, B, C, D, E, F, G, H, I, J, K, L)| p.9),
        )
        &&& free_from_nothing::<K, FromK>(
            items.map_values(|p: (A, B, C, D, E, F, G, H, I, J, K, L)| p.10),
        )
        &&& free_from_nothing::<L, FromL>(
            items.map_values(|p: (A, B, C, D, E, F, G, H, I, J, K, L)| p.11),
        )
    }

    open spec fn free_to_extend(
        before: (FromA, FromB, FromC, FromD, FromE, FromF, FromG, FromH, FromI, FromJ, FromK, FromL),
        items: Seq<(A, B, C, D, E, F, G, H, I, J, K, L)>,
    ) -> bool {
        &&& free_one_by_one(
            before.0,
            items.map_values(|p: (A, B, C, D, E, F, G, H, I, J, K, L)| p.0),
        )
        &&& free_one_by_one(
            before.1,
            items.map_values(|p: (A, B, C, D, E, F, G, H, I, J, K, L)| p.1),
        )
        &&& free_one_by_one(
            before.2,
            items.map_values(|p: (A, B, C, D, E, F, G, H, I, J, K, L)| p.2),
        )
        &&& free_one_by_one(
            before.3,
            items.map_values(|p: (A, B, C, D, E, F, G, H, I, J, K, L)| p.3),
        )
        &&& free_one_by_one(
            before.4,
            items.map_values(|p: (A, B, C, D, E, F, G, H, I, J, K, L)| p.4),
        )
        &&& free_one_by_one(
            before.5,
            items.map_values(|p: (A, B, C, D, E, F, G, H, I, J, K, L)| p.5),
        )
        &&& free_one_by_one(
            before.6,
            items.map_values(|p: (A, B, C, D, E, F, G, H, I, J, K, L)| p.6),
        )
        &&& free_one_by_one(
            before.7,
            items.map_values(|p: (A, B, C, D, E, F, G, H, I, J, K, L)| p.7),
        )
        &&& free_one_by_one(
            before.8,
            items.map_values(|p: (A, B, C, D, E, F, G, H, I, J, K, L)| p.8),
        )
        &&& free_one_by_one(
            before.9,
            items.map_values(|p: (A, B, C, D, E, F, G, H, I, J, K, L)| p.9),
        )
        &&& free_one_by_one(
            before.10,
            items.map_values(|p: (A, B, C, D, E, F, G, H, I, J, K, L)| p.10),
        )
        &&& free_one_by_one(
            before.11,
            items.map_values(|p: (A, B, C, D, E, F, G, H, I, J, K, L)| p.11),
        )
    }

    proof fn collecting_reads_no_further(
        items: Seq<(A, B, C, D, E, F, G, H, I, J, K, L)>,
        more: Seq<(A, B, C, D, E, F, G, H, I, J, K, L)>,
        r: (FromA, FromB, FromC, FromD, FromE, FromF, FromG, FromH, FromI, FromJ, FromK, FromL),
    ) {
    }

    proof fn extending_reads_no_further(
        before: (FromA, FromB, FromC, FromD, FromE, FromF, FromG, FromH, FromI, FromJ, FromK, FromL),
        items: Seq<(A, B, C, D, E, F, G, H, I, J, K, L)>,
        more: Seq<(A, B, C, D, E, F, G, H, I, J, K, L)>,
        after: (FromA, FromB, FromC, FromD, FromE, FromF, FromG, FromH, FromI, FromJ, FromK, FromL),
    ) {
    }

    fn collect_and_report(
        items: Vec<(A, B, C, D, E, F, G, H, I, J, K, L)>,
    ) -> (r: Result<
        ((FromA, FromB, FromC, FromD, FromE, FromF, FromG, FromH, FromI, FromJ, FromK, FromL), bool),
        TryReserveError,
    >) {
        let empty_a = FromA::try_from_iter(Vec::new())?;
        let empty_b = FromB::try_from_iter(Vec::new())?;
        let empty_c = FromC::try_from_iter(Vec::new())?;
        let empty_d = FromD::try_from_iter(Vec::new())?;
        let empty_e = FromE::try_from_iter(Vec::new())?;
        let empty_f = FromF::try_from_iter(Vec::new())?;
        let empty_g = FromG::try_from_iter(Vec::new())?;
        let empty_h = FromH::try_from_iter(Vec::new())?;
        let empty_i = FromI::try_from_iter(Vec::new())?;
        let empty_j = FromJ::try_from_iter(Vec::new())?;
        let empty_k = FromK::try_from_iter(Vec::new())?;
        let empty_l = FromL::try_from_iter(Vec::new())?;
        let mut values = (empty_a, empty_b, empty_c, empty_d, empty_e, empty_f, empty_g, empty_h, empty_i, empty_j, empty_k, empty_l);
        values.try_extend(items)?;
        assert(!Self::stops(items@));
        Ok((values, false))
    }

    fn extend_and_report(
        &mut self,
        items: Vec<(A, B, C, D, E, F, G, H, I, J, K, L)>,
    ) -> (r: Result<bool, TryReserveError>) {
        let ghost start = *self;
        let ghost all = items@;
        proof {
            assert(all.take(0).map_values(|p: (A, B, C, D, E, F, G, H, I, J, K, L)| p.0)
                =~= Seq::empty());
            assert(all.take(0).map_values(|p: (A, B, C, D, E, F, G, H, I, J, K, L)| p.1)
                =~= Seq::empty());
            assert(all.take(0).map_values(|p: (A, B, C, D, E, F, G, H, I, J, K, L)| p.2)
                =~= Seq::empty());
            assert(all.take(0).map_values(|p: (A, B, C, D, E, F, G, H, I, J, K, L)| p.3)
                =~= Seq::empty());
            assert(all.take(0).map_values(|p: (A, B, C, D, E, F, G, H, I, J, K, L)| p.4)
                =~= Seq::empty());
            assert(all.take(0).map_values(|p: (A, B, C, D, E, F, G, H, I, J, K, L)| p.5)
                =~= Seq::empty());
            assert(all.take(0).map_values(|p: (A, B, C, D, E, F, G, H, I, J, K, L)| p.6)
                =~= Seq::empty());
            assert(all.take(0).map_values(|p: (A, B, C, D, E, F, G, H, I, J, K, L)| p.7)
                =~= Seq::empty());
            assert(all.take(0).map_values(|p: (A, B, C, D, E, F, G, H, I, J, K, L)| p.8)
                =~= Seq::empty());
            assert(all.take(0).map_values(|p: (A, B, C, D, E, F, G, H, I, J, K, L)| p.9)
                =~= Seq::empty());
            assert(all.take(0).map_values(|p: (A, B, C, D, E, F, G, H, I, J, K, L)| p.10)
                =~= Seq::empty());
            assert(all.take(0).map_values(|p: (A, B, C, D, E, F, G, H, I, J, K, L)| p.11)
                =~= Seq::empty());
        }
        for item in it: items.into_iter()
            invariant
                it.seq() == all,
                all == items@,
                start == *old(self),
                extended_one_by_one(
                    start.0,
                    all.take(it.index() as int).map_values(|p: (A, B, C, D, E, F, G, H, I, J, K, L)| p.0),
                    self.0,
                ),
                extended_one_by_one(
                    start.1,
                    all.take(it.index() as int).map_values(|p: (A, B, C, D, E, F, G, H, I, J, K, L)| p.1),
                    self.1,
                ),
                extended_one_by_one(
                    start.2,
                    all.take(it.index() as int).map_values(|p: (A, B, C, D, E, F, G, H, I, J, K, L)| p.2),
                    self.2,
                ),
                extended_one_by_one(
                    start.3,
                    all.take(it.index() as int).map_values(|p: (A, B, C, D, E, F, G, H, I, J, K, L)| p.3),
                    self.3,
                ),
                extended_one_by_one(
                    start.4,
                    all.take(it.index() as int).map_values(|p: (A, B, C, D, E, F, G, H, I, J, K, L)| p.4),
                    self.4,
                ),
                extended_one_by_one(
                    start.5,
                    all.take(it.index() as int).map_values(|p: (A, B, C, D, E, F, G, H, I, J, K, L)| p.5),
                    self.5,
                ),
                extended_one_by_one(
                    start.6,
                    all.take(it.index() as int).map_values(|p: (A, B, C, D, E, F, G, H, I, J, K, L)| p.6),
                    self.6,
                ),
                extended_one_by_one(
                    start.7,
                    all.take(it.index() as int).map_values(|p: (A, B, C, D, E, F, G, H, I, J, K, L)| p.7),
                    self.7,
                ),
                extended_one_by_one(
                    start.8,
                    all.take(it.index() as int).map_values(|p: (A, B, C, D, E, F, G, H, I, J, K, L)| p.8),
                    self.8,
                ),
                extended_one_by_one(
                    start.9,
                    all.take(it.index() as int).map_values(|p: (A, B, C, D, E, F, G, H, I, J, K, L)| p.9),
                    self.9,
                ),
                extended_one_by_one(
                    start.10,
                    all.take(it.index() as int).map_values(|p: (A, B, C, D, E, F, G, H, I, J, K, L)| p.10),
                    self.10,
                ),
                extended_one_by_one(
                    start.11,
                    all.take(it.index() as int).map_values(|p: (A, B, C, D, E, F, G, H, I, J, K, L)| p.11),
                    self.11,
                ),
        {
            let ghost i = it.index() as int;
            let ghost held = *self;
            let ghost taken = all.take(i);
            let ghost more = all.take(i + 1);
            proof {
                assert(all.map_values(|p: (A, B, C, D, E, F, G, H, I, J, K, L)| p.0).take(i)
                    =~= taken.map_values(|p: (A, B, C, D, E, F, G, H, I, J, K, L)| p.0));
                one_asks(
                    start.0,
                    all.map_values(|p: (A, B, C, D, E, F, G, H, I, J, K, L)| p.0),
                    i,
                    held.0,
                );
                assert(all.map_values(|p: (A, B, C, D, E, F, G, H, I, J, K, L)| p.1).take(i)
                    =~= taken.map_values(|p: (A, B, C, D, E, F, G, H, I, J, K, L)| p.1));
                one_asks(
                    start.1,
                    all.map_values(|p: (A, B, C, D, E, F, G, H, I, J, K, L)| p.1),
                    i,
                    held.1,
                );
                assert(all.map_values(|p: (A, B, C, D, E, F, G, H, I, J, K, L)| p.2).take(i)
                    =~= taken.map_values(|p: (A, B, C, D, E, F, G, H, I, J, K, L)| p.2));
                one_asks(
                    start.2,
                    all.map_values(|p: (A, B, C, D, E, F, G, H, I, J, K, L)| p.2),
                    i,
                    held.2,
                );
                assert(all.map_values(|p: (A, B, C, D, E, F, G, H, I, J, K, L)| p.3).take(i)
                    =~= taken.map_values(|p: (A, B, C, D, E, F, G, H, I, J, K, L)| p.3));
                one_asks(
                    start.3,
                    all.map_values(|p: (A, B, C, D, E, F, G, H, I, J, K, L)| p.3),
                    i,
                    held.3,
                );
                assert(all.map_values(|p: (A, B, C, D, E, F, G, H, I, J, K, L)| p.4).take(i)
                    =~= taken.map_values(|p: (A, B, C, D, E, F, G, H, I, J, K, L)| p.4));
                one_asks(
                    start.4,
                    all.map_values(|p: (A, B, C, D, E, F, G, H, I, J, K, L)| p.4),
                    i,
                    held.4,
                );
                assert(all.map_values(|p: (A, B, C, D, E, F, G, H, I, J, K, L)| p.5).take(i)
                    =~= taken.map_values(|p: (A, B, C, D, E, F, G, H, I, J, K, L)| p.5));
                one_asks(
                    start.5,
                    all.map_values(|p: (A, B, C, D, E, F, G, H, I, J, K, L)| p.5),
                    i,
                    held.5,
                );
                assert(all.map_values(|p: (A, B, C, D, E, F, G, H, I, J, K, L)| p.6).take(i)
                    =~= taken.map_values(|p: (A, B, C, D, E, F, G, H, I, J, K, L)| p.6));
                one_asks(
                    start.6,
                    all.map_values(|p: (A, B, C, D, E, F, G, H, I, J, K, L)| p.6),
                    i,
                    held.6,
                );
                assert(all.map_values(|p: (A, B, C, D, E, F, G, H, I, J, K, L)| p.7).take(i)
                    =~= taken.map_values(|p: (A, B, C, D, E, F, G, H, I, J, K, L)| p.7));
                one_asks(
                    start.7,
                    all.map_values(|p: (A, B, C, D, E, F, G, H, I, J, K, L)| p.7),
                    i,
                    held.7,
                );
                assert(all.map_values(|p: (A, B, C, D, E, F, G, H, I, J, K, L)| p.8).take(i)
                    =~= taken.map_values(|p: (A, B, C, D, E, F, G, H, I, J, K, L)| p.8));
                one_asks(
                    start.8,
                    all.map_values(|p: (A, B, C, D, E, F, G, H, I, J, K, L)| p.8),
                    i,
                    held.8,
                );
                assert(all.map_values(|p: (A, B, C, D, E, F, G, H, I, J, K, L)| p.9).take(i)
                    =~= taken.map_values(|p: (A, B, C, D, E, F, G, H, I, J, K, L)| p.9));
                one_asks(
                    start.9,
                    all.map_values(|p: (A, B, C, D, E, F, G, H, I, J, K, L)| p.9),
                    i,
                    held.9,
                );
                assert(all.map_values(|p: (A, B, C, D, E, F, G, H, I, J, K, L)| p.10).take(i)
                    =~= taken.map_values(|p: (A, B, C, D, E, F, G, H, I, J, K, L)| p.10));
                one_asks(
                    start.10,
                    all.map_values(|p: (A, B, C, D, E, F, G, H, I, J, K, L)| p.10),
                    i,
                    held.10,
                );
                assert(all.map_values(|p: (A, B, C, D, E, F, G, H, I, J, K, L)| p.11).take(i)
                    =~= taken.map_values(|p: (A, B, C, D, E, F, G, H, I, J, K, L)| p.11));
                one_asks(
                    start.11,
                    all.map_values(|p: (A, B, C, D, E, F, G, H, I, J, K, L)| p.11),
                    i,
                    held.11,
                );
            }
            extend_one(&mut self.0, item.0)?;
            extend_one(&mut self.1, item.1)?;
            extend_one(&mut self.2, item.2)?;
            extend_one(&mut self.3, item.3)?;
            extend_one(&mut self.4, item.4)?;
            extend_one(&mut self.5, item.5)?;
            extend_one(&mut self.6, item.6)?;
            extend_one(&mut self.7, item.7)?;
            extend_one(&mut self.8, item.8)?;
            extend_one(&mut self.9, item.9)?;
            extend_one(&mut self.10, item.10)?;
            extend_one(&mut self.11, item.11)?;
            proof {
                one_more(
                    start.0,
                    taken.map_values(|p: (A, B, C, D, E, F, G, H, I, J, K, L)| p.0),
                    held.0,
                    all[i].0,
                    self.0,
                );
                assert(more.map_values(|p: (A, B, C, D, E, F, G, H, I, J, K, L)| p.0) =~=
                    taken.map_values(|p: (A, B, C, D, E, F, G, H, I, J, K, L)| p.0).push(all[i].0));
                one_more(
                    start.1,
                    taken.map_values(|p: (A, B, C, D, E, F, G, H, I, J, K, L)| p.1),
                    held.1,
                    all[i].1,
                    self.1,
                );
                assert(more.map_values(|p: (A, B, C, D, E, F, G, H, I, J, K, L)| p.1) =~=
                    taken.map_values(|p: (A, B, C, D, E, F, G, H, I, J, K, L)| p.1).push(all[i].1));
                one_more(
                    start.2,
                    taken.map_values(|p: (A, B, C, D, E, F, G, H, I, J, K, L)| p.2),
                    held.2,
                    all[i].2,
                    self.2,
                );
                assert(more.map_values(|p: (A, B, C, D, E, F, G, H, I, J, K, L)| p.2) =~=
                    taken.map_values(|p: (A, B, C, D, E, F, G, H, I, J, K, L)| p.2).push(all[i].2));
                one_more(
                    start.3,
                    taken.map_values(|p: (A, B, C, D, E, F, G, H, I, J, K, L)| p.3),
                    held.3,
                    all[i].3,
                    self.3,
                );
                assert(more.map_values(|p: (A, B, C, D, E, F, G, H, I, J, K, L)| p.3) =~=
                    taken.map_values(|p: (A, B, C, D, E, F, G, H, I, J, K, L)| p.3).push(all[i].3));
                one_more(
                    start.4,
                    taken.map_values(|p: (A, B, C, D, E, F, G, H, I, J, K, L)| p.4),
                    held.4,
                    all[i].4,
                    self.4,
                );
                assert(more.map_values(|p: (A, B, C, D, E, F, G, H, I, J, K, L)| p.4) =~=
                    taken.map_values(|p: (A, B, C, D, E, F, G, H, I, J, K, L)| p.4).push(all[i].4));
                one_more(
                    start.5,
                    taken.map_values(|p: (A, B, C, D, E, F, G, H, I, J, K, L)| p.5),
                    held.5,
                    all[i].5,
                    self.5,
                );
                assert(more.map_values(|p: (A, B, C, D, E, F, G, H, I, J, K, L)| p.5) =~=
                    taken.map_values(|p: (A, B, C, D, E, F, G, H, I, J, K, L)| p.5).push(all[i].5));
                one_more(
                    start.6,
                    taken.map_values(|p: (A, B, C, D, E, F, G, H, I, J, K, L)| p.6),
                    held.6,
                    all[i].6,
                    self.6,
                );
                assert(more.map_values(|p: (A, B, C, D, E, F, G, H, I, J, K, L)| p.6) =~=
                    taken.map_values(|p: (A, B, C, D, E, F, G, H, I, J, K, L)| p.6).push(all[i].6));
                one_more(
                    start.7,
                    taken.map_values(|p: (A, B, C, D, E, F, G, H, I, J, K, L)| p.7),
                    held.7,
                    all[i].7,
                    self.7,
                );
                assert(more.map_values(|p: (A, B, C, D, E, F, G, H, I, J, K, L)| p.7) =~=
                    taken.map_values(|p: (A, B, C, D, E, F, G, H, I, J, K, L)| p.7).push(all[i].7));
                one_more(
                    start.8,
                    taken.map_values(|p: (A, B, C, D, E, F, G, H, I, J, K, L)| p.8),
                    held.8,
                    all[i].8,
                    self.8,
                );
                assert(more.map_values(|p: (A, B, C, D, E, F, G, H, I, J, K, L)| p.8) =~=
                    taken.map_values(|p: (A, B, C, D, E, F, G, H, I, J, K, L)| p.8).push(all[i].8));
                one_more(
                    start.9,
                    taken.map_values(|p: (A, B, C, D, E, F, G, H, I, J, K, L)| p.9),
                    held.9,
                    all[i].9,
                    self.9,
                );
                assert(more.map_values(|p: (A, B, C, D, E, F, G, H, I, J, K, L)| p.9) =~=
                    taken.map_values(|p: (A, B, C, D, E, F, G, H, I, J, K, L)| p.9).push(all[i].9));
                one_more(
                    start.10,
                    taken.map_values(|p: (A, B, C, D, E, F, G, H, I, J, K, L)| p.10),
                    held.10,
                    all[i].10,
                    self.10,
                );
                assert(more.map_values(|p: (A, B, C, D, E, F, G, H, I, J, K, L)| p.10) =~=
                    taken.map_values(|p: (A, B, C, D, E, F, G, H, I, J, K, L)| p.10).push(all[i].10));
                one_more(
                    start.11,
                    taken.map_values(|p: (A, B, C, D, E, F, G, H, I, J, K, L)| p.11),
                    held.11,
                    all[i].11,
                    self.11,
                );
                assert(more.map_values(|p: (A, B, C, D, E, F, G, H, I, J, K, L)| p.11) =~=
                    taken.map_values(|p: (A, B, C, D, E, F, G, H, I, J, K, L)| p.11).push(all[i].11));
            }
        }
        assert(all.take(all.len() as int) =~= all);
        assert(!Self::stops_extending(*old(self), items@));
        Ok(false)
    }
}

} // verus!
