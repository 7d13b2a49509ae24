use tursokit::memory::collect::{
    gather_present, gather_succeeded, seen_error, settle_extended_option, settle_option,
    settle_result, trusted_len, TryReserveError, TursoFromIterator,
};
use tursokit::memory::site::{
    current_allocation_site, enter_allocation_site, AllocationSite, AllocationSiteSlot,
    BTreeAllocationSite, MvStoreAllocationSite,
};

#[test]
fn allocation_site_guard_restores_previous_site() {
    let mut slot = AllocationSiteSlot::new();
    assert_eq!(current_allocation_site(&slot), None);
    {
        let outer = enter_allocation_site(&mut slot, MvStoreAllocationSite::RootpageMappingInsert);
        assert_eq!(
            current_allocation_site(&slot),
            Some(AllocationSite::MvStore(
                MvStoreAllocationSite::RootpageMappingInsert
            ))
        );

        {
            let inner = enter_allocation_site(&mut slot, AllocationSite::NoFaultInjection);
            assert_eq!(
                current_allocation_site(&slot),
                Some(AllocationSite::NoFaultInjection)
            );
            inner.leave(&mut slot);
        }

        assert_eq!(
            current_allocation_site(&slot),
            Some(AllocationSite::MvStore(
                MvStoreAllocationSite::RootpageMappingInsert
            ))
        );
        outer.leave(&mut slot);
    }
    assert_eq!(current_allocation_site(&slot), None);
}

#[test]
fn no_fault_injection_site_dominates_nested_sites() {
    let mut slot = AllocationSiteSlot::new();
    let _outer = enter_allocation_site(&mut slot, AllocationSite::NoFaultInjection);
    assert_eq!(
        current_allocation_site(&slot),
        Some(AllocationSite::NoFaultInjection)
    );
    {
        let inner = enter_allocation_site(&mut slot, MvStoreAllocationSite::RowVersionReserve);
        assert_eq!(
            current_allocation_site(&slot),
            Some(AllocationSite::NoFaultInjection)
        );
        inner.leave(&mut slot);
    }
    assert_eq!(
        current_allocation_site(&slot),
        Some(AllocationSite::NoFaultInjection)
    );
}

#[test]
fn parts_of_the_engine_have_sites() {
    let site: AllocationSite = BTreeAllocationSite::Balance.into();
    assert_eq!(site, AllocationSite::BTree(BTreeAllocationSite::Balance));
}

#[test]
fn missing_items_end_a_collection() {
    let all: Option<Vec<i32>> =
        TursoFromIterator::try_from_iter(vec![Some(1), Some(2)]).unwrap();
    assert_eq!(all, Some(vec![1, 2]));
    let none: Option<Vec<i32>> =
        TursoFromIterator::try_from_iter(vec![Some(1), None, Some(3)]).unwrap();
    assert_eq!(none, None);
    let mut some = Some(vec![1]);
    some.try_extend(vec![Some(2), Some(3)]).unwrap();
    assert_eq!(some, Some(vec![1, 2, 3]));
    some.try_extend(vec![None]).unwrap();
    assert_eq!(some, None);
    some.try_extend(vec![Some(4)]).unwrap();
    assert_eq!(some, None);
}

#[test]
fn nothing_to_add_asks_for_nothing() {
    let mut held = vec![1, 2];
    assert_eq!(held.try_extend(Vec::new()), Ok(()));
    assert_eq!(held, vec![1, 2]);
    let mut some = Some(vec![1, 2]);
    assert_eq!(some.try_extend(vec![None, Some(3)]), Ok(()));
    assert_eq!(some, None);
}

#[test]
fn items_behind_a_stop_are_not_looked_at() {
    type Nested = Result<Option<Vec<u8>>, u8>;
    let mut r: Nested = Ok(None);
    assert_eq!(r.try_extend(vec![Err::<Option<u8>, u8>(7)]), Ok(()));
    assert_eq!(r, Ok(None));
    let mut some: Option<Option<Vec<u8>>> = Some(None);
    assert_eq!(some.try_extend(vec![None::<Option<u8>>]), Ok(()));
    assert_eq!(some, Some(None));
    assert_eq!(some.try_extend(vec![Some(Some(1)), None]), Ok(()));
    assert_eq!(some, Some(None));
    let r: Nested =
        TursoFromIterator::try_from_iter(vec![Ok::<Option<u8>, u8>(None), Err(7)]).unwrap();
    assert_eq!(r, Ok(None));
    // What stands before the stop is looked at.
    let r: Nested =
        TursoFromIterator::try_from_iter(vec![Ok(Some(1)), Err::<Option<u8>, u8>(7), Ok(None)])
            .unwrap();
    assert_eq!(r, Err(7));
    let mut pair: (Option<Vec<u8>>,) = (None,);
    assert_eq!(pair.try_extend(vec![(Some(1),), (None,)]), Ok(()));
    assert_eq!(pair, (None,));
}

#[test]
fn outcomes_are_settled() {
    let refused: Result<Vec<u8>, TryReserveError> = Err(TryReserveError);
    assert_eq!(settle_option(refused, true), Err(TryReserveError));
    assert_eq!(settle_option(Ok(vec![1]), true), Ok(None));
    assert_eq!(settle_option(Ok(vec![1]), false), Ok(Some(vec![1])));
    let r: Result<Result<Vec<u8>, String>, TryReserveError> = settle_result(Ok(vec![1]), Some("e"));
    assert_eq!(r, Ok(Err("e".to_string())));
    let r: Result<Result<Vec<u8>, String>, TryReserveError> =
        settle_result(Ok(vec![1]), None::<&'static str>);
    assert_eq!(r, Ok(Ok(vec![1])));
    assert_eq!(
        settle_extended_option(vec![1], Err(TryReserveError), true),
        (Some(vec![1]), Err(TryReserveError))
    );
    assert_eq!(
        settle_extended_option(vec![1], Ok(true), true),
        (Some(vec![1]), Ok(true))
    );
    assert_eq!(
        settle_extended_option(vec![1], Ok(false), true),
        (None, Ok(true))
    );
    assert_eq!(seen_error(Ok(true), Some(7)), Ok((None, true)));
    assert_eq!(seen_error(Ok(false), Some(7)), Ok((Some(7), true)));
    assert_eq!(seen_error(Ok(false), None::<u8>), Ok((None, false)));
    let mut values = vec![9];
    assert!(gather_present(&mut values, vec![Some(1), None, Some(2)]));
    assert_eq!(values, [9, 1]);
    assert_eq!(gather_succeeded(&mut values, vec![Ok(2), Err('x')]), Some('x'));
    assert_eq!(values, [9, 1, 2]);
}

#[test]
fn the_first_error_ends_a_collection() {
    let items: Vec<Result<i32, &'static str>> = vec![Ok(1), Err("first"), Err("second")];
    let r: Result<Vec<i32>, String> = TursoFromIterator::try_from_iter(items).unwrap();
    assert_eq!(r, Err("first".to_string()));
    let mut r: Result<Vec<i32>, String> = Ok(vec![1]);
    r.try_extend(vec![Ok::<i32, &'static str>(2)]).unwrap();
    assert_eq!(r, Ok(vec![1, 2]));
    r.try_extend(vec![Err::<i32, &'static str>("late")]).unwrap();
    assert_eq!(r, Err("late".to_string()));
    r.try_extend(vec![Ok::<i32, &'static str>(2)]).unwrap();
    assert_eq!(r, Err("late".to_string()));
}

#[test]
fn pairs_are_collected_apart() {
    let (numbers, names): (Vec<i32>, Option<Vec<char>>) =
        TursoFromIterator::try_from_iter(vec![(1, Some('a')), (2, Some('b'))]).unwrap();
    assert_eq!(numbers, [1, 2]);
    assert_eq!(names, Some(vec!['a', 'b']));
    let (numbers, names): (Vec<i32>, Option<Vec<char>>) =
        TursoFromIterator::try_from_iter(vec![(1, None), (2, Some('b'))]).unwrap();
    assert_eq!(numbers, [1, 2]);
    assert_eq!(names, None);
}

#[test]
fn exact_counts_are_trusted() {
    assert_eq!(trusted_len((3, Some(3))), Ok(3));
    assert_eq!(trusted_len((usize::MAX, None)), Err(TryReserveError));
}
