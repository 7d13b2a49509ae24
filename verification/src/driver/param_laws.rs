//! That parameters keep their order.

use vstd::prelude::*;
use crate::driver::error::ErrorModel;
use crate::driver::params;
use crate::driver::params::{IntoParams, IntoValue, ParamsModel};
use crate::value::ValueModel;

verus! {

/// Values of a list become parameters one for one, in their order. Where one of
/// them cannot be converted, none is.
pub proof fn lists_keep_their_order<T: IntoValue>(items: Seq<T>, n: nat)
    requires
        n <= items.len(),
    ensures
        match params::values_of(items, n) {
            Ok(values) => values.len() == n && forall|i: int|
                0 <= i < n ==> (#[trigger] items[i]).value() == Ok::<ValueModel, ErrorModel>(
                    values[i],
                ),
            Err(e) => exists|i: int|
                0 <= i < n && (#[trigger] items[i]).value() == Err::<ValueModel, ErrorModel>(e),
        },
    decreases n,
{
    if n > 0 {
        let k = (n - 1) as nat;
        lists_keep_their_order(items, k);
        match params::values_of(items, n) {
            Ok(values) => {
                let before = params::values_of(items, k)->Ok_0;
                assert forall|i: int| 0 <= i < n implies (#[trigger] items[i]).value() == Ok::<
                    ValueModel,
                    ErrorModel,
                >(values[i]) by {
                    if i < k {
                        assert(values[i] == before[i]);
                    }
                }
            },
            Err(e) => {
                if params::values_of(items, k) is Ok {
                    assert(items[k as int].value() == Err::<ValueModel, ErrorModel>(e));
                }
            },
        }
    }
}

/// Named values of a list become parameters under their names, in their order.
pub proof fn named_lists_keep_their_order<T: IntoValue>(items: Seq<(Seq<char>, T)>, n: nat)
    requires
        n <= items.len(),
    ensures
        match params::named_values_of(items, n) {
            Ok(values) => values.len() == n && forall|i: int|
                0 <= i < n ==> (#[trigger] items[i]).1.value() == Ok::<ValueModel, ErrorModel>(
                    values[i].1,
                ) && values[i].0 == items[i].0,
            Err(e) => exists|i: int|
                0 <= i < n && (#[trigger] items[i]).1.value() == Err::<ValueModel, ErrorModel>(e),
        },
    decreases n,
{
    if n > 0 {
        let k = (n - 1) as nat;
        named_lists_keep_their_order(items, k);
        match params::named_values_of(items, n) {
            Ok(values) => {
                let before = params::named_values_of(items, k)->Ok_0;
                assert forall|i: int| 0 <= i < n implies (#[trigger] items[i]).1.value() == Ok::<
                    ValueModel,
                    ErrorModel,
                >(values[i].1) && values[i].0 == items[i].0 by {
                    if i < k {
                        assert(values[i] == before[i]);
                    }
                }
            },
            Err(e) => {
                if params::named_values_of(items, k) is Ok {
                    assert(items[k as int].1.value() == Err::<ValueModel, ErrorModel>(e));
                }
            },
        }
    }
}

/// A tuple of two values becomes parameters in their order.
pub proof fn tuples_of_two_keep_their_order<
    A: IntoValue,
    B: IntoValue,
>(t: (A, B), v: Seq<ValueModel>, r: Result<ParamsModel, ErrorModel>)
    requires
        v.len() == 2,
        t.0.value() == Ok::<ValueModel, ErrorModel>(v[0]),
        t.1.value() == Ok::<ValueModel, ErrorModel>(v[1]),
        t.converts_to(r),
    ensures
        r == Ok::<ParamsModel, ErrorModel>(ParamsModel::Positional(v)),
{
    assert(Seq::<ValueModel>::empty().push(v[0]).push(v[1]) =~= v);
}

/// A tuple of three values becomes parameters in their order.
pub proof fn tuples_of_three_keep_their_order<
    A: IntoValue,
    B: IntoValue,
    C: IntoValue,
>(t: (A, B, C), v: Seq<ValueModel>, r: Result<ParamsModel, ErrorModel>)
    requires
        v.len() == 3,
        t.0.value() == Ok::<ValueModel, ErrorModel>(v[0]),
        t.1.value() == Ok::<ValueModel, ErrorModel>(v[1]),
        t.2.value() == Ok::<ValueModel, ErrorModel>(v[2]),
        t.converts_to(r),
    ensures
        r == Ok::<ParamsModel, ErrorModel>(ParamsModel::Positional(v)),
{
    assert(Seq::<ValueModel>::empty().push(v[0]).push(v[1]).push(v[2]) =~= v);
}

/// A tuple of four values becomes parameters in their order.
pub proof fn tuples_of_four_keep_their_order<
    A: IntoValue,
    B: IntoValue,
    C: IntoValue,
    D: IntoValue,
>(t: (A, B, C, D), v: Seq<ValueModel>, r: Result<ParamsModel, ErrorModel>)
    requires
        v.len() == 4,
        t.0.value() == Ok::<ValueModel, ErrorModel>(v[0]),
        t.1.value() == Ok::<ValueModel, ErrorModel>(v[1]),
        t.2.value() == Ok::<ValueModel, ErrorModel>(v[2]),
        t.3.value() == Ok::<ValueModel, ErrorModel>(v[3]),
        t.converts_to(r),
    ensures
        r == Ok::<ParamsModel, ErrorModel>(ParamsModel::Positional(v)),
{
    assert(Seq::<ValueModel>::empty().push(v[0]).push(v[1]).push(v[2]).push(v[3]) =~= v);
}

/// A tuple of five values becomes parameters in their order.
pub proof fn tuples_of_five_keep_their_order<
    A: IntoValue,
    B: IntoValue,
    C: IntoValue,
    D: IntoValue,
    E: IntoValue,
>(t: (A, B, C, D, E), v: Seq<ValueModel>, r: Result<ParamsModel, ErrorModel>)
    requires
        v.len() == 5,
        t.0.value() == Ok::<ValueModel, ErrorModel>(v[0]),
        t.1.value() == Ok::<ValueModel, ErrorModel>(v[1]),
        t.2.value() == Ok::<ValueModel, ErrorModel>(v[2]),
        t.3.value() == Ok::<ValueModel, ErrorModel>(v[3]),
        t.4.value() == Ok::<ValueModel, ErrorModel>(v[4]),
        t.converts_to(r),
    ensures
        r == Ok::<ParamsModel, ErrorModel>(ParamsModel::Positional(v)),
{
    assert(Seq::<ValueModel>::empty().push(v[0]).push(v[1]).push(v[2]).push(v[3]).push(v[4]) =~= v);
}

/// A tuple of six values becomes parameters in their order.
pub proof fn tuples_of_six_keep_their_order<
    A: IntoValue,
    B: IntoValue,
    C: IntoValue,
    D: IntoValue,
    E: IntoValue,
    F: IntoValue,
>(t: (A, B, C, D, E, F), v: Seq<ValueModel>, r: Result<ParamsModel, ErrorModel>)
    requires
        v.len() == 6,
        t.0.value() == Ok::<ValueModel, ErrorModel>(v[0]),
        t.1.value() == Ok::<ValueModel, ErrorModel>(v[1]),
        t.2.value() == Ok::<ValueModel, ErrorModel>(v[2]),
        t.3.value() == Ok::<ValueModel, ErrorModel>(v[3]),
        t.4.value() == Ok::<ValueModel, ErrorModel>(v[4]),
        t.5.value() == Ok::<ValueModel, ErrorModel>(v[5]),
        t.converts_to(r),
    ensures
        r == Ok::<ParamsModel, ErrorModel>(ParamsModel::Positional(v)),
{
    assert(Seq::<ValueModel>::empty().push(v[0]).push(v[1]).push(v[2]).push(v[3]).push(v[4]).push(v[5]) =~= v);
}

/// A tuple of seven values becomes parameters in their order.
pub proof fn tuples_of_seven_keep_their_order<
    A: IntoValue,
    B: IntoValue,
    C: IntoValue,
    D: IntoValue,
    E: IntoValue,
    F: IntoValue,
    G: IntoValue,
>(t: (A, B, C, D, E, F, G), v: Seq<ValueModel>, r: Result<ParamsModel, ErrorModel>)
    requires
        v.len() == 7,
        t.0.value() == Ok::<ValueModel, ErrorModel>(v[0]),
        t.1.value() == Ok::<ValueModel, ErrorModel>(v[1]),
        t.2.value() == Ok::<ValueModel, ErrorModel>(v[2]),
        t.3.value() == Ok::<ValueModel, ErrorModel>(v[3]),
        t.4.value() == Ok::<ValueModel, ErrorModel>(v[4]),
        t.5.value() == Ok::<ValueModel, ErrorModel>(v[5]),
        t.6.value() == Ok::<ValueModel, ErrorModel>(v[6]),
        t.converts_to(r),
    ensures
        r == Ok::<ParamsModel, ErrorModel>(ParamsModel::Positional(v)),
{
    assert(Seq::<ValueModel>::empty().push(v[0]).push(v[1]).push(v[2]).push(v[3]).push(v[4]).push(v[5]).push(v[6]) =~= v);
}

/// A tuple of eight values becomes parameters in their order.
pub proof fn tuples_of_eight_keep_their_order<
    A: IntoValue,
    B: IntoValue,
    C: IntoValue,
    D: IntoValue,
    E: IntoValue,
    F: IntoValue,
    G: IntoValue,
    H: IntoValue,
>(t: (A, B, C, D, E, F, G, H), v: Seq<ValueModel>, r: Result<ParamsModel, ErrorModel>)
    requires
        v.len() == 8,
        t.0.value() == Ok::<ValueModel, ErrorModel>(v[0]),
        t.1.value() == Ok::<ValueModel, ErrorModel>(v[1]),
        t.2.value() == Ok::<ValueModel, ErrorModel>(v[2]),
        t.3.value() == Ok::<ValueModel, ErrorModel>(v[3]),
        t.4.value() == Ok::<ValueModel, ErrorModel>(v[4]),
        t.5.value() == Ok::<ValueModel, ErrorModel>(v[5]),
        t.6.value() == Ok::<ValueModel, ErrorModel>(v[6]),
        t.7.value() == Ok::<ValueModel, ErrorModel>(v[7]),
        t.converts_to(r),
    ensures
        r == Ok::<ParamsModel, ErrorModel>(ParamsModel::Positional(v)),
{
    assert(Seq::<ValueModel>::empty().push(v[0]).push(v[1]).push(v[2]).push(v[3]).push(v[4]).push(v[5]).push(v[6]).push(v[7]) =~= v);
}

/// A tuple of nine values becomes parameters in their order.
pub proof fn tuples_of_nine_keep_their_order<
    A: IntoValue,
    B: IntoValue,
    C: IntoValue,
    D: IntoValue,
    E: IntoValue,
    F: IntoValue,
    G: IntoValue,
    H: IntoValue,
    I: IntoValue,
>(t: (A, B, C, D, E, F, G, H, I), v: Seq<ValueModel>, r: Result<ParamsModel, ErrorModel>)
    requires
        v.len() == 9,
        t.0.value() == Ok::<ValueModel, ErrorModel>(v[0]),
        t.1.value() == Ok::<ValueModel, ErrorModel>(v[1]),
        t.2.value() == Ok::<ValueModel, ErrorModel>(v[2]),
        t.3.value() == Ok::<ValueModel, ErrorModel>(v[3]),
        t.4.value() == Ok::<ValueModel, ErrorModel>(v[4]),
        t.5.value() == Ok::<ValueModel, ErrorModel>(v[5]),
        t.6.value() == Ok::<ValueModel, ErrorModel>(v[6]),
        t.7.value() == Ok::<ValueModel, ErrorModel>(v[7]),
        t.8.value() == Ok::<ValueModel, ErrorModel>(v[8]),
        t.converts_to(r),
    ensures
        r == Ok::<ParamsModel, ErrorModel>(ParamsModel::Positional(v)),
{
    assert(Seq::<ValueModel>::empty().push(v[0]).push(v[1]).push(v[2]).push(v[3]).push(v[4]).push(v[5]).push(v[6]).push(v[7]).push(v[8]) =~= v);
}

/// A tuple of ten values becomes parameters in their order.
pub proof fn tuples_of_ten_keep_their_order<
    A: IntoValue,
    B: IntoValue,
    C: IntoValue,
    D: IntoValue,
    E: IntoValue,
    F: IntoValue,
    G: IntoValue,
    H: IntoValue,
    I: IntoValue,
    J: IntoValue,
>(t: (A, B, C, D, E, F, G, H, I, J), v: Seq<ValueModel>, r: Result<ParamsModel, ErrorModel>)
    requires
        v.len() == 10,
        t.0.value() == Ok::<ValueModel, ErrorModel>(v[0]),
        t.1.value() == Ok::<ValueModel, ErrorModel>(v[1]),
        t.2.value() == Ok::<ValueModel, ErrorModel>(v[2]),
        t.3.value() == Ok::<ValueModel, ErrorModel>(v[3]),
        t.4.value() == Ok::<ValueModel, ErrorModel>(v[4]),
        t.5.value() == Ok::<ValueModel, ErrorModel>(v[5]),
        t.6.value() == Ok::<ValueModel, ErrorModel>(v[6]),
        t.7.value() == Ok::<ValueModel, ErrorModel>(v[7]),
        t.8.value() == Ok::<ValueModel, ErrorModel>(v[8]),
        t.9.value() == Ok::<ValueModel, ErrorModel>(v[9]),
        t.converts_to(r),
    ensures
        r == Ok::<ParamsModel, ErrorModel>(ParamsModel::Positional(v)),
{
    assert(Seq::<ValueModel>::empty().push(v[0]).push(v[1]).push(v[2]).push(v[3]).push(v[4]).push(v[5]).push(v[6]).push(v[7]).push(v[8]).push(v[9]) =~= v);
}

/// A tuple of eleven values becomes parameters in their order.
pub proof fn tuples_of_eleven_keep_their_order<
    A: IntoValue,
    B: IntoValue,
    C: IntoValue,
    D: IntoValue,
    E: IntoValue,
    F: IntoValue,
    G: IntoValue,
    H: IntoValue,
    I: IntoValue,
    J: IntoValue,
    K: IntoValue,
>(t: (A, B, C, D, E, F, G, H, I, J, K), v: Seq<ValueModel>, r: Result<ParamsModel, ErrorModel>)
    requires
        v.len() == 11,
        t.0.value() == Ok::<ValueModel, ErrorModel>(v[0]),
        t.1.value() == Ok::<ValueModel, ErrorModel>(v[1]),
        t.2.value() == Ok::<ValueModel, ErrorModel>(v[2]),
        t.3.value() == Ok::<ValueModel, ErrorModel>(v[3]),
        t.4.value() == Ok::<ValueModel, ErrorModel>(v[4]),
        t.5.value() == Ok::<ValueModel, ErrorModel>(v[5]),
        t.6.value() == Ok::<ValueModel, ErrorModel>(v[6]),
        t.7.value() == Ok::<ValueModel, ErrorModel>(v[7]),
        t.8.value() == Ok::<ValueModel, ErrorModel>(v[8]),
        t.9.value() == Ok::<ValueModel, ErrorModel>(v[9]),
        t.10.value() == Ok::<ValueModel, ErrorModel>(v[10]),
        t.converts_to(r),
    ensures
        r == Ok::<ParamsModel, ErrorModel>(ParamsModel::Positional(v)),
{
    assert(Seq::<ValueModel>::empty().push(v[0]).push(v[1]).push(v[2]).push(v[3]).push(v[4]).push(v[5]).push(v[6]).push(v[7]).push(v[8]).push(v[9]).push(v[10]) =~= v);
}

/// A tuple of twelve values becomes parameters in their order.
pub proof fn tuples_of_twelve_keep_their_order<
    A: IntoValue,
    B: IntoValue,
    C: IntoValue,
    D: IntoValue,
    E: IntoValue,
    F: IntoValue,
    G: IntoValue,
    H: IntoValue,
    I: IntoValue,
    J: IntoValue,
    K: IntoValue,
    L: IntoValue,
>(t: (A, B, C, D, E, F, G, H, I, J, K, L), v: Seq<ValueModel>, r: Result<ParamsModel, ErrorModel>)
    requires
        v.len() == 12,
        t.0.value() == Ok::<ValueModel, ErrorModel>(v[0]),
        t.1.value() == Ok::<ValueModel, ErrorModel>(v[1]),
        t.2.value() == Ok::<ValueModel, ErrorModel>(v[2]),
        t.3.value() == Ok::<ValueModel, ErrorModel>(v[3]),
        t.4.value() == Ok::<ValueModel, ErrorModel>(v[4]),
        t.5.value() == Ok::<ValueModel, ErrorModel>(v[5]),
        t.6.value() == Ok::<ValueModel, ErrorModel>(v[6]),
        t.7.value() == Ok::<ValueModel, ErrorModel>(v[7]),
        t.8.value() == Ok::<ValueModel, ErrorModel>(v[8]),
        t.9.value() == Ok::<ValueModel, ErrorModel>(v[9]),
        t.10.value() == Ok::<ValueModel, ErrorModel>(v[10]),
        t.11.value() == Ok::<ValueModel, ErrorModel>(v[11]),
        t.converts_to(r),
    ensures
        r == Ok::<ParamsModel, ErrorModel>(ParamsModel::Positional(v)),
{
    assert(Seq::<ValueModel>::empty().push(v[0]).push(v[1]).push(v[2]).push(v[3]).push(v[4]).push(v[5]).push(v[6]).push(v[7]).push(v[8]).push(v[9]).push(v[10]).push(v[11]) =~= v);
}

/// A tuple of thirteen values becomes parameters in their order.
pub proof fn tuples_of_thirteen_keep_their_order<
    A: IntoValue,
    B: IntoValue,
    C: IntoValue,
    D: IntoValue,
    E: IntoValue,
    F: IntoValue,
    G: IntoValue,
    H: IntoValue,
    I: IntoValue,
    J: IntoValue,
    K: IntoValue,
    L: IntoValue,
    M: IntoValue,
>(t: (A, B, C, D, E, F, G, H, I, J, K, L, M), v: Seq<ValueModel>, r: Result<ParamsModel, ErrorModel>)
    requires
        v.len() == 13,
        t.0.value() == Ok::<ValueModel, ErrorModel>(v[0]),
        t.1.value() == Ok::<ValueModel, ErrorModel>(v[1]),
        t.2.value() == Ok::<ValueModel, ErrorModel>(v[2]),
        t.3.value() == Ok::<ValueModel, ErrorModel>(v[3]),
        t.4.value() == Ok::<ValueModel, ErrorModel>(v[4]),
        t.5.value() == Ok::<ValueModel, ErrorModel>(v[5]),
        t.6.value() == Ok::<ValueModel, ErrorModel>(v[6]),
        t.7.value() == Ok::<ValueModel, ErrorModel>(v[7]),
        t.8.value() == Ok::<ValueModel, ErrorModel>(v[8]),
        t.9.value() == Ok::<ValueModel, ErrorModel>(v[9]),
        t.10.value() == Ok::<ValueModel, ErrorModel>(v[10]),
        t.11.value() == Ok::<ValueModel, ErrorModel>(v[11]),
        t.12.value() == Ok::<ValueModel, ErrorModel>(v[12]),
        t.converts_to(r),
    ensures
        r == Ok::<ParamsModel, ErrorModel>(ParamsModel::Positional(v)),
{
    assert(Seq::<ValueModel>::empty().push(v[0]).push(v[1]).push(v[2]).push(v[3]).push(v[4]).push(v[5]).push(v[6]).push(v[7]).push(v[8]).push(v[9]).push(v[10]).push(v[11]).push(v[12]) =~= v);
}

/// A tuple of fourteen values becomes parameters in their order.
pub proof fn tuples_of_fourteen_keep_their_order<
    A: IntoValue,
    B: IntoValue,
    C: IntoValue,
    D: IntoValue,
    E: IntoValue,
    F: IntoValue,
    G: IntoValue,
    H: IntoValue,
    I: IntoValue,
    J: IntoValue,
    K: IntoValue,
    L: IntoValue,
    M: IntoValue,
    N: IntoValue,
>(t: (A, B, C, D, E, F, G, H, I, J, K, L, M, N), v: Seq<ValueModel>, r: Result<ParamsModel, ErrorModel>)
    requires
        v.len() == 14,
        t.0.value() == Ok::<ValueModel, ErrorModel>(v[0]),
        t.1.value() == Ok::<ValueModel, ErrorModel>(v[1]),
        t.2.value() == Ok::<ValueModel, ErrorModel>(v[2]),
        t.3.value() == Ok::<ValueModel, ErrorModel>(v[3]),
        t.4.value() == Ok::<ValueModel, ErrorModel>(v[4]),
        t.5.value() == Ok::<ValueModel, ErrorModel>(v[5]),
        t.6.value() == Ok::<ValueModel, ErrorModel>(v[6]),
        t.7.value() == Ok::<ValueModel, ErrorModel>(v[7]),
        t.8.value() == Ok::<ValueModel, ErrorModel>(v[8]),
        t.9.value() == Ok::<ValueModel, ErrorModel>(v[9]),
        t.10.value() == Ok::<ValueModel, ErrorModel>(v[10]),
        t.11.value() == Ok::<ValueModel, ErrorModel>(v[11]),
        t.12.value() == Ok::<ValueModel, ErrorModel>(v[12]),
        t.13.value() == Ok::<ValueModel, ErrorModel>(v[13]),
        t.converts_to(r),
    ensures
        r == Ok::<ParamsModel, ErrorModel>(ParamsModel::Positional(v)),
{
    assert(Seq::<ValueModel>::empty().push(v[0]).push(v[1]).push(v[2]).push(v[3]).push(v[4]).push(v[5]).push(v[6]).push(v[7]).push(v[8]).push(v[9]).push(v[10]).push(v[11]).push(v[12]).push(v[13]) =~= v);
}

/// A tuple of fifteen values becomes parameters in their order.
pub proof fn tuples_of_fifteen_keep_their_order<
    A: IntoValue,
    B: IntoValue,
    C: IntoValue,
    D: IntoValue,
    E: IntoValue,
    F: IntoValue,
    G: IntoValue,
    H: IntoValue,
    I: IntoValue,
    J: IntoValue,
    K: IntoValue,
    L: IntoValue,
    M: IntoValue,
    N: IntoValue,
    O: IntoValue,
>(t: (A, B, C, D, E, F, G, H, I, J, K, L, M, N, O), v: Seq<ValueModel>, r: Result<ParamsModel, ErrorModel>)
    requires
        v.len() == 15,
        t.0.value() == Ok::<ValueModel, ErrorModel>(v[0]),
        t.1.value() == Ok::<ValueModel, ErrorModel>(v[1]),
        t.2.value() == Ok::<ValueModel, ErrorModel>(v[2]),
        t.3.value() == Ok::<ValueModel, ErrorModel>(v[3]),
        t.4.value() == Ok::<ValueModel, ErrorModel>(v[4]),
        t.5.value() == Ok::<ValueModel, ErrorModel>(v[5]),
        t.6.value() == Ok::<ValueModel, ErrorModel>(v[6]),
        t.7.value() == Ok::<ValueModel, ErrorModel>(v[7]),
        t.8.value() == Ok::<ValueModel, ErrorModel>(v[8]),
        t.9.value() == Ok::<ValueModel, ErrorModel>(v[9]),
        t.10.value() == Ok::<ValueModel, ErrorModel>(v[10]),
        t.11.value() == Ok::<ValueModel, ErrorModel>(v[11]),
        t.12.value() == Ok::<ValueModel, ErrorModel>(v[12]),
        t.13.value() == Ok::<ValueModel, ErrorModel>(v[13]),
        t.14.value() == Ok::<ValueModel, ErrorModel>(v[14]),
        t.converts_to(r),
    ensures
        r == Ok::<ParamsModel, ErrorModel>(ParamsModel::Positional(v)),
{
    assert(Seq::<ValueModel>::empty().push(v[0]).push(v[1]).push(v[2]).push(v[3]).push(v[4]).push(v[5]).push(v[6]).push(v[7]).push(v[8]).push(v[9]).push(v[10]).push(v[11]).push(v[12]).push(v[13]).push(v[14]) =~= v);
}

/// A tuple of sixteen values becomes parameters in their order.
pub proof fn tuples_of_sixteen_keep_their_order<
    A: IntoValue,
    B: IntoValue,
    C: IntoValue,
    D: IntoValue,
    E: IntoValue,
    F: IntoValue,
    G: IntoValue,
    H: IntoValue,
    I: IntoValue,
    J: IntoValue,
    K: IntoValue,
    L: IntoValue,
    M: IntoValue,
    N: IntoValue,
    O: IntoValue,
    P: IntoValue,
>(t: (A, B, C, D, E, F, G, H, I, J, K, L, M, N, O, P), v: Seq<ValueModel>, r: Result<ParamsModel, ErrorModel>)
    requires
        v.len() == 16,
        t.0.value() == Ok::<ValueModel, ErrorModel>(v[0]),
        t.1.value() == Ok::<ValueModel, ErrorModel>(v[1]),
        t.2.value() == Ok::<ValueModel, ErrorModel>(v[2]),
        t.3.value() == Ok::<ValueModel, ErrorModel>(v[3]),
        t.4.value() == Ok::<ValueModel, ErrorModel>(v[4]),
        t.5.value() == Ok::<ValueModel, ErrorModel>(v[5]),
        t.6.value() == Ok::<ValueModel, ErrorModel>(v[6]),
        t.7.value() == Ok::<ValueModel, ErrorModel>(v[7]),
        t.8.value() == Ok::<ValueModel, ErrorModel>(v[8]),
        t.9.value() == Ok::<ValueModel, ErrorModel>(v[9]),
        t.10.value() == Ok::<ValueModel, ErrorModel>(v[10]),
        t.11.value() == Ok::<ValueModel, ErrorModel>(v[11]),
        t.12.value() == Ok::<ValueModel, ErrorModel>(v[12]),
        t.13.value() == Ok::<ValueModel, ErrorModel>(v[13]),
        t.14.value() == Ok::<ValueModel, ErrorModel>(v[14]),
        t.15.value() == Ok::<ValueModel, ErrorModel>(v[15]),
        t.converts_to(r),
    ensures
        r == Ok::<ParamsModel, ErrorModel>(ParamsModel::Positional(v)),
{
    assert(Seq::<ValueModel>::empty().push(v[0]).push(v[1]).push(v[2]).push(v[3]).push(v[4]).push(v[5]).push(v[6]).push(v[7]).push(v[8]).push(v[9]).push(v[10]).push(v[11]).push(v[12]).push(v[13]).push(v[14]).push(v[15]) =~= v);
}

/// A tuple of two named values becomes parameters under their names, in their order.
pub proof fn named_tuples_of_two_keep_their_order<
    A: IntoValue,
    B: IntoValue,
>(
    t: ((&'static str, A), (&'static str, B)),
    v: Seq<(Seq<char>, ValueModel)>,
    r: Result<ParamsModel, ErrorModel>,
)
    requires
        v.len() == 2,
        t.0.1.value() == Ok::<ValueModel, ErrorModel>(v[0].1),
        v[0].0 == t.0.0@,
        t.1.1.value() == Ok::<ValueModel, ErrorModel>(v[1].1),
        v[1].0 == t.1.0@,
        t.converts_to(r),
    ensures
        r == Ok::<ParamsModel, ErrorModel>(ParamsModel::Named(v)),
{
    assert(Seq::<(Seq<char>, ValueModel)>::empty().push((t.0.0@, v[0].1)).push((t.1.0@, v[1].1)) =~= v);
}

/// A tuple of three named values becomes parameters under their names, in their order.
pub proof fn named_tuples_of_three_keep_their_order<
    A: IntoValue,
    B: IntoValue,
    C: IntoValue,
>(
    t: ((&'static str, A), (&'static str, B), (&'static str, C)),
    v: Seq<(Seq<char>, ValueModel)>,
    r: Result<ParamsModel, ErrorModel>,
)
    requires
        v.len() == 3,
        t.0.1.value() == Ok::<ValueModel, ErrorModel>(v[0].1),
        v[0].0 == t.0.0@,
        t.1.1.value() == Ok::<ValueModel, ErrorModel>(v[1].1),
        v[1].0 == t.1.0@,
        t.2.1.value() == Ok::<ValueModel, ErrorModel>(v[2].1),
        v[2].0 == t.2.0@,
        t.converts_to(r),
    ensures
        r == Ok::<ParamsModel, ErrorModel>(ParamsModel::Named(v)),
{
    assert(Seq::<(Seq<char>, ValueModel)>::empty().push((t.0.0@, v[0].1)).push((t.1.0@, v[1].1)).push((t.2.0@, v[2].1)) =~= v);
}

/// A tuple of four named values becomes parameters under their names, in their order.
pub proof fn named_tuples_of_four_keep_their_order<
    A: IntoValue,
    B: IntoValue,
    C: IntoValue,
    D: IntoValue,
>(
    t: ((&'static str, A), (&'static str, B), (&'static str, C), (&'static str, D)),
    v: Seq<(Seq<char>, ValueModel)>,
    r: Result<ParamsModel, ErrorModel>,
)
    requires
        v.len() == 4,
        t.0.1.value() == Ok::<ValueModel, ErrorModel>(v[0].1),
        v[0].0 == t.0.0@,
        t.1.1.value() == Ok::<ValueModel, ErrorModel>(v[1].1),
        v[1].0 == t.1.0@,
        t.2.1.value() == Ok::<ValueModel, ErrorModel>(v[2].1),
        v[2].0 == t.2.0@,
        t.3.1.value() == Ok::<ValueModel, ErrorModel>(v[3].1),
        v[3].0 == t.3.0@,
        t.converts_to(r),
    ensures
        r == Ok::<ParamsModel, ErrorModel>(ParamsModel::Named(v)),
{
    assert(Seq::<(Seq<char>, ValueModel)>::empty().push((t.0.0@, v[0].1)).push((t.1.0@, v[1].1)).push((t.2.0@, v[2].1)).push((t.3.0@, v[3].1)) =~= v);
}

/// A tuple of five named values becomes parameters under their names, in their order.
pub proof fn named_tuples_of_five_keep_their_order<
    A: IntoValue,
    B: IntoValue,
    C: IntoValue,
    D: IntoValue,
    E: IntoValue,
>(
    t: ((&'static str, A), (&'static str, B), (&'static str, C), (&'static str, D), (&'static str, E)),
    v: Seq<(Seq<char>, ValueModel)>,
    r: Result<ParamsModel, ErrorModel>,
)
    requires
        v.len() == 5,
        t.0.1.value() == Ok::<ValueModel, ErrorModel>(v[0].1),
        v[0].0 == t.0.0@,
        t.1.1.value() == Ok::<ValueModel, ErrorModel>(v[1].1),
        v[1].0 == t.1.0@,
        t.2.1.value() == Ok::<ValueModel, ErrorModel>(v[2].1),
        v[2].0 == t.2.0@,
        t.3.1.value() == Ok::<ValueModel, ErrorModel>(v[3].1),
        v[3].0 == t.3.0@,
        t.4.1.value() == Ok::<ValueModel, ErrorModel>(v[4].1),
        v[4].0 == t.4.0@,
        t.converts_to(r),
    ensures
        r == Ok::<ParamsModel, ErrorModel>(ParamsModel::Named(v)),
{
    assert(Seq::<(Seq<char>, ValueModel)>::empty().push((t.0.0@, v[0].1)).push((t.1.0@, v[1].1)).push((t.2.0@, v[2].1)).push((t.3.0@, v[3].1)).push((t.4.0@, v[4].1)) =~= v);
}

/// A tuple of six named values becomes parameters under their names, in their order.
pub proof fn named_tuples_of_six_keep_their_order<
    A: IntoValue,
    B: IntoValue,
    C: IntoValue,
    D: IntoValue,
    E: IntoValue,
    F: IntoValue,
>(
    t: ((&'static str, A), (&'static str, B), (&'static str, C), (&'static str, D), (&'static str, E), (&'static str, F)),
    v: Seq<(Seq<char>, ValueModel)>,
    r: Result<ParamsModel, ErrorModel>,
)
    requires
        v.len() == 6,
        t.0.1.value() == Ok::<ValueModel, ErrorModel>(v[0].1),
        v[0].0 == t.0.0@,
        t.1.1.value() == Ok::<ValueModel, ErrorModel>(v[1].1),
        v[1].0 == t.1.0@,
        t.2.1.value() == Ok::<ValueModel, ErrorModel>(v[2].1),
        v[2].0 == t.2.0@,
        t.3.1.value() == Ok::<ValueModel, ErrorModel>(v[3].1),
        v[3].0 == t.3.0@,
        t.4.1.value() == Ok::<ValueModel, ErrorModel>(v[4].1),
        v[4].0 == t.4.0@,
        t.5.1.value() == Ok::<ValueModel, ErrorModel>(v[5].1),
        v[5].0 == t.5.0@,
        t.converts_to(r),
    ensures
        r == Ok::<ParamsModel, ErrorModel>(ParamsModel::Named(v)),
{
    assert(Seq::<(Seq<char>, ValueModel)>::empty().push((t.0.0@, v[0].1)).push((t.1.0@, v[1].1)).push((t.2.0@, v[2].1)).push((t.3.0@, v[3].1)).push((t.4.0@, v[4].1)).push((t.5.0@, v[5].1)) =~= v);
}

/// A tuple of seven named values becomes parameters under their names, in their order.
pub proof fn named_tuples_of_seven_keep_their_order<
    A: IntoValue,
    B: IntoValue,
    C: IntoValue,
    D: IntoValue,
    E: IntoValue,
    F: IntoValue,
    G: IntoValue,
>(
    t: ((&'static str, A), (&'static str, B), (&'static str, C), (&'static str, D), (&'static str, E), (&'static str, F), (&'static str, G)),
    v: Seq<(Seq<char>, ValueModel)>,
    r: Result<ParamsModel, ErrorModel>,
)
    requires
        v.len() == 7,
        t.0.1.value() == Ok::<ValueModel, ErrorModel>(v[0].1),
        v[0].0 == t.0.0@,
        t.1.1.value() == Ok::<ValueModel, ErrorModel>(v[1].1),
        v[1].0 == t.1.0@,
        t.2.1.value() == Ok::<ValueModel, ErrorModel>(v[2].1),
        v[2].0 == t.2.0@,
        t.3.1.value() == Ok::<ValueModel, ErrorModel>(v[3].1),
        v[3].0 == t.3.0@,
        t.4.1.value() == Ok::<ValueModel, ErrorModel>(v[4].1),
        v[4].0 == t.4.0@,
        t.5.1.value() == Ok::<ValueModel, ErrorModel>(v[5].1),
        v[5].0 == t.5.0@,
        t.6.1.value() == Ok::<ValueModel, ErrorModel>(v[6].1),
        v[6].0 == t.6.0@,
        t.converts_to(r),
    ensures
        r == Ok::<ParamsModel, ErrorModel>(ParamsModel::Named(v)),
{
    assert(Seq::<(Seq<char>, ValueModel)>::empty().push((t.0.0@, v[0].1)).push((t.1.0@, v[1].1)).push((t.2.0@, v[2].1)).push((t.3.0@, v[3].1)).push((t.4.0@, v[4].1)).push((t.5.0@, v[5].1)).push((t.6.0@, v[6].1)) =~= v);
}

/// A tuple of eight named values becomes parameters under their names, in their order.
pub proof fn named_tuples_of_eight_keep_their_order<
    A: IntoValue,
    B: IntoValue,
    C: IntoValue,
    D: IntoValue,
    E: IntoValue,
    F: IntoValue,
    G: IntoValue,
    H: IntoValue,
>(
    t: ((&'static str, A), (&'static str, B), (&'static str, C), (&'static str, D), (&'static str, E), (&'static str, F), (&'static str, G), (&'static str, H)),
    v: Seq<(Seq<char>, ValueModel)>,
    r: Result<ParamsModel, ErrorModel>,
)
    requires
        v.len() == 8,
        t.0.1.value() == Ok::<ValueModel, ErrorModel>(v[0].1),
        v[0].0 == t.0.0@,
        t.1.1.value() == Ok::<ValueModel, ErrorModel>(v[1].1),
        v[1].0 == t.1.0@,
        t.2.1.value() == Ok::<ValueModel, ErrorModel>(v[2].1),
        v[2].0 == t.2.0@,
        t.3.1.value() == Ok::<ValueModel, ErrorModel>(v[3].1),
        v[3].0 == t.3.0@,
        t.4.1.value() == Ok::<ValueModel, ErrorModel>(v[4].1),
        v[4].0 == t.4.0@,
        t.5.1.value() == Ok::<ValueModel, ErrorModel>(v[5].1),
        v[5].0 == t.5.0@,
        t.6.1.value() == Ok::<ValueModel, ErrorModel>(v[6].1),
        v[6].0 == t.6.0@,
        t.7.1.value() == Ok::<ValueModel, ErrorModel>(v[7].1),
        v[7].0 == t.7.0@,
        t.converts_to(r),
    ensures
        r == Ok::<ParamsModel, ErrorModel>(ParamsModel::Named(v)),
{
    assert(Seq::<(Seq<char>, ValueModel)>::empty().push((t.0.0@, v[0].1)).push((t.1.0@, v[1].1)).push((t.2.0@, v[2].1)).push((t.3.0@, v[3].1)).push((t.4.0@, v[4].1)).push((t.5.0@, v[5].1)).push((t.6.0@, v[6].1)).push((t.7.0@, v[7].1)) =~= v);
}

/// A tuple of nine named values becomes parameters under their names, in their order.
pub proof fn named_tuples_of_nine_keep_their_order<
    A: IntoValue,
    B: IntoValue,
    C: IntoValue,
    D: IntoValue,
    E: IntoValue,
    F: IntoValue,
    G: IntoValue,
    H: IntoValue,
    I: IntoValue,
>(
    t: ((&'static str, A), (&'static str, B), (&'static str, C), (&'static str, D), (&'static str, E), (&'static str, F), (&'static str, G), (&'static str, H), (&'static str, I)),
    v: Seq<(Seq<char>, ValueModel)>,
    r: Result<ParamsModel, ErrorModel>,
)
    requires
        v.len() == 9,
        t.0.1.value() == Ok::<ValueModel, ErrorModel>(v[0].1),
        v[0].0 == t.0.0@,
        t.1.1.value() == Ok::<ValueModel, ErrorModel>(v[1].1),
        v[1].0 == t.1.0@,
        t.2.1.value() == Ok::<ValueModel, ErrorModel>(v[2].1),
        v[2].0 == t.2.0@,
        t.3.1.value() == Ok::<ValueModel, ErrorModel>(v[3].1),
        v[3].0 == t.3.0@,
        t.4.1.value() == Ok::<ValueModel, ErrorModel>(v[4].1),
        v[4].0 == t.4.0@,
        t.5.1.value() == Ok::<ValueModel, ErrorModel>(v[5].1),
        v[5].0 == t.5.0@,
        t.6.1.value() == Ok::<ValueModel, ErrorModel>(v[6].1),
        v[6].0 == t.6.0@,
        t.7.1.value() == Ok::<ValueModel, ErrorModel>(v[7].1),
        v[7].0 == t.7.0@,
        t.8.1.value() == Ok::<ValueModel, ErrorModel>(v[8].1),
        v[8].0 == t.8.0@,
        t.converts_to(r),
    ensures
        r == Ok::<ParamsModel, ErrorModel>(ParamsModel::Named(v)),
{
    assert(Seq::<(Seq<char>, ValueModel)>::empty().push((t.0.0@, v[0].1)).push((t.1.0@, v[1].1)).push((t.2.0@, v[2].1)).push((t.3.0@, v[3].1)).push((t.4.0@, v[4].1)).push((t.5.0@, v[5].1)).push((t.6.0@, v[6].1)).push((t.7.0@, v[7].1)).push((t.8.0@, v[8].1)) =~= v);
}

/// A tuple of ten named values becomes parameters under their names, in their order.
pub proof fn named_tuples_of_ten_keep_their_order<
    A: IntoValue,
    B: IntoValue,
    C: IntoValue,
    D: IntoValue,
    E: IntoValue,
    F: IntoValue,
    G: IntoValue,
    H: IntoValue,
    I: IntoValue,
    J: IntoValue,
>(
    t: ((&'static str, A), (&'static str, B), (&'static str, C), (&'static str, D), (&'static str, E), (&'static str, F), (&'static str, G), (&'static str, H), (&'static str, I), (&'static str, J)),
    v: Seq<(Seq<char>, ValueModel)>,
    r: Result<ParamsModel, ErrorModel>,
)
    requires
        v.len() == 10,
        t.0.1.value() == Ok::<ValueModel, ErrorModel>(v[0].1),
        v[0].0 == t.0.0@,
        t.1.1.value() == Ok::<ValueModel, ErrorModel>(v[1].1),
        v[1].0 == t.1.0@,
        t.2.1.value() == Ok::<ValueModel, ErrorModel>(v[2].1),
        v[2].0 == t.2.0@,
        t.3.1.value() == Ok::<ValueModel, ErrorModel>(v[3].1),
        v[3].0 == t.3.0@,
        t.4.1.value() == Ok::<ValueModel, ErrorModel>(v[4].1),
        v[4].0 == t.4.0@,
        t.5.1.value() == Ok::<ValueModel, ErrorModel>(v[5].1),
        v[5].0 == t.5.0@,
        t.6.1.value() == Ok::<ValueModel, ErrorModel>(v[6].1),
        v[6].0 == t.6.0@,
        t.7.1.value() == Ok::<ValueModel, ErrorModel>(v[7].1),
        v[7].0 == t.7.0@,
        t.8.1.value() == Ok::<ValueModel, ErrorModel>(v[8].1),
        v[8].0 == t.8.0@,
        t.9.1.value() == Ok::<ValueModel, ErrorModel>(v[9].1),
        v[9].0 == t.9.0@,
        t.converts_to(r),
    ensures
        r == Ok::<ParamsModel, ErrorModel>(ParamsModel::Named(v)),
{
    assert(Seq::<(Seq<char>, ValueModel)>::empty().push((t.0.0@, v[0].1)).push((t.1.0@, v[1].1)).push((t.2.0@, v[2].1)).push((t.3.0@, v[3].1)).push((t.4.0@, v[4].1)).push((t.5.0@, v[5].1)).push((t.6.0@, v[6].1)).push((t.7.0@, v[7].1)).push((t.8.0@, v[8].1)).push((t.9.0@, v[9].1)) =~= v);
}

/// A tuple of eleven named values becomes parameters under their names, in their order.
pub proof fn named_tuples_of_eleven_keep_their_order<
    A: IntoValue,
    B: IntoValue,
    C: IntoValue,
    D: IntoValue,
    E: IntoValue,
    F: IntoValue,
    G: IntoValue,
    H: IntoValue,
    I: IntoValue,
    J: IntoValue,
    K: IntoValue,
>(
    t: ((&'static str, A), (&'static str, B), (&'static str, C), (&'static str, D), (&'static str, E), (&'static str, F), (&'static str, G), (&'static str, H), (&'static str, I), (&'static str, J), (&'static str, K)),
    v: Seq<(Seq<char>, ValueModel)>,
    r: Result<ParamsModel, ErrorModel>,
)
    requires
        v.len() == 11,
        t.0.1.value() == Ok::<ValueModel, ErrorModel>(v[0].1),
        v[0].0 == t.0.0@,
        t.1.1.value() == Ok::<ValueModel, ErrorModel>(v[1].1),
        v[1].0 == t.1.0@,
        t.2.1.value() == Ok::<ValueModel, ErrorModel>(v[2].1),
        v[2].0 == t.2.0@,
        t.3.1.value() == Ok::<ValueModel, ErrorModel>(v[3].1),
        v[3].0 == t.3.0@,
        t.4.1.value() == Ok::<ValueModel, ErrorModel>(v[4].1),
        v[4].0 == t.4.0@,
        t.5.1.value() == Ok::<ValueModel, ErrorModel>(v[5].1),
        v[5].0 == t.5.0@,
        t.6.1.value() == Ok::<ValueModel, ErrorModel>(v[6].1),
        v[6].0 == t.6.0@,
        t.7.1.value() == Ok::<ValueModel, ErrorModel>(v[7].1),
        v[7].0 == t.7.0@,
        t.8.1.value() == Ok::<ValueModel, ErrorModel>(v[8].1),
        v[8].0 == t.8.0@,
        t.9.1.value() == Ok::<ValueModel, ErrorModel>(v[9].1),
        v[9].0 == t.9.0@,
        t.10.1.value() == Ok::<ValueModel, ErrorModel>(v[10].1),
        v[10].0 == t.10.0@,
        t.converts_to(r),
    ensures
        r == Ok::<ParamsModel, ErrorModel>(ParamsModel::Named(v)),
{
    assert(Seq::<(Seq<char>, ValueModel)>::empty().push((t.0.0@, v[0].1)).push((t.1.0@, v[1].1)).push((t.2.0@, v[2].1)).push((t.3.0@, v[3].1)).push((t.4.0@, v[4].1)).push((t.5.0@, v[5].1)).push((t.6.0@, v[6].1)).push((t.7.0@, v[7].1)).push((t.8.0@, v[8].1)).push((t.9.0@, v[9].1)).push((t.10.0@, v[10].1)) =~= v);
}

/// A tuple of twelve named values becomes parameters under their names, in their order.
pub proof fn named_tuples_of_twelve_keep_their_order<
    A: IntoValue,
    B: IntoValue,
    C: IntoValue,
    D: IntoValue,
    E: IntoValue,
    F: IntoValue,
    G: IntoValue,
    H: IntoValue,
    I: IntoValue,
    J: IntoValue,
    K: IntoValue,
    L: IntoValue,
>(
    t: ((&'static str, A), (&'static str, B), (&'static str, C), (&'static str, D), (&'static str, E), (&'static str, F), (&'static str, G), (&'static str, H), (&'static str, I), (&'static str, J), (&'static str, K), (&'static str, L)),
    v: Seq<(Seq<char>, ValueModel)>,
    r: Result<ParamsModel, ErrorModel>,
)
    requires
        v.len() == 12,
        t.0.1.value() == Ok::<ValueModel, ErrorModel>(v[0].1),
        v[0].0 == t.0.0@,
        t.1.1.value() == Ok::<ValueModel, ErrorModel>(v[1].1),
        v[1].0 == t.1.0@,
        t.2.1.value() == Ok::<ValueModel, ErrorModel>(v[2].1),
        v[2].0 == t.2.0@,
        t.3.1.value() == Ok::<ValueModel, ErrorModel>(v[3].1),
        v[3].0 == t.3.0@,
        t.4.1.value() == Ok::<ValueModel, ErrorModel>(v[4].1),
        v[4].0 == t.4.0@,
        t.5.1.value() == Ok::<ValueModel, ErrorModel>(v[5].1),
        v[5].0 == t.5.0@,
        t.6.1.value() == Ok::<ValueModel, ErrorModel>(v[6].1),
        v[6].0 == t.6.0@,
        t.7.1.value() == Ok::<ValueModel, ErrorModel>(v[7].1),
        v[7].0 == t.7.0@,
        t.8.1.value() == Ok::<ValueModel, ErrorModel>(v[8].1),
        v[8].0 == t.8.0@,
        t.9.1.value() == Ok::<ValueModel, ErrorModel>(v[9].1),
        v[9].0 == t.9.0@,
        t.10.1.value() == Ok::<ValueModel, ErrorModel>(v[10].1),
        v[10].0 == t.10.0@,
        t.11.1.value() == Ok::<ValueModel, ErrorModel>(v[11].1),
        v[11].0 == t.11.0@,
        t.converts_to(r),
    ensures
        r == Ok::<ParamsModel, ErrorModel>(ParamsModel::Named(v)),
{
    assert(Seq::<(Seq<char>, ValueModel)>::empty().push((t.0.0@, v[0].1)).push((t.1.0@, v[1].1)).push((t.2.0@, v[2].1)).push((t.3.0@, v[3].1)).push((t.4.0@, v[4].1)).push((t.5.0@, v[5].1)).push((t.6.0@, v[6].1)).push((t.7.0@, v[7].1)).push((t.8.0@, v[8].1)).push((t.9.0@, v[9].1)).push((t.10.0@, v[10].1)).push((t.11.0@, v[11].1)) =~= v);
}

/// A tuple of thirteen named values becomes parameters under their names, in their order.
pub proof fn named_tuples_of_thirteen_keep_their_order<
    A: IntoValue,
    B: IntoValue,
    C: IntoValue,
    D: IntoValue,
    E: IntoValue,
    F: IntoValue,
    G: IntoValue,
    H: IntoValue,
    I: IntoValue,
    J: IntoValue,
    K: IntoValue,
    L: IntoValue,
    M: IntoValue,
>(
    t: ((&'static str, A), (&'static str, B), (&'static str, C), (&'static str, D), (&'static str, E), (&'static str, F), (&'static str, G), (&'static str, H), (&'static str, I), (&'static str, J), (&'static str, K), (&'static str, L), (&'static str, M)),
    v: Seq<(Seq<char>, ValueModel)>,
    r: Result<ParamsModel, ErrorModel>,
)
    requires
        v.len() == 13,
        t.0.1.value() == Ok::<ValueModel, ErrorModel>(v[0].1),
        v[0].0 == t.0.0@,
        t.1.1.value() == Ok::<ValueModel, ErrorModel>(v[1].1),
        v[1].0 == t.1.0@,
        t.2.1.value() == Ok::<ValueModel, ErrorModel>(v[2].1),
        v[2].0 == t.2.0@,
        t.3.1.value() == Ok::<ValueModel, ErrorModel>(v[3].1),
        v[3].0 == t.3.0@,
        t.4.1.value() == Ok::<ValueModel, ErrorModel>(v[4].1),
        v[4].0 == t.4.0@,
        t.5.1.value() == Ok::<ValueModel, ErrorModel>(v[5].1),
        v[5].0 == t.5.0@,
        t.6.1.value() == Ok::<ValueModel, ErrorModel>(v[6].1),
        v[6].0 == t.6.0@,
        t.7.1.value() == Ok::<ValueModel, ErrorModel>(v[7].1),
        v[7].0 == t.7.0@,
        t.8.1.value() == Ok::<ValueModel, ErrorModel>(v[8].1),
        v[8].0 == t.8.0@,
        t.9.1.value() == Ok::<ValueModel, ErrorModel>(v[9].1),
        v[9].0 == t.9.0@,
        t.10.1.value() == Ok::<ValueModel, ErrorModel>(v[10].1),
        v[10].0 == t.10.0@,
        t.11.1.value() == Ok::<ValueModel, ErrorModel>(v[11].1),
        v[11].0 == t.11.0@,
        t.12.1.value() == Ok::<ValueModel, ErrorModel>(v[12].1),
        v[12].0 == t.12.0@,
        t.converts_to(r),
    ensures
        r == Ok::<ParamsModel, ErrorModel>(ParamsModel::Named(v)),
{
    assert(Seq::<(Seq<char>, ValueModel)>::empty().push((t.0.0@, v[0].1)).push((t.1.0@, v[1].1)).push((t.2.0@, v[2].1)).push((t.3.0@, v[3].1)).push((t.4.0@, v[4].1)).push((t.5.0@, v[5].1)).push((t.6.0@, v[6].1)).push((t.7.0@, v[7].1)).push((t.8.0@, v[8].1)).push((t.9.0@, v[9].1)).push((t.10.0@, v[10].1)).push((t.11.0@, v[11].1)).push((t.12.0@, v[12].1)) =~= v);
}

/// A tuple of fourteen named values becomes parameters under their names, in their order.
pub proof fn named_tuples_of_fourteen_keep_their_order<
    A: IntoValue,
    B: IntoValue,
    C: IntoValue,
    D: IntoValue,
    E: IntoValue,
    F: IntoValue,
    G: IntoValue,
    H: IntoValue,
    I: IntoValue,
    J: IntoValue,
    K: IntoValue,
    L: IntoValue,
    M: IntoValue,
    N: IntoValue,
>(
    t: ((&'static str, A), (&'static str, B), (&'static str, C), (&'static str, D), (&'static str, E), (&'static str, F), (&'static str, G), (&'static str, H), (&'static str, I), (&'static str, J), (&'static str, K), (&'static str, L), (&'static str, M), (&'static str, N)),
    v: Seq<(Seq<char>, ValueModel)>,
    r: Result<ParamsModel, ErrorModel>,
)
    requires
        v.len() == 14,
        t.0.1.value() == Ok::<ValueModel, ErrorModel>(v[0].1),
        v[0].0 == t.0.0@,
        t.1.1.value() == Ok::<ValueModel, ErrorModel>(v[1].1),
        v[1].0 == t.1.0@,
        t.2.1.value() == Ok::<ValueModel, ErrorModel>(v[2].1),
        v[2].0 == t.2.0@,
        t.3.1.value() == Ok::<ValueModel, ErrorModel>(v[3].1),
        v[3].0 == t.3.0@,
        t.4.1.value() == Ok::<ValueModel, ErrorModel>(v[4].1),
        v[4].0 == t.4.0@,
        t.5.1.value() == Ok::<ValueModel, ErrorModel>(v[5].1),
        v[5].0 == t.5.0@,
        t.6.1.value() == Ok::<ValueModel, ErrorModel>(v[6].1),
        v[6].0 == t.6.0@,
        t.7.1.value() == Ok::<ValueModel, ErrorModel>(v[7].1),
        v[7].0 == t.7.0@,
        t.8.1.value() == Ok::<ValueModel, ErrorModel>(v[8].1),
        v[8].0 == t.8.0@,
        t.9.1.value() == Ok::<ValueModel, ErrorModel>(v[9].1),
        v[9].0 == t.9.0@,
        t.10.1.value() == Ok::<ValueModel, ErrorModel>(v[10].1),
        v[10].0 == t.10.0@,
        t.11.1.value() == Ok::<ValueModel, ErrorModel>(v[11].1),
        v[11].0 == t.11.0@,
        t.12.1.value() == Ok::<ValueModel, ErrorModel>(v[12].1),
        v[12].0 == t.12.0@,
        t.13.1.value() == Ok::<ValueModel, ErrorModel>(v[13].1),
        v[13].0 == t.13.0@,
        t.converts_to(r),
    ensures
        r == Ok::<ParamsModel, ErrorModel>(ParamsModel::Named(v)),
{
    assert(Seq::<(Seq<char>, ValueModel)>::empty().push((t.0.0@, v[0].1)).push((t.1.0@, v[1].1)).push((t.2.0@, v[2].1)).push((t.3.0@, v[3].1)).push((t.4.0@, v[4].1)).push((t.5.0@, v[5].1)).push((t.6.0@, v[6].1)).push((t.7.0@, v[7].1)).push((t.8.0@, v[8].1)).push((t.9.0@, v[9].1)).push((t.10.0@, v[10].1)).push((t.11.0@, v[11].1)).push((t.12.0@, v[12].1)).push((t.13.0@, v[13].1)) =~= v);
}

/// A tuple of fifteen named values becomes parameters under their names, in their order.
pub proof fn named_tuples_of_fifteen_keep_their_order<
    A: IntoValue,
    B: IntoValue,
    C: IntoValue,
    D: IntoValue,
    E: IntoValue,
    F: IntoValue,
    G: IntoValue,
    H: IntoValue,
    I: IntoValue,
    J: IntoValue,
    K: IntoValue,
    L: IntoValue,
    M: IntoValue,
    N: IntoValue,
    O: IntoValue,
>(
    t: ((&'static str, A), (&'static str, B), (&'static str, C), (&'static str, D), (&'static str, E), (&'static str, F), (&'static str, G), (&'static str, H), (&'static str, I), (&'static str, J), (&'static str, K), (&'static str, L), (&'static str, M), (&'static str, N), (&'static str, O)),
    v: Seq<(Seq<char>, ValueModel)>,
    r: Result<ParamsModel, ErrorModel>,
)
    requires
        v.len() == 15,
        t.0.1.value() == Ok::<ValueModel, ErrorModel>(v[0].1),
        v[0].0 == t.0.0@,
        t.1.1.value() == Ok::<ValueModel, ErrorModel>(v[1].1),
        v[1].0 == t.1.0@,
        t.2.1.value() == Ok::<ValueModel, ErrorModel>(v[2].1),
        v[2].0 == t.2.0@,
        t.3.1.value() == Ok::<ValueModel, ErrorModel>(v[3].1),
        v[3].0 == t.3.0@,
        t.4.1.value() == Ok::<ValueModel, ErrorModel>(v[4].1),
        v[4].0 == t.4.0@,
        t.5.1.value() == Ok::<ValueModel, ErrorModel>(v[5].1),
        v[5].0 == t.5.0@,
        t.6.1.value() == Ok::<ValueModel, ErrorModel>(v[6].1),
        v[6].0 == t.6.0@,
        t.7.1.value() == Ok::<ValueModel, ErrorModel>(v[7].1),
        v[7].0 == t.7.0@,
        t.8.1.value() == Ok::<ValueModel, ErrorModel>(v[8].1),
        v[8].0 == t.8.0@,
        t.9.1.value() == Ok::<ValueModel, ErrorModel>(v[9].1),
        v[9].0 == t.9.0@,
        t.10.1.value() == Ok::<ValueModel, ErrorModel>(v[10].1),
        v[10].0 == t.10.0@,
        t.11.1.value() == Ok::<ValueModel, ErrorModel>(v[11].1),
        v[11].0 == t.11.0@,
        t.12.1.value() == Ok::<ValueModel, ErrorModel>(v[12].1),
        v[12].0 == t.12.0@,
        t.13.1.value() == Ok::<ValueModel, ErrorModel>(v[13].1),
        v[13].0 == t.13.0@,
        t.14.1.value() == Ok::<ValueModel, ErrorModel>(v[14].1),
        v[14].0 == t.14.0@,
        t.converts_to(r),
    ensures
        r == Ok::<ParamsModel, ErrorModel>(ParamsModel::Named(v)),
{
    assert(Seq::<(Seq<char>, ValueModel)>::empty().push((t.0.0@, v[0].1)).push((t.1.0@, v[1].1)).push((t.2.0@, v[2].1)).push((t.3.0@, v[3].1)).push((t.4.0@, v[4].1)).push((t.5.0@, v[5].1)).push((t.6.0@, v[6].1)).push((t.7.0@, v[7].1)).push((t.8.0@, v[8].1)).push((t.9.0@, v[9].1)).push((t.10.0@, v[10].1)).push((t.11.0@, v[11].1)).push((t.12.0@, v[12].1)).push((t.13.0@, v[13].1)).push((t.14.0@, v[14].1)) =~= v);
}

/// A tuple of sixteen named values becomes parameters under their names, in their order.
pub proof fn named_tuples_of_sixteen_keep_their_order<
    A: IntoValue,
    B: IntoValue,
    C: IntoValue,
    D: IntoValue,
    E: IntoValue,
    F: IntoValue,
    G: IntoValue,
    H: IntoValue,
    I: IntoValue,
    J: IntoValue,
    K: IntoValue,
    L: IntoValue,
    M: IntoValue,
    N: IntoValue,
    O: IntoValue,
    P: IntoValue,
>(
    t: ((&'static str, A), (&'static str, B), (&'static str, C), (&'static str, D), (&'static str, E), (&'static str, F), (&'static str, G), (&'static str, H), (&'static str, I), (&'static str, J), (&'static str, K), (&'static str, L), (&'static str, M), (&'static str, N), (&'static str, O), (&'static str, P)),
    v: Seq<(Seq<char>, ValueModel)>,
    r: Result<ParamsModel, ErrorModel>,
)
    requires
        v.len() == 16,
        t.0.1.value() == Ok::<ValueModel, ErrorModel>(v[0].1),
        v[0].0 == t.0.0@,
        t.1.1.value() == Ok::<ValueModel, ErrorModel>(v[1].1),
        v[1].0 == t.1.0@,
        t.2.1.value() == Ok::<ValueModel, ErrorModel>(v[2].1),
        v[2].0 == t.2.0@,
        t.3.1.value() == Ok::<ValueModel, ErrorModel>(v[3].1),
        v[3].0 == t.3.0@,
        t.4.1.value() == Ok::<ValueModel, ErrorModel>(v[4].1),
        v[4].0 == t.4.0@,
        t.5.1.value() == Ok::<ValueModel, ErrorModel>(v[5].1),
        v[5].0 == t.5.0@,
        t.6.1.value() == Ok::<ValueModel, ErrorModel>(v[6].1),
        v[6].0 == t.6.0@,
        t.7.1.value() == Ok::<ValueModel, ErrorModel>(v[7].1),
        v[7].0 == t.7.0@,
        t.8.1.value() == Ok::<ValueModel, ErrorModel>(v[8].1),
        v[8].0 == t.8.0@,
        t.9.1.value() == Ok::<ValueModel, ErrorModel>(v[9].1),
        v[9].0 == t.9.0@,
        t.10.1.value() == Ok::<ValueModel, ErrorModel>(v[10].1),
        v[10].0 == t.10.0@,
        t.11.1.value() == Ok::<ValueModel, ErrorModel>(v[11].1),
        v[11].0 == t.11.0@,
        t.12.1.value() == Ok::<ValueModel, ErrorModel>(v[12].1),
        v[12].0 == t.12.0@,
        t.13.1.value() == Ok::<ValueModel, ErrorModel>(v[13].1),
        v[13].0 == t.13.0@,
        t.14.1.value() == Ok::<ValueModel, ErrorModel>(v[14].1),
        v[14].0 == t.14.0@,
        t.15.1.value() == Ok::<ValueModel, ErrorModel>(v[15].1),
        v[15].0 == t.15.0@,
        t.converts_to(r),
    ensures
        r == Ok::<ParamsModel, ErrorModel>(ParamsModel::Named(v)),
{
    assert(Seq::<(Seq<char>, ValueModel)>::empty().push((t.0.0@, v[0].1)).push((t.1.0@, v[1].1)).push((t.2.0@, v[2].1)).push((t.3.0@, v[3].1)).push((t.4.0@, v[4].1)).push((t.5.0@, v[5].1)).push((t.6.0@, v[6].1)).push((t.7.0@, v[7].1)).push((t.8.0@, v[8].1)).push((t.9.0@, v[9].1)).push((t.10.0@, v[10].1)).push((t.11.0@, v[11].1)).push((t.12.0@, v[12].1)).push((t.13.0@, v[13].1)).push((t.14.0@, v[14].1)).push((t.15.0@, v[15].1)) =~= v);
}

} // verus!
