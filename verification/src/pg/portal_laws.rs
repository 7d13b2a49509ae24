//! How the parameters of a statement are bound.

use vstd::prelude::*;
use crate::pg::server;
use crate::pg::types::PgType;
use crate::text;
use crate::value::{Real, ValueModel};

verus! {

/// Parameters are bound under their numbers, counted from one, in their order; one
/// that is not given is NULL. Nothing is bound where one of them cannot be read.
pub proof fn parameters_are_bound_by_number(
    parameters: Seq<Option<Vec<u8>>>,
    types: Seq<Option<PgType>>,
    doubles: Seq<Real>,
    n: nat,
)
    ensures
        match server::portal_parameters(parameters, types, doubles, n) {
            Ok(bound) => bound.len() == n && forall|i: int|
                0 <= i < n ==> (#[trigger] bound[i]).0 == seq!['$'] + text::decimal((i + 1) as nat)
                    && server::portal_parameter(parameters, types, doubles, i) == Ok::<
                    ValueModel,
                    Seq<char>,
                >(bound[i].1) && (parameters[i] is None ==> bound[i].1 == ValueModel::Null),
            Err(e) => exists|i: int|
                0 <= i < n && #[trigger] server::portal_parameter(parameters, types, doubles, i)
                    == Err::<ValueModel, Seq<char>>(e),
        },
    decreases n,
{
    reveal_strlit("$");
    assert("$"@ =~= seq!['$']);
    if n > 0 {
        let k = (n - 1) as nat;
        parameters_are_bound_by_number(parameters, types, doubles, k);
        match server::portal_parameters(parameters, types, doubles, n) {
            Ok(bound) => {
                let before = server::portal_parameters(parameters, types, doubles, k)->Ok_0;
                assert forall|i: int| 0 <= i < n implies (#[trigger] bound[i]).0 == seq!['$']
                    + text::decimal((i + 1) as nat) && server::portal_parameter(
                    parameters,
                    types,
                    doubles,
                    i,
                ) == Ok::<ValueModel, Seq<char>>(bound[i].1) && (parameters[i] is None
                    ==> bound[i].1 == ValueModel::Null) by {
                    if i < k {
                        assert(bound[i] == before[i]);
                    }
                }
            },
            Err(e) => {
                if server::portal_parameters(parameters, types, doubles, k) is Ok {
                    assert(server::portal_parameter(parameters, types, doubles, k as int) == Err::<
                        ValueModel,
                        Seq<char>,
                    >(e));
                }
            },
        }
    }
}

/// A parameter is read by the type that was declared for it; by none, where none
/// was, and then a text that reads as nothing else stays as it is.
pub proof fn undeclared_parameters_stay_texts(
    s: Seq<char>,
    bytes: Seq<u8>,
    types: Seq<Option<PgType>>,
    double: Real,
)
    ensures
        types.len() == 0 ==> server::declared_type(types, 0) == PgType::Unknown,
        types.len() > 0 && types[0] is Some ==> server::declared_type(types, 0) == types[0]->Some_0,
        server::typed_value(s, bytes, PgType::Text, double) == Ok::<ValueModel, Seq<char>>(
            ValueModel::Text(s),
        ),
        server::typed_value(s, bytes, PgType::Unknown, double) matches Ok(v) && (v
            == ValueModel::Text(s) || v == ValueModel::Real(double) || v is Integer),
{
}

} // verus!
