//! What substitution leaves of a variable.

use vstd::prelude::*;
use crate::pg::dbz;
use crate::translate::expr::{Expr, ExprList};

verus! {

proof fn sums_distribute(a: nat, b: nat, k: nat)
    ensures
        (a + b) * k == a * k + b * k,
{
    assert((a + b) * k == a * k + b * k) by (nonlinear_arith);
}

/// A variable is substituted wherever it stands, and nothing else is: behind the
/// substitution it occurs as often as it did in all the places where it stood. So
/// where what stands in for it is without it, none is left.
pub proof fn every_variable_is_substituted(e: Expr, variable: u64, by: Expr)
    ensures
        dbz::variables(dbz::substituted(e, variable, by), variable) == dbz::variables(e, variable)
            * dbz::variables(by, variable),
    decreases e,
{
    let k = dbz::variables(by, variable);
    if dbz::is_variable(e, variable) {
        assert(1 * k == k) by (nonlinear_arith);
    } else {
        match e {
            Expr::FunctionCall { args, order_by, within_group, filter_clause, .. } => {
                every_variable_in_a_list(args, variable, by);
                every_variable_in_a_list(order_by, variable, by);
                every_variable_in_a_list(within_group, variable, by);
                let a = dbz::variables_in(args, variable);
                let b = dbz::variables_in(order_by, variable);
                let c = dbz::variables_in(within_group, variable);
                let d = match filter_clause {
                    Some(f) => dbz::variables(*f, variable),
                    None => 0,
                };
                if let Some(f) = filter_clause {
                    every_variable_is_substituted(*f, variable, by);
                }
                assert(0 * k == 0) by (nonlinear_arith);
                sums_distribute(a, b, k);
                sums_distribute(a + b, c, k);
                sums_distribute(a + b + c, d, k);
            },
            Expr::Subquery { operands, .. } => {
                every_variable_in_a_list(operands, variable, by);
            },
            Expr::Node { operands, .. } => {
                every_variable_in_a_list(operands, variable, by);
            },
            _ => {
                assert(0 * k == 0) by (nonlinear_arith);
            },
        }
    }
}

proof fn every_variable_in_a_list(list: ExprList, variable: u64, by: Expr)
    ensures
        dbz::variables_in(dbz::substituted_list(list, variable, by), variable)
            == dbz::variables_in(list, variable) * dbz::variables(by, variable),
    decreases list,
{
    let k = dbz::variables(by, variable);
    match list {
        ExprList::Nil => {
            assert(0 * k == 0) by (nonlinear_arith);
        },
        ExprList::Cons(head, tail) => {
            every_variable_is_substituted(*head, variable, by);
            every_variable_in_a_list(*tail, variable, by);
            sums_distribute(
                dbz::variables(*head, variable),
                dbz::variables_in(*tail, variable),
                k,
            );
        },
    }
}

} // verus!
