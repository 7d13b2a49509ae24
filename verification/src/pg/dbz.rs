//! The table function `pg_dbz`, which is expanded to a query with one parameter.

use vstd::prelude::*;
use crate::error::LimboError;
use crate::translate::expr::{Expr, ExprList};

verus! {

/// The query that the function is expanded to, as it was parsed.
pub enum Template {
    /// A query: its WHERE clause, if it has one, and the number of the rest.
    Select { where_clause: Option<Expr>, rest: u64 },
    /// Something else.
    Other,
}

/// An expanded query.
pub struct Expansion {
    pub where_clause: Expr,
    pub rest: u64,
}

/// Whether an expression is a parameter: an operation with the number
/// `variable`.
pub open spec fn is_variable(e: Expr, variable: u64) -> bool {
    e matches Expr::Node { op, .. } && op == variable
}

/// An expression with each parameter in it replaced by another expression.
pub open spec fn substituted(e: Expr, variable: u64, by: Expr) -> Expr
    decreases e,
{
    if is_variable(e, variable) {
        by
    } else {
        match e {
            Expr::FunctionCall {
                name,
                kind,
                star,
                args,
                order_by,
                within_group,
                filter_clause,
                over_clause,
            } => {
                Expr::FunctionCall {
                    name,
                    kind,
                    star,
                    args: substituted_list(args, variable, by),
                    order_by: substituted_list(order_by, variable, by),
                    within_group: substituted_list(within_group, variable, by),
                    filter_clause: match filter_clause {
                        Some(f) => Some(Box::new(substituted(*f, variable, by))),
                        None => None,
                    },
                    over_clause,
                }
            },
            Expr::Subquery { form, query, operands } => Expr::Subquery {
                form,
                query,
                operands: substituted_list(operands, variable, by),
            },
            Expr::Node { op, operands } => Expr::Node {
                op,
                operands: substituted_list(operands, variable, by),
            },
            _ => e,
        }
    }
}

pub open spec fn substituted_list(list: ExprList, variable: u64, by: Expr) -> ExprList
    decreases list,
{
    match list {
        ExprList::Nil => ExprList::Nil,
        ExprList::Cons(head, tail) => ExprList::Cons(
            Box::new(substituted(*head, variable, by)),
            Box::new(substituted_list(*tail, variable, by)),
        ),
    }
}

/// How many parameters an expression holds.
pub open spec fn variables(e: Expr, variable: u64) -> nat
    decreases e,
{
    if is_variable(e, variable) {
        1
    } else {
        match e {
            Expr::FunctionCall { args, order_by, within_group, filter_clause, .. } => {
                variables_in(args, variable) + variables_in(order_by, variable) + variables_in(
                    within_group,
                    variable,
                ) + match filter_clause {
                    Some(f) => variables(*f, variable),
                    None => 0,
                }
            },
            Expr::Subquery { operands, .. } => variables_in(operands, variable),
            Expr::Node { operands, .. } => variables_in(operands, variable),
            _ => 0,
        }
    }
}

pub open spec fn variables_in(list: ExprList, variable: u64) -> nat
    decreases list,
{
    match list {
        ExprList::Nil => 0,
        ExprList::Cons(head, tail) => variables(*head, variable) + variables_in(*tail, variable),
    }
}

/// A count that stops at two: whether there is none, one or more than one.
pub open spec fn few(n: nat) -> u8 {
    if n < 2 {
        n as u8
    } else {
        2
    }
}

fn add_few(a: u8, b: u8) -> (r: u8)
    requires
        a <= 2,
        b <= 2,
    ensures
        r == few((a + b) as nat),
{
    if a + b < 2 {
        a + b
    } else {
        2
    }
}

fn substitute(e: &Expr, variable: u64, by: &Expr) -> (r: (Expr, u8))
    ensures
        r.0 == substituted(*e, variable, *by),
        r.1 == few(variables(*e, variable)),
    decreases e,
{
    match e {
        Expr::Node { op, operands } => {
            if *op == variable {
                (by.copy(), 1)
            } else {
                let (operands, n) = substitute_list(operands, variable, by);
                (Expr::Node { op: *op, operands }, n)
            }
        },
        Expr::FunctionCall {
            name,
            kind,
            star,
            args,
            order_by,
            within_group,
            filter_clause,
            over_clause,
        } => {
            let (args, n) = substitute_list(args, variable, by);
            let (order_by, m) = substitute_list(order_by, variable, by);
            let (within_group, l) = substitute_list(within_group, variable, by);
            let (filter_clause, k): (Option<Box<Expr>>, u8) = match filter_clause {
                Some(f) => {
                    let (f, k) = substitute(f, variable, by);
                    (Some(Box::new(f)), k)
                },
                None => (None, 0),
            };
            (
                Expr::FunctionCall {
                    name: *name,
                    kind: *kind,
                    star: *star,
                    args,
                    order_by,
                    within_group,
                    filter_clause,
                    over_clause: *over_clause,
                },
                add_few(add_few(add_few(n, m), l), k),
            )
        },
        Expr::Subquery { form, query, operands } => {
            let (operands, n) = substitute_list(operands, variable, by);
            (Expr::Subquery { form: *form, query: *query, operands }, n)
        },
        _ => (e.copy(), 0),
    }
}

fn substitute_list(list: &ExprList, variable: u64, by: &Expr) -> (r: (ExprList, u8))
    ensures
        r.0 == substituted_list(*list, variable, *by),
        r.1 == few(variables_in(*list, variable)),
    decreases list,
{
    match list {
        ExprList::Nil => (ExprList::Nil, 0),
        ExprList::Cons(head, tail) => {
            let (head, n) = substitute(head, variable, by);
            let (tail, m) = substitute_list(tail, variable, by);
            (ExprList::Cons(Box::new(head), Box::new(tail)), add_few(n, m))
        },
    }
}

/// Expands the function: its one argument takes the place of the one parameter
/// in the WHERE clause of the template.
pub fn expand(args: &Vec<Expr>, template: &Template, variable: u64) -> (r: Result<
    Expansion,
    LimboError,
>)
    ensures
        match r {
            Ok(expansion) => args@.len() == 1 && match template {
                Template::Select { where_clause: Some(w), rest } => variables(*w, variable) == 1
                    && expansion.where_clause == substituted(*w, variable, args@[0])
                    && expansion.rest == rest,
                _ => false,
            },
            Err(e) => if args@.len() != 1 {
                e.is_parse_error("pg_dbz() function must have exactly 1 argument"@)
            } else {
                match template {
                    Template::Other => e.is_internal_error("pg_dbz expansion is not a SELECT"@),
                    Template::Select { where_clause: None, .. } => e.is_internal_error(
                        "pg_dbz expansion has no WHERE clause"@,
                    ),
                    Template::Select { where_clause: Some(w), .. } => variables(*w, variable) != 1
                        && e.is_internal_error(
                        "pg_dbz expansion must have exactly one cursor parameter"@,
                    ),
                }
            },
        },
{
    if args.len() != 1 {
        return Err(
            LimboError::ParseError("pg_dbz() function must have exactly 1 argument".to_owned()),
        );
    }
    match template {
        Template::Other => Err(
            LimboError::InternalError("pg_dbz expansion is not a SELECT".to_owned()),
        ),
        Template::Select { where_clause: None, .. } => Err(
            LimboError::InternalError("pg_dbz expansion has no WHERE clause".to_owned()),
        ),
        Template::Select { where_clause: Some(w), rest } => {
            let (where_clause, replacements) = substitute(w, variable, &args[0]);
            if replacements != 1 {
                Err(
                    LimboError::InternalError(
                        "pg_dbz expansion must have exactly one cursor parameter".to_owned(),
                    ),
                )
            } else {
                Ok(Expansion { where_clause, rest: *rest })
            }
        },
    }
}

/// An expression without parameters is not changed.
pub proof fn nothing_to_substitute(e: Expr, variable: u64, by: Expr)
    requires
        variables(e, variable) == 0,
    ensures
        substituted(e, variable, by) == e,
    decreases e,
{
    match e {
        Expr::FunctionCall { args, order_by, within_group, filter_clause, .. } => {
            nothing_to_substitute_in(args, variable, by);
            nothing_to_substitute_in(order_by, variable, by);
            nothing_to_substitute_in(within_group, variable, by);
            if let Some(f) = filter_clause {
                nothing_to_substitute(*f, variable, by);
            }
        },
        Expr::Subquery { operands, .. } => nothing_to_substitute_in(operands, variable, by),
        Expr::Node { operands, .. } => nothing_to_substitute_in(operands, variable, by),
        _ => {},
    }
}

proof fn nothing_to_substitute_in(list: ExprList, variable: u64, by: Expr)
    requires
        variables_in(list, variable) == 0,
    ensures
        substituted_list(list, variable, by) == list,
    decreases list,
{
    match list {
        ExprList::Nil => {},
        ExprList::Cons(head, tail) => {
            nothing_to_substitute(*head, variable, by);
            nothing_to_substitute_in(*tail, variable, by);
        },
    }
}

} // verus!
