//! What the functions of the compatibility layer give back.

use vstd::prelude::*;
use crate::pg::functions;
use crate::pg::functions::{OutcomeModel, ScalarContext};
use crate::text;
use crate::value::{Value, ValueModel};

verus! {

/// The text that a literal stands for: one with backslashes is marked by a letter
/// in front, and there they are doubled; quotes are doubled in either kind.
pub open spec fn literal_text(literal: Seq<char>) -> Seq<char> {
    if literal[0] == 'E' {
        functions::undoubled(
            functions::undoubled(literal.subrange(2, literal.len() - 1), '\''),
            '\\',
        )
    } else {
        functions::undoubled(literal.subrange(1, literal.len() - 1), '\'')
    }
}

/// Whatever a text holds, its literal stands for that text. It is closed by quotes,
/// and marked exactly where the text has a backslash.
pub proof fn literals_read_back(s: Seq<char>)
    ensures
        literal_text(functions::quoted_literal(s)) == s,
        functions::quoted_literal(s).last() == '\'',
        functions::quoted_literal(s)[0] == 'E' <==> s.contains('\\'),
        !s.contains('\\') ==> functions::quoted_literal(s)[0] == '\'',
{
    reveal_strlit("E'");
    reveal_strlit("'");
    let q = functions::quoted_literal(s);
    if s.contains('\\') {
        let inner = functions::doubled(functions::doubled(s, '\\'), '\'');
        assert(q.subrange(2, q.len() - 1) =~= inner);
        functions::doubling_is_undone(functions::doubled(s, '\\'), '\'');
        functions::doubling_is_undone(s, '\\');
    } else {
        let inner = functions::doubled(s, '\'');
        assert(q.subrange(1, q.len() - 1) =~= inner);
        functions::doubling_is_undone(s, '\'');
    }
}

/// How many more quotes in a row stand at the end of a text.
pub open spec fn run_at_end(s: Seq<char>, c: char) -> nat
    decreases s.len(),
{
    if s.len() > 0 && s.last() == c {
        1 + run_at_end(s.drop_last(), c)
    } else {
        0
    }
}

/// A quote inside a literal never stands alone: wherever the text in it is cut
/// between two doubled characters, the quotes before the cut come in pairs.
pub proof fn quotes_in_literals_come_in_pairs(s: Seq<char>, c: char)
    ensures
        run_at_end(functions::doubled(s, c), c) % 2 == 0,
        run_at_end(functions::doubled(s, c), c) == 2 * run_at_end(s, c),
    decreases s.len(),
{
    if s.len() > 0 {
        let before = functions::doubled(s.drop_last(), c);
        quotes_in_literals_come_in_pairs(s.drop_last(), c);
        if s.last() == c {
            let d = before.push(c).push(c);
            assert(d.drop_last() =~= before.push(c));
            assert(before.push(c).drop_last() =~= before);
            assert(run_at_end(before.push(c), c) == 1 + run_at_end(before, c));
        } else {
            assert(functions::doubled(s, c).last() == s.last());
        }
    }
}

/// The two functions that compare truth values give opposite answers.
pub proof fn equality_and_inequality_are_opposites(args: Seq<Value>, ctx: ScalarContext)
    ensures
        ({
            let eq = functions::scalar_outcome("booleq"@, args, ctx);
            let ne = functions::scalar_outcome("boolne"@, args, ctx);
            &&& eq == Some(OutcomeModel::Value(ValueModel::Integer(1)))
                || eq == Some(OutcomeModel::Value(ValueModel::Integer(0)))
            &&& ne == Some(OutcomeModel::Value(ValueModel::Integer(1)))
                || ne == Some(OutcomeModel::Value(ValueModel::Integer(0)))
            &&& eq != ne
            &&& eq == Some(OutcomeModel::Value(ValueModel::Integer(1))) <==> ctx.args_equal
        }),
{
    reveal_strlit("booleq");
    reveal_strlit("boolne");
    reveal_strlit("to_char");
    reveal_strlit("pg_get_userbyid");
    reveal_strlit("pg_table_is_visible");
    reveal_strlit("pg_function_is_visible");
    reveal_strlit("pg_type_is_visible");
    reveal_strlit("pg_get_constraintdef");
    reveal_strlit("pg_get_indexdef");
    reveal_strlit("pg_encoding_to_char");
    reveal_strlit("format_type");
    reveal_strlit("pg_input_is_valid");
    assert("booleq"@.len() == 6 && "boolne"@.len() == 6);
    assert("booleq"@[4] == 'e' && "boolne"@[4] == 'n');
    assert("to_char"@.len() == 7 && "pg_get_userbyid"@.len() == 15);
    assert("pg_table_is_visible"@.len() == 19 && "pg_function_is_visible"@.len() == 22);
    assert("pg_type_is_visible"@.len() == 18 && "pg_get_constraintdef"@.len() == 20);
    assert("pg_get_indexdef"@.len() == 15 && "pg_encoding_to_char"@.len() == 19);
    assert("format_type"@.len() == 11 && "pg_input_is_valid"@.len() == 17);
}

/// A function that executes is resolved with some number of arguments.
pub proof fn functions_that_execute_are_resolved(
    name: Seq<char>,
    args: Seq<Value>,
    ctx: ScalarContext,
)
    requires
        functions::scalar_outcome(name, args, ctx) is Some,
    ensures
        functions::is_scalar(name, 0) || functions::is_scalar(name, 1) || functions::is_scalar(
            name,
            2,
        ),
{
}

/// The length that a character type carries is shown in brackets, less the four
/// that go with it; types without a length are shown by their names alone.
pub proof fn lengths_are_shown(oid: i64, n: nat)
    requires
        0 < n <= 0x7fff_ffff,
        oid == 1042 || oid == 1043,
    ensures
        functions::formatted_type(oid, (n + 4) as i64) == functions::plain_type_name(oid)
            + "("@ + text::decimal(n) + ")"@,
        functions::formatted_type(oid, -1i64) == functions::plain_type_name(oid),
        functions::formatted_type(23, (n + 4) as i64) == functions::plain_type_name(23),
{
}

/// The precision and the scale of a number stand side by side in what it carries,
/// and are shown as such.
pub proof fn precisions_are_shown(precision: nat, scale: nat)
    requires
        precision < 0x1_0000,
        scale < 0x1_0000,
        0 < precision + scale,
    ensures
        functions::formatted_type(1700, (precision * 0x1_0000 + scale + 4) as i64) == "numeric("@
            + text::decimal(precision) + ","@ + text::decimal(scale) + ")"@,
{
    let n = precision * 0x1_0000 + scale;
    assert((n / 0x1_0000) % 0x1_0000 == precision);
    assert(n % 0x1_0000 == scale);
}

} // verus!
