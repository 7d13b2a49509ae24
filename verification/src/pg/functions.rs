//! PostgreSQL's scalar functions, as far as they are known by name.

use vstd::prelude::*;
use vstd::string::StringExecFns;
use crate::error::LimboError;
use crate::pg::catalog;
use crate::pg::catalog::{CatalogTable, constraint_definition, index_definition};
use crate::pg::input;
use crate::pg::input::{InputFacts, validate_pg_input};
use crate::pg::number;
use crate::pg::number::{NumberFormat, to_char_format};
use crate::scan;
use crate::scan::{FloatText, classify_float};
use crate::text;
use crate::text::{chars_of, join2, join3, print_i64, same, string_of};
use crate::value::{Value, ValueModel};

verus! {

/// Whether a name with so many arguments is one of PostgreSQL's scalar
/// functions.
pub open spec fn is_scalar(name: Seq<char>, arg_count: nat) -> bool {
    if name == "pg_get_userbyid"@ || name == "pg_table_is_visible"@ || name
        == "pg_function_is_visible"@ || name == "pg_type_is_visible"@ || name
        == "pg_encoding_to_char"@ || name == "pg_get_function_result"@ || name
        == "pg_get_function_arguments"@ || name == "pg_get_statisticsobjdef_columns"@ || name
        == "pg_relation_is_publishable"@ || name == "quote_ident"@ || name == "quote_literal"@ {
        arg_count == 1
    } else if name == "format_type"@ || name == "pg_get_constraintdef"@ || name
        == "pg_get_indexdef"@ || name == "obj_description"@ {
        1 <= arg_count <= 2
    } else if name == "pg_get_expr"@ {
        2 <= arg_count <= 3
    } else if name == "to_char"@ || name == "pg_input_is_valid"@ || name == "booleq"@ || name
        == "boolne"@ || name == "col_description"@ {
        arg_count == 2
    } else if name == "version"@ || name == "current_database"@ || name == "current_schema"@ || name
        == "pg_backend_pid"@ {
        arg_count == 0
    } else {
        false
    }
}

/// Resolves a scalar function by its name and the number of its arguments.
pub fn resolve_scalar(name: &str, arg_count: usize) -> (r: bool)
    ensures
        r == is_scalar(name@, arg_count as nat),
{
    if same(name, "pg_get_userbyid") || same(name, "pg_table_is_visible") || same(
        name,
        "pg_function_is_visible",
    ) || same(name, "pg_type_is_visible") || same(name, "pg_encoding_to_char") || same(
        name,
        "pg_get_function_result",
    ) || same(name, "pg_get_function_arguments") || same(name, "pg_get_statisticsobjdef_columns")
        || same(name, "pg_relation_is_publishable") || same(name, "quote_ident") || same(
        name,
        "quote_literal",
    ) {
        arg_count == 1
    } else if same(name, "format_type") || same(name, "pg_get_constraintdef") || same(
        name,
        "pg_get_indexdef",
    ) || same(name, "obj_description") {
        1 <= arg_count && arg_count <= 2
    } else if same(name, "pg_get_expr") {
        2 <= arg_count && arg_count <= 3
    } else if same(name, "to_char") || same(name, "pg_input_is_valid") || same(name, "booleq")
        || same(name, "boolne") || same(name, "col_description") {
        arg_count == 2
    } else if same(name, "version") || same(name, "current_database") || same(
        name,
        "current_schema",
    ) || same(name, "pg_backend_pid") {
        arg_count == 0
    } else {
        false
    }
}

/// A text with every `c` doubled.
pub open spec fn doubled(s: Seq<char>, c: char) -> Seq<char>
    decreases s.len(),
{
    if s.len() == 0 {
        Seq::empty()
    } else if s.last() == c {
        doubled(s.drop_last(), c).push(c).push(c)
    } else {
        doubled(s.drop_last(), c).push(s.last())
    }
}

fn double_char(v: &Vec<char>, c: char) -> (r: Vec<char>)
    ensures
        r@ == doubled(v@, c),
{
    let mut r: Vec<char> = Vec::new();
    let mut i: usize = 0;
    assert(r@ =~= doubled(v@.take(0), c));
    while i < v.len()
        invariant
            i <= v@.len(),
            r@ == doubled(v@.take(i as int), c),
        decreases v@.len() - i,
    {
        assert(v@.take(i + 1).drop_last() =~= v@.take(i as int));
        r.push(v[i]);
        if v[i] == c {
            r.push(c);
        }
        i = i + 1;
    }
    assert(v@.take(i as int) =~= v@);
    r
}

/// A text as a literal: in single quotes, with those inside doubled. A text
/// with backslashes becomes an escape string, so that it is read back the same
/// in every setting.
pub open spec fn quoted_literal(s: Seq<char>) -> Seq<char> {
    if s.contains('\\') {
        "E'"@ + doubled(doubled(s, '\\'), '\'') + "'"@
    } else {
        "'"@ + doubled(s, '\'') + "'"@
    }
}

/// Quotes a text as a literal.
pub fn quote_text(s: &str) -> (r: String)
    ensures
        r@ == quoted_literal(s@),
{
    let v = chars_of(s);
    let escaped: bool = scan::find_from(&v, '\\', 0) < v.len();
    proof {
        contains_by_index(v@, '\\', 0);
    }
    if escaped {
        let inner = double_char(&double_char(&v, '\\'), '\'');
        join3("E'", string_of(inner.as_slice()).as_str(), "'")
    } else {
        let inner = double_char(&v, '\'');
        join3("'", string_of(inner.as_slice()).as_str(), "'")
    }
}

proof fn contains_by_index(s: Seq<char>, c: char, from: nat)
    requires
        from <= s.len(),
        forall|i: int| 0 <= i < from ==> s[i] != c,
    ensures
        s.contains(c) == (scan::first_index(s, c, from) < s.len()),
    decreases s.len() - from,
{
    if from < s.len() && s[from as int] != c {
        contains_by_index(s, c, from + 1);
    }
}

/// What a literal without backslashes says: the quotes around it are gone, and
/// every pair of quotes inside is one.
pub open spec fn undoubled(s: Seq<char>, c: char) -> Seq<char>
    decreases s.len(),
{
    if s.len() >= 2 && s.last() == c && s[s.len() - 2] == c {
        undoubled(s.take(s.len() - 2), c).push(c)
    } else if s.len() > 0 {
        undoubled(s.drop_last(), c).push(s.last())
    } else {
        Seq::empty()
    }
}

/// Taking doubled characters for one gives a text back as it was.
pub proof fn doubling_is_undone(s: Seq<char>, c: char)
    ensures
        undoubled(doubled(s, c), c) == s,
    decreases s.len(),
{
    if s.len() > 0 {
        let before = doubled(s.drop_last(), c);
        doubling_is_undone(s.drop_last(), c);
        let d = doubled(s, c);
        if s.last() == c {
            assert(d.take(d.len() - 2) =~= before);
        } else {
            assert(d.drop_last() =~= before);
        }
        assert(s.drop_last().push(s.last()) =~= s);
    } else {
        assert(undoubled(doubled(s, c), c) =~= s);
    }
}

/// The name of an encoding; all others are taken for UTF-8.
pub open spec fn encoding_name(encoding: i64) -> Seq<char> {
    if encoding == 0 {
        "SQL_ASCII"@
    } else {
        "UTF8"@
    }
}

/// The name of a type by its number, without its modifier.
pub open spec fn plain_type_name(oid: i64) -> Seq<char> {
    if oid == 16 {
        "boolean"@
    } else if oid == 17 {
        "bytea"@
    } else if oid == 18 {
        "\"char\""@
    } else if oid == 19 {
        "name"@
    } else if oid == 20 {
        "bigint"@
    } else if oid == 21 {
        "smallint"@
    } else if oid == 23 {
        "integer"@
    } else if oid == 25 {
        "text"@
    } else if oid == 26 {
        "oid"@
    } else if oid == 114 {
        "json"@
    } else if oid == 700 {
        "real"@
    } else if oid == 701 {
        "double precision"@
    } else if oid == 1000 {
        "boolean[]"@
    } else if oid == 1007 {
        "integer[]"@
    } else if oid == 1009 {
        "text[]"@
    } else if oid == 1022 {
        "double precision[]"@
    } else if oid == 1042 {
        "character"@
    } else if oid == 1043 {
        "character varying"@
    } else if oid == 1082 {
        "date"@
    } else if oid == 1083 {
        "time without time zone"@
    } else if oid == 1114 {
        "timestamp without time zone"@
    } else if oid == 1184 {
        "timestamp with time zone"@
    } else if oid == 1186 {
        "interval"@
    } else if oid == 1700 {
        "numeric"@
    } else if oid == 2205 {
        "regclass"@
    } else if oid == 2206 {
        "regtype"@
    } else if oid == 2278 {
        "void"@
    } else if oid == 2950 {
        "uuid"@
    } else if oid == 3802 {
        "jsonb"@
    } else {
        "unknown"@
    }
}

/// The name of a type by its number and its modifier. The modifier of a text
/// type is its length and four; that of a number holds its precision above its
/// scale.
pub open spec fn formatted_type(oid: i64, typemod: i64) -> Seq<char> {
    let n = typemod - 4;
    if (oid == 1042 || oid == 1043) && typemod > 4 {
        plain_type_name(oid) + "("@ + text::signed_decimal(n) + ")"@
    } else if oid == 1700 && typemod > 4 {
        "numeric("@ + text::signed_decimal((n / 0x1_0000) % 0x1_0000) + ","@
            + text::signed_decimal(n % 0x1_0000) + ")"@
    } else {
        plain_type_name(oid)
    }
}

fn find_plain_type_name(oid: i64) -> (s: &'static str)
    ensures
        s@ == plain_type_name(oid),
{
    match oid {
        16 => "boolean",
        17 => "bytea",
        18 => "\"char\"",
        19 => "name",
        20 => "bigint",
        21 => "smallint",
        23 => "integer",
        25 => "text",
        26 => "oid",
        114 => "json",
        700 => "real",
        701 => "double precision",
        1000 => "boolean[]",
        1007 => "integer[]",
        1009 => "text[]",
        1022 => "double precision[]",
        1042 => "character",
        1043 => "character varying",
        1082 => "date",
        1083 => "time without time zone",
        1114 => "timestamp without time zone",
        1184 => "timestamp with time zone",
        1186 => "interval",
        1700 => "numeric",
        2205 => "regclass",
        2206 => "regtype",
        2278 => "void",
        2950 => "uuid",
        3802 => "jsonb",
        _ => "unknown",
    }
}

/// The name of a type by its number and its modifier.
pub fn exec_pg_format_type(type_oid: i64, typemod: i64) -> (r: String)
    ensures
        r@ == formatted_type(type_oid, typemod),
{
    if (type_oid == 1042 || type_oid == 1043) && typemod > 4 {
        let mut r = find_plain_type_name(type_oid).to_owned();
        r.append("(");
        r.append(print_i64(typemod - 4).as_str());
        r.append(")");
        r
    } else if type_oid == 1700 && typemod > 4 {
        let n: i64 = typemod - 4;
        let mut r = "numeric(".to_owned();
        r.append(print_i64((n / 0x1_0000) % 0x1_0000).as_str());
        r.append(",");
        r.append(print_i64(n % 0x1_0000).as_str());
        r.append(")");
        r
    } else {
        find_plain_type_name(type_oid).to_owned()
    }
}

/// What a call of a scalar function may read besides its arguments.
pub struct ScalarContext {
    /// The name of the database.
    pub database: String,
    /// The version of the engine.
    pub engine_version: String,
    /// The number of the process.
    pub pid: i64,
    pub tables: Vec<CatalogTable>,
    /// The user's tables in the order of their names.
    pub order: Vec<usize>,
    /// The first argument as text, as SQL prints it.
    pub first_text: String,
    /// The first argument as an identifier.
    pub first_identifier: String,
    /// Whether the first two arguments are equal.
    pub args_equal: bool,
    pub facts: InputFacts,
}

impl ScalarContext {
    pub open spec fn well_formed(&self) -> bool {
        &&& catalog::is_user_order(self.tables@, self.order@)
        &&& catalog::order_fits(self.tables@, self.order@)
    }

    /// The definition of a constraint as a value.
    pub open spec fn constraint(&self, oid: i64) -> ValueModel {
        optional_text(
            catalog::numbered(
                catalog::all_constraints(self.tables@, self.order@, self.order@.len()),
                catalog::first_constraint_oid(self.tables@, self.order@),
                oid as int,
            ),
        )
    }

    /// The definition of an index as a value.
    pub open spec fn index(&self, oid: i64) -> ValueModel {
        optional_text(
            catalog::numbered(
                catalog::all_indexes(self.tables@, self.order@, self.order@.len()),
                catalog::first_index_oid(self.order@),
                oid as int,
            ),
        )
    }
}

pub open spec fn optional_text(s: Option<Seq<char>>) -> ValueModel {
    match s {
        Some(s) => ValueModel::Text(s),
        None => ValueModel::Null,
    }
}

/// The result of a scalar function: a value, or a format for the number that
/// is the first argument.
pub enum ScalarOutcome {
    Value(Value),
    FormatNumber(NumberFormat),
}

/// The result of a scalar function, by what it holds.
pub enum OutcomeModel {
    Value(ValueModel),
    FormatNumber(NumberFormat),
}

impl View for ScalarOutcome {
    type V = OutcomeModel;

    open spec fn view(&self) -> OutcomeModel {
        match self {
            ScalarOutcome::Value(v) => OutcomeModel::Value(v@),
            ScalarOutcome::FormatNumber(f) => OutcomeModel::FormatNumber(*f),
        }
    }
}

/// An argument as an integer.
pub open spec fn int_arg(args: Seq<Value>, i: int, default: i64) -> i64 {
    if i < args.len() && args[i] is Integer {
        args[i]->Integer_0
    } else {
        default
    }
}

/// An argument as a text.
pub open spec fn text_arg(args: Seq<Value>, i: int) -> Seq<char> {
    if i < args.len() && args[i] is Text {
        args[i]->Text_0@
    } else {
        Seq::empty()
    }
}

/// Whether an argument is missing or NULL.
pub open spec fn null_arg(args: Seq<Value>, i: int) -> bool {
    i >= args.len() || args[i] is Null
}

/// The result of `to_char`: only numbers, and texts that are numbers, are
/// formatted.
pub open spec fn to_char_outcome(args: Seq<Value>) -> OutcomeModel {
    let formats = if null_arg(args, 0) {
        false
    } else {
        match args[0] {
            Value::Integer(_) => true,
            Value::Real(_) => true,
            Value::Text(t) => scan::float_text(t@) != FloatText::Malformed,
            _ => false,
        }
    };
    if formats {
        OutcomeModel::FormatNumber(
            number::number_format(text::uppercase(text_arg(args, 1))),
        )
    } else {
        OutcomeModel::Value(ValueModel::Null)
    }
}

/// The result of `pg_input_is_valid`.
pub open spec fn input_is_valid(args: Seq<Value>, ctx: ScalarContext) -> ValueModel {
    if null_arg(args, 0) {
        ValueModel::Null
    } else {
        let s = match args[0] {
            Value::Text(t) => t@,
            _ => ctx.first_text@,
        };
        if input::pg_input_error(s, text_arg(args, 1), ctx.facts) is None {
            ValueModel::Integer(1)
        } else {
            ValueModel::Integer(0)
        }
    }
}

/// The result of `quote_literal`.
pub open spec fn quote_literal_value(args: Seq<Value>, ctx: ScalarContext) -> ValueModel {
    if null_arg(args, 0) {
        ValueModel::Null
    } else {
        ValueModel::Text(
            quoted_literal(
                match args[0] {
                    Value::Text(t) => t@,
                    _ => ctx.first_text@,
                },
            ),
        )
    }
}

pub open spec fn truth(b: bool) -> ValueModel {
    ValueModel::Integer(
        if b {
            1
        } else {
            0
        },
    )
}

/// The result of a scalar function, or `None` for a name that is none.
pub open spec fn scalar_outcome(name: Seq<char>, args: Seq<Value>, ctx: ScalarContext) -> Option<
    OutcomeModel,
> {
    if name == "pg_get_userbyid"@ {
        Some(OutcomeModel::Value(ValueModel::Text("turso"@)))
    } else if name == "pg_table_is_visible"@ || name == "pg_function_is_visible"@ || name
        == "pg_type_is_visible"@ {
        Some(OutcomeModel::Value(ValueModel::Integer(1)))
    } else if name == "pg_get_constraintdef"@ {
        Some(OutcomeModel::Value(ctx.constraint(int_arg(args, 0, 0))))
    } else if name == "pg_get_indexdef"@ {
        Some(OutcomeModel::Value(ctx.index(int_arg(args, 0, 0))))
    } else if name == "pg_encoding_to_char"@ {
        Some(OutcomeModel::Value(ValueModel::Text(encoding_name(int_arg(args, 0, 0)))))
    } else if name == "format_type"@ {
        Some(
            OutcomeModel::Value(
                ValueModel::Text(
                    formatted_type(int_arg(args, 0, 0), int_arg(args, 1, -1i64)),
                ),
            ),
        )
    } else if name == "to_char"@ {
        Some(to_char_outcome(args))
    } else if name == "pg_input_is_valid"@ {
        Some(OutcomeModel::Value(input_is_valid(args, ctx)))
    } else if name == "booleq"@ {
        Some(OutcomeModel::Value(truth(ctx.args_equal)))
    } else if name == "boolne"@ {
        Some(OutcomeModel::Value(truth(!ctx.args_equal)))
    } else if name == "version"@ {
        Some(
            OutcomeModel::Value(
                ValueModel::Text("PostgreSQL 16.6 (Turso v"@ + ctx.engine_version@ + ")"@),
            ),
        )
    } else if name == "current_database"@ {
        Some(OutcomeModel::Value(ValueModel::Text(ctx.database@)))
    } else if name == "current_schema"@ {
        Some(OutcomeModel::Value(ValueModel::Text("public"@)))
    } else if name == "pg_backend_pid"@ {
        Some(OutcomeModel::Value(ValueModel::Integer(ctx.pid)))
    } else if name == "quote_ident"@ {
        Some(
            OutcomeModel::Value(
                if null_arg(args, 0) {
                    ValueModel::Null
                } else {
                    ValueModel::Text(ctx.first_identifier@)
                },
            ),
        )
    } else if name == "quote_literal"@ {
        Some(OutcomeModel::Value(quote_literal_value(args, ctx)))
    } else if name == "pg_get_expr"@ || name == "pg_get_statisticsobjdef_columns"@ || name
        == "pg_relation_is_publishable"@ || name == "pg_get_function_result"@ || name
        == "pg_get_function_arguments"@ || name == "obj_description"@ || name
        == "col_description"@ {
        Some(OutcomeModel::Value(ValueModel::Null))
    } else {
        None
    }
}

fn get_int(args: &Vec<Value>, i: usize, default: i64) -> (n: i64)
    ensures
        n == int_arg(args@, i as int, default),
{
    if i < args.len() {
        if let Value::Integer(n) = &args[i] {
            return *n;
        }
    }
    default
}

fn get_text(args: &Vec<Value>, i: usize) -> (s: String)
    ensures
        s@ == text_arg(args@, i as int),
{
    if i < args.len() {
        if let Value::Text(t) = &args[i] {
            return t.clone();
        }
    }
    String::new()
}

fn is_null(args: &Vec<Value>, i: usize) -> (r: bool)
    ensures
        r == null_arg(args@, i as int),
{
    if i < args.len() {
        match &args[i] {
            Value::Null => true,
            _ => false,
        }
    } else {
        true
    }
}

fn text_value(s: &str) -> (r: Result<ScalarOutcome, LimboError>)
    ensures
        r is Ok,
        r->Ok_0@ == OutcomeModel::Value(ValueModel::Text(s@)),
{
    Ok(ScalarOutcome::Value(Value::Text(s.to_owned())))
}

fn int_value(n: i64) -> (r: Result<ScalarOutcome, LimboError>)
    ensures
        r is Ok,
        r->Ok_0@ == OutcomeModel::Value(ValueModel::Integer(n)),
{
    Ok(ScalarOutcome::Value(Value::Integer(n)))
}

fn null_value() -> (r: Result<ScalarOutcome, LimboError>)
    ensures
        r is Ok,
        r->Ok_0@ == OutcomeModel::Value(ValueModel::Null),
{
    Ok(ScalarOutcome::Value(Value::Null))
}

fn definition_value(def: Option<String>) -> (r: Result<ScalarOutcome, LimboError>)
    ensures
        r is Ok,
        r->Ok_0@ == OutcomeModel::Value(
            match def {
                Some(def) => ValueModel::Text(def@),
                None => ValueModel::Null,
            },
        ),
{
    match def {
        Some(def) => Ok(ScalarOutcome::Value(Value::Text(def))),
        None => Ok(ScalarOutcome::Value(Value::Null)),
    }
}

/// The first argument as text.
fn first_as_text(args: &Vec<Value>, ctx: &ScalarContext) -> (s: String)
    requires
        args@.len() > 0,
    ensures
        s@ == (match args@[0] {
            Value::Text(t) => t@,
            _ => ctx.first_text@,
        }),
{
    match &args[0] {
        Value::Text(t) => t.clone(),
        _ => ctx.first_text.clone(),
    }
}

/// `to_char`: what is to be formatted, and how.
pub fn exec_to_char(args: &Vec<Value>) -> (r: ScalarOutcome)
    ensures
        r@ == to_char_outcome(args@),
{
    if is_null(args, 0) {
        return ScalarOutcome::Value(Value::Null);
    }
    let formats: bool = match &args[0] {
        Value::Integer(_) => true,
        Value::Real(_) => true,
        Value::Text(t) => classify_float(&chars_of(t.as_str())) != FloatText::Malformed,
        _ => false,
    };
    if formats {
        ScalarOutcome::FormatNumber(to_char_format(get_text(args, 1).as_str()))
    } else {
        ScalarOutcome::Value(Value::Null)
    }
}

/// `pg_input_is_valid`: whether the first argument is valid input for the type
/// that the second one names.
pub fn exec_pg_input_is_valid(args: &Vec<Value>, ctx: &ScalarContext) -> (v: Value)
    ensures
        v@ == input_is_valid(args@, *ctx),
{
    if is_null(args, 0) {
        return Value::Null;
    }
    let s = first_as_text(args, ctx);
    let error = validate_pg_input(s.as_str(), get_text(args, 1).as_str(), ctx.facts);
    if error.is_none() {
        Value::Integer(1)
    } else {
        Value::Integer(0)
    }
}

/// `quote_literal`.
pub fn exec_quote_literal(args: &Vec<Value>, ctx: &ScalarContext) -> (v: Value)
    ensures
        v@ == quote_literal_value(args@, *ctx),
{
    if is_null(args, 0) {
        return Value::Null;
    }
    Value::Text(quote_text(first_as_text(args, ctx).as_str()))
}

/// Executes a scalar function by its name.
pub fn exec_scalar(name: &str, args: &Vec<Value>, ctx: &ScalarContext) -> (r: Result<
    ScalarOutcome,
    LimboError,
>)
    requires
        ctx.well_formed(),
    ensures
        match r {
            Ok(outcome) => scalar_outcome(name@, args@, *ctx) == Some(outcome@),
            Err(e) => scalar_outcome(name@, args@, *ctx) is None && e.is_parse_error(
                "no such function: "@ + name@,
            ),
        },
{
    if same(name, "pg_get_userbyid") {
        text_value("turso")
    } else if same(name, "pg_table_is_visible") || same(name, "pg_function_is_visible") || same(
        name,
        "pg_type_is_visible",
    ) {
        int_value(1)
    } else if same(name, "pg_get_constraintdef") {
        definition_value(constraint_definition(&ctx.tables, &ctx.order, get_int(args, 0, 0)))
    } else if same(name, "pg_get_indexdef") {
        definition_value(index_definition(&ctx.tables, &ctx.order, get_int(args, 0, 0)))
    } else if same(name, "pg_encoding_to_char") {
        if get_int(args, 0, 0) == 0 {
            text_value("SQL_ASCII")
        } else {
            text_value("UTF8")
        }
    } else if same(name, "format_type") {
        let s = exec_pg_format_type(get_int(args, 0, 0), get_int(args, 1, -1));
        text_value(s.as_str())
    } else if same(name, "to_char") {
        Ok(exec_to_char(args))
    } else if same(name, "pg_input_is_valid") {
        Ok(ScalarOutcome::Value(exec_pg_input_is_valid(args, ctx)))
    } else if same(name, "booleq") {
        int_value(
            if ctx.args_equal {
                1
            } else {
                0
            },
        )
    } else if same(name, "boolne") {
        int_value(
            if ctx.args_equal {
                0
            } else {
                1
            },
        )
    } else if same(name, "version") {
        let s = join3("PostgreSQL 16.6 (Turso v", ctx.engine_version.as_str(), ")");
        text_value(s.as_str())
    } else if same(name, "current_database") {
        text_value(ctx.database.as_str())
    } else if same(name, "current_schema") {
        text_value("public")
    } else if same(name, "pg_backend_pid") {
        int_value(ctx.pid)
    } else if same(name, "quote_ident") {
        if is_null(args, 0) {
            null_value()
        } else {
            text_value(ctx.first_identifier.as_str())
        }
    } else if same(name, "quote_literal") {
        Ok(ScalarOutcome::Value(exec_quote_literal(args, ctx)))
    } else if same(name, "pg_get_expr") || same(name, "pg_get_statisticsobjdef_columns") || same(
        name,
        "pg_relation_is_publishable",
    ) || same(name, "pg_get_function_result") || same(name, "pg_get_function_arguments") || same(
        name,
        "obj_description",
    ) || same(name, "col_description") {
        null_value()
    } else {
        Err(LimboError::ParseError(join2("no such function: ", name)))
    }
}

/// Every function that is resolved by its name can be executed.
pub proof fn resolved_functions_execute(
    name: Seq<char>,
    args: Seq<Value>,
    ctx: ScalarContext,
)
    requires
        is_scalar(name, args.len()),
    ensures
        scalar_outcome(name, args, ctx) is Some,
{
}

} // verus!
