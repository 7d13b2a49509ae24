//! How types of columns relate to each other.

use vstd::prelude::*;
use crate::pg::functions;
use crate::pg::input::InputType;
use crate::pg::types;
use crate::pg::types::{ColumnTypeInfo, ColumnTypeKind, PgType};
use crate::text;

verus! {

/// Arrays are told apart by their elements, but for types that have no array of
/// their own: their arrays are arrays of texts.
pub proof fn arrays_are_told_apart_by_elements(a: PgType, b: PgType)
    requires
        types::array_type(a) == types::array_type(b),
    ensures
        a == b || types::array_type(a) == PgType::TextArray,
        types::array_type(PgType::Text) == PgType::TextArray,
        !a.array() ==> types::array_type(a) != PgType::OtherArray,
{
}

/// A column with dimensions is an array of what it would be without them. Structs
/// and unions go out as JSON.
pub proof fn dimensions_make_arrays(info: ColumnTypeInfo, flat: ColumnTypeInfo)
    requires
        flat.array_dimensions == 0,
        info.array_dimensions > 0,
        flat.kind == info.kind,
        flat.declared_name == info.declared_name,
        flat.base_type == info.base_type,
    ensures
        types::column_type(Some(info)).array(),
        types::column_type(Some(info)) == types::array_type(types::column_type(Some(flat))),
        info.kind == ColumnTypeKind::Struct || info.kind == ColumnTypeKind::Union
            ==> types::column_type(Some(flat)) == PgType::Jsonb && types::column_type(Some(info))
            == PgType::JsonbArray,
        types::column_type(None) == PgType::Text,
{
}

/// A column that is declared by a name that says nothing has the type behind it;
/// any other has the type that its name says.
pub proof fn names_come_before_base_types(info: ColumnTypeInfo)
    requires
        info.array_dimensions == 0,
        info.kind == ColumnTypeKind::Primitive || info.kind == ColumnTypeKind::Custom,
    ensures
        ({
            let declared = types::name_type(info.declared_name@);
            let t = types::column_type(Some(info));
            &&& declared != PgType::Text ==> t == declared
            &&& declared == PgType::Text && info.base_type is Some ==> t == types::name_type(
                info.base_type->Some_0@,
            )
            &&& declared == PgType::Text && info.base_type is None ==> t == PgType::Text
        }),
{
}

/// What type a column has that is declared by the label of a type of inputs.
pub open spec fn labelled(t: InputType) -> PgType {
    match t {
        InputType::Boolean => PgType::Bool,
        InputType::SmallInt => PgType::Int4,
        InputType::Integer => PgType::Int4,
        InputType::BigInt => PgType::Int8,
        InputType::Real => PgType::Float8,
        InputType::DoublePrecision => PgType::Float8,
        InputType::Numeric => PgType::Float8,
        InputType::Uuid => PgType::Uuid,
        InputType::Date => PgType::Date,
        InputType::Timestamp => PgType::Timestamp,
        InputType::Time => PgType::Time,
        InputType::Json => PgType::Json,
        InputType::Jsonb => PgType::Jsonb,
        InputType::Bytea => PgType::Bytea,
        InputType::Inet => PgType::Inet,
        InputType::Cidr => PgType::Cidr,
        InputType::Macaddr => PgType::Macaddr,
        _ => PgType::Text,
    }
}

proof fn upper_of(lower: Seq<char>, upper: Seq<char>)
    requires
        lower.len() == upper.len(),
        forall|i: int|
            0 <= i < lower.len() ==> text::ascii_upper_char(#[trigger] lower[i]) == upper[i],
    ensures
        text::ascii_upper(lower) == upper,
{
    assert(text::ascii_upper(lower) =~= upper);
}

/// The label of a type of inputs in upper case.
pub open spec fn upper_label(t: InputType) -> Seq<char> {
    match t {
        InputType::Boolean => "BOOLEAN"@,
        InputType::SmallInt => "SMALLINT"@,
        InputType::Integer => "INTEGER"@,
        InputType::BigInt => "BIGINT"@,
        InputType::Real => "REAL"@,
        InputType::DoublePrecision => "DOUBLE PRECISION"@,
        InputType::Numeric => "NUMERIC"@,
        InputType::Text => "TEXT"@,
        InputType::Varchar => "CHARACTER VARYING"@,
        InputType::Char => "CHARACTER"@,
        InputType::Uuid => "UUID"@,
        InputType::Date => "DATE"@,
        InputType::Timestamp => "TIMESTAMP"@,
        InputType::TimestampTz => "TIMESTAMP WITH TIME ZONE"@,
        InputType::Time => "TIME"@,
        InputType::Json => "JSON"@,
        InputType::Jsonb => "JSONB"@,
        InputType::Bytea => "BYTEA"@,
        InputType::Inet => "INET"@,
        InputType::Cidr => "CIDR"@,
        InputType::Macaddr => "MACADDR"@,
        InputType::Oid => "OID"@,
    }
}

proof fn labels_in_upper_case(t: InputType)
    ensures
        text::ascii_upper(t.label()) == upper_label(t),
{
    match t {
        InputType::Boolean => {
            reveal_strlit("boolean");
            reveal_strlit("BOOLEAN");
            upper_of("boolean"@, "BOOLEAN"@);
        },
        InputType::SmallInt => {
            reveal_strlit("smallint");
            reveal_strlit("SMALLINT");
            upper_of("smallint"@, "SMALLINT"@);
        },
        InputType::Integer => {
            reveal_strlit("integer");
            reveal_strlit("INTEGER");
            upper_of("integer"@, "INTEGER"@);
        },
        InputType::BigInt => {
            reveal_strlit("bigint");
            reveal_strlit("BIGINT");
            upper_of("bigint"@, "BIGINT"@);
        },
        InputType::Real => {
            reveal_strlit("real");
            reveal_strlit("REAL");
            upper_of("real"@, "REAL"@);
        },
        InputType::DoublePrecision => {
            reveal_strlit("double precision");
            reveal_strlit("DOUBLE PRECISION");
            upper_of("double precision"@, "DOUBLE PRECISION"@);
        },
        InputType::Numeric => {
            reveal_strlit("numeric");
            reveal_strlit("NUMERIC");
            upper_of("numeric"@, "NUMERIC"@);
        },
        InputType::Text => {
            reveal_strlit("text");
            reveal_strlit("TEXT");
            upper_of("text"@, "TEXT"@);
        },
        InputType::Varchar => {
            reveal_strlit("character varying");
            reveal_strlit("CHARACTER VARYING");
            upper_of("character varying"@, "CHARACTER VARYING"@);
        },
        InputType::Char => {
            reveal_strlit("character");
            reveal_strlit("CHARACTER");
            upper_of("character"@, "CHARACTER"@);
        },
        InputType::Uuid => {
            reveal_strlit("uuid");
            reveal_strlit("UUID");
            upper_of("uuid"@, "UUID"@);
        },
        InputType::Date => {
            reveal_strlit("date");
            reveal_strlit("DATE");
            upper_of("date"@, "DATE"@);
        },
        InputType::Timestamp => {
            reveal_strlit("timestamp");
            reveal_strlit("TIMESTAMP");
            upper_of("timestamp"@, "TIMESTAMP"@);
        },
        InputType::TimestampTz => {
            reveal_strlit("timestamp with time zone");
            reveal_strlit("TIMESTAMP WITH TIME ZONE");
            upper_of("timestamp with time zone"@, "TIMESTAMP WITH TIME ZONE"@);
        },
        InputType::Time => {
            reveal_strlit("time");
            reveal_strlit("TIME");
            upper_of("time"@, "TIME"@);
        },
        InputType::Json => {
            reveal_strlit("json");
            reveal_strlit("JSON");
            upper_of("json"@, "JSON"@);
        },
        InputType::Jsonb => {
            reveal_strlit("jsonb");
            reveal_strlit("JSONB");
            upper_of("jsonb"@, "JSONB"@);
        },
        InputType::Bytea => {
            reveal_strlit("bytea");
            reveal_strlit("BYTEA");
            upper_of("bytea"@, "BYTEA"@);
        },
        InputType::Inet => {
            reveal_strlit("inet");
            reveal_strlit("INET");
            upper_of("inet"@, "INET"@);
        },
        InputType::Cidr => {
            reveal_strlit("cidr");
            reveal_strlit("CIDR");
            upper_of("cidr"@, "CIDR"@);
        },
        InputType::Macaddr => {
            reveal_strlit("macaddr");
            reveal_strlit("MACADDR");
            upper_of("macaddr"@, "MACADDR"@);
        },
        InputType::Oid => {
            reveal_strlit("oid");
            reveal_strlit("OID");
            upper_of("oid"@, "OID"@);
        },
    }
}

proof fn names_differ()
    ensures
        "INTEGER"@.len() == 7,
        "INTEGER"@[0] == 'I',
        "INTEGER"@[1] == 'N',
        "INTEGER"@[2] == 'T',
        "INTEGER"@[3] == 'E',
        "INT"@.len() == 3,
        "INT"@[0] == 'I',
        "INT"@[1] == 'N',
        "INT"@[2] == 'T',
        "INT4"@.len() == 4,
        "INT4"@[0] == 'I',
        "INT4"@[1] == 'N',
        "INT4"@[2] == 'T',
        "INT4"@[3] == '4',
        "SMALLINT"@.len() == 8,
        "SMALLINT"@[0] == 'S',
        "SMALLINT"@[1] == 'M',
        "SMALLINT"@[2] == 'A',
        "SMALLINT"@[3] == 'L',
        "INT2"@.len() == 4,
        "INT2"@[0] == 'I',
        "INT2"@[1] == 'N',
        "INT2"@[2] == 'T',
        "INT2"@[3] == '2',
        "SERIAL"@.len() == 6,
        "SERIAL"@[0] == 'S',
        "SERIAL"@[1] == 'E',
        "SERIAL"@[2] == 'R',
        "SERIAL"@[3] == 'I',
        "SMALLSERIAL"@.len() == 11,
        "SMALLSERIAL"@[0] == 'S',
        "SMALLSERIAL"@[1] == 'M',
        "SMALLSERIAL"@[2] == 'A',
        "SMALLSERIAL"@[3] == 'L',
        "BIGINT"@.len() == 6,
        "BIGINT"@[0] == 'B',
        "BIGINT"@[1] == 'I',
        "BIGINT"@[2] == 'G',
        "BIGINT"@[3] == 'I',
        "INT8"@.len() == 4,
        "INT8"@[0] == 'I',
        "INT8"@[1] == 'N',
        "INT8"@[2] == 'T',
        "INT8"@[3] == '8',
        "BIGSERIAL"@.len() == 9,
        "BIGSERIAL"@[0] == 'B',
        "BIGSERIAL"@[1] == 'I',
        "BIGSERIAL"@[2] == 'G',
        "BIGSERIAL"@[3] == 'S',
        "REAL"@.len() == 4,
        "REAL"@[0] == 'R',
        "REAL"@[1] == 'E',
        "REAL"@[2] == 'A',
        "REAL"@[3] == 'L',
        "FLOAT"@.len() == 5,
        "FLOAT"@[0] == 'F',
        "FLOAT"@[1] == 'L',
        "FLOAT"@[2] == 'O',
        "FLOAT"@[3] == 'A',
        "FLOAT4"@.len() == 6,
        "FLOAT4"@[0] == 'F',
        "FLOAT4"@[1] == 'L',
        "FLOAT4"@[2] == 'O',
        "FLOAT4"@[3] == 'A',
        "FLOAT8"@.len() == 6,
        "FLOAT8"@[0] == 'F',
        "FLOAT8"@[1] == 'L',
        "FLOAT8"@[2] == 'O',
        "FLOAT8"@[3] == 'A',
        "DOUBLE"@.len() == 6,
        "DOUBLE"@[0] == 'D',
        "DOUBLE"@[1] == 'O',
        "DOUBLE"@[2] == 'U',
        "DOUBLE"@[3] == 'B',
        "DOUBLE PRECISION"@.len() == 16,
        "DOUBLE PRECISION"@[0] == 'D',
        "DOUBLE PRECISION"@[1] == 'O',
        "DOUBLE PRECISION"@[2] == 'U',
        "DOUBLE PRECISION"@[3] == 'B',
        "NUMERIC"@.len() == 7,
        "NUMERIC"@[0] == 'N',
        "NUMERIC"@[1] == 'U',
        "NUMERIC"@[2] == 'M',
        "NUMERIC"@[3] == 'E',
        "DECIMAL"@.len() == 7,
        "DECIMAL"@[0] == 'D',
        "DECIMAL"@[1] == 'E',
        "DECIMAL"@[2] == 'C',
        "DECIMAL"@[3] == 'I',
        "TEXT"@.len() == 4,
        "TEXT"@[0] == 'T',
        "TEXT"@[1] == 'E',
        "TEXT"@[2] == 'X',
        "TEXT"@[3] == 'T',
        "VARCHAR"@.len() == 7,
        "VARCHAR"@[0] == 'V',
        "VARCHAR"@[1] == 'A',
        "VARCHAR"@[2] == 'R',
        "VARCHAR"@[3] == 'C',
        "CHAR"@.len() == 4,
        "CHAR"@[0] == 'C',
        "CHAR"@[1] == 'H',
        "CHAR"@[2] == 'A',
        "CHAR"@[3] == 'R',
        "CHARACTER VARYING"@.len() == 17,
        "CHARACTER VARYING"@[0] == 'C',
        "CHARACTER VARYING"@[1] == 'H',
        "CHARACTER VARYING"@[2] == 'A',
        "CHARACTER VARYING"@[3] == 'R',
        "CHARACTER"@.len() == 9,
        "CHARACTER"@[0] == 'C',
        "CHARACTER"@[1] == 'H',
        "CHARACTER"@[2] == 'A',
        "CHARACTER"@[3] == 'R',
        "NAME"@.len() == 4,
        "NAME"@[0] == 'N',
        "NAME"@[1] == 'A',
        "NAME"@[2] == 'M',
        "NAME"@[3] == 'E',
        "BLOB"@.len() == 4,
        "BLOB"@[0] == 'B',
        "BLOB"@[1] == 'L',
        "BLOB"@[2] == 'O',
        "BLOB"@[3] == 'B',
        "BYTEA"@.len() == 5,
        "BYTEA"@[0] == 'B',
        "BYTEA"@[1] == 'Y',
        "BYTEA"@[2] == 'T',
        "BYTEA"@[3] == 'E',
        "BOOLEAN"@.len() == 7,
        "BOOLEAN"@[0] == 'B',
        "BOOLEAN"@[1] == 'O',
        "BOOLEAN"@[2] == 'O',
        "BOOLEAN"@[3] == 'L',
        "BOOL"@.len() == 4,
        "BOOL"@[0] == 'B',
        "BOOL"@[1] == 'O',
        "BOOL"@[2] == 'O',
        "BOOL"@[3] == 'L',
        "UUID"@.len() == 4,
        "UUID"@[0] == 'U',
        "UUID"@[1] == 'U',
        "UUID"@[2] == 'I',
        "UUID"@[3] == 'D',
        "JSON"@.len() == 4,
        "JSON"@[0] == 'J',
        "JSON"@[1] == 'S',
        "JSON"@[2] == 'O',
        "JSON"@[3] == 'N',
        "JSONB"@.len() == 5,
        "JSONB"@[0] == 'J',
        "JSONB"@[1] == 'S',
        "JSONB"@[2] == 'O',
        "JSONB"@[3] == 'N',
        "DATE"@.len() == 4,
        "DATE"@[0] == 'D',
        "DATE"@[1] == 'A',
        "DATE"@[2] == 'T',
        "DATE"@[3] == 'E',
        "TIME"@.len() == 4,
        "TIME"@[0] == 'T',
        "TIME"@[1] == 'I',
        "TIME"@[2] == 'M',
        "TIME"@[3] == 'E',
        "TIMETZ"@.len() == 6,
        "TIMETZ"@[0] == 'T',
        "TIMETZ"@[1] == 'I',
        "TIMETZ"@[2] == 'M',
        "TIMETZ"@[3] == 'E',
        "TIMESTAMP"@.len() == 9,
        "TIMESTAMP"@[0] == 'T',
        "TIMESTAMP"@[1] == 'I',
        "TIMESTAMP"@[2] == 'M',
        "TIMESTAMP"@[3] == 'E',
        "TIMESTAMPTZ"@.len() == 11,
        "TIMESTAMPTZ"@[0] == 'T',
        "TIMESTAMPTZ"@[1] == 'I',
        "TIMESTAMPTZ"@[2] == 'M',
        "TIMESTAMPTZ"@[3] == 'E',
        "INET"@.len() == 4,
        "INET"@[0] == 'I',
        "INET"@[1] == 'N',
        "INET"@[2] == 'E',
        "INET"@[3] == 'T',
        "CIDR"@.len() == 4,
        "CIDR"@[0] == 'C',
        "CIDR"@[1] == 'I',
        "CIDR"@[2] == 'D',
        "CIDR"@[3] == 'R',
        "MACADDR"@.len() == 7,
        "MACADDR"@[0] == 'M',
        "MACADDR"@[1] == 'A',
        "MACADDR"@[2] == 'C',
        "MACADDR"@[3] == 'A',
        "MACADDR8"@.len() == 8,
        "MACADDR8"@[0] == 'M',
        "MACADDR8"@[1] == 'A',
        "MACADDR8"@[2] == 'C',
        "MACADDR8"@[3] == 'A',
        "OID"@.len() == 3,
        "OID"@[0] == 'O',
        "OID"@[1] == 'I',
        "OID"@[2] == 'D',
        "TIMESTAMP WITH TIME ZONE"@.len() == 24,
        "TIMESTAMP WITH TIME ZONE"@[0] == 'T',
        "TIMESTAMP WITH TIME ZONE"@[1] == 'I',
        "TIMESTAMP WITH TIME ZONE"@[2] == 'M',
        "TIMESTAMP WITH TIME ZONE"@[3] == 'E',
{
    reveal_strlit("INTEGER");
    reveal_strlit("INT");
    reveal_strlit("INT4");
    reveal_strlit("SMALLINT");
    reveal_strlit("INT2");
    reveal_strlit("SERIAL");
    reveal_strlit("SMALLSERIAL");
    reveal_strlit("BIGINT");
    reveal_strlit("INT8");
    reveal_strlit("BIGSERIAL");
    reveal_strlit("REAL");
    reveal_strlit("FLOAT");
    reveal_strlit("FLOAT4");
    reveal_strlit("FLOAT8");
    reveal_strlit("DOUBLE");
    reveal_strlit("DOUBLE PRECISION");
    reveal_strlit("NUMERIC");
    reveal_strlit("DECIMAL");
    reveal_strlit("TEXT");
    reveal_strlit("VARCHAR");
    reveal_strlit("CHAR");
    reveal_strlit("CHARACTER VARYING");
    reveal_strlit("CHARACTER");
    reveal_strlit("NAME");
    reveal_strlit("BLOB");
    reveal_strlit("BYTEA");
    reveal_strlit("BOOLEAN");
    reveal_strlit("BOOL");
    reveal_strlit("UUID");
    reveal_strlit("JSON");
    reveal_strlit("JSONB");
    reveal_strlit("DATE");
    reveal_strlit("TIME");
    reveal_strlit("TIMETZ");
    reveal_strlit("TIMESTAMP");
    reveal_strlit("TIMESTAMPTZ");
    reveal_strlit("INET");
    reveal_strlit("CIDR");
    reveal_strlit("MACADDR");
    reveal_strlit("MACADDR8");
    reveal_strlit("OID");
    reveal_strlit("TIMESTAMP WITH TIME ZONE");
}

/// A column that is declared by the label of a type of inputs, in upper or lower
/// case, has the type that the label stands for.
#[verifier::rlimit(80)]
pub proof fn labels_stand_for_their_types(t: InputType)
    ensures
        types::upper_name_type(text::ascii_upper(t.label())) == labelled(t),
{
    labels_in_upper_case(t);
    names_differ();
    let u = upper_label(t);
    assert(text::starts(u, "VARCHAR"@) ==> u[0] == 'V');
    assert(text::starts(u, "CHAR"@) ==> u[0] == 'C' && u[1] == 'H');
    assert(text::starts(u, "NUMERIC"@) ==> u[0] == 'N');
    assert(text::starts(u, "DECIMAL"@) ==> u[0] == 'D' && u[1] == 'E');
}

/// A character type with a length and a number with a precision are told by how
/// their names start.
pub proof fn lengths_and_precisions_are_passed_over(rest: Seq<char>)
    requires
        rest.len() > 0,
        rest[0] == '(',
    ensures
        types::upper_name_type("VARCHAR"@ + rest) == PgType::Varchar,
        types::upper_name_type("CHAR"@ + rest) == PgType::Varchar,
        types::upper_name_type("NUMERIC"@ + rest) == PgType::Numeric,
        types::upper_name_type("DECIMAL"@ + rest) == PgType::Numeric,
{
    names_differ();
    let a = "VARCHAR"@ + rest;
    let b = "CHAR"@ + rest;
    let c = "NUMERIC"@ + rest;
    let d = "DECIMAL"@ + rest;
    assert("VARCHAR"@.is_prefix_of(a));
    assert("CHAR"@.is_prefix_of(b));
    assert("NUMERIC"@.is_prefix_of(c));
    assert("DECIMAL"@.is_prefix_of(d));
    bracketed(a, 7);
    bracketed(b, 4);
    bracketed(c, 7);
    bracketed(d, 7);
    assert(a[0] == 'V' && c[0] == 'N' && d[0] == 'D');
    assert(a[7] == '(' && b[4] == '(' && c[7] == '(' && d[7] == '(');
    assert(text::starts(c, "VARCHAR"@) ==> c[0] == 'V');
    assert(text::starts(c, "CHAR"@) ==> c[0] == 'C');
    assert(text::starts(d, "VARCHAR"@) ==> d[0] == 'V');
    assert(text::starts(d, "CHAR"@) ==> d[0] == 'C');
}

/// No name of a type holds a bracket.
proof fn bracketed(s: Seq<char>, at: int)
    requires
        4 <= at < s.len(),
        s[at] == '(',
    ensures
        s != "INTEGER"@,
        s != "INT"@,
        s != "INT4"@,
        s != "SMALLINT"@,
        s != "INT2"@,
        s != "SERIAL"@,
        s != "SMALLSERIAL"@,
        s != "BIGINT"@,
        s != "INT8"@,
        s != "BIGSERIAL"@,
        s != "REAL"@,
        s != "FLOAT"@,
        s != "FLOAT4"@,
        s != "FLOAT8"@,
        s != "DOUBLE"@,
        s != "DOUBLE PRECISION"@,
        s != "NUMERIC"@,
        s != "DECIMAL"@,
        s != "TEXT"@,
        s != "VARCHAR"@,
        s != "CHAR"@,
        s != "CHARACTER VARYING"@,
        s != "CHARACTER"@,
        s != "NAME"@,
        s != "BLOB"@,
        s != "BYTEA"@,
        s != "BOOLEAN"@,
        s != "BOOL"@,
        s != "UUID"@,
        s != "JSON"@,
        s != "JSONB"@,
        s != "DATE"@,
        s != "TIME"@,
        s != "TIMETZ"@,
        s != "TIMESTAMP"@,
        s != "TIMESTAMPTZ"@,
        s != "INET"@,
        s != "CIDR"@,
        s != "MACADDR"@,
        s != "MACADDR8"@,
{
    reveal_strlit("INTEGER");
    reveal_strlit("INT");
    reveal_strlit("INT4");
    reveal_strlit("SMALLINT");
    reveal_strlit("INT2");
    reveal_strlit("SERIAL");
    reveal_strlit("SMALLSERIAL");
    reveal_strlit("BIGINT");
    reveal_strlit("INT8");
    reveal_strlit("BIGSERIAL");
    reveal_strlit("REAL");
    reveal_strlit("FLOAT");
    reveal_strlit("FLOAT4");
    reveal_strlit("FLOAT8");
    reveal_strlit("DOUBLE");
    reveal_strlit("DOUBLE PRECISION");
    reveal_strlit("NUMERIC");
    reveal_strlit("DECIMAL");
    reveal_strlit("TEXT");
    reveal_strlit("VARCHAR");
    reveal_strlit("CHAR");
    reveal_strlit("CHARACTER VARYING");
    reveal_strlit("CHARACTER");
    reveal_strlit("NAME");
    reveal_strlit("BLOB");
    reveal_strlit("BYTEA");
    reveal_strlit("BOOLEAN");
    reveal_strlit("BOOL");
    reveal_strlit("UUID");
    reveal_strlit("JSON");
    reveal_strlit("JSONB");
    reveal_strlit("DATE");
    reveal_strlit("TIME");
    reveal_strlit("TIMETZ");
    reveal_strlit("TIMESTAMP");
    reveal_strlit("TIMESTAMPTZ");
    reveal_strlit("INET");
    reveal_strlit("CIDR");
    reveal_strlit("MACADDR");
    reveal_strlit("MACADDR8");
    if s == "INTEGER"@ {
        assert(false);
    }
    if s == "INT"@ {
        assert(false);
    }
    if s == "INT4"@ {
        assert(false);
    }
    if s == "SMALLINT"@ {
        assert(false);
    }
    if s == "INT2"@ {
        assert(false);
    }
    if s == "SERIAL"@ {
        assert(false);
    }
    if s == "SMALLSERIAL"@ {
        assert(false);
    }
    if s == "BIGINT"@ {
        assert(false);
    }
    if s == "INT8"@ {
        assert(false);
    }
    if s == "BIGSERIAL"@ {
        assert(false);
    }
    if s == "REAL"@ {
        assert(false);
    }
    if s == "FLOAT"@ {
        assert(false);
    }
    if s == "FLOAT4"@ {
        assert(false);
    }
    if s == "FLOAT8"@ {
        assert(false);
    }
    if s == "DOUBLE"@ {
        assert(false);
    }
    if s == "DOUBLE PRECISION"@ {
        assert(false);
    }
    if s == "NUMERIC"@ {
        assert(false);
    }
    if s == "DECIMAL"@ {
        assert(false);
    }
    if s == "TEXT"@ {
        assert(false);
    }
    if s == "VARCHAR"@ {
        assert(false);
    }
    if s == "CHAR"@ {
        assert(false);
    }
    if s == "CHARACTER VARYING"@ {
        assert(false);
    }
    if s == "CHARACTER"@ {
        assert(false);
    }
    if s == "NAME"@ {
        assert(false);
    }
    if s == "BLOB"@ {
        assert(false);
    }
    if s == "BYTEA"@ {
        assert(false);
    }
    if s == "BOOLEAN"@ {
        assert(false);
    }
    if s == "BOOL"@ {
        assert(false);
    }
    if s == "UUID"@ {
        assert(false);
    }
    if s == "JSON"@ {
        assert(false);
    }
    if s == "JSONB"@ {
        assert(false);
    }
    if s == "DATE"@ {
        assert(false);
    }
    if s == "TIME"@ {
        assert(false);
    }
    if s == "TIMETZ"@ {
        assert(false);
    }
    if s == "TIMESTAMP"@ {
        assert(false);
    }
    if s == "TIMESTAMPTZ"@ {
        assert(false);
    }
    if s == "INET"@ {
        assert(false);
    }
    if s == "CIDR"@ {
        assert(false);
    }
    if s == "MACADDR"@ {
        assert(false);
    }
    if s == "MACADDR8"@ {
        assert(false);
    }
}

/// The numbers of array types have the names of their elements with brackets.
pub proof fn names_of_arrays_are_those_of_elements()
    ensures
        functions::plain_type_name(1000) == functions::plain_type_name(16) + seq!['[', ']'],
        functions::plain_type_name(1007) == functions::plain_type_name(23) + seq!['[', ']'],
        functions::plain_type_name(1009) == functions::plain_type_name(25) + seq!['[', ']'],
        functions::plain_type_name(1022) == functions::plain_type_name(701) + seq!['[', ']'],
{
    reveal_strlit("boolean");
    reveal_strlit("boolean[]");
    reveal_strlit("integer");
    reveal_strlit("integer[]");
    reveal_strlit("text");
    reveal_strlit("text[]");
    reveal_strlit("double precision");
    reveal_strlit("double precision[]");
    assert("boolean[]"@ =~= "boolean"@ + seq!['[', ']']);
    assert("integer[]"@ =~= "integer"@ + seq!['[', ']']);
    assert("text[]"@ =~= "text"@ + seq!['[', ']']);
    assert("double precision[]"@ =~= "double precision"@ + seq!['[', ']']);
}

} // verus!
