//! The types of the PostgreSQL wire protocol, and which of them a column has.

use vstd::prelude::*;
use crate::text;
use crate::text::{same, starts_with, to_uppercase};

verus! {

/// A type of the wire protocol. The types that nothing here tells apart are
/// `Other`, or `OtherArray` where their values are arrays: types whose names
/// start with an underscore.
#[derive(Clone, Copy, Debug, PartialEq, Eq, Structural)]
pub enum PgType {
    Int2,
    Int4,
    Int8,
    Float4,
    Float8,
    Numeric,
    Bool,
    Bytea,
    Text,
    Varchar,
    Uuid,
    Json,
    Jsonb,
    Date,
    Time,
    Timestamp,
    Timestamptz,
    Inet,
    Cidr,
    Macaddr,
    Macaddr8,
    Unknown,
    Other,
    Int4Array,
    Int8Array,
    Float8Array,
    BoolArray,
    TextArray,
    UuidArray,
    JsonArray,
    JsonbArray,
    DateArray,
    TimeArray,
    TimestampArray,
    TimestamptzArray,
    InetArray,
    CidrArray,
    MacaddrArray,
    Macaddr8Array,
    NumericArray,
    ByteaArray,
    Float4Array,
    OtherArray,
}

impl PgType {
    /// Whether the values of the type are arrays.
    pub open spec fn array(self) -> bool {
        match self {
            PgType::Int4Array
            | PgType::Int8Array
            | PgType::Float8Array
            | PgType::BoolArray
            | PgType::TextArray
            | PgType::UuidArray
            | PgType::JsonArray
            | PgType::JsonbArray
            | PgType::DateArray
            | PgType::TimeArray
            | PgType::TimestampArray
            | PgType::TimestamptzArray
            | PgType::InetArray
            | PgType::CidrArray
            | PgType::MacaddrArray
            | PgType::Macaddr8Array
            | PgType::NumericArray
            | PgType::ByteaArray
            | PgType::Float4Array
            | PgType::OtherArray => true,
            _ => false,
        }
    }

    pub fn is_array(&self) -> (r: bool)
        ensures
            r == self.array(),
    {
        match self {
            PgType::Int4Array
            | PgType::Int8Array
            | PgType::Float8Array
            | PgType::BoolArray
            | PgType::TextArray
            | PgType::UuidArray
            | PgType::JsonArray
            | PgType::JsonbArray
            | PgType::DateArray
            | PgType::TimeArray
            | PgType::TimestampArray
            | PgType::TimestamptzArray
            | PgType::InetArray
            | PgType::CidrArray
            | PgType::MacaddrArray
            | PgType::Macaddr8Array
            | PgType::NumericArray
            | PgType::ByteaArray
            | PgType::Float4Array
            | PgType::OtherArray => true,
            _ => false,
        }
    }
}

/// The array type whose elements have a type; text where there is none.
pub open spec fn array_type(scalar: PgType) -> PgType {
    match scalar {
        PgType::Int4 => PgType::Int4Array,
        PgType::Int8 => PgType::Int8Array,
        PgType::Float8 => PgType::Float8Array,
        PgType::Bool => PgType::BoolArray,
        PgType::Text | PgType::Varchar => PgType::TextArray,
        PgType::Uuid => PgType::UuidArray,
        PgType::Json => PgType::JsonArray,
        PgType::Jsonb => PgType::JsonbArray,
        PgType::Date => PgType::DateArray,
        PgType::Time => PgType::TimeArray,
        PgType::Timestamp => PgType::TimestampArray,
        PgType::Timestamptz => PgType::TimestamptzArray,
        PgType::Inet => PgType::InetArray,
        PgType::Cidr => PgType::CidrArray,
        PgType::Macaddr => PgType::MacaddrArray,
        PgType::Macaddr8 => PgType::Macaddr8Array,
        PgType::Numeric => PgType::NumericArray,
        PgType::Bytea => PgType::ByteaArray,
        PgType::Float4 => PgType::Float4Array,
        _ => PgType::TextArray,
    }
}

/// The array type of a scalar type.
pub fn scalar_pg_type_to_array_type(scalar: &PgType) -> (r: PgType)
    ensures
        r == array_type(*scalar),
{
    match scalar {
        PgType::Int4 => PgType::Int4Array,
        PgType::Int8 => PgType::Int8Array,
        PgType::Float8 => PgType::Float8Array,
        PgType::Bool => PgType::BoolArray,
        PgType::Text | PgType::Varchar => PgType::TextArray,
        PgType::Uuid => PgType::UuidArray,
        PgType::Json => PgType::JsonArray,
        PgType::Jsonb => PgType::JsonbArray,
        PgType::Date => PgType::DateArray,
        PgType::Time => PgType::TimeArray,
        PgType::Timestamp => PgType::TimestampArray,
        PgType::Timestamptz => PgType::TimestamptzArray,
        PgType::Inet => PgType::InetArray,
        PgType::Cidr => PgType::CidrArray,
        PgType::Macaddr => PgType::MacaddrArray,
        PgType::Macaddr8 => PgType::Macaddr8Array,
        PgType::Numeric => PgType::NumericArray,
        PgType::Bytea => PgType::ByteaArray,
        PgType::Float4 => PgType::Float4Array,
        _ => PgType::TextArray,
    }
}

/// Laying out a type as an array always gives an array type.
pub proof fn array_types_are_arrays(scalar: PgType)
    ensures
        array_type(scalar).array(),
{
}

/// The wire type of a column type whose name is given in upper case.
pub open spec fn upper_name_type(upper: Seq<char>) -> PgType {
    if upper == "INTEGER"@
        || upper == "INT"@
        || upper == "INT4"@
        || upper == "SMALLINT"@
        || upper == "INT2"@
        || upper == "SERIAL"@
        || upper == "SMALLSERIAL"@ {
        PgType::Int4
    } else if upper == "BIGINT"@
        || upper == "INT8"@
        || upper == "BIGSERIAL"@ {
        PgType::Int8
    } else if upper == "REAL"@
        || upper == "FLOAT"@
        || upper == "FLOAT4"@
        || upper == "FLOAT8"@
        || upper == "DOUBLE"@
        || upper == "DOUBLE PRECISION"@
        || upper == "NUMERIC"@
        || upper == "DECIMAL"@ {
        PgType::Float8
    } else if upper == "TEXT"@
        || upper == "VARCHAR"@
        || upper == "CHAR"@
        || upper == "CHARACTER VARYING"@
        || upper == "CHARACTER"@
        || upper == "NAME"@ {
        PgType::Text
    } else if upper == "BLOB"@
        || upper == "BYTEA"@ {
        PgType::Bytea
    } else if upper == "BOOLEAN"@
        || upper == "BOOL"@ {
        PgType::Bool
    } else if upper == "UUID"@ {
        PgType::Uuid
    } else if upper == "JSON"@ {
        PgType::Json
    } else if upper == "JSONB"@ {
        PgType::Jsonb
    } else if upper == "DATE"@ {
        PgType::Date
    } else if upper == "TIME"@
        || upper == "TIMETZ"@ {
        PgType::Time
    } else if upper == "TIMESTAMP"@ {
        PgType::Timestamp
    } else if upper == "TIMESTAMPTZ"@ {
        PgType::Timestamptz
    } else if upper == "INET"@ {
        PgType::Inet
    } else if upper == "CIDR"@ {
        PgType::Cidr
    } else if upper == "MACADDR"@ {
        PgType::Macaddr
    } else if upper == "MACADDR8"@ {
        PgType::Macaddr8
    } else if text::starts(upper, "VARCHAR"@) || text::starts(upper, "CHAR"@) {
        PgType::Varchar
    } else if text::starts(upper, "NUMERIC"@) || text::starts(upper, "DECIMAL"@) {
        PgType::Numeric
    } else {
        PgType::Text
    }
}

/// The wire type of a column type whose name is given in upper case.
pub fn upper_name_to_pg_type(upper: &str) -> (r: PgType)
    ensures
        r == upper_name_type(upper@),
{
    if same(upper, "INTEGER")
        || same(upper, "INT")
        || same(upper, "INT4")
        || same(upper, "SMALLINT")
        || same(upper, "INT2")
        || same(upper, "SERIAL")
        || same(upper, "SMALLSERIAL") {
        PgType::Int4
    } else if same(upper, "BIGINT")
        || same(upper, "INT8")
        || same(upper, "BIGSERIAL") {
        PgType::Int8
    } else if same(upper, "REAL")
        || same(upper, "FLOAT")
        || same(upper, "FLOAT4")
        || same(upper, "FLOAT8")
        || same(upper, "DOUBLE")
        || same(upper, "DOUBLE PRECISION")
        || same(upper, "NUMERIC")
        || same(upper, "DECIMAL") {
        PgType::Float8
    } else if same(upper, "TEXT")
        || same(upper, "VARCHAR")
        || same(upper, "CHAR")
        || same(upper, "CHARACTER VARYING")
        || same(upper, "CHARACTER")
        || same(upper, "NAME") {
        PgType::Text
    } else if same(upper, "BLOB")
        || same(upper, "BYTEA") {
        PgType::Bytea
    } else if same(upper, "BOOLEAN")
        || same(upper, "BOOL") {
        PgType::Bool
    } else if same(upper, "UUID") {
        PgType::Uuid
    } else if same(upper, "JSON") {
        PgType::Json
    } else if same(upper, "JSONB") {
        PgType::Jsonb
    } else if same(upper, "DATE") {
        PgType::Date
    } else if same(upper, "TIME")
        || same(upper, "TIMETZ") {
        PgType::Time
    } else if same(upper, "TIMESTAMP") {
        PgType::Timestamp
    } else if same(upper, "TIMESTAMPTZ") {
        PgType::Timestamptz
    } else if same(upper, "INET") {
        PgType::Inet
    } else if same(upper, "CIDR") {
        PgType::Cidr
    } else if same(upper, "MACADDR") {
        PgType::Macaddr
    } else if same(upper, "MACADDR8") {
        PgType::Macaddr8
    } else if starts_with(upper, "VARCHAR") || starts_with(upper, "CHAR") {
        PgType::Varchar
    } else if starts_with(upper, "NUMERIC") || starts_with(upper, "DECIMAL") {
        PgType::Numeric
    } else {
        PgType::Text
    }
}

/// The wire type of a column type, by its name in any case.
pub open spec fn name_type(name: Seq<char>) -> PgType {
    upper_name_type(text::uppercase(name))
}

/// The wire type of a column type, by its name in any case.
pub fn sqlite_type_to_pg_type(type_str: &str) -> (r: PgType)
    ensures
        r == name_type(type_str@),
        text::is_ascii_text(type_str@) ==> r == upper_name_type(text::ascii_upper(type_str@)),
{
    upper_name_to_pg_type(to_uppercase(type_str).as_str())
}

/// What kind of type a column was declared with.
#[derive(Clone, Copy, Debug, PartialEq, Eq, Structural)]
pub enum ColumnTypeKind {
    Primitive,
    Custom,
    Struct,
    Union,
}

/// What is known of the type of a result column.
pub struct ColumnTypeInfo {
    pub kind: ColumnTypeKind,
    /// The name that the type was declared by.
    pub declared_name: String,
    /// The primitive type behind it, where there is one.
    pub base_type: Option<String>,
    pub array_dimensions: u32,
}

/// The wire type of one value of a column: structured types are sent as JSON;
/// others by their declared name, or by their base type where the name says no
/// more than text.
pub open spec fn element_type(info: ColumnTypeInfo) -> PgType {
    if info.kind == ColumnTypeKind::Struct || info.kind == ColumnTypeKind::Union {
        PgType::Jsonb
    } else {
        let declared = name_type(info.declared_name@);
        if declared == PgType::Text {
            match info.base_type {
                Some(base) => name_type(base@),
                None => PgType::Text,
            }
        } else {
            declared
        }
    }
}

/// The wire type of a column; text where nothing is known of it.
pub open spec fn column_type(info: Option<ColumnTypeInfo>) -> PgType {
    match info {
        None => PgType::Text,
        Some(info) => if info.array_dimensions > 0 {
            array_type(element_type(info))
        } else {
            element_type(info)
        },
    }
}

/// The wire type of a result column.
pub fn resolve_pg_type_for_column(info: &Option<ColumnTypeInfo>) -> (r: PgType)
    ensures
        r == column_type(*info),
{
    match info {
        None => PgType::Text,
        Some(info) => {
            let base = if info.kind == ColumnTypeKind::Struct || info.kind
                == ColumnTypeKind::Union {
                PgType::Jsonb
            } else {
                let declared = sqlite_type_to_pg_type(info.declared_name.as_str());
                if declared == PgType::Text {
                    match &info.base_type {
                        Some(base) => sqlite_type_to_pg_type(base.as_str()),
                        None => PgType::Text,
                    }
                } else {
                    declared
                }
            };
            if info.array_dimensions > 0 {
                scalar_pg_type_to_array_type(&base)
            } else {
                base
            }
        },
    }
}

} // verus!
