//! The SQLite dialect's names for functions.
//!
//! Names are looked up in lower case. A known name that is called with the
//! wrong number of arguments is an error; an unknown one is not, since another
//! part of the database may know it.

use vstd::prelude::*;
use crate::error::LimboError;
use crate::function::{
    AggFunc, FtsFunc, Func, JsonFunc, MathFunc, ScalarFunc, VectorFunc, WindowFunc,
};
use crate::text;
use crate::text::{join3, same, to_lowercase};

verus! {

/// The parts of the function set that a build may leave out.
#[derive(Clone, Copy, Debug, PartialEq, Eq, Structural)]
pub struct Features {
    pub json: bool,
    pub fts: bool,
    pub fs: bool,
    pub test_helper: bool,
}

/// What an ordinary build holds.
pub open spec fn default_features() -> Features {
    Features { json: true, fts: true, fs: true, test_helper: false }
}

/// What a name and a number of arguments stand for.
#[derive(Clone, Copy, Debug, PartialEq, Eq, Structural)]
pub enum Resolution {
    /// No function of this name.
    Unknown,
    /// A function of this name does not take so many arguments.
    WrongArguments,
    Found(Func),
}

/// `func`, for exactly `count` arguments.
pub open spec fn takes_exactly(arg_count: nat, count: nat, func: Func) -> Resolution {
    if arg_count == count {
        Resolution::Found(func)
    } else {
        Resolution::WrongArguments
    }
}

fn exactly(arg_count: usize, count: usize, func: Func) -> (r: Resolution)
    ensures
        r == takes_exactly(arg_count as nat, count as nat, func),
{
    if arg_count == count {
        Resolution::Found(func)
    } else {
        Resolution::WrongArguments
    }
}

/// `func`, for `low` to `high` arguments.
pub open spec fn takes_between(arg_count: nat, low: nat, high: nat, func: Func) -> Resolution {
    if low <= arg_count <= high {
        Resolution::Found(func)
    } else {
        Resolution::WrongArguments
    }
}

fn between(arg_count: usize, low: usize, high: usize, func: Func) -> (r: Resolution)
    ensures
        r == takes_between(arg_count as nat, low as nat, high as nat, func),
{
    if low <= arg_count && arg_count <= high {
        Resolution::Found(func)
    } else {
        Resolution::WrongArguments
    }
}

/// `func`, for `low` arguments or more.
pub open spec fn takes_at_least(arg_count: nat, low: nat, func: Func) -> Resolution {
    if arg_count >= low {
        Resolution::Found(func)
    } else {
        Resolution::WrongArguments
    }
}

fn at_least(arg_count: usize, low: usize, func: Func) -> (r: Resolution)
    ensures
        r == takes_at_least(arg_count as nat, low as nat, func),
{
    if arg_count >= low {
        Resolution::Found(func)
    } else {
        Resolution::WrongArguments
    }
}

/// `func`, in a build that holds it.
pub open spec fn if_built_with(present: bool, func: Func) -> Resolution {
    if present {
        Resolution::Found(func)
    } else {
        Resolution::Unknown
    }
}

fn built_with(present: bool, func: Func) -> (r: Resolution)
    ensures
        r == if_built_with(present, func),
{
    if present {
        Resolution::Found(func)
    } else {
        Resolution::Unknown
    }
}

/// Aggregates, window functions and the functions that check how many arguments they get like them.
pub open spec fn aggregate_function(name: Seq<char>, arg_count: nat, features: Features) -> Option<
    Resolution,
> {
    if name == "avg"@ {
        Some(takes_exactly(arg_count, 1, Func::Agg(AggFunc::Avg)))
    } else if name == "count"@ {
        Some(
            if arg_count == 0 {
                Resolution::Found(Func::Agg(AggFunc::Count0))
            } else {
                takes_exactly(arg_count, 1, Func::Agg(AggFunc::Count))
            },
        )
    } else if name == "group_concat"@ {
        Some(takes_between(arg_count, 1, 2, Func::Agg(AggFunc::GroupConcat)))
    } else if name == "max"@ {
        Some(
            if arg_count > 1 {
                Resolution::Found(Func::Scalar(ScalarFunc::Max))
            } else {
                takes_exactly(arg_count, 1, Func::Agg(AggFunc::Max))
            },
        )
    } else if name == "min"@ {
        Some(
            if arg_count > 1 {
                Resolution::Found(Func::Scalar(ScalarFunc::Min))
            } else {
                takes_exactly(arg_count, 1, Func::Agg(AggFunc::Min))
            },
        )
    } else if name == "nullif"@ {
        Some(
            if arg_count == 2 {
                Resolution::Found(Func::Scalar(ScalarFunc::Nullif))
            } else {
                Resolution::Unknown
            },
        )
    } else if name == "string_agg"@ {
        Some(takes_exactly(arg_count, 2, Func::Agg(AggFunc::StringAgg)))
    } else if name == "sum"@ {
        Some(takes_exactly(arg_count, 1, Func::Agg(AggFunc::Sum)))
    } else if name == "total"@ {
        Some(takes_exactly(arg_count, 1, Func::Agg(AggFunc::Total)))
    } else if name == "row_number"@ {
        Some(takes_exactly(arg_count, 0, Func::Window(WindowFunc::RowNumber)))
    } else if name == "rank"@ {
        Some(takes_exactly(arg_count, 0, Func::Window(WindowFunc::Rank)))
    } else if name == "dense_rank"@ {
        Some(takes_exactly(arg_count, 0, Func::Window(WindowFunc::DenseRank)))
    } else if name == "first_value"@ {
        Some(takes_exactly(arg_count, 1, Func::Window(WindowFunc::FirstValue)))
    } else if name == "last_value"@ {
        Some(takes_exactly(arg_count, 1, Func::Window(WindowFunc::LastValue)))
    } else if name == "nth_value"@ {
        Some(takes_exactly(arg_count, 2, Func::Window(WindowFunc::NthValue)))
    } else if name == "lag"@ {
        Some(takes_between(arg_count, 1, 3, Func::Window(WindowFunc::Lag)))
    } else if name == "lead"@ {
        Some(takes_between(arg_count, 1, 3, Func::Window(WindowFunc::Lead)))
    } else if name == "ntile"@ {
        Some(takes_exactly(arg_count, 1, Func::Window(WindowFunc::Ntile)))
    } else if name == "percent_rank"@ {
        Some(takes_exactly(arg_count, 0, Func::Window(WindowFunc::PercentRank)))
    } else if name == "cume_dist"@ {
        Some(takes_exactly(arg_count, 0, Func::Window(WindowFunc::CumeDist)))
    } else if name == "timediff"@ {
        Some(takes_exactly(arg_count, 2, Func::Scalar(ScalarFunc::TimeDiff)))
    } else if name == "array_agg"@ {
        Some(Resolution::Found(Func::Agg(AggFunc::ArrayAgg)))
    } else if name == "jsonb_group_array"@ {
        Some(if_built_with(features.json, Func::Agg(AggFunc::JsonbGroupArray)))
    } else if name == "json_group_array"@ {
        Some(if_built_with(features.json, Func::Agg(AggFunc::JsonGroupArray)))
    } else if name == "jsonb_group_object"@ {
        Some(if_built_with(features.json, Func::Agg(AggFunc::JsonbGroupObject)))
    } else if name == "json_group_object"@ {
        Some(if_built_with(features.json, Func::Agg(AggFunc::JsonGroupObject)))
    } else {
        None
    }
}

fn find_aggregate_function(name: &str, arg_count: usize, features: Features) -> (r: Option<Resolution>)
    ensures
        r == aggregate_function(name@, arg_count as nat, features),
{
    if same(name, "avg") {
        Some(exactly(arg_count, 1, Func::Agg(AggFunc::Avg)))
    } else if same(name, "count") {
        Some(
            if arg_count == 0 {
                Resolution::Found(Func::Agg(AggFunc::Count0))
            } else {
                exactly(arg_count, 1, Func::Agg(AggFunc::Count))
            },
        )
    } else if same(name, "group_concat") {
        Some(between(arg_count, 1, 2, Func::Agg(AggFunc::GroupConcat)))
    } else if same(name, "max") {
        Some(
            if arg_count > 1 {
                Resolution::Found(Func::Scalar(ScalarFunc::Max))
            } else {
                exactly(arg_count, 1, Func::Agg(AggFunc::Max))
            },
        )
    } else if same(name, "min") {
        Some(
            if arg_count > 1 {
                Resolution::Found(Func::Scalar(ScalarFunc::Min))
            } else {
                exactly(arg_count, 1, Func::Agg(AggFunc::Min))
            },
        )
    } else if same(name, "nullif") {
        Some(
            if arg_count == 2 {
                Resolution::Found(Func::Scalar(ScalarFunc::Nullif))
            } else {
                Resolution::Unknown
            },
        )
    } else if same(name, "string_agg") {
        Some(exactly(arg_count, 2, Func::Agg(AggFunc::StringAgg)))
    } else if same(name, "sum") {
        Some(exactly(arg_count, 1, Func::Agg(AggFunc::Sum)))
    } else if same(name, "total") {
        Some(exactly(arg_count, 1, Func::Agg(AggFunc::Total)))
    } else if same(name, "row_number") {
        Some(exactly(arg_count, 0, Func::Window(WindowFunc::RowNumber)))
    } else if same(name, "rank") {
        Some(exactly(arg_count, 0, Func::Window(WindowFunc::Rank)))
    } else if same(name, "dense_rank") {
        Some(exactly(arg_count, 0, Func::Window(WindowFunc::DenseRank)))
    } else if same(name, "first_value") {
        Some(exactly(arg_count, 1, Func::Window(WindowFunc::FirstValue)))
    } else if same(name, "last_value") {
        Some(exactly(arg_count, 1, Func::Window(WindowFunc::LastValue)))
    } else if same(name, "nth_value") {
        Some(exactly(arg_count, 2, Func::Window(WindowFunc::NthValue)))
    } else if same(name, "lag") {
        Some(between(arg_count, 1, 3, Func::Window(WindowFunc::Lag)))
    } else if same(name, "lead") {
        Some(between(arg_count, 1, 3, Func::Window(WindowFunc::Lead)))
    } else if same(name, "ntile") {
        Some(exactly(arg_count, 1, Func::Window(WindowFunc::Ntile)))
    } else if same(name, "percent_rank") {
        Some(exactly(arg_count, 0, Func::Window(WindowFunc::PercentRank)))
    } else if same(name, "cume_dist") {
        Some(exactly(arg_count, 0, Func::Window(WindowFunc::CumeDist)))
    } else if same(name, "timediff") {
        Some(exactly(arg_count, 2, Func::Scalar(ScalarFunc::TimeDiff)))
    } else if same(name, "array_agg") {
        Some(Resolution::Found(Func::Agg(AggFunc::ArrayAgg)))
    } else if same(name, "jsonb_group_array") {
        Some(built_with(features.json, Func::Agg(AggFunc::JsonbGroupArray)))
    } else if same(name, "json_group_array") {
        Some(built_with(features.json, Func::Agg(AggFunc::JsonGroupArray)))
    } else if same(name, "jsonb_group_object") {
        Some(built_with(features.json, Func::Agg(AggFunc::JsonbGroupObject)))
    } else if same(name, "json_group_object") {
        Some(built_with(features.json, Func::Agg(AggFunc::JsonGroupObject)))
    } else {
        None
    }
}

/// Functions of text, numbers, dates and the connection.
pub open spec fn scalar_function(name: Seq<char>, arg_count: nat, features: Features) -> Option<
    Resolution,
> {
    if name == "char"@ || name == "chr"@ {
        Some(Resolution::Found(Func::Scalar(ScalarFunc::Char)))
    } else if name == "coalesce"@ {
        Some(Resolution::Found(Func::Scalar(ScalarFunc::Coalesce)))
    } else if name == "concat"@ {
        Some(takes_at_least(arg_count, 1, Func::Scalar(ScalarFunc::Concat)))
    } else if name == "concat_ws"@ {
        Some(takes_at_least(arg_count, 2, Func::Scalar(ScalarFunc::ConcatWs)))
    } else if name == "changes"@ {
        Some(Resolution::Found(Func::Scalar(ScalarFunc::Changes)))
    } else if name == "total_changes"@ {
        Some(Resolution::Found(Func::Scalar(ScalarFunc::TotalChanges)))
    } else if name == "glob"@ {
        Some(Resolution::Found(Func::Scalar(ScalarFunc::Glob)))
    } else if name == "ifnull"@ {
        Some(Resolution::Found(Func::Scalar(ScalarFunc::IfNull)))
    } else if name == "if"@ || name == "iif"@ {
        Some(Resolution::Found(Func::Scalar(ScalarFunc::Iif)))
    } else if name == "instr"@ || name == "strpos"@ {
        Some(Resolution::Found(Func::Scalar(ScalarFunc::Instr)))
    } else if name == "like"@ {
        Some(Resolution::Found(Func::Scalar(ScalarFunc::Like)))
    } else if name == "abs"@ {
        Some(Resolution::Found(Func::Scalar(ScalarFunc::Abs)))
    } else if name == "upper"@ {
        Some(Resolution::Found(Func::Scalar(ScalarFunc::Upper)))
    } else if name == "lower"@ {
        Some(Resolution::Found(Func::Scalar(ScalarFunc::Lower)))
    } else if name == "random"@ {
        Some(Resolution::Found(Func::Scalar(ScalarFunc::Random)))
    } else if name == "randomblob"@ {
        Some(Resolution::Found(Func::Scalar(ScalarFunc::RandomBlob)))
    } else if name == "trim"@ || name == "btrim"@ {
        Some(Resolution::Found(Func::Scalar(ScalarFunc::Trim)))
    } else if name == "ltrim"@ {
        Some(Resolution::Found(Func::Scalar(ScalarFunc::LTrim)))
    } else if name == "rtrim"@ {
        Some(Resolution::Found(Func::Scalar(ScalarFunc::RTrim)))
    } else if name == "round"@ {
        Some(Resolution::Found(Func::Scalar(ScalarFunc::Round)))
    } else if name == "length"@ || name == "char_length"@ || name == "character_length"@ {
        Some(Resolution::Found(Func::Scalar(ScalarFunc::Length)))
    } else if name == "octet_length"@ {
        Some(Resolution::Found(Func::Scalar(ScalarFunc::OctetLength)))
    } else if name == "sign"@ {
        Some(Resolution::Found(Func::Scalar(ScalarFunc::Sign)))
    } else if name == "substr"@ {
        Some(takes_between(arg_count, 2, 3, Func::Scalar(ScalarFunc::Substr)))
    } else if name == "substring"@ {
        Some(takes_between(arg_count, 2, 3, Func::Scalar(ScalarFunc::Substring)))
    } else if name == "date"@ {
        Some(Resolution::Found(Func::Scalar(ScalarFunc::Date)))
    } else if name == "time"@ {
        Some(Resolution::Found(Func::Scalar(ScalarFunc::Time)))
    } else if name == "datetime"@ {
        Some(Resolution::Found(Func::Scalar(ScalarFunc::DateTime)))
    } else if name == "typeof"@ {
        Some(Resolution::Found(Func::Scalar(ScalarFunc::Typeof)))
    } else if name == "last_insert_rowid"@ {
        Some(Resolution::Found(Func::Scalar(ScalarFunc::LastInsertRowid)))
    } else if name == "unicode"@ {
        Some(Resolution::Found(Func::Scalar(ScalarFunc::Unicode)))
    } else if name == "unistr"@ {
        Some(Resolution::Found(Func::Scalar(ScalarFunc::Unistr)))
    } else if name == "unistr_quote"@ {
        Some(Resolution::Found(Func::Scalar(ScalarFunc::UnistrQuote)))
    } else if name == "quote"@ {
        Some(Resolution::Found(Func::Scalar(ScalarFunc::Quote)))
    } else if name == "sqlite_version"@ {
        Some(Resolution::Found(Func::Scalar(ScalarFunc::SqliteVersion)))
    } else if name == "turso_version"@ {
        Some(Resolution::Found(Func::Scalar(ScalarFunc::TursoVersion)))
    } else if name == "sqlite_source_id"@ {
        Some(Resolution::Found(Func::Scalar(ScalarFunc::SqliteSourceId)))
    } else if name == "replace"@ {
        Some(Resolution::Found(Func::Scalar(ScalarFunc::Replace)))
    } else if name == "likely"@ {
        Some(Resolution::Found(Func::Scalar(ScalarFunc::Likely)))
    } else if name == "likelihood"@ {
        Some(Resolution::Found(Func::Scalar(ScalarFunc::Likelihood)))
    } else if name == "unlikely"@ {
        Some(Resolution::Found(Func::Scalar(ScalarFunc::Unlikely)))
    } else if name == "unixepoch"@ {
        Some(Resolution::Found(Func::Scalar(ScalarFunc::UnixEpoch)))
    } else if name == "julianday"@ {
        Some(Resolution::Found(Func::Scalar(ScalarFunc::JulianDay)))
    } else if name == "hex"@ {
        Some(Resolution::Found(Func::Scalar(ScalarFunc::Hex)))
    } else if name == "unhex"@ {
        Some(Resolution::Found(Func::Scalar(ScalarFunc::Unhex)))
    } else if name == "get_byte"@ {
        Some(Resolution::Found(Func::Scalar(ScalarFunc::GetByte)))
    } else if name == "set_byte"@ {
        Some(Resolution::Found(Func::Scalar(ScalarFunc::SetByte)))
    } else if name == "zeroblob"@ {
        Some(Resolution::Found(Func::Scalar(ScalarFunc::ZeroBlob)))
    } else if name == "soundex"@ {
        Some(Resolution::Found(Func::Scalar(ScalarFunc::Soundex)))
    } else if name == "table_columns_json_array"@ {
        Some(Resolution::Found(Func::Scalar(ScalarFunc::TableColumnsJsonArray)))
    } else if name == "bin_record_json_object"@ {
        Some(Resolution::Found(Func::Scalar(ScalarFunc::BinRecordJsonObject)))
    } else if name == "conn_txn_id"@ {
        Some(Resolution::Found(Func::Scalar(ScalarFunc::ConnTxnId)))
    } else if name == "is_autocommit"@ {
        Some(Resolution::Found(Func::Scalar(ScalarFunc::IsAutocommit)))
    } else if name == "sequence_watermark_experimental"@ {
        Some(Resolution::Found(Func::Scalar(ScalarFunc::SequenceWatermark)))
    } else if name == "load_extension"@ {
        Some(if_built_with(features.fs, Func::Scalar(ScalarFunc::LoadExtension)))
    } else if name == "strftime"@ {
        Some(Resolution::Found(Func::Scalar(ScalarFunc::StrfTime)))
    } else if name == "printf"@ || name == "format"@ {
        Some(Resolution::Found(Func::Scalar(ScalarFunc::Printf)))
    } else {
        None
    }
}

fn find_scalar_function(name: &str, arg_count: usize, features: Features) -> (r: Option<Resolution>)
    ensures
        r == scalar_function(name@, arg_count as nat, features),
{
    if same(name, "char") || same(name, "chr") {
        Some(Resolution::Found(Func::Scalar(ScalarFunc::Char)))
    } else if same(name, "coalesce") {
        Some(Resolution::Found(Func::Scalar(ScalarFunc::Coalesce)))
    } else if same(name, "concat") {
        Some(at_least(arg_count, 1, Func::Scalar(ScalarFunc::Concat)))
    } else if same(name, "concat_ws") {
        Some(at_least(arg_count, 2, Func::Scalar(ScalarFunc::ConcatWs)))
    } else if same(name, "changes") {
        Some(Resolution::Found(Func::Scalar(ScalarFunc::Changes)))
    } else if same(name, "total_changes") {
        Some(Resolution::Found(Func::Scalar(ScalarFunc::TotalChanges)))
    } else if same(name, "glob") {
        Some(Resolution::Found(Func::Scalar(ScalarFunc::Glob)))
    } else if same(name, "ifnull") {
        Some(Resolution::Found(Func::Scalar(ScalarFunc::IfNull)))
    } else if same(name, "if") || same(name, "iif") {
        Some(Resolution::Found(Func::Scalar(ScalarFunc::Iif)))
    } else if same(name, "instr") || same(name, "strpos") {
        Some(Resolution::Found(Func::Scalar(ScalarFunc::Instr)))
    } else if same(name, "like") {
        Some(Resolution::Found(Func::Scalar(ScalarFunc::Like)))
    } else if same(name, "abs") {
        Some(Resolution::Found(Func::Scalar(ScalarFunc::Abs)))
    } else if same(name, "upper") {
        Some(Resolution::Found(Func::Scalar(ScalarFunc::Upper)))
    } else if same(name, "lower") {
        Some(Resolution::Found(Func::Scalar(ScalarFunc::Lower)))
    } else if same(name, "random") {
        Some(Resolution::Found(Func::Scalar(ScalarFunc::Random)))
    } else if same(name, "randomblob") {
        Some(Resolution::Found(Func::Scalar(ScalarFunc::RandomBlob)))
    } else if same(name, "trim") || same(name, "btrim") {
        Some(Resolution::Found(Func::Scalar(ScalarFunc::Trim)))
    } else if same(name, "ltrim") {
        Some(Resolution::Found(Func::Scalar(ScalarFunc::LTrim)))
    } else if same(name, "rtrim") {
        Some(Resolution::Found(Func::Scalar(ScalarFunc::RTrim)))
    } else if same(name, "round") {
        Some(Resolution::Found(Func::Scalar(ScalarFunc::Round)))
    } else if same(name, "length") || same(name, "char_length") || same(name, "character_length") {
        Some(Resolution::Found(Func::Scalar(ScalarFunc::Length)))
    } else if same(name, "octet_length") {
        Some(Resolution::Found(Func::Scalar(ScalarFunc::OctetLength)))
    } else if same(name, "sign") {
        Some(Resolution::Found(Func::Scalar(ScalarFunc::Sign)))
    } else if same(name, "substr") {
        Some(between(arg_count, 2, 3, Func::Scalar(ScalarFunc::Substr)))
    } else if same(name, "substring") {
        Some(between(arg_count, 2, 3, Func::Scalar(ScalarFunc::Substring)))
    } else if same(name, "date") {
        Some(Resolution::Found(Func::Scalar(ScalarFunc::Date)))
    } else if same(name, "time") {
        Some(Resolution::Found(Func::Scalar(ScalarFunc::Time)))
    } else if same(name, "datetime") {
        Some(Resolution::Found(Func::Scalar(ScalarFunc::DateTime)))
    } else if same(name, "typeof") {
        Some(Resolution::Found(Func::Scalar(ScalarFunc::Typeof)))
    } else if same(name, "last_insert_rowid") {
        Some(Resolution::Found(Func::Scalar(ScalarFunc::LastInsertRowid)))
    } else if same(name, "unicode") {
        Some(Resolution::Found(Func::Scalar(ScalarFunc::Unicode)))
    } else if same(name, "unistr") {
        Some(Resolution::Found(Func::Scalar(ScalarFunc::Unistr)))
    } else if same(name, "unistr_quote") {
        Some(Resolution::Found(Func::Scalar(ScalarFunc::UnistrQuote)))
    } else if same(name, "quote") {
        Some(Resolution::Found(Func::Scalar(ScalarFunc::Quote)))
    } else if same(name, "sqlite_version") {
        Some(Resolution::Found(Func::Scalar(ScalarFunc::SqliteVersion)))
    } else if same(name, "turso_version") {
        Some(Resolution::Found(Func::Scalar(ScalarFunc::TursoVersion)))
    } else if same(name, "sqlite_source_id") {
        Some(Resolution::Found(Func::Scalar(ScalarFunc::SqliteSourceId)))
    } else if same(name, "replace") {
        Some(Resolution::Found(Func::Scalar(ScalarFunc::Replace)))
    } else if same(name, "likely") {
        Some(Resolution::Found(Func::Scalar(ScalarFunc::Likely)))
    } else if same(name, "likelihood") {
        Some(Resolution::Found(Func::Scalar(ScalarFunc::Likelihood)))
    } else if same(name, "unlikely") {
        Some(Resolution::Found(Func::Scalar(ScalarFunc::Unlikely)))
    } else if same(name, "unixepoch") {
        Some(Resolution::Found(Func::Scalar(ScalarFunc::UnixEpoch)))
    } else if same(name, "julianday") {
        Some(Resolution::Found(Func::Scalar(ScalarFunc::JulianDay)))
    } else if same(name, "hex") {
        Some(Resolution::Found(Func::Scalar(ScalarFunc::Hex)))
    } else if same(name, "unhex") {
        Some(Resolution::Found(Func::Scalar(ScalarFunc::Unhex)))
    } else if same(name, "get_byte") {
        Some(Resolution::Found(Func::Scalar(ScalarFunc::GetByte)))
    } else if same(name, "set_byte") {
        Some(Resolution::Found(Func::Scalar(ScalarFunc::SetByte)))
    } else if same(name, "zeroblob") {
        Some(Resolution::Found(Func::Scalar(ScalarFunc::ZeroBlob)))
    } else if same(name, "soundex") {
        Some(Resolution::Found(Func::Scalar(ScalarFunc::Soundex)))
    } else if same(name, "table_columns_json_array") {
        Some(Resolution::Found(Func::Scalar(ScalarFunc::TableColumnsJsonArray)))
    } else if same(name, "bin_record_json_object") {
        Some(Resolution::Found(Func::Scalar(ScalarFunc::BinRecordJsonObject)))
    } else if same(name, "conn_txn_id") {
        Some(Resolution::Found(Func::Scalar(ScalarFunc::ConnTxnId)))
    } else if same(name, "is_autocommit") {
        Some(Resolution::Found(Func::Scalar(ScalarFunc::IsAutocommit)))
    } else if same(name, "sequence_watermark_experimental") {
        Some(Resolution::Found(Func::Scalar(ScalarFunc::SequenceWatermark)))
    } else if same(name, "load_extension") {
        Some(built_with(features.fs, Func::Scalar(ScalarFunc::LoadExtension)))
    } else if same(name, "strftime") {
        Some(Resolution::Found(Func::Scalar(ScalarFunc::StrfTime)))
    } else if same(name, "printf") || same(name, "format") {
        Some(Resolution::Found(Func::Scalar(ScalarFunc::Printf)))
    } else {
        None
    }
}

/// Functions on JSON.
pub open spec fn json_function(name: Seq<char>, arg_count: nat, features: Features) -> Option<
    Resolution,
> {
    if name == "json"@ {
        Some(if_built_with(features.json, Func::Json(JsonFunc::Json)))
    } else if name == "jsonb"@ {
        Some(if_built_with(features.json, Func::Json(JsonFunc::Jsonb)))
    } else if name == "json_array_length"@ {
        Some(if_built_with(features.json, Func::Json(JsonFunc::JsonArrayLength)))
    } else if name == "json_array"@ {
        Some(if_built_with(features.json, Func::Json(JsonFunc::JsonArray)))
    } else if name == "jsonb_array"@ {
        Some(if_built_with(features.json, Func::Json(JsonFunc::JsonbArray)))
    } else if name == "json_extract"@ {
        Some(if_built_with(features.json, Func::Json(JsonFunc::JsonExtract)))
    } else if name == "jsonb_extract"@ {
        Some(if_built_with(features.json, Func::Json(JsonFunc::JsonbExtract)))
    } else if name == "json_object"@ {
        Some(if_built_with(features.json, Func::Json(JsonFunc::JsonObject)))
    } else if name == "jsonb_object"@ {
        Some(if_built_with(features.json, Func::Json(JsonFunc::JsonbObject)))
    } else if name == "json_type"@ {
        Some(if_built_with(features.json, Func::Json(JsonFunc::JsonType)))
    } else if name == "json_error_position"@ {
        Some(if_built_with(features.json, Func::Json(JsonFunc::JsonErrorPosition)))
    } else if name == "json_valid"@ {
        Some(if_built_with(features.json, Func::Json(JsonFunc::JsonValid)))
    } else if name == "json_patch"@ {
        Some(if_built_with(features.json, Func::Json(JsonFunc::JsonPatch)))
    } else if name == "jsonb_patch"@ {
        Some(if_built_with(features.json, Func::Json(JsonFunc::JsonbPatch)))
    } else if name == "json_remove"@ {
        Some(if_built_with(features.json, Func::Json(JsonFunc::JsonRemove)))
    } else if name == "jsonb_remove"@ {
        Some(if_built_with(features.json, Func::Json(JsonFunc::JsonbRemove)))
    } else if name == "json_replace"@ {
        Some(if_built_with(features.json, Func::Json(JsonFunc::JsonReplace)))
    } else if name == "json_insert"@ {
        Some(if_built_with(features.json, Func::Json(JsonFunc::JsonInsert)))
    } else if name == "jsonb_insert"@ {
        Some(if_built_with(features.json, Func::Json(JsonFunc::JsonbInsert)))
    } else if name == "jsonb_replace"@ {
        Some(if_built_with(features.json, Func::Json(JsonFunc::JsonbReplace)))
    } else if name == "json_pretty"@ {
        Some(if_built_with(features.json, Func::Json(JsonFunc::JsonPretty)))
    } else if name == "json_set"@ {
        Some(if_built_with(features.json, Func::Json(JsonFunc::JsonSet)))
    } else if name == "jsonb_set"@ {
        Some(if_built_with(features.json, Func::Json(JsonFunc::JsonbSet)))
    } else if name == "json_quote"@ {
        Some(if_built_with(features.json, Func::Json(JsonFunc::JsonQuote)))
    } else {
        None
    }
}

fn find_json_function(name: &str, arg_count: usize, features: Features) -> (r: Option<Resolution>)
    ensures
        r == json_function(name@, arg_count as nat, features),
{
    if same(name, "json") {
        Some(built_with(features.json, Func::Json(JsonFunc::Json)))
    } else if same(name, "jsonb") {
        Some(built_with(features.json, Func::Json(JsonFunc::Jsonb)))
    } else if same(name, "json_array_length") {
        Some(built_with(features.json, Func::Json(JsonFunc::JsonArrayLength)))
    } else if same(name, "json_array") {
        Some(built_with(features.json, Func::Json(JsonFunc::JsonArray)))
    } else if same(name, "jsonb_array") {
        Some(built_with(features.json, Func::Json(JsonFunc::JsonbArray)))
    } else if same(name, "json_extract") {
        Some(built_with(features.json, Func::Json(JsonFunc::JsonExtract)))
    } else if same(name, "jsonb_extract") {
        Some(built_with(features.json, Func::Json(JsonFunc::JsonbExtract)))
    } else if same(name, "json_object") {
        Some(built_with(features.json, Func::Json(JsonFunc::JsonObject)))
    } else if same(name, "jsonb_object") {
        Some(built_with(features.json, Func::Json(JsonFunc::JsonbObject)))
    } else if same(name, "json_type") {
        Some(built_with(features.json, Func::Json(JsonFunc::JsonType)))
    } else if same(name, "json_error_position") {
        Some(built_with(features.json, Func::Json(JsonFunc::JsonErrorPosition)))
    } else if same(name, "json_valid") {
        Some(built_with(features.json, Func::Json(JsonFunc::JsonValid)))
    } else if same(name, "json_patch") {
        Some(built_with(features.json, Func::Json(JsonFunc::JsonPatch)))
    } else if same(name, "jsonb_patch") {
        Some(built_with(features.json, Func::Json(JsonFunc::JsonbPatch)))
    } else if same(name, "json_remove") {
        Some(built_with(features.json, Func::Json(JsonFunc::JsonRemove)))
    } else if same(name, "jsonb_remove") {
        Some(built_with(features.json, Func::Json(JsonFunc::JsonbRemove)))
    } else if same(name, "json_replace") {
        Some(built_with(features.json, Func::Json(JsonFunc::JsonReplace)))
    } else if same(name, "json_insert") {
        Some(built_with(features.json, Func::Json(JsonFunc::JsonInsert)))
    } else if same(name, "jsonb_insert") {
        Some(built_with(features.json, Func::Json(JsonFunc::JsonbInsert)))
    } else if same(name, "jsonb_replace") {
        Some(built_with(features.json, Func::Json(JsonFunc::JsonbReplace)))
    } else if same(name, "json_pretty") {
        Some(built_with(features.json, Func::Json(JsonFunc::JsonPretty)))
    } else if same(name, "json_set") {
        Some(built_with(features.json, Func::Json(JsonFunc::JsonSet)))
    } else if same(name, "jsonb_set") {
        Some(built_with(features.json, Func::Json(JsonFunc::JsonbSet)))
    } else if same(name, "json_quote") {
        Some(built_with(features.json, Func::Json(JsonFunc::JsonQuote)))
    } else {
        None
    }
}

/// Functions of arithmetic.
pub open spec fn math_function(name: Seq<char>, arg_count: nat, features: Features) -> Option<
    Resolution,
> {
    if name == "acos"@ {
        Some(Resolution::Found(Func::Math(MathFunc::Acos)))
    } else if name == "acosh"@ {
        Some(Resolution::Found(Func::Math(MathFunc::Acosh)))
    } else if name == "asin"@ {
        Some(Resolution::Found(Func::Math(MathFunc::Asin)))
    } else if name == "asinh"@ {
        Some(Resolution::Found(Func::Math(MathFunc::Asinh)))
    } else if name == "atan"@ {
        Some(Resolution::Found(Func::Math(MathFunc::Atan)))
    } else if name == "atan2"@ {
        Some(Resolution::Found(Func::Math(MathFunc::Atan2)))
    } else if name == "atanh"@ {
        Some(Resolution::Found(Func::Math(MathFunc::Atanh)))
    } else if name == "ceil"@ {
        Some(Resolution::Found(Func::Math(MathFunc::Ceil)))
    } else if name == "ceiling"@ {
        Some(Resolution::Found(Func::Math(MathFunc::Ceiling)))
    } else if name == "cos"@ {
        Some(Resolution::Found(Func::Math(MathFunc::Cos)))
    } else if name == "cosh"@ {
        Some(Resolution::Found(Func::Math(MathFunc::Cosh)))
    } else if name == "degrees"@ {
        Some(Resolution::Found(Func::Math(MathFunc::Degrees)))
    } else if name == "exp"@ {
        Some(Resolution::Found(Func::Math(MathFunc::Exp)))
    } else if name == "floor"@ {
        Some(Resolution::Found(Func::Math(MathFunc::Floor)))
    } else if name == "ln"@ {
        Some(Resolution::Found(Func::Math(MathFunc::Ln)))
    } else if name == "log"@ {
        Some(Resolution::Found(Func::Math(MathFunc::Log)))
    } else if name == "log10"@ {
        Some(Resolution::Found(Func::Math(MathFunc::Log10)))
    } else if name == "log2"@ {
        Some(Resolution::Found(Func::Math(MathFunc::Log2)))
    } else if name == "mod"@ {
        Some(Resolution::Found(Func::Math(MathFunc::Mod)))
    } else if name == "pi"@ {
        Some(Resolution::Found(Func::Math(MathFunc::Pi)))
    } else if name == "pow"@ {
        Some(Resolution::Found(Func::Math(MathFunc::Pow)))
    } else if name == "power"@ {
        Some(Resolution::Found(Func::Math(MathFunc::Power)))
    } else if name == "radians"@ {
        Some(Resolution::Found(Func::Math(MathFunc::Radians)))
    } else if name == "sin"@ {
        Some(Resolution::Found(Func::Math(MathFunc::Sin)))
    } else if name == "sinh"@ {
        Some(Resolution::Found(Func::Math(MathFunc::Sinh)))
    } else if name == "sqrt"@ {
        Some(Resolution::Found(Func::Math(MathFunc::Sqrt)))
    } else if name == "tan"@ {
        Some(Resolution::Found(Func::Math(MathFunc::Tan)))
    } else if name == "tanh"@ {
        Some(Resolution::Found(Func::Math(MathFunc::Tanh)))
    } else if name == "trunc"@ {
        Some(Resolution::Found(Func::Math(MathFunc::Trunc)))
    } else {
        None
    }
}

fn find_math_function(name: &str, arg_count: usize, features: Features) -> (r: Option<Resolution>)
    ensures
        r == math_function(name@, arg_count as nat, features),
{
    if same(name, "acos") {
        Some(Resolution::Found(Func::Math(MathFunc::Acos)))
    } else if same(name, "acosh") {
        Some(Resolution::Found(Func::Math(MathFunc::Acosh)))
    } else if same(name, "asin") {
        Some(Resolution::Found(Func::Math(MathFunc::Asin)))
    } else if same(name, "asinh") {
        Some(Resolution::Found(Func::Math(MathFunc::Asinh)))
    } else if same(name, "atan") {
        Some(Resolution::Found(Func::Math(MathFunc::Atan)))
    } else if same(name, "atan2") {
        Some(Resolution::Found(Func::Math(MathFunc::Atan2)))
    } else if same(name, "atanh") {
        Some(Resolution::Found(Func::Math(MathFunc::Atanh)))
    } else if same(name, "ceil") {
        Some(Resolution::Found(Func::Math(MathFunc::Ceil)))
    } else if same(name, "ceiling") {
        Some(Resolution::Found(Func::Math(MathFunc::Ceiling)))
    } else if same(name, "cos") {
        Some(Resolution::Found(Func::Math(MathFunc::Cos)))
    } else if same(name, "cosh") {
        Some(Resolution::Found(Func::Math(MathFunc::Cosh)))
    } else if same(name, "degrees") {
        Some(Resolution::Found(Func::Math(MathFunc::Degrees)))
    } else if same(name, "exp") {
        Some(Resolution::Found(Func::Math(MathFunc::Exp)))
    } else if same(name, "floor") {
        Some(Resolution::Found(Func::Math(MathFunc::Floor)))
    } else if same(name, "ln") {
        Some(Resolution::Found(Func::Math(MathFunc::Ln)))
    } else if same(name, "log") {
        Some(Resolution::Found(Func::Math(MathFunc::Log)))
    } else if same(name, "log10") {
        Some(Resolution::Found(Func::Math(MathFunc::Log10)))
    } else if same(name, "log2") {
        Some(Resolution::Found(Func::Math(MathFunc::Log2)))
    } else if same(name, "mod") {
        Some(Resolution::Found(Func::Math(MathFunc::Mod)))
    } else if same(name, "pi") {
        Some(Resolution::Found(Func::Math(MathFunc::Pi)))
    } else if same(name, "pow") {
        Some(Resolution::Found(Func::Math(MathFunc::Pow)))
    } else if same(name, "power") {
        Some(Resolution::Found(Func::Math(MathFunc::Power)))
    } else if same(name, "radians") {
        Some(Resolution::Found(Func::Math(MathFunc::Radians)))
    } else if same(name, "sin") {
        Some(Resolution::Found(Func::Math(MathFunc::Sin)))
    } else if same(name, "sinh") {
        Some(Resolution::Found(Func::Math(MathFunc::Sinh)))
    } else if same(name, "sqrt") {
        Some(Resolution::Found(Func::Math(MathFunc::Sqrt)))
    } else if same(name, "tan") {
        Some(Resolution::Found(Func::Math(MathFunc::Tan)))
    } else if same(name, "tanh") {
        Some(Resolution::Found(Func::Math(MathFunc::Tanh)))
    } else if same(name, "trunc") {
        Some(Resolution::Found(Func::Math(MathFunc::Trunc)))
    } else {
        None
    }
}

/// Functions on vectors and of full-text search.
pub open spec fn vector_function(name: Seq<char>, arg_count: nat, features: Features) -> Option<
    Resolution,
> {
    if name == "vector"@ {
        Some(Resolution::Found(Func::Vector(VectorFunc::Vector)))
    } else if name == "vector32"@ {
        Some(Resolution::Found(Func::Vector(VectorFunc::Vector32)))
    } else if name == "vector32_sparse"@ {
        Some(Resolution::Found(Func::Vector(VectorFunc::Vector32Sparse)))
    } else if name == "vector64"@ {
        Some(Resolution::Found(Func::Vector(VectorFunc::Vector64)))
    } else if name == "vector8"@ {
        Some(Resolution::Found(Func::Vector(VectorFunc::Vector8)))
    } else if name == "vector1bit"@ {
        Some(Resolution::Found(Func::Vector(VectorFunc::Vector1Bit)))
    } else if name == "vector_extract"@ {
        Some(Resolution::Found(Func::Vector(VectorFunc::VectorExtract)))
    } else if name == "vector_distance_cos"@ {
        Some(Resolution::Found(Func::Vector(VectorFunc::VectorDistanceCos)))
    } else if name == "vector_distance_l2"@ {
        Some(Resolution::Found(Func::Vector(VectorFunc::VectorDistanceL2)))
    } else if name == "vector_distance_jaccard"@ {
        Some(Resolution::Found(Func::Vector(VectorFunc::VectorDistanceJaccard)))
    } else if name == "vector_distance_dot"@ {
        Some(Resolution::Found(Func::Vector(VectorFunc::VectorDistanceDot)))
    } else if name == "vector_concat"@ {
        Some(Resolution::Found(Func::Vector(VectorFunc::VectorConcat)))
    } else if name == "vector_slice"@ {
        Some(Resolution::Found(Func::Vector(VectorFunc::VectorSlice)))
    } else if name == "fts_score"@ {
        Some(if_built_with(features.fts, Func::Fts(FtsFunc::Score)))
    } else if name == "fts_match"@ {
        Some(if_built_with(features.fts, Func::Fts(FtsFunc::Match)))
    } else if name == "fts_highlight"@ {
        Some(if_built_with(features.fts, Func::Fts(FtsFunc::Highlight)))
    } else {
        None
    }
}

fn find_vector_function(name: &str, arg_count: usize, features: Features) -> (r: Option<Resolution>)
    ensures
        r == vector_function(name@, arg_count as nat, features),
{
    if same(name, "vector") {
        Some(Resolution::Found(Func::Vector(VectorFunc::Vector)))
    } else if same(name, "vector32") {
        Some(Resolution::Found(Func::Vector(VectorFunc::Vector32)))
    } else if same(name, "vector32_sparse") {
        Some(Resolution::Found(Func::Vector(VectorFunc::Vector32Sparse)))
    } else if same(name, "vector64") {
        Some(Resolution::Found(Func::Vector(VectorFunc::Vector64)))
    } else if same(name, "vector8") {
        Some(Resolution::Found(Func::Vector(VectorFunc::Vector8)))
    } else if same(name, "vector1bit") {
        Some(Resolution::Found(Func::Vector(VectorFunc::Vector1Bit)))
    } else if same(name, "vector_extract") {
        Some(Resolution::Found(Func::Vector(VectorFunc::VectorExtract)))
    } else if same(name, "vector_distance_cos") {
        Some(Resolution::Found(Func::Vector(VectorFunc::VectorDistanceCos)))
    } else if same(name, "vector_distance_l2") {
        Some(Resolution::Found(Func::Vector(VectorFunc::VectorDistanceL2)))
    } else if same(name, "vector_distance_jaccard") {
        Some(Resolution::Found(Func::Vector(VectorFunc::VectorDistanceJaccard)))
    } else if same(name, "vector_distance_dot") {
        Some(Resolution::Found(Func::Vector(VectorFunc::VectorDistanceDot)))
    } else if same(name, "vector_concat") {
        Some(Resolution::Found(Func::Vector(VectorFunc::VectorConcat)))
    } else if same(name, "vector_slice") {
        Some(Resolution::Found(Func::Vector(VectorFunc::VectorSlice)))
    } else if same(name, "fts_score") {
        Some(built_with(features.fts, Func::Fts(FtsFunc::Score)))
    } else if same(name, "fts_match") {
        Some(built_with(features.fts, Func::Fts(FtsFunc::Match)))
    } else if same(name, "fts_highlight") {
        Some(built_with(features.fts, Func::Fts(FtsFunc::Highlight)))
    } else {
        None
    }
}

/// Functions that types, arrays, structures, unions and sequences are made of.
pub open spec fn typed_function(name: Seq<char>, arg_count: nat, features: Features) -> Option<
    Resolution,
> {
    if name == "test_uint_encode"@ {
        Some(Resolution::Found(Func::Scalar(ScalarFunc::TestUintEncode)))
    } else if name == "test_uint_decode"@ {
        Some(Resolution::Found(Func::Scalar(ScalarFunc::TestUintDecode)))
    } else if name == "test_uint_add"@ {
        Some(Resolution::Found(Func::Scalar(ScalarFunc::TestUintAdd)))
    } else if name == "test_uint_sub"@ {
        Some(Resolution::Found(Func::Scalar(ScalarFunc::TestUintSub)))
    } else if name == "test_uint_mul"@ {
        Some(Resolution::Found(Func::Scalar(ScalarFunc::TestUintMul)))
    } else if name == "test_uint_div"@ {
        Some(Resolution::Found(Func::Scalar(ScalarFunc::TestUintDiv)))
    } else if name == "test_uint_lt"@ {
        Some(Resolution::Found(Func::Scalar(ScalarFunc::TestUintLt)))
    } else if name == "test_uint_eq"@ {
        Some(Resolution::Found(Func::Scalar(ScalarFunc::TestUintEq)))
    } else if name == "test_nondet_counter"@ {
        Some(if_built_with(features.test_helper, Func::Scalar(ScalarFunc::TestNondetCounter)))
    } else if name == "string_reverse"@ || name == "reverse"@ {
        Some(Resolution::Found(Func::Scalar(ScalarFunc::StringReverse)))
    } else if name == "gcd"@ {
        Some(Resolution::Found(Func::Scalar(ScalarFunc::Gcd)))
    } else if name == "lcm"@ {
        Some(Resolution::Found(Func::Scalar(ScalarFunc::Lcm)))
    } else if name == "repeat"@ {
        Some(Resolution::Found(Func::Scalar(ScalarFunc::Repeat)))
    } else if name == "lpad"@ {
        Some(Resolution::Found(Func::Scalar(ScalarFunc::Lpad)))
    } else if name == "rpad"@ {
        Some(Resolution::Found(Func::Scalar(ScalarFunc::Rpad)))
    } else if name == "boolean_to_int"@ {
        Some(Resolution::Found(Func::Scalar(ScalarFunc::BooleanToInt)))
    } else if name == "int_to_boolean"@ {
        Some(Resolution::Found(Func::Scalar(ScalarFunc::IntToBoolean)))
    } else if name == "validate_ipaddr"@ {
        Some(Resolution::Found(Func::Scalar(ScalarFunc::ValidateIpAddr)))
    } else if name == "numeric_encode"@ {
        Some(Resolution::Found(Func::Scalar(ScalarFunc::NumericEncode)))
    } else if name == "numeric_decode"@ {
        Some(Resolution::Found(Func::Scalar(ScalarFunc::NumericDecode)))
    } else if name == "numeric_add"@ {
        Some(Resolution::Found(Func::Scalar(ScalarFunc::NumericAdd)))
    } else if name == "numeric_sub"@ {
        Some(Resolution::Found(Func::Scalar(ScalarFunc::NumericSub)))
    } else if name == "numeric_mul"@ {
        Some(Resolution::Found(Func::Scalar(ScalarFunc::NumericMul)))
    } else if name == "numeric_div"@ {
        Some(Resolution::Found(Func::Scalar(ScalarFunc::NumericDiv)))
    } else if name == "numeric_lt"@ {
        Some(Resolution::Found(Func::Scalar(ScalarFunc::NumericLt)))
    } else if name == "numeric_eq"@ {
        Some(Resolution::Found(Func::Scalar(ScalarFunc::NumericEq)))
    } else if name == "array"@ {
        Some(Resolution::Found(Func::Scalar(ScalarFunc::Array)))
    } else if name == "array_element"@ {
        Some(Resolution::Found(Func::Scalar(ScalarFunc::ArrayElement)))
    } else if name == "array_set_element"@ {
        Some(Resolution::Found(Func::Scalar(ScalarFunc::ArraySetElement)))
    } else if name == "array_length"@ || name == "array_upper"@ {
        Some(Resolution::Found(Func::Scalar(ScalarFunc::ArrayLength)))
    } else if name == "array_append"@ {
        Some(Resolution::Found(Func::Scalar(ScalarFunc::ArrayAppend)))
    } else if name == "array_prepend"@ {
        Some(Resolution::Found(Func::Scalar(ScalarFunc::ArrayPrepend)))
    } else if name == "array_cat"@ {
        Some(Resolution::Found(Func::Scalar(ScalarFunc::ArrayCat)))
    } else if name == "array_remove"@ {
        Some(Resolution::Found(Func::Scalar(ScalarFunc::ArrayRemove)))
    } else if name == "array_contains"@ {
        Some(Resolution::Found(Func::Scalar(ScalarFunc::ArrayContains)))
    } else if name == "array_position"@ {
        Some(Resolution::Found(Func::Scalar(ScalarFunc::ArrayPosition)))
    } else if name == "array_slice"@ {
        Some(Resolution::Found(Func::Scalar(ScalarFunc::ArraySlice)))
    } else if name == "string_to_array"@ {
        Some(Resolution::Found(Func::Scalar(ScalarFunc::StringToArray)))
    } else if name == "array_to_string"@ {
        Some(Resolution::Found(Func::Scalar(ScalarFunc::ArrayToString)))
    } else if name == "array_overlap"@ || name == "array_overlaps"@ {
        Some(Resolution::Found(Func::Scalar(ScalarFunc::ArrayOverlap)))
    } else if name == "array_contains_all"@ {
        Some(Resolution::Found(Func::Scalar(ScalarFunc::ArrayContainsAll)))
    } else if name == "struct_pack"@ {
        Some(Resolution::Found(Func::Scalar(ScalarFunc::StructPack)))
    } else if name == "struct_extract"@ {
        Some(Resolution::Found(Func::Scalar(ScalarFunc::StructExtractFunc)))
    } else if name == "union_value"@ {
        Some(Resolution::Found(Func::Scalar(ScalarFunc::UnionValueFunc)))
    } else if name == "union_tag"@ {
        Some(Resolution::Found(Func::Scalar(ScalarFunc::UnionTagFunc)))
    } else if name == "union_extract"@ {
        Some(Resolution::Found(Func::Scalar(ScalarFunc::UnionExtractFunc)))
    } else if name == "nextval"@ {
        Some(Resolution::Found(Func::Scalar(ScalarFunc::NextVal)))
    } else if name == "currval"@ {
        Some(Resolution::Found(Func::Scalar(ScalarFunc::CurrVal)))
    } else if name == "setval"@ {
        Some(Resolution::Found(Func::Scalar(ScalarFunc::SetVal)))
    } else {
        None
    }
}

fn find_typed_function(name: &str, arg_count: usize, features: Features) -> (r: Option<Resolution>)
    ensures
        r == typed_function(name@, arg_count as nat, features),
{
    if same(name, "test_uint_encode") {
        Some(Resolution::Found(Func::Scalar(ScalarFunc::TestUintEncode)))
    } else if same(name, "test_uint_decode") {
        Some(Resolution::Found(Func::Scalar(ScalarFunc::TestUintDecode)))
    } else if same(name, "test_uint_add") {
        Some(Resolution::Found(Func::Scalar(ScalarFunc::TestUintAdd)))
    } else if same(name, "test_uint_sub") {
        Some(Resolution::Found(Func::Scalar(ScalarFunc::TestUintSub)))
    } else if same(name, "test_uint_mul") {
        Some(Resolution::Found(Func::Scalar(ScalarFunc::TestUintMul)))
    } else if same(name, "test_uint_div") {
        Some(Resolution::Found(Func::Scalar(ScalarFunc::TestUintDiv)))
    } else if same(name, "test_uint_lt") {
        Some(Resolution::Found(Func::Scalar(ScalarFunc::TestUintLt)))
    } else if same(name, "test_uint_eq") {
        Some(Resolution::Found(Func::Scalar(ScalarFunc::TestUintEq)))
    } else if same(name, "test_nondet_counter") {
        Some(built_with(features.test_helper, Func::Scalar(ScalarFunc::TestNondetCounter)))
    } else if same(name, "string_reverse") || same(name, "reverse") {
        Some(Resolution::Found(Func::Scalar(ScalarFunc::StringReverse)))
    } else if same(name, "gcd") {
        Some(Resolution::Found(Func::Scalar(ScalarFunc::Gcd)))
    } else if same(name, "lcm") {
        Some(Resolution::Found(Func::Scalar(ScalarFunc::Lcm)))
    } else if same(name, "repeat") {
        Some(Resolution::Found(Func::Scalar(ScalarFunc::Repeat)))
    } else if same(name, "lpad") {
        Some(Resolution::Found(Func::Scalar(ScalarFunc::Lpad)))
    } else if same(name, "rpad") {
        Some(Resolution::Found(Func::Scalar(ScalarFunc::Rpad)))
    } else if same(name, "boolean_to_int") {
        Some(Resolution::Found(Func::Scalar(ScalarFunc::BooleanToInt)))
    } else if same(name, "int_to_boolean") {
        Some(Resolution::Found(Func::Scalar(ScalarFunc::IntToBoolean)))
    } else if same(name, "validate_ipaddr") {
        Some(Resolution::Found(Func::Scalar(ScalarFunc::ValidateIpAddr)))
    } else if same(name, "numeric_encode") {
        Some(Resolution::Found(Func::Scalar(ScalarFunc::NumericEncode)))
    } else if same(name, "numeric_decode") {
        Some(Resolution::Found(Func::Scalar(ScalarFunc::NumericDecode)))
    } else if same(name, "numeric_add") {
        Some(Resolution::Found(Func::Scalar(ScalarFunc::NumericAdd)))
    } else if same(name, "numeric_sub") {
        Some(Resolution::Found(Func::Scalar(ScalarFunc::NumericSub)))
    } else if same(name, "numeric_mul") {
        Some(Resolution::Found(Func::Scalar(ScalarFunc::NumericMul)))
    } else if same(name, "numeric_div") {
        Some(Resolution::Found(Func::Scalar(ScalarFunc::NumericDiv)))
    } else if same(name, "numeric_lt") {
        Some(Resolution::Found(Func::Scalar(ScalarFunc::NumericLt)))
    } else if same(name, "numeric_eq") {
        Some(Resolution::Found(Func::Scalar(ScalarFunc::NumericEq)))
    } else if same(name, "array") {
        Some(Resolution::Found(Func::Scalar(ScalarFunc::Array)))
    } else if same(name, "array_element") {
        Some(Resolution::Found(Func::Scalar(ScalarFunc::ArrayElement)))
    } else if same(name, "array_set_element") {
        Some(Resolution::Found(Func::Scalar(ScalarFunc::ArraySetElement)))
    } else if same(name, "array_length") || same(name, "array_upper") {
        Some(Resolution::Found(Func::Scalar(ScalarFunc::ArrayLength)))
    } else if same(name, "array_append") {
        Some(Resolution::Found(Func::Scalar(ScalarFunc::ArrayAppend)))
    } else if same(name, "array_prepend") {
        Some(Resolution::Found(Func::Scalar(ScalarFunc::ArrayPrepend)))
    } else if same(name, "array_cat") {
        Some(Resolution::Found(Func::Scalar(ScalarFunc::ArrayCat)))
    } else if same(name, "array_remove") {
        Some(Resolution::Found(Func::Scalar(ScalarFunc::ArrayRemove)))
    } else if same(name, "array_contains") {
        Some(Resolution::Found(Func::Scalar(ScalarFunc::ArrayContains)))
    } else if same(name, "array_position") {
        Some(Resolution::Found(Func::Scalar(ScalarFunc::ArrayPosition)))
    } else if same(name, "array_slice") {
        Some(Resolution::Found(Func::Scalar(ScalarFunc::ArraySlice)))
    } else if same(name, "string_to_array") {
        Some(Resolution::Found(Func::Scalar(ScalarFunc::StringToArray)))
    } else if same(name, "array_to_string") {
        Some(Resolution::Found(Func::Scalar(ScalarFunc::ArrayToString)))
    } else if same(name, "array_overlap") || same(name, "array_overlaps") {
        Some(Resolution::Found(Func::Scalar(ScalarFunc::ArrayOverlap)))
    } else if same(name, "array_contains_all") {
        Some(Resolution::Found(Func::Scalar(ScalarFunc::ArrayContainsAll)))
    } else if same(name, "struct_pack") {
        Some(Resolution::Found(Func::Scalar(ScalarFunc::StructPack)))
    } else if same(name, "struct_extract") {
        Some(Resolution::Found(Func::Scalar(ScalarFunc::StructExtractFunc)))
    } else if same(name, "union_value") {
        Some(Resolution::Found(Func::Scalar(ScalarFunc::UnionValueFunc)))
    } else if same(name, "union_tag") {
        Some(Resolution::Found(Func::Scalar(ScalarFunc::UnionTagFunc)))
    } else if same(name, "union_extract") {
        Some(Resolution::Found(Func::Scalar(ScalarFunc::UnionExtractFunc)))
    } else if same(name, "nextval") {
        Some(Resolution::Found(Func::Scalar(ScalarFunc::NextVal)))
    } else if same(name, "currval") {
        Some(Resolution::Found(Func::Scalar(ScalarFunc::CurrVal)))
    } else if same(name, "setval") {
        Some(Resolution::Found(Func::Scalar(ScalarFunc::SetVal)))
    } else {
        None
    }
}

/// What was found, or what is found otherwise.
pub open spec fn first_of(found: Option<Resolution>, otherwise: Resolution) -> Resolution {
    match found {
        Some(r) => r,
        None => otherwise,
    }
}

/// What a lower-case name and a number of arguments stand for.
pub open spec fn builtin_function(name: Seq<char>, arg_count: nat, features: Features) -> Resolution {
    first_of(
        aggregate_function(name, arg_count, features),
        first_of(
            scalar_function(name, arg_count, features),
            first_of(
                json_function(name, arg_count, features),
                first_of(
                    math_function(name, arg_count, features),
                    first_of(
                        vector_function(name, arg_count, features),
                        first_of(
                            typed_function(name, arg_count, features),
                            Resolution::Unknown,
                        ),
                    ),
                ),
            ),
        ),
    )
}

/// Resolves a name that is in lower case already.
pub fn resolve_normalized(name: &str, arg_count: usize, features: Features) -> (r: Resolution)
    ensures
        r == builtin_function(name@, arg_count as nat, features),
{
    if let Some(found) = find_aggregate_function(name, arg_count, features) {
        return found;
    }
    if let Some(found) = find_scalar_function(name, arg_count, features) {
        return found;
    }
    if let Some(found) = find_json_function(name, arg_count, features) {
        return found;
    }
    if let Some(found) = find_math_function(name, arg_count, features) {
        return found;
    }
    if let Some(found) = find_vector_function(name, arg_count, features) {
        return found;
    }
    match find_typed_function(name, arg_count, features) {
        Some(found) => found,
        None => Resolution::Unknown,
    }
}

/// Leaving parts of the function set out takes names away and changes no
/// other: what is found without them is found with them.
pub proof fn features_only_add(name: Seq<char>, arg_count: nat, fewer: Features, more: Features)
    requires
        fewer.json ==> more.json,
        fewer.fts ==> more.fts,
        fewer.fs ==> more.fs,
        fewer.test_helper ==> more.test_helper,
    ensures
        builtin_function(name, arg_count, fewer) != Resolution::Unknown ==> builtin_function(
            name,
            arg_count,
            more,
        ) == builtin_function(name, arg_count, fewer),
{
}

/// The text of the error for a wrong number of arguments.
pub open spec fn wrong_arguments_text(name: Seq<char>) -> Seq<char> {
    "wrong number of arguments to function "@ + name + "()"@
}

/// What a resolution means for a caller who wrote `name`.
pub open spec fn resolution_result(
    name: Seq<char>,
    resolution: Resolution,
    r: Result<Option<Func>, LimboError>,
) -> bool {
    match resolution {
        Resolution::Unknown => r == Ok::<Option<Func>, LimboError>(None),
        Resolution::Found(func) => r == Ok::<Option<Func>, LimboError>(Some(func)),
        Resolution::WrongArguments => r is Err && r->Err_0.is_parse_error(
            wrong_arguments_text(name),
        ),
    }
}

/// Reports a resolution to a caller who wrote `name`.
pub fn report_resolution(name: &str, resolution: Resolution) -> (r: Result<
    Option<Func>,
    LimboError,
>)
    ensures
        resolution_result(name@, resolution, r),
{
    match resolution {
        Resolution::Unknown => Ok(None),
        Resolution::Found(func) => Ok(Some(func)),
        Resolution::WrongArguments => Err(
            LimboError::ParseError(join3("wrong number of arguments to function ", name, "()")),
        ),
    }
}

/// Resolves a name against the built-in function set of an ordinary build.
pub fn resolve_builtin_function(name: &str, arg_count: usize) -> (r: Result<
    Option<Func>,
    LimboError,
>)
    ensures
        resolution_result(
            name@,
            builtin_function(text::lowercase(name@), arg_count as nat, default_features()),
            r,
        ),
{
    let normalized = to_lowercase(name);
    let features = Features { json: true, fts: true, fs: true, test_helper: false };
    report_resolution(name, resolve_normalized(normalized.as_str(), arg_count, features))
}

} // verus!
