//! That functions are found by their names.

use vstd::prelude::*;
use crate::dialect::builtin;
use crate::dialect::builtin::{Features, Resolution};
use crate::function::{
    AggFunc, FtsFunc, Func, JsonFunc, MathFunc, ScalarFunc, VectorFunc, WindowFunc,
};

verus! {

/// Whether a name leads to a function or, with another number of arguments or
/// without a feature, to none; never to another function.
pub open spec fn leads_to(found: Option<Resolution>, func: Func) -> bool {
    match found {
        Some(Resolution::Found(other)) => other == func,
        Some(_) => true,
        None => false,
    }
}

proof fn aggregate_literals()
    ensures
        "avg"@.len() == 3,
        "avg"@[0] == 'a',
        "avg"@[1] == 'v',
        "max"@.len() == 3,
        "max"@[0] == 'm',
        "max"@[1] == 'a',
        "min"@.len() == 3,
        "min"@[0] == 'm',
        "min"@[1] == 'i',
        "sum"@.len() == 3,
        "sum"@[0] == 's',
        "sum"@[1] == 'u',
        "lag"@.len() == 3,
        "lag"@[0] == 'l',
        "lag"@[1] == 'a',
        "count"@.len() == 5,
        "count"@[0] == 'c',
        "total"@.len() == 5,
        "total"@[0] == 't',
        "ntile"@.len() == 5,
        "ntile"@[0] == 'n',
        "group_concat"@.len() == 12,
        "group_concat"@[0] == 'g',
        "percent_rank"@.len() == 12,
        "percent_rank"@[0] == 'p',
        "nullif"@.len() == 6,
        "string_agg"@.len() == 10,
        "string_agg"@[0] == 's',
        "row_number"@.len() == 10,
        "row_number"@[0] == 'r',
        "dense_rank"@.len() == 10,
        "dense_rank"@[0] == 'd',
        "last_value"@.len() == 10,
        "last_value"@[0] == 'l',
        "rank"@.len() == 4,
        "rank"@[0] == 'r',
        "lead"@.len() == 4,
        "lead"@[0] == 'l',
        "first_value"@.len() == 11,
        "nth_value"@.len() == 9,
        "nth_value"@[0] == 'n',
        "cume_dist"@.len() == 9,
        "cume_dist"@[0] == 'c',
        "array_agg"@.len() == 9,
        "array_agg"@[0] == 'a',
        "timediff"@.len() == 8,
        "jsonb_group_array"@.len() == 17,
        "jsonb_group_array"@[4] == 'b',
        "json_group_object"@.len() == 17,
        "json_group_object"@[4] == '_',
        "json_group_array"@.len() == 16,
        "jsonb_group_object"@.len() == 18,
{
    reveal_strlit("avg");
    reveal_strlit("count");
    reveal_strlit("group_concat");
    reveal_strlit("max");
    reveal_strlit("min");
    reveal_strlit("nullif");
    reveal_strlit("string_agg");
    reveal_strlit("sum");
    reveal_strlit("total");
    reveal_strlit("row_number");
    reveal_strlit("rank");
    reveal_strlit("dense_rank");
    reveal_strlit("first_value");
    reveal_strlit("last_value");
    reveal_strlit("nth_value");
    reveal_strlit("lag");
    reveal_strlit("lead");
    reveal_strlit("ntile");
    reveal_strlit("percent_rank");
    reveal_strlit("cume_dist");
    reveal_strlit("timediff");
    reveal_strlit("array_agg");
    reveal_strlit("jsonb_group_array");
    reveal_strlit("json_group_array");
    reveal_strlit("jsonb_group_object");
    reveal_strlit("json_group_object");
}

/// The names that lead to a function, of those that are found here.
pub open spec fn aggregate_names(f: AggFunc) -> Seq<Seq<char>> {
    match f {
        AggFunc::Avg => seq!["avg"@],
        AggFunc::GroupConcat => seq!["group_concat"@],
        AggFunc::StringAgg => seq!["string_agg"@],
        AggFunc::Sum => seq!["sum"@],
        AggFunc::Total => seq!["total"@],
        AggFunc::ArrayAgg => seq!["array_agg"@],
        AggFunc::JsonbGroupArray => seq!["jsonb_group_array"@],
        AggFunc::JsonGroupArray => seq!["json_group_array"@],
        AggFunc::JsonbGroupObject => seq!["jsonb_group_object"@],
        AggFunc::JsonGroupObject => seq!["json_group_object"@],
        _ => Seq::empty(),
    }
}

/// Each of these names leads to its own function, whatever the arguments.
#[verifier::rlimit(100)]
pub proof fn aggregate_names_lead_to_functions(
    f: AggFunc,
    i: int,
    arg_count: nat,
    features: Features,
)
    requires
        0 <= i < aggregate_names(f).len(),
    ensures
        leads_to(
            builtin::aggregate_function(aggregate_names(f)[i], arg_count, features),
            Func::Agg(f),
        ),
{
    aggregate_literals();
}

/// The names that lead to a function, of those that are found here.
pub open spec fn plain_names_among_aggregates(f: ScalarFunc) -> Seq<Seq<char>> {
    match f {
        ScalarFunc::Nullif => seq!["nullif"@],
        ScalarFunc::TimeDiff => seq!["timediff"@],
        _ => Seq::empty(),
    }
}

/// Each of these names leads to its own function, whatever the arguments.
#[verifier::rlimit(100)]
pub proof fn plain_names_among_aggregates_lead_to_functions(
    f: ScalarFunc,
    i: int,
    arg_count: nat,
    features: Features,
)
    requires
        0 <= i < plain_names_among_aggregates(f).len(),
    ensures
        leads_to(
            builtin::aggregate_function(plain_names_among_aggregates(f)[i], arg_count, features),
            Func::Scalar(f),
        ),
{
    aggregate_literals();
}

/// The names that lead to a function.
pub open spec fn window_names(f: WindowFunc) -> Seq<Seq<char>> {
    match f {
        WindowFunc::RowNumber => seq!["row_number"@],
        WindowFunc::Rank => seq!["rank"@],
        WindowFunc::DenseRank => seq!["dense_rank"@],
        WindowFunc::FirstValue => seq!["first_value"@],
        WindowFunc::LastValue => seq!["last_value"@],
        WindowFunc::NthValue => seq!["nth_value"@],
        WindowFunc::Lag => seq!["lag"@],
        WindowFunc::Lead => seq!["lead"@],
        WindowFunc::Ntile => seq!["ntile"@],
        WindowFunc::PercentRank => seq!["percent_rank"@],
        WindowFunc::CumeDist => seq!["cume_dist"@],
    }
}

/// Each of these names leads to its own function, whatever the arguments.
#[verifier::rlimit(100)]
pub proof fn window_names_lead_to_functions(
    f: WindowFunc,
    i: int,
    arg_count: nat,
    features: Features,
)
    requires
        0 <= i < window_names(f).len(),
    ensures
        leads_to(
            builtin::aggregate_function(window_names(f)[i], arg_count, features),
            Func::Window(f),
        ),
{
    aggregate_literals();
}

proof fn scalar_literals()
    ensures
        "char"@.len() == 4,
        "char"@[2] == 'a',
        "glob"@.len() == 4,
        "glob"@[2] == 'o',
        "like"@.len() == 4,
        "like"@[2] == 'k',
        "trim"@.len() == 4,
        "trim"@[2] == 'i',
        "sign"@.len() == 4,
        "sign"@[2] == 'g',
        "date"@.len() == 4,
        "date"@[2] == 't',
        "time"@.len() == 4,
        "time"@[2] == 'm',
        "chr"@.len() == 3,
        "chr"@[0] == 'c',
        "iif"@.len() == 3,
        "iif"@[0] == 'i',
        "abs"@.len() == 3,
        "abs"@[0] == 'a',
        "hex"@.len() == 3,
        "hex"@[0] == 'h',
        "coalesce"@.len() == 8,
        "coalesce"@[0] == 'c',
        "coalesce"@[1] == 'o',
        "datetime"@.len() == 8,
        "datetime"@[0] == 'd',
        "datetime"@[1] == 'a',
        "unlikely"@.len() == 8,
        "unlikely"@[0] == 'u',
        "unlikely"@[1] == 'n',
        "get_byte"@.len() == 8,
        "get_byte"@[0] == 'g',
        "get_byte"@[1] == 'e',
        "set_byte"@.len() == 8,
        "set_byte"@[0] == 's',
        "set_byte"@[1] == 'e',
        "zeroblob"@.len() == 8,
        "zeroblob"@[0] == 'z',
        "zeroblob"@[1] == 'e',
        "strftime"@.len() == 8,
        "strftime"@[0] == 's',
        "strftime"@[1] == 't',
        "concat"@.len() == 6,
        "concat"@[1] == 'o',
        "concat"@[0] == 'c',
        "ifnull"@.len() == 6,
        "ifnull"@[1] == 'f',
        "ifnull"@[0] == 'i',
        "strpos"@.len() == 6,
        "strpos"@[1] == 't',
        "strpos"@[0] == 's',
        "random"@.len() == 6,
        "random"@[1] == 'a',
        "random"@[0] == 'r',
        "length"@.len() == 6,
        "length"@[1] == 'e',
        "length"@[0] == 'l',
        "substr"@.len() == 6,
        "substr"@[1] == 'u',
        "substr"@[0] == 's',
        "typeof"@.len() == 6,
        "typeof"@[1] == 'y',
        "typeof"@[0] == 't',
        "unistr"@.len() == 6,
        "unistr"@[1] == 'n',
        "unistr"@[0] == 'u',
        "likely"@.len() == 6,
        "likely"@[1] == 'i',
        "likely"@[0] == 'l',
        "printf"@.len() == 6,
        "printf"@[1] == 'r',
        "printf"@[0] == 'p',
        "format"@.len() == 6,
        "format"@[1] == 'o',
        "format"@[0] == 'f',
        "concat_ws"@.len() == 9,
        "concat_ws"@[0] == 'c',
        "substring"@.len() == 9,
        "substring"@[0] == 's',
        "unixepoch"@.len() == 9,
        "unixepoch"@[0] == 'u',
        "julianday"@.len() == 9,
        "julianday"@[0] == 'j',
        "changes"@.len() == 7,
        "changes"@[0] == 'c',
        "unicode"@.len() == 7,
        "unicode"@[0] == 'u',
        "replace"@.len() == 7,
        "replace"@[0] == 'r',
        "soundex"@.len() == 7,
        "soundex"@[0] == 's',
        "total_changes"@.len() == 13,
        "total_changes"@[1] == 'o',
        "turso_version"@.len() == 13,
        "turso_version"@[1] == 'u',
        "is_autocommit"@.len() == 13,
        "is_autocommit"@[1] == 's',
        "if"@.len() == 2,
        "instr"@.len() == 5,
        "instr"@[2] == 's',
        "instr"@[0] == 'i',
        "upper"@.len() == 5,
        "upper"@[2] == 'p',
        "upper"@[0] == 'u',
        "lower"@.len() == 5,
        "lower"@[2] == 'w',
        "lower"@[0] == 'l',
        "btrim"@.len() == 5,
        "btrim"@[2] == 'r',
        "btrim"@[0] == 'b',
        "ltrim"@.len() == 5,
        "ltrim"@[2] == 'r',
        "ltrim"@[0] == 'l',
        "rtrim"@.len() == 5,
        "rtrim"@[2] == 'r',
        "rtrim"@[0] == 'r',
        "round"@.len() == 5,
        "round"@[2] == 'u',
        "round"@[0] == 'r',
        "quote"@.len() == 5,
        "quote"@[2] == 'o',
        "quote"@[0] == 'q',
        "unhex"@.len() == 5,
        "unhex"@[2] == 'h',
        "unhex"@[0] == 'u',
        "randomblob"@.len() == 10,
        "randomblob"@[0] == 'r',
        "likelihood"@.len() == 10,
        "likelihood"@[0] == 'l',
        "char_length"@.len() == 11,
        "char_length"@[1] == 'h',
        "conn_txn_id"@.len() == 11,
        "conn_txn_id"@[1] == 'o',
        "character_length"@.len() == 16,
        "character_length"@[0] == 'c',
        "sqlite_source_id"@.len() == 16,
        "sqlite_source_id"@[0] == 's',
        "octet_length"@.len() == 12,
        "octet_length"@[0] == 'o',
        "unistr_quote"@.len() == 12,
        "unistr_quote"@[0] == 'u',
        "last_insert_rowid"@.len() == 17,
        "sqlite_version"@.len() == 14,
        "sqlite_version"@[0] == 's',
        "load_extension"@.len() == 14,
        "load_extension"@[0] == 'l',
        "table_columns_json_array"@.len() == 24,
        "bin_record_json_object"@.len() == 22,
        "sequence_watermark_experimental"@.len() == 31,
{
    reveal_strlit("char");
    reveal_strlit("chr");
    reveal_strlit("coalesce");
    reveal_strlit("concat");
    reveal_strlit("concat_ws");
    reveal_strlit("changes");
    reveal_strlit("total_changes");
    reveal_strlit("glob");
    reveal_strlit("ifnull");
    reveal_strlit("if");
    reveal_strlit("iif");
    reveal_strlit("instr");
    reveal_strlit("strpos");
    reveal_strlit("like");
    reveal_strlit("abs");
    reveal_strlit("upper");
    reveal_strlit("lower");
    reveal_strlit("random");
    reveal_strlit("randomblob");
    reveal_strlit("trim");
    reveal_strlit("btrim");
    reveal_strlit("ltrim");
    reveal_strlit("rtrim");
    reveal_strlit("round");
    reveal_strlit("length");
    reveal_strlit("char_length");
    reveal_strlit("character_length");
    reveal_strlit("octet_length");
    reveal_strlit("sign");
    reveal_strlit("substr");
    reveal_strlit("substring");
    reveal_strlit("date");
    reveal_strlit("time");
    reveal_strlit("datetime");
    reveal_strlit("typeof");
    reveal_strlit("last_insert_rowid");
    reveal_strlit("unicode");
    reveal_strlit("unistr");
    reveal_strlit("unistr_quote");
    reveal_strlit("quote");
    reveal_strlit("sqlite_version");
    reveal_strlit("turso_version");
    reveal_strlit("sqlite_source_id");
    reveal_strlit("replace");
    reveal_strlit("likely");
    reveal_strlit("likelihood");
    reveal_strlit("unlikely");
    reveal_strlit("unixepoch");
    reveal_strlit("julianday");
    reveal_strlit("hex");
    reveal_strlit("unhex");
    reveal_strlit("get_byte");
    reveal_strlit("set_byte");
    reveal_strlit("zeroblob");
    reveal_strlit("soundex");
    reveal_strlit("table_columns_json_array");
    reveal_strlit("bin_record_json_object");
    reveal_strlit("conn_txn_id");
    reveal_strlit("is_autocommit");
    reveal_strlit("sequence_watermark_experimental");
    reveal_strlit("load_extension");
    reveal_strlit("strftime");
    reveal_strlit("printf");
    reveal_strlit("format");
}

/// The names that lead to a function, of those that are found here.
pub open spec fn scalar_names(f: ScalarFunc) -> Seq<Seq<char>> {
    match f {
        ScalarFunc::Char => seq!["char"@, "chr"@],
        ScalarFunc::Coalesce => seq!["coalesce"@],
        ScalarFunc::Concat => seq!["concat"@],
        ScalarFunc::ConcatWs => seq!["concat_ws"@],
        ScalarFunc::Changes => seq!["changes"@],
        ScalarFunc::TotalChanges => seq!["total_changes"@],
        ScalarFunc::Glob => seq!["glob"@],
        ScalarFunc::IfNull => seq!["ifnull"@],
        ScalarFunc::Iif => seq!["if"@, "iif"@],
        ScalarFunc::Instr => seq!["instr"@, "strpos"@],
        ScalarFunc::Like => seq!["like"@],
        ScalarFunc::Abs => seq!["abs"@],
        ScalarFunc::Upper => seq!["upper"@],
        ScalarFunc::Lower => seq!["lower"@],
        ScalarFunc::Random => seq!["random"@],
        ScalarFunc::RandomBlob => seq!["randomblob"@],
        ScalarFunc::Trim => seq!["trim"@, "btrim"@],
        ScalarFunc::LTrim => seq!["ltrim"@],
        ScalarFunc::RTrim => seq!["rtrim"@],
        ScalarFunc::Round => seq!["round"@],
        ScalarFunc::Length => seq!["length"@, "char_length"@, "character_length"@],
        ScalarFunc::OctetLength => seq!["octet_length"@],
        ScalarFunc::Sign => seq!["sign"@],
        ScalarFunc::Substr => seq!["substr"@],
        ScalarFunc::Substring => seq!["substring"@],
        ScalarFunc::Date => seq!["date"@],
        ScalarFunc::Time => seq!["time"@],
        ScalarFunc::DateTime => seq!["datetime"@],
        ScalarFunc::Typeof => seq!["typeof"@],
        ScalarFunc::LastInsertRowid => seq!["last_insert_rowid"@],
        ScalarFunc::Unicode => seq!["unicode"@],
        ScalarFunc::Unistr => seq!["unistr"@],
        ScalarFunc::UnistrQuote => seq!["unistr_quote"@],
        ScalarFunc::Quote => seq!["quote"@],
        ScalarFunc::SqliteVersion => seq!["sqlite_version"@],
        ScalarFunc::TursoVersion => seq!["turso_version"@],
        ScalarFunc::SqliteSourceId => seq!["sqlite_source_id"@],
        ScalarFunc::Replace => seq!["replace"@],
        ScalarFunc::Likely => seq!["likely"@],
        ScalarFunc::Likelihood => seq!["likelihood"@],
        ScalarFunc::Unlikely => seq!["unlikely"@],
        ScalarFunc::UnixEpoch => seq!["unixepoch"@],
        ScalarFunc::JulianDay => seq!["julianday"@],
        ScalarFunc::Hex => seq!["hex"@],
        ScalarFunc::Unhex => seq!["unhex"@],
        ScalarFunc::GetByte => seq!["get_byte"@],
        ScalarFunc::SetByte => seq!["set_byte"@],
        ScalarFunc::ZeroBlob => seq!["zeroblob"@],
        ScalarFunc::Soundex => seq!["soundex"@],
        ScalarFunc::TableColumnsJsonArray => seq!["table_columns_json_array"@],
        ScalarFunc::BinRecordJsonObject => seq!["bin_record_json_object"@],
        ScalarFunc::ConnTxnId => seq!["conn_txn_id"@],
        ScalarFunc::IsAutocommit => seq!["is_autocommit"@],
        ScalarFunc::SequenceWatermark => seq!["sequence_watermark_experimental"@],
        ScalarFunc::LoadExtension => seq!["load_extension"@],
        ScalarFunc::StrfTime => seq!["strftime"@],
        ScalarFunc::Printf => seq!["printf"@, "format"@],
        _ => Seq::empty(),
    }
}

/// Each of these names leads to its own function, whatever the arguments.
#[verifier::rlimit(100)]
pub proof fn scalar_names_lead_to_functions(
    f: ScalarFunc,
    i: int,
    arg_count: nat,
    features: Features,
)
    requires
        0 <= i < scalar_names(f).len(),
    ensures
        leads_to(
            builtin::scalar_function(scalar_names(f)[i], arg_count, features),
            Func::Scalar(f),
        ),
{
    scalar_literals();
}

proof fn json_literals()
    ensures
        "json"@.len() == 4,
        "jsonb"@.len() == 5,
        "json_array_length"@.len() == 17,
        "json_array"@.len() == 10,
        "json_array"@[5] == 'a',
        "json_valid"@.len() == 10,
        "json_valid"@[5] == 'v',
        "json_patch"@.len() == 10,
        "json_patch"@[5] == 'p',
        "json_quote"@.len() == 10,
        "json_quote"@[5] == 'q',
        "jsonb_array"@.len() == 11,
        "jsonb_array"@[6] == 'a',
        "json_object"@.len() == 11,
        "json_object"@[6] == 'b',
        "jsonb_patch"@.len() == 11,
        "jsonb_patch"@[6] == 'p',
        "json_remove"@.len() == 11,
        "json_remove"@[6] == 'e',
        "json_insert"@.len() == 11,
        "json_insert"@[6] == 'n',
        "json_pretty"@.len() == 11,
        "json_pretty"@[6] == 'r',
        "json_extract"@.len() == 12,
        "json_extract"@[6] == 'x',
        "jsonb_object"@.len() == 12,
        "jsonb_object"@[6] == 'o',
        "jsonb_remove"@.len() == 12,
        "jsonb_remove"@[6] == 'r',
        "json_replace"@.len() == 12,
        "json_replace"@[6] == 'e',
        "jsonb_insert"@.len() == 12,
        "jsonb_insert"@[6] == 'i',
        "jsonb_extract"@.len() == 13,
        "jsonb_extract"@[6] == 'e',
        "jsonb_replace"@.len() == 13,
        "jsonb_replace"@[6] == 'r',
        "json_type"@.len() == 9,
        "json_type"@[4] == '_',
        "jsonb_set"@.len() == 9,
        "jsonb_set"@[4] == 'b',
        "json_error_position"@.len() == 19,
        "json_set"@.len() == 8,
{
    reveal_strlit("json");
    reveal_strlit("jsonb");
    reveal_strlit("json_array_length");
    reveal_strlit("json_array");
    reveal_strlit("jsonb_array");
    reveal_strlit("json_extract");
    reveal_strlit("jsonb_extract");
    reveal_strlit("json_object");
    reveal_strlit("jsonb_object");
    reveal_strlit("json_type");
    reveal_strlit("json_error_position");
    reveal_strlit("json_valid");
    reveal_strlit("json_patch");
    reveal_strlit("jsonb_patch");
    reveal_strlit("json_remove");
    reveal_strlit("jsonb_remove");
    reveal_strlit("json_replace");
    reveal_strlit("json_insert");
    reveal_strlit("jsonb_insert");
    reveal_strlit("jsonb_replace");
    reveal_strlit("json_pretty");
    reveal_strlit("json_set");
    reveal_strlit("jsonb_set");
    reveal_strlit("json_quote");
}

/// The names that lead to a function.
pub open spec fn json_names(f: JsonFunc) -> Seq<Seq<char>> {
    match f {
        JsonFunc::Json => seq!["json"@],
        JsonFunc::Jsonb => seq!["jsonb"@],
        JsonFunc::JsonArrayLength => seq!["json_array_length"@],
        JsonFunc::JsonArray => seq!["json_array"@],
        JsonFunc::JsonbArray => seq!["jsonb_array"@],
        JsonFunc::JsonExtract => seq!["json_extract"@],
        JsonFunc::JsonbExtract => seq!["jsonb_extract"@],
        JsonFunc::JsonObject => seq!["json_object"@],
        JsonFunc::JsonbObject => seq!["jsonb_object"@],
        JsonFunc::JsonType => seq!["json_type"@],
        JsonFunc::JsonErrorPosition => seq!["json_error_position"@],
        JsonFunc::JsonValid => seq!["json_valid"@],
        JsonFunc::JsonPatch => seq!["json_patch"@],
        JsonFunc::JsonbPatch => seq!["jsonb_patch"@],
        JsonFunc::JsonRemove => seq!["json_remove"@],
        JsonFunc::JsonbRemove => seq!["jsonb_remove"@],
        JsonFunc::JsonReplace => seq!["json_replace"@],
        JsonFunc::JsonInsert => seq!["json_insert"@],
        JsonFunc::JsonbInsert => seq!["jsonb_insert"@],
        JsonFunc::JsonbReplace => seq!["jsonb_replace"@],
        JsonFunc::JsonPretty => seq!["json_pretty"@],
        JsonFunc::JsonSet => seq!["json_set"@],
        JsonFunc::JsonbSet => seq!["jsonb_set"@],
        JsonFunc::JsonQuote => seq!["json_quote"@],
    }
}

/// Each of these names leads to its own function, whatever the arguments.
#[verifier::rlimit(100)]
pub proof fn json_names_lead_to_functions(
    f: JsonFunc,
    i: int,
    arg_count: nat,
    features: Features,
)
    requires
        0 <= i < json_names(f).len(),
    ensures
        leads_to(
            builtin::json_function(json_names(f)[i], arg_count, features),
            Func::Json(f),
        ),
{
    json_literals();
}

proof fn math_literals()
    ensures
        "acos"@.len() == 4,
        "acos"@[1] == 'c',
        "acos"@[0] == 'a',
        "asin"@.len() == 4,
        "asin"@[1] == 's',
        "asin"@[0] == 'a',
        "atan"@.len() == 4,
        "atan"@[1] == 't',
        "atan"@[0] == 'a',
        "ceil"@.len() == 4,
        "ceil"@[1] == 'e',
        "ceil"@[0] == 'c',
        "cosh"@.len() == 4,
        "cosh"@[1] == 'o',
        "cosh"@[0] == 'c',
        "log2"@.len() == 4,
        "log2"@[1] == 'o',
        "log2"@[0] == 'l',
        "sinh"@.len() == 4,
        "sinh"@[1] == 'i',
        "sinh"@[0] == 's',
        "sqrt"@.len() == 4,
        "sqrt"@[1] == 'q',
        "sqrt"@[0] == 's',
        "tanh"@.len() == 4,
        "tanh"@[1] == 'a',
        "tanh"@[0] == 't',
        "acosh"@.len() == 5,
        "acosh"@[1] == 'c',
        "acosh"@[4] == 'h',
        "asinh"@.len() == 5,
        "asinh"@[1] == 's',
        "asinh"@[4] == 'h',
        "atan2"@.len() == 5,
        "atan2"@[1] == 't',
        "atan2"@[4] == '2',
        "atanh"@.len() == 5,
        "atanh"@[1] == 't',
        "atanh"@[4] == 'h',
        "floor"@.len() == 5,
        "floor"@[1] == 'l',
        "floor"@[4] == 'r',
        "log10"@.len() == 5,
        "log10"@[1] == 'o',
        "log10"@[4] == '0',
        "power"@.len() == 5,
        "power"@[1] == 'o',
        "power"@[4] == 'r',
        "trunc"@.len() == 5,
        "trunc"@[1] == 'r',
        "trunc"@[4] == 'c',
        "ceiling"@.len() == 7,
        "ceiling"@[0] == 'c',
        "degrees"@.len() == 7,
        "degrees"@[0] == 'd',
        "radians"@.len() == 7,
        "radians"@[0] == 'r',
        "cos"@.len() == 3,
        "cos"@[0] == 'c',
        "exp"@.len() == 3,
        "exp"@[0] == 'e',
        "log"@.len() == 3,
        "log"@[0] == 'l',
        "mod"@.len() == 3,
        "mod"@[0] == 'm',
        "pow"@.len() == 3,
        "pow"@[0] == 'p',
        "sin"@.len() == 3,
        "sin"@[0] == 's',
        "tan"@.len() == 3,
        "tan"@[0] == 't',
        "ln"@.len() == 2,
        "ln"@[0] == 'l',
        "pi"@.len() == 2,
        "pi"@[0] == 'p',
{
    reveal_strlit("acos");
    reveal_strlit("acosh");
    reveal_strlit("asin");
    reveal_strlit("asinh");
    reveal_strlit("atan");
    reveal_strlit("atan2");
    reveal_strlit("atanh");
    reveal_strlit("ceil");
    reveal_strlit("ceiling");
    reveal_strlit("cos");
    reveal_strlit("cosh");
    reveal_strlit("degrees");
    reveal_strlit("exp");
    reveal_strlit("floor");
    reveal_strlit("ln");
    reveal_strlit("log");
    reveal_strlit("log10");
    reveal_strlit("log2");
    reveal_strlit("mod");
    reveal_strlit("pi");
    reveal_strlit("pow");
    reveal_strlit("power");
    reveal_strlit("radians");
    reveal_strlit("sin");
    reveal_strlit("sinh");
    reveal_strlit("sqrt");
    reveal_strlit("tan");
    reveal_strlit("tanh");
    reveal_strlit("trunc");
}

/// The names that lead to a function.
pub open spec fn math_names(f: MathFunc) -> Seq<Seq<char>> {
    match f {
        MathFunc::Acos => seq!["acos"@],
        MathFunc::Acosh => seq!["acosh"@],
        MathFunc::Asin => seq!["asin"@],
        MathFunc::Asinh => seq!["asinh"@],
        MathFunc::Atan => seq!["atan"@],
        MathFunc::Atan2 => seq!["atan2"@],
        MathFunc::Atanh => seq!["atanh"@],
        MathFunc::Ceil => seq!["ceil"@],
        MathFunc::Ceiling => seq!["ceiling"@],
        MathFunc::Cos => seq!["cos"@],
        MathFunc::Cosh => seq!["cosh"@],
        MathFunc::Degrees => seq!["degrees"@],
        MathFunc::Exp => seq!["exp"@],
        MathFunc::Floor => seq!["floor"@],
        MathFunc::Ln => seq!["ln"@],
        MathFunc::Log => seq!["log"@],
        MathFunc::Log10 => seq!["log10"@],
        MathFunc::Log2 => seq!["log2"@],
        MathFunc::Mod => seq!["mod"@],
        MathFunc::Pi => seq!["pi"@],
        MathFunc::Pow => seq!["pow"@],
        MathFunc::Power => seq!["power"@],
        MathFunc::Radians => seq!["radians"@],
        MathFunc::Sin => seq!["sin"@],
        MathFunc::Sinh => seq!["sinh"@],
        MathFunc::Sqrt => seq!["sqrt"@],
        MathFunc::Tan => seq!["tan"@],
        MathFunc::Tanh => seq!["tanh"@],
        MathFunc::Trunc => seq!["trunc"@],
    }
}

/// Each of these names leads to its own function, whatever the arguments.
#[verifier::rlimit(100)]
pub proof fn math_names_lead_to_functions(
    f: MathFunc,
    i: int,
    arg_count: nat,
    features: Features,
)
    requires
        0 <= i < math_names(f).len(),
    ensures
        leads_to(
            builtin::math_function(math_names(f)[i], arg_count, features),
            Func::Math(f),
        ),
{
    math_literals();
}

proof fn vector_literals()
    ensures
        "vector"@.len() == 6,
        "vector32"@.len() == 8,
        "vector32"@[6] == '3',
        "vector64"@.len() == 8,
        "vector64"@[6] == '6',
        "vector32_sparse"@.len() == 15,
        "vector8"@.len() == 7,
        "vector1bit"@.len() == 10,
        "vector_extract"@.len() == 14,
        "vector_distance_cos"@.len() == 19,
        "vector_distance_cos"@[16] == 'c',
        "vector_distance_dot"@.len() == 19,
        "vector_distance_dot"@[16] == 'd',
        "vector_distance_l2"@.len() == 18,
        "vector_distance_jaccard"@.len() == 23,
        "vector_concat"@.len() == 13,
        "vector_concat"@[0] == 'v',
        "fts_highlight"@.len() == 13,
        "fts_highlight"@[0] == 'f',
        "vector_slice"@.len() == 12,
        "fts_score"@.len() == 9,
        "fts_score"@[4] == 's',
        "fts_match"@.len() == 9,
        "fts_match"@[4] == 'm',
{
    reveal_strlit("vector");
    reveal_strlit("vector32");
    reveal_strlit("vector32_sparse");
    reveal_strlit("vector64");
    reveal_strlit("vector8");
    reveal_strlit("vector1bit");
    reveal_strlit("vector_extract");
    reveal_strlit("vector_distance_cos");
    reveal_strlit("vector_distance_l2");
    reveal_strlit("vector_distance_jaccard");
    reveal_strlit("vector_distance_dot");
    reveal_strlit("vector_concat");
    reveal_strlit("vector_slice");
    reveal_strlit("fts_score");
    reveal_strlit("fts_match");
    reveal_strlit("fts_highlight");
}

/// The names that lead to a function.
pub open spec fn vector_names(f: VectorFunc) -> Seq<Seq<char>> {
    match f {
        VectorFunc::Vector => seq!["vector"@],
        VectorFunc::Vector32 => seq!["vector32"@],
        VectorFunc::Vector32Sparse => seq!["vector32_sparse"@],
        VectorFunc::Vector64 => seq!["vector64"@],
        VectorFunc::Vector8 => seq!["vector8"@],
        VectorFunc::Vector1Bit => seq!["vector1bit"@],
        VectorFunc::VectorExtract => seq!["vector_extract"@],
        VectorFunc::VectorDistanceCos => seq!["vector_distance_cos"@],
        VectorFunc::VectorDistanceL2 => seq!["vector_distance_l2"@],
        VectorFunc::VectorDistanceJaccard => seq!["vector_distance_jaccard"@],
        VectorFunc::VectorDistanceDot => seq!["vector_distance_dot"@],
        VectorFunc::VectorConcat => seq!["vector_concat"@],
        VectorFunc::VectorSlice => seq!["vector_slice"@],
    }
}

/// Each of these names leads to its own function, whatever the arguments.
#[verifier::rlimit(100)]
pub proof fn vector_names_lead_to_functions(
    f: VectorFunc,
    i: int,
    arg_count: nat,
    features: Features,
)
    requires
        0 <= i < vector_names(f).len(),
    ensures
        leads_to(
            builtin::vector_function(vector_names(f)[i], arg_count, features),
            Func::Vector(f),
        ),
{
    vector_literals();
}

/// The names that lead to a function.
pub open spec fn search_names(f: FtsFunc) -> Seq<Seq<char>> {
    match f {
        FtsFunc::Score => seq!["fts_score"@],
        FtsFunc::Match => seq!["fts_match"@],
        FtsFunc::Highlight => seq!["fts_highlight"@],
    }
}

/// Each of these names leads to its own function, whatever the arguments.
#[verifier::rlimit(100)]
pub proof fn search_names_lead_to_functions(
    f: FtsFunc,
    i: int,
    arg_count: nat,
    features: Features,
)
    requires
        0 <= i < search_names(f).len(),
    ensures
        leads_to(
            builtin::vector_function(search_names(f)[i], arg_count, features),
            Func::Fts(f),
        ),
{
    vector_literals();
}

proof fn typed_literals()
    ensures
        "test_uint_encode"@.len() == 16,
        "test_uint_encode"@[10] == 'e',
        "test_uint_decode"@.len() == 16,
        "test_uint_decode"@[10] == 'd',
        "test_uint_add"@.len() == 13,
        "test_uint_add"@[10] == 'a',
        "test_uint_add"@[6] == 'i',
        "test_uint_sub"@.len() == 13,
        "test_uint_sub"@[10] == 's',
        "test_uint_sub"@[6] == 'i',
        "test_uint_mul"@.len() == 13,
        "test_uint_mul"@[10] == 'm',
        "test_uint_mul"@[6] == 'i',
        "test_uint_div"@.len() == 13,
        "test_uint_div"@[10] == 'd',
        "test_uint_div"@[6] == 'i',
        "array_element"@.len() == 13,
        "array_element"@[10] == 'e',
        "array_element"@[6] == 'e',
        "array_prepend"@.len() == 13,
        "array_prepend"@[10] == 'e',
        "array_prepend"@[6] == 'p',
        "array_overlap"@.len() == 13,
        "array_overlap"@[10] == 'l',
        "array_overlap"@[6] == 'o',
        "union_extract"@.len() == 13,
        "union_extract"@[10] == 'a',
        "union_extract"@[6] == 'e',
        "test_uint_lt"@.len() == 12,
        "test_uint_lt"@[10] == 'l',
        "test_uint_eq"@.len() == 12,
        "test_uint_eq"@[10] == 'e',
        "array_length"@.len() == 12,
        "array_length"@[10] == 't',
        "array_append"@.len() == 12,
        "array_append"@[10] == 'n',
        "array_remove"@.len() == 12,
        "array_remove"@[10] == 'v',
        "test_nondet_counter"@.len() == 19,
        "string_reverse"@.len() == 14,
        "string_reverse"@[8] == 'e',
        "string_reverse"@[0] == 's',
        "boolean_to_int"@.len() == 14,
        "boolean_to_int"@[8] == 't',
        "boolean_to_int"@[0] == 'b',
        "int_to_boolean"@.len() == 14,
        "int_to_boolean"@[8] == 'o',
        "int_to_boolean"@[0] == 'i',
        "numeric_encode"@.len() == 14,
        "numeric_encode"@[8] == 'e',
        "numeric_encode"@[0] == 'n',
        "numeric_decode"@.len() == 14,
        "numeric_decode"@[8] == 'd',
        "numeric_decode"@[0] == 'n',
        "array_contains"@.len() == 14,
        "array_contains"@[8] == 'n',
        "array_contains"@[0] == 'a',
        "array_position"@.len() == 14,
        "array_position"@[8] == 's',
        "array_position"@[0] == 'a',
        "array_overlaps"@.len() == 14,
        "array_overlaps"@[8] == 'e',
        "array_overlaps"@[0] == 'a',
        "struct_extract"@.len() == 14,
        "struct_extract"@[8] == 'x',
        "struct_extract"@[0] == 's',
        "reverse"@.len() == 7,
        "reverse"@[0] == 'r',
        "nextval"@.len() == 7,
        "nextval"@[0] == 'n',
        "currval"@.len() == 7,
        "currval"@[0] == 'c',
        "gcd"@.len() == 3,
        "gcd"@[0] == 'g',
        "lcm"@.len() == 3,
        "lcm"@[0] == 'l',
        "repeat"@.len() == 6,
        "repeat"@[0] == 'r',
        "setval"@.len() == 6,
        "setval"@[0] == 's',
        "lpad"@.len() == 4,
        "lpad"@[0] == 'l',
        "rpad"@.len() == 4,
        "rpad"@[0] == 'r',
        "validate_ipaddr"@.len() == 15,
        "validate_ipaddr"@[0] == 'v',
        "string_to_array"@.len() == 15,
        "string_to_array"@[0] == 's',
        "array_to_string"@.len() == 15,
        "array_to_string"@[0] == 'a',
        "numeric_add"@.len() == 11,
        "numeric_add"@[8] == 'a',
        "numeric_add"@[0] == 'n',
        "numeric_sub"@.len() == 11,
        "numeric_sub"@[8] == 's',
        "numeric_sub"@[0] == 'n',
        "numeric_mul"@.len() == 11,
        "numeric_mul"@[8] == 'm',
        "numeric_mul"@[0] == 'n',
        "numeric_div"@.len() == 11,
        "numeric_div"@[8] == 'd',
        "numeric_div"@[0] == 'n',
        "array_upper"@.len() == 11,
        "array_upper"@[8] == 'p',
        "array_upper"@[0] == 'a',
        "array_slice"@.len() == 11,
        "array_slice"@[8] == 'i',
        "array_slice"@[0] == 'a',
        "struct_pack"@.len() == 11,
        "struct_pack"@[8] == 'a',
        "struct_pack"@[0] == 's',
        "union_value"@.len() == 11,
        "union_value"@[8] == 'l',
        "union_value"@[0] == 'u',
        "numeric_lt"@.len() == 10,
        "numeric_lt"@[8] == 'l',
        "numeric_eq"@.len() == 10,
        "numeric_eq"@[8] == 'e',
        "array"@.len() == 5,
        "array_set_element"@.len() == 17,
        "array_cat"@.len() == 9,
        "array_cat"@[0] == 'a',
        "union_tag"@.len() == 9,
        "union_tag"@[0] == 'u',
        "array_contains_all"@.len() == 18,
{
    reveal_strlit("test_uint_encode");
    reveal_strlit("test_uint_decode");
    reveal_strlit("test_uint_add");
    reveal_strlit("test_uint_sub");
    reveal_strlit("test_uint_mul");
    reveal_strlit("test_uint_div");
    reveal_strlit("test_uint_lt");
    reveal_strlit("test_uint_eq");
    reveal_strlit("test_nondet_counter");
    reveal_strlit("string_reverse");
    reveal_strlit("reverse");
    reveal_strlit("gcd");
    reveal_strlit("lcm");
    reveal_strlit("repeat");
    reveal_strlit("lpad");
    reveal_strlit("rpad");
    reveal_strlit("boolean_to_int");
    reveal_strlit("int_to_boolean");
    reveal_strlit("validate_ipaddr");
    reveal_strlit("numeric_encode");
    reveal_strlit("numeric_decode");
    reveal_strlit("numeric_add");
    reveal_strlit("numeric_sub");
    reveal_strlit("numeric_mul");
    reveal_strlit("numeric_div");
    reveal_strlit("numeric_lt");
    reveal_strlit("numeric_eq");
    reveal_strlit("array");
    reveal_strlit("array_element");
    reveal_strlit("array_set_element");
    reveal_strlit("array_length");
    reveal_strlit("array_upper");
    reveal_strlit("array_append");
    reveal_strlit("array_prepend");
    reveal_strlit("array_cat");
    reveal_strlit("array_remove");
    reveal_strlit("array_contains");
    reveal_strlit("array_position");
    reveal_strlit("array_slice");
    reveal_strlit("string_to_array");
    reveal_strlit("array_to_string");
    reveal_strlit("array_overlap");
    reveal_strlit("array_overlaps");
    reveal_strlit("array_contains_all");
    reveal_strlit("struct_pack");
    reveal_strlit("struct_extract");
    reveal_strlit("union_value");
    reveal_strlit("union_tag");
    reveal_strlit("union_extract");
    reveal_strlit("nextval");
    reveal_strlit("currval");
    reveal_strlit("setval");
}

/// The names that lead to a function, of those that are found here.
pub open spec fn typed_names(f: ScalarFunc) -> Seq<Seq<char>> {
    match f {
        ScalarFunc::TestUintEncode => seq!["test_uint_encode"@],
        ScalarFunc::TestUintDecode => seq!["test_uint_decode"@],
        ScalarFunc::TestUintAdd => seq!["test_uint_add"@],
        ScalarFunc::TestUintSub => seq!["test_uint_sub"@],
        ScalarFunc::TestUintMul => seq!["test_uint_mul"@],
        ScalarFunc::TestUintDiv => seq!["test_uint_div"@],
        ScalarFunc::TestUintLt => seq!["test_uint_lt"@],
        ScalarFunc::TestUintEq => seq!["test_uint_eq"@],
        ScalarFunc::TestNondetCounter => seq!["test_nondet_counter"@],
        ScalarFunc::StringReverse => seq!["string_reverse"@, "reverse"@],
        ScalarFunc::Gcd => seq!["gcd"@],
        ScalarFunc::Lcm => seq!["lcm"@],
        ScalarFunc::Repeat => seq!["repeat"@],
        ScalarFunc::Lpad => seq!["lpad"@],
        ScalarFunc::Rpad => seq!["rpad"@],
        ScalarFunc::BooleanToInt => seq!["boolean_to_int"@],
        ScalarFunc::IntToBoolean => seq!["int_to_boolean"@],
        ScalarFunc::ValidateIpAddr => seq!["validate_ipaddr"@],
        ScalarFunc::NumericEncode => seq!["numeric_encode"@],
        ScalarFunc::NumericDecode => seq!["numeric_decode"@],
        ScalarFunc::NumericAdd => seq!["numeric_add"@],
        ScalarFunc::NumericSub => seq!["numeric_sub"@],
        ScalarFunc::NumericMul => seq!["numeric_mul"@],
        ScalarFunc::NumericDiv => seq!["numeric_div"@],
        ScalarFunc::NumericLt => seq!["numeric_lt"@],
        ScalarFunc::NumericEq => seq!["numeric_eq"@],
        ScalarFunc::Array => seq!["array"@],
        ScalarFunc::ArrayElement => seq!["array_element"@],
        ScalarFunc::ArraySetElement => seq!["array_set_element"@],
        ScalarFunc::ArrayLength => seq!["array_length"@, "array_upper"@],
        ScalarFunc::ArrayAppend => seq!["array_append"@],
        ScalarFunc::ArrayPrepend => seq!["array_prepend"@],
        ScalarFunc::ArrayCat => seq!["array_cat"@],
        ScalarFunc::ArrayRemove => seq!["array_remove"@],
        ScalarFunc::ArrayContains => seq!["array_contains"@],
        ScalarFunc::ArrayPosition => seq!["array_position"@],
        ScalarFunc::ArraySlice => seq!["array_slice"@],
        ScalarFunc::StringToArray => seq!["string_to_array"@],
        ScalarFunc::ArrayToString => seq!["array_to_string"@],
        ScalarFunc::ArrayOverlap => seq!["array_overlap"@, "array_overlaps"@],
        ScalarFunc::ArrayContainsAll => seq!["array_contains_all"@],
        ScalarFunc::StructPack => seq!["struct_pack"@],
        ScalarFunc::StructExtractFunc => seq!["struct_extract"@],
        ScalarFunc::UnionValueFunc => seq!["union_value"@],
        ScalarFunc::UnionTagFunc => seq!["union_tag"@],
        ScalarFunc::UnionExtractFunc => seq!["union_extract"@],
        ScalarFunc::NextVal => seq!["nextval"@],
        ScalarFunc::CurrVal => seq!["currval"@],
        ScalarFunc::SetVal => seq!["setval"@],
        _ => Seq::empty(),
    }
}

/// Each of these names leads to its own function, whatever the arguments.
#[verifier::rlimit(100)]
pub proof fn typed_names_lead_to_functions(
    f: ScalarFunc,
    i: int,
    arg_count: nat,
    features: Features,
)
    requires
        0 <= i < typed_names(f).len(),
    ensures
        leads_to(
            builtin::typed_function(typed_names(f)[i], arg_count, features),
            Func::Scalar(f),
        ),
{
    typed_literals();
}

/// How many arguments a window function takes.
pub open spec fn takes(f: WindowFunc, arg_count: nat) -> bool {
    match f {
        WindowFunc::Lag | WindowFunc::Lead => 1 <= arg_count <= 3,
        WindowFunc::NthValue => arg_count == 2,
        WindowFunc::FirstValue | WindowFunc::LastValue | WindowFunc::Ntile => arg_count == 1,
        _ => arg_count == 0,
    }
}

/// A window function is found exactly with the arguments that it takes.
#[verifier::rlimit(100)]
pub proof fn window_functions_take_their_arguments(
    f: WindowFunc,
    arg_count: nat,
    features: Features,
)
    ensures
        window_names(f).len() == 1,
        builtin::aggregate_function(window_names(f)[0], arg_count, features) == Some(
            if takes(f, arg_count) {
                Resolution::Found(Func::Window(f))
            } else {
                Resolution::WrongArguments
            },
        ),
{
    aggregate_literals();
}

/// Rows are counted with an argument or without one. The greatest and the least of
/// one argument are those of all rows, of more those of the arguments.
#[verifier::rlimit(100)]
pub proof fn arguments_choose_the_function(arg_count: nat, features: Features)
    ensures
        builtin::aggregate_function("count"@, arg_count, features) == Some(
            if arg_count == 0 {
                Resolution::Found(Func::Agg(AggFunc::Count0))
            } else if arg_count == 1 {
                Resolution::Found(Func::Agg(AggFunc::Count))
            } else {
                Resolution::WrongArguments
            },
        ),
        builtin::aggregate_function("max"@, arg_count, features) == Some(
            if arg_count == 0 {
                Resolution::WrongArguments
            } else if arg_count == 1 {
                Resolution::Found(Func::Agg(AggFunc::Max))
            } else {
                Resolution::Found(Func::Scalar(ScalarFunc::Max))
            },
        ),
        builtin::aggregate_function("min"@, arg_count, features) == Some(
            if arg_count == 0 {
                Resolution::WrongArguments
            } else if arg_count == 1 {
                Resolution::Found(Func::Agg(AggFunc::Min))
            } else {
                Resolution::Found(Func::Scalar(ScalarFunc::Min))
            },
        ),
{
    aggregate_literals();
}

} // verus!
