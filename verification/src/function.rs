//! The functions that SQL text can call.

use vstd::prelude::*;

verus! {

/// Functions that fold the rows of a group into one value.
#[derive(Clone, Copy, Debug, PartialEq, Eq, Structural)]
pub enum AggFunc {
    Avg,
    Count0,
    Count,
    GroupConcat,
    Max,
    Min,
    StringAgg,
    Sum,
    Total,
    ArrayAgg,
    JsonbGroupArray,
    JsonGroupArray,
    JsonbGroupObject,
    JsonGroupObject,
}

/// Functions that are only called over a window.
#[derive(Clone, Copy, Debug, PartialEq, Eq, Structural)]
pub enum WindowFunc {
    RowNumber,
    Rank,
    DenseRank,
    FirstValue,
    LastValue,
    NthValue,
    Lag,
    Lead,
    Ntile,
    PercentRank,
    CumeDist,
}

/// Functions of one row.
#[derive(Clone, Copy, Debug, PartialEq, Eq, Structural)]
pub enum ScalarFunc {
    Max,
    Min,
    Nullif,
    TimeDiff,
    Char,
    Coalesce,
    Concat,
    ConcatWs,
    Changes,
    TotalChanges,
    Glob,
    IfNull,
    Iif,
    Instr,
    Like,
    Abs,
    Upper,
    Lower,
    Random,
    RandomBlob,
    Trim,
    LTrim,
    RTrim,
    Round,
    Length,
    OctetLength,
    Sign,
    Substr,
    Substring,
    Date,
    Time,
    DateTime,
    Typeof,
    LastInsertRowid,
    Unicode,
    Unistr,
    UnistrQuote,
    Quote,
    SqliteVersion,
    TursoVersion,
    SqliteSourceId,
    Replace,
    Likely,
    Likelihood,
    Unlikely,
    UnixEpoch,
    JulianDay,
    Hex,
    Unhex,
    GetByte,
    SetByte,
    ZeroBlob,
    Soundex,
    TableColumnsJsonArray,
    BinRecordJsonObject,
    ConnTxnId,
    IsAutocommit,
    SequenceWatermark,
    LoadExtension,
    StrfTime,
    Printf,
    TestUintEncode,
    TestUintDecode,
    TestUintAdd,
    TestUintSub,
    TestUintMul,
    TestUintDiv,
    TestUintLt,
    TestUintEq,
    TestNondetCounter,
    StringReverse,
    Gcd,
    Lcm,
    Repeat,
    Lpad,
    Rpad,
    BooleanToInt,
    IntToBoolean,
    ValidateIpAddr,
    NumericEncode,
    NumericDecode,
    NumericAdd,
    NumericSub,
    NumericMul,
    NumericDiv,
    NumericLt,
    NumericEq,
    Array,
    ArrayElement,
    ArraySetElement,
    ArrayLength,
    ArrayAppend,
    ArrayPrepend,
    ArrayCat,
    ArrayRemove,
    ArrayContains,
    ArrayPosition,
    ArraySlice,
    StringToArray,
    ArrayToString,
    ArrayOverlap,
    ArrayContainsAll,
    StructPack,
    StructExtractFunc,
    UnionValueFunc,
    UnionTagFunc,
    UnionExtractFunc,
    NextVal,
    CurrVal,
    SetVal,
}

/// Functions on JSON text and its binary form.
#[derive(Clone, Copy, Debug, PartialEq, Eq, Structural)]
pub enum JsonFunc {
    Json,
    Jsonb,
    JsonArrayLength,
    JsonArray,
    JsonbArray,
    JsonExtract,
    JsonbExtract,
    JsonObject,
    JsonbObject,
    JsonType,
    JsonErrorPosition,
    JsonValid,
    JsonPatch,
    JsonbPatch,
    JsonRemove,
    JsonbRemove,
    JsonReplace,
    JsonInsert,
    JsonbInsert,
    JsonbReplace,
    JsonPretty,
    JsonSet,
    JsonbSet,
    JsonQuote,
}

/// Functions of arithmetic.
#[derive(Clone, Copy, Debug, PartialEq, Eq, Structural)]
pub enum MathFunc {
    Acos,
    Acosh,
    Asin,
    Asinh,
    Atan,
    Atan2,
    Atanh,
    Ceil,
    Ceiling,
    Cos,
    Cosh,
    Degrees,
    Exp,
    Floor,
    Ln,
    Log,
    Log10,
    Log2,
    Mod,
    Pi,
    Pow,
    Power,
    Radians,
    Sin,
    Sinh,
    Sqrt,
    Tan,
    Tanh,
    Trunc,
}

/// Functions on vectors.
#[derive(Clone, Copy, Debug, PartialEq, Eq, Structural)]
pub enum VectorFunc {
    Vector,
    Vector32,
    Vector32Sparse,
    Vector64,
    Vector8,
    Vector1Bit,
    VectorExtract,
    VectorDistanceCos,
    VectorDistanceL2,
    VectorDistanceJaccard,
    VectorDistanceDot,
    VectorConcat,
    VectorSlice,
}

/// Functions of full-text search.
#[derive(Clone, Copy, Debug, PartialEq, Eq, Structural)]
pub enum FtsFunc {
    Score,
    Match,
    Highlight,
}

/// A function, by its family.
#[derive(Clone, Copy, Debug, PartialEq, Eq, Structural)]
pub enum Func {
    Agg(AggFunc),
    Window(WindowFunc),
    Scalar(ScalarFunc),
    Json(JsonFunc),
    Math(MathFunc),
    Vector(VectorFunc),
    Fts(FtsFunc),
}

/// What a window accumulates: an aggregate, or a function of windows alone.
#[derive(Clone, Copy, Debug, PartialEq, Eq, Structural)]
pub enum AccumulatorFunc {
    Agg(AggFunc),
    Window(WindowFunc),
}

} // verus!
