//! Checks text against the input syntax of PostgreSQL's types.

use vstd::prelude::*;
use vstd::string::StringExecFns;
use crate::pg::json;
use crate::pg::json::is_valid_json;
use crate::scan;
use crate::scan::{
    FloatText, classify_float, find_from, hex_digits, is_integer_within, longer_than, part,
    parse_integer, rfind, split_on, trimmed,
};
use crate::text;
use crate::text::{chars_of, print_u64, same, string_of, to_lowercase};

verus! {

/// A type whose input syntax is known.
#[derive(Clone, Copy, Debug, PartialEq, Eq, Structural)]
pub enum InputType {
    Boolean,
    SmallInt,
    Integer,
    BigInt,
    Real,
    DoublePrecision,
    Numeric,
    Text,
    Varchar,
    Char,
    Uuid,
    Date,
    Timestamp,
    TimestampTz,
    Time,
    Json,
    Jsonb,
    Bytea,
    Inet,
    Cidr,
    Macaddr,
    Oid,
}

/// The type of a lower-case name without a length.
pub open spec fn input_type(base: Seq<char>) -> Option<InputType> {
    if base == "bool"@ || base == "boolean"@ {
        Some(InputType::Boolean)
    } else if base == "int2"@ || base == "smallint"@ {
        Some(InputType::SmallInt)
    } else if base == "int4"@ || base == "integer"@ || base == "int"@ {
        Some(InputType::Integer)
    } else if base == "int8"@ || base == "bigint"@ {
        Some(InputType::BigInt)
    } else if base == "float4"@ || base == "real"@ {
        Some(InputType::Real)
    } else if base == "float8"@ || base == "double precision"@ {
        Some(InputType::DoublePrecision)
    } else if base == "numeric"@ || base == "decimal"@ {
        Some(InputType::Numeric)
    } else if base == "text"@ {
        Some(InputType::Text)
    } else if base == "varchar"@ || base == "character varying"@ {
        Some(InputType::Varchar)
    } else if base == "char"@ || base == "character"@ {
        Some(InputType::Char)
    } else if base == "uuid"@ {
        Some(InputType::Uuid)
    } else if base == "date"@ {
        Some(InputType::Date)
    } else if base == "timestamp"@ || base == "timestamp without time zone"@ {
        Some(InputType::Timestamp)
    } else if base == "timestamptz"@ || base == "timestamp with time zone"@ {
        Some(InputType::TimestampTz)
    } else if base == "time"@ || base == "time without time zone"@ {
        Some(InputType::Time)
    } else if base == "json"@ {
        Some(InputType::Json)
    } else if base == "jsonb"@ {
        Some(InputType::Jsonb)
    } else if base == "bytea"@ {
        Some(InputType::Bytea)
    } else if base == "inet"@ {
        Some(InputType::Inet)
    } else if base == "cidr"@ {
        Some(InputType::Cidr)
    } else if base == "macaddr"@ {
        Some(InputType::Macaddr)
    } else if base == "oid"@ {
        Some(InputType::Oid)
    } else {
        None
    }
}

fn find_input_type(base: &str) -> (r: Option<InputType>)
    ensures
        r == input_type(base@),
{
    if same(base, "bool") || same(base, "boolean") {
        Some(InputType::Boolean)
    } else if same(base, "int2") || same(base, "smallint") {
        Some(InputType::SmallInt)
    } else if same(base, "int4") || same(base, "integer") || same(base, "int") {
        Some(InputType::Integer)
    } else if same(base, "int8") || same(base, "bigint") {
        Some(InputType::BigInt)
    } else if same(base, "float4") || same(base, "real") {
        Some(InputType::Real)
    } else if same(base, "float8") || same(base, "double precision") {
        Some(InputType::DoublePrecision)
    } else if same(base, "numeric") || same(base, "decimal") {
        Some(InputType::Numeric)
    } else if same(base, "text") {
        Some(InputType::Text)
    } else if same(base, "varchar") || same(base, "character varying") {
        Some(InputType::Varchar)
    } else if same(base, "char") || same(base, "character") {
        Some(InputType::Char)
    } else if same(base, "uuid") {
        Some(InputType::Uuid)
    } else if same(base, "date") {
        Some(InputType::Date)
    } else if same(base, "timestamp") || same(base, "timestamp without time zone") {
        Some(InputType::Timestamp)
    } else if same(base, "timestamptz") || same(base, "timestamp with time zone") {
        Some(InputType::TimestampTz)
    } else if same(base, "time") || same(base, "time without time zone") {
        Some(InputType::Time)
    } else if same(base, "json") {
        Some(InputType::Json)
    } else if same(base, "jsonb") {
        Some(InputType::Jsonb)
    } else if same(base, "bytea") {
        Some(InputType::Bytea)
    } else if same(base, "inet") {
        Some(InputType::Inet)
    } else if same(base, "cidr") {
        Some(InputType::Cidr)
    } else if same(base, "macaddr") {
        Some(InputType::Macaddr)
    } else if same(base, "oid") {
        Some(InputType::Oid)
    } else {
        None
    }
}

impl InputType {
    /// The name of the type in messages.
    pub open spec fn label(self) -> Seq<char> {
        match self {
            InputType::Boolean => "boolean"@,
            InputType::SmallInt => "smallint"@,
            InputType::Integer => "integer"@,
            InputType::BigInt => "bigint"@,
            InputType::Real => "real"@,
            InputType::DoublePrecision => "double precision"@,
            InputType::Numeric => "numeric"@,
            InputType::Text => "text"@,
            InputType::Varchar => "character varying"@,
            InputType::Char => "character"@,
            InputType::Uuid => "uuid"@,
            InputType::Date => "date"@,
            InputType::Timestamp => "timestamp"@,
            InputType::TimestampTz => "timestamp with time zone"@,
            InputType::Time => "time"@,
            InputType::Json => "json"@,
            InputType::Jsonb => "jsonb"@,
            InputType::Bytea => "bytea"@,
            InputType::Inet => "inet"@,
            InputType::Cidr => "cidr"@,
            InputType::Macaddr => "macaddr"@,
            InputType::Oid => "oid"@,
        }
    }

    fn name(&self) -> (s: &'static str)
        ensures
            s@ == self.label(),
    {
        match self {
            InputType::Boolean => "boolean",
            InputType::SmallInt => "smallint",
            InputType::Integer => "integer",
            InputType::BigInt => "bigint",
            InputType::Real => "real",
            InputType::DoublePrecision => "double precision",
            InputType::Numeric => "numeric",
            InputType::Text => "text",
            InputType::Varchar => "character varying",
            InputType::Char => "character",
            InputType::Uuid => "uuid",
            InputType::Date => "date",
            InputType::Timestamp => "timestamp",
            InputType::TimestampTz => "timestamp with time zone",
            InputType::Time => "time",
            InputType::Json => "json",
            InputType::Jsonb => "jsonb",
            InputType::Bytea => "bytea",
            InputType::Inet => "inet",
            InputType::Cidr => "cidr",
            InputType::Macaddr => "macaddr",
            InputType::Oid => "oid",
        }
    }

    /// Whether malformed input is a malformed date or time.
    pub open spec fn is_datetime(self) -> bool {
        self == InputType::Date || self == InputType::Timestamp || self == InputType::TimestampTz
            || self == InputType::Time
    }

    fn datetime(&self) -> (r: bool)
        ensures
            r == self.is_datetime(),
    {
        match self {
            InputType::Date => true,
            InputType::Timestamp => true,
            InputType::TimestampTz => true,
            InputType::Time => true,
            _ => false,
        }
    }
}

/// What only floating-point arithmetic and the network library know of an
/// input.
#[derive(Clone, Copy, Debug, PartialEq, Eq, Structural)]
pub struct InputFacts {
    /// Whether the trimmed input, if it is a decimal number, is infinite in
    /// single precision.
    pub real_overflows: bool,
    /// Whether the trimmed input, if it is a decimal number, is infinite in
    /// double precision.
    pub double_overflows: bool,
    /// Whether the trimmed input up to its first slash is an IP address.
    pub is_address: bool,
}

/// What is wrong with an input.
#[derive(Clone, Copy, Debug, PartialEq, Eq, Structural)]
pub enum Verdict {
    Valid,
    Malformed,
    OutOfRange,
    TooLong(usize),
}

pub open spec fn if_well_formed(valid: bool) -> Verdict {
    if valid {
        Verdict::Valid
    } else {
        Verdict::Malformed
    }
}

fn well_formed(valid: bool) -> (v: Verdict)
    ensures
        v == if_well_formed(valid),
{
    if valid {
        Verdict::Valid
    } else {
        Verdict::Malformed
    }
}

/// Whether a lower-case text is one of the words for a truth value.
pub open spec fn is_boolean_word(s: Seq<char>) -> bool {
    s == "t"@ || s == "true"@ || s == "y"@ || s == "yes"@ || s == "on"@ || s == "1"@ || s == "f"@
        || s == "false"@ || s == "n"@ || s == "no"@ || s == "off"@ || s == "0"@
}

fn boolean_word(s: &str) -> (r: bool)
    ensures
        r == is_boolean_word(s@),
{
    same(s, "t") || same(s, "true") || same(s, "y") || same(s, "yes") || same(s, "on") || same(
        s,
        "1",
    ) || same(s, "f") || same(s, "false") || same(s, "n") || same(s, "no") || same(s, "off")
        || same(s, "0")
}

/// An integer of a type with the given bounds.
pub open spec fn integer_verdict(s: Seq<char>, low: int, high: int) -> Verdict {
    match scan::integer_text(s, true) {
        Some(n) => if low <= n <= high {
            Verdict::Valid
        } else if i64::MIN <= n <= i64::MAX {
            Verdict::OutOfRange
        } else {
            Verdict::Malformed
        },
        None => Verdict::Malformed,
    }
}

fn check_integer(v: &Vec<char>, low: i64, high: i64) -> (r: Verdict)
    ensures
        r == integer_verdict(v@, low as int, high as int),
{
    match parse_integer(v, true) {
        Some(n) => {
            if low as i128 <= n && n <= high as i128 {
                Verdict::Valid
            } else if i64::MIN as i128 <= n && n <= i64::MAX as i128 {
                Verdict::OutOfRange
            } else {
                Verdict::Malformed
            }
        },
        None => Verdict::Malformed,
    }
}

/// A 64-bit integer: one that fits 128 bits is out of range.
pub open spec fn bigint_verdict(s: Seq<char>) -> Verdict {
    match scan::integer_text(s, true) {
        Some(n) => if i64::MIN <= n <= i64::MAX {
            Verdict::Valid
        } else if i128::MIN <= n <= i128::MAX {
            Verdict::OutOfRange
        } else {
            Verdict::Malformed
        },
        None => Verdict::Malformed,
    }
}

fn check_bigint(v: &Vec<char>) -> (r: Verdict)
    ensures
        r == bigint_verdict(v@),
{
    match parse_integer(v, true) {
        Some(n) => {
            if i64::MIN as i128 <= n && n <= i64::MAX as i128 {
                Verdict::Valid
            } else {
                Verdict::OutOfRange
            }
        },
        None => Verdict::Malformed,
    }
}

/// A floating-point number: one that is infinite is out of range.
pub open spec fn float_verdict(s: Seq<char>, overflows: bool) -> Verdict {
    match scan::float_text(s) {
        FloatText::Malformed => Verdict::Malformed,
        FloatText::NotANumber => Verdict::Valid,
        FloatText::Infinity => Verdict::OutOfRange,
        FloatText::Decimal => if overflows {
            Verdict::OutOfRange
        } else {
            Verdict::Valid
        },
    }
}

fn check_float(v: &Vec<char>, overflows: bool) -> (r: Verdict)
    ensures
        r == float_verdict(v@, overflows),
{
    match classify_float(v) {
        FloatText::Malformed => Verdict::Malformed,
        FloatText::NotANumber => Verdict::Valid,
        FloatText::Infinity => Verdict::OutOfRange,
        FloatText::Decimal => {
            if overflows {
                Verdict::OutOfRange
            } else {
                Verdict::Valid
            }
        },
    }
}

/// A text without the occurrences of `c` among its first `n` characters, and
/// without the characters behind those.
pub open spec fn without(s: Seq<char>, c: char, n: nat) -> Seq<char>
    decreases n,
{
    if n == 0 {
        Seq::empty()
    } else if s[n - 1] == c {
        without(s, c, (n - 1) as nat)
    } else {
        without(s, c, (n - 1) as nat).push(s[n - 1])
    }
}

/// A UUID: 32 hexadecimal digits, with hyphens anywhere.
pub open spec fn is_uuid(s: Seq<char>) -> bool {
    let hex = without(s, '-', s.len());
    hex.len() == 32 && scan::all_hex_digits(hex)
}

fn check_uuid(v: &Vec<char>) -> (r: bool)
    ensures
        r == is_uuid(v@),
{
    let mut hex: Vec<char> = Vec::new();
    let mut i: usize = 0;
    assert(hex@ =~= Seq::<char>::empty());
    while i < v.len()
        invariant
            i <= v@.len(),
            hex@ == without(v@, '-', i as nat),
        decreases v@.len() - i,
    {
        if v[i] != '-' {
            hex.push(v[i]);
        }
        i = i + 1;
    }
    hex.len() == 32 && hex_digits(&hex)
}

/// A date: year, month and day with hyphens between them.
pub open spec fn is_date(s: Seq<char>) -> bool {
    let parts = scan::split(s, '-');
    &&& parts.len() == 3
    &&& scan::integer_within(parts[0], true, i32::MIN as int, i32::MAX as int)
    &&& scan::integer_within(parts[1], false, 1, 12)
    &&& scan::integer_within(parts[2], false, 1, 31)
}

fn check_date(v: &Vec<char>) -> (r: bool)
    ensures
        r == is_date(v@),
{
    let parts = split_on(v, '-');
    let ghost views = scan::views(parts@);
    if parts.len() != 3 {
        return false;
    }
    assert(views[0] == parts@[0]@ && views[1] == parts@[1]@ && views[2] == parts@[2]@);
    is_integer_within(&parts[0], true, i32::MIN as i128, i32::MAX as i128) && is_integer_within(
        &parts[1],
        false,
        1,
        12,
    ) && is_integer_within(&parts[2], false, 1, 31)
}

/// A time of day: hours, minutes and perhaps seconds with colons between them;
/// what stands behind a point is not looked at.
pub open spec fn is_time(s: Seq<char>) -> bool {
    let parts = scan::split(scan::split(s, '.')[0], ':');
    &&& 2 <= parts.len() <= 3
    &&& scan::integer_within(parts[0], false, 0, 23)
    &&& scan::integer_within(parts[1], false, 0, 59)
    &&& parts.len() == 3 ==> scan::integer_within(parts[2], false, 0, 59)
}

fn check_time(v: &Vec<char>) -> (r: bool)
    ensures
        r == is_time(v@),
{
    let pieces = split_on(v, '.');
    assert(scan::views(pieces@)[0] == pieces@[0]@);
    let parts = split_on(&pieces[0], ':');
    let ghost views = scan::views(parts@);
    if parts.len() < 2 || parts.len() > 3 {
        return false;
    }
    assert(views[0] == parts@[0]@ && views[1] == parts@[1]@);
    if !is_integer_within(&parts[0], false, 0, 23) || !is_integer_within(&parts[1], false, 0, 59) {
        return false;
    }
    if parts.len() == 3 {
        assert(views[2] == parts@[2]@);
        return is_integer_within(&parts[2], false, 0, 59);
    }
    true
}

/// Where the date of a timestamp ends: at the first space or `T`.
pub open spec fn date_end(s: Seq<char>) -> nat {
    let space = scan::first_index(s, ' ', 0);
    let letter = scan::first_index(s, 'T', 0);
    if space <= letter {
        space
    } else {
        letter
    }
}

/// A timestamp: a date, a space or `T`, and a time.
pub open spec fn is_timestamp(s: Seq<char>) -> bool {
    let end = date_end(s);
    end < s.len() && is_date(s.take(end as int)) && is_time(s.skip((end + 1) as int))
}

/// Whether a text is a timestamp without a time zone.
pub fn parse_timestamp_prefix(v: &Vec<char>) -> (r: bool)
    ensures
        r == is_timestamp(v@),
{
    let space: usize = find_from(v, ' ', 0);
    let letter: usize = find_from(v, 'T', 0);
    let end: usize = if space <= letter {
        space
    } else {
        letter
    };
    if end == v.len() {
        return false;
    }
    let date = part(v, 0, end);
    let time = part(v, end + 1, v.len());
    assert(date@ =~= v@.take(end as int));
    assert(time@ =~= v@.skip(end + 1));
    check_date(&date) && check_time(&time)
}

/// Where the time zone of a timestamp starts: at its last plus sign, if that
/// is not within the first bytes, which the date takes; else at its last
/// hyphen, likewise; else there is none.
pub open spec fn zone_start(s: Seq<char>) -> nat {
    match scan::last_index(s, '+', s.len()) {
        Some(i) if scan::byte_len(s.take(i as int)) > 10 => i,
        _ => match scan::last_index(s, '-', s.len()) {
            Some(i) if scan::byte_len(s.take(i as int)) > 10 => i,
            _ => s.len(),
        },
    }
}

fn find_zone(v: &Vec<char>) -> (i: usize)
    ensures
        i == zone_start(v@),
        i <= v@.len(),
{
    if let Some(i) = rfind(v, '+') {
        if longer_than(v, i, 10) {
            return i;
        }
    }
    if let Some(i) = rfind(v, '-') {
        if longer_than(v, i, 10) {
            return i;
        }
    }
    v.len()
}

/// Bytes as `\x` and an even number of hexadecimal digits, or any other text.
pub open spec fn is_bytea(s: Seq<char>) -> bool {
    s.len() >= 2 && s[0] == '\\' && s[1] == 'x' ==> s.len() % 2 == 0 && scan::all_hex_digits(
        s.skip(2),
    )
}

fn check_bytea(v: &Vec<char>) -> (r: bool)
    ensures
        r == is_bytea(v@),
{
    if v.len() >= 2 && v[0] == '\\' && v[1] == 'x' {
        let hex = part(v, 2, v.len());
        assert(hex@ =~= v@.skip(2));
        v.len() % 2 == 0 && hex_digits(&hex)
    } else {
        true
    }
}

/// An IP address, with the length of its prefix behind a slash where one is
/// given.
pub open spec fn is_inet(s: Seq<char>, is_address: bool) -> bool {
    let parts = scan::split(s, '/');
    is_address && (parts.len() > 1 ==> scan::integer_within(parts[1], false, 0, 255))
}

fn check_inet(v: &Vec<char>, is_address: bool) -> (r: bool)
    ensures
        r == is_inet(v@, is_address),
{
    let parts = split_on(v, '/');
    let ghost views = scan::views(parts@);
    if !is_address {
        return false;
    }
    if parts.len() > 1 {
        assert(views[1] == parts@[1]@);
        return is_integer_within(&parts[1], false, 0, 255);
    }
    true
}

/// A hardware address: six pairs of hexadecimal digits with colons between
/// them.
pub open spec fn is_macaddr(s: Seq<char>) -> bool {
    let parts = scan::split(s, ':');
    parts.len() == 6 && forall|i: int|
        0 <= i < 6 ==> (#[trigger] parts[i]).len() == 2 && scan::all_hex_digits(parts[i])
}

fn check_macaddr(v: &Vec<char>) -> (r: bool)
    ensures
        r == is_macaddr(v@),
{
    let parts = split_on(v, ':');
    let ghost views = scan::views(parts@);
    if parts.len() != 6 {
        return false;
    }
    let mut i: usize = 0;
    while i < 6
        invariant
            i <= 6,
            parts@.len() == 6,
            views == scan::views(parts@),
            views == scan::split(v@, ':'),
            forall|j: int|
                0 <= j < i ==> (#[trigger] views[j]).len() == 2 && scan::all_hex_digits(views[j]),
        decreases 6 - i,
    {
        assert(views[i as int] == parts@[i as int]@);
        if parts[i].len() != 2 || !hex_digits(&parts[i]) {
            return false;
        }
        i = i + 1;
    }
    true
}

/// Whether a text fits a length, where one is given.
pub open spec fn length_verdict(s: Seq<char>, max: Option<usize>) -> Verdict {
    match max {
        Some(max) => if s.len() > max {
            Verdict::TooLong(max)
        } else {
            Verdict::Valid
        },
        None => Verdict::Valid,
    }
}

fn check_length(v: &Vec<char>, max: Option<usize>) -> (r: Verdict)
    ensures
        r == length_verdict(v@, max),
{
    if let Some(max) = max {
        if v.len() > max {
            return Verdict::TooLong(max);
        }
    }
    Verdict::Valid
}

/// What is wrong with a trimmed input; `lower` is the same text in lower case.
pub open spec fn verdict(
    t: InputType,
    s: Seq<char>,
    lower: Seq<char>,
    max: Option<usize>,
    facts: InputFacts,
) -> Verdict {
    match t {
        InputType::Boolean => if_well_formed(is_boolean_word(lower)),
        InputType::SmallInt => integer_verdict(s, i16::MIN as int, i16::MAX as int),
        InputType::Integer => integer_verdict(s, i32::MIN as int, i32::MAX as int),
        InputType::BigInt => bigint_verdict(s),
        InputType::Real => float_verdict(s, facts.real_overflows),
        InputType::DoublePrecision => float_verdict(s, facts.double_overflows),
        InputType::Numeric => if_well_formed(
            scan::float_text(s) == FloatText::Decimal && !facts.double_overflows,
        ),
        InputType::Text => Verdict::Valid,
        InputType::Varchar => length_verdict(s, max),
        InputType::Char => length_verdict(s, max),
        InputType::Uuid => if_well_formed(is_uuid(s)),
        InputType::Date => if_well_formed(is_date(s)),
        InputType::Timestamp => if_well_formed(is_timestamp(s)),
        InputType::TimestampTz => if_well_formed(is_timestamp(s.take(zone_start(s) as int))),
        InputType::Time => if_well_formed(is_time(s)),
        InputType::Json => if_well_formed(json::looks_like_json(s)),
        InputType::Jsonb => if_well_formed(json::looks_like_json(s)),
        InputType::Bytea => if_well_formed(is_bytea(s)),
        InputType::Inet => if_well_formed(is_inet(s, facts.is_address)),
        InputType::Cidr => if_well_formed(is_inet(s, facts.is_address)),
        InputType::Macaddr => if_well_formed(is_macaddr(s)),
        InputType::Oid => if_well_formed(
            scan::integer_within(s, false, 0, u32::MAX as int),
        ),
    }
}

/// Checks a trimmed input; `lower` is the same text in lower case.
pub fn check_input(
    t: InputType,
    v: &Vec<char>,
    lower: &str,
    max: Option<usize>,
    facts: InputFacts,
) -> (r: Verdict)
    ensures
        r == verdict(t, v@, lower@, max, facts),
{
    match t {
        InputType::Boolean => well_formed(boolean_word(lower)),
        InputType::SmallInt => check_integer(v, i16::MIN as i64, i16::MAX as i64),
        InputType::Integer => check_integer(v, i32::MIN as i64, i32::MAX as i64),
        InputType::BigInt => check_bigint(v),
        InputType::Real => check_float(v, facts.real_overflows),
        InputType::DoublePrecision => check_float(v, facts.double_overflows),
        InputType::Numeric => well_formed(
            classify_float(v) == FloatText::Decimal && !facts.double_overflows,
        ),
        InputType::Text => Verdict::Valid,
        InputType::Varchar => check_length(v, max),
        InputType::Char => check_length(v, max),
        InputType::Uuid => well_formed(check_uuid(v)),
        InputType::Date => well_formed(check_date(v)),
        InputType::Timestamp => well_formed(parse_timestamp_prefix(v)),
        InputType::TimestampTz => {
            let end: usize = find_zone(v);
            let base = part(v, 0, end);
            assert(base@ =~= v@.take(end as int));
            well_formed(parse_timestamp_prefix(&base))
        },
        InputType::Time => well_formed(check_time(v)),
        InputType::Json => well_formed(is_valid_json(v)),
        InputType::Jsonb => well_formed(is_valid_json(v)),
        InputType::Bytea => well_formed(check_bytea(v)),
        InputType::Inet => well_formed(check_inet(v, facts.is_address)),
        InputType::Cidr => well_formed(check_inet(v, facts.is_address)),
        InputType::Macaddr => well_formed(check_macaddr(v)),
        InputType::Oid => well_formed(is_integer_within(v, false, 0, u32::MAX as i128)),
    }
}

/// A text without the occurrences of `c` at its end.
pub open spec fn strip_end(s: Seq<char>, c: char) -> Seq<char>
    decreases s.len(),
{
    if s.len() > 0 && s.last() == c {
        strip_end(s.drop_last(), c)
    } else {
        s
    }
}

/// The name of a type without the length in brackets, and that length.
pub open spec fn type_parts(name: Seq<char>) -> (Seq<char>, Option<usize>) {
    let open = scan::first_index(name, '(', 0);
    if open >= name.len() {
        (name, None)
    } else {
        let inside = scan::trim(strip_end(name.skip((open + 1) as int), ')'));
        (
            scan::trim(name.take(open as int)),
            if scan::integer_within(inside, false, 0, usize::MAX as int) {
                Some(scan::integer_text(inside, false)->Some_0 as usize)
            } else {
                None
            },
        )
    }
}

/// Takes the name of a type apart.
pub fn split_pg_type(name: &Vec<char>) -> (r: (Vec<char>, Option<usize>))
    ensures
        (r.0@, r.1) == type_parts(name@),
{
    let open: usize = find_from(name, '(', 0);
    if open == name.len() {
        let whole = part(name, 0, open);
        assert(whole@ =~= name@);
        return (whole, None);
    }
    let base = part(name, 0, open);
    assert(base@ =~= name@.take(open as int));
    let mut end: usize = name.len();
    let ghost rest = name@.skip(open + 1);
    assert(name@.subrange(open + 1, end as int) =~= rest);
    while end > open + 1 && name[end - 1] == ')'
        invariant
            open + 1 <= end <= name@.len(),
            strip_end(rest, ')') == strip_end(name@.subrange(open + 1, end as int), ')'),
        decreases end,
    {
        let ghost now = name@.subrange(open + 1, end as int);
        assert(now.last() == name@[end - 1]);
        assert(now.drop_last() =~= name@.subrange(open + 1, end - 1));
        end = end - 1;
    }
    let stripped = part(name, open + 1, end);
    proof {
        if end > open + 1 {
            assert(stripped@.last() == name@[end - 1]);
        }
    }
    let inside = trimmed(&stripped);
    let max: Option<usize> = match parse_integer(&inside, false) {
        Some(n) => {
            if 0 <= n && n <= usize::MAX as i128 {
                Some(n as usize)
            } else {
                None
            }
        },
        None => None,
    };
    (trimmed(&base), max)
}

/// The message and the error code for an input.
pub open spec fn input_error(t: Option<InputType>, v: Verdict, input: Seq<char>, pg_type: Seq<char>) -> Option<
    (Seq<char>, Seq<char>),
> {
    match t {
        None => Some(("type \""@ + pg_type + "\" does not exist"@, "42704"@)),
        Some(t) => match v {
            Verdict::Valid => None,
            Verdict::Malformed => Some(
                (
                    "invalid input syntax for type "@ + t.label() + ": \""@ + input + "\""@,
                    if t.is_datetime() {
                        "22007"@
                    } else {
                        "22P02"@
                    },
                ),
            ),
            Verdict::OutOfRange => Some(
                ("value \""@ + input + "\" is out of range for type "@ + t.label(), "22003"@),
            ),
            Verdict::TooLong(max) => Some(
                (
                    "value too long for type "@ + t.label() + "("@ + text::decimal(max as nat)
                        + ")"@,
                    "22001"@,
                ),
            ),
        },
    }
}

/// Renders what is wrong with an input.
pub fn report_input(t: Option<InputType>, v: Verdict, input: &str, pg_type: &str) -> (r: Option<
    (String, String),
>)
    ensures
        match r {
            Some((message, code)) => input_error(t, v, input@, pg_type@) == Some(
                (message@, code@),
            ),
            None => input_error(t, v, input@, pg_type@) is None,
        },
{
    match t {
        None => {
            let mut m = "type \"".to_owned();
            m.append(pg_type);
            m.append("\" does not exist");
            Some((m, "42704".to_owned()))
        },
        Some(t) => match v {
            Verdict::Valid => None,
            Verdict::Malformed => {
                let mut m = "invalid input syntax for type ".to_owned();
                m.append(t.name());
                m.append(": \"");
                m.append(input);
                m.append("\"");
                let code: String = if t.datetime() {
                    "22007".to_owned()
                } else {
                    "22P02".to_owned()
                };
                Some((m, code))
            },
            Verdict::OutOfRange => {
                let mut m = "value \"".to_owned();
                m.append(input);
                m.append("\" is out of range for type ");
                m.append(t.name());
                Some((m, "22003".to_owned()))
            },
            Verdict::TooLong(max) => {
                let mut m = "value too long for type ".to_owned();
                m.append(t.name());
                m.append("(");
                m.append(print_u64(max as u64).as_str());
                m.append(")");
                Some((m, "22001".to_owned()))
            },
        },
    }
}

/// What is wrong with an input for a type, by the type's name.
pub open spec fn pg_input_error(input: Seq<char>, pg_type: Seq<char>, facts: InputFacts) -> Option<
    (Seq<char>, Seq<char>),
> {
    let s = scan::trim(input);
    let (base, max) = type_parts(pg_type);
    let t = input_type(text::lowercase(base));
    input_error(
        t,
        match t {
            Some(t) => verdict(t, s, text::lowercase(s), max, facts),
            None => Verdict::Valid,
        },
        input,
        pg_type,
    )
}

/// Checks an input for a type: `None` if it is valid, else a message and the
/// SQL error code.
pub fn validate_pg_input(input: &str, pg_type: &str, facts: InputFacts) -> (r: Option<
    (String, String),
>)
    ensures
        match r {
            Some((message, code)) => pg_input_error(input@, pg_type@, facts) == Some(
                (message@, code@),
            ),
            None => pg_input_error(input@, pg_type@, facts) is None,
        },
{
    let s = trimmed(&chars_of(input));
    let (base, max) = split_pg_type(&chars_of(pg_type));
    let base_type = to_lowercase(string_of(base.as_slice()).as_str());
    let lower = to_lowercase(string_of(s.as_slice()).as_str());
    match find_input_type(base_type.as_str()) {
        Some(t) => {
            let v = check_input(t, &s, lower.as_str(), max, facts);
            report_input(Some(t), v, input, pg_type)
        },
        None => report_input(None, Verdict::Valid, input, pg_type),
    }
}

/// What is a small integer is an integer, and what is an integer is a big one.
pub proof fn integer_types_widen(
    s: Seq<char>,
    lower: Seq<char>,
    max: Option<usize>,
    facts: InputFacts,
)
    ensures
        verdict(InputType::SmallInt, s, lower, max, facts) == Verdict::Valid ==> verdict(
            InputType::Integer,
            s,
            lower,
            max,
            facts,
        ) == Verdict::Valid,
        verdict(InputType::Integer, s, lower, max, facts) == Verdict::Valid ==> verdict(
            InputType::BigInt,
            s,
            lower,
            max,
            facts,
        ) == Verdict::Valid,
{
}

} // verus!
