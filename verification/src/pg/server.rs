//! Parameters that come over the PostgreSQL wire, and values that go out over
//! it.

use vstd::prelude::*;
use vstd::string::StringExecFns;
use crate::pg::types::PgType;
use crate::scan;
use crate::scan::FloatText;
use crate::text;
use crate::text::{chars_of, ends_with, join2, print_u64, same, starts_with, string_of, text_of_utf8};
use crate::value::{Real, Value, ValueModel};

verus! {

/// The value of a hexadecimal digit.
pub open spec fn hex_value(b: u8) -> Option<u8> {
    if 48 <= b <= 57 {
        Some((b - 48) as u8)
    } else if 65 <= b <= 70 {
        Some((b - 55) as u8)
    } else if 97 <= b <= 102 {
        Some((b - 87) as u8)
    } else {
        None
    }
}

/// The byte that two characters stand for: two digits, or one behind a plus
/// sign.
pub open spec fn hex_pair(high: u8, low: u8) -> Option<u8> {
    match (hex_value(high), hex_value(low)) {
        (Some(h), Some(l)) => Some((16 * h + l) as u8),
        (None, Some(l)) => if high == 43 {
            Some(l)
        } else {
            None
        },
        _ => None,
    }
}

/// Reads pairs from `at` on, behind the bytes `acc`. Where a pair stands for no
/// byte, the result is its position.
pub open spec fn hex_bytes(s: Seq<u8>, at: nat, acc: Seq<u8>) -> Result<Seq<u8>, nat>
    decreases s.len() - at,
{
    if at + 2 > s.len() {
        Ok(acc)
    } else {
        match hex_pair(s[at as int], s[at as int + 1]) {
            None => Err(at),
            Some(b) => hex_bytes(s, at + 2, acc.push(b)),
        }
    }
}

/// Whether no character lies across the end of a pair, up to the first pair
/// that stands for no byte.
pub open spec fn pairs_keep_characters(s: Seq<u8>, at: nat) -> bool
    decreases s.len() - at,
{
    at + 2 > s.len() || (vstd::utf8::is_char_boundary(s, at as int + 2) && (hex_pair(
        s[at as int],
        s[at as int + 1],
    ) is Some ==> pairs_keep_characters(s, at + 2)))
}

/// Whether a text can be taken apart into pairs of bytes.
pub open spec fn readable_hex(hex: Seq<char>) -> bool {
    let bytes = vstd::utf8::encode_utf8(hex);
    bytes.len() % 2 == 0 ==> pairs_keep_characters(bytes, 0)
}

/// What a text in hexadecimal stands for, or what is wrong with it.
pub open spec fn hex_decoding(hex: Seq<char>) -> Result<Seq<u8>, Seq<char>> {
    let bytes = vstd::utf8::encode_utf8(hex);
    if bytes.len() % 2 != 0 {
        Err("odd-length hex string"@)
    } else {
        match hex_bytes(bytes, 0, Seq::empty()) {
            Ok(b) => Ok(b),
            Err(i) => Err(
                "invalid hex at position "@ + text::decimal(i) + ": "@
                    + "invalid digit found in string"@,
            ),
        }
    }
}

fn digit_value(b: u8) -> (r: Option<u8>)
    ensures
        r == hex_value(b),
        r matches Some(v) ==> v < 16,
{
    if 48 <= b && b <= 57 {
        Some(b - 48)
    } else if 65 <= b && b <= 70 {
        Some(b - 55)
    } else if 97 <= b && b <= 102 {
        Some(b - 87)
    } else {
        None
    }
}

fn pair_value(high: u8, low: u8) -> (r: Option<u8>)
    ensures
        r == hex_pair(high, low),
{
    match (digit_value(high), digit_value(low)) {
        (Some(h), Some(l)) => Some(16 * h + l),
        (None, Some(l)) => if high == 43 {
            Some(l)
        } else {
            None
        },
        _ => None,
    }
}

/// Whether a text can be given to [`decode_hex`].
pub fn is_readable_hex(hex: &str) -> (r: bool)
    ensures
        r == readable_hex(hex@),
{
    let bytes = hex.as_bytes();
    if bytes.len() % 2 != 0 {
        return true;
    }
    let n: usize = bytes.len();
    let mut at: usize = 0;
    while at < n
        invariant
            at <= n,
            at % 2 == 0,
            n % 2 == 0,
            n == bytes@.len(),
            bytes@ == vstd::utf8::encode_utf8(hex@),
            pairs_keep_characters(bytes@, 0) == pairs_keep_characters(bytes@, at as nat),
        decreases n - at,
    {
        if !hex.is_char_boundary(at + 2) {
            return false;
        }
        if pair_value(bytes[at], bytes[at + 1]).is_none() {
            return true;
        }
        at = at + 2;
    }
    true
}

/// Decodes a text in hexadecimal.
pub fn decode_hex(hex: &str) -> (r: Result<Vec<u8>, String>)
    requires
        readable_hex(hex@),
    ensures
        match r {
            Ok(b) => hex_decoding(hex@) == Ok::<Seq<u8>, Seq<char>>(b@),
            Err(e) => hex_decoding(hex@) == Err::<Seq<u8>, Seq<char>>(e@),
        },
{
    let bytes = hex.as_bytes();
    let n: usize = bytes.len();
    if n % 2 != 0 {
        return Err("odd-length hex string".to_owned());
    }
    let mut decoded: Vec<u8> = Vec::new();
    let mut at: usize = 0;
    assert(decoded@ =~= Seq::<u8>::empty());
    while at < n
        invariant
            at <= n,
            at % 2 == 0,
            n % 2 == 0,
            n == bytes@.len(),
            bytes@ == vstd::utf8::encode_utf8(hex@),
            hex_bytes(bytes@, 0, Seq::empty()) == hex_bytes(bytes@, at as nat, decoded@),
        decreases n - at,
    {
        match pair_value(bytes[at], bytes[at + 1]) {
            None => {
                let mut message = "invalid hex at position ".to_owned();
                message.append(print_u64(at as u64).as_str());
                message.append(": ");
                message.append("invalid digit found in string");
                return Err(message);
            },
            Some(b) => {
                decoded.push(b);
            },
        }
        at = at + 2;
    }
    Ok(decoded)
}

/// What a text means for a boolean.
pub open spec fn boolean_text(s: Seq<char>) -> Option<i64> {
    if s == "t"@ || s == "true"@ || s == "TRUE"@ || s == "1"@ || s == "yes"@ || s == "on"@ {
        Some(1)
    } else if s == "f"@ || s == "false"@ || s == "FALSE"@ || s == "0"@ || s == "no"@ || s
        == "off"@ {
        Some(0)
    } else {
        None
    }
}

fn parse_boolean(s: &str) -> (r: Option<i64>)
    ensures
        r == boolean_text(s@),
{
    if same(s, "t") || same(s, "true") || same(s, "TRUE") || same(s, "1") || same(s, "yes")
        || same(s, "on") {
        Some(1)
    } else if same(s, "f") || same(s, "false") || same(s, "FALSE") || same(s, "0") || same(
        s,
        "no",
    ) || same(s, "off") {
        Some(0)
    } else {
        None
    }
}

/// The value of a parameter whose type is not known: a number where the text is
/// one, then a boolean, then the text. `double` is what the text is as a number
/// in double precision, where it is one.
pub open spec fn inferred_value(s: Seq<char>, double: Real) -> ValueModel {
    let lower = text::ascii_lower(s);
    if scan::i64_text(s) is Ok {
        ValueModel::Integer(scan::i64_text(s)->Ok_0)
    } else if scan::float_text(s) != FloatText::Malformed {
        ValueModel::Real(double)
    } else if lower == "true"@ || lower == "t"@ {
        ValueModel::Integer(1)
    } else if lower == "false"@ || lower == "f"@ {
        ValueModel::Integer(0)
    } else {
        ValueModel::Text(s)
    }
}

/// The value of a parameter by its type, or what is wrong with it. `bytes` are
/// the bytes of the text, and `double` is what the text is as a number in double
/// precision, where it is one.
pub open spec fn typed_value(s: Seq<char>, bytes: Seq<u8>, pg_type: PgType, double: Real) -> Result<
    ValueModel,
    Seq<char>,
> {
    match pg_type {
        PgType::Int2 | PgType::Int4 | PgType::Int8 => match scan::i64_text(s) {
            Ok(n) => Ok(ValueModel::Integer(n)),
            Err(e) => Err("invalid integer parameter: "@ + e.text()),
        },
        PgType::Float4 | PgType::Float8 | PgType::Numeric => if scan::float_text(s)
            != FloatText::Malformed {
            Ok(ValueModel::Real(double))
        } else if s.len() == 0 {
            Err("invalid float parameter: "@ + "cannot parse float from empty string"@)
        } else {
            Err("invalid float parameter: "@ + "invalid float literal"@)
        },
        PgType::Bool => match boolean_text(s) {
            Some(n) => Ok(ValueModel::Integer(n)),
            None => Err("invalid boolean parameter: "@ + s),
        },
        PgType::Bytea => if text::starts(s, "\\x"@) {
            match hex_decoding(s.skip("\\x"@.len() as int)) {
                Ok(b) => Ok(ValueModel::Blob(b)),
                Err(e) => Err("invalid bytea hex parameter: "@ + e),
            }
        } else {
            Ok(ValueModel::Blob(bytes))
        },
        PgType::Unknown => Ok(inferred_value(s, double)),
        _ => Ok(ValueModel::Text(s)),
    }
}

/// Whether the text of a parameter can be read by its type: the digits of a byte
/// string can be taken apart into pairs.
pub open spec fn readable_text(s: Seq<char>, pg_type: PgType) -> bool {
    pg_type == PgType::Bytea && text::starts(s, "\\x"@) ==> readable_hex(
        s.skip("\\x"@.len() as int),
    )
}

fn infer_value(s: &str, double: Real) -> (r: Value)
    ensures
        r@ == inferred_value(s@, double),
{
    let v = chars_of(s);
    match scan::parse_i64(&v) {
        Ok(n) => return Value::Integer(n),
        Err(_) => {},
    }
    if scan::classify_float(&v) != FloatText::Malformed {
        return Value::Real(double);
    }
    assert(v@.skip(0) =~= v@);
    let lower = string_of(scan::lower_ascii(&v, 0).as_slice());
    if same(lower.as_str(), "true") || same(lower.as_str(), "t") {
        Value::Integer(1)
    } else if same(lower.as_str(), "false") || same(lower.as_str(), "f") {
        Value::Integer(0)
    } else {
        Value::Text(s.to_owned())
    }
}

/// The value of a parameter by its type, given its text.
pub fn pg_text_to_value(text: &str, bytes: &[u8], pg_type: &PgType, double: Real) -> (r: Result<
    Value,
    String,
>)
    requires
        readable_text(text@, *pg_type),
    ensures
        match r {
            Ok(v) => typed_value(text@, bytes@, *pg_type, double) == Ok::<ValueModel, Seq<char>>(
                v@,
            ),
            Err(e) => typed_value(text@, bytes@, *pg_type, double) == Err::<ValueModel, Seq<char>>(
                e@,
            ),
        },
{
    let v = chars_of(text);
    match pg_type {
        PgType::Int2 | PgType::Int4 | PgType::Int8 => match scan::parse_i64(&v) {
            Ok(n) => Ok(Value::Integer(n)),
            Err(e) => Err(join2("invalid integer parameter: ", e.message())),
        },
        PgType::Float4 | PgType::Float8 | PgType::Numeric => if scan::classify_float(&v)
            != FloatText::Malformed {
            Ok(Value::Real(double))
        } else if v.len() == 0 {
            Err(join2("invalid float parameter: ", "cannot parse float from empty string"))
        } else {
            Err(join2("invalid float parameter: ", "invalid float literal"))
        },
        PgType::Bool => match parse_boolean(text) {
            Some(n) => Ok(Value::Integer(n)),
            None => Err(join2("invalid boolean parameter: ", text)),
        },
        PgType::Bytea => if starts_with(text, "\\x") {
            let n: usize = chars_of("\\x").len();
            let digits = scan::part(&v, n, v.len());
            assert(digits@ =~= text@.skip(n as int));
            match decode_hex(string_of(digits.as_slice()).as_str()) {
                Ok(b) => Ok(Value::Blob(b)),
                Err(e) => Err(join2("invalid bytea hex parameter: ", e.as_str())),
            }
        } else {
            Ok(Value::Blob(vstd::slice::slice_to_vec(bytes)))
        },
        PgType::Unknown => Ok(infer_value(text, double)),
        _ => Ok(Value::Text(text.to_owned())),
    }
}

/// The value of a parameter, or what is wrong with it.
pub open spec fn parameter_value(bytes: Seq<u8>, pg_type: PgType, double: Real) -> Result<
    ValueModel,
    Seq<char>,
> {
    if vstd::utf8::valid_utf8(bytes) {
        typed_value(vstd::utf8::decode_utf8(bytes), bytes, pg_type, double)
    } else {
        Err("invalid UTF-8 in parameter: "@ + text::utf8_error(bytes))
    }
}

/// The value of a parameter that comes as text, by its type. `double` is what
/// the text is as a number in double precision, where it is one.
pub fn pg_bytes_to_value(bytes: &[u8], pg_type: &PgType, double: Real) -> (r: Result<
    Value,
    String,
>)
    requires
        vstd::utf8::valid_utf8(bytes@) ==> readable_text(
            vstd::utf8::decode_utf8(bytes@),
            *pg_type,
        ),
    ensures
        match r {
            Ok(v) => parameter_value(bytes@, *pg_type, double) == Ok::<ValueModel, Seq<char>>(v@),
            Err(e) => parameter_value(bytes@, *pg_type, double) == Err::<ValueModel, Seq<char>>(
                e@,
            ),
        },
{
    match text_of_utf8(bytes) {
        Ok(s) => pg_text_to_value(s.as_str(), bytes, pg_type, double),
        Err(e) => Err(join2("invalid UTF-8 in parameter: ", e.as_str())),
    }
}

/// A parameter of a portal: nothing for `NULL`; otherwise by its declared type,
/// or by what it looks like where it has none.
pub fn portal_value(bytes: Option<&[u8]>, declared: Option<PgType>, double: Real) -> (r: Result<
    Value,
    String,
>)
    requires
        bytes matches Some(b) ==> vstd::utf8::valid_utf8(b@) ==> readable_text(
            vstd::utf8::decode_utf8(b@),
            declared.unwrap_or(PgType::Unknown),
        ),
    ensures
        match bytes {
            None => r matches Ok(v) && v@ == ValueModel::Null,
            Some(b) => match r {
                Ok(v) => parameter_value(b@, declared.unwrap_or(PgType::Unknown), double)
                    == Ok::<ValueModel, Seq<char>>(v@),
                Err(e) => parameter_value(b@, declared.unwrap_or(PgType::Unknown), double)
                    == Err::<ValueModel, Seq<char>>(e@),
            },
        },
{
    match bytes {
        None => Ok(Value::Null),
        Some(b) => {
            let pg_type = match declared {
                Some(t) => t,
                None => PgType::Unknown,
            };
            pg_bytes_to_value(b, &pg_type, double)
        },
    }
}

/// The name of the parameter at an index: `$1` is the first.
pub fn parameter_name(index: usize) -> (r: String)
    requires
        index < usize::MAX,
    ensures
        r@ == "$"@ + text::decimal((index + 1) as nat),
{
    join2("$", print_u64((index + 1) as u64).as_str())
}

/// The place that a parameter is bound to: the one that its name has in the
/// statement, or its own number.
pub fn parameter_place(found: Option<usize>, index: usize) -> (r: usize)
    requires
        index < usize::MAX,
    ensures
        r == found.unwrap_or((index + 1) as usize),
{
    match found {
        Some(place) => place,
        None => index + 1,
    }
}

/// The type that a parameter is described with: text where none was declared.
pub fn described_type(declared: Option<PgType>) -> (r: PgType)
    ensures
        r == declared.unwrap_or(PgType::Text),
{
    match declared {
        Some(t) => t,
        None => PgType::Text,
    }
}

/// The type that was declared for a parameter, as far as types were declared.
pub open spec fn declared_type(types: Seq<Option<PgType>>, i: int) -> PgType {
    if i < types.len() && types[i] is Some {
        types[i]->0
    } else {
        PgType::Unknown
    }
}

/// The value of a parameter of a portal.
pub open spec fn portal_parameter(
    parameters: Seq<Option<Vec<u8>>>,
    types: Seq<Option<PgType>>,
    doubles: Seq<Real>,
    i: int,
) -> Result<ValueModel, Seq<char>> {
    match parameters[i] {
        None => Ok(ValueModel::Null),
        Some(bytes) => parameter_value(bytes@, declared_type(types, i), doubles[i]),
    }
}

/// The first `n` parameters of a portal by their names, or what is wrong with the
/// first that has something wrong.
pub open spec fn portal_parameters(
    parameters: Seq<Option<Vec<u8>>>,
    types: Seq<Option<PgType>>,
    doubles: Seq<Real>,
    n: nat,
) -> Result<Seq<(Seq<char>, ValueModel)>, Seq<char>>
    decreases n,
{
    if n == 0 {
        Ok(Seq::empty())
    } else {
        match portal_parameters(parameters, types, doubles, (n - 1) as nat) {
            Err(e) => Err(e),
            Ok(before) => match portal_parameter(parameters, types, doubles, n - 1) {
                Err(e) => Err(e),
                Ok(v) => Ok(before.push(("$"@ + text::decimal(n), v))),
            },
        }
    }
}

proof fn wrong_parameter_stays(
    parameters: Seq<Option<Vec<u8>>>,
    types: Seq<Option<PgType>>,
    doubles: Seq<Real>,
    m: nat,
    n: nat,
)
    requires
        m <= n,
        portal_parameters(parameters, types, doubles, m) is Err,
    ensures
        portal_parameters(parameters, types, doubles, n) == portal_parameters(
            parameters,
            types,
            doubles,
            m,
        ),
    decreases n - m,
{
    if m < n {
        wrong_parameter_stays(parameters, types, doubles, m, (n - 1) as nat);
    }
}

/// Whether every parameter of a portal can be read by its type.
pub open spec fn readable_portal(
    parameters: Seq<Option<Vec<u8>>>,
    types: Seq<Option<PgType>>,
) -> bool {
    forall|i: int|
        0 <= i < parameters.len() ==> ((#[trigger] parameters[i]) matches Some(b)
            ==> vstd::utf8::valid_utf8(b@) ==> readable_text(
            vstd::utf8::decode_utf8(b@),
            declared_type(types, i),
        ))
}

/// Named values, by what they hold.
pub open spec fn bindings(values: Seq<(String, Value)>) -> Seq<(Seq<char>, ValueModel)> {
    values.map_values(|v: (String, Value)| (v.0@, v.1@))
}

/// The parameters of a portal, to be bound by their names. `doubles` are what
/// their texts are as numbers in double precision, where they are.
pub fn bind_portal_parameters(
    parameters: &Vec<Option<Vec<u8>>>,
    types: &Vec<Option<PgType>>,
    doubles: &Vec<Real>,
) -> (r: Result<Vec<(String, Value)>, String>)
    requires
        doubles@.len() == parameters@.len(),
        readable_portal(parameters@, types@),
    ensures
        ({
            let bound = portal_parameters(parameters@, types@, doubles@, parameters@.len());
            match r {
                Ok(values) => bound == Ok::<Seq<(Seq<char>, ValueModel)>, Seq<char>>(
                    bindings(values@),
                ),
                Err(e) => bound == Err::<Seq<(Seq<char>, ValueModel)>, Seq<char>>(e@),
            }
        }),
{
    let mut values: Vec<(String, Value)> = Vec::new();
    let mut i: usize = 0;
    assert(bindings(values@) =~= Seq::empty());
    while i < parameters.len()
        invariant
            i <= parameters@.len(),
            doubles@.len() == parameters@.len(),
            readable_portal(parameters@, types@),
            portal_parameters(parameters@, types@, doubles@, i as nat) == Ok::<
                Seq<(Seq<char>, ValueModel)>,
                Seq<char>,
            >(bindings(values@)),
        decreases parameters@.len() - i,
    {
        let declared = if i < types.len() {
            types[i]
        } else {
            None
        };
        let bytes: Option<&[u8]> = match &parameters[i] {
            Some(b) => Some(b.as_slice()),
            None => None,
        };
        match portal_value(bytes, declared, doubles[i]) {
            Ok(v) => {
                let ghost before = values@;
                let ghost pair = ("$"@ + text::decimal((i + 1) as nat), v@);
                values.push((parameter_name(i), v));
                assert(bindings(values@) =~= bindings(before).push(pair));
            },
            Err(e) => {
                proof {
                    wrong_parameter_stays(
                        parameters@,
                        types@,
                        doubles@,
                        i as nat + 1,
                        parameters@.len(),
                    );
                }
                return Err(e);
            },
        }
        i = i + 1;
    }
    Ok(values)
}

/// How a value goes out.
pub enum FieldEncoding {
    Null,
    Boolean(bool),
    Integer(i64),
    Real(Real),
    /// As the type of its column.
    Text(String),
    /// As text, whatever the type of its column.
    PlainText(String),
    Bytes(Vec<u8>),
}

/// How a value goes out, by what it holds.
pub enum FieldModel {
    Null,
    Boolean(bool),
    Integer(i64),
    Real(Real),
    Text(Seq<char>),
    PlainText(Seq<char>),
    Bytes(Seq<u8>),
}

impl View for FieldEncoding {
    type V = FieldModel;

    open spec fn view(&self) -> FieldModel {
        match self {
            FieldEncoding::Null => FieldModel::Null,
            FieldEncoding::Boolean(b) => FieldModel::Boolean(*b),
            FieldEncoding::Integer(n) => FieldModel::Integer(*n),
            FieldEncoding::Real(r) => FieldModel::Real(*r),
            FieldEncoding::Text(s) => FieldModel::Text(s@),
            FieldEncoding::PlainText(s) => FieldModel::PlainText(s@),
            FieldEncoding::Bytes(b) => FieldModel::Bytes(b@),
        }
    }
}

/// Whether a point in time says which zone it is in.
pub open spec fn has_zone(s: Seq<char>) -> bool {
    s.contains('+') || s.contains('Z') || "-00"@.is_suffix_of(s)
}

fn names_zone(s: &str) -> (r: bool)
    ensures
        r == has_zone(s@),
{
    let v = chars_of(s);
    let mut i: usize = 0;
    while i < v.len()
        invariant
            i <= v@.len(),
            v@ == s@,
            forall|j: int| 0 <= j < i ==> v@[j] != '+' && v@[j] != 'Z',
        decreases v@.len() - i,
    {
        if v[i] == '+' || v[i] == 'Z' {
            return true;
        }
        i = i + 1;
    }
    ends_with(s, "-00")
}

/// How a value goes out in a column of a type: integers of a boolean column as
/// booleans; points in time with a zone, in UTC where they name none; arrays,
/// which are written out already, as text.
pub open spec fn field_encoding(value: ValueModel, pg_type: PgType) -> FieldModel {
    match value {
        ValueModel::Null => FieldModel::Null,
        ValueModel::Integer(n) => if pg_type == PgType::Bool {
            FieldModel::Boolean(n != 0)
        } else {
            FieldModel::Integer(n)
        },
        ValueModel::Real(r) => FieldModel::Real(r),
        ValueModel::Text(s) => if pg_type == PgType::Timestamptz && !has_zone(s) {
            FieldModel::Text(s + "+00"@)
        } else if pg_type.array() {
            FieldModel::PlainText(s)
        } else {
            FieldModel::Text(s)
        },
        ValueModel::Blob(b) => FieldModel::Bytes(b),
    }
}

/// How a value goes out in a column of a type.
pub fn encode_value(val: &Value, pg_type: &PgType) -> (r: FieldEncoding)
    ensures
        r@ == field_encoding(val@, *pg_type),
{
    match val {
        Value::Null => FieldEncoding::Null,
        Value::Integer(n) => if *pg_type == PgType::Bool {
            FieldEncoding::Boolean(*n != 0)
        } else {
            FieldEncoding::Integer(*n)
        },
        Value::Real(r) => FieldEncoding::Real(*r),
        Value::Text(s) => if *pg_type == PgType::Timestamptz && !names_zone(s.as_str()) {
            FieldEncoding::Text(join2(s.as_str(), "+00"))
        } else if pg_type.is_array() {
            FieldEncoding::PlainText(s.clone())
        } else {
            FieldEncoding::Text(s.clone())
        },
        Value::Blob(b) => FieldEncoding::Bytes(vstd::slice::slice_to_vec(b.as_slice())),
    }
}

/// An error as it is reported: its severity, its code and its message.
pub struct ErrorReport {
    pub severity: &'static str,
    pub code: &'static str,
    pub message: String,
}

/// Every error is reported as an internal one, with its message.
pub fn error_info(message: &str) -> (r: ErrorReport)
    ensures
        r.severity@ == "ERROR"@,
        r.code@ == "XX000"@,
        r.message@ == message@,
{
    ErrorReport { severity: "ERROR", code: "XX000", message: message.to_owned() }
}

/// A text in upper-case hexadecimal digits: two for each byte.
pub open spec fn hex_digit_byte(n: int) -> u8 {
    if n < 10 {
        (48 + n) as u8
    } else {
        (55 + n) as u8
    }
}

/// The hexadecimal digits of bytes, two for each.
pub open spec fn hex_encoding(bytes: Seq<u8>) -> Seq<u8> {
    Seq::new(
        2 * bytes.len(),
        |i: int|
            if i % 2 == 0 {
                hex_digit_byte(bytes[i / 2] as int / 16)
            } else {
                hex_digit_byte(bytes[i / 2] as int % 16)
            },
    )
}

proof fn hex_reads_on(bytes: Seq<u8>, at: nat, acc: Seq<u8>)
    requires
        at <= bytes.len(),
        acc == bytes.take(at as int),
    ensures
        hex_bytes(hex_encoding(bytes), 2 * at, acc) == Ok::<Seq<u8>, nat>(bytes),
    decreases bytes.len() - at,
{
    let s = hex_encoding(bytes);
    if at == bytes.len() {
        assert(acc =~= bytes);
    } else {
        let b = bytes[at as int];
        let i = 2 * at as int;
        assert(s[i] == hex_digit_byte(b as int / 16));
        assert(s[i + 1] == hex_digit_byte(b as int % 16));
        assert(hex_pair(s[i], s[i + 1]) == Some(b));
        assert(acc.push(b) =~= bytes.take(at as int + 1));
        hex_reads_on(bytes, at + 1, acc.push(b));
    }
}

/// Bytes written in hexadecimal read back as they were.
pub proof fn hex_round_trip(bytes: Seq<u8>)
    ensures
        hex_bytes(hex_encoding(bytes), 0, Seq::empty()) == Ok::<Seq<u8>, nat>(bytes),
{
    assert(bytes.take(0) =~= Seq::<u8>::empty());
    hex_reads_on(bytes, 0, Seq::empty());
}

/// A point in time goes out with a zone in a column that has one, and never
/// twice with one.
pub proof fn zone_is_named_once(s: Seq<char>)
    ensures
        field_encoding(ValueModel::Text(s), PgType::Timestamptz) matches FieldModel::Text(out)
            && has_zone(out) && field_encoding(ValueModel::Text(out), PgType::Timestamptz)
            == FieldModel::Text(out),
{
    reveal_strlit("+00");
    let out = s + "+00"@;
    assert(out[s.len() as int] == '+');
}

/// An integer that is printed reads back as a parameter of an integer type, and
/// as one without a type.
pub proof fn integers_read_back(n: i64, bytes: Seq<u8>, double: Real)
    ensures
        typed_value(text::signed_decimal(n as int), bytes, PgType::Int8, double) == Ok::<
            ValueModel,
            Seq<char>,
        >(ValueModel::Integer(n)),
        typed_value(text::signed_decimal(n as int), bytes, PgType::Unknown, double) == Ok::<
            ValueModel,
            Seq<char>,
        >(ValueModel::Integer(n)),
{
    scan::printed_integer_reads_back(n);
}

/// The characters of bytes that are ASCII.
pub open spec fn ascii_chars(bytes: Seq<u8>) -> Seq<char> {
    bytes.map_values(|b: u8| b as char)
}

/// Bytes that are printed as PostgreSQL prints them read back as a parameter.
pub proof fn bytes_read_back(blob: Seq<u8>, bytes: Seq<u8>, double: Real)
    ensures
        typed_value("\\x"@ + ascii_chars(hex_encoding(blob)), bytes, PgType::Bytea, double) == Ok::<
            ValueModel,
            Seq<char>,
        >(ValueModel::Blob(blob)),
{
    let digits = hex_encoding(blob);
    let chars = ascii_chars(digits);
    let s = "\\x"@ + chars;
    assert(s.subrange(0, "\\x"@.len() as int) =~= "\\x"@);
    assert(s.skip("\\x"@.len() as int) =~= chars);
    assert forall|i: int| 0 <= i < digits.len() implies #[trigger] digits[i] < 128 by {
        assert(digits[i] == hex_digit_byte(blob[i / 2] as int / 16) || digits[i] == hex_digit_byte(
            blob[i / 2] as int % 16,
        ));
    }
    assert(vstd::utf8::is_ascii_chars(chars));
    vstd::utf8::is_ascii_chars_encode_utf8(chars);
    assert(vstd::utf8::encode_utf8(chars) =~= digits);
    hex_round_trip(blob);
}

/// In a boolean column, zero goes out as false and every other integer as true.
/// In every other column an integer goes out as it is.
pub proof fn integers_go_out_by_their_column(n: i64, pg_type: PgType)
    ensures
        field_encoding(ValueModel::Integer(0), PgType::Bool) == FieldModel::Boolean(false),
        n != 0 ==> field_encoding(ValueModel::Integer(n), PgType::Bool) == FieldModel::Boolean(
            true,
        ),
        pg_type != PgType::Bool ==> field_encoding(ValueModel::Integer(n), pg_type)
            == FieldModel::Integer(n),
{
}

/// A boolean parameter goes out as the boolean that was sent: true where its
/// text starts with one of `t`, `T`, `1` and `y` or is `on`, and false else.
pub proof fn booleans_go_out_as_they_came(s: Seq<char>, bytes: Seq<u8>, double: Real)
    ensures
        match typed_value(s, bytes, PgType::Bool, double) {
            Ok(v) => {
                &&& s.len() > 0
                &&& field_encoding(v, PgType::Bool) == FieldModel::Boolean(
                    s[0] == 't' || s[0] == 'T' || s[0] == '1' || s[0] == 'y' || (s[0] == 'o'
                        && s[1] == 'n'),
                )
            },
            Err(_) => true,
        },
        typed_value(s, bytes, PgType::Bool, double) is Ok <==> {
            ||| s == "t"@ || s == "true"@ || s == "TRUE"@ || s == "1"@ || s == "yes"@ || s == "on"@
            ||| s == "f"@ || s == "false"@ || s == "FALSE"@ || s == "0"@ || s == "no"@ || s
                == "off"@
        },
{
    reveal_strlit("t");
    reveal_strlit("true");
    reveal_strlit("TRUE");
    reveal_strlit("1");
    reveal_strlit("yes");
    reveal_strlit("on");
    reveal_strlit("f");
    reveal_strlit("false");
    reveal_strlit("FALSE");
    reveal_strlit("0");
    reveal_strlit("no");
    reveal_strlit("off");
}

/// Nothing is lost when a value goes out: NULL alone goes out as NULL, numbers
/// that are no integers and bytes go out as they are, and so do texts, but for
/// the zone that a point in time gets behind it where it names none.
pub proof fn values_go_out_whole(v: ValueModel, pg_type: PgType)
    ensures
        field_encoding(v, pg_type) is Null <==> v is Null,
        v matches ValueModel::Real(r) ==> field_encoding(v, pg_type) == FieldModel::Real(r),
        v matches ValueModel::Blob(b) ==> field_encoding(v, pg_type) == FieldModel::Bytes(b),
        v matches ValueModel::Text(s) ==> {
            &&& pg_type != PgType::Timestamptz && !pg_type.array() ==> field_encoding(v, pg_type)
                == FieldModel::Text(s)
            &&& pg_type.array() ==> field_encoding(v, pg_type) == FieldModel::PlainText(s)
            &&& pg_type == PgType::Timestamptz ==> (field_encoding(v, pg_type) matches
                FieldModel::Text(out) && s.is_prefix_of(out) && (out == s || out == s
                + seq!['+', '0', '0']))
        },
{
    reveal_strlit("+00");
    if let ValueModel::Text(s) = v {
        assert(s + "+00"@ =~= s + seq!['+', '0', '0']);
    }
}

/// A text parameter goes out as it came, in every column that shows text as it
/// is.
pub proof fn texts_go_out_as_they_came(s: Seq<char>, bytes: Seq<u8>, double: Real)
    ensures
        typed_value(s, bytes, PgType::Text, double) == Ok::<ValueModel, Seq<char>>(
            ValueModel::Text(s),
        ),
        typed_value(s, bytes, PgType::Text, double) matches Ok(v) && field_encoding(
            v,
            PgType::Text,
        ) == FieldModel::Text(s),
{
}

} // verus!
