//! Random values for parameters.

use vstd::prelude::*;
use vstd::string::StringExecFns;
use crate::differential::draws::{DrawKind, Draws, Reading};
use crate::differential::spec;
use crate::differential::spec::{spec_num_values, OpsSpec, ValueSpec};
use crate::scan;
use crate::text::{same, string_of};
use crate::value::Real;

verus! {

/// A value for a parameter.
#[derive(Debug, PartialEq)]
pub enum Val {
    Null,
    Int(i64),
    Float(Real),
    /// A number divided by another.
    Quotient { numerator: i32, divisor: Real },
    Text(String),
    Blob(Vec<u8>),
}

/// A value for a parameter, by what it holds.
pub enum ValModel {
    Null,
    Int(i64),
    Float(Real),
    Quotient { numerator: i32, divisor: Real },
    Text(Seq<char>),
    Blob(Seq<u8>),
}

impl View for Val {
    type V = ValModel;

    open spec fn view(&self) -> ValModel {
        match self {
            Val::Null => ValModel::Null,
            Val::Int(n) => ValModel::Int(*n),
            Val::Float(r) => ValModel::Float(*r),
            Val::Quotient { numerator, divisor } => ValModel::Quotient {
                numerator: *numerator,
                divisor: *divisor,
            },
            Val::Text(s) => ValModel::Text(s@),
            Val::Blob(b) => ValModel::Blob(b@),
        }
    }
}

/// Values, by what they hold.
pub open spec fn val_models(values: Seq<Val>) -> Seq<ValModel> {
    values.map_values(|v: Val| v@)
}

/// What a value came to, by what it holds.
pub open spec fn val_result(r: Result<Val, DrawKind>, draws: Reading) -> Result<
    (ValModel, Reading),
    DrawKind,
> {
    match r {
        Ok(v) => Ok((v@, draws)),
        Err(k) => Err(k),
    }
}

/// At most the first `n` of a sequence.
pub open spec fn at_most<T>(s: Seq<T>, n: nat) -> Seq<T> {
    if n < s.len() {
        s.take(n as int)
    } else {
        s
    }
}

/// A text `n` times.
pub open spec fn repeated(s: Seq<char>, n: nat) -> Seq<char>
    decreases n,
{
    if n == 0 {
        Seq::empty()
    } else {
        repeated(s, (n - 1) as nat) + s
    }
}

fn repeat(s: &str, n: usize) -> (r: String)
    ensures
        r@ == repeated(s@, n as nat),
{
    let mut r = String::new();
    let mut i: usize = 0;
    assert(r@ =~= Seq::empty());
    while i < n
        invariant
            i <= n,
            r@ == repeated(s@, i as nat),
        decreases n - i,
    {
        r.append(s);
        i = i + 1;
    }
    r
}

fn filled(byte: u8, n: usize) -> (r: Vec<u8>)
    ensures
        r@ == Seq::new(n as nat, |i: int| byte),
{
    let mut r: Vec<u8> = Vec::new();
    let mut i: usize = 0;
    while i < n
        invariant
            i <= n,
            r@ == Seq::new(i as nat, |j: int| byte),
        decreases n - i,
    {
        r.push(byte);
        i = i + 1;
        assert(r@ =~= Seq::new(i as nat, |j: int| byte));
    }
    r
}

fn first_bytes(b: Vec<u8>, n: usize) -> (r: Vec<u8>)
    ensures
        r@ == at_most(b@, n as nat),
{
    if n < b.len() {
        let mut b = b;
        b.truncate(n);
        b
    } else {
        b
    }
}

fn first_chars(v: Vec<char>, n: usize) -> (r: String)
    ensures
        r@ == at_most(v@, n as nat),
{
    if n < v.len() {
        let part = scan::part(&v, 0, n);
        assert(part@ =~= v@.take(n as int));
        string_of(part.as_slice())
    } else {
        string_of(v.as_slice())
    }
}

/// The value of a kind that takes no choices.
pub open spec fn fixed_value(entry: ValueSpec) -> ValModel {
    let id = entry.id@;
    if id == "null"@ {
        ValModel::Null
    } else if id == "empty_string"@ {
        ValModel::Text(entry.literal->0@)
    } else if id == "empty_blob"@ {
        ValModel::Blob(Seq::empty())
    } else if id == "negative_zero"@ {
        ValModel::Float(entry.literal_float->0)
    } else if id == "zero_blob"@ || id == "high_bit_blob"@ || id == "large_blob"@ {
        let fill = entry.fill_bytes->0;
        ValModel::Blob(Seq::new(fill.len as nat, |i: int| fill.byte))
    } else if id == "large_string"@ {
        ValModel::Text(repeated(entry.repeat_char->0.text@, entry.repeat_char->0.len as nat))
    } else if entry.literal is Some {
        ValModel::Text(entry.literal->0@)
    } else {
        ValModel::Blob(Seq::empty())
    }
}

/// The value of a kind, by the choices that it takes: a number within a range,
/// the start of a text or of bytes, or one of a list.
pub open spec fn value_of_kind(vocabulary: OpsSpec, entry: ValueSpec, draws: Reading) -> Result<
    (ValModel, Reading),
    DrawKind,
> {
    let id = entry.id@;
    if id == "integer"@ {
        let (min, max) = entry.random->0;
        match draws.long() {
            Err(k) => Err(k),
            Ok((v, rest)) => Ok(
                (ValModel::Int((min + v as int % (max - min + 1)) as i64), rest),
            ),
        }
    } else if id == "float"@ {
        let range = entry.random_scaled->0;
        match draws.word() {
            Err(k) => Err(k),
            Ok((v, rest)) => Ok(
                (
                    ValModel::Quotient {
                        numerator: (range.min + v as int % (range.max - range.min + 1)) as i32,
                        divisor: range.divisor,
                    },
                    rest,
                ),
            ),
        }
    } else if id == "ascii"@ {
        match draws.characters() {
            Err(k) => Err(k),
            Ok((s, rest)) => Ok(
                (ValModel::Text(at_most(s, entry.random_string_max_len->0 as nat)), rest),
            ),
        }
    } else if id == "blob"@ {
        match draws.bytes() {
            Err(k) => Err(k),
            Ok((b, rest)) => Ok(
                (ValModel::Blob(at_most(b, entry.random_bytes_max_len->0 as nat)), rest),
            ),
        }
    } else if id == "int_extreme"@ {
        match draws.byte() {
            Err(k) => Err(k),
            Ok((pick, rest)) => Ok(
                (ValModel::Int(entry.oneof@[pick as int % entry.oneof@.len() as int]), rest),
            ),
        }
    } else if id == "float_extreme"@ {
        match draws.byte() {
            Err(k) => Err(k),
            Ok((pick, rest)) => Ok(
                (
                    ValModel::Float(
                        entry.oneof_float@[pick as int % entry.oneof_float@.len() as int],
                    ),
                    rest,
                ),
            ),
        }
    } else if id == "large_or_unicode"@ {
        match draws.byte() {
            Err(k) => Err(k),
            Ok((pick, rest)) => if pick % 2 == 0 {
                Ok((ValModel::Blob(Seq::new(256, |i: int| 0xABu8)), rest))
            } else {
                let options = vocabulary.unicode_options@;
                Ok((ValModel::Text(options[pick as int / 2 % options.len() as int]@), rest))
            },
        }
    } else {
        Ok((fixed_value(entry), draws))
    }
}

/// The kind of value that is chosen, and the value.
pub open spec fn random_value(vocabulary: OpsSpec, draws: Reading) -> Result<
    (ValModel, Reading),
    DrawKind,
> {
    match draws.byte() {
        Err(k) => Err(k),
        Ok((variant, rest)) => value_of_kind(
            vocabulary,
            vocabulary.values@[(variant % vocabulary.value_count()) as int],
            rest,
        ),
    }
}

fn fixed(entry: &ValueSpec) -> (r: Val)
    requires
        spec::usable_value(*entry),
        entry.id@ != "integer"@,
        entry.id@ != "float"@,
        entry.id@ != "ascii"@,
        entry.id@ != "blob"@,
        entry.id@ != "int_extreme"@,
        entry.id@ != "float_extreme"@,
        entry.id@ != "large_or_unicode"@,
    ensures
        r@ == fixed_value(*entry),
{
    let id = entry.id.as_str();
    if same(id, "null") {
        return Val::Null;
    }
    if same(id, "empty_string") {
        if let Some(s) = &entry.literal {
            return Val::Text(s.clone());
        }
    }
    if same(id, "empty_blob") {
        let none: Vec<u8> = Vec::new();
        assert(none@ =~= Seq::empty());
        return Val::Blob(none);
    }
    if same(id, "negative_zero") {
        if let Some(r) = entry.literal_float {
            return Val::Float(r);
        }
    }
    if same(id, "zero_blob") || same(id, "high_bit_blob") || same(id, "large_blob") {
        if let Some(fill) = &entry.fill_bytes {
            return Val::Blob(filled(fill.byte, fill.len));
        }
    }
    if same(id, "large_string") {
        if let Some(repetition) = &entry.repeat_char {
            return Val::Text(repeat(repetition.text.as_str(), repetition.len));
        }
    }
    match &entry.literal {
        Some(s) => Val::Text(s.clone()),
        None => {
            let none: Vec<u8> = Vec::new();
            assert(none@ =~= Seq::empty());
            Val::Blob(none)
        },
    }
}

fn kind_value(vocabulary: &OpsSpec, entry: &ValueSpec, draws: &mut Draws) -> (r: Result<
    Val,
    DrawKind,
>)
    requires
        vocabulary.kind_usable(*entry),
    ensures
        val_result(r, final(draws)@) == value_of_kind(*vocabulary, *entry, old(draws)@),
        final(draws)@.tape == old(draws)@.tape,
{
    let id = entry.id.as_str();
    if same(id, "integer") {
        let (min, max) = entry.random.unwrap();
        let v: i64 = draws.draw_i64()?;
        let range: i64 = (max as i128 - min as i128 + 1) as i64;
        let offset: i64 = v.checked_rem_euclid(range).unwrap();
        Ok(Val::Int(min + offset))
    } else if same(id, "float") {
        match &entry.random_scaled {
            Some(scaled) => {
                let v: i32 = draws.draw_i32()?;
                let range: i32 = (scaled.max as i64 - scaled.min as i64 + 1) as i32;
                let offset: i32 = v.checked_rem_euclid(range).unwrap();
                Ok(Val::Quotient { numerator: scaled.min + offset, divisor: scaled.divisor })
            },
            None => Ok(Val::Null),
        }
    } else if same(id, "ascii") {
        let n: usize = entry.random_string_max_len.unwrap();
        let s = draws.draw_text()?;
        Ok(Val::Text(first_chars(s, n)))
    } else if same(id, "blob") {
        let n: usize = entry.random_bytes_max_len.unwrap();
        let b = draws.draw_bytes()?;
        Ok(Val::Blob(first_bytes(b, n)))
    } else if same(id, "int_extreme") {
        let pick: u8 = draws.draw_u8()?;
        Ok(Val::Int(entry.oneof[pick as usize % entry.oneof.len()]))
    } else if same(id, "float_extreme") {
        let pick: u8 = draws.draw_u8()?;
        Ok(Val::Float(entry.oneof_float[pick as usize % entry.oneof_float.len()]))
    } else if same(id, "large_or_unicode") {
        let pick: u8 = draws.draw_u8()?;
        if pick % 2 == 0 {
            Ok(Val::Blob(filled(0xAB, 256)))
        } else {
            let options = &vocabulary.unicode_options;
            Ok(Val::Text(options[(pick / 2) as usize % options.len()].clone()))
        }
    } else {
        Ok(fixed(entry))
    }
}

/// A random value.
pub fn gen_value(vocabulary: &OpsSpec, draws: &mut Draws) -> (r: Result<Val, DrawKind>)
    requires
        vocabulary.values_usable(),
    ensures
        val_result(r, final(draws)@) == random_value(*vocabulary, old(draws)@),
        final(draws)@.tape == old(draws)@.tape,
{
    let variant: u8 = draws.draw_u8()?;
    let count: u8 = spec_num_values(vocabulary);
    let n: usize = vocabulary.values.len();
    assert(n as u8 <= n) by (bit_vector);
    let entry = &vocabulary.values[(variant % count) as usize];
    kind_value(vocabulary, entry, draws)
}

/// Whatever number is drawn, an integer lies in its range.
pub proof fn random_integers_lie_in_range(vocabulary: OpsSpec, entry: ValueSpec, draws: Reading)
    requires
        spec::usable_value(entry),
        entry.id@ == "integer"@,
    ensures
        value_of_kind(vocabulary, entry, draws) matches Ok((v, _)) ==> (v matches ValModel::Int(n)
            && (entry.random->0).0 <= n <= (entry.random->0).1),
{
}

} // verus!
