//! Scanning text: white space, parts, integers and floating-point literals.

use vstd::prelude::*;
use crate::text;
use crate::text::{same, string_of};

verus! {

/// Whether Unicode counts a character as white space.
pub open spec fn is_white_space(c: char) -> bool {
    let n = c as u32;
    ||| 0x09 <= n <= 0x0d
    ||| n == 0x20
    ||| n == 0x85
    ||| n == 0xa0
    ||| n == 0x1680
    ||| 0x2000 <= n <= 0x200a
    ||| n == 0x2028
    ||| n == 0x2029
    ||| n == 0x202f
    ||| n == 0x205f
    ||| n == 0x3000
}

pub fn white_space(c: char) -> (r: bool)
    ensures
        r == is_white_space(c),
{
    let n: u32 = c as u32;
    (0x09 <= n && n <= 0x0d) || n == 0x20 || n == 0x85 || n == 0xa0 || n == 0x1680 || (0x2000 <= n
        && n <= 0x200a) || n == 0x2028 || n == 0x2029 || n == 0x202f || n == 0x205f || n == 0x3000
}

/// A text without the white space at its start.
pub open spec fn trim_start(s: Seq<char>) -> Seq<char>
    decreases s.len(),
{
    if s.len() > 0 && is_white_space(s[0]) {
        trim_start(s.skip(1))
    } else {
        s
    }
}

/// A text without the white space at its end.
pub open spec fn trim_end(s: Seq<char>) -> Seq<char>
    decreases s.len(),
{
    if s.len() > 0 && is_white_space(s.last()) {
        trim_end(s.drop_last())
    } else {
        s
    }
}

/// A text without the white space around it.
pub open spec fn trim(s: Seq<char>) -> Seq<char> {
    trim_end(trim_start(s))
}

/// Removes the white space around a text.
pub fn trimmed(v: &Vec<char>) -> (r: Vec<char>)
    ensures
        r@ == trim(v@),
{
    let mut start: usize = 0;
    assert(v@.skip(0) =~= v@);
    while start < v.len() && white_space(v[start])
        invariant
            start <= v@.len(),
            trim_start(v@) == trim_start(v@.skip(start as int)),
        decreases v@.len() - start,
    {
        assert(v@.skip(start as int)[0] == v@[start as int]);
        assert(v@.skip(start as int).skip(1) =~= v@.skip(start + 1));
        start = start + 1;
    }
    let ghost rest = v@.skip(start as int);
    proof {
        if start < v@.len() {
            assert(rest[0] == v@[start as int]);
        }
    }
    assert(trim_start(v@) == rest);
    let mut end: usize = v.len();
    assert(v@.subrange(start as int, end as int) =~= rest);
    while end > start && white_space(v[end - 1])
        invariant
            start <= end <= v@.len(),
            trim_end(rest) == trim_end(v@.subrange(start as int, end as int)),
        decreases end,
    {
        let ghost now = v@.subrange(start as int, end as int);
        assert(now.last() == v@[end - 1]);
        assert(now.drop_last() =~= v@.subrange(start as int, end - 1));
        end = end - 1;
    }
    proof {
        let now = v@.subrange(start as int, end as int);
        if end > start {
            assert(now.last() == v@[end - 1]);
        }
        assert(trim_end(rest) == now);
    }
    part(v, start, end)
}

/// The characters from `start` to `end`.
pub fn part(v: &Vec<char>, start: usize, end: usize) -> (r: Vec<char>)
    requires
        start <= end <= v@.len(),
    ensures
        r@ == v@.subrange(start as int, end as int),
{
    let mut r: Vec<char> = Vec::new();
    let mut i: usize = start;
    assert(v@.subrange(start as int, start as int) =~= Seq::<char>::empty());
    while i < end
        invariant
            start <= i <= end <= v@.len(),
            r@ == v@.subrange(start as int, i as int),
        decreases end - i,
    {
        r.push(v[i]);
        i = i + 1;
        assert(r@ =~= v@.subrange(start as int, i as int));
    }
    r
}

/// The first place of `c` from `from` on; the length where there is none.
pub open spec fn first_index(s: Seq<char>, c: char, from: nat) -> nat
    decreases s.len() - from,
{
    if from >= s.len() {
        s.len()
    } else if s[from as int] == c {
        from
    } else {
        first_index(s, c, from + 1)
    }
}

pub(crate) proof fn first_index_bounds(s: Seq<char>, c: char, from: nat)
    requires
        from <= s.len(),
    ensures
        from <= first_index(s, c, from) <= s.len(),
        first_index(s, c, from) < s.len() ==> s[first_index(s, c, from) as int] == c,
    decreases s.len() - from,
{
    if from < s.len() && s[from as int] != c {
        first_index_bounds(s, c, from + 1);
    }
}

/// The first place of `c` from `from` on; the length where there is none.
pub fn find_from(v: &Vec<char>, c: char, from: usize) -> (i: usize)
    requires
        from <= v@.len(),
    ensures
        i == first_index(v@, c, from as nat),
        from <= i <= v@.len(),
        i < v@.len() ==> v@[i as int] == c,
{
    let mut i: usize = from;
    while i < v.len() && v[i] != c
        invariant
            from <= i <= v@.len(),
            first_index(v@, c, from as nat) == first_index(v@, c, i as nat),
        decreases v@.len() - i,
    {
        i = i + 1;
    }
    i
}

/// The last place of `c` before `end`.
pub open spec fn last_index(s: Seq<char>, c: char, end: nat) -> Option<nat>
    decreases end,
{
    if end == 0 {
        None
    } else if s[end - 1] == c {
        Some((end - 1) as nat)
    } else {
        last_index(s, c, (end - 1) as nat)
    }
}

/// The last place of `c`.
pub fn rfind(v: &Vec<char>, c: char) -> (r: Option<usize>)
    ensures
        match r {
            Some(i) => i < v@.len() && last_index(v@, c, v@.len()) == Some(i as nat),
            None => last_index(v@, c, v@.len()) == None::<nat>,
        },
{
    let mut end: usize = v.len();
    while end > 0
        invariant
            end <= v@.len(),
            last_index(v@, c, v@.len()) == last_index(v@, c, end as nat),
        decreases end,
    {
        if v[end - 1] == c {
            return Some(end - 1);
        }
        end = end - 1;
    }
    None
}

/// The parts of a text between the occurrences of `c`, from `from` on.
pub open spec fn split_from(s: Seq<char>, c: char, from: nat) -> Seq<Seq<char>>
    decreases s.len() - from,
{
    let i = first_index(s, c, from);
    if from > s.len() || i < from || i >= s.len() {
        seq![s.skip(from as int)]
    } else {
        seq![s.subrange(from as int, i as int)] + split_from(s, c, i + 1)
    }
}

/// The parts of a text between the occurrences of `c`; one part where there is
/// none.
pub open spec fn split(s: Seq<char>, c: char) -> Seq<Seq<char>> {
    split_from(s, c, 0)
}

/// The views of several texts.
pub open spec fn views(v: Seq<Vec<char>>) -> Seq<Seq<char>> {
    v.map_values(|x: Vec<char>| x@)
}

/// Splits a text at every `c`.
pub fn split_on(v: &Vec<char>, c: char) -> (r: Vec<Vec<char>>)
    ensures
        views(r@) == split(v@, c),
        r@.len() >= 1,
{
    let mut r: Vec<Vec<char>> = Vec::new();
    let mut from: usize = 0;
    assert(views(r@) + split_from(v@, c, 0) =~= split(v@, c));
    loop
        invariant
            from <= v@.len(),
            views(r@) + split_from(v@, c, from as nat) == split(v@, c),
        decreases v@.len() - from,
    {
        let i: usize = find_from(v, c, from);
        let ghost before = r@;
        if i == v.len() {
            r.push(part(v, from, i));
            assert(v@.subrange(from as int, i as int) =~= v@.skip(from as int));
            assert(views(r@) =~= views(before).push(v@.skip(from as int)));
            assert(views(r@) =~= split(v@, c));
            return r;
        }
        r.push(part(v, from, i));
        assert(views(r@) =~= views(before).push(v@.subrange(from as int, i as int)));
        assert(views(r@) + split_from(v@, c, (i + 1) as nat) =~= views(before) + split_from(
            v@,
            c,
            from as nat,
        ));
        from = i + 1;
    }
}

pub open spec fn is_digit(c: char) -> bool {
    '0' <= c <= '9'
}

pub open spec fn is_hex_digit(c: char) -> bool {
    is_digit(c) || 'a' <= c <= 'f' || 'A' <= c <= 'F'
}

pub open spec fn all_digits(s: Seq<char>) -> bool {
    forall|i: int| 0 <= i < s.len() ==> is_digit(#[trigger] s[i])
}

pub open spec fn all_hex_digits(s: Seq<char>) -> bool {
    forall|i: int| 0 <= i < s.len() ==> is_hex_digit(#[trigger] s[i])
}

pub fn digit(c: char) -> (r: bool)
    ensures
        r == is_digit(c),
{
    '0' <= c && c <= '9'
}

pub fn hex_digit(c: char) -> (r: bool)
    ensures
        r == is_hex_digit(c),
{
    digit(c) || ('a' <= c && c <= 'f') || ('A' <= c && c <= 'F')
}

/// Whether a text holds hexadecimal digits only.
pub fn hex_digits(v: &Vec<char>) -> (r: bool)
    ensures
        r == all_hex_digits(v@),
{
    let mut i: usize = 0;
    while i < v.len()
        invariant
            i <= v@.len(),
            forall|j: int| 0 <= j < i ==> is_hex_digit(#[trigger] v@[j]),
        decreases v@.len() - i,
    {
        if !hex_digit(v[i]) {
            return false;
        }
        i = i + 1;
    }
    true
}

/// The number that decimal digits stand for.
pub open spec fn digits_value(s: Seq<char>) -> nat
    decreases s.len(),
{
    if s.len() == 0 {
        0
    } else {
        digits_value(s.drop_last()) * 10 + (s.last() as u32 - 48) as nat
    }
}

/// The integer that a text stands for: digits, after a sign where one is
/// wanted. Only signed integers may be negative.
pub open spec fn integer_text(s: Seq<char>, signed: bool) -> Option<int> {
    if s.len() > 0 && s[0] == '+' {
        digits_text(s.skip(1), 1)
    } else if signed && s.len() > 0 && s[0] == '-' {
        digits_text(s.skip(1), -1)
    } else {
        digits_text(s, 1)
    }
}

pub open spec fn digits_text(s: Seq<char>, sign: int) -> Option<int> {
    if s.len() > 0 && all_digits(s) {
        Some(sign * digits_value(s))
    } else {
        None
    }
}

/// The value of digits, or `None` where they are no digits at all; a value
/// above the bound of 128-bit integers is given as one above it.
fn parse_digits(v: &Vec<char>, from: usize) -> (r: Option<u128>)
    requires
        from <= v@.len(),
    ensures
        match r {
            Some(n) => {
                let s = v@.skip(from as int);
                &&& s.len() > 0
                &&& all_digits(s)
                &&& n <= 0x8000_0000_0000_0000_0000_0000_0000_0000 ==> n == digits_value(s)
                &&& n > 0x8000_0000_0000_0000_0000_0000_0000_0000 ==> digits_value(s)
                    > 0x8000_0000_0000_0000_0000_0000_0000_0000
            },
            None => v@.skip(from as int).len() == 0 || !all_digits(v@.skip(from as int)),
        },
{
    let ghost s = v@.skip(from as int);
    if from == v.len() {
        return None;
    }
    let mut n: u128 = 0;
    let mut i: usize = from;
    assert(s.take(0) =~= Seq::<char>::empty());
    while i < v.len()
        invariant
            from <= i <= v@.len(),
            s == v@.skip(from as int),
            all_digits(s.take(i - from)),
            n <= 0x8000_0000_0000_0000_0000_0000_0000_0001,
            n <= 0x8000_0000_0000_0000_0000_0000_0000_0000 ==> n == digits_value(s.take(i - from)),
            n > 0x8000_0000_0000_0000_0000_0000_0000_0000 ==> digits_value(s.take(i - from))
                > 0x8000_0000_0000_0000_0000_0000_0000_0000,
        decreases v@.len() - i,
    {
        if !digit(v[i]) {
            assert(s[i - from] == v@[i as int]);
            return None;
        }
        let d: u128 = (v[i] as u32 - 48) as u128;
        proof {
            let now = s.take(i + 1 - from);
            assert(now.drop_last() =~= s.take(i - from));
            assert(now.last() == v@[i as int]);
            assert(all_digits(now)) by {
                assert forall|j: int| 0 <= j < now.len() implies is_digit(#[trigger] now[j]) by {
                    if j < i - from {
                        assert(s.take(i - from)[j] == now[j]);
                    }
                }
            }
        }
        if n > 17014118346046923173168730371588410572 {
            n = 0x8000_0000_0000_0000_0000_0000_0000_0001;
        } else {
            n = n * 10 + d;
            if n > 0x8000_0000_0000_0000_0000_0000_0000_0000 {
                n = 0x8000_0000_0000_0000_0000_0000_0000_0001;
            }
        }
        i = i + 1;
    }
    assert(s.take(i - from) =~= s);
    Some(n)
}

/// Parses an integer that fits 128 bits.
pub fn parse_integer(v: &Vec<char>, signed: bool) -> (r: Option<i128>)
    ensures
        match r {
            Some(n) => integer_text(v@, signed) == Some(n as int),
            None => integer_text(v@, signed) matches Some(n) ==> n > i128::MAX || n < i128::MIN,
        },
{
    let negative: bool = signed && v.len() > 0 && v[0] == '-';
    let from: usize = if v.len() > 0 && (v[0] == '+' || negative) {
        1
    } else {
        0
    };
    assert(v@.skip(0) =~= v@);
    match parse_digits(v, from) {
        Some(n) => {
            if negative {
                if n < 0x8000_0000_0000_0000_0000_0000_0000_0000 {
                    Some(-(n as i128))
                } else if n == 0x8000_0000_0000_0000_0000_0000_0000_0000 {
                    Some(i128::MIN)
                } else {
                    None
                }
            } else if n < 0x8000_0000_0000_0000_0000_0000_0000_0000 {
                Some(n as i128)
            } else {
                None
            }
        },
        None => None,
    }
}

/// Whether a text is an integer between two bounds.
pub open spec fn integer_within(s: Seq<char>, signed: bool, low: int, high: int) -> bool {
    integer_text(s, signed) matches Some(n) && low <= n <= high
}

/// Whether a text is an integer between two bounds.
pub fn is_integer_within(v: &Vec<char>, signed: bool, low: i128, high: i128) -> (r: bool)
    ensures
        r == integer_within(v@, signed, low as int, high as int),
{
    match parse_integer(v, signed) {
        Some(n) => low <= n && n <= high,
        None => false,
    }
}

/// How many digits a text has from `from` on.
pub open spec fn digit_run(s: Seq<char>, from: nat) -> nat
    decreases s.len() - from,
{
    if from < s.len() && is_digit(s[from as int]) {
        1 + digit_run(s, from + 1)
    } else {
        0
    }
}

pub fn count_digits(v: &Vec<char>, from: usize) -> (n: usize)
    requires
        from <= v@.len(),
    ensures
        n == digit_run(v@, from as nat),
        from + n <= v.len(),
{
    let mut i: usize = from;
    while i < v.len() && digit(v[i])
        invariant
            from <= i <= v@.len(),
            digit_run(v@, from as nat) == (i - from) + digit_run(v@, i as nat),
        decreases v@.len() - i,
    {
        i = i + 1;
    }
    i - from
}

pub open spec fn is_sign_at(s: Seq<char>, i: nat) -> bool {
    i < s.len() && (s[i as int] == '+' || s[i as int] == '-')
}

/// Whether the rest of a text, from `from` on, is an exponent or nothing.
pub open spec fn is_exponent(s: Seq<char>, from: nat) -> bool {
    if from >= s.len() {
        true
    } else {
        let digits = if is_sign_at(s, from + 1) {
            from + 2
        } else {
            from + 1
        };
        (s[from as int] == 'e' || s[from as int] == 'E') && digit_run(s, digits) > 0 && digits
            + digit_run(s, digits) == s.len()
    }
}

/// Whether the rest of a text, from `from` on, is a decimal number: digits,
/// with a point among, before or behind them, and an exponent where one is
/// wanted.
pub open spec fn is_decimal(s: Seq<char>, from: nat) -> bool {
    let whole = digit_run(s, from);
    let point = from + whole;
    if point < s.len() && s[point as int] == '.' {
        let fraction = digit_run(s, point + 1);
        whole + fraction > 0 && is_exponent(s, point + 1 + fraction)
    } else {
        whole > 0 && is_exponent(s, point)
    }
}

/// The words for what is no decimal number.
#[derive(Clone, Copy, Debug, PartialEq, Eq, Structural)]
pub enum FloatText {
    /// Not the text of a floating-point number.
    Malformed,
    NotANumber,
    Infinity,
    Decimal,
}

/// What kind of floating-point number a text is.
pub open spec fn float_text(s: Seq<char>) -> FloatText {
    let from: nat = if is_sign_at(s, 0) {
        1
    } else {
        0
    };
    let word = text::ascii_lower(s.skip(from as int));
    if word == "nan"@ {
        FloatText::NotANumber
    } else if word == "inf"@ || word == "infinity"@ {
        FloatText::Infinity
    } else if is_decimal(s, from) {
        FloatText::Decimal
    } else {
        FloatText::Malformed
    }
}

fn lower_char(c: char) -> (r: char)
    ensures
        r == text::ascii_lower_char(c),
{
    if 'A' <= c && c <= 'Z' {
        (c as u8 + 32) as char
    } else {
        c
    }
}

/// A text with its ASCII letters in lower case.
pub fn lower_ascii(v: &Vec<char>, from: usize) -> (r: Vec<char>)
    requires
        from <= v@.len(),
    ensures
        r@ == text::ascii_lower(v@.skip(from as int)),
{
    let mut r: Vec<char> = Vec::new();
    let ghost all = text::ascii_lower(v@.skip(from as int));
    let mut i: usize = from;
    assert(r@ =~= all.take(0));
    while i < v.len()
        invariant
            from <= i <= v@.len(),
            all == text::ascii_lower(v@.skip(from as int)),
            r@ == all.take(i - from),
        decreases v@.len() - i,
    {
        r.push(lower_char(v[i]));
        i = i + 1;
        assert(r@ =~= all.take(i - from));
    }
    assert(all.take(i - from) =~= all);
    r
}

fn exponent(v: &Vec<char>, from: usize) -> (r: bool)
    requires
        from <= v@.len(),
    ensures
        r == is_exponent(v@, from as nat),
{
    if from == v.len() {
        return true;
    }
    if v[from] != 'e' && v[from] != 'E' {
        return false;
    }
    let digits: usize = if from + 1 < v.len() && (v[from + 1] == '+' || v[from + 1] == '-') {
        from + 2
    } else {
        from + 1
    };
    let n: usize = count_digits(v, digits);
    n > 0 && digits + n == v.len()
}

fn decimal_number(v: &Vec<char>, from: usize) -> (r: bool)
    requires
        from <= v@.len(),
    ensures
        r == is_decimal(v@, from as nat),
{
    let whole: usize = count_digits(v, from);
    let point: usize = from + whole;
    if point < v.len() && v[point] == '.' {
        let fraction: usize = count_digits(v, point + 1);
        (whole > 0 || fraction > 0) && exponent(v, point + 1 + fraction)
    } else {
        whole > 0 && exponent(v, point)
    }
}

/// What kind of floating-point number a text is.
pub fn classify_float(v: &Vec<char>) -> (r: FloatText)
    ensures
        r == float_text(v@),
{
    let from: usize = if v.len() > 0 && (v[0] == '+' || v[0] == '-') {
        1
    } else {
        0
    };
    let word = string_of(lower_ascii(v, from).as_slice());
    if same(word.as_str(), "nan") {
        FloatText::NotANumber
    } else if same(word.as_str(), "inf") || same(word.as_str(), "infinity") {
        FloatText::Infinity
    } else if decimal_number(v, from) {
        FloatText::Decimal
    } else {
        FloatText::Malformed
    }
}

/// How many bytes a character takes in UTF-8.
pub open spec fn utf8_len(c: char) -> nat {
    let n = c as u32;
    if n < 0x80 {
        1
    } else if n < 0x800 {
        2
    } else if n < 0x1_0000 {
        3
    } else {
        4
    }
}

/// How many bytes a text takes in UTF-8.
pub open spec fn byte_len(s: Seq<char>) -> nat
    decreases s.len(),
{
    if s.len() == 0 {
        0
    } else {
        byte_len(s.drop_last()) + utf8_len(s.last())
    }
}

/// Whether the first `end` characters take more than `bytes` bytes in UTF-8.
pub fn longer_than(v: &Vec<char>, end: usize, bytes: usize) -> (r: bool)
    requires
        end <= v@.len(),
        bytes <= 0xffff_fff0,
    ensures
        r == (byte_len(v@.take(end as int)) > bytes),
{
    let mut i: usize = 0;
    let mut n: usize = 0;
    while i < end
        invariant
            i <= end <= v@.len(),
            n <= bytes <= 0xffff_fff0,
            n == byte_len(v@.take(i as int)),
        decreases end - i,
    {
        let c: u32 = v[i] as u32;
        let len: usize = if c < 0x80 {
            1
        } else if c < 0x800 {
            2
        } else if c < 0x1_0000 {
            3
        } else {
            4
        };
        assert(v@.take(i + 1).drop_last() =~= v@.take(i as int));
        i = i + 1;
        n = n + len;
        if n > bytes {
            proof {
                byte_len_grows(v@, i as int, end as int);
            }
            return true;
        }
    }
    false
}

pub(crate) proof fn byte_len_grows(s: Seq<char>, i: int, j: int)
    requires
        0 <= i <= j <= s.len(),
    ensures
        byte_len(s.take(i)) <= byte_len(s.take(j)),
    decreases j - i,
{
    if i < j {
        byte_len_grows(s, i, j - 1);
        assert(s.take(j).drop_last() =~= s.take(j - 1));
    }
}

/// How many characters stand before the first white space.
pub open spec fn word_len(s: Seq<char>) -> nat
    decreases s.len(),
{
    if s.len() == 0 || is_white_space(s[0]) {
        0
    } else {
        1 + word_len(s.skip(1))
    }
}

proof fn word_len_bounds(s: Seq<char>)
    ensures
        word_len(s) <= s.len(),
    decreases s.len(),
{
    if s.len() > 0 {
        word_len_bounds(s.skip(1));
    }
}

proof fn trim_start_shortens(s: Seq<char>)
    ensures
        trim_start(s).len() <= s.len(),
    decreases s.len(),
{
    if s.len() > 0 {
        trim_start_shortens(s.skip(1));
    }
}

/// The words of a text: what stands between white space.
pub open spec fn words(s: Seq<char>) -> Seq<Seq<char>>
    decreases s.len(),
    via words_shrink
{
    let t = trim_start(s);
    if t.len() == 0 {
        Seq::empty()
    } else {
        seq![t.take(word_len(t) as int)] + words(t.skip(word_len(t) as int))
    }
}

#[via_fn]
proof fn words_shrink(s: Seq<char>) {
    let t = trim_start(s);
    trim_start_shortens(s);
    trim_start_is_trimmed(s);
    word_len_bounds(t);
    if t.len() > 0 {
        assert(word_len(t) >= 1);
    }
}

proof fn trim_start_is_trimmed(s: Seq<char>)
    ensures
        trim_start(s).len() > 0 ==> !is_white_space(trim_start(s)[0]),
    decreases s.len(),
{
    if s.len() > 0 {
        trim_start_is_trimmed(s.skip(1));
    }
}

/// Splits a text into its words.
pub fn split_words(v: &Vec<char>) -> (r: Vec<Vec<char>>)
    ensures
        views(r@) == words(v@),
{
    let mut r: Vec<Vec<char>> = Vec::new();
    let mut at: usize = 0;
    assert(v@.skip(0) =~= v@);
    assert(views(r@) + words(v@.skip(0)) =~= words(v@));
    loop
        invariant
            at <= v@.len(),
            views(r@) + words(v@.skip(at as int)) == words(v@),
        decreases v@.len() - at,
    {
        let mut start: usize = at;
        let ghost rest = v@.skip(at as int);
        while start < v.len() && white_space(v[start])
            invariant
                at <= start <= v@.len(),
                rest == v@.skip(at as int),
                trim_start(rest) == trim_start(v@.skip(start as int)),
            decreases v@.len() - start,
        {
            assert(v@.skip(start as int)[0] == v@[start as int]);
            assert(v@.skip(start as int).skip(1) =~= v@.skip(start + 1));
            start = start + 1;
        }
        let ghost t = v@.skip(start as int);
        proof {
            if start < v@.len() {
                assert(t[0] == v@[start as int]);
            }
            assert(trim_start(rest) == t);
        }
        if start == v.len() {
            assert(words(rest) =~= Seq::<Seq<char>>::empty());
            assert(views(r@) =~= words(v@));
            return r;
        }
        let mut end: usize = start;
        while end < v.len() && !white_space(v[end])
            invariant
                start <= end <= v@.len(),
                t == v@.skip(start as int),
                word_len(t) == (end - start) + word_len(v@.skip(end as int)),
            decreases v@.len() - end,
        {
            assert(v@.skip(end as int)[0] == v@[end as int]);
            assert(v@.skip(end as int).skip(1) =~= v@.skip(end + 1));
            end = end + 1;
        }
        proof {
            if end < v@.len() {
                assert(v@.skip(end as int)[0] == v@[end as int]);
            }
            assert(word_len(t) == end - start);
        }
        let ghost before = r@;
        let word = part(v, start, end);
        assert(word@ =~= t.take(end - start));
        assert(t.skip(end - start) =~= v@.skip(end as int));
        r.push(word);
        assert(views(r@) =~= views(before).push(word@));
        assert(views(r@) + words(v@.skip(end as int)) =~= views(before) + words(rest));
        at = end;
    }
}

/// Why a text is no integer of a type.
#[derive(Clone, Copy, Debug, PartialEq, Eq, Structural)]
pub enum IntegerError {
    Empty,
    InvalidDigit,
    TooLarge,
    TooSmall,
}

impl IntegerError {
    /// The text of the error.
    pub open spec fn text(self) -> Seq<char> {
        match self {
            IntegerError::Empty => "cannot parse integer from empty string"@,
            IntegerError::InvalidDigit => "invalid digit found in string"@,
            IntegerError::TooLarge => "number too large to fit in target type"@,
            IntegerError::TooSmall => "number too small to fit in target type"@,
        }
    }

    pub fn message(&self) -> (s: &'static str)
        ensures
            s@ == self.text(),
    {
        match self {
            IntegerError::Empty => "cannot parse integer from empty string",
            IntegerError::InvalidDigit => "invalid digit found in string",
            IntegerError::TooLarge => "number too large to fit in target type",
            IntegerError::TooSmall => "number too small to fit in target type",
        }
    }
}

/// Reads digits from `from` on, left to right, as far as the number fits; the
/// first character that is no digit, or at which the number no longer fits,
/// decides.
pub open spec fn read_i64(s: Seq<char>, negative: bool, from: nat, acc: int) -> Result<
    i64,
    IntegerError,
>
    decreases s.len() - from,
{
    if from >= s.len() {
        Ok(acc as i64)
    } else if !is_digit(s[from as int]) {
        Err(IntegerError::InvalidDigit)
    } else {
        let d = s[from as int] as u32 - 48;
        let next = if negative {
            acc * 10 - d
        } else {
            acc * 10 + d
        };
        if next > i64::MAX {
            Err(IntegerError::TooLarge)
        } else if next < i64::MIN {
            Err(IntegerError::TooSmall)
        } else {
            read_i64(s, negative, from + 1, next)
        }
    }
}

/// The 64-bit integer that a text stands for, or why it stands for none.
pub open spec fn i64_text(s: Seq<char>) -> Result<i64, IntegerError> {
    if s.len() == 0 {
        Err(IntegerError::Empty)
    } else if s[0] == '+' || s[0] == '-' {
        if s.len() == 1 {
            Err(IntegerError::InvalidDigit)
        } else {
            read_i64(s, s[0] == '-', 1, 0)
        }
    } else {
        read_i64(s, false, 0, 0)
    }
}

/// Parses a 64-bit integer.
pub fn parse_i64(v: &Vec<char>) -> (r: Result<i64, IntegerError>)
    ensures
        r == i64_text(v@),
{
    if v.len() == 0 {
        return Err(IntegerError::Empty);
    }
    let signed: bool = v[0] == '+' || v[0] == '-';
    let negative: bool = v[0] == '-';
    if signed && v.len() == 1 {
        return Err(IntegerError::InvalidDigit);
    }
    let mut i: usize = if signed {
        1
    } else {
        0
    };
    let mut acc: i128 = 0;
    let ghost result = i64_text(v@);
    while i < v.len()
        invariant
            i <= v@.len(),
            i64::MIN <= acc <= i64::MAX,
            result == i64_text(v@),
            result == read_i64(v@, negative, i as nat, acc as int),
        decreases v@.len() - i,
    {
        if !digit(v[i]) {
            return Err(IntegerError::InvalidDigit);
        }
        let d: i128 = (v[i] as u32 - 48) as i128;
        let next: i128 = if negative {
            acc * 10 - d
        } else {
            acc * 10 + d
        };
        if next > i64::MAX as i128 {
            return Err(IntegerError::TooLarge);
        }
        if next < i64::MIN as i128 {
            return Err(IntegerError::TooSmall);
        }
        acc = next;
        i = i + 1;
    }
    Ok(acc as i64)
}

/// One more character behind digits that were read.
proof fn reading_goes_on(s: Seq<char>, c: char, negative: bool, from: nat, acc: int)
    requires
        from <= s.len(),
        i64::MIN <= acc <= i64::MAX,
        read_i64(s, negative, from, acc) is Ok,
        is_digit(c),
    ensures
        ({
            let read = read_i64(s, negative, from, acc)->Ok_0 as int;
            let d = c as u32 - 48;
            let next = if negative {
                read * 10 - d
            } else {
                read * 10 + d
            };
            i64::MIN <= next <= i64::MAX ==> read_i64(s.push(c), negative, from, acc) == Ok::<
                i64,
                IntegerError,
            >(next as i64)
        }),
    decreases s.len() - from,
{
    let t = s.push(c);
    if from < s.len() {
        assert(t[from as int] == s[from as int]);
        let d = s[from as int] as u32 - 48;
        let next = if negative {
            acc * 10 - d
        } else {
            acc * 10 + d
        };
        reading_goes_on(s, c, negative, from + 1, next);
    } else {
        assert(t[from as int] == c);
        reveal_with_fuel(read_i64, 2);
    }
}

proof fn decimal_reads_back(prefix: Seq<char>, n: nat, negative: bool)
    requires
        if negative {
            -n >= i64::MIN
        } else {
            n <= i64::MAX
        },
    ensures
        read_i64(prefix + text::decimal(n), negative, prefix.len(), 0) == Ok::<i64, IntegerError>(
            if negative {
                (-n) as i64
            } else {
                n as i64
            },
        ),
    decreases n,
{
    let c = text::digit_char(n);
    let d = n % 10;
    assert(is_digit(c) && c as u32 - 48 == d);
    if n < 10 {
        let s = prefix + text::decimal(n);
        assert(s =~= prefix.push(c));
        reading_goes_on(prefix, c, negative, prefix.len(), 0);
    } else {
        decimal_reads_back(prefix, n / 10, negative);
        let s = prefix + text::decimal(n / 10);
        assert(prefix + text::decimal(n) =~= s.push(c));
        reading_goes_on(s, c, negative, prefix.len(), 0);
    }
}

proof fn decimal_starts_with_digit(n: nat)
    ensures
        text::decimal(n).len() > 0,
        is_digit(text::decimal(n)[0]),
    decreases n,
{
    if n >= 10 {
        decimal_starts_with_digit(n / 10);
    }
}

/// An integer reads back from the text that it is printed as.
pub proof fn printed_integer_reads_back(n: i64)
    ensures
        i64_text(text::signed_decimal(n as int)) == Ok::<i64, IntegerError>(n),
{
    if n < 0 {
        let m = (-n) as nat;
        decimal_starts_with_digit(m);
        decimal_reads_back(seq!['-'], m, true);
        assert((seq!['-'] + text::decimal(m))[0] == '-');
    } else {
        decimal_starts_with_digit(n as nat);
        decimal_reads_back(Seq::empty(), n as nat, false);
        assert(Seq::<char>::empty() + text::decimal(n as nat) =~= text::decimal(n as nat));
    }
}

} // verus!
