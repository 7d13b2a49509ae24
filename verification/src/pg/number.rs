//! Numbers in the formats of `to_char`.
//!
//! A format is read first; it says how many digits the number needs behind the
//! point. The number is then printed with that many digits, and the digits are
//! laid out as the format says.

use vstd::prelude::*;
use vstd::string::StringExecFns;
use crate::scan;
use crate::scan::{find_from, split_on};
use crate::text;
use crate::text::{chars_of, string_of, to_uppercase};

verus! {

/// Where the sign of a number goes.
#[derive(Clone, Copy, Debug, PartialEq, Eq, Structural)]
pub enum SignStyle {
    /// Angle brackets around negative numbers, spaces around others.
    Brackets,
    /// A plus or minus sign in front.
    Leading,
    /// A plus or minus sign behind.
    Trailing,
    /// A minus sign or a space behind.
    TrailingMinus,
    /// A minus sign or a space in front.
    Plain,
}

/// A format for numbers.
#[derive(Clone, Copy, Debug, PartialEq, Eq, Structural)]
pub struct NumberFormat {
    /// Digits before the point.
    pub integer_digits: usize,
    /// Digits behind the point.
    pub decimal_digits: usize,
    /// Whether missing digits before the point are shown as zeros.
    pub zero_padded: bool,
    /// Whether missing digits before the point are left out.
    pub fill_mode: bool,
    pub sign: SignStyle,
}

/// Whether `a` and `b` stand side by side.
pub open spec fn has_pair(s: Seq<char>, a: char, b: char) -> bool {
    exists|i: int| 0 <= i < s.len() - 1 && #[trigger] s[i] == a && s[i + 1] == b
}

fn find_pair(v: &Vec<char>, a: char, b: char) -> (r: bool)
    ensures
        r == has_pair(v@, a, b),
{
    let mut i: usize = 0;
    while i < v.len() && v.len() - i > 1
        invariant
            i <= v@.len(),
            forall|j: int| 0 <= j < i && j < v@.len() - 1 ==> !(#[trigger] v@[j] == a && v@[j + 1] == b),
        decreases v@.len() - i,
    {
        if v[i] == a && v[i + 1] == b {
            assert(v@[i as int] == a);
            return true;
        }
        i = i + 1;
    }
    false
}

/// Where the digits behind the point start: at the first point or `D`.
pub open spec fn point(s: Seq<char>) -> nat {
    let letter = scan::first_index(s, 'D', 0);
    let dot = scan::first_index(s, '.', 0);
    if letter <= dot {
        letter
    } else {
        dot
    }
}

/// How many of the characters from `from` to `to` stand for a digit.
pub open spec fn digit_places(s: Seq<char>, from: nat, to: nat) -> nat
    decreases to - from,
{
    if from >= to {
        0
    } else {
        digit_places(s, from, (to - 1) as nat) + (if s[to - 1] == '9' || s[to - 1] == '0' {
            1nat
        } else {
            0
        })
    }
}

fn count_places(v: &Vec<char>, from: usize, to: usize) -> (n: usize)
    requires
        from <= to <= v@.len(),
    ensures
        n == digit_places(v@, from as nat, to as nat),
{
    let mut n: usize = 0;
    let mut i: usize = from;
    while i < to
        invariant
            from <= i <= to <= v@.len(),
            n == digit_places(v@, from as nat, i as nat),
            n <= i - from,
        decreases to - i,
    {
        if v[i] == '9' || v[i] == '0' {
            n = n + 1;
        }
        i = i + 1;
    }
    n
}

/// The sign style of a format in upper case.
pub open spec fn sign_style(s: Seq<char>) -> SignStyle {
    let n = s.len();
    let first = scan::first_index(s, 'S', 0);
    if has_pair(s, 'P', 'R') {
        SignStyle::Brackets
    } else if first < n {
        if first == 0 {
            SignStyle::Leading
        } else {
            SignStyle::Trailing
        }
    } else if n >= 2 && ((s[0] == 'M' && s[1] == 'I') || (s[n - 2] == 'M' && s[n - 1] == 'I')) {
        SignStyle::TrailingMinus
    } else {
        SignStyle::Plain
    }
}

/// What a format in upper case says.
pub open spec fn number_format(s: Seq<char>) -> NumberFormat {
    let p = point(s);
    NumberFormat {
        integer_digits: digit_places(s, 0, p) as usize,
        decimal_digits: digit_places(s, p, s.len()) as usize,
        zero_padded: scan::first_index(s, '0', 0) < p,
        fill_mode: has_pair(s, 'F', 'M'),
        sign: sign_style(s),
    }
}

/// Reads a format in upper case.
pub fn read_number_format(v: &Vec<char>) -> (f: NumberFormat)
    ensures
        f == number_format(v@),
{
    let letter: usize = find_from(v, 'D', 0);
    let dot: usize = find_from(v, '.', 0);
    let point: usize = if letter <= dot {
        letter
    } else {
        dot
    };
    let first: usize = find_from(v, 'S', 0);
    let n: usize = v.len();
    let sign: SignStyle = if find_pair(v, 'P', 'R') {
        SignStyle::Brackets
    } else if first < n {
        if first == 0 {
            SignStyle::Leading
        } else {
            SignStyle::Trailing
        }
    } else if n >= 2 && ((v[0] == 'M' && v[1] == 'I') || (v[n - 2] == 'M' && v[n - 1] == 'I')) {
        SignStyle::TrailingMinus
    } else {
        SignStyle::Plain
    };
    NumberFormat {
        integer_digits: count_places(v, 0, point),
        decimal_digits: count_places(v, point, n),
        zero_padded: find_from(v, '0', 0) < point,
        fill_mode: find_pair(v, 'F', 'M'),
        sign,
    }
}

/// Reads a format.
pub fn to_char_format(format: &str) -> (f: NumberFormat)
    ensures
        f == number_format(text::uppercase(format@)),
{
    read_number_format(&chars_of(to_uppercase(format).as_str()))
}

/// How a number is to be printed before it is laid out.
#[derive(Clone, Copy, Debug, PartialEq, Eq, Structural)]
pub enum Digits {
    /// As it is, sign and all; it is not laid out.
    Unformatted,
    /// Without its sign and its fraction.
    Whole,
    /// Without its sign, with so many digits behind the point.
    Rounded(usize),
}

impl NumberFormat {
    /// How a number is to be printed for this format.
    pub open spec fn wanted(self) -> Digits {
        if self.integer_digits == 0 && self.decimal_digits == 0 {
            Digits::Unformatted
        } else if self.decimal_digits > 0 {
            Digits::Rounded(self.decimal_digits)
        } else {
            Digits::Whole
        }
    }

    /// How a number is to be printed for this format.
    pub fn digits(&self) -> (d: Digits)
        ensures
            d == self.wanted(),
    {
        if self.integer_digits == 0 && self.decimal_digits == 0 {
            Digits::Unformatted
        } else if self.decimal_digits > 0 {
            Digits::Rounded(self.decimal_digits)
        } else {
            Digits::Whole
        }
    }
}

/// A text with `c` in front of it until it has `width` characters.
pub open spec fn pad_left(s: Seq<char>, width: nat, c: char) -> Seq<char> {
    Seq::new(
        if width > s.len() {
            (width - s.len()) as nat
        } else {
            0
        },
        |i: int| c,
    ) + s
}

fn padded(v: &Vec<char>, width: usize, c: char) -> (r: Vec<char>)
    ensures
        r@ == pad_left(v@, width as nat, c),
{
    let mut r: Vec<char> = Vec::new();
    let missing: usize = if width > v.len() {
        width - v.len()
    } else {
        0
    };
    let mut i: usize = 0;
    while i < missing
        invariant
            i <= missing,
            r@ == Seq::new(i as nat, |k: int| c),
        decreases missing - i,
    {
        r.push(c);
        i = i + 1;
        assert(r@ =~= Seq::new(i as nat, |k: int| c));
    }
    let mut rest = vstd::slice::slice_to_vec(v.as_slice());
    r.append(&mut rest);
    assert(r@ =~= pad_left(v@, width as nat, c));
    r
}

/// The digits of a number laid out without its sign. `printed` is the number
/// as `wanted` says.
pub open spec fn body(f: NumberFormat, printed: Seq<char>) -> Seq<char> {
    let parts = scan::split(printed, '.');
    let whole = if f.fill_mode {
        parts[0]
    } else {
        pad_left(
            parts[0],
            f.integer_digits as nat,
            if f.zero_padded {
                '0'
            } else {
                ' '
            },
        )
    };
    if f.decimal_digits > 0 {
        whole + "."@ + (if parts.len() > 1 {
            parts[1]
        } else {
            Seq::empty()
        })
    } else {
        whole
    }
}

/// A number laid out. `printed` is the number as `wanted` says.
pub open spec fn laid_out(f: NumberFormat, negative: bool, printed: Seq<char>) -> Seq<char> {
    let b = body(f, printed);
    if f.wanted() == Digits::Unformatted {
        printed
    } else {
        match f.sign {
            SignStyle::Brackets => if negative {
                "<"@ + b + ">"@
            } else {
                " "@ + b + " "@
            },
            SignStyle::Leading => if negative {
                "-"@ + b
            } else {
                "+"@ + b
            },
            SignStyle::Trailing => if negative {
                b + "-"@
            } else {
                b + "+"@
            },
            SignStyle::TrailingMinus => if negative {
                b + "-"@
            } else {
                b + " "@
            },
            SignStyle::Plain => if negative {
                "-"@ + b
            } else {
                " "@ + b
            },
        }
    }
}

fn lay_out_body(f: NumberFormat, printed: &str) -> (r: String)
    ensures
        r@ == body(f, printed@),
{
    let parts = split_on(&chars_of(printed), '.');
    let ghost views = scan::views(parts@);
    assert(views[0] == parts@[0]@);
    let mut r = if f.fill_mode {
        string_of(parts[0].as_slice())
    } else {
        let c: char = if f.zero_padded {
            '0'
        } else {
            ' '
        };
        string_of(padded(&parts[0], f.integer_digits, c).as_slice())
    };
    if f.decimal_digits > 0 {
        r.append(".");
        if parts.len() > 1 {
            assert(views[1] == parts@[1]@);
            r.append(string_of(parts[1].as_slice()).as_str());
        } else {
            assert(r@ =~= r@ + Seq::<char>::empty());
        }
    }
    r
}

/// Lays a number out. `printed` is the number as the format's `digits` say.
pub fn lay_out_number(f: NumberFormat, negative: bool, printed: &str) -> (r: String)
    ensures
        r@ == laid_out(f, negative, printed@),
{
    if f.digits() == Digits::Unformatted {
        return printed.to_owned();
    }
    let b = lay_out_body(f, printed);
    let (left, right): (&str, &str) = match f.sign {
        SignStyle::Brackets => if negative {
            ("<", ">")
        } else {
            (" ", " ")
        },
        SignStyle::Leading => if negative {
            ("-", "")
        } else {
            ("+", "")
        },
        SignStyle::Trailing => if negative {
            ("", "-")
        } else {
            ("", "+")
        },
        SignStyle::TrailingMinus => if negative {
            ("", "-")
        } else {
            ("", " ")
        },
        SignStyle::Plain => if negative {
            ("-", "")
        } else {
            (" ", "")
        },
    };
    let mut r = left.to_owned();
    r.append(b.as_str());
    r.append(right);
    proof {
        reveal_strlit("");
        assert(""@ =~= Seq::<char>::empty());
        assert(""@ + b@ =~= b@);
        assert("-"@ + b@ + ""@ =~= "-"@ + b@);
        assert("+"@ + b@ + ""@ =~= "+"@ + b@);
        assert(" "@ + b@ + ""@ =~= " "@ + b@);
    }
    r
}

/// Laid out behind a sign, a number has as many places before the point as the
/// format, or more where it has more digits, and the point stands where the
/// format puts it.
pub proof fn layout_keeps_places(f: NumberFormat, printed: Seq<char>)
    requires
        !f.fill_mode,
        f.decimal_digits == 0,
        scan::first_index(printed, '.', 0) == printed.len(),
    ensures
        body(f, printed).len() == (if printed.len() > f.integer_digits {
            printed.len()
        } else {
            f.integer_digits as nat
        }),
{
    assert(printed.skip(0) =~= printed);
}

} // verus!
