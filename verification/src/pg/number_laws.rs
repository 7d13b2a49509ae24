//! What a number looks like in a format.

use vstd::prelude::*;
use crate::pg::number;
use crate::pg::number::{Digits, NumberFormat, SignStyle};
use crate::scan;
use crate::scan_laws;

verus! {

/// Whether a style puts the sign behind the number.
pub open spec fn behind(sign: SignStyle) -> bool {
    sign == SignStyle::Trailing || sign == SignStyle::TrailingMinus
}

/// A number is laid out as its digits with one sign before or behind them, or with
/// brackets on both sides. The sign tells negative numbers from others.
pub proof fn signs_tell_negative_numbers(f: NumberFormat, negative: bool, printed: Seq<char>)
    requires
        f.wanted() != Digits::Unformatted,
    ensures
        ({
            let r = number::laid_out(f, negative, printed);
            let b = number::body(f, printed);
            &&& f.sign == SignStyle::Brackets ==> r.len() == b.len() + 2 && r.subrange(
                1,
                r.len() - 1,
            ) == b && (r[0] == '<' <==> negative) && (r.last() == '>' <==> negative) && (r[0]
                == ' ' <==> !negative) && (r.last() == ' ' <==> !negative)
            &&& f.sign != SignStyle::Brackets && behind(f.sign) ==> r.len() == b.len() + 1
                && r.drop_last() == b && (r.last() == '-' <==> negative)
            &&& f.sign != SignStyle::Brackets && !behind(f.sign) ==> r.len() == b.len() + 1
                && r.skip(1) == b && (r[0] == '-' <==> negative)
            &&& f.sign == SignStyle::Leading && !negative ==> r[0] == '+'
            &&& f.sign == SignStyle::Trailing && !negative ==> r.last() == '+'
            &&& f.sign == SignStyle::Plain && !negative ==> r[0] == ' '
            &&& f.sign == SignStyle::TrailingMinus && !negative ==> r.last() == ' '
        }),
{
    reveal_strlit("<");
    reveal_strlit(">");
    reveal_strlit(" ");
    reveal_strlit("-");
    reveal_strlit("+");
    let r = number::laid_out(f, negative, printed);
    let b = number::body(f, printed);
    if f.sign == SignStyle::Brackets {
        assert(r.subrange(1, r.len() - 1) =~= b);
    } else if behind(f.sign) {
        assert(r.drop_last() =~= b);
    } else {
        assert(r.skip(1) =~= b);
    }
}

/// Digits are never lost: those before the point stand at the right end of their
/// places, filled up from the left, and those behind it follow the point.
pub proof fn digits_are_kept(f: NumberFormat, whole: Seq<char>, rest: Seq<char>)
    requires
        scan_laws::lacks(whole, '.'),
        scan_laws::lacks(rest, '.'),
    ensures
        ({
            let b = number::body(f, whole + seq!['.'] + rest);
            let w = if f.fill_mode || whole.len() >= f.integer_digits {
                whole.len() as int
            } else {
                f.integer_digits as int
            };
            &&& f.decimal_digits > 0 ==> b.len() == w + 1 + rest.len() && b[w] == '.' && b.skip(w + 1)
                == rest
            &&& f.decimal_digits == 0 ==> b.len() == w
            &&& b.subrange(w - whole.len(), w) == whole
            &&& forall|i: int|
                0 <= i < w - whole.len() ==> #[trigger] b[i] == if f.zero_padded {
                    '0'
                } else {
                    ' '
                }
        }),
{
    reveal_strlit(".");
    scan_laws::a_part_ends_at_the_separator(whole, '.', rest);
    scan_laws::a_text_without_the_separator_is_one_part(rest, '.');
    let printed = whole + seq!['.'] + rest;
    let parts = scan::split(printed, '.');
    assert(parts =~= seq![whole, rest]);
    assert(parts[0] == whole && parts[1] == rest);
    let b = number::body(f, printed);
    let w = if f.fill_mode || whole.len() >= f.integer_digits {
        whole.len() as int
    } else {
        f.integer_digits as int
    };
    assert(b.subrange(w - whole.len(), w) =~= whole);
    if f.decimal_digits > 0 {
        assert(b.skip(w + 1) =~= rest);
    }
}

/// A format of so many nines before a point and so many behind it.
pub open spec fn nines(a: nat, b: nat) -> Seq<char> {
    Seq::new(a, |i: int| '9') + seq!['.'] + Seq::new(b, |i: int| '9')
}

proof fn places_are_counted(s: Seq<char>, from: nat, to: nat)
    requires
        from <= to <= s.len(),
        forall|i: int| from <= i < to ==> #[trigger] s[i] == '9',
    ensures
        number::digit_places(s, from, to) == to - from,
    decreases to - from,
{
    if from < to {
        places_are_counted(s, from, (to - 1) as nat);
        assert(s[to - 1] == '9');
    }
}

proof fn first_is_not_before(s: Seq<char>, c: char, from: nat, at: nat)
    requires
        from <= at <= s.len(),
        forall|i: int| from <= i < at ==> #[trigger] s[i] != c,
        at == s.len() || s[at as int] == c,
    ensures
        scan::first_index(s, c, from) == at,
    decreases at - from,
{
    if from < at {
        first_is_not_before(s, c, from + 1, at);
    }
}

proof fn places_behind_the_point(s: Seq<char>, p: nat, to: nat)
    requires
        p < to <= s.len(),
        s[p as int] == '.',
        forall|i: int| p < i < to ==> #[trigger] s[i] == '9',
    ensures
        number::digit_places(s, p, to) == to - p - 1,
    decreases to - p,
{
    if to > p + 1 {
        places_behind_the_point(s, p, (to - 1) as nat);
        assert(s[to - 1] == '9');
    } else {
        assert(number::digit_places(s, p, p) == 0);
    }
}

/// A format has as many digits before and behind the point as it has nines there.
pub proof fn nines_stand_for_digits(a: nat, b: nat)
    requires
        a + b + 1 <= usize::MAX,
    ensures
        ({
            let f = number::number_format(nines(a, b));
            &&& f.integer_digits == a
            &&& f.decimal_digits == b
            &&& !f.zero_padded
            &&& !f.fill_mode
            &&& f.sign == SignStyle::Plain
        }),
{
    let s = nines(a, b);
    first_is_not_before(s, 'D', 0, s.len());
    first_is_not_before(s, 'S', 0, s.len());
    first_is_not_before(s, '0', 0, s.len());
    first_is_not_before(s, '.', 0, a);
    places_are_counted(s, 0, a);
    places_behind_the_point(s, a, s.len());
    assert forall|i: int| 0 <= i < s.len() implies #[trigger] s[i] == '9' || s[i] == '.' by {}
}

} // verus!
