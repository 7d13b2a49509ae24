//! What scanning gives back of what was put together.

use vstd::prelude::*;
use crate::scan;
use crate::text;

verus! {

/// Whether a character occurs nowhere in a text.
pub open spec fn lacks(s: Seq<char>, c: char) -> bool {
    forall|i: int| 0 <= i < s.len() ==> #[trigger] s[i] != c
}

proof fn first_index_is_first(s: Seq<char>, c: char, from: nat)
    requires
        from <= s.len(),
    ensures
        from <= scan::first_index(s, c, from) <= s.len(),
        scan::first_index(s, c, from) < s.len() ==> s[scan::first_index(s, c, from) as int] == c,
        forall|i: int| from <= i < scan::first_index(s, c, from) ==> #[trigger] s[i] != c,
    decreases s.len() - from,
{
    if from < s.len() && s[from as int] != c {
        first_index_is_first(s, c, from + 1);
    }
}

proof fn first_index_shifts(a: Seq<char>, b: Seq<char>, c: char, from: nat)
    requires
        from <= b.len(),
    ensures
        scan::first_index(a + b, c, a.len() + from) == a.len() + scan::first_index(b, c, from),
    decreases b.len() - from,
{
    if from < b.len() {
        assert((a + b)[(a.len() + from) as int] == b[from as int]);
        if b[from as int] != c {
            first_index_shifts(a, b, c, from + 1);
        }
    }
}

proof fn split_shifts(a: Seq<char>, b: Seq<char>, c: char, from: nat)
    requires
        from <= b.len(),
    ensures
        scan::split_from(a + b, c, a.len() + from) =~= scan::split_from(b, c, from),
    decreases b.len() - from,
{
    first_index_shifts(a, b, c, from);
    first_index_is_first(b, c, from);
    let i = scan::first_index(b, c, from);
    assert((a + b).subrange((a.len() + from) as int, (a.len() + i) as int) =~= b.subrange(
        from as int,
        i as int,
    ));
    if i < b.len() {
        split_shifts(a, b, c, i + 1);
    }
}

/// A text in front of a separator is the first of the parts, if the separator is
/// not in it; the others are those of what follows.
pub proof fn a_part_ends_at_the_separator(a: Seq<char>, c: char, b: Seq<char>)
    requires
        lacks(a, c),
    ensures
        scan::split(a + seq![c] + b, c) == seq![a] + scan::split(b, c),
{
    let s = a + seq![c] + b;
    first_index_is_first(s, c, 0);
    let i = scan::first_index(s, c, 0);
    assert(s[a.len() as int] == c);
    assert(i == a.len()) by {
        if i < a.len() {
            assert(s[i as int] == a[i as int]);
        }
    }
    assert(s.subrange(0, a.len() as int) =~= a);
    let head = a + seq![c];
    split_shifts(head, b, c, 0);
    assert(scan::split_from(s, c, (i + 1) as nat) =~= scan::split(b, c));
    assert(scan::split(s, c) =~= seq![a] + scan::split(b, c));
}

/// A text without the separator is one part.
pub proof fn a_text_without_the_separator_is_one_part(a: Seq<char>, c: char)
    requires
        lacks(a, c),
    ensures
        scan::split(a, c) == seq![a],
{
    first_index_is_first(a, c, 0);
    let i = scan::first_index(a, c, 0);
    if i < a.len() {
        assert(a[i as int] == c);
    }
    assert(a.subrange(0, a.len() as int) =~= a);
    assert(scan::split(a, c) =~= seq![a]);
}

proof fn decimals_are_digits(n: nat)
    ensures
        text::decimal(n).len() > 0,
        scan::all_digits(text::decimal(n)),
        scan::digits_value(text::decimal(n)) == n,
    decreases n,
{
    let s = text::decimal(n);
    if n < 10 {
        assert(s.drop_last() =~= Seq::<char>::empty());
        assert(scan::digits_value(s.drop_last()) == 0);
    } else {
        decimals_are_digits(n / 10);
        assert(s.drop_last() =~= text::decimal(n / 10));
        assert forall|i: int| 0 <= i < s.len() implies scan::is_digit(#[trigger] s[i]) by {
            if i < s.len() - 1 {
                assert(s[i] == text::decimal(n / 10)[i]);
            }
        }
    }
}

/// A printed number reads back, however large it is: with a sign where signs are
/// read, and without one everywhere.
pub proof fn printed_numbers_read_back(n: int)
    ensures
        scan::integer_text(text::signed_decimal(n), true) == Some(n),
        n >= 0 ==> scan::integer_text(text::signed_decimal(n), false) == Some(n),
        n < 0 ==> scan::integer_text(text::signed_decimal(n), false) is None,
{
    if n < 0 {
        let m = (-n) as nat;
        decimals_are_digits(m);
        let s = text::signed_decimal(n);
        assert(s[0] == '-');
        assert(s.skip(1) =~= text::decimal(m));
        assert(!scan::all_digits(s)) by {
            assert(!scan::is_digit(s[0]));
        }
    } else {
        decimals_are_digits(n as nat);
        assert(scan::is_digit(text::decimal(n as nat)[0]));
    }
}

/// A printed number without a sign holds nothing but digits.
pub proof fn printed_numbers_are_digits(n: nat, c: char)
    requires
        !scan::is_digit(c),
    ensures
        text::decimal(n).len() > 0,
        lacks(text::decimal(n), c),
{
    decimals_are_digits(n);
    assert forall|i: int| 0 <= i < text::decimal(n).len() implies #[trigger] text::decimal(n)[i]
        != c by {
        assert(scan::is_digit(text::decimal(n)[i]));
    }
}

/// Whether a text is white space throughout.
pub open spec fn blank(s: Seq<char>) -> bool {
    forall|i: int| 0 <= i < s.len() ==> scan::is_white_space(#[trigger] s[i])
}

proof fn trim_start_drops_blanks(s: Seq<char>) -> (n: nat)
    ensures
        n <= s.len(),
        blank(s.take(n as int)),
        scan::trim_start(s) == s.skip(n as int),
        scan::trim_start(s).len() > 0 ==> !scan::is_white_space(scan::trim_start(s)[0]),
    decreases s.len(),
{
    if s.len() > 0 && scan::is_white_space(s[0]) {
        let n = trim_start_drops_blanks(s.skip(1));
        assert(s.skip(1).skip(n as int) =~= s.skip((n + 1) as int));
        assert forall|i: int| 0 <= i < n + 1 implies scan::is_white_space(
            #[trigger] s.take((n + 1) as int)[i],
        ) by {
            if i > 0 {
                assert(s.skip(1).take(n as int)[i - 1] == s[i]);
            }
        }
        n + 1
    } else {
        assert(s.skip(0) =~= s);
        0
    }
}

proof fn trim_end_drops_blanks(s: Seq<char>) -> (n: nat)
    ensures
        n <= s.len(),
        blank(s.skip(n as int)),
        scan::trim_end(s) == s.take(n as int),
        n > 0 ==> !scan::is_white_space(s[n - 1]),
    decreases s.len(),
{
    if s.len() > 0 && scan::is_white_space(s.last()) {
        let n = trim_end_drops_blanks(s.drop_last());
        assert(s.drop_last().take(n as int) =~= s.take(n as int));
        assert forall|i: int| 0 <= i < s.len() - n implies scan::is_white_space(
            #[trigger] s.skip(n as int)[i],
        ) by {
            if i < s.len() - n - 1 {
                assert(s.drop_last().skip(n as int)[i] == s[i + n]);
            }
        }
        n
    } else {
        assert(s.take(s.len() as int) =~= s);
        s.len()
    }
}

/// Trimming takes white space off both ends, all of it and nothing else.
pub proof fn trimming_takes_blanks_off(s: Seq<char>) -> (r: (Seq<char>, Seq<char>))
    ensures
        s == r.0 + scan::trim(s) + r.1,
        blank(r.0),
        blank(r.1),
        scan::trim(s).len() > 0 ==> !scan::is_white_space(scan::trim(s)[0])
            && !scan::is_white_space(scan::trim(s).last()),
{
    let n = trim_start_drops_blanks(s);
    let t = scan::trim_start(s);
    let k = trim_end_drops_blanks(t);
    assert(s =~= s.take(n as int) + t.take(k as int) + t.skip(k as int));
    (s.take(n as int), t.skip(k as int))
}

/// The words of a text hold no white space, and none is empty.
pub proof fn words_hold_no_blanks(s: Seq<char>, i: int)
    requires
        0 <= i < scan::words(s).len(),
    ensures
        scan::words(s)[i].len() > 0,
        forall|j: int|
            0 <= j < scan::words(s)[i].len() ==> !scan::is_white_space(
                #[trigger] scan::words(s)[i][j],
            ),
    decreases s.len(),
{
    let n0 = trim_start_drops_blanks(s);
    let t = scan::trim_start(s);
    let n = scan::word_len(t);
    word_len_is_a_word(t);
    if i == 0 {
        assert(scan::words(s)[0] == t.take(n as int));
    } else {
        assert(scan::words(s)[i] == scan::words(t.skip(n as int))[i - 1]);
        words_hold_no_blanks(t.skip(n as int), i - 1);
    }
}

proof fn word_len_is_a_word(s: Seq<char>)
    ensures
        scan::word_len(s) <= s.len(),
        forall|i: int| 0 <= i < scan::word_len(s) ==> !scan::is_white_space(#[trigger] s[i]),
        scan::word_len(s) < s.len() ==> scan::is_white_space(s[scan::word_len(s) as int]),
        s.len() > 0 && !scan::is_white_space(s[0]) ==> scan::word_len(s) > 0,
    decreases s.len(),
{
    if s.len() > 0 && !scan::is_white_space(s[0]) {
        word_len_is_a_word(s.skip(1));
        let n = scan::word_len(s.skip(1));
        assert forall|i: int| 0 <= i < n + 1 implies !scan::is_white_space(#[trigger] s[i]) by {
            if i > 0 {
                assert(s.skip(1)[i - 1] == s[i]);
            }
        }
    }
}

} // verus!
