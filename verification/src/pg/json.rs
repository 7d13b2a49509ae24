//! A quick test of whether a text may be JSON.

use vstd::prelude::*;
use crate::scan;
use crate::scan::{FloatText, classify_float, trimmed};
use crate::text::{same, string_of};

verus! {

/// Where the scan of a text stands: the brackets that are to be closed, from
/// the outermost one on, and whether it is inside a string or behind a
/// backslash in one.
pub struct BraceScan {
    pub open: Seq<char>,
    pub in_string: bool,
    pub escape: bool,
}

/// The scan behind one more character; `None` behind a bracket that closes
/// nothing, or something else.
pub open spec fn scan_char(st: BraceScan, c: char) -> Option<BraceScan> {
    if st.escape {
        Some(BraceScan { escape: false, ..st })
    } else if c == '\\' && st.in_string {
        Some(BraceScan { escape: true, ..st })
    } else if c == '"' {
        Some(BraceScan { in_string: !st.in_string, ..st })
    } else if st.in_string {
        Some(st)
    } else if c == '{' {
        Some(BraceScan { open: st.open.push('}'), ..st })
    } else if c == '[' {
        Some(BraceScan { open: st.open.push(']'), ..st })
    } else if c == '}' || c == ']' {
        if st.open.len() > 0 && st.open.last() == c {
            Some(BraceScan { open: st.open.drop_last(), ..st })
        } else {
            None
        }
    } else {
        Some(st)
    }
}

/// The scan behind the first `n` characters.
pub open spec fn scan_text(st: BraceScan, s: Seq<char>, n: nat) -> Option<BraceScan>
    decreases n,
{
    if n == 0 {
        Some(st)
    } else {
        match scan_text(st, s, (n - 1) as nat) {
            Some(st) => scan_char(st, s[n - 1]),
            None => None,
        }
    }
}

/// The scan before the first character.
pub open spec fn scan_start() -> BraceScan {
    BraceScan { open: Seq::empty(), in_string: false, escape: false }
}

/// Whether the brackets of a text are balanced, and its strings are closed.
pub open spec fn balanced(s: Seq<char>) -> bool {
    scan_text(scan_start(), s, s.len()) matches Some(st) && st.open.len() == 0 && !st.in_string
}

/// The scan of a text inside other brackets is the scan of the text alone,
/// above those brackets.
proof fn scan_inside(s: Seq<char>, outer: Seq<char>, n: nat)
    requires
        n <= s.len(),
        scan_text(scan_start(), s, n) is Some,
    ensures
        ({
            let alone = scan_text(scan_start(), s, n)->Some_0;
            scan_text((BraceScan { open: outer, in_string: false, escape: false }), s, n) == Some(
                BraceScan { open: outer + alone.open, ..alone },
            )
        }),
    decreases n,
{
    let below = BraceScan { open: outer, in_string: false, escape: false };
    if n == 0 {
        assert(outer + Seq::<char>::empty() =~= outer);
    } else {
        let k = (n - 1) as nat;
        scan_inside(s, outer, k);
        let alone = scan_text(scan_start(), s, k)->Some_0;
        let c = s[n - 1];
        assert((outer + alone.open).push('}') =~= outer + alone.open.push('}'));
        assert((outer + alone.open).push(']') =~= outer + alone.open.push(']'));
        if alone.open.len() > 0 {
            assert((outer + alone.open).last() == alone.open.last());
            assert((outer + alone.open).drop_last() =~= outer + alone.open.drop_last());
        }
    }
}

proof fn scan_prefix(st: BraceScan, s: Seq<char>, t: Seq<char>, n: nat)
    requires
        n <= s.len(),
        n <= t.len(),
        forall|i: int| 0 <= i < n ==> s[i] == t[i],
    ensures
        scan_text(st, s, n) == scan_text(st, t, n),
    decreases n,
{
    if n > 0 {
        scan_prefix(st, s, t, (n - 1) as nat);
    }
}

proof fn scan_from(st: BraceScan, first: char, s: Seq<char>, n: nat)
    requires
        n <= s.len(),
        scan_char(st, first) is Some,
    ensures
        scan_text(st, seq![first] + s, n + 1) == scan_text(scan_char(st, first)->Some_0, s, n),
    decreases n,
{
    let whole = seq![first] + s;
    if n == 0 {
        reveal_with_fuel(scan_text, 3);
    } else {
        scan_from(st, first, s, (n - 1) as nat);
        assert(whole[n as int] == s[n - 1]);
    }
}

/// Brackets around a text with balanced brackets give such a text again.
pub proof fn brackets_nest(s: Seq<char>)
    requires
        balanced(s),
    ensures
        balanced(seq!['['] + s + seq![']']),
        balanced(seq!['{'] + s + seq!['}']),
{
    nest_between(s, '[', ']');
    nest_between(s, '{', '}');
}

proof fn nest_between(s: Seq<char>, left: char, right: char)
    requires
        balanced(s),
        (left == '[' && right == ']') || (left == '{' && right == '}'),
    ensures
        balanced(seq![left] + s + seq![right]),
{
    let n = s.len();
    let opened = seq![left] + s;
    let whole = opened + seq![right];
    let inner = scan_text(scan_start(), s, n)->Some_0;
    let outer = seq![right];
    assert(Seq::<char>::empty().push(right) =~= outer);
    let start = scan_start();
    assert(scan_char(start, left) == Some(
        BraceScan { open: outer, in_string: false, escape: false },
    ));
    scan_inside(s, outer, n);
    scan_from(start, left, s, n);
    scan_prefix(start, opened, whole, n + 1);
    let last = scan_text(start, whole, n + 1)->Some_0;
    assert(outer + inner.open =~= outer);
    assert(last.open == outer);
    assert(whole[(n + 1) as int] == right);
    if inner.escape {
        unescaped_outside(s, n);
    }
    assert(scan_text(start, whole, n + 2) == scan_char(last, right));
}

/// A backslash counts only inside a string.
proof fn unescaped_outside(s: Seq<char>, n: nat)
    requires
        n <= s.len(),
        scan_text(scan_start(), s, n) is Some,
    ensures
        scan_text(scan_start(), s, n)->Some_0.escape ==> scan_text(
            scan_start(),
            s,
            n,
        )->Some_0.in_string,
    decreases n,
{
    if n > 0 {
        unescaped_outside(s, (n - 1) as nat);
    }
}

/// Checks that brackets are balanced and strings are closed.
pub fn validate_json_braces(v: &Vec<char>) -> (r: bool)
    ensures
        r == balanced(v@),
{
    let mut stack: Vec<char> = Vec::new();
    let mut in_string: bool = false;
    let mut escape: bool = false;
    let mut i: usize = 0;
    let ghost start = scan_start();
    assert(stack@ =~= Seq::<char>::empty());
    while i < v.len()
        invariant
            i <= v@.len(),
            start == scan_start(),
            scan_text(start, v@, i as nat) == Some(BraceScan { open: stack@, in_string, escape }),
        decreases v@.len() - i,
    {
        let ch: char = v[i];
        let ghost before = BraceScan { open: stack@, in_string, escape };
        i = i + 1;
        assert(scan_text(start, v@, i as nat) == scan_char(before, ch));
        if escape {
            escape = false;
        } else if ch == '\\' && in_string {
            escape = true;
        } else if ch == '"' {
            in_string = !in_string;
        } else if !in_string {
            if ch == '{' {
                stack.push('}');
            } else if ch == '[' {
                stack.push(']');
            } else if ch == '}' || ch == ']' {
                let closes: bool = match stack.pop() {
                    Some(open) => open == ch,
                    None => false,
                };
                if !closes {
                    proof {
                        scan_stops(start, v@, i as nat, v@.len());
                    }
                    return false;
                }
            }
        }
    }
    stack.len() == 0 && !in_string
}

proof fn scan_stops(st: BraceScan, s: Seq<char>, n: nat, m: nat)
    requires
        n <= m,
        scan_text(st, s, n) is None,
    ensures
        scan_text(st, s, m) is None,
    decreases m,
{
    if n < m {
        scan_stops(st, s, n, (m - 1) as nat);
    }
}

/// Whether a text looks like JSON: a word, a number, or a string that ends as
/// it starts, or an object or array whose brackets are balanced.
pub open spec fn looks_like_json(s: Seq<char>) -> bool {
    let t = scan::trim(s);
    if t.len() == 0 {
        false
    } else if t[0] == '{' {
        t.last() == '}' && balanced(t)
    } else if t[0] == '[' {
        t.last() == ']' && balanced(t)
    } else if t[0] == '"' {
        t.len() >= 2 && t.last() == '"'
    } else if t[0] == 't' {
        t == "true"@
    } else if t[0] == 'f' {
        t == "false"@
    } else if t[0] == 'n' {
        t == "null"@
    } else if scan::is_digit(t[0]) || t[0] == '-' {
        scan::float_text(t) != FloatText::Malformed
    } else {
        false
    }
}

/// Whether a text looks like JSON.
pub fn is_valid_json(s: &Vec<char>) -> (r: bool)
    ensures
        r == looks_like_json(s@),
{
    let t = trimmed(s);
    if t.len() == 0 {
        return false;
    }
    let first: char = t[0];
    let last: char = t[t.len() - 1];
    if first == '{' {
        last == '}' && validate_json_braces(&t)
    } else if first == '[' {
        last == ']' && validate_json_braces(&t)
    } else if first == '"' {
        t.len() >= 2 && last == '"'
    } else if first == 't' {
        same(string_of(t.as_slice()).as_str(), "true")
    } else if first == 'f' {
        same(string_of(t.as_slice()).as_str(), "false")
    } else if first == 'n' {
        same(string_of(t.as_slice()).as_str(), "null")
    } else if scan::digit(first) || first == '-' {
        classify_float(&t) != FloatText::Malformed
    } else {
        false
    }
}

} // verus!
