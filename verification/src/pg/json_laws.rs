//! Which texts are balanced.

use vstd::prelude::*;
use crate::pg::json;
use crate::pg::json::BraceScan;
use crate::scan;

verus! {

proof fn scanning_goes_on(st: BraceScan, a: Seq<char>, b: Seq<char>, n: nat)
    requires
        n <= b.len(),
    ensures
        json::scan_text(st, a + b, a.len() + n) == match json::scan_text(st, a, a.len()) {
            Some(mid) => json::scan_text(mid, b, n),
            None => None,
        },
    decreases n,
{
    if n == 0 {
        scanning_goes_by_prefix(st, a, a + b, a.len());
    } else {
        scanning_goes_on(st, a, b, (n - 1) as nat);
        assert((a + b)[a.len() + n - 1] == b[n - 1]);
    }
}

proof fn scanning_goes_by_prefix(st: BraceScan, a: Seq<char>, b: Seq<char>, n: nat)
    requires
        n <= a.len(),
        n <= b.len(),
        forall|i: int| 0 <= i < n ==> a[i] == b[i],
    ensures
        json::scan_text(st, a, n) == json::scan_text(st, b, n),
    decreases n,
{
    if n > 0 {
        scanning_goes_by_prefix(st, a, b, (n - 1) as nat);
    }
}

proof fn escapes_need_a_string(s: Seq<char>, n: nat)
    requires
        n <= s.len(),
    ensures
        json::scan_text(json::scan_start(), s, n) matches Some(st) ==> st.escape ==> st.in_string,
    decreases n,
{
    if n > 0 {
        escapes_need_a_string(s, (n - 1) as nat);
    }
}

/// One balanced text behind another is balanced.
pub proof fn balanced_texts_follow_one_another(a: Seq<char>, b: Seq<char>)
    requires
        json::balanced(a),
    ensures
        json::balanced(a + b) <==> json::balanced(b),
{
    scanning_goes_on(json::scan_start(), a, b, b.len());
    escapes_need_a_string(a, a.len());
    let mid = json::scan_text(json::scan_start(), a, a.len())->Some_0;
    assert(mid.open =~= json::scan_start().open);
    assert(mid == json::scan_start());
}

/// A bracket that closes what is not open, or opens what is not closed, is not
/// balanced, wherever in the text it stands.
pub proof fn stray_brackets_are_not_balanced(s: Seq<char>, c: char)
    requires
        json::balanced(s),
        c == '}' || c == ']' || c == '{' || c == '[' || c == '"',
    ensures
        !json::balanced(s + seq![c]),
        !json::balanced(seq![c]),
{
    balanced_texts_follow_one_another(s, seq![c]);
    let one = seq![c];
    assert(one[0] == c);
    reveal_with_fuel(json::scan_text, 2);
}

/// Brackets inside of a string do not count.
pub proof fn brackets_in_strings_do_not_count(s: Seq<char>)
    requires
        forall|i: int| 0 <= i < s.len() ==> #[trigger] s[i] != '"' && s[i] != '\\',
    ensures
        json::balanced(seq!['"'] + s + seq!['"']),
{
    let open = seq!['"'];
    let st = BraceScan { in_string: true, ..json::scan_start() };
    assert(open[0] == '"');
    assert(json::scan_text(json::scan_start(), open, 1) == Some(st)) by {
        reveal_with_fuel(json::scan_text, 2);
    }
    strings_go_on(st, s, s.len());
    scanning_goes_on(json::scan_start(), open, s, s.len());
    scanning_goes_on(json::scan_start(), open + s, open, 1);
    assert(json::scan_text(st, open, 1) == Some(json::scan_start())) by {
        reveal_with_fuel(json::scan_text, 2);
    }
}

proof fn strings_go_on(st: BraceScan, s: Seq<char>, n: nat)
    requires
        n <= s.len(),
        st.in_string,
        !st.escape,
        forall|i: int| 0 <= i < s.len() ==> #[trigger] s[i] != '"' && s[i] != '\\',
    ensures
        json::scan_text(st, s, n) == Some(st),
    decreases n,
{
    if n > 0 {
        strings_go_on(st, s, (n - 1) as nat);
        assert(s[n - 1] != '"');
    }
}

/// What looks like an object or an array is balanced and closed by the bracket that
/// belongs to the one that opens it.
pub proof fn objects_and_arrays_are_balanced(s: Seq<char>)
    requires
        json::looks_like_json(s),
        scan::trim(s)[0] == '{' || scan::trim(s)[0] == '[',
    ensures
        json::balanced(scan::trim(s)),
        scan::trim(s)[0] == '{' <==> scan::trim(s).last() == '}',
        scan::trim(s)[0] == '[' <==> scan::trim(s).last() == ']',
{
}

} // verus!
