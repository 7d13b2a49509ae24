//! Which database the driver is tried on, and names for tables there.

use vstd::prelude::*;
use vstd::string::StringExecFns;
use crate::scan;
use crate::text;
use crate::text::{chars_of, join2, join3, print_u64, starts_with, string_of};

verus! {

/// The database that the driver is tried on.
pub struct TestConfig {
    /// Where it is, with the scheme `https` or `http`.
    pub url: String,
    pub auth_token: String,
}

/// A text without the slashes at its end.
pub open spec fn without_slashes(s: Seq<char>) -> Seq<char>
    decreases s.len(),
{
    if s.len() > 0 && s.last() == '/' {
        without_slashes(s.drop_last())
    } else {
        s
    }
}

/// A URL by which requests can be sent: the schemes of databases stand for
/// `https`; other URLs lose the slashes at their end.
pub open spec fn request_url(url: Seq<char>) -> Seq<char> {
    if text::starts(url, "libsql://"@) {
        "https://"@ + url.skip("libsql://"@.len() as int)
    } else if text::starts(url, "turso://"@) {
        "https://"@ + url.skip("turso://"@.len() as int)
    } else {
        without_slashes(url)
    }
}

fn after_scheme(url: &str, scheme: &str) -> (r: Option<String>)
    ensures
        match r {
            Some(rest) => text::starts(url@, scheme@) && rest@ == url@.skip(scheme@.len() as int),
            None => !text::starts(url@, scheme@),
        },
{
    if starts_with(url, scheme) {
        let v = chars_of(url);
        let n: usize = chars_of(scheme).len();
        let rest = scan::part(&v, n, v.len());
        assert(rest@ =~= url@.skip(n as int));
        Some(string_of(rest.as_slice()))
    } else {
        None
    }
}

fn trim_slashes(url: &str) -> (r: String)
    ensures
        r@ == without_slashes(url@),
{
    let v = chars_of(url);
    let mut n: usize = v.len();
    assert(v@.take(n as int) =~= v@);
    while n > 0 && v[n - 1] == '/'
        invariant
            n <= v@.len(),
            without_slashes(v@) == without_slashes(v@.take(n as int)),
        decreases n,
    {
        assert(v@.take(n as int).last() == v@[n - 1]);
        assert(v@.take(n as int).drop_last() =~= v@.take(n - 1));
        n = n - 1;
    }
    assert(n > 0 ==> v@.take(n as int).last() == v@[n - 1]);
    let rest = scan::part(&v, 0, n);
    assert(rest@ =~= v@.take(n as int));
    string_of(rest.as_slice())
}

/// A URL by which requests can be sent.
pub fn normalize_url(url: &str) -> (r: String)
    ensures
        r@ == request_url(url@),
{
    if let Some(rest) = after_scheme(url, "libsql://") {
        join2("https://", rest.as_str())
    } else if let Some(rest) = after_scheme(url, "turso://") {
        join2("https://", rest.as_str())
    } else {
        trim_slashes(url)
    }
}

/// The database that the environment names; none where a part of it is missing.
pub fn config(url: Option<String>, auth_token: Option<String>) -> (r: Option<TestConfig>)
    ensures
        match (url, auth_token) {
            (Some(u), Some(token)) => r matches Some(c) && c.url@ == request_url(u@)
                && c.auth_token@ == token@,
            _ => r is None,
        },
{
    match (url, auth_token) {
        (Some(url), Some(auth_token)) => Some(
            TestConfig { url: normalize_url(url.as_str()), auth_token },
        ),
        _ => None,
    }
}

/// A name by its prefix, the process, the time and a count.
pub open spec fn name_of(prefix: Seq<char>, process: u32, nanos: u64, count: u64) -> Seq<char> {
    prefix + "_"@ + text::decimal(process as nat) + "_"@ + text::decimal(nanos as nat) + "_"@
        + text::decimal(count as nat)
}

/// A name that no other process, time or count gives.
pub fn unique_name(prefix: &str, process: u32, nanos: u64, count: u64) -> (r: String)
    ensures
        r@ == name_of(prefix@, process, nanos, count),
{
    let mut s = join3(prefix, "_", print_u64(process as u64).as_str());
    s.append("_");
    s.append(print_u64(nanos).as_str());
    s.append("_");
    s.append(print_u64(count).as_str());
    s
}

proof fn decimal_is_digits(n: nat)
    ensures
        text::decimal(n).len() > 0,
        forall|i: int| 0 <= i < text::decimal(n).len() ==> scan::is_digit(#[trigger] text::decimal(n)[i]),
    decreases n,
{
    if n >= 10 {
        decimal_is_digits(n / 10);
    }
}

/// Numbers that print alike are the same.
pub proof fn decimals_tell_apart(m: nat, n: nat)
    requires
        text::decimal(m) == text::decimal(n),
    ensures
        m == n,
    decreases m,
{
    decimal_is_digits(m);
    decimal_is_digits(n);
    let s = text::decimal(m);
    assert(s.last() == text::digit_char(m));
    assert(s.last() == text::digit_char(n));
    if m >= 10 {
        decimal_is_digits(m / 10);
        assert(s.len() >= 2);
    }
    if n >= 10 {
        decimal_is_digits(n / 10);
        assert(s.len() >= 2);
    }
    if m >= 10 && n >= 10 {
        assert(text::decimal(m / 10) =~= s.drop_last());
        assert(text::decimal(n / 10) =~= s.drop_last());
        decimals_tell_apart(m / 10, n / 10);
    }
}

/// Two texts that end in an underscore and a number: where they are the same,
/// so are the numbers, and what stands before.
proof fn last_numbers_agree(a: Seq<char>, m: nat, b: Seq<char>, n: nat)
    requires
        a + "_"@ + text::decimal(m) == b + "_"@ + text::decimal(n),
    ensures
        m == n,
        a == b,
{
    reveal_strlit("_");
    decimal_is_digits(m);
    decimal_is_digits(n);
    let s = a + "_"@ + text::decimal(m);
    let t = b + "_"@ + text::decimal(n);
    let p = text::decimal(m).len();
    let q = text::decimal(n).len();
    assert(s.len() == t.len());
    assert(s[s.len() - p - 1] == '_');
    assert(t[t.len() - q - 1] == '_');
    if p < q {
        assert(t[s.len() - p - 1] == text::decimal(n)[q - p - 1]);
    }
    if q < p {
        assert(s[t.len() - q - 1] == text::decimal(m)[p - q - 1]);
    }
    assert(text::decimal(m) =~= s.skip(s.len() - p));
    assert(text::decimal(n) =~= t.skip(t.len() - q));
    decimals_tell_apart(m, n);
    assert(a =~= s.take(s.len() - p - 1));
    assert(b =~= t.take(t.len() - q - 1));
}

/// Names that are the same have the same process, time and count.
pub proof fn unique_names_are_unique(
    prefix: Seq<char>,
    process: u32,
    nanos: u64,
    count: u64,
    other_process: u32,
    other_nanos: u64,
    other_count: u64,
)
    requires
        name_of(prefix, process, nanos, count) == name_of(
            prefix,
            other_process,
            other_nanos,
            other_count,
        ),
    ensures
        process == other_process,
        nanos == other_nanos,
        count == other_count,
{
    let a = prefix + "_"@ + text::decimal(process as nat);
    let b = prefix + "_"@ + text::decimal(other_process as nat);
    let c = a + "_"@ + text::decimal(nanos as nat);
    let d = b + "_"@ + text::decimal(other_nanos as nat);
    last_numbers_agree(c, count as nat, d, other_count as nat);
    last_numbers_agree(a, nanos as nat, b, other_nanos as nat);
    last_numbers_agree(prefix, process as nat, prefix, other_process as nat);
}

} // verus!
