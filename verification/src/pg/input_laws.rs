//! Which inputs are accepted, and how the others are reported.

use vstd::prelude::*;
use crate::pg::input;
use crate::pg::input::{InputFacts, InputType, Verdict};
use crate::scan;
use crate::scan_laws;
use crate::text;

verus! {

/// A type is found by the name that errors call it by; the two kinds of time
/// stamps and the time are called by short names.
#[verifier::rlimit(60)]
pub proof fn types_are_found_by_their_labels(t: InputType)
    ensures
        input::input_type(t.label()) == Some(t),
{
    reveal_strlit("bool");
    reveal_strlit("boolean");
    reveal_strlit("int2");
    reveal_strlit("smallint");
    reveal_strlit("int4");
    reveal_strlit("integer");
    reveal_strlit("int");
    reveal_strlit("int8");
    reveal_strlit("bigint");
    reveal_strlit("float4");
    reveal_strlit("real");
    reveal_strlit("float8");
    reveal_strlit("double precision");
    reveal_strlit("numeric");
    reveal_strlit("decimal");
    reveal_strlit("text");
    reveal_strlit("varchar");
    reveal_strlit("character varying");
    reveal_strlit("char");
    reveal_strlit("character");
    reveal_strlit("uuid");
    reveal_strlit("date");
    reveal_strlit("timestamp");
    reveal_strlit("timestamp without time zone");
    reveal_strlit("timestamptz");
    reveal_strlit("timestamp with time zone");
    reveal_strlit("time");
    reveal_strlit("time without time zone");
    reveal_strlit("json");
    reveal_strlit("jsonb");
    reveal_strlit("bytea");
    reveal_strlit("inet");
    reveal_strlit("cidr");
    reveal_strlit("macaddr");
    reveal_strlit("oid");
    assert("bool"@.len() == 4 && "bool"@[0] == 'b' && "bool"@[1] == 'o');
    assert("boolean"@.len() == 7 && "boolean"@[0] == 'b' && "boolean"@[1] == 'o');
    assert("int2"@.len() == 4 && "int2"@[0] == 'i' && "int2"@[1] == 'n');
    assert("smallint"@.len() == 8 && "smallint"@[0] == 's' && "smallint"@[1] == 'm');
    assert("int4"@.len() == 4 && "int4"@[0] == 'i' && "int4"@[1] == 'n');
    assert("integer"@.len() == 7 && "integer"@[0] == 'i' && "integer"@[1] == 'n');
    assert("int"@.len() == 3 && "int"@[0] == 'i' && "int"@[1] == 'n');
    assert("int8"@.len() == 4 && "int8"@[0] == 'i' && "int8"@[1] == 'n');
    assert("bigint"@.len() == 6 && "bigint"@[0] == 'b' && "bigint"@[1] == 'i');
    assert("float4"@.len() == 6 && "float4"@[0] == 'f' && "float4"@[1] == 'l');
    assert("real"@.len() == 4 && "real"@[0] == 'r' && "real"@[1] == 'e');
    assert("float8"@.len() == 6 && "float8"@[0] == 'f' && "float8"@[1] == 'l');
    assert("double precision"@.len() == 16 && "double precision"@[0] == 'd' && "double precision"@[1] == 'o');
    assert("numeric"@.len() == 7 && "numeric"@[0] == 'n' && "numeric"@[1] == 'u');
    assert("decimal"@.len() == 7 && "decimal"@[0] == 'd' && "decimal"@[1] == 'e');
    assert("text"@.len() == 4 && "text"@[0] == 't' && "text"@[1] == 'e');
    assert("varchar"@.len() == 7 && "varchar"@[0] == 'v' && "varchar"@[1] == 'a');
    assert("character varying"@.len() == 17 && "character varying"@[0] == 'c' && "character varying"@[1] == 'h');
    assert("char"@.len() == 4 && "char"@[0] == 'c' && "char"@[1] == 'h');
    assert("character"@.len() == 9 && "character"@[0] == 'c' && "character"@[1] == 'h');
    assert("uuid"@.len() == 4 && "uuid"@[0] == 'u' && "uuid"@[1] == 'u');
    assert("date"@.len() == 4 && "date"@[0] == 'd' && "date"@[1] == 'a');
    assert("timestamp"@.len() == 9 && "timestamp"@[0] == 't' && "timestamp"@[1] == 'i');
    assert("timestamp without time zone"@.len() == 27 && "timestamp without time zone"@[0] == 't' && "timestamp without time zone"@[1] == 'i');
    assert("timestamptz"@.len() == 11 && "timestamptz"@[0] == 't' && "timestamptz"@[1] == 'i');
    assert("timestamp with time zone"@.len() == 24 && "timestamp with time zone"@[0] == 't' && "timestamp with time zone"@[1] == 'i');
    assert("time"@.len() == 4 && "time"@[0] == 't' && "time"@[1] == 'i');
    assert("time without time zone"@.len() == 22 && "time without time zone"@[0] == 't' && "time without time zone"@[1] == 'i');
    assert("json"@.len() == 4 && "json"@[0] == 'j' && "json"@[1] == 's');
    assert("jsonb"@.len() == 5 && "jsonb"@[0] == 'j' && "jsonb"@[1] == 's');
    assert("bytea"@.len() == 5 && "bytea"@[0] == 'b' && "bytea"@[1] == 'y');
    assert("inet"@.len() == 4 && "inet"@[0] == 'i' && "inet"@[1] == 'n');
    assert("cidr"@.len() == 4 && "cidr"@[0] == 'c' && "cidr"@[1] == 'i');
    assert("macaddr"@.len() == 7 && "macaddr"@[0] == 'm' && "macaddr"@[1] == 'a');
    assert("oid"@.len() == 3 && "oid"@[0] == 'o' && "oid"@[1] == 'i');
    assert("int2"@[3] == '2');
    assert("int4"@[3] == '4');
    assert("int8"@[3] == '8');
    assert("inet"@[3] == 't');
}

/// An integer is accepted exactly where its type can hold it. One that a bigint
/// can hold is out of range of the smaller types; any larger one is no integer to
/// them, while a bigint calls it out of range up to 128 bits.
pub proof fn integers_are_accepted_by_their_range(
    n: int,
    lower: Seq<char>,
    max: Option<usize>,
    facts: InputFacts,
)
    ensures
        ({
            let s = text::signed_decimal(n);
            let small = input::verdict(InputType::SmallInt, s, lower, max, facts);
            let integer = input::verdict(InputType::Integer, s, lower, max, facts);
            let big = input::verdict(InputType::BigInt, s, lower, max, facts);
            let oid = input::verdict(InputType::Oid, s, lower, max, facts);
            &&& small == Verdict::Valid <==> -32768 <= n <= 32767
            &&& integer == Verdict::Valid <==> -2147483648 <= n <= 2147483647
            &&& big == Verdict::Valid <==> -9223372036854775808 <= n <= 9223372036854775807
            &&& oid == Verdict::Valid <==> 0 <= n <= 4294967295
            &&& small == Verdict::OutOfRange <==> big == Verdict::Valid && small != Verdict::Valid
            &&& integer == Verdict::OutOfRange <==> big == Verdict::Valid && integer
                != Verdict::Valid
            &&& big == Verdict::OutOfRange ==> small == Verdict::Malformed && integer
                == Verdict::Malformed
            &&& big == Verdict::OutOfRange <==> i128::MIN <= n <= i128::MAX && big != Verdict::Valid
        }),
{
    scan_laws::printed_numbers_read_back(n);
}

/// A text is accepted by a type with a length exactly where it is no longer.
pub proof fn texts_are_accepted_by_their_length(
    s: Seq<char>,
    lower: Seq<char>,
    max: usize,
    facts: InputFacts,
)
    ensures
        input::verdict(InputType::Varchar, s, lower, Some(max), facts) == Verdict::Valid
            <==> s.len() <= max,
        input::verdict(InputType::Char, s, lower, Some(max), facts) == Verdict::Valid <==> s.len()
            <= max,
        input::verdict(InputType::Varchar, s, lower, None, facts) == Verdict::Valid,
        input::verdict(InputType::Text, s, lower, Some(max), facts) == Verdict::Valid,
        s.len() > max ==> input::verdict(InputType::Varchar, s, lower, Some(max), facts)
            == Verdict::TooLong(max),
{
}

/// The text of a date.
pub open spec fn date_text(y: nat, m: nat, d: nat) -> Seq<char> {
    text::decimal(y) + seq!['-'] + (text::decimal(m) + seq!['-'] + text::decimal(d))
}

/// The text of a time of day.
pub open spec fn time_text(h: nat, m: nat, s: nat) -> Seq<char> {
    text::decimal(h) + seq![':'] + (text::decimal(m) + seq![':'] + text::decimal(s))
}

/// A date is accepted where its month is one of twelve and its day one of
/// thirty-one.
pub proof fn dates_are_accepted_by_month_and_day(y: nat, m: nat, d: nat)
    ensures
        input::is_date(date_text(y, m, d)) <==> y <= i32::MAX && 1 <= m <= 12 && 1 <= d <= 31,
{
    let a = text::decimal(y);
    let b = text::decimal(m);
    let c = text::decimal(d);
    scan_laws::printed_numbers_are_digits(y, '-');
    scan_laws::printed_numbers_are_digits(m, '-');
    scan_laws::printed_numbers_are_digits(d, '-');
    scan_laws::a_part_ends_at_the_separator(a, '-', b + seq!['-'] + c);
    scan_laws::a_part_ends_at_the_separator(b, '-', c);
    scan_laws::a_text_without_the_separator_is_one_part(c, '-');
    let parts = scan::split(date_text(y, m, d), '-');
    assert(parts =~= seq![a, b, c]);
    assert(parts[0] == a && parts[1] == b && parts[2] == c);
    scan_laws::printed_numbers_read_back(y as int);
    scan_laws::printed_numbers_read_back(m as int);
    scan_laws::printed_numbers_read_back(d as int);
}

/// A time of day is accepted up to one second before midnight, with or without
/// seconds, and whatever stands behind a point.
pub proof fn times_are_accepted_within_a_day(h: nat, m: nat, s: nat, fraction: Seq<char>)
    ensures
        input::is_time(time_text(h, m, s)) <==> h <= 23 && m <= 59 && s <= 59,
        input::is_time(text::decimal(h) + seq![':'] + text::decimal(m)) <==> h <= 23 && m <= 59,
        input::is_time(time_text(h, m, s) + seq!['.'] + fraction) <==> input::is_time(
            time_text(h, m, s),
        ),
{
    let a = text::decimal(h);
    let b = text::decimal(m);
    let c = text::decimal(s);
    scan_laws::printed_numbers_are_digits(h, ':');
    scan_laws::printed_numbers_are_digits(m, ':');
    scan_laws::printed_numbers_are_digits(s, ':');
    scan_laws::printed_numbers_are_digits(h, '.');
    scan_laws::printed_numbers_are_digits(m, '.');
    scan_laws::printed_numbers_are_digits(s, '.');
    let t = time_text(h, m, s);
    let u = a + seq![':'] + b;
    assert(scan_laws::lacks(t, '.')) by {
        assert forall|i: int| 0 <= i < t.len() implies #[trigger] t[i] != '.' by {
            let k = i - a.len() - 1;
            if i < a.len() {
                assert(t[i] == a[i]);
            } else if k >= 0 && k < b.len() {
                assert(t[i] == b[k]);
            } else if k > b.len() {
                assert(t[i] == c[k - b.len() - 1]);
            }
        }
    }
    assert(scan_laws::lacks(u, '.')) by {
        assert forall|i: int| 0 <= i < u.len() implies #[trigger] u[i] != '.' by {
            if i < a.len() {
                assert(u[i] == a[i]);
            } else if i > a.len() {
                assert(u[i] == b[i - a.len() - 1]);
            }
        }
    }
    scan_laws::a_text_without_the_separator_is_one_part(t, '.');
    scan_laws::a_text_without_the_separator_is_one_part(u, '.');
    scan_laws::a_part_ends_at_the_separator(t, '.', fraction);
    assert(scan::split(t + seq!['.'] + fraction, '.')[0] == t);
    assert(scan::split(t, '.')[0] == t);
    assert(scan::split(u, '.')[0] == u);
    scan_laws::a_part_ends_at_the_separator(a, ':', b + seq![':'] + c);
    scan_laws::a_part_ends_at_the_separator(b, ':', c);
    scan_laws::a_text_without_the_separator_is_one_part(c, ':');
    scan_laws::a_part_ends_at_the_separator(a, ':', b);
    scan_laws::a_text_without_the_separator_is_one_part(b, ':');
    let parts = scan::split(t, ':');
    assert(parts =~= seq![a, b, c]);
    assert(parts[0] == a && parts[1] == b && parts[2] == c);
    let two = scan::split(u, ':');
    assert(two =~= seq![a, b]);
    assert(two[0] == a && two[1] == b);
    scan_laws::printed_numbers_read_back(h as int);
    scan_laws::printed_numbers_read_back(m as int);
    scan_laws::printed_numbers_read_back(s as int);
}

proof fn first_at(s: Seq<char>, c: char, from: nat, at: nat)
    requires
        from <= at < s.len(),
        s[at as int] == c,
        forall|i: int| from <= i < at ==> #[trigger] s[i] != c,
    ensures
        scan::first_index(s, c, from) == at,
    decreases at - from,
{
    if from < at {
        first_at(s, c, from + 1, at);
    }
}

proof fn first_behind(s: Seq<char>, c: char, from: nat, at: nat)
    requires
        from <= at <= s.len(),
        forall|i: int| from <= i < at ==> #[trigger] s[i] != c,
    ensures
        scan::first_index(s, c, from) >= at,
    decreases s.len() - from,
{
    if from < at {
        first_behind(s, c, from + 1, at);
    } else if from < s.len() && s[from as int] != c {
        first_behind(s, c, from + 1, from + 1);
    }
}

/// A time stamp is a date and a time of day, with a space or a T between them.
pub proof fn time_stamps_are_dates_and_times(date: Seq<char>, time: Seq<char>, between: char)
    requires
        between == ' ' || between == 'T',
        scan_laws::lacks(date, ' '),
        scan_laws::lacks(date, 'T'),
    ensures
        input::is_timestamp(date + seq![between] + time) <==> input::is_date(date)
            && input::is_time(time),
        !input::is_timestamp(date),
{
    let s = date + seq![between] + time;
    let n = date.len();
    assert forall|i: int| 0 <= i < n implies #[trigger] s[i] != ' ' && s[i] != 'T' by {
        assert(s[i] == date[i]);
    }
    first_behind(s, ' ', 0, n);
    first_behind(s, 'T', 0, n);
    first_at(s, between, 0, n);
    assert(input::date_end(s) == n);
    assert(s.take(n as int) =~= date);
    assert(s.skip(n as int + 1) =~= time);
    first_behind(date, ' ', 0, n);
    first_behind(date, 'T', 0, n);
}

/// Hyphens play no part in a uuid: it is accepted exactly where thirty-two
/// hexadecimal digits remain.
pub proof fn hyphens_are_left_out_of_uuids(s: Seq<char>, i: int)
    requires
        0 <= i <= s.len(),
    ensures
        input::is_uuid(s.take(i) + seq!['-'] + s.skip(i)) <==> input::is_uuid(s),
        scan_laws::lacks(s, '-') ==> (input::is_uuid(s) <==> s.len() == 32
            && scan::all_hex_digits(s)),
{
    let t = s.take(i) + seq!['-'] + s.skip(i);
    without_goes_by_prefix(s, t, '-', i as nat);
    without_of_the_rest(s, t, i as nat, s.len());
    if scan_laws::lacks(s, '-') {
        without_nothing(s, '-', s.len());
        assert(s.take(s.len() as int) =~= s);
    }
}

proof fn without_goes_by_prefix(s: Seq<char>, t: Seq<char>, c: char, n: nat)
    requires
        n <= s.len(),
        n <= t.len(),
        forall|j: int| 0 <= j < n ==> s[j] == t[j],
    ensures
        input::without(s, c, n) == input::without(t, c, n),
    decreases n,
{
    if n > 0 {
        without_goes_by_prefix(s, t, c, (n - 1) as nat);
    }
}

proof fn without_of_the_rest(s: Seq<char>, t: Seq<char>, i: nat, n: nat)
    requires
        i <= n <= s.len(),
        t == s.take(i as int) + seq!['-'] + s.skip(i as int),
        input::without(s, '-', i) == input::without(t, '-', i),
    ensures
        input::without(t, '-', n + 1) == input::without(s, '-', n),
    decreases n,
{
    if n > i {
        without_of_the_rest(s, t, i, (n - 1) as nat);
        assert(t[n as int] == s[n - 1]);
    } else {
        assert(t[i as int] == '-');
    }
}

proof fn without_nothing(s: Seq<char>, c: char, n: nat)
    requires
        n <= s.len(),
        scan_laws::lacks(s, c),
    ensures
        input::without(s, c, n) == s.take(n as int),
    decreases n,
{
    if n > 0 {
        without_nothing(s, c, (n - 1) as nat);
        assert(s.take(n as int) =~= s.take(n - 1).push(s[n - 1]));
    } else {
        assert(s.take(0) =~= Seq::<char>::empty());
    }
}

/// The length behind the slash of an address is one of eight bits, where there is
/// one.
pub proof fn addresses_take_eight_bits_of_prefix(a: Seq<char>, n: nat, is_address: bool)
    requires
        scan_laws::lacks(a, '/'),
    ensures
        input::is_inet(a, is_address) <==> is_address,
        input::is_inet(a + seq!['/'] + text::decimal(n), is_address) <==> is_address && n <= 255,
{
    scan_laws::a_text_without_the_separator_is_one_part(a, '/');
    let b = text::decimal(n);
    scan_laws::printed_numbers_are_digits(n, '/');
    scan_laws::a_text_without_the_separator_is_one_part(b, '/');
    scan_laws::a_part_ends_at_the_separator(a, '/', b);
    let parts = scan::split(a + seq!['/'] + b, '/');
    assert(parts =~= seq![a, b]);
    assert(parts[1] == b);
    scan_laws::printed_numbers_read_back(n as int);
}

/// An input is reported exactly where its type is unknown or it is not valid, and
/// the code says which: five characters, others for an unknown type, for what is
/// malformed, out of range and too long, and among the malformed others for dates
/// and times.
#[verifier::rlimit(40)]
pub proof fn reports_tell_their_reasons(
    t: InputType,
    v: Verdict,
    w: Verdict,
    input: Seq<char>,
    pg_type: Seq<char>,
    max: usize,
)
    ensures
        input::input_error(Some(t), v, input, pg_type) is None <==> v == Verdict::Valid,
        input::input_error(None, v, input, pg_type) is Some,
        ({
            let unknown = input::input_error(None, v, input, pg_type)->Some_0.1;
            let malformed = input::input_error(
                Some(t),
                Verdict::Malformed,
                input,
                pg_type,
            )->Some_0.1;
            let range = input::input_error(Some(t), Verdict::OutOfRange, input, pg_type)->Some_0.1;
            let long = input::input_error(
                Some(t),
                Verdict::TooLong(max),
                input,
                pg_type,
            )->Some_0.1;
            &&& unknown.len() == 5 && malformed.len() == 5 && range.len() == 5 && long.len() == 5
            &&& unknown != malformed && unknown != range && unknown != long
            &&& malformed != range && malformed != long && range != long
            &&& malformed == "22007"@ <==> t.is_datetime()
            &&& malformed == "22P02"@ <==> !t.is_datetime()
            &&& range == "22003"@ && long == "22001"@ && unknown == "42704"@
        }),
{
    reveal_strlit("42704");
    reveal_strlit("22007");
    reveal_strlit("22P02");
    reveal_strlit("22003");
    reveal_strlit("22001");
    assert("42704"@[0] == '4' && "22007"@[0] == '2' && "22P02"@[0] == '2' && "22003"@[0] == '2'
        && "22001"@[0] == '2');
    assert("22007"@[2] == '0' && "22P02"@[2] == 'P' && "22003"@[2] == '0' && "22001"@[2] == '0');
    assert("22007"@[4] == '7' && "22003"@[4] == '3' && "22001"@[4] == '1');
}

} // verus!
