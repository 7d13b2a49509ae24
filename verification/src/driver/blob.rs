//! Blobs as text: base64.

use base64::Engine;
use vstd::prelude::*;

verus! {

/// The character for six bits.
pub open spec fn sextet_char(n: int) -> char {
    if n < 26 {
        (65 + n) as char
    } else if n < 52 {
        (71 + n) as char
    } else if n < 62 {
        (n - 4) as char
    } else if n == 62 {
        '+'
    } else {
        '/'
    }
}

/// The characters for one byte, for two, and for three.
pub open spec fn group1(a: u8) -> Seq<char> {
    seq![sextet_char(a as int / 4), sextet_char(a as int % 4 * 16)]
}

pub open spec fn group2(a: u8, b: u8) -> Seq<char> {
    seq![
        sextet_char(a as int / 4),
        sextet_char(a as int % 4 * 16 + b as int / 16),
        sextet_char(b as int % 16 * 4),
    ]
}

pub open spec fn group3(a: u8, b: u8, c: u8) -> Seq<char> {
    seq![
        sextet_char(a as int / 4),
        sextet_char(a as int % 4 * 16 + b as int / 16),
        sextet_char(b as int % 16 * 4 + c as int / 64),
        sextet_char(c as int % 64),
    ]
}

/// Bytes in base64, without padding: four characters for each three bytes, two
/// or three for what is left.
pub open spec fn unpadded(bytes: Seq<u8>) -> Seq<char>
    decreases bytes.len(),
{
    if bytes.len() == 0 {
        Seq::empty()
    } else if bytes.len() == 1 {
        group1(bytes[0])
    } else if bytes.len() == 2 {
        group2(bytes[0], bytes[1])
    } else {
        group3(bytes[0], bytes[1], bytes[2]) + unpadded(bytes.skip(3))
    }
}

/// What makes the length of a text with `n` bytes in it a multiple of four.
pub open spec fn padding(n: nat) -> Seq<char> {
    if n % 3 == 1 {
        seq!['=', '=']
    } else if n % 3 == 2 {
        seq!['=']
    } else {
        Seq::empty()
    }
}

/// Bytes in base64, with padding.
pub open spec fn padded(bytes: Seq<u8>) -> Seq<char> {
    unpadded(bytes) + padding(bytes.len())
}

/// Whether the length of the text for so many bytes can be counted.
pub open spec fn countable(n: nat) -> bool {
    n / 3 * 4 + (if n % 3 == 0 {
        0nat
    } else {
        4
    }) <= usize::MAX
}

/// `Engine::encode` of the engine `STANDARD`: the bytes in base64, with padding.
/// It counts the characters first, and panics where it cannot.
#[verifier::external_body]
pub(crate) fn encode(bytes: &[u8]) -> (r: String)
    requires
        countable(bytes@.len()),
    ensures
        r@ == padded(bytes@),
{
    base64::engine::general_purpose::STANDARD.encode(bytes)
}

/// What is said of a text that is no base64.
pub uninterp spec fn decode_error(s: Seq<char>) -> Seq<char>;

/// `Engine::decode` of the engine `STANDARD_NO_PAD`: the bytes whose text without
/// padding this is, bits that stand for nothing being refused. If there are
/// none, what the error prints, which is a function of the text alone.
#[verifier::external_body]
pub(crate) fn decode(s: &str) -> (r: Result<Vec<u8>, String>)
    ensures
        match r {
            Ok(bytes) => unpadded(bytes@) == s@,
            Err(e) => e@ == decode_error(s@) && forall|bytes: Seq<u8>|
                #[trigger] unpadded(bytes) != s@,
        },
{
    match base64::engine::general_purpose::STANDARD_NO_PAD.decode(s) {
        Ok(bytes) => Ok(bytes),
        Err(e) => Err(format!("{e}")),
    }
}

proof fn sextet_chars_are_apart(m: int, n: int)
    requires
        0 <= m < 64,
        0 <= n < 64,
        sextet_char(m) == sextet_char(n),
    ensures
        m == n,
{
}

/// No character for six bits is the padding character.
proof fn sextet_char_is_no_padding(n: int)
    requires
        0 <= n < 64,
    ensures
        sextet_char(n) != '=',
{
}

proof fn unpadded_len(bytes: Seq<u8>)
    ensures
        unpadded(bytes).len() == bytes.len() / 3 * 4 + (if bytes.len() % 3 == 0 {
            0nat
        } else {
            bytes.len() % 3 + 1
        }),
    decreases bytes.len(),
{
    if bytes.len() >= 3 {
        unpadded_len(bytes.skip(3));
    }
}

/// Bytes that have the same text are the same.
pub proof fn unpadded_is_injective(a: Seq<u8>, b: Seq<u8>)
    requires
        unpadded(a) == unpadded(b),
    ensures
        a == b,
    decreases a.len(),
{
    unpadded_len(a);
    unpadded_len(b);
    assert(a.len() == b.len());
    let s = unpadded(a);
    if a.len() == 1 {
        sextet_chars_are_apart(a[0] as int / 4, b[0] as int / 4);
        sextet_chars_are_apart(a[0] as int % 4 * 16, b[0] as int % 4 * 16);
        assert(s[0] == group1(a[0])[0] && s[0] == group1(b[0])[0]);
        assert(s[1] == group1(a[0])[1] && s[1] == group1(b[0])[1]);
    } else if a.len() == 2 {
        assert(s[0] == group2(a[0], a[1])[0] && s[0] == group2(b[0], b[1])[0]);
        assert(s[1] == group2(a[0], a[1])[1] && s[1] == group2(b[0], b[1])[1]);
        assert(s[2] == group2(a[0], a[1])[2] && s[2] == group2(b[0], b[1])[2]);
        sextet_chars_are_apart(a[0] as int / 4, b[0] as int / 4);
        sextet_chars_are_apart(
            a[0] as int % 4 * 16 + a[1] as int / 16,
            b[0] as int % 4 * 16 + b[1] as int / 16,
        );
        sextet_chars_are_apart(a[1] as int % 16 * 4, b[1] as int % 16 * 4);
    } else if a.len() >= 3 {
        let g = group3(a[0], a[1], a[2]);
        let h = group3(b[0], b[1], b[2]);
        assert(s[0] == g[0] && s[0] == h[0]);
        assert(s[1] == g[1] && s[1] == h[1]);
        assert(s[2] == g[2] && s[2] == h[2]);
        assert(s[3] == g[3] && s[3] == h[3]);
        sextet_chars_are_apart(a[0] as int / 4, b[0] as int / 4);
        sextet_chars_are_apart(
            a[0] as int % 4 * 16 + a[1] as int / 16,
            b[0] as int % 4 * 16 + b[1] as int / 16,
        );
        sextet_chars_are_apart(
            a[1] as int % 16 * 4 + a[2] as int / 64,
            b[1] as int % 16 * 4 + b[2] as int / 64,
        );
        sextet_chars_are_apart(a[2] as int % 64, b[2] as int % 64);
        assert(unpadded(a.skip(3)) =~= s.skip(4));
        assert(unpadded(b.skip(3)) =~= s.skip(4));
        unpadded_is_injective(a.skip(3), b.skip(3));
        assert forall|i: int| 0 <= i < a.len() implies a[i] == b[i] by {
            if i >= 3 {
                assert(a[i] == a.skip(3)[i - 3]);
                assert(b[i] == b.skip(3)[i - 3]);
            }
        }
    }
    assert(a =~= b);
}

/// A text without the padding characters at its end.
pub open spec fn without_padding(s: Seq<char>) -> Seq<char>
    decreases s.len(),
{
    if s.len() > 0 && s.last() == '=' {
        without_padding(s.drop_last())
    } else {
        s
    }
}

proof fn unpadded_ends_in_no_padding(bytes: Seq<u8>)
    ensures
        unpadded(bytes).len() > 0 ==> unpadded(bytes).last() != '=',
    decreases bytes.len(),
{
    if bytes.len() == 1 {
        sextet_char_is_no_padding(bytes[0] as int % 4 * 16);
    } else if bytes.len() == 2 {
        sextet_char_is_no_padding(bytes[1] as int % 16 * 4);
    } else if bytes.len() >= 3 {
        sextet_char_is_no_padding(bytes[2] as int % 64);
        unpadded_ends_in_no_padding(bytes.skip(3));
        let rest = unpadded(bytes.skip(3));
        let g = group3(bytes[0], bytes[1], bytes[2]);
        if rest.len() > 0 {
            assert((g + rest).last() == rest.last());
        } else {
            assert((g + rest).last() == g.last());
        }
    }
}

/// Taking the padding away gives the text without padding, whether it was
/// there or not.
pub proof fn padding_is_taken_away(bytes: Seq<u8>)
    ensures
        without_padding(padded(bytes)) == unpadded(bytes),
        without_padding(unpadded(bytes)) == unpadded(bytes),
{
    unpadded_ends_in_no_padding(bytes);
    let s = unpadded(bytes);
    assert(without_padding(s) == s);
    let one = s.push('=');
    let two = one.push('=');
    assert(one.drop_last() =~= s);
    assert(two.drop_last() =~= one);
    assert(without_padding(one) == s);
    assert(without_padding(two) == s);
    assert(s + seq!['='] =~= one);
    assert(s + seq!['=', '='] =~= two);
    assert(s + Seq::<char>::empty() =~= s);
}

/// The bytes that a text stands for, with padding or without.
pub open spec fn blob_of(s: Seq<char>) -> Option<Seq<u8>> {
    if exists|bytes: Seq<u8>| #[trigger] unpadded(bytes) == without_padding(s) {
        Some(choose|bytes: Seq<u8>| #[trigger] unpadded(bytes) == without_padding(s))
    } else {
        None
    }
}

/// A blob reads back from its text as it was, with padding and without.
pub proof fn blob_round_trip(bytes: Seq<u8>)
    ensures
        blob_of(padded(bytes)) == Some(bytes),
        blob_of(unpadded(bytes)) == Some(bytes),
{
    padding_is_taken_away(bytes);
    let read = choose|b: Seq<u8>| #[trigger] unpadded(b) == without_padding(padded(bytes));
    assert(unpadded(bytes) == without_padding(padded(bytes)));
    unpadded_is_injective(read, bytes);
    let other = choose|b: Seq<u8>| #[trigger] unpadded(b) == without_padding(unpadded(bytes));
    unpadded_is_injective(other, bytes);
}

pub(crate) fn strip_padding(v: &Vec<char>) -> (n: usize)
    ensures
        n <= v@.len(),
        without_padding(v@) == v@.take(n as int),
{
    let mut n: usize = v.len();
    assert(v@.take(n as int) =~= v@);
    while n > 0 && v[n - 1] == '='
        invariant
            n <= v@.len(),
            without_padding(v@) == without_padding(v@.take(n as int)),
        decreases n,
    {
        assert(v@.take(n as int).last() == v@[n - 1]);
        assert(v@.take(n as int).drop_last() =~= v@.take(n - 1));
        n = n - 1;
    }
    assert(n > 0 ==> v@.take(n as int).last() == v@[n - 1]);
    n
}

/// Reads a blob from its text, with padding or without; an error says what the
/// reader says of the text without padding.
pub fn read_blob(s: &str) -> (r: Result<Vec<u8>, String>)
    ensures
        match r {
            Ok(bytes) => blob_of(s@) == Some(bytes@),
            Err(e) => blob_of(s@) is None && e@ == decode_error(without_padding(s@)),
        },
{
    let v = crate::text::chars_of(s);
    let n: usize = strip_padding(&v);
    let stripped = crate::scan::part(&v, 0, n);
    assert(stripped@ =~= v@.take(n as int));
    match decode(crate::text::string_of(stripped.as_slice()).as_str()) {
        Ok(bytes) => {
            proof {
                let read = choose|b: Seq<u8>| #[trigger] unpadded(b) == without_padding(s@);
                assert(unpadded(bytes@) == without_padding(s@));
                unpadded_is_injective(read, bytes@);
            }
            Ok(bytes)
        },
        Err(e) => Err(e),
    }
}

} // verus!
