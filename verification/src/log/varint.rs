//! The integers of the log: little-endian words, SQLite's big-endian
//! variable-length integers and the protocol-buffer kind.

use vstd::prelude::*;
use crate::log::chunk::{ChainedLogChunks, InlineLogChunk, LogBufferWrite, chain};

verus! {

/// `v` as `n` bytes, the least significant one first.
pub open spec fn le_bytes(v: nat, n: nat) -> Seq<u8>
    decreases n,
{
    if n == 0 {
        Seq::empty()
    } else {
        seq![(v % 256) as u8] + le_bytes(v / 256, (n - 1) as nat)
    }
}

/// The number whose little-endian bytes are `s`.
pub open spec fn le_value(s: Seq<u8>) -> nat
    decreases s.len(),
{
    if s.len() == 0 {
        0
    } else {
        s[0] as nat + 256 * le_value(s.skip(1))
    }
}

/// 256 to the power of `n`.
pub open spec fn bytes_range(n: nat) -> nat
    decreases n,
{
    if n == 0 {
        1
    } else {
        256 * bytes_range((n - 1) as nat)
    }
}

/// Reading a little-endian word gives back what was written.
pub proof fn le_round_trip(v: nat, n: nat)
    requires
        v < bytes_range(n),
    ensures
        le_bytes(v, n).len() == n,
        le_value(le_bytes(v, n)) == v,
    decreases n,
{
    if n > 0 {
        le_round_trip(v / 256, (n - 1) as nat);
        assert(le_bytes(v, n).skip(1) =~= le_bytes(v / 256, (n - 1) as nat));
    }
}

/// A 16-bit word, least significant byte first.
pub fn u16_le(v: u16) -> (r: [u8; 2])
    ensures
        r@ == le_bytes(v as nat, 2),
{
    let r: [u8; 2] = [(v % 256) as u8, (v / 256) as u8];
    proof {
        reveal_with_fuel(le_bytes, 3);
        assert(r@ =~= le_bytes(v as nat, 2));
    }
    r
}

/// A 32-bit word, least significant byte first.
pub fn u32_le(v: u32) -> (r: [u8; 4])
    ensures
        r@ == le_bytes(v as nat, 4),
{
    let r: [u8; 4] = [
        (v % 256) as u8,
        (v / 256 % 256) as u8,
        (v / 256 / 256 % 256) as u8,
        (v / 256 / 256 / 256) as u8,
    ];
    proof {
        reveal_with_fuel(le_bytes, 5);
        assert(r@ =~= le_bytes(v as nat, 4));
    }
    r
}

/// A protocol-buffer integer: seven bits to a byte, the low ones first, the
/// high bit of every byte but the last one set.
pub open spec fn proto_varint(v: nat) -> Seq<u8>
    decreases v,
{
    if v < 128 {
        seq![v as u8]
    } else {
        seq![(v % 128 + 128) as u8] + proto_varint(v / 128)
    }
}

/// Reads the protocol-buffer integer at the front of `s`: its value and how
/// many bytes it takes.
pub open spec fn proto_read(s: Seq<u8>) -> (nat, nat)
    decreases s.len(),
{
    if s.len() == 0 {
        (0, 0)
    } else if s[0] < 128 {
        (s[0] as nat, 1)
    } else {
        let rest = proto_read(s.skip(1));
        ((s[0] - 128) as nat + 128 * rest.0, 1 + rest.1)
    }
}

/// Whatever follows it, a protocol-buffer integer is read back as it was
/// written, and no byte behind it is touched.
pub proof fn proto_round_trip(v: nat, rest: Seq<u8>)
    ensures
        proto_read(proto_varint(v) + rest) == (v, proto_varint(v).len()),
    decreases v,
{
    let s = proto_varint(v) + rest;
    if v >= 128 {
        proto_round_trip(v / 128, rest);
        assert(s.skip(1) =~= proto_varint(v / 128) + rest);
    }
}

/// A larger integer takes at least as many bytes.
pub(crate) proof fn proto_len_monotone(a: nat, b: nat)
    requires
        a <= b,
    ensures
        1 <= proto_varint(a).len() <= proto_varint(b).len(),
    decreases b,
{
    if b >= 128 {
        if a >= 128 {
            proto_len_monotone(a / 128, b / 128);
        } else {
            proto_len_monotone(b / 128, b / 128);
        }
    }
}

/// A 64-bit integer takes at most ten bytes.
pub(crate) proof fn proto_len_bound(v: nat)
    requires
        v <= u64::MAX,
    ensures
        1 <= proto_varint(v).len() <= 10,
{
    reveal_with_fuel(proto_varint, 11);
}

/// How many bytes a protocol-buffer integer takes.
pub fn proto_varint_len(value: u64) -> (len: usize)
    ensures
        len == proto_varint(value as nat).len(),
        1 <= len <= 10,
{
    let mut rest: u64 = value;
    let mut len: usize = 1;
    proof {
        proto_len_bound(value as nat);
    }
    while rest >= 0x80
        invariant
            1 <= len <= 10,
            proto_varint(value as nat).len() <= 10,
            len - 1 + proto_varint(rest as nat).len() == proto_varint(value as nat).len(),
        decreases rest,
    {
        proof {
            proto_len_bound((rest / 128) as nat);
            assert(rest >> 7 == rest / 128) by (bit_vector);
        }
        len = len + 1;
        rest = rest >> 7;
    }
    len
}

/// A protocol-buffer integer.
pub struct ProtoVarint(pub u64);

impl LogBufferWrite for ProtoVarint {
    type Chunks = InlineLogChunk<10>;

    open spec fn encodable(&self) -> bool {
        true
    }

    open spec fn encoding(&self) -> Seq<u8> {
        proto_varint(self.0 as nat)
    }

    fn into_chunks(self) -> (c: InlineLogChunk<10>) {
        let mut value: u64 = self.0;
        let mut bytes: [u8; 10] = [0; 10];
        let mut len: usize = 0;
        proof {
            proto_len_bound(self.0 as nat);
            assert(bytes@.take(0) + proto_varint(value as nat) =~= proto_varint(self.0 as nat));
        }
        while value >= 0x80
            invariant
                proto_varint(self.0 as nat).len() <= 10,
                len < 10,
                bytes@.take(len as int) + proto_varint(value as nat) == proto_varint(self.0 as nat),
            decreases value,
        {
            let ghost before = bytes@.take(len as int);
            let ghost was = value;
            let byte: u8 = (value % 128) as u8 + 128;
            bytes[len] = byte;
            len = len + 1;
            value = value / 128;
            proof {
                proto_len_bound(value as nat);
                assert(bytes@.take(len as int) =~= before.push(byte));
                assert(before.push(byte) + proto_varint(value as nat) =~= before + proto_varint(
                    was as nat,
                ));
            }
        }
        let ghost before = bytes@.take(len as int);
        bytes[len] = value as u8;
        len = len + 1;
        let c = InlineLogChunk::prefix(bytes, len);
        assert(c@ =~= before + proto_varint(value as nat));
        assert(c@ == self.encoding());
        c
    }
}

/// The wire type of a field that holds an integer.
pub const PROTO_WIRE_VARINT: u64 = 0;

/// The wire type of a field that holds a run of bytes.
pub const PROTO_WIRE_LENGTH_DELIMITED: u64 = 2;

/// What stands before a field: its number and its wire type.
pub struct ProtoKey {
    pub field: u64,
    pub wire_type: u64,
}

/// The key of a field. Wire types take three bits, and the field's number the
/// rest of the word.
pub open spec fn proto_key(field: nat, wire_type: nat) -> nat {
    8 * field + wire_type
}

impl ProtoKey {
    pub open spec fn valid(&self) -> bool {
        self.field < 0x2000_0000_0000_0000 && self.wire_type < 8
    }

    pub fn new(field: u64, wire_type: u64) -> (k: Self)
        ensures
            k.field == field,
            k.wire_type == wire_type,
    {
        ProtoKey { field, wire_type }
    }
}

impl LogBufferWrite for ProtoKey {
    type Chunks = InlineLogChunk<10>;

    open spec fn encodable(&self) -> bool {
        true
    }

    /// For a key that is not `valid` the bits that overlap or do not fit are
    /// merged and dropped.
    open spec fn encoding(&self) -> Seq<u8> {
        proto_varint(((self.field << 3) | self.wire_type) as nat)
    }

    fn into_chunks(self) -> (c: InlineLogChunk<10>) {
        ProtoVarint((self.field << 3) | self.wire_type).into_chunks()
    }
}

/// A valid key is written as the integer `8 * field + wire_type`.
pub proof fn proto_key_encoding(key: ProtoKey)
    requires
        key.valid(),
    ensures
        key.encoding() == proto_varint(proto_key(key.field as nat, key.wire_type as nat)),
{
    let f = key.field;
    let w = key.wire_type;
    assert((f << 3) | w == 8 * f + w) by (bit_vector)
        requires
            f < 0x2000_0000_0000_0000u64,
            w < 8,
    ;
}

/// A field that holds a signed integer.
pub struct ProtoSint64 {
    pub field: u64,
    pub value: i64,
}

/// Signed integers as unsigned ones, small magnitudes first.
pub open spec fn zigzag(v: int) -> nat {
    if v >= 0 {
        (2 * v) as nat
    } else {
        (-2 * v - 1) as nat
    }
}

/// The signed integer that `zigzag` takes to `n`.
pub open spec fn unzigzag(n: nat) -> int {
    if n % 2 == 0 {
        (n / 2) as int
    } else {
        -((n / 2) as int) - 1
    }
}

/// No two signed integers share a code.
pub proof fn zigzag_round_trip(v: int)
    ensures
        unzigzag(zigzag(v)) == v,
{
}

impl ProtoSint64 {
    pub fn new(field: u64, value: i64) -> (s: Self)
        ensures
            s.field == field,
            s.value == value,
    {
        ProtoSint64 { field, value }
    }

    /// The value as an unsigned integer.
    pub fn zigzag(&self) -> (z: u64)
        ensures
            z == zigzag(self.value as int),
    {
        if self.value >= 0 {
            2 * (self.value as u64)
        } else {
            2 * ((-(self.value + 1)) as u64) + 1
        }
    }
}

impl LogBufferWrite for ProtoSint64 {
    type Chunks = ChainedLogChunks<InlineLogChunk<10>, InlineLogChunk<10>>;

    open spec fn encodable(&self) -> bool {
        true
    }

    open spec fn encoding(&self) -> Seq<u8> {
        ProtoKey { field: self.field, wire_type: PROTO_WIRE_VARINT }.encoding() + proto_varint(
            zigzag(self.value as int),
        )
    }

    fn into_chunks(self) -> (c: ChainedLogChunks<InlineLogChunk<10>, InlineLogChunk<10>>) {
        let zigzag: u64 = self.zigzag();
        chain(
            ProtoKey::new(self.field, PROTO_WIRE_VARINT).into_chunks(),
            ProtoVarint(zigzag).into_chunks(),
        )
    }
}

/// The low `7 * n` bits of `v`, seven to a byte, the high ones first, every
/// byte with its high bit set.
pub open spec fn groups(v: nat, n: nat) -> Seq<u8>
    decreases n,
{
    if n == 0 {
        Seq::empty()
    } else {
        groups(v / 128, (n - 1) as nat).push((v % 128 + 128) as u8)
    }
}

/// 128 to the power of `n`.
pub open spec fn groups_range(n: nat) -> nat
    decreases n,
{
    if n == 0 {
        1
    } else {
        128 * groups_range((n - 1) as nat)
    }
}

/// How many bytes a SQLite integer takes.
pub open spec fn sqlite_varint_len(v: u64) -> nat {
    if v < 0x80 {
        1
    } else if v < 0x4000 {
        2
    } else if v < 0x20_0000 {
        3
    } else if v < 0x1000_0000 {
        4
    } else if v < 0x8_0000_0000 {
        5
    } else if v < 0x400_0000_0000 {
        6
    } else if v < 0x2_0000_0000_0000 {
        7
    } else if v < 0x100_0000_0000_0000 {
        8
    } else {
        9
    }
}

/// A SQLite integer: seven bits to a byte, the high ones first, every byte but
/// the last one with its high bit set. A ninth byte holds eight bits.
pub open spec fn sqlite_varint(v: u64) -> Seq<u8> {
    if v < 0x100_0000_0000_0000 {
        groups((v / 128) as nat, (sqlite_varint_len(v) - 1) as nat).push((v % 128) as u8)
    } else {
        groups((v / 256) as nat, 8).push((v % 256) as u8)
    }
}

/// Reads the SQLite integer at the front of `s`, of which `done` bytes have
/// given `acc` so far: its value and how many bytes it takes.
pub open spec fn sqlite_read(s: Seq<u8>, acc: nat, done: nat) -> (nat, nat)
    decreases 9 - done,
{
    if done >= 8 {
        (acc * 256 + s[8] as nat, 9)
    } else if s[done as int] < 128 {
        (acc * 128 + s[done as int] as nat, done + 1)
    } else {
        sqlite_read(s, acc * 128 + (s[done as int] - 128) as nat, done + 1)
    }
}

proof fn groups_len(v: nat, n: nat)
    ensures
        groups(v, n).len() == n,
        forall|i: int| 0 <= i < n ==> groups(v, n)[i] >= 128,
    decreases n,
{
    if n > 0 {
        groups_len(v / 128, (n - 1) as nat);
    }
}

/// Reading past the leading groups of a number accumulates that number.
proof fn sqlite_read_groups(v: nat, n: nat, s: Seq<u8>)
    requires
        n <= 8,
        n <= s.len(),
        v < groups_range(n),
        s.take(n as int) == groups(v, n),
    ensures
        sqlite_read(s, 0, 0) == sqlite_read(s, v, n),
    decreases n,
{
    if n > 0 {
        let m = (n - 1) as nat;
        groups_len(v, n);
        groups_len(v / 128, m);
        assert(s.take(m as int) =~= groups(v, n).take(m as int));
        assert(groups(v, n).take(m as int) =~= groups(v / 128, m));
        sqlite_read_groups(v / 128, m, s);
        assert(s[m as int] == s.take(n as int)[m as int]);
    }
}

/// Whatever follows it, a SQLite integer is read back as it was written, and
/// no byte behind it is touched.
pub proof fn sqlite_round_trip(v: u64, rest: Seq<u8>)
    ensures
        sqlite_read(sqlite_varint(v) + rest, 0, 0) == (v as nat, sqlite_varint(v).len()),
        sqlite_varint(v).len() == sqlite_varint_len(v),
{
    let s = sqlite_varint(v) + rest;
    reveal_with_fuel(groups_range, 9);
    if v < 0x100_0000_0000_0000 {
        let n = (sqlite_varint_len(v) - 1) as nat;
        let high = (v / 128) as nat;
        groups_len(high, n);
        assert(s.take(n as int) =~= groups(high, n));
        sqlite_read_groups(high, n, s);
        assert(s[n as int] == (v % 128) as u8);
    } else {
        let high = (v / 256) as nat;
        groups_len(high, 8);
        assert(s.take(8) =~= groups(high, 8));
        sqlite_read_groups(high, 8, s);
        assert(s[8] == (v % 256) as u8);
    }
}

/// How many bytes a SQLite integer takes.
pub fn varint_len(v: u64) -> (len: usize)
    ensures
        len == sqlite_varint_len(v),
        len == sqlite_varint(v).len(),
        1 <= len <= 9,
{
    proof {
        sqlite_round_trip(v, Seq::empty());
    }
    if v < 0x80 {
        1
    } else if v < 0x4000 {
        2
    } else if v < 0x20_0000 {
        3
    } else if v < 0x1000_0000 {
        4
    } else if v < 0x8_0000_0000 {
        5
    } else if v < 0x400_0000_0000 {
        6
    } else if v < 0x2_0000_0000_0000 {
        7
    } else if v < 0x100_0000_0000_0000 {
        8
    } else {
        9
    }
}

/// A SQLite integer.
pub struct SqliteVarint(pub u64);

impl LogBufferWrite for SqliteVarint {
    type Chunks = InlineLogChunk<9>;

    open spec fn encodable(&self) -> bool {
        true
    }

    open spec fn encoding(&self) -> Seq<u8> {
        sqlite_varint(self.0)
    }

    fn into_chunks(self) -> (c: InlineLogChunk<9>) {
        let len: usize = varint_len(self.0);
        let mut bytes: [u8; 9] = [0; 9];
        let mut high: u64;
        let last: usize = len - 1;
        if len == 9 {
            bytes[last] = (self.0 % 256) as u8;
            high = self.0 / 256;
        } else {
            bytes[last] = (self.0 % 128) as u8;
            high = self.0 / 128;
        }
        let ghost top = high;
        let ghost end = bytes@[last as int];
        let mut i: usize = last;
        proof {
            assert(groups(high as nat, i as nat) + bytes@.subrange(i as int, last as int) =~= groups(
                top as nat,
                last as nat,
            ));
        }
        while i > 0
            invariant
                i <= last < 9,
                bytes@[last as int] == end,
                groups(high as nat, i as nat) + bytes@.subrange(i as int, last as int) == groups(
                    top as nat,
                    last as nat,
                ),
            decreases i,
        {
            let ghost before = bytes@;
            let ghost j = i;
            let byte: u8 = (high % 128) as u8 + 128;
            i = i - 1;
            bytes[i] = byte;
            proof {
                assert(groups(high as nat, j as nat) == groups((high / 128) as nat, i as nat).push(byte));
                assert(bytes@.subrange(i as int, last as int) =~= seq![byte] + before.subrange(
                    j as int,
                    last as int,
                ));
                assert(groups((high / 128) as nat, i as nat) + (seq![byte] + before.subrange(
                    j as int,
                    last as int,
                )) =~= groups(high as nat, j as nat) + before.subrange(j as int, last as int));
            }
            high = high / 128;
        }
        let c = InlineLogChunk::prefix(bytes, len);
        assert(c@ =~= groups(top as nat, last as nat).push(end));
        c
    }
}

} // verus!
