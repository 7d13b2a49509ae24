//! Encrypts a payload where it stands in the buffer.
//!
//! Encrypted chunks are larger than plaintext ones. They are moved to their
//! places from the last one to the first, so that no plaintext is overwritten
//! before it has been encrypted. The cipher itself is the caller's: for each
//! chunk the serializer moves the plaintext to its place and says where the
//! ciphertext, the tag and the nonce go and what they authenticate.

use vstd::prelude::*;
use crate::log::{chunk, encrypted};
use crate::log::chunk::{LogBufferExt, LogError};
use crate::log::encrypted::{encrypted_payload_blob_size, encrypted_payload_chunk_count};
use crate::log::serializer::LogSerializer;

verus! {

/// A payload to encrypt: where it stands, how it is cut, and what its chunks
/// authenticate.
#[derive(Clone, Copy)]
pub struct EncryptedPayload {
    pub payload_start: usize,
    pub plaintext_size: usize,
    pub chunk_size: usize,
    pub tag_size: usize,
    pub nonce_size: usize,
    pub salt: u64,
    pub op_count: u32,
    pub commit_ts: u64,
}

/// What a chunk authenticates besides its text. Only the last chunk names the
/// plaintext's size.
#[derive(Clone, Copy, Debug, PartialEq, Eq, Structural)]
pub struct ChunkAad {
    pub salt: u64,
    pub plaintext_size: Option<u64>,
    pub op_count: u32,
    pub commit_ts: u64,
    pub chunk_index: u32,
}

/// Where a chunk stands in the buffer: ciphertext, tag and nonce, one after
/// the other.
#[derive(Clone, Copy, Debug, PartialEq, Eq, Structural)]
pub struct ChunkSlot {
    pub ciphertext_start: usize,
    pub tag_start: usize,
    pub nonce_start: usize,
    pub chunk_end: usize,
    pub aad: ChunkAad,
}

impl EncryptedPayload {
    pub open spec fn chunks(&self) -> nat {
        encrypted::chunk_count(self.plaintext_size as nat, self.chunk_size as nat)
    }

    /// The size of the encrypted payload.
    pub open spec fn size(&self) -> nat {
        encrypted::blob_size(
            self.plaintext_size as nat,
            self.chunk_size as nat,
            self.tag_size as nat,
            self.nonce_size as nat,
        )
    }

    /// How much plaintext stands before chunk `i`.
    pub open spec fn plain_before(&self, i: nat) -> nat {
        if i * self.chunk_size < self.plaintext_size {
            i * self.chunk_size as nat
        } else {
            self.plaintext_size as nat
        }
    }

    /// How much of the encrypted payload stands before chunk `i`.
    pub open spec fn sealed_before(&self, i: nat) -> nat {
        self.plain_before(i) + i * (self.tag_size as nat + self.nonce_size as nat)
    }

    /// Where chunk `i` goes.
    pub open spec fn slot(&self, i: nat) -> ChunkSlot {
        let start = self.payload_start + self.sealed_before(i);
        let len = self.plain_before(i + 1) - self.plain_before(i);
        ChunkSlot {
            ciphertext_start: start as usize,
            tag_start: (start + len) as usize,
            nonce_start: (start + len + self.tag_size) as usize,
            chunk_end: (start + len + self.tag_size + self.nonce_size) as usize,
            aad: ChunkAad {
                salt: self.salt,
                plaintext_size: if i + 1 == self.chunks() {
                    Some(self.plaintext_size as u64)
                } else {
                    None
                },
                op_count: self.op_count,
                commit_ts: self.commit_ts,
                chunk_index: i as u32,
            },
        }
    }

    /// Whether the encrypted payload can be placed at all.
    pub open spec fn placeable(&self) -> bool {
        self.chunk_size > 0 && self.payload_start + self.size() <= usize::MAX
    }
}

/// Every chunk but the last one is full, and the chunks hold the whole
/// plaintext.
proof fn chunks_cover(p: EncryptedPayload, i: nat)
    requires
        p.chunk_size > 0,
    ensures
        i < p.chunks() ==> i * p.chunk_size < p.plaintext_size,
        i >= p.chunks() ==> i * p.chunk_size >= p.plaintext_size,
{
    let c = p.chunk_size as int;
    let n = p.plaintext_size as int;
    let k = p.chunks() as int;
    vstd::arithmetic::div_mod::lemma_fundamental_div_mod(n + c - 1, c);
    let r = (n + c - 1) % c;
    assert(c * k + r == n + c - 1);
    if i < k {
        assert(i * c <= (k - 1) * c) by (nonlinear_arith)
            requires
                i <= k - 1,
                c > 0,
        ;
        assert((k - 1) * c == c * k - c) by (nonlinear_arith);
    } else {
        assert(i * c >= c * k) by (nonlinear_arith)
            requires
                i >= k,
                c > 0,
        ;
    }
}

/// The chunks of an encrypted payload stand side by side: the first one at
/// the payload's start, each one where the one before it ends, the last one up
/// to the payload's end. None starts before its plaintext does, so whatever is
/// written for chunk `i` and the chunks behind it leaves the plaintext of the
/// chunks before it alone.
pub proof fn slots_tile_the_payload(p: EncryptedPayload, i: nat)
    requires
        p.placeable(),
        i < p.chunks(),
    ensures
        p.slot(0).ciphertext_start == p.payload_start,
        p.payload_start + p.plain_before(i) <= p.slot(i).ciphertext_start,
        p.slot(i).tag_start == p.slot(i).ciphertext_start + (p.plain_before(i + 1)
            - p.plain_before(i)),
        p.slot(i).nonce_start == p.slot(i).tag_start + p.tag_size,
        p.slot(i).chunk_end == p.slot(i).nonce_start + p.nonce_size,
        p.slot(i).chunk_end == p.payload_start + p.sealed_before(i + 1),
        i + 1 < p.chunks() ==> p.slot(i).chunk_end == p.slot(i + 1).ciphertext_start,
        i + 1 == p.chunks() ==> p.slot(i).chunk_end == p.payload_start + p.size(),
        p.plain_before(i) == i * p.chunk_size,
        p.plain_before(i) < p.plain_before(i + 1) <= p.plaintext_size,
        p.plain_before(i + 1) - p.plain_before(i) <= p.chunk_size,
{
    let over = p.tag_size as nat + p.nonce_size as nat;
    let c = p.chunk_size as nat;
    chunks_cover(p, i);
    chunks_cover(p, i + 1);
    chunks_cover(p, p.chunks());
    assert(0 * c == 0);
    assert(0 * over == 0);
    assert((i + 1) * over == i * over + over) by (nonlinear_arith);
    assert((i + 1) * c == i * c + c) by (nonlinear_arith);
    assert((i + 1) * over <= p.chunks() * over) by (nonlinear_arith)
        requires
            i + 1 <= p.chunks(),
    ;
    assert(i * over >= 0) by (nonlinear_arith);
}

/// Whatever is written from the place of chunk `i` on, the plaintext of every
/// chunk before it stays as it was. So each chunk is encrypted from the
/// plaintext that stood in the buffer at first.
pub proof fn earlier_plaintext_survives(
    p: EncryptedPayload,
    before: Seq<u8>,
    after: Seq<u8>,
    i: nat,
    j: nat,
)
    requires
        p.placeable(),
        j < i < p.chunks(),
        p.slot(i).ciphertext_start <= before.len(),
        p.slot(i).ciphertext_start <= after.len(),
        before.take(p.slot(i).ciphertext_start as int) == after.take(
            p.slot(i).ciphertext_start as int,
        ),
    ensures
        p.payload_start + p.plain_before(j + 1) <= p.slot(i).ciphertext_start,
        after.subrange(
            p.payload_start + p.plain_before(j),
            p.payload_start + p.plain_before(j + 1),
        ) == before.subrange(
            p.payload_start + p.plain_before(j),
            p.payload_start + p.plain_before(j + 1),
        ),
{
    slots_tile_the_payload(p, i);
    slots_tile_the_payload(p, j);
    assert((j + 1) * p.chunk_size <= i * p.chunk_size) by (nonlinear_arith)
        requires
            j + 1 <= i,
    ;
    let at = p.slot(i).ciphertext_start as int;
    assert forall|k: int| 0 <= k < at implies after[k] == before[k] by {
        assert(after.take(at)[k] == before.take(at)[k]);
    }
}

/// How far the encryption of a payload has come: the chunks that are left.
pub struct ChunkCursor {
    payload: EncryptedPayload,
    left: usize,
}

impl ChunkCursor {
    pub closed spec fn payload(&self) -> EncryptedPayload {
        self.payload
    }

    /// How many chunks are still plaintext.
    pub closed spec fn left(&self) -> nat {
        self.left as nat
    }

    /// Whether the cursor belongs to a buffer of `len` bytes.
    pub open spec fn fits(&self, len: nat) -> bool {
        &&& self.payload().placeable()
        &&& self.payload().payload_start + self.payload().size() == len
        &&& self.left() <= self.payload().chunks()
    }
}

/// The buffer with chunk `i` at its place, still as plaintext.
pub open spec fn staged(buffer: Seq<u8>, p: EncryptedPayload, i: nat) -> Seq<u8> {
    let slot = p.slot(i);
    buffer.take(slot.ciphertext_start as int) + buffer.subrange(
        p.payload_start + p.plain_before(i),
        p.payload_start + p.plain_before(i + 1),
    ) + buffer.skip(slot.tag_start as int)
}

impl<'a, B: LogBufferExt> LogSerializer<'a, B> {
    /// Makes room for an encrypted payload.
    ///
    /// Nothing is said of when the allocator refuses.
    pub fn begin_encryption(&mut self, payload: EncryptedPayload) -> (r: Result<
        ChunkCursor,
        LogError,
    >)
        requires
            payload.chunk_size > 0,
        ensures
            match r {
                Ok(cursor) => {
                    &&& cursor.payload() == payload
                    &&& cursor.left() == payload.chunks()
                    &&& cursor.fits(final(self).buffer.contents().len())
                    &&& payload.payload_start <= old(self).buffer.contents().len()
                    &&& final(self).buffer.contents() == old(self).buffer.contents() + Seq::new(
                        (payload.payload_start + payload.size() - old(
                            self,
                        ).buffer.contents().len()) as nat,
                        |i: int| 0u8,
                    )
                },
                Err(e) => {
                    &&& final(self).buffer.contents() == old(self).buffer.contents()
                    &&& if payload.size() > usize::MAX {
                        e == LogError::EncryptedSizeOverflow
                    } else if payload.payload_start + payload.size() > usize::MAX {
                        e == LogError::EncryptedEndOverflow
                    } else if payload.payload_start > old(self).buffer.contents().len() {
                        e == LogError::EncryptedStart
                    } else if payload.payload_start + payload.size() < old(
                        self,
                    ).buffer.contents().len() {
                        e == LogError::BufferShrinks
                    } else {
                        e == LogError::OutOfMemory
                    }
                },
            },
            *final(final(self).buffer) == *final(old(self).buffer),
    {
        let on_disk_size: usize = match encrypted_payload_blob_size(
            payload.plaintext_size,
            payload.chunk_size,
            payload.tag_size,
            payload.nonce_size,
        ) {
            Ok(size) => size,
            Err(e) => {
                return Err(e);
            },
        };
        let payload_end: usize = match payload.payload_start.checked_add(on_disk_size) {
            Some(end) => end,
            None => {
                return Err(LogError::EncryptedEndOverflow);
            },
        };
        if payload.payload_start > self.buffer.as_bytes().len() {
            return Err(LogError::EncryptedStart);
        }
        match self.buffer.try_resize_zeroed(payload_end) {
            Ok(_) => {},
            Err(e) => {
                return Err(e);
            },
        }
        let left: usize = encrypted_payload_chunk_count(payload.plaintext_size, payload.chunk_size);
        Ok(ChunkCursor { payload, left })
    }

    /// Moves the next chunk, from the last one to the first, to its place and
    /// says where it stands. `None` once all chunks have been encrypted.
    pub fn stage_chunk(&mut self, cursor: &mut ChunkCursor) -> (r: Result<
        Option<ChunkSlot>,
        LogError,
    >)
        requires
            old(cursor).fits(old(self).buffer.contents().len()),
        ensures
            final(cursor).payload() == old(cursor).payload(),
            final(cursor).fits(final(self).buffer.contents().len()),
            match r {
                Ok(None) => {
                    &&& old(cursor).left() == 0
                    &&& final(cursor).left() == 0
                    &&& final(self).buffer.contents() == old(self).buffer.contents()
                },
                Ok(Some(slot)) => {
                    &&& 0 < old(cursor).left() <= 0x1_0000_0000
                    &&& final(cursor).left() == old(cursor).left() - 1
                    &&& slot == old(cursor).payload().slot(final(cursor).left())
                    &&& final(self).buffer.contents() == staged(
                        old(self).buffer.contents(),
                        old(cursor).payload(),
                        final(cursor).left(),
                    )
                },
                Err(e) => {
                    &&& e == LogError::EncryptedChunkIndex
                    &&& old(cursor).left() > 0x1_0000_0000
                    &&& final(cursor).left() == old(cursor).left()
                    &&& final(self).buffer.contents() == old(self).buffer.contents()
                },
            },
            *final(final(self).buffer) == *final(old(self).buffer),
    {
        if cursor.left == 0 {
            return Ok(None);
        }
        let payload = cursor.payload;
        let chunk_index: usize = cursor.left - 1;
        if chunk_index as u64 > 0xffff_ffff {
            return Err(LogError::EncryptedChunkIndex);
        }
        proof {
            slots_tile_the_payload(payload, chunk_index as nat);
            let over = payload.tag_size as nat + payload.nonce_size as nat;
            let k = payload.chunks();
            assert(k * over >= over && k * over >= (chunk_index + 1) * over) by (nonlinear_arith)
                requires
                    k >= chunk_index + 1,
                    over >= 0,
            ;
            assert((chunk_index + 1) * over == chunk_index * over + over) by (nonlinear_arith);
            assert(chunk_index * over >= 0) by (nonlinear_arith)
                requires
                    over >= 0,
            ;
            if chunk_index + 1 < k {
                slots_tile_the_payload(payload, (k - 1) as nat);
                let i1 = (chunk_index + 1) as nat;
                chunks_cover(payload, i1);
            }
        }
        let plaintext_offset: usize = chunk_index * payload.chunk_size;
        let left_over: usize = payload.plaintext_size - plaintext_offset;
        let plaintext_len: usize = if left_over < payload.chunk_size {
            left_over
        } else {
            payload.chunk_size
        };
        proof {
            assert((chunk_index + 1) * payload.chunk_size == chunk_index * payload.chunk_size
                + payload.chunk_size) by (nonlinear_arith);
        }
        let overhead: usize = payload.tag_size + payload.nonce_size;
        let plaintext_start: usize = payload.payload_start + plaintext_offset;
        let ciphertext_start: usize = plaintext_start + chunk_index * overhead;
        let tag_start: usize = ciphertext_start + plaintext_len;
        let nonce_start: usize = tag_start + payload.tag_size;
        let chunk_end: usize = nonce_start + payload.nonce_size;

        let plaintext = vstd::slice::slice_to_vec(
            vstd::slice::slice_subrange(
                self.buffer.as_bytes(),
                plaintext_start,
                plaintext_start + plaintext_len,
            ),
        );
        chunk::copy_at(self.buffer.as_bytes_mut(), ciphertext_start, &plaintext);
        cursor.left = chunk_index;
        let plaintext_size: Option<u64> = if chunk_index + 1 == encrypted_payload_chunk_count(
            payload.plaintext_size,
            payload.chunk_size,
        ) {
            Some(payload.plaintext_size as u64)
        } else {
            None
        };
        let aad = ChunkAad {
            salt: payload.salt,
            plaintext_size,
            op_count: payload.op_count,
            commit_ts: payload.commit_ts,
            chunk_index: chunk_index as u32,
        };
        assert(self.buffer.contents() =~= staged(
            old(self).buffer.contents(),
            payload,
            chunk_index as nat,
        ));
        Ok(Some(ChunkSlot { ciphertext_start, tag_start, nonce_start, chunk_end, aad }))
    }
}

/// Every chunk is bound to its payload and to its place: it names the payload's
/// salt, number of operations and time of commit, and a number of its own. The
/// size of the whole plaintext is named by the last chunk, and by no other.
pub proof fn chunks_name_their_place(p: EncryptedPayload, i: nat, j: nat)
    requires
        i < j < p.chunks(),
        p.chunks() <= 0x1_0000_0000,
    ensures
        p.slot(i).aad.chunk_index == i,
        p.slot(i).aad.chunk_index != p.slot(j).aad.chunk_index,
        p.slot(i).aad.salt == p.salt && p.slot(j).aad.salt == p.salt,
        p.slot(i).aad.op_count == p.op_count && p.slot(j).aad.op_count == p.op_count,
        p.slot(i).aad.commit_ts == p.commit_ts && p.slot(j).aad.commit_ts == p.commit_ts,
        p.slot(i).aad.plaintext_size is None,
        p.slot((p.chunks() - 1) as nat).aad.plaintext_size == Some(p.plaintext_size as u64),
{
}

/// Staging puts the plaintext of one chunk where it is to be encrypted, and leaves
/// the rest of the buffer alone.
pub proof fn staging_moves_one_chunk(p: EncryptedPayload, buffer: Seq<u8>, i: nat)
    requires
        p.placeable(),
        i < p.chunks(),
        p.payload_start + p.size() <= buffer.len(),
    ensures
        staged(buffer, p, i).len() == buffer.len(),
        staged(buffer, p, i).subrange(
            p.slot(i).ciphertext_start as int,
            p.slot(i).tag_start as int,
        ) == buffer.subrange(
            p.payload_start + p.plain_before(i),
            p.payload_start + p.plain_before(i + 1),
        ),
        staged(buffer, p, i).take(p.slot(i).ciphertext_start as int) == buffer.take(
            p.slot(i).ciphertext_start as int,
        ),
        staged(buffer, p, i).skip(p.slot(i).tag_start as int) == buffer.skip(
            p.slot(i).tag_start as int,
        ),
{
    slots_tile_the_payload(p, i);
    let over = p.tag_size as nat + p.nonce_size as nat;
    chunks_cover(p, p.chunks());
    assert((i + 1) * over <= p.chunks() * over) by (nonlinear_arith)
        requires
            i + 1 <= p.chunks(),
    ;
    let slot = p.slot(i);
    let t = staged(buffer, p, i);
    assert(slot.chunk_end <= buffer.len());
    assert(t.subrange(slot.ciphertext_start as int, slot.tag_start as int) =~= buffer.subrange(
        p.payload_start + p.plain_before(i),
        p.payload_start + p.plain_before(i + 1),
    ));
    assert(t.take(slot.ciphertext_start as int) =~= buffer.take(slot.ciphertext_start as int));
    assert(t.skip(slot.tag_start as int) =~= buffer.skip(slot.tag_start as int));
}

} // verus!
