//! Streams of logical-log chunks and the buffers they are appended to.
//!
//! A stream announces its length before it is copied, so that a buffer can
//! reserve once for the whole stream. A stream whose announcement and whose
//! bytes disagree leaves the buffer as it was.

use vstd::prelude::*;

verus! {

/// Why a logical-log operation failed.
#[derive(Clone, Copy, Debug, PartialEq, Eq, Structural)]
pub enum LogError {
    /// A size in the encoding does not fit the machine's word.
    LengthOverflow,
    /// A stream did not write as many bytes as it announced.
    LengthMismatch,
    /// An insertion offset lies behind the end of the buffer.
    InsertOffset,
    /// The buffer would have to shrink.
    BufferShrinks,
    /// An extension record's payload does not fit 32 bits.
    ExtensionTooLarge,
    /// The extension record around a portable payload overflows.
    PortableExtensionOverflow,
    /// The plaintext that holds a portable payload overflows.
    PortablePlaintextOverflow,
    /// The frame that holds a portable payload overflows.
    PortableFrameOverflow,
    /// The end of the frame overflows the log's offsets.
    PortableOffsetOverflow,
    /// The size of an encrypted payload overflows.
    EncryptedSizeOverflow,
    /// The end of an encrypted payload overflows.
    EncryptedEndOverflow,
    /// An encrypted payload starts behind the end of the buffer.
    EncryptedStart,
    /// A chunk's number does not fit 32 bits.
    EncryptedChunkIndex,
    /// The allocator refused.
    OutOfMemory,
}

impl LogError {
    /// The text of the error.
    pub open spec fn text(self) -> Seq<char> {
        match self {
            LogError::LengthOverflow => "logical log serialization size overflow"@,
            LogError::LengthMismatch => "logical log serialization length mismatch"@,
            LogError::InsertOffset => "logical log serializer insert offset exceeds buffer length"@,
            LogError::BufferShrinks => "logical log buffer shrinks unexpectedly"@,
            LogError::ExtensionTooLarge => "Logical log extension record exceeds u32"@,
            LogError::PortableExtensionOverflow => "portable logical extension size overflow"@,
            LogError::PortablePlaintextOverflow => "portable logical plaintext size overflow"@,
            LogError::PortableFrameOverflow => "portable logical frame size overflow"@,
            LogError::PortableOffsetOverflow => "portable logical frame offset overflow"@,
            LogError::EncryptedSizeOverflow => "encrypted payload size overflow"@,
            LogError::EncryptedEndOverflow => "encrypted payload end offset overflow"@,
            LogError::EncryptedStart => "encrypted payload start exceeds buffer length"@,
            LogError::EncryptedChunkIndex => "encrypted payload chunk index exceeds u32"@,
            LogError::OutOfMemory => "out of memory"@,
        }
    }

    /// Renders the error.
    pub fn message(&self) -> (m: &'static str)
        ensures
            m@ == self.text(),
    {
        match self {
            LogError::LengthOverflow => "logical log serialization size overflow",
            LogError::LengthMismatch => "logical log serialization length mismatch",
            LogError::InsertOffset => "logical log serializer insert offset exceeds buffer length",
            LogError::BufferShrinks => "logical log buffer shrinks unexpectedly",
            LogError::ExtensionTooLarge => "Logical log extension record exceeds u32",
            LogError::PortableExtensionOverflow => "portable logical extension size overflow",
            LogError::PortablePlaintextOverflow => "portable logical plaintext size overflow",
            LogError::PortableFrameOverflow => "portable logical frame size overflow",
            LogError::PortableOffsetOverflow => "portable logical frame offset overflow",
            LogError::EncryptedSizeOverflow => "encrypted payload size overflow",
            LogError::EncryptedEndOverflow => "encrypted payload end offset overflow",
            LogError::EncryptedStart => "encrypted payload start exceeds buffer length",
            LogError::EncryptedChunkIndex => "encrypted payload chunk index exceeds u32",
            LogError::OutOfMemory => "out of memory",
        }
    }
}

/// The place that a stream copies its chunks to: room for an announced number
/// of bytes, filled from the front.
pub struct LogChunkWriter {
    output: Vec<u8>,
    capacity: usize,
}

impl LogChunkWriter {
    /// The bytes written so far.
    pub closed spec fn view(&self) -> Seq<u8> {
        self.output@
    }

    /// How many bytes there is room for in all.
    pub closed spec fn room(&self) -> nat {
        self.capacity as nat
    }

    /// An empty writer with room for `capacity` bytes.
    pub fn with_capacity(capacity: usize) -> (w: LogChunkWriter)
        ensures
            w@ == Seq::<u8>::empty(),
            w.room() == capacity,
    {
        LogChunkWriter { output: Vec::new(), capacity }
    }

    /// Appends `bytes`, unless they exceed the room that is left; then nothing
    /// is written.
    pub fn copy_from_slice(&mut self, bytes: &[u8]) -> (r: Result<(), LogError>)
        ensures
            final(self).room() == old(self).room(),
            match r {
                Ok(_) => {
                    &&& old(self)@.len() + bytes@.len() <= old(self).room()
                    &&& final(self)@ == old(self)@ + bytes@
                },
                Err(e) => {
                    &&& e == LogError::LengthMismatch
                    &&& old(self)@.len() + bytes@.len() > old(self).room()
                    &&& final(self)@ == old(self)@
                },
            },
    {
        let next_written: usize = match self.output.len().checked_add(bytes.len()) {
            Some(next) => next,
            None => {
                return Err(LogError::LengthMismatch);
            },
        };
        if next_written > self.capacity {
            return Err(LogError::LengthMismatch);
        }
        self.output.extend_from_slice(bytes);
        assert(self.output@ =~= old(self).output@ + bytes@);
        Ok(())
    }
}

/// A statically composed stream of logical-log chunks. What it announces need
/// not be what it writes: the buffer notices.
pub trait LogChunkStream: Sized {
    /// The number of bytes that the stream announces; `None` where it exceeds a
    /// machine word.
    spec fn announced_len(&self) -> Option<usize>;

    /// The bytes that the stream writes.
    spec fn bytes(&self) -> Seq<u8>;

    /// The announced number of bytes.
    fn encoded_len(&self) -> (r: Option<usize>)
        ensures
            r == self.announced_len(),
    ;

    /// Copies the stream's chunks, in order, into `writer`.
    fn copy_to(self, writer: &mut LogChunkWriter) -> (r: Result<(), LogError>)
        ensures
            final(writer).room() == old(writer).room(),
            old(writer)@.is_prefix_of(final(writer)@),
            match r {
                Ok(_) => {
                    &&& old(writer)@.len() + self.bytes().len() <= old(writer).room()
                    &&& final(writer)@ == old(writer)@ + self.bytes()
                },
                Err(e) => {
                    &&& e == LogError::LengthMismatch
                    &&& old(writer)@.len() + self.bytes().len() > old(writer).room()
                },
            },
    ;
}

/// Whether a stream announces exactly the bytes that it writes.
pub open spec fn faithful<C: LogChunkStream>(chunks: C) -> bool {
    chunks.announced_len() == announced(chunks.bytes().len())
}

/// A length as a machine word, where it is one.
pub open spec fn announced(len: nat) -> Option<usize> {
    if len <= usize::MAX {
        Some(len as usize)
    } else {
        None
    }
}

/// Two streams, one after the other.
pub struct ChainedLogChunks<L, R> {
    pub left: L,
    pub right: R,
}

/// The stream that writes `left` and then `right`.
pub fn chain<L: LogChunkStream, R: LogChunkStream>(left: L, right: R) -> (c: ChainedLogChunks<L, R>)
    ensures
        c.left == left,
        c.right == right,
{
    ChainedLogChunks { left, right }
}

impl<L: LogChunkStream, R: LogChunkStream> LogChunkStream for ChainedLogChunks<L, R> {
    /// The sum of what both announce.
    open spec fn announced_len(&self) -> Option<usize> {
        match (self.left.announced_len(), self.right.announced_len()) {
            (Some(left), Some(right)) => announced((left + right) as nat),
            _ => None,
        }
    }

    open spec fn bytes(&self) -> Seq<u8> {
        self.left.bytes() + self.right.bytes()
    }

    fn encoded_len(&self) -> (r: Option<usize>) {
        let left: usize = match self.left.encoded_len() {
            Some(left) => left,
            None => {
                return None;
            },
        };
        match self.right.encoded_len() {
            Some(right) => left.checked_add(right),
            None => None,
        }
    }

    fn copy_to(self, writer: &mut LogChunkWriter) -> (r: Result<(), LogError>) {
        match self.left.copy_to(writer) {
            Ok(_) => {},
            Err(e) => {
                return Err(e);
            },
        }
        let ghost middle = writer@;
        let r = self.right.copy_to(writer);
        assert(r is Ok ==> writer@ =~= old(writer)@ + self.bytes());
        r
    }
}

/// A short run of bytes held in place: the first `len` of an array.
pub struct InlineLogChunk<const N: usize> {
    bytes: [u8; N],
    len: usize,
}

impl<const N: usize> InlineLogChunk<N> {
    #[verifier::type_invariant]
    spec fn len_fits(self) -> bool {
        self.len <= N
    }

    /// The bytes of the chunk.
    pub closed spec fn view(&self) -> Seq<u8> {
        self.bytes@.take(self.len as int)
    }

    /// The whole array.
    pub fn full(bytes: [u8; N]) -> (r: Self)
        ensures
            r@ == bytes@,
    {
        let r = InlineLogChunk { bytes, len: N };
        assert(bytes@.take(N as int) =~= bytes@);
        r
    }

    /// The first `len` bytes of the array.
    pub fn prefix(bytes: [u8; N], len: usize) -> (r: Self)
        requires
            len <= N,
        ensures
            r@ == bytes@.take(len as int),
    {
        InlineLogChunk { bytes, len }
    }
}

impl<const N: usize> LogChunkStream for InlineLogChunk<N> {
    open spec fn announced_len(&self) -> Option<usize> {
        announced(self@.len())
    }

    open spec fn bytes(&self) -> Seq<u8> {
        self@
    }

    fn encoded_len(&self) -> (r: Option<usize>) {
        proof {
            use_type_invariant(self);
        }
        Some(self.len)
    }

    fn copy_to(self, writer: &mut LogChunkWriter) -> (r: Result<(), LogError>) {
        proof {
            use_type_invariant(&self);
        }
        let slice = self.bytes.as_slice();
        writer.copy_from_slice(vstd::slice::slice_subrange(slice, 0, self.len))
    }
}

/// Bytes that somebody else holds.
pub struct BorrowedLogChunk<'a>(pub &'a [u8]);

impl<'a> LogChunkStream for BorrowedLogChunk<'a> {
    open spec fn announced_len(&self) -> Option<usize> {
        announced(self.0@.len())
    }

    open spec fn bytes(&self) -> Seq<u8> {
        self.0@
    }

    fn encoded_len(&self) -> (r: Option<usize>) {
        Some(self.0.len())
    }

    fn copy_to(self, writer: &mut LogChunkWriter) -> (r: Result<(), LogError>) {
        writer.copy_from_slice(self.0)
    }
}

/// A value that can stand in the log.
pub trait LogBufferWrite: Sized {
    type Chunks: LogChunkStream;

    /// Whether the parts of the value fit a machine word together.
    spec fn encodable(&self) -> bool;

    /// The bytes of the value in the log.
    spec fn encoding(&self) -> Seq<u8>;

    /// The value as a stream of chunks.
    fn into_chunks(self) -> (c: Self::Chunks)
        requires
            self.encodable(),
        ensures
            faithful(c),
            c.bytes() == self.encoding(),
    ;
}

impl LogBufferWrite for u8 {
    type Chunks = InlineLogChunk<1>;

    open spec fn encodable(&self) -> bool {
        true
    }

    open spec fn encoding(&self) -> Seq<u8> {
        seq![*self]
    }

    fn into_chunks(self) -> (c: InlineLogChunk<1>) {
        let bytes: [u8; 1] = [self];
        assert(bytes@ =~= seq![self]);
        InlineLogChunk::full(bytes)
    }
}

impl<const N: usize> LogBufferWrite for [u8; N] {
    type Chunks = InlineLogChunk<N>;

    open spec fn encodable(&self) -> bool {
        true
    }

    open spec fn encoding(&self) -> Seq<u8> {
        self@
    }

    fn into_chunks(self) -> (c: InlineLogChunk<N>) {
        InlineLogChunk::full(self)
    }
}

impl<'a> LogBufferWrite for &'a [u8] {
    type Chunks = BorrowedLogChunk<'a>;

    open spec fn encodable(&self) -> bool {
        true
    }

    open spec fn encoding(&self) -> Seq<u8> {
        (*self)@
    }

    fn into_chunks(self) -> (c: BorrowedLogChunk<'a>) {
        BorrowedLogChunk(self)
    }
}

/// Appends a stream for which room has been reserved: the stream announced
/// `encoded_len` bytes, and they fit behind what the buffer holds. A stream that
/// writes another number of bytes is refused.
pub fn extend_reserved<C: LogChunkStream>(
    buffer: &mut Vec<u8>,
    chunks: C,
    encoded_len: usize,
) -> (r: Result<(), LogError>)
    requires
        old(buffer)@.len() + encoded_len <= usize::MAX,
    ensures
        if chunks.bytes().len() == encoded_len {
            r is Ok && final(buffer)@ == old(buffer)@ + chunks.bytes()
        } else {
            r == Err::<(), LogError>(LogError::LengthMismatch) && final(buffer)@ == old(buffer)@
        },
{
    let mut writer = LogChunkWriter::with_capacity(encoded_len);
    let ghost before = writer@;
    match chunks.copy_to(&mut writer) {
        Ok(_) => {},
        Err(e) => {
            return Err(e);
        },
    }
    if writer.output.len() != encoded_len {
        return Err(LogError::LengthMismatch);
    }
    assert(before + chunks.bytes() =~= chunks.bytes());
    let mut output = writer.output;
    buffer.append(&mut output);
    Ok(())
}

/// What appending a stream does. A length that exceeds a machine word is
/// refused, and so is a stream that does not write as many bytes as it
/// announced. When the allocator refuses is left open; a refused buffer keeps
/// what it held.
pub open spec fn extends<C: LogChunkStream>(
    before: Seq<u8>,
    after: Seq<u8>,
    chunks: C,
    r: Result<(), LogError>,
) -> bool {
    match chunks.announced_len() {
        Some(len) if before.len() + len <= usize::MAX => match r {
            Ok(_) => chunks.bytes().len() == len && after == before + chunks.bytes(),
            Err(e) => {
                &&& after == before
                &&& e == LogError::OutOfMemory || e == LogError::LengthMismatch
                &&& e == LogError::LengthMismatch ==> chunks.bytes().len() != len
            },
        },
        _ => r == Err::<(), LogError>(LogError::LengthOverflow) && after == before,
    }
}

/// A growing buffer that the log is written to.
pub trait LogBufferExt {
    /// The bytes in the buffer.
    spec fn contents(&self) -> Seq<u8>;

    /// The bytes in the buffer.
    fn as_bytes(&self) -> (r: &[u8])
        ensures
            r@ == self.contents(),
    ;

    /// The bytes in the buffer, to be overwritten.
    fn as_bytes_mut(&mut self) -> (r: &mut [u8])
        ensures
            r@ == old(self).contents(),
            final(r)@ == final(self).contents(),
    ;

    /// Appends a stream.
    ///
    /// Nothing is said of when the allocator refuses; then, as on every other
    /// error, the buffer keeps what it held.
    fn try_extend_chunks<C: LogChunkStream>(&mut self, chunks: C) -> (r: Result<(), LogError>)
        ensures
            extends(old(self).contents(), final(self).contents(), chunks, r),
    ;

    /// Grows the buffer to `new_len` bytes by zeros.
    ///
    /// Nothing is said of when the allocator refuses.
    fn try_resize_zeroed(&mut self, new_len: usize) -> (r: Result<(), LogError>)
        ensures
            match r {
                Ok(_) => {
                    &&& old(self).contents().len() <= new_len
                    &&& final(self).contents() == old(self).contents() + Seq::new(
                        (new_len - old(self).contents().len()) as nat,
                        |i: int| 0u8,
                    )
                },
                Err(e) => {
                    &&& final(self).contents() == old(self).contents()
                    &&& e == LogError::BufferShrinks || e == LogError::OutOfMemory
                    &&& e == LogError::BufferShrinks <==> new_len < old(self).contents().len()
                },
            },
    ;
}

impl LogBufferExt for Vec<u8> {
    open spec fn contents(&self) -> Seq<u8> {
        self@
    }

    fn as_bytes(&self) -> (r: &[u8]) {
        self.as_slice()
    }

    fn as_bytes_mut(&mut self) -> (r: &mut [u8]) {
        self.as_mut_slice()
    }

    fn try_extend_chunks<C: LogChunkStream>(&mut self, chunks: C) -> (r: Result<(), LogError>) {
        let encoded_len: usize = match chunks.encoded_len() {
            Some(len) => len,
            None => {
                return Err(LogError::LengthOverflow);
            },
        };
        let new_len: usize = match self.len().checked_add(encoded_len) {
            Some(len) => len,
            None => {
                return Err(LogError::LengthOverflow);
            },
        };
        if self.try_reserve(encoded_len).is_err() {
            return Err(LogError::OutOfMemory);
        }
        extend_reserved(self, chunks, encoded_len)
    }

    fn try_resize_zeroed(&mut self, new_len: usize) -> (r: Result<(), LogError>) {
        let additional: usize = match new_len.checked_sub(self.len()) {
            Some(additional) => additional,
            None => {
                return Err(LogError::BufferShrinks);
            },
        };
        if self.try_reserve(additional).is_err() {
            return Err(LogError::OutOfMemory);
        }
        self.resize(new_len, 0);
        assert(self@ =~= old(self)@ + Seq::new(
            (new_len - old(self)@.len()) as nat,
            |i: int| 0u8,
        ));
        Ok(())
    }
}

/// Overwrites the bytes at `start`.
pub(crate) fn copy_at(buffer: &mut [u8], start: usize, bytes: &Vec<u8>)
    requires
        start + bytes@.len() <= old(buffer)@.len(),
    ensures
        final(buffer)@ == old(buffer)@.take(start as int) + bytes@ + old(buffer)@.skip(
            start + bytes@.len(),
        ),
{
    let mut i: usize = 0;
    while i < bytes.len()
        invariant
            i <= bytes@.len(),
            start + bytes@.len() <= old(buffer)@.len(),
            buffer.len() == old(buffer)@.len(),
            buffer@ == old(buffer)@.take(start as int) + bytes@.take(i as int) + old(buffer)@.skip(
                start + i,
            ),
        decreases bytes@.len() - i,
    {
        let ghost before = buffer@;
        buffer[start + i] = bytes[i];
        i = i + 1;
        assert(buffer@ =~= old(buffer)@.take(start as int) + bytes@.take(i as int)
            + old(buffer)@.skip(start + i));
    }
    assert(bytes@.take(i as int) =~= bytes@);
}

} // verus!
