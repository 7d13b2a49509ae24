//! The portable change payload: a frame's record of where in the log it ends
//! and when it was committed.

use vstd::prelude::*;
use crate::log::{chunk, encrypted, varint};
use crate::log::chunk::{
    BorrowedLogChunk, ChainedLogChunks, InlineLogChunk, LogBufferWrite, LogChunkStream, LogError,
    chain,
};
use crate::log::encrypted::encrypted_payload_blob_size;
use crate::log::format::{EXTENSION_RECORD_HEADER_SIZE, LogFormat};
use crate::log::varint::{PROTO_WIRE_VARINT, ProtoKey, ProtoVarint, proto_varint_len};

verus! {

/// What decides where the frame around a portable payload ends.
#[derive(Clone, Copy)]
pub struct PortableEndOffsetCtx {
    pub write_offset: u64,
    pub includes_log_header: bool,
    pub tx_header_size: usize,
    pub recovery_payload_size: usize,
    pub encrypted_payload_chunk_size: usize,
    /// The sizes of a tag and of a nonce, where payloads are encrypted.
    pub encryption_overhead: Option<(usize, usize)>,
}

impl PortableEndOffsetCtx {
    /// An encrypted payload has chunks of at least one byte.
    pub open spec fn valid(&self) -> bool {
        self.encryption_overhead is Some ==> self.encrypted_payload_chunk_size > 0
    }

    /// The size of the frame's body on disk.
    pub open spec fn body_size(&self, plaintext: nat) -> nat {
        match self.encryption_overhead {
            Some((tag, nonce)) => encrypted::blob_size(
                plaintext,
                self.encrypted_payload_chunk_size as nat,
                tag as nat,
                nonce as nat,
            ),
            None => plaintext,
        }
    }

    /// The size of the frame around a portable payload of `len` bytes.
    pub open spec fn frame_size(&self, format: LogFormat, len: nat) -> nat {
        (if self.includes_log_header {
            format.log_header_size as nat
        } else {
            0
        }) + self.tx_header_size as nat + self.body_size(
            self.recovery_payload_size as nat + EXTENSION_RECORD_HEADER_SIZE as nat + len,
        ) + format.tx_trailer_size as nat
    }

    /// Where in the log the frame around a portable payload of `len` bytes
    /// ends.
    pub open spec fn frame_end(&self, format: LogFormat, len: nat) -> Result<u64, LogError> {
        let extension = EXTENSION_RECORD_HEADER_SIZE as nat + len;
        let plaintext = self.recovery_payload_size as nat + extension;
        let frame = self.frame_size(format, len);
        if extension > usize::MAX {
            Err(LogError::PortableExtensionOverflow)
        } else if plaintext > usize::MAX {
            Err(LogError::PortablePlaintextOverflow)
        } else if self.body_size(plaintext) > usize::MAX {
            Err(LogError::EncryptedSizeOverflow)
        } else if frame > usize::MAX {
            Err(LogError::PortableFrameOverflow)
        } else if self.write_offset + frame > u64::MAX {
            Err(LogError::PortableOffsetOverflow)
        } else {
            Ok((self.write_offset + frame) as u64)
        }
    }

    /// A longer payload does not end earlier.
    proof fn frame_end_monotone(&self, format: LogFormat, a: nat, b: nat)
        requires
            self.valid(),
            a <= b,
            self.frame_end(format, b) is Ok,
        ensures
            self.frame_end(format, a) is Ok,
            self.frame_end(format, a)->Ok_0 <= self.frame_end(format, b)->Ok_0,
    {
        let base = self.recovery_payload_size as nat + EXTENSION_RECORD_HEADER_SIZE as nat;
        match self.encryption_overhead {
            Some((tag, nonce)) => {
                encrypted::blob_size_monotone(
                    base + a,
                    base + b,
                    self.encrypted_payload_chunk_size as nat,
                    tag as nat,
                    nonce as nat,
                );
            },
            None => {},
        }
    }

    /// Where in the log the frame around a portable payload ends.
    pub fn frame_end_offset(&self, format: &LogFormat, portable_payload_len: usize) -> (r: Result<
        u64,
        LogError,
    >)
        requires
            self.valid(),
        ensures
            r == self.frame_end(*format, portable_payload_len as nat),
    {
        let extension_size: usize = match EXTENSION_RECORD_HEADER_SIZE.checked_add(
            portable_payload_len,
        ) {
            Some(size) => size,
            None => {
                return Err(LogError::PortableExtensionOverflow);
            },
        };
        let plaintext_size: usize = match self.recovery_payload_size.checked_add(extension_size) {
            Some(size) => size,
            None => {
                return Err(LogError::PortablePlaintextOverflow);
            },
        };
        let body_size: usize = match self.encryption_overhead {
            Some((tag_size, nonce_size)) => match encrypted_payload_blob_size(
                plaintext_size,
                self.encrypted_payload_chunk_size,
                tag_size,
                nonce_size,
            ) {
                Ok(size) => size,
                Err(e) => {
                    return Err(e);
                },
            },
            None => plaintext_size,
        };
        let prefix_size: usize = if self.includes_log_header {
            format.log_header_size
        } else {
            0
        };
        let frame_size: usize = match prefix_size.checked_add(self.tx_header_size) {
            Some(size) => match size.checked_add(body_size) {
                Some(size) => match size.checked_add(format.tx_trailer_size) {
                    Some(size) => size,
                    None => {
                        return Err(LogError::PortableFrameOverflow);
                    },
                },
                None => {
                    return Err(LogError::PortableFrameOverflow);
                },
            },
            None => {
                return Err(LogError::PortableFrameOverflow);
            },
        };
        match self.write_offset.checked_add(frame_size as u64) {
            Some(end) => Ok(end),
            None => Err(LogError::PortableOffsetOverflow),
        }
    }
}

/// A frame's record of where it ends and when it was committed, before
/// metadata that is encoded already.
#[derive(Clone, Copy)]
pub struct PortableChangePayload<'a> {
    pub end_offset: u64,
    pub commit_ts: u64,
    pub encoded_metadata: &'a [u8],
}

/// The payload's fields: the end offset as field 1, the commit timestamp as
/// field 2, and the metadata.
pub open spec fn payload_body(end_offset: u64, commit_ts: u64, metadata: Seq<u8>) -> Seq<u8> {
    varint::proto_varint(8) + varint::proto_varint(end_offset as nat) + varint::proto_varint(16)
        + varint::proto_varint(commit_ts as nat) + metadata
}

/// The payload in the log: its fields behind their length.
pub open spec fn payload_bytes(end_offset: u64, commit_ts: u64, metadata: Seq<u8>) -> Seq<u8> {
    let body = payload_body(end_offset, commit_ts, metadata);
    varint::proto_varint(body.len()) + body
}

/// How many bytes a payload takes in the log.
pub open spec fn payload_len(end_offset: u64, commit_ts: u64, metadata_len: nat) -> nat {
    let body = 2 + varint::proto_varint(end_offset as nat).len() + varint::proto_varint(
        commit_ts as nat,
    ).len() + metadata_len;
    varint::proto_varint(body).len() + body
}

proof fn payload_len_is_length(end_offset: u64, commit_ts: u64, metadata: Seq<u8>)
    ensures
        payload_bytes(end_offset, commit_ts, metadata).len() == payload_len(
            end_offset,
            commit_ts,
            metadata.len(),
        ),
{
    reveal_with_fuel(varint::proto_varint, 2);
}

/// Where the frame ends if the payload says that it ends at `end`.
pub open spec fn next_end(
    ctx: PortableEndOffsetCtx,
    format: LogFormat,
    commit_ts: u64,
    metadata_len: nat,
    end: u64,
) -> Result<u64, LogError> {
    let len = payload_len(end, commit_ts, metadata_len);
    if len > usize::MAX {
        Err(LogError::LengthOverflow)
    } else {
        ctx.frame_end(format, len)
    }
}

/// Whether a frame whose payload says that it ends at `end` does end there.
pub open spec fn stable_end(
    ctx: PortableEndOffsetCtx,
    format: LogFormat,
    commit_ts: u64,
    metadata_len: nat,
    end: u64,
) -> bool {
    next_end(ctx, format, commit_ts, metadata_len, end) == Ok::<u64, LogError>(end)
}

/// The end that is reached from `end` by writing it down and seeing where the
/// frame ends then, until nothing moves any more.
pub open spec fn settle(
    ctx: PortableEndOffsetCtx,
    format: LogFormat,
    commit_ts: u64,
    metadata_len: nat,
    end: u64,
) -> Result<u64, LogError>
    decreases u64::MAX - end,
{
    match next_end(ctx, format, commit_ts, metadata_len, end) {
        Ok(next) => if next <= end {
            Ok(end)
        } else {
            settle(ctx, format, commit_ts, metadata_len, next)
        },
        Err(e) => Err(e),
    }
}

/// Where the search for the stable end starts: the end of a frame whose
/// payload is empty.
pub open spec fn settled_end(
    ctx: PortableEndOffsetCtx,
    format: LogFormat,
    commit_ts: u64,
    metadata_len: nat,
) -> Result<u64, LogError> {
    match ctx.frame_end(format, 0) {
        Ok(start) => settle(ctx, format, commit_ts, metadata_len, start),
        Err(e) => Err(e),
    }
}

proof fn payload_len_monotone(a: u64, b: u64, commit_ts: u64, metadata_len: nat)
    requires
        a <= b,
    ensures
        payload_len(a, commit_ts, metadata_len) <= payload_len(b, commit_ts, metadata_len),
{
    let rest = 2 + varint::proto_varint(commit_ts as nat).len() + metadata_len;
    varint::proto_len_monotone(a as nat, b as nat);
    varint::proto_len_monotone(
        rest + varint::proto_varint(a as nat).len(),
        rest + varint::proto_varint(b as nat).len(),
    );
}

proof fn next_end_monotone(
    ctx: PortableEndOffsetCtx,
    format: LogFormat,
    commit_ts: u64,
    metadata_len: nat,
    a: u64,
    b: u64,
)
    requires
        ctx.valid(),
        a <= b,
        next_end(ctx, format, commit_ts, metadata_len, b) is Ok,
    ensures
        next_end(ctx, format, commit_ts, metadata_len, a) is Ok,
        next_end(ctx, format, commit_ts, metadata_len, a)->Ok_0 <= next_end(
            ctx,
            format,
            commit_ts,
            metadata_len,
            b,
        )->Ok_0,
{
    payload_len_monotone(a, b, commit_ts, metadata_len);
    ctx.frame_end_monotone(
        format,
        payload_len(a, commit_ts, metadata_len),
        payload_len(b, commit_ts, metadata_len),
    );
}

/// Whether writing `end` down does not move the frame's end back.
spec fn rising(
    ctx: PortableEndOffsetCtx,
    format: LogFormat,
    commit_ts: u64,
    metadata_len: nat,
    end: u64,
) -> bool {
    next_end(ctx, format, commit_ts, metadata_len, end) matches Ok(next) ==> end <= next
}

proof fn start_is_rising(
    ctx: PortableEndOffsetCtx,
    format: LogFormat,
    commit_ts: u64,
    metadata_len: nat,
)
    requires
        ctx.valid(),
    ensures
        ctx.frame_end(format, 0) matches Ok(start) ==> rising(
            ctx,
            format,
            commit_ts,
            metadata_len,
            start,
        ),
{
    if let Ok(start) = ctx.frame_end(format, 0) {
        let len = payload_len(start, commit_ts, metadata_len);
        if ctx.frame_end(format, len) is Ok {
            ctx.frame_end_monotone(format, 0, len);
        }
    }
}

proof fn rising_is_kept(
    ctx: PortableEndOffsetCtx,
    format: LogFormat,
    commit_ts: u64,
    metadata_len: nat,
    end: u64,
)
    requires
        ctx.valid(),
        rising(ctx, format, commit_ts, metadata_len, end),
    ensures
        next_end(ctx, format, commit_ts, metadata_len, end) matches Ok(next) ==> rising(
            ctx,
            format,
            commit_ts,
            metadata_len,
            next,
        ),
{
    if let Ok(next) = next_end(ctx, format, commit_ts, metadata_len, end) {
        if next_end(ctx, format, commit_ts, metadata_len, next) is Ok {
            next_end_monotone(ctx, format, commit_ts, metadata_len, end, next);
        }
    }
}

proof fn settle_is_least(
    ctx: PortableEndOffsetCtx,
    format: LogFormat,
    commit_ts: u64,
    metadata_len: nat,
    end: u64,
    other: u64,
)
    requires
        ctx.valid(),
        rising(ctx, format, commit_ts, metadata_len, end),
        stable_end(ctx, format, commit_ts, metadata_len, other),
        end <= other,
    ensures
        settle(ctx, format, commit_ts, metadata_len, end) is Ok,
        settle(ctx, format, commit_ts, metadata_len, end)->Ok_0 <= other,
    decreases u64::MAX - end,
{
    next_end_monotone(ctx, format, commit_ts, metadata_len, end, other);
    let next = next_end(ctx, format, commit_ts, metadata_len, end)->Ok_0;
    if next > end {
        rising_is_kept(ctx, format, commit_ts, metadata_len, end);
        settle_is_least(ctx, format, commit_ts, metadata_len, next, other);
    }
}

proof fn settle_is_stable(
    ctx: PortableEndOffsetCtx,
    format: LogFormat,
    commit_ts: u64,
    metadata_len: nat,
    end: u64,
)
    requires
        ctx.valid(),
        rising(ctx, format, commit_ts, metadata_len, end),
    ensures
        settle(ctx, format, commit_ts, metadata_len, end) matches Ok(r) ==> stable_end(
            ctx,
            format,
            commit_ts,
            metadata_len,
            r,
        ),
    decreases u64::MAX - end,
{
    if let Ok(next) = next_end(ctx, format, commit_ts, metadata_len, end) {
        if next > end {
            rising_is_kept(ctx, format, commit_ts, metadata_len, end);
            settle_is_stable(ctx, format, commit_ts, metadata_len, next);
        }
    }
}

/// The end that a payload records is the end of the frame that holds it, and
/// no smaller end would do. Wherever some end would do, one is found.
pub proof fn settled_end_is_least_stable(
    ctx: PortableEndOffsetCtx,
    format: LogFormat,
    commit_ts: u64,
    metadata_len: nat,
)
    requires
        ctx.valid(),
    ensures
        settled_end(ctx, format, commit_ts, metadata_len) matches Ok(end) ==> stable_end(
            ctx,
            format,
            commit_ts,
            metadata_len,
            end,
        ),
        forall|other: u64| #[trigger]
            stable_end(ctx, format, commit_ts, metadata_len, other) ==> {
                &&& settled_end(ctx, format, commit_ts, metadata_len) is Ok
                &&& settled_end(ctx, format, commit_ts, metadata_len)->Ok_0 <= other
            },
{
    start_is_rising(ctx, format, commit_ts, metadata_len);
    if let Ok(start) = ctx.frame_end(format, 0) {
        settle_is_stable(ctx, format, commit_ts, metadata_len, start);
    }
    assert forall|other: u64| #[trigger]
        stable_end(ctx, format, commit_ts, metadata_len, other) implies {
        &&& settled_end(ctx, format, commit_ts, metadata_len) is Ok
        &&& settled_end(ctx, format, commit_ts, metadata_len)->Ok_0 <= other
    } by {
        ctx.frame_end_monotone(format, 0, payload_len(other, commit_ts, metadata_len));
        let start = ctx.frame_end(format, 0)->Ok_0;
        settle_is_least(ctx, format, commit_ts, metadata_len, start, other);
    }
}

impl<'a> PortableChangePayload<'a> {
    pub fn new(end_offset: u64, commit_ts: u64, encoded_metadata: &'a [u8]) -> (p: Self)
        ensures
            p.end_offset == end_offset,
            p.commit_ts == commit_ts,
            p.encoded_metadata@ == encoded_metadata@,
    {
        PortableChangePayload { end_offset, commit_ts, encoded_metadata }
    }

    /// Iterates until the recorded end and the size of the frame agree.
    ///
    /// The end is written as an integer of variable length, so a longer end
    /// makes a longer frame.
    pub fn with_stable_end_offset(
        ctx: PortableEndOffsetCtx,
        format: &LogFormat,
        commit_ts: u64,
        encoded_metadata: &'a [u8],
    ) -> (r: Result<Self, LogError>)
        requires
            ctx.valid(),
        ensures
            match r {
                Ok(p) => {
                    &&& settled_end(ctx, *format, commit_ts, encoded_metadata@.len()) == Ok::<
                        u64,
                        LogError,
                    >(p.end_offset)
                    &&& p.commit_ts == commit_ts
                    &&& p.encoded_metadata@ == encoded_metadata@
                    &&& ctx.frame_end(
                        *format,
                        payload_bytes(p.end_offset, commit_ts, encoded_metadata@).len(),
                    ) == Ok::<u64, LogError>(p.end_offset)
                },
                Err(e) => settled_end(ctx, *format, commit_ts, encoded_metadata@.len()) == Err::<
                    u64,
                    LogError,
                >(e),
            },
    {
        let ghost n = encoded_metadata@.len();
        proof {
            start_is_rising(ctx, *format, commit_ts, n);
        }
        let mut end_offset: u64 = match ctx.frame_end_offset(format, 0) {
            Ok(end) => end,
            Err(e) => {
                return Err(e);
            },
        };
        loop
            invariant
                ctx.valid(),
                n == encoded_metadata@.len(),
                rising(ctx, *format, commit_ts, n, end_offset),
                settled_end(ctx, *format, commit_ts, n) == settle(
                    ctx,
                    *format,
                    commit_ts,
                    n,
                    end_offset,
                ),
            decreases u64::MAX - end_offset,
        {
            let payload = PortableChangePayload::new(end_offset, commit_ts, encoded_metadata);
            proof {
                payload_len_is_length(end_offset, commit_ts, encoded_metadata@);
                rising_is_kept(ctx, *format, commit_ts, n, end_offset);
            }
            let encoded_len: usize = match payload.encoded_len() {
                Some(len) => len,
                None => {
                    return Err(LogError::LengthOverflow);
                },
            };
            let next_end_offset: u64 = match ctx.frame_end_offset(format, encoded_len) {
                Ok(end) => end,
                Err(e) => {
                    return Err(e);
                },
            };
            if next_end_offset == end_offset {
                return Ok(payload);
            }
            end_offset = next_end_offset;
        }
    }

    /// How many bytes the payload's fields take.
    pub fn body_len(&self) -> (r: Option<usize>)
        ensures
            r == chunk::announced(
                payload_body(self.end_offset, self.commit_ts, self.encoded_metadata@).len(),
            ),
    {
        proof {
            reveal_with_fuel(varint::proto_varint, 2);
        }
        let end_len: usize = proto_varint_len(self.end_offset);
        let ts_len: usize = proto_varint_len(self.commit_ts);
        (2 + end_len + ts_len).checked_add(self.encoded_metadata.len())
    }

    /// How many bytes the payload takes in the log.
    pub fn encoded_len(&self) -> (r: Option<usize>)
        ensures
            r == chunk::announced(
                payload_bytes(self.end_offset, self.commit_ts, self.encoded_metadata@).len(),
            ),
    {
        match self.body_len() {
            Some(body_len) => proto_varint_len(body_len as u64).checked_add(body_len),
            None => None,
        }
    }
}

impl<'a> LogBufferWrite for PortableChangePayload<'a> {
    type Chunks = ChainedLogChunks<
        ChainedLogChunks<
            ChainedLogChunks<
                ChainedLogChunks<
                    ChainedLogChunks<InlineLogChunk<10>, InlineLogChunk<10>>,
                    InlineLogChunk<10>,
                >,
                InlineLogChunk<10>,
            >,
            InlineLogChunk<10>,
        >,
        BorrowedLogChunk<'a>,
    >;

    open spec fn encodable(&self) -> bool {
        payload_body(self.end_offset, self.commit_ts, self.encoded_metadata@).len() <= usize::MAX
    }

    open spec fn encoding(&self) -> Seq<u8> {
        payload_bytes(self.end_offset, self.commit_ts, self.encoded_metadata@)
    }

    fn into_chunks(self) -> (c: Self::Chunks) {
        let body_len: usize = match self.body_len() {
            Some(len) => len,
            None => 0,
        };
        let end_key = ProtoKey::new(1, PROTO_WIRE_VARINT);
        let ts_key = ProtoKey::new(2, PROTO_WIRE_VARINT);
        proof {
            varint::proto_key_encoding(end_key);
            varint::proto_key_encoding(ts_key);
        }
        let head = chain(ProtoVarint(body_len as u64).into_chunks(), end_key.into_chunks());
        let end = chain(head, ProtoVarint(self.end_offset).into_chunks());
        let key = chain(end, ts_key.into_chunks());
        let ts = chain(key, ProtoVarint(self.commit_ts).into_chunks());
        let c = chain(ts, self.encoded_metadata.into_chunks());
        assert(c.bytes() =~= self.encoding());
        c
    }
}

/// A typed record in the log's extension area.
pub struct ExtensionRecord<P> {
    pub extension_type: u16,
    pub extension_flags: u16,
    pub payload: P,
}

impl<P> ExtensionRecord<P> {
    pub fn new(extension_type: u16, extension_flags: u16, payload: P) -> (r: Self)
        ensures
            r.extension_type == extension_type,
            r.extension_flags == extension_flags,
            r.payload == payload,
    {
        ExtensionRecord { extension_type, extension_flags, payload }
    }
}

/// The length of an extension record whose payload takes `len` bytes.
pub open spec fn record_len(len: nat) -> Result<usize, LogError> {
    if len > usize::MAX {
        Err(LogError::LengthOverflow)
    } else if len > u32::MAX {
        Err(LogError::ExtensionTooLarge)
    } else if EXTENSION_RECORD_HEADER_SIZE + len > usize::MAX {
        Err(LogError::LengthOverflow)
    } else {
        Ok((EXTENSION_RECORD_HEADER_SIZE + len) as usize)
    }
}

/// How many bytes an extension record takes.
pub fn extension_record_len(record: &ExtensionRecord<PortableChangePayload<'_>>) -> (r: Result<
    usize,
    LogError,
>)
    ensures
        r == record_len(record.payload.encoding().len()),
{
    let payload_len: usize = match record.payload.encoded_len() {
        Some(len) => len,
        None => {
            return Err(LogError::LengthOverflow);
        },
    };
    if payload_len as u64 > 0xffff_ffff {
        return Err(LogError::ExtensionTooLarge);
    }
    match EXTENSION_RECORD_HEADER_SIZE.checked_add(payload_len) {
        Some(len) => Ok(len),
        None => Err(LogError::LengthOverflow),
    }
}

} // verus!
