//! How large an encrypted payload is: the plaintext is cut into chunks, and
//! each chunk is followed by its tag and its nonce.

use vstd::prelude::*;
use crate::log::chunk::LogError;

verus! {

/// How many chunks a plaintext is cut into.
pub open spec fn chunk_count(plaintext: nat, chunk: nat) -> nat {
    (plaintext + chunk - 1) as nat / chunk
}

/// How large an encrypted payload is.
pub open spec fn blob_size(plaintext: nat, chunk: nat, tag: nat, nonce: nat) -> nat {
    plaintext + chunk_count(plaintext, chunk) * (tag + nonce)
}

/// A longer plaintext has at least as many chunks and bytes.
pub(crate) proof fn blob_size_monotone(a: nat, b: nat, chunk: nat, tag: nat, nonce: nat)
    requires
        a <= b,
        chunk > 0,
    ensures
        chunk_count(a, chunk) <= chunk_count(b, chunk),
        blob_size(a, chunk, tag, nonce) <= blob_size(b, chunk, tag, nonce),
{
    vstd::arithmetic::div_mod::lemma_div_is_ordered(a + chunk - 1, b + chunk - 1, chunk as int);
    vstd::arithmetic::mul::lemma_mul_inequality(
        chunk_count(a, chunk) as int,
        chunk_count(b, chunk) as int,
        (tag + nonce) as int,
    );
}

/// Rounding up is rounding down, and one more where something is left over.
proof fn chunk_count_by_remainder(plaintext: nat, chunk: nat)
    requires
        chunk > 0,
    ensures
        chunk_count(plaintext, chunk) == plaintext / chunk + (if plaintext % chunk == 0 {
            0nat
        } else {
            1nat
        }),
{
    let q = plaintext as int / chunk as int;
    let r = plaintext as int % chunk as int;
    vstd::arithmetic::div_mod::lemma_fundamental_div_mod(plaintext as int, chunk as int);
    assert(chunk * q == q * chunk) by (nonlinear_arith);
    if r == 0 {
        assert(plaintext + chunk - 1 == q * chunk + (chunk - 1));
        vstd::arithmetic::div_mod::lemma_fundamental_div_mod_converse(
            plaintext + chunk - 1,
            chunk as int,
            q,
            chunk - 1,
        );
    } else {
        assert((q + 1) * chunk == q * chunk + chunk) by (nonlinear_arith);
        vstd::arithmetic::div_mod::lemma_fundamental_div_mod_converse(
            plaintext + chunk - 1,
            chunk as int,
            q + 1,
            r - 1,
        );
    }
}

/// How many chunks a plaintext is cut into.
pub fn encrypted_payload_chunk_count(plaintext_size: usize, chunk_size: usize) -> (n: usize)
    requires
        chunk_size > 0,
    ensures
        n == chunk_count(plaintext_size as nat, chunk_size as nat),
        n <= plaintext_size,
{
    proof {
        chunk_count_by_remainder(plaintext_size as nat, chunk_size as nat);
        vstd::arithmetic::div_mod::lemma_fundamental_div_mod(
            plaintext_size as int,
            chunk_size as int,
        );
        let q = plaintext_size as int / chunk_size as int;
        let r = plaintext_size as int % chunk_size as int;
        assert(q <= chunk_size * q) by (nonlinear_arith)
            requires
                chunk_size > 0,
                q >= 0,
        ;
    }
    if plaintext_size % chunk_size == 0 {
        plaintext_size / chunk_size
    } else {
        plaintext_size / chunk_size + 1
    }
}

/// How large an encrypted payload is.
pub fn encrypted_payload_blob_size(
    plaintext_size: usize,
    chunk_size: usize,
    tag_size: usize,
    nonce_size: usize,
) -> (r: Result<usize, LogError>)
    requires
        chunk_size > 0,
    ensures
        ({
            let size = blob_size(
                plaintext_size as nat,
                chunk_size as nat,
                tag_size as nat,
                nonce_size as nat,
            );
            match r {
                Ok(n) => n == size,
                Err(e) => e == LogError::EncryptedSizeOverflow && size > usize::MAX,
            }
        }),
{
    let count: usize = encrypted_payload_chunk_count(plaintext_size, chunk_size);
    if count == 0 {
        assert(0 * (tag_size + nonce_size) == 0);
        return Ok(plaintext_size);
    }
    proof {
        let over = tag_size + nonce_size;
        assert(count * over >= over) by (nonlinear_arith)
            requires
                count >= 1,
                over >= 0,
        ;
    }
    let overhead: usize = match tag_size.checked_add(nonce_size) {
        Some(overhead) => overhead,
        None => {
            return Err(LogError::EncryptedSizeOverflow);
        },
    };
    let total: usize = match count.checked_mul(overhead) {
        Some(total) => total,
        None => {
            return Err(LogError::EncryptedSizeOverflow);
        },
    };
    match plaintext_size.checked_add(total) {
        Some(size) => Ok(size),
        None => Err(LogError::EncryptedSizeOverflow),
    }
}

} // verus!
