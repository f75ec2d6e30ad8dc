//! Chunking of a media upload body for progress reporting.

use vstd::prelude::*;

verus! {

/// Size of one streamed upload chunk: 64 KiB.
pub const UPLOAD_CHUNK_SIZE: usize = 65536;

/// Number of chunks of a body of `total_len` bytes (rounded up).
pub open spec fn spec_chunk_count(total_len: nat) -> nat {
    ((total_len + UPLOAD_CHUNK_SIZE - 1) / UPLOAD_CHUNK_SIZE as int) as nat
}

/// Start offset of chunk `index`.
pub open spec fn spec_chunk_start(index: nat) -> nat {
    index * (UPLOAD_CHUNK_SIZE as nat)
}

/// End offset (exclusive) of chunk `index` of a body of `total_len` bytes.
pub open spec fn spec_chunk_end(total_len: nat, index: nat) -> nat {
    if spec_chunk_start(index) + (UPLOAD_CHUNK_SIZE as nat) < total_len {
        spec_chunk_start(index) + (UPLOAD_CHUNK_SIZE as nat)
    } else {
        total_len
    }
}

/// Number of chunks needed to stream `total_len` bytes.
pub fn upload_chunk_count(total_len: usize) -> (r: usize)
    ensures
        r == spec_chunk_count(total_len as nat),
{
    total_len / UPLOAD_CHUNK_SIZE + if total_len % UPLOAD_CHUNK_SIZE == 0 {
        0
    } else {
        1
    }
}

/// Byte range `[start, end)` of chunk `index`; the bytes reported as sent
/// once this chunk is streamed are `end`.
pub fn upload_chunk_range(total_len: usize, index: usize) -> (r: (usize, usize))
    requires
        index < spec_chunk_count(total_len as nat),
    ensures
        r.0 == spec_chunk_start(index as nat),
        r.1 == spec_chunk_end(total_len as nat, index as nat),
        r.0 < r.1 <= total_len,
{
    let start = index * UPLOAD_CHUNK_SIZE;
    let end = if total_len - start > UPLOAD_CHUNK_SIZE {
        start + UPLOAD_CHUNK_SIZE
    } else {
        total_len
    };
    (start, end)
}

/// The chunks of a body tile it: each chunk is non-empty and at most one
/// chunk size long, starts where the previous one ended, the first starts at
/// zero, and the last ends at the body's length (so the progress reported
/// after the last chunk equals the total).
pub proof fn lemma_upload_chunks_tile_body(total_len: nat, index: nat)
    requires
        index < spec_chunk_count(total_len),
    ensures
        spec_chunk_start(index) < spec_chunk_end(total_len, index) <= total_len,
        spec_chunk_end(total_len, index) - spec_chunk_start(index) <= UPLOAD_CHUNK_SIZE,
        index == 0 ==> spec_chunk_start(index) == 0,
        index + 1 < spec_chunk_count(total_len) ==> spec_chunk_end(total_len, index)
            == spec_chunk_start(index + 1),
        index + 1 == spec_chunk_count(total_len) ==> spec_chunk_end(total_len, index) == total_len,
{
}

} // verus!
