//! Which firmware chunks are written, and up to which offset.

use crate::types::{ChunkError, StatusCode, Update};
use vstd::prelude::*;

verus! {

/// Value of an erased flash byte.
pub const ERASED: u8 = 0xff;

/// Whether `n` is a multiple of `d`; of zero, only zero is.
pub open spec fn is_multiple(n: nat, d: nat) -> bool {
    if d == 0 {
        n == 0
    } else {
        n % d == 0
    }
}

/// Whether all bytes have the value of erased flash.
pub open spec fn is_erased(bytes: Seq<u8>) -> bool {
    forall|i: int| 0 <= i < bytes.len() ==> #[trigger] bytes[i] == ERASED
}

/// Whether a chunk of `len` bytes at `offset` keeps to the limits: it is not empty, no longer than
/// the chunk limit, aligned, and ends within the capacity.
pub open spec fn within_limits(
    offset: u32,
    len: nat,
    capacity: u32,
    max_chunk_size: usize,
    write_size: usize,
) -> bool {
    &&& 0 < len <= max_chunk_size
    &&& is_multiple(len, write_size as nat)
    &&& offset + len <= capacity
}

/// What becomes of a chunk at `offset` while bytes up to `next_offset` of an image of `size`
/// bytes are written: the offset after it, or why it is not written.
pub open spec fn chunk_verdict(
    size: u32,
    next_offset: u32,
    offset: u32,
    payload: Seq<u8>,
    capacity: u32,
    max_chunk_size: usize,
    write_size: usize,
) -> Result<u32, ChunkError> {
    let end = offset + payload.len();
    if offset < next_offset {
        Err(ChunkError::Queue(StatusCode::Duplicate))
    } else if offset > next_offset {
        Err(ChunkError::Queue(StatusCode::Offset))
    } else if payload.len() == 0 {
        Err(ChunkError::Fail(StatusCode::Mtu))
    } else if payload.len() > max_chunk_size {
        Err(ChunkError::Fail(StatusCode::Oversize))
    } else if !is_multiple(payload.len(), write_size as nat) {
        Err(ChunkError::Fail(StatusCode::Unaligned))
    } else if end > capacity {
        Err(ChunkError::Fail(StatusCode::Oversize))
    } else if end <= size {
        Ok(end as u32)
    } else if is_erased(payload.skip(size - offset)) {
        Ok(size)
    } else {
        Err(ChunkError::Fail(StatusCode::Oversize))
    }
}

/// Whether `n` is a multiple of `d`.
pub(crate) fn multiple_of(n: usize, d: usize) -> (r: bool)
    ensures
        r == is_multiple(n as nat, d as nat),
{
    if d == 0 {
        n == 0
    } else {
        n % d == 0
    }
}

/// The part of a final chunk behind its `image_bytes` image bytes; none if the chunk holds no
/// more than those.
pub fn payload_padding(payload: &[u8], image_bytes: u32) -> (padding: Option<&[u8]>)
    ensures
        padding is Some <==> image_bytes < payload@.len(),
        padding matches Some(bytes) ==> bytes@ == payload@.skip(image_bytes as int),
{
    let image_bytes: usize = image_bytes as usize;
    if image_bytes < payload.len() {
        let (_, padding) = payload.split_at(image_bytes);
        Some(padding)
    } else {
        None
    }
}

/// Whether all bytes have the value of erased flash.
fn all_erased(bytes: &[u8]) -> (r: bool)
    ensures
        r == is_erased(bytes@),
{
    for i in 0..bytes.len()
        invariant
            forall|j: int| 0 <= j < i ==> #[trigger] bytes@[j] == ERASED,
    {
        if bytes[i] != ERASED {
            assert(bytes@[i as int] != ERASED);
            return false;
        }
    }
    true
}

/// Check a chunk against the transfer and the limits of the service. Gives the offset after the
/// chunk.
pub fn validate_chunk(
    update: &Update,
    offset: u32,
    payload: &[u8],
    capacity: u32,
    max_chunk_size: usize,
    write_size: usize,
) -> (r: Result<u32, ChunkError>)
    requires
        offset == update.next_offset && within_limits(
            offset,
            payload@.len(),
            capacity,
            max_chunk_size,
            write_size,
        ) ==> offset <= update.size,
    ensures
        r == chunk_verdict(
            update.size,
            update.next_offset,
            offset,
            payload@,
            capacity,
            max_chunk_size,
            write_size,
        ),
{
    if offset < update.next_offset {
        return Err(ChunkError::Queue(StatusCode::Duplicate));
    }
    if offset != update.next_offset {
        return Err(ChunkError::Queue(StatusCode::Offset));
    }
    if payload.len() == 0 {
        return Err(ChunkError::Fail(StatusCode::Mtu));
    }
    if payload.len() > max_chunk_size {
        return Err(ChunkError::Fail(StatusCode::Oversize));
    }
    if !multiple_of(payload.len(), write_size) {
        return Err(ChunkError::Fail(StatusCode::Unaligned));
    }
    if offset > capacity || payload.len() > (capacity - offset) as usize {
        return Err(ChunkError::Fail(StatusCode::Oversize));
    }
    let end: u32 = offset + payload.len() as u32;
    if end <= update.size {
        return Ok(end);
    }
    let padding = match payload_padding(payload, update.size - offset) {
        Some(padding) => padding,
        None => return Err(ChunkError::Fail(StatusCode::Oversize)),
    };
    if !all_erased(padding) {
        return Err(ChunkError::Fail(StatusCode::Oversize));
    }
    Ok(update.size)
}

} // verus!
