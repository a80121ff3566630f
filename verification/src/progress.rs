//! How prominently progress is reported.

use crate::types::{Status, StatusCode};
use vstd::prelude::*;

verus! {

/// Every how many chunks progress is reported at the `Info` level.
pub const INFO_CHUNK_STRIDE: usize = 128;

/// Level of a log message.
#[derive(Debug, Clone, Copy, PartialEq, Eq, Structural)]
pub enum LogLevel {
    /// Every message on the wire.
    Trace,
    /// Details for development.
    Debug,
    /// Progress.
    Info,
    /// Rejected requests.
    Warn,
}

/// Whether progress at `next_offset` can be told: chunks can be counted, unless none is written yet
/// or the next one reaches the end of the image.
pub open spec fn progress_in_range(next_offset: u32, size: u32, chunk_size: usize) -> bool {
    0 < next_offset < size ==> chunk_size > 0
}

/// Whether progress at `next_offset` is prominent: at the start, before the last chunk, and every
/// 128 chunks.
pub open spec fn is_prominent(next_offset: u32, size: u32, chunk_size: usize) -> bool {
    ||| next_offset == 0
    ||| next_offset + chunk_size >= size
    ||| (next_offset as nat / chunk_size as nat) % (INFO_CHUNK_STRIDE as nat) == 0
}

/// Level at which a published status is reported.
pub open spec fn level_of_status(code: StatusCode, prominent: bool) -> LogLevel {
    match code {
        StatusCode::Accepted => if prominent {
            LogLevel::Info
        } else {
            LogLevel::Debug
        },
        StatusCode::Complete => LogLevel::Info,
        StatusCode::Idle | StatusCode::Duplicate => LogLevel::Debug,
        _ => LogLevel::Warn,
    }
}

/// Progress is prominent before the first chunk, where the next chunk reaches the end of the image,
/// and in between exactly where the progress lies in every 128th chunk.
pub proof fn prominent_progress(next_offset: u32, size: u32, chunk_size: usize)
    requires
        chunk_size > 0,
    ensures
        next_offset == 0 ==> is_prominent(next_offset, size, chunk_size),
        next_offset + chunk_size >= size ==> is_prominent(next_offset, size, chunk_size),
        0 < next_offset && next_offset + chunk_size < size ==> (is_prominent(
            next_offset,
            size,
            chunk_size,
        ) <==> exists|k: nat|
            #[trigger] stride_start(k, chunk_size) <= next_offset < stride_start(k, chunk_size)
                + chunk_size),
{
    let c = chunk_size as int;
    let q = next_offset as int / c;
    vstd::arithmetic::div_mod::lemma_fundamental_div_mod(next_offset as int, c);
    vstd::arithmetic::div_mod::lemma_mod_bound(next_offset as int, c);
    vstd::arithmetic::div_mod::lemma_div_pos_is_pos(next_offset as int, c);
    if q % 128 == 0 {
        let k = (q / 128) as nat;
        assert(128 * k == q);
        assert(stride_start(k, chunk_size) <= next_offset < stride_start(k, chunk_size) + c) by {
            assert(128 * k * c == c * q) by (nonlinear_arith)
                requires
                    128 * k == q,
            ;
        }
    }
    if exists|k: nat|
        #[trigger] stride_start(k, chunk_size) <= next_offset < stride_start(k, chunk_size) + c {
        let k = choose|k: nat|
            #[trigger] stride_start(k, chunk_size) <= next_offset < stride_start(k, chunk_size) + c;
        let r = next_offset - 128 * k * c;
        assert(next_offset == (128 * k) * c + r);
        vstd::arithmetic::div_mod::lemma_fundamental_div_mod_converse(
            next_offset as int,
            c,
            128 * k as int,
            r,
        );
    }
}

/// Offset at which the chunk with the number 128 `k` starts.
pub open spec fn stride_start(k: nat, chunk_size: usize) -> int {
    128 * k * (chunk_size as int)
}

/// Progress is told unless chunks of no bytes would have to be counted.
pub proof fn told_progress(next_offset: u32, size: u32, chunk_size: usize)
    ensures
        chunk_size > 0 ==> progress_in_range(next_offset, size, chunk_size),
        next_offset == 0 || next_offset >= size ==> {
            &&& progress_in_range(next_offset, size, chunk_size)
            &&& is_prominent(next_offset, size, chunk_size)
        },
{
}

/// Requests that were refused and failures are warnings, the staged image and prominent progress
/// are information, and everything else is a detail.
pub proof fn status_levels(code: StatusCode, prominent: bool)
    ensures
        level_of_status(code, prominent) == LogLevel::Warn <==> {
            ||| code == StatusCode::Offset
            ||| code == StatusCode::Oversize
            ||| code == StatusCode::Mtu
            ||| code == StatusCode::Unaligned
            ||| code == StatusCode::Backend
            ||| code == StatusCode::Error
        },
        level_of_status(code, prominent) == LogLevel::Info <==> code == StatusCode::Complete || (
        code == StatusCode::Accepted && prominent),
        level_of_status(code, prominent) == LogLevel::Debug <==> code == StatusCode::Idle || code
            == StatusCode::Duplicate || (code == StatusCode::Accepted && !prominent),
{
}

/// Whether an accepted chunk is reported at the `Info` level.
pub fn should_log_chunk_progress(next_offset: u32, size: u32, chunk_size: usize) -> (r: bool)
    requires
        progress_in_range(next_offset, size, chunk_size),
    ensures
        r == is_prominent(next_offset, size, chunk_size),
{
    if next_offset == 0 {
        return true;
    }
    if next_offset >= size || chunk_size >= (size - next_offset) as usize {
        return true;
    }
    next_offset as usize / chunk_size % INFO_CHUNK_STRIDE == 0
}

/// Level at which a published status is reported.
pub fn status_log_level(code: StatusCode, status: &Status<'_>) -> (level: LogLevel)
    requires
        code is Accepted ==> progress_in_range(status.next_offset, status.size, status.mtu),
    ensures
        level == level_of_status(
            code,
            is_prominent(status.next_offset, status.size, status.mtu),
        ),
{
    match code {
        StatusCode::Accepted => {
            if should_log_chunk_progress(status.next_offset, status.size, status.mtu) {
                LogLevel::Info
            } else {
                LogLevel::Debug
            }
        },
        StatusCode::Complete => LogLevel::Info,
        StatusCode::Idle | StatusCode::Duplicate => LogLevel::Debug,
        StatusCode::Offset
        | StatusCode::Oversize
        | StatusCode::Mtu
        | StatusCode::Unaligned
        | StatusCode::Backend
        | StatusCode::Error => LogLevel::Warn,
    }
}

/// Level at which a chunk that was answered with `code` is reported.
pub open spec fn level_of_reject(code: StatusCode) -> LogLevel {
    if code is Duplicate {
        LogLevel::Debug
    } else {
        LogLevel::Warn
    }
}

/// A chunk that was passed over is a detail if it was a duplicate and a warning otherwise.
pub proof fn reject_levels(code: StatusCode)
    ensures
        code == StatusCode::Duplicate ==> level_of_reject(code) == LogLevel::Debug,
        code != StatusCode::Duplicate ==> level_of_reject(code) == LogLevel::Warn,
{
}

/// Level at which a chunk that was answered with `code` is reported.
pub fn reject_log_level(code: StatusCode) -> (level: LogLevel)
    ensures
        level == if code is Duplicate {
            LogLevel::Debug
        } else {
            LogLevel::Warn
        },
        level == level_of_reject(code),
{
    match code {
        StatusCode::Duplicate => LogLevel::Debug,
        _ => LogLevel::Warn,
    }
}

} // verus!
