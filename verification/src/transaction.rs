//! Decisions of the transaction-level operations: the buffer protocol of an
//! atomic get-old-and-put-new, and the records of commit latency and
//! transaction information.

use vstd::prelude::*;
use crate::error::{checked_value_strict, ErrorCode, MDBX_NOTFOUND, MDBX_RESULT_TRUE, MDBX_SUCCESS};

verus! {

/// The smallest buffer offered for the previous value of a replaced item.
pub const REPLACE_MIN_BUFFER: usize = 256;

/// Which call of the replace operation has just returned.
#[derive(Clone, Copy, Debug, PartialEq, Eq, Structural)]
pub enum ReplaceCall {
    /// The first call, made with a buffer of `replace_buffer_len(new_len)` bytes.
    First,
    /// The second call, made after the first one asked for a larger buffer.
    Retry,
}

/// What the replace operation does after one of its calls has returned.
#[derive(Clone, Copy, Debug, PartialEq, Eq, Structural)]
pub enum ReplaceAction {
    /// The buffer was too small: call again with a buffer of `buffer_len` bytes.
    Retry { buffer_len: usize },
    /// There was no previous value: the result is `Ok(None)`.
    Absent,
    /// The call failed with this code.
    Failed(ErrorCode),
    /// The previous value is the first `len` bytes of the caller's buffer.
    FromBuffer { len: usize },
    /// The previous value is the `len` bytes at the address that the call returned.
    FromPage { len: usize },
}

/// The length of the buffer offered to the first call for the previous value:
/// at least the new value's length, and never under `REPLACE_MIN_BUFFER`.
pub fn replace_buffer_len(new_len: usize) -> (r: usize)
    ensures
        r == if new_len < REPLACE_MIN_BUFFER { REPLACE_MIN_BUFFER } else { new_len },
{
    if new_len < REPLACE_MIN_BUFFER {
        REPLACE_MIN_BUFFER
    } else {
        new_len
    }
}

/// Where a successful call left the previous value of `old_len` bytes.
pub open spec fn found_at(old_len: usize, in_buffer: bool) -> ReplaceAction {
    if in_buffer {
        ReplaceAction::FromBuffer { len: old_len }
    } else {
        ReplaceAction::FromPage { len: old_len }
    }
}

/// The step of the replace protocol after `call` returned the code `rc`
/// and reported the previous value as `old_len` bytes at an address that is
/// null (`old_is_null`), in the caller's buffer (`in_buffer`), or elsewhere.
///
/// After the first call, `MDBX_RESULT_TRUE` means that the buffer was too
/// small and `old_len` is the size needed, and `MDBX_NOTFOUND` means that the
/// key had no value. A success that reports a null previous value means that
/// the key had none and the new value was inserted. After the retry only
/// `MDBX_SUCCESS` is a success: `MDBX_RESULT_TRUE` there means that the
/// buffer is still too small, and it fails like any other code.
pub open spec fn spec_replace_step(
    call: ReplaceCall,
    rc: i32,
    old_len: usize,
    old_is_null: bool,
    in_buffer: bool,
) -> ReplaceAction {
    let read = if old_is_null { ReplaceAction::Absent } else { found_at(old_len, in_buffer) };
    match call {
        ReplaceCall::First => match rc {
            MDBX_SUCCESS => read,
            MDBX_RESULT_TRUE => ReplaceAction::Retry { buffer_len: old_len },
            MDBX_NOTFOUND => ReplaceAction::Absent,
            _ => ReplaceAction::Failed(ErrorCode { code: rc }),
        },
        ReplaceCall::Retry => match rc {
            MDBX_SUCCESS => read,
            _ => ReplaceAction::Failed(ErrorCode { code: rc }),
        },
    }
}

/// Decides the next step of the replace protocol from what a call returned.
pub fn replace_step(call: ReplaceCall, rc: i32, old_len: usize, old_is_null: bool, in_buffer: bool) -> (a: ReplaceAction)
    ensures
        a == spec_replace_step(call, rc, old_len, old_is_null, in_buffer),
        // the first call found a previous value too long for the buffer
        call == ReplaceCall::First && rc == MDBX_RESULT_TRUE
            ==> a == (ReplaceAction::Retry { buffer_len: old_len }),
        // the first call found no value for the key
        call == ReplaceCall::First && rc == MDBX_NOTFOUND ==> a == ReplaceAction::Absent,
        // any other code, on either call, is a failure that keeps the code
        rc != MDBX_SUCCESS && !(call == ReplaceCall::First && (rc == MDBX_RESULT_TRUE
            || rc == MDBX_NOTFOUND)) ==> a == ReplaceAction::Failed(ErrorCode { code: rc }),
        // a success without a previous value: the key had none
        rc == MDBX_SUCCESS && old_is_null ==> a == ReplaceAction::Absent,
        // a success with a previous value: it lies in the buffer or elsewhere
        rc == MDBX_SUCCESS && !old_is_null && in_buffer
            ==> a == (ReplaceAction::FromBuffer { len: old_len }),
        rc == MDBX_SUCCESS && !old_is_null && !in_buffer
            ==> a == (ReplaceAction::FromPage { len: old_len }),
{
    let first = match call {
        ReplaceCall::First => true,
        ReplaceCall::Retry => false,
    };
    if first && rc == MDBX_RESULT_TRUE {
        ReplaceAction::Retry { buffer_len: old_len }
    } else if first && rc == MDBX_NOTFOUND {
        ReplaceAction::Absent
    } else if rc != MDBX_SUCCESS {
        ReplaceAction::Failed(ErrorCode { code: rc })
    } else if old_is_null {
        ReplaceAction::Absent
    } else if in_buffer {
        ReplaceAction::FromBuffer { len: old_len }
    } else {
        ReplaceAction::FromPage { len: old_len }
    }
}

/// The previous value held in the caller's buffer: its first `len` bytes
/// (the whole buffer where it is shorter).
pub fn take_old_value(buffer: Vec<u8>, len: usize) -> (r: Vec<u8>)
    ensures
        r@ == buffer@.take(if len < buffer@.len() { len as int } else { buffer@.len() as int }),
{
    let mut buffer = buffer;
    buffer.truncate(len);
    buffer
}

/// The protocol asks for at most one retry: whatever the second call
/// returns, the operation ends.
pub proof fn lemma_replace_retries_at_most_once(rc: i32, old_len: usize, old_is_null: bool, in_buffer: bool)
    ensures
        !(spec_replace_step(ReplaceCall::Retry, rc, old_len, old_is_null, in_buffer) is Retry),
{
}

/// A retry happens exactly when the first call reports `MDBX_RESULT_TRUE`,
/// and it offers exactly the buffer size that call reported as needed.
pub proof fn lemma_replace_retry_fits(rc: i32, old_len: usize, old_is_null: bool, in_buffer: bool)
    ensures
        spec_replace_step(ReplaceCall::First, rc, old_len, old_is_null, in_buffer) is Retry
            <==> rc == MDBX_RESULT_TRUE,
        spec_replace_step(ReplaceCall::First, rc, old_len, old_is_null, in_buffer) is Retry
            ==> spec_replace_step(ReplaceCall::First, rc, old_len, old_is_null, in_buffer)
            == (ReplaceAction::Retry { buffer_len: old_len }),
{
}

/// The result is `None` exactly when the key had no previous value: the
/// first call reports `MDBX_NOTFOUND`, or a call succeeds reporting a null
/// previous value. A previous value that is found has the reported length,
/// and only a code other than `MDBX_SUCCESS` (`MDBX_RESULT_TRUE` and
/// `MDBX_NOTFOUND` of the first call aside) fails.
pub proof fn lemma_replace_absent_iff_no_previous_value(
    call: ReplaceCall,
    rc: i32,
    old_len: usize,
    old_is_null: bool,
    in_buffer: bool,
)
    ensures
        spec_replace_step(call, rc, old_len, old_is_null, in_buffer) is Absent
            <==> ((call == ReplaceCall::First && rc == MDBX_NOTFOUND) || (rc == MDBX_SUCCESS && old_is_null)),
        (spec_replace_step(call, rc, old_len, old_is_null, in_buffer) is FromBuffer
            || spec_replace_step(call, rc, old_len, old_is_null, in_buffer) is FromPage)
            <==> (rc == MDBX_SUCCESS && !old_is_null),
        (spec_replace_step(call, rc, old_len, old_is_null, in_buffer) is FromBuffer
            || spec_replace_step(call, rc, old_len, old_is_null, in_buffer) is FromPage)
            ==> spec_replace_step(call, rc, old_len, old_is_null, in_buffer) == found_at(old_len, in_buffer),
        spec_replace_step(call, rc, old_len, old_is_null, in_buffer) is Failed
            <==> (rc != MDBX_SUCCESS && !(call == ReplaceCall::First
                && (rc == MDBX_RESULT_TRUE || rc == MDBX_NOTFOUND))),
{
}

/// A duration of the C library's commit latency record, given in 1/65536 s,
/// in whole milliseconds (rounded down).
pub fn latency_ms(raw: u32) -> (ms: u32)
    ensures
        ms == raw * 1000 / 65536,
{
    let scaled: u64 = (raw as u64) * 1000 / 65536;
    assert(scaled <= u32::MAX) by (nonlinear_arith)
        requires scaled == raw * 1000 / 65536, raw <= u32::MAX;
    scaled as u32
}

/// Commit latency information, in milliseconds per phase of a commit.
#[derive(Clone, Copy, Debug)]
pub struct CommitLatency {
    /// Duration of preparation (ms).
    pub preparation: u32,
    /// Duration of GC/freeDB handling (ms).
    pub gc: u32,
    /// Duration of internal audit if enabled (ms).
    pub audit: u32,
    /// Duration of writing dirty pages (ms).
    pub write: u32,
    /// Duration of syncing to disk (ms).
    pub sync: u32,
    /// Duration of transaction ending (ms).
    pub ending: u32,
    /// Total commit duration (ms).
    pub whole: u32,
}

impl CommitLatency {
    /// The record in milliseconds from the C library's record of the same
    /// phases in 1/65536 s (`gc_wallclock` is the garbage-collection phase).
    pub fn from_raw(
        preparation: u32,
        gc_wallclock: u32,
        audit: u32,
        write: u32,
        sync: u32,
        ending: u32,
        whole: u32,
    ) -> (r: Self)
        ensures
            r.preparation == preparation * 1000 / 65536,
            r.gc == gc_wallclock * 1000 / 65536,
            r.audit == audit * 1000 / 65536,
            r.write == write * 1000 / 65536,
            r.sync == sync * 1000 / 65536,
            r.ending == ending * 1000 / 65536,
            r.whole == whole * 1000 / 65536,
    {
        CommitLatency {
            preparation: latency_ms(preparation),
            gc: latency_ms(gc_wallclock),
            audit: latency_ms(audit),
            write: latency_ms(write),
            sync: latency_ms(sync),
            ending: latency_ms(ending),
            whole: latency_ms(whole),
        }
    }
}

/// The result of a commit that reports its latency: the record, converted
/// to milliseconds, when the commit returned `MDBX_SUCCESS`. Every other code
/// is an error that keeps the code; `MDBX_RESULT_TRUE` in particular means
/// that the transaction was aborted.
pub fn commit_latency_result(
    rc: i32,
    preparation: u32,
    gc_wallclock: u32,
    audit: u32,
    write: u32,
    sync: u32,
    ending: u32,
    whole: u32,
) -> (r: Result<CommitLatency, ErrorCode>)
    ensures
        rc != MDBX_SUCCESS ==> r == Err::<CommitLatency, ErrorCode>(ErrorCode { code: rc }),
        rc == MDBX_SUCCESS ==> (r matches Ok(l) && l.preparation == preparation * 1000 / 65536
            && l.gc == gc_wallclock * 1000 / 65536 && l.audit == audit * 1000 / 65536
            && l.write == write * 1000 / 65536 && l.sync == sync * 1000 / 65536
            && l.ending == ending * 1000 / 65536 && l.whole == whole * 1000 / 65536),
{
    checked_value_strict(
        rc,
        CommitLatency::from_raw(preparation, gc_wallclock, audit, write, sync, ending, whole),
    )
}

/// The result of a sequence call that asked to add `increment`: the value
/// before the increment when the call returned `MDBX_SUCCESS`. Every other
/// code is an error that keeps the code; `MDBX_RESULT_TRUE` in particular
/// means that the increment would overflow and nothing was added.
pub fn sequence_result(rc: i32, previous: u64) -> (r: Result<u64, ErrorCode>)
    ensures
        rc == MDBX_SUCCESS ==> r == Ok::<u64, ErrorCode>(previous),
        rc != MDBX_SUCCESS ==> r == Err::<u64, ErrorCode>(ErrorCode { code: rc }),
{
    checked_value_strict(rc, previous)
}

impl Default for CommitLatency {
    /// A record with every duration zero.
    fn default() -> (r: Self)
        ensures
            r.preparation == 0 && r.gc == 0 && r.audit == 0 && r.write == 0,
            r.sync == 0 && r.ending == 0 && r.whole == 0,
    {
        CommitLatency { preparation: 0, gc: 0, audit: 0, write: 0, sync: 0, ending: 0, whole: 0 }
    }
}

/// Transaction information: its id, how far its snapshot lags behind, and
/// the space it uses.
#[derive(Clone, Copy, Debug)]
pub struct TxnInfo {
    pub id: u64,
    pub reader_lag: u64,
    pub space_used: u64,
    pub space_limit_soft: u64,
    pub space_limit_hard: u64,
    pub space_retired: u64,
    pub space_leftover: u64,
    pub space_dirty: u64,
}

impl Default for TxnInfo {
    /// A record with every field zero.
    fn default() -> (r: Self)
        ensures
            r.id == 0 && r.reader_lag == 0 && r.space_used == 0 && r.space_limit_soft == 0,
            r.space_limit_hard == 0 && r.space_retired == 0 && r.space_leftover == 0,
            r.space_dirty == 0,
    {
        TxnInfo {
            id: 0,
            reader_lag: 0,
            space_used: 0,
            space_limit_soft: 0,
            space_limit_hard: 0,
            space_retired: 0,
            space_leftover: 0,
            space_dirty: 0,
        }
    }
}

} // verus!
