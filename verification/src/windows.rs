//! Windows back-end: interpreting the global memory-status call.
//!
//! The OS fills a fixed-layout structure whose first field must carry the
//! structure's own byte size before the call — the OS rejects the request
//! otherwise.  A zero return value signals failure, and the error code must
//! be read immediately, before any other call on the same thread overwrites
//! the thread-local error state.  The caller performs the raw call, with
//! the size pre-stamped, and hands the outcome here as plain values: the
//! return value and the two byte counts the queries read, both already
//! 64-bit fields.

use vstd::prelude::*;

verus! {

use crate::error::MemError;
use crate::error::last_os_error;

/// Raw outcome of one global memory-status call.
#[derive(Clone, Copy, Debug, PartialEq, Eq, Structural)]
pub struct MemoryStatusReply {
    /// The call's return value; zero means failure.
    pub return_value: i32,
    /// Total physical memory in bytes, valid only on success.
    pub total_phys: u64,
    /// Available physical memory in bytes, valid only on success.
    pub avail_phys: u64,
}

/// The OS's memory-status snapshot, read back only after the call reported
/// success.
#[derive(Clone, Copy, Debug, PartialEq, Eq, Structural)]
pub struct MemoryStatus {
    /// Total physical memory in bytes.
    pub total_phys: u64,
    /// Available physical memory in bytes.
    pub avail_phys: u64,
}

/// The snapshot a successful reply carries.
pub open spec fn mem_status_of(reply: MemoryStatusReply) -> MemoryStatus {
    MemoryStatus { total_phys: reply.total_phys, avail_phys: reply.avail_phys }
}

/// What a reply means, given the error code observed after a failing call.
pub open spec fn interpret_mem_status_spec(reply: MemoryStatusReply, error_code: i32) -> Result<
    MemoryStatus,
    MemError,
> {
    if reply.return_value != 0 {
        Ok(mem_status_of(reply))
    } else {
        Err(MemError::Code(error_code))
    }
}

/// Interpret a memory-status reply together with the error code observed
/// after a failing call.
pub fn interpret_mem_status(reply: &MemoryStatusReply, error_code: i32) -> (r: Result<
    MemoryStatus,
    MemError,
>)
    ensures
        r == interpret_mem_status_spec(*reply, error_code),
{
    if reply.return_value != 0 {
        Ok(MemoryStatus { total_phys: reply.total_phys, avail_phys: reply.avail_phys })
    } else {
        Err(MemError::Code(error_code))
    }
}

/// Interpret a memory-status reply, reading the thread's error state when
/// the call failed.  Call this immediately after the raw call, before any
/// other native call can overwrite that state.
pub fn populate_mem_status(reply: &MemoryStatusReply) -> (r: Result<MemoryStatus, MemError>)
    ensures
        reply.return_value != 0 ==> r == Ok::<MemoryStatus, MemError>(mem_status_of(*reply)),
        reply.return_value == 0 ==> (r matches Err(e) && e is Code),
{
    if reply.return_value == 0 {
        let code = last_os_error();
        interpret_mem_status(reply, code)
    } else {
        interpret_mem_status(reply, 0)
    }
}

/// The snapshot of a reply known to be successful.  A failed reply is left
/// out here; an embedding that prefers to abort on failure tests the return
/// value first and fails its own way.
pub fn mem_status(reply: &MemoryStatusReply) -> (r: MemoryStatus)
    requires
        reply.return_value != 0,
    ensures
        r == mem_status_of(*reply),
{
    MemoryStatus { total_phys: reply.total_phys, avail_phys: reply.avail_phys }
}

} // verus!
