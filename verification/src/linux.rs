//! Linux back-end: interpreting the kernel-statistics call.
//!
//! The kernel fills a fixed-layout structure on request; a negative return
//! code signals failure, in which case the thread's error state names the
//! reason.  The caller performs that raw call and hands its outcome here as
//! plain values: the return code and the two fields the queries read.  On
//! architectures whose kernel reports these fields as 32-bit words the
//! caller widens them; they arrive here already normalized to 64 bits.

use vstd::prelude::*;

verus! {

use crate::error::MemError;
use crate::error::last_os_error;

/// Raw outcome of one kernel-statistics call.
#[derive(Clone, Copy, Debug, PartialEq, Eq, Structural)]
pub struct SysinfoReply {
    /// Return code of the call; negative means failure.
    pub return_code: i32,
    /// Total usable main memory, in bytes, as the kernel reported it.
    pub totalram: u64,
    /// Currently free memory, in bytes, as the kernel reported it.
    pub freeram: u64,
}

/// The kernel's snapshot of system memory, read back only after the call
/// reported success.
#[derive(Clone, Copy, Debug, PartialEq, Eq, Structural)]
pub struct KernelMemInfo {
    /// Total usable main memory, in bytes.
    pub totalram: u64,
    /// Currently free memory, in bytes.
    pub freeram: u64,
}

/// The snapshot a successful reply carries.
pub open spec fn sysinfo_mem_info(reply: SysinfoReply) -> KernelMemInfo {
    KernelMemInfo { totalram: reply.totalram, freeram: reply.freeram }
}

/// What a reply means, given the error code that was pending when it failed.
pub open spec fn interpret_sysinfo_spec(reply: SysinfoReply, error_code: i32) -> Result<
    KernelMemInfo,
    MemError,
> {
    if reply.return_code >= 0 {
        Ok(sysinfo_mem_info(reply))
    } else {
        Err(MemError::Code(error_code))
    }
}

/// Interpret a kernel-statistics reply together with the error code observed
/// after a failing call: success yields the snapshot, failure the code.
pub fn interpret_sysinfo(reply: &SysinfoReply, error_code: i32) -> (r: Result<
    KernelMemInfo,
    MemError,
>)
    ensures
        r == interpret_sysinfo_spec(*reply, error_code),
{
    if reply.return_code >= 0 {
        Ok(KernelMemInfo { totalram: reply.totalram, freeram: reply.freeram })
    } else {
        Err(MemError::Code(error_code))
    }
}

/// Interpret a kernel-statistics reply, reading the thread's error state when
/// the call failed.  Call this immediately after the raw call, before any
/// other native call can overwrite that state.
pub fn populate_sysinfo(reply: &SysinfoReply) -> (r: Result<KernelMemInfo, MemError>)
    ensures
        reply.return_code >= 0 ==> r == Ok::<KernelMemInfo, MemError>(sysinfo_mem_info(*reply)),
        reply.return_code < 0 ==> (r matches Err(e) && e is Code),
{
    if reply.return_code < 0 {
        let code = last_os_error();
        interpret_sysinfo(reply, code)
    } else {
        interpret_sysinfo(reply, 0)
    }
}

/// The snapshot of a reply known to be successful.  A failed reply is left
/// out here; an embedding that prefers to abort on failure tests the return
/// code first and fails its own way.
pub fn get_sysinfo(reply: &SysinfoReply) -> (r: KernelMemInfo)
    requires
        reply.return_code >= 0,
    ensures
        r == sysinfo_mem_info(*reply),
{
    KernelMemInfo { totalram: reply.totalram, freeram: reply.freeram }
}

} // verus!
