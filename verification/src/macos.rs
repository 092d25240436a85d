//! macOS/iOS back-end: interpreting the memory-query calls.
//!
//! Total physical memory comes from a named system-configuration lookup that
//! writes a 64-bit value directly.  Available memory takes three calls: a
//! page-size lookup, a host-port acquisition, and a virtual-memory
//! statistics query through that port — after which the port must be
//! released whatever the query returned.  The caller performs those raw
//! calls and hands each outcome here as plain values; this module holds the
//! verified interpretation and the byte-count arithmetic.
//!
//! `available = (active_pages + free_pages) * page_size` is a deliberate
//! approximation borrowed from a widely used reference implementation: it
//! leaves out other reclaimable page categories on purpose, and is kept
//! exactly for parity rather than "fixed".

use vstd::prelude::*;

verus! {

use crate::error::MemError;
use crate::error::last_os_error;

/// The return value the host kernel uses for a successful call.
pub const KERN_SUCCESS: i32 = 0;

/// Raw outcome of one page-size lookup.
///
/// The lookup reports failure through a negative return value, and only
/// sometimes sets the thread's error state: the caller clears that state
/// before the call, so that an untouched zero afterwards means "unsupported
/// on this configuration" rather than a specific failure.
#[derive(Clone, Copy, Debug, PartialEq, Eq, Structural)]
pub struct PageSizeReply {
    /// The value the lookup returned: the page size in bytes, or negative
    /// on failure.
    pub return_value: i64,
}

/// Raw outcome of the named lookup for total physical memory.
#[derive(Clone, Copy, Debug, PartialEq, Eq, Structural)]
pub struct SysctlReply {
    /// Return value of the lookup; zero means success.
    pub return_value: i32,
    /// Total physical memory in bytes, valid only on success.
    pub memsize: u64,
}

/// Raw outcome of the virtual-memory statistics query.
#[derive(Clone, Copy, Debug, PartialEq, Eq, Structural)]
pub struct VmStatsReply {
    /// The kernel's return value for the query.
    pub return_code: i32,
    /// Number of pages currently active.
    pub active_count: u32,
    /// Number of pages currently free.
    pub free_count: u32,
}

/// Raw outcome of releasing the host port.
#[derive(Clone, Copy, Debug, PartialEq, Eq, Structural)]
pub struct PortReleaseReply {
    /// The kernel's return value for the release.
    pub return_code: i32,
}

/// The kernel's virtual-memory page-count snapshot, read back only after
/// both the query and the port release reported success.
#[derive(Clone, Copy, Debug, PartialEq, Eq, Structural)]
pub struct VmStats {
    /// Number of pages currently active.
    pub active_count: u32,
    /// Number of pages currently free.
    pub free_count: u32,
}

/// What a page-size reply means, given the error code observed after a
/// failing lookup: a non-zero code is a reportable failure, an untouched
/// zero means the lookup is unsupported here.
pub open spec fn interpret_page_size_spec(reply: PageSizeReply, error_code: i32) -> Result<
    u64,
    MemError,
> {
    if reply.return_value >= 0 {
        Ok(reply.return_value as u64)
    } else if error_code != 0 {
        Err(MemError::Code(error_code))
    } else {
        Err(MemError::Unsupported)
    }
}

/// Interpret a page-size reply together with the error code observed after
/// a failing lookup.
pub fn interpret_page_size(reply: &PageSizeReply, error_code: i32) -> (r: Result<u64, MemError>)
    ensures
        r == interpret_page_size_spec(*reply, error_code),
{
    if reply.return_value >= 0 {
        Ok(reply.return_value as u64)
    } else if error_code != 0 {
        Err(MemError::Code(error_code))
    } else {
        Err(MemError::Unsupported)
    }
}

/// Interpret a page-size reply, reading the thread's error state when the
/// lookup failed.  The caller clears that state before the lookup and calls
/// this immediately afterwards, so the two failure shapes stay apart.
pub fn page_size(reply: &PageSizeReply) -> (r: Result<u64, MemError>)
    ensures
        reply.return_value >= 0 ==> r == Ok::<u64, MemError>(reply.return_value as u64),
        reply.return_value < 0 ==> r is Err,
        reply.return_value < 0 ==> (r matches Err(MemError::Code(c)) ==> c != 0),
{
    if reply.return_value < 0 {
        let code = last_os_error();
        interpret_page_size(reply, code)
    } else {
        interpret_page_size(reply, 0)
    }
}

/// What a total-memory reply means, given the error code observed after a
/// failing lookup.
pub open spec fn interpret_total_memory_spec(reply: SysctlReply, error_code: i32) -> Result<
    u64,
    MemError,
> {
    if reply.return_value == 0 {
        Ok(reply.memsize)
    } else {
        Err(MemError::Code(error_code))
    }
}

/// Interpret a total-memory reply together with the error code observed
/// after a failing lookup.
pub fn interpret_total_memory(reply: &SysctlReply, error_code: i32) -> (r: Result<u64, MemError>)
    ensures
        r == interpret_total_memory_spec(*reply, error_code),
{
    if reply.return_value == 0 {
        Ok(reply.memsize)
    } else {
        Err(MemError::Code(error_code))
    }
}

/// Interpret a total-memory reply, reading the thread's error state when
/// the lookup failed.  Call this immediately after the raw lookup.
pub fn try_get_total_physical_memory(reply: &SysctlReply) -> (r: Result<u64, MemError>)
    ensures
        reply.return_value == 0 ==> r == Ok::<u64, MemError>(reply.memsize),
        reply.return_value != 0 ==> (r matches Err(e) && e is Code),
{
    if reply.return_value != 0 {
        let code = last_os_error();
        interpret_total_memory(reply, code)
    } else {
        interpret_total_memory(reply, 0)
    }
}

/// Total physical memory of a lookup known to be successful.  A failed
/// lookup is left out here; an embedding that prefers to abort on failure
/// tests the return value first and fails its own way.
pub fn total(reply: &SysctlReply) -> (r: u64)
    requires
        reply.return_value == 0,
    ensures
        r == reply.memsize,
{
    reply.memsize
}

/// The snapshot a successful statistics reply carries.
pub open spec fn vm_stats_of(reply: VmStatsReply) -> VmStats {
    VmStats { active_count: reply.active_count, free_count: reply.free_count }
}

/// What the statistics query and the port release mean together, given the
/// error code observed after a failure.  The release happens whatever the
/// query returned, and a failed release weighs as much as a failed query:
/// the snapshot is only handed out when both succeeded.
pub open spec fn interpret_vm_statistics_spec(
    stats: VmStatsReply,
    release: PortReleaseReply,
    error_code: i32,
) -> Result<VmStats, MemError> {
    if release.return_code == KERN_SUCCESS && stats.return_code == KERN_SUCCESS {
        Ok(vm_stats_of(stats))
    } else {
        Err(MemError::Code(error_code))
    }
}

/// Interpret the statistics query and the port release together with the
/// error code observed after a failure.
pub fn interpret_vm_statistics(
    stats: &VmStatsReply,
    release: &PortReleaseReply,
    error_code: i32,
) -> (r: Result<VmStats, MemError>)
    ensures
        r == interpret_vm_statistics_spec(*stats, *release, error_code),
{
    if release.return_code == KERN_SUCCESS && stats.return_code == KERN_SUCCESS {
        Ok(VmStats { active_count: stats.active_count, free_count: stats.free_count })
    } else {
        Err(MemError::Code(error_code))
    }
}

/// Interpret the statistics query and the port release, reading the
/// thread's error state when either failed.  Call this immediately after
/// the release.
pub fn vm_statistics(stats: &VmStatsReply, release: &PortReleaseReply) -> (r: Result<
    VmStats,
    MemError,
>)
    ensures
        release.return_code == KERN_SUCCESS && stats.return_code == KERN_SUCCESS ==> r == Ok::<
            VmStats,
            MemError,
        >(vm_stats_of(*stats)),
        !(release.return_code == KERN_SUCCESS && stats.return_code == KERN_SUCCESS) ==> (
        r matches Err(e) && e is Code),
{
    if release.return_code != KERN_SUCCESS || stats.return_code != KERN_SUCCESS {
        let code = last_os_error();
        interpret_vm_statistics(stats, release, code)
    } else {
        interpret_vm_statistics(stats, release, 0)
    }
}

/// The byte count the available-memory formula yields on a snapshot.
pub open spec fn available_formula(page_size: u64, stats: VmStats) -> int {
    (stats.active_count + stats.free_count) * page_size
}

/// Available memory from a page size and a statistics snapshot:
/// `(active_pages + free_pages) * page_size`, the approximation this
/// back-end is specified to use.  The two 32-bit counters are widened
/// before they are summed, so their sum always fits; only a byte count
/// beyond the 64-bit result is left out, and an embedding tests that first
/// and fails its own way.
pub fn calculate_available_memory(page_size: u64, stats: &VmStats) -> (r: u64)
    requires
        available_formula(page_size, *stats) <= u64::MAX,
    ensures
        r == available_formula(page_size, *stats),
{
    let pages: u64 = (stats.active_count as u64) + (stats.free_count as u64);
    pages * page_size
}

} // verus!
