//! Report the host machine's total, available and used physical memory.
//!
//! Each operating-system family answers the underlying memory query through
//! a different native call; the modules of this crate hold the logic that
//! interprets those raw answers.  The raw system calls themselves cannot be
//! checked here, so every call's outcome — return code, reported counters —
//! arrives as a plain value, and everything done with it is verified: how a
//! return code is classified, which structured error is reported, and how
//! the reported counters become a normalized 64-bit byte count.
//!
//! The back-end modules ([`linux`], [`macos`], [`windows`]) return a
//! `Result` so that a consumer can handle failure programmatically; the
//! facade functions here take a sample already known to be successful, and
//! an embedding that prefers to abort on a failed query tests the outcome
//! first and fails its own way.
//!
//! Two back-to-back queries read a moving target: the host's counters
//! change between calls, so `used` composed from two independent samples is
//! exact only for those samples, not for any later ones.

use vstd::prelude::*;

pub mod error;
pub mod linux;
pub mod macos;
pub mod macos_session;
pub mod windows;

verus! {

use crate::macos::KERN_SUCCESS;

/// One observation of the host's memory, as the raw replies of whichever
/// platform family answered the query.  Exactly one back-end serves a real
/// host; carrying the three shapes in one type lets the facade's meaning be
/// stated for each of them.
#[derive(Clone, Copy, Debug, PartialEq, Eq, Structural)]
pub enum HostSample {
    /// A kernel-statistics reply, as on Linux.
    Linux {
        /// The reply of the one call that reports both counters.
        sysinfo: linux::SysinfoReply,
    },
    /// The replies of the macOS/iOS queries: the named total-memory lookup,
    /// and the page-size, statistics and port-release outcomes that the
    /// available-memory session gathers.
    MacOs {
        /// Reply of the named total-memory lookup.
        memsize: macos::SysctlReply,
        /// Outcome of the page-size lookup.
        page_size: macos::PageSizeReply,
        /// Outcome of the virtual-memory statistics query.
        vm_stats: macos::VmStatsReply,
        /// Outcome of releasing the host port.
        release: macos::PortReleaseReply,
    },
    /// A global memory-status reply, as on Windows.
    Windows {
        /// The reply of the one call that reports both counters.
        status: windows::MemoryStatusReply,
    },
}

/// Whether the calls behind the total-memory query succeeded.
pub open spec fn total_ok(s: HostSample) -> bool {
    match s {
        HostSample::Linux { sysinfo } => sysinfo.return_code >= 0,
        HostSample::MacOs { memsize, .. } => memsize.return_value == 0,
        HostSample::Windows { status } => status.return_value != 0,
    }
}

/// The total physical memory a successful sample reports, in bytes.
pub open spec fn total_value(s: HostSample) -> u64 {
    match s {
        HostSample::Linux { sysinfo } => sysinfo.totalram,
        HostSample::MacOs { memsize, .. } => memsize.memsize,
        HostSample::Windows { status } => status.total_phys,
    }
}

/// Whether the calls behind the available-memory query succeeded, and — on
/// macOS, where the byte count is computed rather than reported — whether
/// that byte count fits its 64-bit word.
pub open spec fn available_ok(s: HostSample) -> bool {
    match s {
        HostSample::Linux { sysinfo } => sysinfo.return_code >= 0,
        HostSample::MacOs { page_size, vm_stats, release, .. } => {
            &&& page_size.return_value >= 0
            &&& vm_stats.return_code == KERN_SUCCESS
            &&& release.return_code == KERN_SUCCESS
            &&& (vm_stats.active_count + vm_stats.free_count) * (page_size.return_value as u64)
                <= u64::MAX
        },
        HostSample::Windows { status } => status.return_value != 0,
    }
}

/// The available physical memory a successful sample reports, in bytes.
/// Linux and Windows report the count directly; macOS computes
/// `(active_pages + free_pages) * page_size`.
pub open spec fn available_value(s: HostSample) -> int {
    match s {
        HostSample::Linux { sysinfo } => sysinfo.freeram as int,
        HostSample::MacOs { page_size, vm_stats, .. } => (vm_stats.active_count
            + vm_stats.free_count) * (page_size.return_value as u64),
        HostSample::Windows { status } => status.avail_phys as int,
    }
}

/// Total physical memory of a sample whose query succeeded, in bytes.
pub fn total(s: &HostSample) -> (r: u64)
    requires
        total_ok(*s),
    ensures
        r == total_value(*s),
{
    match s {
        HostSample::Linux { sysinfo } => linux::get_sysinfo(sysinfo).totalram,
        HostSample::MacOs { memsize, .. } => macos::total(memsize),
        HostSample::Windows { status } => windows::mem_status(status).total_phys,
    }
}

/// Available physical memory of a sample whose queries succeeded, in bytes,
/// by the platform's own definition of "available".
pub fn available(s: &HostSample) -> (r: u64)
    requires
        available_ok(*s),
    ensures
        r == available_value(*s),
{
    match s {
        HostSample::Linux { sysinfo } => linux::get_sysinfo(sysinfo).freeram,
        HostSample::MacOs { page_size, vm_stats, release, .. } => {
            let page = match macos::page_size(page_size) {
                Ok(v) => v,
                Err(_) => unreached(),
            };
            let stats = match macos::vm_statistics(vm_stats, release) {
                Ok(v) => v,
                Err(_) => unreached(),
            };
            macos::calculate_available_memory(page, &stats)
        },
        HostSample::Windows { status } => windows::mem_status(status).avail_phys,
    }
}

/// Number of bytes of physical memory currently in use, derived from one
/// sample of the total and one of the available byte count.
///
/// The two samples come from independent queries; the difference is exact
/// for the pair that was actually sampled, and a later query is free to
/// report something else.
pub fn used(total_bytes: u64, available_bytes: u64) -> (r: u64)
    requires
        available_bytes <= total_bytes,
    ensures
        r == total_bytes - available_bytes,
{
    total_bytes - available_bytes
}

/// Whether two samples come from the same platform family and agree on the
/// one field the total-memory query reads.
pub open spec fn same_total_source(a: HostSample, b: HostSample) -> bool {
    ||| (a matches HostSample::Linux { sysinfo: sa } && b matches HostSample::Linux {
        sysinfo: sb,
    } && sa.totalram == sb.totalram)
    ||| (a matches HostSample::MacOs { memsize: ma, .. } && b matches HostSample::MacOs {
        memsize: mb,
        ..
    } && ma.memsize == mb.memsize)
    ||| (a matches HostSample::Windows { status: wa } && b matches HostSample::Windows {
        status: wb,
    } && wa.total_phys == wb.total_phys)
}

/// Law: total physical memory is a pure function of the one kernel-reported
/// field.  Two successful samples taken while that field is unchanged — as
/// it is on real hardware, where installed memory does not move at runtime —
/// yield the same total, however every other counter drifted between the
/// two calls.  No such law holds for the available count, which is free to
/// differ between any two samples.
pub proof fn lemma_total_stable(a: HostSample, b: HostSample)
    requires
        total_ok(a),
        total_ok(b),
        same_total_source(a, b),
    ensures
        total_value(a) == total_value(b),
{
}

/// Law: for a macOS sample whose queries succeeded, driving the
/// available-memory session with the same raw replies is a valid run that
/// ends with a snapshot, and the formula on that snapshot is exactly the
/// facade's available value — whatever port name and error codes the run
/// observed along the way.
pub proof fn lemma_available_agrees_with_session(
    memsize: macos::SysctlReply,
    page_size: macos::PageSizeReply,
    vm_stats: macos::VmStatsReply,
    release: macos::PortReleaseReply,
    port: u32,
    ps_code: i32,
    rel_code: i32,
)
    requires
        available_ok(HostSample::MacOs { memsize, page_size, vm_stats, release }),
    ensures
        macos_session::trace_ok(
            macos_session::session_init(),
            macos_session::session_trace(page_size, ps_code, port, vm_stats, release, rel_code),
        ),
        macos_session::run_state(
            macos_session::session_init(),
            macos_session::session_trace(page_size, ps_code, port, vm_stats, release, rel_code),
        ) == (macos_session::SessionState::Done {
            outcome: Ok(
                macos_session::VmSnapshot {
                    page_size: page_size.return_value as u64,
                    stats: macos::VmStats {
                        active_count: vm_stats.active_count,
                        free_count: vm_stats.free_count,
                    },
                },
            ),
        }),
        available_value(HostSample::MacOs { memsize, page_size, vm_stats, release })
            == macos::available_formula(
            page_size.return_value as u64,
            macos::VmStats {
                active_count: vm_stats.active_count,
                free_count: vm_stats.free_count,
            },
        ),
{
    macos_session::lemma_session_agrees_with_queries(
        page_size,
        ps_code,
        port,
        vm_stats,
        release,
        rel_code,
    );
}

} // verus!
