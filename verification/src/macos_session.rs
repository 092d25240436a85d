//! The macOS available-memory session: a step-by-step protocol whose one
//! scarce resource — the host-port handle — is provably released exactly
//! once per acquisition, on the success path and on every failure path.
//!
//! The raw calls cannot run here, so the session is a state machine: each
//! step takes the current state and the observed outcome of the last native
//! call, and returns the next state together with the next call to perform.
//! A driver performs the calls in the order the actions dictate; the
//! machine decides everything else.  The flow is: look up the page size;
//! acquire the host port; query the virtual-memory statistics through it;
//! release the port whatever the query returned; then combine the results.

use vstd::prelude::*;

verus! {

use crate::error::MemError;
use crate::macos::KERN_SUCCESS;
use crate::macos::PageSizeReply;
use crate::macos::PortReleaseReply;
use crate::macos::VmStats;
use crate::macos::VmStatsReply;
use crate::macos::interpret_page_size_spec;
use crate::macos::interpret_vm_statistics_spec;

/// Everything a completed session gathered: the page size and the page
/// counters, ready for the available-memory formula.
#[derive(Clone, Copy, Debug, PartialEq, Eq, Structural)]
pub struct VmSnapshot {
    /// Page size in bytes, as the page-size lookup reported it.
    pub page_size: u64,
    /// The page-count snapshot the statistics query reported.
    pub stats: VmStats,
}

/// Where the session stands: which native call it is waiting on, or the
/// outcome it ended with.
#[derive(Clone, Copy, Debug, PartialEq, Eq)]
pub enum SessionState {
    /// Waiting for the page-size lookup's outcome.
    AwaitPageSize,
    /// Waiting for the host port to be acquired.
    AwaitPort {
        /// Page size in bytes, already looked up.
        page_size: u64,
    },
    /// Waiting for the statistics query's outcome; the port is held.
    AwaitStats {
        /// Page size in bytes, already looked up.
        page_size: u64,
        /// The held host-port handle.
        port: u32,
    },
    /// Waiting for the port release's outcome; the port is still held.
    /// The query's outcome is kept back until the release has happened.
    AwaitRelease {
        /// Page size in bytes, already looked up.
        page_size: u64,
        /// The statistics query's return code, judged only after release.
        stats_rc: i32,
        /// Number of pages the query reported active.
        active_count: u32,
        /// Number of pages the query reported free.
        free_count: u32,
    },
    /// The session is over, in success or in failure.
    Done {
        /// The snapshot, or the structured error the session ends with.
        outcome: Result<VmSnapshot, MemError>,
    },
}

/// The native call a driver performs next.
#[derive(Clone, Copy, Debug, PartialEq, Eq)]
pub enum SessionAction {
    /// Clear the thread's error state, look up the page size, and observe
    /// the error state again right after.
    QueryPageSize,
    /// Acquire a handle to the current host.
    AcquireHostPort,
    /// Query virtual-memory statistics through the held port.
    QueryVmStats {
        /// The handle to query through.
        port: u32,
    },
    /// Release the held port, and observe the thread's error state right
    /// after.
    ReleaseHostPort {
        /// The handle to release.
        port: u32,
    },
    /// Nothing further: the session is complete.
    Idle,
}

/// The observed outcome of the native call the session was waiting on.
#[derive(Clone, Copy, Debug, PartialEq, Eq, Structural)]
pub enum SessionEvent {
    /// Outcome of the page-size lookup.
    PageSize {
        /// The lookup's return value; negative on failure.
        return_value: i64,
        /// The error code observed after the lookup, zero when the lookup
        /// left the cleared error state untouched.
        error_code: i32,
    },
    /// The host port was acquired.
    PortAcquired {
        /// The acquired handle.
        port: u32,
    },
    /// Outcome of the statistics query.
    StatsReturned {
        /// The kernel's return value for the query.
        return_code: i32,
        /// Number of pages reported active.
        active_count: u32,
        /// Number of pages reported free.
        free_count: u32,
    },
    /// Outcome of releasing the port.
    PortReleased {
        /// The kernel's return value for the release.
        return_code: i32,
        /// The error code observed after the release.
        error_code: i32,
    },
}

/// The state every session starts in.
pub open spec fn session_init() -> SessionState {
    SessionState::AwaitPageSize
}

/// Whether an event is the kind of outcome the state is waiting for.  A
/// finished session expects nothing.
pub open spec fn session_expects(s: SessionState, e: SessionEvent) -> bool {
    match s {
        SessionState::AwaitPageSize => e is PageSize,
        SessionState::AwaitPort { .. } => e is PortAcquired,
        SessionState::AwaitStats { .. } => e is StatsReturned,
        SessionState::AwaitRelease { .. } => e is PortReleased,
        SessionState::Done { .. } => false,
    }
}

/// The transition relation, as a function: next state and next action for a
/// state and the event it was waiting for.  An event the state does not
/// expect changes nothing.
pub open spec fn step_spec(s: SessionState, e: SessionEvent) -> (SessionState, SessionAction) {
    match (s, e) {
        (SessionState::AwaitPageSize, SessionEvent::PageSize { return_value, error_code }) => {
            if return_value >= 0 {
                (
                    SessionState::AwaitPort { page_size: return_value as u64 },
                    SessionAction::AcquireHostPort,
                )
            } else if error_code != 0 {
                (
                    SessionState::Done { outcome: Err(MemError::Code(error_code)) },
                    SessionAction::Idle,
                )
            } else {
                (SessionState::Done { outcome: Err(MemError::Unsupported) }, SessionAction::Idle)
            }
        },
        (SessionState::AwaitPort { page_size }, SessionEvent::PortAcquired { port }) => (
            SessionState::AwaitStats { page_size, port },
            SessionAction::QueryVmStats { port },
        ),
        (
            SessionState::AwaitStats { page_size, port },
            SessionEvent::StatsReturned { return_code, active_count, free_count },
        ) => (
            SessionState::AwaitRelease { page_size, stats_rc: return_code, active_count, free_count },
            SessionAction::ReleaseHostPort { port },
        ),
        (
            SessionState::AwaitRelease { page_size, stats_rc, active_count, free_count },
            SessionEvent::PortReleased { return_code, error_code },
        ) => {
            if return_code == KERN_SUCCESS && stats_rc == KERN_SUCCESS {
                (
                    SessionState::Done {
                        outcome: Ok(
                            VmSnapshot { page_size, stats: VmStats { active_count, free_count } },
                        ),
                    },
                    SessionAction::Idle,
                )
            } else {
                (
                    SessionState::Done { outcome: Err(MemError::Code(error_code)) },
                    SessionAction::Idle,
                )
            }
        },
        _ => (s, SessionAction::Idle),
    }
}

/// Start a session: the first call to perform is the page-size lookup.
pub fn session_start() -> (r: (SessionState, SessionAction))
    ensures
        r.0 == session_init(),
        r.1 == SessionAction::QueryPageSize,
{
    (SessionState::AwaitPageSize, SessionAction::QueryPageSize)
}

/// Advance the session by one observed outcome.
pub fn step(s: SessionState, e: SessionEvent) -> (r: (SessionState, SessionAction))
    ensures
        r == step_spec(s, e),
{
    match (s, e) {
        (SessionState::AwaitPageSize, SessionEvent::PageSize { return_value, error_code }) => {
            if return_value >= 0 {
                (
                    SessionState::AwaitPort { page_size: return_value as u64 },
                    SessionAction::AcquireHostPort,
                )
            } else if error_code != 0 {
                (
                    SessionState::Done { outcome: Err(MemError::Code(error_code)) },
                    SessionAction::Idle,
                )
            } else {
                (SessionState::Done { outcome: Err(MemError::Unsupported) }, SessionAction::Idle)
            }
        },
        (SessionState::AwaitPort { page_size }, SessionEvent::PortAcquired { port }) => (
            SessionState::AwaitStats { page_size, port },
            SessionAction::QueryVmStats { port },
        ),
        (
            SessionState::AwaitStats { page_size, port },
            SessionEvent::StatsReturned { return_code, active_count, free_count },
        ) => (
            SessionState::AwaitRelease { page_size, stats_rc: return_code, active_count, free_count },
            SessionAction::ReleaseHostPort { port },
        ),
        (
            SessionState::AwaitRelease { page_size, stats_rc, active_count, free_count },
            SessionEvent::PortReleased { return_code, error_code },
        ) => {
            if return_code == KERN_SUCCESS && stats_rc == KERN_SUCCESS {
                (
                    SessionState::Done {
                        outcome: Ok(
                            VmSnapshot { page_size, stats: VmStats { active_count, free_count } },
                        ),
                    },
                    SessionAction::Idle,
                )
            } else {
                (
                    SessionState::Done { outcome: Err(MemError::Code(error_code)) },
                    SessionAction::Idle,
                )
            }
        },
        (other, _) => (other, SessionAction::Idle),
    }
}

/// The state a run of events leads to.
pub open spec fn run_state(s0: SessionState, events: Seq<SessionEvent>) -> SessionState
    decreases events.len(),
{
    if events.len() == 0 {
        s0
    } else {
        run_state(step_spec(s0, events[0]).0, events.drop_first())
    }
}

/// Whether every event of a run is the one its state was waiting for.
pub open spec fn trace_ok(s0: SessionState, events: Seq<SessionEvent>) -> bool
    decreases events.len(),
{
    events.len() == 0 || (session_expects(s0, events[0]) && trace_ok(
        step_spec(s0, events[0]).0,
        events.drop_first(),
    ))
}

/// How many times a run acquired the host port.
pub open spec fn count_acquired(events: Seq<SessionEvent>) -> nat
    decreases events.len(),
{
    if events.len() == 0 {
        0
    } else {
        (if events[0] is PortAcquired {
            1nat
        } else {
            0nat
        }) + count_acquired(events.drop_first())
    }
}

/// How many times a run released the host port.
pub open spec fn count_released(events: Seq<SessionEvent>) -> nat
    decreases events.len(),
{
    if events.len() == 0 {
        0
    } else {
        (if events[0] is PortReleased {
            1nat
        } else {
            0nat
        }) + count_released(events.drop_first())
    }
}

/// Whether a state holds the host port.
pub open spec fn holds_port(s: SessionState) -> bool {
    s is AwaitStats || s is AwaitRelease
}

/// How many port handles a state holds: one or none.
pub open spec fn outstanding(s: SessionState) -> nat {
    if holds_port(s) {
        1
    } else {
        0
    }
}

/// The bookkeeping a run maintains: acquisitions balance releases plus the
/// handle still held, at most one handle is ever acquired, and none before
/// the port phase is reached.
pub open spec fn session_inv(s: SessionState, acquired: nat, released: nat) -> bool {
    &&& acquired == released + outstanding(s)
    &&& acquired <= 1
    &&& (s is AwaitPageSize || s is AwaitPort) ==> acquired == 0
}

proof fn lemma_run_preserves_inv(
    s0: SessionState,
    events: Seq<SessionEvent>,
    acquired: nat,
    released: nat,
)
    requires
        trace_ok(s0, events),
        session_inv(s0, acquired, released),
    ensures
        session_inv(
            run_state(s0, events),
            acquired + count_acquired(events),
            released + count_released(events),
        ),
    decreases events.len(),
{
    if events.len() > 0 {
        let e = events[0];
        let s1 = step_spec(s0, e).0;
        let a1 = acquired + (if e is PortAcquired {
            1nat
        } else {
            0nat
        });
        let r1 = released + (if e is PortReleased {
            1nat
        } else {
            0nat
        });
        assert(session_inv(s1, a1, r1));
        lemma_run_preserves_inv(s1, events.drop_first(), a1, r1);
    }
}

/// Law: in every completed session the host port was released exactly as
/// many times as it was acquired, and it was acquired at most once —
/// whether the session ended in a snapshot or in an error.
pub proof fn lemma_port_released_exactly_once(events: Seq<SessionEvent>)
    requires
        trace_ok(session_init(), events),
        run_state(session_init(), events) is Done,
    ensures
        count_released(events) == count_acquired(events),
        count_acquired(events) <= 1,
{
    lemma_run_preserves_inv(session_init(), events, 0, 0);
}

/// The run of events a driver hands the session when the raw calls return
/// these replies: only the page-size outcome when that lookup failed — the
/// session ends there and no port is touched — and all four outcomes
/// otherwise.
pub open spec fn session_trace(
    ps: PageSizeReply,
    ps_code: i32,
    port: u32,
    vm: VmStatsReply,
    rel: PortReleaseReply,
    rel_code: i32,
) -> Seq<SessionEvent> {
    if ps.return_value < 0 {
        seq![SessionEvent::PageSize { return_value: ps.return_value, error_code: ps_code }]
    } else {
        seq![
            SessionEvent::PageSize { return_value: ps.return_value, error_code: ps_code },
            SessionEvent::PortAcquired { port },
            SessionEvent::StatsReturned {
                return_code: vm.return_code,
                active_count: vm.active_count,
                free_count: vm.free_count,
            },
            SessionEvent::PortReleased { return_code: rel.return_code, error_code: rel_code },
        ]
    }
}

/// What the straight-line query functions make of the same raw replies:
/// the page size first, then the statistics guarded by the release.
pub open spec fn queries_outcome(
    ps: PageSizeReply,
    ps_code: i32,
    vm: VmStatsReply,
    rel: PortReleaseReply,
    rel_code: i32,
) -> Result<VmSnapshot, MemError> {
    match interpret_page_size_spec(ps, ps_code) {
        Err(e) => Err(e),
        Ok(page) => match interpret_vm_statistics_spec(vm, rel, rel_code) {
            Err(e) => Err(e),
            Ok(stats) => Ok(VmSnapshot { page_size: page, stats }),
        },
    }
}

/// Law: driving the session with the raw replies of the native calls is a
/// valid run, and it ends exactly where the straight-line interpretation of
/// the same replies ends — the same snapshot on success, the same
/// structured error on every failure.
pub proof fn lemma_session_agrees_with_queries(
    ps: PageSizeReply,
    ps_code: i32,
    port: u32,
    vm: VmStatsReply,
    rel: PortReleaseReply,
    rel_code: i32,
)
    ensures
        trace_ok(session_init(), session_trace(ps, ps_code, port, vm, rel, rel_code)),
        run_state(session_init(), session_trace(ps, ps_code, port, vm, rel, rel_code))
            == (SessionState::Done { outcome: queries_outcome(ps, ps_code, vm, rel, rel_code) }),
{
    let evs = session_trace(ps, ps_code, port, vm, rel, rel_code);
    let s1 = step_spec(session_init(), evs[0]).0;
    if ps.return_value < 0 {
        assert(evs.drop_first() =~= Seq::<SessionEvent>::empty());
        assert(run_state(session_init(), evs) == run_state(s1, evs.drop_first()));
        assert(trace_ok(s1, evs.drop_first()));
    } else {
        let t1 = evs.drop_first();
        let s2 = step_spec(s1, t1[0]).0;
        let t2 = t1.drop_first();
        let s3 = step_spec(s2, t2[0]).0;
        let t3 = t2.drop_first();
        let s4 = step_spec(s3, t3[0]).0;
        assert(t1 =~= seq![evs[1], evs[2], evs[3]]);
        assert(t2 =~= seq![evs[2], evs[3]]);
        assert(t3 =~= seq![evs[3]]);
        assert(t3.drop_first() =~= Seq::<SessionEvent>::empty());
        assert(run_state(session_init(), evs) == run_state(s1, t1));
        assert(run_state(s1, t1) == run_state(s2, t2));
        assert(run_state(s2, t2) == run_state(s3, t3));
        assert(run_state(s3, t3) == run_state(s4, t3.drop_first()));
        assert(trace_ok(s4, t3.drop_first()));
        assert(trace_ok(s3, t3));
        assert(trace_ok(s2, t2));
        assert(trace_ok(s1, t1));
    }
}

/// Law: at no point of a session — completed or not — is the port released
/// more often than it was acquired, and never more than one handle is held.
pub proof fn lemma_port_never_over_released(events: Seq<SessionEvent>)
    requires
        trace_ok(session_init(), events),
    ensures
        count_acquired(events) == count_released(events) + outstanding(
            run_state(session_init(), events),
        ),
        count_acquired(events) <= 1,
{
    lemma_run_preserves_inv(session_init(), events, 0, 0);
}

} // verus!
