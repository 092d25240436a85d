//! The structured error a memory query reports when a native call fails.

use vstd::prelude::*;

verus! {

/// Why a memory query failed.
///
/// Every back-end reports failure through this type instead of aborting or
/// handing back a silent zero; turning a failure into a process abort is the
/// embedding program's policy, never a back-end behaviour.
#[derive(Clone, Copy, Debug, PartialEq, Eq, Structural)]
pub enum MemError {
    /// The native call failed and the platform reported this error code.
    Code(i32),
    /// The native call failed without touching the platform's error state:
    /// the operation is unsupported on this configuration rather than
    /// broken in a reportable way.  Only the page-size lookup signals
    /// failure this way.
    Unsupported,
}

/// Relies on `errno::errno`: reads the calling thread's last OS error code.
///
/// The value is whatever the thread's most recent failing native call left
/// behind, so nothing can be promised of it; callers state what holds of
/// their result for every code this may return.
#[verifier::external_body]
pub(crate) fn last_os_error() -> i32 {
    errno::errno().0
}

} // verus!
