//! Status codes that are expected noise, and how quietly they are logged.

use vstd::prelude::*;

verus! {

/// Severity of a log line.
#[derive(Debug, Clone, Copy, PartialEq, Eq, Structural)]
#[allow(non_camel_case_types, clippy::upper_case_acronyms)]
pub enum Level {
    /// Something failed.
    ERROR,
    /// Something is odd.
    WARN,
    /// Something happened.
    INFO,
    /// Detail for debugging.
    DEBUG,
    /// Detail for tracing.
    TRACE,
}

/// Where a status code comes from.
#[derive(Debug, Clone, Copy, PartialEq, Eq, Hash, Structural)]
pub enum StatusKind {
    /// Installing an accessibility observer.
    AxObserverAttach,
    /// Ordering windows.
    CgsOrderWindow,
}

/// How an expected status code is logged.
#[derive(Debug, Clone, Copy)]
pub struct StatusPolicy {
    /// Severity of the line.
    pub level: Level,
    /// Why the code is expected.
    pub note: &'static str,
}

/// The accessibility server did not answer in time.
pub const K_AX_ERROR_CANNOT_COMPLETE: i32 = -25204;

/// The window server refused.
pub const K_CG_ERROR_FAILURE: i32 = 1000;

/// The policy for a status code that is expected noise, if it is.
pub fn policy(kind: StatusKind, code: i32) -> (r: Option<StatusPolicy>)
    ensures
        r is Some <==> {
            ||| kind is AxObserverAttach && code == K_AX_ERROR_CANNOT_COMPLETE
            ||| kind is CgsOrderWindow && code == K_CG_ERROR_FAILURE
        },
        r matches Some(policy) ==> match kind {
            StatusKind::AxObserverAttach => {
                &&& policy.level is DEBUG
                &&& policy.note@
                    == "Accessibility server timed out during observer registration; retry later."@
            },
            StatusKind::CgsOrderWindow => {
                &&& policy.level is TRACE
                &&& policy.note@
                    == "kCGErrorFailure when reordering a window owned by another process; fall back to activation."@
            },
        },
{
    match kind {
        StatusKind::AxObserverAttach => {
            if code == K_AX_ERROR_CANNOT_COMPLETE {
                Some(
                    StatusPolicy {
                        level: Level::DEBUG,
                        note:
                            "Accessibility server timed out during observer registration; retry later.",
                    },
                )
            } else {
                None
            }
        },
        StatusKind::CgsOrderWindow => {
            if code == K_CG_ERROR_FAILURE {
                Some(
                    StatusPolicy {
                        level: Level::TRACE,
                        note:
                            "kCGErrorFailure when reordering a window owned by another process; fall back to activation.",
                    },
                )
            } else {
                None
            }
        },
    }
}

} // verus!
