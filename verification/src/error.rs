//! Errors of the window operations.

use vstd::prelude::*;

use crate::geom::{ClampFlags, Rect};
use crate::place::common::AttemptTimeline;

verus! {

/// What is known about a placement that did not verify.
#[derive(Debug)]
pub struct PlacementErrorDetails {
    /// The rectangle that was asked for.
    pub expected: Rect,
    /// The rectangle that was observed last.
    pub got: Rect,
    /// The tolerance of the comparison.
    pub epsilon: i64,
    /// Edges on which the window met the visible frame.
    pub clamped: ClampFlags,
    /// The visible frame that the window was compared with.
    pub visible_frame: Rect,
    /// The attempts that were made.
    pub timeline: AttemptTimeline,
}

/// Why a window operation failed.
#[derive(Debug)]
pub enum Error {
    /// Accessibility access has not been granted.
    Permission,
    /// The operation must run on the main thread.
    MainThread,
    /// No accessibility element exists for the application.
    AppElement,
    /// The window has not surfaced in the accessibility window list.
    FocusedWindow,
    /// The window has gone away.
    WindowGone,
    /// The window occupies a full screen space of its own.
    FullscreenActive,
    /// The accessibility layer answered with a status code.
    AxCode(i32),
    /// The window did not end up where it was placed.
    PlacementVerificationFailed {
        /// The operation that failed.
        op: &'static str,
        /// What is known about the failure.
        details: PlacementErrorDetails,
    },
}

impl ClampFlags {
    /// The names of the edges that coincide, or `none`.
    pub open spec fn label(self) -> Seq<char> {
        let l = if self.left {
            seq!["left"@]
        } else {
            Seq::empty()
        };
        let r = if self.right {
            seq!["right"@]
        } else {
            Seq::empty()
        };
        let b = if self.bottom {
            seq!["bottom"@]
        } else {
            Seq::empty()
        };
        let t = if self.top {
            seq!["top"@]
        } else {
            Seq::empty()
        };
        if self.left || self.right || self.bottom || self.top {
            crate::text::joined(l + r + b + t, ","@)
        } else {
            "none"@
        }
    }

    /// The names of the edges that coincide, or `none`.
    pub fn describe(&self) -> (s: String)
        ensures
            s@ == self.label(),
    {
        if !self.any() {
            return "none".to_owned();
        }
        let mut parts: Vec<String> = Vec::new();
        if self.left {
            parts.push("left".to_owned());
        }
        if self.right {
            parts.push("right".to_owned());
        }
        if self.bottom {
            parts.push("bottom".to_owned());
        }
        if self.top {
            parts.push("top".to_owned());
        }
        proof {
            let l = if self.left {
                seq!["left"@]
            } else {
                Seq::empty()
            };
            let r = if self.right {
                seq!["right"@]
            } else {
                Seq::empty()
            };
            let b = if self.bottom {
                seq!["bottom"@]
            } else {
                Seq::empty()
            };
            let t = if self.top {
                seq!["top"@]
            } else {
                Seq::empty()
            };
            assert(crate::text::texts(parts@) =~= l + r + b + t);
        }
        crate::text::join(&parts, ",")
    }
}

} // verus!
