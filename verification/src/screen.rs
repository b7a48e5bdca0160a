//! Screens, as read once from the window server, and the frames they offer.

use vstd::prelude::*;

use crate::geom::{Point, Rect};

verus! {

/// Largest magnitude of a coordinate reported for a screen.
pub const SCREEN_LIMIT: i64 = 0x0400_0000_0000_0000;

impl Rect {
    /// Whether the rectangle can be the frame of a screen.
    pub open spec fn on_desktop(self) -> bool {
        &&& -SCREEN_LIMIT <= self.x <= SCREEN_LIMIT
        &&& -SCREEN_LIMIT <= self.y <= SCREEN_LIMIT
        &&& -SCREEN_LIMIT <= self.w <= SCREEN_LIMIT
        &&& -SCREEN_LIMIT <= self.h <= SCREEN_LIMIT
    }
}

/// One screen of the desktop.
#[derive(Debug, Clone, Copy, PartialEq, Eq, Structural)]
pub struct Screen {
    /// Frame without the menu bar and the Dock, in global coordinates.
    pub visible: Rect,
    /// Backing scale factor in thousandths.
    pub scale_milli: u32,
}

/// The screens of the desktop and the one that holds the key window.
#[derive(Debug)]
pub struct ScreenLayout {
    /// Every screen, in the order the window server lists them.
    pub screens: Vec<Screen>,
    /// The main screen, when there is one.
    pub main: Option<Screen>,
}

/// Position of the first screen whose visible frame covers `p`.
pub open spec fn first_covering(screens: Seq<Screen>, p: Point) -> Option<int>
    decreases screens.len(),
{
    if screens.len() == 0 {
        None
    } else {
        match first_covering(screens.drop_last(), p) {
            Some(i) => Some(i),
            None => if screens.last().visible.covers(p) {
                Some(screens.len() - 1)
            } else {
                None
            },
        }
    }
}

impl ScreenLayout {
    /// The screen that `p` belongs to: the first that covers it, else the main
    /// screen, else the first one listed.
    pub open spec fn screen_for(&self, p: Point) -> Option<Screen> {
        match first_covering(self.screens@, p) {
            Some(i) => Some(self.screens@[i]),
            None => match self.main {
                Some(s) => Some(s),
                None => if self.screens@.len() > 0 {
                    Some(self.screens@[0])
                } else {
                    None
                },
            },
        }
    }

    /// The visible frame that `p` belongs to, or the zero rectangle when there
    /// is no screen.
    pub open spec fn visible_frame(&self, p: Point) -> Rect {
        match self.screen_for(p) {
            Some(s) => s.visible,
            None => Rect { x: 0, y: 0, w: 0, h: 0 },
        }
    }

    /// Whether every frame lies on the desktop.
    pub open spec fn on_desktop(&self) -> bool {
        &&& forall|i: int| 0 <= i < self.screens@.len() ==> (#[trigger] self.screens@[i]).visible.on_desktop()
        &&& self.main matches Some(s) ==> s.visible.on_desktop()
    }

    /// The screen that `p` belongs to.
    pub fn screen_at(&self, p: Point) -> (r: Option<Screen>)
        ensures
            r == self.screen_for(p),
    {
        let mut i: usize = 0;
        while i < self.screens.len()
            invariant
                i <= self.screens@.len(),
                first_covering(self.screens@.take(i as int), p) is None,
            decreases self.screens@.len() - i,
        {
            proof {
                let upto = self.screens@.take(i + 1);
                assert(upto.drop_last() =~= self.screens@.take(i as int));
            }
            if self.screens[i].visible.contains(p) {
                proof {
                    first_covering_is_stable(self.screens@, p, i + 1);
                }
                return Some(self.screens[i]);
            }
            i = i + 1;
        }
        assert(self.screens@.take(i as int) =~= self.screens@);
        match self.main {
            Some(s) => Some(s),
            None => if self.screens.len() > 0 {
                Some(self.screens[0])
            } else {
                None
            },
        }
    }

    /// The visible frame of the screen that `p` belongs to.
    pub fn visible_frame_containing_point(&self, p: Point) -> (r: Rect)
        ensures
            r == self.visible_frame(p),
            self.on_desktop() ==> r.on_desktop(),
    {
        proof {
            first_covering_covers(self.screens@, p);
        }
        match self.screen_at(p) {
            Some(s) => s.visible,
            None => Rect { x: 0, y: 0, w: 0, h: 0 },
        }
    }

    /// The backing scale of the screen that `p` belongs to, in thousandths.
    pub fn scale_factor_containing_point(&self, p: Point) -> (r: u32)
        ensures
            r == (match self.screen_for(p) {
                Some(s) => s.scale_milli,
                None => 1000u32,
            }),
    {
        match self.screen_at(p) {
            Some(s) => s.scale_milli,
            None => 1000,
        }
    }
}

/// A screen found in a prefix of the list is the one found in the whole list.
proof fn first_covering_is_stable(screens: Seq<Screen>, p: Point, n: int)
    requires
        0 <= n <= screens.len(),
        first_covering(screens.take(n), p) is Some,
    ensures
        first_covering(screens, p) == first_covering(screens.take(n), p),
    decreases screens.len() - n,
{
    if n < screens.len() {
        assert(screens.take(n + 1).drop_last() =~= screens.take(n));
        first_covering_is_stable(screens, p, n + 1);
    } else {
        assert(screens.take(n) =~= screens);
    }
}

/// The screen found for a point covers it, and no earlier screen does; when
/// none is found, no screen covers the point.
pub proof fn first_covering_covers(screens: Seq<Screen>, p: Point)
    ensures
        match first_covering(screens, p) {
            Some(i) => {
                &&& 0 <= i < screens.len()
                &&& screens[i].visible.covers(p)
                &&& forall|j: int| 0 <= j < i ==> !(#[trigger] screens[j]).visible.covers(p)
            },
            None => forall|j: int|
                0 <= j < screens.len() ==> !(#[trigger] screens[j]).visible.covers(p),
        },
    decreases screens.len(),
{
    if screens.len() > 0 {
        let rest = screens.drop_last();
        first_covering_covers(rest, p);
        assert forall|j: int| 0 <= j < rest.len() implies rest[j] == #[trigger] screens[j] by {}
    }
}

/// The frame resolved for a point covers it whenever some screen does.
pub proof fn visible_frame_covers_point(layout: &ScreenLayout, p: Point, i: int)
    requires
        0 <= i < layout.screens@.len(),
        layout.screens@[i].visible.covers(p),
    ensures
        layout.visible_frame(p).covers(p),
{
    first_covering_covers(layout.screens@, p);
}

/// The rectangle moved by the origin that it was relative to.
pub fn globalize_rect(local: Rect, screen_origin_x: i64, screen_origin_y: i64) -> (r: Rect)
    requires
        i64::MIN <= screen_origin_x + local.x <= i64::MAX,
        i64::MIN <= screen_origin_y + local.y <= i64::MAX,
    ensures
        r.x == screen_origin_x + local.x,
        r.y == screen_origin_y + local.y,
        r.w == local.w,
        r.h == local.h,
{
    Rect { x: screen_origin_x + local.x, y: screen_origin_y + local.y, w: local.w, h: local.h }
}

/// The screen that a point belongs to lies on the desktop when every screen does.
pub proof fn screen_for_is_on_desktop(layout: ScreenLayout, p: Point)
    requires
        layout.on_desktop(),
    ensures
        layout.screen_for(p) matches Some(s) ==> s.visible.on_desktop(),
{
    first_covering_covers(layout.screens@, p);
    if let Some(i) = first_covering(layout.screens@, p) {
        assert(layout.screens@[i].visible.on_desktop());
    } else if layout.main is None && layout.screens@.len() > 0 {
        assert(layout.screens@[0].visible.on_desktop());
    }
}

} // verus!
