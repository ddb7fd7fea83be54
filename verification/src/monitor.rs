//! Displays and positions in physical pixels.

use vstd::prelude::*;

verus! {

/// One attached display: its top-left corner and its size, in physical pixels.
#[derive(Clone, Copy, Debug, PartialEq, Eq, Structural)]
pub struct MonitorRect {
    pub x: i32,
    pub y: i32,
    pub width: u32,
    pub height: u32,
}

impl MonitorRect {
    /// The edges that testing the point `(px, py)` computes fit in `i32`:
    /// the right edge (corner plus size, the size taken as `i32`) once the
    /// point is right of and below the corner, and the bottom edge once it is
    /// also left of the right edge.
    pub open spec fn edges_fit_for(self, px: int, py: int) -> bool {
        &&& (px >= self.x && py >= self.y) ==> i32::MIN <= self.x + (self.width as i32) <= i32::MAX
        &&& (px >= self.x && py >= self.y && px < self.x + (self.width as i32))
            ==> i32::MIN <= self.y + (self.height as i32) <= i32::MAX
    }

    /// The point lies on the display: on or right of its left edge, on or
    /// below its top edge, and strictly left of / above its far edges.
    pub open spec fn covers(self, px: int, py: int) -> bool {
        &&& px >= self.x
        &&& py >= self.y
        &&& px < self.x + (self.width as i32)
        &&& py < self.y + (self.height as i32)
    }

    /// Is the point `(px, py)` on this display?
    pub fn contains(&self, px: i32, py: i32) -> (r: bool)
        requires
            self.edges_fit_for(px as int, py as int),
        ensures
            r == self.covers(px as int, py as int),
            r == (self.x <= px && self.y <= py && px < self.x + (self.width as i32) && py < self.y
                + (self.height as i32)),
    {
        if px >= self.x && py >= self.y {
            let right: i32 = self.x + self.width as i32;
            if px < right {
                let bottom: i32 = self.y + self.height as i32;
                py < bottom
            } else {
                false
            }
        } else {
            false
        }
    }
}

/// A display covers exactly the points from its corner (included) to its
/// corner plus its size (excluded), on both axes; in particular no point at
/// or below `y + height`, nor at or right of `x + width`.
pub proof fn lemma_covers_is_the_rectangle(m: MonitorRect, px: int, py: int)
    ensures
        m.covers(px, py) <==> (m.x <= px < m.x + (m.width as i32) && m.y <= py < m.y + (m.height as i32)),
        m.covers(px, py) ==> py < m.y + (m.height as i32) && px < m.x + (m.width as i32),
        py >= m.y + (m.height as i32) ==> !m.covers(px, py),
        px >= m.x + (m.width as i32) ==> !m.covers(px, py),
        px < m.x || py < m.y ==> !m.covers(px, py),
{
}

/// Coverage does not depend on where a display sits: moving the display and
/// the point by the same offset keeps the point on it or off it.
pub proof fn lemma_covers_moves_with_display(m: MonitorRect, px: int, py: int, dx: int, dy: int)
    requires
        i32::MIN <= m.x + dx <= i32::MAX,
        i32::MIN <= m.y + dy <= i32::MAX,
    ensures
        (MonitorRect { x: (m.x + dx) as i32, y: (m.y + dy) as i32, ..m }).covers(px + dx, py + dy)
            == m.covers(px, py),
{
}

/// None of the first `n` displays covers the point.
pub open spec fn missed_before(monitors: Seq<MonitorRect>, n: int, px: int, py: int) -> bool {
    forall|j: int| 0 <= j < n ==> !(#[trigger] monitors[j]).covers(px, py)
}

/// Searching the list in order for a display that covers the point computes
/// no edge that overflows `i32`: every display that the search reaches (all
/// before it missed the point) has the edges that its test computes fit.
pub open spec fn reached_edges_fit(monitors: Seq<MonitorRect>, px: int, py: int) -> bool {
    forall|i: int|
        0 <= i < monitors.len() && missed_before(monitors, i, px, py) ==> #[trigger] monitors[i].edges_fit_for(px, py)
}

/// Some display in the list covers the point.
pub open spec fn covered_by_any(monitors: Seq<MonitorRect>, px: int, py: int) -> bool {
    exists|i: int| 0 <= i < monitors.len() && #[trigger] monitors[i].covers(px, py)
}

/// Whether a restore to `(px, py)` may go ahead: when the displays could be
/// listed (`Some`), only if one of them covers the point; when they could not
/// (`None`), always, so that an unknown layout never blocks the restore.
pub open spec fn restorable(monitors: Option<Seq<MonitorRect>>, px: int, py: int) -> bool {
    match monitors {
        Some(ms) => covered_by_any(ms, px, py),
        None => true,
    }
}

/// The displays of `monitors`, by their list, where it holds one.
pub open spec fn monitors_view(monitors: Option<Vec<MonitorRect>>) -> Option<Seq<MonitorRect>> {
    match monitors {
        Some(ms) => Some(ms@),
        None => None,
    }
}

/// Is the point (physical pixels) on any attached display? `None` stands for
/// a display list that could not be read, and then the answer is `true`.
pub fn point_on_any_monitor(monitors: &Option<Vec<MonitorRect>>, px: i32, py: i32) -> (r: bool)
    requires
        monitors matches Some(ms) ==> reached_edges_fit(ms@, px as int, py as int),
    ensures
        r == restorable(monitors_view(*monitors), px as int, py as int),
        monitors is None ==> r,
        monitors matches Some(ms) ==> (r <==> exists|i: int| 0 <= i < ms@.len() && #[trigger] ms@[i].covers(px as int, py as int)),
{
    match monitors {
        None => true,
        Some(ms) => {
            assert(monitors_view(*monitors) == Some(ms@));
            let n: usize = ms.len();
            let mut i: usize = 0;
            while i < n
                invariant
                    n == ms@.len(),
                    monitors_view(*monitors) == Some(ms@),
                    i <= n,
                    reached_edges_fit(ms@, px as int, py as int),
                    missed_before(ms@, i as int, px as int, py as int),
                decreases n - i,
            {
                assert(ms@[i as int].edges_fit_for(px as int, py as int));
                if ms[i].contains(px, py) {
                    assert(ms@[i as int].covers(px as int, py as int));
                    return true;
                }
                i = i + 1;
            }
            false
        },
    }
}

/// A point is on some display of a listed layout exactly when one of the
/// displays holds it within its rectangle; with no list, every point passes.
pub proof fn lemma_restorable_is_some_rectangle(monitors: Option<Seq<MonitorRect>>, px: int, py: int)
    ensures
        monitors is None ==> restorable(monitors, px, py),
        monitors matches Some(ms) ==> (restorable(monitors, px, py) <==> exists|i: int|
            0 <= i < ms.len() && ms[i].x <= px < ms[i].x + (#[trigger] ms[i].width as i32) && ms[i].y <= py
                < ms[i].y + (ms[i].height as i32)),
{
    if let Some(ms) = monitors {
        if restorable(monitors, px, py) {
            let i = choose|i: int| 0 <= i < ms.len() && #[trigger] ms[i].covers(px, py);
            assert(ms[i].x <= px < ms[i].x + (ms[i].width as i32));
        }
        assert forall|i: int|
            0 <= i < ms.len() && ms[i].x <= px < ms[i].x + (#[trigger] ms[i].width as i32) && ms[i].y <= py
                < ms[i].y + (ms[i].height as i32) implies restorable(monitors, px, py) by {
            assert(ms[i].covers(px, py));
        }
    }
}

/// The position that a window is restored to, from its saved coordinates.
pub open spec fn restored(saved_x: Option<i32>, saved_y: Option<i32>, monitors: Option<Seq<MonitorRect>>) -> Option<(i32, i32)> {
    match (saved_x, saved_y) {
        (Some(x), Some(y)) => if restorable(monitors, x as int, y as int) {
            Some((x, y))
        } else {
            None
        },
        _ => None,
    }
}

/// A restore gives back exactly the saved position or nothing: it restores
/// only when both coordinates were saved and the point passes the display
/// test, and then to those coordinates.
pub proof fn lemma_restored_is_saved_or_nothing(
    saved_x: Option<i32>,
    saved_y: Option<i32>,
    monitors: Option<Seq<MonitorRect>>,
)
    ensures
        restored(saved_x, saved_y, monitors) is Some <==> (saved_x is Some && saved_y is Some && restorable(
            monitors,
            saved_x->0 as int,
            saved_y->0 as int,
        )),
        restored(saved_x, saved_y, monitors) matches Some(p) ==> saved_x == Some(p.0) && saved_y == Some(p.1),
{
}

/// The position to restore a window to: the saved one when both of its
/// coordinates were saved and it still lands on a display (see
/// [`point_on_any_monitor`]); `None` leaves the window where it opened.
pub fn restore_position(
    saved_x: Option<i32>,
    saved_y: Option<i32>,
    monitors: &Option<Vec<MonitorRect>>,
) -> (r: Option<(i32, i32)>)
    requires
        saved_x is Some && saved_y is Some && monitors is Some ==> reached_edges_fit(
            monitors->0@,
            saved_x->0 as int,
            saved_y->0 as int,
        ),
    ensures
        r == restored(saved_x, saved_y, monitors_view(*monitors)),
        r matches Some(p) ==> saved_x == Some(p.0) && saved_y == Some(p.1),
        (saved_x is None || saved_y is None) ==> r is None,
        (saved_x is Some && saved_y is Some && monitors is None) ==> r == Some((saved_x->0, saved_y->0)),
        (saved_x is Some && saved_y is Some && monitors is Some) ==> (r is Some <==> exists|i: int|
            0 <= i < monitors->0@.len() && #[trigger] monitors->0@[i].covers(
                saved_x->0 as int,
                saved_y->0 as int,
            )),
{
    match (saved_x, saved_y) {
        (Some(x), Some(y)) => {
            if point_on_any_monitor(monitors, x, y) {
                Some((x, y))
            } else {
                None
            }
        },
        _ => None,
    }
}

} // verus!
