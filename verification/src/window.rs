//! Multi-monitor bounds tracking and window-position clamping.
//!
//! [`ScreenBoundsTracker`] computes, once, the union bounding rectangle of all
//! attached monitors together with the window's pixel size. The positioner
//! clamps every requested window position against that rectangle, so the
//! window's visible rectangle always stays inside the union of monitors.

use vstd::prelude::*;

verus! {

/// One monitor's geometry: origin in screen coordinates and pixel size.
#[derive(Clone, Copy, PartialEq, Eq, Structural, Debug)]
pub struct Monitor {
    pub x: i32,
    pub y: i32,
    pub width: u32,
    pub height: u32,
}

/// The union bounding rectangle of all monitors plus the window's size.
///
/// Invariant (see [`ScreenBounds::wf`]): `min_x <= max_x` and `min_y <= max_y`.
#[derive(Clone, Copy, PartialEq, Eq, Structural, Debug)]
pub struct ScreenBounds {
    pub min_x: i32,
    pub max_x: i32,
    pub min_y: i32,
    pub max_y: i32,
    pub window_width: u32,
    pub window_height: u32,
}

impl ScreenBounds {
    /// Well-formedness: the rectangle is not inverted.
    pub open spec fn wf(self) -> bool {
        self.min_x <= self.max_x && self.min_y <= self.max_y
    }

    /// The window fits inside the rectangle on both axes.
    pub open spec fn window_fits(self) -> bool {
        self.window_width <= self.max_x - self.min_x
            && self.window_height <= self.max_y - self.min_y
    }
}

/// A monitor's right edge (origin plus width) as a mathematical integer.
pub open spec fn extent_x(m: Monitor) -> int {
    m.x + m.width
}

/// A monitor's bottom edge (origin plus height) as a mathematical integer.
pub open spec fn extent_y(m: Monitor) -> int {
    m.y + m.height
}

/// Every monitor's edges fit in signed 32-bit coordinates.
pub open spec fn extents_fit(ms: Seq<Monitor>) -> bool {
    forall|i: int| 0 <= i < ms.len() ==> extent_x(#[trigger] ms[i]) <= i32::MAX
        && extent_y(ms[i]) <= i32::MAX
}

/// `b` is exactly the union bounding rectangle of the monitors `ms`,
/// carrying the window size `(w, h)`: each bound is both a bound for every
/// monitor and attained by some monitor.
pub open spec fn is_union_bounds(b: ScreenBounds, ms: Seq<Monitor>, w: u32, h: u32) -> bool {
    &&& b.window_width == w
    &&& b.window_height == h
    &&& forall|i: int| 0 <= i < ms.len() ==> {
        &&& b.min_x <= (#[trigger] ms[i]).x
        &&& b.min_y <= ms[i].y
        &&& b.max_x >= extent_x(ms[i])
        &&& b.max_y >= extent_y(ms[i])
    }
    &&& exists|i: int| 0 <= i < ms.len() && (#[trigger] ms[i]).x == b.min_x
    &&& exists|i: int| 0 <= i < ms.len() && (#[trigger] ms[i]).y == b.min_y
    &&& exists|i: int| 0 <= i < ms.len() && extent_x(#[trigger] ms[i]) == b.max_x
    &&& exists|i: int| 0 <= i < ms.len() && extent_y(#[trigger] ms[i]) == b.max_y
}

/// Computes the union rectangle of all monitors, once.
///
/// Monitor enumeration may be unavailable for the first few ticks after
/// startup; the tracker answers `None` until a non-empty monitor list is
/// seen, and from then on keeps the first successful result unchanged.
pub struct ScreenBoundsTracker {
    pub bounds: Option<ScreenBounds>,
}

impl ScreenBoundsTracker {
    /// A tracker that has not yet seen a monitor list.
    pub fn new() -> (r: ScreenBoundsTracker)
        ensures
            r.bounds is None,
    {
        ScreenBoundsTracker { bounds: None }
    }

    /// The bounds computed so far, if any.
    pub fn bounds(&self) -> (r: Option<ScreenBounds>)
        ensures
            r == self.bounds,
    {
        self.bounds
    }

    /// Computes the union rectangle of `monitors` plus the window size, the
    /// first time a non-empty monitor list arrives. An empty list means the
    /// windowing backend is not ready yet: the call returns `None` and the
    /// caller retries on a later tick. After the first success the tracker is
    /// immutable: later calls return the stored bounds unchanged, whatever
    /// monitor list they carry.
    pub fn try_initialize(
        &mut self,
        monitors: &Vec<Monitor>,
        window_width: u32,
        window_height: u32,
    ) -> (r: Option<ScreenBounds>)
        requires
            extents_fit(monitors@),
        ensures
            r == final(self).bounds,
            old(self).bounds is Some ==> *final(self) == *old(self),
            old(self).bounds is None && monitors@.len() == 0 ==> final(self).bounds is None,
            old(self).bounds is None && monitors@.len() > 0 ==> {
                &&& final(self).bounds matches Some(b)
                &&& is_union_bounds(b, monitors@, window_width, window_height)
                &&& b.wf()
            },
    {
        if self.bounds.is_some() {
            return self.bounds;
        }
        if monitors.len() == 0 {
            return None;
        }
        let first = monitors[0];
        let mut min_x: i32 = first.x;
        let mut min_y: i32 = first.y;
        let mut max_x: i32 = ((first.x as i64) + (first.width as i64)) as i32;
        let mut max_y: i32 = ((first.y as i64) + (first.height as i64)) as i32;
        let mut i: usize = 1;
        while i < monitors.len()
            invariant
                1 <= i <= monitors@.len(),
                extents_fit(monitors@),
                forall|j: int| 0 <= j < i ==> {
                    &&& min_x <= (#[trigger] monitors@[j]).x
                    &&& min_y <= monitors@[j].y
                    &&& max_x >= extent_x(monitors@[j])
                    &&& max_y >= extent_y(monitors@[j])
                },
                exists|j: int| 0 <= j < i && (#[trigger] monitors@[j]).x == min_x,
                exists|j: int| 0 <= j < i && (#[trigger] monitors@[j]).y == min_y,
                exists|j: int| 0 <= j < i && extent_x(#[trigger] monitors@[j]) == max_x,
                exists|j: int| 0 <= j < i && extent_y(#[trigger] monitors@[j]) == max_y,
            decreases monitors@.len() - i,
        {
            let m = monitors[i];
            if m.x < min_x {
                min_x = m.x;
            }
            if m.y < min_y {
                min_y = m.y;
            }
            let ex: i32 = ((m.x as i64) + (m.width as i64)) as i32;
            if ex > max_x {
                max_x = ex;
            }
            let ey: i32 = ((m.y as i64) + (m.height as i64)) as i32;
            if ey > max_y {
                max_y = ey;
            }
            i = i + 1;
        }
        let b = ScreenBounds {
            min_x,
            max_x,
            min_y,
            max_y,
            window_width,
            window_height,
        };
        self.bounds = Some(b);
        self.bounds
    }
}

/// A request to move the window to an absolute position.
///
/// The target is carried in 64 bits because a drag computes it as
/// `initial window position + cursor delta`, which can leave the 32-bit
/// coordinate range before clamping brings it back.
#[derive(Clone, Copy, PartialEq, Eq, Structural, Debug)]
pub struct MoveWindowEvent {
    pub x: i64,
    pub y: i64,
}

/// A window position in screen coordinates.
#[derive(Clone, Copy, PartialEq, Eq, Structural, Debug)]
pub struct Point {
    pub x: i32,
    pub y: i32,
}

/// `v` clamped into the closed interval `[lo, hi]`.
pub open spec fn clamp(v: int, lo: int, hi: int) -> int {
    if v < lo {
        lo
    } else if v > hi {
        hi
    } else {
        v
    }
}

/// The position a request for `(x, y)` is clamped to under bounds `b`:
/// each axis lands in `[min, max - window size]`.
pub open spec fn clamped_position(b: ScreenBounds, x: int, y: int) -> (int, int) {
    (
        clamp(x, b.min_x as int, b.max_x - b.window_width),
        clamp(y, b.min_y as int, b.max_y - b.window_height),
    )
}

/// Clamps move requests against the tracked screen bounds.
///
/// The host engine applies the returned position to the window; this type
/// only decides what that position is.
pub struct WindowPositioner;

impl WindowPositioner {
    /// Clamps `request` against `bounds`, per axis, into
    /// `[min, max - window size]`. While no bounds are known the request is
    /// dropped (`None`) and the window stays where it is.
    pub fn apply(request: &MoveWindowEvent, bounds: &Option<ScreenBounds>) -> (r: Option<Point>)
        requires
            bounds matches Some(b) ==> b.wf() && b.window_fits(),
        ensures
            bounds is None <==> r is None,
            bounds matches Some(b) ==> {
                &&& r matches Some(q)
                &&& (q.x as int, q.y as int) == clamped_position(*b, request.x as int,
                    request.y as int)
            },
    {
        match bounds {
            None => None,
            Some(b) => {
                let lo_x: i64 = b.min_x as i64;
                let hi_x: i64 = (b.max_x as i64) - (b.window_width as i64);
                let lo_y: i64 = b.min_y as i64;
                let hi_y: i64 = (b.max_y as i64) - (b.window_height as i64);
                let cx: i64 = if request.x < lo_x {
                    lo_x
                } else if request.x > hi_x {
                    hi_x
                } else {
                    request.x
                };
                let cy: i64 = if request.y < lo_y {
                    lo_y
                } else if request.y > hi_y {
                    hi_y
                } else {
                    request.y
                };
                Some(Point { x: cx as i32, y: cy as i32 })
            },
        }
    }

    /// Applies a whole tick's worth of move requests: each one is clamped and
    /// set in turn, so the last request processed determines the final
    /// position. Returns the position the window ends at, or `None` when no
    /// bounds are known or there was no request.
    pub fn apply_all(requests: &Vec<MoveWindowEvent>, bounds: &Option<ScreenBounds>) -> (r: Option<
        Point,
    >)
        requires
            bounds matches Some(b) ==> b.wf() && b.window_fits(),
        ensures
            bounds is None || requests@.len() == 0 ==> r is None,
            bounds matches Some(b) ==> requests@.len() > 0 ==> {
                &&& r matches Some(q)
                &&& (q.x as int, q.y as int) == clamped_position(
                    *b,
                    requests@.last().x as int,
                    requests@.last().y as int,
                )
            },
    {
        let mut result: Option<Point> = None;
        let mut i: usize = 0;
        while i < requests.len()
            invariant
                0 <= i <= requests@.len(),
                bounds matches Some(b) ==> b.wf() && b.window_fits(),
                bounds is None || i == 0 ==> result is None,
                bounds matches Some(b) ==> 0 < i ==> {
                    &&& result matches Some(q)
                    &&& (q.x as int, q.y as int) == clamped_position(
                        *b,
                        requests@[i - 1].x as int,
                        requests@[i - 1].y as int,
                    )
                },
            decreases requests@.len() - i,
        {
            let applied = WindowPositioner::apply(&requests[i], bounds);
            if applied.is_some() {
                result = applied;
            }
            i = i + 1;
        }
        result
    }
}

/// Bounds clamp law: under any well-formed bounds that the window fits in,
/// every requested position is clamped to a point whose x lies in
/// `[min_x, max_x - window_width]` and whose y lies in
/// `[min_y, max_y - window_height]`, so the window's visible rectangle stays
/// inside the union of monitors.
pub proof fn lemma_bounds_clamp(b: ScreenBounds, x: int, y: int)
    requires
        b.wf(),
        b.window_fits(),
    ensures
        b.min_x <= clamped_position(b, x, y).0 <= b.max_x - b.window_width,
        b.min_y <= clamped_position(b, x, y).1 <= b.max_y - b.window_height,
{
}

} // verus!
