use vstd::prelude::*;

verus! {

/// Where the pointer is: on the root window and on the window under it.
#[derive(Debug, Copy, Clone, PartialEq, Eq, Structural)]
pub struct PointerInfo {
    pub root_x: i32,
    pub root_y: i32,
    pub win_x: i32,
    pub win_y: i32,
}

/// The size of the region the pointer may be placed in.
#[derive(Debug, Copy, Clone, PartialEq, Eq, Structural)]
pub struct WindowInfo {
    pub width: i32,
    pub height: i32,
}

impl WindowInfo {
    /// Bounds that describe a region: neither side is negative.
    pub open spec fn wf(&self) -> bool {
        self.width >= 0 && self.height >= 0
    }
}

/// `v` moved into `[0, hi]`.
pub open spec fn clamp_axis(v: int, hi: int) -> int {
    if v > hi {
        hi
    } else if v < 0 {
        0
    } else {
        v
    }
}

/// The position that a commit sends to the display: the current position
/// moved by the pending offset, each axis clamped on its own.
pub open spec fn committed_position(
    current: PointerInfo,
    dx: int,
    dy: int,
    bounds: WindowInfo,
) -> (int, int) {
    (
        clamp_axis(current.root_x + dx, bounds.width as int),
        clamp_axis(current.root_y + dy, bounds.height as int),
    )
}

/// `v` moved into `[0, hi]`, computed without overflow.
pub fn clamp_coordinate(v: i64, hi: i32) -> (r: i32)
    requires
        hi >= 0,
    ensures
        r == clamp_axis(v as int, hi as int),
{
    if v > hi as i64 {
        hi
    } else if v < 0 {
        0
    } else {
        v as i32
    }
}

/// Pointer motion gathered during one tick, not yet sent to the display.
pub struct PointerAccumulator {
    pub x_offset: i32,
    pub y_offset: i32,
}

impl PointerAccumulator {
    /// No pending motion.
    pub fn new() -> (r: PointerAccumulator)
        ensures
            r.x_offset == 0,
            r.y_offset == 0,
    {
        PointerAccumulator { x_offset: 0, y_offset: 0 }
    }

    /// Adds `(dx, dy)` to the pending motion.
    pub fn accumulate(&mut self, dx: i32, dy: i32)
        requires
            i32::MIN <= old(self).x_offset + dx <= i32::MAX,
            i32::MIN <= old(self).y_offset + dy <= i32::MAX,
        ensures
            final(self).x_offset == old(self).x_offset + dx,
            final(self).y_offset == old(self).y_offset + dy,
    {
        self.x_offset = self.x_offset + dx;
        self.y_offset = self.y_offset + dy;
    }

    /// The position to send to the display: `current` moved by the pending
    /// motion, each axis clamped to `[0, bound]` on its own. The pending motion
    /// is reset to zero.
    pub fn commit(&mut self, current: PointerInfo, bounds: WindowInfo) -> (r: (i32, i32))
        requires
            bounds.wf(),
        ensures
            (r.0 as int, r.1 as int) == committed_position(
                current,
                old(self).x_offset as int,
                old(self).y_offset as int,
                bounds,
            ),
            final(self).x_offset == 0,
            final(self).y_offset == 0,
    {
        let x = clamp_coordinate(current.root_x as i64 + self.x_offset as i64, bounds.width);
        let y = clamp_coordinate(current.root_y as i64 + self.y_offset as i64, bounds.height);
        self.x_offset = 0;
        self.y_offset = 0;
        (x, y)
    }
}

/// A commit whose target lies within the bounds lands exactly on it.
pub proof fn lemma_commit_unclamped(current: PointerInfo, dx: int, dy: int, bounds: WindowInfo)
    requires
        bounds.wf(),
        0 <= current.root_x + dx <= bounds.width,
        0 <= current.root_y + dy <= bounds.height,
    ensures
        committed_position(current, dx, dy, bounds) == (current.root_x + dx, current.root_y + dy),
{
}

/// A commit that overshoots the width lands on the width, and its vertical
/// coordinate is the one the vertical axis gives alone: the clamp of one axis
/// leaves the other untouched.
pub proof fn lemma_commit_clamps_one_axis(current: PointerInfo, dx: int, dy: int, bounds: WindowInfo)
    requires
        bounds.wf(),
        current.root_x + dx > bounds.width,
    ensures
        committed_position(current, dx, dy, bounds).0 == bounds.width,
        committed_position(current, dx, dy, bounds).1 == clamp_axis(
            current.root_y + dy,
            bounds.height as int,
        ),
        0 <= current.root_y + dy <= bounds.height ==> committed_position(current, dx, dy, bounds).1
            == current.root_y + dy,
{
}

/// The same holds of the vertical axis against the height.
pub proof fn lemma_commit_clamps_other_axis(
    current: PointerInfo,
    dx: int,
    dy: int,
    bounds: WindowInfo,
)
    requires
        bounds.wf(),
        current.root_y + dy > bounds.height,
    ensures
        committed_position(current, dx, dy, bounds).1 == bounds.height,
        0 <= current.root_x + dx <= bounds.width ==> committed_position(current, dx, dy, bounds).0
            == current.root_x + dx,
{
}

} // verus!
