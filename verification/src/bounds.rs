//! Axis-aligned rectangle value type, the geometric primitive used by the
//! projection and layout components.
//!
//! A `Bounds` stores its four edges as integer grid coordinates following the
//! surface convention: `top` is the smaller vertical coordinate and `bottom`
//! the larger one, so width and height are always non-negative. A rectangle is
//! treated as the half-open point set `[left, right) x [top, bottom)`, which
//! lets adjacent rectangles tile a region without overlap.

use vstd::prelude::*;

verus! {

/// An axis-aligned rectangle with integer corners.
///
/// Invariant: `left <= right` and `top <= bottom`, so the rectangle never has
/// a negative extent. A zero-width or zero-height rectangle is valid and
/// contains no points.
#[derive(Clone, Copy, Debug, PartialEq, Eq, Structural)]
pub struct Bounds {
    pub left: i64,
    pub top: i64,
    pub right: i64,
    pub bottom: i64,
}

impl Bounds {
    /// Well-formedness: edges are ordered so extents are non-negative, and
    /// each extent fits in the machine integer that `width` and `height`
    /// return.
    pub open spec fn wf(self) -> bool {
        &&& self.left <= self.right
        &&& self.top <= self.bottom
        &&& self.right - self.left <= i64::MAX
        &&& self.bottom - self.top <= i64::MAX
    }

    /// The half-open point set of the rectangle contains `(x, y)`.
    pub open spec fn holds_point(self, x: int, y: int) -> bool {
        self.left <= x < self.right && self.top <= y < self.bottom
    }

    pub open spec fn spec_width(self) -> int {
        self.right - self.left
    }

    pub open spec fn spec_height(self) -> int {
        self.bottom - self.top
    }

    /// Builds a rectangle from two corner points.
    pub fn from_points(left: i64, top: i64, right: i64, bottom: i64) -> (r: Bounds)
        requires
            left <= right,
            top <= bottom,
            right - left <= i64::MAX,
            bottom - top <= i64::MAX,
        ensures
            r == (Bounds { left, top, right, bottom }),
            r.wf(),
    {
        Bounds { left, top, right, bottom }
    }

    /// Builds a rectangle of the given size with its top-left corner at the
    /// origin.
    pub fn from_size(width: u32, height: u32) -> (r: Bounds)
        ensures
            r == (Bounds { left: 0i64, top: 0i64, right: width as i64, bottom: height as i64 }),
            r.wf(),
            r.spec_width() == width,
            r.spec_height() == height,
    {
        Bounds { left: 0, top: 0, right: width as i64, bottom: height as i64 }
    }

    pub fn left_x(&self) -> (r: i64)
        ensures
            r == self.left,
    {
        self.left
    }

    pub fn top_y(&self) -> (r: i64)
        ensures
            r == self.top,
    {
        self.top
    }

    pub fn right_x(&self) -> (r: i64)
        ensures
            r == self.right,
    {
        self.right
    }

    pub fn bottom_y(&self) -> (r: i64)
        ensures
            r == self.bottom,
    {
        self.bottom
    }

    pub fn width(&self) -> (r: i64)
        requires
            self.wf(),
        ensures
            r == self.spec_width(),
            r >= 0,
    {
        self.right - self.left
    }

    pub fn height(&self) -> (r: i64)
        requires
            self.wf(),
        ensures
            r == self.spec_height(),
            r >= 0,
    {
        self.bottom - self.top
    }
}

} // verus!
