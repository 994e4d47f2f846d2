//! 2D vectors and axis-aligned bounding boxes.
//!
//! A bounding box is never stored: it is the tuple `(left, right, bottom,
//! top)` recomputed from an entity's current center and dimensions wherever
//! it is needed, so bounds can never go stale across a position mutation.
use crate::num::WORLD_LIMIT;
use vstd::prelude::*;

verus! {

/// A 2D vector of fixed-point coordinates (subunits).
#[derive(Clone, Copy, Debug, PartialEq, Eq, Structural)]
pub struct Vector2 {
    pub x: i64,
    pub y: i64,
}

impl Vector2 {
    /// Make a vector from its components.
    pub fn new(x: i64, y: i64) -> (r: Vector2)
        ensures
            r.x == x,
            r.y == y,
    {
        Vector2 { x, y }
    }
}

/// Left edge of a box with center abscissa `cx` and width `w`.
pub open spec fn box_left(cx: int, w: int) -> int {
    cx - w / 2
}

/// Right edge of a box with center abscissa `cx` and width `w`.
pub open spec fn box_right(cx: int, w: int) -> int {
    cx + w / 2
}

/// Bottom edge of a box with center ordinate `cy` and height `h`.
pub open spec fn box_bottom(cy: int, h: int) -> int {
    cy - h / 2
}

/// Top edge of a box with center ordinate `cy` and height `h`.
pub open spec fn box_top(cy: int, h: int) -> int {
    cy + h / 2
}

/// The `(left, right, bottom, top)` bounds of a box given by center and
/// dimensions.
pub open spec fn bounds_spec(center: Vector2, w: int, h: int) -> (int, int, int, int) {
    (box_left(center.x as int, w), box_right(center.x as int, w), box_bottom(
        center.y as int,
        h,
    ), box_top(center.y as int, h))
}

/// Closed-interval overlap of two boxes: both the x-intervals and the
/// y-intervals intersect, edge contact included. Edge contact counting as
/// overlap is intentional: it lets the resolver's depth threshold catch
/// contact just before true penetration.
pub open spec fn boxes_overlap(a: (int, int, int, int), b: (int, int, int, int)) -> bool {
    &&& a.0 <= b.1
    &&& b.0 <= a.1
    &&& a.2 <= b.3
    &&& b.2 <= a.3
}

/// Strict interpenetration of two boxes: both the x-intervals and the
/// y-intervals have a positive-length intersection.
pub open spec fn boxes_penetrate(a: (int, int, int, int), b: (int, int, int, int)) -> bool {
    &&& a.0 < b.1
    &&& b.0 < a.1
    &&& a.2 < b.3
    &&& b.2 < a.3
}

/// A closed point-in-box test, matching the overlap test's edges.
pub open spec fn box_contains_point(b: (int, int, int, int), p: Vector2) -> bool {
    &&& b.0 <= p.x <= b.1
    &&& b.2 <= p.y <= b.3
}

/// Exact executable bounds of a box whose center and dimensions are in range.
pub fn compute_bounds(center: Vector2, width: i64, height: i64) -> (r: (i64, i64, i64, i64))
    requires
        0 <= width <= WORLD_LIMIT,
        0 <= height <= WORLD_LIMIT,
        -POS_RANGE <= center.x <= POS_RANGE,
        -POS_RANGE <= center.y <= POS_RANGE,
    ensures
        (r.0 as int, r.1 as int, r.2 as int, r.3 as int) == bounds_spec(
            center,
            width as int,
            height as int,
        ),
{
    let half_w: i64 = width / 2;
    let half_h: i64 = height / 2;
    (center.x - half_w, center.x + half_w, center.y - half_h, center.y + half_h)
}

/// Largest center-coordinate magnitude `compute_bounds` accepts; wide enough
/// for every value a player or obstacle center can take.
pub const POS_RANGE: i64 = 100000000000;

/// Whether `point` lies inside the cached bounds tuple, edges included.
pub fn contains_point_cache_bounds(point: &Vector2, bounds: &(i64, i64, i64, i64)) -> (r: bool)
    ensures
        r == box_contains_point(
            (bounds.0 as int, bounds.1 as int, bounds.2 as int, bounds.3 as int),
            *point,
        ),
{
    bounds.0 <= point.x && point.x <= bounds.1 && bounds.2 <= point.y && point.y <= bounds.3
}

} // verus!
