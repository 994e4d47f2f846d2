//! The player's kinematic rectangle: position, dimensions and velocity.
use crate::geom::{bounds_spec, boxes_overlap, compute_bounds, Vector2};
use crate::num::{clamp_i64, clamp_spec, POS_LIMIT, VEL_LIMIT, WORLD_LIMIT};
use vstd::prelude::*;

verus! {

/// The controllable kinematic rectangle. Its center is mutated every frame
/// by the integrator (vertical), by player input (horizontal) and by the
/// collision resolver (position correction, vertical velocity override).
#[derive(Clone, Copy, Debug, PartialEq, Eq, Structural)]
pub struct RigidBody {
    pub center: Vector2,
    pub width: i64,
    pub height: i64,
    pub velocity: Vector2,
}

/// Well-formedness of a player body: center within the saturation range,
/// nonnegative in-range dimensions, velocity within the saturation range.
pub open spec fn body_wf(b: RigidBody) -> bool {
    &&& -POS_LIMIT <= b.center.x <= POS_LIMIT
    &&& -POS_LIMIT <= b.center.y <= POS_LIMIT
    &&& 0 <= b.width <= WORLD_LIMIT
    &&& 0 <= b.height <= WORLD_LIMIT
    &&& -VEL_LIMIT <= b.velocity.x <= VEL_LIMIT
    &&& -VEL_LIMIT <= b.velocity.y <= VEL_LIMIT
}

/// The bounds of a body at its current center.
pub open spec fn body_bounds(b: RigidBody) -> (int, int, int, int) {
    bounds_spec(b.center, b.width as int, b.height as int)
}

impl RigidBody {
    /// A zero-sized body at the origin, at rest.
    pub fn new() -> (r: RigidBody)
        ensures
            r.center == (Vector2 { x: 0, y: 0 }),
            r.width == 0,
            r.height == 0,
            r.velocity == (Vector2 { x: 0, y: 0 }),
            body_wf(r),
    {
        RigidBody {
            center: Vector2 { x: 0, y: 0 },
            width: 0,
            height: 0,
            velocity: Vector2 { x: 0, y: 0 },
        }
    }

    /// The body's `(left, right, bottom, top)` bounds, recomputed from the
    /// current center.
    pub fn bounds(&self) -> (r: (i64, i64, i64, i64))
        requires
            body_wf(*self),
        ensures
            (r.0 as int, r.1 as int, r.2 as int, r.3 as int) == body_bounds(*self),
    {
        compute_bounds(self.center, self.width, self.height)
    }

    /// Translate the center by `delta`, each coordinate saturating at the
    /// representable position range.
    pub fn move_by(&mut self, delta: &Vector2)
        requires
            body_wf(*old(self)),
        ensures
            *final(self) == (RigidBody {
                center: Vector2 {
                    x: clamp_spec(old(self).center.x + delta.x, POS_LIMIT as int) as i64,
                    y: clamp_spec(old(self).center.y + delta.y, POS_LIMIT as int) as i64,
                },
                ..*old(self)
            }),
            body_wf(*final(self)),
    {
        let nx: i128 = (self.center.x as i128) + (delta.x as i128);
        let ny: i128 = (self.center.y as i128) + (delta.y as i128);
        self.center.x = clamp_i128_pos(nx);
        self.center.y = clamp_i128_pos(ny);
    }

    /// Whether this body's bounds overlap the given obstacle bounds, edge
    /// contact included.
    pub fn collides_with(&self, bounds: &(i64, i64, i64, i64)) -> (r: bool)
        requires
            body_wf(*self),
        ensures
            r == boxes_overlap(
                body_bounds(*self),
                (bounds.0 as int, bounds.1 as int, bounds.2 as int, bounds.3 as int),
            ),
    {
        let own = self.bounds();
        own.0 <= bounds.1 && bounds.0 <= own.1 && own.2 <= bounds.3 && bounds.2 <= own.3
    }

    /// Whether this body's x-interval overlaps the given obstacle bounds'
    /// x-interval, edge contact included.
    pub fn collides_with_x(&self, bounds: &(i64, i64, i64, i64)) -> (r: bool)
        requires
            body_wf(*self),
        ensures
            r == (body_bounds(*self).0 <= bounds.1 && bounds.0 <= body_bounds(*self).1),
    {
        let own = self.bounds();
        own.0 <= bounds.1 && bounds.0 <= own.1
    }
}

/// Clamp an `i128` position coordinate into the `i64` position range.
fn clamp_i128_pos(v: i128) -> (r: i64)
    ensures
        r == clamp_spec(v as int, POS_LIMIT as int),
{
    if v < -(POS_LIMIT as i128) {
        -POS_LIMIT
    } else if v > POS_LIMIT as i128 {
        POS_LIMIT
    } else {
        v as i64
    }
}

} // verus!
