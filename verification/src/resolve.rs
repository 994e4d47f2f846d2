//! The collision resolver.
//!
//! For the player and every obstacle — all moving obstacles first, then all
//! static obstacles, a fixed evaluation order — an overlap is classified and
//! resolved along one axis. The tie-break priority is fixed: push left, push
//! right, land on top, bump the ceiling; the first side whose edge distance
//! is within the depth threshold wins, which favors not letting the player
//! clip sideways into the fronts of platforms it is landing on. Later
//! obstacles can override an earlier correction; this is an accepted
//! approximation, not an exact contact solver.
use crate::geom::{boxes_overlap, Vector2};
use crate::num::{clamp_spec, POS_LIMIT, WORLD_LIMIT};
use crate::obstacle::{
    lemma_moving_center_in_range, moving_bounds, moving_wf, static_bounds, static_wf, MovingObject,
    StaticObject,
};
use crate::player::{body_bounds, body_wf, RigidBody};
use vstd::prelude::*;

verus! {

/// The result of resolving the player against the bounds of one obstacle,
/// with `carry_x` the horizontal displacement a landing inherits (a moving
/// obstacle's last delta; zero for a static obstacle): the corrected body,
/// whether the player landed on the obstacle, and whether it hit the
/// obstacle's underside.
pub open spec fn resolve_one_spec(
    p: RigidBody,
    b: (int, int, int, int),
    depth: int,
    carry_x: int,
) -> (RigidBody, bool, bool) {
    let pb = body_bounds(p);
    if !boxes_overlap(pb, b) {
        (p, false, false)
    } else if pb.1 <= b.0 + depth {
        (
            RigidBody {
                center: Vector2 { x: (b.0 - p.width / 2) as i64, y: p.center.y },
                ..p
            },
            false,
            false,
        )
    } else if pb.0 >= b.1 - depth {
        (
            RigidBody {
                center: Vector2 { x: (b.1 + p.width / 2) as i64, y: p.center.y },
                ..p
            },
            false,
            false,
        )
    } else if pb.2 >= b.3 - depth {
        (
            RigidBody {
                center: Vector2 {
                    x: clamp_spec(p.center.x + carry_x, POS_LIMIT as int) as i64,
                    y: (b.3 + p.height / 2) as i64,
                },
                ..p
            },
            true,
            false,
        )
    } else if pb.3 <= b.2 + depth {
        (
            RigidBody {
                center: Vector2 { x: p.center.x, y: (b.2 - p.height / 2) as i64 },
                ..p
            },
            false,
            true,
        )
    } else {
        (p, false, false)
    }
}

/// Resolve the player against one obstacle's bounds. Returns whether the
/// player landed on the obstacle and whether it hit the obstacle's underside.
pub fn resolve_against(p: &mut RigidBody, b: &(i64, i64, i64, i64), depth: i64, carry_x: i64) -> (r:
    (bool, bool))
    requires
        body_wf(*old(p)),
        -2 * WORLD_LIMIT <= b.0 <= 2 * WORLD_LIMIT,
        -2 * WORLD_LIMIT <= b.1 <= 2 * WORLD_LIMIT,
        -2 * WORLD_LIMIT <= b.2 <= 2 * WORLD_LIMIT,
        -2 * WORLD_LIMIT <= b.3 <= 2 * WORLD_LIMIT,
        0 <= depth <= WORLD_LIMIT,
        -2 * WORLD_LIMIT <= carry_x <= 2 * WORLD_LIMIT,
    ensures
        (*final(p), r.0, r.1) == resolve_one_spec(
            *old(p),
            (b.0 as int, b.1 as int, b.2 as int, b.3 as int),
            depth as int,
            carry_x as int,
        ),
        body_wf(*final(p)),
{
    let pb = p.bounds();
    if !(pb.0 <= b.1 && b.0 <= pb.1 && pb.2 <= b.3 && b.2 <= pb.3) {
        (false, false)
    } else if pb.1 <= b.0 + depth {
        p.center.x = b.0 - p.width / 2;
        (false, false)
    } else if pb.0 >= b.1 - depth {
        p.center.x = b.1 + p.width / 2;
        (false, false)
    } else if pb.2 >= b.3 - depth {
        let nx: i128 = (p.center.x as i128) + (carry_x as i128);
        p.center.x = if nx < -(POS_LIMIT as i128) {
            -POS_LIMIT
        } else if nx > POS_LIMIT as i128 {
            POS_LIMIT
        } else {
            nx as i64
        };
        p.center.y = b.3 + p.height / 2;
        (true, false)
    } else if pb.3 <= b.2 + depth {
        p.center.y = b.2 - p.height / 2;
        (false, true)
    } else {
        (false, false)
    }
}

/// The ghost view of an optional stuck-platform index.
pub open spec fn stuck_view(s: Option<usize>) -> Option<int> {
    match s {
        Option::Some(i) => Option::Some(i as int),
        Option::None => Option::None,
    }
}

/// Resolve the player against the moving obstacles from index `i` on, in
/// order, folding the grounded / ceiling flags and remembering the last
/// obstacle landed on.
pub open spec fn resolve_moving_from(
    p: RigidBody,
    on: bool,
    under: bool,
    stuck: Option<int>,
    objs: Seq<MovingObject>,
    depth: int,
    i: int,
) -> (RigidBody, bool, bool, Option<int>)
    decreases objs.len() - i,
{
    if i < 0 || i >= objs.len() {
        (p, on, under, stuck)
    } else {
        let r = resolve_one_spec(p, moving_bounds(objs[i]), depth, objs[i].prev_move.x as int);
        resolve_moving_from(
            r.0,
            on || r.1,
            under || r.2,
            if r.1 {
                Option::Some(i)
            } else {
                stuck
            },
            objs,
            depth,
            i + 1,
        )
    }
}

/// Resolve the player against the static obstacles from index `i` on, in
/// order, folding the grounded / ceiling flags.
pub open spec fn resolve_static_from(
    p: RigidBody,
    on: bool,
    under: bool,
    objs: Seq<StaticObject>,
    depth: int,
    i: int,
) -> (RigidBody, bool, bool)
    decreases objs.len() - i,
{
    if i < 0 || i >= objs.len() {
        (p, on, under)
    } else {
        let r = resolve_one_spec(p, static_bounds(objs[i]), depth, 0);
        resolve_static_from(r.0, on || r.1, under || r.2, objs, depth, i + 1)
    }
}

/// The full resolver pass: every moving obstacle in order, then every static
/// obstacle in order.
pub open spec fn resolve_all_spec(
    p: RigidBody,
    movings: Seq<MovingObject>,
    statics: Seq<StaticObject>,
    depth: int,
) -> (RigidBody, bool, bool, Option<int>) {
    let m = resolve_moving_from(p, false, false, Option::None, movings, depth, 0);
    let s = resolve_static_from(m.0, m.1, m.2, statics, depth, 0);
    (s.0, s.1, s.2, m.3)
}

/// All moving obstacles of a level are well-formed.
pub open spec fn movings_wf(objs: Seq<MovingObject>) -> bool {
    forall|i: int| 0 <= i < objs.len() ==> moving_wf(#[trigger] objs[i])
}

/// All static obstacles of a level are well-formed.
pub open spec fn statics_wf(objs: Seq<StaticObject>) -> bool {
    forall|i: int| 0 <= i < objs.len() ==> static_wf(#[trigger] objs[i])
}

/// Resolve the player against every obstacle, moving obstacles first, then
/// static obstacles. Returns the per-frame grounded and ceiling flags and
/// the index of the moving obstacle the player landed on, if any.
pub fn resolve_collisions(
    p: &mut RigidBody,
    movings: &Vec<MovingObject>,
    statics: &Vec<StaticObject>,
    depth: i64,
) -> (r: (bool, bool, Option<usize>))
    requires
        body_wf(*old(p)),
        movings_wf(movings@),
        statics_wf(statics@),
        0 <= depth <= WORLD_LIMIT,
    ensures
        (*final(p), r.0, r.1, stuck_view(r.2)) == resolve_all_spec(
            *old(p),
            movings@,
            statics@,
            depth as int,
        ),
        body_wf(*final(p)),
        r.2 is Some ==> r.2->0 < movings.len(),
{
    let ghost p0 = *p;
    let mut on: bool = false;
    let mut under: bool = false;
    let mut stuck: Option<usize> = None;
    let mut i: usize = 0;
    while i < movings.len()
        invariant
            body_wf(*p),
            movings_wf(movings@),
            0 <= i <= movings.len(),
            stuck is Some ==> stuck->0 < i,
            resolve_moving_from(*p, on, under, stuck_view(stuck), movings@, depth as int, i as int)
                == resolve_moving_from(
                p0,
                false,
                false,
                Option::None,
                movings@,
                depth as int,
                0,
            ),
            0 <= depth <= WORLD_LIMIT,
        decreases movings.len() - i,
    {
        let obj = &movings[i];
        proof {
            lemma_moving_center_in_range(*obj);
        }
        let b = obj.bounds();
        let res = resolve_against(p, &b, depth, obj.prev_move.x);
        if res.0 {
            on = true;
            stuck = Some(i);
        }
        if res.1 {
            under = true;
        }
        i = i + 1;
    }
    let ghost mid = resolve_moving_from(p0, false, false, Option::None, movings@, depth as int, 0);
    let mut j: usize = 0;
    while j < statics.len()
        invariant
            body_wf(*p),
            statics_wf(statics@),
            0 <= j <= statics.len(),
            resolve_static_from(*p, on, under, statics@, depth as int, j as int)
                == resolve_static_from(mid.0, mid.1, mid.2, statics@, depth as int, 0),
            stuck_view(stuck) == mid.3,
            stuck is Some ==> stuck->0 < movings.len(),
            0 <= depth <= WORLD_LIMIT,
        decreases statics.len() - j,
    {
        let obj = &statics[j];
        let b = obj.bounds();
        let res = resolve_against(p, &b, depth, 0);
        if res.0 {
            on = true;
        }
        if res.1 {
            under = true;
        }
        j = j + 1;
    }
    (on, under, stuck)
}

} // verus!
