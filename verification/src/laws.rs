//! The library's stated laws: properties relating several functions, proved
//! once and for all inputs their statements allow.
use crate::num::{is_isqrt, lemma_isqrt_unique, DIST_SCALE, POS_LIMIT};
use crate::obstacle::{
    interp_coord, lemma_interp_in_range, moving_bounds, moving_wf, static_bounds, static_wf,
    total_of, update_spec, MovingObject, StaticObject,
};
use crate::physics::{params_wf, Params};
use crate::player::{body_bounds, body_wf, RigidBody};
use crate::resolve::resolve_one_spec;
use crate::step::jump_spec;
use crate::geom::{boxes_overlap, boxes_penetrate};
use vstd::prelude::*;

verus! {

/// No persistent interpenetration: whenever the player overlaps a static
/// obstacle and at least one of the four edge distances is within the depth
/// threshold — so that the resolver picks a side at all — one resolver pass
/// against that obstacle leaves the player's bounds without positive-length
/// overlap with the obstacle's bounds.
pub proof fn lemma_resolution_separates(p: RigidBody, obs: StaticObject, depth: int)
    requires
        body_wf(p),
        static_wf(obs),
        0 <= depth,
        boxes_overlap(body_bounds(p), static_bounds(obs)),
        body_bounds(p).1 <= static_bounds(obs).0 + depth || body_bounds(p).0 >= static_bounds(
            obs,
        ).1 - depth || body_bounds(p).2 >= static_bounds(obs).3 - depth || body_bounds(p).3
            <= static_bounds(obs).2 + depth,
    ensures
        !boxes_penetrate(
            body_bounds(resolve_one_spec(p, static_bounds(obs), depth, 0).0),
            static_bounds(obs),
        ),
{
    let b = static_bounds(obs);
    let q = resolve_one_spec(p, b, depth, 0).0;
    if body_bounds(p).1 <= b.0 + depth {
        assert(body_bounds(q).1 == b.0);
    } else if body_bounds(p).0 >= b.1 - depth {
        assert(body_bounds(q).0 == b.1);
    } else if body_bounds(p).2 >= b.3 - depth {
        assert(body_bounds(q).2 == b.3);
    } else {
        assert(body_bounds(q).3 == b.2);
    }
}

/// Frame-rate independence of the oscillation: advancing a moving obstacle
/// by `dt1 + dt2` once or by `dt1` then `dt2` yields the same progress,
/// direction and center exactly, as long as the total advance does not run
/// past the targeted endpoint (movement beyond an endpoint within one call
/// is discarded, so runs that overshoot differently may differ).
pub proof fn lemma_oscillation_additive(o: MovingObject, dt1: int, dt2: int)
    requires
        moving_wf(o),
        !o.paused,
        0 <= dt1,
        0 <= dt2,
        o.dir is TowardEnd ==> o.dist + o.speed * (dt1 + dt2) <= total_of(o),
        o.dir is TowardStart ==> o.dist - o.speed * (dt1 + dt2) >= 0,
    ensures
        update_spec(o, dt1 + dt2).dist == update_spec(update_spec(o, dt1), dt2).dist,
        update_spec(o, dt1 + dt2).dir == update_spec(update_spec(o, dt1), dt2).dir,
        update_spec(o, dt1 + dt2).center == update_spec(update_spec(o, dt1), dt2).center,
{
    vstd::arithmetic::mul::lemma_mul_is_distributive_add(o.speed as int, dt1, dt2);
    assert(o.speed * (dt1 + dt2) == o.speed * dt1 + o.speed * dt2);
    vstd::arithmetic::mul::lemma_mul_nonnegative(o.speed as int, dt1);
    vstd::arithmetic::mul::lemma_mul_nonnegative(o.speed as int, dt2);
}

/// Advancing a well-formed moving obstacle yields a well-formed obstacle,
/// whatever the frame time.
pub proof fn lemma_update_preserves_wf(o: MovingObject, dt: int)
    requires
        moving_wf(o),
        0 <= dt,
    ensures
        moving_wf(update_spec(o, dt)),
{
    if !o.paused {
        vstd::arithmetic::mul::lemma_mul_nonnegative(o.speed as int, dt);
        lemma_interp_in_range(o.start.x as int, o.end.x as int, o.dist as int, total_of(o));
        lemma_interp_in_range(o.start.y as int, o.end.y as int, o.dist as int, total_of(o));
        lemma_interp_in_range(
            o.start.x as int,
            o.end.x as int,
            update_spec(o, dt).dist as int,
            total_of(o),
        );
        lemma_interp_in_range(
            o.start.y as int,
            o.end.y as int,
            update_spec(o, dt).dist as int,
            total_of(o),
        );
    }
}

/// A run of obstacle updates, one per frame.
pub open spec fn update_many(o: MovingObject, dts: Seq<int>) -> MovingObject
    decreases dts.len(),
{
    if dts.len() == 0 {
        o
    } else {
        update_many(update_spec(o, dts[0]), dts.drop_first())
    }
}

/// The full frame-rate independence of the oscillation: splitting a total
/// elapsed time into any run of frames yields the same progress, direction
/// and center as advancing once by the total, as long as the total advance
/// does not run past the targeted endpoint.
pub proof fn lemma_oscillation_subdivision(o: MovingObject, dts: Seq<int>)
    requires
        moving_wf(o),
        !o.paused,
        forall|i: int| 0 <= i < dts.len() ==> dts[i] >= 0,
        o.dir is TowardEnd ==> o.dist + o.speed * total_time(dts) <= total_of(o),
        o.dir is TowardStart ==> o.dist - o.speed * total_time(dts) >= 0,
    ensures
        update_many(o, dts).dist == update_spec(o, total_time(dts)).dist,
        update_many(o, dts).dir == update_spec(o, total_time(dts)).dir,
        update_many(o, dts).center == update_spec(o, total_time(dts)).center,
    decreases dts.len(),
{
    lemma_total_time_nonneg(dts);
    vstd::arithmetic::mul::lemma_mul_nonnegative(o.speed as int, total_time(dts));
    if dts.len() == 0 {
        // one zero-length step does not move or flip
        vstd::arithmetic::mul::lemma_mul_basics(o.speed as int);
        lemma_interp_in_range(o.start.x as int, o.end.x as int, o.dist as int, total_of(o));
        lemma_interp_in_range(o.start.y as int, o.end.y as int, o.dist as int, total_of(o));
    } else {
        let rest = dts.drop_first();
        assert(forall|i: int| 0 <= i < rest.len() ==> rest[i] == dts[i + 1] && dts[i + 1] >= 0);
        lemma_total_time_nonneg(rest);
        let o1 = update_spec(o, dts[0]);
        lemma_update_preserves_wf(o, dts[0]);
        vstd::arithmetic::mul::lemma_mul_is_distributive_add(
            o.speed as int,
            dts[0],
            total_time(rest),
        );
        vstd::arithmetic::mul::lemma_mul_nonnegative(o.speed as int, dts[0]);
        vstd::arithmetic::mul::lemma_mul_nonnegative(o.speed as int, total_time(rest));
        lemma_oscillation_additive(o, dts[0], total_time(rest));
        if o1.dir != o.dir {
            // the first frame reached the endpoint exactly; the remaining
            // travel must be zero, so the rest of the run stands still
            assert(o.speed * total_time(rest) == 0);
        }
        lemma_oscillation_subdivision(o1, rest);
    }
}

/// The total elapsed time of nonnegative frame times is nonnegative.
pub proof fn lemma_total_time_nonneg(dts: Seq<int>)
    requires
        forall|i: int| 0 <= i < dts.len() ==> dts[i] >= 0,
    ensures
        total_time(dts) >= 0,
    decreases dts.len(),
{
    if dts.len() > 0 {
        let rest = dts.drop_first();
        assert(forall|i: int| 0 <= i < rest.len() ==> rest[i] == dts[i + 1] && dts[i + 1] >= 0);
        lemma_total_time_nonneg(rest);
    }
}

/// The buffer countdown after one frame's decay: `dt` is subtracted, the
/// result floored at zero.
pub open spec fn buffer_decay(b: int, dt: int) -> int {
    if b - dt > 0 {
        b - dt
    } else {
        0
    }
}

/// Decaying a buffer twice is decaying it once by the total elapsed time:
/// the jump window is frame-rate independent.
pub proof fn lemma_buffer_decay_additive(b: int, dt1: int, dt2: int)
    requires
        0 <= dt1,
        0 <= dt2,
    ensures
        buffer_decay(buffer_decay(b, dt1), dt2) == buffer_decay(b, dt1 + dt2),
{
}

/// The buffer countdown after a run of airborne frames of the given frame
/// times, during which no jump is pressed and the player never grounds.
pub open spec fn airborne_buffer(b: int, dts: Seq<int>) -> int
    decreases dts.len(),
{
    if dts.len() == 0 {
        b
    } else {
        airborne_buffer(buffer_decay(b, dts[0]), dts.drop_first())
    }
}

/// The total elapsed time of a run of frames.
pub open spec fn total_time(dts: Seq<int>) -> int
    decreases dts.len(),
{
    if dts.len() == 0 {
        0
    } else {
        dts[0] + total_time(dts.drop_first())
    }
}

/// A run of airborne frames decays the buffer by exactly the total elapsed
/// time, floored at zero.
pub proof fn lemma_airborne_buffer(b: int, dts: Seq<int>)
    requires
        0 <= b,
        forall|i: int| 0 <= i < dts.len() ==> dts[i] >= 0,
    ensures
        airborne_buffer(b, dts) == buffer_decay(b, total_time(dts)),
        total_time(dts) >= 0,
    decreases dts.len(),
{
    if dts.len() == 0 {
    } else {
        let rest = dts.drop_first();
        assert(forall|i: int| 0 <= i < rest.len() ==> rest[i] == dts[i + 1] && dts[i + 1] >= 0);
        lemma_airborne_buffer(buffer_decay(b, dts[0]), rest);
        lemma_buffer_decay_additive(b, dts[0], total_time(rest));
    }
}

/// An airborne frame of the jump logic — not grounded, not under a ceiling,
/// no press — only decays the buffer and touches nothing else.
pub proof fn lemma_airborne_frame(
    p: RigidBody,
    buffer: int,
    stuck: Option<int>,
    dt: int,
    params: Params,
)
    ensures
        jump_spec(p, buffer, stuck, false, false, false, dt, params) == (
        p,
        buffer_decay(buffer, dt),
        stuck,
        ),
{
}

/// Jump buffering: a jump press starts the buffer at its configured
/// duration; if the player becomes grounded while the window is still open —
/// the elapsed time of the airborne frames plus the landing frame's own decay
/// stays below the configured duration — the landing frame fires the jump:
/// the vertical velocity becomes the jump impulse, the buffer is spent and
/// the player detaches from any platform. If the window has expired by then,
/// no jump fires and the landing clamps the vertical velocity to the contact
/// value instead.
pub proof fn lemma_jump_buffering(
    p: RigidBody,
    stuck: Option<int>,
    under: bool,
    dts: Seq<int>,
    dt_land: int,
    params: Params,
)
    requires
        params_wf(params),
        forall|i: int| 0 <= i < dts.len() ==> dts[i] >= 0,
        0 <= dt_land,
    ensures
        ({
            let landing = jump_spec(
                p,
                airborne_buffer(params.jump_buffer as int, dts),
                stuck,
                true,
                under,
                false,
                dt_land,
                params,
            );
            &&& (params.jump_buffer - total_time(dts) - dt_land > 0 ==> landing
                == (
            RigidBody {
                velocity: crate::geom::Vector2 { x: p.velocity.x, y: params.jump_force },
                ..p
            },
            0int,
            Option::<int>::None,
            ))
            &&& (params.jump_buffer - total_time(dts) - dt_land <= 0 ==> landing.0.velocity.y
                == params.contact_velocity && landing.1 == 0)
        }),
{
    lemma_airborne_buffer(params.jump_buffer as int, dts);
    lemma_buffer_decay_additive(params.jump_buffer as int, total_time(dts), dt_land);
}

/// Landing on a moving obstacle translates the player horizontally by
/// exactly the obstacle's last displacement: when the landing branch of the
/// resolver fires and the result stays in the representable range, the new
/// center abscissa is the old one plus `prev_move.x`, on top of whatever
/// integration and input already produced.
pub proof fn lemma_stuck_platform_displacement(p: RigidBody, o: MovingObject, depth: int)
    requires
        body_wf(p),
        moving_wf(o),
        0 <= depth,
        boxes_overlap(body_bounds(p), moving_bounds(o)),
        !(body_bounds(p).1 <= moving_bounds(o).0 + depth),
        !(body_bounds(p).0 >= moving_bounds(o).1 - depth),
        body_bounds(p).2 >= moving_bounds(o).3 - depth,
        -POS_LIMIT <= p.center.x + o.prev_move.x <= POS_LIMIT,
    ensures
        resolve_one_spec(p, moving_bounds(o), depth, o.prev_move.x as int).0.center.x == p.center.x
            + o.prev_move.x,
        resolve_one_spec(p, moving_bounds(o), depth, o.prev_move.x as int).1,
{
}

/// For a purely horizontal obstacle heading right, one update's recorded
/// displacement is exactly `speed * dt` of path progress, converted to
/// subunits — provided the update stays on the segment and both the prior
/// and the advanced progress fall on whole subunits (no fixed-point
/// truncation).
pub proof fn lemma_horizontal_platform_displacement(o: MovingObject, dt: int)
    requires
        moving_wf(o),
        !o.paused,
        0 <= dt,
        o.start.y == o.end.y,
        o.end.x > o.start.x,
        o.dir is TowardEnd,
        o.dist + o.speed * dt <= total_of(o),
        o.dist as int % (DIST_SCALE as int) == 0,
        (o.speed * dt) % (DIST_SCALE as int) == 0,
    ensures
        update_spec(o, dt).prev_move.x == (o.speed * dt) / (DIST_SCALE as int),
        update_spec(o, dt).prev_move.y == 0,
{
    let dx = o.end.x - o.start.x;
    assert(is_isqrt(dx * dx, dx)) by (nonlinear_arith)
        requires
            dx >= 1,
    ;
    assert(dx * dx + (o.end.y - o.start.y) * (o.end.y - o.start.y) == dx * dx);
    lemma_isqrt_unique(dx * dx, o.seg_len as int, dx);
    assert(o.seg_len == dx);
    let total = total_of(o);
    assert(total == dx * (DIST_SCALE as int));
    let traveled = o.speed * dt;
    vstd::arithmetic::mul::lemma_mul_nonnegative(o.speed as int, dt);
    let nd = o.dist + traveled;
    assert(update_spec(o, dt).dist == nd);
    lemma_exact_horizontal_interp(o.start.x as int, dx, o.dist as int);
    lemma_exact_horizontal_interp(o.start.x as int, dx, nd);
    assert(o.center.x == o.start.x + o.dist as int / (DIST_SCALE as int));
    assert(update_spec(o, dt).center.x == o.start.x + nd as int / (DIST_SCALE as int));
    vstd::arithmetic::div_mod::lemma_mod_adds(o.dist as int, traveled, DIST_SCALE as int);
    vstd::arithmetic::div_mod::lemma_fundamental_div_mod(o.dist as int, DIST_SCALE as int);
    vstd::arithmetic::div_mod::lemma_fundamental_div_mod(traveled, DIST_SCALE as int);
    vstd::arithmetic::div_mod::lemma_fundamental_div_mod(nd, DIST_SCALE as int);
    assert(nd as int / (DIST_SCALE as int) == o.dist as int / (DIST_SCALE as int) + traveled / (DIST_SCALE as int)) by (nonlinear_arith)
        requires
            nd == o.dist + traveled,
            o.dist as int % (DIST_SCALE as int) == 0,
            traveled % (DIST_SCALE as int) == 0,
            nd as int % (DIST_SCALE as int) == 0,
            o.dist == (DIST_SCALE as int) * (o.dist as int / (DIST_SCALE as int)) + o.dist as int % (DIST_SCALE as int),
            traveled == (DIST_SCALE as int) * (traveled / (DIST_SCALE as int)) + traveled % (DIST_SCALE as int),
            nd == (DIST_SCALE as int) * (nd as int / (DIST_SCALE as int)) + nd as int % (DIST_SCALE as int),
            (DIST_SCALE as int) > 0,
    ;
    assert(update_spec(o, dt).prev_move.y == 0) by {
        assert(interp_coord(o.start.y as int, o.end.y as int, nd, total) == o.start.y);
        assert(o.center.y == o.start.y);
    }
}

/// On a horizontal segment whose progress is a whole number of subunits, the
/// interpolated abscissa is exactly `start + dist / (DIST_SCALE as int)`.
proof fn lemma_exact_horizontal_interp(sx: int, dx: int, dist: int)
    requires
        dx >= 1,
        0 <= dist,
        dist % (DIST_SCALE as int) == 0,
    ensures
        sx + dx * dist / (dx * (DIST_SCALE as int)) == sx + dist / (DIST_SCALE as int),
{
    let k = dist / (DIST_SCALE as int);
    vstd::arithmetic::div_mod::lemma_fundamental_div_mod(dist, DIST_SCALE as int);
    assert(dist == DIST_SCALE * k);
    assert(dx * dist == (dx * (DIST_SCALE as int)) * k) by (nonlinear_arith)
        requires
            dist == DIST_SCALE * k,
    ;
    vstd::arithmetic::mul::lemma_mul_nonnegative(dx, DIST_SCALE as int);
    vstd::arithmetic::div_mod::lemma_div_multiples_vanish(k, dx * (DIST_SCALE as int));
}

} // verus!
