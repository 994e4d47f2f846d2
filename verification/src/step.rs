//! One simulation frame: integration, input, obstacle advance, stuck-platform
//! ride, collision resolution, jump buffering and respawn, in the fixed order
//! the contracts below spell out. The ephemeral carry-over state (jump-buffer
//! countdown and stuck-platform reference) is threaded through each step by
//! value and returned updated.
use crate::geom::Vector2;
use crate::num::{BUFFER_LIMIT, DT_LIMIT, POS_LIMIT, WORLD_LIMIT};
use crate::obstacle::{
    lemma_moving_center_in_range, moving_bounds, moving_wf, update_spec, MovingObject,
    StaticObject,
};
use crate::physics::{
    apply_horizontal, gravity_for, gravity_for_spec, horizontal_spec, integrate_spec,
    integrate_vertical, params_wf, Params,
};
use crate::player::{body_bounds, body_wf, RigidBody};
use crate::resolve::{
    movings_wf, resolve_all_spec, resolve_collisions, statics_wf, stuck_view,
};
use vstd::prelude::*;

verus! {

/// The player's intent for one frame, as plain values: held left / right /
/// run modifiers and the edge-triggered jump press.
#[derive(Clone, Copy, Debug, PartialEq, Eq, Structural)]
pub struct FrameInput {
    pub left: bool,
    pub right: bool,
    pub run: bool,
    pub jump_pressed: bool,
}

/// The short-lived state carried from one frame to the next: the jump-buffer
/// countdown (in ticks, floored at zero) and the moving obstacle the player
/// is currently stuck to, as an index into the level's moving obstacles.
#[derive(Clone, Copy, Debug, PartialEq, Eq)]
pub struct FrameState {
    pub jump_buffer: i64,
    pub stuck_platform: Option<usize>,
}

/// Well-formedness of the carry-over state against a level with `n` moving
/// obstacles.
pub open spec fn state_wf(s: FrameState, n: int) -> bool {
    &&& 0 <= s.jump_buffer <= BUFFER_LIMIT
    &&& (s.stuck_platform is Some ==> 0 <= s.stuck_platform->0 < n)
}

impl FrameState {
    /// The state at the start of a session: no buffered jump, stuck to
    /// nothing.
    pub fn new() -> (r: FrameState)
        ensures
            r.jump_buffer == 0,
            r.stuck_platform is None,
    {
        FrameState { jump_buffer: 0, stuck_platform: None }
    }
}

/// Every moving obstacle advanced by `dt` ticks.
pub open spec fn update_all_spec(objs: Seq<MovingObject>, dt: int) -> Seq<MovingObject> {
    objs.map(|i: int, o: MovingObject| update_spec(o, dt))
}

/// The player after riding its stuck platform, if any: if the player is still
/// stuck to a moving obstacle from the previous frame and still horizontally
/// overlaps that obstacle's current bounds, its vertical position snaps to
/// the obstacle's top, sunk by half the depth threshold so that the following
/// resolver pass classifies the contact as a landing again. This pre-empts
/// normal resolution for that obstacle and prevents a bounce when a
/// downward-moving platform drops out from under the player within one frame.
pub open spec fn stuck_prepass_spec(
    p: RigidBody,
    stuck: Option<int>,
    objs: Seq<MovingObject>,
    depth: int,
) -> RigidBody {
    if stuck is Some && 0 <= stuck->0 < objs.len() {
        let b = moving_bounds(objs[stuck->0]);
        let pb = body_bounds(p);
        if pb.0 <= b.1 && b.0 <= pb.1 {
            RigidBody {
                center: Vector2 {
                    x: p.center.x,
                    y: (b.3 + p.height / 2 - depth / 2) as i64,
                },
                ..p
            }
        } else {
            p
        }
    } else {
        p
    }
}

/// Ride the stuck platform, if there is one (see [`stuck_prepass_spec`]).
pub fn stuck_prepass(
    p: &mut RigidBody,
    stuck: &Option<usize>,
    objs: &Vec<MovingObject>,
    depth: i64,
)
    requires
        body_wf(*old(p)),
        movings_wf(objs@),
        *stuck is Some ==> stuck->0 < objs.len(),
        0 <= depth <= WORLD_LIMIT,
    ensures
        *final(p) == stuck_prepass_spec(*old(p), stuck_view(*stuck), objs@, depth as int),
        body_wf(*final(p)),
{
    match stuck {
        Some(i) => {
            let obj = &objs[*i];
            proof {
                lemma_moving_center_in_range(*obj);
            }
            let b = obj.bounds();
            if p.collides_with_x(&b) {
                p.center.y = b.3 + p.height / 2 - depth / 2;
            }
        },
        None => {},
    }
}

/// The jump / stick decision of one frame, taken after resolution. The
/// buffer countdown decays by `dt` (flooring at zero), a jump press restarts
/// it at the configured duration, and then: if the player is grounded while
/// the buffer is live, the jump fires — the vertical velocity becomes the
/// jump impulse, the buffer is spent and the player detaches from any stuck
/// platform; otherwise contact with ground or ceiling clamps the vertical
/// velocity to the small contact value that keeps the player pressed against
/// the surface. Returns the player, the new buffer and the stuck reference.
pub open spec fn jump_spec(
    p: RigidBody,
    buffer: int,
    stuck: Option<int>,
    on_object: bool,
    under_object: bool,
    jump_pressed: bool,
    dt: int,
    params: Params,
) -> (RigidBody, int, Option<int>) {
    let decayed = if buffer - dt > 0 {
        buffer - dt
    } else {
        0
    };
    let live = if jump_pressed {
        params.jump_buffer as int
    } else {
        decayed
    };
    if on_object && live > 0 {
        (
            RigidBody { velocity: Vector2 { x: p.velocity.x, y: params.jump_force }, ..p },
            0,
            Option::None,
        )
    } else if on_object || under_object {
        (
            RigidBody {
                velocity: Vector2 { x: p.velocity.x, y: params.contact_velocity },
                ..p
            },
            live,
            stuck,
        )
    } else {
        (p, live, stuck)
    }
}

/// Apply the jump / stick decision (see [`jump_spec`]).
pub fn jump_update(
    p: &mut RigidBody,
    buffer: i64,
    stuck: Option<usize>,
    on_object: bool,
    under_object: bool,
    jump_pressed: bool,
    dt: i64,
    params: &Params,
) -> (r: (i64, Option<usize>))
    requires
        body_wf(*old(p)),
        0 <= buffer <= BUFFER_LIMIT,
        0 <= dt <= DT_LIMIT,
        params_wf(*params),
    ensures
        (*final(p), r.0 as int, stuck_view(r.1)) == jump_spec(
            *old(p),
            buffer as int,
            stuck_view(stuck),
            on_object,
            under_object,
            jump_pressed,
            dt as int,
            *params,
        ),
        body_wf(*final(p)),
        0 <= r.0 <= BUFFER_LIMIT,
        r.1 is Some ==> stuck is Some && r.1->0 == stuck->0,
{
    let decayed: i64 = if dt < buffer {
        buffer - dt
    } else {
        0
    };
    let live: i64 = if jump_pressed {
        params.jump_buffer
    } else {
        decayed
    };
    if on_object && live > 0 {
        p.velocity.y = params.jump_force;
        (0, None)
    } else if on_object || under_object {
        p.velocity.y = params.contact_velocity;
        (live, stuck)
    } else {
        (live, stuck)
    }
}

/// The player after the end-of-frame respawn check: once its vertical center
/// falls below the map's lowest point, it is teleported to the spawn center
/// with velocity zero, whatever its prior velocity.
pub open spec fn respawn_spec(p: RigidBody, respawn: RigidBody, lowest: int) -> RigidBody {
    if p.center.y < lowest {
        RigidBody { center: respawn.center, velocity: Vector2 { x: 0, y: 0 }, ..p }
    } else {
        p
    }
}

/// Apply the respawn check (see [`respawn_spec`]).
pub fn respawn_update(p: &mut RigidBody, respawn: &RigidBody, lowest: i64)
    requires
        body_wf(*old(p)),
        body_wf(*respawn),
    ensures
        *final(p) == respawn_spec(*old(p), *respawn, lowest as int),
        body_wf(*final(p)),
{
    if p.center.y < lowest {
        p.center = respawn.center;
        p.velocity = Vector2 { x: 0, y: 0 };
    }
}

/// One whole simulated frame, in the fixed order: choose gravity from the
/// sign of the vertical velocity, integrate the vertical motion closed-form,
/// apply held horizontal input, advance every moving obstacle, ride the stuck
/// platform, resolve collisions (moving obstacles first, then static), decide
/// jump / stick, then check for respawn.
pub open spec fn step_spec(
    p: RigidBody,
    movings: Seq<MovingObject>,
    statics: Seq<StaticObject>,
    state: FrameState,
    input: FrameInput,
    dt: int,
    params: Params,
    respawn: RigidBody,
    lowest: int,
) -> (RigidBody, Seq<MovingObject>, int, Option<int>) {
    let g = gravity_for_spec(params, p.velocity.y as int);
    let p1 = integrate_spec(p, g, dt);
    let speed = if input.run {
        params.run_speed as int
    } else {
        params.walk_speed as int
    };
    let p2 = horizontal_spec(p1, speed, dt, input.left, input.right);
    let objs = update_all_spec(movings, dt);
    let p3 = stuck_prepass_spec(p2, stuck_view(state.stuck_platform), objs, params.collision_depth as int);
    let r = resolve_all_spec(p3, objs, statics, params.collision_depth as int);
    let j = jump_spec(
        r.0,
        state.jump_buffer as int,
        r.3,
        r.1,
        r.2,
        input.jump_pressed,
        dt,
        params,
    );
    let p6 = respawn_spec(j.0, respawn, lowest);
    (p6, objs, j.1, j.2)
}

/// Advance the simulation by one frame of `dt` ticks and return the carry
/// state for the next frame. A zero `dt` is a well-defined no-op of the
/// kinematics; an arbitrarily large in-range `dt` keeps every quantity
/// representable (positions and velocities saturate instead of overflowing).
pub fn step(
    p: &mut RigidBody,
    movings: &mut Vec<MovingObject>,
    statics: &Vec<StaticObject>,
    state: FrameState,
    input: FrameInput,
    dt: i64,
    params: &Params,
    respawn: &RigidBody,
    lowest: i64,
) -> (r: FrameState)
    requires
        body_wf(*old(p)),
        movings_wf(old(movings)@),
        statics_wf(statics@),
        state_wf(state, old(movings)@.len() as int),
        0 <= dt <= DT_LIMIT,
        params_wf(*params),
        body_wf(*respawn),
        -WORLD_LIMIT <= lowest <= WORLD_LIMIT,
    ensures
        (*final(p), final(movings)@, r.jump_buffer as int, stuck_view(r.stuck_platform))
            == step_spec(
            *old(p),
            old(movings)@,
            statics@,
            state,
            input,
            dt as int,
            *params,
            *respawn,
            lowest as int,
        ),
        body_wf(*final(p)),
        movings_wf(final(movings)@),
        state_wf(r, final(movings)@.len() as int),
{
    let ghost m0 = movings@;
    let g = gravity_for(params, p.velocity.y);
    integrate_vertical(p, g, dt);
    let speed = if input.run {
        params.run_speed
    } else {
        params.walk_speed
    };
    apply_horizontal(p, speed, dt, input.left, input.right);
    let mut i: usize = 0;
    while i < movings.len()
        invariant
            movings@.len() == m0.len(),
            0 <= i <= m0.len(),
            forall|k: int|
                0 <= k < i ==> movings@[k] == update_spec(#[trigger] m0[k], dt as int),
            forall|k: int| i <= k < m0.len() ==> #[trigger] movings@[k] == m0[k],
            movings_wf(m0),
            forall|k: int| 0 <= k < i ==> moving_wf(#[trigger] movings@[k]),
            0 <= dt <= DT_LIMIT,
        decreases m0.len() - i,
    {
        let mut obj = movings[i];
        obj.update(dt);
        movings[i] = obj;
        i = i + 1;
    }
    proof {
        assert(movings@ =~= update_all_spec(m0, dt as int));
    }
    stuck_prepass(p, &state.stuck_platform, movings, params.collision_depth);
    let res = resolve_collisions(p, movings, statics, params.collision_depth);
    let j = jump_update(
        p,
        state.jump_buffer,
        res.2,
        res.0,
        res.1,
        input.jump_pressed,
        dt,
        params,
    );
    respawn_update(p, respawn, lowest);
    FrameState { jump_buffer: j.0, stuck_platform: j.1 }
}

} // verus!
