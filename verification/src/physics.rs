//! The integrator: directional gravity and horizontal input motion.
use crate::geom::Vector2;
use crate::num::{
    clamp_spec, div_trunc, div_trunc_i128, BUFFER_LIMIT, DT_LIMIT, GRAV_LIMIT, POS_LIMIT,
    SPEED_LIMIT, VEL_LIMIT, VEL_SCALE, WORLD_LIMIT,
};
use crate::player::{body_wf, RigidBody};
use vstd::prelude::*;

verus! {

/// The tuned constants of the simulation, all in the fixed-point unit
/// convention of [`crate::num`].
#[derive(Clone, Copy, Debug, PartialEq, Eq, Structural)]
pub struct Params {
    /// Gravity magnitude while moving up (vertical velocity positive).
    pub gravity_up: i64,
    /// Gravity magnitude while moving down or level (vertical velocity
    /// nonpositive); stronger than `gravity_up`, which shortens the feel of a
    /// jump's rising edge relative to its falling edge.
    pub gravity_down: i64,
    /// Horizontal speed without the run modifier.
    pub walk_speed: i64,
    /// Horizontal speed with the run modifier.
    pub run_speed: i64,
    /// Vertical velocity set when a buffered jump triggers.
    pub jump_force: i64,
    /// Duration, in ticks, of the jump buffer started by a jump press.
    pub jump_buffer: i64,
    /// Small downward velocity that keeps the player pressed against a
    /// surface it stands on or hits from below.
    pub contact_velocity: i64,
    /// Directional collision depth: how close to an obstacle's edge the
    /// player's edge must be for the resolver to pick that side.
    pub collision_depth: i64,
}

/// Well-formedness of the tuned constants.
pub open spec fn params_wf(p: Params) -> bool {
    &&& 0 < p.gravity_up <= GRAV_LIMIT
    &&& 0 < p.gravity_down <= GRAV_LIMIT
    &&& 0 <= p.walk_speed <= SPEED_LIMIT
    &&& 0 <= p.run_speed <= SPEED_LIMIT
    &&& 0 <= p.jump_force <= VEL_LIMIT
    &&& 0 < p.jump_buffer <= BUFFER_LIMIT
    &&& -VEL_LIMIT <= p.contact_velocity <= 0
    &&& 0 <= p.collision_depth <= WORLD_LIMIT
}

impl Params {
    /// The standard tuning, written for a convention of one world unit per
    /// screen pixel and one tick per ten microseconds.
    pub fn standard() -> (r: Params)
        ensures
            r == (Params {
                gravity_up: 128,
                gravity_down: 222,
                walk_speed: 3200000,
                run_speed: 5000000,
                jump_force: 5000000,
                jump_buffer: 600,
                contact_velocity: -400000i64,
                collision_depth: 7500,
            }),
            params_wf(r),
    {
        Params {
            gravity_up: 128,
            gravity_down: 222,
            walk_speed: 3200000,
            run_speed: 5000000,
            jump_force: 5000000,
            jump_buffer: 600,
            contact_velocity: -400000,
            collision_depth: 7500,
        }
    }
}

/// The gravity magnitude chosen for a vertical velocity: the rising constant
/// while moving up, the stronger falling constant while moving down or level.
pub open spec fn gravity_for_spec(p: Params, vy: int) -> int {
    if vy <= 0 {
        p.gravity_down as int
    } else {
        p.gravity_up as int
    }
}

/// Select the gravity magnitude from the sign of the vertical velocity.
pub fn gravity_for(p: &Params, vy: i64) -> (r: i64)
    ensures
        r == gravity_for_spec(*p, vy as int),
        vy > 0 ==> r == p.gravity_up,
        vy <= 0 ==> r == p.gravity_down,
{
    if vy <= 0 {
        p.gravity_down
    } else {
        p.gravity_up
    }
}

/// The vertical displacement of one frame, computed closed-form from the
/// *pre-update* velocity: the fixed-point value of
/// `gravity * dt * dt / 2 + velocity * dt`, evaluated as a single fraction
/// truncated toward zero.
pub open spec fn vertical_displacement(g: int, vy: int, dt: int) -> int {
    div_trunc(g * dt * dt + 2 * (vy * dt), 2 * VEL_SCALE)
}

/// The body state after one vertical integration step: the center moved by
/// the closed-form displacement (saturating at the position range), then the
/// velocity reduced by `gravity * dt` (saturating at the velocity range).
pub open spec fn integrate_spec(b: RigidBody, g: int, dt: int) -> RigidBody {
    RigidBody {
        center: Vector2 {
            x: b.center.x,
            y: clamp_spec(
                b.center.y + vertical_displacement(g, b.velocity.y as int, dt),
                POS_LIMIT as int,
            ) as i64,
        },
        velocity: Vector2 {
            x: b.velocity.x,
            y: clamp_spec(b.velocity.y - g * dt, VEL_LIMIT as int) as i64,
        },
        ..b
    }
}

/// Advance the body's vertical state under gravity `g` for `dt` ticks.
/// The displacement uses the pre-update velocity and the velocity is updated
/// afterwards, which keeps the motion frame-rate independent to second order.
pub fn integrate_vertical(b: &mut RigidBody, g: i64, dt: i64)
    requires
        body_wf(*old(b)),
        0 < g <= GRAV_LIMIT,
        0 <= dt <= DT_LIMIT,
    ensures
        *final(b) == integrate_spec(*old(b), g as int, dt as int),
        body_wf(*final(b)),
{
    proof {
        lemma_i64_products_fit(g as int, b.velocity.y as int, dt as int);
    }
    let num: i128 = (g as i128) * (dt as i128) * (dt as i128) + 2 * ((b.velocity.y as i128) * (
    dt as i128));
    let dy: i128 = div_trunc_i128(num, 2 * (VEL_SCALE as i128));
    let ny: i128 = (b.center.y as i128) + dy;
    b.center.y = clamp_i128_to(ny, POS_LIMIT);
    let nvy: i128 = (b.velocity.y as i128) - (g as i128) * (dt as i128);
    b.velocity.y = clamp_i128_to(nvy, VEL_LIMIT);
}

/// The horizontal displacement of held input for one frame: the fixed-point
/// value of `speed * dt`, truncated toward zero; its sign is the input's.
pub open spec fn horizontal_displacement(speed: int, dt: int, left: bool, right: bool) -> int {
    let step = div_trunc(speed * dt, VEL_SCALE as int);
    (if left {
        -step
    } else {
        0
    }) + (if right {
        step
    } else {
        0
    })
}

/// The body state after applying held horizontal input: the center abscissa
/// moved by the input displacement, saturating at the position range.
pub open spec fn horizontal_spec(
    b: RigidBody,
    speed: int,
    dt: int,
    left: bool,
    right: bool,
) -> RigidBody {
    RigidBody {
        center: Vector2 {
            x: clamp_spec(
                b.center.x + horizontal_displacement(speed, dt, left, right),
                POS_LIMIT as int,
            ) as i64,
            y: b.center.y,
        },
        ..b
    }
}

/// Move the body horizontally by the held input: left and right each
/// contribute `speed * dt`, so holding both cancels out.
pub fn apply_horizontal(b: &mut RigidBody, speed: i64, dt: i64, left: bool, right: bool)
    requires
        body_wf(*old(b)),
        0 <= speed <= SPEED_LIMIT,
        0 <= dt <= DT_LIMIT,
    ensures
        *final(b) == horizontal_spec(*old(b), speed as int, dt as int, left, right),
        body_wf(*final(b)),
{
    proof {
        vstd::arithmetic::mul::lemma_mul_nonnegative(speed as int, dt as int);
        vstd::arithmetic::mul::lemma_mul_upper_bound(
            speed as int,
            SPEED_LIMIT as int,
            dt as int,
            DT_LIMIT as int,
        );
    }
    let raw: i128 = (speed as i128) * (dt as i128);
    let step: i128 = div_trunc_i128(raw, VEL_SCALE as i128);
    let mut nx: i128 = b.center.x as i128;
    if left {
        nx = nx - step;
    }
    if right {
        nx = nx + step;
    }
    b.center.x = clamp_i128_to(nx, POS_LIMIT);
}

/// Clamp an `i128` into `[-lim, lim]` for a nonnegative `i64` limit.
fn clamp_i128_to(v: i128, lim: i64) -> (r: i64)
    requires
        0 <= lim,
    ensures
        r == clamp_spec(v as int, lim as int),
{
    if v < -(lim as i128) {
        -lim
    } else if v > lim as i128 {
        lim
    } else {
        v as i64
    }
}

/// The integrator's products stay far inside the `i128` range.
proof fn lemma_i64_products_fit(g: int, vy: int, dt: int)
    requires
        0 < g <= GRAV_LIMIT,
        -VEL_LIMIT <= vy <= VEL_LIMIT,
        0 <= dt <= DT_LIMIT,
    ensures
        0 <= g * dt <= GRAV_LIMIT * DT_LIMIT,
        0 <= g * dt * dt <= GRAV_LIMIT * DT_LIMIT * DT_LIMIT,
        -VEL_LIMIT * DT_LIMIT <= vy * dt <= VEL_LIMIT * DT_LIMIT,
{
    vstd::arithmetic::mul::lemma_mul_nonnegative(g, dt);
    vstd::arithmetic::mul::lemma_mul_upper_bound(g, GRAV_LIMIT as int, dt, DT_LIMIT as int);
    vstd::arithmetic::mul::lemma_mul_nonnegative(g * dt, dt);
    vstd::arithmetic::mul::lemma_mul_upper_bound(
        g * dt,
        GRAV_LIMIT as int * DT_LIMIT as int,
        dt,
        DT_LIMIT as int,
    );
    assert(-VEL_LIMIT * DT_LIMIT <= vy * dt <= VEL_LIMIT * DT_LIMIT) by (nonlinear_arith)
        requires
            -VEL_LIMIT <= vy <= VEL_LIMIT,
            0 <= dt <= DT_LIMIT,
    ;
}

} // verus!
