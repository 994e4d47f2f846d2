use platformer_core::geom::Vector2;
use platformer_core::obstacle::{MovingObject, StaticObject};
use platformer_core::physics::Params;
use platformer_core::player::RigidBody;
use platformer_core::step::{jump_update, step, FrameInput, FrameState};

fn spawn_body() -> RigidBody {
    RigidBody {
        center: Vector2::new(0, 0),
        width: 20000,
        height: 40000,
        velocity: Vector2::new(0, 0),
    }
}

fn no_input() -> FrameInput {
    FrameInput { left: false, right: false, run: false, jump_pressed: false }
}

#[test]
fn buffered_jump_fires_when_grounded_within_window() {
    let p = Params::standard();
    let mut body = spawn_body();
    // grounded with a live buffer: the jump fires and detaches
    let (buffer, stuck) = jump_update(&mut body, 590, Some(3), true, false, false, 10, &p);
    assert_eq!(body.velocity.y, p.jump_force);
    assert_eq!(buffer, 0);
    assert_eq!(stuck, None);
}

#[test]
fn expired_buffer_only_clamps_to_contact_velocity() {
    let p = Params::standard();
    let mut body = spawn_body();
    let (buffer, stuck) = jump_update(&mut body, 600, Some(3), true, false, false, 700, &p);
    assert_eq!(body.velocity.y, p.contact_velocity);
    assert_eq!(buffer, 0);
    assert_eq!(stuck, Some(3));
}

#[test]
fn press_while_grounded_jumps_immediately() {
    let p = Params::standard();
    let mut body = spawn_body();
    let (buffer, _) = jump_update(&mut body, 0, None, true, false, true, 10, &p);
    assert_eq!(body.velocity.y, p.jump_force);
    assert_eq!(buffer, 0);
}

#[test]
fn ceiling_contact_clamps_vertical_velocity() {
    let p = Params::standard();
    let mut body = spawn_body();
    body.velocity.y = 4000000;
    let (_, _) = jump_update(&mut body, 0, None, false, true, false, 10, &p);
    assert_eq!(body.velocity.y, p.contact_velocity);
}

#[test]
fn airborne_frame_only_decays_the_buffer() {
    let p = Params::standard();
    let mut body = spawn_body();
    body.velocity.y = -123;
    let (buffer, stuck) = jump_update(&mut body, 500, Some(1), false, false, false, 200, &p);
    assert_eq!(body.velocity.y, -123);
    assert_eq!(buffer, 300);
    assert_eq!(stuck, Some(1));
}

#[test]
fn jump_buffered_before_landing_fires_across_frames() {
    // press in the air, ground within the window: the landing frame jumps
    let p = Params::standard();
    let mut body = spawn_body();
    let (b1, _) = jump_update(&mut body, 0, None, false, false, true, 10, &p);
    assert_eq!(b1, p.jump_buffer);
    let (b2, _) = jump_update(&mut body, b1, None, false, false, false, 200, &p);
    let (b3, _) = jump_update(&mut body, b2, None, false, false, false, 200, &p);
    let (b4, _) = jump_update(&mut body, b3, None, true, false, false, 100, &p);
    assert_eq!(body.velocity.y, p.jump_force);
    assert_eq!(b4, 0);

    // same press, but grounding after the window expired: no jump
    let mut late = spawn_body();
    let (c1, _) = jump_update(&mut late, 0, None, false, false, true, 10, &p);
    let (c2, _) = jump_update(&mut late, c1, None, false, false, false, 300, &p);
    let (c3, _) = jump_update(&mut late, c2, None, false, false, false, 300, &p);
    assert_eq!(c3, 0);
    let (c4, _) = jump_update(&mut late, c3, None, true, false, false, 100, &p);
    assert_eq!(late.velocity.y, p.contact_velocity);
    assert_eq!(c4, 0);
}

#[test]
fn spawning_over_obstacle_lands_and_clamps() {
    // a single static obstacle spanning x in [-50, 50] and y in [-10, 0]
    // world units directly under the spawn point
    let statics = vec![StaticObject {
        center: Vector2::new(0, -5000),
        width: 100000,
        height: 10000,
    }];
    let mut movings: Vec<MovingObject> = Vec::new();
    let mut params = Params::standard();
    // threshold wide enough to catch the spawn's initial sink
    params.collision_depth = 25000;
    let mut player = spawn_body();
    let respawn = spawn_body();
    let state = step(
        &mut player,
        &mut movings,
        &statics,
        FrameState::new(),
        no_input(),
        16,
        &params,
        &respawn,
        -120000,
    );
    // standing exactly on the obstacle's top, pressed onto it
    assert_eq!(player.center.y, 20000);
    assert_eq!(player.center.x, 0);
    assert_eq!(player.velocity.y, params.contact_velocity);
    assert_eq!(state.stuck_platform, None);
}

#[test]
fn falling_below_the_lowest_point_respawns_at_spawn() {
    let statics: Vec<StaticObject> = Vec::new();
    let mut movings: Vec<MovingObject> = Vec::new();
    let params = Params::standard();
    let mut player = spawn_body();
    player.center.y = -119000;
    player.velocity = Vector2::new(4000000, -1000000000);
    let respawn = spawn_body();
    let state = step(
        &mut player,
        &mut movings,
        &statics,
        FrameState::new(),
        no_input(),
        10,
        &params,
        &respawn,
        -120000,
    );
    assert_eq!(player.center, Vector2::new(0, 0));
    assert_eq!(player.velocity, Vector2::new(0, 0));
    assert_eq!(state.stuck_platform, None);
}

#[test]
fn riding_a_platform_adds_its_displacement_to_input_motion() {
    // a long horizontal platform moving right at 1 subunit per tick
    let platform = MovingObject::new(
        Vector2::new(0, 0),
        Vector2::new(500000, 0),
        400000,
        10000,
        1000,
        false,
    )
    .unwrap();
    let statics: Vec<StaticObject> = Vec::new();
    let params = Params::standard();
    let dt = 100;

    // standing on the platform top (5000) with no input
    let mut rider = spawn_body();
    rider.center.y = 25000;
    rider.velocity.y = params.contact_velocity;
    let mut movings = vec![platform];
    let state = step(
        &mut rider,
        &mut movings,
        &statics,
        FrameState::new(),
        no_input(),
        dt,
        &params,
        &spawn_body(),
        -120000,
    );
    // the platform moved speed * dt / DIST_SCALE = 100 subunits, and so did
    // the rider, beyond what input alone (nothing) would produce
    assert_eq!(movings[0].prev_move, Vector2::new(100, 0));
    assert_eq!(rider.center.x, 100);
    assert_eq!(rider.center.y, 25000);
    assert_eq!(state.stuck_platform, Some(0));

    // the same frame for a player standing on static ground does not move
    let mut walker = spawn_body();
    walker.center.y = 25000;
    walker.velocity.y = params.contact_velocity;
    let ground = vec![StaticObject {
        center: Vector2::new(0, 0),
        width: 400000,
        height: 10000,
    }];
    let mut none: Vec<MovingObject> = Vec::new();
    step(
        &mut walker,
        &mut none,
        &ground,
        FrameState::new(),
        no_input(),
        dt,
        &params,
        &spawn_body(),
        -120000,
    );
    assert_eq!(walker.center.x, 0);
}

#[test]
fn stuck_player_rides_a_descending_platform_without_bouncing() {
    // platform moving straight down; the player stuck from the previous
    // frame is snapped to its top even though gravity alone would lag behind
    let platform = MovingObject::new(
        Vector2::new(0, 0),
        Vector2::new(0, -400000),
        400000,
        10000,
        20000,
        false,
    )
    .unwrap();
    let statics: Vec<StaticObject> = Vec::new();
    let params = Params::standard();
    let mut movings = vec![platform];
    let mut rider = spawn_body();
    rider.center.y = 25000;
    let carried = FrameState { jump_buffer: 0, stuck_platform: Some(0) };
    let state = step(
        &mut rider,
        &mut movings,
        &statics,
        carried,
        no_input(),
        100,
        &params,
        &spawn_body(),
        -120000,
    );
    // platform top dropped to 3000; the rider stands on it again
    assert_eq!(movings[0].center, Vector2::new(0, -2000));
    assert_eq!(rider.center.y, 3000 + 20000);
    assert_eq!(state.stuck_platform, Some(0));
}
