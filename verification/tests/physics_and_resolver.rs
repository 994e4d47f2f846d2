use platformer_core::geom::{contains_point_cache_bounds, Vector2};
use platformer_core::obstacle::MovingObject;
use platformer_core::physics::{
    apply_horizontal, gravity_for, integrate_vertical, Params,
};
use platformer_core::player::RigidBody;
use platformer_core::resolve::resolve_against;

fn player_at(x: i64, y: i64) -> RigidBody {
    RigidBody {
        center: Vector2::new(x, y),
        width: 20000,
        height: 40000,
        velocity: Vector2::new(0, 0),
    }
}

#[test]
fn gravity_is_asymmetric_around_zero() {
    let p = Params::standard();
    // rising: the weaker constant; falling or level: the stronger one
    assert_eq!(gravity_for(&p, 1), p.gravity_up);
    assert_eq!(gravity_for(&p, 5000000), p.gravity_up);
    assert_eq!(gravity_for(&p, 0), p.gravity_down);
    assert_eq!(gravity_for(&p, -1), p.gravity_down);
    assert!(p.gravity_down > p.gravity_up);
}

#[test]
fn vertical_integration_uses_pre_update_velocity() {
    let mut b = player_at(0, 0);
    b.velocity.y = 1000000;
    integrate_vertical(&mut b, 222222, 100);
    // displacement (g*dt*dt + 2*v*dt) / (2 * VEL_SCALE)
    // = (222222*10000 + 2*1000000*100) / 2000000 = 2422220000 / 2000000
    assert_eq!(b.center.y, 1211);
    // velocity updated afterwards: v - g*dt
    assert_eq!(b.velocity.y, 1000000 - 222222 * 100);
}

#[test]
fn zero_dt_is_a_no_op_step() {
    let mut b = player_at(123, 456);
    b.velocity.y = -7000000;
    integrate_vertical(&mut b, 222222, 0);
    assert_eq!(b.center, Vector2::new(123, 456));
    assert_eq!(b.velocity.y, -7000000);
    apply_horizontal(&mut b, 3200000, 0, true, false);
    assert_eq!(b.center.x, 123);
}

#[test]
fn horizontal_input_moves_by_speed_times_dt() {
    let mut b = player_at(0, 0);
    apply_horizontal(&mut b, 3200000, 100, false, true);
    assert_eq!(b.center.x, 320);
    apply_horizontal(&mut b, 3200000, 100, true, false);
    assert_eq!(b.center.x, 0);
    // both held: they cancel
    apply_horizontal(&mut b, 5000000, 100, true, true);
    assert_eq!(b.center.x, 0);
}

#[test]
fn resolver_pushes_out_of_shallow_left_contact() {
    // player's right edge just inside the obstacle's left edge
    let mut p = player_at(-55000, 0);
    let bounds = (-50000, 50000, -100000, 100000);
    assert!(p.collides_with(&bounds));
    let (on, under) = resolve_against(&mut p, &bounds, 7500, 0);
    assert!(!on && !under);
    // pushed fully left of the obstacle: right edge touches the left edge
    assert_eq!(p.center.x, -60000);
    assert_eq!(p.bounds().1, -50000);
}

#[test]
fn resolver_pushes_out_of_shallow_right_contact() {
    let mut p = player_at(55000, 0);
    let bounds = (-50000, 50000, -100000, 100000);
    let (on, under) = resolve_against(&mut p, &bounds, 7500, 0);
    assert!(!on && !under);
    assert_eq!(p.center.x, 60000);
    assert_eq!(p.bounds().0, 50000);
}

#[test]
fn resolver_lands_player_on_top() {
    let mut p = player_at(0, 115000);
    let bounds = (-50000, 50000, -100000, 100000);
    let (on, under) = resolve_against(&mut p, &bounds, 7500, 0);
    assert!(on && !under);
    assert_eq!(p.center.y, 120000);
    assert_eq!(p.bounds().2, 100000);
}

#[test]
fn resolver_bumps_player_against_ceiling() {
    let mut p = player_at(0, -115000);
    let bounds = (-50000, 50000, -100000, 100000);
    let (on, under) = resolve_against(&mut p, &bounds, 7500, 0);
    assert!(!on && under);
    assert_eq!(p.center.y, -120000);
    assert_eq!(p.bounds().3, -100000);
}

#[test]
fn resolver_ignores_deep_overlap_beyond_threshold() {
    // dead center of a large obstacle: no edge within the threshold
    let mut p = player_at(0, 0);
    let bounds = (-500000, 500000, -500000, 500000);
    let (on, under) = resolve_against(&mut p, &bounds, 7500, 0);
    assert!(!on && !under);
    assert_eq!(p.center, Vector2::new(0, 0));
}

#[test]
fn horizontal_push_wins_over_landing_at_a_corner() {
    // both the left push and the landing are within the threshold;
    // the tie-break order picks the horizontal push first
    let mut p = player_at(-56000, 116000);
    let bounds = (-50000, 50000, -100000, 100000);
    let (on, _) = resolve_against(&mut p, &bounds, 20000, 0);
    assert!(!on);
    assert_eq!(p.center.x, -60000);
    assert_eq!(p.center.y, 116000);
}

#[test]
fn landing_on_moving_obstacle_carries_its_displacement() {
    let mut o = MovingObject::new(
        Vector2::new(0, 0),
        Vector2::new(100000, 0),
        40000,
        10000,
        1000,
        false,
    )
    .unwrap();
    o.update(500);
    assert_eq!(o.prev_move, Vector2::new(500, 0));
    let b = o.bounds();
    // platform top sits at 5000; stand just inside the landing threshold
    let mut p = player_at(500, 24000);
    assert!(p.collides_with(&b));
    let (on, under) = resolve_against(&mut p, &b, 7500, o.prev_move.x);
    assert!(on && !under);
    // exactly the platform displacement beyond where input left the player
    assert_eq!(p.center.x, 500 + 500);
    assert_eq!(p.center.y, 25000);
}

#[test]
fn point_containment_uses_closed_edges() {
    let bounds = (-10, 10, -20, 20);
    assert!(contains_point_cache_bounds(&Vector2::new(10, 20), &bounds));
    assert!(contains_point_cache_bounds(&Vector2::new(-10, -20), &bounds));
    assert!(!contains_point_cache_bounds(&Vector2::new(11, 0), &bounds));
}

#[test]
fn move_by_translates_and_saturates() {
    let mut b = player_at(10, -20);
    b.move_by(&Vector2::new(300, -400));
    assert_eq!(b.center, Vector2::new(310, -420));
    // far outside the range: each coordinate saturates independently
    b.move_by(&Vector2::new(9223372036854775807, 0));
    assert_eq!(b.center, Vector2::new(10000000000, -420));
    b.move_by(&Vector2::new(0, -9223372036854775807));
    assert_eq!(b.center, Vector2::new(10000000000, -10000000000));
}

#[test]
fn x_interval_collision_ignores_vertical_separation() {
    let p = player_at(0, 1000000);
    let bounds = (-50000, 50000, -100000, 100000);
    assert!(p.collides_with_x(&bounds));
    assert!(!p.collides_with(&bounds));
    let far = player_at(100000, 0);
    assert!(!far.collides_with_x(&bounds));
}
