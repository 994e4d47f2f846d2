use platformer_core::geom::Vector2;
use platformer_core::obstacle::{ConfigError, MovingObject, StaticObject};

fn platform(start: (i64, i64), end: (i64, i64), speed: i64) -> MovingObject {
    MovingObject::new(
        Vector2::new(start.0, start.1),
        Vector2::new(end.0, end.1),
        40000,
        10000,
        speed,
        false,
    )
    .unwrap()
}

#[test]
fn static_bounds_are_center_plus_minus_half_extents() {
    let obj = StaticObject { center: Vector2::new(200000, -500000), width: 700000, height: 1000000 };
    assert_eq!(obj.bounds(), (-150000, 550000, -1000000, 0));
}

#[test]
fn negative_dimension_is_rejected() {
    let r = MovingObject::new(Vector2::new(0, 0), Vector2::new(1000, 0), -1, 10, 5, false);
    assert_eq!(r.unwrap_err(), ConfigError::NegativeDimension);
}

#[test]
fn degenerate_segment_is_rejected() {
    let r = MovingObject::new(Vector2::new(7, 7), Vector2::new(7, 7), 10, 10, 5, false);
    assert_eq!(r.unwrap_err(), ConfigError::DegenerateSegment);
}

#[test]
fn out_of_range_coordinate_is_rejected() {
    let r = MovingObject::new(Vector2::new(2000000000, 0), Vector2::new(0, 0), 10, 10, 5, false);
    assert_eq!(r.unwrap_err(), ConfigError::OutOfRange);
}

#[test]
fn new_obstacle_sits_at_start_with_no_displacement() {
    let o = platform((0, 0), (100000, 0), 1000);
    assert_eq!(o.center, Vector2::new(0, 0));
    assert_eq!(o.prev_move, Vector2::new(0, 0));
    assert_eq!(o.seg_len, 100000);
}

#[test]
fn update_moves_at_speed_and_records_displacement() {
    let mut o = platform((0, 0), (100000, 0), 1000);
    o.update(500);
    assert_eq!(o.center, Vector2::new(500, 0));
    assert_eq!(o.prev_move, Vector2::new(500, 0));
}

#[test]
fn update_clamps_at_endpoint_and_reverses() {
    let mut o = platform((0, 0), (1000, 0), 1000);
    o.update(1000);
    assert_eq!(o.center, Vector2::new(1000, 0));
    o.update(500);
    assert_eq!(o.center, Vector2::new(500, 0));
    assert_eq!(o.prev_move, Vector2::new(-500, 0));
}

#[test]
fn update_never_overshoots_even_with_huge_dt() {
    let mut o = platform((0, 0), (1000, 0), 1000);
    o.update(1000000000);
    assert_eq!(o.center, Vector2::new(1000, 0));
    o.update(1000000000);
    assert_eq!(o.center, Vector2::new(0, 0));
}

#[test]
fn paused_obstacle_never_moves() {
    let mut o = MovingObject::new(
        Vector2::new(0, 0),
        Vector2::new(1000, 0),
        40000,
        10000,
        1000,
        true,
    )
    .unwrap();
    o.update(500);
    assert_eq!(o.center, Vector2::new(0, 0));
    assert_eq!(o.prev_move, Vector2::new(0, 0));
}

#[test]
fn oscillation_is_frame_rate_independent() {
    let mut once = platform((0, 0), (100000, 50000), 777);
    let mut twice = once.clone();
    once.update(100);
    twice.update(50);
    twice.update(50);
    assert_eq!(once.center, twice.center);
    assert_eq!(once.dist, twice.dist);

    let mut coarse = platform((-30000, 420000), (300000, 460000), 200000);
    let mut fine = coarse.clone();
    coarse.update(960);
    for _ in 0..96 {
        fine.update(10);
    }
    assert_eq!(coarse.center, fine.center);
    assert_eq!(coarse.dist, fine.dist);
}

#[test]
fn diagonal_segment_interpolates_both_axes() {
    let mut o = platform((0, 0), (30000, 40000), 1000);
    // segment length 50000 subunits, so total progress is 50000000
    assert_eq!(o.seg_len, 50000);
    o.update(25000);
    // halfway along the segment
    assert_eq!(o.center, Vector2::new(15000, 20000));
}

#[test]
fn contains_point_matches_bounds_edges() {
    let o = platform((0, 0), (1000, 0), 10);
    // bounds at start: (-20000, 20000, -5000, 5000)
    assert!(o.contains_point(&Vector2::new(20000, 5000)));
    assert!(o.contains_point(&Vector2::new(-20000, -5000)));
    assert!(!o.contains_point(&Vector2::new(20001, 0)));
    assert!(!o.contains_point(&Vector2::new(0, -5001)));
}
