use platformer_core::geom::Vector2;
use platformer_core::map::GameMap;
use platformer_core::obstacle::Direction;

#[test]
fn new_map_is_empty() {
    let m = GameMap::new();
    assert!(m.static_objects.is_empty());
    assert!(m.moving_objects.is_empty());
    assert_eq!(m.lowest_point, 0);
    assert_eq!(m.player_respawn.width, 0);
}

#[test]
fn level_one_has_two_static_slabs() {
    let mut m = GameMap::new();
    m.load_map(1);
    assert_eq!(m.static_objects.len(), 2);
    assert_eq!(m.moving_objects.len(), 0);
    assert_eq!(m.static_objects[0].center, Vector2::new(200000, -500000));
    assert_eq!(m.static_objects[0].width, 700000);
    assert_eq!(m.static_objects[0].height, 1000000);
    assert_eq!(m.static_objects[1].center, Vector2::new(600000, -500000));
    assert_eq!(m.lowest_point, -120000);
    assert_eq!(m.player_respawn.center, Vector2::new(0, 0));
    assert_eq!(m.player_respawn.width, 20000);
    assert_eq!(m.player_respawn.height, 40000);
    assert_eq!(m.player_respawn.velocity, Vector2::new(0, 0));
}

#[test]
fn level_two_has_platforms_at_their_starts() {
    let mut m = GameMap::new();
    m.load_map(2);
    assert_eq!(m.static_objects.len(), 4);
    assert_eq!(m.moving_objects.len(), 2);

    let lift = &m.moving_objects[0];
    assert_eq!(lift.start, Vector2::new(365000, 100000));
    assert_eq!(lift.end, Vector2::new(365000, 210000));
    assert_eq!(lift.center, lift.start);
    assert_eq!(lift.speed, 140000);
    assert_eq!(lift.seg_len, 110000);
    assert_eq!(lift.dir, Direction::TowardEnd);
    assert!(!lift.paused);

    let ferry = &m.moving_objects[1];
    assert_eq!(ferry.start, Vector2::new(-30000, 420000));
    assert_eq!(ferry.end, Vector2::new(300000, 460000));
    assert_eq!(ferry.seg_len, 332415);
    assert_eq!(ferry.prev_move, Vector2::new(0, 0));
    assert_eq!(m.lowest_point, -120000);
}

#[test]
fn reloading_replaces_the_previous_level() {
    let mut m = GameMap::new();
    m.load_map(2);
    m.load_map(1);
    assert_eq!(m.static_objects.len(), 2);
    assert_eq!(m.moving_objects.len(), 0);
}
