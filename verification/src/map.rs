//! Level data: the obstacles, the spawn state and the lowest point of each
//! built-in level, in the fixed-point unit convention (one world unit is
//! `SCALE` subunits).
use crate::geom::Vector2;
use crate::num::{is_isqrt, lemma_isqrt_unique, WORLD_LIMIT};
use crate::obstacle::{Direction, MovingObject, StaticObject};
use crate::player::{body_wf, RigidBody};
use crate::resolve::{movings_wf, statics_wf};
use vstd::prelude::*;

verus! {

/// A level: its obstacles, the body the player is reset to on respawn, and
/// the height below which the player respawns.
pub struct GameMap {
    pub static_objects: Vec<StaticObject>,
    pub moving_objects: Vec<MovingObject>,
    /// The rigid body the player is set to when it respawns.
    pub player_respawn: RigidBody,
    /// If the player's center falls below this point, it respawns.
    pub lowest_point: i64,
}

/// Well-formedness of a loaded map: every obstacle and the respawn body are
/// well-formed and the lowest point is in range.
pub open spec fn map_wf(m: GameMap) -> bool {
    &&& statics_wf(m.static_objects@)
    &&& movings_wf(m.moving_objects@)
    &&& body_wf(m.player_respawn)
    &&& -WORLD_LIMIT <= m.lowest_point <= WORLD_LIMIT
}

/// The static obstacles of level 1.
pub open spec fn level1_statics() -> Seq<StaticObject> {
    seq![
        StaticObject {
            center: Vector2 { x: 200000, y: -500000i64 },
            width: 700000,
            height: 1000000,
        },
        StaticObject {
            center: Vector2 { x: 600000, y: -500000i64 },
            width: 300000,
            height: 1180000,
        },
    ]
}

/// The static obstacles of level 2.
pub open spec fn level2_statics() -> Seq<StaticObject> {
    seq![
        StaticObject {
            center: Vector2 { x: 100000, y: -500000i64 },
            width: 400000,
            height: 1000000,
        },
        StaticObject { center: Vector2 { x: 480000, y: 10000 }, width: 100000, height: 100000 },
        StaticObject { center: Vector2 { x: 100000, y: 250000 }, width: 200000, height: 90000 },
        StaticObject {
            center: Vector2 { x: -150000i64, y: 300000 },
            width: 110000,
            height: 110000,
        },
    ]
}

/// The moving obstacles of level 2, freshly constructed: positioned at their
/// segment start, heading for the end, with no displacement yet.
pub open spec fn level2_movings() -> Seq<MovingObject> {
    seq![
        MovingObject {
            start: Vector2 { x: 365000, y: 100000 },
            end: Vector2 { x: 365000, y: 210000 },
            width: 120000,
            height: 30000,
            speed: 140000,
            paused: false,
            center: Vector2 { x: 365000, y: 100000 },
            prev_move: Vector2 { x: 0, y: 0 },
            dist: 0,
            seg_len: 110000,
            dir: Direction::TowardEnd,
        },
        MovingObject {
            start: Vector2 { x: -30000i64, y: 420000 },
            end: Vector2 { x: 300000, y: 460000 },
            width: 100000,
            height: 30000,
            speed: 200000,
            paused: false,
            center: Vector2 { x: -30000i64, y: 420000 },
            prev_move: Vector2 { x: 0, y: 0 },
            dist: 0,
            seg_len: 332415,
            dir: Direction::TowardEnd,
        },
    ]
}

/// The spawn body shared by the built-in levels.
pub open spec fn level_respawn() -> RigidBody {
    RigidBody {
        center: Vector2 { x: 0, y: 0 },
        width: 20000,
        height: 40000,
        velocity: Vector2 { x: 0, y: 0 },
    }
}

impl GameMap {
    /// An empty map: no obstacles, a zero respawn body, lowest point zero.
    pub fn new() -> (r: GameMap)
        ensures
            r.static_objects@ == Seq::<StaticObject>::empty(),
            r.moving_objects@ == Seq::<MovingObject>::empty(),
            r.player_respawn == (RigidBody {
                center: Vector2 { x: 0, y: 0 },
                width: 0,
                height: 0,
                velocity: Vector2 { x: 0, y: 0 },
            }),
            r.lowest_point == 0,
            map_wf(r),
    {
        let r = GameMap {
            static_objects: Vec::new(),
            moving_objects: Vec::new(),
            player_respawn: RigidBody::new(),
            lowest_point: 0,
        };
        proof {
            assert(r.static_objects@ =~= Seq::<StaticObject>::empty());
            assert(r.moving_objects@ =~= Seq::<MovingObject>::empty());
        }
        r
    }

    /// Load the level with the given number, replacing this map's content.
    /// Only the built-in levels exist; any other number is rejected by the
    /// precondition, where the surrounding program would abort.
    pub fn load_map(&mut self, level: u32)
        requires
            level == 1 || level == 2,
        ensures
            level == 1 ==> {
                &&& final(self).static_objects@ == level1_statics()
                &&& final(self).moving_objects@ == Seq::<MovingObject>::empty()
            },
            level == 2 ==> {
                &&& final(self).static_objects@ == level2_statics()
                &&& final(self).moving_objects@ == level2_movings()
            },
            final(self).player_respawn == level_respawn(),
            final(self).lowest_point == -120000,
            map_wf(*final(self)),
    {
        if level == 1 {
            let mut statics: Vec<StaticObject> = Vec::new();
            statics.push(
                StaticObject {
                    center: Vector2 { x: 200000, y: -500000 },
                    width: 700000,
                    height: 1000000,
                },
            );
            statics.push(
                StaticObject {
                    center: Vector2 { x: 600000, y: -500000 },
                    width: 300000,
                    height: 1180000,
                },
            );
            self.static_objects = statics;
            self.moving_objects = Vec::new();
            proof {
                assert(self.static_objects@ =~= level1_statics());
                assert(self.moving_objects@ =~= Seq::<MovingObject>::empty());
            }
        } else {
            let mut statics: Vec<StaticObject> = Vec::new();
            statics.push(
                StaticObject {
                    center: Vector2 { x: 100000, y: -500000 },
                    width: 400000,
                    height: 1000000,
                },
            );
            statics.push(
                StaticObject {
                    center: Vector2 { x: 480000, y: 10000 },
                    width: 100000,
                    height: 100000,
                },
            );
            statics.push(
                StaticObject {
                    center: Vector2 { x: 100000, y: 250000 },
                    width: 200000,
                    height: 90000,
                },
            );
            statics.push(
                StaticObject {
                    center: Vector2 { x: -150000, y: 300000 },
                    width: 110000,
                    height: 110000,
                },
            );
            self.static_objects = statics;
            let mut movings: Vec<MovingObject> = Vec::new();
            let r0 = MovingObject::new(
                Vector2 { x: 365000, y: 100000 },
                Vector2 { x: 365000, y: 210000 },
                120000,
                30000,
                140000,
                false,
            );
            match r0 {
                Ok(o) => {
                    proof {
                        assert(is_isqrt((110000 * 110000) as int, 110000int));
                        lemma_isqrt_unique(
                            (110000 * 110000) as int,
                            o.seg_len as int,
                            110000int,
                        );
                    }
                    movings.push(o);
                },
                Err(_) => {},
            }
            let r1 = MovingObject::new(
                Vector2 { x: -30000, y: 420000 },
                Vector2 { x: 300000, y: 460000 },
                100000,
                30000,
                200000,
                false,
            );
            match r1 {
                Ok(o) => {
                    proof {
                        assert(is_isqrt(110500000000int, 332415int)) by {
                            assert(332415int * 332415int == 110499732225int);
                            assert(332416int * 332416int == 110500397056int);
                        }
                        lemma_isqrt_unique(110500000000int, o.seg_len as int, 332415int);
                    }
                    movings.push(o);
                },
                Err(_) => {},
            }
            self.moving_objects = movings;
            proof {
                assert(self.static_objects@ =~= level2_statics());
                assert(self.moving_objects@ =~= level2_movings());
            }
        }
        self.player_respawn = RigidBody {
            center: Vector2 { x: 0, y: 0 },
            width: 20000,
            height: 40000,
            velocity: Vector2 { x: 0, y: 0 },
        };
        self.lowest_point = -120000;
    }
}

} // verus!
