//! Static and periodically-moving rectangular obstacles.
//!
//! A moving obstacle oscillates between two endpoints at constant speed
//! (ping-pong). Its state is its progress `dist` along the segment, measured
//! from `start` in `DIST_SCALE`-ths of a subunit of arc length, plus a
//! direction flag; the current center is the exact fixed-point interpolation
//! of that progress, so identical total elapsed time yields the same position
//! whatever the step granularity, as long as no endpoint is reached.
use crate::geom::{bounds_spec, box_contains_point, compute_bounds, Vector2};
use crate::num::{
    is_isqrt, isqrt_u64, lemma_div_ordered, mul_div_nonneg, DIST_SCALE, DT_LIMIT,
    PLATFORM_SPEED_LIMIT, WORLD_LIMIT,
};
use vstd::prelude::*;

verus! {

/// An immutable rectangle, owned by the level for the simulation's lifetime.
#[derive(Clone, Copy, Debug, PartialEq, Eq, Structural)]
pub struct StaticObject {
    pub center: Vector2,
    pub width: i64,
    pub height: i64,
}

/// Well-formedness of a static obstacle: center and nonnegative dimensions
/// within the world range.
pub open spec fn static_wf(o: StaticObject) -> bool {
    &&& -WORLD_LIMIT <= o.center.x <= WORLD_LIMIT
    &&& -WORLD_LIMIT <= o.center.y <= WORLD_LIMIT
    &&& 0 <= o.width <= WORLD_LIMIT
    &&& 0 <= o.height <= WORLD_LIMIT
}

/// The bounds of a static obstacle.
pub open spec fn static_bounds(o: StaticObject) -> (int, int, int, int) {
    bounds_spec(o.center, o.width as int, o.height as int)
}

impl StaticObject {
    /// The obstacle's `(left, right, bottom, top)` bounds.
    pub fn bounds(&self) -> (r: (i64, i64, i64, i64))
        requires
            static_wf(*self),
        ensures
            (r.0 as int, r.1 as int, r.2 as int, r.3 as int) == static_bounds(*self),
    {
        compute_bounds(self.center, self.width, self.height)
    }
}

/// Which endpoint of its segment a moving obstacle is heading for.
#[derive(Clone, Copy, Debug, PartialEq, Eq, Structural)]
pub enum Direction {
    TowardEnd,
    TowardStart,
}

/// A rejected obstacle or level definition; such errors are fatal at load
/// time, never discovered mid-simulation.
#[derive(Clone, Copy, Debug, PartialEq, Eq, Structural)]
pub enum ConfigError {
    /// A width or height was negative.
    NegativeDimension,
    /// The oscillation segment's endpoints coincide.
    DegenerateSegment,
    /// A coordinate, dimension or speed lies outside the representable range.
    OutOfRange,
}

/// A rectangle oscillating between `start` and `end` at constant `speed`.
#[derive(Clone, Copy, Debug, PartialEq, Eq, Structural)]
pub struct MovingObject {
    pub start: Vector2,
    pub end: Vector2,
    pub width: i64,
    pub height: i64,
    /// Speed along the segment, in `DIST_SCALE`-ths of a subunit per tick.
    pub speed: i64,
    pub paused: bool,
    /// Current center; always the interpolation of `dist` along the segment.
    pub center: Vector2,
    /// The delta applied by the most recent update call.
    pub prev_move: Vector2,
    /// Progress from `start` along the segment, in `DIST_SCALE`-ths of a
    /// subunit of arc length; ranges over `[0, seg_len * DIST_SCALE]`.
    pub dist: i64,
    /// Arc length of the segment in subunits: the integer square root of the
    /// squared endpoint distance.
    pub seg_len: i64,
    pub dir: Direction,
}

/// Fixed-point interpolation of one coordinate: the point `dist/total` of the
/// way from `s` to `e`, with the offset truncated toward zero.
pub open spec fn interp_coord(s: int, e: int, dist: int, total: int) -> int
    recommends
        0 < total,
        0 <= dist <= total,
{
    if e >= s {
        s + (e - s) * dist / total
    } else {
        s - (s - e) * dist / total
    }
}

/// Total progress needed to traverse the whole segment.
pub open spec fn total_of(o: MovingObject) -> int {
    o.seg_len * DIST_SCALE
}

/// Well-formedness of a moving obstacle: endpoints, dimensions and speed in
/// range, a nondegenerate segment, `seg_len` the exact integer square root of
/// the squared endpoint distance, progress within the segment, the center the
/// exact interpolation of the progress, and the direction pointing at an
/// endpoint not yet reached.
pub open spec fn moving_wf(o: MovingObject) -> bool {
    &&& -WORLD_LIMIT <= o.start.x <= WORLD_LIMIT
    &&& -WORLD_LIMIT <= o.start.y <= WORLD_LIMIT
    &&& -WORLD_LIMIT <= o.end.x <= WORLD_LIMIT
    &&& -WORLD_LIMIT <= o.end.y <= WORLD_LIMIT
    &&& 0 <= o.width <= WORLD_LIMIT
    &&& 0 <= o.height <= WORLD_LIMIT
    &&& 0 <= o.speed <= PLATFORM_SPEED_LIMIT
    &&& o.start != o.end
    &&& is_isqrt(
        (o.end.x - o.start.x) * (o.end.x - o.start.x) + (o.end.y - o.start.y) * (o.end.y
            - o.start.y),
        o.seg_len as int,
    )
    &&& 1 <= o.seg_len <= 2999999999
    &&& 0 <= o.dist <= total_of(o)
    &&& o.center.x == interp_coord(o.start.x as int, o.end.x as int, o.dist as int, total_of(o))
    &&& o.center.y == interp_coord(o.start.y as int, o.end.y as int, o.dist as int, total_of(o))
    &&& (o.dir is TowardEnd ==> o.dist < total_of(o))
    &&& (o.dir is TowardStart ==> o.dist > 0)
    &&& -2 * WORLD_LIMIT <= o.prev_move.x <= 2 * WORLD_LIMIT
    &&& -2 * WORLD_LIMIT <= o.prev_move.y <= 2 * WORLD_LIMIT
}

/// The interpolated coordinate stays between the endpoints.
pub proof fn lemma_interp_in_range(s: int, e: int, dist: int, total: int)
    requires
        0 < total,
        0 <= dist <= total,
    ensures
        e >= s ==> s <= interp_coord(s, e, dist, total) <= e,
        e < s ==> e <= interp_coord(s, e, dist, total) <= s,
{
    if e >= s {
        lemma_mul_div_le(e - s, dist, total);
    } else {
        lemma_mul_div_le(s - e, dist, total);
    }
}

/// `a * d / t <= a` whenever `0 <= d <= t`: a truncated fraction of `a` never
/// exceeds `a`.
pub proof fn lemma_mul_div_le(a: int, d: int, t: int)
    requires
        0 <= a,
        0 <= d <= t,
        0 < t,
    ensures
        0 <= a * d / t <= a,
{
    vstd::arithmetic::mul::lemma_mul_nonnegative(a, d);
    vstd::arithmetic::div_mod::lemma_div_pos_is_pos(a * d, t);
    vstd::arithmetic::mul::lemma_mul_inequality(d, t, a);
    assert(d * a <= t * a);
    assert(a * d <= a * t) by (nonlinear_arith)
        requires
            d * a <= t * a,
    ;
    lemma_div_ordered(a * d, a * t, t);
    vstd::arithmetic::div_mod::lemma_div_multiples_vanish(a, t);
    assert(a * t == t * a) by (nonlinear_arith);
}

/// The center of a well-formed moving obstacle stays within the world range.
pub proof fn lemma_moving_center_in_range(o: MovingObject)
    requires
        moving_wf(o),
    ensures
        -WORLD_LIMIT <= o.center.x <= WORLD_LIMIT,
        -WORLD_LIMIT <= o.center.y <= WORLD_LIMIT,
{
    lemma_interp_in_range(o.start.x as int, o.end.x as int, o.dist as int, total_of(o));
    lemma_interp_in_range(o.start.y as int, o.end.y as int, o.dist as int, total_of(o));
}

/// The bounds of a moving obstacle at its current center.
pub open spec fn moving_bounds(o: MovingObject) -> (int, int, int, int) {
    bounds_spec(o.center, o.width as int, o.height as int)
}

/// Exact executable interpolation of one coordinate.
fn interp_exec(s: i64, e: i64, dist: i64, total: i64) -> (r: i64)
    requires
        -WORLD_LIMIT <= s <= WORLD_LIMIT,
        -WORLD_LIMIT <= e <= WORLD_LIMIT,
        0 < total,
        0 <= dist <= total,
    ensures
        r == interp_coord(s as int, e as int, dist as int, total as int),
{
    proof {
        lemma_interp_in_range(s as int, e as int, dist as int, total as int);
    }
    if e >= s {
        proof {
            lemma_mul_div_le((e - s) as int, dist as int, total as int);
        }
        s + mul_div_nonneg(e - s, dist, total)
    } else {
        proof {
            lemma_mul_div_le((s - e) as int, dist as int, total as int);
        }
        s - mul_div_nonneg(s - e, dist, total)
    }
}

/// The state after advancing a moving obstacle by `dt` ticks: progress moves
/// toward the targeted endpoint by exactly `speed * dt`, clamps there without
/// overshooting (movement beyond the endpoint within one call is discarded),
/// and the direction flips once the endpoint is reached. A paused obstacle
/// does not move; its displacement is zero.
pub open spec fn update_spec(o: MovingObject, dt: int) -> MovingObject {
    if o.paused {
        MovingObject { prev_move: Vector2 { x: 0, y: 0 }, ..o }
    } else {
        let total = total_of(o);
        let traveled = o.speed * dt;
        let nd = if o.dir is TowardEnd {
            if o.dist + traveled >= total {
                total
            } else {
                o.dist + traveled
            }
        } else {
            if traveled >= o.dist {
                0
            } else {
                o.dist - traveled
            }
        };
        let ndir = if o.dir is TowardEnd {
            if nd == total {
                Direction::TowardStart
            } else {
                Direction::TowardEnd
            }
        } else {
            if nd == 0 {
                Direction::TowardEnd
            } else {
                Direction::TowardStart
            }
        };
        let ncx = interp_coord(o.start.x as int, o.end.x as int, nd, total);
        let ncy = interp_coord(o.start.y as int, o.end.y as int, nd, total);
        MovingObject {
            center: Vector2 { x: ncx as i64, y: ncy as i64 },
            prev_move: Vector2 {
                x: (ncx - o.center.x) as i64,
                y: (ncy - o.center.y) as i64,
            },
            dist: nd as i64,
            dir: ndir,
            ..o
        }
    }
}

impl MovingObject {
    /// Construct an oscillating obstacle positioned at `start`, or reject a
    /// malformed definition. Exactly the listed errors occur, each checked in
    /// this order: a negative dimension, a degenerate segment, then any value
    /// outside the representable range.
    pub fn new(start: Vector2, end: Vector2, width: i64, height: i64, speed: i64, paused: bool)
        -> (r: Result<MovingObject, ConfigError>)
        ensures
            (r == Result::<MovingObject, ConfigError>::Err(ConfigError::NegativeDimension))
                <==> (width < 0 || height < 0),
            (r == Result::<MovingObject, ConfigError>::Err(ConfigError::DegenerateSegment))
                <==> (width >= 0 && height >= 0 && start == end),
            (r == Result::<MovingObject, ConfigError>::Err(ConfigError::OutOfRange)) <==> (width
                >= 0 && height >= 0 && start != end && !(
            -WORLD_LIMIT <= start.x <= WORLD_LIMIT && -WORLD_LIMIT <= start.y <= WORLD_LIMIT
                && -WORLD_LIMIT <= end.x <= WORLD_LIMIT && -WORLD_LIMIT <= end.y <= WORLD_LIMIT
                && width <= WORLD_LIMIT && height <= WORLD_LIMIT && 0 <= speed
                <= PLATFORM_SPEED_LIMIT)),
            r is Ok ==> {
                let o = r->Ok_0;
                &&& moving_wf(o)
                &&& o.start == start
                &&& o.end == end
                &&& o.width == width
                &&& o.height == height
                &&& o.speed == speed
                &&& o.paused == paused
                &&& o.center == start
                &&& o.prev_move == (Vector2 { x: 0, y: 0 })
                &&& o.dist == 0
                &&& o.dir == Direction::TowardEnd
            },
            r is Ok <==> (width >= 0 && height >= 0 && start != end && -WORLD_LIMIT <= start.x
                <= WORLD_LIMIT && -WORLD_LIMIT <= start.y <= WORLD_LIMIT && -WORLD_LIMIT <= end.x
                <= WORLD_LIMIT && -WORLD_LIMIT <= end.y <= WORLD_LIMIT && width <= WORLD_LIMIT
                && height <= WORLD_LIMIT && 0 <= speed <= PLATFORM_SPEED_LIMIT),
    {
        if width < 0 || height < 0 {
            return Err(ConfigError::NegativeDimension);
        }
        if start.x == end.x && start.y == end.y {
            return Err(ConfigError::DegenerateSegment);
        }
        if !(-WORLD_LIMIT <= start.x && start.x <= WORLD_LIMIT && -WORLD_LIMIT <= start.y
            && start.y <= WORLD_LIMIT && -WORLD_LIMIT <= end.x && end.x <= WORLD_LIMIT
            && -WORLD_LIMIT <= end.y && end.y <= WORLD_LIMIT && width <= WORLD_LIMIT && height
            <= WORLD_LIMIT && 0 <= speed && speed <= PLATFORM_SPEED_LIMIT) {
            return Err(ConfigError::OutOfRange);
        }
        let adx: i64 = if end.x >= start.x {
            end.x - start.x
        } else {
            start.x - end.x
        };
        let ady: i64 = if end.y >= start.y {
            end.y - start.y
        } else {
            start.y - end.y
        };
        proof {
            assert(adx * adx <= 2000000000i64 * 2000000000i64 && ady * ady <= 2000000000i64
                * 2000000000i64 && adx * adx + ady * ady >= 1) by (nonlinear_arith)
                requires
                    0 <= adx <= 2000000000i64,
                    0 <= ady <= 2000000000i64,
                    adx >= 1 || ady >= 1,
            ;
        }
        let sq_len: u64 = (adx as u64) * (adx as u64) + (ady as u64) * (ady as u64);
        let seg_len_u: u64 = isqrt_u64(sq_len);
        proof {
            assert(seg_len_u >= 1 && seg_len_u <= 2999999999u64) by (nonlinear_arith)
                requires
                    is_isqrt(sq_len as int, seg_len_u as int),
                    1 <= sq_len <= 8000000000000000000u64,
            ;
            assert((end.x - start.x) * (end.x - start.x) == adx * adx && (end.y - start.y) * (end.y
                - start.y) == ady * ady) by (nonlinear_arith)
                requires
                    adx == if end.x >= start.x {
                        end.x - start.x
                    } else {
                        start.x - end.x
                    },
                    ady == if end.y >= start.y {
                        end.y - start.y
                    } else {
                        start.y - end.y
                    },
            ;
        }
        let seg_len: i64 = seg_len_u as i64;
        let o = MovingObject {
            start,
            end,
            width,
            height,
            speed,
            paused,
            center: start,
            prev_move: Vector2 { x: 0, y: 0 },
            dist: 0,
            seg_len,
            dir: Direction::TowardEnd,
        };
        proof {
            assert(total_of(o) >= 1 * DIST_SCALE) by (nonlinear_arith)
                requires
                    o.seg_len >= 1,
                    total_of(o) == o.seg_len * DIST_SCALE,
            ;
            assert(interp_coord(o.start.x as int, o.end.x as int, 0, total_of(o)) == o.start.x
                && interp_coord(o.start.y as int, o.end.y as int, 0, total_of(o)) == o.start.y)
                by (nonlinear_arith)
                requires
                    total_of(o) >= 1,
            ;
        }
        Ok(o)
    }

    /// The obstacle's `(left, right, bottom, top)` bounds at its current
    /// center.
    pub fn bounds(&self) -> (r: (i64, i64, i64, i64))
        requires
            moving_wf(*self),
        ensures
            (r.0 as int, r.1 as int, r.2 as int, r.3 as int) == moving_bounds(*self),
    {
        proof {
            lemma_moving_center_in_range(*self);
        }
        compute_bounds(self.center, self.width, self.height)
    }

    /// Whether `point` lies inside the obstacle at its current position,
    /// edges included.
    pub fn contains_point(&self, point: &Vector2) -> (r: bool)
        requires
            moving_wf(*self),
        ensures
            r == box_contains_point(moving_bounds(*self), *point),
    {
        let b = self.bounds();
        b.0 <= point.x && point.x <= b.1 && b.2 <= point.y && point.y <= b.3
    }

    /// Advance the oscillation by `dt` ticks, recording the applied delta in
    /// `prev_move`.
    pub fn update(&mut self, dt: i64)
        requires
            moving_wf(*old(self)),
            0 <= dt <= DT_LIMIT,
        ensures
            *final(self) == update_spec(*old(self), dt as int),
            moving_wf(*final(self)),
    {
        if self.paused {
            self.prev_move = Vector2 { x: 0, y: 0 };
            return;
        }
        let total: i64 = self.seg_len * DIST_SCALE;
        proof {
            assert(self.speed * dt <= PLATFORM_SPEED_LIMIT * DT_LIMIT) by (nonlinear_arith)
                requires
                    0 <= self.speed <= PLATFORM_SPEED_LIMIT,
                    0 <= dt <= DT_LIMIT,
            ;
            vstd::arithmetic::mul::lemma_mul_nonnegative(self.speed as int, dt as int);
        }
        let traveled: i64 = self.speed * dt;
        let nd: i64;
        let flipped: bool;
        if matches!(self.dir, Direction::TowardEnd) {
            if traveled >= total - self.dist {
                nd = total;
                flipped = true;
            } else {
                nd = self.dist + traveled;
                flipped = false;
            }
        } else {
            if traveled >= self.dist {
                nd = 0;
                flipped = true;
            } else {
                nd = self.dist - traveled;
                flipped = false;
            }
        }
        let ncx: i64 = interp_exec(self.start.x, self.end.x, nd, total);
        let ncy: i64 = interp_exec(self.start.y, self.end.y, nd, total);
        proof {
            lemma_moving_center_in_range(*self);
            lemma_interp_in_range(self.start.x as int, self.end.x as int, nd as int, total as int);
            lemma_interp_in_range(self.start.y as int, self.end.y as int, nd as int, total as int);
        }
        self.prev_move = Vector2 { x: ncx - self.center.x, y: ncy - self.center.y };
        self.center = Vector2 { x: ncx, y: ncy };
        self.dist = nd;
        if flipped {
            self.dir = match self.dir {
                Direction::TowardEnd => Direction::TowardStart,
                Direction::TowardStart => Direction::TowardEnd,
            };
        }
    }
}

} // verus!
