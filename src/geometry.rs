//! Points, rectangles, platforms, the limits of the world, and travel over time.
use vstd::prelude::*;

verus! {

/// Micro-units in one world unit.
pub const UNIT: i64 = 1_000_000;

/// Microseconds in one second.
pub const MICROS_PER_SECOND: i64 = 1_000_000;

/// Largest magnitude of a coordinate or extent the simulation accepts.
pub const MAX_COORD: i64 = 1_000_000_000_000_000;

/// Largest magnitude of a velocity the simulation accepts.
pub const MAX_SPEED: i64 = 1_000_000_000_000;

/// A point, or a velocity, in micro-units.
#[derive(Clone, Copy, Debug, PartialEq, Eq, Structural)]
pub struct Vec2 {
    pub x: i64,
    pub y: i64,
}

/// An axis-aligned rectangle: top-left corner, width and height; y grows downward.
#[derive(Clone, Copy, Debug, PartialEq, Eq, Structural)]
pub struct Rect {
    pub x: i64,
    pub y: i64,
    pub w: i64,
    pub h: i64,
}

/// A static rectangle that bodies stand on and bump into.
#[derive(Clone, Copy, Debug, PartialEq, Eq, Structural)]
pub struct Platform {
    pub rect: Rect,
}

/// Every platform of the list lies within the coordinate limits.
pub open spec fn platforms_in_bounds(ps: Seq<Platform>) -> bool {
    forall|i: int| 0 <= i < ps.len() ==> (#[trigger] ps[i]).rect.in_bounds()
}

pub open spec fn min(a: int, b: int) -> int {
    if a <= b { a } else { b }
}

pub open spec fn max(a: int, b: int) -> int {
    if a >= b { a } else { b }
}

/// Division rounded toward zero.
pub open spec fn div_toward_zero(a: int, d: int) -> int {
    if a >= 0 { a / d } else { -((-a) / d) }
}

impl Vec2 {
    pub open spec fn in_bounds(self) -> bool {
        -MAX_COORD <= self.x <= MAX_COORD && -MAX_COORD <= self.y <= MAX_COORD
    }

    pub open spec fn slow_enough(self) -> bool {
        -MAX_SPEED <= self.x <= MAX_SPEED && -MAX_SPEED <= self.y <= MAX_SPEED
    }

    pub fn new(x: i64, y: i64) -> (r: Vec2)
        ensures
            r.x == x,
            r.y == y,
    {
        Vec2 { x, y }
    }
}

impl Rect {
    pub open spec fn right_edge(self) -> int {
        self.x + self.w
    }

    pub open spec fn bottom_edge(self) -> int {
        self.y + self.h
    }

    /// Width of the overlap of two rectangles; negative when they are apart.
    pub open spec fn overlap_width(self, o: Rect) -> int {
        min(self.right_edge(), o.right_edge()) - max(self.x as int, o.x as int)
    }

    /// Height of the overlap of two rectangles; negative when they are apart.
    pub open spec fn overlap_height(self, o: Rect) -> int {
        min(self.bottom_edge(), o.bottom_edge()) - max(self.y as int, o.y as int)
    }

    /// The rectangles share at least one point (edges included).
    pub open spec fn meets(self, o: Rect) -> bool {
        self.overlap_width(o) >= 0 && self.overlap_height(o) >= 0
    }

    /// The point lies in the rectangle, edges included.
    pub open spec fn covers(self, px: int, py: int) -> bool {
        self.x <= px <= self.right_edge() && self.y <= py <= self.bottom_edge()
    }

    pub open spec fn in_bounds(self) -> bool {
        &&& -MAX_COORD <= self.x <= MAX_COORD
        &&& -MAX_COORD <= self.y <= MAX_COORD
        &&& 0 <= self.w <= MAX_COORD
        &&& 0 <= self.h <= MAX_COORD
    }

    /// Rectangles that arise while a body moves: corner within a wide margin
    /// of the coordinate limit, extent within the limit.
    pub open spec fn roomy(self) -> bool {
        &&& -64 * MAX_COORD <= self.x <= 64 * MAX_COORD
        &&& -64 * MAX_COORD <= self.y <= 64 * MAX_COORD
        &&& 0 <= self.w <= MAX_COORD
        &&& 0 <= self.h <= MAX_COORD
    }

    pub fn new(x: i64, y: i64, w: i64, h: i64) -> (r: Rect)
        ensures
            r == (Rect { x, y, w, h }),
    {
        Rect { x, y, w, h }
    }

    pub fn right(&self) -> (r: i64)
        requires
            self.roomy(),
        ensures
            r == self.right_edge(),
    {
        self.x + self.w
    }

    pub fn bottom(&self) -> (r: i64)
        requires
            self.roomy(),
        ensures
            r == self.bottom_edge(),
    {
        self.y + self.h
    }

    /// The overlap of two rectangles, if they meet (touching edges count).
    pub fn intersect(&self, other: &Rect) -> (r: Option<Rect>)
        requires
            self.roomy(),
            other.roomy(),
        ensures
            r.is_some() == self.meets(*other),
            r matches Some(i) ==> {
                &&& i.x == max(self.x as int, other.x as int)
                &&& i.y == max(self.y as int, other.y as int)
                &&& i.w == self.overlap_width(*other)
                &&& i.h == self.overlap_height(*other)
            },
    {
        let left = if self.x >= other.x { self.x } else { other.x };
        let top = if self.y >= other.y { self.y } else { other.y };
        let right = if self.right() <= other.right() { self.right() } else { other.right() };
        let bottom = if self.bottom() <= other.bottom() { self.bottom() } else { other.bottom() };
        if right < left || bottom < top {
            None
        } else {
            Some(Rect { x: left, y: top, w: right - left, h: bottom - top })
        }
    }

    /// Whether the point lies in the rectangle, edges included.
    pub fn contains(&self, point: Vec2) -> (r: bool)
        requires
            self.roomy(),
        ensures
            r == self.covers(point.x as int, point.y as int),
    {
        point.x >= self.x && point.x <= self.right() && point.y <= self.bottom() && point.y >= self.y
    }
}

/// Largest magnitude of a velocity that a frame's integration handles.
pub const MAX_FRAME_SPEED: i64 = 8 * MAX_SPEED;

/// Largest distance covered in one frame.
pub const MAX_TRAVEL: i64 = 40 * MAX_COORD;

/// Distance covered in `dt` microseconds at velocity `v`, rounded toward zero.
pub open spec fn travel(v: int, dt: int) -> int {
    div_toward_zero(v * dt, MICROS_PER_SECOND as int)
}

proof fn lemma_travel_bounded(v: int, dt: int)
    requires
        -MAX_FRAME_SPEED <= v <= MAX_FRAME_SPEED,
        0 <= dt <= u32::MAX,
    ensures
        -MAX_TRAVEL <= travel(v, dt) <= MAX_TRAVEL,
        v == 0 ==> travel(v, dt) == 0,
{
    let p = v * dt;
    assert(-MAX_FRAME_SPEED * u32::MAX <= p <= MAX_FRAME_SPEED * u32::MAX) by (nonlinear_arith)
        requires
            -MAX_FRAME_SPEED <= v <= MAX_FRAME_SPEED,
            0 <= dt <= u32::MAX,
            p == v * dt,
    ;
    let a = if p >= 0 { p } else { -p };
    assert(0 <= a / 1_000_000 <= MAX_TRAVEL) by (nonlinear_arith)
        requires
            0 <= a <= MAX_FRAME_SPEED * u32::MAX,
    ;
}

/// Distance covered in `dt` microseconds at velocity `v`, rounded toward zero.
pub fn travel_exec(v: i64, dt: u32) -> (r: i64)
    requires
        -MAX_FRAME_SPEED <= v <= MAX_FRAME_SPEED,
    ensures
        r == travel(v as int, dt as int),
        -MAX_TRAVEL <= r <= MAX_TRAVEL,
{
    proof {
        lemma_travel_bounded(v as int, dt as int);
        assert(-MAX_FRAME_SPEED * u32::MAX <= v * dt <= MAX_FRAME_SPEED * u32::MAX) by (nonlinear_arith)
            requires
                -MAX_FRAME_SPEED <= v <= MAX_FRAME_SPEED,
                0 <= dt <= u32::MAX,
        ;
    }
    let p: i128 = (v as i128) * (dt as i128);
    let q: i128 = if p >= 0 { p / 1_000_000 } else { -((-p) / 1_000_000) };
    q as i64
}

} // verus!
