//! Integration shared by every moving body: gravity, travel, the floor of the screen.
use vstd::prelude::*;
use crate::geometry::{travel, travel_exec, Rect, Vec2, MAX_COORD, MAX_FRAME_SPEED, MAX_SPEED, MAX_TRAVEL};

verus! {

/// Downward acceleration of 980 units/s²: the velocity gains 980 micro-units
/// per second in each microsecond.
pub const GRAVITY: i64 = 980;

/// Velocity gained from gravity over `dt` microseconds.
pub open spec fn gravity_gain(dt: int) -> int {
    GRAVITY * dt
}

/// The vertical velocity after `dt` microseconds of gravity.
pub fn fall(vy: i64, dt: u32) -> (r: i64)
    requires
        -MAX_SPEED <= vy <= MAX_SPEED,
    ensures
        r == vy + gravity_gain(dt as int),
        -MAX_SPEED <= r <= MAX_FRAME_SPEED,
{
    vy + GRAVITY * (dt as i64)
}

/// Where a body at `pos` with velocity `vel` is after `dt` microseconds.
pub open spec fn advanced(pos: Vec2, vel: Vec2, dt: int) -> Vec2 {
    Vec2 {
        x: (pos.x + travel(vel.x as int, dt)) as i64,
        y: (pos.y + travel(vel.y as int, dt)) as i64,
    }
}

pub fn advance(pos: Vec2, vel: Vec2, dt: u32) -> (r: Vec2)
    requires
        pos.in_bounds(),
        -MAX_FRAME_SPEED <= vel.x <= MAX_FRAME_SPEED,
        -MAX_FRAME_SPEED <= vel.y <= MAX_FRAME_SPEED,
    ensures
        r == advanced(pos, vel, dt as int),
        r.x == pos.x + travel(vel.x as int, dt as int),
        r.y == pos.y + travel(vel.y as int, dt as int),
        -MAX_COORD - MAX_TRAVEL <= r.x <= MAX_COORD + MAX_TRAVEL,
        -MAX_COORD - MAX_TRAVEL <= r.y <= MAX_COORD + MAX_TRAVEL,
{
    let dx = travel_exec(vel.x, dt);
    let dy = travel_exec(vel.y, dt);
    Vec2 { x: pos.x + dx, y: pos.y + dy }
}

/// The rectangle of a body of the given size at `pos`.
pub open spec fn footprint(pos: Vec2, w: i64, h: i64) -> Rect {
    Rect { x: pos.x, y: pos.y, w, h }
}

} // verus!
