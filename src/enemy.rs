//! Patrolling enemies: walk back and forth, turn at platform edges, land on platforms.
use vstd::prelude::*;
use crate::body::{advance, advanced, fall, footprint, gravity_gain};
use crate::geometry::{platforms_in_bounds, Platform, Rect, Vec2, MAX_COORD, MAX_SPEED, UNIT};

verus! {

pub const ENEMY_WIDTH: i64 = 32 * UNIT;

pub const ENEMY_HEIGHT: i64 = 32 * UNIT;

/// Patrol speed, per second.
pub const ENEMY_SPEED: i64 = 50 * UNIT;

/// How far beyond the leading edge and below the feet the ground is probed.
pub const PROBE_REACH: i64 = 5 * UNIT;

#[derive(Clone, Copy, Debug, PartialEq, Eq, Structural)]
pub struct Enemy {
    pub pos: Vec2,
    pub velocity: Vec2,
    pub moving_right: bool,
    /// The enemy's rectangle, kept in step with `pos`.
    pub rect: Rect,
}

/// The enemy's rectangle when it stands at `pos`.
pub open spec fn enemy_rect(pos: Vec2) -> Rect {
    footprint(pos, ENEMY_WIDTH, ENEMY_HEIGHT)
}

/// Horizontal coordinate of the ground probe, just past the leading edge.
pub open spec fn probe_x(e: Enemy) -> int {
    if e.moving_right {
        e.pos.x + ENEMY_WIDTH + PROBE_REACH
    } else {
        e.pos.x - PROBE_REACH
    }
}

/// Vertical coordinate of the ground probe, just below the feet.
pub open spec fn probe_y(e: Enemy) -> int {
    e.pos.y + ENEMY_HEIGHT + PROBE_REACH
}

/// The probe rests on a platform, or lies at or past the bottom of the screen.
pub open spec fn probe_supported(e: Enemy, plats: Seq<Platform>, screen_height: int) -> bool {
    probe_y(e) >= screen_height || exists|i: int|
        0 <= i < plats.len() && (#[trigger] plats[i]).rect.covers(probe_x(e), probe_y(e))
}

/// Resolution of one platform: an enemy only lands on top while falling.
pub open spec fn enemy_contact(body: Rect, plat: Rect, e: Enemy) -> Enemy {
    if body.meets(plat) && e.velocity.y > 0 && body.overlap_height(plat) < body.overlap_width(
        plat,
    ) {
        Enemy {
            pos: Vec2 { x: e.pos.x, y: (plat.y - ENEMY_HEIGHT) as i64 },
            velocity: Vec2 { x: e.velocity.x, y: 0 },
            moving_right: e.moving_right,
            rect: e.rect,
        }
    } else {
        e
    }
}

/// The platforms resolved one after another, in list order.
pub open spec fn enemy_contacts(body: Rect, plats: Seq<Platform>, e: Enemy) -> Enemy
    decreases plats.len(),
{
    if plats.len() == 0 {
        e
    } else {
        enemy_contact(body, plats.last().rect, enemy_contacts(body, plats.drop_last(), e))
    }
}

/// The enemy before collisions: direction read, probe taken, gravity applied, moved.
pub open spec fn enemy_moving(e: Enemy, dt: int, plats: Seq<Platform>, screen_height: int) -> Enemy {
    let vel = Vec2 {
        x: if e.moving_right { ENEMY_SPEED } else { (-ENEMY_SPEED) as i64 },
        y: (e.velocity.y + gravity_gain(dt)) as i64,
    };
    Enemy {
        pos: advanced(e.pos, vel, dt),
        velocity: vel,
        moving_right: if probe_supported(e, plats, screen_height) {
            e.moving_right
        } else {
            !e.moving_right
        },
        rect: e.rect,
    }
}

/// One frame of an enemy.
pub open spec fn enemy_step(e: Enemy, dt: int, plats: Seq<Platform>, screen_height: int) -> Enemy {
    let moving = enemy_moving(e, dt, plats, screen_height);
    let hit = enemy_contacts(enemy_rect(moving.pos), plats, moving);
    let pos = if hit.pos.y > screen_height - ENEMY_HEIGHT {
        Vec2 { x: hit.pos.x, y: (screen_height - ENEMY_HEIGHT) as i64 }
    } else {
        hit.pos
    };
    let vy = if hit.pos.y > screen_height - ENEMY_HEIGHT {
        0
    } else {
        hit.velocity.y
    };
    Enemy {
        pos,
        velocity: Vec2 { x: hit.velocity.x, y: vy },
        moving_right: hit.moving_right,
        rect: enemy_rect(pos),
    }
}

impl Enemy {
    /// Position and velocity lie within the limits that one frame can handle,
    /// and the rectangle sits at the position.
    pub open spec fn in_bounds(self) -> bool {
        &&& self.pos.in_bounds()
        &&& self.velocity.slow_enough()
        &&& self.rect == enemy_rect(self.pos)
    }

    /// A freshly placed enemy at (x, y): walking right, not yet falling.
    pub open spec fn spawned(x: int, y: int) -> Enemy {
        let pos = Vec2 { x: x as i64, y: y as i64 };
        Enemy {
            pos,
            velocity: Vec2 { x: ENEMY_SPEED, y: 0 },
            moving_right: true,
            rect: enemy_rect(pos),
        }
    }

    /// An enemy at (x, y), walking right.
    pub fn new(x: i64, y: i64) -> (r: Enemy)
        ensures
            r == Enemy::spawned(x as int, y as int),
            -MAX_COORD <= x <= MAX_COORD && -MAX_COORD <= y <= MAX_COORD ==> r.in_bounds(),
    {
        let pos = Vec2::new(x, y);
        Enemy {
            pos,
            velocity: Vec2::new(ENEMY_SPEED, 0),
            moving_right: true,
            rect: Rect::new(pos.x, pos.y, ENEMY_WIDTH, ENEMY_HEIGHT),
        }
    }

    /// Whether the enemy lies within the limits that `update` accepts.
    pub fn fits(&self) -> (r: bool)
        ensures
            r == self.in_bounds(),
    {
        -MAX_COORD <= self.pos.x && self.pos.x <= MAX_COORD && -MAX_COORD <= self.pos.y
            && self.pos.y <= MAX_COORD && -MAX_SPEED <= self.velocity.x && self.velocity.x
            <= MAX_SPEED && -MAX_SPEED <= self.velocity.y && self.velocity.y <= MAX_SPEED
            && self.rect == Rect::new(self.pos.x, self.pos.y, ENEMY_WIDTH, ENEMY_HEIGHT)
    }

    /// Whether the ground probe finds support; the search stops at the first
    /// platform that holds the probe.
    fn ground_ahead(&self, platforms: &[Platform], screen_height: i64) -> (r: bool)
        requires
            self.pos.in_bounds(),
            platforms_in_bounds(platforms@),
        ensures
            r == probe_supported(*self, platforms@, screen_height as int),
    {
        let probe = Vec2::new(
            self.pos.x + if self.moving_right {
                ENEMY_WIDTH + PROBE_REACH
            } else {
                -PROBE_REACH
            },
            self.pos.y + ENEMY_HEIGHT + PROBE_REACH,
        );
        if probe.y >= screen_height {
            return true;
        }
        let mut i: usize = 0;
        while i < platforms.len()
            invariant
                0 <= i <= platforms@.len(),
                platforms_in_bounds(platforms@),
                probe.x == probe_x(*self),
                probe.y == probe_y(*self),
                forall|j: int| 0 <= j < i ==> !(#[trigger] platforms@[j]).rect.covers(probe.x as int, probe.y as int),
            decreases platforms@.len() - i,
        {
            assert(platforms@[i as int].rect.in_bounds());
            if platforms[i].rect.contains(probe) {
                return true;
            }
            i = i + 1;
        }
        false
    }

    /// Advances the enemy by `dt` microseconds against the platforms, with the
    /// screen's bottom edge `screen_height` as a floor.
    pub fn update(&mut self, dt: u32, platforms: &[Platform], screen_height: i64)
        requires
            old(self).in_bounds(),
            platforms_in_bounds(platforms@),
            0 <= screen_height <= MAX_COORD,
        ensures
            *final(self) == enemy_step(*old(self), dt as int, platforms@, screen_height as int),
    {
        let ghost start = *self;
        self.velocity.x = if self.moving_right { ENEMY_SPEED } else { -ENEMY_SPEED };
        if !self.ground_ahead(platforms, screen_height) {
            self.moving_right = !self.moving_right;
        }
        self.velocity.y = fall(self.velocity.y, dt);
        self.pos = advance(self.pos, self.velocity, dt);
        let ghost moving = *self;
        assert(moving == enemy_moving(start, dt as int, platforms@, screen_height as int));
        let body = Rect::new(self.pos.x, self.pos.y, ENEMY_WIDTH, ENEMY_HEIGHT);
        let mut i: usize = 0;
        while i < platforms.len()
            invariant
                0 <= i <= platforms@.len(),
                platforms_in_bounds(platforms@),
                body == enemy_rect(moving.pos),
                body.roomy(),
                *self == enemy_contacts(body, platforms@.subrange(0, i as int), moving),
            decreases platforms@.len() - i,
        {
            let plat = platforms[i].rect;
            assert(platforms@.subrange(0, i + 1).drop_last() =~= platforms@.subrange(0, i as int));
            assert(plat.in_bounds());
            match body.intersect(&plat) {
                Some(overlap) => {
                    if self.velocity.y > 0 && overlap.h < overlap.w {
                        self.pos.y = plat.y - ENEMY_HEIGHT;
                        self.velocity.y = 0;
                    }
                },
                None => {},
            }
            i = i + 1;
        }
        assert(platforms@.subrange(0, platforms@.len() as int) =~= platforms@);
        if self.pos.y > screen_height - ENEMY_HEIGHT {
            self.pos.y = screen_height - ENEMY_HEIGHT;
            self.velocity.y = 0;
        }
        self.rect = Rect::new(self.pos.x, self.pos.y, ENEMY_WIDTH, ENEMY_HEIGHT);
    }
}

} // verus!
