//! The controllable character: input, jumping, full collision against platforms.
use vstd::prelude::*;
use crate::body::{advance, advanced, fall, footprint, gravity_gain};
use crate::geometry::{
    div_toward_zero, platforms_in_bounds, Platform, Rect, Vec2, MAX_COORD, MAX_SPEED, UNIT,
};

verus! {

pub const PLAYER_WIDTH: i64 = 32 * UNIT;

pub const PLAYER_HEIGHT: i64 = 48 * UNIT;

/// Horizontal speed while a direction is held, per second.
pub const PLAYER_SPEED: i64 = 200 * UNIT;

/// Upward speed given by a jump, per second.
pub const JUMP_STRENGTH: i64 = 500 * UNIT;

/// The controls sampled for one frame.
#[derive(Clone, Copy, Debug, PartialEq, Eq, Structural)]
pub struct Input {
    /// A left key is held.
    pub left: bool,
    /// A right key is held.
    pub right: bool,
    /// A jump key went down this frame.
    pub jump: bool,
}

#[derive(Clone, Copy, Debug, PartialEq, Eq, Structural)]
pub struct Player {
    pub pos: Vec2,
    pub velocity: Vec2,
    pub grounded: bool,
    pub facing_right: bool,
}

/// Horizontal velocity asked for by the held keys; both directions cancel.
pub open spec fn intended_speed(input: Input) -> int {
    (if input.left { -PLAYER_SPEED } else { 0int }) + (if input.right { PLAYER_SPEED as int } else { 0int })
}

/// Facing after the held keys; right wins when both are held.
pub open spec fn facing_after(input: Input, facing_right: bool) -> bool {
    if input.right {
        true
    } else if input.left {
        false
    } else {
        facing_right
    }
}

/// Ground friction: four fifths of the velocity are kept each grounded frame.
pub open spec fn friction(vx: int) -> int {
    div_toward_zero(4 * vx, 5)
}

/// The player's rectangle when it stands at `pos`.
pub open spec fn player_rect(pos: Vec2) -> Rect {
    footprint(pos, PLAYER_WIDTH, PLAYER_HEIGHT)
}

/// Resolution of one platform against the moved rectangle `body`: land on top
/// when falling and the overlap is flatter than wide, bump the head when rising
/// and it is taller than wide, otherwise stop at a side in the direction of travel.
pub open spec fn player_contact(body: Rect, plat: Rect, pl: Player) -> Player {
    if !body.meets(plat) {
        pl
    } else if pl.velocity.y > 0 && body.overlap_height(plat) < body.overlap_width(plat) {
        Player {
            pos: Vec2 { x: pl.pos.x, y: (plat.y - PLAYER_HEIGHT) as i64 },
            velocity: Vec2 { x: pl.velocity.x, y: 0 },
            grounded: true,
            facing_right: pl.facing_right,
        }
    } else if pl.velocity.y < 0 && body.overlap_height(plat) > body.overlap_width(plat) {
        Player {
            pos: Vec2 { x: pl.pos.x, y: plat.bottom_edge() as i64 },
            velocity: Vec2 { x: pl.velocity.x, y: 0 },
            grounded: pl.grounded,
            facing_right: pl.facing_right,
        }
    } else if pl.velocity.x > 0 {
        Player {
            pos: Vec2 { x: (plat.x - PLAYER_WIDTH) as i64, y: pl.pos.y },
            velocity: Vec2 { x: 0, y: pl.velocity.y },
            grounded: pl.grounded,
            facing_right: pl.facing_right,
        }
    } else if pl.velocity.x < 0 {
        Player {
            pos: Vec2 { x: plat.right_edge() as i64, y: pl.pos.y },
            velocity: Vec2 { x: 0, y: pl.velocity.y },
            grounded: pl.grounded,
            facing_right: pl.facing_right,
        }
    } else {
        pl
    }
}

/// The platforms resolved one after another, in list order.
pub open spec fn player_contacts(body: Rect, plats: Seq<Platform>, pl: Player) -> Player
    decreases plats.len(),
{
    if plats.len() == 0 {
        pl
    } else {
        player_contact(body, plats.last().rect, player_contacts(body, plats.drop_last(), pl))
    }
}

/// The player after the bottom of the screen: pushed up onto it, if below.
pub open spec fn player_floored(pl: Player, screen_height: int) -> Player {
    if pl.pos.y > screen_height - PLAYER_HEIGHT {
        Player {
            pos: Vec2 { x: pl.pos.x, y: (screen_height - PLAYER_HEIGHT) as i64 },
            velocity: Vec2 { x: pl.velocity.x, y: 0 },
            grounded: true,
            facing_right: pl.facing_right,
        }
    } else {
        pl
    }
}

/// The player before collisions: keys read, jump and gravity applied, moved.
pub open spec fn player_moving(pl: Player, dt: int, input: Input) -> Player {
    let vy = if input.jump && pl.grounded { -JUMP_STRENGTH } else { pl.velocity.y as int };
    let vel = Vec2 { x: intended_speed(input) as i64, y: (vy + gravity_gain(dt)) as i64 };
    Player {
        pos: advanced(pl.pos, vel, dt),
        velocity: vel,
        grounded: false,
        facing_right: facing_after(input, pl.facing_right),
    }
}

/// One frame of the player.
pub open spec fn player_step(
    pl: Player,
    dt: int,
    input: Input,
    plats: Seq<Platform>,
    screen_height: int,
) -> Player {
    let moving = player_moving(pl, dt, input);
    let hit = player_contacts(player_rect(moving.pos), plats, moving);
    let floored = player_floored(hit, screen_height);
    if floored.grounded {
        Player {
            pos: floored.pos,
            velocity: Vec2 { x: friction(floored.velocity.x as int) as i64, y: floored.velocity.y },
            grounded: true,
            facing_right: floored.facing_right,
        }
    } else {
        floored
    }
}

impl Player {
    /// Position and velocity lie within the limits that one frame can handle.
    pub open spec fn in_bounds(self) -> bool {
        self.pos.in_bounds() && self.velocity.slow_enough()
    }

    /// The player at the start of a level: at (100, 100), at rest, airborne, facing right.
    pub open spec fn start() -> Player {
        Player {
            pos: Vec2 { x: (100 * UNIT) as i64, y: (100 * UNIT) as i64 },
            velocity: Vec2 { x: 0, y: 0 },
            grounded: false,
            facing_right: true,
        }
    }

    pub fn new() -> (r: Player)
        ensures
            r == Player::start(),
            r.in_bounds(),
    {
        Player {
            pos: Vec2 { x: (100 * UNIT) as i64, y: (100 * UNIT) as i64 },
            velocity: Vec2 { x: 0, y: 0 },
            grounded: false,
            facing_right: true,
        }
    }

    /// Whether the player lies within the limits that `update` accepts.
    pub fn fits(&self) -> (r: bool)
        ensures
            r == self.in_bounds(),
    {
        -MAX_COORD <= self.pos.x && self.pos.x <= MAX_COORD && -MAX_COORD <= self.pos.y
            && self.pos.y <= MAX_COORD && -MAX_SPEED <= self.velocity.x && self.velocity.x
            <= MAX_SPEED && -MAX_SPEED <= self.velocity.y && self.velocity.y <= MAX_SPEED
    }

    /// The player's rectangle.
    pub fn rect(&self) -> (r: Rect)
        ensures
            r == player_rect(self.pos),
    {
        Rect::new(self.pos.x, self.pos.y, PLAYER_WIDTH, PLAYER_HEIGHT)
    }

    /// Advances the player by `dt` microseconds against the platforms, with the
    /// screen's bottom edge `screen_height` as a floor.
    pub fn update(&mut self, dt: u32, input: Input, platforms: &[Platform], screen_height: i64)
        requires
            old(self).in_bounds(),
            platforms_in_bounds(platforms@),
            0 <= screen_height <= MAX_COORD,
        ensures
            *final(self) == player_step(*old(self), dt as int, input, platforms@, screen_height as int),
    {
        let ghost start = *self;
        let mut speed: i64 = 0;
        if input.left {
            speed = speed - PLAYER_SPEED;
            self.facing_right = false;
        }
        if input.right {
            speed = speed + PLAYER_SPEED;
            self.facing_right = true;
        }
        if input.jump && self.grounded {
            self.velocity.y = -JUMP_STRENGTH;
            self.grounded = false;
        }
        self.velocity.y = fall(self.velocity.y, dt);
        self.velocity.x = speed;
        self.pos = advance(self.pos, self.velocity, dt);
        self.grounded = false;
        let ghost moving = *self;
        assert(moving == player_moving(start, dt as int, input));
        let body = self.rect();
        let mut i: usize = 0;
        while i < platforms.len()
            invariant
                0 <= i <= platforms@.len(),
                platforms_in_bounds(platforms@),
                body == player_rect(moving.pos),
                body.roomy(),
                *self == player_contacts(body, platforms@.subrange(0, i as int), moving),
                -PLAYER_SPEED <= self.velocity.x <= PLAYER_SPEED,
            decreases platforms@.len() - i,
        {
            let plat = platforms[i].rect;
            assert(platforms@.subrange(0, i + 1).drop_last() =~= platforms@.subrange(0, i as int));
            assert(plat.in_bounds());
            match body.intersect(&plat) {
                Some(overlap) => {
                    if self.velocity.y > 0 && overlap.h < overlap.w {
                        self.pos.y = plat.y - PLAYER_HEIGHT;
                        self.velocity.y = 0;
                        self.grounded = true;
                    } else if self.velocity.y < 0 && overlap.h > overlap.w {
                        self.pos.y = plat.bottom();
                        self.velocity.y = 0;
                    } else if self.velocity.x > 0 {
                        self.pos.x = plat.x - PLAYER_WIDTH;
                        self.velocity.x = 0;
                    } else if self.velocity.x < 0 {
                        self.pos.x = plat.right();
                        self.velocity.x = 0;
                    }
                },
                None => {},
            }
            i = i + 1;
        }
        assert(platforms@.subrange(0, platforms@.len() as int) =~= platforms@);
        if self.pos.y > screen_height - PLAYER_HEIGHT {
            self.pos.y = screen_height - PLAYER_HEIGHT;
            self.velocity.y = 0;
            self.grounded = true;
        }
        if self.grounded {
            let kept = self.velocity.x * 4;
            self.velocity.x = if kept >= 0 { kept / 5 } else { -((-kept) / 5) };
        }
    }
}

} // verus!
