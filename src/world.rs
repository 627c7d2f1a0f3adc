//! A level: the player, the enemies and the platforms, advanced frame by frame.
use vstd::prelude::*;
use crate::enemy::{enemy_step, Enemy};
use crate::geometry::{platforms_in_bounds, Platform, Rect, MAX_COORD, UNIT};
use crate::player::{player_step, Input, Player};

verus! {

pub struct World {
    pub player: Player,
    pub enemies: Vec<Enemy>,
    pub platforms: Vec<Platform>,
}

/// Horizontal scroll of a camera that keeps the player centred, never left of zero.
pub open spec fn camera_offset(player_x: int, screen_width: int) -> int {
    if player_x - screen_width / 2 > 0 {
        player_x - screen_width / 2
    } else {
        0
    }
}

pub fn camera_x(player_x: i64, screen_width: i64) -> (r: i64)
    requires
        -MAX_COORD <= player_x <= MAX_COORD,
        0 <= screen_width <= MAX_COORD,
    ensures
        r == camera_offset(player_x as int, screen_width as int),
{
    let shifted = player_x - screen_width / 2;
    if shifted > 0 {
        shifted
    } else {
        0
    }
}

/// A platform with the given corner and extent.
pub open spec fn ledge(x: int, y: int, w: int, h: int) -> Platform {
    Platform { rect: Rect { x: x as i64, y: y as i64, w: w as i64, h: h as i64 } }
}

impl World {
    /// Every body and platform lies within the limits that a frame handles,
    /// and the screen's height is within the coordinate limit.
    pub open spec fn in_bounds(&self, screen_height: int) -> bool {
        &&& self.player.in_bounds()
        &&& forall|i: int| 0 <= i < self.enemies@.len() ==> (#[trigger] self.enemies@[i]).in_bounds()
        &&& platforms_in_bounds(self.platforms@)
        &&& 0 <= screen_height <= MAX_COORD
    }

    /// The demo level for a screen of the given size: a floor across the screen,
    /// four ledges, three enemies.
    pub fn demo(screen_width: i64, screen_height: i64) -> (r: World)
        requires
            0 <= screen_width <= MAX_COORD / 2,
            0 <= screen_height <= MAX_COORD / 2,
        ensures
            r.player == Player::start(),
            r.platforms@ == seq![
                ledge(0, screen_height - 40 * UNIT, screen_width as int, 40 * UNIT),
                ledge(300 * UNIT, screen_height - 200 * UNIT, 200 * UNIT, 20 * UNIT),
                ledge(600 * UNIT, screen_height - 150 * UNIT, 150 * UNIT, 20 * UNIT),
                ledge(900 * UNIT, screen_height - 300 * UNIT, 200 * UNIT, 20 * UNIT),
                ledge(1200 * UNIT, screen_height - 250 * UNIT, 180 * UNIT, 20 * UNIT),
            ],
            r.enemies@.len() == 3,
            r.enemies@[0] == Enemy::spawned(400 * UNIT, screen_height - 250 * UNIT),
            r.enemies@[1] == Enemy::spawned(700 * UNIT, screen_height - 200 * UNIT),
            r.enemies@[2] == Enemy::spawned(1100 * UNIT, screen_height - 350 * UNIT),
            r.in_bounds(screen_height as int),
    {
        let platforms = vec![
            Platform { rect: Rect::new(0, screen_height - 40 * UNIT, screen_width, 40 * UNIT) },
            Platform { rect: Rect::new(300 * UNIT, screen_height - 200 * UNIT, 200 * UNIT, 20 * UNIT) },
            Platform { rect: Rect::new(600 * UNIT, screen_height - 150 * UNIT, 150 * UNIT, 20 * UNIT) },
            Platform { rect: Rect::new(900 * UNIT, screen_height - 300 * UNIT, 200 * UNIT, 20 * UNIT) },
            Platform { rect: Rect::new(1200 * UNIT, screen_height - 250 * UNIT, 180 * UNIT, 20 * UNIT) },
        ];
        let enemies = vec![
            Enemy::new(400 * UNIT, screen_height - 250 * UNIT),
            Enemy::new(700 * UNIT, screen_height - 200 * UNIT),
            Enemy::new(1100 * UNIT, screen_height - 350 * UNIT),
        ];
        let r = World { player: Player::new(), enemies, platforms };
        assert(platforms_in_bounds(r.platforms@));
        r
    }

    /// Whether the world lies within the limits that `step` accepts.
    pub fn fits(&self, screen_height: i64) -> (r: bool)
        ensures
            r == self.in_bounds(screen_height as int),
    {
        if screen_height < 0 || screen_height > MAX_COORD || !self.player.fits() {
            return false;
        }
        let mut i: usize = 0;
        while i < self.enemies.len()
            invariant
                0 <= i <= self.enemies@.len(),
                forall|j: int| 0 <= j < i ==> (#[trigger] self.enemies@[j]).in_bounds(),
            decreases self.enemies@.len() - i,
        {
            if !self.enemies[i].fits() {
                return false;
            }
            i = i + 1;
        }
        let mut k: usize = 0;
        while k < self.platforms.len()
            invariant
                0 <= k <= self.platforms@.len(),
                forall|j: int| 0 <= j < k ==> (#[trigger] self.platforms@[j]).rect.in_bounds(),
            decreases self.platforms@.len() - k,
        {
            let r = self.platforms[k].rect;
            if r.x < -MAX_COORD || r.x > MAX_COORD || r.y < -MAX_COORD || r.y > MAX_COORD || r.w < 0
                || r.w > MAX_COORD || r.h < 0 || r.h > MAX_COORD {
                return false;
            }
            k = k + 1;
        }
        true
    }

    /// One frame: the player first, then each enemy in list order, all against
    /// the same platforms.
    pub fn step(&mut self, dt: u32, input: Input, screen_height: i64)
        requires
            old(self).in_bounds(screen_height as int),
        ensures
            final(self).player == player_step(
                old(self).player,
                dt as int,
                input,
                old(self).platforms@,
                screen_height as int,
            ),
            final(self).enemies@.len() == old(self).enemies@.len(),
            forall|i: int|
                0 <= i < old(self).enemies@.len() ==> #[trigger] final(self).enemies@[i] == enemy_step(
                    old(self).enemies@[i],
                    dt as int,
                    old(self).platforms@,
                    screen_height as int,
                ),
            final(self).platforms@ == old(self).platforms@,
    {
        self.player.update(dt, input, self.platforms.as_slice(), screen_height);
        let ghost before = self.enemies@;
        let mut i: usize = 0;
        while i < self.enemies.len()
            invariant
                0 <= i <= self.enemies@.len(),
                self.enemies@.len() == before.len(),
                platforms_in_bounds(self.platforms@),
                0 <= screen_height <= MAX_COORD,
                self.platforms@ == old(self).platforms@,
                self.player == player_step(
                    old(self).player,
                    dt as int,
                    input,
                    old(self).platforms@,
                    screen_height as int,
                ),
                forall|j: int| 0 <= j < before.len() ==> (#[trigger] before[j]).in_bounds(),
                forall|j: int|
                    0 <= j < i ==> #[trigger] self.enemies@[j] == enemy_step(
                        before[j],
                        dt as int,
                        self.platforms@,
                        screen_height as int,
                    ),
                forall|j: int| i <= j < before.len() ==> #[trigger] self.enemies@[j] == before[j],
            decreases before.len() - i,
        {
            let mut e = self.enemies[i];
            e.update(dt, self.platforms.as_slice(), screen_height);
            self.enemies.set(i, e);
            i = i + 1;
        }
    }
}

} // verus!
