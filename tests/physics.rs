use platformer::body::{advance, fall};
use platformer::enemy::Enemy;
use platformer::geometry::{travel_exec, Platform, Rect, Vec2, UNIT};
use platformer::player::{Input, Player};
use platformer::world::{camera_x, World};

const SCREEN_H: i64 = 600 * UNIT;
const FRAME: u32 = 16_000;

fn idle() -> Input {
    Input { left: false, right: false, jump: false }
}

fn ledge(x: i64, y: i64, w: i64, h: i64) -> Platform {
    Platform { rect: Rect::new(x * UNIT, y * UNIT, w * UNIT, h * UNIT) }
}

#[test]
fn player_falls_freely_for_one_frame() {
    let mut p = Player::new();
    p.update(FRAME, idle(), &[], SCREEN_H);
    assert_eq!(p.velocity.y, 15_680_000);
    assert_eq!(p.pos.y, 100_250_880);
    assert_eq!(p.pos.x, 100 * UNIT);
    assert!(!p.grounded);
}

#[test]
fn airborne_velocity_grows_by_gravity() {
    let mut p = Player::new();
    p.velocity.y = -3 * UNIT;
    let before = p.velocity.y;
    p.update(1_000, idle(), &[], SCREEN_H);
    assert_eq!(p.velocity.y, before + 980 * 1_000);
    assert!(p.velocity.y > before);
}

#[test]
fn player_clamped_to_screen_bottom() {
    let mut p = Player::new();
    p.pos.y = 560 * UNIT;
    p.velocity.y = 300 * UNIT;
    p.update(FRAME, idle(), &[], SCREEN_H);
    assert_eq!(p.pos.y + 48 * UNIT, SCREEN_H);
    assert_eq!(p.velocity.y, 0);
    assert!(p.grounded);
}

#[test]
fn player_resting_on_platform_stays() {
    let plats = [ledge(300, 400, 200, 20)];
    let mut p = Player::new();
    p.pos = Vec2::new(350 * UNIT, 352 * UNIT);
    p.grounded = true;
    let start = p;
    for _ in 0..50 {
        p.update(FRAME, idle(), &plats, SCREEN_H);
        assert_eq!(p, start);
    }
}

#[test]
fn falling_player_lands_on_platform() {
    let plats = [ledge(300, 400, 200, 20)];
    let mut p = Player::new();
    p.pos = Vec2::new(350 * UNIT, 351 * UNIT);
    p.velocity.y = 100 * UNIT;
    p.update(FRAME, idle(), &plats, SCREEN_H);
    assert_eq!(p.pos.y, 352 * UNIT);
    assert_eq!(p.velocity.y, 0);
    assert!(p.grounded);
}

#[test]
fn jump_ignored_while_airborne() {
    let mut a = Player::new();
    let mut b = Player::new();
    a.update(FRAME, Input { left: false, right: false, jump: true }, &[], SCREEN_H);
    b.update(FRAME, idle(), &[], SCREEN_H);
    assert_eq!(a, b);
    assert_eq!(a.velocity.y, 15_680_000);
}

#[test]
fn jump_from_ground() {
    let plats = [ledge(300, 400, 200, 20)];
    let mut p = Player::new();
    p.pos = Vec2::new(350 * UNIT, 352 * UNIT);
    p.grounded = true;
    p.update(FRAME, Input { left: false, right: false, jump: true }, &plats, SCREEN_H);
    assert_eq!(p.velocity.y, -500 * UNIT + 15_680_000);
    assert_eq!(p.pos.y, 352 * UNIT - 7_749_120);
    assert!(!p.grounded);
}

#[test]
fn idle_player_has_no_horizontal_velocity() {
    let plats = [ledge(300, 400, 200, 20)];
    let mut p = Player::new();
    p.pos = Vec2::new(350 * UNIT, 352 * UNIT);
    p.grounded = true;
    p.velocity.x = 160 * UNIT;
    p.update(FRAME, idle(), &plats, SCREEN_H);
    assert_eq!(p.velocity.x, 0);
    assert_eq!(p.pos.x, 350 * UNIT);
}

#[test]
fn grounded_walk_keeps_four_fifths() {
    let plats = [ledge(300, 400, 200, 20)];
    let mut p = Player::new();
    p.pos = Vec2::new(350 * UNIT, 352 * UNIT);
    p.grounded = true;
    p.update(FRAME, Input { left: false, right: true, jump: false }, &plats, SCREEN_H);
    assert_eq!(p.pos.x, 350 * UNIT + 3_200_000);
    assert_eq!(p.velocity.x, 160 * UNIT);
    assert!(p.facing_right);
    p.update(FRAME, Input { left: true, right: false, jump: false }, &plats, SCREEN_H);
    assert_eq!(p.pos.x, 350 * UNIT);
    assert_eq!(p.velocity.x, -160 * UNIT);
    assert!(!p.facing_right);
}

#[test]
fn both_directions_cancel_and_face_right() {
    let mut p = Player::new();
    p.facing_right = false;
    p.update(FRAME, Input { left: true, right: true, jump: false }, &[], SCREEN_H);
    assert_eq!(p.velocity.x, 0);
    assert!(p.facing_right);
}

#[test]
fn player_stopped_by_wall_on_the_right() {
    let wall = [ledge(200, 0, 20, 600)];
    let mut p = Player::new();
    p.pos = Vec2::new(167 * UNIT, 100 * UNIT);
    p.update(FRAME, Input { left: false, right: true, jump: false }, &wall, SCREEN_H);
    assert_eq!(p.pos.x, 168 * UNIT);
    assert_eq!(p.velocity.x, 0);
}

#[test]
fn player_stopped_by_wall_on_the_left() {
    let wall = [ledge(200, 0, 20, 600)];
    let mut p = Player::new();
    p.pos = Vec2::new(221 * UNIT, 100 * UNIT);
    p.update(FRAME, Input { left: true, right: false, jump: false }, &wall, SCREEN_H);
    assert_eq!(p.pos.x, 220 * UNIT);
    assert_eq!(p.velocity.x, 0);
}

#[test]
fn wide_ceiling_only_stops_a_deeper_overlap() {
    let plats = [ledge(90, 80, 60, 20)];
    let mut p = Player::new();
    p.pos = Vec2::new(100 * UNIT, 101 * UNIT);
    p.velocity.y = -500 * UNIT;
    p.update(FRAME, idle(), &plats, SCREEN_H);
    assert_eq!(p.pos.y, 93_250_880);
    assert_eq!(p.velocity.y, -500 * UNIT + 15_680_000);
}

#[test]
fn player_bumps_head_on_ceiling() {
    let plats = [ledge(128, 80, 20, 20)];
    let mut p = Player::new();
    p.pos = Vec2::new(100 * UNIT, 101 * UNIT);
    p.velocity.y = -500 * UNIT;
    p.update(FRAME, idle(), &plats, SCREEN_H);
    assert_eq!(p.pos.y, 100 * UNIT);
    assert_eq!(p.velocity.y, 0);
}

#[test]
fn enemy_patrols_ledge_and_turns_at_edge() {
    let plats = [ledge(300, 400, 200, 20)];
    let mut e = Enemy::new(400 * UNIT, 368 * UNIT);
    let mut turned = false;
    for _ in 0..100 {
        let before = e;
        e.update(FRAME, &plats, SCREEN_H);
        assert_eq!(e.pos.x, before.pos.x + 800_000);
        assert_eq!(e.pos.y, 368 * UNIT);
        assert_eq!(e.rect, Rect::new(e.pos.x, e.pos.y, 32 * UNIT, 32 * UNIT));
        if before.pos.x + 37 * UNIT <= 500 * UNIT {
            assert!(e.moving_right);
        } else {
            assert!(!e.moving_right);
            turned = true;
            break;
        }
    }
    assert!(turned);
    let before = e;
    e.update(FRAME, &plats, SCREEN_H);
    assert_eq!(e.pos.x, before.pos.x - 800_000);
    assert!(!e.moving_right);
}

#[test]
fn enemy_dropped_above_ledge_lands_on_it() {
    let plats = [ledge(300, 400, 200, 20)];
    let mut e = Enemy::new(400 * UNIT, 350 * UNIT);
    for _ in 0..40 {
        e.update(FRAME, &plats, SCREEN_H);
    }
    assert_eq!(e.pos.y, 368 * UNIT);
    assert!(e.pos.x >= 268 * UNIT && e.pos.x <= 500 * UNIT);
    assert_eq!(e.velocity.y, 0);
}

#[test]
fn enemy_without_ground_turns_each_frame() {
    let mut e = Enemy::new(400 * UNIT, 100 * UNIT);
    e.update(FRAME, &[], SCREEN_H);
    assert!(!e.moving_right);
    assert_eq!(e.velocity.x, 50 * UNIT);
    e.update(FRAME, &[], SCREEN_H);
    assert!(e.moving_right);
    assert_eq!(e.velocity.x, -50 * UNIT);
}

#[test]
fn enemy_at_screen_bottom_keeps_walking() {
    let mut e = Enemy::new(400 * UNIT, 568 * UNIT);
    e.update(FRAME, &[], SCREEN_H);
    assert!(e.moving_right);
    assert_eq!(e.pos.y, 568 * UNIT);
    assert_eq!(e.velocity.y, 0);
}

#[test]
fn rect_intersect_counts_touching_edges() {
    let a = Rect::new(0, 0, 10, 10);
    assert_eq!(a.intersect(&Rect::new(10, 0, 5, 5)), Some(Rect::new(10, 0, 0, 5)));
    assert_eq!(a.intersect(&Rect::new(5, 5, 10, 10)), Some(Rect::new(5, 5, 5, 5)));
    assert_eq!(a.intersect(&Rect::new(11, 0, 5, 5)), None);
    assert!(a.contains(Vec2::new(10, 10)));
    assert!(!a.contains(Vec2::new(10, 11)));
    assert_eq!(a.right(), 10);
    assert_eq!(a.bottom(), 10);
}

#[test]
fn travel_rounds_toward_zero() {
    assert_eq!(travel_exec(1_500_000, 1), 1);
    assert_eq!(travel_exec(-1_500_000, 1), -1);
    assert_eq!(travel_exec(200 * UNIT, FRAME), 3_200_000);
    assert_eq!(fall(0, FRAME), 15_680_000);
    assert_eq!(advance(Vec2::new(0, 0), Vec2::new(-999_999, 999_999), 1), Vec2::new(0, 0));
}

#[test]
fn camera_follows_player() {
    assert_eq!(camera_x(100 * UNIT, 800 * UNIT), 0);
    assert_eq!(camera_x(1000 * UNIT, 800 * UNIT), 600 * UNIT);
}

#[test]
fn demo_world_steps() {
    let mut w = World::demo(800 * UNIT, SCREEN_H);
    assert_eq!(w.platforms.len(), 5);
    assert_eq!(w.enemies.len(), 3);
    assert_eq!(w.platforms[1].rect, Rect::new(300 * UNIT, 400 * UNIT, 200 * UNIT, 20 * UNIT));
    assert!(w.fits(SCREEN_H));
    let mut lone = w.enemies[2];
    w.step(FRAME, idle(), SCREEN_H);
    lone.update(FRAME, &w.platforms, SCREEN_H);
    assert_eq!(w.enemies[2], lone);
    assert_eq!(w.player.pos.y, 100_250_880);
    assert!(!w.fits(-1));
}

#[test]
fn overlapping_platforms_resolve_in_list_order() {
    let a = Platform { rect: Rect::new(300 * UNIT, 400 * UNIT, 200 * UNIT, 20 * UNIT) };
    let b = Platform { rect: Rect::new(300 * UNIT, 400 * UNIT + 100_000, 200 * UNIT, 20 * UNIT) };
    let mut start = Player::new();
    start.pos = Vec2::new(350 * UNIT, 352 * UNIT - 100_000);
    start.velocity.y = 100 * UNIT;
    let mut first = start;
    first.update(FRAME, idle(), &[a, b], SCREEN_H);
    assert_eq!(first.pos.y, 352 * UNIT);
    let mut second = start;
    second.update(FRAME, idle(), &[b, a], SCREEN_H);
    assert_eq!(second.pos.y, 352 * UNIT + 100_000);
    assert!(first.grounded && second.grounded);
}
