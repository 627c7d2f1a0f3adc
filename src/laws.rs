//! Properties of a frame that hold for every input, proved from the step models.
use vstd::prelude::*;
use crate::body::gravity_gain;
use crate::enemy::{
    enemy_contacts, enemy_moving, enemy_rect, enemy_step, probe_supported, Enemy,
    ENEMY_HEIGHT,
};
use crate::geometry::{platforms_in_bounds, Platform, Rect, Vec2, MAX_COORD};
use crate::player::{
    player_contact, player_contacts, player_moving, player_rect, player_step, Input, Player,
    PLAYER_HEIGHT,
};

verus! {

/// Platforms that the rectangle does not meet leave the player as it was.
proof fn lemma_player_contacts_untouched(body: Rect, plats: Seq<Platform>, pl: Player)
    requires
        forall|i: int| 0 <= i < plats.len() ==> !body.meets(#[trigger] plats[i].rect),
    ensures
        player_contacts(body, plats, pl) == pl,
    decreases plats.len(),
{
    if plats.len() > 0 {
        assert(!body.meets(plats[plats.len() - 1].rect));
        lemma_player_contacts_untouched(body, plats.drop_last(), pl);
    }
}

/// When the rectangle meets only the platform at `k`, that platform alone resolves.
proof fn lemma_player_contacts_single(body: Rect, plats: Seq<Platform>, k: int, pl: Player)
    requires
        0 <= k < plats.len(),
        forall|i: int| 0 <= i < plats.len() && i != k ==> !body.meets(#[trigger] plats[i].rect),
    ensures
        player_contacts(body, plats, pl) == player_contact(body, plats[k].rect, pl),
    decreases plats.len(),
{
    let rest = plats.drop_last();
    if k == plats.len() - 1 {
        assert forall|i: int| 0 <= i < rest.len() implies !body.meets(#[trigger] rest[i].rect) by {
            assert(rest[i] == plats[i]);
        }
        lemma_player_contacts_untouched(body, rest, pl);
    } else {
        assert(!body.meets(plats[plats.len() - 1].rect));
        assert forall|i: int| 0 <= i < rest.len() && i != k implies !body.meets(
            #[trigger] rest[i].rect,
        ) by {
            assert(rest[i] == plats[i]);
        }
        lemma_player_contacts_single(body, rest, k, pl);
    }
}

/// Collisions only ever stop horizontal motion.
proof fn lemma_player_contacts_keep_still(body: Rect, plats: Seq<Platform>, pl: Player)
    requires
        pl.velocity.x == 0,
    ensures
        player_contacts(body, plats, pl).velocity.x == 0,
    decreases plats.len(),
{
    if plats.len() > 0 {
        lemma_player_contacts_keep_still(body, plats.drop_last(), pl);
    }
}

/// Platforms that the rectangle does not meet leave the enemy as it was.
proof fn lemma_enemy_contacts_untouched(body: Rect, plats: Seq<Platform>, e: Enemy)
    requires
        forall|i: int| 0 <= i < plats.len() ==> !body.meets(#[trigger] plats[i].rect),
    ensures
        enemy_contacts(body, plats, e) == e,
    decreases plats.len(),
{
    if plats.len() > 0 {
        assert(!body.meets(plats[plats.len() - 1].rect));
        lemma_enemy_contacts_untouched(body, plats.drop_last(), e);
    }
}

/// Collisions never change an enemy's direction.
proof fn lemma_enemy_contacts_keep_direction(body: Rect, plats: Seq<Platform>, e: Enemy)
    ensures
        enemy_contacts(body, plats, e).moving_right == e.moving_right,
    decreases plats.len(),
{
    if plats.len() > 0 {
        lemma_enemy_contacts_keep_direction(body, plats.drop_last(), e);
    }
}

/// An airborne player whose moved rectangle meets no platform and stays above
/// the floor gains exactly the frame's gravity in downward velocity, so for a
/// frame of positive length its downward velocity strictly grows.
pub proof fn player_free_fall_gains_gravity(
    pl: Player,
    dt: u32,
    input: Input,
    plats: Seq<Platform>,
    screen_height: i64,
)
    requires
        pl.in_bounds(),
        !pl.grounded,
        dt > 0,
        forall|i: int|
            0 <= i < plats.len() ==> !player_rect(player_moving(pl, dt as int, input).pos).meets(
                #[trigger] plats[i].rect,
            ),
        player_moving(pl, dt as int, input).pos.y <= screen_height - PLAYER_HEIGHT,
    ensures
        player_step(pl, dt as int, input, plats, screen_height as int).velocity.y == pl.velocity.y
            + gravity_gain(dt as int),
        player_step(pl, dt as int, input, plats, screen_height as int).velocity.y > pl.velocity.y,
{
    let moving = player_moving(pl, dt as int, input);
    lemma_player_contacts_untouched(player_rect(moving.pos), plats, moving);
}

/// An enemy whose moved rectangle meets no platform and stays above the floor
/// gains exactly the frame's gravity in downward velocity, so for a frame of
/// positive length its downward velocity strictly grows.
pub proof fn enemy_free_fall_gains_gravity(
    e: Enemy,
    dt: u32,
    plats: Seq<Platform>,
    screen_height: i64,
)
    requires
        e.in_bounds(),
        dt > 0,
        forall|i: int|
            0 <= i < plats.len() ==> !enemy_rect(
                enemy_moving(e, dt as int, plats, screen_height as int).pos,
            ).meets(#[trigger] plats[i].rect),
        enemy_moving(e, dt as int, plats, screen_height as int).pos.y <= screen_height
            - ENEMY_HEIGHT,
    ensures
        enemy_step(e, dt as int, plats, screen_height as int).velocity.y == e.velocity.y
            + gravity_gain(dt as int),
        enemy_step(e, dt as int, plats, screen_height as int).velocity.y > e.velocity.y,
{
    let moving = enemy_moving(e, dt as int, plats, screen_height as int);
    lemma_enemy_contacts_untouched(enemy_rect(moving.pos), plats, moving);
}

/// After a frame the player never reaches below the bottom of the screen; it
/// stands exactly on the bottom when its move would have taken it there and no
/// platform was in the way.
pub proof fn player_stays_above_floor(
    pl: Player,
    dt: u32,
    input: Input,
    plats: Seq<Platform>,
    screen_height: i64,
)
    requires
        pl.in_bounds(),
        platforms_in_bounds(plats),
        0 <= screen_height <= MAX_COORD,
    ensures
        player_step(pl, dt as int, input, plats, screen_height as int).pos.y + PLAYER_HEIGHT
            <= screen_height,
        ({
            let moving = player_moving(pl, dt as int, input);
            (forall|i: int|
                0 <= i < plats.len() ==> !player_rect(moving.pos).meets(#[trigger] plats[i].rect))
                && moving.pos.y >= screen_height - PLAYER_HEIGHT ==> player_step(
                pl,
                dt as int,
                input,
                plats,
                screen_height as int,
            ).pos.y + PLAYER_HEIGHT == screen_height
        }),
{
    let moving = player_moving(pl, dt as int, input);
    if forall|i: int|
        0 <= i < plats.len() ==> !player_rect(moving.pos).meets(#[trigger] plats[i].rect) {
        lemma_player_contacts_untouched(player_rect(moving.pos), plats, moving);
    }
}

/// After a frame an enemy never reaches below the bottom of the screen; it
/// stands exactly on the bottom when its move would have taken it there and no
/// platform was in the way.
pub proof fn enemy_stays_above_floor(e: Enemy, dt: u32, plats: Seq<Platform>, screen_height: i64)
    requires
        e.in_bounds(),
        platforms_in_bounds(plats),
        0 <= screen_height <= MAX_COORD,
    ensures
        enemy_step(e, dt as int, plats, screen_height as int).pos.y + ENEMY_HEIGHT
            <= screen_height,
        ({
            let moving = enemy_moving(e, dt as int, plats, screen_height as int);
            (forall|i: int|
                0 <= i < plats.len() ==> !enemy_rect(moving.pos).meets(#[trigger] plats[i].rect))
                && moving.pos.y >= screen_height - ENEMY_HEIGHT ==> enemy_step(
                e,
                dt as int,
                plats,
                screen_height as int,
            ).pos.y + ENEMY_HEIGHT == screen_height
        }),
{
    let moving = enemy_moving(e, dt as int, plats, screen_height as int);
    if forall|i: int|
        0 <= i < plats.len() ==> !enemy_rect(moving.pos).meets(#[trigger] plats[i].rect) {
        lemma_enemy_contacts_untouched(enemy_rect(moving.pos), plats, moving);
    }
}

/// A player at rest on the top of the platform at `k`, with no key held, is
/// left exactly as it was by a frame of positive length, provided the frame's
/// fall sinks its moved rectangle less deep into that platform than the
/// foothold is wide, and no other platform meets the moved rectangle. Frame
/// after frame it thus keeps its height, zero vertical velocity and its footing.
pub proof fn player_rests_on_platform(
    pl: Player,
    dt: u32,
    plats: Seq<Platform>,
    k: int,
    screen_height: i64,
)
    requires
        pl.in_bounds(),
        platforms_in_bounds(plats),
        0 <= screen_height <= MAX_COORD,
        pl.velocity == (Vec2 { x: 0, y: 0 }),
        pl.grounded,
        dt > 0,
        0 <= k < plats.len(),
        pl.pos.y + PLAYER_HEIGHT == plats[k].rect.y,
        plats[k].rect.y <= screen_height,
        ({
            let body = player_rect(
                player_moving(pl, dt as int, Input { left: false, right: false, jump: false }).pos,
            );
            &&& body.meets(plats[k].rect)
            &&& body.overlap_height(plats[k].rect) < body.overlap_width(plats[k].rect)
            &&& forall|i: int|
                0 <= i < plats.len() && i != k ==> !body.meets(#[trigger] plats[i].rect)
        }),
    ensures
        player_step(
            pl,
            dt as int,
            Input { left: false, right: false, jump: false },
            plats,
            screen_height as int,
        ) == pl,
{
    let idle = Input { left: false, right: false, jump: false };
    let moving = player_moving(pl, dt as int, idle);
    let body = player_rect(moving.pos);
    assert(moving.velocity.x == 0);
    assert(0 * (dt as int) == 0);
    assert(crate::geometry::travel(0, dt as int) == 0);
    assert(moving.pos.x == pl.pos.x);
    assert(moving.velocity.y > 0);
    lemma_player_contacts_single(body, plats, k, moving);
    let hit = player_contacts(body, plats, moving);
    assert(hit.pos == pl.pos);
    assert(hit.velocity == pl.velocity);
    assert(hit.grounded);
    assert(hit.facing_right == pl.facing_right);
    assert(crate::player::friction(0) == 0);
}

/// Pressing jump while airborne changes nothing: the frame is the one without
/// the press, and the vertical velocity before collisions is the old one plus
/// the frame's gravity.
pub proof fn jump_needs_footing(
    pl: Player,
    dt: u32,
    input: Input,
    plats: Seq<Platform>,
    screen_height: i64,
)
    requires
        pl.in_bounds(),
        !pl.grounded,
    ensures
        player_step(pl, dt as int, Input { jump: true, ..input }, plats, screen_height as int)
            == player_step(pl, dt as int, Input { jump: false, ..input }, plats, screen_height as int),
        player_moving(pl, dt as int, Input { jump: true, ..input }).velocity.y == pl.velocity.y
            + gravity_gain(dt as int),
{
    assert(player_moving(pl, dt as int, Input { jump: true, ..input }) == player_moving(
        pl,
        dt as int,
        Input { jump: false, ..input },
    ));
}

/// With no direction held the player ends the frame without horizontal
/// velocity, on the ground or not.
pub proof fn idle_player_stops(
    pl: Player,
    dt: u32,
    input: Input,
    plats: Seq<Platform>,
    screen_height: i64,
)
    requires
        pl.in_bounds(),
        !input.left,
        !input.right,
    ensures
        player_step(pl, dt as int, input, plats, screen_height as int).velocity.x == 0,
{
    let moving = player_moving(pl, dt as int, input);
    lemma_player_contacts_keep_still(player_rect(moving.pos), plats, moving);
}

/// An enemy turns round in a frame exactly when its ground probe finds no
/// platform and lies above the bottom of the screen; it keeps its direction
/// otherwise.
pub proof fn enemy_turns_at_edges(e: Enemy, dt: u32, plats: Seq<Platform>, screen_height: i64)
    ensures
        enemy_step(e, dt as int, plats, screen_height as int).moving_right != e.moving_right
            <==> !probe_supported(e, plats, screen_height as int),
{
    let moving = enemy_moving(e, dt as int, plats, screen_height as int);
    lemma_enemy_contacts_keep_direction(enemy_rect(moving.pos), plats, moving);
}

} // verus!
