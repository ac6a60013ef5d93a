//! The player: spawned at the window's centre, moved by the held keys,
//! kept inside the window, and collecting every star it overlaps.

use vstd::prelude::*;

use crate::geometry::{
    circles_collide, circles_overlap, clamp_raise_then_cap, raise_then_cap, within_limit, Vec2,
    Window,
};
use crate::input::Keyboard;
use crate::score::Score;
use crate::settings::{
    DIAG_DEN, DIAG_NUM, DT_LIMIT, MS_PER_SEC, PLAYER_SCALE, PLAYER_SPEED, STAR_SCALE,
};
use crate::star::Star;

verus! {

/// The player, at its position in the window.
#[derive(Clone, Copy, Debug, PartialEq, Eq, Structural)]
pub struct Player {
    pub translation: Vec2,
}

/// Place the player at the window's centre.
pub fn spawn_players(window: &Window) -> (p: Player)
    requires
        window.well_formed(),
    ensures
        p.translation == window.spec_center(),
{
    Player { translation: window.center() }
}

/// Horizontal intent of the held keys: right counts `+1`, left `-1`, and
/// opposed or absent keys cancel to `0`.
pub open spec fn move_x(keys: Keyboard) -> int {
    (if keys.right() {
        1int
    } else {
        0int
    }) - (if keys.left() {
        1int
    } else {
        0int
    })
}

/// Vertical intent of the held keys: up counts `+1`, down `-1`, and
/// opposed or absent keys cancel to `0`.
pub open spec fn move_y(keys: Keyboard) -> int {
    (if keys.up() {
        1int
    } else {
        0int
    }) - (if keys.down() {
        1int
    } else {
        0int
    })
}

/// Length in pixels of this frame's step along each moving axis: the
/// player speed over the frame delta, doubled while sprinting, and scaled
/// by the fixed-point unit ratio when both axes move so a diagonal step
/// has the same length as a straight one. All products are taken before
/// the one rounding division.
pub open spec fn player_step_len(keys: Keyboard, delta_ms: u64) -> int {
    let base = PLAYER_SPEED * delta_ms * (if keys.shift_left {
        2int
    } else {
        1int
    });
    if move_x(keys) != 0 && move_y(keys) != 0 {
        base * DIAG_NUM / ((DIAG_DEN * MS_PER_SEC) as int)
    } else {
        base / (MS_PER_SEC as int)
    }
}

/// Displace the player by this frame's step: each axis moves by the step
/// length in the direction of its intent.
pub fn player_movement(player: &mut Player, keys: &Keyboard, delta_ms: u64)
    requires
        within_limit(old(player).translation),
        delta_ms <= DT_LIMIT,
    ensures
        final(player).translation.x == old(player).translation.x + move_x(*keys)
            * player_step_len(*keys, delta_ms),
        final(player).translation.y == old(player).translation.y + move_y(*keys)
            * player_step_len(*keys, delta_ms),
{
    let up = keys.arrow_up || keys.key_w;
    let left = keys.arrow_left || keys.key_a;
    let down = keys.arrow_down || keys.key_s;
    let right = keys.arrow_right || keys.key_d;

    let mut base: u64 = PLAYER_SPEED * delta_ms;
    if keys.shift_left {
        base = base * 2;
    }
    let moving_x = right != left;
    let moving_y = up != down;
    let step: u64 = if moving_x && moving_y {
        base * DIAG_NUM / (DIAG_DEN * MS_PER_SEC)
    } else {
        base / MS_PER_SEC
    };
    let step = step as i64;
    proof {
        assert(moving_x <==> move_x(*keys) != 0);
        assert(moving_y <==> move_y(*keys) != 0);
        assert(step == player_step_len(*keys, delta_ms));
    }

    if right && !left {
        player.translation.x = player.translation.x + step;
    }
    if left && !right {
        player.translation.x = player.translation.x - step;
    }
    if up && !down {
        player.translation.y = player.translation.y + step;
    }
    if down && !up {
        player.translation.y = player.translation.y - step;
    }
}

/// Half the player sprite, the margin confinement keeps from each wall.
pub open spec fn player_half() -> int {
    PLAYER_SCALE / 2
}

/// Clamp the player back inside the window, axis by axis, keeping half a
/// sprite clear of every wall; each axis is first raised to its lower
/// wall, then capped at its upper one.
pub fn confine_player_movement(player: &mut Player, window: &Window)
    requires
        window.well_formed(),
    ensures
        final(player).translation.x == raise_then_cap(
            old(player).translation.x as int,
            player_half(),
            window.width - player_half(),
        ),
        final(player).translation.y == raise_then_cap(
            old(player).translation.y as int,
            player_half(),
            window.height - player_half(),
        ),
{
    let half: i64 = PLAYER_SCALE / 2;
    let x = clamp_raise_then_cap(player.translation.x, half, window.width - half);
    let y = clamp_raise_then_cap(player.translation.y, half, window.height - half);
    player.translation = Vec2 { x, y };
}

/// In a window with room for the whole sprite, confinement puts the
/// player between the walls, half a sprite clear of each, and a second
/// confinement would change nothing.
pub proof fn lemma_confinement_keeps_player_inside(p: Player, window: Window)
    requires
        window.well_formed(),
        PLAYER_SCALE <= window.width,
        PLAYER_SCALE <= window.height,
    ensures
        player_half() <= raise_then_cap(
            p.translation.x as int,
            player_half(),
            window.width - player_half(),
        ) <= window.width - player_half(),
        player_half() <= raise_then_cap(
            p.translation.y as int,
            player_half(),
            window.height - player_half(),
        ) <= window.height - player_half(),
        raise_then_cap(
            raise_then_cap(p.translation.x as int, player_half(), window.width - player_half()),
            player_half(),
            window.width - player_half(),
        ) == raise_then_cap(p.translation.x as int, player_half(), window.width - player_half()),
{
    crate::geometry::lemma_clamp_agrees(
        p.translation.x as int,
        player_half(),
        window.width - player_half(),
    );
    crate::geometry::lemma_clamp_agrees(
        p.translation.y as int,
        player_half(),
        window.height - player_half(),
    );
}

/// The player's circle and the star's overlap: their centres are strictly
/// closer than the two half-sprites together.
pub open spec fn star_collected(player: Player, star: Star) -> bool {
    circles_overlap(player.translation, star.translation, player_half() + STAR_SCALE / 2)
}

/// The stars of `stars` the player does not overlap, in order.
pub open spec fn stars_left(player: Player, stars: Seq<Star>) -> Seq<Star> {
    stars.filter(|s: Star| !star_collected(player, s))
}

/// Collect every star the player overlaps: those stars leave the field in
/// one pass, the rest keep their order, and the score grows by one per
/// star collected.
pub fn player_hit_star(player: &Player, stars: &mut Vec<Star>, score: &mut Score) -> (collected:
    usize)
    requires
        within_limit(player.translation),
        forall|i: int|
            0 <= i < old(stars)@.len() ==> within_limit(#[trigger] old(stars)@[i].translation),
        old(score).value + old(stars)@.len() <= u32::MAX,
    ensures
        final(stars)@ == stars_left(*player, old(stars)@),
        collected == old(stars)@.len() - final(stars)@.len(),
        final(score).value == old(score).value + collected,
{
    let radius: i64 = PLAYER_SCALE / 2 + STAR_SCALE / 2;
    let ghost all = stars@;
    let ghost pred = |s: Star| !star_collected(*player, s);
    let mut kept: Vec<Star> = Vec::new();
    let mut collected: usize = 0;
    let mut idx: usize = 0;
    proof {
        reveal(Seq::filter);
    }
    while idx < stars.len()
        invariant
            idx <= all.len(),
            stars@ == all,
            within_limit(player.translation),
            forall|i: int| 0 <= i < all.len() ==> within_limit(#[trigger] all[i].translation),
            old(score).value + all.len() <= u32::MAX,
            radius == player_half() + STAR_SCALE / 2,
            kept@ == all.take(idx as int).filter(pred),
            pred == (|s: Star| !star_collected(*player, s)),
            kept@.len() + collected == idx,
            score.value == old(score).value + collected,
        decreases all.len() - idx,
    {
        let star = stars[idx];
        proof {
            reveal(Seq::filter);
            assert(all.take(idx + 1).drop_last() =~= all.take(idx as int));
            assert(all.take(idx + 1).last() == all[idx as int]);
        }
        if circles_collide(player.translation, star.translation, radius) {
            collected = collected + 1;
            score.value = score.value + 1;
        } else {
            kept.push(star);
        }
        idx = idx + 1;
    }
    proof {
        assert(all.take(all.len() as int) =~= all);
    }
    *stars = kept;
    collected
}

} // verus!
