//! Enemies: spawned at random points with a random heading and speed,
//! drifting every frame, bouncing off the window's walls, clamped back
//! inside, and ending the run when one reaches the player.

use vstd::prelude::*;

use crate::events::GameOver;
use crate::geometry::{
    cap_or_raise, circles_collide, circles_overlap, clamp_cap_or_raise, position_from_fractions,
    scaled, within_limit, Vec2, Window,
};
use crate::player::{player_half, Player};
use crate::score::Score;
use crate::settings::{
    DIR_ONE, DT_LIMIT, ENEMY_SCALE, ENEMY_SPAWN_OVER_TIME, ENEMY_SPAWN_TIMER_MS, ENEMY_SPEED_MAX,
    ENEMY_SPEED_MIN, FRACTION_ONE, MS_PER_SEC, NUMBER_OF_ENEMIES, PLAYER_SCALE,
};
use crate::timer::{Timer, TimerMode};

verus! {

/// A fixed-point direction: each component within one unit of length, and
/// not both zero.
pub open spec fn valid_direction(d: Vec2) -> bool {
    &&& -DIR_ONE <= d.x <= DIR_ONE
    &&& -DIR_ONE <= d.y <= DIR_ONE
    &&& !(d.x == 0 && d.y == 0)
}

/// An enemy: its position in the window, its heading as a fixed-point
/// direction, and its speed in pixels per second.
#[derive(Clone, Copy, Debug, PartialEq, Eq, Structural)]
pub struct Enemy {
    pub translation: Vec2,
    pub direction: Vec2,
    pub speed: u64,
}

impl Enemy {
    /// The heading is a valid direction and the speed lies within the
    /// range enemies are drawn from.
    pub open spec fn well_formed(self) -> bool {
        &&& valid_direction(self.direction)
        &&& ENEMY_SPEED_MIN <= self.speed <= ENEMY_SPEED_MAX
    }
}

/// The repeating timer that paces enemy spawning.
#[derive(Clone, Copy, Debug, PartialEq, Eq, Structural)]
pub struct EnemySpawnTime {
    pub timer: Timer,
}

impl Default for EnemySpawnTime {
    /// A fresh repeating timer over the enemy-spawn period, with nothing
    /// elapsed yet.
    fn default() -> (t: EnemySpawnTime)
        ensures
            t.timer == (Timer {
                duration_ms: ENEMY_SPAWN_TIMER_MS,
                elapsed_ms: 0,
                mode: TimerMode::Repeating,
                finished: false,
            }),
            t.timer.well_formed(),
    {
        EnemySpawnTime { timer: Timer::new(ENEMY_SPAWN_TIMER_MS, TimerMode::Repeating) }
    }
}

/// Advance the enemy-spawn timer by one frame delta.
pub fn tick_enemy_spawn_timer(enemy_spawn_timer: &mut EnemySpawnTime, delta_ms: u64)
    requires
        old(enemy_spawn_timer).timer.well_formed(),
        old(enemy_spawn_timer).timer.elapsed_ms + delta_ms <= u64::MAX,
    ensures
        final(enemy_spawn_timer).timer.well_formed(),
        final(enemy_spawn_timer).timer.duration_ms == old(enemy_spawn_timer).timer.duration_ms,
        final(enemy_spawn_timer).timer.mode == old(enemy_spawn_timer).timer.mode,
        final(enemy_spawn_timer).timer.finished == (old(enemy_spawn_timer).timer.elapsed_ms
            + delta_ms >= old(enemy_spawn_timer).timer.duration_ms || (old(
            enemy_spawn_timer,
        ).timer.mode is Once && old(enemy_spawn_timer).timer.finished)),
        final(enemy_spawn_timer).timer.elapsed_ms == (if old(
            enemy_spawn_timer,
        ).timer.mode is Repeating {
            (old(enemy_spawn_timer).timer.elapsed_ms + delta_ms) % (old(
                enemy_spawn_timer,
            ).timer.duration_ms as int)
        } else if old(enemy_spawn_timer).timer.elapsed_ms + delta_ms >= old(
            enemy_spawn_timer,
        ).timer.duration_ms {
            old(enemy_spawn_timer).timer.duration_ms as int
        } else {
            old(enemy_spawn_timer).timer.elapsed_ms + delta_ms
        }),
{
    enemy_spawn_timer.timer.tick(delta_ms);
}

/// Half the enemy sprite, rounded down to a whole pixel: the margin
/// bouncing and confinement keep from each wall.
pub open spec fn enemy_half() -> int {
    ENEMY_SCALE / 2
}

/// This frame's displacement along one axis: the direction component
/// scaled by speed and frame delta, with one rounding division towards
/// zero at the end so opposite headings move by mirrored amounts.
pub open spec fn axis_step(dir_c: int, speed: int, delta_ms: int) -> int {
    let mag = (if dir_c < 0 {
        -dir_c
    } else {
        dir_c
    }) * speed * delta_ms / ((DIR_ONE * MS_PER_SEC) as int);
    if dir_c < 0 {
        -mag
    } else {
        mag
    }
}

fn axis_step_exec(dir_c: i64, speed: u64, delta_ms: u64) -> (r: i64)
    requires
        -DIR_ONE <= dir_c <= DIR_ONE,
        speed <= ENEMY_SPEED_MAX,
        delta_ms <= DT_LIMIT,
    ensures
        r == axis_step(dir_c as int, speed as int, delta_ms as int),
        -1000000 <= r <= 1000000,
{
    let mag_in: u64 = if dir_c < 0 {
        (-dir_c) as u64
    } else {
        dir_c as u64
    };
    proof {
        assert(mag_in * speed <= 500000 && mag_in * speed * delta_ms <= 500000000000)
            by (nonlinear_arith)
            requires
                mag_in <= DIR_ONE,
                speed <= ENEMY_SPEED_MAX,
                delta_ms <= DT_LIMIT,
        ;
        vstd::arithmetic::div_mod::lemma_div_pos_is_pos(
            mag_in * speed * delta_ms,
            (DIR_ONE * MS_PER_SEC) as int,
        );
        vstd::arithmetic::div_mod::lemma_div_is_ordered(
            mag_in * speed * delta_ms,
            500000000000,
            (DIR_ONE * MS_PER_SEC) as int,
        );
    }
    let mag: u64 = mag_in * speed * delta_ms / ((DIR_ONE as u64) * MS_PER_SEC);
    if dir_c < 0 {
        -(mag as i64)
    } else {
        mag as i64
    }
}

/// Drift every enemy by this frame's step along its heading; headings and
/// speeds stay as they were.
pub fn enemy_movement(enemies: &mut Vec<Enemy>, delta_ms: u64)
    requires
        delta_ms <= DT_LIMIT,
        forall|i: int|
            0 <= i < old(enemies)@.len() ==> (#[trigger] old(enemies)@[i]).well_formed()
                && within_limit(old(enemies)@[i].translation),
    ensures
        final(enemies)@.len() == old(enemies)@.len(),
        forall|i: int|
            0 <= i < old(enemies)@.len() ==> {
                let e0 = old(enemies)@[i];
                let e1 = #[trigger] final(enemies)@[i];
                &&& e1.direction == e0.direction
                &&& e1.speed == e0.speed
                &&& e1.translation.x == e0.translation.x + axis_step(
                    e0.direction.x as int,
                    e0.speed as int,
                    delta_ms as int,
                )
                &&& e1.translation.y == e0.translation.y + axis_step(
                    e0.direction.y as int,
                    e0.speed as int,
                    delta_ms as int,
                )
            },
{
    let ghost before = enemies@;
    let mut idx: usize = 0;
    while idx < enemies.len()
        invariant
            idx <= before.len(),
            enemies@.len() == before.len(),
            delta_ms <= DT_LIMIT,
            forall|i: int|
                0 <= i < before.len() ==> (#[trigger] before[i]).well_formed() && within_limit(
                    before[i].translation,
                ),
            forall|i: int| idx <= i < before.len() ==> #[trigger] enemies@[i] == before[i],
            forall|i: int|
                0 <= i < idx ==> {
                    let e0 = before[i];
                    let e1 = #[trigger] enemies@[i];
                    &&& e1.direction == e0.direction
                    &&& e1.speed == e0.speed
                    &&& e1.translation.x == e0.translation.x + axis_step(
                        e0.direction.x as int,
                        e0.speed as int,
                        delta_ms as int,
                    )
                    &&& e1.translation.y == e0.translation.y + axis_step(
                        e0.direction.y as int,
                        e0.speed as int,
                        delta_ms as int,
                    )
                },
        decreases before.len() - idx,
    {
        let e = enemies[idx];
        let dx = axis_step_exec(e.direction.x, e.speed, delta_ms);
        let dy = axis_step_exec(e.direction.y, e.speed, delta_ms);
        let moved = Enemy {
            translation: Vec2 { x: e.translation.x + dx, y: e.translation.y + dy },
            direction: e.direction,
            speed: e.speed,
        };
        enemies.set(idx, moved);
        idx = idx + 1;
    }
}

/// Whether this enemy touches or has crossed the window's left or right
/// wall, keeping half a sprite clear.
pub open spec fn bounces_x(e: Enemy, window: Window) -> bool {
    e.translation.x <= enemy_half() || e.translation.x >= window.width - enemy_half()
}

/// Whether this enemy touches or has crossed the window's top or bottom
/// wall, keeping half a sprite clear.
pub open spec fn bounces_y(e: Enemy, window: Window) -> bool {
    e.translation.y <= enemy_half() || e.translation.y >= window.height - enemy_half()
}

/// Wall contacts of one enemy this frame, one per axis: each asks the
/// host for one bounce sound.
pub open spec fn enemy_bounces(e: Enemy, window: Window) -> int {
    (if bounces_x(e, window) {
        1int
    } else {
        0int
    }) + (if bounces_y(e, window) {
        1int
    } else {
        0int
    })
}

/// Wall contacts over a whole field of enemies this frame.
pub open spec fn total_bounces(enemies: Seq<Enemy>, window: Window) -> int
    decreases enemies.len(),
{
    if enemies.len() == 0 {
        0
    } else {
        total_bounces(enemies.drop_last(), window) + enemy_bounces(enemies.last(), window)
    }
}

/// Reverse each enemy's heading component on the axis whose wall it
/// touches; positions and speeds stay as they were. Returns how many wall
/// contacts there were, each owing one bounce sound.
pub fn update_enemy_direction(enemies: &mut Vec<Enemy>, window: &Window) -> (bounces: u64)
    requires
        window.well_formed(),
        forall|i: int| 0 <= i < old(enemies)@.len() ==> (#[trigger] old(enemies)@[i]).well_formed(),
        old(enemies)@.len() * 2 <= u64::MAX,
    ensures
        final(enemies)@.len() == old(enemies)@.len(),
        forall|i: int|
            0 <= i < old(enemies)@.len() ==> {
                let e0 = old(enemies)@[i];
                let e1 = #[trigger] final(enemies)@[i];
                &&& e1.translation == e0.translation
                &&& e1.speed == e0.speed
                &&& e1.direction.x == (if bounces_x(e0, *window) {
                    -e0.direction.x as int
                } else {
                    e0.direction.x as int
                })
                &&& e1.direction.y == (if bounces_y(e0, *window) {
                    -e0.direction.y as int
                } else {
                    e0.direction.y as int
                })
                &&& e1.well_formed()
            },
        bounces == total_bounces(old(enemies)@, *window),
{
    let ghost before = enemies@;
    let half: i64 = ENEMY_SCALE / 2;
    let x_min: i64 = half;
    let x_max: i64 = window.width - half;
    let y_min: i64 = half;
    let y_max: i64 = window.height - half;
    let mut bounces: u64 = 0;
    let mut idx: usize = 0;
    while idx < enemies.len()
        invariant
            idx <= before.len(),
            enemies@.len() == before.len(),
            window.well_formed(),
            half == enemy_half(),
            x_min == enemy_half(),
            x_max == window.width - enemy_half(),
            y_min == enemy_half(),
            y_max == window.height - enemy_half(),
            before.len() * 2 <= u64::MAX,
            forall|i: int| 0 <= i < before.len() ==> (#[trigger] before[i]).well_formed(),
            forall|i: int| idx <= i < before.len() ==> #[trigger] enemies@[i] == before[i],
            forall|i: int|
                0 <= i < idx ==> {
                    let e0 = before[i];
                    let e1 = #[trigger] enemies@[i];
                    &&& e1.translation == e0.translation
                    &&& e1.speed == e0.speed
                    &&& e1.direction.x == (if bounces_x(e0, *window) {
                        -e0.direction.x as int
                    } else {
                        e0.direction.x as int
                    })
                    &&& e1.direction.y == (if bounces_y(e0, *window) {
                        -e0.direction.y as int
                    } else {
                        e0.direction.y as int
                    })
                    &&& e1.well_formed()
                },
            bounces == total_bounces(before.take(idx as int), *window),
            bounces <= 2 * idx,
        decreases before.len() - idx,
    {
        let e = enemies[idx];
        let mut direction = e.direction;
        if e.translation.x <= x_min || e.translation.x >= x_max {
            direction.x = -direction.x;
            bounces = bounces + 1;
        }
        if e.translation.y <= y_min || e.translation.y >= y_max {
            direction.y = -direction.y;
            bounces = bounces + 1;
        }
        let turned = Enemy { translation: e.translation, direction, speed: e.speed };
        enemies.set(idx, turned);
        idx = idx + 1;
        proof {
            assert(before.take(idx as int).drop_last() =~= before.take(idx - 1));
            assert(before.take(idx as int).last() == before[idx - 1]);
        }
    }
    proof {
        assert(before.take(before.len() as int) =~= before);
    }
    bounces
}

/// Clamp every enemy back inside the window, axis by axis, keeping half a
/// sprite clear of every wall; each axis is capped at its upper wall, or
/// else raised to its lower one. Headings and speeds stay as they were.
pub fn confine_enemy_movement(enemies: &mut Vec<Enemy>, window: &Window)
    requires
        window.well_formed(),
    ensures
        final(enemies)@.len() == old(enemies)@.len(),
        forall|i: int|
            0 <= i < old(enemies)@.len() ==> {
                let e0 = old(enemies)@[i];
                let e1 = #[trigger] final(enemies)@[i];
                &&& e1.direction == e0.direction
                &&& e1.speed == e0.speed
                &&& e1.translation.x == cap_or_raise(
                    e0.translation.x as int,
                    enemy_half(),
                    window.width - enemy_half(),
                )
                &&& e1.translation.y == cap_or_raise(
                    e0.translation.y as int,
                    enemy_half(),
                    window.height - enemy_half(),
                )
            },
{
    let ghost before = enemies@;
    let half: i64 = ENEMY_SCALE / 2;
    let mut idx: usize = 0;
    while idx < enemies.len()
        invariant
            idx <= before.len(),
            enemies@.len() == before.len(),
            window.well_formed(),
            half == enemy_half(),
            forall|i: int| idx <= i < before.len() ==> #[trigger] enemies@[i] == before[i],
            forall|i: int|
                0 <= i < idx ==> {
                    let e0 = before[i];
                    let e1 = #[trigger] enemies@[i];
                    &&& e1.direction == e0.direction
                    &&& e1.speed == e0.speed
                    &&& e1.translation.x == cap_or_raise(
                        e0.translation.x as int,
                        enemy_half(),
                        window.width - enemy_half(),
                    )
                    &&& e1.translation.y == cap_or_raise(
                        e0.translation.y as int,
                        enemy_half(),
                        window.height - enemy_half(),
                    )
                },
        decreases before.len() - idx,
    {
        let e = enemies[idx];
        let x = clamp_cap_or_raise(e.translation.x, half, window.width - half);
        let y = clamp_cap_or_raise(e.translation.y, half, window.height - half);
        let confined = Enemy {
            translation: Vec2 { x, y },
            direction: e.direction,
            speed: e.speed,
        };
        enemies.set(idx, confined);
        idx = idx + 1;
    }
}

/// In a window with room for the whole sprite, confinement puts an enemy
/// between the walls, half a sprite clear of each.
pub proof fn lemma_confinement_keeps_enemy_inside(e: Enemy, window: Window)
    requires
        window.well_formed(),
        ENEMY_SCALE <= window.width,
        ENEMY_SCALE <= window.height,
    ensures
        enemy_half() <= cap_or_raise(
            e.translation.x as int,
            enemy_half(),
            window.width - enemy_half(),
        ) <= window.width - enemy_half(),
        enemy_half() <= cap_or_raise(
            e.translation.y as int,
            enemy_half(),
            window.height - enemy_half(),
        ) <= window.height - enemy_half(),
{
}

/// The heading an enemy leaves a frame's bounce step with: each axis
/// component reversed exactly when that axis's wall is touched.
pub open spec fn direction_after_bounce(e: Enemy, window: Window) -> Vec2 {
    Vec2 {
        x: (if bounces_x(e, window) {
            -e.direction.x as int
        } else {
            e.direction.x as int
        }) as i64,
        y: (if bounces_y(e, window) {
            -e.direction.y as int
        } else {
            e.direction.y as int
        }) as i64,
    }
}

/// Bouncing is an involution: since a bounce leaves the position alone,
/// an enemy that bounced this frame and has not moved since would get its
/// old heading back from a second bounce step.
pub proof fn lemma_bounce_round_trip(e: Enemy, window: Window)
    requires
        e.well_formed(),
    ensures
        direction_after_bounce(
            Enemy { direction: direction_after_bounce(e, window), ..e },
            window,
        ) == e.direction,
{
}

/// A frame produces at most two wall contacts per enemy.
pub proof fn lemma_total_bounces_bound(enemies: Seq<Enemy>, window: Window)
    ensures
        0 <= total_bounces(enemies, window) <= 2 * enemies.len(),
    decreases enemies.len(),
{
    if enemies.len() > 0 {
        lemma_total_bounces_bound(enemies.drop_last(), window);
    }
}

/// One random draw for a new enemy: a fraction of the window per axis, a
/// quantised heading, and a fraction of the speed range.
#[derive(Clone, Copy, Debug, PartialEq, Eq, Structural)]
pub struct EnemyDraw {
    pub fx: u64,
    pub fy: u64,
    pub direction: Vec2,
    pub fspeed: u64,
}

impl EnemyDraw {
    /// The fractions lie below one and the heading is a valid direction.
    pub open spec fn valid(self) -> bool {
        &&& self.fx < FRACTION_ONE
        &&& self.fy < FRACTION_ONE
        &&& valid_direction(self.direction)
        &&& self.fspeed < FRACTION_ONE
    }
}

/// Every draw in the batch is valid.
pub open spec fn draws_valid(draws: Seq<EnemyDraw>) -> bool {
    forall|i: int| 0 <= i < draws.len() ==> (#[trigger] draws[i]).valid()
}

/// Scale a random fraction of [`FRACTION_ONE`] up to a speed in the
/// enemy speed range, rounding down.
pub open spec fn speed_from_fraction(f: int) -> int {
    ENEMY_SPEED_MIN + f * ((ENEMY_SPEED_MAX - ENEMY_SPEED_MIN) as int) / (FRACTION_ONE as int)
}

fn speed_at(f: u64) -> (s: u64)
    requires
        f < FRACTION_ONE,
    ensures
        s == speed_from_fraction(f as int),
        ENEMY_SPEED_MIN <= s < ENEMY_SPEED_MAX,
{
    let spread: u64 = ENEMY_SPEED_MAX - ENEMY_SPEED_MIN;
    proof {
        vstd::arithmetic::div_mod::lemma_div_pos_is_pos(f * spread, FRACTION_ONE as int);
        assert(f * spread < FRACTION_ONE * spread) by (nonlinear_arith)
            requires
                0 <= f < FRACTION_ONE,
                0 < spread,
        ;
        vstd::arithmetic::div_mod::lemma_multiply_divide_lt(
            f * spread,
            FRACTION_ONE as int,
            spread as int,
        );
    }
    ENEMY_SPEED_MIN + f * spread / FRACTION_ONE
}

/// The enemy a draw stands for: positioned at its fractions' point in the
/// window, headed along its quantised direction, at its fraction's speed.
pub open spec fn enemy_from_draw(d: EnemyDraw, window: Window, e: Enemy) -> bool {
    &&& e.translation.x == scaled(d.fx as int, window.width as int)
    &&& e.translation.y == scaled(d.fy as int, window.height as int)
    &&& 0 <= e.translation.x < window.width
    &&& 0 <= e.translation.y < window.height
    &&& e.direction == d.direction
    &&& e.speed == speed_from_fraction(d.fspeed as int)
    &&& e.well_formed()
}

/// The enemies built from a batch of draws: one per draw, in order.
pub open spec fn enemies_from_draws(
    draws: Seq<EnemyDraw>,
    window: Window,
    enemies: Seq<Enemy>,
) -> bool {
    &&& enemies.len() == draws.len()
    &&& forall|i: int|
        0 <= i < draws.len() ==> enemy_from_draw(draws[i], window, #[trigger] enemies[i])
}

fn enemies_at(draws: &Vec<EnemyDraw>, window: &Window) -> (enemies: Vec<Enemy>)
    requires
        draws_valid(draws@),
        window.well_formed(),
    ensures
        enemies_from_draws(draws@, *window, enemies@),
{
    let mut enemies: Vec<Enemy> = Vec::new();
    let mut idx: usize = 0;
    while idx < draws.len()
        invariant
            idx <= draws@.len(),
            draws_valid(draws@),
            window.well_formed(),
            enemies_from_draws(draws@.take(idx as int), *window, enemies@),
        decreases draws@.len() - idx,
    {
        let d = draws[idx];
        let translation = position_from_fractions(d.fx, d.fy, window);
        let speed = speed_at(d.fspeed);
        enemies.push(Enemy { translation, direction: d.direction, speed });
        idx = idx + 1;
    }
    proof {
        assert(draws@.take(draws@.len() as int) =~= draws@);
    }
    enemies
}

/// Place the game's opening set of enemies, one per draw in the batch.
pub fn spawn_enemies(draws: &Vec<EnemyDraw>, window: &Window) -> (enemies: Vec<Enemy>)
    requires
        draws@.len() == NUMBER_OF_ENEMIES,
        draws_valid(draws@),
        window.well_formed(),
    ensures
        enemies_from_draws(draws@, *window, enemies@),
{
    enemies_at(draws, window)
}

/// When the enemy-spawn timer finished this frame, place one enemy per
/// draw in the batch; otherwise place none.
pub fn spawn_enemies_over_time(
    enemy_spawn_timer: &EnemySpawnTime,
    draws: &Vec<EnemyDraw>,
    window: &Window,
) -> (enemies: Vec<Enemy>)
    requires
        draws@.len() == ENEMY_SPAWN_OVER_TIME,
        draws_valid(draws@),
        window.well_formed(),
    ensures
        enemy_spawn_timer.timer.finished ==> enemies_from_draws(draws@, *window, enemies@),
        !enemy_spawn_timer.timer.finished ==> enemies@.len() == 0,
{
    if enemy_spawn_timer.timer.finished() {
        enemies_at(draws, window)
    } else {
        Vec::new()
    }
}

/// An enemy built from a valid draw sits within the coordinate bound.
pub proof fn lemma_spawned_enemies_within_limit(
    draws: Seq<EnemyDraw>,
    window: Window,
    enemies: Seq<Enemy>,
)
    requires
        window.well_formed(),
        enemies_from_draws(draws, window, enemies),
    ensures
        forall|i: int|
            0 <= i < enemies.len() ==> within_limit(#[trigger] enemies[i].translation)
                && enemies[i].well_formed(),
{
    assert forall|i: int| 0 <= i < enemies.len() implies within_limit(
        #[trigger] enemies[i].translation,
    ) && enemies[i].well_formed() by {
        assert(enemy_from_draw(draws[i], window, enemies[i]));
    }
}

/// The enemy's circle and the player's overlap: their centres are
/// strictly closer than the two half-sprites together.
pub open spec fn enemy_hits(player: Player, e: Enemy) -> bool {
    circles_overlap(player.translation, e.translation, player_half() + enemy_half())
}

/// When some enemy reaches the player, the run ends: report a game-over
/// event carrying the current score. Otherwise report nothing.
pub fn enemy_hit_player(player: &Player, enemies: &Vec<Enemy>, score: &Score) -> (game_over:
    Option<GameOver>)
    requires
        within_limit(player.translation),
        forall|i: int|
            0 <= i < enemies@.len() ==> within_limit(#[trigger] enemies@[i].translation),
    ensures
        game_over == (if exists|i: int|
            0 <= i < enemies@.len() && enemy_hits(*player, #[trigger] enemies@[i]) {
            Some(GameOver { score: score.value })
        } else {
            None::<GameOver>
        }),
{
    let radius: i64 = PLAYER_SCALE / 2 + ENEMY_SCALE / 2;
    let mut idx: usize = 0;
    while idx < enemies.len()
        invariant
            idx <= enemies@.len(),
            within_limit(player.translation),
            forall|i: int|
                0 <= i < enemies@.len() ==> within_limit(#[trigger] enemies@[i].translation),
            radius == player_half() + enemy_half(),
            forall|i: int| 0 <= i < idx ==> !enemy_hits(*player, #[trigger] enemies@[i]),
        decreases enemies@.len() - idx,
    {
        let e = &enemies[idx];
        if circles_collide(player.translation, e.translation, radius) {
            return Some(GameOver { score: score.value });
        }
        idx = idx + 1;
    }
    None
}

} // verus!
