//! Stars: placed at random points in the window when the game starts, and
//! again in small batches each time the repeating star-spawn timer
//! finishes.

use vstd::prelude::*;

use crate::geometry::{position_from_fractions, scaled, within_limit, Vec2, Window};
use crate::settings::{
    AMOUNT_OF_STARS_PER_SPAWN, FRACTION_ONE, NUMBER_OF_STARS_AT_STARTUP, STAR_SPAWN_TIME_MS,
};
use crate::timer::{Timer, TimerMode};

verus! {

/// A collectable star, at its position in the window.
#[derive(Clone, Copy, Debug, PartialEq, Eq, Structural)]
pub struct Star {
    pub translation: Vec2,
}

/// The repeating timer that paces star spawning.
#[derive(Clone, Copy, Debug, PartialEq, Eq, Structural)]
pub struct StarSpawnTimer {
    pub timer: Timer,
}

impl Default for StarSpawnTimer {
    /// A fresh repeating timer over the star-spawn period, with nothing
    /// elapsed yet.
    fn default() -> (t: StarSpawnTimer)
        ensures
            t.timer == (Timer {
                duration_ms: STAR_SPAWN_TIME_MS,
                elapsed_ms: 0,
                mode: TimerMode::Repeating,
                finished: false,
            }),
            t.timer.well_formed(),
    {
        StarSpawnTimer { timer: Timer::new(STAR_SPAWN_TIME_MS, TimerMode::Repeating) }
    }
}

/// Advance the star-spawn timer by one frame delta.
pub fn tick_star_spawn_timer(star_spawn_timer: &mut StarSpawnTimer, delta_ms: u64)
    requires
        old(star_spawn_timer).timer.well_formed(),
        old(star_spawn_timer).timer.elapsed_ms + delta_ms <= u64::MAX,
    ensures
        final(star_spawn_timer).timer.well_formed(),
        final(star_spawn_timer).timer.duration_ms == old(star_spawn_timer).timer.duration_ms,
        final(star_spawn_timer).timer.mode == old(star_spawn_timer).timer.mode,
        final(star_spawn_timer).timer.finished == (old(star_spawn_timer).timer.elapsed_ms
            + delta_ms >= old(star_spawn_timer).timer.duration_ms || (old(
            star_spawn_timer,
        ).timer.mode is Once && old(star_spawn_timer).timer.finished)),
        final(star_spawn_timer).timer.elapsed_ms == (if old(
            star_spawn_timer,
        ).timer.mode is Repeating {
            (old(star_spawn_timer).timer.elapsed_ms + delta_ms) % (old(
                star_spawn_timer,
            ).timer.duration_ms as int)
        } else if old(star_spawn_timer).timer.elapsed_ms + delta_ms >= old(
            star_spawn_timer,
        ).timer.duration_ms {
            old(star_spawn_timer).timer.duration_ms as int
        } else {
            old(star_spawn_timer).timer.elapsed_ms + delta_ms
        }),
{
    star_spawn_timer.timer.tick(delta_ms);
}

/// Every fraction in the batch lies below one, so each scales to a point
/// inside the window.
pub open spec fn fractions_valid(fractions: Seq<(u64, u64)>) -> bool {
    forall|i: int|
        0 <= i < fractions.len() ==> (#[trigger] fractions[i]).0 < FRACTION_ONE && fractions[i].1
            < FRACTION_ONE
}

/// The stars built from a batch of draws: one per draw, each at its draw's
/// point in the window, in order.
pub open spec fn stars_from_fractions(
    fractions: Seq<(u64, u64)>,
    window: Window,
    stars: Seq<Star>,
) -> bool {
    &&& stars.len() == fractions.len()
    &&& forall|i: int|
        0 <= i < fractions.len() ==> {
            let s = #[trigger] stars[i];
            &&& s.translation.x == scaled(fractions[i].0 as int, window.width as int)
            &&& s.translation.y == scaled(fractions[i].1 as int, window.height as int)
            &&& 0 <= s.translation.x < window.width
            &&& 0 <= s.translation.y < window.height
        }
}

fn stars_at(fractions: &Vec<(u64, u64)>, window: &Window) -> (stars: Vec<Star>)
    requires
        fractions_valid(fractions@),
        window.well_formed(),
    ensures
        stars_from_fractions(fractions@, *window, stars@),
{
    let mut stars: Vec<Star> = Vec::new();
    let mut idx: usize = 0;
    while idx < fractions.len()
        invariant
            idx <= fractions@.len(),
            fractions_valid(fractions@),
            window.well_formed(),
            stars_from_fractions(fractions@.take(idx as int), *window, stars@),
        decreases fractions@.len() - idx,
    {
        let (fx, fy) = fractions[idx];
        let translation = position_from_fractions(fx, fy, window);
        stars.push(Star { translation });
        idx = idx + 1;
    }
    proof {
        assert(fractions@.take(fractions@.len() as int) =~= fractions@);
    }
    stars
}

/// Place the game's opening set of stars, one per draw in the batch.
pub fn spawn_stars(fractions: &Vec<(u64, u64)>, window: &Window) -> (stars: Vec<Star>)
    requires
        fractions@.len() == NUMBER_OF_STARS_AT_STARTUP,
        fractions_valid(fractions@),
        window.well_formed(),
    ensures
        stars_from_fractions(fractions@, *window, stars@),
{
    stars_at(fractions, window)
}

/// When the star-spawn timer finished this frame, place one star per draw
/// in the batch; otherwise place none.
pub fn spawn_stars_over_time(
    star_spawn_timer: &StarSpawnTimer,
    fractions: &Vec<(u64, u64)>,
    window: &Window,
) -> (stars: Vec<Star>)
    requires
        fractions@.len() == AMOUNT_OF_STARS_PER_SPAWN,
        fractions_valid(fractions@),
        window.well_formed(),
    ensures
        star_spawn_timer.timer.finished ==> stars_from_fractions(fractions@, *window, stars@),
        !star_spawn_timer.timer.finished ==> stars@.len() == 0,
{
    if star_spawn_timer.timer.finished() {
        stars_at(fractions, window)
    } else {
        Vec::new()
    }
}

/// A star scaled from valid fractions sits within the coordinate bound.
pub proof fn lemma_spawned_stars_within_limit(
    fractions: Seq<(u64, u64)>,
    window: Window,
    stars: Seq<Star>,
)
    requires
        window.well_formed(),
        stars_from_fractions(fractions, window, stars),
    ensures
        forall|i: int| 0 <= i < stars.len() ==> within_limit(#[trigger] stars[i].translation),
{
}

} // verus!
