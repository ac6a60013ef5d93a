use ball_game::enemy::{
    spawn_enemies, spawn_enemies_over_time, tick_enemy_spawn_timer, EnemyDraw, EnemySpawnTime,
};
use ball_game::geometry::{Vec2, Window};
use ball_game::star::{
    spawn_stars, spawn_stars_over_time, tick_star_spawn_timer, Star, StarSpawnTimer,
};
use ball_game::timer::{Timer, TimerMode};

fn window_800_600() -> Window {
    Window::new(800, 600)
}

#[test]
fn repeating_timer_finishes_and_wraps() {
    let mut t = Timer::new(3000, TimerMode::Repeating);
    t.tick(1000);
    assert!(!t.finished());
    assert_eq!(t.elapsed_ms, 1000);
    t.tick(2000);
    assert!(t.finished());
    assert_eq!(t.elapsed_ms, 0);
    t.tick(500);
    assert!(!t.finished());
    assert_eq!(t.elapsed_ms, 500);
}

#[test]
fn repeating_timer_wraps_a_long_frame() {
    let mut t = Timer::new(3000, TimerMode::Repeating);
    t.tick(7000);
    assert!(t.finished());
    assert_eq!(t.elapsed_ms, 1000);
}

#[test]
fn once_timer_saturates_and_stays_finished() {
    let mut t = Timer::new(1000, TimerMode::Once);
    t.tick(600);
    assert!(!t.finished());
    assert_eq!(t.elapsed_ms, 600);
    t.tick(600);
    assert!(t.finished());
    assert_eq!(t.elapsed_ms, 1000);
    t.tick(5);
    assert!(t.finished());
    assert_eq!(t.elapsed_ms, 1000);
}

#[test]
fn spawn_timers_default_to_their_periods() {
    let star_timer = StarSpawnTimer::default();
    assert_eq!(star_timer.timer.duration_ms, 3000);
    assert_eq!(star_timer.timer.elapsed_ms, 0);
    assert!(!star_timer.timer.finished);
    let enemy_timer = EnemySpawnTime::default();
    assert_eq!(enemy_timer.timer.duration_ms, 5000);
    assert_eq!(enemy_timer.timer.elapsed_ms, 0);
    assert!(!enemy_timer.timer.finished);
}

#[test]
fn ticking_the_spawn_timers_ticks_their_clock() {
    let mut star_timer = StarSpawnTimer::default();
    tick_star_spawn_timer(&mut star_timer, 3000);
    assert!(star_timer.timer.finished);
    assert_eq!(star_timer.timer.elapsed_ms, 0);
    let mut enemy_timer = EnemySpawnTime::default();
    tick_enemy_spawn_timer(&mut enemy_timer, 4999);
    assert!(!enemy_timer.timer.finished);
    tick_enemy_spawn_timer(&mut enemy_timer, 1);
    assert!(enemy_timer.timer.finished);
}

#[test]
fn the_opening_stars_land_on_their_draws() {
    let w = window_800_600();
    let mut fractions: Vec<(u64, u64)> = Vec::new();
    for i in 0..10u64 {
        fractions.push((i * 100000, 999999 - i * 100000));
    }
    let stars = spawn_stars(&fractions, &w);
    assert_eq!(stars.len(), 10);
    assert_eq!(stars[0].translation, Vec2 { x: 0, y: 599 });
    assert_eq!(stars[5].translation, Vec2 { x: 400, y: 299 });
    for s in &stars {
        assert!(0 <= s.translation.x && s.translation.x < 800);
        assert!(0 <= s.translation.y && s.translation.y < 600);
    }
}

#[test]
fn stars_spawn_only_when_the_timer_finished() {
    let w = window_800_600();
    let fractions = vec![(500000u64, 500000u64), (0u64, 0u64)];
    let idle = StarSpawnTimer::default();
    assert_eq!(spawn_stars_over_time(&idle, &fractions, &w), Vec::<Star>::new());
    let mut ready = StarSpawnTimer::default();
    tick_star_spawn_timer(&mut ready, 3000);
    let stars = spawn_stars_over_time(&ready, &fractions, &w);
    assert_eq!(stars.len(), 2);
    assert_eq!(stars[0].translation, Vec2 { x: 400, y: 300 });
    assert_eq!(stars[1].translation, Vec2 { x: 0, y: 0 });
}

fn enemy_draw(fx: u64, fy: u64, dx: i64, dy: i64, fspeed: u64) -> EnemyDraw {
    EnemyDraw { fx, fy, direction: Vec2 { x: dx, y: dy }, fspeed }
}

#[test]
fn the_opening_enemies_follow_their_draws() {
    let w = window_800_600();
    let mut draws: Vec<EnemyDraw> = Vec::new();
    for _ in 0..5 {
        draws.push(enemy_draw(0, 0, 1000, 0, 0));
        draws.push(enemy_draw(999999, 500000, -707, 707, 999999));
    }
    let enemies = spawn_enemies(&draws, &w);
    assert_eq!(enemies.len(), 10);
    assert_eq!(enemies[0].translation, Vec2 { x: 0, y: 0 });
    assert_eq!(enemies[0].speed, 25);
    assert_eq!(enemies[0].direction, Vec2 { x: 1000, y: 0 });
    assert_eq!(enemies[1].translation, Vec2 { x: 799, y: 300 });
    // 25 + 999999 * 475 / 1000000 rounds down to 499
    assert_eq!(enemies[1].speed, 499);
    assert_eq!(enemies[1].direction, Vec2 { x: -707, y: 707 });
}

#[test]
fn enemies_spawn_only_when_the_timer_finished() {
    let w = window_800_600();
    let draws = vec![
        enemy_draw(100000, 200000, 1000, 0, 500000),
        enemy_draw(300000, 400000, 0, -1000, 0),
        enemy_draw(500000, 600000, 707, 707, 999999),
    ];
    let idle = EnemySpawnTime::default();
    assert_eq!(spawn_enemies_over_time(&idle, &draws, &w).len(), 0);
    let mut ready = EnemySpawnTime::default();
    tick_enemy_spawn_timer(&mut ready, 5000);
    let enemies = spawn_enemies_over_time(&ready, &draws, &w);
    assert_eq!(enemies.len(), 3);
    assert_eq!(enemies[0].translation, Vec2 { x: 80, y: 120 });
    // 25 + 500000 * 475 / 1000000 lands mid-range
    assert_eq!(enemies[0].speed, 262);
    assert_eq!(enemies[1].direction, Vec2 { x: 0, y: -1000 });
}
