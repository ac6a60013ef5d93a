use ball_game::enemy::{enemy_hit_player, enemy_movement, update_enemy_direction, Enemy};
use ball_game::enemy::confine_enemy_movement;
use ball_game::events::GameOver;
use ball_game::geometry::{
    circles_collide, clamp_cap_or_raise, clamp_raise_then_cap, position_from_fractions, Vec2,
    Window,
};
use ball_game::input::Keyboard;
use ball_game::player::{
    confine_player_movement, player_hit_star, player_movement, spawn_players, Player,
};
use ball_game::score::Score;
use ball_game::star::Star;

fn window_800_600() -> Window {
    Window::new(800, 600)
}

#[test]
fn clamp_raises_caps_and_keeps() {
    assert_eq!(clamp_raise_then_cap(5, 10, 20), 10);
    assert_eq!(clamp_raise_then_cap(25, 10, 20), 20);
    assert_eq!(clamp_raise_then_cap(15, 10, 20), 15);
    assert_eq!(clamp_cap_or_raise(5, 10, 20), 10);
    assert_eq!(clamp_cap_or_raise(25, 10, 20), 20);
    assert_eq!(clamp_cap_or_raise(15, 10, 20), 15);
}

#[test]
fn clamp_orders_differ_on_a_degenerate_interval() {
    // raise first: 5 -> 10, then capped at 3
    assert_eq!(clamp_raise_then_cap(5, 10, 3), 3);
    // cap first: 5 -> 3, the raise arm is not taken
    assert_eq!(clamp_cap_or_raise(5, 10, 3), 3);
    assert_eq!(clamp_cap_or_raise(1, 10, 3), 10);
}

#[test]
fn collision_is_strictly_inside_the_radius() {
    let a = Vec2 { x: 0, y: 0 };
    let b = Vec2 { x: 3, y: 4 };
    // distance is exactly 5
    assert!(!circles_collide(a, b, 5));
    assert!(circles_collide(a, b, 6));
}

#[test]
fn player_spawns_at_the_window_center() {
    let w = window_800_600();
    let p = spawn_players(&w);
    assert_eq!(p.translation, Vec2 { x: 400, y: 300 });
    let odd = Window::new(801, 601);
    assert_eq!(spawn_players(&odd).translation, Vec2 { x: 400, y: 300 });
}

#[test]
fn player_moves_right_at_full_speed() {
    let mut p = Player { translation: Vec2 { x: 100, y: 100 } };
    let keys = Keyboard { key_d: true, ..Keyboard::default() };
    player_movement(&mut p, &keys, 1000);
    assert_eq!(p.translation, Vec2 { x: 350, y: 100 });
}

#[test]
fn arrow_and_letter_keys_move_alike() {
    let mut by_letter = Player { translation: Vec2 { x: 0, y: 0 } };
    let mut by_arrow = Player { translation: Vec2 { x: 0, y: 0 } };
    player_movement(&mut by_letter, &Keyboard { key_w: true, ..Keyboard::default() }, 16);
    player_movement(&mut by_arrow, &Keyboard { arrow_up: true, ..Keyboard::default() }, 16);
    assert_eq!(by_letter.translation, by_arrow.translation);
}

#[test]
fn diagonal_steps_are_scaled_down() {
    let mut p = Player { translation: Vec2 { x: 100, y: 100 } };
    let keys = Keyboard { key_w: true, key_d: true, ..Keyboard::default() };
    player_movement(&mut p, &keys, 1000);
    // 250 * 1000 * 707 / 1000000 = 176, against 250 straight
    assert_eq!(p.translation, Vec2 { x: 276, y: 276 });
}

#[test]
fn sprinting_doubles_the_step() {
    let mut p = Player { translation: Vec2 { x: 100, y: 100 } };
    let keys = Keyboard { key_d: true, shift_left: true, ..Keyboard::default() };
    player_movement(&mut p, &keys, 1000);
    assert_eq!(p.translation, Vec2 { x: 600, y: 100 });
}

#[test]
fn a_sprinting_diagonal_frame_rounds_down() {
    let mut p = Player { translation: Vec2 { x: 100, y: 100 } };
    let keys = Keyboard { key_s: true, key_a: true, shift_left: true, ..Keyboard::default() };
    player_movement(&mut p, &keys, 16);
    // 250 * 16 * 2 * 707 / 1000000 = 5, moving down and left
    assert_eq!(p.translation, Vec2 { x: 95, y: 95 });
}

#[test]
fn opposed_keys_cancel() {
    let mut p = Player { translation: Vec2 { x: 100, y: 100 } };
    let keys = Keyboard { key_w: true, key_s: true, key_a: true, key_d: true, ..Keyboard::default() };
    player_movement(&mut p, &keys, 1000);
    assert_eq!(p.translation, Vec2 { x: 100, y: 100 });
}

#[test]
fn player_is_confined_to_the_window() {
    let w = window_800_600();
    let mut p = Player { translation: Vec2 { x: 0, y: 700 } };
    confine_player_movement(&mut p, &w);
    assert_eq!(p.translation, Vec2 { x: 15, y: 585 });
    let mut inside = Player { translation: Vec2 { x: 400, y: 300 } };
    confine_player_movement(&mut inside, &w);
    assert_eq!(inside.translation, Vec2 { x: 400, y: 300 });
}

#[test]
fn overlapping_stars_are_collected_and_scored() {
    let player = Player { translation: Vec2 { x: 100, y: 100 } };
    let mut stars = vec![
        Star { translation: Vec2 { x: 110, y: 100 } },
        Star { translation: Vec2 { x: 200, y: 200 } },
        Star { translation: Vec2 { x: 100, y: 129 } },
        Star { translation: Vec2 { x: 100, y: 130 } },
    ];
    let mut score = Score { value: 5 };
    let collected = player_hit_star(&player, &mut stars, &mut score);
    assert_eq!(collected, 2);
    assert_eq!(score.value, 7);
    assert_eq!(
        stars,
        vec![
            Star { translation: Vec2 { x: 200, y: 200 } },
            Star { translation: Vec2 { x: 100, y: 130 } },
        ]
    );
}

#[test]
fn enemies_drift_along_their_heading() {
    let mut enemies = vec![
        Enemy { translation: Vec2 { x: 100, y: 100 }, direction: Vec2 { x: 1000, y: 0 }, speed: 500 },
        Enemy {
            translation: Vec2 { x: 100, y: 100 },
            direction: Vec2 { x: -707, y: 707 },
            speed: 100,
        },
    ];
    enemy_movement(&mut enemies, 1000);
    assert_eq!(enemies[0].translation, Vec2 { x: 600, y: 100 });
    assert_eq!(enemies[1].translation, Vec2 { x: 100 - 70, y: 100 + 70 });
    assert_eq!(enemies[0].direction, Vec2 { x: 1000, y: 0 });
    assert_eq!(enemies[0].speed, 500);
}

#[test]
fn enemies_bounce_off_the_walls() {
    let w = window_800_600();
    let mut enemies = vec![
        Enemy { translation: Vec2 { x: 22, y: 300 }, direction: Vec2 { x: 500, y: -500 }, speed: 100 },
        Enemy {
            translation: Vec2 { x: 779, y: 578 },
            direction: Vec2 { x: 300, y: 400 },
            speed: 100,
        },
        Enemy {
            translation: Vec2 { x: 400, y: 300 },
            direction: Vec2 { x: 300, y: 400 },
            speed: 100,
        },
    ];
    let bounces = update_enemy_direction(&mut enemies, &w);
    assert_eq!(bounces, 3);
    assert_eq!(enemies[0].direction, Vec2 { x: -500, y: -500 });
    assert_eq!(enemies[1].direction, Vec2 { x: -300, y: -400 });
    assert_eq!(enemies[2].direction, Vec2 { x: 300, y: 400 });
    assert_eq!(enemies[0].translation, Vec2 { x: 22, y: 300 });
}

#[test]
fn enemies_are_confined_to_the_window() {
    let w = window_800_600();
    let mut enemies = vec![Enemy {
        translation: Vec2 { x: 900, y: -5 },
        direction: Vec2 { x: 1000, y: 0 },
        speed: 100,
    }];
    confine_enemy_movement(&mut enemies, &w);
    assert_eq!(enemies[0].translation, Vec2 { x: 778, y: 22 });
}

#[test]
fn an_enemy_on_the_player_ends_the_run() {
    let player = Player { translation: Vec2 { x: 100, y: 100 } };
    let score = Score { value: 9 };
    let near = vec![Enemy {
        translation: Vec2 { x: 130, y: 100 },
        direction: Vec2 { x: 1000, y: 0 },
        speed: 100,
    }];
    assert_eq!(enemy_hit_player(&player, &near, &score), Some(GameOver { score: 9 }));
    let far = vec![Enemy {
        translation: Vec2 { x: 137, y: 100 },
        direction: Vec2 { x: 1000, y: 0 },
        speed: 100,
    }];
    assert_eq!(enemy_hit_player(&player, &far, &score), None);
}

#[test]
fn spawn_points_scale_fractions_to_the_window() {
    let w = window_800_600();
    let v = position_from_fractions(500000, 250000, &w);
    assert_eq!(v, Vec2 { x: 400, y: 150 });
    let edge = position_from_fractions(999999, 0, &w);
    assert_eq!(edge, Vec2 { x: 799, y: 0 });
}
