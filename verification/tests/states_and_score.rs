use ball_game::app_states::{
    toggle_simulation, transition_to_game_state, transition_to_main_menu_state, AppState,
    SimulationState,
};
use ball_game::camera::spawn_camera;
use ball_game::events::GameOver;
use ball_game::geometry::{Vec2, Window};
use ball_game::people::{job_title, Job};
use ball_game::score::{update_high_scores, HighScore, Score};

#[test]
fn the_application_opens_on_the_main_menu() {
    assert_eq!(AppState::default(), AppState::MainMenu);
    assert_eq!(SimulationState::default(), SimulationState::Running);
}

#[test]
fn the_pause_key_toggles_the_simulation() {
    assert_eq!(
        toggle_simulation(SimulationState::Running, true),
        Some(SimulationState::Paused)
    );
    assert_eq!(
        toggle_simulation(SimulationState::Paused, true),
        Some(SimulationState::Running)
    );
    assert_eq!(toggle_simulation(SimulationState::Running, false), None);
    assert_eq!(toggle_simulation(SimulationState::Paused, false), None);
}

#[test]
fn the_state_key_moves_towards_the_game() {
    assert_eq!(transition_to_game_state(AppState::MainMenu, true), Some(AppState::Game));
    assert_eq!(transition_to_game_state(AppState::GameOver, true), Some(AppState::Game));
    assert_eq!(transition_to_game_state(AppState::Game, true), None);
    assert_eq!(transition_to_game_state(AppState::MainMenu, false), None);
}

#[test]
fn the_state_key_moves_towards_the_main_menu() {
    assert_eq!(
        transition_to_main_menu_state(AppState::Game, true),
        Some(AppState::MainMenu)
    );
    assert_eq!(
        transition_to_main_menu_state(AppState::GameOver, true),
        Some(AppState::MainMenu)
    );
    assert_eq!(transition_to_main_menu_state(AppState::MainMenu, true), None);
    assert_eq!(transition_to_main_menu_state(AppState::Game, false), None);
}

#[test]
fn scores_start_at_zero_and_the_table_starts_empty() {
    assert_eq!(Score::default().value, 0);
    assert!(HighScore::default().scores.is_empty());
}

#[test]
fn each_finished_run_enters_the_high_score_table() {
    let mut high = HighScore::default();
    let events = vec![GameOver { score: 7 }, GameOver { score: 3 }];
    update_high_scores(&events, &mut high);
    assert_eq!(high.scores.len(), 2);
    assert_eq!(high.scores[0], ("Player".to_string(), 7));
    assert_eq!(high.scores[1], ("Player".to_string(), 3));
    update_high_scores(&vec![GameOver { score: 11 }], &mut high);
    assert_eq!(high.scores.len(), 3);
    assert_eq!(high.scores[2], ("Player".to_string(), 11));
}

#[test]
fn the_camera_spawns_at_the_window_center() {
    let w = Window::new(800, 600);
    assert_eq!(spawn_camera(&w), Vec2 { x: 400, y: 300 });
}

#[test]
fn each_job_carries_its_title() {
    assert_eq!(job_title(&Job::Doctor), "Doctor");
    assert_eq!(job_title(&Job::FireFighter), "Firefighter");
    assert_eq!(job_title(&Job::Lawyer), "Lawyer");
}
