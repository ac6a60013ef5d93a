//! The two state machines around the simulation: which screen the
//! application is on, and whether the simulation is running or paused.
//! Each transition function returns the state to switch to, or `None` when
//! the frame's input asks for no change.

use vstd::prelude::*;

verus! {

/// Which screen the application is on.
#[derive(Clone, Copy, Debug, PartialEq, Eq, Structural)]
pub enum AppState {
    MainMenu,
    Game,
    GameOver,
}

impl Default for AppState {
    /// The application opens on the main menu.
    fn default() -> (s: AppState)
        ensures
            s is MainMenu,
    {
        AppState::MainMenu
    }
}

/// Whether the simulation advances this frame.
#[derive(Clone, Copy, Debug, PartialEq, Eq, Structural)]
pub enum SimulationState {
    Running,
    Paused,
}

impl Default for SimulationState {
    /// The simulation starts running.
    fn default() -> (s: SimulationState)
        ensures
            s is Running,
    {
        SimulationState::Running
    }
}

/// The state a pause toggle moves to: running becomes paused and paused
/// becomes running.
pub open spec fn toggled(current: SimulationState) -> SimulationState {
    match current {
        SimulationState::Running => SimulationState::Paused,
        SimulationState::Paused => SimulationState::Running,
    }
}

/// On the pause key, switch between running and paused; otherwise ask for
/// no change.
pub fn toggle_simulation(current: SimulationState, space_just_pressed: bool) -> (next: Option<
    SimulationState,
>)
    ensures
        next == (if space_just_pressed {
            Some(toggled(current))
        } else {
            None::<SimulationState>
        }),
{
    if space_just_pressed {
        match current {
            SimulationState::Running => Some(SimulationState::Paused),
            SimulationState::Paused => Some(SimulationState::Running),
        }
    } else {
        None
    }
}

/// Toggling the pause state twice asks for the state it started from.
pub proof fn lemma_toggle_round_trip(current: SimulationState)
    ensures
        toggled(toggled(current)) == current,
{
}

/// On the state key, move to the game screen unless the application is
/// already there; otherwise ask for no change.
pub fn transition_to_game_state(current: AppState, g_just_pressed: bool) -> (next: Option<
    AppState,
>)
    ensures
        next == (if g_just_pressed && !(current is Game) {
            Some(AppState::Game)
        } else {
            None::<AppState>
        }),
{
    if g_just_pressed {
        match current {
            AppState::Game => None,
            _ => Some(AppState::Game),
        }
    } else {
        None
    }
}

/// On the state key, move to the main menu unless the application is
/// already there; otherwise ask for no change.
pub fn transition_to_main_menu_state(current: AppState, g_just_pressed: bool) -> (next: Option<
    AppState,
>)
    ensures
        next == (if g_just_pressed && !(current is MainMenu) {
            Some(AppState::MainMenu)
        } else {
            None::<AppState>
        }),
{
    if g_just_pressed {
        match current {
            AppState::MainMenu => None,
            _ => Some(AppState::MainMenu),
        }
    } else {
        None
    }
}

} // verus!
