//! The application state machine: which screen is up, and what a command does
//! on it.
//!
//! Commands change the screen, the menu cursor and the run. What lies outside
//! the state, a sound, a fresh read of the score board, the end of the
//! process, is not done here: the handler reports it and the host does it.

use crate::game_state::{Direction, GameState};
use crate::input::GameInput;
use crate::menu_state::{MenuItem, MenuState};
use vstd::prelude::*;

verus! {

/// The screen that is up.
#[derive(Debug, Clone, Copy, PartialEq, Eq, Structural)]
pub enum AppState {
    MainMenu,
    Playing,
    Leaderboard,
}

/// What the host has to do once a command has been handled.
#[derive(Debug, Clone, Copy, PartialEq, Eq, Structural)]
pub enum HostAction {
    /// Nothing.
    Nothing,
    /// Read the score board from its store and put it on display.
    RefreshLeaderboard,
    /// End the process.
    Exit,
}

/// What a command asks of the host.
#[derive(Debug, Clone, Copy, PartialEq, Eq, Structural)]
pub struct InputOutcome {
    /// Play the menu sound. Where an action is due as well, the sound comes
    /// first.
    pub click: bool,
    pub action: HostAction,
}

impl InputOutcome {
    /// Nothing to play and nothing to do.
    pub open spec fn spec_silent() -> InputOutcome {
        InputOutcome { click: false, action: HostAction::Nothing }
    }

    /// Nothing to play and nothing to do.
    #[verifier::when_used_as_spec(spec_silent)]
    pub fn silent() -> (outcome: InputOutcome)
        ensures
            outcome == InputOutcome::spec_silent(),
    {
        InputOutcome { click: false, action: HostAction::Nothing }
    }
}

/// The heading a command steers to, if it is a steering command.
pub open spec fn steering(input: GameInput) -> Option<Direction> {
    match input {
        GameInput::Up => Some(Direction::Up),
        GameInput::Down => Some(Direction::Down),
        GameInput::Left => Some(Direction::Left),
        GameInput::Right => Some(Direction::Right),
        _ => None,
    }
}

/// What a command does on the main menu. Up and Down move the cursor. Select
/// starts a fresh run, shows the score board or asks to exit, by the item
/// under the cursor. Back asks to exit. Everything but Back clicks.
pub open spec fn menu_transition(
    app: AppState,
    menu: MenuState,
    game: GameState,
    input: GameInput,
    app_after: AppState,
    menu_after: MenuState,
    game_after: GameState,
    outcome: InputOutcome,
) -> bool {
    match input {
        GameInput::Up => {
            &&& app_after == app
            &&& menu_after.selected_item == menu.selected_item.above()
            &&& game_after == game
            &&& outcome == InputOutcome { click: true, action: HostAction::Nothing }
        },
        GameInput::Down => {
            &&& app_after == app
            &&& menu_after.selected_item == menu.selected_item.below()
            &&& game_after == game
            &&& outcome == InputOutcome { click: true, action: HostAction::Nothing }
        },
        GameInput::Select => {
            &&& menu_after == menu
            &&& outcome.click
            &&& match menu.selected_item {
                MenuItem::Start => {
                    &&& app_after == AppState::Playing
                    &&& game_after.config == game.config
                    &&& game_after.is_fresh()
                    &&& outcome.action == HostAction::Nothing
                },
                MenuItem::Leaderboard => {
                    &&& app_after == AppState::Leaderboard
                    &&& game_after == game
                    &&& outcome.action == HostAction::RefreshLeaderboard
                },
                MenuItem::Exit => {
                    &&& app_after == app
                    &&& game_after == game
                    &&& outcome.action == HostAction::Exit
                },
            }
        },
        GameInput::Back => {
            &&& app_after == app
            &&& menu_after == menu
            &&& game_after == game
            &&& outcome == InputOutcome { click: false, action: HostAction::Exit }
        },
        _ => {
            &&& app_after == app
            &&& menu_after == menu
            &&& game_after == game
            &&& outcome == InputOutcome::silent()
        },
    }
}

/// What a command does during play. While the run lasts, steering commands
/// buffer a turn and Back pauses or resumes. Once the run is over, Back leads
/// to the main menu and Select starts a fresh run. Nothing else has an effect,
/// and nothing is asked of the host.
pub open spec fn game_transition(
    app: AppState,
    game: GameState,
    input: GameInput,
    app_after: AppState,
    game_after: GameState,
) -> bool {
    if game.game_over {
        match input {
            GameInput::Back => app_after == AppState::MainMenu && game_after == game,
            GameInput::Select => {
                &&& app_after == app
                &&& game_after.config == game.config
                &&& game_after.is_fresh()
            },
            _ => app_after == app && game_after == game,
        }
    } else {
        &&& app_after == app
        &&& match input {
            GameInput::Back => game_after == (GameState { paused: !game.paused, ..game }),
            _ => match steering(input) {
                Some(turn) => game_after == (GameState {
                    next_direction: game.buffer_after(turn),
                    ..game
                }),
                None => game_after == game,
            },
        }
    }
}

/// What a command does on the score-board screen: Back leads to the main
/// menu, nothing else has an effect.
pub open spec fn leaderboard_transition(app: AppState, input: GameInput) -> AppState {
    if input == GameInput::Back {
        AppState::MainMenu
    } else {
        app
    }
}

/// Routes commands to the screen that is up.
pub struct InputHandler;

impl InputHandler {
    /// Handles one command on whatever screen is up, and tells what the host
    /// has to do about it.
    pub fn handle_input(
        app_state: &mut AppState,
        menu_state: &mut MenuState,
        game_state: &mut GameState,
        input: GameInput,
    ) -> (outcome: InputOutcome)
        requires
            old(game_state).well_formed(),
        ensures
            final(game_state).well_formed(),
            match *old(app_state) {
                AppState::MainMenu => menu_transition(
                    *old(app_state),
                    *old(menu_state),
                    *old(game_state),
                    input,
                    *final(app_state),
                    *final(menu_state),
                    *final(game_state),
                    outcome,
                ),
                AppState::Playing => {
                    &&& game_transition(
                        *old(app_state),
                        *old(game_state),
                        input,
                        *final(app_state),
                        *final(game_state),
                    )
                    &&& *final(menu_state) == *old(menu_state)
                    &&& outcome == InputOutcome::silent()
                },
                AppState::Leaderboard => {
                    &&& *final(app_state) == leaderboard_transition(*old(app_state), input)
                    &&& *final(menu_state) == *old(menu_state)
                    &&& *final(game_state) == *old(game_state)
                    &&& outcome == InputOutcome::silent()
                },
            },
    {
        match *app_state {
            AppState::MainMenu => Self::handle_menu_input(
                app_state,
                menu_state,
                game_state,
                input,
            ),
            AppState::Playing => {
                Self::handle_game_input(app_state, game_state, input);
                InputOutcome::silent()
            },
            AppState::Leaderboard => {
                Self::handle_leaderboard_input(app_state, input);
                InputOutcome::silent()
            },
        }
    }

    /// Handles one command on the main menu.
    pub fn handle_menu_input(
        app_state: &mut AppState,
        menu_state: &mut MenuState,
        game_state: &mut GameState,
        input: GameInput,
    ) -> (outcome: InputOutcome)
        requires
            old(game_state).well_formed(),
        ensures
            final(game_state).well_formed(),
            menu_transition(
                *old(app_state),
                *old(menu_state),
                *old(game_state),
                input,
                *final(app_state),
                *final(menu_state),
                *final(game_state),
                outcome,
            ),
    {
        match input {
            GameInput::Up => {
                menu_state.move_up();
                InputOutcome { click: true, action: HostAction::Nothing }
            },
            GameInput::Down => {
                menu_state.move_down();
                InputOutcome { click: true, action: HostAction::Nothing }
            },
            GameInput::Select => {
                match menu_state.selected_item {
                    MenuItem::Start => {
                        game_state.reset();
                        *app_state = AppState::Playing;
                        InputOutcome { click: true, action: HostAction::Nothing }
                    },
                    MenuItem::Leaderboard => {
                        *app_state = AppState::Leaderboard;
                        InputOutcome { click: true, action: HostAction::RefreshLeaderboard }
                    },
                    MenuItem::Exit => InputOutcome { click: true, action: HostAction::Exit },
                }
            },
            GameInput::Back => InputOutcome { click: false, action: HostAction::Exit },
            _ => InputOutcome::silent(),
        }
    }

    /// Handles one command during play.
    pub fn handle_game_input(
        app_state: &mut AppState,
        game_state: &mut GameState,
        input: GameInput,
    )
        requires
            old(game_state).well_formed(),
        ensures
            final(game_state).well_formed(),
            game_transition(
                *old(app_state),
                *old(game_state),
                input,
                *final(app_state),
                *final(game_state),
            ),
    {
        if game_state.game_over {
            match input {
                GameInput::Back => {
                    *app_state = AppState::MainMenu;
                },
                GameInput::Select => {
                    game_state.reset();
                },
                _ => {},
            }
        } else {
            match input {
                GameInput::Up => game_state.set_direction(Direction::Up),
                GameInput::Down => game_state.set_direction(Direction::Down),
                GameInput::Left => game_state.set_direction(Direction::Left),
                GameInput::Right => game_state.set_direction(Direction::Right),
                GameInput::Back => game_state.toggle_pause(),
                _ => {},
            }
        }
    }

    /// Handles one command on the score-board screen.
    pub fn handle_leaderboard_input(app_state: &mut AppState, input: GameInput)
        ensures
            *final(app_state) == leaderboard_transition(*old(app_state), input),
    {
        if input == GameInput::Back {
            *app_state = AppState::MainMenu;
        }
    }
}

} // verus!
