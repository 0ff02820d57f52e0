//! The tick clock: what a frame does to the run, given the time since the
//! last tick.
//!
//! The host measures time and draws; it calls `run_frame` once per frame with
//! the milliseconds that have passed since the last tick. Ticks are due by the
//! clock, not by the frame count: a frame that comes before the tick interval
//! is over only moves the interpolation along.

use crate::game_state::GameState;
use crate::input_handler::AppState;
use vstd::prelude::*;

verus! {

/// What happened in a frame, for the host to act on.
#[derive(Debug, Clone, Copy, PartialEq, Eq, Structural)]
pub struct FrameReport {
    /// A tick was due and the run was advanced: time counts from this frame
    /// on.
    pub ticked: bool,
    /// The tick ate the food: play the sound for it.
    pub food_eaten: bool,
    /// The tick ended the run: its score may go on the board.
    pub run_ended: bool,
}

impl FrameReport {
    /// Nothing happened.
    pub open spec fn idle() -> FrameReport {
        FrameReport { ticked: false, food_eaten: false, run_ended: false }
    }
}

/// Runs one frame. Off the playing screen nothing happens. On it the
/// interpolation follows the elapsed time, and once the time since the last
/// tick has reached the tick interval the run is advanced by one tick.
pub fn run_frame(app_state: AppState, game_state: &mut GameState, elapsed_ms: u64) -> (report:
    FrameReport)
    requires
        old(game_state).well_formed(),
    ensures
        final(game_state).well_formed(),
        report.ticked == (app_state == AppState::Playing && elapsed_ms >= old(
            game_state,
        ).current_speed_ms),
        app_state != AppState::Playing ==> *final(game_state) == *old(game_state),
        app_state == AppState::Playing && !report.ticked ==> *final(game_state) == old(
            game_state,
        ).drawn_at(elapsed_ms),
        report.ticked ==> old(game_state).drawn_at(elapsed_ms).steps_to(
            *final(game_state),
            report.food_eaten,
        ),
        !report.ticked ==> report == FrameReport::idle(),
        report.run_ended == (!old(game_state).game_over && final(game_state).game_over),
{
    if app_state != AppState::Playing {
        return FrameReport { ticked: false, food_eaten: false, run_ended: false };
    }
    game_state.update_interpolation(elapsed_ms);
    if elapsed_ms < game_state.current_speed_ms as u64 {
        return FrameReport { ticked: false, food_eaten: false, run_ended: false };
    }
    let was_over = game_state.game_over;
    let food_eaten = game_state.update();
    FrameReport { ticked: true, food_eaten, run_ended: !was_over && game_state.game_over }
}

} // verus!
