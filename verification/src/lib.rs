//! Simulation and application-state engine of a grid snake game.
//!
//! The crate holds the rules of the game and nothing else: the per-tick
//! movement, collision and growth model, the input buffer with its reversal
//! guard, the difficulty ramp, the sub-tick interpolation used for smooth
//! drawing, the ranked score board, and the state machine that switches between
//! menu, play and score-board display. Windowing, drawing, sound and files are
//! the host's business; the host talks to this crate in plain values.

pub mod config;
pub mod game_state;
pub mod grid;
pub mod input;
pub mod input_handler;
pub mod interpolation;
pub mod leaderboard_state;
pub mod menu_state;
pub mod persistence;
mod rng;
pub mod timing;
