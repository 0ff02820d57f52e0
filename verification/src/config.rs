//! The frozen bundle of gameplay parameters a run is created from.

use vstd::prelude::*;

verus! {

/// Smallest grid on which the three starting segments fit.
pub const MIN_GRID_SIZE: u32 = 4;

/// Largest grid whose best possible score still fits the score counter.
pub const MAX_GRID_SIZE: u32 = 20_724;

/// Gameplay parameters, read once by the host and never changed afterwards.
#[derive(Clone, Copy, Debug, PartialEq, Eq, Structural)]
pub struct GameplayConfig {
    /// Interval between two ticks at the start of a run, in milliseconds.
    pub initial_speed_ms: u32,
    /// The interval never drops below this once it has reached it.
    pub min_speed_ms: u32,
    /// How much shorter the interval gets with every food item eaten.
    pub speed_increase_per_food: u32,
    /// The grid has `grid_size` columns and as many rows.
    pub grid_size: u32,
}

impl GameplayConfig {
    /// A configuration a run can be created from: the grid is large enough for
    /// the starting body and small enough for every counter of a run.
    pub open spec fn valid(&self) -> bool {
        MIN_GRID_SIZE <= self.grid_size <= MAX_GRID_SIZE
    }

    /// Tells whether a run can be created from this configuration.
    pub fn is_valid(&self) -> (ok: bool)
        ensures
            ok == self.valid(),
    {
        MIN_GRID_SIZE <= self.grid_size && self.grid_size <= MAX_GRID_SIZE
    }
}

} // verus!
