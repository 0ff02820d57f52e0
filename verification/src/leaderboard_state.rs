//! The score board as the score-board screen shows it.

use crate::persistence::Leaderboard;
use vstd::prelude::*;

verus! {

/// The copy of the score board that is on display. The host reads the board
/// from its store and hands it over whenever the screen is entered.
pub struct LeaderboardState {
    pub leaderboard: Leaderboard,
}

impl LeaderboardState {
    /// Holds the given board for display.
    pub fn new(leaderboard: Leaderboard) -> (state: LeaderboardState)
        ensures
            state.leaderboard == leaderboard,
    {
        LeaderboardState { leaderboard }
    }

    /// Replaces the board on display by a freshly read one.
    pub fn refresh(&mut self, leaderboard: Leaderboard)
        ensures
            final(self).leaderboard == leaderboard,
    {
        self.leaderboard = leaderboard;
    }
}

} // verus!
