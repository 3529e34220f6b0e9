//! Game-station core: persistent competitive-gaming state.
//!
//! The library is the state-management engine for a small suite of games:
//! player profiles with an experience-derived level, bounded score-sorted
//! leaderboards per game category, and multiplayer room lifecycles.  The
//! hosting environment (which authenticates players, sequences actions and
//! persists records) is out of scope; it drives the engine through
//! [`state::GameStationState::execute_operation`] and the read-only queries.

pub mod laws;
pub mod leaderboard;
pub mod names;
pub mod progression;
pub mod state;
pub mod strmap;
pub mod types;
