//! Rules engine for the set-up phase of a two-player naval board game:
//! placing ships on a grid, refusing duplicates and overlaps, and gating
//! the start of play on two complete fleets.

pub mod error;
pub mod fleet;
pub mod game;
pub mod player;
pub mod ships;
pub mod turn;
