//! The pieces of the game: where a ship sits, which way it lies, what kind it is.

mod coordinate;
mod orientation;
mod ship;
mod ship_type;

pub use coordinate::{lemma_equal_by_cell, Coordinate};
pub use orientation::Orientation;
pub use ship::{lemma_overlap_is_shared_cell, lemma_span_is_line, Ship, ShipView, Span};
pub use ship_type::ShipType;
