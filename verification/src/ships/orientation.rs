use vstd::prelude::*;

verus! {

/// The axis along which a ship extends from its origin.
#[derive(Debug, Clone, Copy, PartialEq, Eq, Structural)]
pub enum Orientation {
    /// Horizontal: the ship runs along the column axis, within one row.
    Landscape,
    /// Vertical: the ship runs along the row axis, within one column.
    Portrait,
}

} // verus!
