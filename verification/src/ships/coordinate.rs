use vstd::prelude::*;

verus! {

/// A cell of the grid, addressed by column and row.
///
/// A coordinate is a plain pair: it is not held to any grid when it is made.
/// Whoever places something at it decides whether it lies on the board.
#[derive(Debug, Clone, Copy, PartialEq, Eq, Structural)]
pub struct Coordinate {
    col: u8,
    row: u8,
}

impl Coordinate {
    /// The column, as a mathematical integer.
    pub closed spec fn spec_col(self) -> int {
        self.col as int
    }

    /// The row, as a mathematical integer.
    pub closed spec fn spec_row(self) -> int {
        self.row as int
    }

    pub fn new(col: u8, row: u8) -> (coordinate: Self)
        ensures
            coordinate.spec_col() == col,
            coordinate.spec_row() == row,
    {
        Coordinate { col, row }
    }

    pub fn col(&self) -> (col: &u8)
        ensures
            *col == self.spec_col(),
    {
        &self.col
    }

    pub fn row(&self) -> (row: &u8)
        ensures
            *row == self.spec_row(),
    {
        &self.row
    }
}

/// Coordinates are equal exactly when they name the same cell.
pub proof fn lemma_equal_by_cell(a: Coordinate, b: Coordinate)
    ensures
        a == b <==> a.spec_col() == b.spec_col() && a.spec_row() == b.spec_row(),
{
}

} // verus!
