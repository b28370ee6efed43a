use super::{Coordinate, Orientation, ShipType};
use vstd::prelude::*;

verus! {

/// An inclusive, axis-aligned range of cells: columns `start_col..=end_col`
/// by rows `start_row..=end_row`.
pub struct Span {
    pub start_col: int,
    pub end_col: int,
    pub start_row: int,
    pub end_row: int,
}

impl Span {
    /// Whether the two spans share at least one cell: their column ranges
    /// meet and their row ranges meet.
    pub open spec fn intersects(self, other: Span) -> bool {
        &&& self.start_col <= other.end_col
        &&& self.end_col >= other.start_col
        &&& self.start_row <= other.end_row
        &&& self.end_row >= other.start_row
    }

    /// Whether the cell at (`col`, `row`) lies in the span.
    pub open spec fn contains(self, col: int, row: int) -> bool {
        self.start_col <= col <= self.end_col && self.start_row <= row <= self.end_row
    }
}

/// What a ship is, mathematically: its kind, the cell it starts at and the
/// axis it extends along. Its length follows from its kind.
pub struct ShipView {
    pub ship_type: ShipType,
    pub origin: Coordinate,
    pub orientation: Orientation,
}

impl ShipView {
    /// The number of cells the ship occupies.
    pub open spec fn size(self) -> int {
        self.ship_type.spec_size()
    }

    /// The cells the ship occupies: `size()` cells in a line, starting at the
    /// origin and running towards higher columns (landscape) or higher rows
    /// (portrait).
    pub open spec fn span(self) -> Span {
        let col = self.origin.spec_col();
        let row = self.origin.spec_row();
        match self.orientation {
            Orientation::Landscape => Span {
                start_col: col,
                end_col: col + self.size() - 1,
                start_row: row,
                end_row: row,
            },
            Orientation::Portrait => Span {
                start_col: col,
                end_col: col,
                start_row: row,
                end_row: row + self.size() - 1,
            },
        }
    }

    /// Whether both ends of the span fit the `u8` range, so that the span can
    /// be handed out as a tuple of `u8`.
    pub open spec fn representable(self) -> bool {
        self.span().end_col <= u8::MAX && self.span().end_row <= u8::MAX
    }

    /// Whether this ship and `other` occupy a common cell.
    pub open spec fn overlaps(self, other: ShipView) -> bool {
        self.span().intersects(other.span())
    }
}

/// Two ships overlap exactly when some cell lies in the span of both, and
/// it makes no difference which of the two is asked.
pub proof fn lemma_overlap_is_shared_cell(a: ShipView, b: ShipView)
    ensures
        a.overlaps(b) <==> exists|col: int, row: int|
            #![trigger a.span().contains(col, row), b.span().contains(col, row)]
            a.span().contains(col, row) && b.span().contains(col, row),
        a.overlaps(b) == b.overlaps(a),
{
    let sa = a.span();
    let sb = b.span();
    if a.overlaps(b) {
        let col = if sa.start_col >= sb.start_col {
            sa.start_col
        } else {
            sb.start_col
        };
        let row = if sa.start_row >= sb.start_row {
            sa.start_row
        } else {
            sb.start_row
        };
        assert(sa.contains(col, row) && sb.contains(col, row));
    }
}

/// A ship's span is a line of `size()` cells, one cell wide, that starts at
/// the origin and runs along the ship's orientation.
pub proof fn lemma_span_is_line(ship: ShipView)
    ensures
        2 <= ship.size() <= 5,
        ship.span().start_col == ship.origin.spec_col(),
        ship.span().start_row == ship.origin.spec_row(),
        ship.orientation == Orientation::Landscape ==> {
            &&& ship.span().end_col - ship.span().start_col + 1 == ship.size()
            &&& ship.span().end_row == ship.span().start_row
        },
        ship.orientation == Orientation::Portrait ==> {
            &&& ship.span().end_row - ship.span().start_row + 1 == ship.size()
            &&& ship.span().end_col == ship.span().start_col
        },
{
}

/// A placed game piece. Its length is fixed by its kind when it is made and
/// cannot be chosen independently.
#[derive(Debug, Clone, Copy, PartialEq, Eq)]
pub struct Ship {
    size: u8,
    ship_type: ShipType,
    coord: Coordinate,
    orientation: Orientation,
}

impl View for Ship {
    type V = ShipView;

    closed spec fn view(&self) -> ShipView {
        ShipView { ship_type: self.ship_type, origin: self.coord, orientation: self.orientation }
    }
}

impl Ship {
    #[verifier::type_invariant]
    spec fn size_matches_type(self) -> bool {
        self.size == self.ship_type.spec_size()
    }

    pub fn new(ship_type: ShipType, coord: Coordinate, orientation: Orientation) -> (ship: Ship)
        ensures
            ship@ == (ShipView { ship_type, origin: coord, orientation }),
    {
        let ship_size: u8 = match ship_type {
            ShipType::AircraftCarrier => 5,
            ShipType::Battleship => 4,
            ShipType::Destroyer | ShipType::Submarine => 3,
            ShipType::PatrolBoat => 2,
        };

        Ship { size: ship_size, ship_type, coord, orientation }
    }

    pub fn coord(&self) -> (coord: &Coordinate)
        ensures
            *coord == self@.origin,
    {
        &self.coord
    }

    pub fn orientation(&self) -> (orientation: &Orientation)
        ensures
            *orientation == self@.orientation,
    {
        &self.orientation
    }

    pub fn size(&self) -> (size: &u8)
        ensures
            *size == self@.size(),
    {
        proof {
            use_type_invariant(self);
        }
        &self.size
    }

    pub fn ship_type(&self) -> (ship_type: &ShipType)
        ensures
            *ship_type == self@.ship_type,
    {
        &self.ship_type
    }

    /// The span the ship occupies, as `(start_col, end_col, start_row, end_row)`,
    /// all inclusive.
    ///
    /// The far end must be representable: a ship whose origin lies so close
    /// to 255 that its last cell would fall beyond it has no such tuple.
    pub fn get_full_position(&self) -> (position: (u8, u8, u8, u8))
        requires
            self@.representable(),
        ensures
            position.0 == self@.span().start_col,
            position.1 == self@.span().end_col,
            position.2 == self@.span().start_row,
            position.3 == self@.span().end_row,
    {
        proof {
            use_type_invariant(self);
        }
        let col: u8 = *self.coord.col();
        let row: u8 = *self.coord.row();

        let reach: u8 = self.size - 1;

        match self.orientation {
            Orientation::Landscape => (col, col + reach, row, row),
            Orientation::Portrait => (col, col, row, row + reach),
        }
    }
}

} // verus!
