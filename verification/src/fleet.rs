//! Rules on the ships that one player has placed: no kind twice, no cell
//! shared, and what makes the set complete.

use crate::error::GameError;
use crate::ships::{Ship, ShipType, ShipView};
use vstd::prelude::*;

verus! {

/// The number of ships in a complete fleet: one of each kind.
pub const FLEET_SIZE: usize = 5;

/// The ships of a list, each taken by its model.
pub open spec fn ship_views(ships: Seq<Ship>) -> Seq<ShipView> {
    ships.map_values(|ship: Ship| ship@)
}

/// Whether some ship of the fleet is of the given kind.
pub open spec fn has_type(fleet: Seq<ShipView>, ship_type: ShipType) -> bool {
    exists|i: int| 0 <= i < fleet.len() && (#[trigger] fleet[i]).ship_type == ship_type
}

/// Whether some ship of the fleet shares a cell with `ship`.
pub open spec fn overlaps_any(fleet: Seq<ShipView>, ship: ShipView) -> bool {
    exists|i: int| 0 <= i < fleet.len() && ship.overlaps(#[trigger] fleet[i])
}

/// Whether every ship of the fleet has a span that fits the `u8` range.
pub open spec fn all_representable(fleet: Seq<ShipView>) -> bool {
    forall|i: int| 0 <= i < fleet.len() ==> (#[trigger] fleet[i]).representable()
}

/// Whether no kind of ship occurs twice in the fleet.
pub open spec fn distinct_types(fleet: Seq<ShipView>) -> bool {
    forall|i: int, j: int|
        0 <= i < j < fleet.len() ==> (#[trigger] fleet[i]).ship_type != (#[trigger] fleet[j]).ship_type
}

/// Whether no two ships of the fleet share a cell.
pub open spec fn disjoint(fleet: Seq<ShipView>) -> bool {
    forall|i: int, j: int|
        0 <= i < j < fleet.len() ==> !(#[trigger] fleet[i]).overlaps(#[trigger] fleet[j])
}

/// Whether the fleet is complete: five ships, and every kind among them.
pub open spec fn complete(fleet: Seq<ShipView>) -> bool {
    &&& fleet.len() == FLEET_SIZE
    &&& forall|ship_type: ShipType| has_type(fleet, ship_type)
}

/// Why `ship` cannot join the fleet, if it cannot: a ship of its kind is
/// already there, or else it would share a cell with one that is. A
/// duplicate kind is reported in preference to an overlap.
pub open spec fn conflict(fleet: Seq<ShipView>, ship: ShipView) -> Option<GameError> {
    if has_type(fleet, ship.ship_type) {
        Some(GameError::DuplicateShipType(ship.ship_type))
    } else if overlaps_any(fleet, ship) {
        Some(GameError::OverlappingShip)
    } else {
        None
    }
}

/// A kind that the fleet holds is still held after another ship joins.
pub proof fn lemma_has_type_kept(fleet: Seq<ShipView>, ship: ShipView, ship_type: ShipType)
    requires
        has_type(fleet, ship_type),
    ensures
        has_type(fleet.push(ship), ship_type),
{
    let i = choose|i: int| 0 <= i < fleet.len() && (#[trigger] fleet[i]).ship_type == ship_type;
    assert(fleet.push(ship)[i].ship_type == ship_type);
}

/// A fleet in which no kind occurs twice holds at most five ships.
pub proof fn lemma_distinct_types_bounded(fleet: Seq<ShipView>)
    requires
        distinct_types(fleet),
    ensures
        fleet.len() <= FLEET_SIZE,
{
    if fleet.len() > FLEET_SIZE {
        let kinds = (
            fleet[0].ship_type,
            fleet[1].ship_type,
            fleet[2].ship_type,
            fleet[3].ship_type,
            fleet[4].ship_type,
            fleet[5].ship_type,
        );
        assert(false);
    }
}

/// A complete fleet holds exactly one ship of each kind: no kind is missing,
/// and none occurs twice.
pub proof fn lemma_complete_is_one_of_each(fleet: Seq<ShipView>)
    requires
        complete(fleet),
    ensures
        distinct_types(fleet),
        forall|ship_type: ShipType| has_type(fleet, ship_type),
{
    let carrier = choose|i: int|
        0 <= i < fleet.len() && (#[trigger] fleet[i]).ship_type == ShipType::AircraftCarrier;
    let battleship = choose|i: int|
        0 <= i < fleet.len() && (#[trigger] fleet[i]).ship_type == ShipType::Battleship;
    let destroyer = choose|i: int|
        0 <= i < fleet.len() && (#[trigger] fleet[i]).ship_type == ShipType::Destroyer;
    let submarine = choose|i: int|
        0 <= i < fleet.len() && (#[trigger] fleet[i]).ship_type == ShipType::Submarine;
    let patrol = choose|i: int|
        0 <= i < fleet.len() && (#[trigger] fleet[i]).ship_type == ShipType::PatrolBoat;
    assert(has_type(fleet, ShipType::AircraftCarrier));
    assert(has_type(fleet, ShipType::Battleship));
    assert(has_type(fleet, ShipType::Destroyer));
    assert(has_type(fleet, ShipType::Submarine));
    assert(has_type(fleet, ShipType::PatrolBoat));
}

/// Where no kind occurs twice, a fleet is complete as soon as no kind is
/// missing: it then holds five ships.
pub proof fn lemma_one_of_each_is_complete(fleet: Seq<ShipView>)
    requires
        distinct_types(fleet),
        forall|ship_type: ShipType| has_type(fleet, ship_type),
    ensures
        complete(fleet),
{
    lemma_distinct_types_bounded(fleet);
    assert(has_type(fleet, ShipType::AircraftCarrier));
    assert(has_type(fleet, ShipType::Battleship));
    assert(has_type(fleet, ShipType::Destroyer));
    assert(has_type(fleet, ShipType::Submarine));
    assert(has_type(fleet, ShipType::PatrolBoat));
    let carrier = choose|i: int|
        0 <= i < fleet.len() && (#[trigger] fleet[i]).ship_type == ShipType::AircraftCarrier;
    let battleship = choose|i: int|
        0 <= i < fleet.len() && (#[trigger] fleet[i]).ship_type == ShipType::Battleship;
    let destroyer = choose|i: int|
        0 <= i < fleet.len() && (#[trigger] fleet[i]).ship_type == ShipType::Destroyer;
    let submarine = choose|i: int|
        0 <= i < fleet.len() && (#[trigger] fleet[i]).ship_type == ShipType::Submarine;
    let patrol = choose|i: int|
        0 <= i < fleet.len() && (#[trigger] fleet[i]).ship_type == ShipType::PatrolBoat;
    assert(fleet.len() >= 5);
}

/// Whether a ship of the given kind is among `ships`.
pub fn has_ship_type(ships: &Vec<Ship>, ship_type: ShipType) -> (found: bool)
    ensures
        found == has_type(ship_views(ships@), ship_type),
{
    let mut i: usize = 0;
    while i < ships.len()
        invariant
            i <= ships.len(),
            forall|k: int| 0 <= k < i ==> (#[trigger] ship_views(ships@)[k]).ship_type != ship_type,
        decreases ships.len() - i,
    {
        if *ships[i].ship_type() == ship_type {
            assert(ship_views(ships@)[i as int].ship_type == ship_type);
            return true;
        }
        i += 1;
    }
    false
}

/// Whether `ship` shares a cell with one of `ships`.
pub fn overlaps_fleet(ships: &Vec<Ship>, ship: &Ship) -> (overlapping: bool)
    requires
        ship@.representable(),
        all_representable(ship_views(ships@)),
    ensures
        overlapping == overlaps_any(ship_views(ships@), ship@),
{
    let (start_col, end_col, start_row, end_row) = ship.get_full_position();
    let mut i: usize = 0;
    while i < ships.len()
        invariant
            i <= ships.len(),
            all_representable(ship_views(ships@)),
            start_col == ship@.span().start_col,
            end_col == ship@.span().end_col,
            start_row == ship@.span().start_row,
            end_row == ship@.span().end_row,
            forall|k: int| 0 <= k < i ==> !ship@.overlaps(#[trigger] ship_views(ships@)[k]),
        decreases ships.len() - i,
    {
        assert(ship_views(ships@)[i as int].representable());
        let (other_start_col, other_end_col, other_start_row, other_end_row) =
            ships[i].get_full_position();
        if start_col <= other_end_col && end_col >= other_start_col && start_row <= other_end_row
            && end_row >= other_start_row {
            assert(ship@.overlaps(ship_views(ships@)[i as int]));
            return true;
        }
        i += 1;
    }
    false
}

/// Checks `ship` against the ships already placed.
pub fn find_conflict(ships: &Vec<Ship>, ship: &Ship) -> (found: Option<GameError>)
    requires
        ship@.representable(),
        all_representable(ship_views(ships@)),
    ensures
        found == conflict(ship_views(ships@), ship@),
{
    if has_ship_type(ships, *ship.ship_type()) {
        Some(GameError::DuplicateShipType(*ship.ship_type()))
    } else if overlaps_fleet(ships, ship) {
        Some(GameError::OverlappingShip)
    } else {
        None
    }
}

/// Whether `ships` is a complete fleet.
pub fn is_complete(ships: &Vec<Ship>) -> (full: bool)
    ensures
        full == complete(ship_views(ships@)),
{
    let full = ships.len() == FLEET_SIZE && has_ship_type(ships, ShipType::AircraftCarrier)
        && has_ship_type(ships, ShipType::Battleship) && has_ship_type(ships, ShipType::Destroyer)
        && has_ship_type(ships, ShipType::Submarine) && has_ship_type(ships, ShipType::PatrolBoat);
    proof {
        let fleet = ship_views(ships@);
        if full {
            assert forall|ship_type: ShipType| has_type(fleet, ship_type) by {
                match ship_type {
                    ShipType::AircraftCarrier => {},
                    ShipType::Battleship => {},
                    ShipType::Destroyer => {},
                    ShipType::Submarine => {},
                    ShipType::PatrolBoat => {},
                }
            }
        }
    }
    full
}

} // verus!
