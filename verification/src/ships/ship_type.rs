use vstd::prelude::*;
use vstd::string::*;

verus! {

/// The five kinds of ship. Each kind has a fixed length and a display name.
#[derive(Debug, Clone, Copy, PartialEq, Eq, Structural)]
pub enum ShipType {
    Battleship,
    PatrolBoat,
    Submarine,
    Destroyer,
    AircraftCarrier,
}

impl ShipType {
    /// The number of cells that a ship of this kind occupies.
    pub open spec fn spec_size(self) -> int {
        match self {
            ShipType::AircraftCarrier => 5,
            ShipType::Battleship => 4,
            ShipType::Destroyer => 3,
            ShipType::Submarine => 3,
            ShipType::PatrolBoat => 2,
        }
    }

    /// The name under which this kind is shown to players.
    pub open spec fn spec_display_name(self) -> Seq<char> {
        match self {
            ShipType::Battleship => "Battleship"@,
            ShipType::PatrolBoat => "Patrol Boat"@,
            ShipType::Submarine => "Submarine"@,
            ShipType::Destroyer => "Destroyer"@,
            ShipType::AircraftCarrier => "Aircraft Carrier"@,
        }
    }

    /// The display name as an owned string.
    pub fn display_name(&self) -> (name: String)
        ensures
            name@ == self.spec_display_name(),
    {
        match self {
            ShipType::Battleship => "Battleship".to_owned(),
            ShipType::PatrolBoat => "Patrol Boat".to_owned(),
            ShipType::Submarine => "Submarine".to_owned(),
            ShipType::Destroyer => "Destroyer".to_owned(),
            ShipType::AircraftCarrier => "Aircraft Carrier".to_owned(),
        }
    }
}

} // verus!
