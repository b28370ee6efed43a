use crate::ships::ShipType;
use vstd::prelude::*;
use vstd::string::*;

verus! {

/// Why a placement or the start of play was refused.
#[derive(Debug, PartialEq, Eq)]
pub enum GameError {
    /// The column of the origin lies off the grid.
    InvalidColumn,
    /// The row of the origin lies off the grid.
    InvalidRow,
    /// The player already has a ship of this kind.
    DuplicateShipType(ShipType),
    /// The ship would share a cell with one the player has already placed.
    OverlappingShip,
    /// The player does not take part in this game.
    PlayerNotFound,
    /// The named player has not yet placed one ship of every kind.
    IncompleteFleet(String),
}

impl GameError {
    /// The text of the error, as shown to a player.
    pub open spec fn spec_message(self) -> Seq<char> {
        match self {
            GameError::InvalidColumn => "invalid column"@,
            GameError::InvalidRow => "invalid row"@,
            GameError::DuplicateShipType(ship_type) => "you already have an "@
                + ship_type.spec_display_name() + " on board"@,
            GameError::OverlappingShip =>
                "could not be possible posicioning the ship on this coords. This ship will overlap another ship"@,
            GameError::PlayerNotFound => "player not found"@,
            GameError::IncompleteFleet(name) => name@
                + " need positioning all ships before start"@,
        }
    }

    /// Renders the error as text.
    pub fn message(&self) -> (message: String)
        ensures
            message@ == self.spec_message(),
    {
        match self {
            GameError::InvalidColumn => "invalid column".to_owned(),
            GameError::InvalidRow => "invalid row".to_owned(),
            GameError::DuplicateShipType(ship_type) => {
                let mut text = "you already have an ".to_owned();
                let name = ship_type.display_name();
                text.append(name.as_str());
                text.append(" on board");
                text
            },
            GameError::OverlappingShip =>
                "could not be possible posicioning the ship on this coords. This ship will overlap another ship".to_owned(),
            GameError::PlayerNotFound => "player not found".to_owned(),
            GameError::IncompleteFleet(name) => {
                let mut text = name.clone();
                text.append(" need positioning all ships before start");
                text
            },
        }
    }
}

} // verus!
