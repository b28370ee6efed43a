//! A game between two players: their ships, the grid they are placed on, and
//! whose move it is.

use crate::error::GameError;
use crate::fleet::{
    all_representable, complete, conflict, disjoint, distinct_types, find_conflict, has_type,
    is_complete, lemma_has_type_kept, lemma_one_of_each_is_complete, overlaps_any, ship_views,
    FLEET_SIZE,
};
use crate::player::Player;
use crate::ships::{Coordinate, Orientation, Ship, ShipType, ShipView};
use crate::turn::{Turn, TurnView};
use vstd::prelude::*;

verus! {

/// The number of columns of the grid; columns are numbered from 1.
pub const GRID_COLUMNS: u8 = 10;

/// The number of rows of the grid; rows are numbered from 1.
pub const GRID_ROWS: u8 = 10;

/// The model of [`PlayerShips`]: the two players by name, in order, and the
/// ships of each in the order in which they were placed.
pub struct PlayerShipsView {
    pub player1: Seq<char>,
    pub player2: Seq<char>,
    pub fleet1: Seq<ShipView>,
    pub fleet2: Seq<ShipView>,
}

impl PlayerShipsView {
    /// The ships of the player called `name`. Players are told apart by name
    /// alone, and the first player is asked first: should both go by one
    /// name, that name means the first.
    pub open spec fn fleet_of(self, name: Seq<char>) -> Option<Seq<ShipView>> {
        if name == self.player1 {
            Some(self.fleet1)
        } else if name == self.player2 {
            Some(self.fleet2)
        } else {
            None
        }
    }

    /// The same record with `ship` added behind the ships of the player
    /// called `name`; unchanged if nobody is.
    pub open spec fn with_ship(self, name: Seq<char>, ship: ShipView) -> PlayerShipsView {
        if name == self.player1 {
            PlayerShipsView { fleet1: self.fleet1.push(ship), ..self }
        } else if name == self.player2 {
            PlayerShipsView { fleet2: self.fleet2.push(ship), ..self }
        } else {
            self
        }
    }
}

/// The ships that each of the two players has placed, in player order.
pub struct PlayerShips<'a> {
    player1: &'a Player,
    player2: &'a Player,
    ships1: Vec<Ship>,
    ships2: Vec<Ship>,
}

impl<'a> View for PlayerShips<'a> {
    type V = PlayerShipsView;

    closed spec fn view(&self) -> PlayerShipsView {
        PlayerShipsView {
            player1: self.player1@,
            player2: self.player2@,
            fleet1: ship_views(self.ships1@),
            fleet2: ship_views(self.ships2@),
        }
    }
}

impl<'a> PlayerShips<'a> {
    /// The ships of the player called `name`, in the order in which they were
    /// placed, or `None` if neither player goes by that name.
    pub fn get(&self, name: &str) -> (ships: Option<&Vec<Ship>>)
        ensures
            match ships {
                Some(list) => self@.fleet_of(name@) == Some(ship_views(list@)),
                None => self@.fleet_of(name@) is None,
            },
    {
        if self.player1.is_named(name) {
            Some(&self.ships1)
        } else if self.player2.is_named(name) {
            Some(&self.ships2)
        } else {
            None
        }
    }
}

/// The model of a [`Game`].
pub struct GameView {
    pub columns: int,
    pub rows: int,
    pub ships: PlayerShipsView,
    pub turn: TurnView,
}

impl GameView {
    /// Whether the cell lies on the grid.
    pub open spec fn on_grid(self, cell: Coordinate) -> bool {
        1 <= cell.spec_col() <= self.columns && 1 <= cell.spec_row() <= self.rows
    }

    /// Whether the ships of one player obey the rules of placement: every
    /// origin on the grid, no kind twice, no cell shared.
    pub open spec fn fleet_valid(self, fleet: Seq<ShipView>) -> bool {
        &&& forall|i: int| 0 <= i < fleet.len() ==> self.on_grid((#[trigger] fleet[i]).origin)
        &&& distinct_types(fleet)
        &&& disjoint(fleet)
    }

    /// Whether play has begun.
    pub open spec fn started(self) -> bool {
        self.turn.player is Some
    }

    /// What holds of every game: the grid is the standard one, both fleets
    /// obey the rules of placement, no round has been played, and if play has
    /// begun then both fleets are complete and the first player is to move.
    pub open spec fn valid(self) -> bool {
        &&& self.columns == GRID_COLUMNS
        &&& self.rows == GRID_ROWS
        &&& self.fleet_valid(self.ships.fleet1)
        &&& self.fleet_valid(self.ships.fleet2)
        &&& self.turn.round == 0
        &&& self.started() ==> {
            &&& self.turn.player == Some(self.ships.player1)
            &&& complete(self.ships.fleet1)
            &&& complete(self.ships.fleet2)
        }
    }

    /// Why the player called `name` cannot place `ship`, if they cannot.
    /// The reasons are tried in this order: the origin's column is off the
    /// grid; its row is; nobody goes by `name`; the player already has a ship
    /// of that kind; the ship would share a cell with one of the player's.
    ///
    /// Only the origin is held to the grid. A ship that starts on the grid
    /// may run past its edge.
    pub open spec fn placement_error(self, name: Seq<char>, ship: ShipView) -> Option<GameError> {
        if !(1 <= ship.origin.spec_col() <= self.columns) {
            Some(GameError::InvalidColumn)
        } else if !(1 <= ship.origin.spec_row() <= self.rows) {
            Some(GameError::InvalidRow)
        } else {
            match self.ships.fleet_of(name) {
                None => Some(GameError::PlayerNotFound),
                Some(fleet) => conflict(fleet, ship),
            }
        }
    }

    /// The game after the player called `name` has placed `ship`.
    pub open spec fn with_ship(self, name: Seq<char>, ship: ShipView) -> GameView {
        GameView { ships: self.ships.with_ship(name, ship), ..self }
    }

    /// The name of the first player, in player order, whose fleet is not
    /// complete; `None` when both are.
    pub open spec fn incomplete_player(self) -> Option<Seq<char>> {
        if !complete(self.ships.fleet1) {
            Some(self.ships.player1)
        } else if !complete(self.ships.fleet2) {
            Some(self.ships.player2)
        } else {
            None
        }
    }

    /// The game once play has begun: the first player is to move.
    pub open spec fn with_first_move(self) -> GameView {
        GameView {
            turn: TurnView { round: self.turn.round, player: Some(self.ships.player1) },
            ..self
        }
    }
}

/// The set-up of a game between two players, and the turn once play has begun.
pub struct Game<'a> {
    columns: u8,
    rows: u8,
    player_ships: PlayerShips<'a>,
    turn: Turn<'a>,
}

impl<'a> View for Game<'a> {
    type V = GameView;

    closed spec fn view(&self) -> GameView {
        GameView {
            columns: self.columns as int,
            rows: self.rows as int,
            ships: self.player_ships@,
            turn: self.turn@,
        }
    }
}

impl<'a> Game<'a> {
    /// Whether the game is in a state that the operations below can reach.
    pub open spec fn wf(&self) -> bool {
        self@.valid()
    }

    /// A game between `player1` and `player2` on the standard grid, with no
    /// ship placed and play not begun.
    pub fn new(player1: &'a Player, player2: &'a Player) -> (game: Game<'a>)
        ensures
            game.wf(),
            game@ == (GameView {
                columns: GRID_COLUMNS as int,
                rows: GRID_ROWS as int,
                ships: PlayerShipsView {
                    player1: player1@,
                    player2: player2@,
                    fleet1: Seq::empty(),
                    fleet2: Seq::empty(),
                },
                turn: TurnView { round: 0, player: None },
            }),
    {
        let game = Game {
            columns: GRID_COLUMNS,
            rows: GRID_ROWS,
            player_ships: PlayerShips { player1, player2, ships1: Vec::new(), ships2: Vec::new() },
            turn: Turn::new(),
        };
        assert(game@.ships.fleet1 =~= Seq::empty());
        assert(game@.ships.fleet2 =~= Seq::empty());
        game
    }

    /// Places a ship of kind `ship_type` for `player`, with its origin at
    /// `coordinate` and extending along `orientation`.
    ///
    /// The placement is refused, and the game left as it was, for the first
    /// reason that applies among those of [`GameView::placement_error`].
    /// Otherwise the ship is added behind the player's other ships.
    pub fn create_ship(
        &mut self,
        player: &Player,
        ship_type: ShipType,
        coordinate: Coordinate,
        orientation: Orientation,
    ) -> (result: Result<(), GameError>)
        requires
            old(self).wf(),
        ensures
            final(self).wf(),
            ({
                let ship = ShipView { ship_type, origin: coordinate, orientation };
                match old(self)@.placement_error(player@, ship) {
                    Some(error) => result == Err::<(), GameError>(error),
                    None => result is Ok && final(self)@ == old(self)@.with_ship(player@, ship),
                }
            }),
            result is Err ==> final(self)@ == old(self)@,
    {
        let col: u8 = *coordinate.col();
        if col < 1 || col > self.columns {
            return Err(GameError::InvalidColumn);
        }
        let row: u8 = *coordinate.row();
        if row < 1 || row > self.rows {
            return Err(GameError::InvalidRow);
        }
        let new_ship = Ship::new(ship_type, coordinate, orientation);

        if *player == *self.player_ships.player1 {
            proof {
                lemma_on_grid_representable(self@, self@.ships.fleet1);
            }
            match find_conflict(&self.player_ships.ships1, &new_ship) {
                Some(error) => Err(error),
                None => {
                    proof {
                        lemma_fleet_grows(self@, self@.ships.fleet1, new_ship@);
                    }
                    self.player_ships.ships1.push(new_ship);
                    assert(ship_views(self.player_ships.ships1@) =~= ship_views(
                        old(self).player_ships.ships1@,
                    ).push(new_ship@));
                    Ok(())
                },
            }
        } else if *player == *self.player_ships.player2 {
            proof {
                lemma_on_grid_representable(self@, self@.ships.fleet2);
            }
            match find_conflict(&self.player_ships.ships2, &new_ship) {
                Some(error) => Err(error),
                None => {
                    proof {
                        lemma_fleet_grows(self@, self@.ships.fleet2, new_ship@);
                    }
                    self.player_ships.ships2.push(new_ship);
                    assert(ship_views(self.player_ships.ships2@) =~= ship_views(
                        old(self).player_ships.ships2@,
                    ).push(new_ship@));
                    Ok(())
                },
            }
        } else {
            Err(GameError::PlayerNotFound)
        }
    }

    /// The ships of both players.
    pub fn player_ships(&self) -> (ships: &PlayerShips<'a>)
        ensures
            ships@ == self@.ships,
    {
        &self.player_ships
    }

    /// Begins play, if both fleets are complete: the first player is then to
    /// move. Otherwise the game is left as it was, and the error names the
    /// first player, in player order, whose fleet is not complete.
    pub fn start(&mut self) -> (result: Result<(), GameError>)
        requires
            old(self).wf(),
        ensures
            final(self).wf(),
            match old(self)@.incomplete_player() {
                Some(name) => result matches Err(GameError::IncompleteFleet(culprit))
                    && culprit@ == name,
                None => result is Ok && final(self)@ == old(self)@.with_first_move(),
            },
            result is Err ==> final(self)@ == old(self)@,
            result is Ok ==> final(self)@.turn == (TurnView {
                round: 0,
                player: Some(old(self)@.ships.player1),
            }),
    {
        if !is_complete(&self.player_ships.ships1) {
            return Err(GameError::IncompleteFleet(self.player_ships.player1.name().to_owned()));
        }
        if !is_complete(&self.player_ships.ships2) {
            return Err(GameError::IncompleteFleet(self.player_ships.player2.name().to_owned()));
        }
        self.turn.change(self.player_ships.player1);

        Ok(())
    }

    /// The number of the round being played.
    pub fn round(&self) -> (round: &usize)
        ensures
            *round == self@.turn.round,
    {
        self.turn.round()
    }

    /// The player to move, once play has begun.
    pub fn player_turn(&self) -> (player: Option<&'a Player>)
        ensures
            match player {
                Some(p) => self@.turn.player == Some(p@),
                None => self@.turn.player is None,
            },
    {
        self.turn.player()
    }
}

/// A ship whose origin lies off the grid is refused for its column if the
/// column is off the grid, and for its row otherwise, whoever places it and
/// whatever has been placed before.
pub proof fn lemma_off_grid_rejected(game: GameView, name: Seq<char>, ship: ShipView)
    requires
        game.valid(),
    ensures
        game.placement_error(name, ship) == Some(GameError::InvalidColumn) <==> !(1
            <= ship.origin.spec_col() <= GRID_COLUMNS),
        game.placement_error(name, ship) == Some(GameError::InvalidRow) <==> 1
            <= ship.origin.spec_col() <= GRID_COLUMNS && !(1 <= ship.origin.spec_row()
            <= GRID_ROWS),
{
}

/// A player who holds a ship of some kind is refused a second of that kind,
/// wherever on the grid it would start and however it would lie.
pub proof fn lemma_duplicate_rejected(game: GameView, name: Seq<char>, ship: ShipView)
    requires
        game.on_grid(ship.origin),
        game.ships.fleet_of(name) matches Some(fleet) && has_type(fleet, ship.ship_type),
    ensures
        game.placement_error(name, ship) == Some(GameError::DuplicateShipType(ship.ship_type)),
{
}

/// A kind that a player holds stays held whatever is placed afterwards, by
/// that player or the other.
pub proof fn lemma_held_kind_persists(
    game: GameView,
    name: Seq<char>,
    ship_type: ShipType,
    placer: Seq<char>,
    placed: ShipView,
)
    requires
        game.ships.fleet_of(name) matches Some(fleet) && has_type(fleet, ship_type),
    ensures
        game.with_ship(placer, placed).ships.fleet_of(name) matches Some(fleet) && has_type(
            fleet,
            ship_type,
        ),
{
    let fleet = game.ships.fleet_of(name).unwrap();
    lemma_has_type_kept(fleet, placed, ship_type);
}

/// Once a ship has been placed, a second ship of its kind is refused as a
/// duplicate for the same player, wherever on the grid it would start.
pub proof fn lemma_second_of_a_kind_rejected(
    game: GameView,
    name: Seq<char>,
    first: ShipView,
    second: ShipView,
)
    requires
        game.placement_error(name, first) is None,
        second.ship_type == first.ship_type,
        game.on_grid(second.origin),
    ensures
        game.with_ship(name, first).placement_error(name, second) == Some(
            GameError::DuplicateShipType(second.ship_type),
        ),
{
    let fleet = game.ships.fleet_of(name).unwrap();
    let grown = fleet.push(first);
    assert(grown[fleet.len() as int].ship_type == second.ship_type);
    assert(game.with_ship(name, first).ships.fleet_of(name) == Some(grown));
}

/// A ship of a kind that the player does not hold yet, with its origin on
/// the grid, is refused exactly when it shares a cell with one of the
/// player's ships, and then as an overlap.
pub proof fn lemma_overlap_decides(game: GameView, name: Seq<char>, ship: ShipView)
    requires
        game.on_grid(ship.origin),
        game.ships.fleet_of(name) matches Some(fleet) && !has_type(fleet, ship.ship_type),
    ensures
        game.placement_error(name, ship) == if overlaps_any(
            game.ships.fleet_of(name).unwrap(),
            ship,
        ) {
            Some(GameError::OverlappingShip)
        } else {
            None
        },
{
}

/// Of two ships of different kinds that a player places first, both with
/// their origin on the grid, the first is accepted; the second is accepted
/// if the two share no cell and refused as an overlap if they do.
pub proof fn lemma_first_two_ships(
    game: GameView,
    name: Seq<char>,
    first: ShipView,
    second: ShipView,
)
    requires
        game.ships.fleet_of(name) matches Some(fleet) && fleet.len() == 0,
        game.on_grid(first.origin),
        game.on_grid(second.origin),
        first.ship_type != second.ship_type,
    ensures
        game.placement_error(name, first) is None,
        game.with_ship(name, first).placement_error(name, second) == if second.overlaps(first) {
            Some(GameError::OverlappingShip)
        } else {
            None
        },
{
    let fleet = game.ships.fleet_of(name).unwrap();
    let grown = fleet.push(first);
    assert(game.with_ship(name, first).ships.fleet_of(name) == Some(grown));
    assert(grown.len() == 1);
    assert(grown[0] == first);
}

/// Play begins exactly when both players hold one ship of each kind. While
/// the first player lacks a kind, it is the first player who is named as
/// incomplete, whatever the second holds.
pub proof fn lemma_start_rule(game: GameView)
    requires
        game.valid(),
    ensures
        game.incomplete_player() is None <==> forall|ship_type: ShipType|
            has_type(game.ships.fleet1, ship_type) && has_type(game.ships.fleet2, ship_type),
        (exists|ship_type: ShipType| !has_type(game.ships.fleet1, ship_type))
            ==> game.incomplete_player() == Some(game.ships.player1),
        game.ships.fleet1.len() < FLEET_SIZE ==> game.incomplete_player() == Some(
            game.ships.player1,
        ),
{
    if forall|ship_type: ShipType| has_type(game.ships.fleet1, ship_type) {
        lemma_one_of_each_is_complete(game.ships.fleet1);
    }
    if forall|ship_type: ShipType| has_type(game.ships.fleet2, ship_type) {
        lemma_one_of_each_is_complete(game.ships.fleet2);
    }
}

/// On the standard grid, a ship whose origin is on the grid has a span that
/// fits the `u8` range, however it lies.
pub proof fn lemma_on_grid_representable(game: GameView, fleet: Seq<ShipView>)
    requires
        game.columns == GRID_COLUMNS,
        game.rows == GRID_ROWS,
        forall|i: int| 0 <= i < fleet.len() ==> game.on_grid((#[trigger] fleet[i]).origin),
    ensures
        all_representable(fleet),
{
}

/// A fleet that obeys the rules of placement still does after a ship is
/// added that starts on the grid and has no conflict with the fleet.
pub proof fn lemma_fleet_grows(game: GameView, fleet: Seq<ShipView>, ship: ShipView)
    requires
        game.fleet_valid(fleet),
        game.on_grid(ship.origin),
        conflict(fleet, ship) is None,
    ensures
        game.fleet_valid(fleet.push(ship)),
{
    let grown = fleet.push(ship);
    assert forall|i: int, j: int| 0 <= i < j < grown.len() implies (#[trigger] grown[i]).ship_type
        != (#[trigger] grown[j]).ship_type by {
        if j == fleet.len() {
            assert(fleet[i].ship_type != ship.ship_type);
        }
    }
    assert forall|i: int, j: int| 0 <= i < j < grown.len() implies !(#[trigger] grown[i]).overlaps(
        #[trigger] grown[j],
    ) by {
        if j == fleet.len() {
            assert(!ship.overlaps(fleet[i]));
        }
    }
}

} // verus!
