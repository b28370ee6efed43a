use battleship::error::GameError;
use battleship::game::Game;
use battleship::player::Player;
use battleship::ships::{Coordinate, Orientation, ShipType};

const FLEET: [(ShipType, u8, u8, Orientation); 5] = [
    (ShipType::AircraftCarrier, 2, 1, Orientation::Landscape),
    (ShipType::Battleship, 8, 1, Orientation::Portrait),
    (ShipType::Destroyer, 3, 8, Orientation::Portrait),
    (ShipType::PatrolBoat, 5, 5, Orientation::Landscape),
    (ShipType::Submarine, 8, 7, Orientation::Landscape),
];

fn place(game: &mut Game, player: &Player, count: usize) {
    for (ship_type, col, row, orientation) in FLEET.into_iter().take(count) {
        let result = game.create_ship(player, ship_type, Coordinate::new(col, row), orientation);
        assert_eq!(result, Ok(()));
    }
}

#[test]
fn start_names_the_first_player_while_that_fleet_is_short() {
    let player1 = Player::new(String::from("User1"));
    let player2 = Player::new(String::from("Computer"));
    for count in 0..5 {
        let mut game = Game::new(&player1, &player2);
        place(&mut game, &player1, count);
        place(&mut game, &player2, 5);
        let result = game.start();
        assert_eq!(result, Err(GameError::IncompleteFleet(String::from("User1"))));
        assert!(game.player_turn().is_none());
        assert_eq!(*game.round(), 0);
        assert_eq!(game.player_ships().get("User1").unwrap().len(), count);
        assert_eq!(game.player_ships().get("Computer").unwrap().len(), 5);
    }
}

#[test]
fn start_names_the_second_player_when_only_that_fleet_is_short() {
    let player1 = Player::new(String::from("User1"));
    let player2 = Player::new(String::from("Computer"));
    for count in 0..5 {
        let mut game = Game::new(&player1, &player2);
        place(&mut game, &player1, 5);
        place(&mut game, &player2, count);
        let result = game.start();
        assert_eq!(result, Err(GameError::IncompleteFleet(String::from("Computer"))));
        assert!(game.player_turn().is_none());
    }
}

#[test]
fn start_gives_the_first_move_to_the_first_player() {
    let player1 = Player::new(String::from("User1"));
    let player2 = Player::new(String::from("Computer"));
    let mut game = Game::new(&player1, &player2);
    place(&mut game, &player1, 5);
    place(&mut game, &player2, 5);
    assert!(game.player_turn().is_none());

    assert_eq!(game.start(), Ok(()));
    assert_eq!(game.player_turn().unwrap().name(), "User1");
    assert_eq!(*game.round(), 0);
    assert_eq!(game.player_ships().get("User1").unwrap().len(), 5);
    assert_eq!(game.player_ships().get("Computer").unwrap().len(), 5);
}

#[test]
fn start_may_be_asked_again() {
    let player1 = Player::new(String::from("User1"));
    let player2 = Player::new(String::from("Computer"));
    let mut game = Game::new(&player1, &player2);
    place(&mut game, &player1, 5);
    place(&mut game, &player2, 5);
    assert_eq!(game.start(), Ok(()));
    assert_eq!(game.start(), Ok(()));
    assert_eq!(*game.player_turn().unwrap(), player1);
    assert_eq!(*game.round(), 0);
}

#[test]
fn nothing_more_can_be_placed_once_the_fleet_is_complete() {
    let player1 = Player::new(String::from("User1"));
    let player2 = Player::new(String::from("Computer"));
    let mut game = Game::new(&player1, &player2);
    place(&mut game, &player1, 5);
    for (ship_type, _, _, _) in FLEET {
        let result = game.create_ship(
            &player1,
            ship_type,
            Coordinate::new(10, 10),
            Orientation::Portrait,
        );
        assert_eq!(result, Err(GameError::DuplicateShipType(ship_type)));
    }
    assert_eq!(game.player_ships().get("User1").unwrap().len(), 5);
}

#[test]
fn failed_start_leaves_the_game_open_for_placement() {
    let player1 = Player::new(String::from("User1"));
    let player2 = Player::new(String::from("Computer"));
    let mut game = Game::new(&player1, &player2);
    place(&mut game, &player1, 5);
    place(&mut game, &player2, 4);
    let message = game.start().unwrap_err().message();
    assert_eq!(message, "Computer need positioning all ships before start");
    let (ship_type, col, row, orientation) = FLEET[4];
    let result = game.create_ship(&player2, ship_type, Coordinate::new(col, row), orientation);
    assert_eq!(result, Ok(()));
    assert_eq!(game.start(), Ok(()));
    assert_eq!(game.player_turn().unwrap().name(), "User1");
}
