use rusty_snake::cell::{Cell, CellVariant, Position};
use rusty_snake::direction::Direction;
use rusty_snake::game::Game;
use rusty_snake::grid::ConfigError;
use rusty_snake::mesh::build;
use rusty_snake::simulator::StepOutcome;

fn occupied_positions(game: &Game) -> Vec<(u32, u32)> {
    let grid = game.grid();
    let mut found = Vec::new();
    for y in 0..grid.height() {
        for x in 0..grid.width() {
            if grid.cell(x, y).unwrap().occupied {
                found.push((x, y));
            }
        }
    }
    found
}

#[test]
fn a_new_game_has_no_vertices_yet() {
    let game = Game::new(16, 16).unwrap();
    assert!(game.vertices().is_empty());
    assert!(!game.has_ticked());
    assert_eq!(occupied_positions(&game), vec![(8, 8)]);
    assert_eq!(game.grid().heading(), None);
}

#[test]
fn a_new_game_then_one_update() {
    let mut game = Game::new(16, 16).unwrap();
    let outcome = game.update();
    assert_eq!(outcome, StepOutcome::Idle);
    assert!(game.has_ticked());
    assert_eq!(occupied_positions(&game), vec![(8, 8)]);
    assert_eq!(game.grid().cell(8, 8), Some(Cell::filled(CellVariant::Head)));
    assert!(!game.vertices().is_empty());
    assert_eq!(game.vertices().len() % 30, 0);
    assert_eq!(game.vertices().len(), 180);
}

#[test]
fn a_game_needs_a_width_and_a_height() {
    assert_eq!(Game::new(0, 16).err(), Some(ConfigError::ZeroDimension));
    assert_eq!(Game::new(16, 0).err(), Some(ConfigError::ZeroDimension));
    assert_eq!(Game::new(0, 0).err(), Some(ConfigError::ZeroDimension));
}

#[test]
fn a_game_cannot_be_too_large() {
    assert_eq!(Game::new(4096, 4097).err(), Some(ConfigError::TooLarge));
    assert_eq!(Game::new(u32::MAX, 2).err(), Some(ConfigError::TooLarge));
}

#[test]
fn the_vertices_follow_every_update() {
    let mut game = Game::new(6, 6).unwrap();
    assert!(game.place_food(4, 3));
    assert!(game.vertices().is_empty());
    assert!(game.steer(Direction::East));
    let outcomes = vec![
        StepOutcome::Grew,
        StepOutcome::Moved,
        StepOutcome::OutOfBounds,
        StepOutcome::OutOfBounds,
    ];
    for expected in outcomes {
        assert_eq!(game.update(), expected);
        assert_eq!(*game.vertices(), build(game.grid()));
        assert_eq!(game.vertices().len(), 300);
    }
    assert_eq!(game.grid().head(), Some(Position { x: 5, y: 3 }));
    assert_eq!(game.grid().segment(1), Some(Position { x: 4, y: 3 }));
}

#[test]
fn the_vertices_move_with_the_creature() {
    let mut game = Game::new(6, 6).unwrap();
    game.update();
    let at_rest = game.vertices().clone();
    game.steer(Direction::South);
    assert_eq!(game.update(), StepOutcome::Moved);
    let moved = game.vertices().clone();
    assert_eq!(moved.len(), at_rest.len());
    for (i, value) in at_rest.iter().enumerate() {
        let shift = if i % 5 == 2 { 1 } else { 0 };
        assert_eq!(moved[i], value + shift);
    }
}

#[test]
fn steering_leaves_the_vertices_alone() {
    let mut game = Game::new(6, 6).unwrap();
    assert!(game.steer(Direction::North));
    assert!(game.vertices().is_empty());
    game.update();
    let before = game.vertices().clone();
    assert!(game.steer(Direction::West));
    assert!(!game.steer(Direction::Up));
    assert_eq!(*game.vertices(), before);
    assert_eq!(game.grid().heading(), Some(Direction::West));
}

#[test]
fn food_shows_at_once_after_the_first_tick() {
    let mut game = Game::new(6, 6).unwrap();
    game.update();
    assert_eq!(game.vertices().len(), 180);
    assert!(game.place_food(0, 0));
    assert_eq!(game.vertices().len(), 360);
    assert_eq!(*game.vertices(), build(game.grid()));
    assert!(!game.place_food(0, 0));
    assert!(!game.place_food(6, 0));
    assert_eq!(game.vertices().len(), 360);
    assert!(game.place_food(3, 2));
    assert_eq!(game.vertices().len(), 480);
}

#[test]
fn food_before_the_first_tick_waits_for_it() {
    let mut game = Game::new(6, 6).unwrap();
    assert!(game.place_food(0, 0));
    assert!(game.vertices().is_empty());
    assert!(!game.has_ticked());
    assert_eq!(game.update(), StepOutcome::Idle);
    assert_eq!(game.vertices().len(), 360);
}

#[test]
fn two_games_played_alike_are_alike() {
    let mut first = Game::new(8, 8).unwrap();
    let mut second = Game::new(8, 8).unwrap();
    for game in vec![&mut first, &mut second] {
        game.place_food(5, 4);
        game.steer(Direction::East);
        game.update();
        game.steer(Direction::North);
        game.update();
    }
    assert_eq!(first, second);
    assert_eq!(first.vertices(), second.vertices());
}
