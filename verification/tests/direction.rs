use rusty_snake::direction::{Direction, DIRECTION_COUNT};

fn all_directions() -> Vec<Direction> {
    vec![
        Direction::Up,
        Direction::Down,
        Direction::North,
        Direction::South,
        Direction::East,
        Direction::West,
    ]
}

#[test]
fn offsets_are_the_unit_vectors() {
    assert_eq!(Direction::Up.offset(), (0, 1, 0));
    assert_eq!(Direction::Down.offset(), (0, -1, 0));
    assert_eq!(Direction::North.offset(), (0, 0, -1));
    assert_eq!(Direction::South.offset(), (0, 0, 1));
    assert_eq!(Direction::East.offset(), (1, 0, 0));
    assert_eq!(Direction::West.offset(), (-1, 0, 0));
}

#[test]
fn index_follows_the_enumeration_order() {
    assert_eq!(DIRECTION_COUNT, 6);
    let directions = all_directions();
    for (place, direction) in directions.iter().enumerate() {
        assert_eq!(direction.index(), place);
        assert_eq!(Direction::from_index(place), Some(*direction));
    }
}

#[test]
fn from_index_beyond_the_last_is_none() {
    assert_eq!(Direction::from_index(6), None);
    assert_eq!(Direction::from_index(7), None);
    assert_eq!(Direction::from_index(usize::MAX), None);
}

#[test]
fn opposite_negates_the_offset() {
    assert_eq!(Direction::Up.opposite(), Direction::Down);
    assert_eq!(Direction::Down.opposite(), Direction::Up);
    assert_eq!(Direction::North.opposite(), Direction::South);
    assert_eq!(Direction::South.opposite(), Direction::North);
    assert_eq!(Direction::East.opposite(), Direction::West);
    assert_eq!(Direction::West.opposite(), Direction::East);
    for direction in all_directions() {
        let (x, y, z) = direction.offset();
        assert_eq!(direction.opposite().offset(), (-x, -y, -z));
        assert_eq!(direction.opposite().opposite(), direction);
    }
}

#[test]
fn only_up_and_down_leave_the_layer() {
    assert!(!Direction::Up.is_horizontal());
    assert!(!Direction::Down.is_horizontal());
    assert!(Direction::North.is_horizontal());
    assert!(Direction::South.is_horizontal());
    assert!(Direction::East.is_horizontal());
    assert!(Direction::West.is_horizontal());
}
