use rusty_snake::direction::Direction;
use rusty_snake::grid::Grid;
use rusty_snake::mesh::{build, is_exposed, FACE_SIZE, VERTEX_SIZE};
use rusty_snake::simulator::{step, StepOutcome};

fn all_directions() -> Vec<Direction> {
    vec![
        Direction::Up,
        Direction::Down,
        Direction::North,
        Direction::South,
        Direction::East,
        Direction::West,
    ]
}

fn head_up() -> Vec<i64> {
    vec![
        0, 1, 1, 0, 0, 1, 1, 1, 1, 0, 1, 1, 0, 1, 1, 1, 1, 0, 1, 1, 0, 1, 0, 0, 1, 0, 1, 1, 0, 0,
    ]
}

fn head_down() -> Vec<i64> {
    vec![
        0, 0, 0, 2, 0, 1, 0, 0, 3, 0, 1, 0, 1, 3, 1, 1, 0, 1, 3, 1, 0, 0, 1, 2, 1, 0, 0, 0, 2, 0,
    ]
}

fn head_north() -> Vec<i64> {
    vec![
        1, 0, 0, 1, 0, 0, 0, 0, 2, 0, 0, 1, 0, 2, 1, 0, 1, 0, 2, 1, 1, 1, 0, 1, 1, 1, 0, 0, 1, 0,
    ]
}

fn head_south() -> Vec<i64> {
    vec![
        0, 0, 1, 1, 0, 1, 0, 1, 2, 0, 1, 1, 1, 2, 1, 1, 1, 1, 2, 1, 0, 1, 1, 1, 1, 0, 0, 1, 1, 0,
    ]
}

fn head_east() -> Vec<i64> {
    vec![
        1, 0, 1, 1, 0, 1, 0, 0, 2, 0, 1, 1, 0, 2, 1, 1, 1, 0, 2, 1, 1, 1, 1, 1, 1, 1, 0, 1, 1, 0,
    ]
}

fn head_west() -> Vec<i64> {
    vec![
        0, 0, 0, 1, 0, 0, 0, 1, 2, 0, 0, 1, 1, 2, 1, 0, 1, 1, 2, 1, 0, 1, 0, 1, 1, 0, 0, 0, 1, 0,
    ]
}

fn cross(a: (i64, i64, i64), b: (i64, i64, i64)) -> (i64, i64, i64) {
    (a.1 * b.2 - a.2 * b.1, a.2 * b.0 - a.0 * b.2, a.0 * b.1 - a.1 * b.0)
}

fn position(buffer: &[i64], vertex: usize) -> (i64, i64, i64) {
    (buffer[5 * vertex], buffer[5 * vertex + 1], buffer[5 * vertex + 2])
}

fn texture(buffer: &[i64], vertex: usize) -> (i64, i64) {
    (buffer[5 * vertex + 3], buffer[5 * vertex + 4])
}

fn minus(a: (i64, i64, i64), b: (i64, i64, i64)) -> (i64, i64, i64) {
    (a.0 - b.0, a.1 - b.1, a.2 - b.2)
}

#[test]
fn a_face_is_six_vertices_of_five_numbers() {
    assert_eq!(VERTEX_SIZE, 5);
    assert_eq!(FACE_SIZE, 30);
    assert_eq!(FACE_SIZE, 6 * VERTEX_SIZE);
}

#[test]
fn an_empty_grid_has_an_empty_buffer() {
    let grid = Grid::empty(16, 16).unwrap();
    assert!(build(&grid).is_empty());
    let small = Grid::empty(1, 1).unwrap();
    assert!(build(&small).is_empty());
}

#[test]
fn a_single_cell_shows_six_faces() {
    let grid = Grid::new(16, 16).unwrap();
    assert_eq!(build(&grid).len(), 180);
    let mut other = Grid::empty(5, 4).unwrap();
    assert!(other.place_food(0, 3));
    assert_eq!(build(&other).len(), 180);
}

#[test]
fn the_buffer_of_a_single_cell_number_by_number() {
    let grid = Grid::new(1, 1).unwrap();
    let mut expected = Vec::new();
    expected.extend(head_up());
    expected.extend(head_down());
    expected.extend(head_north());
    expected.extend(head_south());
    expected.extend(head_east());
    expected.extend(head_west());
    assert_eq!(expected.len(), 180);
    assert_eq!(build(&grid), expected);
}

#[test]
fn a_cell_elsewhere_is_shifted_by_its_column_and_row() {
    let grid = Grid::new(7, 5).unwrap();
    let buffer = build(&grid);
    let mut expected = Vec::new();
    for face in vec![head_up(), head_down(), head_north(), head_south(), head_east(), head_west()]
    {
        for (i, value) in face.iter().enumerate() {
            expected.push(match i % 5 {
                0 => value + 3,
                2 => value + 2,
                _ => *value,
            });
        }
    }
    assert_eq!(buffer, expected);
}

#[test]
fn food_shows_the_food_tile_on_every_face() {
    let mut grid = Grid::empty(6, 6).unwrap();
    assert!(grid.place_food(3, 2));
    let buffer = build(&grid);
    assert_eq!(buffer.len(), 180);
    let east = vec![
        4, 0, 3, 0, 2, 4, 0, 2, 1, 2, 4, 1, 2, 1, 3, 4, 1, 2, 1, 3, 4, 1, 3, 0, 3, 4, 0, 3, 0, 2,
    ];
    assert_eq!(buffer[120..150].to_vec(), east);
    for vertex in 0..36 {
        let (u, v) = texture(&buffer, vertex);
        assert!(0 <= u && u <= 1);
        assert!(2 <= v && v <= 3);
    }
}

#[test]
fn a_body_segment_shows_the_body_tiles() {
    let mut grid = Grid::new(8, 6).unwrap();
    assert!(grid.place_food(3, 3));
    grid.steer(Direction::West);
    assert_eq!(step(&mut grid), StepOutcome::Grew);
    grid.steer(Direction::North);
    assert_eq!(step(&mut grid), StepOutcome::Moved);
    // The head is now at (3, 2) and the only body segment at (3, 3).
    let buffer = build(&grid);
    assert_eq!(buffer.len(), 300);
    let body_up = vec![
        3, 1, 4, 0, 1, 4, 1, 4, 1, 1, 4, 1, 3, 1, 2, 4, 1, 3, 1, 2, 3, 1, 3, 0, 2, 3, 1, 4, 0, 1,
    ];
    assert_eq!(buffer[150..180].to_vec(), body_up);
    // Head: up, down, north, east, west. Body: up, down, south, east, west.
    let tiles = vec![(0, 0), (2, 0), (1, 0), (1, 0), (1, 0), (0, 1), (2, 1), (1, 1), (1, 1), (1, 1)];
    for (face, (column, row)) in tiles.iter().enumerate() {
        assert_eq!(texture(&buffer, 6 * face), (*column, *row));
        assert_eq!(texture(&buffer, 6 * face + 2), (*column + 1, *row + 1));
    }
}

#[test]
fn two_cells_side_by_side_show_ten_faces() {
    let mut grid = Grid::new(16, 16).unwrap();
    assert!(grid.place_food(9, 8));
    assert_eq!(build(&grid).len(), 300);
    assert!(!is_exposed(&grid, 8, 8, Direction::East));
    assert!(!is_exposed(&grid, 9, 8, Direction::West));
    let mut west = Grid::new(16, 16).unwrap();
    assert!(west.place_food(7, 8));
    assert_eq!(build(&west).len(), 300);
}

#[test]
fn two_cells_one_below_the_other_show_ten_faces() {
    let mut grid = Grid::new(16, 16).unwrap();
    assert!(grid.place_food(8, 9));
    assert_eq!(build(&grid).len(), 300);
    assert!(!is_exposed(&grid, 8, 8, Direction::South));
    assert!(!is_exposed(&grid, 8, 9, Direction::North));
    let mut north = Grid::new(16, 16).unwrap();
    assert!(north.place_food(8, 7));
    assert_eq!(build(&north).len(), 300);
}

#[test]
fn two_cells_that_touch_at_a_corner_show_twelve_faces() {
    let mut grid = Grid::new(16, 16).unwrap();
    assert!(grid.place_food(9, 9));
    assert_eq!(build(&grid).len(), 360);
}

#[test]
fn the_faces_of_a_pair_in_row_order() {
    let mut grid = Grid::empty(2, 1).unwrap();
    assert!(grid.place_food(0, 0));
    assert!(grid.place_food(1, 0));
    let buffer = build(&grid);
    assert_eq!(buffer.len(), 300);
    // The west cell comes first and lacks its east face; then the east
    // cell, which lacks its west face.
    let normals: Vec<(i64, i64, i64)> = (0..10)
        .map(|face| {
            let a = position(&buffer, 6 * face);
            let b = position(&buffer, 6 * face + 1);
            let c = position(&buffer, 6 * face + 2);
            cross(minus(b, a), minus(c, a))
        })
        .collect();
    let expected = vec![
        (0, 1, 0),
        (0, -1, 0),
        (0, 0, -1),
        (0, 0, 1),
        (-1, 0, 0),
        (0, 1, 0),
        (0, -1, 0),
        (0, 0, -1),
        (0, 0, 1),
        (1, 0, 0),
    ];
    assert_eq!(normals, expected);
    for face in 0..5 {
        for vertex in 0..6 {
            let (x, _, _) = position(&buffer, 6 * face + vertex);
            assert!(x <= 1);
        }
    }
    for face in 5..10 {
        for vertex in 0..6 {
            let (x, _, _) = position(&buffer, 6 * face + vertex);
            assert!(x >= 1);
        }
    }
}

#[test]
fn a_full_grid_shows_its_outside_only() {
    let mut grid = Grid::new(3, 3).unwrap();
    for y in 0..3 {
        for x in 0..3 {
            grid.place_food(x, y);
        }
    }
    // Nine tops, nine bottoms and twelve sides along the edge.
    assert_eq!(build(&grid).len(), 30 * 30);
    assert!(!is_exposed(&grid, 1, 1, Direction::North));
    assert!(!is_exposed(&grid, 1, 1, Direction::South));
    assert!(!is_exposed(&grid, 1, 1, Direction::East));
    assert!(!is_exposed(&grid, 1, 1, Direction::West));
    assert!(is_exposed(&grid, 1, 1, Direction::Up));
    assert!(is_exposed(&grid, 1, 1, Direction::Down));
}

#[test]
fn the_length_is_a_multiple_of_thirty() {
    let mut grid = Grid::new(6, 5).unwrap();
    assert_eq!(build(&grid).len() % 30, 0);
    let food = vec![(0, 0), (1, 0), (5, 4), (4, 2), (3, 3), (2, 2), (3, 1), (0, 4), (5, 0)];
    for (x, y) in food {
        assert!(grid.place_food(x, y));
        let buffer = build(&grid);
        assert_eq!(buffer.len() % 30, 0);
        assert!(!buffer.is_empty());
    }
}

#[test]
fn building_twice_gives_the_same_buffer() {
    let mut grid = Grid::new(6, 5).unwrap();
    grid.place_food(4, 2);
    grid.place_food(0, 0);
    let first = build(&grid);
    let second = build(&grid);
    assert_eq!(first, second);
    let copy = grid.clone();
    assert_eq!(build(&copy), first);
}

#[test]
fn the_heading_does_not_show() {
    let mut grid = Grid::new(6, 5).unwrap();
    let before = build(&grid);
    grid.steer(Direction::South);
    assert_eq!(build(&grid), before);
}

#[test]
fn the_edge_of_the_grid_hides_nothing() {
    let grid = Grid::new(1, 1).unwrap();
    for direction in all_directions() {
        assert!(is_exposed(&grid, 0, 0, direction));
    }
    let mut corners = Grid::empty(4, 3).unwrap();
    for (x, y) in vec![(0, 0), (3, 0), (0, 2), (3, 2)] {
        assert!(corners.place_food(x, y));
    }
    assert!(is_exposed(&corners, 0, 0, Direction::North));
    assert!(is_exposed(&corners, 0, 0, Direction::West));
    assert!(is_exposed(&corners, 3, 0, Direction::North));
    assert!(is_exposed(&corners, 3, 0, Direction::East));
    assert!(is_exposed(&corners, 0, 2, Direction::South));
    assert!(is_exposed(&corners, 0, 2, Direction::West));
    assert!(is_exposed(&corners, 3, 2, Direction::South));
    assert!(is_exposed(&corners, 3, 2, Direction::East));
    assert_eq!(build(&corners).len(), 4 * 180);
}

#[test]
fn a_cell_in_the_last_column_and_row_of_the_largest_coordinates() {
    let mut grid = Grid::empty(16_777_216, 1).unwrap();
    assert!(grid.place_food(16_777_215, 0));
    let buffer = build(&grid);
    assert_eq!(buffer.len(), 180);
    assert_eq!(position(&buffer, 0), (16_777_215, 1, 1));
    assert_eq!(position(&buffer, 1), (16_777_216, 1, 1));
    assert!(is_exposed(&grid, 16_777_215, 0, Direction::East));
}

#[test]
fn up_and_down_are_always_exposed() {
    let mut grid = Grid::new(3, 3).unwrap();
    grid.place_food(1, 0);
    grid.place_food(0, 1);
    for y in 0..3 {
        for x in 0..3 {
            assert!(is_exposed(&grid, x, y, Direction::Up));
            assert!(is_exposed(&grid, x, y, Direction::Down));
        }
    }
}

#[test]
fn exposure_looks_at_the_neighbour_only() {
    let mut grid = Grid::new(3, 3).unwrap();
    grid.place_food(1, 0);
    // The head is at (1, 1) and the food north of it.
    assert!(!is_exposed(&grid, 1, 1, Direction::North));
    assert!(is_exposed(&grid, 1, 1, Direction::South));
    assert!(is_exposed(&grid, 1, 1, Direction::East));
    assert!(is_exposed(&grid, 1, 1, Direction::West));
    assert!(!is_exposed(&grid, 1, 0, Direction::South));
    assert!(is_exposed(&grid, 1, 0, Direction::North));
    // A vacant cell next to an occupied one would hide its face too.
    assert!(!is_exposed(&grid, 0, 1, Direction::East));
    assert!(is_exposed(&grid, 0, 1, Direction::West));
}

#[test]
fn every_triangle_faces_outwards() {
    let mut grid = Grid::empty(3, 3).unwrap();
    assert!(grid.place_food(1, 1));
    let buffer = build(&grid);
    assert_eq!(buffer.len(), 180);
    for (face, direction) in all_directions().iter().enumerate() {
        for triangle in 0..2 {
            let first = 6 * face + 3 * triangle;
            let a = position(&buffer, first);
            let b = position(&buffer, first + 1);
            let c = position(&buffer, first + 2);
            assert_eq!(cross(minus(b, a), minus(c, a)), direction.offset());
        }
    }
}

#[test]
fn no_texture_is_mirrored() {
    let grid = Grid::new(3, 3).unwrap();
    let buffer = build(&grid);
    for face in 0..6 {
        for triangle in 0..2 {
            let first = 6 * face + 3 * triangle;
            let (u0, v0) = texture(&buffer, first);
            let (u1, v1) = texture(&buffer, first + 1);
            let (u2, v2) = texture(&buffer, first + 2);
            let turn = (u1 - u0) * (v2 - v0) - (v1 - v0) * (u2 - u0);
            assert_eq!(turn, 1);
        }
    }
}

#[test]
fn the_two_triangles_of_a_face_share_a_diagonal() {
    let grid = Grid::new(3, 3).unwrap();
    let buffer = build(&grid);
    for face in 0..6 {
        let first = 6 * face;
        assert_eq!(position(&buffer, first + 2), position(&buffer, first + 3));
        assert_eq!(texture(&buffer, first + 2), texture(&buffer, first + 3));
        assert_eq!(position(&buffer, first), position(&buffer, first + 5));
        assert_eq!(texture(&buffer, first), texture(&buffer, first + 5));
    }
}

#[test]
fn every_number_lies_in_the_box_of_the_grid() {
    let mut grid = Grid::new(4, 3).unwrap();
    for (x, y) in vec![(0, 0), (3, 0), (0, 2), (3, 2), (1, 1)] {
        assert!(grid.place_food(x, y));
    }
    let buffer = build(&grid);
    assert_eq!(buffer.len() % 5, 0);
    let mut reached = vec![0; 5];
    for (i, value) in buffer.iter().enumerate() {
        let top = match i % 5 {
            0 => 4,
            1 => 1,
            2 => 3,
            _ => 4,
        };
        assert!(0 <= *value && *value <= top);
        if *value > reached[i % 5] {
            reached[i % 5] = *value;
        }
    }
    // The grid is 4 by 3, and of the atlas only the tiles of the head and
    // of the food are shown: they end at column 3 and row 3.
    assert_eq!(reached, vec![4, 1, 3, 3, 3]);
}
