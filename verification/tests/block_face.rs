use rusty_snake::block_face::{AtlasRect, BlockFace, ATLAS_TILES};
use rusty_snake::cell::CellVariant;
use rusty_snake::direction::Direction;

fn all_faces() -> Vec<BlockFace> {
    vec![
        BlockFace::HeadTop,
        BlockFace::HeadSide,
        BlockFace::HeadBottom,
        BlockFace::BodyTop,
        BlockFace::BodySide,
        BlockFace::BodyBottom,
        BlockFace::Food,
    ]
}

fn sides() -> Vec<Direction> {
    vec![Direction::North, Direction::South, Direction::East, Direction::West]
}

#[test]
fn head_has_a_top_a_bottom_and_four_equal_sides() {
    assert_eq!(BlockFace::select(CellVariant::Head, Direction::Up), BlockFace::HeadTop);
    assert_eq!(BlockFace::select(CellVariant::Head, Direction::Down), BlockFace::HeadBottom);
    for side in sides() {
        assert_eq!(BlockFace::select(CellVariant::Head, side), BlockFace::HeadSide);
    }
}

#[test]
fn body_has_a_top_a_bottom_and_four_equal_sides() {
    assert_eq!(BlockFace::select(CellVariant::Body, Direction::Up), BlockFace::BodyTop);
    assert_eq!(BlockFace::select(CellVariant::Body, Direction::Down), BlockFace::BodyBottom);
    for side in sides() {
        assert_eq!(BlockFace::select(CellVariant::Body, side), BlockFace::BodySide);
    }
}

#[test]
fn food_looks_the_same_from_everywhere() {
    assert_eq!(BlockFace::select(CellVariant::Food, Direction::Up), BlockFace::Food);
    assert_eq!(BlockFace::select(CellVariant::Food, Direction::Down), BlockFace::Food);
    for side in sides() {
        assert_eq!(BlockFace::select(CellVariant::Food, side), BlockFace::Food);
    }
}

#[test]
fn every_tile_has_its_rectangle() {
    let rect = |u_min, v_min, u_max, v_max| AtlasRect { u_min, v_min, u_max, v_max };
    assert_eq!(BlockFace::HeadTop.rect(), rect(0, 0, 1, 1));
    assert_eq!(BlockFace::HeadSide.rect(), rect(1, 0, 2, 1));
    assert_eq!(BlockFace::HeadBottom.rect(), rect(2, 0, 3, 1));
    assert_eq!(BlockFace::BodyTop.rect(), rect(0, 1, 1, 2));
    assert_eq!(BlockFace::BodySide.rect(), rect(1, 1, 2, 2));
    assert_eq!(BlockFace::BodyBottom.rect(), rect(2, 1, 3, 2));
    assert_eq!(BlockFace::Food.rect(), rect(0, 2, 1, 3));
}

#[test]
fn rectangles_lie_inside_the_atlas() {
    assert_eq!(ATLAS_TILES, 4);
    for face in all_faces() {
        let r = face.rect();
        assert!(r.u_min < r.u_max && r.u_max <= ATLAS_TILES);
        assert!(r.v_min < r.v_max && r.v_max <= ATLAS_TILES);
    }
}

#[test]
fn rectangles_of_different_tiles_do_not_overlap() {
    let faces = all_faces();
    for a in faces.iter() {
        for b in faces.iter() {
            if a != b {
                let (p, q) = (a.rect(), b.rect());
                let overlap = p.u_min < q.u_max
                    && q.u_min < p.u_max
                    && p.v_min < q.v_max
                    && q.v_min < p.v_max;
                assert!(!overlap);
            }
        }
    }
}
