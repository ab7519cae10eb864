use evergreen::area::{Area, Direction};
use evergreen::exits::ExitSet;
use evergreen::minimap::connector_rect;
use evergreen::models::{Distance, Layer, Speed, Tile};
use evergreen::scenery::{clear_for_tree, corner_dist_min, edge_dist};

#[test]
fn layer_z_values() {
    assert_eq!(Layer::Tilemap.z(), 0);
    assert_eq!(Layer::SceneryTree.z(), 3);
    assert_eq!(Layer::Player.z(), 10);
    assert_eq!(Layer::SceneryBush.z(), 11);
    assert_eq!(Layer::SceneryFlower.z(), 12);
}

#[test]
fn measurement_newtypes_carry_values() {
    assert_eq!(Tile(3).0, 3);
    assert_eq!(Distance(200).0, 200);
    assert_eq!(Speed(6).0, 6);
    assert_eq!(Tile(3), Tile(3));
    assert_ne!(Distance(1), Distance(2));
}

#[test]
fn connector_rect_values() {
    // Cell width 14, height 9, gap 4.
    assert_eq!(connector_rect(Direction::North, 4, 4), Some((7, 0, 7, 4)));
    assert_eq!(connector_rect(Direction::South, 4, 4), Some((7, 13, 7, 4)));
    assert_eq!(connector_rect(Direction::East, 4, 4), Some((18, 6, 4, 4)));
    assert_eq!(connector_rect(Direction::West, 4, 4), Some((0, 6, 4, 4)));
}

#[test]
fn connector_rect_clipped_at_container_edge() {
    assert_eq!(connector_rect(Direction::North, 10, 3), None);
    assert_eq!(connector_rect(Direction::West, 3, 10), None);
    // South and East never clip.
    assert!(connector_rect(Direction::South, 0, 0).is_some());
    assert!(connector_rect(Direction::East, 0, 0).is_some());
}

#[test]
fn edge_and_corner_distances() {
    assert_eq!(edge_dist(0, 0), 0);
    assert_eq!(edge_dist(31, 17), 0);
    assert_eq!(edge_dist(15, 8), 8);
    assert_eq!(edge_dist(16, 9), 8);
    assert_eq!(corner_dist_min(0, 0), 0);
    assert_eq!(corner_dist_min(31, 17), 0);
    assert_eq!(corner_dist_min(15, 8), 23);
}

#[test]
fn tree_room_check_respects_paths() {
    let a = Area::generate(
        ExitSet { north: true, east: true, south: true, west: true },
        ExitSet::empty(),
        11,
        0,
    );
    // Open grass far from any path arm.
    assert!(clear_for_tree(&a, 5, 5));
    // The tile right of (13, 5) belongs to the south arm: blocked.
    assert!(!clear_for_tree(&a, 13, 5));
    // The tile above (15, 6) belongs to the path: blocked.
    assert!(!clear_for_tree(&a, 15, 6));
    // Border tiles tolerate out-of-bounds neighbours.
    assert!(clear_for_tree(&a, 0, 17));
}
