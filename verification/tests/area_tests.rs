use evergreen::area::{Area, Direction, Pos};
use evergreen::exits::{pick_exits, ExitSet};
use evergreen::terrain::Terrain;

fn exit_set(north: bool, east: bool, south: bool, west: bool) -> ExitSet {
    ExitSet { north, east, south, west }
}

#[test]
fn direction_opposite_is_involution() {
    for d in [Direction::North, Direction::East, Direction::South, Direction::West] {
        assert_eq!(d.opposite().opposite(), d);
    }
    assert_eq!(Direction::North.opposite(), Direction::South);
    assert_eq!(Direction::East.opposite(), Direction::West);
}

#[test]
fn grid_offset_unit_vectors() {
    assert_eq!(Direction::North.grid_offset(), Pos { x: 0, y: 1 });
    assert_eq!(Direction::South.grid_offset(), Pos { x: 0, y: -1 });
    assert_eq!(Direction::East.grid_offset(), Pos { x: 1, y: 0 });
    assert_eq!(Direction::West.grid_offset(), Pos { x: -1, y: 0 });
}

#[test]
fn grid_is_fully_populated() {
    let a = Area::generate(exit_set(true, true, true, true), ExitSet::empty(), 99, 0);
    for x in 0..32 {
        for y in 0..18 {
            assert!(a.terrain_at(x, y).is_some(), "unset cell at ({x}, {y})");
        }
    }
    assert_eq!(a.terrain_at(32, 0), None);
    assert_eq!(a.terrain_at(0, 18), None);
    assert_eq!(a.terrain_at(1000, 1000), None);
}

#[test]
fn all_exit_arms_reach_edges_and_centre() {
    let a = Area::generate(exit_set(true, true, true, true), ExitSet::empty(), 5, 0);
    // Edge tiles of each arm.
    assert_eq!(a.terrain_at(15, 17), Some(Terrain::Dirt));
    assert_eq!(a.terrain_at(15, 0), Some(Terrain::Dirt));
    assert_eq!(a.terrain_at(31, 8), Some(Terrain::Dirt));
    assert_eq!(a.terrain_at(0, 8), Some(Terrain::Dirt));
    // The shared central intersection tile.
    assert_eq!(a.terrain_at(15, 8), Some(Terrain::Dirt));
    // Full arm continuity: every tile of the north arm band.
    for x in 14..=16 {
        for y in 7..18 {
            assert_eq!(a.terrain_at(x, y), Some(Terrain::Dirt));
        }
    }
    // A corner stays grass.
    assert_eq!(a.terrain_at(0, 0), Some(Terrain::Grass));
    assert_eq!(a.terrain_at(31, 17), Some(Terrain::Grass));
}

#[test]
fn closed_exit_has_no_arm() {
    // Only North open: the south, east and west arm tips stay grass, the
    // north arm and the centre are dirt.
    let a = Area::generate(
        exit_set(true, false, false, false),
        exit_set(false, true, true, true),
        5,
        0,
    );
    assert!(a.exits.has(Direction::North));
    assert!(!a.exits.has(Direction::East));
    assert!(!a.exits.has(Direction::South));
    assert!(!a.exits.has(Direction::West));
    assert_eq!(a.terrain_at(15, 17), Some(Terrain::Dirt));
    assert_eq!(a.terrain_at(15, 8), Some(Terrain::Dirt));
    assert_eq!(a.terrain_at(15, 0), Some(Terrain::Grass));
    assert_eq!(a.terrain_at(0, 8), Some(Terrain::Grass));
    assert_eq!(a.terrain_at(31, 8), Some(Terrain::Grass));
}

#[test]
fn generation_is_deterministic() {
    let req = exit_set(false, true, false, false);
    let forb = exit_set(true, false, false, false);
    let a = Area::generate(req, forb, 777, 3);
    let b = Area::generate(req, forb, 777, 3);
    for d in [Direction::North, Direction::East, Direction::South, Direction::West] {
        assert_eq!(a.exits.has(d), b.exits.has(d));
    }
    for x in 0..32 {
        for y in 0..18 {
            assert_eq!(a.terrain_at(x, y), b.terrain_at(x, y));
        }
    }
}

#[test]
fn required_kept_and_forbidden_closed() {
    for seed in 0..50u64 {
        let a = Area::generate(
            exit_set(true, false, false, false),
            exit_set(false, false, true, false),
            seed,
            8,
        );
        assert!(a.exits.has(Direction::North));
        assert!(!a.exits.has(Direction::South));
    }
}

#[test]
fn no_optional_directions_returns_required() {
    let req = exit_set(true, false, true, false);
    let forb = exit_set(false, true, false, true);
    for seed in [0u64, 1, 42, u64::MAX] {
        let e = pick_exits(req, forb, seed, 0);
        assert_eq!(e, req);
    }
}

#[test]
fn pick_exits_count_in_bounds() {
    for seed in 0..100u64 {
        for count in [0usize, 6, 11, 15, 18, 21, 100] {
            let e = pick_exits(ExitSet::empty(), ExitSet::empty(), seed, count);
            let n = e.len();
            assert!((1..=4).contains(&n));
        }
    }
}

#[test]
fn dead_end_zone_dominates_at_large_counts() {
    // With 21 or more areas and no constraints, one exit must dominate
    // (about 95% of rolls) and zero exits must never happen.
    let trials = 400u64;
    let mut ones = 0usize;
    for seed in 0..trials {
        let e = pick_exits(ExitSet::empty(), ExitSet::empty(), seed, 21);
        let n = e.len();
        assert!(n >= 1, "seed {seed} produced a sealed area");
        assert!(n <= 2, "seed {seed} produced {n} exits in the dead-end zone");
        if n == 1 {
            ones += 1;
        }
    }
    assert!(ones * 100 >= trials as usize * 90);
    assert!(ones < trials as usize);
}

#[test]
fn dead_end_share_grows_with_area_count() {
    // The same roll decides the target in every tier, and the one-exit
    // band only widens as the world grows, so over a fixed seed set the
    // number of single-exit results is non-decreasing across tiers.
    let tiers = [0usize, 6, 11, 15, 18, 21];
    let mut previous = 0usize;
    for count in tiers {
        let mut ones = 0usize;
        for seed in 0..400u64 {
            if pick_exits(ExitSet::empty(), ExitSet::empty(), seed, count).len() == 1 {
                ones += 1;
            }
        }
        assert!(
            ones >= previous,
            "one-exit share dropped from {previous} to {ones} at area_count {count}"
        );
        previous = ones;
    }
}

#[test]
fn exit_set_operations() {
    let mut e = ExitSet::empty();
    assert_eq!(e.len(), 0);
    assert!(!e.has(Direction::North));
    e.insert(Direction::North);
    e.insert(Direction::West);
    e.insert(Direction::West);
    assert_eq!(e.len(), 2);
    assert!(e.has(Direction::North));
    assert!(e.has(Direction::West));
    assert!(!e.has(Direction::East));
    assert_eq!(ExitSet::all().len(), 4);
}
