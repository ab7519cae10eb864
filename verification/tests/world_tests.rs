use evergreen::area::{Direction, Pos};
use evergreen::world::WorldMap;

fn pos(x: i32, y: i32) -> Pos {
    Pos { x, y }
}

/// Every direction, for exhaustive checks.
const DIRS: [Direction; 4] = [Direction::North, Direction::East, Direction::South, Direction::West];

#[test]
fn origin_has_all_four_exits() {
    let w = WorldMap::new(7);
    let area = w.current_area();
    for d in DIRS {
        assert!(area.exits.has(d));
    }
    assert_eq!(w.current, pos(0, 0));
}

#[test]
fn new_generates_all_origin_neighbours() {
    let w = WorldMap::new(123456789);
    assert!(w.get_area(pos(0, 1)).is_some());
    assert!(w.get_area(pos(1, 0)).is_some());
    assert!(w.get_area(pos(0, -1)).is_some());
    assert!(w.get_area(pos(-1, 0)).is_some());
    assert!(w.get_area(pos(2, 0)).is_none());
    assert!(w.get_area(pos(1, 1)).is_none());
}

#[test]
fn seed_42_neighbour_exits_are_reproducible() {
    // Exact exit sets for seed 42, pinning the full generation pipeline
    // (per-position seeding, density roll, shuffle).
    let w = WorldMap::new(42);
    let north = w.get_area(pos(0, 1)).unwrap();
    assert!(north.exits.has(Direction::East));
    assert!(north.exits.has(Direction::North));
    assert!(north.exits.has(Direction::South));
    assert!(!north.exits.has(Direction::West));
    let east = w.get_area(pos(1, 0)).unwrap();
    assert!(east.exits.has(Direction::East));
    assert!(east.exits.has(Direction::West));
    assert!(!east.exits.has(Direction::North));
    assert!(!east.exits.has(Direction::South));
    let south = w.get_area(pos(0, -1)).unwrap();
    assert!(south.exits.has(Direction::East));
    assert!(south.exits.has(Direction::North));
    assert!(south.exits.has(Direction::West));
    assert!(!south.exits.has(Direction::South));
    let west = w.get_area(pos(-1, 0)).unwrap();
    assert!(west.exits.has(Direction::East));
    assert!(west.exits.has(Direction::South));
    assert!(!west.exits.has(Direction::North));
    assert!(!west.exits.has(Direction::West));
}

#[test]
fn transition_east_from_origin() {
    // Origin is fully open, so its East exit reciprocates: the area at
    // (1, 0) must hold West, and after the move it is current.
    let mut w = WorldMap::new(42);
    w.transition(Direction::East);
    assert_eq!(w.current, pos(1, 0));
    assert!(w.current_area().exits.has(Direction::West));
}

#[test]
fn transition_keeps_lookahead() {
    let mut w = WorldMap::new(42);
    w.transition(Direction::East);
    let area = w.get_area(pos(1, 0)).unwrap();
    for d in DIRS {
        if area.exits.has(d) {
            let o = d.grid_offset();
            assert!(w.get_area(pos(1 + o.x, o.y)).is_some());
        }
    }
}

#[test]
fn transition_without_exit_still_respects_reciprocity() {
    // The area at (1, 0) under seed 42 opens only East and West.  Moving
    // North anyway generates (1, 1); because (1, 0) has no North exit, the
    // new area's South side is forbidden, and because (0, 1) opens East,
    // the new area's West side is required.
    let mut w = WorldMap::new(42);
    w.transition(Direction::East);
    let here = w.current_area();
    assert!(!here.exits.has(Direction::North));
    w.transition(Direction::North);
    assert_eq!(w.current, pos(1, 1));
    let above = w.current_area();
    assert!(!above.exits.has(Direction::South));
    assert!(above.exits.has(Direction::West));
}

#[test]
fn determinism_same_seed_same_walk() {
    let moves = [
        Direction::East,
        Direction::East,
        Direction::North,
        Direction::West,
        Direction::South,
    ];
    let mut w1 = WorldMap::new(987654321);
    let mut w2 = WorldMap::new(987654321);
    for d in moves {
        w1.transition(d);
        w2.transition(d);
    }
    assert_eq!(w1.current, w2.current);
    for x in -6..=6 {
        for y in -6..=6 {
            let p = pos(x, y);
            match (w1.get_area(p), w2.get_area(p)) {
                (None, None) => {}
                (Some(a1), Some(a2)) => {
                    for d in DIRS {
                        assert_eq!(a1.exits.has(d), a2.exits.has(d));
                    }
                    for tx in 0..32 {
                        for ty in 0..18 {
                            assert_eq!(a1.terrain_at(tx, ty), a2.terrain_at(tx, ty));
                        }
                    }
                }
                _ => panic!("worlds generated different areas at ({x}, {y})"),
            }
        }
    }
}

#[test]
fn different_seeds_diverge_somewhere() {
    // Not a guarantee of the spec, but a sanity check that the seed is used:
    // the neighbour exit sets of two well-separated seeds should not all
    // coincide.
    let w1 = WorldMap::new(1);
    let w2 = WorldMap::new(2);
    let mut differs = false;
    for p in [pos(0, 1), pos(1, 0), pos(0, -1), pos(-1, 0)] {
        let a1 = w1.get_area(p).unwrap();
        let a2 = w2.get_area(p).unwrap();
        for d in DIRS {
            if a1.exits.has(d) != a2.exits.has(d) {
                differs = true;
            }
        }
    }
    assert!(differs);
}

#[test]
fn reciprocity_over_generated_pairs() {
    let mut w = WorldMap::new(20260101);
    for d in [
        Direction::East,
        Direction::North,
        Direction::North,
        Direction::West,
        Direction::South,
        Direction::East,
    ] {
        w.transition(d);
    }
    for x in -6..=6 {
        for y in -6..=6 {
            let p = pos(x, y);
            let Some(a) = w.get_area(p) else { continue };
            for d in DIRS {
                let o = d.grid_offset();
                let q = pos(x + o.x, y + o.y);
                let Some(b) = w.get_area(q) else { continue };
                assert_eq!(
                    a.exits.has(d),
                    b.exits.has(d.opposite()),
                    "reciprocity broken between ({x},{y}) and ({},{})",
                    q.x,
                    q.y
                );
            }
        }
    }
}

#[test]
fn extended_lookup_matches_neighbour() {
    // One tile past the east edge resolves to column 0 of the east
    // neighbour.
    let w = WorldMap::new(42);
    let east = w.get_area(pos(1, 0)).unwrap();
    for y in 0..18 {
        let via_extended = w.terrain_at_extended(pos(0, 0), 32, y);
        let direct = east.terrain_at(0, y as u32);
        assert!(via_extended.is_some());
        assert_eq!(via_extended, direct);
    }
    // And one tile past the west edge resolves to column 31 of the west
    // neighbour.
    let west = w.get_area(pos(-1, 0)).unwrap();
    for y in 0..18 {
        assert_eq!(w.terrain_at_extended(pos(0, 0), -1, y), west.terrain_at(31, y as u32));
    }
}

#[test]
fn extended_lookup_absent_when_ungenerated() {
    let w = WorldMap::new(42);
    // (1, 0) exists but its own east neighbour (2, 0) does not.
    assert!(w.get_area(pos(2, 0)).is_none());
    assert_eq!(w.terrain_at_extended(pos(1, 0), 32, 5), None);
    // An in-bounds query against an ungenerated area is also absent.
    assert_eq!(w.terrain_at_extended(pos(5, 5), 3, 3), None);
    // Far overshoot lands outside the single adjacent area: absent.
    assert_eq!(w.terrain_at_extended(pos(0, 0), -50, 3), None);
}

#[test]
fn extended_lookup_inside_matches_direct() {
    let w = WorldMap::new(42);
    let origin = w.get_area(pos(0, 0)).unwrap();
    for x in 0..32 {
        for y in 0..18 {
            assert_eq!(
                w.terrain_at_extended(pos(0, 0), x, y),
                origin.terrain_at(x as u32, y as u32)
            );
        }
    }
}
