use evergreen::area::Pos;
use evergreen::rng::lcg;
use evergreen::terrain::{tile_hash, Terrain};
use evergreen::tiling::tile_index_with_neighbors;
use evergreen::world::WorldMap;

#[test]
fn lcg_is_deterministic_with_known_values() {
    assert_eq!(lcg(0), 1442695040888963407);
    assert_eq!(lcg(5), lcg(5));
    assert_ne!(lcg(5), lcg(6));
    // The stream from a fixed state is reproducible.
    let mut a = 42u64;
    let mut b = 42u64;
    for _ in 0..10 {
        a = lcg(a);
        b = lcg(b);
        assert_eq!(a, b);
    }
}

#[test]
fn tile_hash_is_deterministic_with_known_values() {
    assert_eq!(tile_hash(0, 0, 0), 0);
    assert_eq!(tile_hash(3, 4, 0), 536746374);
    assert_eq!(tile_hash(3, 4, 0), tile_hash(3, 4, 0));
    assert_ne!(tile_hash(3, 4, 0), tile_hash(4, 3, 0));
    assert_ne!(tile_hash(3, 4, 0), tile_hash(3, 4, 1));
}

#[test]
fn terrain_offsets_are_disjoint() {
    assert_eq!(Terrain::Grass.offset(), 0);
    assert_eq!(Terrain::Dirt.offset(), 77);
}

#[test]
fn fill_sprites_exact_values() {
    assert_eq!(Terrain::Grass.fill(0, 0), 55);
    assert_eq!(Terrain::Grass.fill(3, 4), 66);
    assert_eq!(Terrain::Dirt.fill(0, 0), 132);
    assert_eq!(Terrain::Dirt.fill(15, 8), 133);
    // Repeated queries for the same tile always agree.
    assert_eq!(Terrain::Grass.fill(9, 9), Terrain::Grass.fill(9, 9));
}

#[test]
fn fill_sprites_stay_in_terrain_rows() {
    for x in 0..32 {
        for y in 0..18 {
            let g = Terrain::Grass.fill(x, y);
            let d = Terrain::Dirt.fill(x, y);
            assert!((55..=71).contains(&g));
            assert!((132..=145).contains(&d));
        }
    }
}

#[test]
fn tile_index_fill_when_no_edge() {
    // Tile (0, 0) of the seed-42 origin is grass surrounded by grass on all
    // sides (the west and south neighbours exist and are grass there), so it
    // falls back to the hash fill sprite.
    let w = WorldMap::new(42);
    assert_eq!(tile_index_with_neighbors(&w, Pos { x: 0, y: 0 }, 0, 0, Terrain::Grass), 55);
}

#[test]
fn tile_index_corner_edge_priority() {
    // Tile (13, 6) of the fully open origin: dirt to the right (south arm)
    // and dirt above (west arm), so the top-right corner sprite wins.
    let w = WorldMap::new(42);
    assert_eq!(tile_index_with_neighbors(&w, Pos { x: 0, y: 0 }, 13, 6, Terrain::Grass), 2);
}

#[test]
fn tile_index_straight_edge() {
    // Tile (14, 0) of the origin: dirt of the south arm with grass only to
    // its left; below, the north neighbour arm of the area at (0, -1)
    // continues the path, so only the left edge applies.
    let w = WorldMap::new(42);
    assert_eq!(tile_index_with_neighbors(&w, Pos { x: 0, y: 0 }, 14, 0, Terrain::Dirt), 88);
}

#[test]
fn tile_index_seamless_across_boundary() {
    // Tile (15, 17): the top tile of the origin's north arm.  The area at
    // (0, 1) continues the path southward, so no top edge is detected and
    // the tile renders as plain dirt fill: the seam disappears.
    let w = WorldMap::new(42);
    assert_eq!(tile_index_with_neighbors(&w, Pos { x: 0, y: 0 }, 15, 17, Terrain::Dirt), 145);
}
