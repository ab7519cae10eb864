//! The pure decisions behind scenery placement: distance zones within an
//! area and the room check for large scenery.
//!
//! Scenery spawning itself (sprites, entities) is an external concern; it
//! shares the deterministic tile hash and these predicates.

use vstd::prelude::*;

use crate::area::{spec_terrain_at, Area, MAP_HEIGHT, MAP_WIDTH};
use crate::terrain::Terrain;

verus! {

/// Distance from tile `(x, y)` to the nearest area edge.
pub open spec fn spec_edge_dist(x: u16, y: u16) -> int {
    let right = if MAP_WIDTH - 1 - x < 0 {
        0int
    } else {
        MAP_WIDTH - 1 - x
    };
    let top = if MAP_HEIGHT - 1 - y < 0 {
        0int
    } else {
        MAP_HEIGHT - 1 - y
    };
    let m1 = if x < right {
        x as int
    } else {
        right
    };
    let m2 = if m1 < y {
        m1
    } else {
        y as int
    };
    if m2 < top {
        m2
    } else {
        top
    }
}

/// Distance from tile `(x, y)` to the nearest area corner (taxicab).
pub open spec fn spec_corner_dist_min(x: u16, y: u16) -> int {
    let right = if MAP_WIDTH - 1 - x < 0 {
        0int
    } else {
        MAP_WIDTH - 1 - x
    };
    let top = if MAP_HEIGHT - 1 - y < 0 {
        0int
    } else {
        MAP_HEIGHT - 1 - y
    };
    let a = x + y;
    let b = right + y;
    let c = x + top;
    let d = right + top;
    let m1 = if a < b {
        a
    } else {
        b
    };
    let m2 = if m1 < c {
        m1
    } else {
        c
    };
    if m2 < d {
        m2
    } else {
        d
    }
}

/// Distance from tile `(x, y)` to the nearest area edge.
pub fn edge_dist(x: u16, y: u16) -> (r: u32)
    ensures
        r as int == spec_edge_dist(x, y),
{
    let xu = x as u32;
    let yu = y as u32;
    let right = (MAP_WIDTH as u32).saturating_sub(1).saturating_sub(xu);
    let top = (MAP_HEIGHT as u32).saturating_sub(1).saturating_sub(yu);
    let m1 = if xu < right {
        xu
    } else {
        right
    };
    let m2 = if m1 < yu {
        m1
    } else {
        yu
    };
    if m2 < top {
        m2
    } else {
        top
    }
}

/// Distance from tile `(x, y)` to the nearest area corner (taxicab).
pub fn corner_dist_min(x: u16, y: u16) -> (r: u32)
    ensures
        r as int == spec_corner_dist_min(x, y),
{
    let xu = x as u32;
    let yu = y as u32;
    let right = (MAP_WIDTH as u32).saturating_sub(1).saturating_sub(xu);
    let top = (MAP_HEIGHT as u32).saturating_sub(1).saturating_sub(yu);
    let a = xu + yu;
    let b = right + yu;
    let c = xu + top;
    let d = right + top;
    let m1 = if a < b {
        a
    } else {
        b
    };
    let m2 = if m1 < c {
        m1
    } else {
        c
    };
    if m2 < d {
        m2
    } else {
        d
    }
}

/// Whether a 2-tile-wide piece of scenery rooted at `(x, y)` stays clear of
/// path tiles: the tile above and the tiles left and right are grass or
/// outside the area.
pub open spec fn spec_clear_for_tree(a: crate::area::AreaModel, x: int, y: int) -> bool {
    let above = y + 1 >= MAP_HEIGHT as int || spec_terrain_at(a, x, y + 1) == Some(Terrain::Grass);
    let left = x == 0 || spec_terrain_at(a, x - 1, y) == Some(Terrain::Grass);
    let right = x + 1 >= MAP_WIDTH as int || spec_terrain_at(a, x + 1, y) == Some(Terrain::Grass);
    above && left && right
}

/// Test whether large scenery rooted at `(x, y)` would overlap a path tile.
pub fn clear_for_tree(area: &Area, x: u32, y: u32) -> (r: bool)
    requires
        area.wf(),
        x < MAP_WIDTH as u32,
        y < MAP_HEIGHT as u32,
    ensures
        r == spec_clear_for_tree(area@, x as int, y as int),
{
    let above = y + 1 >= MAP_HEIGHT as u32 || is_grass(area, x, y + 1);
    let left = x == 0 || is_grass(area, x - 1, y);
    let right = x + 1 >= MAP_WIDTH as u32 || is_grass(area, x + 1, y);
    above && left && right
}

/// Test whether the tile at `(x, y)` is generated grass.
fn is_grass(area: &Area, x: u32, y: u32) -> (r: bool)
    requires
        area.wf(),
    ensures
        r == (spec_terrain_at(area@, x as int, y as int) == Some(Terrain::Grass)),
{
    match area.terrain_at(x, y) {
        Some(t) => t == Terrain::Grass,
        None => false,
    }
}

} // verus!
