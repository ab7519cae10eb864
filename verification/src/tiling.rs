//! Edge-detection autotiling across area boundaries.
//!
//! The sprite index of a tile depends on which of its four neighbours hold a
//! different terrain.  Neighbour lookups go through the boundary-extended
//! terrain query, so tiles at an area's edge consult the adjacent area and
//! exit paths meet without an artificial seam; a neighbour in an ungenerated
//! area counts as different, so edges default sensibly instead of failing.

use vstd::prelude::*;

use crate::area::{Pos, MAP_HEIGHT, MAP_WIDTH};
use crate::terrain::{spec_fill, spec_sheet_offset, Terrain};
use crate::world::{spec_terrain_extended, WorldMap, WorldModel};

verus! {

// Edge sprite indices, shared by all terrain types within their sheet rows.
/// Top-left corner edge sprite.
pub const EDGE_TL: u32 = 0;

/// Top edge sprite.
pub const EDGE_T: u32 = 1;

/// Top-right corner edge sprite.
pub const EDGE_TR: u32 = 2;

/// Left edge sprite.
pub const EDGE_L: u32 = 11;

/// Right edge sprite.
pub const EDGE_R: u32 = 13;

/// Bottom-left corner edge sprite.
pub const EDGE_BL: u32 = 22;

/// Bottom edge sprite.
pub const EDGE_B: u32 = 23;

/// Bottom-right corner edge sprite.
pub const EDGE_BR: u32 = 24;

/// Whether the tile one step `(dx, dy)` from local `(x, y)` differs from
/// terrain `t`: a different terrain, or no generated tile at all.
pub open spec fn spec_differs(w: WorldModel, p: Pos, lx: int, ly: int, t: Terrain) -> bool {
    spec_terrain_extended(w, p, lx, ly) != Some(t)
}

/// The sprite index of the tile at local `(x, y)` of the area at `p`: one of
/// the eight edge sprites picked from the four neighbour-differs bits
/// (corners take priority over straight edges, left/bottom before
/// right/top), or the terrain's hash-varied fill sprite when no edge
/// applies.
pub open spec fn spec_tile_index(w: WorldModel, p: Pos, x: u32, y: u32, t: Terrain) -> int {
    let el = spec_differs(w, p, x - 1, y as int, t);
    let er = spec_differs(w, p, x + 1, y as int, t);
    let eb = spec_differs(w, p, x as int, y - 1, t);
    let et = spec_differs(w, p, x as int, y + 1, t);
    if el && eb {
        spec_sheet_offset(t) + EDGE_BL
    } else if er && eb {
        spec_sheet_offset(t) + EDGE_BR
    } else if el && et {
        spec_sheet_offset(t) + EDGE_TL
    } else if er && et {
        spec_sheet_offset(t) + EDGE_TR
    } else if el {
        spec_sheet_offset(t) + EDGE_L
    } else if er {
        spec_sheet_offset(t) + EDGE_R
    } else if eb {
        spec_sheet_offset(t) + EDGE_B
    } else if et {
        spec_sheet_offset(t) + EDGE_T
    } else {
        spec_fill(t, x, y)
    }
}

/// Test whether the extended lookup at `(lx, ly)` differs from terrain `t`.
fn differs(world: &WorldMap, p: Pos, lx: i32, ly: i32, t: Terrain) -> (r: bool)
    requires
        world.wf(),
        lx < 0 ==> p.x > i32::MIN,
        lx >= MAP_WIDTH as i32 ==> p.x < i32::MAX,
        ly < 0 ==> p.y > i32::MIN,
        ly >= MAP_HEIGHT as i32 ==> p.y < i32::MAX,
    ensures
        r == spec_differs(world@, p, lx as int, ly as int, t),
{
    match world.terrain_at_extended(p, lx, ly) {
        Some(tt) => tt != t,
        None => true,
    }
}

/// Compute the sprite sheet index for a tile, consulting adjacent areas at
/// the area boundaries so exit paths show no artificial edge sprite.
pub fn tile_index_with_neighbors(
    world: &WorldMap,
    area_pos: Pos,
    x: u32,
    y: u32,
    terrain: Terrain,
) -> (r: u32)
    requires
        world.wf(),
        x < MAP_WIDTH as u32,
        y < MAP_HEIGHT as u32,
        i32::MIN < area_pos.x < i32::MAX,
        i32::MIN < area_pos.y < i32::MAX,
    ensures
        r as int == spec_tile_index(world@, area_pos, x, y, terrain),
{
    let lx = x as i32;
    let ly = y as i32;

    let edge_l = differs(world, area_pos, lx - 1, ly, terrain);
    let edge_r = differs(world, area_pos, lx + 1, ly, terrain);
    let edge_b = differs(world, area_pos, lx, ly - 1, terrain);
    let edge_t = differs(world, area_pos, lx, ly + 1, terrain);

    let offset = terrain.offset();
    if edge_l && edge_b {
        offset + EDGE_BL
    } else if edge_r && edge_b {
        offset + EDGE_BR
    } else if edge_l && edge_t {
        offset + EDGE_TL
    } else if edge_r && edge_t {
        offset + EDGE_TR
    } else if edge_l {
        offset + EDGE_L
    } else if edge_r {
        offset + EDGE_R
    } else if edge_b {
        offset + EDGE_B
    } else if edge_t {
        offset + EDGE_T
    } else {
        terrain.fill(x, y)
    }
}

} // verus!
