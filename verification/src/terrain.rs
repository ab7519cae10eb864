//! Terrain classification and the deterministic tile hash.
//!
//! Every tile of an area is one of two terrain types.  Each terrain owns a
//! disjoint offset into the shared sprite sheet, and a family of "fill"
//! sprites picked by a stateless hash of the tile coordinate, so repeated
//! queries for the same tile always agree.

use vstd::prelude::*;

verus! {

/// Columns per row in the combined terrain sprite sheet.
pub const SHEET_COLS: u32 = 11;

/// Dirt tiles start at this row of the combined sheet (grass rows 0-6, dirt
/// rows 7-13).
pub const DIRT_OFFSET: u32 = 7 * SHEET_COLS;

/// Terrain types that can appear in an area's tile grid.
#[derive(Clone, Copy, PartialEq, Eq, Structural, Debug)]
pub enum Terrain {
    Grass,
    Dirt,
}

/// The mixed 32-bit state of the tile hash: multiply-add then two
/// xor-shift-multiply rounds, all wrapping.
pub open spec fn spec_tile_hash(x: u32, y: u32, salt: u32) -> u32 {
    let h0 = vstd::wrapping::u32_specs::wrapping_add(
        vstd::wrapping::u32_specs::wrapping_add(
            vstd::wrapping::u32_specs::wrapping_mul(x, 374761393),
            vstd::wrapping::u32_specs::wrapping_mul(y, 668265263),
        ),
        salt,
    );
    let h1 = vstd::wrapping::u32_specs::wrapping_mul(h0 ^ (h0 >> 13u32), 1274126177);
    h1 ^ (h1 >> 16u32)
}

/// Deterministic hash of a tile coordinate and a salt, for sprite variation
/// and scenery density decisions.
///
/// Purely a function of its three inputs: querying the same tile repeatedly
/// always returns the same value.
pub fn tile_hash(x: u32, y: u32, salt: u32) -> (r: usize)
    ensures
        r == spec_tile_hash(x, y, salt) as usize,
{
    let mut h: u32 = x.wrapping_mul(374761393).wrapping_add(y.wrapping_mul(668265263)).wrapping_add(
        salt,
    );
    h = (h ^ (h >> 13u32)).wrapping_mul(1274126177);
    h = h ^ (h >> 16u32);
    h as usize
}

/// The grass fill-sprite table, indexed by `i`.
pub open spec fn spec_grass_fill(i: int) -> u32 {
    if i == 0 {
        55
    } else if i == 1 {
        56
    } else if i == 2 {
        57
    } else if i == 3 {
        58
    } else if i == 4 {
        59
    } else if i == 5 {
        60
    } else if i == 6 {
        66
    } else if i == 7 {
        67
    } else if i == 8 {
        68
    } else if i == 9 {
        69
    } else if i == 10 {
        70
    } else {
        71
    }
}

/// The dirt fill-sprite table, indexed by `i`.
pub open spec fn spec_dirt_fill(i: int) -> u32 {
    if i == 0 {
        55
    } else if i == 1 {
        56
    } else if i == 2 {
        57
    } else if i == 3 {
        66
    } else if i == 4 {
        67
    } else {
        68
    }
}

/// The sprite index `fill` returns: the terrain's sheet offset plus a
/// hash-selected entry of its fill table.
pub open spec fn spec_fill(t: Terrain, x: u32, y: u32) -> int {
    match t {
        Terrain::Grass => spec_grass_fill(spec_tile_hash(x, y, 0) as int % 12) as int,
        Terrain::Dirt => DIRT_OFFSET + spec_dirt_fill(spec_tile_hash(x, y, 7) as int % 6),
    }
}

/// Base offset of each terrain's rows in the combined sprite sheet; the
/// offsets are disjoint, so edge and fill indices never collide across
/// terrain types.
pub open spec fn spec_sheet_offset(t: Terrain) -> u32 {
    match t {
        Terrain::Grass => 0,
        Terrain::Dirt => DIRT_OFFSET,
    }
}

impl Terrain {
    /// Base offset into the combined sprite sheet for this terrain.
    pub fn offset(self) -> (r: u32)
        ensures
            r == spec_sheet_offset(self),
    {
        match self {
            Terrain::Grass => 0,
            Terrain::Dirt => DIRT_OFFSET,
        }
    }

    /// A fill sprite for a featureless tile of this terrain, varied by the
    /// tile hash of the coordinate.
    pub fn fill(self, x: u32, y: u32) -> (r: u32)
        ensures
            r == spec_fill(self, x, y),
    {
        match self {
            Terrain::Grass => grass_fill_entry(tile_hash(x, y, 0) % 12),
            Terrain::Dirt => DIRT_OFFSET + dirt_fill_entry(tile_hash(x, y, 7) % 6),
        }
    }
}

/// Look up the grass fill table.
fn grass_fill_entry(i: usize) -> (r: u32)
    requires
        i < 12,
    ensures
        r == spec_grass_fill(i as int),
{
    if i == 0 {
        55
    } else if i == 1 {
        56
    } else if i == 2 {
        57
    } else if i == 3 {
        58
    } else if i == 4 {
        59
    } else if i == 5 {
        60
    } else if i == 6 {
        66
    } else if i == 7 {
        67
    } else if i == 8 {
        68
    } else if i == 9 {
        69
    } else if i == 10 {
        70
    } else {
        71
    }
}

/// Look up the dirt fill table.
fn dirt_fill_entry(i: usize) -> (r: u32)
    requires
        i < 6,
    ensures
        r == spec_dirt_fill(i as int),
{
    if i == 0 {
        55
    } else if i == 1 {
        56
    } else if i == 2 {
        57
    } else if i == 3 {
        66
    } else if i == 4 {
        67
    } else {
        68
    }
}

} // verus!
