//! Areas: fixed-size rectangular sections of the world, each with a set of
//! open exits and a fully carved terrain grid, plus the grid geometry
//! primitives (cardinal directions and integer grid positions) they rest on.

use vstd::prelude::*;

use crate::exits::{pick_exits, spec_pick_exits, ExitSet};
use crate::terrain::Terrain;

verus! {

/// The four cardinal directions through which an area can connect to a
/// neighbour.
#[derive(Clone, Copy, PartialEq, Eq, Structural, Debug, Hash)]
pub enum Direction {
    North,
    East,
    South,
    West,
}

/// A position (or unit offset) on the world's integer grid of areas.
///
/// `x` grows eastward and `y` grows northward.
#[derive(Clone, Copy, PartialEq, Eq, Structural, Debug, Hash)]
pub struct Pos {
    pub x: i32,
    pub y: i32,
}

impl Direction {
    /// The direction pointing the opposite way (an involution).
    pub open spec fn spec_opposite(self) -> Direction {
        match self {
            Direction::North => Direction::South,
            Direction::South => Direction::North,
            Direction::East => Direction::West,
            Direction::West => Direction::East,
        }
    }

    /// The direction pointing the opposite way.
    pub fn opposite(self) -> (r: Direction)
        ensures
            r == self.spec_opposite(),
    {
        match self {
            Direction::North => Direction::South,
            Direction::South => Direction::North,
            Direction::East => Direction::West,
            Direction::West => Direction::East,
        }
    }

    /// Unit offset of one step in this direction.
    pub open spec fn spec_offset(self) -> Pos {
        match self {
            Direction::North => Pos { x: 0, y: 1 },
            Direction::South => Pos { x: 0, y: -1i32 },
            Direction::East => Pos { x: 1, y: 0 },
            Direction::West => Pos { x: -1i32, y: 0 },
        }
    }

    /// Unit offset of one step in this direction; North is +y, East is +x.
    pub fn grid_offset(self) -> (r: Pos)
        ensures
            r == self.spec_offset(),
    {
        match self {
            Direction::North => Pos { x: 0, y: 1 },
            Direction::South => Pos { x: 0, y: -1 },
            Direction::East => Pos { x: 1, y: 0 },
            Direction::West => Pos { x: -1, y: 0 },
        }
    }
}

impl Pos {
    /// True when one step in direction `d` stays representable in `i32`
    /// coordinates.
    pub open spec fn can_step(self, d: Direction) -> bool {
        &&& i32::MIN <= self.x + d.spec_offset().x <= i32::MAX
        &&& i32::MIN <= self.y + d.spec_offset().y <= i32::MAX
    }

    /// The neighbouring position one step away in direction `d`.
    pub open spec fn spec_step(self, d: Direction) -> Pos {
        Pos {
            x: (self.x + d.spec_offset().x) as i32,
            y: (self.y + d.spec_offset().y) as i32,
        }
    }

    /// Move one step in direction `d`.
    pub fn step(self, d: Direction) -> (r: Pos)
        requires
            self.can_step(d),
        ensures
            r == self.spec_step(d),
    {
        let o = d.grid_offset();
        Pos { x: self.x + o.x, y: self.y + o.y }
    }
}

/// Stepping away and back in the opposite direction returns to the start,
/// and a step never stays in place.
pub proof fn lemma_step_opposite(p: Pos, d: Direction)
    requires
        p.can_step(d),
    ensures
        p.spec_step(d) != p,
        p.spec_step(d).can_step(d.spec_opposite()),
        p.spec_step(d).spec_step(d.spec_opposite()) == p,
{
}

/// Width of an area's terrain grid, in tiles.
pub const MAP_WIDTH: u16 = 32;

/// Height of an area's terrain grid, in tiles.
pub const MAP_HEIGHT: u16 = 18;

/// Number of tiles in an area's grid (`MAP_WIDTH * MAP_HEIGHT`).
pub const GRID_LEN: usize = 576;

// Exit-path geometry, shared by all areas so neighbouring paths align.
/// First column of the 3-tile-wide vertical North/South path band.
pub const PATH_COL_START: u32 = 14;

/// Last column of the vertical North/South path band.
pub const PATH_COL_END: u32 = 16;

/// First row of the 3-tile-wide horizontal East/West path band
/// (`y = 0` is the bottom tile row).
pub const PATH_ROW_START: u32 = 7;

/// Last row of the horizontal East/West path band.
pub const PATH_ROW_END: u32 = 9;

/// True when the tile at `(x, y)` is carved to dirt for the given exit set:
/// the tile lies on the vertical band within the arm of an open North or
/// South exit, or on the horizontal band within the arm of an open East or
/// West exit.  Every open arm runs from the central intersection of the two
/// bands to the area's edge.
pub open spec fn spec_is_dirt(x: int, y: int, exits: ExitSet) -> bool {
    let on_vert = PATH_COL_START <= x <= PATH_COL_END;
    let on_horiz = PATH_ROW_START <= y <= PATH_ROW_END;
    ||| (on_vert && exits.north && y >= PATH_ROW_START)
    ||| (on_vert && exits.south && y <= PATH_ROW_END)
    ||| (on_horiz && exits.east && x >= PATH_COL_START)
    ||| (on_horiz && exits.west && x <= PATH_COL_END)
}

/// Decide whether the tile at `(x, y)` is carved to dirt.
fn is_dirt(x: u32, y: u32, exits: &ExitSet) -> (r: bool)
    ensures
        r == spec_is_dirt(x as int, y as int, *exits),
{
    let on_vert = PATH_COL_START <= x && x <= PATH_COL_END;
    let on_horiz = PATH_ROW_START <= y && y <= PATH_ROW_END;
    (on_vert && exits.north && y >= PATH_ROW_START) || (on_vert && exits.south && y
        <= PATH_ROW_END) || (on_horiz && exits.east && x >= PATH_COL_START) || (on_horiz
        && exits.west && x <= PATH_COL_END)
}

/// The fully carved terrain grid for an exit set, row-major with
/// `index = y * MAP_WIDTH + x` and `y = 0` the bottom row: grass everywhere
/// except the dirt cross-path arms of the open exits.
pub open spec fn spec_grid(exits: ExitSet) -> Seq<Terrain> {
    Seq::new(
        GRID_LEN as nat,
        |i: int|
            if spec_is_dirt(i % (MAP_WIDTH as int), i / (MAP_WIDTH as int), exits) {
                Terrain::Dirt
            } else {
                Terrain::Grass
            },
    )
}

/// Row-major grid indices decompose uniquely into coordinates: the cell for
/// `(x, y)` holds dirt exactly when the carving predicate says so.
pub proof fn lemma_grid_index(exits: ExitSet, x: int, y: int)
    requires
        0 <= x < MAP_WIDTH as int,
        0 <= y < MAP_HEIGHT as int,
    ensures
        0 <= y * (MAP_WIDTH as int) + x < GRID_LEN,
        spec_grid(exits)[y * (MAP_WIDTH as int) + x] == (if spec_is_dirt(x, y, exits) {
            Terrain::Dirt
        } else {
            Terrain::Grass
        }),
{
    let w = MAP_WIDTH as int;
    let i = y * w + x;
    assert(0 <= i < GRID_LEN) by (nonlinear_arith)
        requires
            0 <= x < 32,
            0 <= y < 18,
            w == 32,
            i == y * w + x,
    ;
    assert(i % w == x && i / w == y) by (nonlinear_arith)
        requires
            0 <= x < 32,
            0 <= y < 18,
            w == 32,
            i == y * w + x,
    ;
}

/// Carve the terrain grid for an exit set.
fn build_grid(exits: &ExitSet) -> (grid: Vec<Terrain>)
    ensures
        grid@ == spec_grid(*exits),
{
    let mut grid: Vec<Terrain> = Vec::new();
    let mut i: usize = 0;
    while i < GRID_LEN
        invariant
            i <= GRID_LEN,
            grid@.len() == i,
            forall|m: int| 0 <= m < i ==> grid@[m] == spec_grid(*exits)[m],
        decreases GRID_LEN - i,
    {
        let x = (i % (MAP_WIDTH as usize)) as u32;
        let y = (i / (MAP_WIDTH as usize)) as u32;
        if is_dirt(x, y, exits) {
            grid.push(Terrain::Dirt);
        } else {
            grid.push(Terrain::Grass);
        }
        i += 1;
    }
    assert(grid@ =~= spec_grid(*exits));
    grid
}

/// The mathematical content of an [`Area`]: its exit set and terrain grid.
pub struct AreaModel {
    pub exits: ExitSet,
    pub grid: Seq<Terrain>,
}

/// One fixed-size section of the world map with defined exit directions and
/// a fully populated terrain grid.  Immutable once built.
pub struct Area {
    /// The open exit directions.
    pub exits: ExitSet,
    /// Row-major grid: `index = y * MAP_WIDTH + x`; `y = 0` is the bottom
    /// tile row.  Read it through `terrain_at`; well-formed areas always
    /// satisfy `wf`.
    pub grid: Vec<Terrain>,
}

impl View for Area {
    type V = AreaModel;

    open spec fn view(&self) -> AreaModel {
        AreaModel { exits: self.exits, grid: self.grid@ }
    }
}

/// The area `generate` builds: the picked exit set and the grid carved from
/// it.
pub open spec fn spec_generate(
    required: ExitSet,
    forbidden: ExitSet,
    seed: u64,
    area_count: int,
) -> AreaModel {
    let exits = spec_pick_exits(required, forbidden, seed, area_count);
    AreaModel { exits, grid: spec_grid(exits) }
}

/// Terrain at a local tile coordinate of an area, or `None` out of bounds.
pub open spec fn spec_terrain_at(a: AreaModel, x: int, y: int) -> Option<Terrain> {
    if 0 <= x < MAP_WIDTH as int && 0 <= y < MAP_HEIGHT as int {
        Some(a.grid[y * (MAP_WIDTH as int) + x])
    } else {
        None
    }
}

impl Area {
    /// An area is well formed when its grid is exactly the carving of its
    /// exit set; in particular the grid is fully populated with
    /// `MAP_WIDTH * MAP_HEIGHT` entries.
    pub open spec fn wf(&self) -> bool {
        self.grid@ == spec_grid(self.exits)
    }

    /// Generate an area.  `required` exits are always present; `forbidden`
    /// exits (directions toward neighbours with no path back) never are;
    /// the rest are decided by the seeded density policy, keyed by
    /// `area_count`, the number of areas already in the world.
    ///
    /// Total and deterministic: the result is a pure function of the four
    /// arguments.
    pub fn generate(required: ExitSet, forbidden: ExitSet, seed: u64, area_count: usize) -> (a:
        Area)
        requires
            required.spec_disjoint(forbidden),
        ensures
            a@ == spec_generate(required, forbidden, seed, area_count as int),
            a.wf(),
            required.spec_subset_of(a.exits),
            a.exits.spec_disjoint(forbidden),
            a.exits.spec_count() == (if crate::exits::spec_optional(required, forbidden).len()
                == 0 {
                required.spec_count()
            } else {
                crate::exits::spec_target(required, forbidden, seed, area_count as int)
            }),
            required.spec_count() > 0 || crate::exits::spec_optional(required, forbidden).len() > 0
                ==> a.exits.spec_count() >= 1,
    {
        let exits = pick_exits(required, forbidden, seed, area_count);
        let grid = build_grid(&exits);
        Area { exits, grid }
    }

    /// Terrain at local tile coordinate `(x, y)`, or `None` when the
    /// coordinate lies outside the grid.
    pub fn terrain_at(&self, x: u32, y: u32) -> (r: Option<Terrain>)
        requires
            self.wf(),
        ensures
            r == spec_terrain_at(self@, x as int, y as int),
    {
        if x >= MAP_WIDTH as u32 || y >= MAP_HEIGHT as u32 {
            return None;
        }
        proof {
            lemma_grid_index(self.exits, x as int, y as int);
        }
        let idx = (y * (MAP_WIDTH as u32) + x) as usize;
        Some(self.grid[idx])
    }
}

/// Path connectivity: for every open exit, the carved arm covers its whole
/// band from the central intersection to the area's edge tiles on that side,
/// and all open arms meet at the shared central intersection tile.
pub proof fn lemma_path_connectivity(exits: ExitSet)
    ensures
        exits.north ==> forall|x: int, y: int|
            PATH_COL_START <= x <= PATH_COL_END && PATH_ROW_START <= y < MAP_HEIGHT as int
                ==> spec_is_dirt(x, y, exits),
        exits.south ==> forall|x: int, y: int|
            PATH_COL_START <= x <= PATH_COL_END && 0 <= y <= PATH_ROW_END ==> spec_is_dirt(
                x,
                y,
                exits,
            ),
        exits.east ==> forall|x: int, y: int|
            PATH_ROW_START <= y <= PATH_ROW_END && PATH_COL_START <= x < MAP_WIDTH as int
                ==> spec_is_dirt(x, y, exits),
        exits.west ==> forall|x: int, y: int|
            PATH_ROW_START <= y <= PATH_ROW_END && 0 <= x <= PATH_COL_END ==> spec_is_dirt(
                x,
                y,
                exits,
            ),
        exits != ExitSet::spec_empty() ==> spec_is_dirt(15, 8, exits),
{
    if exits != ExitSet::spec_empty() {
        assert(exits.north || exits.east || exits.south || exits.west);
    }
}

} // verus!
