//! The world map: an unbounded, lazily generated graph of areas keyed by
//! integer grid position.
//!
//! The map owns the global seed and the player's current position.  Exit
//! reciprocity is enforced at generation time: when an area is generated,
//! every direction toward an already generated neighbour is required or
//! forbidden according to that neighbour's matching exit, so any two adjacent
//! generated areas always agree on whether the edge between them is open.

use vstd::prelude::*;

use std::collections::HashMap;

use crate::area::{
    lemma_step_opposite, spec_generate, spec_grid, spec_terrain_at, Area, AreaModel, Direction,
    Pos, GRID_LEN, MAP_HEIGHT, MAP_WIDTH,
};
use crate::exits::ExitSet;
use crate::terrain::Terrain;

verus! {

broadcast use vstd::std_specs::hash::group_hash_axioms;

/// Multiplier of the global seed in per-position seed derivation (the same
/// constant as the generator's multiplier).
pub const SEED_MUL: u64 = 6364136223846793005;

/// Multiplier of the x coordinate in per-position seed derivation.
pub const SEED_X_MUL: u64 = 1442695040888963407;

/// Multiplier of the y coordinate in per-position seed derivation.
pub const SEED_Y_MUL: u64 = 2654435761;

/// An `i32` coordinate reinterpreted as its unsigned 32-bit value.
pub open spec fn spec_ux(v: i32) -> int {
    if v >= 0 {
        v as int
    } else {
        v + 0x1_0000_0000
    }
}

/// A grid position packed into one `u64` key: the unsigned reinterpretation
/// of `x` in the high 32 bits and of `y` in the low 32 bits.
pub open spec fn spec_pos_key(p: Pos) -> u64 {
    (spec_ux(p.x) * 0x1_0000_0000 + spec_ux(p.y)) as u64
}

/// The x coordinate recovered from a packed key.
pub open spec fn spec_key_x(k: u64) -> int {
    let u = (k as int) / 0x1_0000_0000;
    if u >= 0x8000_0000 {
        u - 0x1_0000_0000
    } else {
        u
    }
}

/// The y coordinate recovered from a packed key.
pub open spec fn spec_key_y(k: u64) -> int {
    let u = (k as int) % 0x1_0000_0000;
    if u >= 0x8000_0000 {
        u - 0x1_0000_0000
    } else {
        u
    }
}

/// Packing a position into a key loses nothing: both coordinates are
/// recovered exactly.
pub proof fn lemma_key_roundtrip(p: Pos)
    ensures
        spec_key_x(spec_pos_key(p)) == p.x as int,
        spec_key_y(spec_pos_key(p)) == p.y as int,
{
    let a = spec_ux(p.x);
    let b = spec_ux(p.y);
    assert(0 <= a < 0x1_0000_0000);
    assert(0 <= b < 0x1_0000_0000);
    let k = a * 0x1_0000_0000 + b;
    assert(0 <= k < 0x1_0000_0000_0000_0000) by (nonlinear_arith)
        requires
            0 <= a < 0x1_0000_0000,
            0 <= b < 0x1_0000_0000,
            k == a * 0x1_0000_0000 + b,
    ;
    assert(k / 0x1_0000_0000 == a && k % 0x1_0000_0000 == b) by (nonlinear_arith)
        requires
            0 <= a < 0x1_0000_0000,
            0 <= b < 0x1_0000_0000,
            k == a * 0x1_0000_0000 + b,
    ;
    assert(spec_pos_key(p) as int == k);
}

/// Distinct positions always pack to distinct keys.
pub proof fn lemma_key_injective(p1: Pos, p2: Pos)
    requires
        spec_pos_key(p1) == spec_pos_key(p2),
    ensures
        p1 == p2,
{
    lemma_key_roundtrip(p1);
    lemma_key_roundtrip(p2);
}

/// The mathematical content of a [`WorldMap`]: the generated areas keyed by
/// packed position, the current position, and the global seed.
pub struct WorldModel {
    pub areas: Map<u64, AreaModel>,
    pub current: Pos,
    pub seed: u64,
}

impl WorldModel {
    /// Whether the area at position `p` has been generated.
    pub open spec fn contains_pos(self, p: Pos) -> bool {
        self.areas.contains_key(spec_pos_key(p))
    }

    /// The generated area at position `p`.
    pub open spec fn area_at(self, p: Pos) -> AreaModel {
        self.areas[spec_pos_key(p)]
    }
}

/// The starting position of every world.
pub open spec fn spec_origin() -> Pos {
    Pos { x: 0, y: 0 }
}

/// Exit reciprocity at one edge of the world graph: if the areas at `p` and
/// one step away in direction `d` are both generated, the first has exit `d`
/// exactly when the second has the opposite exit.
pub open spec fn spec_recip_at(m: Map<u64, AreaModel>, p: Pos, d: Direction) -> bool {
    (m.contains_key(spec_pos_key(p)) && p.can_step(d) && m.contains_key(
        spec_pos_key(p.spec_step(d)),
    )) ==> (m[spec_pos_key(p)].exits.spec_has(d) == m[spec_pos_key(p.spec_step(d))].exits.spec_has(
        d.spec_opposite(),
    ))
}

/// Every generated area's grid is exactly the carving of its exit set.
pub open spec fn spec_areas_carved(m: Map<u64, AreaModel>) -> bool {
    forall|k: u64| #[trigger] m.contains_key(k) ==> m[k].grid == spec_grid(m[k].exits)
}

/// Well-formedness of the area graph: the origin is generated with all four
/// exits, every grid matches its exit set, and exit reciprocity holds at
/// every edge.
pub open spec fn spec_graph_wf(m: Map<u64, AreaModel>) -> bool {
    &&& m.contains_key(spec_pos_key(spec_origin()))
    &&& m[spec_pos_key(spec_origin())].exits == ExitSet::spec_all()
    &&& spec_areas_carved(m)
    &&& forall|p: Pos, d: Direction| #[trigger] spec_recip_at(m, p, d)
}

/// Lookahead depth 1 at position `p`: every exit of `p`'s area leads to an
/// already generated neighbour.
pub open spec fn spec_lookahead(m: Map<u64, AreaModel>, p: Pos) -> bool {
    forall|d: Direction|
        (m.contains_key(spec_pos_key(p)) && #[trigger] m[spec_pos_key(p)].exits.spec_has(d)
            && p.can_step(d)) ==> m.contains_key(spec_pos_key(p.spec_step(d)))
}

/// All generated areas in the world, keyed by grid position.
///
/// The origin `(0, 0)` is the starting area; positive y is north and
/// positive x is east.
pub struct WorldMap {
    /// The generated areas, keyed by the packed position.
    pub areas: HashMap<u64, Area>,
    /// The position of the area the player occupies.
    pub current: Pos,
    /// The immutable global generation seed.
    pub seed: u64,
}

impl View for WorldMap {
    type V = WorldModel;

    open spec fn view(&self) -> WorldModel {
        WorldModel {
            areas: self.areas@.map_values(|a: Area| a@),
            current: self.current,
            seed: self.seed,
        }
    }
}

impl WorldMap {
    /// Well-formedness: the graph invariants hold, the current position is
    /// generated, and its exits all lead to generated neighbours.
    pub open spec fn wf(&self) -> bool {
        &&& spec_graph_wf(self@.areas)
        &&& self@.contains_pos(self.current)
        &&& spec_lookahead(self@.areas, self.current)
    }
}

/// Reinterpret an `i32` coordinate as its unsigned 32-bit value, widened.
fn ux64(v: i32) -> (r: u64)
    ensures
        r as int == spec_ux(v),
{
    if v >= 0 {
        v as u64
    } else {
        ((v as i64) + 0x1_0000_0000i64) as u64
    }
}

/// Pack a position into its `u64` map key.
fn pos_key(p: Pos) -> (k: u64)
    ensures
        k == spec_pos_key(p),
{
    let xu = ux64(p.x);
    let yu = ux64(p.y);
    assert(xu <= 0xFFFF_FFFFu64 && yu <= 0xFFFF_FFFFu64);
    xu * 0x1_0000_0000u64 + yu
}

/// The deterministic per-position seed: the global seed and the two unsigned
/// coordinate reinterpretations, mixed by distinct odd multipliers and
/// wrapping addition.  Independent of generation order.
pub open spec fn spec_area_seed(seed: u64, p: Pos) -> u64 {
    vstd::wrapping::u64_specs::wrapping_add(
        vstd::wrapping::u64_specs::wrapping_add(
            vstd::wrapping::u64_specs::wrapping_mul(seed, SEED_MUL),
            vstd::wrapping::u64_specs::wrapping_mul(spec_ux(p.x) as u64, SEED_X_MUL),
        ),
        vstd::wrapping::u64_specs::wrapping_mul(spec_ux(p.y) as u64, SEED_Y_MUL),
    )
}

/// The neighbour one step in direction `d` from `p` exists in the graph.
pub open spec fn spec_neighbor_known(m: Map<u64, AreaModel>, p: Pos, d: Direction) -> bool {
    p.can_step(d) && m.contains_key(spec_pos_key(p.spec_step(d)))
}

/// The neighbour one step in direction `d` from `p` exists and opens its
/// exit back toward `p`.
pub open spec fn spec_neighbor_open(m: Map<u64, AreaModel>, p: Pos, d: Direction) -> bool {
    spec_neighbor_known(m, p, d) && m[spec_pos_key(p.spec_step(d))].exits.spec_has(
        d.spec_opposite(),
    )
}

/// The exits generation must open at `p`: directions whose generated
/// neighbour has the matching opposite exit.
pub open spec fn spec_required_exits(m: Map<u64, AreaModel>, p: Pos) -> ExitSet {
    ExitSet {
        north: spec_neighbor_open(m, p, Direction::North),
        east: spec_neighbor_open(m, p, Direction::East),
        south: spec_neighbor_open(m, p, Direction::South),
        west: spec_neighbor_open(m, p, Direction::West),
    }
}

/// The exits generation must keep closed at `p`: directions whose generated
/// neighbour lacks the matching opposite exit.
pub open spec fn spec_forbidden_exits(m: Map<u64, AreaModel>, p: Pos) -> ExitSet {
    ExitSet {
        north: spec_neighbor_known(m, p, Direction::North) && !spec_neighbor_open(
            m,
            p,
            Direction::North,
        ),
        east: spec_neighbor_known(m, p, Direction::East) && !spec_neighbor_open(
            m,
            p,
            Direction::East,
        ),
        south: spec_neighbor_known(m, p, Direction::South) && !spec_neighbor_open(
            m,
            p,
            Direction::South,
        ),
        west: spec_neighbor_known(m, p, Direction::West) && !spec_neighbor_open(
            m,
            p,
            Direction::West,
        ),
    }
}

/// The graph after making sure position `p` is generated: unchanged when `p`
/// already exists, otherwise extended by one area generated under the
/// neighbour-derived constraints, the per-position seed, and the current
/// area count.
pub open spec fn spec_ensure_area(m: Map<u64, AreaModel>, seed: u64, p: Pos) -> Map<
    u64,
    AreaModel,
> {
    if m.contains_key(spec_pos_key(p)) {
        m
    } else {
        let a = spec_generate(
            spec_required_exits(m, p),
            spec_forbidden_exits(m, p),
            spec_area_seed(seed, p),
            m.len() as int,
        );
        m.insert(spec_pos_key(p), a)
    }
}

impl WorldMap {
    /// Derive the deterministic seed for any grid position from the world
    /// seed.
    fn area_seed(&self, pos: Pos) -> (r: u64)
        ensures
            r == spec_area_seed(self.seed, pos),
    {
        let px = ux64(pos.x);
        let py = ux64(pos.y);
        self.seed.wrapping_mul(SEED_MUL).wrapping_add(px.wrapping_mul(SEED_X_MUL)).wrapping_add(
            py.wrapping_mul(SEED_Y_MUL),
        )
    }

    /// Record direction `d` as required or forbidden according to the
    /// neighbour one step that way, or leave both sets unchanged when no
    /// neighbour is generated there.
    fn classify_dir(&self, pos: Pos, d: Direction, required: &mut ExitSet, forbidden: &mut ExitSet)
        requires
            pos.can_step(d),
        ensures
            *final(required) == (if spec_neighbor_open(self@.areas, pos, d) {
                old(required).spec_insert(d)
            } else {
                *old(required)
            }),
            *final(forbidden) == (if spec_neighbor_known(self@.areas, pos, d)
                && !spec_neighbor_open(self@.areas, pos, d) {
                old(forbidden).spec_insert(d)
            } else {
                *old(forbidden)
            }),
    {
        let np = pos.step(d);
        let nk = pos_key(np);
        match self.areas.get(&nk) {
            Some(a) => {
                if a.exits.has(d.opposite()) {
                    required.insert(d);
                } else {
                    forbidden.insert(d);
                }
            },
            None => {
                assert(!self@.areas.contains_key(nk));
            },
        }
    }

    /// Generate the area at `pos` if it does not exist yet, classifying each
    /// direction toward an already generated neighbour as required or
    /// forbidden so that exit reciprocity is preserved.
    fn ensure_area(&mut self, pos: Pos)
        requires
            spec_graph_wf(old(self)@.areas),
            forall|d: Direction| pos.can_step(d),
        ensures
            final(self)@.areas == spec_ensure_area(old(self)@.areas, old(self).seed, pos),
            final(self).current == old(self).current,
            final(self).seed == old(self).seed,
            spec_graph_wf(final(self)@.areas),
            final(self)@.areas.contains_key(spec_pos_key(pos)),
            forall|k: u64| #[trigger]
                old(self)@.areas.contains_key(k) ==> final(self)@.areas.contains_key(k)
                    && final(self)@.areas[k] == old(self)@.areas[k],
    {
        let kp = pos_key(pos);
        if self.areas.contains_key(&kp) {
            return ;
        }
        assert(!old(self)@.areas.contains_key(spec_pos_key(pos)));

        let mut required = ExitSet::empty();
        let mut forbidden = ExitSet::empty();
        self.classify_dir(pos, Direction::North, &mut required, &mut forbidden);
        self.classify_dir(pos, Direction::East, &mut required, &mut forbidden);
        self.classify_dir(pos, Direction::South, &mut required, &mut forbidden);
        self.classify_dir(pos, Direction::West, &mut required, &mut forbidden);
        proof {
            let om = old(self)@.areas;
            assert(required == spec_required_exits(om, pos));
            assert(forbidden == spec_forbidden_exits(om, pos));
            assert(required.spec_disjoint(forbidden));
        }

        let seed_val = self.area_seed(pos);
        let area_count = self.areas.len();
        proof {
            assert(old(self)@.areas.dom() =~= old(self).areas@.dom());
        }
        let area = Area::generate(required, forbidden, seed_val, area_count);
        let _ = self.areas.insert(kp, area);

        proof {
            let om = old(self)@.areas;
            let nm = self@.areas;
            assert(nm =~= om.insert(spec_pos_key(pos), area@));

            // The new position cannot be the origin: the origin is always
            // generated, and this branch only runs for missing positions.
            if spec_pos_key(pos) == spec_pos_key(spec_origin()) {
                lemma_key_injective(pos, spec_origin());
            }

            assert forall|k2: u64| #[trigger] nm.contains_key(k2) implies nm[k2].grid == spec_grid(
                nm[k2].exits,
            ) by {
                if k2 != spec_pos_key(pos) {
                    assert(om.contains_key(k2));
                }
            }

            assert forall|p2: Pos, d: Direction| #[trigger] spec_recip_at(nm, p2, d) by {
                let kp2 = spec_pos_key(p2);
                if nm.contains_key(kp2) && p2.can_step(d) {
                    let q = p2.spec_step(d);
                    let kq = spec_pos_key(q);
                    if nm.contains_key(kq) {
                        lemma_step_opposite(p2, d);
                        if kp2 == spec_pos_key(pos) {
                            lemma_key_injective(p2, pos);
                            if kq == spec_pos_key(pos) {
                                lemma_key_injective(q, pos);
                            }
                            assert(om.contains_key(kq));
                            assert(spec_neighbor_known(om, pos, d));
                            if om[kq].exits.spec_has(d.spec_opposite()) {
                                assert(required.spec_has(d));
                                assert(area@.exits.spec_has(d));
                            } else {
                                assert(forbidden.spec_has(d));
                                assert(!area@.exits.spec_has(d));
                            }
                        } else if kq == spec_pos_key(pos) {
                            lemma_key_injective(q, pos);
                            let dd = d.spec_opposite();
                            assert(pos.can_step(dd));
                            assert(pos.spec_step(dd) == p2);
                            assert(om.contains_key(kp2));
                            assert(spec_neighbor_known(om, pos, dd));
                            assert(dd.spec_opposite() == d);
                            if om[kp2].exits.spec_has(d) {
                                assert(spec_neighbor_open(om, pos, dd));
                                assert(required.spec_has(dd));
                                assert(area@.exits.spec_has(dd));
                            } else {
                                assert(forbidden.spec_has(dd));
                                assert(!area@.exits.spec_has(dd));
                            }
                        } else {
                            assert(spec_recip_at(om, p2, d));
                            assert(om.contains_key(kp2) && om.contains_key(kq));
                        }
                    }
                }
            }
        }
    }
}

/// The graph after making sure every exit-neighbour of `p` is generated, in
/// the fixed order North, East, South, West.  Unchanged when `p` itself has
/// no area.
pub open spec fn spec_ensure_neighbors(m: Map<u64, AreaModel>, seed: u64, p: Pos) -> Map<
    u64,
    AreaModel,
> {
    if !m.contains_key(spec_pos_key(p)) {
        m
    } else {
        let ex = m[spec_pos_key(p)].exits;
        let m1 = if ex.north {
            spec_ensure_area(m, seed, p.spec_step(Direction::North))
        } else {
            m
        };
        let m2 = if ex.east {
            spec_ensure_area(m1, seed, p.spec_step(Direction::East))
        } else {
            m1
        };
        let m3 = if ex.south {
            spec_ensure_area(m2, seed, p.spec_step(Direction::South))
        } else {
            m2
        };
        if ex.west {
            spec_ensure_area(m3, seed, p.spec_step(Direction::West))
        } else {
            m3
        }
    }
}

/// The world `new` builds: the origin generated with all four exits, then
/// every neighbour of the origin.
pub open spec fn spec_new(seed: u64) -> WorldModel {
    let origin_area = spec_generate(
        ExitSet::spec_all(),
        ExitSet::spec_empty(),
        spec_area_seed(seed, spec_origin()),
        0,
    );
    let m1 = Map::<u64, AreaModel>::empty().insert(spec_pos_key(spec_origin()), origin_area);
    WorldModel {
        areas: spec_ensure_neighbors(m1, seed, spec_origin()),
        current: spec_origin(),
        seed,
    }
}

/// The world after a transition in direction `d`: the current position moves
/// one step, the area there is generated if missing, and so is every
/// neighbour its exits point at.
pub open spec fn spec_transition(w: WorldModel, d: Direction) -> WorldModel {
    let np = w.current.spec_step(d);
    let m1 = spec_ensure_area(w.areas, w.seed, np);
    let m2 = spec_ensure_neighbors(m1, w.seed, np);
    WorldModel { areas: m2, current: np, seed: w.seed }
}

impl WorldMap {
    /// Generate every area that an exit of `pos`'s area points at.
    fn ensure_neighbors(&mut self, pos: Pos)
        requires
            spec_graph_wf(old(self)@.areas),
            forall|d: Direction| pos.can_step(d),
            forall|d1: Direction, d2: Direction| pos.spec_step(d1).can_step(d2),
        ensures
            final(self)@.areas == spec_ensure_neighbors(old(self)@.areas, old(self).seed, pos),
            final(self).current == old(self).current,
            final(self).seed == old(self).seed,
            spec_graph_wf(final(self)@.areas),
            forall|k: u64| #[trigger]
                old(self)@.areas.contains_key(k) ==> final(self)@.areas.contains_key(k)
                    && final(self)@.areas[k] == old(self)@.areas[k],
            spec_lookahead(final(self)@.areas, pos),
    {
        let kp = pos_key(pos);
        let exits = match self.areas.get(&kp) {
            Some(a) => a.exits,
            None => {
                return ;
            },
        };
        assert(exits == old(self)@.areas[spec_pos_key(pos)].exits);
        if exits.north {
            self.ensure_area(pos.step(Direction::North));
        }
        assert(self@.areas == (if exits.north {
            spec_ensure_area(old(self)@.areas, self.seed, pos.spec_step(Direction::North))
        } else {
            old(self)@.areas
        }));
        if exits.east {
            self.ensure_area(pos.step(Direction::East));
        }
        if exits.south {
            self.ensure_area(pos.step(Direction::South));
        }
        if exits.west {
            self.ensure_area(pos.step(Direction::West));
        }
        proof {
            let kpos = spec_pos_key(pos);
            assert(self@.areas[kpos].exits == exits);
            assert forall|d: Direction|
                (self@.areas.contains_key(kpos) && #[trigger] self@.areas[kpos].exits.spec_has(d)
                    && pos.can_step(d)) implies self@.areas.contains_key(
                spec_pos_key(pos.spec_step(d)),
            ) by {
                match d {
                    Direction::North => {},
                    Direction::East => {},
                    Direction::South => {},
                    Direction::West => {},
                }
            }
        }
    }

    /// Create the world: the origin area with all four exits open, plus all
    /// of its direct neighbours.
    pub fn new(seed: u64) -> (w: WorldMap)
        ensures
            w@ == spec_new(seed),
            w.wf(),
            w.current == spec_origin(),
            w@.contains_pos(spec_origin()),
            w@.area_at(spec_origin()).exits == ExitSet::spec_all(),
    {
        let start = Pos { x: 0, y: 0 };
        let mut map = WorldMap { areas: HashMap::new(), current: start, seed };
        let start_seed = map.area_seed(start);
        let start_area = Area::generate(ExitSet::all(), ExitSet::empty(), start_seed, 0);
        let k0 = pos_key(start);
        let _ = map.areas.insert(k0, start_area);
        proof {
            let m1 = map@.areas;
            assert(m1 =~= Map::<u64, AreaModel>::empty().insert(
                spec_pos_key(spec_origin()),
                start_area@,
            ));
            assert(start_area@.exits == ExitSet::spec_all());
            assert forall|p2: Pos, d: Direction| #[trigger] spec_recip_at(m1, p2, d) by {
                let kp2 = spec_pos_key(p2);
                if m1.contains_key(kp2) && p2.can_step(d) && m1.contains_key(
                    spec_pos_key(p2.spec_step(d)),
                ) {
                    lemma_step_opposite(p2, d);
                    lemma_key_injective(p2, spec_origin());
                    lemma_key_injective(p2.spec_step(d), spec_origin());
                }
            }
            assert(spec_graph_wf(m1));
        }
        map.ensure_neighbors(start);
        proof {
            assert(map@ == spec_new(seed));
        }
        map
    }

    /// Borrow the area the player currently occupies; always present in a
    /// well-formed world.
    pub fn current_area(&self) -> (a: &Area)
        requires
            self.wf(),
        ensures
            a@ == self@.area_at(self@.current),
            a.wf(),
    {
        let k = pos_key(self.current);
        match self.areas.get(&k) {
            Some(a) => a,
            None => {
                proof {
                    assert(false);
                }
                vstd::pervasive::unreached()
            },
        }
    }

    /// Borrow any generated area by world-grid position; `None` when that
    /// position was never generated.
    pub fn get_area(&self, pos: Pos) -> (r: Option<&Area>)
        ensures
            match r {
                Some(a) => self@.contains_pos(pos) && a@ == self@.area_at(pos) && (self.wf()
                    ==> a.wf()),
                None => !self@.contains_pos(pos),
            },
    {
        let k = pos_key(pos);
        self.areas.get(&k)
    }

    /// Move to the area in direction `dir`, generating it and its
    /// neighbours as needed, and keeping every world invariant.
    ///
    /// The coordinate bounds keep the destination and the two-step
    /// neighbourhood it may generate representable in `i32`.
    pub fn transition(&mut self, dir: Direction)
        requires
            old(self).wf(),
            i32::MIN + 3 <= old(self).current.x <= i32::MAX - 3,
            i32::MIN + 3 <= old(self).current.y <= i32::MAX - 3,
        ensures
            final(self)@ == spec_transition(old(self)@, dir),
            final(self).wf(),
            final(self).current == old(self).current.spec_step(dir),
            final(self).seed == old(self).seed,
            forall|k: u64| #[trigger]
                old(self)@.areas.contains_key(k) ==> final(self)@.areas.contains_key(k)
                    && final(self)@.areas[k] == old(self)@.areas[k],
    {
        let new_pos = self.current.step(dir);
        self.current = new_pos;
        self.ensure_area(new_pos);
        self.ensure_neighbors(new_pos);
    }
}

/// How far a local x coordinate overshoots the area: `-1` west of it, `1`
/// east of it, `0` inside.
pub open spec fn spec_overshoot_x(lx: int) -> int {
    if lx < 0 {
        -1
    } else if lx >= MAP_WIDTH as int {
        1
    } else {
        0
    }
}

/// How far a local y coordinate overshoots the area: `-1` south of it, `1`
/// north of it, `0` inside.
pub open spec fn spec_overshoot_y(ly: int) -> int {
    if ly < 0 {
        -1
    } else if ly >= MAP_HEIGHT as int {
        1
    } else {
        0
    }
}

/// What the boundary-extended terrain lookup returns: coordinates inside the
/// area resolve directly; coordinates outside it are translated into the
/// adjacent area in the overshoot direction with the overshooting axis
/// wrapped by one area dimension.  `None` whenever the target area is not
/// generated or the translated coordinate still falls outside it.
pub open spec fn spec_terrain_extended(w: WorldModel, p: Pos, lx: int, ly: int) -> Option<
    Terrain,
> {
    if 0 <= lx < MAP_WIDTH as int && 0 <= ly < MAP_HEIGHT as int {
        if w.contains_pos(p) {
            spec_terrain_at(w.area_at(p), lx, ly)
        } else {
            None
        }
    } else {
        let dx = spec_overshoot_x(lx);
        let dy = spec_overshoot_y(ly);
        let np = Pos { x: (p.x + dx) as i32, y: (p.y + dy) as i32 };
        let nx = lx - dx * (MAP_WIDTH as int);
        let ny = ly - dy * (MAP_HEIGHT as int);
        if nx >= 0 && ny >= 0 {
            if w.contains_pos(np) {
                spec_terrain_at(w.area_at(np), nx, ny)
            } else {
                None
            }
        } else {
            None
        }
    }
}

impl WorldMap {
    /// Look up terrain at `(local_x, local_y)` relative to the area at
    /// `area_pos`.  Coordinates outside the area's bounds wrap into the
    /// adjacent area; `None` when the target area has not been generated.
    ///
    /// The conditional bounds on `area_pos` only rule out a neighbour
    /// position that would not be representable.
    pub fn terrain_at_extended(&self, area_pos: Pos, local_x: i32, local_y: i32) -> (r: Option<
        Terrain,
    >)
        requires
            self.wf(),
            local_x < 0 ==> area_pos.x > i32::MIN,
            local_x >= MAP_WIDTH as i32 ==> area_pos.x < i32::MAX,
            local_y < 0 ==> area_pos.y > i32::MIN,
            local_y >= MAP_HEIGHT as i32 ==> area_pos.y < i32::MAX,
        ensures
            r == spec_terrain_extended(self@, area_pos, local_x as int, local_y as int),
    {
        let w = MAP_WIDTH as i32;
        let h = MAP_HEIGHT as i32;

        if 0 <= local_x && local_x < w && 0 <= local_y && local_y < h {
            return match self.areas.get(&pos_key(area_pos)) {
                Some(a) => a.terrain_at(local_x as u32, local_y as u32),
                None => None,
            };
        }
        let dx: i32 = if local_x < 0 {
            -1
        } else if local_x >= w {
            1
        } else {
            0
        };
        let dy: i32 = if local_y < 0 {
            -1
        } else if local_y >= h {
            1
        } else {
            0
        };

        let neighbour_pos = Pos { x: area_pos.x + dx, y: area_pos.y + dy };
        let nx = local_x - dx * w;
        let ny = local_y - dy * h;
        if nx < 0 || ny < 0 {
            return None;
        }
        match self.areas.get(&pos_key(neighbour_pos)) {
            Some(a) => a.terrain_at(nx as u32, ny as u32),
            None => None,
        }
    }
}

/// Determinism: a world is a pure function of its seed and the sequence of
/// transitions taken, so two worlds built from the same seed by the same
/// moves are identical.  Each execution of `new` followed by `transition`
/// for every move produces exactly the view `spec_run` describes.
pub open spec fn spec_run(seed: u64, moves: Seq<Direction>) -> WorldModel
    decreases moves.len(),
{
    if moves.len() == 0 {
        spec_new(seed)
    } else {
        spec_transition(spec_run(seed, moves.drop_last()), moves.last())
    }
}

/// Repeated construction with a fixed seed and identical transition
/// sequences always produces bit-identical worlds: every visited area has
/// the same exit set and the same terrain grid in both.
pub proof fn lemma_determinism(seed: u64, moves: Seq<Direction>, w1: WorldModel, w2: WorldModel)
    requires
        w1 == spec_run(seed, moves),
        w2 == spec_run(seed, moves),
    ensures
        w1 == w2,
        w1.current == w2.current,
        forall|p: Pos| w1.contains_pos(p) <==> w2.contains_pos(p),
        forall|p: Pos|
            #![trigger w1.area_at(p)]
            w1.contains_pos(p) ==> w1.area_at(p).exits == w2.area_at(p).exits && w1.area_at(p).grid
                == w2.area_at(p).grid,
{
}

/// Exit reciprocity: any two adjacent generated areas agree on the edge
/// between them — one opens its exit toward the other exactly when the other
/// opens the opposite exit back.
pub proof fn lemma_reciprocity(w: WorldModel, p: Pos, d: Direction)
    requires
        spec_graph_wf(w.areas),
        w.contains_pos(p),
        p.can_step(d),
        w.contains_pos(p.spec_step(d)),
    ensures
        w.area_at(p).exits.spec_has(d) == w.area_at(p.spec_step(d)).exits.spec_has(
            d.spec_opposite(),
        ),
{
    assert(spec_recip_at(w.areas, p, d));
}

/// Origin openness: the area at the origin is always generated and always
/// has all four exits.
pub proof fn lemma_origin_open(w: WorldModel)
    requires
        spec_graph_wf(w.areas),
    ensures
        w.contains_pos(spec_origin()),
        w.area_at(spec_origin()).exits == ExitSet::spec_all(),
{
}

/// Grid completeness: every generated area's terrain grid has exactly
/// `MAP_WIDTH * MAP_HEIGHT` entries and is exactly the carving of the
/// area's exit set — no cell is ever unset.
pub proof fn lemma_grid_complete(w: WorldModel, p: Pos)
    requires
        spec_graph_wf(w.areas),
        w.contains_pos(p),
    ensures
        w.area_at(p).grid.len() == GRID_LEN,
        w.area_at(p).grid == spec_grid(w.area_at(p).exits),
{
    assert(w.areas.contains_key(spec_pos_key(p)));
}

/// Boundary lookup consistency: an extended lookup one tile past the east
/// edge resolves to the first column of the east neighbour when that
/// neighbour is generated, and is absent otherwise.
pub proof fn lemma_boundary_consistency(w: WorldModel, p: Pos, ly: int)
    requires
        0 <= ly < MAP_HEIGHT as int,
        p.x < i32::MAX,
    ensures
        spec_terrain_extended(w, p, MAP_WIDTH as int, ly) == (if w.contains_pos(
            Pos { x: (p.x + 1) as i32, y: p.y },
        ) {
            spec_terrain_at(w.area_at(Pos { x: (p.x + 1) as i32, y: p.y }), 0, ly)
        } else {
            None
        }),
{
}

} // verus!
