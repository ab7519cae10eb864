//! Exit sets and the randomized exit-selection policy.
//!
//! An [`ExitSet`] records which of the four cardinal directions an area opens
//! toward.  [`pick_exits`] decides the final set from required and forbidden
//! constraints, a seed, and the number of areas already generated: a single
//! roll selects a target exit count from a density table that tightens as the
//! world grows, and a Fisher-Yates shuffle picks which optional directions
//! fill the gap between the required exits and the target.

use vstd::prelude::*;

use crate::area::Direction;
use crate::rng::{lcg, spec_lcg};

verus! {

/// A set of open exit directions (0 to 4 members, no duplicates possible).
#[derive(Clone, Copy, PartialEq, Eq, Structural, Debug)]
pub struct ExitSet {
    pub north: bool,
    pub east: bool,
    pub south: bool,
    pub west: bool,
}

impl ExitSet {
    /// Membership of direction `d`.
    pub open spec fn spec_has(self, d: Direction) -> bool {
        match d {
            Direction::North => self.north,
            Direction::East => self.east,
            Direction::South => self.south,
            Direction::West => self.west,
        }
    }

    /// The set with `d` added.
    pub open spec fn spec_insert(self, d: Direction) -> ExitSet {
        match d {
            Direction::North => ExitSet { north: true, ..self },
            Direction::East => ExitSet { east: true, ..self },
            Direction::South => ExitSet { south: true, ..self },
            Direction::West => ExitSet { west: true, ..self },
        }
    }

    /// Number of members, between 0 and 4.
    pub open spec fn spec_count(self) -> int {
        (if self.north {
            1int
        } else {
            0int
        }) + (if self.east {
            1int
        } else {
            0int
        }) + (if self.south {
            1int
        } else {
            0int
        }) + (if self.west {
            1int
        } else {
            0int
        })
    }

    /// No direction is in both sets.
    pub open spec fn spec_disjoint(self, o: ExitSet) -> bool {
        &&& !(self.north && o.north)
        &&& !(self.east && o.east)
        &&& !(self.south && o.south)
        &&& !(self.west && o.west)
    }

    /// Every member of `self` is a member of `o`.
    pub open spec fn spec_subset_of(self, o: ExitSet) -> bool {
        &&& (self.north ==> o.north)
        &&& (self.east ==> o.east)
        &&& (self.south ==> o.south)
        &&& (self.west ==> o.west)
    }

    /// The empty exit set.
    pub open spec fn spec_empty() -> ExitSet {
        ExitSet { north: false, east: false, south: false, west: false }
    }

    /// The full exit set.
    pub open spec fn spec_all() -> ExitSet {
        ExitSet { north: true, east: true, south: true, west: true }
    }

    /// The empty exit set.
    pub fn empty() -> (r: ExitSet)
        ensures
            r == ExitSet::spec_empty(),
    {
        ExitSet { north: false, east: false, south: false, west: false }
    }

    /// The set of all four directions.
    pub fn all() -> (r: ExitSet)
        ensures
            r == ExitSet::spec_all(),
    {
        ExitSet { north: true, east: true, south: true, west: true }
    }

    /// Test membership of direction `d`.
    pub fn has(&self, d: Direction) -> (r: bool)
        ensures
            r == self.spec_has(d),
    {
        match d {
            Direction::North => self.north,
            Direction::East => self.east,
            Direction::South => self.south,
            Direction::West => self.west,
        }
    }

    /// Add direction `d` to the set.
    pub fn insert(&mut self, d: Direction)
        ensures
            *final(self) == old(self).spec_insert(d),
    {
        match d {
            Direction::North => self.north = true,
            Direction::East => self.east = true,
            Direction::South => self.south = true,
            Direction::West => self.west = true,
        }
    }

    /// Number of members.
    pub fn len(&self) -> (r: usize)
        ensures
            r as int == self.spec_count(),
    {
        let mut n: usize = 0;
        if self.north {
            n += 1;
        }
        if self.east {
            n += 1;
        }
        if self.south {
            n += 1;
        }
        if self.west {
            n += 1;
        }
        n
    }
}

/// The target exit count the density table assigns to a roll in `[0, 100)`,
/// keyed by how many areas exist already.  Early tiers favour 3-4 exits so
/// the world grows fast; later tiers taper toward a single exit (a dead end)
/// so growth stops around the intended world size.
pub open spec fn spec_ideal(area_count: int, roll: int) -> int {
    if area_count < 6 {
        if roll < 5 {
            1
        } else if roll < 25 {
            2
        } else if roll < 75 {
            3
        } else {
            4
        }
    } else if area_count < 11 {
        if roll < 10 {
            1
        } else if roll < 40 {
            2
        } else if roll < 85 {
            3
        } else {
            4
        }
    } else if area_count < 15 {
        if roll < 20 {
            1
        } else if roll < 60 {
            2
        } else if roll < 95 {
            3
        } else {
            4
        }
    } else if area_count < 18 {
        if roll < 50 {
            1
        } else if roll < 90 {
            2
        } else {
            3
        }
    } else if area_count < 21 {
        if roll < 75 {
            1
        } else {
            2
        }
    } else {
        if roll < 95 {
            1
        } else {
            2
        }
    }
}

/// Evaluate the density table.
fn ideal_exit_count(area_count: usize, roll: u64) -> (r: usize)
    requires
        roll < 100,
    ensures
        r as int == spec_ideal(area_count as int, roll as int),
        1 <= r <= 4,
{
    if area_count < 6 {
        if roll < 5 {
            1
        } else if roll < 25 {
            2
        } else if roll < 75 {
            3
        } else {
            4
        }
    } else if area_count < 11 {
        if roll < 10 {
            1
        } else if roll < 40 {
            2
        } else if roll < 85 {
            3
        } else {
            4
        }
    } else if area_count < 15 {
        if roll < 20 {
            1
        } else if roll < 60 {
            2
        } else if roll < 95 {
            3
        } else {
            4
        }
    } else if area_count < 18 {
        if roll < 50 {
            1
        } else if roll < 90 {
            2
        } else {
            3
        }
    } else if area_count < 21 {
        if roll < 75 {
            1
        } else {
            2
        }
    } else {
        if roll < 95 {
            1
        } else {
            2
        }
    }
}

/// Rolls below this threshold select a target of exactly one exit.
pub open spec fn spec_one_exit_threshold(area_count: int) -> int {
    if area_count < 6 {
        5
    } else if area_count < 11 {
        10
    } else if area_count < 15 {
        20
    } else if area_count < 18 {
        50
    } else if area_count < 21 {
        75
    } else {
        95
    }
}

/// The density table assigns a target of one exit exactly to the rolls below
/// the tier's one-exit threshold, and every target lies between 1 and 4.
pub proof fn lemma_ideal_one_iff(area_count: int, roll: int)
    requires
        0 <= roll < 100,
    ensures
        spec_ideal(area_count, roll) == 1 <==> roll < spec_one_exit_threshold(area_count),
        1 <= spec_ideal(area_count, roll) <= 4,
{
}

/// The probability mass the density table assigns to "one exit" never
/// decreases as the number of generated areas grows: any roll that selects a
/// dead end at some world size still selects one at every larger size.  This
/// is what bounds the eventual size of the world.
pub proof fn lemma_density_monotone(c1: int, c2: int, roll: int)
    requires
        c1 <= c2,
        0 <= roll < 100,
    ensures
        spec_one_exit_threshold(c1) <= spec_one_exit_threshold(c2),
        spec_ideal(c1, roll) == 1 ==> spec_ideal(c2, roll) == 1,
{
}

/// The optional directions: all four minus the required and forbidden ones,
/// in the fixed scan order North, East, South, West.
#[verifier::opaque]
pub open spec fn spec_optional(required: ExitSet, forbidden: ExitSet) -> Seq<Direction> {
    (if !required.north && !forbidden.north {
        seq![Direction::North]
    } else {
        Seq::empty()
    }) + (if !required.east && !forbidden.east {
        seq![Direction::East]
    } else {
        Seq::empty()
    }) + (if !required.south && !forbidden.south {
        seq![Direction::South]
    } else {
        Seq::empty()
    }) + (if !required.west && !forbidden.west {
        seq![Direction::West]
    } else {
        Seq::empty()
    })
}

/// Swap the entries at `i` and `j`.
pub open spec fn spec_swap(s: Seq<Direction>, i: int, j: int) -> Seq<Direction> {
    s.update(i, s[j]).update(j, s[i])
}

/// One backward pass of the Fisher-Yates shuffle, from index `i` down to 1,
/// drawing one bounded value from the generator per swap.  Returns the
/// permuted sequence and the final generator state.
pub open spec fn spec_shuffle(s: Seq<Direction>, rng: u64, i: nat) -> (Seq<Direction>, u64)
    decreases i,
{
    if i == 0 {
        (s, rng)
    } else {
        let r2 = spec_lcg(rng);
        let j = (r2 % ((i + 1) as u64)) as int;
        spec_shuffle(spec_swap(s, i as int, j), r2, (i - 1) as nat)
    }
}

/// Add the first `n` entries of `s` to the set `e`.
pub open spec fn spec_add_prefix(e: ExitSet, s: Seq<Direction>, n: nat) -> ExitSet
    decreases n,
{
    if n == 0 {
        e
    } else {
        spec_add_prefix(e, s, (n - 1) as nat).spec_insert(s[n - 1])
    }
}

/// The exit-count target: the density table's pick, clamped between the
/// number of required exits and the number of exits available at all.
pub open spec fn spec_target(
    required: ExitSet,
    forbidden: ExitSet,
    seed: u64,
    area_count: int,
) -> int {
    let roll = spec_lcg(seed) % 100;
    let ideal = spec_ideal(area_count, roll as int);
    let lo = required.spec_count();
    let hi = lo + spec_optional(required, forbidden).len();
    if ideal < lo {
        lo
    } else if ideal > hi {
        hi
    } else {
        ideal
    }
}

/// The exit set `pick_exits` returns: the required set when nothing is
/// optional, otherwise the required set plus the first `target - required`
/// entries of the shuffled optional list.
pub open spec fn spec_pick_exits(
    required: ExitSet,
    forbidden: ExitSet,
    seed: u64,
    area_count: int,
) -> ExitSet {
    let opt = spec_optional(required, forbidden);
    if opt.len() == 0 {
        required
    } else {
        let rng1 = spec_lcg(seed);
        let shuffled = spec_shuffle(opt, rng1, (opt.len() - 1) as nat).0;
        let n_add = spec_target(required, forbidden, seed, area_count) - required.spec_count();
        spec_add_prefix(required, shuffled, n_add as nat)
    }
}

/// Decide the final exit set of an area.
///
/// Keeps every `required` exit, never opens a `forbidden` one, and opens
/// optional directions chosen by a seeded roll against the density table and
/// a Fisher-Yates shuffle.  Deterministic: the result is a pure function of
/// the four arguments.  The final count meets the density target clamped to
/// what the constraints allow, so at least one exit opens whenever an exit is
/// required or any direction is free.
pub fn pick_exits(required: ExitSet, forbidden: ExitSet, seed: u64, area_count: usize) -> (r:
    ExitSet)
    requires
        required.spec_disjoint(forbidden),
    ensures
        r == spec_pick_exits(required, forbidden, seed, area_count as int),
        required.spec_subset_of(r),
        r.spec_disjoint(forbidden),
        r.spec_count() == (if spec_optional(required, forbidden).len() == 0 {
            required.spec_count()
        } else {
            spec_target(required, forbidden, seed, area_count as int)
        }),
        required.spec_count() > 0 || spec_optional(required, forbidden).len() > 0
            ==> r.spec_count() >= 1,
{
    proof {
        reveal(spec_optional);
    }
    let mut optional: Vec<Direction> = Vec::new();
    if !required.has(Direction::North) && !forbidden.has(Direction::North) {
        optional.push(Direction::North);
    }
    if !required.has(Direction::East) && !forbidden.has(Direction::East) {
        optional.push(Direction::East);
    }
    if !required.has(Direction::South) && !forbidden.has(Direction::South) {
        optional.push(Direction::South);
    }
    if !required.has(Direction::West) && !forbidden.has(Direction::West) {
        optional.push(Direction::West);
    }
    assert(optional@ =~= spec_optional(required, forbidden));
    assert(forall|a: int, b: int|
        0 <= a < optional@.len() && 0 <= b < optional@.len() && a != b ==> optional@[a]
            != optional@[b]);
    assert(forall|k: int|
        0 <= k < optional@.len() ==> !required.spec_has(#[trigger] optional@[k])
            && !forbidden.spec_has(optional@[k]));

    if optional.len() == 0 {
        return required;
    }

    let mut rng = lcg(seed);
    let roll = rng % 100;
    let ideal = ideal_exit_count(area_count, roll);
    let req_len = required.len();
    let hi = req_len + optional.len();
    let target = if ideal < req_len {
        req_len
    } else if ideal > hi {
        hi
    } else {
        ideal
    };
    let n_to_add = target - req_len;
    assert(target as int == spec_target(required, forbidden, seed, area_count as int));

    let mut shuffled = optional;
    let ghost opt0 = shuffled@;
    let ghost rng1 = rng;
    let mut i = shuffled.len() - 1;
    while i >= 1
        invariant
            i < shuffled.len(),
            shuffled.len() == opt0.len(),
            opt0.len() <= 4,
            spec_shuffle(shuffled@, rng, i as nat) == spec_shuffle(opt0, rng1, (opt0.len()
                - 1) as nat),
            forall|a: int, b: int|
                0 <= a < shuffled@.len() && 0 <= b < shuffled@.len() && a != b ==> shuffled@[a]
                    != shuffled@[b],
            forall|k: int|
                0 <= k < shuffled@.len() ==> !required.spec_has(#[trigger] shuffled@[k])
                    && !forbidden.spec_has(shuffled@[k]),
        decreases i,
    {
        rng = lcg(rng);
        let j = (rng % ((i + 1) as u64)) as usize;
        assert(j <= i) by {
            assert(rng % ((i + 1) as u64) < (i + 1) as u64);
        }
        let ghost before = shuffled@;
        let vi = shuffled[i];
        let vj = shuffled[j];
        shuffled.set(i, vj);
        shuffled.set(j, vi);
        assert(shuffled@ == spec_swap(before, i as int, j as int));
        i -= 1;
    }
    assert(shuffled@ == spec_shuffle(opt0, rng1, (opt0.len() - 1) as nat).0);

    let mut result = required;
    let mut k: usize = 0;
    while k < n_to_add
        invariant
            k <= n_to_add,
            n_to_add <= shuffled.len(),
            result == spec_add_prefix(required, shuffled@, k as nat),
            shuffled@ == spec_shuffle(opt0, rng1, (opt0.len() - 1) as nat).0,
            required.spec_subset_of(result),
            result.spec_disjoint(forbidden),
            result.spec_count() == required.spec_count() + k,
            forall|j: int|
                k <= j < shuffled@.len() ==> !result.spec_has(#[trigger] shuffled@[j]),
            forall|a: int, b: int|
                0 <= a < shuffled@.len() && 0 <= b < shuffled@.len() && a != b ==> shuffled@[a]
                    != shuffled@[b],
            forall|j: int|
                0 <= j < shuffled@.len() ==> !forbidden.spec_has(#[trigger] shuffled@[j]),
        decreases n_to_add - k,
    {
        let d = shuffled[k];
        result.insert(d);
        k += 1;
    }
    result
}

} // verus!
