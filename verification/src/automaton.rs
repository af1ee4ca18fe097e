//! The automaton step: computing the next generation of a live-set under
//! Conway's rule. A cell is alive in the next generation exactly when it has
//! three live Moore neighbors, or two live Moore neighbors and is itself
//! alive — evaluated simultaneously against the current generation.
//!
//! The update is evaluated sparsely: only coordinates that are live or
//! adjacent to a live cell are tested, which misses no transition because a
//! cell with two or more live neighbors is always adjacent to a live cell.

use vstd::prelude::*;

use crate::coord::{lemma_neighborhood_distinct, lemma_neighborhood_symmetric, moore_neighborhood,
    Coord};
use crate::live_set::LiveSet;

verus! {

/// A membership test as a 0/1 summand.
pub open spec fn count_if(b: bool) -> int {
    if b {
        1
    } else {
        0
    }
}

/// The number of members of `s` among the first `i` entries of `nbrs`.
pub open spec fn live_count_prefix(s: Set<Coord>, nbrs: Seq<Coord>, i: int) -> int
    decreases i,
{
    if i <= 0 {
        0
    } else {
        live_count_prefix(s, nbrs, i - 1) + count_if(s.contains(nbrs[i - 1]))
    }
}

/// The number of live Moore neighbors of `c` in the generation `s`.
pub open spec fn live_neighbor_count(s: Set<Coord>, c: Coord) -> int {
    live_count_prefix(s, moore_neighborhood(c), 8)
}

/// Conway's rule: `c` is alive in the generation after `s` exactly when it
/// has three live neighbors, or two live neighbors and is alive in `s`.
pub open spec fn spec_should_live(s: Set<Coord>, c: Coord) -> bool {
    live_neighbor_count(s, c) == 3 || (live_neighbor_count(s, c) == 2 && s.contains(c))
}

/// The next generation of `s`: the synchronous update of the whole plane.
pub open spec fn spec_step(s: Set<Coord>) -> Set<Coord> {
    Set::new(|c: Coord| spec_should_live(s, c))
}

/// `c` is reached by the sparse enumeration when `d` is visited: it is `d`
/// itself or one of `d`'s Moore neighbors.
pub open spec fn covered_by(c: Coord, d: Coord) -> bool {
    c == d || moore_neighborhood(d).contains(c)
}

/// A prefix of neighbor positions none of which is live contributes nothing
/// to the count.
proof fn lemma_count_prefix_zero(s: Set<Coord>, nbrs: Seq<Coord>, i: int)
    requires
        forall|j: int| 0 <= j < i ==> !s.contains(nbrs[j]),
    ensures
        live_count_prefix(s, nbrs, i) == 0,
    decreases i,
{
    if i > 0 {
        lemma_count_prefix_zero(s, nbrs, i - 1);
    }
}

/// A positive count names a live neighbor position.
proof fn lemma_count_prefix_positive(s: Set<Coord>, nbrs: Seq<Coord>, i: int)
    requires
        live_count_prefix(s, nbrs, i) > 0,
        0 <= i,
    ensures
        exists|j: int| 0 <= j < i && s.contains(nbrs[j]),
    decreases i,
{
    if i > 0 {
        if s.contains(nbrs[i - 1]) {
            assert(0 <= i - 1 < i && s.contains(nbrs[i - 1]));
        } else {
            lemma_count_prefix_positive(s, nbrs, i - 1);
        }
    }
}

/// Among pairwise distinct positions, a single live cell is counted at most
/// once.
proof fn lemma_count_prefix_singleton(c0: Coord, nbrs: Seq<Coord>, i: int)
    requires
        nbrs.no_duplicates(),
        0 <= i <= nbrs.len(),
    ensures
        live_count_prefix(set![c0], nbrs, i) <= 1,
    decreases i,
{
    let s = set![c0];
    if i > 0 {
        lemma_count_prefix_singleton(c0, nbrs, i - 1);
        if s.contains(nbrs[i - 1]) {
            assert forall|j: int| 0 <= j < i - 1 implies !s.contains(nbrs[j]) by {
                assert(nbrs[j] != nbrs[i - 1]);
            }
            lemma_count_prefix_zero(s, nbrs, i - 1);
        }
    }
}

/// Sparseness of the update: a cell of the next generation is either alive
/// now, or the Moore neighbor of a cell that is alive now. This is why
/// testing only live cells and their neighbors misses no transition.
pub proof fn lemma_next_generation_is_near_a_live_cell(s: Set<Coord>, c: Coord)
    requires
        spec_should_live(s, c),
    ensures
        s.contains(c) || exists|d: Coord| s.contains(d) && moore_neighborhood(d).contains(c),
{
    if !s.contains(c) {
        let nbrs = moore_neighborhood(c);
        lemma_count_prefix_positive(s, nbrs, 8);
        let j = choose|j: int| 0 <= j < 8 && s.contains(nbrs[j]);
        let d = nbrs[j];
        assert(nbrs.contains(d));
        lemma_neighborhood_symmetric(c, d);
        assert(s.contains(d) && moore_neighborhood(d).contains(c));
    }
}

/// The empty live-set is a fixed point of the step function: stepping it once
/// or any number of times yields the empty set again.
pub proof fn lemma_step_empty_fixed_point()
    ensures
        spec_step(Set::<Coord>::empty()) == Set::<Coord>::empty(),
        spec_step(spec_step(Set::<Coord>::empty())) == Set::<Coord>::empty(),
{
    let e = Set::<Coord>::empty();
    assert forall|c: Coord| !spec_step(e).contains(c) by {
        lemma_count_prefix_zero(e, moore_neighborhood(c), 8);
    }
    assert(spec_step(e) =~= e);
}

/// A single isolated live cell always dies: it has no live neighbors, and no
/// other cell has more than the one live neighbor.
pub proof fn lemma_isolated_cell_dies(c0: Coord)
    ensures
        spec_step(set![c0]) == Set::<Coord>::empty(),
{
    let s = set![c0];
    assert forall|c: Coord| !spec_step(s).contains(c) by {
        lemma_neighborhood_distinct(c);
        lemma_count_prefix_singleton(c0, moore_neighborhood(c), 8);
    }
    assert(spec_step(s) =~= Set::<Coord>::empty());
}

/// Counts how many of the eight Moore neighbors of `coord` are alive in
/// `cells`.
pub fn neighbor_count(cells: &LiveSet, coord: &Coord) -> (n: u8)
    ensures
        n as int == live_neighbor_count(cells@, *coord),
{
    let nbrs = coord.neighbors();
    let mut count: u8 = 0;
    let mut k: usize = 0;
    while k < 8
        invariant
            nbrs@ == moore_neighborhood(*coord),
            nbrs@.len() == 8,
            0 <= k <= 8,
            count as int == live_count_prefix(cells@, nbrs@, k as int),
            count as int <= k as int,
        decreases 8 - k,
    {
        if cells.contains(&nbrs[k]) {
            count += 1;
        }
        k += 1;
    }
    count
}

/// Decides Conway's rule for one coordinate against the current generation.
pub fn should_live(cells: &LiveSet, coord: &Coord) -> (r: bool)
    ensures
        r == spec_should_live(cells@, *coord),
{
    match neighbor_count(cells, coord) {
        2 => cells.contains(coord),
        3 => true,
        _ => false,
    }
}

/// Computes the next generation from the current one. The current set is
/// only read; the result is built fresh, so the update is synchronous: every
/// decision is made against the old generation.
pub fn step(cells: &LiveSet) -> (next: LiveSet)
    ensures
        next@ == spec_step(cells@),
{
    let cur = cells.coords();
    let n = cur.len();
    let mut next = LiveSet::new();
    let mut i: usize = 0;
    while i < n
        invariant
            cur@.to_set() == cells@,
            n == cur@.len(),
            0 <= i <= n,
            forall|c: Coord| next@.contains(c) ==> spec_step(cells@).contains(c),
            forall|j: int, c: Coord|
                0 <= j < i && spec_should_live(cells@, c) && #[trigger] covered_by(c, cur@[j])
                    ==> next@.contains(c),
        decreases n - i,
    {
        let cell = cur[i];
        if should_live(cells, &cell) {
            next.insert(cell);
        }
        let nbrs = cell.neighbors();
        let mut k: usize = 0;
        while k < 8
            invariant
                cur@.to_set() == cells@,
                n == cur@.len(),
                0 <= i < n,
                cell == cur@[i as int],
                nbrs@ == moore_neighborhood(cell),
                nbrs@.len() == 8,
                0 <= k <= 8,
                forall|c: Coord| next@.contains(c) ==> spec_step(cells@).contains(c),
                forall|j: int, c: Coord|
                    0 <= j < i && spec_should_live(cells@, c) && #[trigger] covered_by(c, cur@[j])
                        ==> next@.contains(c),
                spec_should_live(cells@, cell) ==> next@.contains(cell),
                forall|m: int|
                    0 <= m < k && spec_should_live(cells@, nbrs@[m]) ==> next@.contains(nbrs@[m]),
            decreases 8 - k,
        {
            let nbr = nbrs[k];
            if should_live(cells, &nbr) {
                next.insert(nbr);
            }
            k += 1;
        }
        proof {
            assert forall|c: Coord|
                spec_should_live(cells@, c) && #[trigger] covered_by(c, cur@[i as int])
                implies next@.contains(c) by {
                if c != cell {
                    let m = choose|m: int| 0 <= m < 8 && moore_neighborhood(cell)[m] == c;
                    assert(nbrs@[m] == c);
                }
            }
        }
        i += 1;
    }
    proof {
        assert forall|c: Coord| spec_step(cells@).contains(c) implies next@.contains(c) by {
            lemma_next_generation_is_near_a_live_cell(cells@, c);
            if cells@.contains(c) {
                let j = choose|j: int| 0 <= j < cur@.len() && cur@[j] == c;
                assert(covered_by(c, cur@[j]));
            } else {
                let d = choose|d: Coord|
                    cells@.contains(d) && moore_neighborhood(d).contains(c);
                let j = choose|j: int| 0 <= j < cur@.len() && cur@[j] == d;
                assert(covered_by(c, cur@[j]));
            }
        }
        assert(next@ =~= spec_step(cells@));
    }
    next
}

} // verus!
