//! The sparse world representation: a finite set of unique coordinates, each
//! denoting a currently-alive cell. Insertion order is irrelevant; the
//! abstraction is the mathematical set of members.

use vstd::prelude::*;

use crate::coord::Coord;

verus! {

/// The set of currently-alive cells, abstracted as a `Set<Coord>`.
pub struct LiveSet {
    cells: Vec<Coord>,
}

impl View for LiveSet {
    type V = Set<Coord>;

    closed spec fn view(&self) -> Set<Coord> {
        self.cells@.to_set()
    }
}

impl LiveSet {
    /// A coordinate appears at most once in the backing vector, so membership
    /// of the vector and membership of the abstract set coincide and the
    /// vector's length is the set's cardinality.
    #[verifier::type_invariant]
    spec fn wf(self) -> bool {
        self.cells@.no_duplicates()
    }

    /// The empty live-set: every cell of the plane is dead.
    pub fn new() -> (s: LiveSet)
        ensures
            s@ == Set::<Coord>::empty(),
    {
        let s = LiveSet { cells: Vec::new() };
        proof {
            assert(s.cells@.to_set() =~= Set::<Coord>::empty());
        }
        s
    }

    /// Membership test: is the cell at `c` alive?
    pub fn contains(&self, c: &Coord) -> (r: bool)
        ensures
            r == self@.contains(*c),
    {
        let n = self.cells.len();
        let mut i: usize = 0;
        while i < n
            invariant
                n == self.cells.len(),
                0 <= i <= n,
                forall|j: int| 0 <= j < i ==> self.cells@[j] != *c,
            decreases n - i,
        {
            if self.cells[i].x == c.x && self.cells[i].y == c.y {
                return true;
            }
            i += 1;
        }
        false
    }

    /// How many cells are alive.
    pub fn len(&self) -> (n: usize)
        ensures
            n == self@.len(),
    {
        proof {
            use_type_invariant(self);
            self.cells@.unique_seq_to_set();
        }
        self.cells.len()
    }

    /// Marks the cell at `c` alive. Inserting an already-live cell changes
    /// nothing: insertion is idempotent.
    pub fn insert(&mut self, c: Coord)
        ensures
            final(self)@ == old(self)@.insert(c),
    {
        proof {
            use_type_invariant(&*self);
        }
        if self.contains(&c) {
            proof {
                assert(old(self)@.insert(c) =~= old(self)@);
            }
        } else {
            let mut cells: Vec<Coord> = Vec::new();
            std::mem::swap(&mut cells, &mut self.cells);
            cells.push(c);
            proof {
                old(self).cells@.lemma_push_to_set_commute(c);
            }
            self.cells = cells;
        }
    }

    /// Marks the cell at `c` dead. Removing a dead cell changes nothing.
    pub fn remove(&mut self, c: Coord)
        ensures
            final(self)@ == old(self)@.remove(c),
    {
        proof {
            use_type_invariant(&*self);
        }
        let n = self.cells.len();
        let mut i: usize = 0;
        while i < n
            invariant
                *self == *old(self),
                self.cells@.no_duplicates(),
                n == self.cells.len(),
                0 <= i <= n,
                forall|j: int| 0 <= j < i ==> self.cells@[j] != c,
            decreases n - i,
        {
            if self.cells[i].x == c.x && self.cells[i].y == c.y {
                let ghost before = self.cells@;
                let mut cells: Vec<Coord> = Vec::new();
                std::mem::swap(&mut cells, &mut self.cells);
                cells.remove(i);
                proof {
                    lemma_remove_unique_element(before, i as int);
                }
                self.cells = cells;
                return;
            }
            i += 1;
        }
        proof {
            assert(!old(self)@.contains(c));
            assert(old(self)@.remove(c) =~= old(self)@);
        }
    }

    /// Read-only access to the live cells, one entry per live coordinate.
    pub fn coords(&self) -> (r: &Vec<Coord>)
        ensures
            r@.to_set() == self@,
            r@.no_duplicates(),
    {
        proof {
            use_type_invariant(self);
        }
        &self.cells
    }
}

/// Removing the only occurrence of an element from a duplicate-free sequence
/// removes exactly that element from the induced set, and keeps the sequence
/// duplicate-free.
proof fn lemma_remove_unique_element(s: Seq<Coord>, i: int)
    requires
        s.no_duplicates(),
        0 <= i < s.len(),
    ensures
        s.remove(i).no_duplicates(),
        s.remove(i).to_set() == s.to_set().remove(s[i]),
{
    let r = s.remove(i);
    let c = s[i];
    assert forall|j1: int, j2: int| 0 <= j1 < j2 < r.len() implies r[j1] != r[j2] by {
        let k1 = if j1 < i { j1 } else { j1 + 1 };
        let k2 = if j2 < i { j2 } else { j2 + 1 };
        assert(r[j1] == s[k1] && r[j2] == s[k2]);
    }
    assert forall|x: Coord| r.to_set().contains(x) implies s.to_set().remove(c).contains(x) by {
        let j = choose|j: int| 0 <= j < r.len() && r[j] == x;
        let k = if j < i { j } else { j + 1 };
        assert(s[k] == x);
        assert(x != c);
    }
    assert forall|x: Coord| s.to_set().remove(c).contains(x) implies r.to_set().contains(x) by {
        let k = choose|k: int| 0 <= k < s.len() && s[k] == x;
        assert(k != i);
        let j = if k < i { k } else { k - 1 };
        assert(r[j] == x);
    }
    assert(r.to_set() =~= s.to_set().remove(c));
}

} // verus!
