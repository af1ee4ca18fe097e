//! An immutable 2D integer point together with its Moore neighborhood: the
//! eight cells horizontally, vertically and diagonally adjacent to it.
//!
//! Neighbor positions are computed with wrap-around increments so that the
//! enumeration is total for every coordinate, including the extremes of the
//! `i32` range; wrap-around at those extremes is an accepted boundary
//! limitation of the unbounded world.

use vstd::prelude::*;

verus! {

/// A cell position on the logically infinite plane.
#[derive(Clone, Copy, PartialEq, Eq, Structural, Hash, Debug)]
pub struct Coord {
    pub x: i32,
    pub y: i32,
}

/// The successor of `v` on the wrapped `i32` number line.
pub open spec fn wrap_inc(v: i32) -> i32 {
    if v == i32::MAX {
        i32::MIN
    } else {
        (v + 1) as i32
    }
}

/// The predecessor of `v` on the wrapped `i32` number line.
pub open spec fn wrap_dec(v: i32) -> i32 {
    if v == i32::MIN {
        i32::MAX
    } else {
        (v - 1) as i32
    }
}

/// The eight Moore neighbors of `c`, in the order the enumeration yields them.
/// The automaton never relies on this order, only on membership.
pub open spec fn moore_neighborhood(c: Coord) -> Seq<Coord> {
    seq![
        Coord { x: c.x, y: wrap_inc(c.y) },
        Coord { x: c.x, y: wrap_dec(c.y) },
        Coord { x: wrap_inc(c.x), y: c.y },
        Coord { x: wrap_inc(c.x), y: wrap_inc(c.y) },
        Coord { x: wrap_inc(c.x), y: wrap_dec(c.y) },
        Coord { x: wrap_dec(c.x), y: c.y },
        Coord { x: wrap_dec(c.x), y: wrap_inc(c.y) },
        Coord { x: wrap_dec(c.x), y: wrap_dec(c.y) },
    ]
}

/// The Moore neighborhood is symmetric: `c` is a neighbor of `d` exactly when
/// `d` is a neighbor of `c`.
pub proof fn lemma_neighborhood_symmetric(c: Coord, d: Coord)
    ensures
        moore_neighborhood(c).contains(d) <==> moore_neighborhood(d).contains(c),
{
    if moore_neighborhood(c).contains(d) {
        let i = choose|i: int| 0 <= i < 8 && moore_neighborhood(c)[i] == d;
        let back = moore_neighborhood(d);
        if i == 0 {
            assert(back[1] == c);
        } else if i == 1 {
            assert(back[0] == c);
        } else if i == 2 {
            assert(back[5] == c);
        } else if i == 3 {
            assert(back[7] == c);
        } else if i == 4 {
            assert(back[6] == c);
        } else if i == 5 {
            assert(back[2] == c);
        } else if i == 6 {
            assert(back[4] == c);
        } else {
            assert(back[3] == c);
        }
    }
    if moore_neighborhood(d).contains(c) {
        let i = choose|i: int| 0 <= i < 8 && moore_neighborhood(d)[i] == c;
        let back = moore_neighborhood(c);
        if i == 0 {
            assert(back[1] == d);
        } else if i == 1 {
            assert(back[0] == d);
        } else if i == 2 {
            assert(back[5] == d);
        } else if i == 3 {
            assert(back[7] == d);
        } else if i == 4 {
            assert(back[6] == d);
        } else if i == 5 {
            assert(back[2] == d);
        } else if i == 6 {
            assert(back[4] == d);
        } else {
            assert(back[3] == d);
        }
    }
}

/// The eight neighbor positions are pairwise distinct and none of them is the
/// center cell, also at the extremes of the coordinate range.
pub proof fn lemma_neighborhood_distinct(c: Coord)
    ensures
        moore_neighborhood(c).no_duplicates(),
        forall|i: int| 0 <= i < 8 ==> moore_neighborhood(c)[i] != c,
{
}

/// Wrap-around successor, total over all of `i32`.
fn wrapping_inc(v: i32) -> (r: i32)
    ensures
        r == wrap_inc(v),
{
    if v == i32::MAX {
        i32::MIN
    } else {
        v + 1
    }
}

/// Wrap-around predecessor, total over all of `i32`.
fn wrapping_dec(v: i32) -> (r: i32)
    ensures
        r == wrap_dec(v),
{
    if v == i32::MIN {
        i32::MAX
    } else {
        v - 1
    }
}

impl Coord {
    /// Builds the point `(x, y)`.
    pub fn new(x: i32, y: i32) -> (c: Coord)
        ensures
            c == (Coord { x, y }),
    {
        Coord { x, y }
    }

    /// Enumerates the Moore neighborhood of `self`: exactly eight pairwise
    /// distinct coordinates, none of them equal to `self`.
    pub fn neighbors(&self) -> (r: Vec<Coord>)
        ensures
            r@ == moore_neighborhood(*self),
            r@.len() == 8,
            r@.no_duplicates(),
            forall|i: int| 0 <= i < r@.len() ==> r@[i] != *self,
    {
        let mut coords: Vec<Coord> = Vec::new();
        coords.push(Coord::new(self.x, wrapping_inc(self.y)));
        coords.push(Coord::new(self.x, wrapping_dec(self.y)));
        coords.push(Coord::new(wrapping_inc(self.x), self.y));
        coords.push(Coord::new(wrapping_inc(self.x), wrapping_inc(self.y)));
        coords.push(Coord::new(wrapping_inc(self.x), wrapping_dec(self.y)));
        coords.push(Coord::new(wrapping_dec(self.x), self.y));
        coords.push(Coord::new(wrapping_dec(self.x), wrapping_inc(self.y)));
        coords.push(Coord::new(wrapping_dec(self.x), wrapping_dec(self.y)));
        assert(coords@ =~= moore_neighborhood(*self));
        coords
    }
}

} // verus!
