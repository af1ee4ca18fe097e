//! The camera/viewport transform: the two-way mapping between world cell
//! coordinates and screen positions, parameterized by the camera pan offset
//! and the cell size (zoom). Screen positions and camera offsets are in
//! subpixels, as in `crate::config`.
//!
//! The inverse mapping must floor, not truncate toward zero, so that a
//! screen position left or above the origin still lands on the right cell;
//! `floor_div` is that division.

use vstd::prelude::*;
use vstd::arithmetic::div_mod::{lemma_div_nonincreasing, lemma_div_pos_is_pos,
    lemma_fundamental_div_mod, lemma_fundamental_div_mod_converse};

use crate::coord::Coord;
use crate::state::State;

verus! {

/// Floor division: the unique `q` with `q * b <= a < (q + 1) * b`. In
/// specifications `/` on a positive divisor is already floor division; this
/// is its executable counterpart for possibly-negative dividends.
pub fn floor_div(a: i64, b: i64) -> (q: i64)
    requires
        1 <= b,
        i64::MIN < a,
    ensures
        q == a as int / b as int,
{
    if a >= 0 {
        let au = a as u64;
        let bu = b as u64;
        let qu = au / bu;
        proof {
            lemma_div_nonincreasing(au as int, bu as int);
            lemma_div_pos_is_pos(au as int, bu as int);
        }
        qu as i64
    } else {
        let m = (-a) as u64;
        let bu = b as u64;
        let qt = m / bu;
        let r = m % bu;
        proof {
            lemma_div_nonincreasing(m as int, bu as int);
            lemma_div_pos_is_pos(m as int, bu as int);
            lemma_fundamental_div_mod(m as int, bu as int);
        }
        if r == 0 {
            proof {
                assert(a as int == b * (-(qt as int)) + 0) by (nonlinear_arith)
                    requires
                        m == b * (qt as int),
                        a as int == -(m as int),
                ;
                lemma_fundamental_div_mod_converse(a as int, b as int, -(qt as int), 0);
            }
            -(qt as i64)
        } else {
            proof {
                assert(a as int == b * (-(qt as int) - 1) + (b - r)) by (nonlinear_arith)
                    requires
                        m == b * (qt as int) + r,
                        a as int == -(m as int),
                ;
                lemma_fundamental_div_mod_converse(a as int, b as int, -(qt as int) - 1, b - r);
            }
            -(qt as i64) - 1
        }
    }
}

/// One axis of the screen-to-world mapping: the index of the cell under
/// screen position `x`, given camera offset `cam` and cell size `cell` —
/// `floor((x + cam) / cell)`, clamped into the coordinate range.
pub open spec fn spec_world_coord(x: int, cam: int, cell: int) -> int {
    let w = (x + cam) / cell;
    if w < i32::MIN {
        i32::MIN as int
    } else if w > i32::MAX {
        i32::MAX as int
    } else {
        w
    }
}

/// The cell under the screen position `(x, y)`: the inverse viewport
/// transform, used for input hit-testing.
pub fn game_coord(x: i64, y: i64, state: &State) -> (c: Coord)
    requires
        state.wf(),
        -0x1_0000_0000 <= x <= 0x1_0000_0000,
        -0x1_0000_0000 <= y <= 0x1_0000_0000,
    ensures
        c.x as int == spec_world_coord(x as int, state.camera_x as int, state.cell_width as int),
        c.y as int == spec_world_coord(y as int, state.camera_y as int, state.cell_height as int),
{
    let wx = floor_div(x + state.camera_x, state.cell_width);
    let wy = floor_div(y + state.camera_y, state.cell_height);
    let cx: i64 = if wx < i32::MIN as i64 {
        i32::MIN as i64
    } else if wx > i32::MAX as i64 {
        i32::MAX as i64
    } else {
        wx
    };
    let cy: i64 = if wy < i32::MIN as i64 {
        i32::MIN as i64
    } else if wy > i32::MAX as i64 {
        i32::MAX as i64
    } else {
        wy
    };
    Coord::new(cx as i32, cy as i32)
}

/// The forward viewport transform: the screen position of the top-left
/// corner of the cell at `coord` — `world * cell_size - camera`, per axis.
pub fn world_to_screen(coord: &Coord, state: &State) -> (r: (i64, i64))
    requires
        state.wf(),
    ensures
        r.0 == coord.x * state.cell_width - state.camera_x,
        r.1 == coord.y * state.cell_height - state.camera_y,
{
    proof {
        assert(-0x80000000 * 0x10_0000 <= (coord.x as int) * (state.cell_width as int) <= 0x80000000
            * 0x10_0000) by (nonlinear_arith)
            requires
                -0x80000000 <= coord.x as int <= 0x80000000,
                1 <= state.cell_width as int <= 0x10_0000,
        ;
        assert(-0x80000000 * 0x10_0000 <= (coord.y as int) * (state.cell_height as int)
            <= 0x80000000 * 0x10_0000) by (nonlinear_arith)
            requires
                -0x80000000 <= coord.y as int <= 0x80000000,
                1 <= state.cell_height as int <= 0x10_0000,
        ;
    }
    let sx = (coord.x as i64) * state.cell_width - state.camera_x;
    let sy = (coord.y as i64) * state.cell_height - state.camera_y;
    (sx, sy)
}

/// The screen-to-world-to-screen round trip is lossy but bounded: wherever
/// the cell under a screen position has a representable coordinate, mapping
/// that cell back to the screen lands within one cell size of where the
/// trip started — on the near side, since the mapping floors.
pub proof fn lemma_screen_round_trip(x: int, cam: int, cell: int)
    requires
        1 <= cell,
        i32::MIN <= (x + cam) / cell <= i32::MAX,
    ensures
        x - cell < spec_world_coord(x, cam, cell) * cell - cam <= x,
{
    let a = x + cam;
    let q = a / cell;
    lemma_fundamental_div_mod(a, cell);
    assert(a == cell * q + a % cell);
    assert(q * cell == cell * q) by (nonlinear_arith);
}

} // verus!
