//! The run-length-encoded pattern format: `b` is a run of dead cells, `o` a
//! run of live cells, `$` a run of line ends, a digit prefix gives the run
//! length, and `!` ends the whole pattern — everything after it is ignored.
//! `#` and `x` open comment or header lines, which are skipped to the end of
//! the line. Unrecognized characters are skipped silently, cell by cell.
//!
//! Decoding takes the pattern text as bytes and inserts the decoded live
//! cells, offset by a caller-supplied origin, into the world.

use vstd::prelude::*;

use crate::coord::{wrap_inc, Coord};
use crate::state::State;

verus! {

/// Run lengths saturate at this value instead of overflowing.
pub const RUN_CAP: u32 = 0x7fff_ffff;

/// The decoder's state between two input bytes.
pub struct RleModel {
    /// The cells inserted so far, together with what the world held before.
    pub cells: Set<Coord>,
    /// The column the next cell would land in.
    pub x: i32,
    /// The row the next cell would land in.
    pub y: i32,
    /// The run-length prefix read so far.
    pub run: int,
    /// Whether any digit of a run-length prefix has been read.
    pub saw_digit: bool,
    /// Whether the rest of the current line is being skipped.
    pub skip_line: bool,
    /// Whether the pattern terminator has been read; after it, the rest of
    /// the input changes nothing.
    pub done: bool,
}

/// The decoder state at the start of a pattern.
pub open spec fn rle_start(cells: Set<Coord>, x_offset: i32, y_offset: i32) -> RleModel {
    RleModel {
        cells: cells,
        x: x_offset,
        y: y_offset,
        run: 0,
        saw_digit: false,
        skip_line: false,
        done: false,
    }
}

/// A digit appended to the run-length prefix, saturating at `RUN_CAP`.
pub open spec fn push_digit(run: int, d: int) -> int {
    if run * 10 + d > RUN_CAP {
        RUN_CAP as int
    } else {
        run * 10 + d
    }
}

/// The pending run length: an absent prefix means a run of one.
pub open spec fn pending_run(m: RleModel) -> int {
    if m.saw_digit {
        m.run
    } else {
        1
    }
}

/// `n` live cells inserted leftward to rightward from the decoder's
/// position, the column advancing one cell at a time.
pub open spec fn live_run(m: RleModel, n: int) -> RleModel
    decreases n,
{
    if n <= 0 {
        m
    } else {
        live_run(
            RleModel { cells: m.cells.insert(Coord { x: m.x, y: m.y }), x: wrap_inc(m.x), ..m },
            n - 1,
        )
    }
}

/// One byte of pattern text applied to the decoder.
pub open spec fn rle_byte(m: RleModel, x_offset: i32, ch: u8) -> RleModel {
    if m.done {
        m
    } else if ch == 10 {
        RleModel { skip_line: false, ..m }
    } else if m.skip_line {
        m
    } else if ch == 35 || ch == 120 {  // '#' or 'x': comment or header line
        RleModel { skip_line: true, ..m }
    } else if 48 <= ch <= 57 {  // a digit of the run-length prefix
        RleModel { run: push_digit(m.run, ch - 48), saw_digit: true, ..m }
    } else if ch == 111 {  // 'o': a run of live cells
        RleModel { run: 0, saw_digit: false, ..live_run(m, pending_run(m)) }
    } else if ch == 98 {  // 'b': a run of dead cells
        RleModel {
            x: m.x.wrapping_add(pending_run(m) as i32),
            run: 0,
            saw_digit: false,
            ..m
        }
    } else if ch == 36 {  // '$': a run of line ends
        RleModel {
            x: x_offset,
            y: m.y.wrapping_add(pending_run(m) as i32),
            run: 0,
            saw_digit: false,
            ..m
        }
    } else if ch == 33 {  // '!': end of pattern
        RleModel { done: true, ..m }
    } else {
        m
    }
}

/// The first `i` bytes of pattern text applied to the decoder.
pub open spec fn rle_fold(m: RleModel, x_offset: i32, text: Seq<u8>, i: int) -> RleModel
    decreases i,
{
    if i <= 0 {
        m
    } else {
        rle_byte(rle_fold(m, x_offset, text, i - 1), x_offset, text[i - 1])
    }
}

/// The exec mirror of the decoder matches a model.
spec fn decoder_matches(
    m: RleModel,
    cells: Set<Coord>,
    x: i32,
    y: i32,
    run: u32,
    saw_digit: bool,
    skip_line: bool,
    done: bool,
) -> bool {
    &&& m.cells == cells
    &&& m.x == x
    &&& m.y == y
    &&& m.run == run as int
    &&& 0 <= m.run <= RUN_CAP
    &&& m.saw_digit == saw_digit
    &&& m.skip_line == skip_line
    &&& m.done == done
}

/// Decodes the pattern `text` and inserts its live cells, offset by
/// `(x_offset, y_offset)`, into the world. Malformed characters are skipped
/// without effect; nothing else of the state changes.
pub fn load_pattern(text: &[u8], state: &mut State, x_offset: i32, y_offset: i32)
    ensures
        *final(state) == (State { cell_coords: final(state).cell_coords, ..*old(state) }),
        final(state).cell_coords@ == rle_fold(
            rle_start(old(state).cell_coords@, x_offset, y_offset),
            x_offset,
            text@,
            text@.len() as int,
        ).cells,
{
    let ghost m0 = rle_start(old(state).cell_coords@, x_offset, y_offset);
    let n = text.len();
    let mut x: i32 = x_offset;
    let mut y: i32 = y_offset;
    let mut run: u32 = 0;
    let mut saw_digit: bool = false;
    let mut skip_line: bool = false;
    let mut done: bool = false;
    let mut i: usize = 0;
    while i < n
        invariant
            n == text@.len(),
            0 <= i <= n,
            *state == (State { cell_coords: state.cell_coords, ..*old(state) }),
            decoder_matches(
                rle_fold(m0, x_offset, text@, i as int),
                state.cell_coords@,
                x,
                y,
                run,
                saw_digit,
                skip_line,
                done,
            ),
        decreases n - i,
    {
        let ch = text[i];
        if done {
        } else if ch == 10 {
            skip_line = false;
        } else if skip_line {
        } else if ch == 35 || ch == 120 {
            skip_line = true;
        } else if 48 <= ch && ch <= 57 {
            let wide = (run as u64) * 10 + ((ch - 48) as u64);
            run = if wide > RUN_CAP as u64 {
                RUN_CAP
            } else {
                wide as u32
            };
            saw_digit = true;
        } else if ch == 111 {
            let count: u32 = if saw_digit {
                run
            } else {
                1
            };
            let ghost m_pre = rle_fold(m0, x_offset, text@, i as int);
            let mut j: u32 = 0;
            while j < count
                invariant
                    j <= count,
                    *state == (State { cell_coords: state.cell_coords, ..*old(state) }),
                    live_run(m_pre, count as int) == live_run(
                        RleModel { cells: state.cell_coords@, x: x, ..m_pre },
                        count - j,
                    ),
                    y == m_pre.y,
                decreases count - j,
            {
                state.cell_coords.insert(Coord::new(x, y));
                x = if x == i32::MAX {
                    i32::MIN
                } else {
                    x + 1
                };
                j = j + 1;
            }
            run = 0;
            saw_digit = false;
        } else if ch == 98 {
            let count: u32 = if saw_digit {
                run
            } else {
                1
            };
            x = x.wrapping_add(count as i32);
            run = 0;
            saw_digit = false;
        } else if ch == 36 {
            let count: u32 = if saw_digit {
                run
            } else {
                1
            };
            y = y.wrapping_add(count as i32);
            x = x_offset;
            run = 0;
            saw_digit = false;
        } else if ch == 33 {
            done = true;
        }
        i = i + 1;
    }
}

} // verus!
