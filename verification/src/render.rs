//! The differential renderer: build a frame of the visible grid from the
//! editor state, compare it with the previously drawn frame, and emit only
//! the cells that changed.  Identical frames emit nothing, so the caller
//! can skip the terminal write (and its flicker) entirely.

use vstd::prelude::*;

use crate::editor::Editor;
use crate::rope::{
    rope_char, rope_char_to_line, rope_chars, rope_len_chars, rope_len_lines, rope_line_len,
    rope_line_to_char,
};
use crate::terminal::{Cell, Highlight};
use crate::text::{lemma_line_bounds, lemma_own_line, line_count, line_len, line_of, line_start};
use crate::utils::Position;

verus! {

/// Whether two frames of the same size differ anywhere.  Frames of
/// different sizes are not compared and count as unchanged.
pub fn check_buffers(buf1: &Vec<Cell>, buf2: &Vec<Cell>) -> (r: bool)
    ensures
        r == (buf1@.len() == buf2@.len() && exists|i: int|
            0 <= i < buf1@.len() && buf1@[i] != buf2@[i]),
{
    if buf1.len() == buf2.len() {
        let mut i: usize = 0;
        while i < buf1.len()
            invariant
                i <= buf1@.len(),
                buf1@.len() == buf2@.len(),
                forall|j: int| 0 <= j < i ==> buf1@[j] == buf2@[j],
            decreases buf1@.len() - i,
        {
            if buf1[i] != buf2[i] {
                return true;
            }
            i += 1;
        }
    }
    false
}

/// For same-size frames, the cells to redraw: `(i, next[i])` exactly at
/// the indices where `prev` and `next` disagree, in increasing order.
pub fn diff_and_emit(prev: &Vec<Cell>, next: &Vec<Cell>) -> (r: Vec<(usize, Cell)>)
    requires
        prev@.len() == next@.len(),
    ensures
        forall|j: int| 0 <= j < r@.len() ==> (#[trigger] r@[j]).0 < next@.len() && prev@[r@[j].0 as int]
            != next@[r@[j].0 as int] && r@[j].1 == next@[r@[j].0 as int],
        forall|j1: int, j2: int| 0 <= j1 < j2 < r@.len() ==> (#[trigger] r@[j1]).0
            < (#[trigger] r@[j2]).0,
        forall|i: int| 0 <= i < next@.len() && prev@[i] != next@[i] ==> exists|j: int|
            0 <= j < r@.len() && (#[trigger] r@[j]).0 == i,
        prev@ == next@ ==> r@.len() == 0,
{
    let mut out: Vec<(usize, Cell)> = Vec::new();
    let mut i: usize = 0;
    while i < next.len()
        invariant
            prev@.len() == next@.len(),
            i <= next@.len(),
            forall|j: int| 0 <= j < out@.len() ==> (#[trigger] out@[j]).0 < i
                && prev@[out@[j].0 as int] != next@[out@[j].0 as int] && out@[j].1
                == next@[out@[j].0 as int],
            forall|j1: int, j2: int| 0 <= j1 < j2 < out@.len() ==> (#[trigger] out@[j1]).0
                < (#[trigger] out@[j2]).0,
            forall|k: int| 0 <= k < i && prev@[k] != next@[k] ==> exists|j: int|
                0 <= j < out@.len() && (#[trigger] out@[j]).0 == k,
        decreases next@.len() - i,
    {
        let ghost out0 = out@;
        if prev[i] != next[i] {
            out.push((i, next[i]));
        }
        proof {
            assert forall|k: int| 0 <= k < i + 1 && prev@[k] != next@[k] implies exists|j: int|
                0 <= j < out@.len() && (#[trigger] out@[j]).0 == k by {
                if k < i {
                    let j0 = choose|j0: int| 0 <= j0 < out0.len() && (#[trigger] out0[j0]).0 == k;
                    assert(out@[j0] == out0[j0]);
                } else {
                    assert(out@[out@.len() - 1].0 == k);
                }
            }
        }
        i += 1;
    }
    proof {
        if prev@ =~= next@ && out@.len() > 0 {
            assert((out@[0]).0 < next@.len() && prev@[(out@[0]).0 as int] != next@[(out@[0]).0
                as int]);
            assert(false);
        }
    }
    out
}

/// Whether the cursor, at flat offset `cursor` in `s`, maps to grid cell
/// (`r`, `c`) under scroll offset `scroll`.
pub open spec fn cursor_at_cell(
    s: Seq<char>,
    cursor: int,
    scroll: Position,
    r: int,
    c: int,
) -> bool {
    let cl = line_of(s, '\n', cursor) as int;
    let cc = cursor - line_start(s, '\n', cl);
    cl == scroll.y + r && cc == scroll.x + c
}

/// The cell grid position (`r`, `c`) shows: the document character mapped
/// there, or a blank past the end of the line or of the document; the cell
/// the cursor maps to carries the cursor style.
pub open spec fn frame_cell(s: Seq<char>, cursor: int, scroll: Position, r: int, c: int) -> Cell {
    let dl = scroll.y + r;
    let dc = scroll.x + c;
    Cell {
        glyph: if dl < line_count(s, '\n') && dc < line_len(s, '\n', dl) {
            s[line_start(s, '\n', dl) + dc]
        } else {
            ' '
        },
        style: if cursor_at_cell(s, cursor, scroll, r, c) {
            Highlight::Cursor
        } else {
            Highlight::Text
        },
    }
}

/// One full frame of the visible grid: `rows * cols` cells in row-major
/// order, row `r` showing document line `scroll.y + r` from document
/// column `scroll.x` on, with the cursor's cell highlighted.
pub fn build_frame(ed: &Editor, rows: usize, cols: usize, scroll: Position) -> (frame: Vec<Cell>)
    requires
        ed.wf(),
        rows * cols <= usize::MAX,
        scroll.y + rows <= usize::MAX,
        scroll.x + cols <= usize::MAX,
    ensures
        frame@.len() == rows * cols,
        forall|r: int, c: int| 0 <= r < rows && 0 <= c < cols ==> frame@[r * cols + c]
            == frame_cell(ed.chars(), ed.cursor_spec() as int, scroll, r, c),
{
    let ghost s = ed.chars();
    let cpos = match ed.get_cursor_pos() {
        Ok(p) => p,
        Err(_) => {
            proof {
                assert(false);
            }
            0
        },
    };
    let text = ed.text_ref();
    proof {
        lemma_own_line(s, '\n', cpos as int);
    }
    let cline = rope_char_to_line(text, cpos);
    let cstart = rope_line_to_char(text, cline);
    let ccol = cpos - cstart;
    let len = rope_len_chars(text);
    let nlines = rope_len_lines(text);
    let mut frame: Vec<Cell> = Vec::new();
    let mut r: usize = 0;
    while r < rows
        invariant
            s == ed.chars(),
            rope_chars(*text) == s,
            cpos == ed.cursor_spec(),
            cpos <= s.len(),
            cline == line_of(s, '\n', cpos as int),
            cline < line_count(s, '\n'),
            cstart == line_start(s, '\n', cline as int),
            cstart <= cpos,
            ccol == cpos - cstart,
            nlines == line_count(s, '\n'),
            len == s.len(),
            scroll.y + rows <= usize::MAX,
            scroll.x + cols <= usize::MAX,
            r <= rows,
            frame@.len() == r * cols,
            forall|k: int| 0 <= k < frame@.len() ==> frame@[k] == frame_cell(
                s,
                cpos as int,
                scroll,
                k / (cols as int),
                k % (cols as int),
            ),
        decreases rows - r,
    {
        let dl = scroll.y + r;
        if dl < nlines {
            proof {
                lemma_line_bounds(s, '\n', dl as int);
            }
            let start = rope_line_to_char(text, dl);
            let ilen = rope_line_len(text, dl);
            let elen = if dl < nlines - 1 {
                ilen - 1
            } else {
                ilen
            };
            let mut c: usize = 0;
            while c < cols
                invariant
                    s == ed.chars(),
                    rope_chars(*text) == s,
                    cpos == ed.cursor_spec(),
                    cpos <= s.len(),
                    cline == line_of(s, '\n', cpos as int),
                    cline < line_count(s, '\n'),
                    cstart == line_start(s, '\n', cline as int),
                    cstart <= cpos,
                    ccol == cpos - cstart,
                    nlines == line_count(s, '\n'),
                    len == s.len(),
                    scroll.y + rows <= usize::MAX,
                    scroll.x + cols <= usize::MAX,
                    r < rows,
                    dl == scroll.y + r,
                    dl < nlines,
                    start == line_start(s, '\n', dl as int),
                    start <= s.len(),
                    elen == line_len(s, '\n', dl as int),
                    start + elen <= s.len(),
                    c <= cols,
                    frame@.len() == r * cols + c,
                    forall|k: int| 0 <= k < frame@.len() ==> frame@[k] == frame_cell(
                        s,
                        cpos as int,
                        scroll,
                        k / (cols as int),
                        k % (cols as int),
                    ),
                decreases cols - c,
            {
                let dc = scroll.x + c;
                let glyph = if dc < elen {
                    rope_char(text, start + dc)
                } else {
                    ' '
                };
                let style = if dl == cline && dc == ccol {
                    Highlight::Cursor
                } else {
                    Highlight::Text
                };
                let cell = Cell { glyph, style };
                proof {
                    assert(cell == frame_cell(s, cpos as int, scroll, r as int, c as int));
                    assert((r * cols + c) / (cols as int) == r && (r * cols + c) % (cols as int)
                        == c) by (nonlinear_arith)
                        requires
                            0 <= c < cols,
                            0 <= r,
                    ;
                }
                frame.push(cell);
                c += 1;
            }
        } else {
            let mut c: usize = 0;
            while c < cols
                invariant
                    s == ed.chars(),
                    rope_chars(*text) == s,
                    cpos == ed.cursor_spec(),
                    cpos <= s.len(),
                    cline == line_of(s, '\n', cpos as int),
                    cline < line_count(s, '\n'),
                    cstart == line_start(s, '\n', cline as int),
                    cstart <= cpos,
                    ccol == cpos - cstart,
                    nlines == line_count(s, '\n'),
                    len == s.len(),
                    scroll.y + rows <= usize::MAX,
                    scroll.x + cols <= usize::MAX,
                    r < rows,
                    dl == scroll.y + r,
                    dl >= nlines,
                    c <= cols,
                    frame@.len() == r * cols + c,
                    forall|k: int| 0 <= k < frame@.len() ==> frame@[k] == frame_cell(
                        s,
                        cpos as int,
                        scroll,
                        k / (cols as int),
                        k % (cols as int),
                    ),
                decreases cols - c,
            {
                let cell = Cell { glyph: ' ', style: Highlight::Text };
                proof {
                    assert(cell == frame_cell(s, cpos as int, scroll, r as int, c as int));
                    assert((r * cols + c) / (cols as int) == r && (r * cols + c) % (cols as int)
                        == c) by (nonlinear_arith)
                        requires
                            0 <= c < cols,
                            0 <= r,
                    ;
                }
                frame.push(cell);
                c += 1;
            }
        }
        proof {
            assert(r * cols + cols == (r + 1) * cols) by (nonlinear_arith);
        }
        r += 1;
    }
    proof {
        assert(frame@.len() == rows * cols) by (nonlinear_arith)
            requires
                frame@.len() == r * cols,
                r == rows,
        ;
        assert forall|ri: int, ci: int| 0 <= ri < rows && 0 <= ci < cols implies frame@[ri * cols
            + ci] == frame_cell(s, cpos as int, scroll, ri, ci) by {
            assert(0 <= ri * cols + ci < rows * cols && (ri * cols + ci) / (cols as int) == ri && (
            ri * cols + ci) % (cols as int) == ci) by (nonlinear_arith)
                requires
                    0 <= ci < cols,
                    0 <= ri < rows,
            ;
        }
    }
    frame
}

/// Where one axis of the scroll offset moves so that position `pos` is
/// visible in a window of `window` cells starting at `off`: up to `pos`
/// itself, or down so `pos` is the window's last cell, or nowhere.
pub open spec fn scroll_axis(off: int, pos: int, window: int) -> int {
    if pos < off {
        pos
    } else if pos >= off + window {
        pos - window + 1
    } else {
        off
    }
}

/// Move the scroll offset the least it needs so that the cursor's cell, on
/// document line `cline` and column `ccol`, lies on the visible grid; the
/// two axes are adjusted independently.  Recompute this after every cursor
/// move, before building the frame.
pub fn scroll_to_cursor(scroll: Position, cline: usize, ccol: usize, rows: usize, cols: usize) -> (r:
    Position)
    requires
        1 <= rows,
        1 <= cols,
    ensures
        r.y == scroll_axis(scroll.y as int, cline as int, rows as int),
        r.x == scroll_axis(scroll.x as int, ccol as int, cols as int),
        r.y <= cline < r.y + rows,
        r.x <= ccol < r.x + cols,
{
    let y = if cline < scroll.y {
        cline
    } else if cline - scroll.y >= rows {
        cline - (rows - 1)
    } else {
        scroll.y
    };
    let x = if ccol < scroll.x {
        ccol
    } else if ccol - scroll.x >= cols {
        ccol - (cols - 1)
    } else {
        scroll.x
    };
    Position { x, y }
}

} // verus!
