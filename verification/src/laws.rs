//! The laws the editor core obeys, stated over the model transitions of
//! [`crate::model`] and proved once and for all.

use vstd::prelude::*;

use crate::editor::KeyEvent;
use crate::editor::State;
use crate::model::EditorView;
use crate::render::end_row;
use crate::render::put_char;
use crate::render::walk_line;
use crate::render::walk_rows;
use crate::render::WalkState;

verus! {

/// Moving right and then left returns to the original position whenever
/// the cursor is not at the end of its line.
pub proof fn lemma_right_then_left(v: EditorView)
    requires
        v.wf(),
        v.col < v.line_len(),
    ensures
        v.right().left() == v,
{
    assert(v.right().left() =~= v);
}

/// At the end of a line, moving right is a no-op, so a right-left round
/// trip there reduces to a plain left step.
pub proof fn lemma_right_noop_at_line_end(v: EditorView)
    requires
        v.wf(),
        v.col == v.line_len(),
    ensures
        v.right() == v,
{
    assert(v.right() =~= v);
}

/// Viewport re-derivation puts the cursor row inside the visible window
/// of any terminal with at least one row, whatever the offset was.
pub proof fn lemma_scrolled_in_window(v: EditorView, rows: int)
    requires
        v.valid(),
        rows >= 1,
    ensures
        v.scrolled(rows).wf(),
        v.scrolled(rows).in_window(rows),
{
}

/// Viewport re-derivation never over-scrolls: when the cursor row is
/// already inside the visible window, the offset does not move at all.
pub proof fn lemma_scrolled_noop_when_in_window(v: EditorView, rows: int)
    requires
        v.wf(),
        v.in_window(rows),
    ensures
        v.scrolled(rows) == v,
{
    assert(v.scrolled(rows) =~= v);
}

/// The Exit state is terminal: any further event changes nothing.
pub proof fn lemma_exit_is_terminal(v: EditorView, e: KeyEvent, rows: int)
    requires
        v.state == State::Exit,
    ensures
        v.step(e, rows) == v,
{
}

/// Repeated clamped right steps preserve well-formedness.
pub proof fn lemma_right_n_wf(v: EditorView, n: nat)
    requires
        v.wf(),
    ensures
        v.right_n(n).wf(),
    decreases n,
{
    if n != 0 {
        lemma_right_n_wf(v.right(), (n - 1) as nat);
    }
}

/// Every dispatch step of a terminal with at least one visible row keeps
/// the session well-formed and the cursor row inside the visible window:
/// motions that change the row re-derive the viewport, and every other
/// action leaves row and offset alone.
pub proof fn lemma_step_keeps_window(v: EditorView, e: KeyEvent, rows: int)
    requires
        v.wf(),
        v.in_window(rows),
        rows >= 1,
    ensures
        v.step(e, rows).wf(),
        v.step(e, rows).in_window(rows),
{
    match v.state {
        State::Normal => match e {
            KeyEvent::Char(c) => {
                if c == 'e' {
                    v.lemma_word_skip_frame();
                    if 0 <= v.words_index < v.words_len.len() {
                        lemma_right_n_wf(v, (v.words_len[v.words_index] + 1) as nat);
                    }
                }
            },
            _ => {},
        },
        _ => {},
    }
}

/// In Insert mode, `Esc` always returns to Normal mode whatever the
/// buffer holds, and any character event keeps the mode Insert.
pub proof fn lemma_insert_mode_keys(v: EditorView, e: KeyEvent, rows: int)
    requires
        v.state == State::Insert,
    ensures
        e == KeyEvent::Esc ==> v.step(e, rows).state == State::Normal,
        e is Char ==> v.step(e, rows).state == State::Insert,
{
}

/// Inserting a character at column `k` of a line grows exactly that line
/// by exactly one character and leaves the cursor at column `k + 1`.
pub proof fn lemma_insert_grows_line(v: EditorView, c: char)
    requires
        v.wf(),
    ensures
        v.inserted(c).buf[v.row].len() == v.buf[v.row].len() + 1,
        v.inserted(c).col == v.col + 1,
        v.inserted(c).row == v.row,
        v.inserted(c).buf.len() == v.buf.len(),
        forall|r: int| 0 <= r < v.buf.len() && r != v.row ==> v.inserted(c).buf[r] == v.buf[r],
{
}

/// The walk's pen stays on the `rows` x `cols` grid while it has not
/// clipped, and any display cursor it has recorded names a grid cell.
pub open spec fn cells_on_screen(st: WalkState, rows: int, cols: int) -> bool {
    &&& !st.clipped ==> 0 <= st.srow < rows && 0 <= st.scol < cols
    &&& match st.cursor {
        Some(cell) => 0 <= cell.0 < rows && 0 <= cell.1 < cols,
        None => true,
    }
}

proof fn lemma_put_char_cells(st: WalkState, c: char, rows: int, cols: int)
    requires
        !st.clipped,
        cells_on_screen(st, rows, cols),
    ensures
        cells_on_screen(put_char(st, c, rows, cols), rows, cols),
{
}

proof fn lemma_end_row_cells(st: WalkState, rows: int, cols: int)
    requires
        cols >= 1,
        cells_on_screen(st, rows, cols),
    ensures
        cells_on_screen(end_row(st, rows), rows, cols),
{
}

proof fn lemma_walk_line_cells(
    line: Seq<char>,
    c: int,
    cursor_row: bool,
    ccol: int,
    rows: int,
    cols: int,
    st: WalkState,
)
    requires
        cells_on_screen(st, rows, cols),
    ensures
        cells_on_screen(walk_line(line, c, cursor_row, ccol, rows, cols, st), rows, cols),
    decreases line.len() - c,
{
    if !(st.clipped || c < 0 || c > line.len()) {
        let seen = if cursor_row && c == ccol {
            WalkState { cursor: Some((st.srow, st.scol)), ..st }
        } else {
            st
        };
        if c < line.len() {
            lemma_put_char_cells(seen, line[c], rows, cols);
            lemma_walk_line_cells(
                line,
                c + 1,
                cursor_row,
                ccol,
                rows,
                cols,
                put_char(seen, line[c], rows, cols),
            );
        }
    }
}

proof fn lemma_walk_rows_cells(
    buf: Seq<Seq<char>>,
    r: int,
    crow: int,
    ccol: int,
    rows: int,
    cols: int,
    st: WalkState,
)
    requires
        cols >= 1,
        cells_on_screen(st, rows, cols),
    ensures
        cells_on_screen(walk_rows(buf, r, crow, ccol, rows, cols, st), rows, cols),
    decreases buf.len() - r,
{
    if !(st.clipped || r < 0 || r >= buf.len()) {
        lemma_walk_line_cells(buf[r], 0, r == crow, ccol, rows, cols, st);
        lemma_end_row_cells(walk_line(buf[r], 0, r == crow, ccol, rows, cols, st), rows, cols);
        lemma_walk_rows_cells(
            buf,
            r + 1,
            crow,
            ccol,
            rows,
            cols,
            end_row(walk_line(buf[r], 0, r == crow, ccol, rows, cols, st), rows),
        );
    }
}

/// Whenever a drawing pass over any session records a display cursor,
/// that cursor names a cell of the `rows` x `cols` grid, so the final
/// cursor move of a frame always stays on the screen.
pub proof fn lemma_display_cursor_on_screen(v: EditorView, rows: int, cols: int)
    requires
        rows >= 1,
        cols >= 1,
    ensures
        match walk_rows(v.buf, v.row_offset, v.row, v.col, rows, cols, WalkState::start()).cursor {
            Some(cell) => 0 <= cell.0 < rows && 0 <= cell.1 < cols,
            None => true,
        },
{
    lemma_walk_rows_cells(v.buf, v.row_offset, v.row, v.col, rows, cols, WalkState::start());
}

} // verus!
