//! The draw engine: one rendering pass over the visible buffer window.
//!
//! A pass walks buffer rows from the viewport offset, wrapping each line
//! at the terminal width and hard-clipping once the terminal height is
//! exhausted, and emits the drawing primitives a Surface needs: clear,
//! home, the characters with row breaks, and finally a move to the
//! display cursor when the walk passed the cursor's buffer position.
//! The pass is described by the spec functions [`walk_line`] and
//! [`walk_rows`], and [`Viteditor::draw`] computes exactly that command
//! sequence.

use vstd::prelude::*;

use crate::editor::Position;
use crate::editor::Viteditor;
use crate::model::EditorView;

verus! {

/// One drawing primitive for a Surface. A frontend replays these in
/// order on its output device and then flushes it.
#[derive(Clone, Copy, PartialEq, Eq, Structural, Debug)]
pub enum DrawCmd {
    /// Clear the whole surface.
    Clear,
    /// Move the surface's drawing cursor to this zero-based cell.
    Goto(Position),
    /// Write one character and advance the drawing cursor one cell.
    Put(char),
    /// Advance the drawing cursor to the start of the next screen row.
    Crlf,
}

/// The state of a walk over the visible window: the primitives emitted
/// so far, the screen cell the next character would land on, the screen
/// cell recorded for the display cursor, and whether the walk has been
/// clipped at the bottom of the screen.
#[verifier::ext_equal]
pub struct WalkState {
    pub cmds: Seq<DrawCmd>,
    pub srow: int,
    pub scol: int,
    pub cursor: Option<(int, int)>,
    pub clipped: bool,
}

impl WalkState {
    /// The state a pass starts from: nothing emitted, the pen at the
    /// top-left cell, no display cursor seen.
    pub open spec fn start() -> WalkState {
        WalkState {
            cmds: Seq::<DrawCmd>::empty(),
            srow: 0,
            scol: 0,
            cursor: None::<(int, int)>,
            clipped: false,
        }
    }
}

/// One character written: the pen advances, wraps to the next screen row
/// when it reaches the terminal width, and clips the walk when wrapping
/// runs off the terminal height (then no row break is emitted).
pub open spec fn put_char(st: WalkState, c: char, rows: int, cols: int) -> WalkState {
    let wide = WalkState { cmds: st.cmds.push(DrawCmd::Put(c)), scol: st.scol + 1, ..st };
    if wide.scol >= cols {
        let wrapped = WalkState { srow: wide.srow + 1, scol: 0, ..wide };
        if wrapped.srow >= rows {
            WalkState { clipped: true, ..wrapped }
        } else {
            WalkState { cmds: wrapped.cmds.push(DrawCmd::Crlf), ..wrapped }
        }
    } else {
        wide
    }
}

/// The end of a buffer row: the pen moves to the start of the next
/// screen row, or the walk clips when that runs off the terminal height.
pub open spec fn end_row(st: WalkState, rows: int) -> WalkState {
    if st.clipped {
        st
    } else {
        let moved = WalkState { srow: st.srow + 1, scol: 0, ..st };
        if moved.srow >= rows {
            WalkState { clipped: true, ..moved }
        } else {
            WalkState { cmds: moved.cmds.push(DrawCmd::Crlf), ..moved }
        }
    }
}

/// The walk of one buffer line from column `c` on: every column up to
/// one past the line's end is compared against the cursor (recording the
/// pen's cell when they meet), and every existing character is written.
pub open spec fn walk_line(
    line: Seq<char>,
    c: int,
    cursor_row: bool,
    ccol: int,
    rows: int,
    cols: int,
    st: WalkState,
) -> WalkState
    decreases line.len() - c,
{
    if st.clipped || c < 0 || c > line.len() {
        st
    } else {
        let seen = if cursor_row && c == ccol {
            WalkState { cursor: Some((st.srow, st.scol)), ..st }
        } else {
            st
        };
        if c < line.len() {
            walk_line(line, c + 1, cursor_row, ccol, rows, cols, put_char(seen, line[c], rows, cols))
        } else {
            seen
        }
    }
}

/// The walk of the buffer from row `r` on: each row's line followed by
/// its end-of-row step, until the rows run out or the walk clips.
pub open spec fn walk_rows(
    buf: Seq<Seq<char>>,
    r: int,
    crow: int,
    ccol: int,
    rows: int,
    cols: int,
    st: WalkState,
) -> WalkState
    decreases buf.len() - r,
{
    if st.clipped || r < 0 || r >= buf.len() {
        st
    } else {
        let done = end_row(walk_line(buf[r], 0, r == crow, ccol, rows, cols, st), rows);
        walk_rows(buf, r + 1, crow, ccol, rows, cols, done)
    }
}

/// The command sequence of one full drawing pass: clear, home, the walk
/// from the viewport offset, and a final move to the display cursor when
/// the walk recorded one.
pub open spec fn render(v: EditorView, rows: int, cols: int) -> Seq<DrawCmd> {
    let st = walk_rows(v.buf, v.row_offset, v.row, v.col, rows, cols, WalkState::start());
    let prefix = seq![DrawCmd::Clear, DrawCmd::Goto(Position { row: 0, column: 0 })];
    match st.cursor {
        Some(cell) => prefix + st.cmds + seq![
            DrawCmd::Goto(Position { row: cell.0 as usize, column: cell.1 as usize }),
        ],
        None => prefix + st.cmds,
    }
}

/// The walk state the executable pass is in, assembled from its plain
/// variables.
pub open spec fn walk_of(
    cmds: Seq<DrawCmd>,
    srow: int,
    scol: int,
    display: Option<Position>,
    clipped: bool,
) -> WalkState {
    WalkState {
        cmds: cmds,
        srow: srow,
        scol: scol,
        cursor: match display {
            Some(p) => Some((p.row as int, p.column as int)),
            None => None::<(int, int)>,
        },
        clipped: clipped,
    }
}

impl Viteditor {
    /// Compute the drawing primitives of one frame for a terminal of
    /// `rows` visible rows and `cols` columns, wrapping long lines and
    /// hard-clipping at the bottom of the screen.
    #[verifier::loop_isolation(false)]
    pub fn draw(&self, rows: usize, cols: usize) -> (cmds: Vec<DrawCmd>)
        requires
            self@.wf(),
        ensures
            cmds@ == render(self@, rows as int, cols as int),
    {
        let crow = self.cursor.pos.row;
        let ccol = self.cursor.pos.column;
        let count = self.buf.len();
        proof {
            assert(self@.buf.len() == count);
        }
        let ghost goal = walk_rows(
            self@.buf,
            self@.row_offset,
            self@.row,
            self@.col,
            rows as int,
            cols as int,
            WalkState::start(),
        );
        let mut body: Vec<DrawCmd> = Vec::new();
        let mut srow: usize = 0;
        let mut scol: usize = 0;
        let mut display: Option<Position> = None;
        let mut clipped = false;
        let mut row = self.row_offset;
        while row < count && !clipped
            invariant
                self@.row_offset <= row as int <= count,
                clipped || srow == 0 || (srow as int) < rows as int,
                clipped || scol == 0 || (scol as int) < cols as int,
                walk_rows(
                    self@.buf,
                    row as int,
                    self@.row,
                    self@.col,
                    rows as int,
                    cols as int,
                    walk_of(body@, srow as int, scol as int, display, clipped),
                ) == goal,
            decreases count - row,
        {
            let ghost line = self@.buf[row as int];
            let line_len = self.buf[row].len();
            proof {
                assert(line.len() == line_len);
            }
            let mut col: usize = 0;
            while col < line_len && !clipped
                invariant
                    col as int <= line.len(),
                    clipped || srow == 0 || (srow as int) < rows as int,
                    clipped || scol == 0 || (scol as int) < cols as int,
                    walk_rows(
                        self@.buf,
                        row as int + 1,
                        self@.row,
                        self@.col,
                        rows as int,
                        cols as int,
                        end_row(
                            walk_line(
                                line,
                                col as int,
                                row as int == self@.row,
                                self@.col,
                                rows as int,
                                cols as int,
                                walk_of(body@, srow as int, scol as int, display, clipped),
                            ),
                            rows as int,
                        ),
                    ) == goal,
                decreases line.len() - col,
            {
                let ghost pre = walk_of(body@, srow as int, scol as int, display, clipped);
                if crow == row && ccol == col {
                    display = Some(Position { row: srow, column: scol });
                }
                let ghost seen = walk_of(body@, srow as int, scol as int, display, clipped);
                proof {
                    assert(seen =~= if row as int == self@.row && col as int == self@.col {
                        WalkState { cursor: Some((pre.srow, pre.scol)), ..pre }
                    } else {
                        pre
                    });
                }
                let c = self.buf[row][col];
                body.push(DrawCmd::Put(c));
                scol = scol + 1;
                if scol >= cols {
                    srow = srow + 1;
                    scol = 0;
                    if srow >= rows {
                        clipped = true;
                    } else {
                        body.push(DrawCmd::Crlf);
                    }
                }
                proof {
                    assert(walk_of(body@, srow as int, scol as int, display, clipped)
                        =~= put_char(seen, line[col as int], rows as int, cols as int));
                }
                col = col + 1;
            }
            if !clipped {
                // The column one past the line's end still takes part in the
                // cursor comparison: the cursor may rest there.
                let ghost pre = walk_of(body@, srow as int, scol as int, display, clipped);
                if crow == row && ccol == col {
                    display = Some(Position { row: srow, column: scol });
                }
                let ghost seen = walk_of(body@, srow as int, scol as int, display, clipped);
                proof {
                    assert(seen =~= if row as int == self@.row && col as int == self@.col {
                        WalkState { cursor: Some((pre.srow, pre.scol)), ..pre }
                    } else {
                        pre
                    });
                    assert(walk_line(
                        line,
                        col as int,
                        row as int == self@.row,
                        self@.col,
                        rows as int,
                        cols as int,
                        pre,
                    ) == seen);
                }
                srow = srow + 1;
                scol = 0;
                if srow >= rows {
                    clipped = true;
                } else {
                    body.push(DrawCmd::Crlf);
                }
                proof {
                    assert(walk_of(body@, srow as int, scol as int, display, clipped)
                        =~= end_row(seen, rows as int));
                }
            }
            row = row + 1;
        }
        proof {
            assert(walk_of(body@, srow as int, scol as int, display, clipped) == goal);
        }
        let mut cmds: Vec<DrawCmd> = Vec::new();
        cmds.push(DrawCmd::Clear);
        cmds.push(DrawCmd::Goto(Position { row: 0, column: 0 }));
        cmds.append(&mut body);
        match display {
            Some(p) => {
                cmds.push(DrawCmd::Goto(p));
            },
            None => {},
        }
        proof {
            assert(cmds@ =~= render(self@, rows as int, cols as int));
        }
        cmds
    }
}

} // verus!
