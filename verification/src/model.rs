//! The mathematical model of an editor session and its transitions.
//!
//! [`EditorView`] is the view of a [`Viteditor`]: the buffer as a sequence
//! of sequences of characters and the remaining fields as unbounded
//! integers. Each editor operation has a spec-level transition here
//! (`right`, `left`, `up`, `down`, `scrolled`, `inserted`, `word_skip`,
//! `step`), and the executable operations promise to realise exactly
//! these transitions.

use vstd::math::max;
use vstd::math::min;
use vstd::prelude::*;

use crate::editor::KeyEvent;
use crate::editor::State;
use crate::editor::Viteditor;

verus! {

/// The model of a session: what a [`Viteditor`] looks like through `@`.
#[verifier::ext_equal]
pub struct EditorView {
    /// The document, as lines of characters. Always holds at least one
    /// line in a well-formed session (an empty document is one empty line).
    pub buf: Seq<Seq<char>>,
    /// Cursor row, an index into `buf`.
    pub row: int,
    /// Cursor column, at most one past the end of line `row`.
    pub col: int,
    /// Auxiliary word-motion slot of the cursor.
    pub word_pos: int,
    /// Index of the topmost buffer row that the viewport shows.
    pub row_offset: int,
    /// Current word pointer into `words_len`.
    pub words_index: int,
    /// Sub-word character counter.
    pub char_index: int,
    /// Word lengths over the flattened text, from the external parser.
    pub words_len: Seq<int>,
    /// Current mode.
    pub state: State,
}

impl View for Viteditor {
    type V = EditorView;

    open spec fn view(&self) -> EditorView {
        EditorView {
            buf: self.buf@.map_values(|line: Vec<char>| line@),
            row: self.cursor.pos.row as int,
            col: self.cursor.pos.column as int,
            word_pos: self.cursor.word_pos as int,
            row_offset: self.row_offset as int,
            words_index: self.words.words_index as int,
            char_index: self.words.char_index as int,
            words_len: self.words.words_len@.map_values(|n: usize| n as int),
            state: self.state,
        }
    }
}

impl EditorView {
    /// The view of a freshly created session: one empty line, everything
    /// else at its origin, Normal mode.
    pub open spec fn initial() -> EditorView {
        EditorView {
            buf: seq![Seq::<char>::empty()],
            row: 0,
            col: 0,
            word_pos: 0,
            row_offset: 0,
            words_index: 0,
            char_index: 0,
            words_len: Seq::<int>::empty(),
            state: State::Normal,
        }
    }

    /// The length of the line the cursor is on.
    pub open spec fn line_len(self) -> int {
        self.buf[self.row].len() as int
    }

    /// The cursor obeys the positional invariant: its row names an
    /// existing line and its column is at most one past that line's end.
    pub open spec fn cursor_ok(self) -> bool {
        &&& self.buf.len() >= 1
        &&& 0 <= self.row < self.buf.len()
        &&& 0 <= self.col <= self.line_len()
    }

    /// The word index holds no negative entry and its pointers are
    /// non-negative, as any session built from machine integers is.
    pub open spec fn words_ok(self) -> bool {
        &&& 0 <= self.words_index
        &&& 0 <= self.char_index
        &&& 0 <= self.word_pos
        &&& forall|i: int| 0 <= i < self.words_len.len() ==> self.words_len[i] >= 0
    }

    /// Everything of a well-formed session except the viewport inequality;
    /// this is all that viewport re-derivation itself needs.
    pub open spec fn valid(self) -> bool {
        &&& self.cursor_ok()
        &&& self.words_ok()
        &&& 0 <= self.row_offset
    }

    /// A well-formed session: valid, and the viewport starts at or above
    /// the cursor row.
    pub open spec fn wf(self) -> bool {
        &&& self.valid()
        &&& self.row_offset <= self.row
    }

    /// The cursor row lies inside the visible window of `rows` buffer rows.
    pub open spec fn in_window(self, rows: int) -> bool {
        self.row_offset <= self.row < self.row_offset + rows
    }

    /// Cursor one step right, clamped to one past the end of the line.
    pub open spec fn right(self) -> EditorView {
        EditorView { col: min(self.col + 1, self.line_len()), ..self }
    }

    /// Cursor one step left, clamped to column zero.
    pub open spec fn left(self) -> EditorView {
        EditorView { col: if self.col > 0 { self.col - 1 } else { self.col }, ..self }
    }

    /// Viewport re-derivation: scroll up just enough to keep the cursor
    /// row at or below the top, then down just enough to keep it inside
    /// a window of `rows` visible rows.
    pub open spec fn scrolled(self, rows: int) -> EditorView {
        let up = min(self.row_offset, self.row);
        let off = if self.row + 1 >= rows { max(up, self.row + 1 - rows) } else { up };
        EditorView { row_offset: off, ..self }
    }

    /// Cursor one row up if possible, the column clamped to the new line's
    /// length, followed by viewport re-derivation.
    pub open spec fn up(self, rows: int) -> EditorView {
        let moved = if self.row > 0 {
            EditorView {
                row: self.row - 1,
                col: min(self.buf[self.row - 1].len() as int, self.col),
                ..self
            }
        } else {
            self
        };
        moved.scrolled(rows)
    }

    /// Cursor one row down if possible, the column clamped to the new
    /// line's length, followed by viewport re-derivation.
    pub open spec fn down(self, rows: int) -> EditorView {
        let moved = if self.row + 1 < self.buf.len() {
            EditorView {
                row: self.row + 1,
                col: min(self.col, self.buf[self.row + 1].len() as int),
                ..self
            }
        } else {
            self
        };
        moved.scrolled(rows)
    }

    /// One character inserted at the cursor column of the cursor line,
    /// then the cursor advanced one step right.
    pub open spec fn inserted(self, c: char) -> EditorView {
        let grown = EditorView {
            buf: self.buf.update(self.row, self.buf[self.row].insert(self.col, c)),
            ..self
        };
        grown.right()
    }

    /// `n` clamped steps right in a row.
    pub open spec fn right_n(self, n: nat) -> EditorView
        decreases n,
    {
        if n == 0 {
            self
        } else {
            self.right().right_n((n - 1) as nat)
        }
    }

    /// Best-effort word skip: one more clamped step right than the length
    /// recorded for the current word, and a no-op when the word pointer
    /// has run off the index. The mapping from flattened word offsets back
    /// to multi-line cursor motion is approximate by design: the skip is
    /// single-line biased and the word pointer is not advanced.
    pub open spec fn word_skip(self) -> EditorView {
        if 0 <= self.words_index < self.words_len.len() {
            self.right_n((self.words_len[self.words_index] + 1) as nat)
        } else {
            self
        }
    }

    /// Repeated clamped right steps touch nothing but the column.
    pub proof fn lemma_right_n_frame(self, n: nat)
        ensures
            self.right_n(n) == (EditorView { col: self.right_n(n).col, ..self }),
        decreases n,
    {
        if n != 0 {
            self.right().lemma_right_n_frame((n - 1) as nat);
        }
    }

    /// A word skip touches nothing but the column.
    pub proof fn lemma_word_skip_frame(self)
        ensures
            self.word_skip() == (EditorView { col: self.word_skip().col, ..self }),
    {
        if 0 <= self.words_index < self.words_len.len() {
            self.lemma_right_n_frame((self.words_len[self.words_index] + 1) as nat);
        }
    }

    /// The modal transition table: one consumed event, the action it
    /// triggers, and the next mode. Unmapped events are absorbed without
    /// any change.
    pub open spec fn step(self, e: KeyEvent, rows: int) -> EditorView {
        match self.state {
            State::Normal => match e {
                KeyEvent::Exit => EditorView { state: State::Exit, ..self },
                KeyEvent::Up => self.up(rows),
                KeyEvent::Down => self.down(rows),
                KeyEvent::Left => self.left(),
                KeyEvent::Right => self.right(),
                KeyEvent::Char(c) => {
                    if c == 'k' {
                        self.up(rows)
                    } else if c == 'j' {
                        self.down(rows)
                    } else if c == 'h' {
                        self.left()
                    } else if c == 'l' {
                        self.right()
                    } else if c == 'e' {
                        self.word_skip()
                    } else if c == 'i' {
                        EditorView { state: State::Insert, ..self }
                    } else {
                        self
                    }
                },
                _ => self,
            },
            State::Insert => match e {
                KeyEvent::Char(c) => self.inserted(c),
                KeyEvent::Esc => EditorView { state: State::Normal, ..self },
                _ => self,
            },
            State::Exit => self,
        }
    }
}

} // verus!
