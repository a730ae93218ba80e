//! The editor session: the line buffer, cursor, viewport offset, word
//! index and mode, together with the motion, insertion and event-dispatch
//! operations that mutate them.
//!
//! Every operation is specified against the mathematical model in
//! [`crate::model`]: an operation's postcondition states that the new
//! session, seen through its view, is exactly the corresponding model
//! transition applied to the old view.

use vstd::prelude::*;

use crate::model::EditorView;
use crate::text::buffer_of;
use crate::text::split_lines;

verus! {

/// A zero-based buffer position. `row` indexes a line; `column` indexes a
/// character of that line and may point one past its last character (the
/// cursor-at-end-of-line position).
#[derive(Clone, Copy, PartialEq, Eq, Structural, Debug)]
pub struct Position {
    pub row: usize,
    pub column: usize,
}

/// The edit position plus the auxiliary slot reserved for word motion.
#[derive(Clone, Copy, PartialEq, Eq, Structural, Debug)]
pub struct Cursor {
    pub pos: Position,
    pub word_pos: usize,
}

/// Word-motion bookkeeping: a list of word lengths over the flattened
/// buffer text, supplied by an external parser when a document is opened,
/// plus the current word pointer and a sub-word character counter.
#[derive(PartialEq, Eq, Debug)]
pub struct Words {
    pub words_index: usize,
    pub char_index: usize,
    pub words_len: Vec<usize>,
}

/// The session mode. `Exit` is terminal: the driving event loop must stop
/// consuming input once it is reached.
#[derive(Clone, Copy, PartialEq, Eq, Structural, Debug)]
pub enum State {
    Normal,
    Insert,
    Exit,
}

/// An abstract key event. A frontend maps whatever its native input
/// mechanism delivers onto these before they reach the editor core.
#[derive(Clone, Copy, PartialEq, Eq, Structural, Debug)]
pub enum KeyEvent {
    Ctrl(char),
    Char(char),
    Up,
    Down,
    Left,
    Right,
    Esc,
    Exit,
}

/// A whole editor session: the buffer (an ordered sequence of lines of
/// characters, never empty), the cursor, the index of the topmost visible
/// buffer row, the word index, and the current mode.
#[derive(PartialEq, Eq, Debug)]
pub struct Viteditor {
    pub buf: Vec<Vec<char>>,
    pub cursor: Cursor,
    pub row_offset: usize,
    pub words: Words,
    pub state: State,
}

impl Default for Position {
    /// The origin: row 0, column 0.
    fn default() -> (pos: Self)
        ensures
            pos.row == 0 && pos.column == 0,
    {
        Position { row: 0, column: 0 }
    }
}

impl Default for Cursor {
    /// A cursor at the origin with a cleared word slot.
    fn default() -> (cursor: Self)
        ensures
            cursor.pos.row == 0 && cursor.pos.column == 0 && cursor.word_pos == 0,
    {
        Cursor { pos: Position::default(), word_pos: 0 }
    }
}

impl Default for Words {
    /// An empty word index.
    fn default() -> (words: Self)
        ensures
            words.words_index == 0 && words.char_index == 0 && words.words_len@ == Seq::<usize>::empty(),
    {
        Words { words_index: 0, char_index: 0, words_len: Vec::new() }
    }
}

impl Default for Viteditor {
    /// An empty document: a single empty line, the cursor at the origin,
    /// no scroll, an empty word index, and Normal mode.
    fn default() -> (ed: Self)
        ensures
            ed@ == EditorView::initial(),
            ed@.wf(),
    {
        let mut buf: Vec<Vec<char>> = Vec::new();
        buf.push(Vec::new());
        let ed = Viteditor {
            buf,
            cursor: Cursor::default(),
            row_offset: 0,
            words: Words::default(),
            state: State::Normal,
        };
        proof {
            assert(ed@.buf =~= EditorView::initial().buf);
            assert(ed@.words_len =~= EditorView::initial().words_len);
            assert(ed@ =~= EditorView::initial());
        }
        ed
    }
}

impl Viteditor {
    /// How many lines the buffer holds.
    pub fn line_count(&self) -> (n: usize)
        ensures
            n == self@.buf.len(),
    {
        self.buf.len()
    }

    /// A view of line `row`.
    pub fn line(&self, row: usize) -> (line: &Vec<char>)
        requires
            row < self@.buf.len(),
        ensures
            line@ == self@.buf[row as int],
    {
        &self.buf[row]
    }

    /// Replace line `row` wholesale with `new_line`.
    pub fn replace_line(&mut self, row: usize, new_line: Vec<char>)
        requires
            row < old(self)@.buf.len(),
        ensures
            final(self)@ == (EditorView {
                buf: old(self)@.buf.update(row as int, new_line@),
                ..old(self)@
            }),
    {
        let ghost target = EditorView { buf: old(self)@.buf.update(row as int, new_line@), ..old(self)@ };
        self.buf.set(row, new_line);
        proof {
            assert(self@.buf =~= target.buf);
            assert(self@ =~= target);
        }
    }

    /// Move the cursor one column right, clamped to one past the end of
    /// the current line.
    pub fn cursor_right(&mut self)
        requires
            old(self)@.wf(),
        ensures
            final(self)@ == old(self)@.right(),
            final(self)@.wf(),
    {
        let row = self.cursor.pos.row;
        let len = self.buf[row].len();
        if self.cursor.pos.column < len {
            self.cursor.pos.column = self.cursor.pos.column + 1;
        }
    }

    /// Move the cursor one column left, clamped to column zero.
    pub fn cursor_left(&mut self)
        requires
            old(self)@.wf(),
        ensures
            final(self)@ == old(self)@.left(),
            final(self)@.wf(),
    {
        if self.cursor.pos.column > 0 {
            self.cursor.pos.column = self.cursor.pos.column - 1;
        }
    }

    /// Re-derive the viewport for a terminal of `rows` visible rows:
    /// scroll up just enough to keep the cursor row at or below the top,
    /// then down just enough to keep it inside the window.
    pub fn scroll(&mut self, rows: usize)
        requires
            old(self)@.valid(),
        ensures
            final(self)@ == old(self)@.scrolled(rows as int),
            final(self)@.valid(),
            rows >= 1 ==> final(self)@.wf() && final(self)@.in_window(rows as int),
    {
        let count = self.buf.len();
        proof {
            assert(self@.buf.len() == count);
        }
        let row = self.cursor.pos.row;
        if self.row_offset > row {
            self.row_offset = row;
        }
        if row + 1 >= rows {
            let lower = row + 1 - rows;
            if self.row_offset < lower {
                self.row_offset = lower;
            }
        }
    }

    /// Move the cursor one row up if possible, clamping the column to the
    /// new line's length, and re-derive the viewport.
    pub fn cursor_up(&mut self, rows: usize)
        requires
            old(self)@.wf(),
        ensures
            final(self)@ == old(self)@.up(rows as int),
            final(self)@.valid(),
            rows >= 1 ==> final(self)@.wf() && final(self)@.in_window(rows as int),
    {
        if self.cursor.pos.row > 0 {
            self.cursor.pos.row = self.cursor.pos.row - 1;
            let len = self.buf[self.cursor.pos.row].len();
            if self.cursor.pos.column > len {
                self.cursor.pos.column = len;
            }
        }
        self.scroll(rows);
    }

    /// Move the cursor one row down if possible, clamping the column to
    /// the new line's length, and re-derive the viewport.
    pub fn cursor_down(&mut self, rows: usize)
        requires
            old(self)@.wf(),
        ensures
            final(self)@ == old(self)@.down(rows as int),
            final(self)@.valid(),
            rows >= 1 ==> final(self)@.wf() && final(self)@.in_window(rows as int),
    {
        let count = self.buf.len();
        proof {
            assert(self@.buf.len() == count);
        }
        if self.cursor.pos.row + 1 < count {
            self.cursor.pos.row = self.cursor.pos.row + 1;
            let len = self.buf[self.cursor.pos.row].len();
            if self.cursor.pos.column > len {
                self.cursor.pos.column = len;
            }
        }
        self.scroll(rows);
    }

    /// Insert one character at the cursor column of the cursor line, then
    /// advance the cursor one column right. No line splitting happens:
    /// a line-break character is inserted like any other character.
    pub fn insert(&mut self, ch: char)
        requires
            old(self)@.wf(),
        ensures
            final(self)@ == old(self)@.inserted(ch),
            final(self)@.wf(),
    {
        let ghost grown = EditorView {
            buf: old(self)@.buf.update(old(self)@.row, old(self)@.buf[old(self)@.row].insert(old(self)@.col, ch)),
            ..old(self)@
        };
        let row = self.cursor.pos.row;
        let col = self.cursor.pos.column;
        self.buf[row].insert(col, ch);
        proof {
            assert(self@.buf =~= grown.buf);
            assert(self@ =~= grown);
        }
        self.cursor_right();
    }

    /// Best-effort word skip: step right once more than the recorded
    /// length of the current word; do nothing when the word pointer has
    /// run off the index. Approximate by design: the motion is clamped
    /// per line and the word pointer is not advanced.
    pub fn skip_word(&mut self)
        requires
            old(self)@.wf(),
        ensures
            final(self)@ == old(self)@.word_skip(),
            final(self)@.wf(),
    {
        let wi = self.words.words_index;
        if wi < self.words.words_len.len() {
            let ghost goal = old(self)@.word_skip();
            let n = self.words.words_len[wi];
            proof {
                assert(old(self)@.words_len[wi as int] == n as int);
                assert(goal == old(self)@.right_n((n + 1) as nat));
            }
            self.cursor_right();
            let mut remaining = n;
            while remaining > 0
                invariant
                    self@.wf(),
                    self@.right_n(remaining as nat) == goal,
                decreases remaining,
            {
                self.cursor_right();
                remaining = remaining - 1;
            }
        }
    }

    /// Open a document: replace the buffer wholesale with the lines of
    /// `text` (an empty text becomes one empty line) and store the word
    /// lengths that the external word parser computed for that text.
    /// Cursor, viewport and mode are left as they were, as on a fresh
    /// session they are all at their origin.
    pub fn open(&mut self, text: &Vec<char>, words_len: Vec<usize>)
        ensures
            final(self)@ == (EditorView {
                buf: buffer_of(text@),
                words_len: words_len@.map_values(|k: usize| k as int),
                ..old(self)@
            }),
            old(self)@.row == 0 && old(self)@.col == 0 && old(self)@.row_offset == 0
                ==> final(self)@.wf(),
    {
        let ghost target = EditorView {
            buf: buffer_of(text@),
            words_len: words_len@.map_values(|k: usize| k as int),
            ..old(self)@
        };
        let mut lines = split_lines(text);
        if lines.len() == 0 {
            lines.push(Vec::new());
            proof {
                assert(lines@.map_values(|line: Vec<char>| line@) =~= buffer_of(text@));
            }
        }
        self.buf = lines;
        self.words.words_len = words_len;
        proof {
            assert(self@.buf =~= target.buf);
            assert(self@ =~= target);
        }
    }

    /// Dispatch one abstract key event through the modal transition
    /// table, for a terminal of `rows` visible rows. Unmapped events are
    /// silently absorbed.
    pub fn event(&mut self, event: KeyEvent, rows: usize)
        requires
            old(self)@.wf(),
        ensures
            final(self)@ == old(self)@.step(event, rows as int),
            rows >= 1 ==> final(self)@.wf(),
    {
        match self.state {
            State::Normal => match event {
                KeyEvent::Exit => {
                    self.state = State::Exit;
                },
                KeyEvent::Up | KeyEvent::Char('k') => {
                    self.cursor_up(rows);
                    self.state = State::Normal;
                },
                KeyEvent::Down | KeyEvent::Char('j') => {
                    self.cursor_down(rows);
                    self.state = State::Normal;
                },
                KeyEvent::Left | KeyEvent::Char('h') => {
                    self.cursor_left();
                    self.state = State::Normal;
                },
                KeyEvent::Right | KeyEvent::Char('l') => {
                    self.cursor_right();
                    self.state = State::Normal;
                },
                KeyEvent::Char('e') => {
                    proof {
                        old(self)@.lemma_word_skip_frame();
                    }
                    self.skip_word();
                    self.state = State::Normal;
                },
                KeyEvent::Char('i') => {
                    self.state = State::Insert;
                },
                _ => {
                    self.state = State::Normal;
                },
            },
            State::Insert => match event {
                KeyEvent::Char(c) => {
                    self.insert(c);
                    self.state = State::Insert;
                },
                KeyEvent::Esc => {
                    self.state = State::Normal;
                },
                _ => {},
            },
            State::Exit => {
                self.state = State::Exit;
            },
        }
    }
}

} // verus!
