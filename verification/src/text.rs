//! Construction of a buffer from raw text: splitting on line breaks.
//!
//! A line break is a line feed or a carriage return followed by a line
//! feed; a final line break is optional and produces no trailing empty
//! line. An empty document nevertheless always yields one empty line, so
//! a buffer is never empty.

use vstd::prelude::*;

verus! {

/// The index of the first line feed at or after `i`, or the length of
/// `s` when there is none.
pub open spec fn find_nl(s: Seq<char>, i: int) -> int
    decreases s.len() - i,
{
    if i < 0 || i >= s.len() {
        s.len() as int
    } else if s[i] == '\n' {
        i
    } else {
        find_nl(s, i + 1)
    }
}

/// One trailing carriage return removed, for a piece that sat before a
/// line feed.
pub open spec fn chop_cr(line: Seq<char>) -> Seq<char> {
    if line.len() > 0 && line[line.len() - 1] == '\r' {
        line.drop_last()
    } else {
        line
    }
}

/// The lines of `s`: pieces between line feeds, each stripped of one
/// carriage return that immediately preceded the line feed. A final line
/// break ends the last line rather than opening an empty one, and an
/// empty text has no lines at all.
pub open spec fn lines_of(s: Seq<char>) -> Seq<Seq<char>>
    decreases s.len(),
{
    if s.len() == 0 {
        Seq::<Seq<char>>::empty()
    } else {
        let j = find_nl(s, 0);
        if j < 0 || j >= s.len() {
            seq![s]
        } else {
            seq![chop_cr(s.take(j))] + lines_of(s.skip(j + 1))
        }
    }
}

/// The buffer a text opens into: its lines, or a single empty line when
/// the text has none.
pub open spec fn buffer_of(s: Seq<char>) -> Seq<Seq<char>> {
    if lines_of(s).len() == 0 {
        seq![Seq::<char>::empty()]
    } else {
        lines_of(s)
    }
}

/// `find_nl` finds exactly the position `j` that bounds a line-feed-free
/// stretch starting at `i`.
proof fn lemma_find_nl_at(s: Seq<char>, i: int, j: int)
    requires
        0 <= i <= j <= s.len(),
        forall|k: int| i <= k < j ==> s[k] != '\n',
        j == s.len() || s[j] == '\n',
    ensures
        find_nl(s, i) == j,
    decreases j - i,
{
    if i < j {
        lemma_find_nl_at(s, i + 1, j);
    }
}

/// Split a text into its lines, as [`lines_of`] describes.
pub fn split_lines(text: &Vec<char>) -> (lines: Vec<Vec<char>>)
    ensures
        lines@.map_values(|line: Vec<char>| line@) == lines_of(text@),
{
    let n = text.len();
    let mut lines: Vec<Vec<char>> = Vec::new();
    let mut cur: Vec<char> = Vec::new();
    let ghost mut start: int = 0;
    let mut i: usize = 0;
    proof {
        assert(lines@.map_values(|line: Vec<char>| line@) =~= Seq::<Seq<char>>::empty());
        assert(text@.skip(0) =~= text@);
        assert(Seq::<Seq<char>>::empty() + lines_of(text@) =~= lines_of(text@));
    }
    while i < n
        invariant
            n == text@.len(),
            0 <= start <= i <= n,
            cur@ == text@.subrange(start, i as int),
            forall|k: int| start <= k < i ==> text@[k] != '\n',
            lines_of(text@) == lines@.map_values(|line: Vec<char>| line@) + lines_of(
                text@.skip(start),
            ),
        decreases n - i,
    {
        let c = text[i];
        if c == '\n' {
            let ghost piece = text@.subrange(start, i as int);
            if cur.len() > 0 && cur[cur.len() - 1] == '\r' {
                cur.pop();
            }
            proof {
                assert(cur@ =~= chop_cr(piece));
                let t = text@.skip(start);
                lemma_find_nl_at(t, 0, i - start);
                assert(t.take(i - start) =~= piece);
                assert(t.skip(i - start + 1) =~= text@.skip(i + 1));
                assert(lines_of(t) == seq![chop_cr(piece)] + lines_of(text@.skip(i + 1)));
                assert((lines@.push(cur)).map_values(|line: Vec<char>| line@) =~= lines@.map_values(
                    |line: Vec<char>| line@,
                ).push(cur@));
            }
            lines.push(cur);
            cur = Vec::new();
            proof {
                start = i + 1;
                assert(cur@ =~= text@.subrange(start, i + 1));
            }
        } else {
            cur.push(c);
            proof {
                assert(cur@ =~= text@.subrange(start, i + 1));
            }
        }
        i = i + 1;
    }
    if cur.len() > 0 {
        proof {
            let t = text@.skip(start);
            lemma_find_nl_at(t, 0, n - start);
            assert(t =~= cur@);
            assert(lines_of(t) == seq![cur@]);
            assert((lines@.push(cur)).map_values(|line: Vec<char>| line@) =~= lines@.map_values(
                |line: Vec<char>| line@,
            ).push(cur@));
        }
        lines.push(cur);
    } else {
        proof {
            assert(start == n);
            assert(text@.skip(start) =~= Seq::<char>::empty());
        }
    }
    lines
}

} // verus!
