//! A document buffer: the lines above the cursor, the cursor's line as a
//! zipper, and the lines below it.

use vstd::prelude::*;
use crate::text::{
    chars_of, join_lines, joined, lemma_join_then_split, lines_of, split_lines, string_of_range,
    no_line_feeds, views,
};
use crate::zipper::{inserted, Zipper};

verus! {

/// `a` if it is at most `b`, else `b`.
pub open spec fn min_nat(a: nat, b: nat) -> nat {
    if a <= b {
        a
    } else {
        b
    }
}

/// The lines `ls` with line `r` split in two at column `c`.
pub open spec fn split_row(ls: Seq<Seq<char>>, r: int, c: int) -> Seq<Seq<char>> {
    ls.take(r) + seq![ls[r].take(c), ls[r].skip(c)] + ls.skip(r + 1)
}

/// The lines `ls` with line `r` joined to the end of line `r - 1`.
pub open spec fn merge_row(ls: Seq<Seq<char>>, r: int) -> Seq<Seq<char>> {
    ls.take(r - 1) + seq![ls[r - 1] + ls[r]] + ls.skip(r + 1)
}

/// Splitting a line at a column and then joining the second part back to the
/// first gives back the document, and the cursor comes back to where it was.
pub proof fn lemma_split_then_merge(ls: Seq<Seq<char>>, r: int, c: int)
    requires
        0 <= r < ls.len(),
        0 <= c <= ls[r].len(),
    ensures
        merge_row(split_row(ls, r, c), r + 1) == ls,
        split_row(ls, r, c)[r].len() == c,
{
    let m = split_row(ls, r, c);
    assert(m[r] + m[r + 1] =~= ls[r]);
    assert(merge_row(m, r + 1) =~= ls);
}

/// Saving a document, its lines joined with line feeds, and loading the saved
/// text gives back the same lines, for every document.
pub proof fn lemma_save_then_load(ls: Seq<Seq<char>>)
    requires
        no_line_feeds(ls),
    ensures
        lines_of(joined(ls)) == ls,
{
    lemma_join_then_split(ls);
}

/// One open document with its cursor, backing path and viewport.
pub struct Page {
    /// The lines above the cursor's line, in document order.
    pub before: Vec<String>,
    /// The cursor's line.
    pub current: Zipper,
    /// The lines below the cursor's line, in document order.
    pub after: Vec<String>,
    pub file_path: Option<String>,
    pub scroll_offset: usize,
    pub horizontal_scroll_offset: usize,
}

impl Page {
    /// The document, line by line.
    pub open spec fn lines(&self) -> Seq<Seq<char>> {
        views(self.before@) + seq![self.current.text()] + views(self.after@)
    }

    /// The cursor's row.
    pub open spec fn row(&self) -> nat {
        self.before@.len()
    }

    /// The cursor's column.
    pub open spec fn col(&self) -> nat {
        self.current.column()
    }

    /// The backing path and the viewport are those of `o`.
    pub open spec fn same_frame(&self, o: &Page) -> bool {
        &&& self.file_path == o.file_path
        &&& self.scroll_offset == o.scroll_offset
        &&& self.horizontal_scroll_offset == o.horizontal_scroll_offset
    }

    /// `q` is `p` with the cursor one line up, its column kept where the line
    /// allows; at the first line nothing changes.
    pub open spec fn moved_up(p: Page, q: Page) -> bool {
        &&& q.lines() == p.lines()
        &&& p.row() == 0 ==> q == p
        &&& p.row() > 0 ==> q.row() == p.row() - 1 && q.col() == min_nat(
            p.col(),
            p.lines()[p.row() - 1].len(),
        )
        &&& q.same_frame(&p)
    }

    /// `q` is `p` with the cursor one line down, its column kept where the
    /// line allows; at the last line nothing changes.
    pub open spec fn moved_down(p: Page, q: Page) -> bool {
        &&& q.lines() == p.lines()
        &&& p.row() + 1 >= p.lines().len() ==> q == p
        &&& p.row() + 1 < p.lines().len() ==> q.row() == p.row() + 1 && q.col() == min_nat(
            p.col(),
            p.lines()[p.row() + 1 as int].len(),
        )
        &&& q.same_frame(&p)
    }

    /// `q` is `p` with the cursor's line split at the cursor, the cursor at
    /// the start of the second part.
    pub open spec fn line_split(p: Page, q: Page) -> bool {
        &&& q.lines() == split_row(p.lines(), p.row() as int, p.col() as int)
        &&& q.row() == p.row() + 1
        &&& q.col() == 0
        &&& q.same_frame(&p)
    }

    /// `q` is `p` after a backspace: the character left of the cursor is gone,
    /// or at column 0 the line is joined to the one above, the cursor at the
    /// join; at the very start nothing changes.
    pub open spec fn deleted(p: Page, q: Page) -> bool {
        let r = p.row() as int;
        let c = p.col() as int;
        let ls = p.lines();
        &&& if c == 0 && r > 0 {
            &&& q.lines() == merge_row(ls, r)
            &&& q.row() == r - 1
            &&& q.col() == ls[r - 1].len()
        } else if c > 0 {
            &&& q.lines() == ls.update(r, ls[r].take(c - 1) + ls[r].skip(c))
            &&& q.row() == r
            &&& q.col() == c - 1
        } else {
            q == p
        }
        &&& q.same_frame(&p)
    }

    /// `q` is `p` with the cursor at `row` and `col`, each clamped to the
    /// document.
    pub open spec fn moved_to(p: Page, q: Page, row: int, col: int) -> bool {
        &&& q.lines() == p.lines()
        &&& q.row() == if row < p.lines().len() { row } else { p.lines().len() - 1 }
        &&& q.col() == if col <= q.lines()[q.row() as int].len() {
            col
        } else {
            q.lines()[q.row() as int].len() as int
        }
        &&& q.same_frame(&p)
    }

    /// `q` is `p` with `ch` typed at the cursor.
    pub open spec fn char_inserted(p: Page, q: Page, ch: char) -> bool {
        &&& q.before == p.before
        &&& q.after == p.after
        &&& q.current.text() == inserted(p.current.text(), p.col(), ch)
        &&& q.col() == p.col() + 1
        &&& q.same_frame(&p)
    }

    /// `q` is `p` with the cursor one character left, if it can go.
    pub open spec fn moved_left(p: Page, q: Page) -> bool {
        &&& q.before == p.before
        &&& q.after == p.after
        &&& q.current.text() == p.current.text()
        &&& q.col() == if p.col() > 0 { (p.col() - 1) as nat } else { 0 }
        &&& q.same_frame(&p)
    }

    /// `q` is `p` with the cursor one character right, if it can go.
    pub open spec fn moved_right(p: Page, q: Page) -> bool {
        &&& q.before == p.before
        &&& q.after == p.after
        &&& q.current.text() == p.current.text()
        &&& q.col() == if p.col() < p.current.text().len() { p.col() + 1 } else { p.col() }
        &&& q.same_frame(&p)
    }

    /// An empty document with no backing path.
    pub fn new() -> (p: Page)
        ensures
            p.lines() == seq![Seq::<char>::empty()],
            p.row() == 0,
            p.col() == 0,
            p.file_path is None,
            p.scroll_offset == 0,
            p.horizontal_scroll_offset == 0,
    {
        let p = Page {
            before: Vec::new(),
            current: Zipper::new(),
            after: Vec::new(),
            file_path: None,
            scroll_offset: 0,
            horizontal_scroll_offset: 0,
        };
        assert(p.lines() =~= seq![Seq::<char>::empty()]);
        p
    }

    /// A document backed by `path`, holding `contents` when the file could be
    /// read and empty when it could not (`None`).
    pub fn from_file(path: Option<String>, contents: Option<&str>) -> (p: Page)
        ensures
            p.file_path == path,
            p.lines() == match contents {
                Some(c) => lines_of(c@),
                None => seq![Seq::<char>::empty()],
            },
            p.row() == 0,
            p.col() == 0,
            p.scroll_offset == 0,
            p.horizontal_scroll_offset == 0,
    {
        let mut page = Page::new();
        page.file_path = path;
        if let Some(c) = contents {
            page.load_from_string(c);
        }
        page
    }

    /// Replaces the document with the lines of `contents`, cursor at the start.
    pub fn load_from_string(&mut self, contents: &str)
        ensures
            final(self).lines() == lines_of(contents@),
            final(self).row() == 0,
            final(self).col() == 0,
            final(self).same_frame(old(self)),
    {
        let mut lines = split_lines(contents);
        let ghost all = views(lines@);
        assert(lines@.len() == all.len());
        let first = lines.remove(0);
        self.current = Zipper::from_str(first.as_str());
        self.before = Vec::new();
        self.after = lines;
        assert(self.lines() =~= all);
    }

    /// Moves the cursor one line up, keeping its column where the line allows.
    pub fn move_up(&mut self)
        ensures
            Page::moved_up(*old(self), *final(self)),
    {
        if self.before.len() > 0 {
            let col = self.current.cursor_position();
            let cur = self.current.to_string();
            let ghost b = self.before@;
            let prev = match self.before.pop() {
                Some(l) => l,
                None => String::new(),
            };
            assert(prev == b.last());
            self.after.insert(0, cur);
            let mut z = Zipper::from_str(prev.as_str());
            z.set_cursor_position(col);
            self.current = z;
            assert(views(b) =~= views(self.before@).push(prev@));
            assert(self.lines() =~= old(self).lines());
        }
    }

    /// Moves the cursor one line down, keeping its column where the line allows.
    pub fn move_down(&mut self)
        ensures
            Page::moved_down(*old(self), *final(self)),
    {
        if self.after.len() > 0 {
            let col = self.current.cursor_position();
            let cur = self.current.to_string();
            let ghost a = self.after@;
            let next = self.after.remove(0);
            self.before.push(cur);
            let mut z = Zipper::from_str(next.as_str());
            z.set_cursor_position(col);
            self.current = z;
            assert(views(a) =~= seq![next@] + views(self.after@));
            assert(self.lines() =~= old(self).lines());
        }
    }

    /// Splits the cursor's line at the cursor and moves to the start of the
    /// second part.
    pub fn insert_newline(&mut self)
        ensures
            Page::line_split(*old(self), *final(self)),
    {
        let col = self.current.cursor_position();
        let text = self.current.to_string();
        let cs = chars_of(text.as_str());
        let left = string_of_range(cs.as_slice(), 0, col);
        let right = string_of_range(cs.as_slice(), col, cs.len());
        self.current = Zipper::from_str(left.as_str());
        self.after.insert(0, right);
        proof {
            let r = old(self).row() as int;
            let l = old(self).current.text();
            assert(old(self).lines().take(r) =~= views(old(self).before@));
            assert(old(self).lines().skip(r + 1) =~= views(old(self).after@));
            assert(views(self.after@) =~= seq![right@] + views(old(self).after@));
            assert(self.lines() =~= old(self).lines().take(r) + seq![
                l.take(col as int),
                l.skip(col as int),
            ] + old(self).lines().skip(r + 1));
        }
        self.move_down();
        self.current.set_cursor_position(0);
    }

    /// Backspace: removes the character left of the cursor, or at the start of
    /// a line joins it to the line above, the cursor at the join.
    pub fn delete(&mut self)
        ensures
            Page::deleted(*old(self), *final(self)),
    {
        if self.current.cursor_position() == 0 && self.before.len() > 0 {
            let ghost b = self.before@;
            let prev = match self.before.pop() {
                Some(l) => l,
                None => String::new(),
            };
            assert(prev == b.last());
            let prev_chars = chars_of(prev.as_str());
            let prev_len = prev_chars.len();
            let cur = self.current.to_string();
            let mut merged = prev;
            merged.append(cur.as_str());
            let mut z = Zipper::from_str(merged.as_str());
            z.set_cursor_position(prev_len);
            self.current = z;
            proof {
                let r = old(self).row() as int;
                let ls = old(self).lines();
                assert(views(b) =~= views(self.before@).push(b.last()@));
                assert(ls.take(r - 1) =~= views(self.before@));
                assert(ls[r - 1] == b.last()@);
                assert(ls.skip(r + 1) =~= views(self.after@));
                assert(self.lines() =~= ls.take(r - 1) + seq![ls[r - 1] + ls[r]] + ls.skip(r + 1));
            }
        } else {
            self.current.delete();
            proof {
                let r = old(self).row() as int;
                let c = old(self).col() as int;
                let ls = old(self).lines();
                if c > 0 {
                    assert(self.lines() =~= ls.update(r, ls[r].take(c - 1) + ls[r].skip(c)));
                }
            }
        }
    }

    /// Puts the cursor at `row` and `col`, each clamped to the document.
    pub fn move_cursor_to(&mut self, row: usize, col: usize)
        ensures
            Page::moved_to(*old(self), *final(self), row as int, col as int),
            row < old(self).lines().len() ==> final(self).row() == row,
            row < old(self).lines().len() && col <= old(self).lines()[row as int].len()
                ==> final(self).col() == col,
    {
        let mut lines = self.get_all_lines();
        assert(lines@.len() == views(lines@).len());
        let last = lines.len() - 1;
        let target = if row < last { row } else { last };
        let after = lines.split_off(target + 1);
        let ghost front = lines@;
        let cur = match lines.pop() {
            Some(l) => l,
            None => String::new(),
        };
        assert(cur == front.last());
        self.before = lines;
        self.after = after;
        let mut z = Zipper::from_str(cur.as_str());
        z.set_cursor_position(col);
        self.current = z;
        proof {
            assert(views(front) =~= views(self.before@).push(cur@));
            assert(self.lines() =~= old(self).lines());
        }
    }

    /// The document, line by line.
    pub fn get_all_lines(&self) -> (r: Vec<String>)
        ensures
            views(r@) == self.lines(),
    {
        let mut r: Vec<String> = Vec::new();
        let mut i: usize = 0;
        while i < self.before.len()
            invariant
                i <= self.before@.len(),
                views(r@) == views(self.before@.take(i as int)),
            decreases self.before@.len() - i,
        {
            let s = self.before[i].clone();
            assert(s@ == self.before@[i as int]@);
            let ghost prev = r@;
            r.push(s);
            assert(views(r@) =~= views(prev).push(s@));
            assert(views(self.before@.take(i + 1)) =~= views(self.before@.take(i as int)).push(s@));
            i += 1;
            assert(views(r@) =~= views(self.before@.take(i as int)));
        }
        assert(self.before@.take(i as int) == self.before@);
        r.push(self.current.to_string());
        let mut j: usize = 0;
        while j < self.after.len()
            invariant
                j <= self.after@.len(),
                views(r@) == views(self.before@) + seq![self.current.text()] + views(
                    self.after@.take(j as int),
                ),
            decreases self.after@.len() - j,
        {
            let s = self.after[j].clone();
            assert(s@ == self.after@[j as int]@);
            let ghost prev = r@;
            r.push(s);
            assert(views(r@) =~= views(prev).push(s@));
            assert(views(self.after@.take(j + 1)) =~= views(self.after@.take(j as int)).push(s@));
            j += 1;
            assert(views(r@) =~= views(self.before@) + seq![self.current.text()] + views(
                self.after@.take(j as int),
            ));
        }
        assert(self.after@.take(j as int) == self.after@);
        assert(views(r@) =~= self.lines());
        r
    }

    /// The document as saved: its lines joined with line feeds.
    pub fn contents(&self) -> (r: String)
        ensures
            r@ == joined(self.lines()),
    {
        let lines = self.get_all_lines();
        join_lines(&lines)
    }

    /// The cursor's row.
    pub fn cursor_row(&self) -> (r: usize)
        ensures
            r == self.row(),
    {
        self.before.len()
    }
}

} // verus!
