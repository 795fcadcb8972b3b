//! A single line of text split at a cursor.

use vstd::prelude::*;
use crate::text::{chars_of, string_of};

verus! {

/// The line `t` after typing `ch` at column `c`.
pub open spec fn inserted(t: Seq<char>, c: nat, ch: char) -> Seq<char> {
    t.take(c as int).push(ch) + t.skip(c as int)
}

/// The line `t` after erasing the character left of column `c`.
pub open spec fn erased(t: Seq<char>, c: nat) -> Seq<char> {
    if c == 0 {
        t
    } else {
        t.take(c - 1) + t.skip(c as int)
    }
}

/// A line and a cursor column after typing each character of `s` in turn.
pub open spec fn typed(t: Seq<char>, c: nat, s: Seq<char>) -> (Seq<char>, nat)
    decreases s.len(),
{
    if s.len() == 0 {
        (t, c)
    } else {
        typed(inserted(t, c, s[0]), c + 1, s.skip(1))
    }
}

/// A line and a cursor column after `k` backspaces.
pub open spec fn erased_times(t: Seq<char>, c: nat, k: nat) -> (Seq<char>, nat)
    decreases k,
{
    if k == 0 {
        (t, c)
    } else {
        erased_times(erased(t, c), if c > 0 { (c - 1) as nat } else { 0 }, (k - 1) as nat)
    }
}

/// Typing a string and then erasing as many characters gives back the line
/// and the cursor column it started from.
pub proof fn lemma_type_then_erase(t: Seq<char>, c: nat, s: Seq<char>)
    requires
        c <= t.len(),
    ensures
        ({
            let (t1, c1) = typed(t, c, s);
            erased_times(t1, c1, s.len()) == (t, c)
        }),
{
    lemma_typed(t, c, s);
    lemma_erase_typed(t, c, s);
}

proof fn lemma_typed(t: Seq<char>, c: nat, s: Seq<char>)
    requires
        c <= t.len(),
    ensures
        typed(t, c, s) == (t.take(c as int) + s + t.skip(c as int), c + s.len()),
    decreases s.len(),
{
    if s.len() > 0 {
        let t1 = inserted(t, c, s[0]);
        lemma_typed(t1, c + 1, s.skip(1));
        assert(t1.take(c + 1 as int) + s.skip(1) + t1.skip(c + 1 as int) =~= t.take(c as int) + s + t.skip(
            c as int,
        ));
    } else {
        assert(t.take(c as int) + s + t.skip(c as int) =~= t);
    }
}

proof fn lemma_erase_typed(t: Seq<char>, c: nat, s: Seq<char>)
    requires
        c <= t.len(),
    ensures
        erased_times(t.take(c as int) + s + t.skip(c as int), c + s.len(), s.len()) == (t, c),
    decreases s.len(),
{
    if s.len() == 0 {
        assert(t.take(c as int) + s + t.skip(c as int) =~= t);
    } else {
        let u = t.take(c as int) + s + t.skip(c as int);
        let s1 = s.drop_last();
        assert(erased(u, c + s.len()) =~= t.take(c as int) + s1 + t.skip(c as int));
        lemma_erase_typed(t, c, s1);
    }
}

/// One line of text with a cursor. Characters left of the cursor are kept in
/// order in `before`; characters right of it are kept in `after`, nearest to
/// the cursor last, so that moving the cursor is a push and a pop.
pub struct Zipper {
    before: Vec<char>,
    after: Vec<char>,
}

impl Zipper {
    /// The full text of the line.
    pub closed spec fn text(&self) -> Seq<char> {
        self.before@ + self.after@.reverse()
    }

    /// The cursor column: how many characters lie left of the cursor.
    pub closed spec fn column(&self) -> nat {
        self.before@.len()
    }

    /// The cursor never lies past the end of the line.
    pub proof fn lemma_column_in_line(&self)
        ensures
            self.column() <= self.text().len(),
    {
    }

    /// An empty line.
    pub fn new() -> (z: Zipper)
        ensures
            z.text() == Seq::<char>::empty(),
            z.column() == 0,
    {
        let z = Zipper { before: Vec::new(), after: Vec::new() };
        assert(z.text() =~= Seq::<char>::empty());
        z
    }

    /// A line holding `text`, with the cursor at column 0.
    pub fn from_str(text: &str) -> (z: Zipper)
        ensures
            z.text() == text@,
            z.column() == 0,
    {
        let chars = chars_of(text);
        let mut after: Vec<char> = Vec::new();
        let mut i: usize = chars.len();
        while i > 0
            invariant
                i <= chars@.len(),
                after@ == chars@.subrange(i as int, chars@.len() as int).reverse(),
            decreases i,
        {
            i -= 1;
            after.push(chars[i]);
            assert(after@ =~= chars@.subrange(i as int, chars@.len() as int).reverse());
        }
        let z = Zipper { before: Vec::new(), after };
        assert(chars@.subrange(0, chars@.len() as int) == chars@);
        assert(z.text() =~= text@);
        z
    }

    /// Moves the cursor one character left; nothing happens at column 0.
    pub fn move_left(&mut self)
        ensures
            final(self).text() == old(self).text(),
            final(self).column() == if old(self).column() > 0 {
                (old(self).column() - 1) as nat
            } else {
                0
            },
    {
        if let Some(c) = self.before.pop() {
            self.after.push(c);
            assert(self.text() =~= old(self).text());
        }
    }

    /// Moves the cursor one character right; nothing happens at the line's end.
    pub fn move_right(&mut self)
        ensures
            final(self).text() == old(self).text(),
            final(self).column() == if old(self).column() < old(self).text().len() {
                old(self).column() + 1
            } else {
                old(self).column()
            },
    {
        if let Some(c) = self.after.pop() {
            self.before.push(c);
            assert(self.text() =~= old(self).text());
        }
    }

    /// Inserts `c` at the cursor and moves the cursor past it.
    pub fn insert(&mut self, c: char)
        ensures
            final(self).text() == inserted(old(self).text(), old(self).column(), c),
            final(self).column() == old(self).column() + 1,
    {
        self.before.push(c);
        assert(self.text() =~= inserted(old(self).text(), old(self).column(), c));
    }

    /// Removes the character left of the cursor; nothing happens at column 0.
    pub fn delete(&mut self)
        ensures
            old(self).column() == 0 ==> *final(self) == *old(self),
            final(self).text() == erased(old(self).text(), old(self).column()),
            final(self).column() == if old(self).column() > 0 {
                (old(self).column() - 1) as nat
            } else {
                0
            },
    {
        if self.before.len() > 0 {
            self.before.pop();
            assert(self.text() =~= erased(old(self).text(), old(self).column()));
        }
    }

    /// The cursor column.
    pub fn cursor_position(&self) -> (r: usize)
        ensures
            r == self.column(),
            r <= self.text().len(),
    {
        self.before.len()
    }

    /// Puts the cursor at column `pos`, or at the line's end if the line is shorter.
    pub fn set_cursor_position(&mut self, pos: usize)
        ensures
            final(self).text() == old(self).text(),
            final(self).column() == if pos <= old(self).text().len() {
                pos as nat
            } else {
                old(self).text().len()
            },
    {
        let ghost full = self.text();
        let mut content: Vec<char> = Vec::new();
        let mut i: usize = 0;
        while i < self.before.len()
            invariant
                i <= self.before@.len(),
                content@ == self.before@.take(i as int),
            decreases self.before@.len() - i,
        {
            content.push(self.before[i]);
            i += 1;
            assert(content@ =~= self.before@.take(i as int));
        }
        let mut j: usize = self.after.len();
        while j > 0
            invariant
                j <= self.after@.len(),
                content@ == self.before@ + self.after@.subrange(j as int, self.after@.len() as int).reverse(),
            decreases j,
        {
            j -= 1;
            content.push(self.after[j]);
            assert(content@ =~= self.before@ + self.after@.subrange(j as int, self.after@.len() as int).reverse());
        }
        assert(self.after@.subrange(0, self.after@.len() as int) == self.after@);
        assert(content@ == full);
        let split = if pos < content.len() { pos } else { content.len() };
        let mut before: Vec<char> = Vec::new();
        let mut k: usize = 0;
        while k < split
            invariant
                split <= content@.len(),
                k <= split,
                before@ == content@.take(k as int),
            decreases split - k,
        {
            before.push(content[k]);
            k += 1;
            assert(before@ =~= content@.take(k as int));
        }
        let mut after: Vec<char> = Vec::new();
        let mut m: usize = content.len();
        while m > split
            invariant
                split <= m <= content@.len(),
                after@ == content@.subrange(m as int, content@.len() as int).reverse(),
            decreases m,
        {
            m -= 1;
            after.push(content[m]);
            assert(after@ =~= content@.subrange(m as int, content@.len() as int).reverse());
        }
        self.before = before;
        self.after = after;
        assert(self.text() =~= full);
    }

    /// The full text of the line.
    pub fn to_string(&self) -> (r: String)
        ensures
            r@ == self.text(),
    {
        let mut content: Vec<char> = Vec::new();
        let mut i: usize = 0;
        while i < self.before.len()
            invariant
                i <= self.before@.len(),
                content@ == self.before@.take(i as int),
            decreases self.before@.len() - i,
        {
            content.push(self.before[i]);
            i += 1;
            assert(content@ =~= self.before@.take(i as int));
        }
        let mut j: usize = self.after.len();
        while j > 0
            invariant
                j <= self.after@.len(),
                content@ == self.before@ + self.after@.subrange(j as int, self.after@.len() as int).reverse(),
            decreases j,
        {
            j -= 1;
            content.push(self.after[j]);
            assert(content@ =~= self.before@ + self.after@.subrange(j as int, self.after@.len() as int).reverse());
        }
        assert(self.after@.subrange(0, self.after@.len() as int) == self.after@);
        string_of(content.as_slice())
    }
}

} // verus!
