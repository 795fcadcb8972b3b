//! Text as character sequences: conversions between strings and characters,
//! and splitting text into lines and joining lines again.

use vstd::prelude::*;

verus! {

/// Relies on `String::push`: appends one character to the string.
#[verifier::external_body]
pub(crate) fn push_char(s: &mut String, c: char)
    ensures
        final(s)@ == old(s)@.push(c),
{
    s.push(c)
}

/// Relies on `String::pop`: removes and returns the last character, if any.
#[verifier::external_body]
pub(crate) fn pop_char(s: &mut String) -> (r: Option<char>)
    ensures
        old(s)@.len() == 0 ==> r is None && final(s)@ == old(s)@,
        old(s)@.len() > 0 ==> r == Some(old(s)@.last()) && final(s)@ == old(s)@.drop_last(),
{
    s.pop()
}

/// The characters of `s`, in order.
pub fn chars_of(s: &str) -> (r: Vec<char>)
    ensures
        r@ == s@,
{
    let mut r: Vec<char> = Vec::new();
    for c in it: s.chars()
        invariant
            it.seq() == s@,
            r@ == it.seq().take(it.index() as int),
    {
        r.push(c);
    }
    r
}

/// A string holding the characters of `v`, in order.
pub fn string_of(v: &[char]) -> (r: String)
    ensures
        r@ == v@,
{
    let r = string_of_range(v, 0, v.len());
    assert(v@.subrange(0, v@.len() as int) == v@);
    r
}

/// A string holding the characters of `v` from index `lo` up to `hi`.
pub fn string_of_range(v: &[char], lo: usize, hi: usize) -> (r: String)
    requires
        lo <= hi <= v@.len(),
    ensures
        r@ == v@.subrange(lo as int, hi as int),
{
    let mut r = String::new();
    let mut i: usize = lo;
    while i < hi
        invariant
            lo <= i <= hi <= v@.len(),
            r@ == v@.subrange(lo as int, i as int),
        decreases hi - i,
    {
        push_char(&mut r, v[i]);
        i += 1;
        assert(r@ =~= v@.subrange(lo as int, i as int));
    }
    r
}

/// The views of a sequence of strings.
pub open spec fn views(v: Seq<String>) -> Seq<Seq<char>> {
    v.map_values(|s: String| s@)
}

/// The first index at or after `i` that holds a line feed, or the length of `s`.
pub open spec fn line_end(s: Seq<char>, i: int) -> int
    decreases s.len() - i,
{
    if i >= s.len() || i < 0 {
        s.len() as int
    } else if s[i] == '\n' {
        i
    } else {
        line_end(s, i + 1)
    }
}

/// The lines of `s` from index `i` on, each ended by the next line feed or
/// by the end of `s`.
pub open spec fn lines_from(s: Seq<char>, i: int) -> Seq<Seq<char>>
    decreases s.len() + 1 - i,
    via lines_from_decreases
{
    if i < 0 || i > s.len() {
        Seq::empty()
    } else {
        let e = line_end(s, i);
        seq![s.subrange(i, e)] + if e < s.len() {
            lines_from(s, e + 1)
        } else {
            Seq::empty()
        }
    }
}

/// The lines of `s`: the text between line feeds, so that every line feed
/// ends a line and the text after the last one is the last line, empty if
/// `s` ends in a line feed. Nothing else is removed.
pub open spec fn lines_of(s: Seq<char>) -> Seq<Seq<char>> {
    lines_from(s, 0)
}

/// The lines `ls` joined with a line feed between each two.
pub open spec fn joined(ls: Seq<Seq<char>>) -> Seq<char>
    decreases ls.len(),
{
    if ls.len() == 0 {
        Seq::empty()
    } else if ls.len() == 1 {
        ls[0]
    } else {
        joined(ls.drop_last()) + seq!['\n'] + ls.last()
    }
}

#[via_fn]
proof fn lines_from_decreases(s: Seq<char>, i: int) {
    if 0 <= i <= s.len() {
        lemma_line_end_bounds(s, i);
    }
}

proof fn lemma_line_end_bounds(s: Seq<char>, i: int)
    requires
        0 <= i,
    ensures
        i <= s.len() ==> i <= line_end(s, i) <= s.len(),
        line_end(s, i) < s.len() ==> s[line_end(s, i)] == '\n',
        forall|k: int| i <= k < line_end(s, i) ==> s[k] != '\n',
    decreases s.len() - i,
{
    if i < s.len() && s[i] != '\n' {
        lemma_line_end_bounds(s, i + 1);
    }
}

/// Splits `contents` into lines at every line feed.
pub fn split_lines(contents: &str) -> (r: Vec<String>)
    ensures
        views(r@) == lines_of(contents@),
{
    let cs = chars_of(contents);
    let mut r: Vec<String> = Vec::new();
    let mut i: usize = 0;
    let mut done = false;
    while !done
        invariant
            i <= cs@.len(),
            cs@ == contents@,
            done ==> views(r@) == lines_of(cs@),
            !done ==> views(r@) + lines_from(cs@, i as int) == lines_of(cs@),
        decreases cs@.len() + 1 - i + if done { 0int } else { 1int },
    {
        let mut e: usize = i;
        while e < cs.len() && cs[e] != '\n'
            invariant
                i <= e <= cs@.len(),
                line_end(cs@, e as int) == line_end(cs@, i as int),
            decreases cs@.len() - e,
        {
            e += 1;
        }
        assert(line_end(cs@, e as int) == e);
        let line = string_of_range(cs.as_slice(), i, e);
        let ghost old_r = r@;
        r.push(line);
        assert(views(r@) =~= views(old_r).push(line@));
        if e < cs.len() {
            assert(lines_from(cs@, i as int) == seq![line@] + lines_from(cs@, e + 1));
            assert(views(r@) + lines_from(cs@, e + 1) =~= views(old_r) + lines_from(cs@, i as int));
            i = e + 1;
        } else {
            assert(lines_from(cs@, i as int) == seq![line@]);
            assert(views(r@) =~= views(old_r) + lines_from(cs@, i as int));
            i = e;
            done = true;
        }
    }
    r
}

/// The lines of `ls` joined with a line feed between each two.
pub fn join_lines(ls: &Vec<String>) -> (r: String)
    ensures
        r@ == joined(views(ls@)),
{
    let mut r = String::new();
    let mut i: usize = 0;
    while i < ls.len()
        invariant
            i <= ls@.len(),
            r@ == joined(views(ls@.take(i as int))),
        decreases ls@.len() - i,
    {
        if i > 0 {
            r.append("\n");
            proof { reveal_strlit("\n"); }
        }
        r.append(ls[i].as_str());
        proof {
            let a = views(ls@.take(i as int));
            let b = views(ls@.take(i + 1));
            assert(b.drop_last() =~= a);
            assert(b.last() == ls@[i as int]@);
            if i == 0 {
                assert(a.len() == 0);
                assert(r@ =~= b[0]);
            } else {
                assert(r@ =~= joined(a) + seq!['\n'] + b.last());
            }
        }
        i += 1;
    }
    assert(ls@.take(ls@.len() as int) =~= ls@);
    r
}


/// At least one line, and no line holds a line feed: the lines of some
/// document.
pub open spec fn no_line_feeds(ls: Seq<Seq<char>>) -> bool {
    &&& ls.len() >= 1
    &&& forall|i: int, k: int| 0 <= i < ls.len() && 0 <= k < ls[i].len() ==> ls[i][k] != '\n'
}

proof fn lemma_line_end_shift(p: Seq<char>, t: Seq<char>, i: int)
    requires
        0 <= i,
    ensures
        line_end(p + t, p.len() + i) == p.len() + line_end(t, i),
    decreases t.len() - i,
{
    if i < t.len() {
        assert((p + t)[p.len() + i] == t[i]);
        if t[i] != '\n' {
            lemma_line_end_shift(p, t, i + 1);
        }
    }
}

proof fn lemma_lines_shift(p: Seq<char>, t: Seq<char>, i: int)
    requires
        0 <= i,
    ensures
        lines_from(p + t, p.len() + i) == lines_from(t, i),
    decreases t.len() + 1 - i,
{
    if i <= t.len() {
        lemma_line_end_shift(p, t, i);
        lemma_line_end_bounds(t, i);
        let e = line_end(t, i);
        assert((p + t).subrange(p.len() + i, p.len() + e) =~= t.subrange(i, e));
        if e < t.len() {
            lemma_lines_shift(p, t, e + 1);
            assert(p.len() + e + 1 == p.len() + (e + 1));
        }
    }
}

proof fn lemma_joined_front(ls: Seq<Seq<char>>)
    requires
        ls.len() >= 2,
    ensures
        joined(ls) == ls[0] + seq!['\n'] + joined(ls.skip(1)),
    decreases ls.len(),
{
    if ls.len() == 2 {
        assert(ls.drop_last() =~= seq![ls[0]]);
        assert(ls.skip(1) =~= seq![ls[1]]);
        assert(joined(ls.drop_last()) == ls[0]);
        assert(joined(ls.skip(1)) == ls[1]);
    } else {
        let d = ls.drop_last();
        lemma_joined_front(d);
        assert(d.skip(1) =~= ls.skip(1).drop_last());
        assert(joined(ls.skip(1)) == joined(d.skip(1)) + seq!['\n'] + ls.last());
        assert(joined(ls) =~= ls[0] + seq!['\n'] + joined(ls.skip(1)));
    }
}

/// Joining the lines of a document with line feeds and splitting the result
/// at its line feeds gives back the same lines.
pub proof fn lemma_join_then_split(ls: Seq<Seq<char>>)
    requires
        no_line_feeds(ls),
    ensures
        lines_of(joined(ls)) == ls,
    decreases ls.len(),
{
    let l = ls[0];
    if ls.len() == 1 {
        assert(joined(ls) == l);
        lemma_line_end_bounds(l, 0);
        assert(line_end(l, 0) == l.len());
        assert(l.subrange(0, l.len() as int) == l);
        assert(lines_of(joined(ls)) =~= ls);
    } else {
        let rest = ls.skip(1);
        assert(no_line_feeds(rest)) by {
            assert forall|i: int, k: int| 0 <= i < rest.len() && 0 <= k < rest[i].len() implies rest[i][k]
                != '\n' by {
                assert(rest[i] == ls[i + 1]);
            }
        }
        lemma_join_then_split(rest);
        lemma_joined_front(ls);
        let j = joined(ls);
        let p = l + seq!['\n'];
        assert(j =~= p + joined(rest));
        assert forall|k: int| 0 <= k < l.len() implies j[k] != '\n' by {
            assert(j[k] == l[k]);
        }
        assert(line_end(j, 0) == l.len()) by {
            lemma_line_end_bounds(j, 0);
            assert(j[l.len() as int] == '\n');
        }
        assert(j.subrange(0, l.len() as int) =~= l);
        lemma_lines_shift(p, joined(rest), 0);
        assert(lines_from(j, l.len() + 1 as int) == lines_from(joined(rest), 0));
        assert(lines_of(j) =~= seq![l] + rest);
        assert(seq![l] + rest =~= ls);
    }
}

} // verus!
