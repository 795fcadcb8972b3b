//! Literal substring search over the lines of a document.

use vstd::prelude::*;
use crate::text::{chars_of, views};

verus! {

/// Every column at which `q` occurs in `line` from column `i` on, left to
/// right; matches may overlap.
pub open spec fn matches_from(line: Seq<char>, q: Seq<char>, i: int) -> Seq<int>
    decreases line.len() - i,
{
    if q.len() == 0 || i < 0 || i + q.len() > line.len() {
        Seq::empty()
    } else if line.subrange(i, i + q.len()) == q {
        seq![i] + matches_from(line, q, i + 1)
    } else {
        matches_from(line, q, i + 1)
    }
}

/// The `(row, column)` of each match of `q` in `lines`, row by row.
pub open spec fn all_matches(lines: Seq<Seq<char>>, q: Seq<char>) -> Seq<(int, int)>
    decreases lines.len(),
{
    if lines.len() == 0 {
        Seq::empty()
    } else {
        let r = lines.len() - 1;
        all_matches(lines.drop_last(), q) + matches_from(lines.last(), q, 0).map_values(
            |c: int| (r, c),
        )
    }
}

/// The pairs of `v` as mathematical integers.
pub open spec fn positions(v: Seq<(usize, usize)>) -> Seq<(int, int)> {
    v.map_values(|p: (usize, usize)| (p.0 as int, p.1 as int))
}

fn occurs_at(line: &Vec<char>, q: &Vec<char>, i: usize) -> (r: bool)
    requires
        i + q@.len() <= line@.len(),
    ensures
        r == (line@.subrange(i as int, i + q@.len()) == q@),
{
    let n = line.len();
    let mut k: usize = 0;
    while k < q.len()
        invariant
            n == line@.len(),
            i + q@.len() <= line@.len(),
            k <= q@.len(),
            forall|m: int| 0 <= m < k ==> line@[i + m] == q@[m],
        decreases q@.len() - k,
    {
        if line[i + k] != q[k] {
            assert(line@.subrange(i as int, i + q@.len())[k as int] != q@[k as int]);
            return false;
        }
        k += 1;
    }
    assert(line@.subrange(i as int, i + q@.len()) =~= q@);
    true
}

/// Appends to `out` the position of each match of `q` in `line`, at row `row`.
fn push_line_matches(out: &mut Vec<(usize, usize)>, line: &Vec<char>, q: &Vec<char>, row: usize)
    ensures
        positions(final(out)@) == positions(old(out)@) + matches_from(line@, q@, 0).map_values(
            |c: int| (row as int, c),
        ),
{
    if q.len() == 0 || q.len() > line.len() {
        assert(matches_from(line@, q@, 0) == Seq::<int>::empty());
        assert(positions(out@) =~= positions(old(out)@) + Seq::<int>::empty().map_values(
            |c: int| (row as int, c),
        ));
        return;
    }
    let mut i: usize = 0;
    while q.len() <= line.len() - i
        invariant
            0 < q@.len() <= line@.len(),
            i <= line@.len(),
            positions(out@) + matches_from(line@, q@, i as int).map_values(|c: int| (row as int, c))
                == positions(old(out)@) + matches_from(line@, q@, 0).map_values(
                |c: int| (row as int, c),
            ),
        decreases line@.len() - i,
    {
        let ghost before = out@;
        if occurs_at(line, q, i) {
            out.push((row, i));
            proof {
                let f = |c: int| (row as int, c);
                assert(matches_from(line@, q@, i as int) == seq![i as int] + matches_from(
                    line@,
                    q@,
                    i + 1,
                ));
                assert(positions(out@) =~= positions(before).push((row as int, i as int)));
                assert(matches_from(line@, q@, i as int).map_values(f) =~= seq![(row as int, i as int)]
                    + matches_from(line@, q@, i + 1).map_values(f));
                assert(positions(out@) + matches_from(line@, q@, i + 1).map_values(f)
                    =~= positions(before) + matches_from(line@, q@, i as int).map_values(f));
            }
        }
        i = i + 1;
    }
    assert(matches_from(line@, q@, i as int) == Seq::<int>::empty());
    assert(positions(out@) =~= positions(out@) + Seq::<int>::empty().map_values(
        |c: int| (row as int, c),
    ));
}

/// The `(row, column)` of each match of `query` in `lines`, row by row and
/// left to right, overlapping matches included. An empty query has no
/// matches.
pub fn find_matches(lines: &Vec<String>, query: &str) -> (r: Vec<(usize, usize)>)
    ensures
        positions(r@) == all_matches(views(lines@), query@),
{
    let q = chars_of(query);
    let mut r: Vec<(usize, usize)> = Vec::new();
    let mut row: usize = 0;
    assert(positions(r@) =~= all_matches(views(lines@.take(0)), query@));
    while row < lines.len()
        invariant
            row <= lines@.len(),
            q@ == query@,
            positions(r@) == all_matches(views(lines@.take(row as int)), query@),
        decreases lines@.len() - row,
    {
        let line = chars_of(lines[row].as_str());
        push_line_matches(&mut r, &line, &q, row);
        proof {
            let vs = views(lines@.take(row + 1));
            assert(vs.drop_last() =~= views(lines@.take(row as int)));
            assert(vs.last() == line@);
            assert(vs.len() - 1 == row);
        }
        row += 1;
    }
    assert(lines@.take(row as int) =~= lines@);
    r
}

} // verus!
