//! A snapshot of one directory's entries, sorted and index-selectable.

use vstd::prelude::*;
use crate::text::chars_of;

verus! {

/// One entry of a directory listing, as it was when the directory was read.
#[derive(Clone, Debug, PartialEq, Eq)]
pub struct Entry {
    /// The entry's file name.
    pub name: String,
    /// The entry's full path.
    pub path: String,
    pub is_dir: bool,
}

/// The code of `c` with ASCII upper-case letters taken as lower-case.
pub open spec fn folded_code(c: char) -> u32 {
    if 'A' <= c && c <= 'Z' {
        (c as u32 + 32) as u32
    } else {
        c as u32
    }
}

/// `a` comes no later than `b`, comparing character by character with ASCII
/// letters folded to lower case; a prefix comes first.
pub open spec fn name_le(a: Seq<char>, b: Seq<char>) -> bool
    decreases a.len(),
{
    if a.len() == 0 {
        true
    } else if b.len() == 0 {
        false
    } else if folded_code(a[0]) != folded_code(b[0]) {
        folded_code(a[0]) < folded_code(b[0])
    } else {
        name_le(a.skip(1), b.skip(1))
    }
}

/// `a` may be listed before `b`: directories come first, then names in order.
pub open spec fn listed_before(a: Entry, b: Entry) -> bool {
    (a.is_dir && !b.is_dir) || (a.is_dir == b.is_dir && name_le(a.name@, b.name@))
}

/// Each entry may be listed before the next.
pub open spec fn is_listing_order(s: Seq<Entry>) -> bool {
    forall|i: int| 0 <= i < s.len() - 1 ==> #[trigger] listed_before(s[i], s[i + 1])
}

proof fn lemma_name_le_total(a: Seq<char>, b: Seq<char>)
    ensures
        name_le(a, b) || name_le(b, a),
    decreases a.len(),
{
    if a.len() > 0 && b.len() > 0 && folded_code(a[0]) == folded_code(b[0]) {
        lemma_name_le_total(a.skip(1), b.skip(1));
    }
}

proof fn lemma_listed_before_total(a: Entry, b: Entry)
    ensures
        listed_before(a, b) || listed_before(b, a),
{
    lemma_name_le_total(a.name@, b.name@);
}

proof fn lemma_name_le_transitive(a: Seq<char>, b: Seq<char>, c: Seq<char>)
    requires
        name_le(a, b),
        name_le(b, c),
    ensures
        name_le(a, c),
    decreases a.len(),
{
    if a.len() > 0 && folded_code(a[0]) == folded_code(b[0]) && folded_code(b[0]) == folded_code(
        c[0],
    ) {
        lemma_name_le_transitive(a.skip(1), b.skip(1), c.skip(1));
    }
}

proof fn lemma_listed_before_transitive(a: Entry, b: Entry, c: Entry)
    requires
        listed_before(a, b),
        listed_before(b, c),
    ensures
        listed_before(a, c),
{
    if a.is_dir == b.is_dir && b.is_dir == c.is_dir {
        lemma_name_le_transitive(a.name@, b.name@, c.name@);
    }
}

/// Every entry may be listed before every later one.
pub open spec fn is_sorted_listing(s: Seq<Entry>) -> bool {
    forall|i: int, j: int| 0 <= i < j < s.len() ==> listed_before(#[trigger] s[i], #[trigger] s[j])
}

proof fn lemma_listed_before_later(s: Seq<Entry>, i: int, j: int)
    requires
        is_listing_order(s),
        0 <= i < j < s.len(),
    ensures
        listed_before(s[i], s[j]),
    decreases j - i,
{
    assert(listed_before(s[j - 1], s[(j - 1) + 1]));
    if i < j - 1 {
        lemma_listed_before_later(s, i, j - 1);
        lemma_listed_before_transitive(s[i], s[j - 1], s[j]);
    }
}

/// A listing in which each entry may come before the next is sorted
/// throughout: directories before files, and names in order with ASCII case
/// folded, for every pair of entries.
pub proof fn lemma_listing_order_sorted(s: Seq<Entry>)
    requires
        is_listing_order(s),
    ensures
        is_sorted_listing(s),
{
    assert forall|i: int, j: int| 0 <= i < j < s.len() implies listed_before(
        #[trigger] s[i],
        #[trigger] s[j],
    ) by {
        lemma_listed_before_later(s, i, j);
    }
}

fn folded(c: char) -> (r: u32)
    ensures
        r == folded_code(c),
{
    if 'A' <= c && c <= 'Z' {
        c as u32 + 32
    } else {
        c as u32
    }
}

fn chars_le(a: &Vec<char>, b: &Vec<char>) -> (r: bool)
    ensures
        r == name_le(a@, b@),
{
    let mut k: usize = 0;
    assert(a@.skip(0) =~= a@);
    assert(b@.skip(0) =~= b@);
    while k < a.len()
        invariant
            k <= a@.len(),
            name_le(a@, b@) == name_le(a@.skip(k as int), b@.skip(k as int)),
            k <= b@.len(),
        decreases a@.len() - k,
    {
        if k == b.len() {
            return false;
        }
        let x = folded(a[k]);
        let y = folded(b[k]);
        if x != y {
            return x < y;
        }
        assert(a@.skip(k as int).skip(1) =~= a@.skip(k + 1));
        assert(b@.skip(k as int).skip(1) =~= b@.skip(k + 1));
        k += 1;
    }
    true
}

/// Whether `a` may be listed before `b`.
pub fn entry_le(a: &Entry, b: &Entry) -> (r: bool)
    ensures
        r == listed_before(*a, *b),
{
    if a.is_dir != b.is_dir {
        a.is_dir
    } else {
        let x = chars_of(a.name.as_str());
        let y = chars_of(b.name.as_str());
        chars_le(&x, &y)
    }
}

/// The entries of `v` in listing order: directories first, then by name with
/// ASCII case folded; entries that compare equal keep their order.
pub fn sort_entries(v: Vec<Entry>) -> (r: Vec<Entry>)
    ensures
        is_listing_order(r@),
        r@.to_multiset() == v@.to_multiset(),
{
    let mut w = v;
    let mut i: usize = 0;
    while i < w.len()
        invariant
            i <= w@.len(),
            is_listing_order(w@.take(i as int)),
            w@.to_multiset() == v@.to_multiset(),
        decreases w@.len() - i,
    {
        let mut j: usize = i;
        while j > 0 && !entry_le(&w[j - 1], &w[i])
            invariant
                j <= i < w@.len(),
                forall|k: int| j <= k < i ==> !listed_before(#[trigger] w@[k], w@[i as int]),
            decreases j,
        {
            j -= 1;
        }
        let ghost old_w = w@;
        let x = w.remove(i);
        w.insert(j, x);
        proof {
            broadcast use vstd::seq_lib::to_multiset_remove, vstd::seq_lib::to_multiset_insert,
                vstd::seq_lib::to_multiset_contains, vstd::multiset::group_multiset_axioms;

            assert(old_w.to_multiset().contains(x));
            assert(old_w.remove(i as int).to_multiset().insert(x) =~= old_w.to_multiset());

            assert(old_w.remove(i as int).insert(j as int, x) == w@);
            let p = w@.take(i + 1);
            assert(forall|k: int| 0 <= k < j ==> p[k] == old_w[k]);
            assert(p[j as int] == x);
            assert(forall|k: int| j < k <= i ==> p[k] == old_w[k - 1]);
            assert forall|k: int| 0 <= k < p.len() - 1 implies #[trigger] listed_before(
                p[k],
                p[k + 1],
            ) by {
                if k + 1 < j {
                    assert(listed_before(old_w.take(i as int)[k], old_w.take(i as int)[k + 1]));
                } else if k + 1 == j {
                } else if k == j {
                    lemma_listed_before_total(old_w[j as int], x);
                } else {
                    let t = old_w.take(i as int);
                    let m = k - 1;
                    assert(listed_before(t[m], t[m + 1]));
                }
            }
        }
        i += 1;
    }
    assert(w@.take(w@.len() as int) =~= w@);
    w
}

/// A listing of one directory: its path, its entries in listing order, the
/// selected entry and the first entry in view.
pub struct DirectoryView {
    pub path: String,
    pub entries: Vec<Entry>,
    pub selected_index: usize,
    pub scroll_offset: usize,
}

impl DirectoryView {
    /// The selection lies within the entries, or is 0 when there are none.
    pub open spec fn wf(&self) -> bool {
        if self.entries@.len() == 0 {
            self.selected_index == 0
        } else {
            self.selected_index < self.entries@.len()
        }
    }

    /// A snapshot of the directory at `path` whose entries are `listing`, in
    /// any order. The first entry is selected.
    pub fn new(path: String, listing: Vec<Entry>) -> (d: DirectoryView)
        ensures
            d.wf(),
            d.path == path,
            is_listing_order(d.entries@),
            is_sorted_listing(d.entries@),
            d.entries@.to_multiset() == listing@.to_multiset(),
            d.selected_index == 0,
            d.scroll_offset == 0,
    {
        let entries = sort_entries(listing);
        proof {
            lemma_listing_order_sorted(entries@);
        }
        DirectoryView { path, entries, selected_index: 0, scroll_offset: 0 }
    }

    /// Selects the entry above, if there is one.
    pub fn move_up(&mut self)
        requires
            old(self).wf(),
        ensures
            final(self).wf(),
            final(self).selected_index == if old(self).selected_index > 0 {
                (old(self).selected_index - 1) as usize
            } else {
                0
            },
            final(self).path == old(self).path,
            final(self).entries == old(self).entries,
            final(self).scroll_offset == old(self).scroll_offset,
    {
        if self.selected_index > 0 {
            self.selected_index = self.selected_index - 1;
        }
    }

    /// Selects the entry below, if there is one.
    pub fn move_down(&mut self)
        requires
            old(self).wf(),
        ensures
            final(self).wf(),
            final(self).selected_index == if old(self).selected_index + 1 < old(
                self,
            ).entries@.len() {
                (old(self).selected_index + 1) as usize
            } else {
                old(self).selected_index
            },
            final(self).path == old(self).path,
            final(self).entries == old(self).entries,
            final(self).scroll_offset == old(self).scroll_offset,
    {
        if self.entries.len() > 0 && self.selected_index < self.entries.len() - 1 {
            self.selected_index = self.selected_index + 1;
        }
    }
}

} // verus!
