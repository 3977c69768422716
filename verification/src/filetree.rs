//! The file tree overlay's listing: hidden files left out, a `..` entry
//! below the project root, directories first, then by path.

use vstd::prelude::*;
use crate::app::{App, AppView, entries_view};
use crate::text::{chars_of, owned};

verus! {

broadcast use vstd::seq_lib::group_to_multiset_ensures;

/// Text order, character by character (the order of `String`'s `cmp`:
/// UTF-8 bytes order as the scalar values do).
pub open spec fn text_le(a: Seq<char>, b: Seq<char>) -> bool
    decreases a.len(),
{
    if a.len() == 0 {
        true
    } else if b.len() == 0 {
        false
    } else if a[0] < b[0] {
        true
    } else if a[0] > b[0] {
        false
    } else {
        text_le(a.drop_first(), b.drop_first())
    }
}

/// Any two texts are ordered one way or the other.
pub proof fn lemma_text_le_total(a: Seq<char>, b: Seq<char>)
    ensures
        text_le(a, b) || text_le(b, a),
    decreases a.len(),
{
    if a.len() > 0 && b.len() > 0 && a[0] == b[0] {
        lemma_text_le_total(a.drop_first(), b.drop_first());
    }
}

/// The text order is transitive.
pub proof fn lemma_text_le_transitive(a: Seq<char>, b: Seq<char>, c: Seq<char>)
    requires
        text_le(a, b),
        text_le(b, c),
    ensures
        text_le(a, c),
    decreases a.len(),
{
    if a.len() > 0 && b.len() > 0 && c.len() > 0 && a[0] == b[0] && b[0] == c[0] {
        lemma_text_le_transitive(a.drop_first(), b.drop_first(), c.drop_first());
    }
}

/// The listing order: directories before files, then by path.
pub open spec fn entry_le(x: (Seq<char>, bool), y: (Seq<char>, bool)) -> bool {
    (x.1 && !y.1) || (x.1 == y.1 && text_le(x.0, y.0))
}

/// Any two entries are ordered one way or the other.
pub proof fn lemma_entry_le_total(x: (Seq<char>, bool), y: (Seq<char>, bool))
    ensures
        entry_le(x, y) || entry_le(y, x),
{
    lemma_text_le_total(x.0, y.0);
}

/// The listing order is transitive.
pub proof fn lemma_entry_le_transitive(
    x: (Seq<char>, bool),
    y: (Seq<char>, bool),
    z: (Seq<char>, bool),
)
    requires
        entry_le(x, y),
        entry_le(y, z),
    ensures
        entry_le(x, z),
{
    if x.1 == y.1 && y.1 == z.1 {
        lemma_text_le_transitive(x.0, y.0, z.0);
    }
}

/// Whether entries are in listing order.
pub open spec fn entries_sorted(s: Seq<(Seq<char>, bool)>) -> bool {
    forall|i: int, j: int| 0 <= i < j < s.len() ==> entry_le(#[trigger] s[i], #[trigger] s[j])
}

/// Whether a name is hidden (starts with a dot).
pub open spec fn is_hidden(name: Seq<char>) -> bool {
    name.len() > 0 && name[0] == '.'
}

/// A directory entry as listed: its full path, its file name, whether it is a directory.
pub open spec fn listed_view(v: Seq<(String, String, bool)>) -> Seq<(Seq<char>, Seq<char>, bool)> {
    v.map_values(|e: (String, String, bool)| (e.0@, e.1@, e.2))
}

/// The visible entries of a directory listing, as (path, is directory), in listing order.
pub open spec fn visible_entries(listed: Seq<(Seq<char>, Seq<char>, bool)>) -> Seq<(Seq<char>, bool)>
    decreases listed.len(),
{
    if listed.len() == 0 {
        Seq::empty()
    } else {
        let rest = visible_entries(listed.drop_last());
        let e = listed.last();
        if is_hidden(e.1) {
            rest
        } else {
            rest.push((e.0, e.2))
        }
    }
}

/// The entries the file tree shows before ordering: `..` when asked for, then the visible ones.
pub open spec fn listing_items(listed: Seq<(Seq<char>, Seq<char>, bool)>, with_parent: bool) -> Seq<(Seq<char>, bool)> {
    if with_parent {
        seq![(".."@, true)] + visible_entries(listed)
    } else {
        visible_entries(listed)
    }
}

/// Whether `a` comes no later than `b` in text order.
pub fn text_le_exec(a: &Vec<char>, b: &Vec<char>) -> (r: bool)
    ensures
        r == text_le(a@, b@),
{
    let mut i: usize = 0;
    assert(a@.skip(0) =~= a@);
    assert(b@.skip(0) =~= b@);
    while i < a.len() && i < b.len() && a[i] == b[i]
        invariant
            i <= a@.len(),
            i <= b@.len(),
            text_le(a@, b@) == text_le(a@.skip(i as int), b@.skip(i as int)),
        decreases a@.len() - i,
    {
        assert(a@.skip(i as int).drop_first() =~= a@.skip(i + 1));
        assert(b@.skip(i as int).drop_first() =~= b@.skip(i + 1));
        i = i + 1;
    }
    if i == a.len() {
        true
    } else if i == b.len() {
        false
    } else {
        assert(a@.skip(i as int)[0] == a@[i as int]);
        assert(b@.skip(i as int)[0] == b@[i as int]);
        a[i] < b[i]
    }
}

fn entry_le_exec(x: &(String, bool), y: &(String, bool)) -> (r: bool)
    ensures
        r == entry_le((x.0@, x.1), (y.0@, y.1)),
{
    if x.1 != y.1 {
        x.1 && !y.1
    } else {
        text_le_exec(&chars_of(x.0.as_str()), &chars_of(y.0.as_str()))
    }
}

/// Orders entries for the file tree: directories first, then by path;
/// equal entries keep their order.
pub fn sort_entries(items: Vec<(String, bool)>) -> (r: Vec<(String, bool)>)
    ensures
        entries_sorted(entries_view(r@)),
        entries_view(r@).to_multiset() == entries_view(items@).to_multiset(),
{
    let mut out: Vec<(String, bool)> = Vec::new();
    let mut i: usize = 0;
    while i < items.len()
        invariant
            i <= items@.len(),
            entries_sorted(entries_view(out@)),
            entries_view(out@).to_multiset() == entries_view(items@.take(i as int)).to_multiset(),
        decreases items@.len() - i,
    {
        let x = (items[i].0.clone(), items[i].1);
        let ghost xv = (items@[i as int].0@, items@[i as int].1);
        assert((x.0@, x.1) == xv);
        let mut p: usize = 0;
        while p < out.len() && entry_le_exec(&out[p], &x)
            invariant
                p <= out@.len(),
                (x.0@, x.1) == xv,
                forall|k: int| 0 <= k < p ==> entry_le(entries_view(out@)[k], xv),
            decreases out@.len() - p,
        {
            p = p + 1;
        }
        let ghost before = entries_view(out@);
        proof {
            if p < before.len() {
                lemma_entry_le_total(before[p as int], xv);
                assert forall|k: int| p <= k < before.len() implies entry_le(xv, before[k]) by {
                    if k > p {
                        assert(entry_le(before[p as int], before[k]));
                        lemma_entry_le_transitive(xv, before[p as int], before[k]);
                    }
                }
            }
        }
        out.insert(p, x);
        let ghost after = entries_view(out@);
        assert(after =~= before.insert(p as int, xv));
        proof {
            before.insert_ensures(p as int, xv);
            assert forall|a: int, b: int| 0 <= a < b < after.len() implies entry_le(
                #[trigger] after[a],
                #[trigger] after[b],
            ) by {
                if b < p {
                    assert(after[a] == before[a] && after[b] == before[b]);
                } else if b == p {
                    assert(after[a] == before[a]);
                } else if a < p {
                    assert(after[a] == before[a] && after[b] == before[b - 1]);
                    if b - 1 >= p {
                        lemma_entry_le_transitive(before[a], xv, before[b - 1]);
                    }
                } else if a == p {
                    assert(after[b] == before[b - 1]);
                } else {
                    assert(after[a] == before[a - 1] && after[b] == before[b - 1]);
                }
            }
            assert(after.remove(p as int) =~= before);
            assert(after[p as int] == xv);
            assert(after.to_multiset().remove(xv) =~= before.to_multiset());
            assert(after.to_multiset() =~= before.to_multiset().insert(xv));
            assert(entries_view(items@.take(i + 1)) =~= entries_view(items@.take(i as int)).push(xv));
        }
        i = i + 1;
    }
    assert(items@.take(items@.len() as int) =~= items@);
    out
}

/// Whether a name starts with a dot.
fn hidden_name(name: &str) -> (r: bool)
    ensures
        r == is_hidden(name@),
{
    let v = chars_of(name);
    v.len() > 0 && v[0] == '.'
}

/// The file tree's entries for a directory listing: `..` first when asked
/// for, hidden names left out, directories first, then by path.
pub fn filetree_listing(listed: &Vec<(String, String, bool)>, with_parent: bool) -> (r: Vec<(String, bool)>)
    ensures
        entries_sorted(entries_view(r@)),
        entries_view(r@).to_multiset() == listing_items(listed_view(listed@), with_parent).to_multiset(),
{
    let mut items: Vec<(String, bool)> = Vec::new();
    if with_parent {
        items.push((owned(".."), true));
    }
    let ghost start = entries_view(items@);
    assert(start == (if with_parent { seq![(".."@, true)] } else { Seq::<(Seq<char>, bool)>::empty() }));
    let mut i: usize = 0;
    while i < listed.len()
        invariant
            i <= listed@.len(),
            entries_view(items@) == start + visible_entries(listed_view(listed@).take(i as int)),
        decreases listed@.len() - i,
    {
        let ghost prev = entries_view(items@);
        assert(listed_view(listed@).take(i + 1).drop_last() =~= listed_view(listed@).take(i as int));
        if !hidden_name(listed[i].1.as_str()) {
            items.push((listed[i].0.clone(), listed[i].2));
            assert(entries_view(items@) =~= prev.push((listed@[i as int].0@, listed@[i as int].2)));
        }
        i = i + 1;
    }
    assert(listed_view(listed@).take(listed@.len() as int) =~= listed_view(listed@));
    assert(start + visible_entries(listed_view(listed@)) =~= listing_items(listed_view(listed@), with_parent));
    sort_entries(items)
}

/// Whether std's `Path` equality takes the paths `a` and `b` as equal
/// (`Path::new(a) == Path::new(b)`, a comparison of their components). It is
/// a function of the two texts.
pub uninterp spec fn same_place(a: Seq<char>, b: Seq<char>) -> bool;

/// The path without its final component (std `Path::parent`), as text;
/// `None` for a root or an empty path. It is a function of the text.
pub uninterp spec fn parent_of(p: Seq<char>) -> Option<Seq<char>>;

/// Whether two paths name the same place as std's `Path` equality sees it
/// (`Path::new(a) == Path::new(b)`). The result is named `same_place`;
/// identical texts have identical components, so they compare equal.
#[verifier::external_body]
fn same_path(a: &str, b: &str) -> (r: bool)
    ensures
        r == same_place(a@, b@),
        a@ == b@ ==> r,
{
    std::path::Path::new(a) == std::path::Path::new(b)
}

/// The parent of a path (std `Path::parent`), as text. The result is named
/// `parent_of`; the parent of a path that came from a `&str` is valid UTF-8,
/// so the text conversion loses nothing.
#[verifier::external_body]
fn parent_path(p: &str) -> (r: Option<String>)
    ensures
        match r {
            Some(q) => parent_of(p@) == Some(q@),
            None => parent_of(p@) is None,
        },
{
    std::path::Path::new(p).parent().map(|q| q.to_string_lossy().to_string())
}

impl App {
    /// Shows a fresh listing of the file tree's current directory: `..` is
    /// offered unless the directory is the project root (as `Path` equality
    /// sees it); the selection and the scroll go back to the top.
    pub fn refresh_filetree(&mut self, listed: &Vec<(String, String, bool)>)
        ensures
            final(self)@ == (AppView {
                filetree_entries: final(self)@.filetree_entries,
                filetree_selection: 0,
                filetree_scroll: 0,
                ..old(self)@
            }),
            entries_sorted(final(self)@.filetree_entries),
            final(self)@.filetree_entries.to_multiset() == listing_items(
                listed_view(listed@),
                !same_place(old(self)@.filetree_current, old(self)@.filetree_base),
            ).to_multiset(),
            old(self)@.filetree_current == old(self)@.filetree_base ==> final(self)@.filetree_entries.to_multiset()
                == listing_items(listed_view(listed@), false).to_multiset(),
    {
        let at_base = same_path(self.filetree_current.as_str(), self.filetree_base.as_str());
        self.filetree_entries = filetree_listing(listed, !at_base);
        self.filetree_selection = 0;
        self.filetree_scroll = 0;
    }
}

impl App {
    /// Moves the file tree to the parent of its current directory, when it
    /// has one (`Path::parent`); nothing else changes.
    pub fn enter_parent_dir(&mut self)
        ensures
            final(self)@ == (AppView {
                filetree_current: match parent_of(old(self)@.filetree_current) {
                    Some(p) => p,
                    None => old(self)@.filetree_current,
                },
                ..old(self)@
            }),
    {
        if let Some(p) = parent_path(self.filetree_current.as_str()) {
            self.filetree_current = p;
        }
    }
}

} // verus!
