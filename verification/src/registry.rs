//! A registry keyed by gallery id, the shape both the state tracker's slot
//! table and the scheduler's task table share.
//!
//! The registry is a vector of entries with pairwise-distinct gallery ids;
//! its specification view is the finite map from id (as a character sequence)
//! to the stored value. Every operation's contract is stated against that
//! map, so callers reason about a `Map` and never about entry order.

use vstd::prelude::*;
use crate::domain::GalleryId;

verus! {

/// No two entries carry the same gallery id.
spec fn keys_unique<V>(s: Seq<(GalleryId, V)>) -> bool {
    forall|i: int, j: int|
        0 <= i < j < s.len() ==> (#[trigger] s[i]).0@ != (#[trigger] s[j]).0@
}

/// Some entry carries the id `k`.
spec fn entries_contain<V>(s: Seq<(GalleryId, V)>, k: Seq<char>) -> bool {
    exists|i: int| 0 <= i < s.len() && (#[trigger] s[i]).0@ == k
}

/// The index of the entry carrying the id `k`.
spec fn entry_index<V>(s: Seq<(GalleryId, V)>, k: Seq<char>) -> int {
    choose|i: int| 0 <= i < s.len() && (#[trigger] s[i]).0@ == k
}

/// The finite map the entries stand for.
spec fn seq_map<V>(s: Seq<(GalleryId, V)>) -> Map<Seq<char>, V> {
    Map::new(
        |k: Seq<char>| entries_contain(s, k),
        |k: Seq<char>| s[entry_index(s, k)].1,
    )
}

/// With distinct ids, the entry at a matching index is the map's entry.
proof fn lemma_entry_at<V>(s: Seq<(GalleryId, V)>, k: Seq<char>, i: int)
    requires
        keys_unique(s),
        0 <= i < s.len(),
        s[i].0@ == k,
    ensures
        entries_contain(s, k),
        entry_index(s, k) == i,
        seq_map(s).contains_key(k),
        seq_map(s)[k] == s[i].1,
{
    assert(entries_contain(s, k));
    let j = entry_index(s, k);
    assert(0 <= j < s.len() && s[j].0@ == k);
    if j < i {
        assert(s[j].0@ != s[i].0@);
    } else if i < j {
        assert(s[i].0@ != s[j].0@);
    }
}

/// Replacing the value at an existing id updates the map at that id alone.
proof fn lemma_seq_map_update<V>(s: Seq<(GalleryId, V)>, i: int, id: GalleryId, v: V)
    requires
        keys_unique(s),
        0 <= i < s.len(),
        s[i].0@ == id@,
    ensures
        keys_unique(s.update(i, (id, v))),
        seq_map(s.update(i, (id, v))) == seq_map(s).insert(id@, v),
{
    let t = s.update(i, (id, v));
    assert forall|a: int, b: int|
        0 <= a < b < t.len() implies (#[trigger] t[a]).0@ != (#[trigger] t[b]).0@ by {
        assert(s[a].0@ != s[b].0@);
    }
    let m1 = seq_map(t);
    let m2 = seq_map(s).insert(id@, v);
    assert forall|k: Seq<char>| m1.contains_key(k) implies m2.contains_key(k) by {
        let j = entry_index(t, k);
        assert(0 <= j < t.len() && t[j].0@ == k);
        if j != i {
            assert(s[j].0@ == k);
            assert(entries_contain(s, k));
        }
    }
    assert forall|k: Seq<char>| m2.contains_key(k) implies m1.contains_key(k) by {
        if k == id@ {
            assert(t[i].0@ == k);
            assert(entries_contain(t, k));
        } else {
            let j = entry_index(s, k);
            assert(0 <= j < s.len() && s[j].0@ == k);
            assert(j != i);
            assert(t[j].0@ == k);
            assert(entries_contain(t, k));
        }
    }
    assert forall|k: Seq<char>| m1.contains_key(k) implies m1[k] == m2[k] by {
        if k == id@ {
            lemma_entry_at(t, k, i);
        } else {
            let j = entry_index(t, k);
            assert(0 <= j < t.len() && t[j].0@ == k);
            assert(j != i);
            lemma_entry_at(t, k, j);
            lemma_entry_at(s, k, j);
        }
    }
    assert(m1 =~= m2);
}

/// Appending an absent id adds exactly that entry to the map.
proof fn lemma_seq_map_push<V>(s: Seq<(GalleryId, V)>, id: GalleryId, v: V)
    requires
        keys_unique(s),
        !entries_contain(s, id@),
    ensures
        keys_unique(s.push((id, v))),
        seq_map(s.push((id, v))) == seq_map(s).insert(id@, v),
{
    let t = s.push((id, v));
    assert forall|a: int, b: int|
        0 <= a < b < t.len() implies (#[trigger] t[a]).0@ != (#[trigger] t[b]).0@ by {
        if b == s.len() {
            assert(t[a] == s[a]);
            assert(!(0 <= a < s.len() && s[a].0@ == id@));
        } else {
            assert(s[a].0@ != s[b].0@);
        }
    }
    let m1 = seq_map(t);
    let m2 = seq_map(s).insert(id@, v);
    assert forall|k: Seq<char>| m1.contains_key(k) implies m2.contains_key(k) by {
        let j = entry_index(t, k);
        assert(0 <= j < t.len() && t[j].0@ == k);
        if j != s.len() {
            assert(s[j].0@ == k);
            assert(entries_contain(s, k));
        }
    }
    assert forall|k: Seq<char>| m2.contains_key(k) implies m1.contains_key(k) by {
        if k == id@ {
            assert(t[s.len() as int].0@ == k);
            assert(entries_contain(t, k));
        } else {
            let j = entry_index(s, k);
            assert(0 <= j < s.len() && s[j].0@ == k);
            assert(t[j].0@ == k);
            assert(entries_contain(t, k));
        }
    }
    assert forall|k: Seq<char>| m1.contains_key(k) implies m1[k] == m2[k] by {
        if k == id@ {
            lemma_entry_at(t, k, s.len() as int);
        } else {
            let j = entry_index(t, k);
            assert(0 <= j < t.len() && t[j].0@ == k);
            assert(j != s.len());
            lemma_entry_at(t, k, j);
            lemma_entry_at(s, k, j);
        }
    }
    assert(m1 =~= m2);
}

/// Removing the entry at an index (by swapping the last entry into its
/// place) removes exactly that id from the map.
proof fn lemma_seq_map_swap_remove<V>(s: Seq<(GalleryId, V)>, i: int)
    requires
        keys_unique(s),
        0 <= i < s.len(),
    ensures
        keys_unique(s.update(i, s.last()).drop_last()),
        seq_map(s.update(i, s.last()).drop_last()) == seq_map(s).remove(s[i].0@),
{
    let n = s.len() as int;
    let t = s.update(i, s.last()).drop_last();
    let k0 = s[i].0@;
    assert forall|j: int| 0 <= j < n - 1 implies
        #[trigger] t[j] == (if j == i { s[n - 1] } else { s[j] }) by {
    }
    assert forall|a: int, b: int|
        0 <= a < b < t.len() implies (#[trigger] t[a]).0@ != (#[trigger] t[b]).0@ by {
        if a == i {
            assert(t[a] == s[n - 1] && t[b] == s[b]);
            assert(s[b].0@ != s[n - 1].0@);
        } else if b == i {
            assert(t[b] == s[n - 1] && t[a] == s[a]);
            assert(s[a].0@ != s[n - 1].0@);
        } else {
            assert(s[a].0@ != s[b].0@);
        }
    }
    let m1 = seq_map(t);
    let m2 = seq_map(s).remove(k0);
    assert forall|k: Seq<char>| m1.contains_key(k) implies m2.contains_key(k) && m1[k] == m2[k] by {
        let j = entry_index(t, k);
        assert(0 <= j < t.len() && t[j].0@ == k);
        lemma_entry_at(t, k, j);
        let j0 = if j == i { n - 1 } else { j };
        assert(t[j] == s[j0]);
        assert(j0 != i);
        lemma_entry_at(s, k, j0);
        assert(k != k0);
    }
    assert forall|k: Seq<char>| m2.contains_key(k) implies m1.contains_key(k) by {
        let j = entry_index(s, k);
        assert(0 <= j < s.len() && s[j].0@ == k);
        assert(k != k0);
        assert(j != i);
        if j == n - 1 {
            assert(t[i] == s[n - 1]);
            assert(entries_contain(t, k));
        } else {
            assert(t[j] == s[j]);
            assert(entries_contain(t, k));
        }
    }
    assert(m1 =~= m2);
}

/// A registry of per-gallery values with exactly one entry per gallery id.
pub struct GalleryMap<V> {
    entries: Vec<(GalleryId, V)>,
}

impl<V> View for GalleryMap<V> {
    type V = Map<Seq<char>, V>;

    closed spec fn view(&self) -> Map<Seq<char>, V> {
        seq_map(self.entries@)
    }
}

impl<V> GalleryMap<V> {
    #[verifier::type_invariant]
    spec fn wf(self) -> bool {
        keys_unique(self.entries@)
    }

    /// An empty registry.
    pub fn new() -> (m: Self)
        ensures
            m@ == Map::<Seq<char>, V>::empty(),
    {
        let m = GalleryMap { entries: Vec::new() };
        proof {
            assert(m@ =~= Map::<Seq<char>, V>::empty());
        }
        m
    }

    /// The index of the entry for `id`, if one exists.
    fn index_of(&self, id: &GalleryId) -> (r: Option<usize>)
        ensures
            match r {
                Some(i) => (i as int) < self.entries@.len()
                    && self.entries@[i as int].0@ == id@,
                None => !entries_contain(self.entries@, id@),
            },
    {
        let mut i: usize = 0;
        let n: usize = self.entries.len();
        while i < n
            invariant
                n == self.entries@.len(),
                i <= n,
                forall|j: int| 0 <= j < i ==> (#[trigger] self.entries@[j]).0@ != id@,
            decreases n - i,
        {
            if self.entries[i].0.0 == id.0 {
                return Some(i);
            }
            i = i + 1;
        }
        None
    }

    /// Whether the registry holds an entry for `id`.
    pub fn contains_gallery(&self, id: &GalleryId) -> (b: bool)
        ensures
            b == self@.contains_key(id@),
    {
        self.get(id).is_some()
    }

    /// The value stored for `id`, if any.
    pub fn get(&self, id: &GalleryId) -> (r: Option<&V>)
        ensures
            match r {
                Some(v) => self@.contains_key(id@) && *v == self@[id@],
                None => !self@.contains_key(id@),
            },
    {
        proof {
            use_type_invariant(&*self);
        }
        match self.index_of(id) {
            Some(i) => {
                proof {
                    lemma_entry_at(self.entries@, id@, i as int);
                }
                Some(&self.entries[i].1)
            },
            None => None,
        }
    }

    /// Stores `value` for `id`, returning the value it replaces, if any.
    pub fn insert(&mut self, id: GalleryId, value: V) -> (prev: Option<V>)
        ensures
            final(self)@ == old(self)@.insert(id@, value),
            match prev {
                Some(p) => old(self)@.contains_key(id@) && p == old(self)@[id@],
                None => !old(self)@.contains_key(id@),
            },
    {
        proof {
            use_type_invariant(&*self);
        }
        let idx = self.index_of(&id);
        let ghost s0 = self.entries@;
        let mut entries: Vec<(GalleryId, V)> = Vec::new();
        std::mem::swap(&mut entries, &mut self.entries);
        match idx {
            Some(i) => {
                proof {
                    lemma_entry_at(s0, id@, i as int);
                    lemma_seq_map_update(s0, i as int, id, value);
                }
                entries.push((id, value));
                let (_prev_id, prev_value) = entries.swap_remove(i);
                proof {
                    assert(entries@ =~= s0.update(i as int, (id, value)));
                }
                self.entries = entries;
                Some(prev_value)
            },
            None => {
                proof {
                    lemma_seq_map_push(s0, id, value);
                }
                entries.push((id, value));
                self.entries = entries;
                None
            },
        }
    }

    /// The ids of every entry, each exactly once, in the registry's own
    /// order.
    pub fn gallery_ids(&self) -> (r: Vec<GalleryId>)
        ensures
            forall|i: int| 0 <= i < r@.len() ==> self@.contains_key(#[trigger] r@[i]@),
            forall|k: Seq<char>| #[trigger] self@.contains_key(k) ==> exists|i: int|
                0 <= i < r@.len() && r@[i]@ == k,
            forall|i: int, j: int| 0 <= i < j < r@.len() ==> r@[i]@ != r@[j]@,
    {
        proof {
            use_type_invariant(&*self);
        }
        let mut ids: Vec<GalleryId> = Vec::new();
        let mut i: usize = 0;
        let n: usize = self.entries.len();
        while i < n
            invariant
                n == self.entries@.len(),
                i <= n,
                ids@.len() == i,
                forall|j: int| 0 <= j < i ==> ids@[j] == (#[trigger] self.entries@[j]).0,
            decreases n - i,
        {
            ids.push(self.entries[i].0.clone());
            i = i + 1;
        }
        proof {
            assert forall|ii: int| 0 <= ii < ids@.len() implies self@.contains_key(
                #[trigger] ids@[ii]@,
            ) by {
                lemma_entry_at(self.entries@, ids@[ii]@, ii);
            }
            assert forall|k: Seq<char>| #[trigger] self@.contains_key(k) implies exists|ii: int|
                0 <= ii < ids@.len() && ids@[ii]@ == k by {
                let j = entry_index(self.entries@, k);
                assert(0 <= j < self.entries@.len() && self.entries@[j].0@ == k);
                assert(0 <= j < ids@.len() && ids@[j]@ == k);
            }
            assert forall|a: int, b: int| 0 <= a < b < ids@.len() implies ids@[a]@ != ids@[b]@ by {
                assert(self.entries@[a].0@ != self.entries@[b].0@);
            }
        }
        ids
    }

    /// Removes and returns the entry for `id`, if any.
    pub fn remove_entry(&mut self, id: &GalleryId) -> (r: Option<(GalleryId, V)>)
        ensures
            final(self)@ == old(self)@.remove(id@),
            match r {
                Some(entry) => entry.0@ == id@ && old(self)@.contains_key(id@)
                    && entry.1 == old(self)@[id@],
                None => !old(self)@.contains_key(id@) && final(self)@ == old(self)@,
            },
    {
        proof {
            use_type_invariant(&*self);
        }
        match self.index_of(id) {
            Some(i) => {
                let ghost s0 = self.entries@;
                proof {
                    lemma_entry_at(s0, id@, i as int);
                    lemma_seq_map_swap_remove(s0, i as int);
                }
                let mut entries: Vec<(GalleryId, V)> = Vec::new();
                std::mem::swap(&mut entries, &mut self.entries);
                let entry = entries.swap_remove(i);
                self.entries = entries;
                Some(entry)
            },
            None => {
                proof {
                    assert(self@ =~= self@.remove(id@));
                }
                None
            },
        }
    }
}

} // verus!
