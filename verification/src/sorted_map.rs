//! A map from text keys to values, kept as a list in ascending key order: the
//! in-memory form of a storage map whose entries are walked in key order.

use vstd::prelude::*;
use crate::order::{key_less, key_lt, lemma_key_lt_irreflexive, lemma_key_lt_total, lemma_key_lt_transitive};

verus! {

/// The keys of a list of entries.
pub open spec fn keys_of<W>(m: Seq<(Seq<char>, W)>) -> Seq<Seq<char>> {
    m.map_values(|e: (Seq<char>, W)| e.0)
}

/// Strictly ascending, hence without repeated keys.
pub open spec fn strictly_ascending(keys: Seq<Seq<char>>) -> bool {
    forall|i: int, j: int| 0 <= i < j < keys.len() ==> key_lt(#[trigger] keys[i], #[trigger] keys[j])
}

/// The first position, from `i` on, whose key does not come before `key`.
pub open spec fn lower_bound_from(keys: Seq<Seq<char>>, key: Seq<char>, i: int) -> int
    decreases keys.len() - i,
{
    if i < 0 || i >= keys.len() {
        keys.len() as int
    } else if key_lt(keys[i], key) {
        lower_bound_from(keys, key, i + 1)
    } else {
        i
    }
}

/// Where `key` stands, or would stand, in the ascending list `keys`.
pub open spec fn lower_bound(keys: Seq<Seq<char>>, key: Seq<char>) -> int {
    lower_bound_from(keys, key, 0)
}

/// The entries after storing `value` under `key`: an entry with that key gets
/// the new value, otherwise a new entry is put where the order wants it.
pub open spec fn upsert_model<W>(m: Seq<(Seq<char>, W)>, key: Seq<char>, value: W) -> Seq<
    (Seq<char>, W),
> {
    let p = lower_bound(keys_of(m), key);
    if p < m.len() && m[p].0 == key {
        m.update(p, (key, value))
    } else {
        m.insert(p, (key, value))
    }
}

/// Whether some entry has the key.
pub open spec fn has_key<W>(m: Seq<(Seq<char>, W)>, key: Seq<char>) -> bool {
    exists|i: int| 0 <= i < m.len() && #[trigger] m[i].0 == key
}

/// A position holding `key`, when there is one.
pub open spec fn key_index<W>(m: Seq<(Seq<char>, W)>, key: Seq<char>) -> int {
    choose|i: int| 0 <= i < m.len() && #[trigger] m[i].0 == key
}

/// The value stored under `key`, if any.
pub open spec fn lookup<W>(m: Seq<(Seq<char>, W)>, key: Seq<char>) -> Option<W> {
    if has_key(m, key) {
        Some(m[key_index(m, key)].1)
    } else {
        None
    }
}

#[derive(Debug)]
pub struct SortedMap<V> {
    pub entries: Vec<(String, V)>,
}

impl<V: View> View for SortedMap<V> {
    type V = Seq<(Seq<char>, V::V)>;

    open spec fn view(&self) -> Seq<(Seq<char>, V::V)> {
        self.entries@.map_values(|e: (String, V)| (e.0@, e.1@))
    }
}

/// A list in strict key order names each key at most once, so a position
/// holding the key is the one `lookup` reads.
pub proof fn lemma_lookup_at<W>(m: Seq<(Seq<char>, W)>, i: int)
    requires
        strictly_ascending(keys_of(m)),
        0 <= i < m.len(),
    ensures
        lookup(m, m[i].0) == Some(m[i].1),
{
    let key = m[i].0;
    assert(keys_of(m)[i] == key);
    assert(has_key(m, key));
    let k = key_index(m, key);
    if k != i {
        assert(keys_of(m)[k] == key);
        if k < i {
            assert(key_lt(keys_of(m)[k], keys_of(m)[i]));
        } else {
            assert(key_lt(keys_of(m)[i], keys_of(m)[k]));
        }
        lemma_key_lt_irreflexive(key);
    }
    assert(k == i);
    assert(lookup(m, key) == Some(m[k].1));
}

/// After storing `value` under `key` in a list that stays in strict key
/// order, the entry with that key holds `value`.
pub proof fn lemma_upsert_holds<W>(m: Seq<(Seq<char>, W)>, key: Seq<char>, value: W, i: int)
    requires
        strictly_ascending(keys_of(upsert_model(m, key, value))),
        0 <= i < upsert_model(m, key, value).len(),
        upsert_model(m, key, value)[i].0 == key,
    ensures
        upsert_model(m, key, value)[i].1 == value,
{
    let u = upsert_model(m, key, value);
    let p = lower_bound(keys_of(m), key);
    lemma_lower_bound_range(keys_of(m), key, 0);
    assert(u[p] == (key, value));
    if i != p {
        assert(keys_of(u)[i] == key);
        assert(keys_of(u)[p] == key);
        if i < p {
            assert(key_lt(keys_of(u)[i], keys_of(u)[p]));
        } else {
            assert(key_lt(keys_of(u)[p], keys_of(u)[i]));
        }
        lemma_key_lt_irreflexive(key);
    }
}

/// After storing `value` under `key`, looking `key` up gives `value`.
pub proof fn lemma_lookup_upsert_same<W>(m: Seq<(Seq<char>, W)>, key: Seq<char>, value: W)
    requires
        strictly_ascending(keys_of(upsert_model(m, key, value))),
    ensures
        lookup(upsert_model(m, key, value), key) == Some(value),
{
    let u = upsert_model(m, key, value);
    let p = lower_bound(keys_of(m), key);
    lemma_lower_bound_range(keys_of(m), key, 0);
    assert(u[p] == (key, value));
    lemma_lookup_at(u, p);
}

/// Storing under `key` leaves what every other key looks up to.
pub proof fn lemma_lookup_upsert_other<W>(m: Seq<(Seq<char>, W)>, key: Seq<char>, value: W, other: Seq<char>)
    requires
        strictly_ascending(keys_of(m)),
        strictly_ascending(keys_of(upsert_model(m, key, value))),
        other != key,
    ensures
        lookup(upsert_model(m, key, value), other) == lookup(m, other),
{
    let u = upsert_model(m, key, value);
    let p = lower_bound(keys_of(m), key);
    lemma_lower_bound_range(keys_of(m), key, 0);
    let replaced = p < m.len() && m[p].0 == key;
    if has_key(m, other) {
        let j = key_index(m, other);
        let j2 = if replaced || j < p { j } else { j + 1 };
        assert(u[j2] == m[j]);
        lemma_lookup_at(m, j);
        lemma_lookup_at(u, j2);
    } else if has_key(u, other) {
        let j2 = key_index(u, other);
        assert(j2 != p);
        let j = if replaced || j2 < p { j2 } else { j2 - 1 };
        assert(m[j] == u[j2]);
        assert(m[j].0 == other);
    }
}

/// A lower bound is a position within the list, or its end.
pub proof fn lemma_lower_bound_range(keys: Seq<Seq<char>>, key: Seq<char>, i: int)
    requires
        0 <= i <= keys.len(),
    ensures
        i <= lower_bound_from(keys, key, i) <= keys.len(),
    decreases keys.len() - i,
{
    if i < keys.len() && key_lt(keys[i], key) {
        lemma_lower_bound_range(keys, key, i + 1);
    }
}

impl<V: View> SortedMap<V> {
    pub open spec fn wf(&self) -> bool {
        strictly_ascending(keys_of(self@))
    }

    pub fn new() -> (r: Self)
        ensures
            r@.len() == 0,
            r.wf(),
    {
        SortedMap { entries: Vec::new() }
    }

    proof fn lemma_bound_from(keys: Seq<Seq<char>>, key: Seq<char>, k: int, i: int)
        requires
            0 <= k <= i <= keys.len(),
            forall|j: int| 0 <= j < i ==> key_lt(#[trigger] keys[j], key),
            i == keys.len() || !key_lt(keys[i], key),
        ensures
            lower_bound_from(keys, key, k) == i,
        decreases i - k,
    {
        if k < i {
            assert(key_lt(keys[k], key));
            Self::lemma_bound_from(keys, key, k + 1, i);
        }
    }

    /// Position of `key` among the entries, or of the first entry after it.
    pub fn position(&self, key: &String) -> (r: usize)
        ensures
            r == lower_bound(keys_of(self@), key@),
            r <= self@.len(),
            forall|j: int| 0 <= j < r ==> key_lt(#[trigger] keys_of(self@)[j], key@),
            r < self@.len() ==> !key_lt(keys_of(self@)[r as int], key@),
    {
        let n = self.entries.len();
        let mut i: usize = 0;
        while i < n && key_less(&self.entries[i].0, key)
            invariant
                n == self@.len(),
                i <= n,
                forall|j: int| 0 <= j < i ==> key_lt(#[trigger] keys_of(self@)[j], key@),
            decreases n - i,
        {
            i = i + 1;
        }
        proof {
            Self::lemma_bound_from(keys_of(self@), key@, 0, i as int);
        }
        i
    }

    /// Index of the entry with `key`, if any.
    pub fn find(&self, key: &String) -> (r: Option<usize>)
        requires
            self.wf(),
        ensures
            r matches Some(i) ==> i < self@.len() && self@[i as int].0 == key@,
            r is None ==> !has_key(self@, key@),
    {
        let p = self.position(key);
        if p < self.entries.len() && self.entries[p].0 == *key {
            Some(p)
        } else {
            proof {
                let keys = keys_of(self@);
                assert forall|i: int| 0 <= i < self@.len() implies #[trigger] self@[i].0 != key@ by {
                    assert(keys[i] == self@[i].0);
                    if i < p {
                        lemma_key_lt_irreflexive(key@);
                    } else if i > p {
                        assert(key_lt(keys[p as int], keys[i]));
                        if keys[i] == key@ {
                            assert(keys[p as int] != key@);
                            lemma_key_lt_total(keys[p as int], key@);
                            lemma_key_lt_transitive(key@, keys[p as int], key@);
                            lemma_key_lt_irreflexive(key@);
                        }
                    }
                }
            }
            None
        }
    }

    /// Stores `value` under `key`, replacing the entry with that key if there
    /// is one, and keeps the keys in ascending order.
    pub fn upsert(&mut self, key: String, value: V)
        requires
            old(self).wf(),
        ensures
            final(self).wf(),
            final(self)@ == upsert_model(old(self)@, key@, value@),
    {
        let ghost old_m = self@;
        let ghost kw = key@;
        let ghost vw = value@;
        let p = self.position(&key);
        if p < self.entries.len() && self.entries[p].0 == key {
            self.entries.set(p, (key, value));
            proof {
                assert(self@ =~= old_m.update(p as int, (kw, vw)));
                assert(keys_of(self@) =~= keys_of(old_m));
            }
        } else {
            self.entries.insert(p, (key, value));
            proof {
                assert(self@ =~= old_m.insert(p as int, (kw, vw)));
                let ok = keys_of(old_m);
                let nk = keys_of(self@);
                assert(nk =~= ok.insert(p as int, kw));
                if p < old_m.len() {
                    lemma_key_lt_total(ok[p as int], kw);
                }
                assert forall|i: int, j: int| 0 <= i < j < nk.len() implies key_lt(
                    #[trigger] nk[i],
                    #[trigger] nk[j],
                ) by {
                    if j < p {
                        assert(key_lt(ok[i], ok[j]));
                    } else if j == p {
                        assert(key_lt(ok[i], kw));
                    } else if i == p {
                        if j - 1 > p {
                            assert(key_lt(ok[p as int], ok[j - 1]));
                            lemma_key_lt_transitive(kw, ok[p as int], ok[j - 1]);
                        }
                    } else if i < p {
                        assert(key_lt(ok[i], kw));
                        assert(key_lt(ok[i], ok[j - 1]));
                    } else {
                        assert(key_lt(ok[i - 1], ok[j - 1]));
                    }
                }
            }
        }
    }

    /// Takes entries read back from storage, which walks them in key order;
    /// gives `None` when they are not in strict key order.
    pub fn from_entries(entries: Vec<(String, V)>) -> (r: Option<Self>)
        ensures
            r matches Some(m) ==> m.wf() && m.entries == entries,
            r is None ==> !strictly_ascending(
                keys_of(entries@.map_values(|e: (String, V)| (e.0@, e.1@))),
            ),
    {
        let ghost m = entries@.map_values(|e: (String, V)| (e.0@, e.1@));
        let ghost keys = keys_of(m);
        let n = entries.len();
        if n == 0 {
            return Some(SortedMap { entries });
        }
        let mut i: usize = 1;
        while i < n
            invariant
                1 <= i <= n,
                n == entries@.len(),
                m == entries@.map_values(|e: (String, V)| (e.0@, e.1@)),
                keys == keys_of(m),
                strictly_ascending(keys.take(i as int)),
            decreases n - i,
        {
            assert(keys[i - 1] == entries@[i - 1].0@);
            assert(keys[i as int] == entries@[i as int].0@);
            if !key_less(&entries[i - 1].0, &entries[i].0) {
                assert(!strictly_ascending(keys));
                return None;
            }
            proof {
                let t = keys.take(i + 1);
                assert forall|a: int, b: int| 0 <= a < b < t.len() implies key_lt(
                    #[trigger] t[a],
                    #[trigger] t[b],
                ) by {
                    if b < i {
                        assert(keys.take(i as int)[a] == t[a]);
                        assert(keys.take(i as int)[b] == t[b]);
                    } else if a < i - 1 {
                        assert(keys.take(i as int)[a] == t[a]);
                        assert(keys.take(i as int)[i - 1] == t[i - 1]);
                        lemma_key_lt_transitive(t[a], t[i - 1], t[b]);
                    }
                }
            }
            i = i + 1;
        }
        assert(keys.take(n as int) =~= keys);
        Some(SortedMap { entries })
    }

    /// Removes every entry.
    pub fn clear(&mut self)
        ensures
            final(self)@.len() == 0,
            final(self).wf(),
    {
        self.entries = Vec::new();
    }
}

} // verus!
