//! A map from texts to records that keeps the order in which its keys came.
//!
//! The registry and the command tables are small and are walked in a fixed
//! order, so the map is a vector of entries in which no key stands twice.

use vstd::prelude::*;

verus! {

/// A value that can be copied with its content kept.
pub trait Record: View + Sized {
    /// A copy with the same content.
    fn copy(&self) -> (r: Self)
        ensures
            r@ == self@,
    ;
}

/// A text is its own record; its content is its characters.
impl Record for String {
    fn copy(&self) -> (r: String) {
        self.clone()
    }
}

/// The position of the first entry of `entries` under `key`, or the number
/// of entries where there is none.
pub open spec fn position<T>(entries: Seq<(Seq<char>, T)>, key: Seq<char>) -> int
    decreases entries.len(),
{
    if entries.len() == 0 || entries[0].0 == key {
        0
    } else {
        1 + position(entries.drop_first(), key)
    }
}

/// Whether an entry stands under `key`.
pub open spec fn has_key<T>(entries: Seq<(Seq<char>, T)>, key: Seq<char>) -> bool {
    position(entries, key) < entries.len()
}

/// The value under `key`, if an entry stands under it.
pub open spec fn lookup<T>(entries: Seq<(Seq<char>, T)>, key: Seq<char>) -> Option<T> {
    if has_key(entries, key) {
        Some(entries[position(entries, key)].1)
    } else {
        None
    }
}

/// No key stands twice.
pub open spec fn distinct_keys<T>(entries: Seq<(Seq<char>, T)>) -> bool {
    forall|i: int, j: int|
        0 <= i < j < entries.len() ==> (#[trigger] entries[i]).0 != (#[trigger] entries[j]).0
}

/// The entries with `value` put under `key`: in the place of the entry that
/// stood under `key`, or at the end where none did.
pub open spec fn with_entry<T>(entries: Seq<(Seq<char>, T)>, key: Seq<char>, value: T) -> Seq<
    (Seq<char>, T),
> {
    if has_key(entries, key) {
        entries.update(position(entries, key), (key, value))
    } else {
        entries.push((key, value))
    }
}

/// The entries without the one under `key`.
pub open spec fn without_key<T>(entries: Seq<(Seq<char>, T)>, key: Seq<char>) -> Seq<
    (Seq<char>, T),
> {
    if has_key(entries, key) {
        entries.remove(position(entries, key))
    } else {
        entries
    }
}

/// Where `position` points: at the first entry under the key, or at the end.
pub proof fn lemma_position<T>(entries: Seq<(Seq<char>, T)>, key: Seq<char>)
    ensures
        0 <= position(entries, key) <= entries.len(),
        forall|k: int| 0 <= k < position(entries, key) ==> (#[trigger] entries[k]).0 != key,
        position(entries, key) < entries.len() ==> entries[position(entries, key)].0 == key,
    decreases entries.len(),
{
    if entries.len() == 0 || entries[0].0 == key {
    } else {
        let rest = entries.drop_first();
        lemma_position(rest, key);
        assert forall|k: int| 0 <= k < position(entries, key) implies (#[trigger] entries[k]).0
            != key by {
            if k > 0 {
                assert(entries[k] == rest[k - 1]);
            }
        }
        if position(entries, key) < entries.len() {
            assert(entries[position(entries, key)] == rest[position(rest, key)]);
        }
    }
}

/// An index before which no entry stands under the key, and which holds the
/// key or is the end, is the position of the key.
pub proof fn lemma_position_is<T>(entries: Seq<(Seq<char>, T)>, key: Seq<char>, n: int)
    requires
        0 <= n <= entries.len(),
        forall|k: int| 0 <= k < n ==> (#[trigger] entries[k]).0 != key,
        n < entries.len() ==> entries[n].0 == key,
    ensures
        position(entries, key) == n,
    decreases entries.len(),
{
    if n > 0 {
        let rest = entries.drop_first();
        assert(entries[0].0 != key);
        assert forall|k: int| 0 <= k < n - 1 implies (#[trigger] rest[k]).0 != key by {
            assert(rest[k] == entries[k + 1]);
        }
        lemma_position_is(rest, key, n - 1);
    }
}

/// Putting a value under a key keeps the keys distinct, makes the key
/// present with that value, and leaves every other key as it was.
pub proof fn lemma_with_entry<T>(entries: Seq<(Seq<char>, T)>, key: Seq<char>, value: T)
    requires
        distinct_keys(entries),
    ensures
        distinct_keys(with_entry(entries, key, value)),
        lookup(with_entry(entries, key, value), key) == Some(value),
        forall|other: Seq<char>|
            other != key ==> #[trigger] lookup(with_entry(entries, key, value), other) == lookup(
                entries,
                other,
            ),
{
    let after = with_entry(entries, key, value);
    lemma_position(entries, key);
    let p = position(entries, key);
    assert forall|i: int, j: int| 0 <= i < j < after.len() implies (#[trigger] after[i]).0 != (
    #[trigger] after[j]).0 by {
        if p < entries.len() {
            assert(after[i].0 == entries[i].0);
            assert(after[j].0 == entries[j].0);
        } else {
            if j < entries.len() {
                assert(after[i] == entries[i] && after[j] == entries[j]);
            } else {
                assert(after[i] == entries[i]);
            }
        }
    }
    assert forall|k: int| 0 <= k < p implies (#[trigger] after[k]).0 != key by {
        assert(after[k] == entries[k]);
    }
    lemma_position_is(after, key, p);
    assert forall|other: Seq<char>| other != key implies #[trigger] lookup(after, other) == lookup(
        entries,
        other,
    ) by {
        lemma_position(entries, other);
        let q = position(entries, other);
        assert forall|k: int| 0 <= k < q implies (#[trigger] after[k]).0 != other by {
            assert(after[k].0 == entries[k].0 || after[k].0 == key);
        }
        if q < entries.len() {
            assert(after[q] == entries[q]);
            lemma_position_is(after, other, q);
        } else {
            assert forall|k: int| 0 <= k < after.len() implies (#[trigger] after[k]).0
                != other by {
                if k < entries.len() {
                    assert(after[k].0 == entries[k].0 || after[k].0 == key);
                }
            }
            lemma_position_is(after, other, after.len() as int);
        }
    }
}

/// Taking a key out keeps the keys distinct, makes the key absent, and
/// leaves every other key as it was.
pub proof fn lemma_without_key<T>(entries: Seq<(Seq<char>, T)>, key: Seq<char>)
    requires
        distinct_keys(entries),
    ensures
        distinct_keys(without_key(entries, key)),
        lookup(without_key(entries, key), key) is None,
        forall|other: Seq<char>|
            other != key ==> #[trigger] lookup(without_key(entries, key), other) == lookup(
                entries,
                other,
            ),
{
    let after = without_key(entries, key);
    lemma_position(entries, key);
    let p = position(entries, key);
    if p < entries.len() {
        assert forall|k: int| 0 <= k < after.len() implies #[trigger] after[k] == entries[if k
            < p {
            k
        } else {
            k + 1
        }] by {}
        assert forall|i: int, j: int| 0 <= i < j < after.len() implies (#[trigger] after[i]).0
            != (#[trigger] after[j]).0 by {
            let a = if i < p {
                i
            } else {
                i + 1
            };
            let b = if j < p {
                j
            } else {
                j + 1
            };
            assert(after[i] == entries[a] && after[j] == entries[b]);
        }
        assert forall|k: int| 0 <= k < after.len() implies (#[trigger] after[k]).0 != key by {
            let a = if k < p {
                k
            } else {
                k + 1
            };
            assert(after[k] == entries[a]);
            if a < p {
            } else {
                assert(entries[p].0 != entries[a].0);
            }
        }
        lemma_position_is(after, key, after.len() as int);
        assert forall|other: Seq<char>| other != key implies #[trigger] lookup(after, other)
            == lookup(entries, other) by {
            lemma_position(entries, other);
            let q = position(entries, other);
            let target = if q < p {
                q
            } else {
                q - 1
            };
            assert forall|k: int| 0 <= k < target implies (#[trigger] after[k]).0 != other by {
                let a = if k < p {
                    k
                } else {
                    k + 1
                };
                assert(after[k] == entries[a]);
            }
            if q < entries.len() {
                assert(after[target] == entries[q]);
            }
            lemma_position_is(after, other, target);
        }
    }
}

/// A map from texts to records, in the order in which the keys came.
#[derive(Debug)]
pub struct TextMap<V: Record> {
    entries: Vec<(String, V)>,
}

impl<V: Record> View for TextMap<V> {
    type V = Seq<(Seq<char>, V::V)>;

    closed spec fn view(&self) -> Seq<(Seq<char>, V::V)> {
        entries_view(self.entries@)
    }
}

/// The content of a vector of entries.
pub open spec fn entries_view<V: View>(entries: Seq<(String, V)>) -> Seq<(Seq<char>, V::V)> {
    Seq::new(entries.len(), |i: int| (entries[i].0@, entries[i].1@))
}

impl<V: Record> TextMap<V> {
    /// No key stands twice.
    #[verifier::type_invariant]
    pub open spec fn wf(&self) -> bool {
        distinct_keys(self@)
    }

    /// The map without entries.
    pub fn new() -> (m: Self)
        ensures
            m@ == Seq::<(Seq<char>, V::V)>::empty(),
            m.wf(),
    {
        let m = TextMap { entries: Vec::new() };
        assert(m@ =~= Seq::<(Seq<char>, V::V)>::empty());
        m
    }

    /// The number of entries.
    pub fn len(&self) -> (n: usize)
        ensures
            n == self@.len(),
    {
        self.entries.len()
    }

    /// Whether the map has no entries.
    pub fn is_empty(&self) -> (b: bool)
        ensures
            b == (self@.len() == 0),
    {
        self.entries.len() == 0
    }

    /// The index of the entry under `key`, or the number of entries.
    fn index_of(&self, key: &str) -> (n: usize)
        ensures
            n == position(self@, key@),
            n <= self.entries.len(),
            self@.len() == self.entries.len(),
    {
        let mut i: usize = 0;
        while i < self.entries.len()
            invariant
                i <= self.entries.len(),
                self@.len() == self.entries.len(),
                forall|k: int| 0 <= k < i ==> (#[trigger] self@[k]).0 != key@,
            decreases self.entries.len() - i,
        {
            if crate::text::spells(self.entries[i].0.as_str(), key) {
                assert(self@[i as int].0 == key@);
                proof {
                    lemma_position_is(self@, key@, i as int);
                }
                return i;
            }
            assert(self@[i as int].0 != key@);
            i += 1;
        }
        proof {
            lemma_position_is(self@, key@, i as int);
        }
        i
    }

    /// Whether an entry stands under `key`.
    pub fn contains_key(&self, key: &str) -> (b: bool)
        ensures
            b == has_key(self@, key@),
    {
        self.index_of(key) < self.entries.len()
    }

    /// The value under `key`.
    pub fn get(&self, key: &str) -> (r: Option<&V>)
        ensures
            match r {
                Some(v) => lookup(self@, key@) == Some(v@),
                None => lookup(self@, key@) is None,
            },
    {
        let i = self.index_of(key);
        if i < self.entries.len() {
            Some(&self.entries[i].1)
        } else {
            None
        }
    }

    /// The key of the entry at `i`.
    pub fn key_at(&self, i: usize) -> (k: &String)
        requires
            i < self@.len(),
        ensures
            k@ == self@[i as int].0,
    {
        &self.entries[i].0
    }

    /// The value of the entry at `i`.
    pub fn value_at(&self, i: usize) -> (v: &V)
        requires
            i < self@.len(),
        ensures
            v@ == self@[i as int].1,
    {
        &self.entries[i].1
    }

    /// Puts `value` under `key`: in the place of the value that stood there,
    /// which is returned, or at the end.
    pub fn insert(&mut self, key: String, value: V) -> (previous: Option<V>)
        ensures
            final(self)@ == with_entry(old(self)@, key@, value@),
            match previous {
                Some(v) => lookup(old(self)@, key@) == Some(v@),
                None => lookup(old(self)@, key@) is None,
            },
    {
        proof {
            use_type_invariant(&*self);
            lemma_with_entry(self@, key@, value@);
        }
        let i = self.index_of(key.as_str());
        let ghost before = self@;
        let mut entries: Vec<(String, V)> = Vec::new();
        std::mem::swap(&mut entries, &mut self.entries);
        let previous = if i < entries.len() {
            let mut slot = (key, value);
            std::mem::swap(&mut slot, &mut entries[i]);
            Some(slot.1)
        } else {
            entries.push((key, value));
            None
        };
        assert(entries_view(entries@) =~= with_entry(before, key@, value@));
        self.entries = entries;
        previous
    }

    /// Takes the entry under `key` out and returns its value.
    pub fn remove(&mut self, key: &str) -> (previous: Option<V>)
        ensures
            final(self)@ == without_key(old(self)@, key@),
            match previous {
                Some(v) => lookup(old(self)@, key@) == Some(v@),
                None => lookup(old(self)@, key@) is None,
            },
    {
        proof {
            use_type_invariant(&*self);
            lemma_without_key(self@, key@);
        }
        let i = self.index_of(key);
        let ghost before = self@;
        if i < self.entries.len() {
            let mut entries: Vec<(String, V)> = Vec::new();
            std::mem::swap(&mut entries, &mut self.entries);
            let entry = entries.remove(i);
            assert(entries_view(entries@) =~= without_key(before, key@));
            self.entries = entries;
            Some(entry.1)
        } else {
            None
        }
    }

    /// A copy of the map.
    pub fn copy(&self) -> (m: Self)
        ensures
            m@ == self@,
    {
        proof {
            use_type_invariant(self);
        }
        let mut entries: Vec<(String, V)> = Vec::new();
        let mut i: usize = 0;
        while i < self.entries.len()
            invariant
                i <= self.entries.len(),
                entries.len() == i,
                forall|k: int|
                    0 <= k < i ==> (#[trigger] entries@[k]).0@ == self.entries@[k].0@
                        && entries@[k].1@ == self.entries@[k].1@,
            decreases self.entries.len() - i,
        {
            let key = self.entries[i].0.clone();
            let value = self.entries[i].1.copy();
            entries.push((key, value));
            i += 1;
        }
        assert(entries_view(entries@) =~= self@);
        TextMap { entries }
    }
}

impl<V: Record> Record for TextMap<V> {
    fn copy(&self) -> (r: Self) {
        TextMap::copy(self)
    }
}

} // verus!
