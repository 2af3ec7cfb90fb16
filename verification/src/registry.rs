//! A map from text keys to values that keeps its entries in the order in
//! which they were inserted and never holds a key twice.
use vstd::prelude::*;
use vstd::string::*;
use crate::keep::{
    kept, kept_from, kept_index, lemma_kept_all, lemma_kept_index, lemma_kept_len,
    lemma_kept_no_duplicates,
};
use crate::text::same_text;

verus! {

/// One key of a [`Registry`] with the value stored under it.
pub struct Entry<V> {
    pub key: String,
    pub value: V,
}

/// An insertion-ordered map keyed by text.
pub struct Registry<V> {
    entries: Vec<Entry<V>>,
}

impl<V> Registry<V> {
    /// The keys, in insertion order.
    pub closed spec fn keys(&self) -> Seq<Seq<char>> {
        Seq::new(self.entries@.len(), |i: int| self.entries@[i].key@)
    }

    /// The values, each at the position of its key.
    pub closed spec fn values(&self) -> Seq<V> {
        Seq::new(self.entries@.len(), |i: int| self.entries@[i].value)
    }

    /// No key occurs twice.
    pub open spec fn wf(&self) -> bool {
        self.keys().no_duplicates()
    }

    /// Every key has its value.
    pub proof fn lemma_lengths(&self)
        ensures
            self.keys().len() == self.values().len(),
    {
    }

    /// Whether `key` is present.
    pub open spec fn contains(&self, key: Seq<char>) -> bool {
        self.keys().contains(key)
    }

    /// The position of `key` among the keys, where it is present.
    pub open spec fn index_of(&self, key: Seq<char>) -> int {
        self.keys().index_of(key)
    }

    /// The value stored under `key`, where it is present.
    pub open spec fn value_of(&self, key: Seq<char>) -> V {
        self.values()[self.index_of(key)]
    }

    /// In a well-formed registry a key is found at one position only.
    pub proof fn lemma_position(&self, i: int)
        requires
            self.wf(),
            0 <= i < self.keys().len(),
        ensures
            self.contains(self.keys()[i]),
            self.index_of(self.keys()[i]) == i,
            self.value_of(self.keys()[i]) == self.values()[i],
    {
        let k = self.keys()[i];
        assert(self.keys().contains(k));
        let j = self.keys().index_of(k);
        assert(0 <= j < self.keys().len() && self.keys()[j] == k);
    }

    /// A registry without entries.
    pub fn new() -> (r: Self)
        ensures
            r.wf(),
            r.keys() == Seq::<Seq<char>>::empty(),
            r.values() == Seq::<V>::empty(),
    {
        let r = Registry { entries: Vec::new() };
        assert(r.keys() =~= Seq::<Seq<char>>::empty());
        assert(r.values() =~= Seq::<V>::empty());
        r
    }

    /// The number of entries.
    pub fn len(&self) -> (n: usize)
        ensures
            n == self.keys().len(),
            n == self.values().len(),
    {
        self.entries.len()
    }

    /// The key at position `i`.
    pub fn key_at(&self, i: usize) -> (k: &str)
        requires
            i < self.keys().len(),
        ensures
            k@ == self.keys()[i as int],
    {
        self.entries[i].key.as_str()
    }

    /// The value at position `i`.
    pub fn value_at(&self, i: usize) -> (v: &V)
        requires
            i < self.values().len(),
        ensures
            *v == self.values()[i as int],
    {
        &self.entries[i].value
    }

    /// The position of `key`, if it is present.
    pub fn position(&self, key: &str) -> (r: Option<usize>)
        ensures
            r.is_some() == self.contains(key@),
            r.is_some() ==> r.unwrap() < self.keys().len() && self.keys()[r.unwrap() as int]
                == key@,
            r.is_some() && self.wf() ==> r.unwrap() == self.index_of(key@),
    {
        let mut i: usize = 0;
        while i < self.entries.len()
            invariant
                i <= self.entries.len(),
                forall|j: int| 0 <= j < i ==> self.keys()[j] != key@,
            decreases self.entries.len() - i,
        {
            if same_text(self.entries[i].key.as_str(), key) {
                assert(self.keys()[i as int] == key@);
                proof {
                    if self.wf() {
                        self.lemma_position(i as int);
                    }
                }
                return Some(i);
            }
            i = i + 1;
        }
        None
    }

    /// Whether `key` is present.
    pub fn contains_key(&self, key: &str) -> (r: bool)
        ensures
            r == self.contains(key@),
    {
        self.position(key).is_some()
    }

    /// The value stored under `key`, if it is present.
    pub fn get(&self, key: &str) -> (r: Option<&V>)
        requires
            self.wf(),
        ensures
            r.is_some() == self.contains(key@),
            r.is_some() ==> *r.unwrap() == self.value_of(key@),
    {
        match self.position(key) {
            Some(i) => Some(&self.entries[i].value),
            None => None,
        }
    }

    /// Mutable access to the value stored under `key`, if it is present.
    /// Whatever the caller writes, the keys and the other values stay, and
    /// with the keys the registry stays well-formed.
    pub fn get_mut(&mut self, key: &str) -> (r: Option<&mut V>)
        requires
            old(self).wf(),
        ensures
            r.is_some() == old(self).contains(key@),
            final(self).keys() == old(self).keys(),
            r.is_some() ==> *r.unwrap() == old(self).value_of(key@) && final(self).values()
                == old(self).values().update(old(self).index_of(key@), *final(r.unwrap())),
            r.is_none() ==> final(self).values() == old(self).values(),
    {
        match self.position(key) {
            Some(i) => {
                Some(&mut self.entries[i].value)
            },
            None => None,
        }
    }

    /// Adds a new key with its value behind the entries that are there.
    pub fn insert(&mut self, key: String, value: V)
        requires
            old(self).wf(),
            !old(self).contains(key@),
        ensures
            final(self).wf(),
            final(self).keys() == old(self).keys().push(key@),
            final(self).values() == old(self).values().push(value),
            final(self).value_of(key@) == value,
            forall|k: Seq<char>| #[trigger]
                final(self).contains(k) <==> old(self).contains(k) || k == key@,
            forall|k: Seq<char>| #[trigger]
                old(self).contains(k) ==> final(self).value_of(k) == old(self).value_of(k),
    {
        self.entries.push(Entry { key, value });
        assert(self.keys() =~= old(self).keys().push(key@));
        assert(self.values() =~= old(self).values().push(value));
        proof {
            let n = old(self).keys().len() as int;
            self.lemma_position(n);
            assert forall|k: Seq<char>| #[trigger] old(self).contains(k) implies self.contains(k)
                && self.value_of(k) == old(self).value_of(k) by {
                let j = old(self).index_of(k);
                assert(self.keys()[j] == k);
                self.lemma_position(j);
            }
            assert forall|k: Seq<char>| #[trigger] self.contains(k) implies old(self).contains(k)
                || k == key@ by {
                let j = self.index_of(k);
                if j < n {
                    assert(old(self).keys()[j] == k);
                }
            }
        }
    }

    /// What a registry holds after the value under `key` was replaced.
    pub proof fn lemma_updated(&self, after: Self, key: Seq<char>)
        requires
            self.wf(),
            self.contains(key),
            after.keys() == self.keys(),
            after.values() == self.values().update(
                self.index_of(key),
                after.values()[self.index_of(key)],
            ),
        ensures
            after.wf(),
            after.value_of(key) == after.values()[self.index_of(key)],
            forall|k: Seq<char>| #[trigger] after.contains(k) <==> self.contains(k),
            forall|k: Seq<char>| #[trigger]
                self.contains(k) && k != key ==> after.value_of(k) == self.value_of(k),
    {
        self.lemma_lengths();
        after.lemma_lengths();
        assert forall|k: Seq<char>| #[trigger] self.contains(k) && k != key implies after.value_of(k)
            == self.value_of(k) by {
            let j = self.index_of(k);
            assert(self.keys()[j] == k);
        }
    }

    /// Takes the entry at position `i` out; the entries behind it move up.
    pub fn remove_at(&mut self, i: usize) -> (v: V)
        requires
            old(self).wf(),
            i < old(self).keys().len(),
        ensures
            final(self).wf(),
            v == old(self).values()[i as int],
            final(self).keys() == old(self).keys().remove(i as int),
            final(self).values() == old(self).values().remove(i as int),
    {
        let e = self.entries.remove(i);
        assert(self.keys() =~= old(self).keys().remove(i as int));
        assert(self.values() =~= old(self).values().remove(i as int));
        e.value
    }

    /// Takes `key` and its value out, if the key is present.
    pub fn remove(&mut self, key: &str) -> (r: Option<V>)
        requires
            old(self).wf(),
        ensures
            final(self).wf(),
            r.is_some() == old(self).contains(key@),
            !final(self).contains(key@),
            r.is_some() ==> r.unwrap() == old(self).value_of(key@) && final(self).keys() == old(self).keys().remove(old(self).index_of(key@)) && final(self).values() == old(self).values().remove(old(self).index_of(key@)),
            r.is_none() ==> final(self).keys() == old(self).keys() && final(self).values() == old(self).values(),
            forall|k: Seq<char>| #[trigger]
                final(self).contains(k) <==> old(self).contains(k) && k != key@,
            forall|k: Seq<char>| #[trigger]
                final(self).contains(k) ==> final(self).value_of(k) == old(self).value_of(k),
    {
        proof {
            old(self).lemma_lengths();
        }
        match self.position(key) {
            Some(i) => {
                let v = self.remove_at(i);
                proof {
                    let ks = old(self).keys();
                    self.lemma_lengths();
                    assert forall|k: Seq<char>| #[trigger] self.contains(k) implies old(self).contains(k) && k != key@ && self.value_of(k) == old(self).value_of(k) by {
                        let j = self.index_of(k);
                        self.lemma_position(j);
                        if j < i {
                            assert(ks[j] == k);
                            old(self).lemma_position(j);
                        } else {
                            assert(ks[j + 1] == k);
                            old(self).lemma_position(j + 1);
                        }
                    }
                    assert forall|k: Seq<char>| old(self).contains(k) && k != key@ implies #[trigger]
                        self.contains(k) by {
                        let x = old(self).index_of(k);
                        if x < i {
                            assert(self.keys()[x] == k);
                        } else {
                            assert(self.keys()[x - 1] == k);
                        }
                    }
                }
                Some(v)
            },
            None => None,
        }
    }

    /// Keeps the entries whose flag is set and drops the others; the entries
    /// that stay keep their order and their values.
    pub fn retain(&mut self, keep: &Vec<bool>)
        requires
            old(self).wf(),
            keep.len() == old(self).keys().len(),
        ensures
            final(self).wf(),
            final(self).keys() == kept(old(self).keys(), keep@),
            final(self).values() == kept(old(self).values(), keep@),
            forall|k: Seq<char>| #[trigger]
                final(self).contains(k) <==> old(self).contains(k) && keep[old(self).index_of(k)],
            forall|k: Seq<char>| #[trigger]
                final(self).contains(k) ==> final(self).value_of(k) == old(self).value_of(k),
    {
        let ghost keys = self.keys();
        let ghost values = self.values();
        let mut i: usize = self.entries.len();
        while i > 0
            invariant
                i <= keys.len(),
                keys.len() == values.len() == keep.len(),
                keys == old(self).keys(),
                values == old(self).values(),
                self.keys() == keys.subrange(0, i as int) + kept_from(keys, keep@, i as int),
                self.values() == values.subrange(0, i as int) + kept_from(
                    values,
                    keep@,
                    i as int,
                ),
            decreases i,
        {
            assert(self.keys().len() == self.entries@.len());
            i = i - 1;
            proof {
                lemma_kept_len(keys, values, keep@, i as int + 1);
            }
            if !keep[i] {
                let ghost before_keys = self.keys();
                let ghost before_values = self.values();
                self.entries.remove(i);
                assert(self.keys() =~= before_keys.remove(i as int));
                assert(self.values() =~= before_values.remove(i as int));
                assert(self.keys() =~= keys.subrange(0, i as int) + kept_from(
                    keys,
                    keep@,
                    i as int,
                ));
                assert(self.values() =~= values.subrange(0, i as int) + kept_from(
                    values,
                    keep@,
                    i as int,
                ));
            } else {
                assert(self.keys() =~= keys.subrange(0, i as int) + kept_from(
                    keys,
                    keep@,
                    i as int,
                ));
                assert(self.values() =~= values.subrange(0, i as int) + kept_from(
                    values,
                    keep@,
                    i as int,
                ));
            }
        }
        proof {
            assert(self.keys() =~= kept(keys, keep@));
            assert(self.values() =~= kept(values, keep@));
            lemma_kept_no_duplicates(keys, keep@);
            lemma_kept_len(keys, values, keep@, 0);
            old(self).lemma_retained(*self, keep@);
        }
    }

    /// What a registry holds after some of its entries were dropped by flags.
    pub proof fn lemma_retained(&self, after: Self, keep: Seq<bool>)
        requires
            self.wf(),
            keep.len() == self.keys().len(),
            after.keys() == kept(self.keys(), keep),
            after.values() == kept(self.values(), keep),
            after.wf(),
        ensures
            forall|k: Seq<char>| #[trigger]
                after.contains(k) <==> self.contains(k) && keep[self.index_of(k)],
            forall|k: Seq<char>| #[trigger]
                after.contains(k) ==> after.value_of(k) == self.value_of(k),
    {
        let keys = self.keys();
        let values = self.values();
        assert forall|k: Seq<char>| #[trigger] after.contains(k) implies self.contains(k)
            && keep[self.index_of(k)] && after.value_of(k) == self.value_of(k) by {
            let j = after.keys().index_of(k);
            lemma_kept_index(keys, keep, 0, j);
            lemma_kept_len(keys, values, keep, 0);
            lemma_kept_index(values, keep, 0, j);
            let x = kept_index(keep, 0, j);
            assert(keys[x] == k);
            self.lemma_position(x);
            after.lemma_position(j);
        }
        assert forall|k: Seq<char>| self.contains(k) && keep[self.index_of(k)] implies #[trigger]
            after.contains(k) by {
            let x = self.keys().index_of(k);
            let j = lemma_kept_all(keys, keep, 0, x);
            assert(after.keys()[j] == k);
        }
    }

    /// Whether the registry has no entries.
    pub fn is_empty(&self) -> (r: bool)
        ensures
            r == (self.keys().len() == 0),
    {
        self.entries.len() == 0
    }

    /// Drops every entry.
    pub fn clear(&mut self)
        ensures
            final(self).wf(),
            final(self).keys() == Seq::<Seq<char>>::empty(),
            final(self).values() == Seq::<V>::empty(),
    {
        self.entries.clear();
        assert(self.keys() =~= Seq::<Seq<char>>::empty());
        assert(self.values() =~= Seq::<V>::empty());
    }

    /// Stores `value` under `key`, in place of what was stored there or as
    /// a new entry behind the others.
    pub fn set(&mut self, key: String, value: V)
        requires
            old(self).wf(),
        ensures
            final(self).wf(),
            final(self).value_of(key@) == value,
            forall|k: Seq<char>| #[trigger]
                final(self).contains(k) <==> old(self).contains(k) || k == key@,
            forall|k: Seq<char>| #[trigger]
                old(self).contains(k) && k != key@ ==> final(self).value_of(k) == old(self).value_of(k),
            old(self).contains(key@) ==> final(self).keys() == old(self).keys(),
            !old(self).contains(key@) ==> final(self).keys() == old(self).keys().push(key@),
    {
        match self.position(key.as_str()) {
            Some(i) => {
                self.entries[i].value = value;
                proof {
                    assert(self.keys() =~= old(self).keys());
                    assert(self.values() =~= old(self).values().update(i as int, value));
                    old(self).lemma_updated(*self, key@);
                }
            },
            None => {
                self.insert(key, value);
            },
        }
    }
}

} // verus!
