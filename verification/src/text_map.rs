//! A map from texts to values that remembers the order of insertion.

use vstd::prelude::*;

use crate::text;
use crate::text::{same, starts_with};

verus! {

/// A map from texts to values. Entries are kept in the order in which their keys
/// were first inserted; no key occurs twice.
#[derive(Debug, PartialEq)]
pub struct TextMap<V> {
    pub entries: Vec<(String, V)>,
}

/// No key occurs twice.
pub open spec fn keys_distinct<V>(entries: Seq<(String, V)>) -> bool {
    forall|i: int, j: int|
        0 <= i < j < entries.len() ==> (#[trigger] entries[i]).0@ != (#[trigger] entries[j]).0@
}

/// The key occurs.
pub open spec fn has_key<V>(entries: Seq<(String, V)>, key: Seq<char>) -> bool {
    exists|i: int| 0 <= i < entries.len() && (#[trigger] entries[i]).0@ == key
}

/// Where the key occurs.
pub open spec fn key_index<V>(entries: Seq<(String, V)>, key: Seq<char>) -> int {
    choose|i: int| 0 <= i < entries.len() && (#[trigger] entries[i]).0@ == key
}

impl<V> View for TextMap<V> {
    type V = Map<Seq<char>, V>;

    open spec fn view(&self) -> Map<Seq<char>, V> {
        Map::new(
            |key: Seq<char>| has_key(self.entries@, key),
            |key: Seq<char>| self.entries@[key_index(self.entries@, key)].1,
        )
    }
}

impl<V> TextMap<V> {
    /// No key occurs twice.
    pub open spec fn wf(self) -> bool {
        keys_distinct(self.entries@)
    }

    /// An entry is what the map holds under its key.
    pub proof fn entry_at(self, i: int)
        requires
            self.wf(),
            0 <= i < self.entries@.len(),
        ensures
            self@.contains_key(self.entries@[i].0@),
            self@[self.entries@[i].0@] == self.entries@[i].1,
    {
        let key = self.entries@[i].0@;
        assert(has_key(self.entries@, key));
        let j = key_index(self.entries@, key);
        assert(i == j);
    }

    pub fn new() -> (r: Self)
        ensures
            r.wf(),
            r@ == Map::<Seq<char>, V>::empty(),
            r.entries@.len() == 0,
    {
        let r = TextMap { entries: Vec::new() };
        assert(r@ =~= Map::<Seq<char>, V>::empty());
        r
    }

    /// How many keys there are.
    pub fn len(&self) -> (r: usize)
        ensures
            r == self.entries@.len(),
    {
        self.entries.len()
    }

    /// Whether the map is empty.
    pub fn is_empty(&self) -> (r: bool)
        ensures
            r == (self.entries@.len() == 0),
            r == (self@ =~= Map::<Seq<char>, V>::empty()),
    {
        proof {
            if self.entries@.len() > 0 {
                assert(has_key(self.entries@, self.entries@[0].0@));
                assert(self@.contains_key(self.entries@[0].0@));
            }
        }
        self.entries.len() == 0
    }

    /// Where the key stands.
    pub fn position(&self, key: &str) -> (r: Option<usize>)
        requires
            self.wf(),
        ensures
            match r {
                Some(i) => i < self.entries@.len() && self.entries@[i as int].0@ == key@
                    && self@.contains_key(key@) && self@[key@] == self.entries@[i as int].1,
                None => !self@.contains_key(key@),
            },
    {
        let mut i: usize = 0;
        while i < self.entries.len()
            invariant
                i <= self.entries.len(),
                self.wf(),
                forall|j: int| 0 <= j < i ==> (#[trigger] self.entries@[j]).0@ != key@,
            decreases self.entries.len() - i,
        {
            if same(&self.entries[i].0, key) {
                proof {
                    self.entry_at(i as int);
                }
                return Some(i);
            }
            i += 1;
        }
        assert(!has_key(self.entries@, key@));
        None
    }

    /// The value under a key.
    pub fn get(&self, key: &str) -> (r: Option<&V>)
        requires
            self.wf(),
        ensures
            match r {
                Some(v) => self@.contains_key(key@) && self@[key@] == *v,
                None => !self@.contains_key(key@),
            },
    {
        match self.position(key) {
            Some(i) => Some(&self.entries[i].1),
            None => None,
        }
    }

    /// Whether the map holds the key.
    pub fn contains_key(&self, key: &str) -> (r: bool)
        requires
            self.wf(),
        ensures
            r == self@.contains_key(key@),
    {
        self.position(key).is_some()
    }

    /// Puts a value under a key. A new key goes to the end.
    pub fn insert(&mut self, key: String, value: V)
        requires
            old(self).wf(),
        ensures
            final(self).wf(),
            final(self)@ == old(self)@.insert(key@, value),
            old(self)@.contains_key(key@) ==> final(self).entries@.len() == old(
                self,
            ).entries@.len(),
            !old(self)@.contains_key(key@) ==> final(self).entries@ == old(self).entries@.push(
                (key, value),
            ),
    {
        let ghost before = *self;
        match self.position(&key) {
            Some(i) => {
                let ghost k = key@;
                self.entries.set(i, (key, value));
                proof {
                    assert(self.entries@ =~= before.entries@.update(i as int, (key, value)));
                    assert forall|a: int, b: int| 0 <= a < b < self.entries@.len() implies (
                    #[trigger] self.entries@[a]).0@ != (#[trigger] self.entries@[b]).0@ by {
                        assert(before.entries@[a].0@ != before.entries@[b].0@);
                    }
                    assert forall|q: Seq<char>| has_key(self.entries@, q) == has_key(
                        before.entries@,
                        q,
                    ) by {
                        if has_key(self.entries@, q) {
                            let j = key_index(self.entries@, q);
                            assert(before.entries@[j].0@ == q);
                        }
                        if has_key(before.entries@, q) {
                            let j = key_index(before.entries@, q);
                            assert(self.entries@[j].0@ == q);
                        }
                    }
                    assert forall|q: Seq<char>| self@.contains_key(q) implies self@[q]
                        == before@.insert(k, value)[q] by {
                        let j = key_index(self.entries@, q);
                        assert(self.entries@[j].0@ == q);
                        self.entry_at(j);
                        if q != k {
                            assert(before.entries@[j] == self.entries@[j]);
                            before.entry_at(j);
                        } else {
                            assert(j == i) by {
                                assert(self.entries@[i as int].0@ == k);
                            }
                        }
                    }
                    assert(self@ =~= before@.insert(k, value));
                }
            },
            None => {
                let ghost k = key@;
                self.entries.push((key, value));
                proof {
                    let n = before.entries@.len() as int;
                    assert forall|a: int, b: int| 0 <= a < b < self.entries@.len() implies (
                    #[trigger] self.entries@[a]).0@ != (#[trigger] self.entries@[b]).0@ by {
                        if b == n {
                            assert(before.entries@[a].0@ != k);
                        } else {
                            assert(before.entries@[a].0@ != before.entries@[b].0@);
                        }
                    }
                    assert forall|q: Seq<char>| has_key(self.entries@, q) == (q == k || has_key(
                        before.entries@,
                        q,
                    )) by {
                        if has_key(self.entries@, q) {
                            let j = key_index(self.entries@, q);
                            if j < n {
                                assert(before.entries@[j].0@ == q);
                            }
                        }
                        if has_key(before.entries@, q) {
                            let j = key_index(before.entries@, q);
                            assert(self.entries@[j].0@ == q);
                        }
                        if q == k {
                            assert(self.entries@[n].0@ == q);
                        }
                    }
                    assert forall|q: Seq<char>| self@.contains_key(q) implies self@[q]
                        == before@.insert(k, value)[q] by {
                        let j = key_index(self.entries@, q);
                        assert(self.entries@[j].0@ == q);
                        self.entry_at(j);
                        if j < n {
                            assert(before.entries@[j] == self.entries@[j]);
                            before.entry_at(j);
                        }
                    }
                    assert(self@ =~= before@.insert(k, value));
                }
            },
        }
    }

    /// Removes a key; the other entries keep their order.
    pub fn remove(&mut self, key: &str) -> (r: Option<V>)
        requires
            old(self).wf(),
        ensures
            final(self).wf(),
            final(self)@ == old(self)@.remove(key@),
            match r {
                Some(v) => old(self)@.contains_key(key@) && old(self)@[key@] == v,
                None => !old(self)@.contains_key(key@) && *final(self) == *old(self),
            },
    {
        let ghost before = *self;
        match self.position(key) {
            Some(i) => {
                let removed = self.entries.remove(i);
                proof {
                    before.removed_at(*self, i as int);
                }
                Some(removed.1)
            },
            None => {
                assert(self@ =~= before@.remove(key@));
                None
            },
        }
    }

    proof fn removed_at(self, after: Self, i: int)
        requires
            self.wf(),
            0 <= i < self.entries@.len(),
            after.entries@ == self.entries@.remove(i),
        ensures
            after.wf(),
            after@ == self@.remove(self.entries@[i].0@),
    {
        let key = self.entries@[i].0@;
        assert forall|a: int, b: int| 0 <= a < b < after.entries@.len() implies (
        #[trigger] after.entries@[a]).0@ != (#[trigger] after.entries@[b]).0@ by {
            let x = if a < i {
                a
            } else {
                a + 1
            };
            let y = if b < i {
                b
            } else {
                b + 1
            };
            assert(self.entries@[x].0@ != self.entries@[y].0@);
        }
        assert forall|q: Seq<char>| has_key(after.entries@, q) == (q != key && has_key(
            self.entries@,
            q,
        )) by {
            if has_key(after.entries@, q) {
                let j = key_index(after.entries@, q);
                let x = if j < i {
                    j
                } else {
                    j + 1
                };
                assert(self.entries@[x].0@ == q);
                assert(self.entries@[i].0@ == key);
            }
            if q != key && has_key(self.entries@, q) {
                let j = key_index(self.entries@, q);
                let x = if j < i {
                    j
                } else {
                    j - 1
                };
                assert(after.entries@[x].0@ == q);
            }
        }
        assert forall|q: Seq<char>| after@.contains_key(q) implies after@[q] == self@[q] by {
            let j = key_index(after.entries@, q);
            assert(after.entries@[j].0@ == q);
            after.entry_at(j);
            let x = if j < i {
                j
            } else {
                j + 1
            };
            assert(self.entries@[x] == after.entries@[j]);
            self.entry_at(x);
        }
        assert(after@ =~= self@.remove(key));
    }

    /// The keys, in the order of the entries.
    pub fn keys(&self) -> (r: Vec<String>)
        ensures
            r@.len() == self.entries@.len(),
            forall|i: int| 0 <= i < r@.len() ==> (#[trigger] r@[i])@ == self.entries@[i].0@,
    {
        let mut keys: Vec<String> = Vec::new();
        let mut i: usize = 0;
        while i < self.entries.len()
            invariant
                i <= self.entries.len(),
                keys@.len() == i,
                forall|j: int| 0 <= j < i ==> (#[trigger] keys@[j])@ == self.entries@[j].0@,
            decreases self.entries.len() - i,
        {
            keys.push(self.entries[i].0.clone());
            i += 1;
        }
        keys
    }

    /// Removes every key that begins with a prefix; the other entries keep their
    /// order.
    pub fn remove_prefix(&mut self, prefix: &str)
        requires
            old(self).wf(),
        ensures
            final(self).wf(),
            final(self)@ == old(self)@.remove_keys(
                Set::new(|key: Seq<char>| text::begins(key, prefix@)),
            ),
    {
        let ghost before = self@;
        let mut i: usize = 0;
        while i < self.entries.len()
            invariant
                i <= self.entries.len(),
                self.wf(),
                before == old(self)@,
                forall|j: int|
                    0 <= j < i ==> !text::begins((#[trigger] self.entries@[j]).0@, prefix@),
                forall|key: Seq<char>| #[trigger]
                    self@.contains_key(key) ==> before.contains_key(key) && self@[key]
                        == before[key],
                forall|key: Seq<char>|
                    before.contains_key(key) && !text::begins(key, prefix@)
                        ==> #[trigger] self@.contains_key(key),
            decreases self.entries.len() - i,
        {
            if starts_with(&self.entries[i].0, prefix) {
                let ghost now = *self;
                self.entries.remove(i);
                proof {
                    now.removed_at(*self, i as int);
                }
            } else {
                i += 1;
            }
        }
        proof {
            let gone = Set::new(|key: Seq<char>| text::begins(key, prefix@));
            assert forall|key: Seq<char>| #[trigger] self@.contains_key(key) implies !text::begins(
                key,
                prefix@,
            ) by {
                let j = key_index(self.entries@, key);
                assert(self.entries@[j].0@ == key);
            }
            assert(self@ =~= before.remove_keys(gone));
        }
    }
}

} // verus!
