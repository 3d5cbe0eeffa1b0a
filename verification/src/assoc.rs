//! Ordered associations: what an insertion-ordered map holds, and the positions
//! that an `indexmap::IndexMap` keeps for texts.

use std::collections::hash_map::RandomState;

use vstd::prelude::*;

verus! {

/// The value under a key: that of the first pair with this key.
pub open spec fn find<T>(pairs: Seq<(Seq<char>, T)>, key: Seq<char>) -> Option<T>
    decreases pairs.len(),
{
    if pairs.len() == 0 {
        None
    } else if pairs[0].0 == key {
        Some(pairs[0].1)
    } else {
        find(pairs.drop_first(), key)
    }
}

/// The pairs after `key` was set: a known key keeps its place, a new one goes to
/// the end.
pub open spec fn set<T>(pairs: Seq<(Seq<char>, T)>, key: Seq<char>, value: T) -> Seq<
    (Seq<char>, T),
>
    decreases pairs.len(),
{
    if pairs.len() == 0 {
        seq![(key, value)]
    } else if pairs[0].0 == key {
        seq![(key, value)] + pairs.drop_first()
    } else {
        seq![pairs[0]] + set(pairs.drop_first(), key, value)
    }
}

/// Looking a key up after a key was set.
pub broadcast proof fn find_set<T>(
    pairs: Seq<(Seq<char>, T)>,
    key: Seq<char>,
    value: T,
    wanted: Seq<char>,
)
    ensures
        #[trigger] find(set(pairs, key, value), wanted) == if key == wanted {
            Some(value)
        } else {
            find(pairs, wanted)
        },
    decreases pairs.len(),
{
    let after = set(pairs, key, value);
    if pairs.len() == 0 {
        assert(after[0] == (key, value));
        assert(after.drop_first() =~= Seq::empty());
        assert(find(after.drop_first(), wanted) is None);
    } else if pairs[0].0 == key {
        assert(after[0] == (key, value));
        assert(after.drop_first() =~= pairs.drop_first());
    } else {
        assert(after[0] == pairs[0]);
        assert(after.drop_first() =~= set(pairs.drop_first(), key, value));
        find_set(pairs.drop_first(), key, value, wanted);
    }
}

/// No key occurs twice.
pub open spec fn keys_differ<T>(pairs: Seq<(Seq<char>, T)>) -> bool {
    forall|i: int, j: int|
        0 <= i < j < pairs.len() ==> (#[trigger] pairs[i]).0 != (#[trigger] pairs[j]).0
}

/// A key that is found is the key of a pair, and the other way round.
pub proof fn find_index<T>(pairs: Seq<(Seq<char>, T)>, key: Seq<char>)
    ensures
        find(pairs, key) is Some <==> exists|i: int|
            0 <= i < pairs.len() && (#[trigger] pairs[i]).0 == key,
        find(pairs, key) matches Some(v) ==> exists|i: int|
            0 <= i < pairs.len() && #[trigger] pairs[i] == (key, v),
    decreases pairs.len(),
{
    if pairs.len() > 0 {
        let rest = pairs.drop_first();
        find_index(rest, key);
        if pairs[0].0 == key {
            assert(pairs[0] == (key, pairs[0].1));
        } else {
            if let Some(v) = find(pairs, key) {
                let i = choose|i: int| 0 <= i < rest.len() && #[trigger] rest[i] == (key, v);
                assert(pairs[i + 1] == (key, v));
            }
            if exists|i: int| 0 <= i < pairs.len() && (#[trigger] pairs[i]).0 == key {
                let i = choose|i: int| 0 <= i < pairs.len() && (#[trigger] pairs[i]).0 == key;
                assert(rest[i - 1].0 == key);
            }
        }
    }
}

/// Where keys differ, each pair is what is found under its key.
pub proof fn find_at<T>(pairs: Seq<(Seq<char>, T)>, i: int)
    requires
        keys_differ(pairs),
        0 <= i < pairs.len(),
    ensures
        find(pairs, pairs[i].0) == Some(pairs[i].1),
{
    find_index(pairs, pairs[i].0);
    if let Some(v) = find(pairs, pairs[i].0) {
        let j = choose|j: int| 0 <= j < pairs.len() && #[trigger] pairs[j] == (pairs[i].0, v);
        if i < j {
            assert(pairs[i].0 != pairs[j].0);
        }
        if j < i {
            assert(pairs[j].0 != pairs[i].0);
        }
    } else {
        assert(pairs[i].0 == pairs[i].0);
    }
}

/// Setting a key keeps the keys apart.
pub proof fn set_keeps_keys_apart<T>(pairs: Seq<(Seq<char>, T)>, key: Seq<char>, value: T)
    requires
        keys_differ(pairs),
    ensures
        keys_differ(set(pairs, key, value)),
    decreases pairs.len(),
{
    let after = set(pairs, key, value);
    if pairs.len() > 0 {
        let rest = pairs.drop_first();
        assert(keys_differ(rest)) by {
            assert forall|i: int, j: int| 0 <= i < j < rest.len() implies (#[trigger] rest[i]).0 != (
            #[trigger] rest[j]).0 by {
                assert(pairs[i + 1].0 != pairs[j + 1].0);
            }
        }
        if pairs[0].0 == key {
            assert forall|i: int, j: int| 0 <= i < j < after.len() implies (
            #[trigger] after[i]).0 != (#[trigger] after[j]).0 by {
                assert(after[i].0 == pairs[i].0 && after[j].0 == pairs[j].0);
            }
        } else {
            set_keeps_keys_apart(rest, key, value);
            let less = set(rest, key, value);
            assert forall|i: int, j: int| 0 <= i < j < after.len() implies (
            #[trigger] after[i]).0 != (#[trigger] after[j]).0 by {
                assert(after[j] == less[j - 1]);
                if i == 0 {
                    find_set(rest, key, value, pairs[0].0);
                    find_index(less, pairs[0].0);
                    find_index(rest, pairs[0].0);
                    if less[j - 1].0 == pairs[0].0 {
                        assert(find(rest, pairs[0].0) is Some);
                        let k = choose|k: int|
                            0 <= k < rest.len() && (#[trigger] rest[k]).0 == pairs[0].0;
                        assert(pairs[k + 1].0 == pairs[0].0);
                        assert(pairs[0].0 != pairs[k + 1].0);
                    }
                } else {
                    assert(after[i] == less[i - 1]);
                }
            }
        }
    }
}

/// The pairs with each value replaced by what `f` gives for it.
pub open spec fn mapped<T, U>(pairs: Seq<(Seq<char>, T)>, f: spec_fn(T) -> U) -> Seq<
    (Seq<char>, U),
> {
    Seq::new(pairs.len(), |i: int| (pairs[i].0, f(pairs[i].1)))
}

/// Replacing the values commutes with setting a key.
pub proof fn mapped_set<T, U>(
    pairs: Seq<(Seq<char>, T)>,
    key: Seq<char>,
    value: T,
    f: spec_fn(T) -> U,
)
    ensures
        mapped(set(pairs, key, value), f) == set(mapped(pairs, f), key, f(value)),
    decreases pairs.len(),
{
    let after = set(pairs, key, value);
    if pairs.len() == 0 {
        assert(mapped(after, f) =~= seq![(key, f(value))]);
        assert(mapped(pairs, f) =~= Seq::empty());
    } else {
        let rest = pairs.drop_first();
        assert(mapped(pairs, f)[0] == (pairs[0].0, f(pairs[0].1)));
        assert(mapped(pairs, f).drop_first() =~= mapped(rest, f));
        if pairs[0].0 == key {
            assert(mapped(after, f) =~= seq![(key, f(value))] + mapped(rest, f));
        } else {
            mapped_set(rest, key, value, f);
            assert(mapped(after, f) =~= seq![mapped(pairs, f)[0]] + mapped(
                set(rest, key, value),
                f,
            ));
        }
    }
}

/// Replacing the values does not change which keys are found.
pub proof fn mapped_find<T, U>(pairs: Seq<(Seq<char>, T)>, key: Seq<char>, f: spec_fn(T) -> U)
    ensures
        find(mapped(pairs, f), key) == match find(pairs, key) {
            Some(v) => Some(f(v)),
            None => None,
        },
    decreases pairs.len(),
{
    if pairs.len() > 0 {
        assert(mapped(pairs, f)[0] == (pairs[0].0, f(pairs[0].1)));
        assert(mapped(pairs, f).drop_first() =~= mapped(pairs.drop_first(), f));
        mapped_find(pairs.drop_first(), key, f);
    }
}

/// `indexmap::IndexMap`, a map that keeps the order of insertion.
#[verifier::external_type_specification]
#[verifier::external_body]
#[verifier::reject_recursive_types(K)]
#[verifier::reject_recursive_types(V)]
#[verifier::reject_recursive_types(S)]
pub struct ExIndexMap<K, V, S>(indexmap::IndexMap<K, V, S>);

/// The keys of an index with their positions, in the order of insertion.
pub uninterp spec fn index_pairs(
    map: indexmap::IndexMap<String, u64, RandomState>,
) -> Seq<(Seq<char>, u64)>;

/// `IndexMap::new` makes an empty map.
#[verifier::external_body]
fn index_new() -> (r: indexmap::IndexMap<String, u64, RandomState>)
    ensures
        index_pairs(r) == Seq::<(Seq<char>, u64)>::empty(),
{
    indexmap::IndexMap::new()
}

/// `IndexMap::insert` puts a value under a key; a key that is there keeps its
/// place in the order.
#[verifier::external_body]
fn index_insert(map: &mut indexmap::IndexMap<String, u64, RandomState>, key: String, value: u64)
    ensures
        index_pairs(*final(map)) == set(index_pairs(*old(map)), key@, value),
{
    map.insert(key, value);
}

/// `IndexMap::get` finds the value under a key.
#[verifier::external_body]
fn index_get(map: &indexmap::IndexMap<String, u64, RandomState>, key: &str) -> (r: Option<u64>)
    ensures
        r == find(index_pairs(*map), key@),
{
    map.get(key).copied()
}

/// `IndexMap::values` gives the values in the order of insertion.
#[verifier::external_body]
fn index_values(map: &indexmap::IndexMap<String, u64, RandomState>) -> (r: Vec<u64>)
    ensures
        r@ == Seq::new(index_pairs(*map).len(), |i: int| index_pairs(*map)[i].1),
{
    map.values().copied().collect()
}

/// Values by text, in the order in which the texts were first set. A value that
/// is set again replaces the earlier one in its place.
pub struct OrderedIndex<T> {
    pub positions: indexmap::IndexMap<String, u64, RandomState>,
    pub slots: Vec<T>,
}

impl<T> OrderedIndex<T> {
    /// Every position is that of a value.
    pub open spec fn wf(self) -> bool {
        forall|i: int|
            0 <= i < index_pairs(self.positions).len() ==> (#[trigger] index_pairs(
                self.positions,
            )[i]).1 < self.slots@.len()
    }

    /// The values with their keys, in order.
    pub open spec fn pairs(self) -> Seq<(Seq<char>, T)> {
        mapped(index_pairs(self.positions), |slot: u64| self.slots@[slot as int])
    }

    pub fn new() -> (r: Self)
        ensures
            r.wf(),
            r.pairs() == Seq::<(Seq<char>, T)>::empty(),
            r.slots@.len() == 0,
    {
        let r = OrderedIndex { positions: index_new(), slots: Vec::new() };
        assert(r.pairs() =~= Seq::<(Seq<char>, T)>::empty());
        r
    }

    /// The value under a key.
    pub fn get(&self, key: &str) -> (r: Option<&T>)
        requires
            self.wf(),
        ensures
            match r {
                Some(v) => find(self.pairs(), key@) == Some(*v),
                None => find(self.pairs(), key@) is None,
            },
    {
        let found = index_get(&self.positions, key);
        proof {
            let f = |slot: u64| self.slots@[slot as int];
            mapped_find(index_pairs(self.positions), key@, f);
            assert(self.pairs() =~= mapped(index_pairs(self.positions), f));
            find_index(index_pairs(self.positions), key@);
        }
        match found {
            Some(slot) => {
                proof {
                    let i = choose|i: int|
                        0 <= i < index_pairs(self.positions).len() && #[trigger] index_pairs(
                            self.positions,
                        )[i] == (key@, slot);
                    assert(index_pairs(self.positions)[i].1 < self.slots@.len());
                    let f = |s: u64| self.slots@[s as int];
                    assert(f(slot) == self.slots@[slot as int]);
                    assert(find(self.pairs(), key@) == Some(self.slots@[slot as int]));
                    assert(slot < self.slots.len());
                }
                let at: usize = slot as usize;
                assert(at == slot);
                Some(&self.slots[at])
            },
            None => None,
        }
    }

    /// Puts a value under a key; a key that is there keeps its place.
    pub fn put(&mut self, key: String, value: T)
        requires
            old(self).wf(),
            old(self).slots@.len() < u64::MAX,
        ensures
            final(self).wf(),
            final(self).pairs() == set(old(self).pairs(), key@, value),
            final(self).slots@.len() == old(self).slots@.len() + 1,
    {
        let ghost before = *self;
        let slot: u64 = self.slots.len() as u64;
        self.slots.push(value);
        index_insert(&mut self.positions, key, slot);
        proof {
            let pairs = index_pairs(before.positions);
            let after = index_pairs(self.positions);
            let f = |s: u64| self.slots@[s as int];
            let g = |s: u64| before.slots@[s as int];
            mapped_set(pairs, key@, slot, f);
            assert(mapped(pairs, f) =~= mapped(pairs, g)) by {
                assert forall|i: int| 0 <= i < pairs.len() implies mapped(pairs, f)[i] == mapped(
                    pairs,
                    g,
                )[i] by {
                    assert(pairs[i].1 < before.slots@.len());
                }
            }
            assert forall|i: int| 0 <= i < after.len() implies (#[trigger] after[i]).1
                < self.slots@.len() by {
                set_member(pairs, key@, slot, i);
            }
        }
    }

    /// The positions of the values, in order.
    pub fn order(&self) -> (r: Vec<u64>)
        requires
            self.wf(),
        ensures
            r@.len() == self.pairs().len(),
            forall|i: int|
                0 <= i < r@.len() ==> #[trigger] r@[i] < self.slots@.len()
                    && self.slots@[r@[i] as int] == self.pairs()[i].1,
    {
        let r = index_values(&self.positions);
        assert forall|i: int| 0 <= i < r@.len() implies #[trigger] r@[i] < self.slots@.len()
            && self.slots@[r@[i] as int] == self.pairs()[i].1 by {
            assert(index_pairs(self.positions)[i].1 == r@[i]);
        }
        r
    }
}

/// A pair after a key was set is the new one or one that was there.
pub proof fn set_member<T>(pairs: Seq<(Seq<char>, T)>, key: Seq<char>, value: T, i: int)
    requires
        0 <= i < set(pairs, key, value).len(),
    ensures
        set(pairs, key, value)[i] == (key, value) || exists|j: int|
            0 <= j < pairs.len() && #[trigger] pairs[j] == set(pairs, key, value)[i],
    decreases pairs.len(),
{
    if pairs.len() > 0 {
        if pairs[0].0 == key {
            if i > 0 {
                assert(pairs[i] == set(pairs, key, value)[i]);
            }
        } else if i == 0 {
            assert(pairs[0] == set(pairs, key, value)[0]);
        } else {
            let rest = pairs.drop_first();
            set_member(rest, key, value, i - 1);
            assert(set(pairs, key, value)[i] == set(rest, key, value)[i - 1]);
            if set(rest, key, value)[i - 1] != (key, value) {
                let j = choose|j: int|
                    0 <= j < rest.len() && #[trigger] rest[j] == set(rest, key, value)[i - 1];
                assert(pairs[j + 1] == rest[j]);
            }
        }
    }
}

} // verus!
