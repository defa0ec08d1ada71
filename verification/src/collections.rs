//! A map from text to values that remembers the order in which its keys
//! were first inserted.

use vstd::prelude::*;

verus! {

/// A map keyed by text. No key occurs twice; the keys keep the order in
/// which they were first inserted. Two maps are equal when they hold the
/// same values under the same keys, in whatever order.
#[derive(Debug)]
pub struct StringMap<V> {
    entries: Vec<(String, V)>,
}

/// The map that a list of entries stands for, a later entry overriding an
/// earlier one with the same key.
pub open spec fn map_of<V>(entries: Seq<(String, V)>) -> Map<Seq<char>, V>
    decreases entries.len(),
{
    if entries.len() == 0 {
        Map::empty()
    } else {
        map_of(entries.drop_last()).insert(entries.last().0@, entries.last().1)
    }
}

/// No two entries share a key.
pub open spec fn distinct_keys<V>(entries: Seq<(String, V)>) -> bool {
    forall|i: int, j: int|
        0 <= i < j < entries.len() ==> (#[trigger] entries[i]).0@ != (#[trigger] entries[j]).0@
}

/// The keys of a list of entries, in order.
pub open spec fn keys_of<V>(entries: Seq<(String, V)>) -> Seq<Seq<char>> {
    entries.map_values(|e: (String, V)| e.0@)
}

proof fn lemma_absent<V>(entries: Seq<(String, V)>, key: Seq<char>)
    requires
        forall|i: int| 0 <= i < entries.len() ==> (#[trigger] entries[i]).0@ != key,
    ensures
        !map_of(entries).contains_key(key),
    decreases entries.len(),
{
    if entries.len() > 0 {
        let rest = entries.drop_last();
        assert forall|i: int| 0 <= i < rest.len() implies (#[trigger] rest[i]).0@ != key by {
            assert(rest[i] == entries[i]);
        }
        lemma_absent(rest, key);
        assert(entries.last() == entries[entries.len() - 1]);
    }
}

proof fn lemma_present<V>(entries: Seq<(String, V)>, i: int)
    requires
        distinct_keys(entries),
        0 <= i < entries.len(),
    ensures
        map_of(entries).contains_key(entries[i].0@),
        map_of(entries)[entries[i].0@] == entries[i].1,
    decreases entries.len(),
{
    let rest = entries.drop_last();
    let last = entries.len() - 1;
    assert(entries.last() == entries[last]);
    if i < last {
        assert forall|a: int, b: int| 0 <= a < b < rest.len() implies (#[trigger] rest[a]).0@ != (
        #[trigger] rest[b]).0@ by {
            assert(rest[a] == entries[a]);
            assert(rest[b] == entries[b]);
        }
        assert(rest[i] == entries[i]);
        lemma_present(rest, i);
        assert(entries[i].0@ != entries[last].0@);
    }
}

proof fn lemma_replaced<V>(entries: Seq<(String, V)>, i: int, entry: (String, V))
    requires
        distinct_keys(entries),
        0 <= i < entries.len(),
        entries[i].0@ == entry.0@,
    ensures
        distinct_keys(entries.update(i, entry)),
        keys_of(entries.update(i, entry)) == keys_of(entries),
        map_of(entries.update(i, entry)) == map_of(entries).insert(entry.0@, entry.1),
    decreases entries.len(),
{
    let after = entries.update(i, entry);
    let last = entries.len() - 1;
    assert(keys_of(after) =~= keys_of(entries));
    assert forall|a: int, b: int| 0 <= a < b < after.len() implies (#[trigger] after[a]).0@ != (
    #[trigger] after[b]).0@ by {
        assert(after[a].0@ == entries[a].0@);
        assert(after[b].0@ == entries[b].0@);
    }
    assert(entries.last() == entries[last]);
    assert(after.last() == after[last]);
    if i == last {
        assert(after.drop_last() =~= entries.drop_last());
        assert(map_of(after) =~= map_of(entries).insert(entry.0@, entry.1));
    } else {
        let rest = entries.drop_last();
        assert forall|a: int, b: int| 0 <= a < b < rest.len() implies (#[trigger] rest[a]).0@ != (
        #[trigger] rest[b]).0@ by {
            assert(rest[a] == entries[a]);
            assert(rest[b] == entries[b]);
        }
        assert(rest[i] == entries[i]);
        lemma_replaced(rest, i, entry);
        assert(after.drop_last() =~= rest.update(i, entry));
        assert(entries[i].0@ != entries[last].0@);
        assert(map_of(after) =~= map_of(entries).insert(entry.0@, entry.1));
    }
}

proof fn lemma_removed<V>(entries: Seq<(String, V)>, i: int)
    requires
        distinct_keys(entries),
        0 <= i < entries.len(),
    ensures
        distinct_keys(entries.remove(i)),
        keys_of(entries.remove(i)) == keys_of(entries).remove(i),
        map_of(entries.remove(i)) == map_of(entries).remove(entries[i].0@),
    decreases entries.len(),
{
    let after = entries.remove(i);
    let last = entries.len() - 1;
    assert(keys_of(after) =~= keys_of(entries).remove(i));
    assert forall|a: int, b: int| 0 <= a < b < after.len() implies (#[trigger] after[a]).0@ != (
    #[trigger] after[b]).0@ by {
        let a0 = if a < i {
            a
        } else {
            a + 1
        };
        let b0 = if b < i {
            b
        } else {
            b + 1
        };
        assert(after[a] == entries[a0]);
        assert(after[b] == entries[b0]);
    }
    assert(entries.last() == entries[last]);
    let rest = entries.drop_last();
    assert forall|a: int, b: int| 0 <= a < b < rest.len() implies (#[trigger] rest[a]).0@ != (
    #[trigger] rest[b]).0@ by {
        assert(rest[a] == entries[a]);
        assert(rest[b] == entries[b]);
    }
    if i == last {
        assert(after =~= rest);
        assert forall|j: int| 0 <= j < rest.len() implies (#[trigger] rest[j]).0@
            != entries[i].0@ by {
            assert(rest[j] == entries[j]);
        }
        lemma_absent(rest, entries[i].0@);
        assert(map_of(after) =~= map_of(entries).remove(entries[i].0@));
    } else {
        assert(rest[i] == entries[i]);
        lemma_removed(rest, i);
        assert(after.last() == entries[last]);
        assert(after.drop_last() =~= rest.remove(i));
        assert(entries[i].0@ != entries[last].0@);
        assert(map_of(after) =~= map_of(entries).remove(entries[i].0@));
    }
}

proof fn lemma_domain<V>(entries: Seq<(String, V)>)
    requires
        distinct_keys(entries),
    ensures
        map_of(entries).dom() == keys_of(entries).to_set(),
        map_of(entries).dom().finite(),
        map_of(entries).dom().len() == entries.len(),
        keys_of(entries).no_duplicates(),
    decreases entries.len(),
{
    let keys = keys_of(entries);
    assert forall|a: int, b: int| 0 <= a < keys.len() && 0 <= b < keys.len() && a != b implies keys[a]
        != keys[b] by {
        if a < b {
            assert(entries[a].0@ != entries[b].0@);
        } else {
            assert(entries[b].0@ != entries[a].0@);
        }
    }
    if entries.len() == 0 {
        assert(map_of(entries).dom() =~= keys.to_set());
    } else {
        let rest = entries.drop_last();
        let last = entries.len() - 1;
        assert(entries.last() == entries[last]);
        assert forall|a: int, b: int| 0 <= a < b < rest.len() implies (#[trigger] rest[a]).0@ != (
        #[trigger] rest[b]).0@ by {
            assert(rest[a] == entries[a]);
            assert(rest[b] == entries[b]);
        }
        lemma_domain(rest);
        assert forall|j: int| 0 <= j < rest.len() implies (#[trigger] rest[j]).0@
            != entries[last].0@ by {
            assert(rest[j] == entries[j]);
        }
        lemma_absent(rest, entries[last].0@);
        assert(keys =~= keys_of(rest).push(entries[last].0@));
        assert(keys.to_set() =~= keys_of(rest).to_set().insert(entries[last].0@)) by {
            assert forall|k: Seq<char>| keys.to_set().contains(k) <==> keys_of(
                rest,
            ).to_set().insert(entries[last].0@).contains(k) by {
                if keys.contains(k) {
                    let j = choose|j: int| 0 <= j < keys.len() && keys[j] == k;
                    if j < last {
                        assert(keys_of(rest)[j] == k);
                    }
                }
                if keys_of(rest).contains(k) {
                    let j = choose|j: int| 0 <= j < keys_of(rest).len() && keys_of(rest)[j] == k;
                    assert(keys[j] == k);
                }
                if k == entries[last].0@ {
                    assert(keys[last] == k);
                }
            }
        }
        assert(map_of(entries).dom() =~= keys.to_set());
    }
}

impl<V> View for StringMap<V> {
    type V = Map<Seq<char>, V>;

    closed spec fn view(&self) -> Map<Seq<char>, V> {
        map_of(self.entries@)
    }
}

impl<V> StringMap<V> {
    #[verifier::type_invariant]
    spec fn no_key_twice(self) -> bool {
        distinct_keys(self.entries@)
    }

    /// The keys in the order in which they were first inserted.
    pub closed spec fn keys(self) -> Seq<Seq<char>> {
        keys_of(self.entries@)
    }

    /// The values, each at the place of its key in `keys`.
    pub closed spec fn values(self) -> Seq<V> {
        self.entries@.map_values(|e: (String, V)| e.1)
    }

    /// Keys and values line up with the map: there are as many keys as
    /// values and as entries in the map, no key occurs twice, and each key
    /// maps to the value at its place.
    pub open spec fn lined_up(self) -> bool {
        &&& self.keys().len() == self.values().len()
        &&& self.keys().no_duplicates()
        &&& self@.dom() == self.keys().to_set()
        &&& self@.dom().finite()
        &&& self@.dom().len() == self.keys().len()
        &&& forall|i: int|
            0 <= i < self.keys().len() ==> self@.contains_key(#[trigger] self.keys()[i]) && self@[self.keys()[i]]
                == self.values()[i]
    }

    /// What holds of every map at run time.
    pub fn attest(&self)
        ensures
            self.lined_up(),
    {
        proof {
            use_type_invariant(self);
            lemma_domain(self.entries@);
            assert forall|i: int| 0 <= i < self.keys().len() implies self@.contains_key(
                #[trigger] self.keys()[i],
            ) && self@[self.keys()[i]] == self.values()[i] by {
                lemma_present(self.entries@, i);
            }
        }
    }

    /// The empty map.
    pub fn new() -> (map: Self)
        ensures
            map@ == Map::<Seq<char>, V>::empty(),
            map.keys() == Seq::<Seq<char>>::empty(),
            map.values() == Seq::<V>::empty(),
    {
        let map = StringMap { entries: Vec::new() };
        assert(map.keys() =~= Seq::<Seq<char>>::empty());
        assert(map.values() =~= Seq::<V>::empty());
        map
    }

    fn position(&self, key: &str) -> (position: Option<usize>)
        ensures
            match position {
                Some(i) => i < self.entries@.len() && self.entries@[i as int].0@ == key@
                    && self@.contains_key(key@) && self@[key@] == self.entries@[i as int].1,
                None => !self@.contains_key(key@) && !self.keys().contains(key@),
            },
    {
        proof {
            use_type_invariant(self);
        }
        let mut i: usize = 0;
        while i < self.entries.len()
            invariant
                i <= self.entries.len(),
                distinct_keys(self.entries@),
                forall|j: int| 0 <= j < i ==> (#[trigger] self.entries@[j]).0@ != key@,
            decreases self.entries.len() - i,
        {
            if self.entries[i].0.as_str().eq(key) {
                proof {
                    lemma_present(self.entries@, i as int);
                }
                return Some(i);
            }
            i += 1;
        }
        proof {
            lemma_absent(self.entries@, key@);
            if self.keys().contains(key@) {
                let j = choose|j: int| 0 <= j < self.keys().len() && self.keys()[j] == key@;
                assert(self.entries@[j].0@ == key@);
            }
        }
        None
    }

    /// The number of keys.
    pub fn len(&self) -> (count: usize)
        ensures
            count == self.keys().len(),
            count == self@.dom().len(),
    {
        proof {
            use_type_invariant(self);
            lemma_domain(self.entries@);
        }
        self.entries.len()
    }

    /// Whether the map holds no key.
    pub fn is_empty(&self) -> (empty: bool)
        ensures
            empty == (self.keys().len() == 0),
            empty == (self@ == Map::<Seq<char>, V>::empty()),
    {
        proof {
            use_type_invariant(self);
            lemma_domain(self.entries@);
            if self.entries@.len() == 0 {
                assert(self@ =~= Map::<Seq<char>, V>::empty());
            } else {
                lemma_present(self.entries@, 0);
            }
        }
        self.entries.len() == 0
    }

    /// Whether the map holds `key`.
    pub fn contains_key(&self, key: &str) -> (found: bool)
        ensures
            found == self@.contains_key(key@),
    {
        self.position(key).is_some()
    }

    /// The value under `key`.
    pub fn get(&self, key: &str) -> (value: Option<&V>)
        ensures
            match value {
                Some(v) => self@.contains_key(key@) && *v == self@[key@],
                None => !self@.contains_key(key@),
            },
    {
        match self.position(key) {
            Some(i) => Some(&self.entries[i].1),
            None => None,
        }
    }

    /// The key at place `i` of the insertion order.
    pub fn key_at(&self, i: usize) -> (key: &String)
        requires
            i < self.keys().len(),
        ensures
            key@ == self.keys()[i as int],
            self@.contains_key(key@),
    {
        proof {
            use_type_invariant(self);
            lemma_present(self.entries@, i as int);
        }
        &self.entries[i].0
    }

    /// The value at place `i` of the insertion order.
    pub fn value_at(&self, i: usize) -> (value: &V)
        requires
            i < self.keys().len(),
        ensures
            *value == self.values()[i as int],
            *value == self@[self.keys()[i as int]],
    {
        proof {
            use_type_invariant(self);
            lemma_present(self.entries@, i as int);
        }
        &self.entries[i].1
    }

    /// Puts `value` under `key` and hands back the value that was there
    /// before. A key that is new goes to the end of the insertion order; a
    /// key that is known keeps its place.
    pub fn insert(&mut self, key: String, value: V) -> (previous: Option<V>)
        ensures
            final(self)@ == old(self)@.insert(key@, value),
            match previous {
                Some(v) => old(self)@.contains_key(key@) && v == old(self)@[key@] && final(self).keys() == old(self).keys(),
                None => !old(self)@.contains_key(key@) && final(self).keys() == old(self).keys().push(key@),
            },
    {
        let found = self.position(key.as_str());
        proof {
            use_type_invariant(&*self);
        }
        let mut entries: Vec<(String, V)> = Vec::new();
        core::mem::swap(&mut self.entries, &mut entries);
        let ghost before = entries@;
        let previous = match found {
            Some(i) => {
                let (_, old_value) = entries.remove(i);
                entries.insert(i, (key, value));
                proof {
                    assert(entries@ =~= before.update(i as int, (key, value)));
                    lemma_replaced(before, i as int, (key, value));
                }
                Some(old_value)
            },
            None => {
                entries.push((key, value));
                proof {
                    assert(entries@.drop_last() =~= before);
                    assert(keys_of(entries@) =~= keys_of(before).push(key@));
                    assert forall|a: int, b: int| 0 <= a < b < entries@.len() implies (
                    #[trigger] entries@[a]).0@ != (#[trigger] entries@[b]).0@ by {
                        if b == before.len() {
                            assert(keys_of(before)[a] == entries@[a].0@);
                        }
                    }
                }
                None
            },
        };
        self.entries = entries;
        previous
    }

    /// Takes `key` out of the map and hands back its value. The other keys
    /// keep their order.
    pub fn remove(&mut self, key: &str) -> (removed: Option<V>)
        ensures
            final(self)@ == old(self)@.remove(key@),
            match removed {
                Some(v) => old(self)@.contains_key(key@) && v == old(self)@[key@],
                None => !old(self)@.contains_key(key@) && final(self).keys() == old(self).keys(),
            },
            !final(self).keys().contains(key@),
            forall|k: Seq<char>| k != key@ ==> (final(self).keys().contains(k) <==> old(self).keys().contains(k)),
    {
        let found = self.position(key);
        proof {
            use_type_invariant(&*self);
            lemma_domain(self.entries@);
        }
        match found {
            Some(i) => {
                let mut entries: Vec<(String, V)> = Vec::new();
                core::mem::swap(&mut self.entries, &mut entries);
                let ghost before = entries@;
                let (_, value) = entries.remove(i);
                proof {
                    lemma_removed(before, i as int);
                    lemma_domain(entries@);
                    assert forall|k: Seq<char>| keys_of(entries@).contains(k) <==> (k != key@
                        && keys_of(before).contains(k)) by {
                        assert(keys_of(entries@).to_set().contains(k) <==> map_of(
                            entries@,
                        ).dom().contains(k));
                        assert(keys_of(before).to_set().contains(k) <==> map_of(
                            before,
                        ).dom().contains(k));
                    }
                }
                self.entries = entries;
                Some(value)
            },
            None => {
                assert(self@ =~= old(self)@.remove(key@));
                None
            },
        }
    }
}

/// Two maps are equal where they hold equal values under the same keys, in
/// whatever order the entries were made. No contract is given: what `==`
/// says of two values of `V` is `V`'s own matter.
impl<V: PartialEq> PartialEq for StringMap<V> {
    fn eq(&self, other: &Self) -> (equal: bool) {
        if self.len() != other.len() {
            return false;
        }
        let count = self.len();
        let mut i: usize = 0;
        while i < count
            invariant
                i <= count,
                count == self.keys().len(),
            decreases count - i,
        {
            match other.get(self.key_at(i).as_str()) {
                Some(value) => {
                    if !(*value == *self.value_at(i)) {
                        return false;
                    }
                },
                None => {
                    return false;
                },
            }
            i += 1;
        }
        true
    }
}

impl<V: PartialEq> vstd::std_specs::cmp::PartialEqSpecImpl for StringMap<V> {
    open spec fn obeys_eq_spec() -> bool {
        false
    }

    open spec fn eq_spec(&self, other: &Self) -> bool {
        self@ == other@
    }
}

impl<V: Eq> Eq for StringMap<V> {
}

impl StringMap<String> {
    /// The map with each value read as text.
    pub open spec fn texts(self) -> Map<Seq<char>, Seq<char>> {
        self@.map_values(|value: String| value@)
    }

    /// Puts the text `value` under `key`.
    pub fn insert_text(&mut self, key: &str, value: &str)
        ensures
            final(self).texts() == old(self).texts().insert(key@, value@),
    {
        self.insert(key.to_string(), value.to_string());
        assert(self.texts() =~= old(self).texts().insert(key@, value@));
    }
}

impl<V: Clone> Clone for StringMap<V> {
    fn clone(&self) -> (copy: Self)
        ensures
            copy.keys() == self.keys(),
            copy.values().len() == self.values().len(),
            forall|i: int|
                0 <= i < self.values().len() ==> cloned::<V>(
                    #[trigger] self.values()[i],
                    copy.values()[i],
                ),
    {
        proof {
            use_type_invariant(self);
        }
        let mut entries: Vec<(String, V)> = Vec::new();
        let mut i: usize = 0;
        while i < self.entries.len()
            invariant
                i <= self.entries.len(),
                entries@.len() == i,
                forall|j: int| 0 <= j < i ==> (#[trigger] entries@[j]).0@ == self.entries@[j].0@,
                forall|j: int|
                    0 <= j < i ==> cloned::<V>(self.entries@[j].1, (#[trigger] entries@[j]).1),
            decreases self.entries.len() - i,
        {
            let key = self.entries[i].0.clone();
            let value = self.entries[i].1.clone();
            entries.push((key, value));
            i += 1;
        }
        assert(keys_of(entries@) =~= keys_of(self.entries@));
        assert forall|a: int, b: int| 0 <= a < b < entries@.len() implies (#[trigger] entries@[a]).0@
            != (#[trigger] entries@[b]).0@ by {
            assert(self.entries@[a].0@ != self.entries@[b].0@);
        }
        let copy = StringMap { entries };
        assert forall|i: int| 0 <= i < self.values().len() implies cloned::<V>(
            #[trigger] self.values()[i],
            copy.values()[i],
        ) by {
            assert(cloned::<V>(self.entries@[i].1, entries@[i].1));
        }
        copy
    }
}

} // verus!
