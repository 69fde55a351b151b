//! A map from text keys to values that remembers insertion order.
use vstd::prelude::*;

verus! {

/// Map with `String` keys. Keys are compared by their characters, and every
/// key occurs once.
pub struct TextMap<V> {
    entries: Vec<(String, V)>,
}

/// The position of the entry with key `key`, where there is one.
spec fn holds_at<V>(entries: Seq<(String, V)>, key: Seq<char>, i: int) -> bool {
    0 <= i < entries.len() && entries[i].0@ == key
}

spec fn has_key<V>(entries: Seq<(String, V)>, key: Seq<char>) -> bool {
    exists|i: int| holds_at(entries, key, i)
}

spec fn keys_are_unique<V>(entries: Seq<(String, V)>) -> bool {
    forall|i: int, j: int|
        0 <= i < entries.len() && 0 <= j < entries.len() && #[trigger] entries[i].0@ == #[trigger] entries[j].0@
            ==> i == j
}

spec fn as_map<V>(entries: Seq<(String, V)>) -> Map<Seq<char>, V> {
    Map::new(
        |key: Seq<char>| has_key(entries, key),
        |key: Seq<char>| entries[choose|i: int| holds_at(entries, key, i)].1,
    )
}

proof fn lemma_entry<V>(entries: Seq<(String, V)>, i: int)
    requires
        keys_are_unique(entries),
        0 <= i < entries.len(),
    ensures
        as_map(entries).contains_key(entries[i].0@),
        as_map(entries)[entries[i].0@] == entries[i].1,
{
    let key = entries[i].0@;
    assert(holds_at(entries, key, i));
    let j = choose|j: int| holds_at(entries, key, j);
    assert(holds_at(entries, key, j));
    assert(entries[i].0@ == entries[j].0@);
}

impl<V> View for TextMap<V> {
    type V = Map<Seq<char>, V>;

    closed spec fn view(&self) -> Map<Seq<char>, V> {
        as_map(self.entries@)
    }
}

impl<V> TextMap<V> {
    #[verifier::type_invariant]
    spec fn inv(self) -> bool {
        keys_are_unique(self.entries@)
    }

    /// The keys in insertion order.
    pub closed spec fn keys(self) -> Seq<Seq<char>> {
        Seq::new(self.entries@.len(), |i: int| self.entries@[i].0@)
    }

    /// An empty map.
    pub fn new() -> (map: Self)
        ensures
            map@ == Map::<Seq<char>, V>::empty(),
            map.keys() == Seq::<Seq<char>>::empty(),
    {
        let map = TextMap { entries: Vec::new() };
        assert(map@ =~= Map::<Seq<char>, V>::empty());
        assert(map.keys() =~= Seq::<Seq<char>>::empty());
        map
    }

    /// The number of entries. Every key present is listed once in
    /// [`keys`](Self::keys).
    pub fn len(&self) -> (n: usize)
        ensures
            n == self.keys().len(),
            self.keys().no_duplicates(),
            forall|key: Seq<char>| self@.contains_key(key) <==> #[trigger] self.keys().contains(key),
    {
        proof {
            use_type_invariant(self);
            let entries = self.entries@;
            assert forall|key: Seq<char>| self@.contains_key(key) <==> #[trigger] self.keys().contains(key) by {
                if self@.contains_key(key) {
                    let i = choose|i: int| holds_at(entries, key, i);
                    assert(self.keys()[i] == key);
                }
                if self.keys().contains(key) {
                    let i = choose|i: int| 0 <= i < self.keys().len() && self.keys()[i] == key;
                    assert(holds_at(entries, key, i));
                }
            }
            assert(self.keys().no_duplicates()) by {
                assert forall|i: int, j: int|
                    0 <= i < self.keys().len() && 0 <= j < self.keys().len() && i != j implies self.keys()[i]
                    != self.keys()[j] by {
                    assert(entries[i].0@ == self.keys()[i]);
                    assert(entries[j].0@ == self.keys()[j]);
                }
            }
        }
        self.entries.len()
    }

    /// The position of `key` in insertion order.
    fn position(&self, key: &str) -> (found: Option<usize>)
        ensures
            match found {
                Some(i) => holds_at(self.entries@, key@, i as int),
                None => !has_key(self.entries@, key@),
            },
    {
        let wanted = key.to_owned();
        let mut i: usize = 0;
        while i < self.entries.len()
            invariant
                wanted@ == key@,
                i <= self.entries@.len(),
                forall|j: int| 0 <= j < i ==> (#[trigger] self.entries@[j]).0@ != key@,
            decreases self.entries@.len() - i,
        {
            if self.entries[i].0 == wanted {
                return Some(i);
            }
            i += 1;
        }
        None
    }

    /// The value stored under `key`.
    pub fn get(&self, key: &str) -> (value: Option<&V>)
        ensures
            match value {
                Some(value) => self@.contains_key(key@) && *value == self@[key@],
                None => !self@.contains_key(key@),
            },
    {
        proof {
            use_type_invariant(self);
        }
        match self.position(key) {
            Some(i) => {
                proof {
                    lemma_entry(self.entries@, i as int);
                }
                Some(&self.entries[i].1)
            },
            None => None,
        }
    }

    /// Whether `key` is present.
    pub fn contains_key(&self, key: &str) -> (present: bool)
        ensures
            present == self@.contains_key(key@),
    {
        match self.position(key) {
            Some(i) => true,
            None => false,
        }
    }

    /// The key at position `i`.
    pub fn key_at(&self, i: usize) -> (key: &String)
        requires
            i < self.keys().len(),
        ensures
            key@ == self.keys()[i as int],
            self@.contains_key(key@),
    {
        proof {
            use_type_invariant(self);
            lemma_entry(self.entries@, i as int);
        }
        &self.entries[i].0
    }

    /// The value at position `i`.
    pub fn value_at(&self, i: usize) -> (value: &V)
        requires
            i < self.keys().len(),
        ensures
            self@.contains_key(self.keys()[i as int]),
            *value == self@[self.keys()[i as int]],
    {
        proof {
            use_type_invariant(self);
            lemma_entry(self.entries@, i as int);
        }
        &self.entries[i].1
    }

    /// Stores `value` under `key` and returns the value it replaces.
    pub fn insert(&mut self, key: String, value: V) -> (previous: Option<V>)
        ensures
            final(self)@ == old(self)@.insert(key@, value),
            previous == (if old(self)@.contains_key(key@) { Some(old(self)@[key@]) } else { None }),
            final(self).keys() == (if old(self)@.contains_key(key@) { old(self).keys() } else {
                old(self).keys().push(key@)
            }),
    {
        proof {
            use_type_invariant(&*self);
        }
        let found = self.position(key.as_str());
        let mut entries: Vec<(String, V)> = Vec::new();
        std::mem::swap(&mut entries, &mut self.entries);
        let ghost before = entries@;
        match found {
            Some(i) => {
                proof {
                    lemma_entry(before, i as int);
                }
                let mut slot = (key, value);
                let ghost fresh = slot;
                std::mem::swap(&mut entries[i], &mut slot);
                proof {
                    let after = entries@;
                    assert(after == before.update(i as int, fresh));
                    assert(keys_are_unique(after)) by {
                        assert forall|a: int, b: int|
                            0 <= a < after.len() && 0 <= b < after.len() && #[trigger] after[a].0@
                                == #[trigger] after[b].0@ implies a == b by {
                            assert(before[a].0@ == after[a].0@);
                            assert(before[b].0@ == after[b].0@);
                        }
                    }
                    lemma_same_keys(before, after);
                    assert forall|k: Seq<char>| as_map(after).contains_key(k) implies as_map(after)[k] == as_map(
                        before,
                    ).insert(key@, value)[k] by {
                        let a = choose|a: int| holds_at(after, k, a);
                        lemma_entry(after, a);
                        lemma_entry(before, a);
                    }
                    assert(as_map(after) =~= as_map(before).insert(key@, value));
                }
                self.entries = entries;
                assert(self.keys() =~= old(self).keys());
                Some(slot.1)
            },
            None => {
                entries.push((key, value));
                proof {
                    let after = entries@;
                    assert(keys_are_unique(after)) by {
                        assert forall|a: int, b: int|
                            0 <= a < after.len() && 0 <= b < after.len() && #[trigger] after[a].0@
                                == #[trigger] after[b].0@ implies a == b by {
                            if a < before.len() {
                                assert(before[a] == after[a]);
                                if b == before.len() {
                                    assert(holds_at(before, key@, a));
                                }
                            }
                            if b < before.len() {
                                assert(before[b] == after[b]);
                                if a == before.len() {
                                    assert(holds_at(before, key@, b));
                                }
                            }
                        }
                    }
                    let grown = as_map(before).insert(key@, value);
                    assert forall|k: Seq<char>| as_map(after).contains_key(k) <==> grown.contains_key(k) by {
                        if has_key(after, k) {
                            let a = choose|a: int| holds_at(after, k, a);
                            if a < before.len() {
                                assert(holds_at(before, k, a));
                            }
                        }
                        if has_key(before, k) {
                            let a = choose|a: int| holds_at(before, k, a);
                            assert(holds_at(after, k, a));
                        }
                        if k == key@ {
                            assert(holds_at(after, k, before.len() as int));
                        }
                    }
                    assert forall|k: Seq<char>| as_map(after).contains_key(k) implies as_map(after)[k]
                        == grown[k] by {
                        let a = choose|a: int| holds_at(after, k, a);
                        lemma_entry(after, a);
                        if a < before.len() {
                            lemma_entry(before, a);
                            assert(holds_at(before, k, a));
                        }
                    }
                    assert(as_map(after) =~= grown);
                }
                self.entries = entries;
                assert(self.keys() =~= old(self).keys().push(key@));
                None
            },
        }
    }

    /// Replaces the value at position `i` and returns the old one.
    pub fn replace_at(&mut self, i: usize, value: V) -> (previous: V)
        requires
            i < old(self).keys().len(),
        ensures
            old(self)@.contains_key(old(self).keys()[i as int]),
            final(self)@ == old(self)@.insert(old(self).keys()[i as int], value),
            previous == old(self)@[old(self).keys()[i as int]],
            final(self).keys() == old(self).keys(),
    {
        proof {
            use_type_invariant(&*self);
            lemma_entry(self.entries@, i as int);
        }
        let key = self.entries[i].0.clone();
        match self.insert(key, value) {
            Some(previous) => previous,
            None => {
                assert(false);
                vstd::pervasive::unreached()
            },
        }
    }

    /// Removes `key` and returns its value.
    pub fn remove(&mut self, key: &str) -> (removed: Option<V>)
        ensures
            final(self)@ == old(self)@.remove(key@),
            removed == (if old(self)@.contains_key(key@) { Some(old(self)@[key@]) } else { None }),
    {
        proof {
            use_type_invariant(&*self);
        }
        let found = self.position(key);
        match found {
            Some(i) => {
                let mut entries: Vec<(String, V)> = Vec::new();
                std::mem::swap(&mut entries, &mut self.entries);
                let ghost before = entries@;
                proof {
                    lemma_entry(before, i as int);
                }
                let removed = entries.remove(i);
                proof {
                    let after = entries@;
                    assert(after == before.remove(i as int));
                    assert(keys_are_unique(after)) by {
                        assert forall|a: int, b: int|
                            0 <= a < after.len() && 0 <= b < after.len() && #[trigger] after[a].0@
                                == #[trigger] after[b].0@ implies a == b by {
                            let a0 = if a < i { a } else { a + 1 };
                            let b0 = if b < i { b } else { b + 1 };
                            assert(before[a0] == after[a]);
                            assert(before[b0] == after[b]);
                            assert(before[a0].0@ == before[b0].0@);
                        }
                    }
                    let shrunk = as_map(before).remove(key@);
                    assert forall|k: Seq<char>| as_map(after).contains_key(k) <==> shrunk.contains_key(k) by {
                        if has_key(after, k) {
                            let a = choose|a: int| holds_at(after, k, a);
                            let a0 = if a < i { a } else { a + 1 };
                            assert(before[a0] == after[a]);
                            assert(holds_at(before, k, a0));
                            assert(before[a0].0@ == k && before[i as int].0@ == key@);
                        }
                        if shrunk.contains_key(k) {
                            let a0 = choose|a0: int| holds_at(before, k, a0);
                            let a = if a0 < i { a0 } else { a0 - 1 };
                            assert(before[a0] == after[a]);
                            assert(holds_at(after, k, a));
                        }
                    }
                    assert forall|k: Seq<char>| as_map(after).contains_key(k) implies as_map(after)[k]
                        == shrunk[k] by {
                        let a = choose|a: int| holds_at(after, k, a);
                        let a0 = if a < i { a } else { a + 1 };
                        assert(before[a0] == after[a]);
                        lemma_entry(after, a);
                        lemma_entry(before, a0);
                        assert(shrunk.contains_key(k));
                    }
                    assert(as_map(after) =~= shrunk);
                }
                self.entries = entries;
                Some(removed.1)
            },
            None => {
                assert(self@.remove(key@) =~= self@);
                None
            },
        }
    }

    /// Adds the entries of `other`, which win where both have a key.
    pub fn extend(&mut self, other: TextMap<V>)
        ensures
            final(self)@ == old(self)@.union_prefer_right(other@),
    {
        proof {
            use_type_invariant(&other);
        }
        let mut rest = other.entries;
        let ghost all = rest@;
        let ghost mut i: int = 0;
        proof {
            assert(all.take(0) =~= Seq::<(String, V)>::empty());
            assert(as_map(all.take(0)) =~= Map::<Seq<char>, V>::empty());
            assert(self@ =~= old(self)@.union_prefer_right(as_map(all.take(0))));
        }
        while rest.len() > 0
            invariant
                0 <= i <= all.len(),
                keys_are_unique(all),
                rest@ == all.skip(i),
                self@ == old(self)@.union_prefer_right(as_map(all.take(i))),
            decreases rest@.len(),
        {
            let (key, value) = rest.remove(0);
            let ghost before = self@;
            let _ = self.insert(key, value);
            proof {
                lemma_take_step(all, i);
                assert(rest@ =~= all.skip(i + 1));
                assert(self@ =~= old(self)@.union_prefer_right(as_map(all.take(i + 1))));
                i = i + 1;
            }
        }
        assert(all.take(i) =~= all);
    }
}

impl<V: Clone> Clone for TextMap<V> {
    fn clone(&self) -> (copy: Self)
        ensures
            copy.keys() == self.keys(),
            copy@.dom() == self@.dom(),
            forall|key: Seq<char>| #[trigger] copy@.contains_key(key) ==> cloned::<V>(self@[key], copy@[key]),
    {
        proof {
            use_type_invariant(self);
        }
        let mut entries: Vec<(String, V)> = Vec::new();
        let mut i: usize = 0;
        while i < self.entries.len()
            invariant
                i <= self.entries@.len(),
                entries@.len() == i,
                forall|j: int|
                    0 <= j < i ==> (#[trigger] entries@[j]).0 == self.entries@[j].0 && cloned::<V>(
                        self.entries@[j].1,
                        entries@[j].1,
                    ),
            decreases self.entries@.len() - i,
        {
            let value = self.entries[i].1.clone();
            entries.push((self.entries[i].0.clone(), value));
            i += 1;
        }
        proof {
            let before = self.entries@;
            let after = entries@;
            assert(keys_are_unique(after)) by {
                assert forall|a: int, b: int|
                    0 <= a < after.len() && 0 <= b < after.len() && #[trigger] after[a].0@
                        == #[trigger] after[b].0@ implies a == b by {
                    assert(before[a].0@ == before[b].0@);
                }
            }
            lemma_same_keys(after, before);
            assert forall|key: Seq<char>| #[trigger] as_map(after).contains_key(key) implies cloned::<V>(
                as_map(before)[key],
                as_map(after)[key],
            ) by {
                let a = choose|a: int| holds_at(after, key, a);
                lemma_entry(after, a);
                lemma_entry(before, a);
            }
            assert(as_map(after).dom() =~= as_map(before).dom());
        }
        let copy = TextMap { entries };
        assert(copy.keys() =~= self.keys());
        copy
    }
}

/// The map of one entry more.
proof fn lemma_take_step<V>(entries: Seq<(String, V)>, i: int)
    requires
        keys_are_unique(entries),
        0 <= i < entries.len(),
    ensures
        as_map(entries.take(i + 1)) == as_map(entries.take(i)).insert(entries[i].0@, entries[i].1),
{
    let before = entries.take(i);
    let after = entries.take(i + 1);
    let grown = as_map(before).insert(entries[i].0@, entries[i].1);
    assert(keys_are_unique(before)) by {
        assert forall|a: int, b: int|
            0 <= a < before.len() && 0 <= b < before.len() && #[trigger] before[a].0@
                == #[trigger] before[b].0@ implies a == b by {
            assert(entries[a].0@ == entries[b].0@);
        }
    }
    assert(keys_are_unique(after)) by {
        assert forall|a: int, b: int|
            0 <= a < after.len() && 0 <= b < after.len() && #[trigger] after[a].0@
                == #[trigger] after[b].0@ implies a == b by {
            assert(entries[a].0@ == entries[b].0@);
        }
    }
    assert forall|k: Seq<char>| as_map(after).contains_key(k) <==> grown.contains_key(k) by {
        if has_key(after, k) {
            let a = choose|a: int| holds_at(after, k, a);
            if a < i {
                assert(holds_at(before, k, a));
            }
        }
        if has_key(before, k) {
            let a = choose|a: int| holds_at(before, k, a);
            assert(holds_at(after, k, a));
        }
        if k == entries[i].0@ {
            assert(holds_at(after, k, i));
        }
    }
    assert forall|k: Seq<char>| as_map(after).contains_key(k) implies as_map(after)[k] == grown[k] by {
        let a = choose|a: int| holds_at(after, k, a);
        lemma_entry(after, a);
        if a < i {
            lemma_entry(before, a);
            assert(entries[a].0@ == k && (entries[i].0@ == k ==> a == i));
        }
    }
    assert(as_map(after) =~= grown);
}

proof fn lemma_same_keys<V>(before: Seq<(String, V)>, after: Seq<(String, V)>)
    requires
        before.len() == after.len(),
        forall|i: int| 0 <= i < before.len() ==> (#[trigger] before[i]).0@ == after[i].0@,
    ensures
        forall|key: Seq<char>| has_key(before, key) <==> has_key(after, key),
{
    assert forall|key: Seq<char>| has_key(before, key) <==> has_key(after, key) by {
        if has_key(before, key) {
            let i = choose|i: int| holds_at(before, key, i);
            assert(holds_at(after, key, i));
        }
        if has_key(after, key) {
            let i = choose|i: int| holds_at(after, key, i);
            assert(holds_at(before, key, i));
        }
    }
}

} // verus!
