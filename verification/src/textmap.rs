//! A small map keyed by text, kept as a list of entries in which no key
//! occurs twice. Its view is the mathematical map from key to value.

use vstd::prelude::*;

verus! {

/// Whether some entry of `s` is filed under `key`.
pub open spec fn has_key<V>(s: Seq<(String, V)>, key: Seq<char>) -> bool {
    exists|i: int| 0 <= i < s.len() && (#[trigger] s[i]).0@ == key
}

/// The position of an entry filed under `key`, where there is one.
pub open spec fn slot_of<V>(s: Seq<(String, V)>, key: Seq<char>) -> int {
    choose|i: int| 0 <= i < s.len() && (#[trigger] s[i]).0@ == key
}

/// No key occurs twice among the entries.
pub open spec fn keys_distinct<V>(s: Seq<(String, V)>) -> bool {
    forall|i: int, j: int|
        0 <= i < j < s.len() ==> (#[trigger] s[i]).0@ != (#[trigger] s[j]).0@
}

/// The map that a list of entries stands for.
pub open spec fn entries_model<V: View>(s: Seq<(String, V)>) -> Map<Seq<char>, V::V> {
    Map::new(|key: Seq<char>| has_key(s, key), |key: Seq<char>| s[slot_of(s, key)].1@)
}

/// The keys of a list of entries, in the list's order.
pub open spec fn entry_keys<V>(s: Seq<(String, V)>) -> Seq<Seq<char>> {
    Seq::new(s.len(), |i: int| s[i].0@)
}

/// A list of keys without `key`.
pub open spec fn without(keys: Seq<Seq<char>>, key: Seq<char>) -> Seq<Seq<char>> {
    if keys.contains(key) {
        keys.remove(keys.index_of(key))
    } else {
        keys
    }
}

/// In a list without repeated keys, an entry's key leads back to its position.
pub proof fn lemma_slot_of_entry<V>(s: Seq<(String, V)>, i: int)
    requires
        keys_distinct(s),
        0 <= i < s.len(),
    ensures
        has_key(s, s[i].0@),
        slot_of(s, s[i].0@) == i,
{
    let key = s[i].0@;
    assert(has_key(s, key));
    let j = slot_of(s, key);
    if j < i {
        assert(s[j].0@ != s[i].0@);
    } else if i < j {
        assert(s[i].0@ != s[j].0@);
    }
}

/// Appending an entry under a fresh key inserts it into the model.
pub proof fn lemma_model_push<V: View>(s: Seq<(String, V)>, key: String, value: V)
    requires
        keys_distinct(s),
        !has_key(s, key@),
    ensures
        keys_distinct(s.push((key, value))),
        entries_model(s.push((key, value))) == entries_model(s).insert(key@, value@),
{
    let t = s.push((key, value));
    assert forall|i: int, j: int| 0 <= i < j < t.len() implies (#[trigger] t[i]).0@ != (
    #[trigger] t[j]).0@ by {
        if j < s.len() {
            assert(s[i].0@ != s[j].0@);
        } else {
            assert(s[i].0@ != key@);
        }
    }
    assert forall|k: Seq<char>| has_key(t, k) <==> (k == key@ || has_key(s, k)) by {
        if has_key(t, k) {
            let i = slot_of(t, k);
            if i < s.len() {
                assert(s[i].0@ == k);
            }
        }
        if k == key@ {
            assert(t[s.len() as int].0@ == k);
        }
        if has_key(s, k) {
            let i = slot_of(s, k);
            assert(t[i].0@ == k);
        }
    }
    assert forall|k: Seq<char>| has_key(t, k) implies #[trigger] entries_model(t)[k]
        == entries_model(s).insert(key@, value@)[k] by {
        let i = slot_of(t, k);
        lemma_slot_of_entry(t, i);
        if i < s.len() {
            lemma_slot_of_entry(s, i);
        }
    }
    assert(entries_model(t) =~= entries_model(s).insert(key@, value@));
}

/// Replacing the entry at a key's own position overwrites it in the model.
pub proof fn lemma_model_update<V: View>(s: Seq<(String, V)>, i: int, key: String, value: V)
    requires
        keys_distinct(s),
        0 <= i < s.len(),
        s[i].0@ == key@,
    ensures
        keys_distinct(s.update(i, (key, value))),
        entries_model(s.update(i, (key, value))) == entries_model(s).insert(key@, value@),
{
    let t = s.update(i, (key, value));
    assert forall|a: int, b: int| 0 <= a < b < t.len() implies (#[trigger] t[a]).0@ != (
    #[trigger] t[b]).0@ by {
        assert(s[a].0@ != s[b].0@);
    }
    assert forall|k: Seq<char>| has_key(t, k) <==> (k == key@ || has_key(s, k)) by {
        if has_key(t, k) {
            let a = slot_of(t, k);
            assert(s[a].0@ == k);
        }
        if k == key@ {
            assert(t[i].0@ == k);
        }
        if has_key(s, k) {
            let a = slot_of(s, k);
            assert(t[a].0@ == k);
        }
    }
    assert forall|k: Seq<char>| has_key(t, k) implies #[trigger] entries_model(t)[k]
        == entries_model(s).insert(key@, value@)[k] by {
        let a = slot_of(t, k);
        lemma_slot_of_entry(t, a);
        lemma_slot_of_entry(s, a);
    }
    assert(entries_model(t) =~= entries_model(s).insert(key@, value@));
}

/// Dropping the entry at a position removes its key from the model.
pub proof fn lemma_model_remove<V: View>(s: Seq<(String, V)>, i: int)
    requires
        keys_distinct(s),
        0 <= i < s.len(),
    ensures
        keys_distinct(s.remove(i)),
        entries_model(s.remove(i)) == entries_model(s).remove(s[i].0@),
{
    let t = s.remove(i);
    let gone = s[i].0@;
    assert forall|a: int, b: int| 0 <= a < b < t.len() implies (#[trigger] t[a]).0@ != (
    #[trigger] t[b]).0@ by {
        let sa = if a < i { a } else { a + 1 };
        let sb = if b < i { b } else { b + 1 };
        assert(s[sa].0@ != s[sb].0@);
    }
    assert forall|k: Seq<char>| has_key(t, k) <==> (k != gone && has_key(s, k)) by {
        if has_key(t, k) {
            let a = slot_of(t, k);
            let sa = if a < i { a } else { a + 1 };
            assert(s[sa].0@ == k);
            if sa < i {
                assert(s[sa].0@ != s[i].0@);
            } else {
                assert(s[i].0@ != s[sa].0@);
            }
        }
        if k != gone && has_key(s, k) {
            let sa = slot_of(s, k);
            let a = if sa < i { sa } else { sa - 1 };
            assert(t[a].0@ == k);
        }
    }
    assert forall|k: Seq<char>| has_key(t, k) implies #[trigger] entries_model(t)[k]
        == entries_model(s).remove(gone)[k] by {
        let a = slot_of(t, k);
        let sa = if a < i { a } else { a + 1 };
        lemma_slot_of_entry(t, a);
        lemma_slot_of_entry(s, sa);
    }
    assert(entries_model(t) =~= entries_model(s).remove(gone));
}

/// A map from text to `V`. Inserting under a key that is already present
/// replaces the value; nothing else ever shares a key.
pub struct TextMap<V> {
    entries: Vec<(String, V)>,
}

impl<V> TextMap<V> {
    #[verifier::type_invariant]
    spec fn well_formed(self) -> bool {
        keys_distinct(self.entries@)
    }

    /// The entries in the order in which their keys first arrived.
    pub closed spec fn entries(self) -> Seq<(String, V)> {
        self.entries@
    }

    /// The keys in the order in which they first arrived.
    pub closed spec fn keys(self) -> Seq<Seq<char>> {
        entry_keys(self.entries@)
    }
}

impl<V: View> View for TextMap<V> {
    type V = Map<Seq<char>, V::V>;

    closed spec fn view(&self) -> Map<Seq<char>, V::V> {
        entries_model(self.entries@)
    }
}

impl<V: View> TextMap<V> {
    /// The empty map.
    pub fn new() -> (map: Self)
        ensures
            map@ == Map::<Seq<char>, V::V>::empty(),
            map.keys() == Seq::<Seq<char>>::empty(),
    {
        let map = TextMap { entries: Vec::new() };
        assert(map@ =~= Map::<Seq<char>, V::V>::empty());
        assert(map.keys() =~= Seq::<Seq<char>>::empty());
        map
    }

    /// The keys of the map are the keys in its list.
    pub proof fn lemma_keys_are_domain(self, key: Seq<char>)
        ensures
            self@.contains_key(key) <==> self.keys().contains(key),
    {
        let s = self.entries@;
        if has_key(s, key) {
            let i = slot_of(s, key);
            assert(entry_keys(s)[i] == key);
        }
        if entry_keys(s).contains(key) {
            let i = choose|i: int| 0 <= i < entry_keys(s).len() && entry_keys(s)[i] == key;
            assert(s[i].0@ == key);
        }
    }

    /// The number of keys.
    pub fn len(&self) -> (n: usize)
        ensures
            n == self.keys().len(),
            n == self@.dom().len(),
            self@.dom().finite(),
            self.keys().no_duplicates(),
    {
        proof {
            use_type_invariant(self);
            lemma_model_domain::<V>(self.entries@);
            let s = self.entries@;
            assert forall|i: int, j: int|
                0 <= i < entry_keys(s).len() && 0 <= j < entry_keys(s).len() && i != j implies entry_keys(
                s,
            )[i] != entry_keys(s)[j] by {
                if i < j {
                    assert(s[i].0@ != s[j].0@);
                } else {
                    assert(s[j].0@ != s[i].0@);
                }
            }
        }
        self.entries.len()
    }

    fn find(&self, key: &String) -> (found: Option<usize>)
        ensures
            match found {
                Some(i) => i < self.entries@.len() && self.entries@[i as int].0@ == key@,
                None => !has_key(self.entries@, key@),
            },
    {
        let mut i: usize = 0;
        while i < self.entries.len()
            invariant
                i <= self.entries@.len(),
                forall|j: int| 0 <= j < i ==> (#[trigger] self.entries@[j]).0@ != key@,
            decreases self.entries@.len() - i,
        {
            if self.entries[i].0 == *key {
                return Some(i);
            }
            i += 1;
        }
        None
    }

    /// Whether `key` has a value.
    pub fn contains_key(&self, key: &String) -> (present: bool)
        ensures
            present == self@.contains_key(key@),
    {
        self.find(key).is_some()
    }

    /// The value filed under `key`, if there is one.
    pub fn get(&self, key: &String) -> (found: Option<&V>)
        ensures
            match found {
                Some(value) => self@.contains_key(key@) && self@[key@] == value@,
                None => !self@.contains_key(key@),
            },
    {
        match self.find(key) {
            Some(i) => {
                proof {
                    use_type_invariant(self);
                    lemma_slot_of_entry(self.entries@, i as int);
                }
                Some(&self.entries[i].1)
            },
            None => None,
        }
    }

    /// Files `value` under `key`, replacing what was there. A key that is
    /// already present keeps its place; a new key goes to the end.
    pub fn insert(&mut self, key: String, value: V)
        ensures
            final(self)@ == old(self)@.insert(key@, value@),
            final(self).keys() == if old(self)@.contains_key(key@) {
                old(self).keys()
            } else {
                old(self).keys().push(key@)
            },
    {
        proof {
            use_type_invariant(&*self);
        }
        let found = self.find(&key);
        let mut entries: Vec<(String, V)> = Vec::new();
        core::mem::swap(&mut self.entries, &mut entries);
        match found {
            Some(i) => {
                proof {
                    lemma_model_update(entries@, i as int, key, value);
                    assert(entry_keys(entries@.update(i as int, (key, value))) =~= entry_keys(
                        entries@,
                    ));
                }
                entries.set(i, (key, value));
            },
            None => {
                proof {
                    lemma_model_push(entries@, key, value);
                    assert(entry_keys(entries@.push((key, value))) =~= entry_keys(entries@).push(
                        key@,
                    ));
                }
                entries.push((key, value));
            },
        }
        core::mem::swap(&mut self.entries, &mut entries);
    }

    /// Takes the value filed under `key` out of the map, if there is one.
    pub fn remove(&mut self, key: &String) -> (taken: Option<V>)
        ensures
            final(self)@ == old(self)@.remove(key@),
            final(self).keys() == without(old(self).keys(), key@),
            match taken {
                Some(value) => old(self)@.contains_key(key@) && old(self)@[key@] == value@,
                None => !old(self)@.contains_key(key@),
            },
    {
        proof {
            use_type_invariant(&*self);
            self.lemma_keys_are_domain(key@);
        }
        match self.find(key) {
            Some(i) => {
                let mut entries: Vec<(String, V)> = Vec::new();
                core::mem::swap(&mut self.entries, &mut entries);
                proof {
                    lemma_slot_of_entry(entries@, i as int);
                    lemma_model_remove(entries@, i as int);
                    let keys = entry_keys(entries@);
                    let at = keys.index_of(key@);
                    assert(keys[i as int] == key@);
                    assert(entries@[at].0@ == key@);
                    if at < i {
                        assert(entries@[at].0@ != entries@[i as int].0@);
                    } else if i < at {
                        assert(entries@[i as int].0@ != entries@[at].0@);
                    }
                    assert(entry_keys(entries@.remove(i as int)) =~= keys.remove(i as int));
                }
                let entry = entries.remove(i);
                core::mem::swap(&mut self.entries, &mut entries);
                Some(entry.1)
            },
            None => {
                assert(old(self)@.remove(key@) =~= old(self)@);
                None
            },
        }
    }

    /// Hands the entries out as a list: each key once, with its value, in the
    /// order of the keys.
    pub fn into_entries(self) -> (list: Vec<(String, V)>)
        ensures
            list@ == self.entries(),
            entry_keys(list@) == self.keys(),
            keys_distinct(list@),
            self@ == entries_model(list@),
    {
        proof {
            use_type_invariant(&self);
        }
        self.entries
    }
}

/// The model's domain is finite and has one key per entry.
pub proof fn lemma_model_domain<V: View>(s: Seq<(String, V)>)
    requires
        keys_distinct(s),
    ensures
        entries_model(s).dom().finite(),
        entries_model(s).dom().len() == s.len(),
    decreases s.len(),
{
    if s.len() == 0 {
        assert(entries_model(s).dom() =~= Set::<Seq<char>>::empty());
    } else {
        let last = (s.len() - 1) as int;
        let front = s.remove(last);
        lemma_model_remove(s, last);
        lemma_model_domain(front);
        lemma_slot_of_entry(s, last);
        let key = s[last].0@;
        assert(entries_model(s).dom() =~= entries_model(front).dom().insert(key));
        assert(!entries_model(front).dom().contains(key));
    }
}

} // verus!
