//! A small map from names to values that remembers the order of arrival.
//!
//! The map is a vector of entries in which no name occurs twice. Its model is
//! the `Map` from each name to its value, reached with `@`; `names()` and
//! `values()` give the same entries in the order in which they are walked.

use crate::text::str_eq;
use vstd::prelude::*;

verus! {

struct Entry<V> {
    name: String,
    value: V,
}

/// A map from names to values, walked in the order in which the names first
/// arrived.
pub struct Registry<V> {
    entries: Vec<Entry<V>>,
}

impl<V> View for Registry<V> {
    type V = Map<Seq<char>, V>;

    /// Each name that occurs, with the value that stands beside it.
    open spec fn view(&self) -> Map<Seq<char>, V> {
        Map::new(
            |name: Seq<char>| self.names().contains(name),
            |name: Seq<char>| self.values()[self.names().index_of(name)],
        )
    }
}

spec fn names_of<V>(entries: Seq<Entry<V>>) -> Seq<Seq<char>> {
    Seq::new(entries.len(), |i: int| entries[i].name@)
}

spec fn values_of<V>(entries: Seq<Entry<V>>) -> Seq<V> {
    Seq::new(entries.len(), |i: int| entries[i].value)
}

impl<V> Registry<V> {
    /// The names, in the order in which they are walked.
    pub closed spec fn names(&self) -> Seq<Seq<char>> {
        names_of(self.entries@)
    }

    /// The values, each at the position of its name.
    pub closed spec fn values(&self) -> Seq<V> {
        values_of(self.entries@)
    }

    #[verifier::type_invariant]
    closed spec fn names_are_distinct(&self) -> bool {
        self.names().no_duplicates()
    }

    /// In a registry whose names are distinct, the entry at position `i` is
    /// what the map holds for its name.
    pub proof fn lemma_entry(&self, i: int)
        requires
            self.names().no_duplicates(),
            0 <= i < self.names().len(),
        ensures
            self.names().len() == self.values().len(),
            self@.contains_key(self.names()[i]),
            self@[self.names()[i]] == self.values()[i],
    {
    }

    /// Every name of the map stands at some position.
    pub proof fn lemma_position(&self, name: Seq<char>)
        requires
            self@.contains_key(name),
        ensures
            0 <= self.names().index_of(name) < self.names().len(),
            self.names()[self.names().index_of(name)] == name,
            self.names().len() == self.values().len(),
    {
    }

    /// The empty registry.
    pub fn new() -> (registry: Self)
        ensures
            registry@ == Map::<Seq<char>, V>::empty(),
            registry.names() == Seq::<Seq<char>>::empty(),
            registry.values() == Seq::<V>::empty(),
    {
        let registry = Registry { entries: Vec::new() };
        registry
    }

    /// How many names the registry holds.
    pub fn len(&self) -> (n: usize)
        ensures
            n == self.names().len(),
            n == self.values().len(),
            self.names().no_duplicates(),
    {
        proof {
            use_type_invariant(self);
        }
        self.entries.len()
    }

    /// The name at position `i`.
    pub fn name_at(&self, i: usize) -> (name: &String)
        requires
            i < self.names().len(),
        ensures
            name@ == self.names()[i as int],
    {
        &self.entries[i].name
    }

    /// The value at position `i`.
    pub fn value_at(&self, i: usize) -> (value: &V)
        requires
            i < self.names().len(),
        ensures
            *value == self.values()[i as int],
            self@.contains_key(self.names()[i as int]),
            self@[self.names()[i as int]] == *value,
    {
        proof {
            use_type_invariant(self);
            self.lemma_entry(i as int);
        }
        &self.entries[i].value
    }

    /// Where `name` stands, if it occurs.
    pub fn position(&self, name: &str) -> (found: Option<usize>)
        ensures
            match found {
                Some(i) => i < self.names().len() && self.names()[i as int] == name@,
                None => !self.names().contains(name@),
            },
    {
        let mut i: usize = 0;
        while i < self.entries.len()
            invariant
                i <= self.entries.len(),
                forall|j: int| 0 <= j < i ==> self.names()[j] != name@,
            decreases self.entries.len() - i,
        {
            if str_eq(self.entries[i].name.as_str(), name) {
                return Some(i);
            }
            i += 1;
        }
        None
    }

    /// Whether `name` occurs.
    pub fn contains_key(&self, name: &str) -> (found: bool)
        ensures
            found == self@.contains_key(name@),
    {
        self.position(name).is_some()
    }

    /// The value that stands beside `name`.
    pub fn get(&self, name: &str) -> (found: Option<&V>)
        ensures
            found == (if self@.contains_key(name@) {
                Some(&self@[name@])
            } else {
                None
            }),
    {
        match self.position(name) {
            Some(i) => {
                proof {
                    use_type_invariant(self);
                    self.lemma_entry(i as int);
                }
                Some(&self.entries[i].value)
            },
            None => None,
        }
    }

    /// Puts `value` beside `name`. A name that is new goes to the end; one
    /// that occurs already keeps its place and has its value replaced.
    pub fn insert(&mut self, name: String, value: V)
        ensures
            final(self)@ == old(self)@.insert(name@, value),
            old(self)@.contains_key(name@) ==> final(self).names() == old(self).names(),
            !old(self)@.contains_key(name@) ==> final(self).names() == old(self).names().push(
                name@,
            ),
    {
        proof {
            use_type_invariant(&*self);
        }
        let found = self.position(name.as_str());
        let ghost before = *self;
        let ghost key = name@;
        let mut entries: Vec<Entry<V>> = Vec::new();
        std::mem::swap(&mut entries, &mut self.entries);
        match found {
            Some(i) => {
                entries.set(i, Entry { name, value });
                assert(names_of(entries@) =~= before.names());
            },
            None => {
                entries.push(Entry { name, value });
                proof {
                    let names = names_of(entries@);
                    assert(names =~= before.names().push(key));
                }
            },
        }
        self.entries = entries;
        proof {
            match found {
                Some(i) => {
                    before.lemma_entry(i as int);
                    assert forall|k: Seq<char>| self@.contains_key(k) implies #[trigger] self@[k]
                        == before@.insert(key, value)[k] by {
                        let j = self.names().index_of(k);
                        before.lemma_entry(j);
                    }
                },
                None => {
                    assert(self.names()[before.names().len() as int] == key);
                    assert forall|k: Seq<char>| self@.contains_key(k) <==> before@.insert(
                        key,
                        value,
                    ).contains_key(k) by {
                        if before.names().contains(k) {
                            let j = before.names().index_of(k);
                            assert(self.names()[j] == k);
                        }
                        if self.names().contains(k) {
                            let j = self.names().index_of(k);
                        }
                    }
                    assert forall|k: Seq<char>| self@.contains_key(k) implies #[trigger] self@[k]
                        == before@.insert(key, value)[k] by {
                        let j = self.names().index_of(k);
                        if j < before.names().len() {
                            before.lemma_entry(j);
                        }
                    }
                },
            }
        }
    }

    /// Takes `name` and its value out; the others keep their order.
    pub fn remove(&mut self, name: &str)
        ensures
            final(self)@ == old(self)@.remove(name@),
            old(self)@.contains_key(name@) ==> final(self).names() == old(self).names().remove(
                old(self).names().index_of(name@),
            ),
            !old(self)@.contains_key(name@) ==> final(self).names() == old(self).names(),
    {
        proof {
            use_type_invariant(&*self);
        }
        let found = self.position(name);
        let ghost before = *self;
        match found {
            Some(i) => {
                let mut entries: Vec<Entry<V>> = Vec::new();
                std::mem::swap(&mut entries, &mut self.entries);
                entries.remove(i);
                proof {
                    let names = names_of(entries@);
                    assert(names =~= before.names().remove(i as int));
                }
                self.entries = entries;
                proof {
                    assert forall|k: Seq<char>| self@.contains_key(k) <==> before@.remove(
                        name@,
                    ).contains_key(k) by {
                        if self.names().contains(k) {
                            let j = self.names().index_of(k);
                            assert(self.names()[j] == k);
                        }
                        if before.names().contains(k) && k != name@ {
                            let j = before.names().index_of(k);
                            if j < i {
                                assert(self.names()[j] == k);
                            } else {
                                assert(self.names()[j - 1] == k);
                            }
                        }
                    }
                    assert forall|k: Seq<char>| self@.contains_key(k) implies #[trigger] self@[k]
                        == before@.remove(name@)[k] by {
                        let j = self.names().index_of(k);
                        if j < i {
                            before.lemma_entry(j);
                        } else {
                            before.lemma_entry(j + 1);
                        }
                    }
                }
            },
            None => {},
        }
    }

    /// The names, each once, in the order in which they are walked.
    pub fn keys(&self) -> (names: Vec<String>)
        ensures
            names.deep_view() == self.names(),
            names.deep_view().no_duplicates(),
    {
        proof {
            use_type_invariant(self);
        }
        let mut names: Vec<String> = Vec::new();
        let mut i: usize = 0;
        while i < self.entries.len()
            invariant
                i <= self.entries.len(),
                names.len() == i,
                forall|j: int| 0 <= j < i ==> names[j]@ == self.names()[j],
            decreases self.entries.len() - i,
        {
            names.push(self.entries[i].name.clone());
            i += 1;
        }
        names
    }
}

} // verus!
