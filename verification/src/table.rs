//! A table from names to values, in which each name occurs at most once.

use vstd::prelude::*;
use vstd::seq_lib::seq_to_set_is_finite;

verus! {

/// Values stored under names; a name is stored at most once.
pub struct NamedTable<V> {
    entries: Vec<(String, V)>,
}

impl<V> NamedTable<V> {
    #[verifier::type_invariant]
    closed spec fn names_distinct(self) -> bool {
        forall|i: int, j: int|
            0 <= i < j < self.entries@.len() ==> #[trigger] self.entries@[i].0@ != #[trigger] self.entries@[j].0@
    }

    closed spec fn has_slot(self, name: Seq<char>, i: int) -> bool {
        0 <= i < self.entries@.len() && self.entries@[i].0@ == name
    }

    /// The names and values held, as a map.
    pub closed spec fn contents(self) -> Map<Seq<char>, V> {
        Map::new(
            |k: Seq<char>| exists|i: int| self.has_slot(k, i),
            |k: Seq<char>| self.entries@[choose|i: int| self.has_slot(k, i)].1,
        )
    }

    proof fn lemma_slot_value(self, name: Seq<char>, i: int)
        requires
            self.names_distinct(),
            self.has_slot(name, i),
        ensures
            self.contents().dom().contains(name),
            self.contents()[name] == self.entries@[i].1,
    {
        let j = choose|j: int| self.has_slot(name, j);
        assert(self.has_slot(name, j));
        if j < i {
            assert(self.entries@[j].0@ != self.entries@[i].0@);
        } else if i < j {
            assert(self.entries@[i].0@ != self.entries@[j].0@);
        }
    }

    /// A table holds finitely many names.
    pub proof fn lemma_contents_finite(self)
        ensures
            self.contents().dom().finite(),
    {
        let names = self.entries@.map_values(|e: (String, V)| e.0@);
        assert forall|k: Seq<char>| self.contents().dom().contains(k) implies #[trigger] names.to_set().contains(k) by {
            let i = choose|i: int| self.has_slot(k, i);
            assert(names[i] == k);
        }
        assert forall|k: Seq<char>| #[trigger] names.to_set().contains(k) implies self.contents().dom().contains(k) by {
            let i = choose|i: int| 0 <= i < names.len() && names[i] == k;
            assert(self.has_slot(k, i));
        }
        assert(self.contents().dom() =~= names.to_set());
        seq_to_set_is_finite(names);
    }

    /// An empty table.
    pub fn new() -> (r: Self)
        ensures
            r.contents() == Map::<Seq<char>, V>::empty(),
    {
        let r = NamedTable { entries: Vec::new() };
        assert(r.contents() =~= Map::<Seq<char>, V>::empty());
        r
    }

    fn position(&self, name: &str) -> (r: Option<usize>)
        ensures
            r matches Some(i) ==> self.has_slot(name@, i as int),
            r is None ==> forall|i: int| !self.has_slot(name@, i),
    {
        let key: String = name.to_owned();
        let n = self.entries.len();
        for i in 0..n
            invariant
                n == self.entries@.len(),
                key@ == name@,
                forall|j: int| 0 <= j < i ==> !self.has_slot(name@, j),
        {
            if self.entries[i].0 == key {
                return Some(i);
            }
        }
        None
    }

    /// The value stored under `name`, if any.
    pub fn get(&self, name: &str) -> (r: Option<&V>)
        ensures
            r is Some <==> self.contents().dom().contains(name@),
            r matches Some(v) ==> *v == self.contents()[name@],
    {
        proof {
            use_type_invariant(self);
        }
        match self.position(name) {
            Some(i) => {
                proof {
                    self.lemma_slot_value(name@, i as int);
                }
                Some(&self.entries[i].1)
            },
            None => None,
        }
    }

    /// Stores `value` under `name`, replacing what was stored there.
    pub fn insert(&mut self, name: &str, value: V)
        ensures
            final(self).contents() == old(self).contents().insert(name@, value),
    {
        proof {
            use_type_invariant(&*self);
        }
        let key: String = name.to_owned();
        let ghost before = *self;
        let found = self.position(name);
        let mut entries: Vec<(String, V)> = Vec::new();
        std::mem::swap(&mut entries, &mut self.entries);
        match found {
            Some(i) => {
                entries.set(i, (key, value));
                self.entries = entries;
                proof {
                    let after = *self;
                    assert forall|k: Seq<char>|
                        #![auto]
                        after.contents().dom().contains(k) == before.contents().insert(name@, value).dom().contains(k) by {
                        if exists|j: int| before.has_slot(k, j) {
                            let j = choose|j: int| before.has_slot(k, j);
                            if j == i {
                                assert(after.has_slot(k, j));
                            } else {
                                assert(after.has_slot(k, j));
                            }
                        }
                        if exists|j: int| after.has_slot(k, j) {
                            let j = choose|j: int| after.has_slot(k, j);
                            assert(before.has_slot(k, j));
                        }
                    }
                    assert forall|k: Seq<char>| #[trigger] after.contents().dom().contains(k) implies
                        after.contents()[k] == before.contents().insert(name@, value)[k] by {
                        let j = choose|j: int| after.has_slot(k, j);
                        after.lemma_slot_value(k, j);
                        if k != name@ {
                            before.lemma_slot_value(k, j);
                        }
                    }
                    assert(after.contents() =~= before.contents().insert(name@, value));
                }
            },
            None => {
                entries.push((key, value));
                proof {
                    assert forall|a: int, b: int| 0 <= a < b < entries@.len() implies
                        #[trigger] entries@[a].0@ != #[trigger] entries@[b].0@ by {
                        if b == entries@.len() - 1 {
                            assert(!before.has_slot(name@, a));
                        } else {
                            assert(before.entries@[a].0@ != before.entries@[b].0@);
                        }
                    }
                }
                self.entries = entries;
                proof {
                    let after = *self;
                    let last = after.entries@.len() - 1;
                    assert(after.has_slot(name@, last));
                    assert forall|k: Seq<char>|
                        #![auto]
                        after.contents().dom().contains(k) == before.contents().insert(name@, value).dom().contains(k) by {
                        if exists|j: int| before.has_slot(k, j) {
                            let j = choose|j: int| before.has_slot(k, j);
                            assert(after.has_slot(k, j));
                        }
                        if exists|j: int| after.has_slot(k, j) {
                            let j = choose|j: int| after.has_slot(k, j);
                            if j < last {
                                assert(before.has_slot(k, j));
                            }
                        }
                    }
                    assert forall|k: Seq<char>| #[trigger] after.contents().dom().contains(k) implies
                        after.contents()[k] == before.contents().insert(name@, value)[k] by {
                        let j = choose|j: int| after.has_slot(k, j);
                        after.lemma_slot_value(k, j);
                        if k != name@ {
                            assert(j < last);
                            assert(before.has_slot(k, j));
                            before.lemma_slot_value(k, j);
                        }
                    }
                    assert(after.contents() =~= before.contents().insert(name@, value));
                }
            },
        }
    }
}

} // verus!

verus! {

impl<V> View for NamedTable<V> {
    type V = Map<Seq<char>, V>;

    open spec fn view(&self) -> Map<Seq<char>, V> {
        self.contents()
    }
}

} // verus!
