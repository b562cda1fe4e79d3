//! A small map from text keys to values, kept as a list of bindings in which
//! no key occurs twice. Its view is the mathematical map it stands for.

use vstd::prelude::*;

verus! {

/// One binding: a key and the value kept under it.
pub struct Binding<V> {
    key: String,
    value: V,
}

/// A map from text keys to values of type `V`.
pub struct KeyedStore<V> {
    bindings: Vec<Binding<V>>,
}

impl<V> View for KeyedStore<V> {
    type V = Map<Seq<char>, V>;

    closed spec fn view(&self) -> Map<Seq<char>, V> {
        Map::new(
            |k: Seq<char>| self.holds(k),
            |k: Seq<char>| self.bindings@[self.slot(k)].value,
        )
    }
}

impl<V> KeyedStore<V> {
    /// No key is bound twice.
    #[verifier::type_invariant]
    spec fn keys_distinct(self) -> bool {
        forall|i: int, j: int|
            0 <= i < j < self.bindings@.len() ==> self.bindings@[i].key@ != self.bindings@[j].key@
    }

    /// Some binding carries the key `k`.
    spec fn holds(&self, k: Seq<char>) -> bool {
        exists|i: int| 0 <= i < self.bindings@.len() && #[trigger] self.bindings@[i].key@ == k
    }

    /// The position of a binding that carries the key `k`, where there is one.
    spec fn slot(&self, k: Seq<char>) -> int {
        choose|i: int| 0 <= i < self.bindings@.len() && #[trigger] self.bindings@[i].key@ == k
    }

    /// With distinct keys, the binding at position `i` is the one the view
    /// reports for its key.
    proof fn slot_is(&self, i: int)
        requires
            self.keys_distinct(),
            0 <= i < self.bindings@.len(),
        ensures
            self.holds(self.bindings@[i].key@),
            self.slot(self.bindings@[i].key@) == i,
            self@.contains_key(self.bindings@[i].key@),
            self@[self.bindings@[i].key@] == self.bindings@[i].value,
    {
        let k = self.bindings@[i].key@;
        assert(self.bindings@[i].key@ == k);
        let j = self.slot(k);
        assert(0 <= j < self.bindings@.len() && self.bindings@[j].key@ == k);
        if j < i {
            assert(self.bindings@[j].key@ != self.bindings@[i].key@);
        } else if i < j {
            assert(self.bindings@[i].key@ != self.bindings@[j].key@);
        }
    }

    /// The empty store.
    pub fn new() -> (store: Self)
        ensures
            store@ == Map::<Seq<char>, V>::empty(),
    {
        let store = KeyedStore { bindings: Vec::new() };
        assert(store@ =~= Map::<Seq<char>, V>::empty());
        store
    }

    /// The position of the binding for `key`, if the store has one.
    fn position(&self, key: &String) -> (found: Option<usize>)
        ensures
            match found {
                Some(i) => i < self.bindings@.len() && self.bindings@[i as int].key@ == key@,
                None => !self.holds(key@),
            },
    {
        let mut i: usize = 0;
        while i < self.bindings.len()
            invariant
                i <= self.bindings@.len(),
                forall|j: int| 0 <= j < i ==> self.bindings@[j].key@ != key@,
            decreases self.bindings@.len() - i,
        {
            if self.bindings[i].key == *key {
                return Some(i);
            }
            i = i + 1;
        }
        None
    }

    /// Whether `key` is bound.
    pub fn contains(&self, key: &String) -> (present: bool)
        ensures
            present == self@.contains_key(key@),
    {
        self.position(key).is_some()
    }

    /// The value bound to `key`, if any.
    pub fn get(&self, key: &String) -> (found: Option<&V>)
        ensures
            match found {
                Some(value) => self@.contains_key(key@) && *value == self@[key@],
                None => !self@.contains_key(key@),
            },
    {
        match self.position(key) {
            Some(i) => {
                proof {
                    use_type_invariant(self);
                    self.slot_is(i as int);
                }
                Some(&self.bindings[i].value)
            },
            None => None,
        }
    }

    /// Binds `key` to `value`, replacing what was bound to it before, and
    /// returns the value that was replaced.
    pub fn insert(&mut self, key: String, value: V) -> (replaced: Option<V>)
        ensures
            final(self)@ == old(self)@.insert(key@, value),
            replaced == if old(self)@.contains_key(key@) {
                Some(old(self)@[key@])
            } else {
                None
            },
    {
        proof {
            use_type_invariant(&*self);
        }
        let ghost before = *self;
        let found = self.position(&key);
        let mut bindings = Vec::new();
        std::mem::swap(&mut bindings, &mut self.bindings);
        let replaced = match found {
            Some(i) => {
                proof {
                    before.slot_is(i as int);
                }
                Some(bindings.remove(i).value)
            },
            None => None,
        };
        let ghost rest = bindings@;
        bindings.push(Binding { key, value });
        proof {
            assert forall|a: int, b: int| 0 <= a < b < bindings@.len() implies bindings@[a].key@
                != bindings@[b].key@ by {
                if b < rest.len() {
                    before.rest_distinct(found, rest, a, b);
                } else {
                    before.rest_avoids(found, rest, a, key@);
                }
            }
        }
        self.bindings = bindings;
        proof {
            let after = *self;
            assert forall|k: Seq<char>| after@.contains_key(k) <==> before@.insert(
                key@,
                value,
            ).contains_key(k) by {
                if after.holds(k) {
                    let i = after.slot(k);
                    if i < rest.len() {
                        before.rest_within(found, rest, i);
                    }
                }
                if k != key@ && before.holds(k) {
                    let i = before.slot(k);
                    let j = before.rest_keeps(found, rest, i, key@);
                    assert(after.bindings@[j].key@ == k);
                }
                if k == key@ {
                    assert(after.bindings@[rest.len() as int].key@ == k);
                }
            }
            assert forall|k: Seq<char>| after@.contains_key(k) implies after@[k] == before@.insert(
                key@,
                value,
            )[k] by {
                let i = after.slot(k);
                after.slot_is(i);
                if i < rest.len() {
                    before.rest_avoids(found, rest, i, key@);
                    let j = before.rest_within(found, rest, i);
                    before.slot_is(j);
                }
            }
            assert(after@ =~= before@.insert(key@, value));
        }
        replaced
    }

    /// Removes the binding for `key`, if there is one, and returns its value.
    pub fn remove(&mut self, key: &String) -> (removed: Option<V>)
        ensures
            final(self)@ == old(self)@.remove(key@),
            removed == if old(self)@.contains_key(key@) {
                Some(old(self)@[key@])
            } else {
                None
            },
    {
        proof {
            use_type_invariant(&*self);
        }
        let ghost before = *self;
        let found = self.position(key);
        match found {
            Some(i) => {
                let mut bindings = Vec::new();
                std::mem::swap(&mut bindings, &mut self.bindings);
                proof {
                    before.slot_is(i as int);
                }
                let binding = bindings.remove(i);
                let ghost rest = bindings@;
                proof {
                    assert forall|a: int, b: int| 0 <= a < b < rest.len() implies rest[a].key@
                        != rest[b].key@ by {
                        before.rest_distinct(found, rest, a, b);
                    }
                }
                self.bindings = bindings;
                proof {
                    let after = *self;
                    assert forall|k: Seq<char>| after@.contains_key(k) <==> before@.remove(
                        key@,
                    ).contains_key(k) by {
                        if after.holds(k) {
                            let a = after.slot(k);
                            before.rest_avoids(found, rest, a, key@);
                            before.rest_within(found, rest, a);
                        }
                        if k != key@ && before.holds(k) {
                            let a = before.slot(k);
                            let j = before.rest_keeps(found, rest, a, key@);
                            assert(after.bindings@[j].key@ == k);
                        }
                    }
                    assert forall|k: Seq<char>| after@.contains_key(k) implies after@[k]
                        == before@.remove(key@)[k] by {
                        let a = after.slot(k);
                        after.slot_is(a);
                        let j = before.rest_within(found, rest, a);
                        before.slot_is(j);
                    }
                    assert(after@ =~= before@.remove(key@));
                }
                Some(binding.value)
            },
            None => {
                assert(self@ =~= before@.remove(key@));
                None
            },
        }
    }

    /// `rest` is this store's list with the binding at `found` taken out, or
    /// the whole list where `found` is `None`.
    spec fn rest_of(&self, found: Option<usize>, rest: Seq<Binding<V>>) -> bool {
        match found {
            Some(i) => 0 <= i < self.bindings@.len() && rest == self.bindings@.remove(i as int),
            None => rest == self.bindings@,
        }
    }

    /// Each binding of `rest` is a binding of this store.
    proof fn rest_within(&self, found: Option<usize>, rest: Seq<Binding<V>>, a: int) -> (j: int)
        requires
            self.rest_of(found, rest),
            0 <= a < rest.len(),
        ensures
            0 <= j < self.bindings@.len(),
            self.bindings@[j] == rest[a],
            self.holds(rest[a].key@),
            found matches Some(i) ==> j != i,
    {
        let j = match found {
            Some(i) => if a < i {
                a
            } else {
                a + 1
            },
            None => a,
        };
        assert(self.bindings@[j].key@ == rest[a].key@);
        j
    }

    /// Each binding of this store other than the one taken out is in `rest`.
    proof fn rest_keeps(
        &self,
        found: Option<usize>,
        rest: Seq<Binding<V>>,
        i: int,
        key: Seq<char>,
    ) -> (j: int)
        requires
            self.rest_of(found, rest),
            0 <= i < self.bindings@.len(),
            self.bindings@[i].key@ != key,
            found matches Some(f) ==> self.bindings@[f as int].key@ == key,
        ensures
            0 <= j < rest.len(),
            rest[j] == self.bindings@[i],
    {
        match found {
            Some(f) => if i < f {
                i
            } else {
                i - 1
            },
            None => i,
        }
    }

    /// The keys of `rest` are distinct.
    proof fn rest_distinct(&self, found: Option<usize>, rest: Seq<Binding<V>>, a: int, b: int)
        requires
            self.keys_distinct(),
            self.rest_of(found, rest),
            0 <= a < b < rest.len(),
        ensures
            rest[a].key@ != rest[b].key@,
    {
        let ja = self.rest_within(found, rest, a);
        let jb = self.rest_within(found, rest, b);
        assert(ja < jb);
    }

    /// No binding of `rest` carries the key that was looked for.
    proof fn rest_avoids(&self, found: Option<usize>, rest: Seq<Binding<V>>, a: int, key: Seq<char>)
        requires
            self.keys_distinct(),
            self.rest_of(found, rest),
            0 <= a < rest.len(),
            match found {
                Some(f) => self.bindings@[f as int].key@ == key,
                None => !self.holds(key),
            },
        ensures
            rest[a].key@ != key,
    {
        let j = self.rest_within(found, rest, a);
        match found {
            Some(f) => {
                if j < f {
                    assert(self.bindings@[j].key@ != self.bindings@[f as int].key@);
                } else {
                    assert(self.bindings@[f as int].key@ != self.bindings@[j].key@);
                }
            },
            None => {
                assert(self.bindings@[j].key@ == rest[a].key@);
            },
        }
    }
}

} // verus!
