//! A table from names to values, kept as two lists of equal length.

use vstd::prelude::*;
use crate::search::{first_true, is_first_true, lemma_first_true, lemma_first_true_is};

verus! {

/// Values filed under names, one value to a name.
#[derive(Debug, PartialEq, Eq)]
pub struct NameTable<T> {
    pub names: Vec<String>,
    pub values: Vec<T>,
}

/// Whether each of `names` stands at `key` or not.
pub open spec fn spec_matches(names: Seq<String>, key: Seq<char>) -> Seq<bool> {
    Seq::new(names.len(), |i: int| names[i]@ == key)
}

impl<T> NameTable<T> {
    /// No name stands twice, and each name has its value.
    pub open spec fn wf(&self) -> bool {
        &&& self.names@.len() == self.values@.len()
        &&& forall|i: int, j: int|
            0 <= i < j < self.names@.len() ==> self.names@[i]@ != self.names@[j]@
    }

    /// Where `key` stands in the table.
    pub open spec fn spec_position(&self, key: Seq<char>) -> Option<int> {
        first_true(spec_matches(self.names@, key))
    }

    /// The table as a map.
    pub open spec fn view(&self) -> Map<Seq<char>, T> {
        Map::new(
            |key: Seq<char>| self.spec_position(key) is Some,
            |key: Seq<char>| self.values@[self.spec_position(key)->0],
        )
    }

    /// An empty table.
    pub fn new() -> (table: Self)
        ensures
            table.wf(),
            table@ == Map::<Seq<char>, T>::empty(),
    {
        let table = NameTable { names: Vec::new(), values: Vec::new() };
        assert(table@ =~= Map::<Seq<char>, T>::empty());
        table
    }

    /// Number of names in the table.
    pub fn len(&self) -> (len: usize)
        requires
            self.wf(),
        ensures
            len == self.names@.len(),
    {
        self.names.len()
    }

    /// Where `name` stands in the table.
    pub fn position(&self, name: &String) -> (position: Option<usize>)
        requires
            self.wf(),
        ensures
            match position {
                Some(i) => self.spec_position(name@) == Some(i as int) && i < self.names@.len(),
                None => self.spec_position(name@) is None,
            },
    {
        let ghost flags = spec_matches(self.names@, name@);
        let mut k: usize = 0;
        while k < self.names.len()
            invariant
                0 <= k <= self.names.len(),
                flags == spec_matches(self.names@, name@),
                forall|j: int| 0 <= j < k ==> !flags[j],
            decreases self.names.len() - k,
        {
            if self.names[k] == *name {
                proof {
                    lemma_first_true_is(flags, Some(k as int));
                }
                return Some(k);
            }
            k += 1;
        }
        proof {
            lemma_first_true_is(flags, None);
        }
        None
    }

    /// The value filed under `name`.
    pub fn get(&self, name: &String) -> (value: Option<&T>)
        requires
            self.wf(),
        ensures
            match value {
                Some(v) => self@.contains_key(name@) && *v == self@[name@],
                None => !self@.contains_key(name@),
            },
    {
        match self.position(name) {
            Some(i) => Some(&self.values[i]),
            None => None,
        }
    }

    /// The value filed under `name`, to be changed in place.
    pub fn get_mut(&mut self, name: &String) -> (value: Option<&mut T>)
        requires
            old(self).wf(),
        ensures
            final(self).wf(),
            final(self).names == old(self).names,
            match value {
                Some(v) => {
                    &&& old(self)@.contains_key(name@)
                    &&& *v == old(self)@[name@]
                    &&& final(self)@ == old(self)@.insert(name@, *final(v))
                },
                None => !old(self)@.contains_key(name@) && *final(self) == *old(self),
            },
    {
        match self.position(name) {
            Some(i) => {
                let value = &mut self.values[i];
                proof {
                    let ghost after = NameTable::<T> {
                        names: old(self).names,
                        values: after_borrow(self.values),
                    };
                    lemma_update_is_insert(*old(self), after, name@, i as int);
                }
                Some(value)
            },
            None => None,
        }
    }

    /// Files `value` under `name` and returns what stood there before.
    pub fn insert(&mut self, name: String, value: T) -> (before: Option<T>)
        requires
            old(self).wf(),
        ensures
            final(self).wf(),
            final(self)@ == old(self)@.insert(name@, value),
            before == if old(self)@.contains_key(name@) {
                Some(old(self)@[name@])
            } else {
                None::<T>
            },
    {
        match self.position(&name) {
            Some(i) => {
                let before = self.values.remove(i);
                self.values.insert(i, value);
                proof {
                    assert(self.values@ =~= old(self).values@.update(i as int, value));
                    assert forall|key: Seq<char>|
                        #![trigger self@.contains_key(key)]
                        #![trigger self@[key]]
                        self@.contains_key(key) == old(self)@.insert(
                            name@,
                            value,
                        ).contains_key(key) && (self@.contains_key(key) ==> self@[key]
                            == old(self)@.insert(name@, value)[key]) by {
                        let was = spec_matches(old(self).names@, key);
                        lemma_first_true(was);
                        lemma_first_true(spec_matches(old(self).names@, name@));
                        if key != name@ {
                            assert(!was[i as int]);
                        }
                    }
                    assert(self@ =~= old(self)@.insert(name@, value));
                }
                Some(before)
            },
            None => {
                let ghost n = self.names@.len() as int;
                self.names.push(name);
                self.values.push(value);
                proof {
                    lemma_first_true(spec_matches(old(self).names@, name@));
                    assert forall|i: int, j: int| 0 <= i < j
                        < self.names@.len() implies self.names@[i]@ != self.names@[j]@ by {
                        if j == n {
                            assert(!spec_matches(old(self).names@, name@)[i]);
                        }
                    }
                    assert forall|key: Seq<char>|
                        #![trigger self@.contains_key(key)]
                        #![trigger self@[key]]
                        self@.contains_key(key) == old(self)@.insert(
                            name@,
                            value,
                        ).contains_key(key) && (self@.contains_key(key) ==> self@[key]
                            == old(self)@.insert(name@, value)[key]) by {
                        let was = spec_matches(old(self).names@, key);
                        let now = spec_matches(self.names@, key);
                        lemma_first_true(was);
                        let expected = if key == name@ {
                            Some(n)
                        } else {
                            first_true(was)
                        };
                        assert forall|j: int| 0 <= j < n implies now[j] == was[j] by {}
                        if key == name@ {
                            assert forall|j: int| 0 <= j < n implies !now[j] by {
                                assert(!was[j]);
                            }
                        } else {
                            assert(!now[n]);
                            match first_true(was) {
                                Some(i) => {
                                    assert forall|j: int| 0 <= j < i implies !now[j] by {
                                        assert(!was[j]);
                                    }
                                },
                                None => {
                                    assert forall|j: int| 0 <= j < now.len() implies !now[j] by {
                                        if j < n {
                                            assert(!was[j]);
                                        }
                                    }
                                },
                            }
                        }
                        lemma_first_true_is(now, expected);
                    }
                    assert(self@ =~= old(self)@.insert(name@, value));
                }
                None
            },
        }
    }

    /// Takes away what is filed under `name` and returns it.
    pub fn remove(&mut self, name: &String) -> (removed: Option<T>)
        requires
            old(self).wf(),
        ensures
            final(self).wf(),
            final(self)@ == old(self)@.remove(name@),
            removed == if old(self)@.contains_key(name@) {
                Some(old(self)@[name@])
            } else {
                None::<T>
            },
    {
        match self.position(name) {
            Some(i) => {
                let _ = self.names.remove(i);
                let removed = self.values.remove(i);
                proof {
                    let at = i as int;
                    lemma_first_true(spec_matches(old(self).names@, name@));
                    assert forall|a: int, b: int| 0 <= a < b
                        < self.names@.len() implies self.names@[a]@ != self.names@[b]@ by {
                        let a0 = if a < at { a } else { a + 1 };
                        let b0 = if b < at { b } else { b + 1 };
                        assert(old(self).names@[a0]@ != old(self).names@[b0]@);
                    }
                    assert forall|key: Seq<char>|
                        #![trigger self@.contains_key(key)]
                        #![trigger self@[key]]
                        self@.contains_key(key) == old(self)@.remove(name@).contains_key(
                            key,
                        ) && (self@.contains_key(key) ==> self@[key]
                            == old(self)@.remove(name@)[key]) by {
                        let was = spec_matches(old(self).names@, key);
                        let now = spec_matches(self.names@, key);
                        lemma_first_true(was);
                        assert forall|j: int| 0 <= j < now.len() implies now[j] == was[if j < at {
                            j
                        } else {
                            j + 1
                        }] by {}
                        let expected: Option<int> = match first_true(was) {
                            Some(p) => if p == at {
                                None
                            } else if p < at {
                                Some(p)
                            } else {
                                Some(p - 1)
                            },
                            None => None,
                        };
                        match first_true(was) {
                            Some(p) => {
                                if p == at {
                                    assert(key == name@);
                                    assert forall|j: int| 0 <= j < now.len() implies !now[j] by {
                                        let j0 = if j < at { j } else { j + 1 };
                                        if j0 < at {
                                            assert(!was[j0]);
                                        } else {
                                            assert(old(self).names@[at]@ != old(self).names@[j0]@);
                                        }
                                    }
                                } else {
                                    assert(key != name@);
                                    let q = if p < at { p } else { p - 1 };
                                    assert(now[q]);
                                    assert forall|j: int| 0 <= j < q implies !now[j] by {
                                        let j0 = if j < at { j } else { j + 1 };
                                        assert(!was[j0]);
                                    }
                                }
                            },
                            None => {
                                assert forall|j: int| 0 <= j < now.len() implies !now[j] by {
                                    let j0 = if j < at { j } else { j + 1 };
                                    assert(!was[j0]);
                                }
                            },
                        }
                        lemma_first_true_is(now, expected);
                    }
                    assert(self@ =~= old(self)@.remove(name@));
                }
                Some(removed)
            },
            None => {
                proof {
                    assert(self@ =~= old(self)@.remove(name@));
                }
                None
            },
        }
    }
}

/// A table whose value at one name was changed in place is the table with
/// the new value filed under that name.
pub proof fn lemma_update_is_insert<T>(
    before: NameTable<T>,
    after: NameTable<T>,
    name: Seq<char>,
    position: int,
)
    requires
        before.wf(),
        before.spec_position(name) == Some(position),
        after.names == before.names,
        after.values@ == before.values@.update(position, after.values@[position]),
    ensures
        after.wf(),
        after@ == before@.insert(name, after.values@[position]),
{
    lemma_first_true(spec_matches(before.names@, name));
    assert(0 <= position < before.values@.len());
    assert(after.values@.len() == before.values@.len());
    assert forall|key: Seq<char>|
        #![trigger after@.contains_key(key)]
        #![trigger after@[key]]
        after@.contains_key(key) == before@.insert(name, after.values@[position]).contains_key(key)
            && (after@.contains_key(key) ==> after@[key] == before@.insert(
            name,
            after.values@[position],
        )[key]) by {
        let matches = spec_matches(before.names@, key);
        lemma_first_true(matches);
        lemma_first_true(spec_matches(before.names@, name));
        if key != name {
            assert(!matches[position]);
        }
    }
    assert(after@ =~= before@.insert(name, after.values@[position]));
}

} // verus!
