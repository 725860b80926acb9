//! A table from textual identifiers to values, kept as two parallel vectors.
//!
//! The table stands for a finite map whose keys are character sequences. No
//! identifier occurs twice, so a lookup by identifier has one answer, and the
//! number of entries is the size of the map.

use vstd::prelude::*;

verus! {

/// The map that a sequence of distinct keys and a sequence of values of the
/// same length stand for: `keys[i]` is bound to `values[i]`.
pub open spec fn keyed<T>(keys: Seq<Seq<char>>, values: Seq<T>) -> Map<Seq<char>, T> {
    Map::new(|k: Seq<char>| keys.contains(k), |k: Seq<char>| values[keys.index_of(k)])
}

/// Two parallel sequences describe a table: the keys are pairwise distinct and
/// each key has a value.
pub open spec fn parallel<T>(keys: Seq<Seq<char>>, values: Seq<T>) -> bool {
    keys.no_duplicates() && keys.len() == values.len()
}

/// The entry at position `i` is the binding of `keys[i]`.
pub proof fn lemma_keyed_at<T>(keys: Seq<Seq<char>>, values: Seq<T>, i: int)
    requires
        parallel(keys, values),
        0 <= i < keys.len(),
    ensures
        keys.contains(keys[i]),
        keys.index_of(keys[i]) == i,
        keyed(keys, values).contains_key(keys[i]),
        keyed(keys, values)[keys[i]] == values[i],
{
    assert(keys.contains(keys[i]));
}

/// Every binding of the map sits at some position of the sequences.
pub proof fn lemma_keyed_position<T>(keys: Seq<Seq<char>>, values: Seq<T>, k: Seq<char>)
    requires
        parallel(keys, values),
        keyed(keys, values).contains_key(k),
    ensures
        0 <= keys.index_of(k) < keys.len(),
        keys[keys.index_of(k)] == k,
        keyed(keys, values)[k] == values[keys.index_of(k)],
{
}

/// The map has as many bindings as the sequences have entries.
pub proof fn lemma_keyed_len<T>(keys: Seq<Seq<char>>, values: Seq<T>)
    requires
        parallel(keys, values),
    ensures
        keyed(keys, values).dom().finite(),
        keyed(keys, values).len() == keys.len(),
{
    assert(keyed(keys, values).dom() =~= keys.to_set());
    vstd::seq_lib::seq_to_set_is_finite(keys);
    keys.unique_seq_to_set();
}

/// Appending a binding for a key that is not yet bound inserts it.
pub proof fn lemma_keyed_push<T>(keys: Seq<Seq<char>>, values: Seq<T>, k: Seq<char>, v: T)
    requires
        parallel(keys, values),
        !keys.contains(k),
    ensures
        parallel(keys.push(k), values.push(v)),
        keyed(keys.push(k), values.push(v)) == keyed(keys, values).insert(k, v),
{
    let keys2 = keys.push(k);
    let values2 = values.push(v);
    assert(keys2.no_duplicates()) by {
        assert forall|i: int, j: int|
            0 <= i < keys2.len() && 0 <= j < keys2.len() && i != j implies keys2[i] != keys2[j] by {
            if i < keys.len() {
                assert(keys.contains(keys[i]));
            }
            if j < keys.len() {
                assert(keys.contains(keys[j]));
            }
        }
    }
    assert forall|q: Seq<char>| keys2.contains(q) <==> (q == k || keys.contains(q)) by {
        if keys2.contains(q) {
            let i = keys2.index_of(q);
            if i < keys.len() {
                assert(keys[i] == q);
            }
        }
        if keys.contains(q) {
            let i = keys.index_of(q);
            assert(keys2[i] == q);
        }
        if q == k {
            assert(keys2[keys.len() as int] == q);
        }
    }
    assert forall|q: Seq<char>| keys2.contains(q) implies #[trigger] keyed(keys2, values2)[q]
        == keyed(keys, values).insert(k, v)[q] by {
        let i = keys2.index_of(q);
        lemma_keyed_at(keys2, values2, i);
        if i < keys.len() {
            lemma_keyed_at(keys, values, i);
        }
    }
    assert(keyed(keys2, values2) =~= keyed(keys, values).insert(k, v));
}

/// Taking the entry at position `i` out removes the binding of `keys[i]`.
pub proof fn lemma_keyed_remove<T>(keys: Seq<Seq<char>>, values: Seq<T>, i: int)
    requires
        parallel(keys, values),
        0 <= i < keys.len(),
    ensures
        parallel(keys.remove(i), values.remove(i)),
        !keys.remove(i).contains(keys[i]),
        keyed(keys.remove(i), values.remove(i)) == keyed(keys, values).remove(keys[i]),
{
    let keys2 = keys.remove(i);
    let values2 = values.remove(i);
    // Position `j` after the removal was position `from(j)` before it.
    let from = |j: int| if j < i { j } else { j + 1 };
    assert(keys2.len() == keys.len() - 1);
    assert(values2.len() == values.len() - 1);
    assert forall|j: int| 0 <= j < keys2.len() implies #[trigger] keys2[j] == keys[from(j)]
        && values2[j] == values[from(j)] by {}
    assert(keys2.no_duplicates());
    assert forall|q: Seq<char>| keys2.contains(q) <==> (q != keys[i] && keys.contains(q)) by {
        if keys2.contains(q) {
            let j = keys2.index_of(q);
            assert(keys2[j] == q);
            assert(keys.contains(q));
        }
        if q != keys[i] && keys.contains(q) {
            let j = keys.index_of(q);
            if j < i {
                assert(keys2[j] == q);
            } else {
                assert(keys2[j - 1] == q);
            }
        }
    }
    assert forall|q: Seq<char>| keys2.contains(q) implies #[trigger] keyed(keys2, values2)[q]
        == keyed(keys, values)[q] by {
        let j = keys2.index_of(q);
        lemma_keyed_at(keys2, values2, j);
        lemma_keyed_at(keys, values, from(j));
    }
    assert(keyed(keys2, values2) =~= keyed(keys, values).remove(keys[i]));
}

/// Replacing the value at position `i` rebinds `keys[i]`, whatever the new
/// value is.
pub proof fn lemma_keyed_update<T>(keys: Seq<Seq<char>>, values: Seq<T>, i: int)
    requires
        parallel(keys, values),
        0 <= i < keys.len(),
    ensures
        forall|v: T|
            #![trigger values.update(i, v)]
            parallel(keys, values.update(i, v)) && keyed(keys, values.update(i, v)) == keyed(
                keys,
                values,
            ).insert(keys[i], v),
{
    let before = keyed(keys, values);
    assert forall|v: T| #![trigger values.update(i, v)] keyed(keys, values.update(i, v))
        == before.insert(keys[i], v) by {
        let after = keyed(keys, values.update(i, v));
        lemma_keyed_at(keys, values, i);
        assert forall|q: Seq<char>| keys.contains(q) implies #[trigger] after[q] == before.insert(
            keys[i],
            v,
        )[q] by {
            lemma_keyed_at(keys, values, keys.index_of(q));
        }
        assert(after =~= before.insert(keys[i], v));
    }
}

/// A table from identifiers to values of type `T`.
pub struct IdTable<T> {
    ids: Vec<String>,
    slots: Vec<T>,
}

impl<T> View for IdTable<T> {
    type V = Map<Seq<char>, T>;

    open spec fn view(&self) -> Map<Seq<char>, T> {
        keyed(self.keys(), self.values())
    }
}

impl<T> IdTable<T> {
    /// The identifiers in the order in which the table holds them.
    pub closed spec fn keys(&self) -> Seq<Seq<char>> {
        Seq::new(self.ids@.len(), |i: int| self.ids@[i]@)
    }

    /// The values in the order in which the table holds them.
    pub closed spec fn values(&self) -> Seq<T> {
        self.slots@
    }

    /// Every identifier occurs once and has a value.
    pub open spec fn wf(&self) -> bool {
        parallel(self.keys(), self.values())
    }

    /// An empty table.
    pub fn new() -> (t: Self)
        ensures
            t.wf(),
            t.keys() == Seq::<Seq<char>>::empty(),
            t@ == Map::<Seq<char>, T>::empty(),
    {
        let t = IdTable { ids: Vec::new(), slots: Vec::new() };
        assert(t.keys() =~= Seq::<Seq<char>>::empty());
        assert(t@ =~= Map::<Seq<char>, T>::empty());
        t
    }

    /// The number of entries.
    pub fn len(&self) -> (n: usize)
        requires
            self.wf(),
        ensures
            n == self.keys().len(),
            n == self@.len(),
    {
        proof {
            lemma_keyed_len(self.keys(), self.values());
        }
        self.ids.len()
    }

    /// The position of `key`, if the table holds it.
    pub fn position(&self, key: &str) -> (r: Option<usize>)
        requires
            self.wf(),
        ensures
            match r {
                Some(i) => i < self.keys().len() && self.keys()[i as int] == key@
                    && self.keys().index_of(key@) == i,
                None => !self.keys().contains(key@),
            },
            r is Some <==> self@.contains_key(key@),
    {
        let wanted = key.to_owned();
        let mut i: usize = 0;
        while i < self.ids.len()
            invariant
                self.wf(),
                i <= self.ids.len(),
                wanted@ == key@,
                forall|k: int| 0 <= k < i ==> self.keys()[k] != key@,
            decreases self.ids.len() - i,
        {
            if self.ids[i] == wanted {
                proof {
                    lemma_keyed_at(self.keys(), self.values(), i as int);
                }
                return Some(i);
            }
            i += 1;
        }
        None
    }

    /// Whether the table holds `key`.
    pub fn contains_key(&self, key: &str) -> (b: bool)
        requires
            self.wf(),
        ensures
            b == self@.contains_key(key@),
    {
        self.position(key).is_some()
    }

    /// The identifier at position `i`.
    pub fn key_at(&self, i: usize) -> (k: &String)
        requires
            self.wf(),
            i < self.keys().len(),
        ensures
            k@ == self.keys()[i as int],
    {
        &self.ids[i]
    }

    /// The value at position `i`.
    pub fn value_at(&self, i: usize) -> (v: &T)
        requires
            self.wf(),
            i < self.keys().len(),
        ensures
            *v == self.values()[i as int],
            self@.contains_key(self.keys()[i as int]),
            *v == self@[self.keys()[i as int]],
    {
        proof {
            lemma_keyed_at(self.keys(), self.values(), i as int);
        }
        &self.slots[i]
    }

    /// The value bound to `key`.
    pub fn get(&self, key: &str) -> (r: Option<&T>)
        requires
            self.wf(),
        ensures
            match r {
                Some(v) => self@.contains_key(key@) && *v == self@[key@],
                None => !self@.contains_key(key@),
            },
    {
        match self.position(key) {
            Some(i) => Some(&self.slots[i]),
            None => None,
        }
    }

    /// The value bound to `key`, for the caller to change in place.
    pub fn get_mut(&mut self, key: &str) -> (r: Option<&mut T>)
        requires
            old(self).wf(),
        ensures
            final(self).wf(),
            final(self).keys() == old(self).keys(),
            match r {
                Some(v) => {
                    &&& old(self)@.contains_key(key@)
                    &&& *v == old(self)@[key@]
                    &&& final(self)@ == old(self)@.insert(key@, *final(v))
                    &&& final(self).values() == old(self).values().update(
                        old(self).keys().index_of(key@),
                        *final(v),
                    )
                },
                None => !old(self)@.contains_key(key@) && *final(self) == *old(self),
            },
    {
        match self.position(key) {
            Some(i) => {
                proof {
                    lemma_keyed_update(self.keys(), self.values(), i as int);
                }
                Some(&mut self.slots[i])
            },
            None => None,
        }
    }

    /// Binds `key` to `value`. A value that `key` was bound to before is
    /// handed back.
    pub fn insert(&mut self, key: String, value: T) -> (previous: Option<T>)
        requires
            old(self).wf(),
        ensures
            final(self).wf(),
            final(self)@ == old(self)@.insert(key@, value),
            match previous {
                Some(p) => {
                    &&& old(self)@.contains_key(key@)
                    &&& p == old(self)@[key@]
                    &&& final(self).keys() == old(self).keys()
                },
                None => {
                    &&& !old(self)@.contains_key(key@)
                    &&& final(self).keys() == old(self).keys().push(key@)
                    &&& final(self).values() == old(self).values().push(value)
                },
            },
    {
        match self.position(key.as_str()) {
            Some(i) => {
                proof {
                    lemma_keyed_update(self.keys(), self.values(), i as int);
                    lemma_keyed_at(self.keys(), self.values(), i as int);
                }
                let mut held = value;
                core::mem::swap(&mut self.slots[i], &mut held);
                Some(held)
            },
            None => {
                proof {
                    lemma_keyed_push(self.keys(), self.values(), key@, value);
                }
                self.ids.push(key);
                self.slots.push(value);
                assert(self.keys() =~= old(self).keys().push(key@));
                None
            },
        }
    }

    /// Takes out the entry at position `i`.
    pub fn remove_at(&mut self, i: usize) -> (entry: (String, T))
        requires
            old(self).wf(),
            i < old(self).keys().len(),
        ensures
            final(self).wf(),
            entry.0@ == old(self).keys()[i as int],
            entry.1 == old(self).values()[i as int],
            final(self).keys() == old(self).keys().remove(i as int),
            final(self).values() == old(self).values().remove(i as int),
            final(self)@ == old(self)@.remove(entry.0@),
            old(self)@.contains_key(entry.0@),
            old(self)@[entry.0@] == entry.1,
    {
        proof {
            lemma_keyed_remove(self.keys(), self.values(), i as int);
            lemma_keyed_at(self.keys(), self.values(), i as int);
        }
        let id = self.ids.remove(i);
        let value = self.slots.remove(i);
        assert(self.keys() =~= old(self).keys().remove(i as int));
        (id, value)
    }

    /// Takes out the value bound to `key`.
    pub fn remove(&mut self, key: &str) -> (r: Option<T>)
        requires
            old(self).wf(),
        ensures
            final(self).wf(),
            final(self)@ == old(self)@.remove(key@),
            match r {
                Some(v) => {
                    &&& old(self)@.contains_key(key@)
                    &&& v == old(self)@[key@]
                    &&& final(self).keys().len() == old(self).keys().len() - 1
                },
                None => !old(self)@.contains_key(key@) && *final(self) == *old(self),
            },
    {
        match self.position(key) {
            Some(i) => {
                let entry = self.remove_at(i);
                Some(entry.1)
            },
            None => {
                assert(self@ =~= self@.remove(key@));
                None
            },
        }
    }
}

} // verus!
