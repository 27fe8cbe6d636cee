//! The attributes of a session, as a value of its own.
//!
//! An [`AttributeBag`] is what a session holds: values under names. It
//! changes through `&mut self`, so whoever changes it has it to themselves.
//! Sessions that several requests share keep their bag behind a lock, see
//! [`crate::session::in_memory`].

use vstd::prelude::*;

verus! {

/// The key of the entry at `i`.
spec fn key_at<V>(entries: Seq<(String, V)>, i: int) -> Seq<char> {
    entries[i].0@
}

/// Whether some entry has the key.
spec fn holds<V>(entries: Seq<(String, V)>, key: Seq<char>) -> bool {
    exists|i: int| 0 <= i < entries.len() && key_at(entries, i) == key
}

/// The place of an entry with the key, where there is one.
spec fn place_of<V>(entries: Seq<(String, V)>, key: Seq<char>) -> int {
    choose|i: int| 0 <= i < entries.len() && key_at(entries, i) == key
}

/// Whether no two entries have the same key.
spec fn distinct_keys<V>(entries: Seq<(String, V)>) -> bool {
    forall|i: int, j: int|
        0 <= i < j < entries.len() ==> key_at(entries, i) != key_at(entries, j)
}

/// The attributes that the entries stand for.
spec fn attributes_of<V>(entries: Seq<(String, V)>) -> Map<Seq<char>, V> {
    Map::new(
        |key: Seq<char>| holds(entries, key),
        |key: Seq<char>| entries[place_of(entries, key)].1,
    )
}

fn position<V>(entries: &Vec<(String, V)>, key: &String) -> (found: Option<usize>)
    ensures
        match found {
            Some(i) => i < entries@.len() && key_at(entries@, i as int) == key@,
            None => !holds(entries@, key@),
        },
{
    let mut i: usize = 0;
    while i < entries.len()
        invariant
            i <= entries@.len(),
            forall|j: int| 0 <= j < i ==> key_at(entries@, j) != key@,
        decreases entries@.len() - i,
    {
        if entries[i].0 == *key {
            return Some(i);
        }
        i = i + 1;
    }
    None
}

/// The attributes of one session: values of any one type, each under a name.
///
/// The bag is a map from names to values. It keeps its entries in a list in
/// which no name occurs twice, and finds a name by comparing texts. A
/// `HashMap` with `String` keys would hold the same, but nothing could be
/// proved of it: vstd's model of hashing knows the integers, not `String`.
#[derive(Debug)]
pub struct AttributeBag<V = String> {
    entries: Vec<(String, V)>,
}

impl<V> View for AttributeBag<V> {
    type V = Map<Seq<char>, V>;

    closed spec fn view(&self) -> Map<Seq<char>, V> {
        attributes_of(self.entries@)
    }
}

impl<V> AttributeBag<V> {
    #[verifier::type_invariant]
    spec fn distinct(&self) -> bool {
        distinct_keys(self.entries@)
    }

    /// An empty bag.
    pub fn new() -> (bag: Self)
        ensures
            bag@ == Map::<Seq<char>, V>::empty(),
    {
        let bag = AttributeBag { entries: Vec::new() };
        assert(bag@ =~= Map::<Seq<char>, V>::empty());
        bag
    }

    /// The value under `key`, if there is one.
    pub fn get_value(&self, key: &str) -> (value: Option<&V>)
        ensures
            match value {
                Some(v) => self@.contains_key(key@) && self@[key@] == *v,
                None => !self@.contains_key(key@),
            },
    {
        proof {
            use_type_invariant(self);
        }
        let name = key.to_owned();
        match position(&self.entries, &name) {
            Some(i) => {
                assert(key_at(self.entries@, i as int) == key@);
                assert(holds(self.entries@, key@));
                Some(&self.entries[i].1)
            },
            None => None,
        }
    }

    /// Sets the value under `key`, in place of any that was there.
    pub fn set_value(&mut self, key: String, val: V)
        ensures
            final(self)@ == old(self)@.insert(key@, val),
    {
        proof {
            use_type_invariant(&*self);
        }
        let ghost before = self.entries@;
        let mut entries: Vec<(String, V)> = Vec::new();
        std::mem::swap(&mut self.entries, &mut entries);
        match position(&entries, &key) {
            Some(i) => {
                entries.set(i, (key, val));
                proof {
                    lemma_replaced(before, entries@, i as int);
                }
            },
            None => {
                entries.push((key, val));
                proof {
                    lemma_appended(before, entries@);
                }
            },
        }
        self.entries = entries;
    }

    /// Removes the value under `key`, if there is one.
    pub fn unset_value(&mut self, key: &str)
        ensures
            final(self)@ == old(self)@.remove(key@),
    {
        proof {
            use_type_invariant(&*self);
        }
        let ghost before = self.entries@;
        let name = key.to_owned();
        let mut entries: Vec<(String, V)> = Vec::new();
        std::mem::swap(&mut self.entries, &mut entries);
        match position(&entries, &name) {
            Some(i) => {
                entries.remove(i);
                proof {
                    lemma_removed(before, entries@, i as int);
                }
            },
            None => {
                assert(attributes_of(before) =~= attributes_of(before).remove(key@));
            },
        }
        self.entries = entries;
    }
}

/// Replacing the entry at `i` by one of the same key sets the value under that
/// key.
proof fn lemma_replaced<V>(before: Seq<(String, V)>, after: Seq<(String, V)>, i: int)
    requires
        distinct_keys(before),
        0 <= i < before.len(),
        after.len() == before.len(),
        key_at(after, i) == key_at(before, i),
        forall|j: int| 0 <= j < before.len() && j != i ==> after[j] == before[j],
    ensures
        distinct_keys(after),
        attributes_of(after) == attributes_of(before).insert(key_at(after, i), after[i].1),
{
    let key = key_at(after, i);
    assert forall|j: int| 0 <= j < after.len() implies key_at(after, j) == key_at(before, j) by {}
    assert forall|name: Seq<char>| holds(after, name) <==> holds(before, name) by {
        if holds(after, name) {
            assert(key_at(before, place_of(after, name)) == name);
        }
        if holds(before, name) {
            assert(key_at(after, place_of(before, name)) == name);
        }
    }
    assert forall|name: Seq<char>| holds(after, name) implies attributes_of(after)[name]
        == attributes_of(before).insert(key, after[i].1)[name] by {
        let p = place_of(after, name);
        assert(key_at(before, p) == name);
        if name == key {
            assert(p == i);
        } else {
            assert(p == place_of(before, name));
        }
    }
    assert(attributes_of(after) =~= attributes_of(before).insert(key, after[i].1));
}

/// Appending an entry of a key that no entry has sets the value under that
/// key.
proof fn lemma_appended<V>(before: Seq<(String, V)>, after: Seq<(String, V)>)
    requires
        distinct_keys(before),
        after.len() == before.len() + 1,
        forall|j: int| 0 <= j < before.len() ==> after[j] == before[j],
        !holds(before, key_at(after, before.len() as int)),
    ensures
        distinct_keys(after),
        attributes_of(after) == attributes_of(before).insert(
            key_at(after, before.len() as int),
            after[before.len() as int].1,
        ),
{
    let last = before.len() as int;
    let key = key_at(after, last);
    assert forall|j: int| 0 <= j < before.len() implies key_at(after, j) == key_at(before, j) by {}
    assert forall|name: Seq<char>| holds(after, name) <==> (holds(before, name) || name
        == key) by {
        if holds(after, name) {
            let p = place_of(after, name);
            if p < last {
                assert(key_at(before, p) == name);
            }
        }
        if holds(before, name) {
            assert(key_at(after, place_of(before, name)) == name);
        }
    }
    assert forall|name: Seq<char>| holds(after, name) implies attributes_of(after)[name]
        == attributes_of(before).insert(key, after[last].1)[name] by {
        let p = place_of(after, name);
        if name == key {
            assert(p == last);
        } else {
            let q = place_of(before, name);
            assert(key_at(after, q) == name);
            assert(p == q);
        }
    }
    assert(attributes_of(after) =~= attributes_of(before).insert(key, after[last].1));
}

/// Taking out the entry at `i` removes the value under its key.
proof fn lemma_removed<V>(before: Seq<(String, V)>, after: Seq<(String, V)>, i: int)
    requires
        distinct_keys(before),
        0 <= i < before.len(),
        after == before.remove(i),
    ensures
        distinct_keys(after),
        attributes_of(after) == attributes_of(before).remove(key_at(before, i)),
{
    let key = key_at(before, i);
    assert forall|j: int| 0 <= j < after.len() implies key_at(after, j) == key_at(
        before,
        if j < i {
            j
        } else {
            j + 1
        },
    ) by {}
    assert forall|name: Seq<char>| holds(after, name) <==> (holds(before, name) && name
        != key) by {
        if holds(after, name) {
            let p = place_of(after, name);
            let q = if p < i {
                p
            } else {
                p + 1
            };
            assert(key_at(before, q) == name);
        }
        if holds(before, name) && name != key {
            let q = place_of(before, name);
            let p = if q < i {
                q
            } else {
                q - 1
            };
            assert(key_at(after, p) == name);
        }
    }
    assert forall|name: Seq<char>| holds(after, name) implies attributes_of(after)[name]
        == attributes_of(before)[name] by {
        let p = place_of(after, name);
        let shifted = if p < i {
            p
        } else {
            p + 1
        };
        assert(key_at(before, shifted) == name);
        assert(shifted == place_of(before, name));
    }
    assert(attributes_of(after) =~= attributes_of(before).remove(key));
}

} // verus!
