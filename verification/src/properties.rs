//! The property table that configures the runtime at initialization.

use crate::marshal::MAX_NATIVE_COUNT;
use vstd::prelude::*;
use vstd::string::*;

verus! {

/// True when no key occurs at two places of `entries`.
pub open spec fn distinct_keys(entries: Seq<(Seq<char>, Seq<char>)>) -> bool {
    forall|i: int, j: int|
        0 <= i < j < entries.len() ==> (#[trigger] entries[i]).0 != (#[trigger] entries[j]).0
}

/// True when `entries` has an entry under `key`.
pub open spec fn has_key(entries: Seq<(Seq<char>, Seq<char>)>, key: Seq<char>) -> bool {
    exists|i: int| 0 <= i < entries.len() && (#[trigger] entries[i]).0 == key
}

/// `entries` with `value` in place of whatever stood under `key`.
pub open spec fn with_value(
    entries: Seq<(Seq<char>, Seq<char>)>,
    key: Seq<char>,
    value: Seq<char>,
) -> Seq<(Seq<char>, Seq<char>)> {
    Seq::new(
        entries.len(),
        |i: int|
            if entries[i].0 == key {
                (key, value)
            } else {
                entries[i]
            },
    )
}

/// The association that `entries` stands for.
pub open spec fn as_map(entries: Seq<(Seq<char>, Seq<char>)>) -> Map<Seq<char>, Seq<char>> {
    Map::new(
        |key: Seq<char>| has_key(entries, key),
        |key: Seq<char>|
            entries[choose|i: int| 0 <= i < entries.len() && (#[trigger] entries[i]).0 == key].1,
    )
}

/// Where keys are distinct, each entry is what the association holds under
/// its key.
pub proof fn lemma_as_map_of_entry(entries: Seq<(Seq<char>, Seq<char>)>, index: int)
    requires
        distinct_keys(entries),
        0 <= index < entries.len(),
    ensures
        has_key(entries, entries[index].0),
        as_map(entries).dom().contains(entries[index].0),
        as_map(entries)[entries[index].0] == entries[index].1,
{
    let key = entries[index].0;
    let chosen = choose|i: int| 0 <= i < entries.len() && (#[trigger] entries[i]).0 == key;
    assert(chosen == index);
}

/// Putting a value under a key that is there changes the association as
/// an insertion does, and keeps the keys distinct.
pub proof fn lemma_with_value_inserts(
    entries: Seq<(Seq<char>, Seq<char>)>,
    key: Seq<char>,
    value: Seq<char>,
)
    requires
        distinct_keys(entries),
        has_key(entries, key),
    ensures
        distinct_keys(with_value(entries, key, value)),
        as_map(with_value(entries, key, value)) == as_map(entries).insert(key, value),
{
    let after = with_value(entries, key, value);
    assert forall|k: Seq<char>| has_key(after, k) <==> has_key(entries, k) by {
        if has_key(after, k) {
            let i = choose|i: int| 0 <= i < after.len() && (#[trigger] after[i]).0 == k;
            assert(entries[i].0 == k);
        }
        if has_key(entries, k) {
            let i = choose|i: int| 0 <= i < entries.len() && (#[trigger] entries[i]).0 == k;
            assert(after[i].0 == k);
        }
    }
    assert forall|i: int, j: int| 0 <= i < j < after.len() implies (#[trigger] after[i]).0 != (
    #[trigger] after[j]).0 by {
        assert(after[i].0 == entries[i].0);
        assert(after[j].0 == entries[j].0);
    }
    assert forall|k: Seq<char>| #[trigger]
        as_map(after).dom().contains(k) implies as_map(after)[k] == as_map(entries).insert(
        key,
        value,
    )[k] by {
        let i = choose|i: int| 0 <= i < after.len() && (#[trigger] after[i]).0 == k;
        lemma_as_map_of_entry(after, i);
        assert(entries[i].0 == k);
        lemma_as_map_of_entry(entries, i);
    }
    assert(as_map(after) =~= as_map(entries).insert(key, value));
}

/// Appending a new key with its value changes the association as an
/// insertion does, and keeps the keys distinct.
pub proof fn lemma_push_inserts(
    entries: Seq<(Seq<char>, Seq<char>)>,
    key: Seq<char>,
    value: Seq<char>,
)
    requires
        distinct_keys(entries),
        !has_key(entries, key),
    ensures
        distinct_keys(entries.push((key, value))),
        as_map(entries.push((key, value))) == as_map(entries).insert(key, value),
{
    let after = entries.push((key, value));
    assert forall|i: int, j: int| 0 <= i < j < after.len() implies (#[trigger] after[i]).0 != (
    #[trigger] after[j]).0 by {
        assert(after[i] == entries[i]);
        if j < entries.len() {
            assert(after[j] == entries[j]);
        }
    }
    assert forall|k: Seq<char>| has_key(after, k) <==> (k == key || has_key(entries, k)) by {
        if has_key(after, k) {
            let i = choose|i: int| 0 <= i < after.len() && (#[trigger] after[i]).0 == k;
            if i < entries.len() {
                assert(entries[i].0 == k);
            }
        }
        if has_key(entries, k) {
            let i = choose|i: int| 0 <= i < entries.len() && (#[trigger] entries[i]).0 == k;
            assert(after[i].0 == k);
        }
        if k == key {
            assert(after[entries.len() as int].0 == k);
        }
    }
    assert forall|k: Seq<char>| #[trigger]
        as_map(after).dom().contains(k) implies as_map(after)[k] == as_map(entries).insert(
        key,
        value,
    )[k] by {
        let i = choose|i: int| 0 <= i < after.len() && (#[trigger] after[i]).0 == k;
        lemma_as_map_of_entry(after, i);
        if i < entries.len() {
            assert(entries[i].0 == k);
            lemma_as_map_of_entry(entries, i);
        }
    }
    assert(as_map(after) =~= as_map(entries).insert(key, value));
}

/// String keys with string values, in the order in which the keys came.
/// No key occurs twice, and the table never outgrows the count that native
/// code can take.
#[derive(Debug)]
pub struct PropertyTable {
    entries: Vec<(String, String)>,
}

impl View for PropertyTable {
    type V = Seq<(Seq<char>, Seq<char>)>;

    /// The entries, each as key and value, in order.
    closed spec fn view(&self) -> Seq<(Seq<char>, Seq<char>)> {
        Seq::new(self.entries@.len(), |i: int| (self.entries@[i].0@, self.entries@[i].1@))
    }
}

impl PropertyTable {
    #[verifier::type_invariant]
    spec fn well_formed(&self) -> bool {
        distinct_keys(self@) && self@.len() <= MAX_NATIVE_COUNT
    }

    /// The empty table.
    pub fn new() -> (table: PropertyTable)
        ensures
            table@ == Seq::<(Seq<char>, Seq<char>)>::empty(),
    {
        let table = PropertyTable { entries: Vec::new() };
        assert(table@ =~= Seq::<(Seq<char>, Seq<char>)>::empty());
        table
    }

    pub fn len(&self) -> (n: usize)
        ensures
            n == self@.len(),
            n <= MAX_NATIVE_COUNT,
            distinct_keys(self@),
    {
        proof {
            use_type_invariant(self);
        }
        self.entries.len()
    }

    pub fn is_empty(&self) -> (empty: bool)
        ensures
            empty == (self@.len() == 0),
    {
        self.entries.len() == 0
    }

    /// The key and the value at `index`, if the table has an entry there.
    pub fn entry(&self, index: usize) -> (r: Option<(&str, &str)>)
        ensures
            index < self@.len() ==> (r matches Some(e) && (e.0@, e.1@) == self@[index as int]),
            index >= self@.len() ==> r is None,
    {
        if index < self.entries.len() {
            let pair = &self.entries[index];
            Some((pair.0.as_str(), pair.1.as_str()))
        } else {
            None
        }
    }

    /// Where `key` stands, if it stands anywhere.
    pub fn position(&self, key: &str) -> (r: Option<usize>)
        ensures
            has_key(self@, key@) ==> (r matches Some(i) && i < self@.len() && self@[i as int].0
                == key@),
            !has_key(self@, key@) ==> r is None,
    {
        let wanted = key.to_owned();
        let mut i: usize = 0;
        while i < self.entries.len()
            invariant
                i <= self.entries@.len(),
                wanted@ == key@,
                forall|j: int| 0 <= j < i ==> (#[trigger] self@[j]).0 != key@,
            decreases self.entries@.len() - i,
        {
            if self.entries[i].0 == wanted {
                assert(self@[i as int].0 == key@);
                return Some(i);
            }
            i += 1;
        }
        None
    }

    /// The value under `key`, if the table has one.
    pub fn get(&self, key: &str) -> (r: Option<&str>)
        ensures
            has_key(self@, key@) ==> (r matches Some(v) && v@ == as_map(self@)[key@]),
            !has_key(self@, key@) ==> r is None,
    {
        proof {
            use_type_invariant(self);
        }
        match self.position(key) {
            Some(i) => {
                proof {
                    let k = choose|k: int|
                        0 <= k < self@.len() && (#[trigger] self@[k]).0 == key@;
                    assert(k == i as int);
                }
                Some(self.entries[i].1.as_str())
            },
            None => None,
        }
    }

    /// Puts `value` under `key`. A key that the table has keeps its place
    /// and gets the new value; a new key goes to the end. A full table
    /// takes no new key: it stays as it is, and the answer is `false`.
    pub fn insert(&mut self, key: &str, value: &str) -> (stored: bool)
        ensures
            has_key(old(self)@, key@) ==> (stored && final(self)@ == with_value(
                old(self)@,
                key@,
                value@,
            )),
            !has_key(old(self)@, key@) && old(self)@.len() < MAX_NATIVE_COUNT ==> (stored
                && final(self)@ == old(self)@.push((key@, value@))),
            !has_key(old(self)@, key@) && old(self)@.len() >= MAX_NATIVE_COUNT ==> (!stored
                && final(self)@ == old(self)@),
            stored ==> as_map(final(self)@) == as_map(old(self)@).insert(key@, value@),
    {
        proof {
            use_type_invariant(&*self);
        }
        let found = self.position(key);
        let ghost before = self@;
        let mut entries: Vec<(String, String)> = Vec::new();
        core::mem::swap(&mut self.entries, &mut entries);
        let stored = match found {
            Some(i) => {
                entries.set(i, (key.to_owned(), value.to_owned()));
                true
            },
            None => {
                if entries.len() < MAX_NATIVE_COUNT {
                    entries.push((key.to_owned(), value.to_owned()));
                    true
                } else {
                    false
                }
            },
        };
        let ghost after = Seq::new(entries@.len(), |i: int| (entries@[i].0@, entries@[i].1@));
        proof {
            if found is Some {
                assert(after =~= with_value(before, key@, value@));
                lemma_with_value_inserts(before, key@, value@);
            } else if stored {
                assert(after =~= before.push((key@, value@)));
                lemma_push_inserts(before, key@, value@);
            } else {
                assert(after =~= before);
            }
        }
        self.entries = entries;
        assert(self@ =~= after);
        stored
    }
}

} // verus!
