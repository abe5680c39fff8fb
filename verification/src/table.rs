//! A small map from text keys to values, kept in order of first insertion.

use vstd::prelude::*;
use crate::vm::value::Value;

verus! {

/// One binding of a [`Table`].
pub struct Entry<V> {
    pub key: String,
    pub value: V,
}

/// A map from text keys to values. A key that is inserted again keeps its
/// place and changes its value, so a table that is only built by `new` and
/// `insert` holds no key twice.
pub struct Table<V> {
    entries: Vec<Entry<V>>,
}

/// The first position at or after `start` whose key is `key`.
pub open spec fn find_from<T>(entries: Seq<(Seq<char>, T)>, key: Seq<char>, start: nat) -> Option<nat>
    decreases entries.len() - start,
{
    if start >= entries.len() {
        None
    } else if entries[start as int].0 == key {
        Some(start)
    } else {
        find_from(entries, key, start + 1)
    }
}

/// The position of `key`.
pub open spec fn find<T>(entries: Seq<(Seq<char>, T)>, key: Seq<char>) -> Option<nat> {
    find_from(entries, key, 0)
}

/// The value bound to `key`.
pub open spec fn lookup<T>(entries: Seq<(Seq<char>, T)>, key: Seq<char>) -> Option<T> {
    match find(entries, key) {
        Some(i) => Some(entries[i as int].1),
        None => None,
    }
}

/// The entries after binding `key` to `value`.
pub open spec fn bind<T>(entries: Seq<(Seq<char>, T)>, key: Seq<char>, value: T) -> Seq<
    (Seq<char>, T),
> {
    match find(entries, key) {
        Some(i) => entries.update(i as int, (key, value)),
        None => entries.push((key, value)),
    }
}

/// No key occurs at two positions.
pub open spec fn distinct_keys<T>(entries: Seq<(Seq<char>, T)>) -> bool {
    forall|i: int, j: int|
        0 <= i < entries.len() && 0 <= j < entries.len() && i != j ==> entries[i].0
            != entries[j].0
}

/// What `find_from` returns: the first match at or after `start`.
pub proof fn lemma_find_from<T>(entries: Seq<(Seq<char>, T)>, key: Seq<char>, start: nat)
    ensures
        match find_from(entries, key, start) {
            Some(i) => start <= i < entries.len() && entries[i as int].0 == key && forall|j: int|
                start <= j < i ==> entries[j].0 != key,
            None => forall|j: int| start <= j < entries.len() ==> entries[j].0 != key,
        },
    decreases entries.len() - start,
{
    if start < entries.len() && entries[start as int].0 != key {
        lemma_find_from(entries, key, start + 1);
    }
}

/// `find_from` is determined by the first match.
pub proof fn lemma_find_from_is<T>(
    entries: Seq<(Seq<char>, T)>,
    key: Seq<char>,
    start: nat,
    at: nat,
)
    requires
        start <= at < entries.len(),
        entries[at as int].0 == key,
        forall|j: int| start <= j < at ==> entries[j].0 != key,
    ensures
        find_from(entries, key, start) == Some(at),
    decreases at - start,
{
    if start < at {
        lemma_find_from_is(entries, key, start + 1, at);
    }
}

/// `find_from` finds nothing where no key matches.
pub proof fn lemma_find_from_none<T>(entries: Seq<(Seq<char>, T)>, key: Seq<char>, start: nat)
    requires
        forall|j: int| start <= j < entries.len() ==> entries[j].0 != key,
    ensures
        find_from(entries, key, start) is None,
    decreases entries.len() - start,
{
    if start < entries.len() {
        lemma_find_from_none(entries, key, start + 1);
    }
}

/// A key that was bound is found with its value.
pub proof fn law_bind_same<T>(entries: Seq<(Seq<char>, T)>, key: Seq<char>, value: T)
    ensures
        lookup(bind(entries, key, value), key) == Some(value),
{
    lemma_find_from(entries, key, 0);
    let after = bind(entries, key, value);
    match find(entries, key) {
        Some(i) => {
            lemma_find_from_is(after, key, 0, i);
        },
        None => {
            lemma_find_from_is(after, key, 0, entries.len());
        },
    }
}

/// Binding one key leaves every other key as it was.
pub proof fn law_bind_other<T>(
    entries: Seq<(Seq<char>, T)>,
    key: Seq<char>,
    value: T,
    other: Seq<char>,
)
    requires
        other != key,
    ensures
        lookup(bind(entries, key, value), other) == lookup(entries, other),
{
    lemma_find_from(entries, key, 0);
    lemma_find_from(entries, other, 0);
    let after = bind(entries, key, value);
    match find(entries, other) {
        Some(i) => {
            lemma_find_from_is(after, other, 0, i);
        },
        None => {
            lemma_find_from_none(after, other, 0);
        },
    }
}

/// Binding a key keeps the keys distinct.
pub proof fn law_bind_distinct<T>(entries: Seq<(Seq<char>, T)>, key: Seq<char>, value: T)
    requires
        distinct_keys(entries),
    ensures
        distinct_keys(bind(entries, key, value)),
{
    lemma_find_from(entries, key, 0);
}

impl<V: View> View for Table<V> {
    type V = Seq<(Seq<char>, V::V)>;

    closed spec fn view(&self) -> Seq<(Seq<char>, V::V)> {
        Seq::new(self.entries.len() as nat, |i: int| (self.entries[i].key@, self.entries[i].value@))
    }
}

impl<V: View> Table<V> {
    /// The empty table.
    pub fn new() -> (out: Self)
        ensures
            out@ == Seq::<(Seq<char>, V::V)>::empty(),
    {
        let out = Table { entries: Vec::new() };
        assert(out@ =~= Seq::<(Seq<char>, V::V)>::empty());
        out
    }

    /// The number of bindings.
    pub fn len(&self) -> (n: usize)
        ensures
            n == self@.len(),
    {
        self.entries.len()
    }

    /// The key at position `i`.
    pub fn key_at(&self, i: usize) -> (key: &String)
        requires
            i < self@.len(),
        ensures
            key@ == self@[i as int].0,
    {
        &self.entries[i].key
    }

    /// The value at position `i`.
    pub fn value_at(&self, i: usize) -> (value: &V)
        requires
            i < self@.len(),
        ensures
            value@ == self@[i as int].1,
    {
        &self.entries[i].value
    }

    /// The position of `key`, if it is bound.
    pub fn position(&self, key: &String) -> (at: Option<usize>)
        ensures
            match at {
                Some(i) => find(self@, key@) == Some(i as nat) && i < self@.len(),
                None => find(self@, key@) is None,
            },
    {
        let mut i: usize = 0;
        while i < self.entries.len()
            invariant
                i <= self.entries.len(),
                find(self@, key@) == find_from(self@, key@, i as nat),
            decreases self.entries.len() - i,
        {
            if self.entries[i].key == *key {
                return Some(i);
            }
            i += 1;
        }
        None
    }

    /// Whether `key` is bound.
    pub fn contains_key(&self, key: &String) -> (found: bool)
        ensures
            found == (lookup(self@, key@) is Some),
    {
        self.position(key).is_some()
    }

    /// The value bound to `key`.
    pub fn get(&self, key: &String) -> (value: Option<&V>)
        ensures
            match value {
                Some(v) => lookup(self@, key@) == Some(v@),
                None => lookup(self@, key@) is None,
            },
    {
        match self.position(key) {
            Some(i) => Some(&self.entries[i].value),
            None => None,
        }
    }

    /// Binds `key` to `value`; a key that is already bound keeps its place.
    pub fn insert(&mut self, key: String, value: V)
        ensures
            final(self)@ == bind(old(self)@, key@, value@),
            distinct_keys(old(self)@) ==> distinct_keys(final(self)@),
    {
        proof {
            lemma_find_from(self@, key@, 0);
        }
        match self.position(&key) {
            Some(i) => {
                self.entries.set(i, Entry { key, value });
                assert(self@ =~= bind(old(self)@, key@, value@));
            },
            None => {
                self.entries.push(Entry { key, value });
                assert(self@ =~= bind(old(self)@, key@, value@));
            },
        }
    }
}

impl Table<Value> {
    /// A copy of the table with the same bindings in the same places.
    pub fn duplicate(&self) -> (out: Self)
        ensures
            out@ == self@,
    {
        let mut entries: Vec<Entry<Value>> = Vec::new();
        let mut i: usize = 0;
        while i < self.entries.len()
            invariant
                i <= self.entries.len(),
                entries.len() == i,
                forall|j: int|
                    0 <= j < i ==> entries[j].key@ == self.entries[j].key@ && entries[j].value@
                        == self.entries[j].value@,
            decreases self.entries.len() - i,
        {
            entries.push(
                Entry { key: self.entries[i].key.clone(), value: self.entries[i].value.clone() },
            );
            i += 1;
        }
        let out = Table { entries };
        assert(out@ =~= self@);
        out
    }
}

} // verus!
