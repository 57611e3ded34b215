//! A map keyed by strings that keeps its entries in insertion order and holds each key once.
//! It stands for the `HashMap<String, _>` tables of the configuration files (variables,
//! properties, hooks, worlds).
use vstd::prelude::*;
use vstd::string::*;
use crate::strs::str_eq;

verus! {

/// The value stored under `k` in `es`: that of the first entry whose key is `k`.
pub open spec fn lookup<V>(es: Seq<(String, V)>, k: Seq<char>) -> Option<V>
    decreases es.len(),
{
    if es.len() == 0 {
        None
    } else if es[0].0@ == k {
        Some(es[0].1)
    } else {
        lookup(es.skip(1), k)
    }
}

/// The position of the entry with key `k` in `es`, if any.
pub open spec fn key_index<V>(es: Seq<(String, V)>, k: Seq<char>, i: int) -> bool {
    0 <= i < es.len() && es[i].0@ == k
}

/// No key occurs twice.
pub open spec fn distinct_keys<V>(es: Seq<(String, V)>) -> bool {
    forall|i: int, j: int| 0 <= i < es.len() && 0 <= j < es.len() && i != j ==> es[i].0@ != es[j].0@
}

/// The entries after storing `v` under `k`: the value of an existing key is replaced where
/// it stands, a new key goes last.
pub open spec fn inserted<V>(es: Seq<(String, V)>, k: String, v: V) -> Seq<(String, V)> {
    if exists|i: int| key_index(es, k@, i) {
        let i = choose|i: int| key_index(es, k@, i);
        es.update(i, (es[i].0, v))
    } else {
        es.push((k, v))
    }
}

/// The entries of a string-to-string map, as character sequences.
pub open spec fn string_entries(es: Seq<(String, String)>) -> Seq<(Seq<char>, Seq<char>)> {
    es.map_values(|e: (String, String)| (e.0@, e.1@))
}

/// The characters of the string stored under `k`, if any.
pub open spec fn lookup_str(es: Seq<(String, String)>, k: Seq<char>) -> Option<Seq<char>> {
    match lookup(es, k) {
        Some(v) => Some(v@),
        None => None,
    }
}

/// Inserting a key whose length differs from that of every present key appends it.
pub proof fn lemma_inserted_fresh<V>(es: Seq<(String, V)>, k: String, v: V)
    requires
        forall|i: int| 0 <= i < es.len() ==> #[trigger] es[i].0@.len() != k@.len(),
    ensures
        inserted(es, k, v) == es.push((k, v)),
{
    assert(!exists|i: int| key_index(es, k@, i)) by {
        assert forall|i: int| !key_index(es, k@, i) by {
            if 0 <= i < es.len() {
                assert(es[i].0@.len() != k@.len());
            }
        }
    }
}

pub proof fn lemma_lookup_index<V>(es: Seq<(String, V)>, k: Seq<char>, i: int)
    requires
        distinct_keys(es),
        key_index(es, k, i),
    ensures
        lookup(es, k) == Some(es[i].1),
    decreases es.len(),
{
    if i > 0 {
        assert(es[0].0@ != k);
        let t = es.skip(1);
        assert forall|a: int, b: int| 0 <= a < t.len() && 0 <= b < t.len() && a != b implies t[a].0@
            != t[b].0@ by {
            assert(t[a] == es[a + 1]);
            assert(t[b] == es[b + 1]);
        }
        assert(t[i - 1] == es[i]);
        lemma_lookup_index(t, k, i - 1);
    }
}

pub proof fn lemma_lookup_none<V>(es: Seq<(String, V)>, k: Seq<char>)
    requires
        forall|i: int| 0 <= i < es.len() ==> es[i].0@ != k,
    ensures
        lookup(es, k) is None,
    decreases es.len(),
{
    if es.len() > 0 {
        let t = es.skip(1);
        assert forall|i: int| 0 <= i < t.len() implies t[i].0@ != k by {
            assert(t[i] == es[i + 1]);
        }
        lemma_lookup_none(t, k);
    }
}

/// A string-keyed map, in insertion order, with distinct keys.
pub struct StrMap<V> {
    entries: Vec<(String, V)>,
}

impl<V> View for StrMap<V> {
    type V = Seq<(String, V)>;

    closed spec fn view(&self) -> Seq<(String, V)> {
        self.entries@
    }
}

impl<V> StrMap<V> {
    #[verifier::type_invariant]
    closed spec fn keys_are_distinct(self) -> bool {
        distinct_keys(self.entries@)
    }

    /// An empty map.
    pub fn new() -> (r: Self)
        ensures
            r@ == Seq::<(String, V)>::empty(),
    {
        StrMap { entries: Vec::new() }
    }

    /// The number of entries.
    pub fn len(&self) -> (r: usize)
        ensures
            r == self@.len(),
    {
        self.entries.len()
    }

    /// Whether the map is empty.
    pub fn is_empty(&self) -> (r: bool)
        ensures
            r == (self@.len() == 0),
    {
        self.entries.len() == 0
    }

    /// The position of key `k`, if it is present.
    pub fn index_of(&self, k: &str) -> (r: Option<usize>)
        ensures
            match r {
                Some(i) => key_index(self@, k@, i as int),
                None => forall|i: int| 0 <= i < self@.len() ==> self@[i].0@ != k@,
            },
    {
        let mut i: usize = 0;
        while i < self.entries.len()
            invariant
                i <= self.entries@.len(),
                forall|j: int| 0 <= j < i ==> self.entries@[j].0@ != k@,
            decreases self.entries@.len() - i,
        {
            if str_eq(self.entries[i].0.as_str(), k) {
                return Some(i);
            }
            i = i + 1;
        }
        None
    }

    /// Whether key `k` is present.
    pub fn contains_key(&self, k: &str) -> (r: bool)
        ensures
            r == lookup(self@, k@) is Some,
    {
        proof {
            use_type_invariant(self);
        }
        match self.index_of(k) {
            Some(i) => {
                proof {
                    lemma_lookup_index(self@, k@, i as int);
                }
                true
            },
            None => {
                proof {
                    lemma_lookup_none(self@, k@);
                }
                false
            },
        }
    }

    /// The value stored under `k`, if any.
    pub fn get(&self, k: &str) -> (r: Option<&V>)
        ensures
            match r {
                Some(v) => lookup(self@, k@) == Some(*v),
                None => lookup(self@, k@) is None,
            },
    {
        proof {
            use_type_invariant(self);
        }
        match self.index_of(k) {
            Some(i) => {
                proof {
                    lemma_lookup_index(self@, k@, i as int);
                }
                Some(&self.entries[i].1)
            },
            None => {
                proof {
                    lemma_lookup_none(self@, k@);
                }
                None
            },
        }
    }

    /// The key and value at position `i`.
    pub fn entry_at(&self, i: usize) -> (r: (&String, &V))
        requires
            i < self@.len(),
        ensures
            *r.0 == self@[i as int].0,
            *r.1 == self@[i as int].1,
    {
        (&self.entries[i].0, &self.entries[i].1)
    }

    /// Stores `v` under `k`: an existing key keeps its place and gets the new value, a new key
    /// goes last.
    pub fn insert(&mut self, k: String, v: V)
        ensures
            final(self)@ == inserted(old(self)@, k, v),
    {
        proof {
            use_type_invariant(&*self);
        }
        match self.index_of(k.as_str()) {
            Some(i) => {
                let ghost es = self@;
                let mut work: Vec<(String, V)> = Vec::new();
                std::mem::swap(&mut work, &mut self.entries);
                let old_entry = work.remove(i);
                let key = old_entry.0;
                work.insert(i, (key, v));
                proof {
                    assert(key_index(es, k@, i as int));
                    let j = choose|j: int| key_index(es, k@, j);
                    assert(j == i);
                    assert(work@ =~= es.update(i as int, (es[i as int].0, v)));
                }
                self.entries = work;
            },
            None => {
                let ghost es = self@;
                let mut work: Vec<(String, V)> = Vec::new();
                std::mem::swap(&mut work, &mut self.entries);
                work.push((k, v));
                proof {
                    assert(!exists|j: int| key_index(es, k@, j));
                }
                self.entries = work;
            },
        }
    }

    /// Replaces the value at position `i` with `v` and hands back the value that stood there.
    pub fn swap_value_at(&mut self, i: usize, v: V) -> (r: V)
        requires
            i < old(self)@.len(),
        ensures
            r == old(self)@[i as int].1,
            final(self)@ == old(self)@.update(i as int, (old(self)@[i as int].0, v)),
    {
        proof {
            use_type_invariant(&*self);
        }
        let ghost es = self@;
        let mut work: Vec<(String, V)> = Vec::new();
        std::mem::swap(&mut work, &mut self.entries);
        let old_entry = work.remove(i);
        let (key, value) = old_entry;
        work.insert(i, (key, v));
        assert(work@ =~= es.update(i as int, (es[i as int].0, v)));
        self.entries = work;
        value
    }
}


impl Clone for StrMap<String> {
    fn clone(&self) -> (r: Self)
        ensures
            r@ == self@,
    {
        proof {
            use_type_invariant(self);
        }
        let mut out: Vec<(String, String)> = Vec::new();
        let mut i: usize = 0;
        while i < self.entries.len()
            invariant
                i <= self.entries.len(),
                distinct_keys(self.entries@),
                out@ =~= self.entries@.take(i as int),
            decreases self.entries.len() - i,
        {
            let k = self.entries[i].0.clone();
            let v = self.entries[i].1.clone();
            out.push((k, v));
            proof {
                assert(self.entries@.take(i + 1) =~= self.entries@.take(i as int).push(
                    self.entries@[i as int],
                ));
            }
            i = i + 1;
        }
        assert(self.entries@.take(self.entries.len() as int) =~= self.entries@);
        StrMap { entries: out }
    }
}


/// Reading a key just stored gives the stored value back, and storing leaves the values of
/// the other keys as they were.
pub proof fn lemma_lookup_inserted<V>(es: Seq<(String, V)>, k: String, v: V, other: Seq<char>)
    requires
        distinct_keys(es),
    ensures
        lookup(inserted(es, k, v), k@) == Some(v),
        other != k@ ==> lookup(inserted(es, k, v), other) == lookup(es, other),
        distinct_keys(inserted(es, k, v)),
{
    let t = inserted(es, k, v);
    if exists|i: int| key_index(es, k@, i) {
        let i = choose|i: int| key_index(es, k@, i);
        assert(t == es.update(i, (es[i].0, v)));
        assert(distinct_keys(t)) by {
            assert forall|a: int, b: int|
                0 <= a < t.len() && 0 <= b < t.len() && a != b implies t[a].0@ != t[b].0@ by {
                assert(t[a].0 == es[a].0);
                assert(t[b].0 == es[b].0);
            }
        }
        assert(key_index(t, k@, i));
        lemma_lookup_index(t, k@, i);
        if other != k@ {
            if exists|j: int| key_index(es, other, j) {
                let j = choose|j: int| key_index(es, other, j);
                assert(j != i);
                assert(key_index(t, other, j));
                lemma_lookup_index(es, other, j);
                lemma_lookup_index(t, other, j);
            } else {
                assert forall|j: int| 0 <= j < t.len() implies t[j].0@ != other by {
                    assert(t[j].0 == es[j].0);
                    assert(!key_index(es, other, j));
                }
                assert forall|j: int| 0 <= j < es.len() implies es[j].0@ != other by {
                    assert(!key_index(es, other, j));
                }
                lemma_lookup_none(t, other);
                lemma_lookup_none(es, other);
            }
        }
    } else {
        assert(t == es.push((k, v)));
        assert(distinct_keys(t)) by {
            assert forall|a: int, b: int|
                0 <= a < t.len() && 0 <= b < t.len() && a != b implies t[a].0@ != t[b].0@ by {
                if a < es.len() && b < es.len() {
                } else if a < es.len() {
                    assert(!key_index(es, k@, a));
                } else if b < es.len() {
                    assert(!key_index(es, k@, b));
                }
            }
        }
        assert(key_index(t, k@, es.len() as int));
        lemma_lookup_index(t, k@, es.len() as int);
        if other != k@ {
            if exists|j: int| key_index(es, other, j) {
                let j = choose|j: int| key_index(es, other, j);
                assert(key_index(t, other, j));
                lemma_lookup_index(es, other, j);
                lemma_lookup_index(t, other, j);
            } else {
                assert forall|j: int| 0 <= j < t.len() implies t[j].0@ != other by {
                    if j < es.len() {
                        assert(!key_index(es, other, j));
                    }
                }
                assert forall|j: int| 0 <= j < es.len() implies es[j].0@ != other by {
                    assert(!key_index(es, other, j));
                }
                lemma_lookup_none(t, other);
                lemma_lookup_none(es, other);
            }
        }
    }
}

} // verus!
