//! A small insert-or-replace table keyed by text, viewed as a
//! mathematical `Map` from character sequences to the values' views.
//!
//! The method area is built from two of these: one from signature to
//! method and one from class name to class. Keys are kept unique, so the
//! table is exactly its map view.

use vstd::prelude::*;

verus! {

/// One key/value pair of a [`Table`].
pub struct TableEntry<V> {
    pub key: String,
    pub value: V,
}

/// No two entries share a key.
pub open spec fn keys_unique<V>(s: Seq<TableEntry<V>>) -> bool {
    forall|i: int, j: int|
        #![trigger s[i], s[j]]
        0 <= i < j < s.len() ==> s[i].key@ != s[j].key@
}

/// The map an entry sequence denotes; a later entry overrides an earlier
/// one with the same key (with unique keys there is nothing to override).
pub open spec fn kv_map<V: View>(s: Seq<TableEntry<V>>) -> Map<Seq<char>, V::V>
    decreases s.len(),
{
    if s.len() == 0 {
        Map::empty()
    } else {
        kv_map(s.drop_last()).insert(s.last().key@, s.last().value@)
    }
}

proof fn lemma_kv_map_contains<V: View>(s: Seq<TableEntry<V>>, k: Seq<char>)
    ensures
        kv_map(s).contains_key(k) <==> exists|i: int| 0 <= i < s.len() && s[i].key@ == k,
    decreases s.len(),
{
    if s.len() == 0 {
    } else {
        lemma_kv_map_contains(s.drop_last(), k);
        if s.last().key@ == k {
            assert(s[s.len() - 1].key@ == k);
        } else {
            if kv_map(s).contains_key(k) {
                let i = choose|i: int| 0 <= i < s.drop_last().len() && s.drop_last()[i].key@ == k;
                assert(s[i].key@ == k);
            }
            if exists|i: int| 0 <= i < s.len() && s[i].key@ == k {
                let i = choose|i: int| 0 <= i < s.len() && s[i].key@ == k;
                assert(i < s.len() - 1);
                assert(s.drop_last()[i].key@ == k);
            }
        }
    }
}

proof fn lemma_kv_map_get<V: View>(s: Seq<TableEntry<V>>, k: Seq<char>, i: int)
    requires
        keys_unique(s),
        0 <= i < s.len(),
        s[i].key@ == k,
    ensures
        kv_map(s).contains_key(k),
        kv_map(s)[k] == s[i].value@,
    decreases s.len(),
{
    if i == s.len() - 1 {
    } else {
        assert(s.last().key@ != k);
        assert(keys_unique(s.drop_last())) by {
            assert(forall|x: int, y: int|
                #![trigger s.drop_last()[x], s.drop_last()[y]]
                0 <= x < y < s.drop_last().len() ==> s.drop_last()[x] == s[x] && s.drop_last()[y]
                    == s[y]);
        }
        assert(s.drop_last()[i].key@ == k);
        lemma_kv_map_get(s.drop_last(), k, i);
    }
}

proof fn lemma_kv_map_push<V: View>(s: Seq<TableEntry<V>>, e: TableEntry<V>)
    ensures
        kv_map(s.push(e)) == kv_map(s).insert(e.key@, e.value@),
{
    assert(s.push(e).drop_last() =~= s);
    assert(s.push(e).last() == e);
}

proof fn lemma_kv_map_update<V: View>(s: Seq<TableEntry<V>>, i: int, e: TableEntry<V>)
    requires
        keys_unique(s),
        0 <= i < s.len(),
        e.key@ == s[i].key@,
    ensures
        kv_map(s.update(i, e)) == kv_map(s).insert(e.key@, e.value@),
    decreases s.len(),
{
    let t = s.update(i, e);
    if i == s.len() - 1 {
        assert(t.drop_last() =~= s.drop_last());
        assert(t.last() == e);
        assert(kv_map(t) =~= kv_map(s).insert(e.key@, e.value@));
    } else {
        assert(keys_unique(s.drop_last())) by {
            assert(forall|x: int, y: int|
                #![trigger s.drop_last()[x], s.drop_last()[y]]
                0 <= x < y < s.drop_last().len() ==> s.drop_last()[x] == s[x] && s.drop_last()[y]
                    == s[y]);
        }
        assert(s.drop_last()[i] == s[i]);
        lemma_kv_map_update(s.drop_last(), i, e);
        assert(t.drop_last() =~= s.drop_last().update(i, e));
        assert(t.last() == s.last());
        // The two inserts commute: the replaced key differs from the last key.
        assert(s.last().key@ != e.key@);
        assert(kv_map(t) =~= kv_map(s).insert(e.key@, e.value@));
    }
}

/// A mapping from text keys to values, with insert-or-replace insertion
/// and by-key lookup.
pub struct Table<V> {
    entries: Vec<TableEntry<V>>,
}

impl<V: View> View for Table<V> {
    type V = Map<Seq<char>, V::V>;

    closed spec fn view(&self) -> Map<Seq<char>, V::V> {
        kv_map(self.entries@)
    }
}

impl<V> Table<V> {
    #[verifier::type_invariant]
    spec fn wf(&self) -> bool {
        keys_unique(self.entries@)
    }
}

impl<V: View> Table<V> {
    /// An empty table.
    pub fn new() -> (table: Table<V>)
        ensures
            table@ == Map::<Seq<char>, V::V>::empty(),
    {
        Table { entries: Vec::new() }
    }

    /// The position of `key`'s entry, if one exists.
    fn index_of(&self, key: &String) -> (r: Option<usize>)
        ensures
            match r {
                Some(i) => i < self.entries@.len() && self.entries@[i as int].key@ == key@,
                None => forall|j: int| 0 <= j < self.entries@.len() ==> self.entries@[j].key@
                    != key@,
            },
    {
        let mut i: usize = 0;
        while i < self.entries.len()
            invariant
                i <= self.entries@.len(),
                forall|j: int| 0 <= j < i ==> self.entries@[j].key@ != key@,
            decreases self.entries@.len() - i,
        {
            if self.entries[i].key == *key {
                return Some(i);
            }
            i += 1;
        }
        None
    }

    /// Inserts `value` under `key`, replacing any earlier value.
    pub fn insert(&mut self, key: &str, value: V)
        ensures
            final(self)@ == old(self)@.insert(key@, value@),
    {
        proof {
            use_type_invariant(&*self);
        }
        let k = key.to_owned();
        let ghost s0 = self.entries@;
        let found = self.index_of(&k);
        let mut es: Vec<TableEntry<V>> = Vec::new();
        core::mem::swap(&mut es, &mut self.entries);
        match found {
            Some(i) => {
                let e = TableEntry { key: k, value };
                proof {
                    lemma_kv_map_update(s0, i as int, e);
                }
                es[i] = e;
                proof {
                    assert forall|x: int, y: int| 0 <= x < y < es@.len() implies es@[x].key@
                        != es@[y].key@ by {
                        assert(s0[x].key@ != s0[y].key@);
                        assert(es@[x].key@ == s0[x].key@);
                        assert(es@[y].key@ == s0[y].key@);
                    }
                }
            },
            None => {
                let e = TableEntry { key: k, value };
                proof {
                    lemma_kv_map_push(s0, e);
                }
                es.push(e);
                proof {
                    assert forall|x: int, y: int| 0 <= x < y < es@.len() implies es@[x].key@
                        != es@[y].key@ by {
                        if y < es@.len() - 1 {
                            assert(s0[x].key@ != s0[y].key@);
                        } else {
                            assert(es@[x] == s0[x]);
                        }
                    }
                }
            },
        }
        core::mem::swap(&mut es, &mut self.entries);
    }

    /// The value under `key`, if one exists.
    pub fn get(&self, key: &str) -> (r: Option<&V>)
        ensures
            match r {
                Some(v) => self@.contains_key(key@) && v@ == self@[key@],
                None => !self@.contains_key(key@),
            },
    {
        proof {
            use_type_invariant(&*self);
            lemma_kv_map_contains(self.entries@, key@);
        }
        let k = key.to_owned();
        match self.index_of(&k) {
            Some(i) => {
                proof {
                    lemma_kv_map_get(self.entries@, key@, i as int);
                }
                Some(&self.entries[i].value)
            },
            None => None,
        }
    }
}

} // verus!
