//! A map from strings to values that keeps its keys in the order they were
//! first inserted.
use vstd::prelude::*;

verus! {

/// The map that a list of entries describes, later entries taking
/// precedence.
pub open spec fn entries_map<V>(e: Seq<(String, V)>) -> Map<Seq<char>, V>
    decreases e.len(),
{
    if e.len() == 0 {
        Map::empty()
    } else {
        entries_map(e.drop_last()).insert(e.last().0@, e.last().1)
    }
}

/// No two entries share a key.
pub open spec fn keys_unique<V>(e: Seq<(String, V)>) -> bool {
    forall|i: int, j: int| 0 <= i < j < e.len() ==> e[i].0@ != e[j].0@
}

proof fn lemma_entries_map_lookup<V>(e: Seq<(String, V)>, i: int)
    requires
        keys_unique(e),
        0 <= i < e.len(),
    ensures
        entries_map(e).contains_key(e[i].0@),
        entries_map(e)[e[i].0@] == e[i].1,
    decreases e.len(),
{
    if i < e.len() - 1 {
        lemma_entries_map_lookup(e.drop_last(), i);
    }
}

proof fn lemma_entries_map_absent<V>(e: Seq<(String, V)>, k: Seq<char>)
    requires
        forall|i: int| 0 <= i < e.len() ==> e[i].0@ != k,
    ensures
        !entries_map(e).contains_key(k),
    decreases e.len(),
{
    if e.len() > 0 {
        lemma_entries_map_absent(e.drop_last(), k);
    }
}

proof fn lemma_entries_map_update<V>(e: Seq<(String, V)>, i: int, key: String, v: V)
    requires
        keys_unique(e),
        0 <= i < e.len(),
        key@ == e[i].0@,
    ensures
        entries_map(e.update(i, (key, v))) == entries_map(e).insert(key@, v),
        keys_unique(e.update(i, (key, v))),
    decreases e.len(),
{
    let k = key@;
    let after = e.update(i, (key, v));
    if i == e.len() - 1 {
        assert(after.drop_last() =~= e.drop_last());
        assert(entries_map(after) =~= entries_map(e).insert(k, v));
    } else {
        assert(after.drop_last() =~= e.drop_last().update(i, (key, v)));
        lemma_entries_map_update(e.drop_last(), i, key, v);
        assert(e.last().0@ != k);
        assert(entries_map(after) =~= entries_map(e).insert(k, v));
    }
}

/// A map from strings to values, compared by their characters.
pub struct StringMap<V> {
    entries: Vec<(String, V)>,
}

impl<V> View for StringMap<V> {
    type V = Map<Seq<char>, V>;

    closed spec fn view(&self) -> Map<Seq<char>, V> {
        entries_map(self.entries@)
    }
}

impl<V> StringMap<V> {
    /// The keys, in the order they were first inserted.
    pub closed spec fn key_order(&self) -> Seq<Seq<char>> {
        self.entries@.map_values(|e: (String, V)| e.0@)
    }

    /// No two entries share a key.
    pub closed spec fn wf(&self) -> bool {
        keys_unique(self.entries@)
    }

    /// An empty map.
    pub fn new() -> (r: StringMap<V>)
        ensures
            r.wf(),
            r@ == Map::<Seq<char>, V>::empty(),
            r.key_order() == Seq::<Seq<char>>::empty(),
    {
        let r = StringMap { entries: Vec::new() };
        assert(r.key_order() =~= Seq::<Seq<char>>::empty());
        r
    }

    /// How many keys the map holds.
    pub fn len(&self) -> (r: usize)
        requires
            self.wf(),
        ensures
            r == self.key_order().len(),
    {
        self.entries.len()
    }

    /// The position of `key` among the keys, if the map holds it.
    fn position(&self, key: &String) -> (r: Option<usize>)
        requires
            self.wf(),
        ensures
            match r {
                Some(i) => i < self.entries@.len() && self.entries@[i as int].0@ == key@,
                None => forall|i: int| 0 <= i < self.entries@.len() ==> self.entries@[i].0@ != key@,
            },
    {
        let mut i: usize = 0;
        while i < self.entries.len()
            invariant
                i <= self.entries@.len(),
                forall|j: int| 0 <= j < i ==> self.entries@[j].0@ != key@,
            decreases self.entries@.len() - i,
        {
            if self.entries[i].0 == *key {
                return Some(i);
            }
            i = i + 1;
        }
        None
    }

    /// The value of `key`, if the map holds it.
    pub fn get(&self, key: &String) -> (r: Option<&V>)
        requires
            self.wf(),
        ensures
            match r {
                Some(v) => self@.contains_key(key@) && *v == self@[key@],
                None => !self@.contains_key(key@),
            },
    {
        match self.position(key) {
            Some(i) => {
                proof {
                    lemma_entries_map_lookup(self.entries@, i as int);
                }
                Some(&self.entries[i].1)
            },
            None => {
                proof {
                    lemma_entries_map_absent(self.entries@, key@);
                }
                None
            },
        }
    }

    /// Whether the map holds `key`.
    pub fn contains_key(&self, key: &String) -> (r: bool)
        requires
            self.wf(),
        ensures
            r == self@.contains_key(key@),
    {
        self.get(key).is_some()
    }

    /// The key and value at `index` in the order of first insertion.
    pub fn entry_at(&self, index: usize) -> (r: (&String, &V))
        requires
            self.wf(),
            index < self.key_order().len(),
        ensures
            r.0@ == self.key_order()[index as int],
            self@.contains_key(r.0@),
            *r.1 == self@[r.0@],
    {
        proof {
            lemma_entries_map_lookup(self.entries@, index as int);
        }
        let e = &self.entries[index];
        (&e.0, &e.1)
    }

    /// Sets the value of `key`, replacing any value it had; a new key goes
    /// after all the others.
    pub fn insert(&mut self, key: String, value: V)
        requires
            old(self).wf(),
        ensures
            final(self).wf(),
            final(self)@ == old(self)@.insert(key@, value),
            old(self)@.contains_key(key@) ==> final(self).key_order() == old(self).key_order(),
            !old(self)@.contains_key(key@) ==> final(self).key_order() == old(self).key_order().push(
                key@,
            ),
    {
        match self.position(&key) {
            Some(i) => {
                proof {
                    lemma_entries_map_lookup(self.entries@, i as int);
                    lemma_entries_map_update(self.entries@, i as int, key, value);
                }
                self.entries.set(i, (key, value));
                assert(self.key_order() =~= old(self).key_order());
            },
            None => {
                proof {
                    lemma_entries_map_absent(self.entries@, key@);
                }
                let ghost before = self.entries@;
                self.entries.push((key, value));
                assert(self.entries@.drop_last() =~= before);
                assert(self.key_order() =~= old(self).key_order().push(key@));
            },
        }
    }

    /// Inserts `key` with `default` unless the map already holds it.
    pub fn or_insert(&mut self, key: String, default: V)
        requires
            old(self).wf(),
        ensures
            final(self).wf(),
            final(self)@ == if old(self)@.contains_key(key@) {
                old(self)@
            } else {
                old(self)@.insert(key@, default)
            },
            !old(self)@.contains_key(key@) ==> final(self).key_order() == old(self).key_order().push(
                key@,
            ),
            old(self)@.contains_key(key@) ==> final(self).key_order() == old(self).key_order(),
    {
        if !self.contains_key(&key) {
            self.insert(key, default);
        }
    }
}

} // verus!
