//! A small map keyed by text that remembers the order in which keys arrived.
//! Database rows (column name to cell text) and photo groups (camera file
//! name to its files) are held in it.
use vstd::prelude::*;

verus! {

/// Entries keyed by text, each key at most once, in the order of first insertion.
pub struct TextMap<V> {
    entries: Vec<(String, V)>,
}

/// The keys of `s` are pairwise distinct (compared by their text).
pub open spec fn keys_distinct<V>(s: Seq<(Seq<char>, V)>) -> bool {
    forall|i: int, j: int| 0 <= i < s.len() && 0 <= j < s.len() && i != j ==> s[i].0 != s[j].0
}

/// Whether `k` is the key of some entry of `s`.
pub open spec fn has_key<V>(s: Seq<(Seq<char>, V)>, k: Seq<char>) -> bool {
    exists|i: int| 0 <= i < s.len() && s[i].0 == k
}

/// The position of key `k` in `s`.
pub open spec fn key_index<V>(s: Seq<(Seq<char>, V)>, k: Seq<char>) -> int {
    choose|i: int| 0 <= i < s.len() && s[i].0 == k
}

/// The map that a sequence of entries with distinct keys denotes.
pub open spec fn pairs_map<V>(s: Seq<(Seq<char>, V)>) -> Map<Seq<char>, V> {
    Map::new(|k: Seq<char>| has_key(s, k), |k: Seq<char>| s[key_index(s, k)].1)
}

/// With distinct keys, an entry's key maps to the entry's value.
pub proof fn lemma_pairs_map_at<V>(s: Seq<(Seq<char>, V)>, i: int)
    requires
        keys_distinct(s),
        0 <= i < s.len(),
    ensures
        pairs_map(s).contains_key(s[i].0),
        pairs_map(s)[s[i].0] == s[i].1,
{
    assert(has_key(s, s[i].0));
    let j = key_index(s, s[i].0);
    assert(s[j].0 == s[i].0);
}

/// Reading a key back after setting it gives the value set; every other key
/// keeps whether it is present and what it maps to.
pub proof fn lemma_read_after_insert<V>(
    before: Map<Seq<char>, V>,
    after: Map<Seq<char>, V>,
    key: Seq<char>,
    value: V,
    other: Seq<char>,
)
    requires
        after == before.insert(key, value),
    ensures
        after.contains_key(key),
        after[key] == value,
        other != key ==> (after.contains_key(other) == before.contains_key(other)),
        other != key && before.contains_key(other) ==> after[other] == before[other],
{
}

/// Setting entry `idx` to `(key, value)`, either in place of the entry with
/// that key or as a new last entry, makes the map insert `value` under `key`.
proof fn lemma_pairs_map_set<V>(
    old_pairs: Seq<(Seq<char>, V)>,
    new_pairs: Seq<(Seq<char>, V)>,
    idx: int,
    key: Seq<char>,
    value: V,
)
    requires
        keys_distinct(old_pairs),
        keys_distinct(new_pairs),
        0 <= idx < new_pairs.len(),
        new_pairs[idx] == (key, value),
        new_pairs.len() == old_pairs.len() || (new_pairs.len() == old_pairs.len() + 1 && idx
            == old_pairs.len()),
        forall|a: int| 0 <= a < old_pairs.len() && a != idx ==> new_pairs[a] == old_pairs[a],
        idx < old_pairs.len() ==> old_pairs[idx].0 == key,
    ensures
        pairs_map(new_pairs) == pairs_map(old_pairs).insert(key, value),
{
    assert forall|k: Seq<char>| #[trigger]
        pairs_map(new_pairs).contains_key(k) <==> pairs_map(old_pairs).insert(
            key,
            value,
        ).contains_key(k) by {
        if has_key(new_pairs, k) {
            let j = key_index(new_pairs, k);
            if j != idx {
                assert(old_pairs[j].0 == k);
            }
        }
        if has_key(old_pairs, k) {
            let j = key_index(old_pairs, k);
            if j != idx {
                assert(new_pairs[j].0 == k);
            }
        }
        if k == key {
            assert(new_pairs[idx].0 == k);
        }
    }
    assert forall|k: Seq<char>| #[trigger]
        pairs_map(new_pairs).contains_key(k) implies pairs_map(new_pairs)[k] == pairs_map(
        old_pairs,
    ).insert(key, value)[k] by {
        let j = key_index(new_pairs, k);
        lemma_pairs_map_at(new_pairs, j);
        if j != idx {
            lemma_pairs_map_at(old_pairs, j);
        }
    }
    assert(pairs_map(new_pairs) =~= pairs_map(old_pairs).insert(key, value));
}

impl<V> TextMap<V> {
    #[verifier::type_invariant]
    spec fn keys_are_distinct(&self) -> bool {
        keys_distinct(self.pairs())
    }

    /// The entries, each key by its text, in order.
    pub closed spec fn pairs(&self) -> Seq<(Seq<char>, V)> {
        self.entries@.map_values(|e: (String, V)| (e.0@, e.1))
    }

    /// The entries as a map from key text to value.
    pub open spec fn view(&self) -> Map<Seq<char>, V> {
        pairs_map(self.pairs())
    }

    /// An empty map.
    pub fn new() -> (m: Self)
        ensures
            m.pairs() == Seq::<(Seq<char>, V)>::empty(),
            m@ == Map::<Seq<char>, V>::empty(),
    {
        let m = TextMap { entries: Vec::new() };
        assert(m.pairs() =~= Seq::<(Seq<char>, V)>::empty());
        assert(m@ =~= Map::<Seq<char>, V>::empty());
        m
    }

    /// The number of entries.
    pub fn len(&self) -> (n: usize)
        ensures
            n == self.pairs().len(),
    {
        self.entries.len()
    }

    /// The position of `key` among the entries, if it is there.
    fn find(&self, key: &str) -> (r: Option<usize>)
        ensures
            match r {
                Some(i) => i < self.pairs().len() && self.pairs()[i as int].0 == key@,
                None => !has_key(self.pairs(), key@),
            },
    {
        let k = key.to_owned();
        let n = self.entries.len();
        let mut i: usize = 0;
        while i < n
            invariant
                n == self.entries@.len(),
                k@ == key@,
                i <= n,
                forall|j: int| 0 <= j < i ==> self.pairs()[j].0 != key@,
            decreases n - i,
        {
            if self.entries[i].0 == k {
                return Some(i);
            }
            i = i + 1;
        }
        proof {
            if has_key(self.pairs(), key@) {
                let j = key_index(self.pairs(), key@);
                assert(self.pairs()[j].0 == key@);
            }
        }
        None
    }

    /// The value under `key`, if any.
    pub fn get(&self, key: &str) -> (r: Option<&V>)
        ensures
            match r {
                Some(v) => self@.contains_key(key@) && *v == self@[key@],
                None => !self@.contains_key(key@),
            },
    {
        proof {
            use_type_invariant(self);
        }
        match self.find(key) {
            Some(i) => {
                proof {
                    lemma_pairs_map_at(self.pairs(), i as int);
                }
                Some(&self.entries[i].1)
            },
            None => None,
        }
    }

    /// Whether some entry has key `key`.
    pub fn contains_key(&self, key: &str) -> (b: bool)
        ensures
            b == self@.contains_key(key@),
    {
        self.find(key).is_some()
    }

    /// The value of the first entry, if there is one.
    pub fn first_value(&self) -> (r: Option<&V>)
        ensures
            match r {
                Some(v) => self.pairs().len() > 0 && *v == self.pairs()[0].1,
                None => self.pairs().len() == 0,
            },
    {
        if self.entries.len() > 0 {
            Some(&self.entries[0].1)
        } else {
            None
        }
    }

    /// Sets the value under `key`. A key already present keeps its position;
    /// a new key goes last.
    pub fn insert(&mut self, key: String, value: V)
        ensures
            final(self)@ == old(self)@.insert(key@, value),
            old(self)@.contains_key(key@) ==> final(self).pairs() == old(self).pairs().update(
                key_index(old(self).pairs(), key@),
                (key@, value),
            ),
            !old(self)@.contains_key(key@) ==> final(self).pairs() == old(self).pairs().push(
                (key@, value),
            ),
    {
        proof {
            use_type_invariant(&*self);
        }
        let ghost old_pairs = self.pairs();
        let ghost kv = key@;
        let found = self.find(key.as_str());
        let mut entries: Vec<(String, V)> = Vec::new();
        std::mem::swap(&mut entries, &mut self.entries);
        assert(entries@.map_values(|e: (String, V)| (e.0@, e.1)) == old_pairs);
        match found {
            Some(i) => {
                entries.remove(i);
                entries.insert(i, (key, value));
                proof {
                    let new_pairs = entries@.map_values(|e: (String, V)| (e.0@, e.1));
                    assert(new_pairs =~= old_pairs.update(i as int, (kv, value)));
                    let j = key_index(old_pairs, kv);
                    assert(old_pairs[i as int].0 == kv);
                    assert(j == i) by {
                        if j != i {
                            assert(old_pairs[j].0 == kv);
                        }
                    }
                    assert(keys_distinct(new_pairs)) by {
                        assert forall|a: int, b: int|
                            0 <= a < new_pairs.len() && 0 <= b < new_pairs.len() && a != b implies
                            new_pairs[a].0 != new_pairs[b].0 by {
                            assert(old_pairs[a].0 != old_pairs[b].0);
                        }
                    }
                    lemma_pairs_map_set(old_pairs, new_pairs, i as int, kv, value);
                }
            },
            None => {
                entries.push((key, value));
                proof {
                    let new_pairs = entries@.map_values(|e: (String, V)| (e.0@, e.1));
                    assert(new_pairs =~= old_pairs.push((kv, value)));
                    assert(keys_distinct(new_pairs)) by {
                        assert forall|a: int, b: int|
                            0 <= a < new_pairs.len() && 0 <= b < new_pairs.len() && a != b implies
                            new_pairs[a].0 != new_pairs[b].0 by {
                            if a < old_pairs.len() && b < old_pairs.len() {
                                assert(old_pairs[a].0 != old_pairs[b].0);
                            } else if a < old_pairs.len() {
                                assert(old_pairs[a].0 != kv);
                            } else if b < old_pairs.len() {
                                assert(old_pairs[b].0 != kv);
                            }
                        }
                    }
                    lemma_pairs_map_set(old_pairs, new_pairs, old_pairs.len() as int, kv, value);
                }
            },
        }
        self.entries = entries;
    }

    /// The entries, in order, handed out by value.
    pub fn into_entries(self) -> (v: Vec<(String, V)>)
        ensures
            v@.map_values(|e: (String, V)| (e.0@, e.1)) == self.pairs(),
    {
        self.entries
    }
}

} // verus!
