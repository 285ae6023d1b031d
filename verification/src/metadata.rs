//! The metadata of a payload: byte strings under string keys, each key once.

use vstd::prelude::*;

verus! {

/// The mapping that a list of pairs stands for: a later pair replaces an
/// earlier one with the same key.
pub open spec fn pairs_map(pairs: Seq<(Seq<char>, Seq<u8>)>) -> Map<Seq<char>, Seq<u8>>
    decreases pairs.len(),
{
    if pairs.len() == 0 {
        Map::empty()
    } else {
        pairs_map(pairs.drop_last()).insert(pairs.last().0, pairs.last().1)
    }
}

/// Whether no two pairs of the list have the same key.
pub open spec fn distinct_keys(pairs: Seq<(Seq<char>, Seq<u8>)>) -> bool {
    forall|i: int, j: int| 0 <= i < j < pairs.len() ==> pairs[i].0 != pairs[j].0
}

/// The keys of the mapping are the keys of the pairs, and there are finitely
/// many of them.
pub proof fn lemma_pairs_map_keys(pairs: Seq<(Seq<char>, Seq<u8>)>)
    ensures
        pairs_map(pairs).dom().finite(),
        forall|k: Seq<char>| #[trigger]
            pairs_map(pairs).contains_key(k) <==> exists|i: int|
                0 <= i < pairs.len() && #[trigger] pairs[i].0 == k,
    decreases pairs.len(),
{
    if pairs.len() > 0 {
        let front = pairs.drop_last();
        lemma_pairs_map_keys(front);
        assert forall|k: Seq<char>| #[trigger]
            pairs_map(pairs).contains_key(k) implies exists|i: int|
            0 <= i < pairs.len() && #[trigger] pairs[i].0 == k by {
            if k == pairs.last().0 {
                assert(pairs[pairs.len() - 1].0 == k);
            } else {
                assert(pairs_map(front).contains_key(k));
                let i = choose|i: int| 0 <= i < front.len() && #[trigger] front[i].0 == k;
                assert(pairs[i].0 == k);
            }
        }
        assert forall|k: Seq<char>|
            (exists|i: int|
                0 <= i < pairs.len() && #[trigger] pairs[i].0 == k) implies #[trigger] pairs_map(
            pairs,
        ).contains_key(k) by {
            let i = choose|i: int| 0 <= i < pairs.len() && #[trigger] pairs[i].0 == k;
            if i < pairs.len() - 1 {
                assert(front[i].0 == k);
            }
        }
    }
}

/// Among pairs with distinct keys, each key maps to the value beside it.
pub proof fn lemma_pairs_map_value(pairs: Seq<(Seq<char>, Seq<u8>)>, i: int)
    requires
        distinct_keys(pairs),
        0 <= i < pairs.len(),
    ensures
        pairs_map(pairs).contains_key(pairs[i].0),
        pairs_map(pairs)[pairs[i].0] == pairs[i].1,
    decreases pairs.len(),
{
    if i < pairs.len() - 1 {
        let front = pairs.drop_last();
        assert(front[i] == pairs[i]);
        lemma_pairs_map_value(front, i);
    }
}

/// Pairs with distinct keys stand for a mapping with as many keys.
proof fn lemma_pairs_map_len(pairs: Seq<(Seq<char>, Seq<u8>)>)
    requires
        distinct_keys(pairs),
    ensures
        pairs_map(pairs).dom().finite(),
        pairs_map(pairs).dom().len() == pairs.len(),
    decreases pairs.len(),
{
    lemma_pairs_map_keys(pairs);
    if pairs.len() > 0 {
        let front = pairs.drop_last();
        lemma_pairs_map_len(front);
        lemma_pairs_map_keys(front);
        if pairs_map(front).contains_key(pairs.last().0) {
            let i = choose|i: int| 0 <= i < front.len() && #[trigger] front[i].0 == pairs.last().0;
            assert(pairs[i].0 == pairs[pairs.len() - 1].0);
        }
    }
}

/// Replacing the value of one pair replaces the value under its key.
proof fn lemma_pairs_map_update(pairs: Seq<(Seq<char>, Seq<u8>)>, i: int, value: Seq<u8>)
    requires
        distinct_keys(pairs),
        0 <= i < pairs.len(),
    ensures
        pairs_map(pairs.update(i, (pairs[i].0, value))) == pairs_map(pairs).insert(
            pairs[i].0,
            value,
        ),
    decreases pairs.len(),
{
    let key = pairs[i].0;
    let after = pairs.update(i, (key, value));
    let front = pairs.drop_last();
    if i == pairs.len() - 1 {
        assert(after.drop_last() == front);
        assert(pairs_map(after) == pairs_map(pairs).insert(key, value));
    } else {
        assert(front[i] == pairs[i]);
        lemma_pairs_map_update(front, i, value);
        assert(after.drop_last() == front.update(i, (key, value)));
        assert(after.last() == pairs.last());
        assert(pairs.last().0 != key);
        assert(pairs_map(after) == pairs_map(pairs).insert(key, value));
    }
}

/// Byte strings under string keys, each key at most once.
#[derive(Debug)]
pub struct Metadata {
    entries: Vec<(String, Vec<u8>)>,
}

impl View for Metadata {
    type V = Map<Seq<char>, Seq<u8>>;

    open spec fn view(&self) -> Map<Seq<char>, Seq<u8>> {
        pairs_map(self.pairs())
    }
}

impl Default for Metadata {
    /// The empty metadata.
    fn default() -> (m: Metadata)
        ensures
            m@ == Map::<Seq<char>, Seq<u8>>::empty(),
    {
        Metadata::new()
    }
}

impl Metadata {
    /// The entries in the order in which their keys were first inserted.
    pub closed spec fn pairs(&self) -> Seq<(Seq<char>, Seq<u8>)> {
        self.entries@.map_values(|e: (String, Vec<u8>)| (e.0@, e.1@))
    }

    #[verifier::type_invariant]
    spec fn well_formed(&self) -> bool {
        distinct_keys(self.pairs())
    }

    /// The empty metadata.
    pub fn new() -> (m: Metadata)
        ensures
            m@ == Map::<Seq<char>, Seq<u8>>::empty(),
            m.pairs().len() == 0,
    {
        Metadata { entries: Vec::new() }
    }

    /// The metadata that a list of pairs stands for: a later pair replaces an
    /// earlier one with the same key.
    pub fn from_pairs(pairs: &Vec<(String, Vec<u8>)>) -> (m: Metadata)
        ensures
            m@ == pairs_map(pairs@.map_values(|e: (String, Vec<u8>)| (e.0@, e.1@))),
    {
        let ghost all = pairs@.map_values(|e: (String, Vec<u8>)| (e.0@, e.1@));
        let mut m = Metadata::new();
        let mut i: usize = 0;
        while i < pairs.len()
            invariant
                i <= pairs.len(),
                all == pairs@.map_values(|e: (String, Vec<u8>)| (e.0@, e.1@)),
                m@ == pairs_map(all.take(i as int)),
            decreases pairs.len() - i,
        {
            let key = pairs[i].0.clone();
            let value = pairs[i].1.clone();
            m.insert(key, value);
            proof {
                let next = all.take(i + 1);
                assert(next.drop_last() == all.take(i as int));
                assert(next.last() == all[i as int]);
            }
            i += 1;
        }
        assert(all.take(pairs.len() as int) == all);
        m
    }

    /// The number of keys.
    pub fn len(&self) -> (n: usize)
        ensures
            n == self.pairs().len(),
            n == self@.dom().len(),
            self@.dom().finite(),
            distinct_keys(self.pairs()),
    {
        proof {
            use_type_invariant(self);
            lemma_pairs_map_len(self.pairs());
        }
        self.entries.len()
    }

    /// Whether there is no key.
    pub fn is_empty(&self) -> (b: bool)
        ensures
            b == (self@ == Map::<Seq<char>, Seq<u8>>::empty()),
            b == (self.pairs().len() == 0),
    {
        proof {
            lemma_pairs_map_keys(self.pairs());
            if self.pairs().len() > 0 {
                assert(self@.contains_key(self.pairs()[0].0));
            }
        }
        self.entries.len() == 0
    }

    /// The entry at a position, where the position is below [`Metadata::len`].
    pub fn entry(&self, i: usize) -> (r: Option<(&String, &Vec<u8>)>)
        ensures
            r is Some <==> i < self.pairs().len(),
            r matches Some(e) ==> (e.0@, e.1@) == self.pairs()[i as int] && self@.contains_key(e.0@)
                && self@[e.0@] == e.1@,
    {
        if i < self.entries.len() {
            proof {
                use_type_invariant(self);
                lemma_pairs_map_value(self.pairs(), i as int);
            }
            let e = &self.entries[i];
            Some((&e.0, &e.1))
        } else {
            None
        }
    }

    /// The position of a key among the entries, where it is one.
    fn position(&self, key: &String) -> (r: Option<usize>)
        ensures
            match r {
                Some(i) => i < self.pairs().len() && self.pairs()[i as int].0 == key@,
                None => forall|i: int| 0 <= i < self.pairs().len() ==> self.pairs()[i].0 != key@,
            },
    {
        let mut i: usize = 0;
        while i < self.entries.len()
            invariant
                i <= self.entries.len(),
                forall|j: int| 0 <= j < i ==> self.pairs()[j].0 != key@,
            decreases self.entries.len() - i,
        {
            if self.entries[i].0 == *key {
                return Some(i);
            }
            i += 1;
        }
        None
    }

    /// The value under a key, where it has one.
    pub fn get(&self, key: &str) -> (r: Option<&Vec<u8>>)
        ensures
            match r {
                Some(value) => self@.contains_key(key@) && self@[key@] == value@,
                None => !self@.contains_key(key@),
            },
    {
        let owned = key.to_owned();
        proof {
            use_type_invariant(self);
            lemma_pairs_map_keys(self.pairs());
        }
        match self.position(&owned) {
            Some(i) => {
                proof {
                    lemma_pairs_map_value(self.pairs(), i as int);
                }
                Some(&self.entries[i].1)
            },
            None => None,
        }
    }

    /// Whether the key has a value.
    pub fn contains_key(&self, key: &str) -> (b: bool)
        ensures
            b == self@.contains_key(key@),
    {
        self.get(key).is_some()
    }

    /// Puts a value under a key, in place of the one it had, if any.
    pub fn insert(&mut self, key: String, value: Vec<u8>)
        ensures
            final(self)@ == old(self)@.insert(key@, value@),
    {
        proof {
            use_type_invariant(&*self);
            lemma_pairs_map_keys(self.pairs());
        }
        let ghost before = self.pairs();
        let ghost k = key@;
        let ghost v = value@;
        let found = self.position(&key);
        let mut entries: Vec<(String, Vec<u8>)> = Vec::new();
        std::mem::swap(&mut self.entries, &mut entries);
        assert(entries@.map_values(|e: (String, Vec<u8>)| (e.0@, e.1@)) == before);
        match found {
            Some(i) => {
                proof {
                    lemma_pairs_map_update(before, i as int, v);
                }
                entries.set(i, (key, value));
                assert(entries@.map_values(|e: (String, Vec<u8>)| (e.0@, e.1@)) == before.update(
                    i as int,
                    (k, v),
                ));
            },
            None => {
                entries.push((key, value));
                assert(entries@.map_values(|e: (String, Vec<u8>)| (e.0@, e.1@)) == before.push(
                    (k, v),
                ));
                assert(before.push((k, v)).drop_last() == before);
            },
        }
        self.entries = entries;
    }
}

} // verus!
