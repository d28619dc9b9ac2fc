use vstd::prelude::*;
use crate::text::same_text;

verus! {

/// A finite mapping from strings to strings, kept as a list of entries
/// in which no key occurs twice.
#[derive(Debug)]
pub struct StringMap {
    entries: Vec<(String, String)>,
}

/// The keys of a list of entries, in order.
pub open spec fn keys_of(entries: Seq<(String, String)>) -> Seq<Seq<char>> {
    entries.map_values(|e: (String, String)| e.0@)
}

/// The mapping that a list of pairs describes when the pairs are entered one
/// after the other, a later pair replacing an earlier one with the same key.
pub open spec fn pairs_map(pairs: Seq<(Seq<char>, Seq<char>)>) -> Map<Seq<char>, Seq<char>>
    decreases pairs.len(),
{
    if pairs.len() == 0 {
        Map::empty()
    } else {
        pairs_map(pairs.drop_last()).insert(pairs.last().0, pairs.last().1)
    }
}

/// The pairs of strings in `entries`, each string taken by its characters.
pub open spec fn pairs_of(entries: Seq<(String, String)>) -> Seq<(Seq<char>, Seq<char>)> {
    entries.map_values(|e: (String, String)| (e.0@, e.1@))
}

impl View for StringMap {
    type V = Map<Seq<char>, Seq<char>>;

    closed spec fn view(&self) -> Map<Seq<char>, Seq<char>> {
        Map::new(
            |k: Seq<char>| keys_of(self.entries@).contains(k),
            |k: Seq<char>| self.entries@[keys_of(self.entries@).index_of(k)].1@,
        )
    }
}

impl StringMap {
    #[verifier::type_invariant]
    spec fn keys_distinct(self) -> bool {
        keys_of(self.entries@).no_duplicates()
    }

    proof fn lemma_entry(&self, i: int)
        requires
            self.keys_distinct(),
            0 <= i < self.entries@.len(),
        ensures
            self@.dom().contains(self.entries@[i].0@),
            self@[self.entries@[i].0@] == self.entries@[i].1@,
    {
        let keys = keys_of(self.entries@);
        assert(keys[i] == self.entries@[i].0@);
        assert(keys.contains(keys[i]));
        let j = keys.index_of(keys[i]);
        assert(keys[j] == keys[i]);
    }

    proof fn lemma_count(&self)
        requires
            self.keys_distinct(),
        ensures
            self@.dom().finite(),
            self@.dom().len() == self.entries@.len(),
    {
        let keys = keys_of(self.entries@);
        keys.unique_seq_to_set();
        assert(self@.dom() =~= keys.to_set());
    }

    /// A mapping without entries.
    pub fn new() -> (map: StringMap)
        ensures
            map@ == Map::<Seq<char>, Seq<char>>::empty(),
    {
        let map = StringMap { entries: Vec::new() };
        assert(map@ =~= Map::<Seq<char>, Seq<char>>::empty());
        map
    }

    fn position(&self, key: &str) -> (at: Option<usize>)
        ensures
            match at {
                Some(i) => i < self.entries@.len() && self.entries@[i as int].0@ == key@,
                None => !keys_of(self.entries@).contains(key@),
            },
    {
        let mut i: usize = 0;
        while i < self.entries.len()
            invariant
                i <= self.entries@.len(),
                forall|j: int| 0 <= j < i ==> self.entries@[j].0@ != key@,
            decreases self.entries@.len() - i,
        {
            if same_text(self.entries[i].0.as_str(), key) {
                return Some(i);
            }
            i = i + 1;
        }
        None
    }

    /// The value entered under `key`, if there is one.
    pub fn get(&self, key: &str) -> (value: Option<&String>)
        ensures
            match value {
                Some(v) => self@.dom().contains(key@) && self@[key@] == v@,
                None => !self@.dom().contains(key@),
            },
    {
        proof {
            use_type_invariant(self);
        }
        match self.position(key) {
            Some(i) => {
                proof {
                    self.lemma_entry(i as int);
                }
                Some(&self.entries[i].1)
            },
            None => None,
        }
    }

    /// Whether a value is entered under `key`.
    pub fn contains_key(&self, key: &str) -> (found: bool)
        ensures
            found == self@.dom().contains(key@),
    {
        proof {
            use_type_invariant(self);
        }
        match self.position(key) {
            Some(i) => {
                proof {
                    self.lemma_entry(i as int);
                }
                true
            },
            None => false,
        }
    }

    /// How many keys have a value.
    pub fn len(&self) -> (n: usize)
        ensures
            self@.dom().finite(),
            n == self@.dom().len(),
    {
        proof {
            use_type_invariant(self);
            self.lemma_count();
        }
        self.entries.len()
    }

    /// Enters `value` under `key` and hands back the value that was there before.
    pub fn insert(&mut self, key: String, value: String) -> (previous: Option<String>)
        ensures
            final(self)@ == old(self)@.insert(key@, value@),
            match previous {
                Some(v) => old(self)@.dom().contains(key@) && old(self)@[key@] == v@,
                None => !old(self)@.dom().contains(key@),
            },
    {
        proof {
            use_type_invariant(&*self);
        }
        let ghost before = *self;
        let found = self.position(key.as_str());
        let mut entries: Vec<(String, String)> = Vec::new();
        core::mem::swap(&mut self.entries, &mut entries);
        let previous = match found {
            Some(i) => {
                proof {
                    before.lemma_entry(i as int);
                }
                let kept = entries[i].1.clone();
                entries.set(i, (key, value));
                assert(keys_of(entries@) =~= keys_of(before.entries@));
                Some(kept)
            },
            None => {
                entries.push((key, value));
                assert(keys_of(entries@) =~= keys_of(before.entries@).push(key@));
                None
            },
        };
        self.entries = entries;
        assert(self@ =~= before@.insert(key@, value@)) by {
            let keys = keys_of(self.entries@);
            let old_keys = keys_of(before.entries@);
            let n = before.entries@.len() as int;
            assert forall|k: Seq<char>|
                before@.insert(key@, value@).dom().contains(k) implies self@.dom().contains(
                k,
            ) by {
                if k != key@ {
                    let j = old_keys.index_of(k);
                    assert(keys[j] == k);
                } else if found is None {
                    assert(keys[n] == key@);
                } else {
                    assert(keys[found->0 as int] == key@);
                }
            }
            assert forall|k: Seq<char>| self@.dom().contains(k) implies #[trigger] self@[k]
                == before@.insert(key@, value@)[k] by {
                let j = keys.index_of(k);
                assert(keys[j] == k);
                if k == key@ {
                    if found is Some {
                        assert(keys[found->0 as int] == key@);
                    } else {
                        assert(keys[n] == key@);
                    }
                } else {
                    let j0 = old_keys.index_of(k);
                    assert(old_keys[j] == k);
                    assert(old_keys.contains(k));
                    assert(old_keys[j0] == k);
                    assert(j0 == j);
                    assert(self.entries@[j] == before.entries@[j]);
                }
            }
        }
        previous
    }

    /// The mapping that results when the pairs of `entries` are entered in order.
    pub fn from_entries(entries: Vec<(String, String)>) -> (map: StringMap)
        ensures
            map@ == pairs_map(pairs_of(entries@)),
    {
        let mut map = StringMap::new();
        let mut i: usize = 0;
        while i < entries.len()
            invariant
                i <= entries@.len(),
                map@ == pairs_map(pairs_of(entries@).take(i as int)),
            decreases entries@.len() - i,
        {
            proof {
                let next = pairs_of(entries@).take(i + 1);
                assert(next.drop_last() =~= pairs_of(entries@).take(i as int));
            }
            let key = entries[i].0.clone();
            let value = entries[i].1.clone();
            map.insert(key, value);
            i = i + 1;
        }
        assert(pairs_of(entries@).take(entries@.len() as int) =~= pairs_of(entries@));
        map
    }
}

} // verus!
