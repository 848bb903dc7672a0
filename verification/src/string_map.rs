//! A mapping from text to text, and how a list of pairs becomes one.
//!
//! Custom data and request headers are both given as ordered lists of pairs in
//! which a key may repeat. As a mapping, a repeated key keeps the value of its
//! last occurrence.

use crate::args::pairs_view;
use vstd::prelude::*;

verus! {

/// The mapping obtained by inserting `pairs` one after another, so that a
/// later pair overwrites an earlier one with the same key.
pub open spec fn pairs_to_map(pairs: Seq<(Seq<char>, Seq<char>)>) -> Map<Seq<char>, Seq<char>>
    decreases pairs.len(),
{
    if pairs.len() == 0 {
        Map::empty()
    } else {
        pairs_to_map(pairs.drop_last()).insert(pairs.last().0, pairs.last().1)
    }
}

/// No key occurs twice in `pairs`.
pub open spec fn keys_distinct(pairs: Seq<(Seq<char>, Seq<char>)>) -> bool {
    forall|i: int, j: int|
        0 <= i < j < pairs.len() ==> (#[trigger] pairs[i]).0 != (#[trigger] pairs[j]).0
}

/// A mapping from text keys to text values.
#[derive(Debug)]
pub struct StringMap {
    entries: Vec<(String, String)>,
}

impl View for StringMap {
    type V = Map<Seq<char>, Seq<char>>;

    closed spec fn view(&self) -> Map<Seq<char>, Seq<char>> {
        pairs_to_map(pairs_view(self.entries@))
    }
}

impl StringMap {
    #[verifier::type_invariant]
    spec fn well_formed(self) -> bool {
        keys_distinct(pairs_view(self.entries@))
    }

    /// The empty mapping.
    pub fn new() -> (r: StringMap)
        ensures
            r@ == Map::<Seq<char>, Seq<char>>::empty(),
    {
        StringMap { entries: Vec::new() }
    }

    fn position(&self, key: &String) -> (r: Option<usize>)
        ensures
            match r {
                Some(i) => i < self.entries.len() && self.entries[i as int].0@ == key@,
                None => forall|j: int| 0 <= j < self.entries.len() ==> self.entries[j].0@ != key@,
            },
    {
        let mut i: usize = 0;
        while i < self.entries.len()
            invariant
                i <= self.entries.len(),
                forall|j: int| 0 <= j < i ==> self.entries[j].0@ != key@,
            decreases self.entries.len() - i,
        {
            if self.entries[i].0 == *key {
                return Some(i);
            }
            i = i + 1;
        }
        None
    }

    /// The number of keys.
    pub fn len(&self) -> (r: usize)
        ensures
            self@.dom().finite(),
            r == self@.dom().len(),
    {
        proof {
            use_type_invariant(self);
            lemma_distinct_keys_count(pairs_view(self.entries@));
        }
        self.entries.len()
    }

    /// The value held for `key`, if any.
    pub fn get(&self, key: &str) -> (r: Option<&String>)
        ensures
            match r {
                Some(value) => self@.dom().contains(key@) && self@[key@] == value@,
                None => !self@.dom().contains(key@),
            },
    {
        let owned = key.to_owned();
        let found = self.position(&owned);
        proof {
            use_type_invariant(self);
            lemma_pairs_to_map_domain(pairs_view(self.entries@), key@);
        }
        match found {
            Some(i) => {
                proof {
                    lemma_lookup_distinct(pairs_view(self.entries@), i as int);
                }
                Some(&self.entries[i].1)
            },
            None => {
                proof {
                    if self@.dom().contains(key@) {
                        let pairs = pairs_view(self.entries@);
                        let k = choose|k: int| 0 <= k < pairs.len() && (#[trigger] pairs[k]).0 == key@;
                        assert(self.entries[k].0@ == key@);
                    }
                }
                None
            },
        }
    }

    /// Whether a value is held for `key`.
    pub fn contains_key(&self, key: &str) -> (r: bool)
        ensures
            r == self@.dom().contains(key@),
    {
        self.get(key).is_some()
    }

    /// Sets the value for `key`, replacing the one held before if there was
    /// one. All other keys keep their values.
    pub fn insert(&mut self, key: String, value: String)
        ensures
            final(self)@ == old(self)@.insert(key@, value@),
    {
        proof {
            use_type_invariant(&*self);
        }
        let ghost before = pairs_view(self.entries@);
        let found = self.position(&key);
        let mut entries: Vec<(String, String)> = Vec::new();
        core::mem::swap(&mut self.entries, &mut entries);
        match found {
            Some(i) => {
                proof {
                    lemma_update_in_place(before, i as int, value@);
                    assert(pairs_view(entries@.update(i as int, (key, value))) =~= before.update(
                        i as int,
                        (before[i as int].0, value@),
                    ));
                }
                entries.set(i, (key, value));
            },
            None => {
                proof {
                    let after = pairs_view(entries@.push((key, value)));
                    assert(after =~= before.push((key@, value@)));
                    assert(after.drop_last() =~= before);
                    assert(keys_distinct(after)) by {
                        assert forall|a: int, b: int| 0 <= a < b < after.len() implies (
                        #[trigger] after[a]).0 != (#[trigger] after[b]).0 by {
                            if b < before.len() {
                                assert(before[a].0 != before[b].0);
                            } else {
                                assert(entries[a].0@ != key@);
                            }
                        }
                    }
                }
                entries.push((key, value));
            },
        }
        self.entries = entries;
    }

    /// The mapping that `pairs` describes: every key that occurs, with the
    /// value of its last occurrence.
    pub fn from_pairs(pairs: &Vec<(String, String)>) -> (r: StringMap)
        ensures
            r@ == pairs_to_map(pairs_view(pairs@)),
    {
        let mut map = StringMap::new();
        let mut i: usize = 0;
        while i < pairs.len()
            invariant
                i <= pairs.len(),
                map@ == pairs_to_map(pairs_view(pairs@.subrange(0, i as int))),
            decreases pairs.len() - i,
        {
            proof {
                let next = pairs_view(pairs@.subrange(0, i + 1));
                assert(next.drop_last() =~= pairs_view(pairs@.subrange(0, i as int)));
                assert(next.last() == (pairs[i as int].0@, pairs[i as int].1@));
            }
            map.insert(pairs[i].0.clone(), pairs[i].1.clone());
            i = i + 1;
        }
        proof {
            assert(pairs@.subrange(0, i as int) =~= pairs@);
        }
        map
    }

    /// The pairs of the mapping, each key once. Read as a list of pairs they
    /// describe this mapping again.
    pub fn to_pairs(&self) -> (r: Vec<(String, String)>)
        ensures
            keys_distinct(pairs_view(r@)),
            pairs_to_map(pairs_view(r@)) == self@,
    {
        proof {
            use_type_invariant(self);
        }
        copy_pairs(&self.entries)
    }

    /// This mapping with every pair of `overrides` set on top of it: a key
    /// held by both takes its value from `overrides`.
    pub fn merged(&self, overrides: &StringMap) -> (r: StringMap)
        ensures
            r@ == self@.union_prefer_right(overrides@),
    {
        let mut map = self.clone();
        let mut i: usize = 0;
        while i < overrides.entries.len()
            invariant
                i <= overrides.entries.len(),
                map@ == self@.union_prefer_right(
                    pairs_to_map(pairs_view(overrides.entries@.subrange(0, i as int))),
                ),
            decreases overrides.entries.len() - i,
        {
            proof {
                let done = pairs_view(overrides.entries@.subrange(0, i as int));
                let next = pairs_view(overrides.entries@.subrange(0, i + 1));
                let pair = overrides.entries[i as int];
                assert(next.drop_last() =~= done);
                assert(next.last() == (pair.0@, pair.1@));
                assert(self@.union_prefer_right(pairs_to_map(done)).insert(pair.0@, pair.1@)
                    =~= self@.union_prefer_right(pairs_to_map(next)));
            }
            map.insert(overrides.entries[i].0.clone(), overrides.entries[i].1.clone());
            i = i + 1;
        }
        proof {
            assert(overrides.entries@.subrange(0, i as int) =~= overrides.entries@);
        }
        map
    }
}

impl Clone for StringMap {
    fn clone(&self) -> (r: Self)
        ensures
            r@ == self@,
    {
        proof {
            use_type_invariant(self);
        }
        StringMap { entries: copy_pairs(&self.entries) }
    }
}

fn copy_pairs(pairs: &Vec<(String, String)>) -> (r: Vec<(String, String)>)
    ensures
        pairs_view(r@) == pairs_view(pairs@),
{
    let mut out: Vec<(String, String)> = Vec::new();
    let mut i: usize = 0;
    while i < pairs.len()
        invariant
            i <= pairs.len(),
            out.len() == i,
            forall|j: int| 0 <= j < i ==> out[j].0@ == pairs[j].0@ && out[j].1@ == pairs[j].1@,
        decreases pairs.len() - i,
    {
        out.push((pairs[i].0.clone(), pairs[i].1.clone()));
        i = i + 1;
    }
    proof {
        assert(pairs_view(out@) =~= pairs_view(pairs@));
    }
    out
}

/// Last write wins: a pair whose key does not occur again later in the list
/// gives the value that the mapping holds for that key.
pub proof fn lemma_last_write_wins(pairs: Seq<(Seq<char>, Seq<char>)>, i: int)
    requires
        0 <= i < pairs.len(),
        forall|j: int| i < j < pairs.len() ==> (#[trigger] pairs[j]).0 != pairs[i].0,
    ensures
        pairs_to_map(pairs).dom().contains(pairs[i].0),
        pairs_to_map(pairs)[pairs[i].0] == pairs[i].1,
    decreases pairs.len(),
{
    if i < pairs.len() - 1 {
        let front = pairs.drop_last();
        assert(pairs[pairs.len() - 1].0 != pairs[i].0);
        assert forall|j: int| i < j < front.len() implies (#[trigger] front[j]).0 != front[i].0 by {
            assert(pairs[j].0 != pairs[i].0);
        }
        lemma_last_write_wins(front, i);
    }
}

/// The keys of the mapping are exactly the keys that occur in the list.
pub proof fn lemma_pairs_to_map_domain(pairs: Seq<(Seq<char>, Seq<char>)>, key: Seq<char>)
    ensures
        pairs_to_map(pairs).dom().contains(key) <==> exists|i: int|
            0 <= i < pairs.len() && (#[trigger] pairs[i]).0 == key,
    decreases pairs.len(),
{
    if pairs.len() > 0 {
        let front = pairs.drop_last();
        lemma_pairs_to_map_domain(front, key);
        if pairs_to_map(pairs).dom().contains(key) {
            if pairs.last().0 == key {
                assert(pairs[pairs.len() - 1].0 == key);
            } else {
                let i = choose|i: int| 0 <= i < front.len() && (#[trigger] front[i]).0 == key;
                assert(pairs[i].0 == key);
            }
        }
        if exists|i: int| 0 <= i < pairs.len() && (#[trigger] pairs[i]).0 == key {
            let i = choose|i: int| 0 <= i < pairs.len() && (#[trigger] pairs[i]).0 == key;
            if i < pairs.len() - 1 {
                assert(front[i].0 == key);
            }
        }
    }
}

/// A list without repeated keys has as many pairs as its mapping has keys.
proof fn lemma_distinct_keys_count(pairs: Seq<(Seq<char>, Seq<char>)>)
    requires
        keys_distinct(pairs),
    ensures
        pairs_to_map(pairs).dom().finite(),
        pairs_to_map(pairs).dom().len() == pairs.len(),
    decreases pairs.len(),
{
    if pairs.len() > 0 {
        let front = pairs.drop_last();
        assert(keys_distinct(front)) by {
            assert forall|i: int, j: int| 0 <= i < j < front.len() implies (#[trigger] front[i]).0
                != (#[trigger] front[j]).0 by {
                assert(pairs[i].0 != pairs[j].0);
            }
        }
        lemma_distinct_keys_count(front);
        lemma_pairs_to_map_domain(front, pairs.last().0);
        if pairs_to_map(front).dom().contains(pairs.last().0) {
            let i = choose|i: int| 0 <= i < front.len() && (#[trigger] front[i]).0 == pairs.last().0;
            assert(pairs[i].0 != pairs[pairs.len() - 1].0);
        }
    }
}

/// In a list without repeated keys every pair gives the value of its key.
pub proof fn lemma_lookup_distinct(pairs: Seq<(Seq<char>, Seq<char>)>, i: int)
    requires
        keys_distinct(pairs),
        0 <= i < pairs.len(),
    ensures
        pairs_to_map(pairs).dom().contains(pairs[i].0),
        pairs_to_map(pairs)[pairs[i].0] == pairs[i].1,
{
    assert forall|j: int| i < j < pairs.len() implies (#[trigger] pairs[j]).0 != pairs[i].0 by {}
    lemma_last_write_wins(pairs, i);
}

/// Replacing the value of an existing key in a list without repeated keys
/// changes the mapping at that key only.
proof fn lemma_update_in_place(
    pairs: Seq<(Seq<char>, Seq<char>)>,
    i: int,
    value: Seq<char>,
)
    requires
        keys_distinct(pairs),
        0 <= i < pairs.len(),
    ensures
        keys_distinct(pairs.update(i, (pairs[i].0, value))),
        pairs_to_map(pairs.update(i, (pairs[i].0, value))) == pairs_to_map(pairs).insert(
            pairs[i].0,
            value,
        ),
{
    let updated = pairs.update(i, (pairs[i].0, value));
    assert(keys_distinct(updated)) by {
        assert forall|a: int, b: int| 0 <= a < b < updated.len() implies (#[trigger] updated[a]).0
            != (#[trigger] updated[b]).0 by {
            assert(pairs[a].0 != pairs[b].0);
        }
    }
    let left = pairs_to_map(updated);
    let right = pairs_to_map(pairs).insert(pairs[i].0, value);
    assert forall|key: Seq<char>| left.dom().contains(key) <==> right.dom().contains(key) by {
        lemma_pairs_to_map_domain(updated, key);
        lemma_pairs_to_map_domain(pairs, key);
        if exists|k: int| 0 <= k < updated.len() && (#[trigger] updated[k]).0 == key {
            let k = choose|k: int| 0 <= k < updated.len() && (#[trigger] updated[k]).0 == key;
            assert(pairs[k].0 == key);
        }
        if exists|k: int| 0 <= k < pairs.len() && (#[trigger] pairs[k]).0 == key {
            let k = choose|k: int| 0 <= k < pairs.len() && (#[trigger] pairs[k]).0 == key;
            assert(updated[k].0 == key);
        }
        if key == pairs[i].0 {
            assert(updated[i].0 == key);
        }
    }
    assert forall|key: Seq<char>| left.dom().contains(key) implies left[key] == right[key] by {
        lemma_pairs_to_map_domain(updated, key);
        let k = choose|k: int| 0 <= k < updated.len() && (#[trigger] updated[k]).0 == key;
        lemma_lookup_distinct(updated, k);
        lemma_lookup_distinct(pairs, k);
    }
    assert(left =~= right);
}

} // verus!
