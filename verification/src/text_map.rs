//! A small map keyed by text.

use vstd::prelude::*;
use crate::text::str_equal;

verus! {

/// The map that a list of pairs stands for: a later pair replaces an earlier
/// one with the same key.
pub open spec fn pairs_map<V>(pairs: Seq<(String, V)>) -> Map<Seq<char>, V>
    decreases pairs.len(),
{
    if pairs.len() == 0 {
        Map::empty()
    } else {
        pairs_map(pairs.drop_last()).insert(pairs.last().0@, pairs.last().1)
    }
}

/// No key occurs twice in `pairs`.
pub open spec fn keys_distinct<V>(pairs: Seq<(String, V)>) -> bool {
    forall|i: int, j: int|
        0 <= i < pairs.len() && 0 <= j < pairs.len() && i != j ==> (#[trigger] pairs[i]).0@ != (
        #[trigger] pairs[j]).0@
}

proof fn lemma_pairs_map_absent<V>(pairs: Seq<(String, V)>, key: Seq<char>)
    requires
        forall|i: int| 0 <= i < pairs.len() ==> (#[trigger] pairs[i]).0@ != key,
    ensures
        !pairs_map(pairs).dom().contains(key),
    decreases pairs.len(),
{
    if pairs.len() > 0 {
        let front = pairs.drop_last();
        assert forall|i: int| 0 <= i < front.len() implies (#[trigger] front[i]).0@ != key by {
            assert(front[i] == pairs[i]);
        }
        lemma_pairs_map_absent(front, key);
        assert(pairs.last() == pairs[pairs.len() - 1]);
    }
}

proof fn lemma_pairs_map_present<V>(pairs: Seq<(String, V)>, at: int)
    requires
        keys_distinct(pairs),
        0 <= at < pairs.len(),
    ensures
        pairs_map(pairs).dom().contains(pairs[at].0@),
        pairs_map(pairs)[pairs[at].0@] == pairs[at].1,
    decreases pairs.len(),
{
    let front = pairs.drop_last();
    if at < pairs.len() - 1 {
        assert forall|i: int, j: int|
            0 <= i < front.len() && 0 <= j < front.len() && i != j implies (#[trigger] front[i]).0@
            != (#[trigger] front[j]).0@ by {
            assert(front[i] == pairs[i]);
            assert(front[j] == pairs[j]);
        }
        assert(front[at] == pairs[at]);
        lemma_pairs_map_present(front, at);
        assert(pairs.last() == pairs[pairs.len() - 1]);
        assert(pairs[pairs.len() - 1].0@ != pairs[at].0@);
    } else {
        assert(pairs.last() == pairs[at]);
    }
}

proof fn lemma_pairs_map_update<V>(pairs: Seq<(String, V)>, at: int, pair: (String, V))
    requires
        keys_distinct(pairs),
        0 <= at < pairs.len(),
        pair.0@ == pairs[at].0@,
    ensures
        pairs_map(pairs.update(at, pair)) == pairs_map(pairs).insert(pair.0@, pair.1),
        keys_distinct(pairs.update(at, pair)),
    decreases pairs.len(),
{
    let changed = pairs.update(at, pair);
    let front = pairs.drop_last();
    assert forall|i: int, j: int|
        0 <= i < changed.len() && 0 <= j < changed.len() && i != j implies (
    #[trigger] changed[i]).0@ != (#[trigger] changed[j]).0@ by {
        assert(changed[i].0@ == pairs[i].0@);
        assert(changed[j].0@ == pairs[j].0@);
    }
    if at < pairs.len() - 1 {
        assert forall|i: int, j: int|
            0 <= i < front.len() && 0 <= j < front.len() && i != j implies (#[trigger] front[i]).0@
            != (#[trigger] front[j]).0@ by {
            assert(front[i] == pairs[i]);
            assert(front[j] == pairs[j]);
        }
        assert(front[at] == pairs[at]);
        lemma_pairs_map_update(front, at, pair);
        assert(changed.drop_last() =~= front.update(at, pair));
        assert(changed.last() == pairs.last());
        assert(pairs.last() == pairs[pairs.len() - 1]);
        assert(pairs[pairs.len() - 1].0@ != pairs[at].0@);
        assert(pairs_map(changed) =~= pairs_map(pairs).insert(pair.0@, pair.1));
    } else {
        assert(changed.drop_last() =~= front);
        assert(changed.last() == pair);
        assert(pairs.last() == pairs[at]);
        assert(pairs_map(changed) =~= pairs_map(pairs).insert(pair.0@, pair.1));
    }
}

proof fn lemma_pairs_map_size<V>(pairs: Seq<(String, V)>)
    requires
        keys_distinct(pairs),
    ensures
        pairs_map(pairs).dom().finite(),
        pairs_map(pairs).dom().len() == pairs.len(),
    decreases pairs.len(),
{
    if pairs.len() > 0 {
        let front = pairs.drop_last();
        assert forall|i: int, j: int|
            0 <= i < front.len() && 0 <= j < front.len() && i != j implies (#[trigger] front[i]).0@
            != (#[trigger] front[j]).0@ by {
            assert(front[i] == pairs[i]);
            assert(front[j] == pairs[j]);
        }
        lemma_pairs_map_size(front);
        assert forall|i: int| 0 <= i < front.len() implies (#[trigger] front[i]).0@
            != pairs.last().0@ by {
            assert(front[i] == pairs[i]);
            assert(pairs.last() == pairs[pairs.len() - 1]);
        }
        lemma_pairs_map_absent(front, pairs.last().0@);
        assert(pairs_map(pairs).dom() =~= pairs_map(front).dom().insert(pairs.last().0@));
    } else {
        assert(pairs_map(pairs).dom() =~= Set::<Seq<char>>::empty());
    }
}

/// A map from text to values in which every key occurs once. The order of
/// insertion carries no meaning.
#[derive(Debug)]
pub struct TextMap<V> {
    pairs: Vec<(String, V)>,
}

impl<V> View for TextMap<V> {
    type V = Map<Seq<char>, V>;

    closed spec fn view(&self) -> Map<Seq<char>, V> {
        pairs_map(self.pairs@)
    }
}

impl<V> TextMap<V> {
    #[verifier::type_invariant]
    spec fn distinct(self) -> bool {
        keys_distinct(self.pairs@)
    }

    /// The empty map.
    pub fn new() -> (map: TextMap<V>)
        ensures
            map@ == Map::<Seq<char>, V>::empty(),
    {
        TextMap { pairs: Vec::new() }
    }

    /// The number of entries.
    pub fn len(&self) -> (n: usize)
        ensures
            self@.dom().finite(),
            n == self@.dom().len(),
    {
        proof {
            use_type_invariant(self);
            lemma_pairs_map_size(self.pairs@);
        }
        self.pairs.len()
    }

    /// The position of `key` among the pairs.
    fn position(&self, key: &str) -> (at: Option<usize>)
        ensures
            match at {
                Some(i) => i < self.pairs@.len() && self.pairs@[i as int].0@ == key@,
                None => forall|i: int|
                    0 <= i < self.pairs@.len() ==> (#[trigger] self.pairs@[i]).0@ != key@,
            },
    {
        let mut i: usize = 0;
        while i < self.pairs.len()
            invariant
                0 <= i <= self.pairs@.len(),
                forall|k: int| 0 <= k < i ==> (#[trigger] self.pairs@[k]).0@ != key@,
            decreases self.pairs@.len() - i,
        {
            if str_equal(self.pairs[i].0.as_str(), key) {
                return Some(i);
            }
            i = i + 1;
        }
        None
    }

    /// The value stored under `key`.
    pub fn get(&self, key: &str) -> (value: Option<&V>)
        ensures
            match value {
                Some(v) => self@.dom().contains(key@) && self@[key@] == *v,
                None => !self@.dom().contains(key@),
            },
    {
        proof {
            use_type_invariant(self);
        }
        match self.position(key) {
            Some(i) => {
                proof {
                    lemma_pairs_map_present(self.pairs@, i as int);
                }
                Some(&self.pairs[i].1)
            },
            None => {
                proof {
                    lemma_pairs_map_absent(self.pairs@, key@);
                }
                None
            },
        }
    }

    /// The key of the entry at position `i`, for positions below the number
    /// of entries. Which entry stands where is not fixed.
    pub closed spec fn spec_key(&self, i: int) -> Seq<char> {
        self.pairs@[i].0@
    }

    /// The entry at position `i`: its key and its value. Going through the
    /// positions below [`TextMap::len`] visits every entry once.
    pub fn entry(&self, i: usize) -> (pair: (&str, &V))
        requires
            i < self@.dom().len(),
        ensures
            pair.0@ == self.spec_key(i as int),
            self@.dom().contains(pair.0@),
            self@[pair.0@] == *pair.1,
            forall|j: int| 0 <= j < self@.dom().len() && j != i ==> self.spec_key(j) != pair.0@,
    {
        proof {
            use_type_invariant(self);
            lemma_pairs_map_size(self.pairs@);
            lemma_pairs_map_present(self.pairs@, i as int);
        }
        (self.pairs[i].0.as_str(), &self.pairs[i].1)
    }

    /// Whether something is stored under `key`.
    pub fn contains_key(&self, key: &str) -> (yes: bool)
        ensures
            yes == self@.dom().contains(key@),
    {
        self.get(key).is_some()
    }

    /// Stores `value` under `key`, replacing what was stored there. Every
    /// other key keeps its value.
    pub fn insert(&mut self, key: String, value: V)
        ensures
            final(self)@ == old(self)@.insert(key@, value),
            final(self)@.dom() == old(self)@.dom().insert(key@),
            final(self)@[key@] == value,
            forall|other: Seq<char>|
                other != key@ && old(self)@.dom().contains(other) ==> #[trigger] final(self)@[other]
                    == old(self)@[other],
    {
        proof {
            use_type_invariant(&*self);
        }
        let found = self.position(key.as_str());
        let mut pairs: Vec<(String, V)> = Vec::new();
        core::mem::swap(&mut self.pairs, &mut pairs);
        let ghost before = pairs@;
        match found {
            Some(i) => {
                proof {
                    lemma_pairs_map_update(before, i as int, (key, value));
                }
                pairs.set(i, (key, value));
            },
            None => {
                pairs.push((key, value));
                proof {
                    assert(pairs@.drop_last() =~= before);
                    assert forall|i: int, j: int|
                        0 <= i < pairs@.len() && 0 <= j < pairs@.len() && i != j implies (
                    #[trigger] pairs@[i]).0@ != (#[trigger] pairs@[j]).0@ by {
                        if i < before.len() {
                            assert(pairs@[i] == before[i]);
                        }
                        if j < before.len() {
                            assert(pairs@[j] == before[j]);
                        }
                    }
                }
            },
        }
        core::mem::swap(&mut self.pairs, &mut pairs);
    }
}

proof fn lemma_pairs_map_found<V>(pairs: Seq<(String, V)>, key: Seq<char>) -> (at: int)
    requires
        pairs_map(pairs).dom().contains(key),
    ensures
        0 <= at < pairs.len(),
        pairs[at].0@ == key,
{
    if forall|i: int| 0 <= i < pairs.len() ==> (#[trigger] pairs[i]).0@ != key {
        lemma_pairs_map_absent(pairs, key);
    }
    choose|i: int| 0 <= i < pairs.len() && (#[trigger] pairs[i]).0@ == key
}

impl<V: Clone> Clone for TextMap<V> {
    /// A map with the same keys, each with a clone of its value.
    fn clone(&self) -> (copy: TextMap<V>)
        ensures
            copy@.dom() == self@.dom(),
            forall|key: Seq<char>|
                self@.dom().contains(key) ==> cloned(self@[key], #[trigger] copy@[key]),
    {
        proof {
            use_type_invariant(self);
        }
        let mut pairs: Vec<(String, V)> = Vec::new();
        let mut i: usize = 0;
        while i < self.pairs.len()
            invariant
                0 <= i <= self.pairs@.len(),
                pairs@.len() == i,
                forall|j: int| 0 <= j < i ==> (#[trigger] pairs@[j]).0 == self.pairs@[j].0,
                forall|j: int| 0 <= j < i ==> cloned(self.pairs@[j].1, (#[trigger] pairs@[j]).1),
            decreases self.pairs@.len() - i,
        {
            let key = self.pairs[i].0.clone();
            let value = self.pairs[i].1.clone();
            pairs.push((key, value));
            i = i + 1;
        }
        proof {
            let mine = self.pairs@;
            let theirs = pairs@;
            assert(keys_distinct(theirs)) by {
                assert forall|a: int, b: int|
                    0 <= a < theirs.len() && 0 <= b < theirs.len() && a != b implies (
                #[trigger] theirs[a]).0@ != (#[trigger] theirs[b]).0@ by {
                    assert(theirs[a].0 == mine[a].0);
                    assert(theirs[b].0 == mine[b].0);
                }
            }
            assert forall|key: Seq<char>| pairs_map(mine).dom().contains(key) implies pairs_map(
                theirs,
            ).dom().contains(key) && cloned(pairs_map(mine)[key], pairs_map(theirs)[key]) by {
                let at = lemma_pairs_map_found(mine, key);
                lemma_pairs_map_present(mine, at);
                assert(theirs[at].0 == mine[at].0);
                lemma_pairs_map_present(theirs, at);
            }
            assert forall|key: Seq<char>| pairs_map(theirs).dom().contains(key) implies pairs_map(
                mine,
            ).dom().contains(key) by {
                let at = lemma_pairs_map_found(theirs, key);
                assert(theirs[at].0 == mine[at].0);
                lemma_pairs_map_present(mine, at);
            }
            assert(pairs_map(theirs).dom() =~= pairs_map(mine).dom());
        }
        TextMap { pairs }
    }
}

} // verus!
