//! A finite mapping from text to text, kept as a list of pairs whose keys differ.

use vstd::prelude::*;

verus! {

/// A key with its value, both as sequences of characters.
pub type TextPair = (Seq<char>, Seq<char>);

/// The pairs of `entries`, each string taken as its characters.
pub open spec fn text_pairs(entries: Seq<(String, String)>) -> Seq<TextPair> {
    Seq::new(entries.len(), |i: int| (entries[i].0@, entries[i].1@))
}

/// No key stands at two places of `pairs`.
pub open spec fn distinct_keys(pairs: Seq<TextPair>) -> bool {
    forall|i: int, j: int| 0 <= i < j < pairs.len() ==> pairs[i].0 != pairs[j].0
}

/// Some pair of `pairs` has the key `key`.
pub open spec fn has_key(pairs: Seq<TextPair>, key: Seq<char>) -> bool {
    exists|i: int| 0 <= i < pairs.len() && pairs[i].0 == key
}

/// The mapping that `pairs` denotes. Where a key stands more than once, its
/// last pair counts.
pub open spec fn pairs_to_map(pairs: Seq<TextPair>) -> Map<Seq<char>, Seq<char>>
    decreases pairs.len(),
{
    if pairs.len() == 0 {
        Map::empty()
    } else {
        pairs_to_map(pairs.drop_last()).insert(pairs.last().0, pairs.last().1)
    }
}

/// The keys of the mapping are the keys of the pairs.
pub proof fn lemma_map_keys(pairs: Seq<TextPair>, key: Seq<char>)
    ensures
        pairs_to_map(pairs).contains_key(key) <==> has_key(pairs, key),
    decreases pairs.len(),
{
    if pairs.len() > 0 {
        let front = pairs.drop_last();
        lemma_map_keys(front, key);
        if has_key(pairs, key) {
            let i = choose|i: int| 0 <= i < pairs.len() && pairs[i].0 == key;
            if i < front.len() {
                assert(front[i].0 == key);
            }
        }
        if has_key(front, key) {
            let i = choose|i: int| 0 <= i < front.len() && front[i].0 == key;
            assert(pairs[i].0 == key);
        }
        if pairs.last().0 == key {
            assert(pairs[pairs.len() - 1].0 == key);
        }
    }
}

/// Where the keys differ, each pair is an entry of the mapping.
pub proof fn lemma_map_entry(pairs: Seq<TextPair>, i: int)
    requires
        distinct_keys(pairs),
        0 <= i < pairs.len(),
    ensures
        pairs_to_map(pairs).contains_pair(pairs[i].0, pairs[i].1),
    decreases pairs.len(),
{
    let front = pairs.drop_last();
    if i < pairs.len() - 1 {
        assert(distinct_keys(front)) by {
            assert forall|a: int, b: int| 0 <= a < b < front.len() implies front[a].0
                != front[b].0 by {
                assert(pairs[a].0 != pairs[b].0);
            }
        }
        lemma_map_entry(front, i);
        assert(front[i] == pairs[i]);
        assert(pairs[i].0 != pairs[pairs.len() - 1].0);
    }
}

/// Where the keys differ, the mapping is finite and has one entry for each pair.
pub proof fn lemma_map_len(pairs: Seq<TextPair>)
    requires
        distinct_keys(pairs),
    ensures
        pairs_to_map(pairs).dom().finite(),
        pairs_to_map(pairs).len() == pairs.len(),
    decreases pairs.len(),
{
    if pairs.len() > 0 {
        let front = pairs.drop_last();
        assert(distinct_keys(front)) by {
            assert forall|a: int, b: int| 0 <= a < b < front.len() implies front[a].0
                != front[b].0 by {
                assert(pairs[a].0 != pairs[b].0);
            }
        }
        lemma_map_len(front);
        lemma_map_keys(front, pairs.last().0);
        if has_key(front, pairs.last().0) {
            let i = choose|i: int| 0 <= i < front.len() && front[i].0 == pairs.last().0;
            assert(pairs[i].0 != pairs[pairs.len() - 1].0);
        }
        assert(pairs_to_map(pairs).dom() =~= pairs_to_map(front).dom().insert(pairs.last().0));
    }
}

/// Where the keys differ, a new value at one place is a new value under that
/// place's key.
pub proof fn lemma_map_update(pairs: Seq<TextPair>, i: int, value: Seq<char>)
    requires
        distinct_keys(pairs),
        0 <= i < pairs.len(),
    ensures
        distinct_keys(pairs.update(i, (pairs[i].0, value))),
        pairs_to_map(pairs.update(i, (pairs[i].0, value))) == pairs_to_map(pairs).insert(
            pairs[i].0,
            value,
        ),
    decreases pairs.len(),
{
    let changed = pairs.update(i, (pairs[i].0, value));
    assert(distinct_keys(changed)) by {
        assert forall|a: int, b: int| 0 <= a < b < changed.len() implies changed[a].0
            != changed[b].0 by {
            assert(pairs[a].0 != pairs[b].0);
        }
    }
    let front = pairs.drop_last();
    if i == pairs.len() - 1 {
        assert(changed.drop_last() =~= front);
        assert(pairs_to_map(changed) =~= pairs_to_map(pairs).insert(pairs[i].0, value));
    } else {
        assert(distinct_keys(front)) by {
            assert forall|a: int, b: int| 0 <= a < b < front.len() implies front[a].0
                != front[b].0 by {
                assert(pairs[a].0 != pairs[b].0);
            }
        }
        lemma_map_update(front, i, value);
        assert(changed.drop_last() =~= front.update(i, (front[i].0, value)));
        assert(changed.last() == pairs.last());
        assert(pairs[i].0 != pairs[pairs.len() - 1].0);
        assert(pairs_to_map(changed) =~= pairs_to_map(pairs).insert(pairs[i].0, value));
    }
}

/// A mapping from text to text.
#[derive(Debug)]
pub struct TextMap {
    entries: Vec<(String, String)>,
}

impl View for TextMap {
    type V = Map<Seq<char>, Seq<char>>;

    closed spec fn view(&self) -> Map<Seq<char>, Seq<char>> {
        pairs_to_map(text_pairs(self.entries@))
    }
}

impl TextMap {
    #[verifier::type_invariant]
    spec fn keys_differ(self) -> bool {
        distinct_keys(text_pairs(self.entries@))
    }

    /// The empty mapping.
    pub fn new() -> (map: TextMap)
        ensures
            map@ == Map::<Seq<char>, Seq<char>>::empty(),
    {
        TextMap { entries: Vec::new() }
    }

    /// The place of `key` among the entries, if it has one.
    fn position(&self, key: &String) -> (place: Option<usize>)
        ensures
            match place {
                Some(i) => i < self.entries@.len() && self.entries@[i as int].0@ == key@,
                None => !has_key(text_pairs(self.entries@), key@),
            },
    {
        let mut i: usize = 0;
        while i < self.entries.len()
            invariant
                i <= self.entries@.len(),
                forall|j: int| 0 <= j < i ==> self.entries@[j].0@ != key@,
            decreases self.entries@.len() - i,
        {
            if self.entries[i].0 == *key {
                return Some(i);
            }
            i += 1;
        }
        proof {
            let pairs = text_pairs(self.entries@);
            if has_key(pairs, key@) {
                let j = choose|j: int| 0 <= j < pairs.len() && pairs[j].0 == key@;
                assert(self.entries@[j].0@ != key@);
            }
        }
        None
    }

    /// The value under `key`, if the mapping has that key.
    pub fn get(&self, key: &str) -> (value: Option<&String>)
        ensures
            match value {
                Some(v) => self@.contains_pair(key@, v@),
                None => !self@.contains_key(key@),
            },
    {
        let wanted = String::from_str(key);
        let place = self.position(&wanted);
        proof {
            use_type_invariant(self);
            lemma_map_keys(text_pairs(self.entries@), key@);
        }
        match place {
            Some(i) => {
                proof {
                    lemma_map_entry(text_pairs(self.entries@), i as int);
                }
                Some(&self.entries[i].1)
            },
            None => None,
        }
    }

    /// Whether the mapping has `key`.
    pub fn contains_key(&self, key: &str) -> (found: bool)
        ensures
            found == self@.contains_key(key@),
    {
        self.get(key).is_some()
    }

    /// Whether `value` stands under `key`.
    pub fn contains_pair(&self, key: &str, value: &str) -> (found: bool)
        ensures
            found == self@.contains_pair(key@, value@),
    {
        match self.get(key) {
            Some(held) => {
                let wanted = String::from_str(value);
                *held == wanted
            },
            None => false,
        }
    }

    /// The number of keys.
    pub fn len(&self) -> (count: usize)
        ensures
            self@.dom().finite(),
            count == self@.len(),
    {
        proof {
            use_type_invariant(self);
            lemma_map_len(text_pairs(self.entries@));
        }
        self.entries.len()
    }

    /// Whether the mapping has no key.
    pub fn is_empty(&self) -> (empty: bool)
        ensures
            empty == self@.is_empty(),
            empty == (self@ == Map::<Seq<char>, Seq<char>>::empty()),
    {
        proof {
            use_type_invariant(self);
            let pairs = text_pairs(self.entries@);
            lemma_map_len(pairs);
            if pairs.len() > 0 {
                lemma_map_entry(pairs, 0);
            } else {
                assert(self@ =~= Map::<Seq<char>, Seq<char>>::empty());
            }
        }
        self.entries.len() == 0
    }

    /// Puts `value` under `key`, in place of what stood there.
    pub fn insert(&mut self, key: String, value: String)
        ensures
            final(self)@ == old(self)@.insert(key@, value@),
    {
        proof {
            use_type_invariant(&*self);
        }
        let ghost before = text_pairs(self.entries@);
        let place = self.position(&key);
        let mut entries: Vec<(String, String)> = Vec::new();
        std::mem::swap(&mut self.entries, &mut entries);
        match place {
            Some(i) => {
                proof {
                    lemma_map_update(before, i as int, value@);
                }
                entries.set(i, (key, value));
                assert(text_pairs(entries@) =~= before.update(
                    i as int,
                    (before[i as int].0, value@),
                ));
            },
            None => {
                entries.push((key, value));
                proof {
                    let after = text_pairs(entries@);
                    assert(after.drop_last() =~= before);
                    assert forall|a: int, b: int| 0 <= a < b < after.len() implies after[a].0
                        != after[b].0 by {
                        if b == after.len() - 1 {
                            assert(before[a].0 == after[a].0);
                        } else {
                            assert(before[a].0 != before[b].0);
                        }
                    }
                }
            },
        }
        self.entries = entries;
    }

    /// The mapping that `pairs` denotes: each pair is put in turn, so of two
    /// pairs with one key the later counts.
    pub fn from_pairs(pairs: &Vec<(String, String)>) -> (map: TextMap)
        ensures
            map@ == pairs_to_map(text_pairs(pairs@)),
    {
        let mut map = TextMap::new();
        let mut i: usize = 0;
        while i < pairs.len()
            invariant
                i <= pairs@.len(),
                map@ == pairs_to_map(text_pairs(pairs@).take(i as int)),
            decreases pairs@.len() - i,
        {
            let key = pairs[i].0.clone();
            let value = pairs[i].1.clone();
            proof {
                let upto = text_pairs(pairs@).take(i + 1);
                assert(upto.drop_last() =~= text_pairs(pairs@).take(i as int));
                assert(upto.last() == (key@, value@));
            }
            map.insert(key, value);
            i += 1;
        }
        assert(text_pairs(pairs@).take(i as int) =~= text_pairs(pairs@));
        map
    }

    /// The entries as a list of pairs, each key once.
    pub fn to_pairs(&self) -> (pairs: Vec<(String, String)>)
        ensures
            distinct_keys(text_pairs(pairs@)),
            pairs_to_map(text_pairs(pairs@)) == self@,
    {
        proof {
            use_type_invariant(self);
        }
        let mut pairs: Vec<(String, String)> = Vec::new();
        let mut i: usize = 0;
        while i < self.entries.len()
            invariant
                i <= self.entries@.len(),
                pairs@.len() == i,
                text_pairs(pairs@) == text_pairs(self.entries@).take(i as int),
            decreases self.entries@.len() - i,
        {
            let key = self.entries[i].0.clone();
            let value = self.entries[i].1.clone();
            let ghost before = text_pairs(pairs@);
            pairs.push((key, value));
            proof {
                let after = text_pairs(pairs@);
                let upto = text_pairs(self.entries@).take(i + 1);
                assert(after.len() == upto.len());
                assert forall|j: int| 0 <= j < after.len() implies after[j] == upto[j] by {
                    if j < i {
                        assert(after[j] == before[j]);
                        assert(before[j] == text_pairs(self.entries@).take(i as int)[j]);
                    }
                }
                assert(after =~= upto);
            }
            i += 1;
        }
        assert(text_pairs(self.entries@).take(i as int) =~= text_pairs(self.entries@));
        pairs
    }

    /// Whether some key has the same value in both mappings.
    pub fn agrees_with(&self, other: &TextMap) -> (found: bool)
        ensures
            found == agree_somewhere(self@, other@),
    {
        proof {
            use_type_invariant(self);
        }
        let ghost pairs = text_pairs(self.entries@);
        let mut i: usize = 0;
        while i < self.entries.len()
            invariant
                i <= self.entries@.len(),
                pairs == text_pairs(self.entries@),
                distinct_keys(pairs),
                forall|j: int| 0 <= j < i ==> !other@.contains_pair(pairs[j].0, pairs[j].1),
            decreases self.entries@.len() - i,
        {
            proof {
                lemma_map_entry(pairs, i as int);
            }
            if other.contains_pair(self.entries[i].0.as_str(), self.entries[i].1.as_str()) {
                return true;
            }
            i += 1;
        }
        proof {
            if agree_somewhere(self@, other@) {
                let key = choose|key: Seq<char>|
                    self@.contains_key(key) && other@.contains_pair(key, self@[key]);
                lemma_map_keys(pairs, key);
                let j = choose|j: int| 0 <= j < pairs.len() && pairs[j].0 == key;
                lemma_map_entry(pairs, j);
            }
        }
        false
    }
}

/// Some key has the same value in `left` and in `right`.
pub open spec fn agree_somewhere(
    left: Map<Seq<char>, Seq<char>>,
    right: Map<Seq<char>, Seq<char>>,
) -> bool {
    exists|key: Seq<char>| left.contains_key(key) && right.contains_pair(key, left[key])
}

} // verus!
