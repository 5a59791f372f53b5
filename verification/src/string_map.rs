//! A map from text to text that remembers the order in which its keys came.

use vstd::prelude::*;
use crate::text::text_eq;

verus! {

/// A key with its value, as sequences of characters.
pub type TextPair = (Seq<char>, Seq<char>);

/// The views of a sequence of string pairs, in order.
pub open spec fn pairs_of(items: Seq<(String, String)>) -> Seq<TextPair> {
    items.map_values(|e: (String, String)| (e.0@, e.1@))
}

/// The map that a list of pairs stands for: a later pair with the same key
/// overrides an earlier one.
pub open spec fn map_of(pairs: Seq<TextPair>) -> Map<Seq<char>, Seq<char>>
    decreases pairs.len(),
{
    if pairs.len() == 0 {
        Map::empty()
    } else {
        map_of(pairs.drop_last()).insert(pairs.last().0, pairs.last().1)
    }
}

/// Whether no key occurs twice in a list of pairs.
pub open spec fn distinct_keys(pairs: Seq<TextPair>) -> bool {
    forall|i: int, j: int| 0 <= i < j < pairs.len() ==> pairs[i].0 != pairs[j].0
}

/// Position of the first pair with key `key`, or the list's length where
/// there is none.
pub open spec fn position_of(pairs: Seq<TextPair>, key: Seq<char>) -> int
    decreases pairs.len(),
{
    if pairs.len() == 0 {
        0
    } else if pairs[0].0 == key {
        0
    } else {
        1 + position_of(pairs.drop_first(), key)
    }
}

/// The list after `key` received `value`: the pair is replaced where the key
/// was present, and added at the end where it was not.
pub open spec fn put(pairs: Seq<TextPair>, key: Seq<char>, value: Seq<char>) -> Seq<TextPair> {
    let at = position_of(pairs, key);
    if 0 <= at < pairs.len() {
        pairs.update(at, (key, value))
    } else {
        pairs.push((key, value))
    }
}

/// `position_of` is the least position with the key.
pub proof fn lemma_position_of(pairs: Seq<TextPair>, key: Seq<char>)
    ensures
        0 <= position_of(pairs, key) <= pairs.len(),
        forall|k: int| 0 <= k < position_of(pairs, key) ==> pairs[k].0 != key,
        position_of(pairs, key) < pairs.len() ==> pairs[position_of(pairs, key)].0 == key,
    decreases pairs.len(),
{
    if pairs.len() > 0 && pairs[0].0 != key {
        let rest = pairs.drop_first();
        lemma_position_of(rest, key);
        assert forall|k: int| 0 <= k < position_of(pairs, key) implies pairs[k].0 != key by {
            if k > 0 {
                assert(pairs[k] == rest[k - 1]);
            }
        }
        if position_of(pairs, key) < pairs.len() {
            assert(pairs[position_of(pairs, key)] == rest[position_of(rest, key)]);
        }
    }
}

/// A position with the key, and none before it, is the key's position; any
/// position with the key bounds it from above.
pub proof fn lemma_position_is(pairs: Seq<TextPair>, key: Seq<char>, at: int)
    requires
        0 <= at < pairs.len(),
        pairs[at].0 == key,
    ensures
        position_of(pairs, key) <= at,
        (forall|k: int| 0 <= k < at ==> pairs[k].0 != key) ==> position_of(pairs, key) == at,
{
    lemma_position_of(pairs, key);
}

/// Mapping the pairs to their views commutes with adding one at the end.
pub proof fn lemma_pairs_of_push(items: Seq<(String, String)>, item: (String, String))
    ensures
        pairs_of(items.push(item)) == pairs_of(items).push((item.0@, item.1@)),
{
    assert(pairs_of(items.push(item)) =~= pairs_of(items).push((item.0@, item.1@)));
}

/// The keys of `map_of` are the keys of the list, and with distinct keys
/// each pair's value is the one the map holds.
pub proof fn lemma_map_of(pairs: Seq<TextPair>)
    ensures
        forall|key: Seq<char>| #[trigger]
            map_of(pairs).contains_key(key) <==> position_of(pairs, key) < pairs.len(),
        distinct_keys(pairs) ==> forall|i: int|
            0 <= i < pairs.len() ==> map_of(pairs)[#[trigger] pairs[i].0] == pairs[i].1,
    decreases pairs.len(),
{
    if pairs.len() > 0 {
        let front = pairs.drop_last();
        let last = pairs.last();
        lemma_map_of(front);
        assert forall|key: Seq<char>| #[trigger]
            map_of(pairs).contains_key(key) <==> position_of(pairs, key) < pairs.len() by {
            lemma_position_of(pairs, key);
            lemma_position_of(front, key);
            let p = position_of(pairs, key);
            let q = position_of(front, key);
            assert(map_of(front).contains_key(key) <==> q < front.len());
            if key == last.0 {
                lemma_position_is(pairs, key, pairs.len() - 1);
            } else {
                if p < pairs.len() {
                    assert(front[p] == pairs[p]);
                    lemma_position_is(front, key, p);
                }
                if q < front.len() {
                    assert(front[q] == pairs[q]);
                    lemma_position_is(pairs, key, q);
                }
            }
        }
        if distinct_keys(pairs) {
            assert(distinct_keys(front)) by {
                assert forall|i: int, j: int| 0 <= i < j < front.len() implies front[i].0
                    != front[j].0 by {
                    assert(front[i] == pairs[i] && front[j] == pairs[j]);
                }
            }
            assert forall|i: int| 0 <= i < pairs.len() implies map_of(pairs)[#[trigger] pairs[i].0]
                == pairs[i].1 by {
                if i < front.len() {
                    assert(front[i] == pairs[i]);
                    assert(pairs[i].0 != last.0);
                }
            }
        }
    }
}

/// `put` on a list with distinct keys keeps the keys distinct and gives the
/// list of the map with the key inserted.
pub proof fn lemma_put(pairs: Seq<TextPair>, key: Seq<char>, value: Seq<char>)
    requires
        distinct_keys(pairs),
    ensures
        distinct_keys(put(pairs, key, value)),
        map_of(put(pairs, key, value)) == map_of(pairs).insert(key, value),
    decreases pairs.len(),
{
    lemma_position_of(pairs, key);
    let at = position_of(pairs, key);
    let after = put(pairs, key, value);
    if at < pairs.len() {
        assert forall|i: int, j: int| 0 <= i < j < after.len() implies after[i].0 != after[j].0 by {
            assert(after[i].0 == pairs[i].0 && after[j].0 == pairs[j].0);
        }
        let front = pairs.drop_last();
        if at == pairs.len() - 1 {
            assert(after.drop_last() == front);
            assert(map_of(after) == map_of(front).insert(key, value));
            assert(map_of(pairs).insert(key, value) == map_of(front).insert(key, value));
        } else {
            assert(distinct_keys(front)) by {
                assert forall|i: int, j: int| 0 <= i < j < front.len() implies front[i].0
                    != front[j].0 by {
                    assert(front[i] == pairs[i] && front[j] == pairs[j]);
                }
            }
            lemma_position_of(front, key);
            assert(front[at] == pairs[at]);
            assert(position_of(front, key) == at) by {
                if position_of(front, key) < at {
                    assert(front[position_of(front, key)] == pairs[position_of(front, key)]);
                }
            }
            lemma_put(front, key, value);
            assert(after.drop_last() == put(front, key, value));
            assert(after.last() == pairs.last());
            assert(pairs.last().0 != key);
            assert(map_of(after) == map_of(front).insert(key, value).insert(
                pairs.last().0,
                pairs.last().1,
            ));
            assert(map_of(after) == map_of(pairs).insert(key, value));
        }
    } else {
        assert(after.drop_last() == pairs);
        assert forall|i: int, j: int| 0 <= i < j < after.len() implies after[i].0 != after[j].0 by {
            if j < pairs.len() {
                assert(after[i] == pairs[i] && after[j] == pairs[j]);
            } else {
                assert(after[i] == pairs[i]);
            }
        }
    }
}

/// The list that results from putting each pair of `items` in turn.
pub open spec fn put_all(pairs: Seq<TextPair>, items: Seq<TextPair>) -> Seq<TextPair>
    decreases items.len(),
{
    if items.len() == 0 {
        pairs
    } else {
        put(put_all(pairs, items.drop_last()), items.last().0, items.last().1)
    }
}

/// Putting the pairs of a list in turn gives distinct keys and the map that
/// the list itself stands for.
pub proof fn lemma_put_all(items: Seq<TextPair>)
    ensures
        distinct_keys(put_all(Seq::empty(), items)),
        map_of(put_all(Seq::empty(), items)) == map_of(items),
    decreases items.len(),
{
    if items.len() > 0 {
        lemma_put_all(items.drop_last());
        lemma_put(put_all(Seq::empty(), items.drop_last()), items.last().0, items.last().1);
    }
}

/// A map from text to text, kept as a list of pairs with distinct keys in
/// the order in which the keys first came.
#[derive(Debug)]
pub struct StringMap {
    entries: Vec<(String, String)>,
}

impl View for StringMap {
    type V = Map<Seq<char>, Seq<char>>;

    open spec fn view(&self) -> Map<Seq<char>, Seq<char>> {
        map_of(self.pairs())
    }
}

impl StringMap {
    #[verifier::type_invariant]
    spec fn keys_are_distinct(&self) -> bool {
        distinct_keys(pairs_of(self.entries@))
    }

    /// The pairs of the map, in the order in which their keys first came.
    pub closed spec fn pairs(&self) -> Seq<TextPair> {
        pairs_of(self.entries@)
    }

    /// A map without entries.
    pub fn new() -> (r: Self)
        ensures
            r.pairs() == Seq::<TextPair>::empty(),
            r@ == Map::<Seq<char>, Seq<char>>::empty(),
    {
        let r = StringMap { entries: Vec::new() };
        assert(r.pairs() =~= Seq::<TextPair>::empty());
        r
    }

    /// Number of entries. No key occurs twice among them.
    pub fn len(&self) -> (r: usize)
        ensures
            r == self.pairs().len(),
            distinct_keys(self.pairs()),
    {
        proof {
            use_type_invariant(self);
        }
        self.entries.len()
    }

    /// Whether the map has no entry.
    pub fn is_empty(&self) -> (r: bool)
        ensures
            r == (self.pairs().len() == 0),
    {
        self.entries.len() == 0
    }

    /// Position of `key` among the entries, or their number where it is not
    /// there.
    fn find(&self, key: &str) -> (r: usize)
        ensures
            r == position_of(self.pairs(), key@),
            r <= self.pairs().len(),
    {
        let n = self.entries.len();
        let mut i: usize = 0;
        let ghost pairs = self.pairs();
        while i < n
            invariant
                n == self.entries.len(),
                pairs == pairs_of(self.entries@),
                i <= n,
                forall|k: int| 0 <= k < i ==> pairs[k].0 != key@,
            decreases n - i,
        {
            if text_eq(self.entries[i].0.as_str(), key) {
                proof {
                    assert(pairs[i as int].0 == key@);
                    lemma_position_is(pairs, key@, i as int);
                }
                return i;
            }
            assert(pairs[i as int].0 != key@);
            i += 1;
        }
        proof {
            lemma_position_of(pairs, key@);
        }
        i
    }

    /// Whether `key` has a value.
    pub fn contains_key(&self, key: &str) -> (r: bool)
        ensures
            r == self@.contains_key(key@),
    {
        let at = self.find(key);
        proof {
            lemma_map_of(self.pairs());
        }
        at < self.entries.len()
    }

    /// The value of `key`, if it has one.
    pub fn get(&self, key: &str) -> (r: Option<&String>)
        ensures
            match r {
                Some(value) => self@.contains_key(key@) && value@ == self@[key@],
                None => !self@.contains_key(key@),
            },
    {
        let at = self.find(key);
        proof {
            use_type_invariant(self);
            lemma_map_of(self.pairs());
            lemma_position_of(self.pairs(), key@);
        }
        if at < self.entries.len() {
            Some(&self.entries[at].1)
        } else {
            None
        }
    }

    /// Gives `key` the value `value`: in place where the key was present, as a
    /// new last entry where it was not.
    pub fn insert(&mut self, key: String, value: String)
        ensures
            final(self).pairs() == put(old(self).pairs(), key@, value@),
            final(self)@ == old(self)@.insert(key@, value@),
    {
        let at = self.find(key.as_str());
        proof {
            use_type_invariant(&*self);
            lemma_put(self.pairs(), key@, value@);
        }
        let ghost before = self.pairs();
        let mut taken = StringMap::new();
        core::mem::swap(self, &mut taken);
        let mut entries = taken.entries;
        if at < entries.len() {
            entries.set(at, (key, value));
        } else {
            entries.push((key, value));
        }
        assert(pairs_of(entries@) =~= put(before, key@, value@));
        *self = StringMap { entries };
    }

    /// The key of the entry at `index`.
    pub fn key_at(&self, index: usize) -> (r: &String)
        requires
            index < self.pairs().len(),
        ensures
            r@ == self.pairs()[index as int].0,
    {
        &self.entries[index].0
    }

    /// The value of the entry at `index`.
    pub fn value_at(&self, index: usize) -> (r: &String)
        requires
            index < self.pairs().len(),
        ensures
            r@ == self.pairs()[index as int].1,
    {
        &self.entries[index].1
    }

    /// The entries as a list of pairs, in order.
    pub fn entries(&self) -> (r: Vec<(String, String)>)
        ensures
            pairs_of(r@) == self.pairs(),
    {
        let mut r: Vec<(String, String)> = Vec::new();
        let n = self.entries.len();
        let mut i: usize = 0;
        while i < n
            invariant
                n == self.entries.len(),
                i <= n,
                pairs_of(r@) == pairs_of(self.entries@).take(i as int),
            decreases n - i,
        {
            let key = self.entries[i].0.clone();
            let value = self.entries[i].1.clone();
            proof {
                lemma_pairs_of_push(r@, (key, value));
                assert(pairs_of(self.entries@).take(i + 1) =~= pairs_of(self.entries@).take(
                    i as int,
                ).push(pairs_of(self.entries@)[i as int]));
            }
            r.push((key, value));
            i += 1;
        }
        assert(pairs_of(self.entries@).take(n as int) == pairs_of(self.entries@));
        r
    }

    /// The map that receives each pair of `items` in turn, so that a later
    /// pair overrides an earlier one with the same key.
    pub fn from_pairs(items: &Vec<(String, String)>) -> (r: Self)
        ensures
            r.pairs() == put_all(Seq::empty(), pairs_of(items@)),
            r@ == map_of(pairs_of(items@)),
    {
        proof {
            lemma_put_all(pairs_of(items@));
        }
        let mut r = StringMap::new();
        let n = items.len();
        let mut i: usize = 0;
        assert(pairs_of(items@).take(0) =~= Seq::<TextPair>::empty());
        while i < n
            invariant
                n == items.len(),
                i <= n,
                r.pairs() == put_all(Seq::empty(), pairs_of(items@).take(i as int)),
            decreases n - i,
        {
            let key = items[i].0.clone();
            let value = items[i].1.clone();
            proof {
                let next = pairs_of(items@).take(i + 1);
                assert(next.drop_last() =~= pairs_of(items@).take(i as int));
                assert(next.last() == (key@, value@));
            }
            r.insert(key, value);
            i += 1;
        }
        assert(pairs_of(items@).take(n as int) == pairs_of(items@));
        r
    }
}

impl Clone for StringMap {
    /// A copy with the same pairs in the same order.
    fn clone(&self) -> (r: Self)
        ensures
            r.pairs() == self.pairs(),
            r@ == self@,
    {
        proof {
            use_type_invariant(self);
        }
        StringMap { entries: self.entries() }
    }
}

} // verus!
