//! A map with text keys that is walked in ascending key order.
use crate::text::{compare, Standing};
use vstd::prelude::*;

verus! {

use crate::text::{before, before_is_irreflexive, before_is_total, before_is_transitive};

/// Keys in strictly ascending order.
pub open spec fn ascending(keys: Seq<Seq<char>>) -> bool {
    forall|i: int, j: int| 0 <= i < j < keys.len() ==> before(keys[i], keys[j])
}

/// The keys of a set in ascending order.
pub open spec fn key_order(keys: Set<Seq<char>>) -> Seq<Seq<char>> {
    choose|order: Seq<Seq<char>>| ascending(order) && #[trigger] order.to_set() == keys
}

/// The map that a list of pairs stands for.
pub open spec fn pairs_map<W>(pairs: Seq<(Seq<char>, W)>) -> Map<Seq<char>, W>
    decreases pairs.len(),
{
    if pairs.len() == 0 {
        Map::empty()
    } else {
        pairs_map(pairs.drop_last()).insert(pairs.last().0, pairs.last().1)
    }
}

/// The first components of a list of pairs.
pub open spec fn pair_keys<W>(pairs: Seq<(Seq<char>, W)>) -> Seq<Seq<char>> {
    pairs.map_values(|pair: (Seq<char>, W)| pair.0)
}

proof fn lemma_ascending_is_injective(keys: Seq<Seq<char>>, i: int, j: int)
    requires
        ascending(keys),
        0 <= i < keys.len(),
        0 <= j < keys.len(),
        keys[i] == keys[j],
    ensures
        i == j,
{
    before_is_irreflexive(keys[i]);
}

proof fn lemma_pairs_map<W>(pairs: Seq<(Seq<char>, W)>)
    requires
        ascending(pair_keys(pairs)),
    ensures
        pairs_map(pairs).dom() =~= pair_keys(pairs).to_set(),
        pairs_map(pairs).dom().finite(),
        forall|i: int|
            0 <= i < pairs.len() ==> pairs_map(pairs).contains_key(#[trigger] pairs[i].0)
                && pairs_map(pairs)[pairs[i].0] == pairs[i].1,
    decreases pairs.len(),
{
    let keys = pair_keys(pairs);
    if pairs.len() > 0 {
        let rest = pairs.drop_last();
        assert(pair_keys(rest) =~= keys.drop_last());
        lemma_pairs_map(rest);
        assert forall|i: int| 0 <= i < pairs.len() implies pairs_map(pairs).contains_key(
            #[trigger] pairs[i].0,
        ) && pairs_map(pairs)[pairs[i].0] == pairs[i].1 by {
            if i < pairs.len() - 1 {
                assert(rest[i] == pairs[i]);
                assert(before(keys[i], keys[pairs.len() - 1]));
                before_is_irreflexive(keys[i]);
            }
        }
        assert forall|k: Seq<char>|
            pairs_map(pairs).dom().contains(k) implies keys.to_set().contains(k) by {
            if k != pairs.last().0 {
                assert(pair_keys(rest).to_set().contains(k));
                let i = choose|i: int| 0 <= i < pair_keys(rest).len() && pair_keys(rest)[i] == k;
                assert(keys[i] == k);
            } else {
                assert(keys[pairs.len() - 1] == k);
            }
        }
        assert forall|k: Seq<char>| keys.to_set().contains(k) implies pairs_map(
            pairs,
        ).dom().contains(k) by {
            let i = choose|i: int| 0 <= i < keys.len() && keys[i] == k;
            assert(pairs[i].0 == k);
        }
    } else {
        assert(keys.to_set() =~= Set::empty());
    }
}

/// An ascending list is determined by the set of its items.
pub proof fn key_order_is_unique(s: Seq<Seq<char>>, t: Seq<Seq<char>>)
    requires
        ascending(s),
        ascending(t),
        s.to_set() == t.to_set(),
    ensures
        s == t,
    decreases s.len(),
{
    if s.len() == 0 || t.len() == 0 {
        if s.len() > 0 {
            assert(s.to_set().contains(s[0]));
            assert(t.contains(s[0]));
        }
        if t.len() > 0 {
            assert(t.to_set().contains(t[0]));
            assert(s.contains(t[0]));
        }
        assert(s =~= t);
    } else {
        let a = s.last();
        let b = t.last();
        assert(s.to_set().contains(a));
        assert(t.to_set().contains(b));
        assert(t.contains(a));
        assert(s.contains(b));
        let i = choose|i: int| 0 <= i < s.len() && s[i] == b;
        let j = choose|j: int| 0 <= j < t.len() && t[j] == a;
        if a != b {
            assert(before(b, a));
            assert(before(a, b));
            before_is_transitive(a, b, a);
            before_is_irreflexive(a);
        }
        let s1 = s.drop_last();
        let t1 = t.drop_last();
        assert(s1.to_set() =~= t1.to_set()) by {
            assert forall|k: Seq<char>| s1.to_set().contains(k) implies t1.to_set().contains(k) by {
                let p = choose|p: int| 0 <= p < s1.len() && s1[p] == k;
                assert(s[p] == k);
                assert(s.to_set().contains(k));
                assert(before(s[p], s[s.len() - 1]));
                before_is_irreflexive(k);
                assert(t.contains(k));
                let q = choose|q: int| 0 <= q < t.len() && t[q] == k;
                assert(t1[q] == k);
            }
            assert forall|k: Seq<char>| t1.to_set().contains(k) implies s1.to_set().contains(k) by {
                let p = choose|p: int| 0 <= p < t1.len() && t1[p] == k;
                assert(t[p] == k);
                assert(t.to_set().contains(k));
                assert(before(t[p], t[t.len() - 1]));
                before_is_irreflexive(k);
                assert(s.contains(k));
                let q = choose|q: int| 0 <= q < s.len() && s[q] == k;
                assert(s1[q] == k);
            }
        }
        key_order_is_unique(s1, t1);
        assert(s =~= s1.push(a));
        assert(t =~= t1.push(b));
    }
}

/// A key put in its place among ascending ones.
spec fn put_in_place(order: Seq<Seq<char>>, key: Seq<char>) -> Seq<Seq<char>>
    decreases order.len(),
{
    if order.len() == 0 || before(order.last(), key) {
        order.push(key)
    } else {
        put_in_place(order.drop_last(), key).push(order.last())
    }
}

proof fn lemma_put_in_place(order: Seq<Seq<char>>, key: Seq<char>)
    requires
        ascending(order),
        !order.contains(key),
    ensures
        ascending(put_in_place(order, key)),
        forall|k: Seq<char>|
            #[trigger] put_in_place(order, key).contains(k) <==> order.contains(k) || k == key,
    decreases order.len(),
{
    let result = put_in_place(order, key);
    if order.len() == 0 || before(order.last(), key) {
        assert forall|i: int, j: int| 0 <= i < j < result.len() implies before(
            result[i],
            result[j],
        ) by {
            if j == order.len() && i < order.len() - 1 {
                before_is_transitive(order[i], order.last(), key);
            }
        }
        assert forall|k: Seq<char>| #[trigger] result.contains(k) <==> order.contains(k) || k
            == key by {
            if order.contains(k) {
                let i = choose|i: int| 0 <= i < order.len() && order[i] == k;
                assert(result[i] == k);
            }
            assert(result[order.len() as int] == key);
        }
    } else {
        let rest = order.drop_last();
        let last = order.last();
        assert(order.contains(last));
        before_is_total(last, key);
        assert forall|k: Seq<char>| rest.contains(k) implies order.contains(k) by {
            let i = choose|i: int| 0 <= i < rest.len() && rest[i] == k;
            assert(order[i] == k);
        }
        lemma_put_in_place(rest, key);
        let placed = put_in_place(rest, key);
        assert forall|i: int, j: int| 0 <= i < j < result.len() implies before(
            result[i],
            result[j],
        ) by {
            if j == placed.len() {
                assert(placed.contains(placed[i]));
                if placed[i] != key {
                    let p = choose|p: int| 0 <= p < rest.len() && rest[p] == placed[i];
                    assert(before(order[p], order[order.len() - 1]));
                }
            }
        }
        assert forall|k: Seq<char>| #[trigger] result.contains(k) <==> order.contains(k) || k
            == key by {
            if result.contains(k) {
                let i = choose|i: int| 0 <= i < result.len() && result[i] == k;
                if i < placed.len() {
                    assert(placed[i] == k);
                    assert(placed.contains(k));
                }
            }
            if order.contains(k) || k == key {
                if k == last {
                    assert(result[placed.len() as int] == k);
                } else {
                    if order.contains(k) {
                        let i = choose|i: int| 0 <= i < order.len() && order[i] == k;
                        assert(rest[i] == k);
                    }
                    assert(placed.contains(k));
                    let i = choose|i: int| 0 <= i < placed.len() && placed[i] == k;
                    assert(result[i] == k);
                }
            }
        }
    }
}

/// Every finite set of keys has an ascending order, which [`key_order`] gives.
pub proof fn key_order_of_finite(keys: Set<Seq<char>>)
    requires
        keys.finite(),
    ensures
        ascending(key_order(keys)),
        key_order(keys).to_set() == keys,
    decreases keys.len(),
{
    if keys.len() == 0 {
        let none = Seq::<Seq<char>>::empty();
        assert(none.to_set() =~= keys);
        assert(ascending(none));
    } else {
        let key = keys.choose();
        let rest = keys.remove(key);
        key_order_of_finite(rest);
        let order = key_order(rest);
        assert(!order.contains(key)) by {
            if order.contains(key) {
                assert(order.to_set().contains(key));
            }
        }
        lemma_put_in_place(order, key);
        let whole = put_in_place(order, key);
        assert forall|k: Seq<char>| whole.to_set().contains(k) <==> keys.contains(k) by {
            assert(whole.contains(k) <==> order.contains(k) || k == key);
            assert(order.to_set().contains(k) <==> rest.contains(k));
        }
        assert(whole.to_set() =~= keys);
    }
}

/// A map from text to `V`. Walking it by index meets the keys in ascending order.
#[derive(Debug)]
pub struct OrderedMap<V> {
    keys: Vec<String>,
    values: Vec<V>,
}

impl<V: View> View for OrderedMap<V> {
    type V = Map<Seq<char>, V::V>;

    closed spec fn view(&self) -> Map<Seq<char>, V::V> {
        pairs_map(self.pairs())
    }
}

impl<V: View> Default for OrderedMap<V> {
    /// A map without entries.
    fn default() -> (map: Self)
        ensures
            map@ == Map::<Seq<char>, V::V>::empty(),
    {
        OrderedMap::new()
    }
}

/// Whether a value can be a clone of another, by what the two say.
pub open spec fn says_as_cloned<V: View + Clone>(value: V::V, copy: V::V) -> bool {
    exists|a: V, b: V| a@ == value && b@ == copy && #[trigger] cloned(a, b)
}

impl<V: View + Clone> Clone for OrderedMap<V> {
    /// A second map with the same keys and clones of the values.
    fn clone(&self) -> (copy: Self)
        ensures
            copy@.dom() == self@.dom(),
            forall|key: Seq<char>| #[trigger]
                self@.contains_key(key) ==> says_as_cloned::<V>(self@[key], copy@[key]),
    {
        proof {
            use_type_invariant(self);
        }
        let mut keys: Vec<String> = Vec::new();
        let mut values: Vec<V> = Vec::new();
        for i in 0..self.keys.len()
            invariant
                self.well_formed(),
                keys.len() == i,
                values.len() == i,
                forall|j: int| 0 <= j < i ==> (#[trigger] keys@[j])@ == self.keys@[j]@,
                forall|j: int| 0 <= j < i ==> cloned(self.values@[j], #[trigger] values@[j]),
        {
            keys.push(self.keys[i].clone());
            values.push(self.values[i].clone());
        }
        let copy = OrderedMap { keys, values };
        proof {
            self.lemma_view();
            copy.lemma_view();
            let order = pair_keys(self.pairs());
            assert(pair_keys(copy.pairs()) =~= order);
            assert forall|key: Seq<char>| #[trigger] self@.contains_key(key) implies
                says_as_cloned::<V>(self@[key], copy@[key]) by {
                assert(order.to_set().contains(key));
                let i = choose|i: int| 0 <= i < order.len() && order[i] == key;
                assert(self.keys[i]@ == key);
                assert(copy.keys[i]@ == key);
                assert(cloned(self.values@[i], copy.values@[i]));
            }
        }
        copy
    }
}

impl<V> OrderedMap<V> {
    #[verifier::type_invariant]
    spec fn well_formed(&self) -> bool {
        &&& self.keys.len() == self.values.len()
        &&& forall|i: int, j: int|
            0 <= i < j < self.keys.len() ==> before(
                #[trigger] self.keys[i]@,
                #[trigger] self.keys[j]@,
            )
    }
}

impl<V: View> OrderedMap<V> {
    spec fn pairs(&self) -> Seq<(Seq<char>, V::V)> {
        Seq::new(self.keys@.len(), |i: int| (self.keys@[i]@, self.values@[i]@))
    }

    proof fn lemma_view(&self)
        requires
            self.well_formed(),
        ensures
            ascending(pair_keys(self.pairs())),
            self@.dom() == pair_keys(self.pairs()).to_set(),
            self@.dom().finite(),
            key_order(self@.dom()) == pair_keys(self.pairs()),
            forall|i: int|
                0 <= i < self.keys.len() ==> self@.contains_key(#[trigger] self.keys[i]@)
                    && self@[self.keys[i]@] == self.values[i]@,
    {
        let keys = pair_keys(self.pairs());
        assert forall|i: int, j: int| 0 <= i < j < keys.len() implies before(keys[i], keys[j]) by {
            assert(before(self.keys[i]@, self.keys[j]@));
        }
        lemma_pairs_map(self.pairs());
        assert(keys.to_set() == self@.dom());
        key_order_is_unique(keys, key_order(self@.dom()));
        assert forall|i: int| 0 <= i < self.keys.len() implies self@.contains_key(
            #[trigger] self.keys[i]@,
        ) && self@[self.keys[i]@] == self.values[i]@ by {
            assert(self.pairs()[i].0 == self.keys[i]@);
        }
    }

    /// A map without entries.
    pub fn new() -> (map: Self)
        ensures
            map@ == Map::<Seq<char>, V::V>::empty(),
    {
        let map = OrderedMap { keys: Vec::new(), values: Vec::new() };
        assert(map.pairs().len() == 0);
        map
    }

    /// How many entries there are.
    pub fn len(&self) -> (count: usize)
        ensures
            count == self@.dom().len(),
            count == key_order(self@.dom()).len(),
            self@.dom().finite(),
    {
        proof {
            use_type_invariant(self);
            self.lemma_view();
            let order = key_order(self@.dom());
            assert forall|i: int, j: int|
                0 <= i < order.len() && 0 <= j < order.len() && i != j implies order[i]
                != order[j] by {
                if order[i] == order[j] {
                    lemma_ascending_is_injective(order, i, j);
                }
            }
            order.unique_seq_to_set();
        }
        self.keys.len()
    }

    /// Where `key` is, or where it would go.
    fn search(&self, key: &str) -> (place: (usize, bool))
        ensures
            place.0 <= self.keys.len(),
            place.1 ==> place.0 < self.keys.len() && self.keys[place.0 as int]@ == key@,
            forall|i: int| 0 <= i < place.0 ==> before(#[trigger] self.keys[i]@, key@),
            !place.1 ==> forall|i: int|
                place.0 <= i < self.keys.len() ==> before(key@, #[trigger] self.keys[i]@),
    {
        proof {
            use_type_invariant(self);
        }
        let mut low: usize = 0;
        let mut high: usize = self.keys.len();
        while low < high
            invariant
                self.well_formed(),
                low <= high <= self.keys.len(),
                forall|i: int| 0 <= i < low ==> before(#[trigger] self.keys[i]@, key@),
                forall|i: int|
                    high <= i < self.keys.len() ==> before(key@, #[trigger] self.keys[i]@),
            decreases high - low,
        {
            let middle: usize = low + (high - low) / 2;
            match compare(self.keys[middle].as_str(), key) {
                Standing::Same => {
                    return (middle, true);
                },
                Standing::Before => {
                    proof {
                        assert forall|i: int| 0 <= i < middle + 1 implies before(
                            #[trigger] self.keys[i]@,
                            key@,
                        ) by {
                            if i < middle {
                                assert(before(self.keys[i]@, self.keys[middle as int]@));
                                before_is_transitive(
                                    self.keys[i]@,
                                    self.keys[middle as int]@,
                                    key@,
                                );
                            }
                        }
                    }
                    low = middle + 1;
                },
                Standing::After => {
                    proof {
                        assert forall|i: int| middle <= i < self.keys.len() implies before(
                            key@,
                            #[trigger] self.keys[i]@,
                        ) by {
                            if i > middle {
                                assert(before(self.keys[middle as int]@, self.keys[i]@));
                                before_is_transitive(
                                    key@,
                                    self.keys[middle as int]@,
                                    self.keys[i]@,
                                );
                            }
                        }
                    }
                    high = middle;
                },
            }
        }
        (low, false)
    }

    proof fn lemma_absent(&self, key: Seq<char>, place: int)
        requires
            self.well_formed(),
            0 <= place <= self.keys.len(),
            forall|i: int| 0 <= i < place ==> before(#[trigger] self.keys[i]@, key),
            forall|i: int| place <= i < self.keys.len() ==> before(key, #[trigger] self.keys[i]@),
        ensures
            !self@.contains_key(key),
    {
        self.lemma_view();
        if self@.contains_key(key) {
            let keys = pair_keys(self.pairs());
            assert(keys.to_set().contains(key));
            let i = choose|i: int| 0 <= i < keys.len() && keys[i] == key;
            assert(self.keys[i]@ == key);
            before_is_irreflexive(key);
        }
    }

    /// The value under `key`, if there is one.
    pub fn get(&self, key: &str) -> (value: Option<&V>)
        ensures
            match value {
                Some(found) => self@.contains_key(key@) && found@ == self@[key@],
                None => !self@.contains_key(key@),
            },
    {
        let (place, found) = self.search(key);
        proof {
            use_type_invariant(self);
            self.lemma_view();
        }
        if found {
            Some(&self.values[place])
        } else {
            proof {
                self.lemma_absent(key@, place as int);
            }
            None
        }
    }

    /// The key at a place in the order.
    pub fn key_at(&self, index: usize) -> (key: &str)
        requires
            index < key_order(self@.dom()).len(),
        ensures
            key@ == key_order(self@.dom())[index as int],
            self@.contains_key(key@),
    {
        proof {
            use_type_invariant(self);
            self.lemma_view();
        }
        self.keys[index].as_str()
    }

    /// The value at a place in the order.
    pub fn value_at(&self, index: usize) -> (value: &V)
        requires
            index < key_order(self@.dom()).len(),
        ensures
            self@.contains_key(key_order(self@.dom())[index as int]),
            value@ == self@[key_order(self@.dom())[index as int]],
    {
        proof {
            use_type_invariant(self);
            self.lemma_view();
            assert(self.keys[index as int]@ == key_order(self@.dom())[index as int]);
        }
        &self.values[index]
    }

    proof fn lemma_replaced(old_map: Self, new_map: Self, place: int)
        requires
            old_map.well_formed(),
            new_map.well_formed(),
            0 <= place < old_map.keys.len(),
            new_map.keys@ == old_map.keys@,
            new_map.values@ == old_map.values@.update(place, new_map.values@[place]),
        ensures
            new_map@ == old_map@.insert(old_map.keys[place]@, new_map.values[place]@),
    {
        old_map.lemma_view();
        new_map.lemma_view();
        let key = old_map.keys[place]@;
        assert(pair_keys(new_map.pairs()) =~= pair_keys(old_map.pairs()));
        assert(new_map@.dom() =~= old_map@.insert(key, new_map.values[place]@).dom());
        assert forall|k: Seq<char>| new_map@.contains_key(k) implies new_map@[k]
            == old_map@.insert(key, new_map.values[place]@)[k] by {
            let keys = pair_keys(new_map.pairs());
            assert(keys.to_set().contains(k));
            let i = choose|i: int| 0 <= i < keys.len() && keys[i] == k;
            assert(new_map.keys[i]@ == k);
            assert(old_map.keys[i]@ == k);
            if k == key {
                lemma_ascending_is_injective(keys, i, place);
            }
        }
        assert(new_map@ =~= old_map@.insert(key, new_map.values[place]@));
    }

    proof fn lemma_inserted(old_map: Self, new_map: Self, place: int, key: String, value: V)
        requires
            old_map.well_formed(),
            new_map.well_formed(),
            0 <= place <= old_map.keys.len(),
            new_map.keys@ == old_map.keys@.insert(place, key),
            new_map.values@ == old_map.values@.insert(place, value),
        ensures
            new_map@ == old_map@.insert(key@, value@),
    {
        old_map.lemma_view();
        new_map.lemma_view();
        let target = old_map@.insert(key@, value@);
        let old_keys = pair_keys(old_map.pairs());
        let new_keys = pair_keys(new_map.pairs());
        assert forall|k: Seq<char>| new_map@.contains_key(k) implies target.contains_key(k)
            && new_map@[k] == target[k] by {
            assert(new_keys.to_set().contains(k));
            let i = choose|i: int| 0 <= i < new_keys.len() && new_keys[i] == k;
            assert(new_map.keys[i]@ == k);
            if i < place {
                assert(old_map.keys[i]@ == k);
                if k == key@ {
                    assert(new_map.keys[place]@ == k);
                    lemma_ascending_is_injective(new_keys, i, place);
                }
            } else if i > place {
                assert(old_map.keys[i - 1]@ == k);
                if k == key@ {
                    assert(new_map.keys[place]@ == k);
                    lemma_ascending_is_injective(new_keys, i, place);
                }
            }
        }
        assert forall|k: Seq<char>| target.contains_key(k) implies new_map@.contains_key(k) by {
            if k == key@ {
                assert(new_map.keys[place]@ == k);
            } else {
                assert(old_keys.to_set().contains(k));
                let i = choose|i: int| 0 <= i < old_keys.len() && old_keys[i] == k;
                assert(old_map.keys[i]@ == k);
                if i < place {
                    assert(new_map.keys[i]@ == k);
                } else {
                    assert(new_map.keys[i + 1]@ == k);
                }
            }
        }
        assert(new_map@ =~= target);
    }

    /// Puts a value under `key`, in place of any that was there.
    pub fn insert(&mut self, key: String, value: V)
        ensures
            final(self)@ == old(self)@.insert(key@, value@),
    {
        let (place, found) = self.search(key.as_str());
        proof {
            use_type_invariant(&*self);
        }
        let ghost before_map = *self;
        let ghost text = key;
        let ghost item = value;
        let mut whole = OrderedMap { keys: Vec::new(), values: Vec::new() };
        std::mem::swap(&mut whole, self);
        let OrderedMap { mut keys, mut values } = whole;
        if found {
            values.set(place, value);
            *self = OrderedMap { keys, values };
            proof {
                Self::lemma_replaced(before_map, *self, place as int);
            }
        } else {
            keys.insert(place, key);
            values.insert(place, value);
            *self = OrderedMap { keys, values };
            proof {
                Self::lemma_inserted(before_map, *self, place as int, text, item);
            }
        }
    }

    /// Removes every entry.
    pub fn clear(&mut self)
        ensures
            final(self)@ == Map::<Seq<char>, V::V>::empty(),
    {
        *self = OrderedMap::new();
    }

    /// The value under `key`, to be changed in place.
    pub fn get_mut(&mut self, key: &str) -> (value: Option<&mut V>)
        ensures
            match value {
                Some(found) => old(self)@.contains_key(key@) && found@ == old(self)@[key@]
                    && final(self)@ == old(self)@.insert(key@, final(found)@),
                None => !old(self)@.contains_key(key@) && final(self)@ == old(self)@,
            },
    {
        let (place, found) = self.search(key);
        proof {
            use_type_invariant(&*self);
            self.lemma_view();
            if !found {
                self.lemma_absent(key@, place as int);
            }
        }
        if found {
            proof {
                let now = *self;
                assert forall|later: Self|
                    later.keys@ == now.keys@ && later.values@ == now.values@.update(
                        place as int,
                        later.values@[place as int],
                    ) implies #[trigger] later@ == now@.insert(
                    key@,
                    later.values@[place as int]@,
                ) by {
                    assert(later.well_formed());
                    Self::lemma_replaced(now, later, place as int);
                }
            }
            Some(&mut self.values[place])
        } else {
            None
        }
    }
}

/// The keys of a set are walked in order: each is there, none other is, and an earlier one comes
/// before a later one in the order of texts.
pub proof fn keys_are_walked_in_order(keys: Set<Seq<char>>, i: int, j: int)
    requires
        keys.finite(),
        0 <= i < j < key_order(keys).len(),
    ensures
        before(key_order(keys)[i], key_order(keys)[j]),
        forall|key: Seq<char>| #[trigger] keys.contains(key) <==> key_order(keys).contains(key),
{
    key_order_of_finite(keys);
    assert forall|key: Seq<char>| #[trigger] keys.contains(key) <==> key_order(keys).contains(
        key,
    ) by {
        assert(keys.contains(key) == key_order(keys).to_set().contains(key));
    }
}

}
