//! A map from texts to values.
use crate::text::{same_text, texts};
use vstd::prelude::*;

verus! {

/// A map whose keys are texts. Keys are listed in the order in which they came in.
pub struct TextMap<V> {
    keys: Vec<String>,
    values: Vec<V>,
}

spec fn has_at(keys: Seq<String>, key: Seq<char>, i: int) -> bool {
    0 <= i < keys.len() && keys[i]@ == key
}

spec fn distinct_keys(keys: Seq<String>) -> bool {
    forall|i: int, j: int|
        #![trigger keys[i], keys[j]]
        0 <= i < j < keys.len() ==> keys[i]@ != keys[j]@
}

spec fn map_of<V>(keys: Seq<String>, values: Seq<V>) -> Map<Seq<char>, V> {
    Map::new(
        |key: Seq<char>| exists|i: int| has_at(keys, key, i),
        |key: Seq<char>| values[choose|i: int| has_at(keys, key, i)],
    )
}

/// `order` lists the keys of `map`, each once.
pub open spec fn lists_keys<V>(order: Seq<Seq<char>>, map: Map<Seq<char>, V>) -> bool {
    &&& order.no_duplicates()
    &&& forall|key: Seq<char>| #[trigger] order.contains(key) <==> map.contains_key(key)
}

proof fn lemma_entry<V>(keys: Seq<String>, values: Seq<V>, i: int)
    requires
        distinct_keys(keys),
        0 <= i < keys.len(),
    ensures
        map_of(keys, values).contains_key(keys[i]@),
        map_of(keys, values)[keys[i]@] == values[i],
{
    assert(has_at(keys, keys[i]@, i));
}

proof fn lemma_update<V>(keys: Seq<String>, values: Seq<V>, i: int, value: V)
    requires
        distinct_keys(keys),
        keys.len() == values.len(),
        0 <= i < keys.len(),
    ensures
        map_of(keys, values.update(i, value)) == map_of(keys, values).insert(keys[i]@, value),
{
    let after = values.update(i, value);
    lemma_entry(keys, values, i);
    assert forall|key: Seq<char>| #[trigger] map_of(keys, values).contains_key(key) implies map_of(
        keys,
        after,
    )[key] == map_of(keys, values).insert(keys[i]@, value)[key] by {
        let j = choose|j: int| has_at(keys, key, j);
        lemma_entry(keys, values, j);
        lemma_entry(keys, after, j);
    }
    assert(map_of(keys, after) =~= map_of(keys, values).insert(keys[i]@, value));
}

proof fn lemma_push<V>(keys: Seq<String>, values: Seq<V>, key: String, value: V)
    requires
        distinct_keys(keys),
        keys.len() == values.len(),
        !map_of(keys, values).contains_key(key@),
    ensures
        distinct_keys(keys.push(key)),
        map_of(keys.push(key), values.push(value)) == map_of(keys, values).insert(key@, value),
{
    let old_map = map_of(keys, values);
    let new_map = map_of(keys.push(key), values.push(value));
    assert forall|i: int| 0 <= i < keys.len() implies (#[trigger] keys[i])@ != key@ by {
        assert(has_at(keys, keys[i]@, i));
    }
    assert(distinct_keys(keys.push(key)));
    lemma_entry(keys.push(key), values.push(value), keys.len() as int);
    assert forall|k: Seq<char>| new_map.contains_key(k) == #[trigger] old_map.insert(
        key@,
        value,
    ).contains_key(k) by {
        if old_map.contains_key(k) {
            let j = choose|j: int| has_at(keys, k, j);
            assert(has_at(keys.push(key), k, j));
        }
        if new_map.contains_key(k) && k != key@ {
            let j = choose|j: int| has_at(keys.push(key), k, j);
            assert(has_at(keys, k, j));
        }
    }
    assert forall|k: Seq<char>| #[trigger] new_map.contains_key(k) implies new_map[k]
        == old_map.insert(key@, value)[k] by {
        if k != key@ {
            let j = choose|j: int| has_at(keys.push(key), k, j);
            lemma_entry(keys, values, j);
            lemma_entry(keys.push(key), values.push(value), j);
        }
    }
    assert(new_map =~= old_map.insert(key@, value));
}

proof fn lemma_remove<V>(keys: Seq<String>, values: Seq<V>, i: int)
    requires
        distinct_keys(keys),
        keys.len() == values.len(),
        0 <= i < keys.len(),
    ensures
        distinct_keys(keys.remove(i)),
        map_of(keys.remove(i), values.remove(i)) == map_of(keys, values).remove(keys[i]@),
{
    let old_map = map_of(keys, values);
    let new_map = map_of(keys.remove(i), values.remove(i));
    assert(distinct_keys(keys.remove(i)));
    assert forall|k: Seq<char>| new_map.contains_key(k) == #[trigger] old_map.remove(
        keys[i]@,
    ).contains_key(k) by {
        if old_map.contains_key(k) && k != keys[i]@ {
            let j = choose|j: int| has_at(keys, k, j);
            if j < i {
                assert(has_at(keys.remove(i), k, j));
            } else {
                assert(has_at(keys.remove(i), k, j - 1));
            }
        }
        if new_map.contains_key(k) {
            let j = choose|j: int| has_at(keys.remove(i), k, j);
            if j < i {
                assert(has_at(keys, k, j));
            } else {
                assert(has_at(keys, k, j + 1));
            }
        }
    }
    assert forall|k: Seq<char>| #[trigger] new_map.contains_key(k) implies new_map[k]
        == old_map.remove(keys[i]@)[k] by {
        let j = choose|j: int| has_at(keys.remove(i), k, j);
        lemma_entry(keys.remove(i), values.remove(i), j);
        lemma_entry(
            keys,
            values,
            if j < i {
                j
            } else {
                j + 1
            },
        );
    }
    assert(new_map =~= old_map.remove(keys[i]@));
}

proof fn lemma_order<V>(keys: Seq<String>, values: Seq<V>)
    requires
        distinct_keys(keys),
    ensures
        lists_keys(texts(keys), map_of(keys, values)),
{
    let order = texts(keys);
    assert forall|key: Seq<char>| #[trigger] order.contains(key) <==> map_of(
        keys,
        values,
    ).contains_key(key) by {
        if order.contains(key) {
            let i = choose|i: int| 0 <= i < order.len() && order[i] == key;
            assert(has_at(keys, key, i));
        }
        if map_of(keys, values).contains_key(key) {
            let i = choose|i: int| has_at(keys, key, i);
            assert(order[i] == key);
        }
    }
    assert forall|i: int, j: int| 0 <= i < order.len() && 0 <= j < order.len() && i != j implies
        order[i] != order[j] by {
        if i < j {
            assert(keys[i]@ != keys[j]@);
        } else {
            assert(keys[j]@ != keys[i]@);
        }
    }
}

impl<V> View for TextMap<V> {
    type V = Map<Seq<char>, V>;

    closed spec fn view(&self) -> Map<Seq<char>, V> {
        map_of(self.keys@, self.values@)
    }
}

impl<V> TextMap<V> {
    #[verifier::type_invariant]
    spec fn wf(&self) -> bool {
        distinct_keys(self.keys@) && self.keys@.len() == self.values@.len()
    }

    /// The keys in the order in which they are listed.
    pub closed spec fn order(&self) -> Seq<Seq<char>> {
        texts(self.keys@)
    }

    /// A map without entries.
    pub fn new() -> (map: Self)
        ensures
            map@ == Map::<Seq<char>, V>::empty(),
            map.order() == Seq::<Seq<char>>::empty(),
    {
        let map = TextMap { keys: Vec::new(), values: Vec::new() };
        assert(map@ =~= Map::<Seq<char>, V>::empty());
        map
    }

    fn find(&self, key: &str) -> (found: Option<usize>)
        ensures
            match found {
                Some(i) => has_at(self.keys@, key@, i as int) && self@.contains_key(key@)
                    && self@[key@] == self.values@[i as int],
                None => !self@.contains_key(key@),
            },
    {
        proof {
            use_type_invariant(self);
        }
        let mut i: usize = 0;
        while i < self.keys.len()
            invariant
                self.wf(),
                i <= self.keys@.len(),
                forall|j: int| 0 <= j < i ==> (#[trigger] self.keys@[j])@ != key@,
            decreases self.keys@.len() - i,
        {
            if same_text(self.keys[i].as_str(), key) {
                proof {
                    lemma_entry(self.keys@, self.values@, i as int);
                }
                return Some(i);
            }
            i = i + 1;
        }
        None
    }

    /// How many entries there are.
    pub fn len(&self) -> (len: usize)
        ensures
            len == self.order().len(),
            lists_keys(self.order(), self@),
    {
        proof {
            use_type_invariant(self);
            lemma_order(self.keys@, self.values@);
        }
        self.keys.len()
    }

    /// The key at a place in the order.
    pub fn key_at(&self, i: usize) -> (key: &String)
        requires
            i < self.order().len(),
        ensures
            key@ == self.order()[i as int],
    {
        &self.keys[i]
    }

    /// The value whose key is at a place in the order.
    pub fn value_at(&self, i: usize) -> (value: &V)
        requires
            i < self.order().len(),
        ensures
            self@.contains_key(self.order()[i as int]),
            *value == self@[self.order()[i as int]],
    {
        proof {
            use_type_invariant(self);
            lemma_entry(self.keys@, self.values@, i as int);
        }
        &self.values[i]
    }

    /// Whether there is an entry for a key.
    pub fn contains_key(&self, key: &str) -> (yes: bool)
        ensures
            yes == self@.contains_key(key@),
    {
        match self.find(key) {
            Some(_) => true,
            None => false,
        }
    }

    /// The value of a key.
    pub fn get(&self, key: &str) -> (value: Option<&V>)
        ensures
            match value {
                Some(v) => self@.contains_key(key@) && *v == self@[key@],
                None => !self@.contains_key(key@),
            },
    {
        proof {
            use_type_invariant(self);
        }
        match self.find(key) {
            Some(i) => Some(&self.values[i]),
            None => None,
        }
    }

    /// The value of a key, to be changed in place.
    pub fn get_mut(&mut self, key: &str) -> (value: Option<&mut V>)
        ensures
            match value {
                Some(v) => {
                    &&& old(self)@.contains_key(key@)
                    &&& *v == old(self)@[key@]
                    &&& final(self)@ == old(self)@.insert(key@, *final(v))
                    &&& final(self).order() == old(self).order()
                },
                None => !old(self)@.contains_key(key@) && *final(self) == *old(self),
            },
    {
        proof {
            use_type_invariant(&*self);
        }
        match self.find(key) {
            Some(i) => {
                let ghost keys = self.keys@;
                let ghost before = self.values@;
                proof {
                    assert forall|value: V|
                        map_of(keys, #[trigger] before.update(i as int, value)) == map_of(
                            keys,
                            before,
                        ).insert(key@, value) by {
                        lemma_update(keys, before, i as int, value);
                    }
                }
                Some(&mut self.values[i])
            },
            None => None,
        }
    }

    /// Gives a key a value, in place of the value that it had.
    pub fn insert(&mut self, key: String, value: V)
        ensures
            final(self)@ == old(self)@.insert(key@, value),
            final(self).order() == if old(self)@.contains_key(key@) {
                old(self).order()
            } else {
                old(self).order().push(key@)
            },
    {
        let found = self.find(key.as_str());
        let mut taken = TextMap::new();
        std::mem::swap(self, &mut taken);
        proof {
            use_type_invariant(&taken);
        }
        let TextMap { keys: mut keys, values: mut values } = taken;
        let ghost old_keys = keys@;
        let ghost old_values = values@;
        match found {
            Some(i) => {
                proof {
                    lemma_update(old_keys, old_values, i as int, value);
                }
                values.set(i, value);
            },
            None => {
                proof {
                    lemma_push(old_keys, old_values, key, value);
                }
                keys.push(key);
                values.push(value);
                assert(texts(keys@) =~= texts(old_keys).push(key@));
            },
        }
        *self = TextMap { keys, values };
    }

    /// Takes the entry of a key out and returns its value.
    pub fn remove(&mut self, key: &str) -> (removed: Option<V>)
        ensures
            final(self)@ == old(self)@.remove(key@),
            match removed {
                Some(value) => old(self)@.contains_key(key@) && value == old(self)@[key@],
                None => !old(self)@.contains_key(key@) && *final(self) == *old(self),
            },
    {
        match self.find(key) {
            Some(i) => {
                let mut taken = TextMap::new();
                std::mem::swap(self, &mut taken);
                proof {
                    use_type_invariant(&taken);
                }
                let TextMap { keys: mut keys, values: mut values } = taken;
                proof {
                    lemma_remove(keys@, values@, i as int);
                }
                keys.remove(i);
                let value = values.remove(i);
                *self = TextMap { keys, values };
                Some(value)
            },
            None => {
                assert(self@.remove(key@) =~= self@);
                None
            },
        }
    }

    /// The entries, in the order of their keys.
    pub fn into_entries(self) -> (entries: Vec<(String, V)>)
        ensures
            lists_keys(self.order(), self@),
            entries@.len() == self.order().len(),
            forall|i: int|
                #![trigger entries@[i]]
                0 <= i < entries@.len() ==> entries@[i].0@ == self.order()[i]
                    && entries@[i].1 == self@[self.order()[i]],
    {
        proof {
            use_type_invariant(&self);
            lemma_order(self.keys@, self.values@);
        }
        let ghost map = self@;
        let ghost order = self.order();
        let TextMap { keys, values } = self;
        let ghost all_values = values@;
        let mut entries: Vec<(String, V)> = Vec::new();
        let mut i: usize = 0;
        for value in it: values
            invariant
                it.seq() == all_values,
                distinct_keys(keys@),
                keys@.len() == all_values.len(),
                keys.len() == keys@.len(),
                order == texts(keys@),
                map == map_of(keys@, all_values),
                i == it.index(),
                entries@.len() == it.index(),
                forall|j: int|
                    #![trigger entries@[j]]
                    0 <= j < entries@.len() ==> entries@[j].0@ == order[j] && entries@[j].1
                        == map[order[j]],
        {
            proof {
                lemma_entry(keys@, all_values, i as int);
            }
            entries.push((keys[i].clone(), value));
            i = i + 1;
        }
        entries
    }
}

} // verus!
