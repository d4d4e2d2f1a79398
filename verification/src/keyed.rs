//! A small map for keys that are told apart by their contents.

use vstd::prelude::*;

verus! {

/// A key whose identity is its view.
pub trait Key: View + Sized {
    /// Whether two keys have the same contents.
    fn same_key(&self, other: &Self) -> (r: bool)
        ensures
            r == (self@ == other@),
    ;
}

/// A map from the contents of a key to a value. No key occurs twice.
pub struct KeyedList<K: Key, T> {
    items: Vec<(K, T)>,
}

/// Whether no two items have the same key.
pub open spec fn keys_distinct<K: Key, T>(items: Seq<(K, T)>) -> bool {
    forall|i: int, j: int| 0 <= i < j < items.len() ==> items[i].0@ != items[j].0@
}

/// The map that a list of items stands for.
pub open spec fn map_of<K: Key, T>(items: Seq<(K, T)>) -> Map<K::V, T> {
    Map::new(
        |k: K::V| exists|i: int| 0 <= i < items.len() && #[trigger] items[i].0@ == k,
        |k: K::V|
            items[choose|i: int| 0 <= i < items.len() && #[trigger] items[i].0@ == k].1,
    )
}

/// An item of a list with distinct keys is what its map has for its key.
proof fn lemma_item_in_map<K: Key, T>(items: Seq<(K, T)>, i: int)
    requires
        keys_distinct(items),
        0 <= i < items.len(),
    ensures
        map_of(items).dom().contains(items[i].0@),
        map_of(items)[items[i].0@] == items[i].1,
{
    let k = items[i].0@;
    let c = choose|c: int| 0 <= c < items.len() && #[trigger] items[c].0@ == k;
    assert(items[c].0@ == k);
    assert(c == i) by {
        if c < i {
            assert(items[c].0@ != items[i].0@);
        } else if i < c {
            assert(items[i].0@ != items[c].0@);
        }
    }
}

/// Adding an item with a new key adds its key and value to the map.
proof fn lemma_push<K: Key, T>(items: Seq<(K, T)>, item: (K, T))
    requires
        keys_distinct(items),
        !map_of(items).dom().contains(item.0@),
    ensures
        keys_distinct(items.push(item)),
        map_of(items.push(item)) == map_of(items).insert(item.0@, item.1),
{
    let more = items.push(item);
    assert forall|i: int, j: int| 0 <= i < j < more.len() implies more[i].0@ != more[j].0@ by {
        if j == items.len() {
            lemma_item_in_map(items, i);
        }
    }
    let target = map_of(items).insert(item.0@, item.1);
    assert forall|k: K::V| map_of(more).dom().contains(k) == target.dom().contains(k) by {
        if map_of(more).dom().contains(k) {
            let i = choose|i: int| 0 <= i < more.len() && #[trigger] more[i].0@ == k;
            if i < items.len() {
                assert(items[i].0@ == k);
            }
        }
        if target.dom().contains(k) {
            if k == item.0@ {
                assert(more[items.len() as int].0@ == k);
            } else {
                let i = choose|i: int| 0 <= i < items.len() && #[trigger] items[i].0@ == k;
                assert(more[i].0@ == k);
            }
        }
    }
    assert forall|k: K::V| map_of(more).dom().contains(k) implies map_of(more)[k] == target[k] by {
        let i = choose|i: int| 0 <= i < more.len() && #[trigger] more[i].0@ == k;
        lemma_item_in_map(more, i);
        if i < items.len() {
            lemma_item_in_map(items, i);
            assert(items[i] == more[i]);
        }
    }
    assert(map_of(more) =~= target);
}

/// Replacing an item by one with the same key changes the value of that key.
proof fn lemma_replace<K: Key, T>(items: Seq<(K, T)>, at: int, item: (K, T))
    requires
        keys_distinct(items),
        0 <= at < items.len(),
        items[at].0@ == item.0@,
    ensures
        keys_distinct(items.update(at, item)),
        map_of(items.update(at, item)) == map_of(items).insert(item.0@, item.1),
{
    let other = items.update(at, item);
    assert forall|i: int, j: int| 0 <= i < j < other.len() implies other[i].0@ != other[j].0@ by {
        assert(items[i].0@ == other[i].0@ && items[j].0@ == other[j].0@);
    }
    let target = map_of(items).insert(item.0@, item.1);
    lemma_item_in_map(items, at);
    assert forall|k: K::V| map_of(other).dom().contains(k) == target.dom().contains(k) by {
        if map_of(other).dom().contains(k) {
            let i = choose|i: int| 0 <= i < other.len() && #[trigger] other[i].0@ == k;
            assert(items[i].0@ == k);
        }
        if target.dom().contains(k) {
            let i = choose|i: int| 0 <= i < items.len() && #[trigger] items[i].0@ == k;
            assert(other[i].0@ == k);
        }
    }
    assert forall|k: K::V| map_of(other).dom().contains(k) implies map_of(other)[k] == target[k] by {
        let i = choose|i: int| 0 <= i < other.len() && #[trigger] other[i].0@ == k;
        lemma_item_in_map(other, i);
        if i != at {
            lemma_item_in_map(items, i);
            assert(items[i] == other[i]);
            assert(k != item.0@) by {
                if k == item.0@ {
                    if i < at {
                        assert(items[i].0@ != items[at].0@);
                    } else {
                        assert(items[at].0@ != items[i].0@);
                    }
                }
            }
        }
    }
    assert(map_of(other) =~= target);
}

impl<K: Key, T> View for KeyedList<K, T> {
    type V = Map<K::V, T>;

    closed spec fn view(&self) -> Map<K::V, T> {
        map_of(self.items@)
    }
}

impl<K: Key, T> KeyedList<K, T> {
    #[verifier::type_invariant]
    spec fn no_key_twice(self) -> bool {
        keys_distinct(self.items@)
    }

    /// A map without any key.
    pub fn new() -> (r: Self)
        ensures
            r@ == Map::<K::V, T>::empty(),
    {
        let r = KeyedList { items: Vec::new() };
        assert(r@ =~= Map::<K::V, T>::empty());
        r
    }

    /// The index of the item with the given key.
    fn position(items: &Vec<(K, T)>, key: &K) -> (r: Option<usize>)
        ensures
            r is Some ==> r->0 < items@.len() && items@[r->0 as int].0@ == key@,
            r is None ==> forall|i: int| 0 <= i < items@.len() ==> #[trigger] items@[i].0@ != key@,
    {
        let mut i: usize = 0;
        while i < items.len()
            invariant
                i <= items.len(),
                forall|j: int| 0 <= j < i ==> #[trigger] items@[j].0@ != key@,
            decreases items.len() - i,
        {
            if items[i].0.same_key(key) {
                return Some(i);
            }
            i += 1;
        }
        None
    }

    /// Gives a key a value, in place of the one that it may have had.
    pub fn insert(&mut self, key: K, value: T)
        ensures
            final(self)@ == old(self)@.insert(key@, value),
    {
        proof {
            use_type_invariant(&*self);
        }
        let mut items: Vec<(K, T)> = Vec::new();
        std::mem::swap(&mut items, &mut self.items);
        let ghost before = items@;
        match Self::position(&items, &key) {
            Some(at) => {
                let ghost item = (key, value);
                proof {
                    lemma_replace(before, at as int, item);
                }
                items.set(at, (key, value));
            },
            None => {
                let ghost item = (key, value);
                proof {
                    lemma_push(before, item);
                }
                items.push((key, value));
            },
        }
        self.items = items;
    }

    /// The value of a key.
    pub fn get(&self, key: &K) -> (r: Option<&T>)
        ensures
            r is Some == self@.dom().contains(key@),
            r is Some ==> *r->0 == self@[key@],
    {
        proof {
            use_type_invariant(self);
        }
        match Self::position(&self.items, key) {
            Some(at) => {
                proof {
                    lemma_item_in_map(self.items@, at as int);
                }
                Some(&self.items[at].1)
            },
            None => None,
        }
    }
}

} // verus!
