use std::hash::Hash;
use vstd::hash_map::HashMapWithView;
use vstd::prelude::*;
use vstd::std_specs::hash::obeys_key_model;

verus! {

/// An unordered association from unique keys to values, with a single-step
/// "find or create" update.
///
/// Its model is a `Map` from the view of each key to its value.
#[verifier::reject_recursive_types(K)]
#[verifier::reject_recursive_types(V)]
pub struct AggregationMap<K: View + Eq + Hash, V> {
    m: HashMapWithView<K, V>,
}

impl<K: View + Eq + Hash, V> View for AggregationMap<K, V> {
    type V = Map<K::V, V>;

    closed spec fn view(&self) -> Map<K::V, V> {
        self.m@
    }
}

/// The value that an entry lookup of `k` yields: the stored one if `k` is
/// present, else `d`.
pub open spec fn entry_value<A, V>(m: Map<A, V>, k: A, d: V) -> V {
    if m.contains_key(k) {
        m[k]
    } else {
        d
    }
}

/// The map after an entry lookup of `k` with default `d`: unchanged if `k`
/// is present, else extended by `k -> d`.
pub open spec fn entry_map<A, V>(m: Map<A, V>, k: A, d: V) -> Map<A, V> {
    if m.contains_key(k) {
        m
    } else {
        m.insert(k, d)
    }
}

/// The stored value of `k`, if any.
pub open spec fn value_of<A, V>(m: Map<A, V>, k: A) -> Option<V> {
    if m.contains_key(k) {
        Some(m[k])
    } else {
        None
    }
}

impl<K: View + Eq + Hash, V> AggregationMap<K, V> {
    /// An empty map. The key type must hash and compare consistently with
    /// its view, and keys with equal views must be equal.
    pub fn new() -> (r: Self)
        requires
            obeys_key_model::<K>(),
            forall|k1: K, k2: K| k1@ == k2@ ==> k1 == k2,
        ensures
            r@ == Map::<K::V, V>::empty(),
    {
        AggregationMap { m: HashMapWithView::new() }
    }

    pub fn len(&self) -> (r: usize)
        ensures
            r == self@.len(),
    {
        self.m.len()
    }

    pub fn contains_key(&self, key: &K) -> (r: bool)
        ensures
            r == self@.contains_key(key@),
    {
        self.m.contains_key(key)
    }

    /// Stores `value` under `key`, overwriting any earlier value, which is
    /// handed back.
    pub fn insert(&mut self, key: K, value: V) -> (r: Option<V>)
        ensures
            r == value_of(old(self)@, key@),
            final(self)@ == old(self)@.insert(key@, value),
    {
        let prev = self.m.remove(&key);
        self.m.insert(key, value);
        proof {
            if old(self)@.contains_key(key@) {
                assert(old(self)@.remove(key@).insert(key@, value) =~= old(self)@.insert(
                    key@,
                    value,
                ));
            }
        }
        prev
    }

    /// A shared view of the value stored under `key`, if any.
    pub fn get(&self, key: &K) -> (r: Option<&V>)
        ensures
            match r {
                Some(v) => value_of(self@, key@) == Some(*v),
                None => value_of(self@, key@) == None::<V>,
            },
    {
        self.m.get(key)
    }
}

impl<K: View + Eq + Hash, V: Copy> AggregationMap<K, V> {
    /// A copy of the value stored under `key`, if any, independent of the
    /// map's storage.
    pub fn get_copy(&self, key: &K) -> (r: Option<V>)
        ensures
            r == value_of(self@, key@),
    {
        match self.m.get(key) {
            Some(v) => Some(*v),
            None => None,
        }
    }

    /// In one step: if `key` is present, yields its value and leaves the map
    /// as it is; otherwise stores `default` under `key` and yields it.
    pub fn entry_or_insert(&mut self, key: K, default: V) -> (r: V)
        ensures
            r == entry_value(old(self)@, key@, default),
            final(self)@ == entry_map(old(self)@, key@, default),
    {
        match self.m.get(&key) {
            Some(v) => *v,
            None => {
                self.m.insert(key, default);
                default
            },
        }
    }
}

/// An entry lookup of an absent key yields the default, which a later lookup
/// then finds; of a present key it yields the stored value and changes
/// nothing.
pub proof fn lemma_entry_or_insert<A, V>(m: Map<A, V>, k: A, d: V)
    ensures
        !m.contains_key(k) ==> entry_value(m, k, d) == d && value_of(entry_map(m, k, d), k)
            == Some(d),
        m.contains_key(k) ==> entry_value(m, k, d) == m[k] && entry_map(m, k, d) == m,
{
}

/// Inserting the same key and value twice leaves the map as inserting it
/// once does.
pub proof fn lemma_insert_idempotent<A, V>(m: Map<A, V>, k: A, v: V)
    ensures
        m.insert(k, v).insert(k, v) == m.insert(k, v),
{
    assert(m.insert(k, v).insert(k, v) =~= m.insert(k, v));
}

} // verus!
