use vstd::prelude::*;

verus! {

/// An ordering of listed entries that callers supply.
pub trait Sorter<K, V> {
    fn sort(&self, values: Vec<(K, V)>) -> Vec<(K, V)>;
}

/// A selection of listed entries that callers supply.
pub trait Filter<K, V> {
    fn matches(&self, key: &K, value: &V) -> bool;
}

} // verus!
