//! Operations whose results are arrays of the same length with another item type.
use vstd::prelude::*;

use crate::items::{map_items, zip_items};
use crate::spec::{can_map, can_zip, maps_to, zips_to};
use crate::Array;

verus! {

/// Array with size information on the type.
pub trait ArrayN<T, const N: usize>: Array<T> {
    /// Takes a `FnMut(T) -> U` closure and creates a new array by calling that closure on each
    /// element, first to last.
    fn map<U, F>(self, f: F) -> (r: [U; N])
        where
            F: FnMut(T) -> U,
            Self: Sized,
        requires
            can_map(f, self@),
        ensures
            maps_to(f, self@, r@),
    ;

    /// Merges elements with another array by calling a `FnMut(T, U) -> V` closure for each
    /// pair, first index to last.
    fn zip<U, V, F>(self, other: [U; N], f: F) -> (r: [V; N])
        where
            F: FnMut(T, U) -> V,
            Self: Sized,
        requires
            can_zip(f, self@, other@),
        ensures
            zips_to(f, self@, other@, r@),
    ;
}

impl<T, const N: usize> ArrayN<T, N> for [T; N] {
    fn map<U, F>(self, f: F) -> [U; N]
        where
            F: FnMut(T) -> U,
    {
        map_items(self, f)
    }

    fn zip<U, V, F>(self, other: [U; N], f: F) -> [V; N]
        where
            F: FnMut(T, U) -> V,
    {
        zip_items(self, other, f)
    }
}

} // verus!
