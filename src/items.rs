//! Moving the items of an array in and out of a vector, and building new arrays from old ones.
use vstd::prelude::*;

use vstd::std_specs::iter::IteratorSpec;

use crate::spec::{can_map, can_zip, maps_to, zips_to};

verus! {

broadcast use vstd::array::group_array_axioms;

/// Relies on `Vec::from` for arrays: the items are moved, in order, into a new vector.
#[verifier::external_body]
pub(crate) fn array_into_vec<T, const N: usize>(a: [T; N]) -> (v: Vec<T>)
    ensures
        v@ == a@,
{
    Vec::from(a)
}

/// Relies on `TryFrom<Vec<T>>` for arrays: it succeeds exactly when the vector holds `N`
/// items, and then moves them, in order, into the array.
#[verifier::external_body]
pub(crate) fn vec_into_array<T, const N: usize>(v: Vec<T>) -> (r: Option<[T; N]>)
    ensures
        r is Some <==> v@.len() == N,
        r matches Some(a) ==> a@ == v@,
{
    <[T; N]>::try_from(v).ok()
}

/// Moves the items of a vector that holds exactly `N` of them into an array.
pub(crate) fn exact_array<T, const N: usize>(v: Vec<T>) -> (r: [T; N])
    requires
        v@.len() == N,
    ensures
        r@ == v@,
{
    vec_into_array(v).unwrap()
}

/// Calls `f` on each item of `a`, first to last, and gathers the results.
pub(crate) fn map_items<T, U, F: FnMut(T) -> U, const N: usize>(a: [T; N], f: F) -> (r: [U; N])
    requires
        can_map(f, a@),
    ensures
        maps_to(f, a@, r@),
{
    let ghost s = a@;
    let mut g = f;
    let mut out: Vec<U> = Vec::new();
    for x in it: array_into_vec(a).into_iter()
        invariant
            it.seq() == s,
            g == f,
            can_map(f, s),
            out@.len() == it.index(),
            forall|i: int| 0 <= i < it.index() ==> f.ensures((s[i],), #[trigger] out@[i]),
    {
        out.push(g(x));
    }
    exact_array(out)
}

/// Takes the next item from an iterator that has one left.
pub(crate) fn take_next<I: Iterator>(it: &mut I) -> (r: I::Item)
    requires
        (*old(it)).obeys_prophetic_iter_laws(),
        (*old(it)).remaining().len() > 0,
    ensures
        r == (*old(it)).remaining()[0],
        (*final(it)).remaining() == (*old(it)).remaining().drop_first(),
        (*final(it)).obeys_prophetic_iter_laws(),
{
    it.next().unwrap()
}

/// Calls `f` on the items of `a` and `b` that share an index, first index to last, and gathers
/// the results.
pub(crate) fn zip_items<T, U, V, F: FnMut(T, U) -> V, const N: usize>(a: [T; N], b: [U; N], f: F) -> (r: [V; N])
    requires
        can_zip(f, a@, b@),
    ensures
        zips_to(f, a@, b@, r@),
{
    let ghost s = a@;
    let ghost t = b@;
    let mut g = f;
    let mut rest = array_into_vec(b).into_iter();
    let mut out: Vec<V> = Vec::new();
    for x in it: array_into_vec(a).into_iter()
        invariant
            it.seq() == s,
            g == f,
            can_zip(f, s, t),
            t.len() == s.len(),
            rest.obeys_prophetic_iter_laws(),
            rest.remaining() == t.skip(it.index()),
            out@.len() == it.index(),
            forall|i: int| 0 <= i < it.index() ==> f.ensures((s[i], t[i]), #[trigger] out@[i]),
    {
        let y = take_next(&mut rest);
        out.push(g(x, y));
    }
    exact_array(out)
}

} // verus!
