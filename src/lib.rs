//! Extra operations on fixed-size arrays.
//!
//! [`Array`] lets generic code take an array of any length by value, without turning it into a
//! slice; [`ArrayN`] adds the operations whose signatures name the length. Both are implemented
//! once, for every `[T; N]`.
use vstd::prelude::*;
use vstd::std_specs::iter::IteratorSpec;

mod items;
pub mod sized;
pub mod spec;

use crate::items::{array_into_vec, exact_array, map_items, take_next, zip_items};
use crate::spec::{
    can_fold_left, can_fold_right, can_generate, can_map, can_zip, folds_left, folds_right,
    generates_from, lemma_folds_left_push, lemma_folds_right_prepend, maps_to, zips_to,
};

verus! {

broadcast use vstd::array::group_array_axioms;

/// Generic array type.
///
/// This trait allows passing arrays by value in a generic way without turning them into slices,
/// so the functions get monomorphized for a specific size. Its view is the sequence of the
/// array's items.
pub trait Array<T>: View<V = Seq<T>> {
    /// The number of items that every value of the type holds.
    spec fn fixed_len() -> nat
        where
            Self: Sized,
    ;

    /// Returns the number of elements in the array.
    fn len(&self) -> (r: usize)
        ensures
            r == self@.len(),
    ;

    /// Returns true if the array has a length of 0.
    fn is_empty(&self) -> (r: bool)
        ensures
            r == (self@.len() == 0),
    ;

    /// Returns the first element of the array, or `None` if it is empty.
    fn first(&self) -> (r: Option<&T>)
        ensures
            self@.len() > 0 ==> r == Some(&self@[0]),
            self@.len() == 0 ==> r is None,
    ;

    /// Returns a mutable reference to the first element of the array, or `None` if it is empty.
    fn first_mut(&mut self) -> (r: Option<&mut T>)
        ensures
            old(self)@.len() > 0 ==> (r matches Some(x) && *x == old(self)@[0]
                && final(self)@ == old(self)@.update(0, *final(x))),
            old(self)@.len() == 0 ==> r is None && final(self)@ == old(self)@,
    ;

    /// Returns the last element of the array, or `None` if it is empty.
    fn last(&self) -> (r: Option<&T>)
        ensures
            self@.len() > 0 ==> r == Some(&self@.last()),
            self@.len() == 0 ==> r is None,
    ;

    /// Returns a mutable reference to the last element of the array, or `None` if it is empty.
    fn last_mut(&mut self) -> (r: Option<&mut T>)
        ensures
            old(self)@.len() > 0 ==> (r matches Some(x) && *x == old(self)@.last()
                && final(self)@ == old(self)@.update(old(self)@.len() - 1, *final(x))),
            old(self)@.len() == 0 ==> r is None && final(self)@ == old(self)@,
    ;

    /// Returns the element of an array at the given index, or `None` if the index is out of
    /// bounds.
    fn get(&self, index: usize) -> (r: Option<&T>)
        ensures
            index < self@.len() ==> r == Some(&self@[index as int]),
            index >= self@.len() ==> r is None,
    ;

    /// Returns a mutable reference to the element at the given index, or `None` if the index is
    /// out of bounds.
    fn get_mut(&mut self, index: usize) -> (r: Option<&mut T>)
        ensures
            index < old(self)@.len() ==> (r matches Some(x) && *x == old(self)@[index as int]
                && final(self)@ == old(self)@.update(index as int, *final(x))),
            index >= old(self)@.len() ==> r is None && final(self)@ == old(self)@,
    ;

    /// Extracts a slice containing the entire array.
    fn as_slice(&self) -> (r: &[T])
        ensures
            r@ == self@,
    ;

    /// Extracts a mutable slice of the entire array.
    fn as_mut_slice(&mut self) -> (r: &mut [T])
        ensures
            r@ == old(self)@,
            final(self)@ == final(r)@,
    ;

    /// Takes a `FnMut(T) -> T` closure and creates a new array by calling that closure on each
    /// element, first to last.
    fn map_<F>(self, f: F) -> (r: Self)
        where
            F: FnMut(T) -> T,
            Self: Sized,
        requires
            can_map(f, self@),
        ensures
            maps_to(f, self@, r@),
    ;

    /// Applies a function over the entire array, first element to last, producing a single
    /// final value.
    fn foldl<A, F>(self, acc: A, f: F) -> (r: A)
        where
            F: FnMut(A, T) -> A,
            Self: Sized,
        requires
            can_fold_left(f, acc, self@),
        ensures
            folds_left(f, acc, self@, r),
    ;

    /// Applies a function over the entire array, last element to first, producing a single
    /// final value.
    fn foldr<A, F>(self, acc: A, f: F) -> (r: A)
        where
            F: FnMut(A, T) -> A,
            Self: Sized,
        requires
            can_fold_right(f, acc, self@),
        ensures
            folds_right(f, acc, self@, r),
    ;

    /// Resizes the array, filling new spaces at the end with clones of the specified element;
    /// a shorter array keeps the first `S` elements.
    fn resize<const S: usize>(self, elem: T) -> (r: [T; S])
        where
            T: Clone,
            Self: Sized,
        ensures
            forall|i: int| 0 <= i < self@.len() && i < S ==> r@[i] == self@[i],
            forall|i: int| self@.len() <= i < S ==> cloned(elem, #[trigger] r@[i]),
    ;

    /// Resizes the array, filling new spaces at the end with the values that a function
    /// generates from their indices; a shorter array keeps the first `S` elements.
    fn resize_with<F, const S: usize>(self, f: F) -> (r: [T; S])
        where
            F: FnMut(usize) -> T,
            Self: Sized,
        requires
            can_generate(f, self@.len() as int, S as int),
        ensures
            forall|i: int| 0 <= i < self@.len() && i < S ==> r@[i] == self@[i],
            generates_from(f, self@.len() as int, r@),
    ;

    /// Creates a new array using the provided closure, called on each index in order.
    fn from_fn<F>(f: F) -> (r: Self)
        where
            F: FnMut(usize) -> T,
            Self: Sized,
        requires
            can_generate(f, 0, Self::fixed_len() as int),
        ensures
            r@.len() == Self::fixed_len(),
            generates_from(f, 0, r@),
    ;

    /// Creates an array by extracting elements from the provided iterator; `None` when it runs
    /// out first.
    fn from_iter(iter: impl Iterator<Item = T>) -> (r: Option<Self>)
        where
            Self: Sized,
        ensures
            iter.obeys_prophetic_iter_laws() ==> {
                &&& r is Some <==> iter.remaining().len() >= Self::fixed_len()
                &&& r matches Some(a) ==> a@ == iter.remaining().take(Self::fixed_len() as int)
            },
    ;
}

impl<T, const N: usize> Array<T> for [T; N] {
    open spec fn fixed_len() -> nat {
        N as nat
    }

    fn len(&self) -> (r: usize)
        ensures
            r == N,
    {
        N
    }

    fn is_empty(&self) -> (r: bool)
        ensures
            r == (N == 0),
    {
        N == 0
    }

    fn first(&self) -> Option<&T> {
        if N > 0 {
            Some(&self[0])
        } else {
            None
        }
    }

    fn first_mut(&mut self) -> Option<&mut T> {
        if N > 0 {
            Some(&mut self[0])
        } else {
            None
        }
    }

    fn last(&self) -> Option<&T> {
        if N > 0 {
            Some(&self[N - 1])
        } else {
            None
        }
    }

    fn last_mut(&mut self) -> Option<&mut T> {
        if N > 0 {
            Some(&mut self[N - 1])
        } else {
            None
        }
    }

    fn get(&self, index: usize) -> Option<&T> {
        if index < N {
            Some(&self[index])
        } else {
            None
        }
    }

    fn get_mut(&mut self, index: usize) -> Option<&mut T> {
        if index < N {
            Some(&mut self[index])
        } else {
            None
        }
    }

    fn as_slice(&self) -> &[T] {
        self
    }

    fn as_mut_slice(&mut self) -> &mut [T] {
        self
    }

    fn map_<F>(self, f: F) -> Self
        where
            F: FnMut(T) -> T,
    {
        map_items(self, f)
    }

    fn foldl<A, F>(self, acc: A, f: F) -> A
        where
            F: FnMut(A, T) -> A,
    {
        let ghost s = self@;
        let mut g = f;
        let mut cur = acc;
        proof {
            assert(s.skip(0) =~= s);
        }
        for x in it: array_into_vec(self).into_iter()
            invariant
                it.seq() == s,
                g == f,
                folds_left(f, acc, s.take(it.index()), cur),
                can_fold_left(f, cur, s.skip(it.index())),
        {
            let ghost i = it.index();
            let ghost prev = cur;
            proof {
                assert(s.skip(i).drop_first() =~= s.skip(i + 1));
            }
            cur = g(cur, x);
            proof {
                assert(s.take(i + 1) =~= s.take(i).push(s[i]));
                lemma_folds_left_push(f, acc, s.take(i), s[i], prev, cur);
            }
        }
        proof {
            assert(s.take(s.len() as int) =~= s);
        }
        cur
    }

    fn foldr<A, F>(self, acc: A, f: F) -> A
        where
            F: FnMut(A, T) -> A,
    {
        let ghost s = self@;
        let mut g = f;
        let mut cur = acc;
        let mut rest = array_into_vec(self);
        proof {
            assert(rest@ =~= s.take(s.len() as int));
            assert(s.skip(s.len() as int).len() == 0);
        }
        while rest.len() > 0
            invariant
                g == f,
                rest@.len() <= s.len(),
                rest@ == s.take(rest@.len() as int),
                folds_right(f, acc, s.skip(rest@.len() as int), cur),
                can_fold_right(f, cur, s.take(rest@.len() as int)),
            decreases rest@.len(),
        {
            let ghost k = rest@.len() as int;
            let ghost prev = cur;
            let x = rest.pop().unwrap();
            proof {
                assert(s.take(k).drop_last() =~= s.take(k - 1));
                assert(rest@ =~= s.take(k - 1));
            }
            cur = g(cur, x);
            proof {
                assert(s.skip(k - 1) =~= seq![s[k - 1]] + s.skip(k));
                lemma_folds_right_prepend(f, acc, s.skip(k), s[k - 1], prev, cur);
            }
        }
        proof {
            assert(s.skip(0) =~= s);
        }
        cur
    }

    fn resize<const S: usize>(self, elem: T) -> [T; S]
        where
            T: Clone,
    {
        let mut items = array_into_vec(self);
        items.truncate(S);
        let ghost kept = items@;
        while items.len() < S
            invariant
                kept.len() <= items@.len() <= S,
                kept == self@.take(kept.len() as int),
                kept.len() == if N < S { N as int } else { S as int },
                forall|i: int| 0 <= i < kept.len() ==> items@[i] == kept[i],
                forall|i: int| kept.len() <= i < items@.len() ==> cloned(elem, #[trigger] items@[i]),
            decreases S - items@.len(),
        {
            items.push(elem.clone());
        }
        assert forall|i: int| 0 <= i < N && i < S implies items@[i] == self@[i] by {
            assert(kept[i] == self@.take(kept.len() as int)[i]);
        }
        exact_array(items)
    }

    fn resize_with<F, const S: usize>(self, f: F) -> [T; S]
        where
            F: FnMut(usize) -> T,
    {
        let mut g = f;
        let mut items = array_into_vec(self);
        items.truncate(S);
        let ghost kept = items@;
        while items.len() < S
            invariant
                g == f,
                can_generate(f, N as int, S as int),
                kept.len() <= items@.len() <= S,
                kept == self@.take(kept.len() as int),
                kept.len() == if N < S { N as int } else { S as int },
                forall|i: int| 0 <= i < kept.len() ==> items@[i] == kept[i],
                generates_from(f, N as int, items@),
            decreases S - items@.len(),
        {
            let i = items.len();
            items.push(g(i));
        }
        assert forall|i: int| 0 <= i < N && i < S implies items@[i] == self@[i] by {
            assert(kept[i] == self@.take(kept.len() as int)[i]);
        }
        exact_array(items)
    }

    fn from_fn<F>(f: F) -> Self
        where
            F: FnMut(usize) -> T,
    {
        let mut g = f;
        let mut items: Vec<T> = Vec::new();
        while items.len() < N
            invariant
                g == f,
                can_generate(f, 0, N as int),
                items@.len() <= N,
                generates_from(f, 0, items@),
            decreases N - items@.len(),
        {
            let i = items.len();
            items.push(g(i));
        }
        exact_array(items)
    }

    fn from_iter(iter: impl Iterator<Item = T>) -> Option<Self> {
        let ghost obeys = iter.obeys_prophetic_iter_laws();
        let ghost all = iter.remaining();
        let mut rest = iter;
        let mut items: Vec<T> = Vec::new();
        while items.len() < N
            invariant
                items@.len() <= N,
                obeys == iter.obeys_prophetic_iter_laws(),
                all == iter.remaining(),
                rest.obeys_prophetic_iter_laws() == obeys,
                obeys ==> items@.len() <= all.len(),
                obeys ==> items@ == all.take(items@.len() as int),
                obeys ==> rest.remaining() == all.skip(items@.len() as int),
            decreases N - items@.len(),
        {
            let ghost k = items@.len() as int;
            match rest.next() {
                Some(x) => {
                    items.push(x);
                    proof {
                        if obeys {
                            assert(all.take(k + 1) =~= all.take(k).push(x));
                            assert(all.skip(k).drop_first() =~= all.skip(k + 1));
                        }
                    }
                },
                None => {
                    return None;
                },
            }
        }
        Some(exact_array(items))
    }
}

/// Array with size information on the type.
pub trait ArrayN<T, const N: usize>: Array<T> {
    /// Merges elements with another array by calling a `FnMut(T, U) -> Output` closure for each
    /// pair, first index to last.
    fn zip_with<U, Output, F>(self, other: [U; N], f: F) -> (r: [Output; N])
        where
            F: FnMut(T, U) -> Output,
            Self: Sized,
        requires
            can_zip(f, self@, other@),
        ensures
            zips_to(f, self@, other@, r@),
    ;

    /// Merges elements with another two arrays by calling a `FnMut(T, U, V) -> Output` closure
    /// for each tuple, first index to last.
    fn zip3_with<U, V, Output, F>(self, other1: [U; N], other2: [V; N], f: F) -> (r: [Output; N])
        where
            F: FnMut(T, U, V) -> Output,
            Self: Sized,
        requires
            forall|i: int| 0 <= i < N ==> #[trigger] f.requires((self@[i], other1@[i], other2@[i])),
        ensures
            forall|i: int| 0 <= i < N ==> f.ensures((self@[i], other1@[i], other2@[i]), #[trigger] r@[i]),
    ;

    /// Merges elements with another three arrays by calling a `FnMut(T, U, V, W) -> Output`
    /// closure for each tuple, first index to last.
    fn zip4_with<U, V, W, Output, F>(self, other1: [U; N], other2: [V; N], other3: [W; N], f: F) -> (r: [Output; N])
        where
            F: FnMut(T, U, V, W) -> Output,
            Self: Sized,
        requires
            forall|i: int| 0 <= i < N ==> #[trigger] f.requires((self@[i], other1@[i], other2@[i], other3@[i])),
        ensures
            forall|i: int| 0 <= i < N ==> f.ensures((self@[i], other1@[i], other2@[i], other3@[i]), #[trigger] r@[i]),
    ;

    /// Merges elements with another four arrays by calling a `FnMut(T, U, V, W, X) -> Output`
    /// closure for each tuple, first index to last.
    fn zip5_with<U, V, W, X, Output, F>(
        self,
        other1: [U; N],
        other2: [V; N],
        other3: [W; N],
        other4: [X; N],
        f: F,
    ) -> (r: [Output; N])
        where
            F: FnMut(T, U, V, W, X) -> Output,
            Self: Sized,
        requires
            forall|i: int| 0 <= i < N ==> #[trigger] f.requires((self@[i], other1@[i], other2@[i], other3@[i], other4@[i])),
        ensures
            forall|i: int| 0 <= i < N ==> f.ensures((self@[i], other1@[i], other2@[i], other3@[i], other4@[i]), #[trigger] r@[i]),
    ;

    /// Converts this object into its concrete array type.
    fn downcast(self) -> (r: [T; N])
        where
            Self: Sized,
        ensures
            r@ == self@,
    ;

    /// Gets a reference to this object's concrete array type.
    fn downcast_ref(&self) -> (r: &[T; N])
        ensures
            r@ == self@,
    ;

    /// Gets a mutable reference to this object's concrete array type.
    fn downcast_mut(&mut self) -> (r: &mut [T; N])
        ensures
            r@ == old(self)@,
            final(self)@ == final(r)@,
    ;

    /// Concatenates two arrays together; `S` is the sum of their lengths.
    fn concat<const M: usize, const S: usize>(self, other: [T; M]) -> (r: [T; S])
        where
            Self: Sized,
        requires
            S == N + M,
        ensures
            r@ == self@ + other@,
    ;

    /// Splits an array into its first `P` elements and the `Q` elements after them.
    fn split<const P: usize, const Q: usize>(self) -> (r: ([T; P], [T; Q]))
        where
            Self: Sized,
        requires
            P + Q == N,
        ensures
            r.0@ == self@.take(P as int),
            r.1@ == self@.skip(P as int),
    ;
}

impl<T, const N: usize> ArrayN<T, N> for [T; N] {
    fn zip_with<U, Output, F>(self, other: [U; N], f: F) -> [Output; N]
        where
            F: FnMut(T, U) -> Output,
    {
        zip_items(self, other, f)
    }

    fn zip3_with<U, V, Output, F>(self, other1: [U; N], other2: [V; N], f: F) -> [Output; N]
        where
            F: FnMut(T, U, V) -> Output,
    {
        let ghost (s, t1, t2) = (self@, other1@, other2@);
        let mut g = f;
        let mut it1 = array_into_vec(other1).into_iter();
        let mut it2 = array_into_vec(other2).into_iter();
        let mut out: Vec<Output> = Vec::new();
        for x in it: array_into_vec(self).into_iter()
            invariant
                it.seq() == s,
                g == f,
                s.len() == N && t1.len() == N && t2.len() == N,
                forall|i: int| 0 <= i < N ==> #[trigger] f.requires((s[i], t1[i], t2[i])),
                it1.obeys_prophetic_iter_laws() && it1.remaining() == t1.skip(it.index()),
                it2.obeys_prophetic_iter_laws() && it2.remaining() == t2.skip(it.index()),
                out@.len() == it.index(),
                forall|i: int| 0 <= i < it.index() ==> f.ensures((s[i], t1[i], t2[i]), #[trigger] out@[i]),
        {
            let y1 = take_next(&mut it1);
            let y2 = take_next(&mut it2);
            out.push(g(x, y1, y2));
        }
        exact_array(out)
    }

    fn zip4_with<U, V, W, Output, F>(self, other1: [U; N], other2: [V; N], other3: [W; N], f: F) -> [Output; N]
        where
            F: FnMut(T, U, V, W) -> Output,
    {
        let ghost (s, t1, t2, t3) = (self@, other1@, other2@, other3@);
        let mut g = f;
        let mut it1 = array_into_vec(other1).into_iter();
        let mut it2 = array_into_vec(other2).into_iter();
        let mut it3 = array_into_vec(other3).into_iter();
        let mut out: Vec<Output> = Vec::new();
        for x in it: array_into_vec(self).into_iter()
            invariant
                it.seq() == s,
                g == f,
                s.len() == N && t1.len() == N && t2.len() == N && t3.len() == N,
                forall|i: int| 0 <= i < N ==> #[trigger] f.requires((s[i], t1[i], t2[i], t3[i])),
                it1.obeys_prophetic_iter_laws() && it1.remaining() == t1.skip(it.index()),
                it2.obeys_prophetic_iter_laws() && it2.remaining() == t2.skip(it.index()),
                it3.obeys_prophetic_iter_laws() && it3.remaining() == t3.skip(it.index()),
                out@.len() == it.index(),
                forall|i: int| 0 <= i < it.index() ==> f.ensures((s[i], t1[i], t2[i], t3[i]), #[trigger] out@[i]),
        {
            let y1 = take_next(&mut it1);
            let y2 = take_next(&mut it2);
            let y3 = take_next(&mut it3);
            out.push(g(x, y1, y2, y3));
        }
        exact_array(out)
    }

    fn zip5_with<U, V, W, X, Output, F>(
        self,
        other1: [U; N],
        other2: [V; N],
        other3: [W; N],
        other4: [X; N],
        f: F,
    ) -> [Output; N]
        where
            F: FnMut(T, U, V, W, X) -> Output,
    {
        let ghost (s, t1, t2, t3, t4) = (self@, other1@, other2@, other3@, other4@);
        let mut g = f;
        let mut it1 = array_into_vec(other1).into_iter();
        let mut it2 = array_into_vec(other2).into_iter();
        let mut it3 = array_into_vec(other3).into_iter();
        let mut it4 = array_into_vec(other4).into_iter();
        let mut out: Vec<Output> = Vec::new();
        for x in it: array_into_vec(self).into_iter()
            invariant
                it.seq() == s,
                g == f,
                s.len() == N && t1.len() == N && t2.len() == N && t3.len() == N && t4.len() == N,
                forall|i: int| 0 <= i < N ==> #[trigger] f.requires((s[i], t1[i], t2[i], t3[i], t4[i])),
                it1.obeys_prophetic_iter_laws() && it1.remaining() == t1.skip(it.index()),
                it2.obeys_prophetic_iter_laws() && it2.remaining() == t2.skip(it.index()),
                it3.obeys_prophetic_iter_laws() && it3.remaining() == t3.skip(it.index()),
                it4.obeys_prophetic_iter_laws() && it4.remaining() == t4.skip(it.index()),
                out@.len() == it.index(),
                forall|i: int| 0 <= i < it.index() ==> f.ensures((s[i], t1[i], t2[i], t3[i], t4[i]), #[trigger] out@[i]),
        {
            let y1 = take_next(&mut it1);
            let y2 = take_next(&mut it2);
            let y3 = take_next(&mut it3);
            let y4 = take_next(&mut it4);
            out.push(g(x, y1, y2, y3, y4));
        }
        exact_array(out)
    }

    fn downcast(self) -> [T; N] {
        self
    }

    fn downcast_ref(&self) -> &[T; N] {
        self
    }

    fn downcast_mut(&mut self) -> &mut [T; N] {
        self
    }

    fn concat<const M: usize, const S: usize>(self, other: [T; M]) -> [T; S] {
        let mut items = array_into_vec(self);
        let mut more = array_into_vec(other);
        items.append(&mut more);
        exact_array(items)
    }

    fn split<const P: usize, const Q: usize>(self) -> ([T; P], [T; Q]) {
        let mut items = array_into_vec(self);
        let right = items.split_off(P);
        (exact_array(items), exact_array(right))
    }
}

} // verus!
