//! What the array operations compute, stated over the arrays' views, and the laws that relate
//! them.
use vstd::prelude::*;

verus! {

/// `f` may be called on every item of `s`.
pub open spec fn can_map<T, U, F: FnMut(T) -> U>(f: F, s: Seq<T>) -> bool {
    forall|i: int| 0 <= i < s.len() ==> #[trigger] f.requires((s[i],))
}

/// `r` holds, index by index, a result of `f` on the item of `s` at that index.
pub open spec fn maps_to<T, U, F: FnMut(T) -> U>(f: F, s: Seq<T>, r: Seq<U>) -> bool {
    &&& r.len() == s.len()
    &&& forall|i: int| 0 <= i < s.len() ==> f.ensures((s[i],), #[trigger] r[i])
}

/// `f` may be called on each index from `lo` up to, but not including, `hi`.
pub open spec fn can_generate<T, F: FnMut(usize) -> T>(f: F, lo: int, hi: int) -> bool {
    forall|i: usize| lo <= i < hi ==> #[trigger] f.requires((i,))
}

/// Each item of `r` from index `lo` on is a result of `f` on its own index.
pub open spec fn generates_from<T, F: FnMut(usize) -> T>(f: F, lo: int, r: Seq<T>) -> bool {
    forall|i: int| lo <= i < r.len() ==> f.ensures((i as usize,), #[trigger] r[i])
}

/// `f` may be called on every pair of items of `s` and `t` that share an index.
pub open spec fn can_zip<T, U, V, F: FnMut(T, U) -> V>(f: F, s: Seq<T>, t: Seq<U>) -> bool {
    forall|i: int| 0 <= i < s.len() ==> #[trigger] f.requires((s[i], t[i]))
}

/// `r` holds, index by index, a result of `f` on the items of `s` and `t` at that index.
pub open spec fn zips_to<T, U, V, F: FnMut(T, U) -> V>(f: F, s: Seq<T>, t: Seq<U>, r: Seq<V>) -> bool {
    &&& r.len() == s.len()
    &&& forall|i: int| 0 <= i < s.len() ==> f.ensures((s[i], t[i]), #[trigger] r[i])
}

/// Every accumulator that folding `s` from the left can reach, starting from `acc`, may be
/// combined with the next item.
pub open spec fn can_fold_left<A, T, F: FnMut(A, T) -> A>(f: F, acc: A, s: Seq<T>) -> bool
    decreases s.len(),
{
    s.len() > 0 ==> {
        &&& f.requires((acc, s[0]))
        &&& forall|b: A| #[trigger] f.ensures((acc, s[0]), b) ==> can_fold_left(f, b, s.drop_first())
    }
}

/// `r` is an outcome of folding `s` from the left: `seed` is combined with the first item,
/// that result with the second item, and so on up to the last item.
pub open spec fn folds_left<A, T, F: FnMut(A, T) -> A>(f: F, seed: A, s: Seq<T>, r: A) -> bool
    decreases s.len(),
{
    if s.len() == 0 {
        r == seed
    } else {
        exists|m: A| folds_left(f, seed, s.drop_last(), m) && #[trigger] f.ensures((m, s.last()), r)
    }
}

/// Every accumulator that folding `s` from the right can reach, starting from `acc`, may be
/// combined with the next item.
pub open spec fn can_fold_right<A, T, F: FnMut(A, T) -> A>(f: F, acc: A, s: Seq<T>) -> bool
    decreases s.len(),
{
    s.len() > 0 ==> {
        &&& f.requires((acc, s.last()))
        &&& forall|b: A| #[trigger] f.ensures((acc, s.last()), b) ==> can_fold_right(f, b, s.drop_last())
    }
}

/// `r` is an outcome of folding `s` from the right: `seed` is combined with the last item,
/// that result with the item before it, and so on down to the first item.
pub open spec fn folds_right<A, T, F: FnMut(A, T) -> A>(f: F, seed: A, s: Seq<T>, r: A) -> bool
    decreases s.len(),
{
    if s.len() == 0 {
        r == seed
    } else {
        exists|m: A| folds_right(f, seed, s.drop_first(), m) && #[trigger] f.ensures((m, s[0]), r)
    }
}

/// Mapping with a function that hands every item back as it was leaves the sequence as it was.
pub proof fn lemma_map_identity<T, F: FnMut(T) -> T>(f: F, s: Seq<T>, r: Seq<T>)
    requires
        forall|x: T, y: T| #[trigger] f.ensures((x,), y) ==> y == x,
        maps_to(f, s, r),
    ensures
        r == s,
{
    assert(r =~= s);
}

/// Folding from the right over the reverse of `s` has exactly the outcomes of folding from the
/// left over `s`, and may be done from exactly the same seeds; so does, read the other way,
/// folding from the right over `s` and from the left over its reverse.
pub proof fn lemma_fold_right_of_reversed<A, T, F: FnMut(A, T) -> A>(f: F, seed: A, s: Seq<T>, t: Seq<T>)
    requires
        t == s.reverse(),
    ensures
        forall|r: A| folds_right(f, seed, t, r) <==> folds_left(f, seed, s, r),
        forall|r: A| folds_right(f, seed, s, r) <==> folds_left(f, seed, t, r),
        can_fold_right(f, seed, t) <==> can_fold_left(f, seed, s),
        can_fold_right(f, seed, s) <==> can_fold_left(f, seed, t),
{
    assert(t.reverse() =~= s);
    lemma_folds_right_reverse(f, seed, s);
    lemma_folds_right_reverse(f, seed, t);
    lemma_can_fold_right_reverse(f, s);
    lemma_can_fold_right_reverse(f, t);
}

proof fn lemma_folds_right_reverse<A, T, F: FnMut(A, T) -> A>(f: F, seed: A, s: Seq<T>)
    ensures
        forall|r: A| folds_right(f, seed, s, r) <==> folds_left(f, seed, s.reverse(), r),
    decreases s.len(),
{
    if s.len() > 0 {
        let u = s.reverse();
        assert(u.drop_last() =~= s.drop_first().reverse());
        assert(u.last() == s[0]);
        lemma_folds_right_reverse(f, seed, s.drop_first());
        assert forall|r: A| folds_right(f, seed, s, r) <==> folds_left(f, seed, u, r) by {
            if folds_right(f, seed, s, r) {
                let m = choose|m: A| folds_right(f, seed, s.drop_first(), m) && #[trigger] f.ensures((m, s[0]), r);
                assert(folds_left(f, seed, u.drop_last(), m) && f.ensures((m, u.last()), r));
            }
            if folds_left(f, seed, u, r) {
                let m = choose|m: A| folds_left(f, seed, u.drop_last(), m) && #[trigger] f.ensures((m, u.last()), r);
                assert(folds_right(f, seed, s.drop_first(), m) && f.ensures((m, s[0]), r));
            }
        }
    }
}

proof fn lemma_can_fold_right_reverse<A, T, F: FnMut(A, T) -> A>(f: F, s: Seq<T>)
    ensures
        forall|a: A| can_fold_right(f, a, s) <==> can_fold_left(f, a, s.reverse()),
    decreases s.len(),
{
    if s.len() > 0 {
        let u = s.reverse();
        assert(u.drop_first() =~= s.drop_last().reverse());
        assert(u[0] == s.last());
        lemma_can_fold_right_reverse(f, s.drop_last());
        assert forall|a: A| can_fold_right(f, a, s) <==> can_fold_left(f, a, u) by {
            assert forall|b: A| #[trigger] f.ensures((a, s.last()), b) implies (can_fold_right(f, b, s.drop_last())
                <==> can_fold_left(f, b, u.drop_first())) by {}
        }
    }
}

/// A function that may be called on every accumulator and every item may fold any sequence,
/// from either end.
pub proof fn lemma_can_fold_total<A, T, F: FnMut(A, T) -> A>(f: F, seed: A, s: Seq<T>)
    requires
        forall|a: A, t: T| #[trigger] f.requires((a, t)),
    ensures
        can_fold_left(f, seed, s),
        can_fold_right(f, seed, s),
    decreases s.len(),
{
    if s.len() > 0 {
        assert forall|b: A| #[trigger] f.ensures((seed, s[0]), b) implies can_fold_left(f, b, s.drop_first()) by {
            lemma_can_fold_total(f, b, s.drop_first());
        }
        assert forall|b: A| #[trigger] f.ensures((seed, s.last()), b) implies can_fold_right(f, b, s.drop_last()) by {
            lemma_can_fold_total(f, b, s.drop_last());
        }
    }
}

/// Where a call of `f` can only return `g` of its arguments, the outcome of folding from the
/// left is the fold of `g` from the left, and the outcome of folding from the right is the fold
/// of `g` from the right, with the last item combined first.
pub proof fn lemma_folds_by_function<A, T, F: FnMut(A, T) -> A>(f: F, g: spec_fn(A, T) -> A, seed: A, s: Seq<T>, r: A)
    requires
        forall|a: A, t: T, b: A| #[trigger] f.ensures((a, t), b) ==> b == g(a, t),
    ensures
        folds_left(f, seed, s, r) ==> r == s.fold_left(seed, g),
        folds_right(f, seed, s, r) ==> r == s.fold_right(|t: T, a: A| g(a, t), seed),
    decreases s.len(),
{
    let h = |t: T, a: A| g(a, t);
    s.lemma_fold_right_alt(h, seed);
    if s.len() > 0 {
        if folds_left(f, seed, s, r) {
            let m = choose|m: A| folds_left(f, seed, s.drop_last(), m) && #[trigger] f.ensures((m, s.last()), r);
            lemma_folds_by_function(f, g, seed, s.drop_last(), m);
        }
        if folds_right(f, seed, s, r) {
            let m = choose|m: A| folds_right(f, seed, s.drop_first(), m) && #[trigger] f.ensures((m, s[0]), r);
            lemma_folds_by_function(f, g, seed, s.drop_first(), m);
            s.drop_first().lemma_fold_right_alt(h, seed);
            assert(s.subrange(1, s.len() as int) =~= s.drop_first());
        }
    }
}

/// Folding one more item onto the end of `s` extends an outcome of folding `s` from the left.
pub(crate) proof fn lemma_folds_left_push<A, T, F: FnMut(A, T) -> A>(f: F, seed: A, s: Seq<T>, x: T, m: A, r: A)
    requires
        folds_left(f, seed, s, m),
        f.ensures((m, x), r),
    ensures
        folds_left(f, seed, s.push(x), r),
{
    let t = s.push(x);
    assert(t.drop_last() =~= s);
    assert(folds_left(f, seed, t.drop_last(), m) && f.ensures((m, t.last()), r));
}

/// Folding one more item from the front of `s` extends an outcome of folding `s` from the right.
pub(crate) proof fn lemma_folds_right_prepend<A, T, F: FnMut(A, T) -> A>(f: F, seed: A, s: Seq<T>, x: T, m: A, r: A)
    requires
        folds_right(f, seed, s, m),
        f.ensures((m, x), r),
    ensures
        folds_right(f, seed, seq![x] + s, r),
{
    let t = seq![x] + s;
    assert(t.drop_first() =~= s);
    assert(folds_right(f, seed, t.drop_first(), m) && f.ensures((m, t[0]), r));
}

} // verus!
