//! Laws that relate several operations of the wrapper.
use vstd::prelude::*;
use vstd::std_specs::cmp::{PartialEqIs, PartialEqSpec, PartialOrdIs, PartialOrdSpec};
use crate::NoCopy;

verus! {

/// Wrapping a freely duplicable value and unwrapping it again gives the
/// value back, and wrapping the same value twice gives equal wrappers.
pub proof fn lemma_copy_round_trip<T: Copy>(x: T, w1: NoCopy<T>, w2: NoCopy<T>, y: T)
    requires
        call_ensures(NoCopy::<T>::from_copy, (x,), w1),
        call_ensures(NoCopy::<T>::from_copy, (x,), w2),
        call_ensures(NoCopy::<T>::into_inner, (w1,), y),
    ensures
        y == x,
        w1 == w2,
{
}

/// Wrapped values compare as their payloads do, against another wrapper and
/// against a bare payload: if `a < b`, then `wrap(a) < wrap(b)` and
/// `wrap(a) < b`; and `wrap(a) == a` whenever `a == a`.
pub proof fn lemma_order_consistent<T: PartialOrd>(a: T, b: T)
    requires
        <T as PartialOrdSpec>::obeys_partial_cmp_spec(),
        <T as PartialEqSpec>::obeys_eq_spec(),
    ensures
        NoCopy(a).partial_cmp_spec(&NoCopy(b)) == a.partial_cmp_spec(&b),
        NoCopy(a).partial_cmp_spec(&b) == a.partial_cmp_spec(&b),
        forall|r: bool|
            #![trigger call_ensures(<NoCopy<T> as PartialOrd>::lt, (&NoCopy(a), &NoCopy(b)), r)]
            call_ensures(<NoCopy<T> as PartialOrd>::lt, (&NoCopy(a), &NoCopy(b)), r) ==> (r
                <==> a.is_lt(&b)),
        forall|r: bool|
            #![trigger call_ensures(<NoCopy<T> as PartialOrd<T>>::lt, (&NoCopy(a), &b), r)]
            call_ensures(<NoCopy<T> as PartialOrd<T>>::lt, (&NoCopy(a), &b), r) ==> (r
                <==> a.is_lt(&b)),
        forall|r: bool|
            #![trigger call_ensures(<NoCopy<T> as PartialEq<T>>::eq, (&NoCopy(a), &a), r)]
            call_ensures(<NoCopy<T> as PartialEq<T>>::eq, (&NoCopy(a), &a), r) ==> (r
                <==> a.is_eq(&a)),
{
}

/// Indexing a wrapper accepts exactly the indices that the payload accepts,
/// and yields what indexing the payload yields.
pub proof fn lemma_index_transparent<T: core::ops::Index<U>, U>(x: T, i: U, r: &T::Output)
    ensures
        <NoCopy<T> as vstd::std_specs::core::IndexSpec<U>>::index_req(&NoCopy(x), &i)
            == <T as vstd::std_specs::core::IndexSpec<U>>::index_req(&x, &i),
        call_ensures(<NoCopy<T> as core::ops::Index<U>>::index, (&NoCopy(x), i), r)
            ==> call_ensures(T::index, (&x, i), r),
{
}

} // verus!
