//! Equality and ordering, against another wrapper and against a bare payload.
use vstd::prelude::*;
use vstd::std_specs::cmp::{PartialEqSpec, PartialEqSpecImpl, PartialOrdSpec, PartialOrdSpecImpl};
use crate::NoCopy;
use core::cmp::Ordering;

verus! {

impl<T: PartialEq> PartialEqSpecImpl for NoCopy<T> {
    open spec fn obeys_eq_spec() -> bool {
        <T as PartialEqSpec>::obeys_eq_spec()
    }

    open spec fn eq_spec(&self, other: &NoCopy<T>) -> bool {
        self.0.eq_spec(&other.0)
    }
}

impl<T: PartialEq> PartialEq for NoCopy<T> {
    fn eq(&self, other: &NoCopy<T>) -> (r: bool)
        ensures
            call_ensures(T::eq, (&self.0, &other.0), r),
    {
        self.0.eq(&other.0)
    }

    fn ne(&self, other: &NoCopy<T>) -> (r: bool)
        ensures
            call_ensures(T::ne, (&self.0, &other.0), r),
    {
        self.0.ne(&other.0)
    }
}

impl<T: Eq> Eq for NoCopy<T> {}

impl<T: PartialEq> PartialEqSpecImpl<T> for NoCopy<T> {
    open spec fn obeys_eq_spec() -> bool {
        <T as PartialEqSpec>::obeys_eq_spec()
    }

    open spec fn eq_spec(&self, other: &T) -> bool {
        self.0.eq_spec(other)
    }
}

impl<T: PartialEq> PartialEq<T> for NoCopy<T> {
    fn eq(&self, other: &T) -> (r: bool)
        ensures
            call_ensures(T::eq, (&self.0, other), r),
    {
        self.0.eq(other)
    }

    fn ne(&self, other: &T) -> (r: bool)
        ensures
            call_ensures(T::ne, (&self.0, other), r),
    {
        self.0.ne(other)
    }
}

impl<T: PartialOrd> PartialOrdSpecImpl for NoCopy<T> {
    open spec fn obeys_partial_cmp_spec() -> bool {
        <T as PartialOrdSpec>::obeys_partial_cmp_spec()
    }

    open spec fn partial_cmp_spec(&self, other: &NoCopy<T>) -> Option<Ordering> {
        self.0.partial_cmp_spec(&other.0)
    }
}

impl<T: PartialOrd> PartialOrd for NoCopy<T> {
    fn partial_cmp(&self, other: &NoCopy<T>) -> (r: Option<Ordering>)
        ensures
            call_ensures(T::partial_cmp, (&self.0, &other.0), r),
    {
        self.0.partial_cmp(&other.0)
    }

    fn lt(&self, other: &NoCopy<T>) -> (r: bool)
        ensures
            call_ensures(T::lt, (&self.0, &other.0), r),
    {
        self.0.lt(&other.0)
    }

    fn le(&self, other: &NoCopy<T>) -> (r: bool)
        ensures
            call_ensures(T::le, (&self.0, &other.0), r),
    {
        self.0.le(&other.0)
    }

    fn gt(&self, other: &NoCopy<T>) -> (r: bool)
        ensures
            call_ensures(T::gt, (&self.0, &other.0), r),
    {
        self.0.gt(&other.0)
    }

    fn ge(&self, other: &NoCopy<T>) -> (r: bool)
        ensures
            call_ensures(T::ge, (&self.0, &other.0), r),
    {
        self.0.ge(&other.0)
    }
}

impl<T: PartialOrd> PartialOrdSpecImpl<T> for NoCopy<T> {
    open spec fn obeys_partial_cmp_spec() -> bool {
        <T as PartialOrdSpec>::obeys_partial_cmp_spec()
    }

    open spec fn partial_cmp_spec(&self, other: &T) -> Option<Ordering> {
        self.0.partial_cmp_spec(other)
    }
}

impl<T: PartialOrd> PartialOrd<T> for NoCopy<T> {
    fn partial_cmp(&self, other: &T) -> (r: Option<Ordering>)
        ensures
            call_ensures(T::partial_cmp, (&self.0, other), r),
    {
        self.0.partial_cmp(other)
    }

    fn lt(&self, other: &T) -> (r: bool)
        ensures
            call_ensures(T::lt, (&self.0, other), r),
    {
        self.0.lt(other)
    }

    fn le(&self, other: &T) -> (r: bool)
        ensures
            call_ensures(T::le, (&self.0, other), r),
    {
        self.0.le(other)
    }

    fn gt(&self, other: &T) -> (r: bool)
        ensures
            call_ensures(T::gt, (&self.0, other), r),
    {
        self.0.gt(other)
    }

    fn ge(&self, other: &T) -> (r: bool)
        ensures
            call_ensures(T::ge, (&self.0, other), r),
    {
        self.0.ge(other)
    }
}

} // verus!
