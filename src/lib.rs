//! A wrapper that keeps every capability of the value it holds except
//! implicit duplication.
//!
//! `NoCopy<T>` never derives `Copy`. Where the payload is itself freely
//! duplicable, the explicit `from_copy` / `into_inner` pair and `clone` are
//! offered; for any other payload the wrapper can only be moved.
//! Every forwarded operation has the precondition of the payload's own
//! operation, and states in its contract that its result is one that the
//! payload's operation gives on the same arguments.
use vstd::prelude::*;

mod cmp;
pub mod laws;
mod ops;

verus! {

/// A single-field container around a value of type `T`.
///
/// The wrapper adds no state: its only field is the payload, and its
/// equality, ordering and hashing are those of the payload.
#[derive(Ord, Hash)]
pub struct NoCopy<T>(pub T);

impl<T: Copy> NoCopy<T> {
    /// Wraps a value whose type is freely duplicable; the caller keeps its
    /// own copy of `value`.
    pub fn from_copy(value: T) -> (r: Self)
        ensures
            r == NoCopy(value),
    {
        NoCopy(value)
    }

    /// Hands back the payload of a wrapper around a freely duplicable value.
    pub fn into_inner(this: Self) -> (r: T)
        ensures
            r == this.0,
    {
        this.0
    }
}

impl<T: Copy> Clone for NoCopy<T> {
    /// Duplicates the wrapper, which only a freely duplicable payload allows.
    fn clone(&self) -> (r: Self)
        ensures
            r == *self,
    {
        NoCopy(self.0)
    }
}

impl<T> From<T> for NoCopy<T> {
    fn from(value: T) -> (r: Self)
        ensures
            r == NoCopy(value),
    {
        NoCopy(value)
    }
}

impl<T> vstd::std_specs::convert::FromSpecImpl<T> for NoCopy<T> {
    open spec fn obeys_from_spec() -> bool {
        true
    }

    open spec fn from_spec(v: T) -> Self {
        NoCopy(v)
    }
}

impl<T: Default> Default for NoCopy<T> {
    /// Wraps the payload type's own default value.
    fn default() -> (r: Self)
        ensures
            call_ensures(T::default, (), r.0),
    {
        NoCopy(T::default())
    }
}

impl<T> core::ops::Deref for NoCopy<T> {
    type Target = T;

    fn deref(&self) -> (r: &T)
        ensures
            *r == self.0,
    {
        &self.0
    }
}

impl<T> core::ops::DerefMut for NoCopy<T> {
    fn deref_mut(&mut self) -> (r: &mut T)
        ensures
            *r == old(self).0,
            *final(self) == NoCopy(*final(r)),
    {
        &mut self.0
    }
}

impl<T> core::borrow::Borrow<T> for NoCopy<T> {
    fn borrow(&self) -> &T {
        &self.0
    }
}

impl<T> core::borrow::BorrowMut<T> for NoCopy<T> {
    fn borrow_mut(&mut self) -> &mut T {
        &mut self.0
    }
}

} // verus!
