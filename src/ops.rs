//! Operators: each one is the payload's own operator applied to the payload.
//!
//! The precondition of each operator on the wrapper is the payload's, so an
//! operation that the payload rejects (overflow, division by zero, a shift
//! past the width) is rejected on the wrapper under the same conditions.
use vstd::prelude::*;
use vstd::std_specs::ops::{
    AddSpec, AddSpecImpl, SubSpec, SubSpecImpl, MulSpec, MulSpecImpl, DivSpec, DivSpecImpl,
    RemSpec, RemSpecImpl, BitAndSpec, BitAndSpecImpl, BitOrSpec, BitOrSpecImpl, BitXorSpec,
    BitXorSpecImpl, ShlSpec, ShlSpecImpl, ShrSpec, ShrSpecImpl, NegSpec, NegSpecImpl, NotSpec,
    NotSpecImpl,
};
use crate::NoCopy;

verus! {

impl<T: core::ops::Add<U>, U> AddSpecImpl<U> for NoCopy<T> {
    open spec fn obeys_add_spec() -> bool {
        <T as AddSpec<U>>::obeys_add_spec()
    }

    open spec fn add_req(self, rhs: U) -> bool {
        self.0.add_req(rhs)
    }

    open spec fn add_spec(self, rhs: U) -> T::Output {
        self.0.add_spec(rhs)
    }
}

impl<T: core::ops::Add<U>, U> core::ops::Add<U> for NoCopy<T> {
    type Output = T::Output;

    fn add(self, rhs: U) -> (r: T::Output)
        ensures
            call_ensures(T::add, (self.0, rhs), r),
    {
        self.0.add(rhs)
    }
}

impl<T: core::ops::Sub<U>, U> SubSpecImpl<U> for NoCopy<T> {
    open spec fn obeys_sub_spec() -> bool {
        <T as SubSpec<U>>::obeys_sub_spec()
    }

    open spec fn sub_req(self, rhs: U) -> bool {
        self.0.sub_req(rhs)
    }

    open spec fn sub_spec(self, rhs: U) -> T::Output {
        self.0.sub_spec(rhs)
    }
}

impl<T: core::ops::Sub<U>, U> core::ops::Sub<U> for NoCopy<T> {
    type Output = T::Output;

    fn sub(self, rhs: U) -> (r: T::Output)
        ensures
            call_ensures(T::sub, (self.0, rhs), r),
    {
        self.0.sub(rhs)
    }
}

impl<T: core::ops::Mul<U>, U> MulSpecImpl<U> for NoCopy<T> {
    open spec fn obeys_mul_spec() -> bool {
        <T as MulSpec<U>>::obeys_mul_spec()
    }

    open spec fn mul_req(self, rhs: U) -> bool {
        self.0.mul_req(rhs)
    }

    open spec fn mul_spec(self, rhs: U) -> T::Output {
        self.0.mul_spec(rhs)
    }
}

impl<T: core::ops::Mul<U>, U> core::ops::Mul<U> for NoCopy<T> {
    type Output = T::Output;

    fn mul(self, rhs: U) -> (r: T::Output)
        ensures
            call_ensures(T::mul, (self.0, rhs), r),
    {
        self.0.mul(rhs)
    }
}

impl<T: core::ops::Div<U>, U> DivSpecImpl<U> for NoCopy<T> {
    open spec fn obeys_div_spec() -> bool {
        <T as DivSpec<U>>::obeys_div_spec()
    }

    open spec fn div_req(self, rhs: U) -> bool {
        self.0.div_req(rhs)
    }

    open spec fn div_spec(self, rhs: U) -> T::Output {
        self.0.div_spec(rhs)
    }
}

impl<T: core::ops::Div<U>, U> core::ops::Div<U> for NoCopy<T> {
    type Output = T::Output;

    fn div(self, rhs: U) -> (r: T::Output)
        ensures
            call_ensures(T::div, (self.0, rhs), r),
    {
        self.0.div(rhs)
    }
}

impl<T: core::ops::Rem<U>, U> RemSpecImpl<U> for NoCopy<T> {
    open spec fn obeys_rem_spec() -> bool {
        <T as RemSpec<U>>::obeys_rem_spec()
    }

    open spec fn rem_req(self, rhs: U) -> bool {
        self.0.rem_req(rhs)
    }

    open spec fn rem_spec(self, rhs: U) -> T::Output {
        self.0.rem_spec(rhs)
    }
}

impl<T: core::ops::Rem<U>, U> core::ops::Rem<U> for NoCopy<T> {
    type Output = T::Output;

    fn rem(self, rhs: U) -> (r: T::Output)
        ensures
            call_ensures(T::rem, (self.0, rhs), r),
    {
        self.0.rem(rhs)
    }
}

impl<T: core::ops::BitAnd<U>, U> BitAndSpecImpl<U> for NoCopy<T> {
    open spec fn obeys_bitand_spec() -> bool {
        <T as BitAndSpec<U>>::obeys_bitand_spec()
    }

    open spec fn bitand_req(self, rhs: U) -> bool {
        self.0.bitand_req(rhs)
    }

    open spec fn bitand_spec(self, rhs: U) -> T::Output {
        self.0.bitand_spec(rhs)
    }
}

impl<T: core::ops::BitAnd<U>, U> core::ops::BitAnd<U> for NoCopy<T> {
    type Output = T::Output;

    fn bitand(self, rhs: U) -> (r: T::Output)
        ensures
            call_ensures(T::bitand, (self.0, rhs), r),
    {
        self.0.bitand(rhs)
    }
}

impl<T: core::ops::BitOr<U>, U> BitOrSpecImpl<U> for NoCopy<T> {
    open spec fn obeys_bitor_spec() -> bool {
        <T as BitOrSpec<U>>::obeys_bitor_spec()
    }

    open spec fn bitor_req(self, rhs: U) -> bool {
        self.0.bitor_req(rhs)
    }

    open spec fn bitor_spec(self, rhs: U) -> T::Output {
        self.0.bitor_spec(rhs)
    }
}

impl<T: core::ops::BitOr<U>, U> core::ops::BitOr<U> for NoCopy<T> {
    type Output = T::Output;

    fn bitor(self, rhs: U) -> (r: T::Output)
        ensures
            call_ensures(T::bitor, (self.0, rhs), r),
    {
        self.0.bitor(rhs)
    }
}

impl<T: core::ops::BitXor<U>, U> BitXorSpecImpl<U> for NoCopy<T> {
    open spec fn obeys_bitxor_spec() -> bool {
        <T as BitXorSpec<U>>::obeys_bitxor_spec()
    }

    open spec fn bitxor_req(self, rhs: U) -> bool {
        self.0.bitxor_req(rhs)
    }

    open spec fn bitxor_spec(self, rhs: U) -> T::Output {
        self.0.bitxor_spec(rhs)
    }
}

impl<T: core::ops::BitXor<U>, U> core::ops::BitXor<U> for NoCopy<T> {
    type Output = T::Output;

    fn bitxor(self, rhs: U) -> (r: T::Output)
        ensures
            call_ensures(T::bitxor, (self.0, rhs), r),
    {
        self.0.bitxor(rhs)
    }
}

impl<T: core::ops::Shl<U>, U> ShlSpecImpl<U> for NoCopy<T> {
    open spec fn obeys_shl_spec() -> bool {
        <T as ShlSpec<U>>::obeys_shl_spec()
    }

    open spec fn shl_req(self, rhs: U) -> bool {
        self.0.shl_req(rhs)
    }

    open spec fn shl_spec(self, rhs: U) -> T::Output {
        self.0.shl_spec(rhs)
    }
}

impl<T: core::ops::Shl<U>, U> core::ops::Shl<U> for NoCopy<T> {
    type Output = T::Output;

    fn shl(self, rhs: U) -> (r: T::Output)
        ensures
            call_ensures(T::shl, (self.0, rhs), r),
    {
        self.0.shl(rhs)
    }
}

impl<T: core::ops::Shr<U>, U> ShrSpecImpl<U> for NoCopy<T> {
    open spec fn obeys_shr_spec() -> bool {
        <T as ShrSpec<U>>::obeys_shr_spec()
    }

    open spec fn shr_req(self, rhs: U) -> bool {
        self.0.shr_req(rhs)
    }

    open spec fn shr_spec(self, rhs: U) -> T::Output {
        self.0.shr_spec(rhs)
    }
}

impl<T: core::ops::Shr<U>, U> core::ops::Shr<U> for NoCopy<T> {
    type Output = T::Output;

    fn shr(self, rhs: U) -> (r: T::Output)
        ensures
            call_ensures(T::shr, (self.0, rhs), r),
    {
        self.0.shr(rhs)
    }
}

impl<T: core::ops::Neg> NegSpecImpl for NoCopy<T> {
    open spec fn obeys_neg_spec() -> bool {
        <T as NegSpec>::obeys_neg_spec()
    }

    open spec fn neg_req(self) -> bool {
        self.0.neg_req()
    }

    open spec fn neg_spec(self) -> T::Output {
        self.0.neg_spec()
    }
}

impl<T: core::ops::Neg> core::ops::Neg for NoCopy<T> {
    type Output = T::Output;

    fn neg(self) -> (r: T::Output)
        ensures
            call_ensures(T::neg, (self.0,), r),
    {
        self.0.neg()
    }
}

impl<T: core::ops::Not> NotSpecImpl for NoCopy<T> {
    open spec fn obeys_not_spec() -> bool {
        <T as NotSpec>::obeys_not_spec()
    }

    open spec fn not_req(self) -> bool {
        self.0.not_req()
    }

    open spec fn not_spec(self) -> T::Output {
        self.0.not_spec()
    }
}

impl<T: core::ops::Not> core::ops::Not for NoCopy<T> {
    type Output = T::Output;

    fn not(self) -> (r: T::Output)
        ensures
            call_ensures(T::not, (self.0,), r),
    {
        self.0.not()
    }
}

impl<T: core::ops::Index<U>, U> vstd::std_specs::core::IndexSpecImpl<U> for NoCopy<T> {
    open spec fn index_req(&self, index: &U) -> bool {
        <T as vstd::std_specs::core::IndexSpec<U>>::index_req(&self.0, index)
    }
}

impl<T: core::ops::Index<U>, U> core::ops::Index<U> for NoCopy<T> {
    type Output = T::Output;

    /// Indexes the payload; an index the payload rejects is rejected here too.
    fn index(&self, index: U) -> (r: &T::Output)
        ensures
            call_ensures(T::index, (&self.0, index), r),
    {
        self.0.index(index)
    }
}

} // verus!
