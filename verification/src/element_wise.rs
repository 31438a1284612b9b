//! The element-wise capability: one set of named operations for every vector
//! type, between two vectors and between a vector and a scalar, each in a
//! form that returns the result and in a form that overwrites the receiver.
//!
//! Between two vectors, `add_element_wise` and `sub_element_wise` are the
//! operators `+` and `-`. The product, quotient and remainder of two vectors,
//! component by component, have no operator: they are offered here only.
//! Between a vector and a scalar, the product, quotient and remainder are the
//! operators `*`, `/` and `%`; sum and difference are offered here only.

use crate::lanes::broadcast_allowed;
use crate::lanes::broadcast_result;
use crate::lanes::zip_allowed;
use crate::lanes::zip_result;
use crate::lanes::Lanes;
use crate::lanes::PackedApply;
use crate::operators::Operators;
use core::ops::Add;
use core::ops::Div;
use core::ops::Mul;
use core::ops::Rem;
use core::ops::Sub;
use vstd::prelude::*;

verus! {

/// The element-wise operations of a vector type, for a packed type `P`
/// chosen at each call. Every vector type with [`Lanes`] has them.
pub trait ElementWise<S: Copy, const N: usize>: Lanes<S, N> {
    /// The sum of `self` and `rhs`, component by component.
    fn add_element_wise<P: From<[S; N]> + Into<[S; N]> + Add<Output = P>>(
        self,
        rhs: Self,
    ) -> (r: Self)
        requires
            zip_allowed::<S, Self, P, _, N>(self, rhs, <P as Add>::add),
        ensures
            zip_result::<S, Self, P, _, N>(self, rhs, r, <P as Add>::add),
    ;

    /// The difference of `self` and `rhs`, component by component.
    fn sub_element_wise<P: From<[S; N]> + Into<[S; N]> + Sub<Output = P>>(
        self,
        rhs: Self,
    ) -> (r: Self)
        requires
            zip_allowed::<S, Self, P, _, N>(self, rhs, <P as Sub>::sub),
        ensures
            zip_result::<S, Self, P, _, N>(self, rhs, r, <P as Sub>::sub),
    ;

    /// The product of `self` and `rhs`, component by component.
    fn mul_element_wise<P: From<[S; N]> + Into<[S; N]> + Mul<Output = P>>(
        self,
        rhs: Self,
    ) -> (r: Self)
        requires
            zip_allowed::<S, Self, P, _, N>(self, rhs, <P as Mul>::mul),
        ensures
            zip_result::<S, Self, P, _, N>(self, rhs, r, <P as Mul>::mul),
    ;

    /// The quotient of `self` and `rhs`, component by component.
    fn div_element_wise<P: From<[S; N]> + Into<[S; N]> + Div<Output = P>>(
        self,
        rhs: Self,
    ) -> (r: Self)
        requires
            zip_allowed::<S, Self, P, _, N>(self, rhs, <P as Div>::div),
        ensures
            zip_result::<S, Self, P, _, N>(self, rhs, r, <P as Div>::div),
    ;

    /// The remainder of `self` and `rhs`, component by component.
    fn rem_element_wise<P: From<[S; N]> + Into<[S; N]> + Rem<Output = P>>(
        self,
        rhs: Self,
    ) -> (r: Self)
        requires
            zip_allowed::<S, Self, P, _, N>(self, rhs, <P as Rem>::rem),
        ensures
            zip_result::<S, Self, P, _, N>(self, rhs, r, <P as Rem>::rem),
    ;

    /// The sum of each component of `self` and the scalar `rhs`.
    fn add_element_wise_scalar<P: From<[S; N]> + Into<[S; N]> + Add<S, Output = P>>(
        self,
        rhs: S,
    ) -> (r: Self)
        requires
            broadcast_allowed::<S, Self, P, _, N>(self, rhs, <P as Add<S>>::add),
        ensures
            broadcast_result::<S, Self, P, _, N>(self, rhs, r, <P as Add<S>>::add),
    ;

    /// The difference of each component of `self` and the scalar `rhs`.
    fn sub_element_wise_scalar<P: From<[S; N]> + Into<[S; N]> + Sub<S, Output = P>>(
        self,
        rhs: S,
    ) -> (r: Self)
        requires
            broadcast_allowed::<S, Self, P, _, N>(self, rhs, <P as Sub<S>>::sub),
        ensures
            broadcast_result::<S, Self, P, _, N>(self, rhs, r, <P as Sub<S>>::sub),
    ;

    /// The product of each component of `self` and the scalar `rhs`.
    fn mul_element_wise_scalar<P: From<[S; N]> + Into<[S; N]> + Mul<S, Output = P>>(
        self,
        rhs: S,
    ) -> (r: Self)
        requires
            broadcast_allowed::<S, Self, P, _, N>(self, rhs, <P as Mul<S>>::mul),
        ensures
            broadcast_result::<S, Self, P, _, N>(self, rhs, r, <P as Mul<S>>::mul),
    ;

    /// The quotient of each component of `self` and the scalar `rhs`.
    fn div_element_wise_scalar<P: From<[S; N]> + Into<[S; N]> + Div<S, Output = P>>(
        self,
        rhs: S,
    ) -> (r: Self)
        requires
            broadcast_allowed::<S, Self, P, _, N>(self, rhs, <P as Div<S>>::div),
        ensures
            broadcast_result::<S, Self, P, _, N>(self, rhs, r, <P as Div<S>>::div),
    ;

    /// The remainder of each component of `self` and the scalar `rhs`.
    fn rem_element_wise_scalar<P: From<[S; N]> + Into<[S; N]> + Rem<S, Output = P>>(
        self,
        rhs: S,
    ) -> (r: Self)
        requires
            broadcast_allowed::<S, Self, P, _, N>(self, rhs, <P as Rem<S>>::rem),
        ensures
            broadcast_result::<S, Self, P, _, N>(self, rhs, r, <P as Rem<S>>::rem),
    ;

    /// Overwrites `self` with what [`ElementWise::add_element_wise`] returns
    /// for it and `rhs`.
    fn add_assign_element_wise<P: From<[S; N]> + Into<[S; N]> + Add<Output = P>>(
        &mut self,
        rhs: Self,
    )
        requires
            zip_allowed::<S, Self, P, _, N>(*old(self), rhs, <P as Add>::add),
        ensures
            zip_result::<S, Self, P, _, N>(*old(self), rhs, *final(self), <P as Add>::add),
    ;

    /// Overwrites `self` with what [`ElementWise::sub_element_wise`] returns
    /// for it and `rhs`.
    fn sub_assign_element_wise<P: From<[S; N]> + Into<[S; N]> + Sub<Output = P>>(
        &mut self,
        rhs: Self,
    )
        requires
            zip_allowed::<S, Self, P, _, N>(*old(self), rhs, <P as Sub>::sub),
        ensures
            zip_result::<S, Self, P, _, N>(*old(self), rhs, *final(self), <P as Sub>::sub),
    ;

    /// Overwrites `self` with what [`ElementWise::mul_element_wise`] returns
    /// for it and `rhs`.
    fn mul_assign_element_wise<P: From<[S; N]> + Into<[S; N]> + Mul<Output = P>>(
        &mut self,
        rhs: Self,
    )
        requires
            zip_allowed::<S, Self, P, _, N>(*old(self), rhs, <P as Mul>::mul),
        ensures
            zip_result::<S, Self, P, _, N>(*old(self), rhs, *final(self), <P as Mul>::mul),
    ;

    /// Overwrites `self` with what [`ElementWise::div_element_wise`] returns
    /// for it and `rhs`.
    fn div_assign_element_wise<P: From<[S; N]> + Into<[S; N]> + Div<Output = P>>(
        &mut self,
        rhs: Self,
    )
        requires
            zip_allowed::<S, Self, P, _, N>(*old(self), rhs, <P as Div>::div),
        ensures
            zip_result::<S, Self, P, _, N>(*old(self), rhs, *final(self), <P as Div>::div),
    ;

    /// Overwrites `self` with what [`ElementWise::rem_element_wise`] returns
    /// for it and `rhs`.
    fn rem_assign_element_wise<P: From<[S; N]> + Into<[S; N]> + Rem<Output = P>>(
        &mut self,
        rhs: Self,
    )
        requires
            zip_allowed::<S, Self, P, _, N>(*old(self), rhs, <P as Rem>::rem),
        ensures
            zip_result::<S, Self, P, _, N>(*old(self), rhs, *final(self), <P as Rem>::rem),
    ;

    /// Overwrites `self` with what [`ElementWise::add_element_wise_scalar`]
    /// returns for it and `rhs`.
    fn add_assign_element_wise_scalar<P: From<[S; N]> + Into<[S; N]> + Add<S, Output = P>>(
        &mut self,
        rhs: S,
    )
        requires
            broadcast_allowed::<S, Self, P, _, N>(*old(self), rhs, <P as Add<S>>::add),
        ensures
            broadcast_result::<S, Self, P, _, N>(
                *old(self),
                rhs,
                *final(self),
                <P as Add<S>>::add,
            ),
    ;

    /// Overwrites `self` with what [`ElementWise::sub_element_wise_scalar`]
    /// returns for it and `rhs`.
    fn sub_assign_element_wise_scalar<P: From<[S; N]> + Into<[S; N]> + Sub<S, Output = P>>(
        &mut self,
        rhs: S,
    )
        requires
            broadcast_allowed::<S, Self, P, _, N>(*old(self), rhs, <P as Sub<S>>::sub),
        ensures
            broadcast_result::<S, Self, P, _, N>(
                *old(self),
                rhs,
                *final(self),
                <P as Sub<S>>::sub,
            ),
    ;

    /// Overwrites `self` with what [`ElementWise::mul_element_wise_scalar`]
    /// returns for it and `rhs`.
    fn mul_assign_element_wise_scalar<P: From<[S; N]> + Into<[S; N]> + Mul<S, Output = P>>(
        &mut self,
        rhs: S,
    )
        requires
            broadcast_allowed::<S, Self, P, _, N>(*old(self), rhs, <P as Mul<S>>::mul),
        ensures
            broadcast_result::<S, Self, P, _, N>(
                *old(self),
                rhs,
                *final(self),
                <P as Mul<S>>::mul,
            ),
    ;

    /// Overwrites `self` with what [`ElementWise::div_element_wise_scalar`]
    /// returns for it and `rhs`.
    fn div_assign_element_wise_scalar<P: From<[S; N]> + Into<[S; N]> + Div<S, Output = P>>(
        &mut self,
        rhs: S,
    )
        requires
            broadcast_allowed::<S, Self, P, _, N>(*old(self), rhs, <P as Div<S>>::div),
        ensures
            broadcast_result::<S, Self, P, _, N>(
                *old(self),
                rhs,
                *final(self),
                <P as Div<S>>::div,
            ),
    ;

    /// Overwrites `self` with what [`ElementWise::rem_element_wise_scalar`]
    /// returns for it and `rhs`.
    fn rem_assign_element_wise_scalar<P: From<[S; N]> + Into<[S; N]> + Rem<S, Output = P>>(
        &mut self,
        rhs: S,
    )
        requires
            broadcast_allowed::<S, Self, P, _, N>(*old(self), rhs, <P as Rem<S>>::rem),
        ensures
            broadcast_result::<S, Self, P, _, N>(
                *old(self),
                rhs,
                *final(self),
                <P as Rem<S>>::rem,
            ),
    ;
}

impl<S: Copy, V: Lanes<S, N>, const N: usize> ElementWise<S, N> for V {
    fn add_element_wise<P: From<[S; N]> + Into<[S; N]> + Add<Output = P>>(
        self,
        rhs: Self,
    ) -> (r: Self) {
        self.add::<P>(rhs)
    }

    fn sub_element_wise<P: From<[S; N]> + Into<[S; N]> + Sub<Output = P>>(
        self,
        rhs: Self,
    ) -> (r: Self) {
        self.sub::<P>(rhs)
    }

    fn mul_element_wise<P: From<[S; N]> + Into<[S; N]> + Mul<Output = P>>(
        self,
        rhs: Self,
    ) -> (r: Self) {
        self.zip_with::<P, _>(rhs, <P as Mul>::mul)
    }

    fn div_element_wise<P: From<[S; N]> + Into<[S; N]> + Div<Output = P>>(
        self,
        rhs: Self,
    ) -> (r: Self) {
        self.zip_with::<P, _>(rhs, <P as Div>::div)
    }

    fn rem_element_wise<P: From<[S; N]> + Into<[S; N]> + Rem<Output = P>>(
        self,
        rhs: Self,
    ) -> (r: Self) {
        self.zip_with::<P, _>(rhs, <P as Rem>::rem)
    }

    fn add_element_wise_scalar<P: From<[S; N]> + Into<[S; N]> + Add<S, Output = P>>(
        self,
        rhs: S,
    ) -> (r: Self) {
        self.broadcast_with::<P, _>(rhs, <P as Add<S>>::add)
    }

    fn sub_element_wise_scalar<P: From<[S; N]> + Into<[S; N]> + Sub<S, Output = P>>(
        self,
        rhs: S,
    ) -> (r: Self) {
        self.broadcast_with::<P, _>(rhs, <P as Sub<S>>::sub)
    }

    fn mul_element_wise_scalar<P: From<[S; N]> + Into<[S; N]> + Mul<S, Output = P>>(
        self,
        rhs: S,
    ) -> (r: Self) {
        self.mul::<P>(rhs)
    }

    fn div_element_wise_scalar<P: From<[S; N]> + Into<[S; N]> + Div<S, Output = P>>(
        self,
        rhs: S,
    ) -> (r: Self) {
        self.div::<P>(rhs)
    }

    fn rem_element_wise_scalar<P: From<[S; N]> + Into<[S; N]> + Rem<S, Output = P>>(
        self,
        rhs: S,
    ) -> (r: Self) {
        self.rem::<P>(rhs)
    }

    fn add_assign_element_wise<P: From<[S; N]> + Into<[S; N]> + Add<Output = P>>(
        &mut self,
        rhs: Self,
    ) {
        self.add_assign::<P>(rhs);
    }

    fn sub_assign_element_wise<P: From<[S; N]> + Into<[S; N]> + Sub<Output = P>>(
        &mut self,
        rhs: Self,
    ) {
        self.sub_assign::<P>(rhs);
    }

    fn mul_assign_element_wise<P: From<[S; N]> + Into<[S; N]> + Mul<Output = P>>(
        &mut self,
        rhs: Self,
    ) {
        *self = (*self).zip_with::<P, _>(rhs, <P as Mul>::mul);
    }

    fn div_assign_element_wise<P: From<[S; N]> + Into<[S; N]> + Div<Output = P>>(
        &mut self,
        rhs: Self,
    ) {
        *self = (*self).zip_with::<P, _>(rhs, <P as Div>::div);
    }

    fn rem_assign_element_wise<P: From<[S; N]> + Into<[S; N]> + Rem<Output = P>>(
        &mut self,
        rhs: Self,
    ) {
        *self = (*self).zip_with::<P, _>(rhs, <P as Rem>::rem);
    }

    fn add_assign_element_wise_scalar<P: From<[S; N]> + Into<[S; N]> + Add<S, Output = P>>(
        &mut self,
        rhs: S,
    ) {
        *self = (*self).broadcast_with::<P, _>(rhs, <P as Add<S>>::add);
    }

    fn sub_assign_element_wise_scalar<P: From<[S; N]> + Into<[S; N]> + Sub<S, Output = P>>(
        &mut self,
        rhs: S,
    ) {
        *self = (*self).broadcast_with::<P, _>(rhs, <P as Sub<S>>::sub);
    }

    fn mul_assign_element_wise_scalar<P: From<[S; N]> + Into<[S; N]> + Mul<S, Output = P>>(
        &mut self,
        rhs: S,
    ) {
        self.mul_assign::<P>(rhs);
    }

    fn div_assign_element_wise_scalar<P: From<[S; N]> + Into<[S; N]> + Div<S, Output = P>>(
        &mut self,
        rhs: S,
    ) {
        self.div_assign::<P>(rhs);
    }

    fn rem_assign_element_wise_scalar<P: From<[S; N]> + Into<[S; N]> + Rem<S, Output = P>>(
        &mut self,
        rhs: S,
    ) {
        self.rem_assign::<P>(rhs);
    }
}

} // verus!
