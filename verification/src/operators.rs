//! The operator suite: sum and difference of two vectors, product, quotient
//! and remainder of a vector by a scalar, negation, and the compound
//! assignments.
//!
//! Each operator converts its vector operands into packed values, applies
//! the operator of the packed type, and converts the result back. A scalar
//! operand is not converted: the packed type takes it as it is and applies
//! it to every lane. No operand is looked at on the way: what a division by
//! zero gives is what the packed type gives for it.
//!
//! The vector types are `Copy`, so an operand behind a reference is passed
//! as `*v`.

use crate::lanes::broadcast_allowed;
use crate::lanes::broadcast_result;
use crate::lanes::map_allowed;
use crate::lanes::map_result;
use crate::lanes::zip_allowed;
use crate::lanes::zip_result;
use crate::lanes::Lanes;
use crate::lanes::PackedApply;
use core::ops::Add;
use core::ops::Div;
use core::ops::Mul;
use core::ops::Neg;
use core::ops::Rem;
use core::ops::Sub;
use vstd::prelude::*;

verus! {

/// The arithmetic operators of a vector type, for a packed type `P` chosen
/// at each call. Every vector type with [`Lanes`] has them.
pub trait Operators<S: Copy, const N: usize>: Lanes<S, N> {
    /// `self + rhs`, lane by lane as `P` computes it.
    fn add<P: From<[S; N]> + Into<[S; N]> + Add<Output = P>>(self, rhs: Self) -> (r: Self)
        requires
            zip_allowed::<S, Self, P, _, N>(self, rhs, <P as Add>::add),
        ensures
            zip_result::<S, Self, P, _, N>(self, rhs, r, <P as Add>::add),
    ;

    /// `self - rhs`, lane by lane as `P` computes it.
    fn sub<P: From<[S; N]> + Into<[S; N]> + Sub<Output = P>>(self, rhs: Self) -> (r: Self)
        requires
            zip_allowed::<S, Self, P, _, N>(self, rhs, <P as Sub>::sub),
        ensures
            zip_result::<S, Self, P, _, N>(self, rhs, r, <P as Sub>::sub),
    ;

    /// `self * rhs` for a scalar `rhs`, which `P` applies to every lane.
    fn mul<P: From<[S; N]> + Into<[S; N]> + Mul<S, Output = P>>(self, rhs: S) -> (r: Self)
        requires
            broadcast_allowed::<S, Self, P, _, N>(self, rhs, <P as Mul<S>>::mul),
        ensures
            broadcast_result::<S, Self, P, _, N>(self, rhs, r, <P as Mul<S>>::mul),
    ;

    /// `self / rhs` for a scalar `rhs`, which `P` applies to every lane.
    fn div<P: From<[S; N]> + Into<[S; N]> + Div<S, Output = P>>(self, rhs: S) -> (r: Self)
        requires
            broadcast_allowed::<S, Self, P, _, N>(self, rhs, <P as Div<S>>::div),
        ensures
            broadcast_result::<S, Self, P, _, N>(self, rhs, r, <P as Div<S>>::div),
    ;

    /// `self % rhs` for a scalar `rhs`, which `P` applies to every lane.
    fn rem<P: From<[S; N]> + Into<[S; N]> + Rem<S, Output = P>>(self, rhs: S) -> (r: Self)
        requires
            broadcast_allowed::<S, Self, P, _, N>(self, rhs, <P as Rem<S>>::rem),
        ensures
            broadcast_result::<S, Self, P, _, N>(self, rhs, r, <P as Rem<S>>::rem),
    ;

    /// `-self`, lane by lane as `P` computes it.
    fn neg<P: From<[S; N]> + Into<[S; N]> + Neg<Output = P>>(self) -> (r: Self)
        requires
            map_allowed::<S, Self, P, _, N>(self, <P as Neg>::neg),
        ensures
            map_result::<S, Self, P, _, N>(self, r, <P as Neg>::neg),
    ;

    /// `self += rhs`: the receiver becomes what [`Operators::add`] returns
    /// for it and `rhs`.
    fn add_assign<P: From<[S; N]> + Into<[S; N]> + Add<Output = P>>(&mut self, rhs: Self)
        requires
            zip_allowed::<S, Self, P, _, N>(*old(self), rhs, <P as Add>::add),
        ensures
            zip_result::<S, Self, P, _, N>(*old(self), rhs, *final(self), <P as Add>::add),
    ;

    /// `self -= rhs`: the receiver becomes what [`Operators::sub`] returns
    /// for it and `rhs`.
    fn sub_assign<P: From<[S; N]> + Into<[S; N]> + Sub<Output = P>>(&mut self, rhs: Self)
        requires
            zip_allowed::<S, Self, P, _, N>(*old(self), rhs, <P as Sub>::sub),
        ensures
            zip_result::<S, Self, P, _, N>(*old(self), rhs, *final(self), <P as Sub>::sub),
    ;

    /// `self *= rhs` for a scalar `rhs`: the receiver becomes what
    /// [`Operators::mul`] returns for it and `rhs`.
    fn mul_assign<P: From<[S; N]> + Into<[S; N]> + Mul<S, Output = P>>(&mut self, rhs: S)
        requires
            broadcast_allowed::<S, Self, P, _, N>(*old(self), rhs, <P as Mul<S>>::mul),
        ensures
            broadcast_result::<S, Self, P, _, N>(
                *old(self),
                rhs,
                *final(self),
                <P as Mul<S>>::mul,
            ),
    ;

    /// `self /= rhs` for a scalar `rhs`: the receiver becomes what
    /// [`Operators::div`] returns for it and `rhs`.
    fn div_assign<P: From<[S; N]> + Into<[S; N]> + Div<S, Output = P>>(&mut self, rhs: S)
        requires
            broadcast_allowed::<S, Self, P, _, N>(*old(self), rhs, <P as Div<S>>::div),
        ensures
            broadcast_result::<S, Self, P, _, N>(
                *old(self),
                rhs,
                *final(self),
                <P as Div<S>>::div,
            ),
    ;

    /// `self %= rhs` for a scalar `rhs`: the receiver becomes what
    /// [`Operators::rem`] returns for it and `rhs`.
    fn rem_assign<P: From<[S; N]> + Into<[S; N]> + Rem<S, Output = P>>(&mut self, rhs: S)
        requires
            broadcast_allowed::<S, Self, P, _, N>(*old(self), rhs, <P as Rem<S>>::rem),
        ensures
            broadcast_result::<S, Self, P, _, N>(
                *old(self),
                rhs,
                *final(self),
                <P as Rem<S>>::rem,
            ),
    ;
}

impl<S: Copy, V: Lanes<S, N>, const N: usize> Operators<S, N> for V {
    fn add<P: From<[S; N]> + Into<[S; N]> + Add<Output = P>>(self, rhs: Self) -> (r: Self) {
        self.zip_with::<P, _>(rhs, <P as Add>::add)
    }

    fn sub<P: From<[S; N]> + Into<[S; N]> + Sub<Output = P>>(self, rhs: Self) -> (r: Self) {
        self.zip_with::<P, _>(rhs, <P as Sub>::sub)
    }

    fn mul<P: From<[S; N]> + Into<[S; N]> + Mul<S, Output = P>>(self, rhs: S) -> (r: Self) {
        self.broadcast_with::<P, _>(rhs, <P as Mul<S>>::mul)
    }

    fn div<P: From<[S; N]> + Into<[S; N]> + Div<S, Output = P>>(self, rhs: S) -> (r: Self) {
        self.broadcast_with::<P, _>(rhs, <P as Div<S>>::div)
    }

    fn rem<P: From<[S; N]> + Into<[S; N]> + Rem<S, Output = P>>(self, rhs: S) -> (r: Self) {
        self.broadcast_with::<P, _>(rhs, <P as Rem<S>>::rem)
    }

    fn neg<P: From<[S; N]> + Into<[S; N]> + Neg<Output = P>>(self) -> (r: Self) {
        self.map_with::<P, _>(<P as Neg>::neg)
    }

    fn add_assign<P: From<[S; N]> + Into<[S; N]> + Add<Output = P>>(&mut self, rhs: Self) {
        *self = (*self).zip_with::<P, _>(rhs, <P as Add>::add);
    }

    fn sub_assign<P: From<[S; N]> + Into<[S; N]> + Sub<Output = P>>(&mut self, rhs: Self) {
        *self = (*self).zip_with::<P, _>(rhs, <P as Sub>::sub);
    }

    fn mul_assign<P: From<[S; N]> + Into<[S; N]> + Mul<S, Output = P>>(&mut self, rhs: S) {
        *self = (*self).broadcast_with::<P, _>(rhs, <P as Mul<S>>::mul);
    }

    fn div_assign<P: From<[S; N]> + Into<[S; N]> + Div<S, Output = P>>(&mut self, rhs: S) {
        *self = (*self).broadcast_with::<P, _>(rhs, <P as Div<S>>::div);
    }

    fn rem_assign<P: From<[S; N]> + Into<[S; N]> + Rem<S, Output = P>>(&mut self, rhs: S) {
        *self = (*self).broadcast_with::<P, _>(rhs, <P as Rem<S>>::rem);
    }
}

} // verus!
