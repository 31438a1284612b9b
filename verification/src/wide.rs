//! Wide unary math on four-component vectors: square root, approximate
//! reciprocal square root and approximate reciprocal of all four lanes in
//! one step.
//!
//! The packed type brings these operations through [`WideMath`]. How close
//! the two approximations come is the packed type's matter: nothing is
//! promised of them here beyond that its result is what is converted back.

use crate::lanes::map_result;
use crate::lanes::PackedApply;
use crate::vector::Vector4;
use vstd::prelude::*;

verus! {

/// The unary math that a packed-lane type of floating-point lanes offers on
/// all its lanes at once.
pub trait WideMath: Sized {
    /// The square root of each lane.
    fn sqrt(self) -> Self;

    /// An estimate of the reciprocal of the square root of each lane.
    fn rsqrte(self) -> Self;

    /// An estimate of the reciprocal of each lane.
    fn recpre(self) -> Self;
}

impl<S: Copy> Vector4<S> {
    /// The square root of each component.
    pub fn sqrt_element_wide<P: From<[S; 4]> + Into<[S; 4]> + WideMath>(self) -> (r: Self)
        ensures
            map_result::<S, Self, P, _, 4>(self, r, <P as WideMath>::sqrt),
    {
        self.map_with::<P, _>(<P as WideMath>::sqrt)
    }

    /// The reciprocal of the square root of each component, as closely as
    /// `P` estimates it.
    pub fn rsqrt_element_wide<P: From<[S; 4]> + Into<[S; 4]> + WideMath>(self) -> (r: Self)
        ensures
            map_result::<S, Self, P, _, 4>(self, r, <P as WideMath>::rsqrte),
    {
        self.map_with::<P, _>(<P as WideMath>::rsqrte)
    }

    /// The reciprocal of each component, as closely as `P` estimates it.
    pub fn recip_element_wide<P: From<[S; 4]> + Into<[S; 4]> + WideMath>(self) -> (r: Self)
        ensures
            map_result::<S, Self, P, _, 4>(self, r, <P as WideMath>::recpre),
    {
        self.map_with::<P, _>(<P as WideMath>::recpre)
    }
}

} // verus!
