//! The conversion layer: between a vector and the array of lanes that a
//! packed value is built from.
//!
//! A vector of two components fills two lanes; vectors of three and of four
//! components fill four. The fourth lane of a three-component vector is
//! padding: conversion into lanes sets it to zero, and conversion out of
//! lanes never reads it.

use crate::packed::broadcast;
use crate::packed::broadcast_packed;
use crate::packed::broadcast_ready;
use crate::packed::map_packed;
use crate::packed::map_ready;
use crate::packed::mapped;
use crate::packed::packs;
use crate::packed::unpacks;
use crate::packed::zip_packed;
use crate::packed::zip_ready;
use crate::packed::zipped;
use crate::vector::Vector2;
use crate::vector::Vector3;
use crate::vector::Vector4;
use vstd::prelude::*;

verus! {

/// `z` is a scalar that the number zero converts to.
pub open spec fn zero_lane<S: From<u8>>(z: S) -> bool {
    call_ensures(<S as From<u8>>::from, (0u8,), z)
}

/// A vector type that converts to and from an array of `N` lanes.
pub trait Lanes<S: Copy, const N: usize>: Copy + Sized {
    /// The number of lanes that hold a component. The lanes from `width()`
    /// up to `N` are padding.
    spec fn width() -> int;

    /// The component that lane `i` holds, for `0 <= i < width()`.
    spec fn component(self, i: int) -> S;

    /// The padding lanes of `l` hold what conversion into lanes puts there.
    spec fn padded(l: [S; N]) -> bool;

    /// Some lane holds a component, and all of them fit in `N` lanes.
    proof fn lemma_width()
        ensures
            0 < Self::width() <= N,
    ;

    /// A vector is determined by its components.
    proof fn lemma_determined(self, other: Self)
        requires
            forall|i: int| 0 <= i < Self::width() ==> self.component(i) == other.component(i),
        ensures
            self == other,
    ;

    /// The lanes of this vector: each component in its lane, the padding
    /// lanes filled.
    fn to_lanes(self) -> (l: [S; N])
        ensures
            forall|i: int| 0 <= i < Self::width() ==> l[i] == self.component(i),
            Self::padded(l),
    ;

    /// The vector whose components are the leading lanes of `l`. The padding
    /// lanes of `l` are not read.
    fn from_lanes(l: [S; N]) -> (v: Self)
        ensures
            forall|i: int| 0 <= i < Self::width() ==> v.component(i) == l[i],
    ;
}

/// Each component of `v` stands in its lane of `l`; the padding lanes of `l`
/// may hold anything.
pub open spec fn carries<S: Copy, V: Lanes<S, N>, const N: usize>(v: V, l: [S; N]) -> bool {
    forall|i: int| 0 <= i < V::width() ==> l[i] == #[trigger] v.component(i)
}

/// `l` is what conversion into lanes gives for `v`: it carries `v`, and its
/// padding lanes are filled as conversion fills them.
pub open spec fn packs_as<S: Copy, V: Lanes<S, N>, const N: usize>(v: V, l: [S; N]) -> bool {
    carries::<S, V, N>(v, l) && V::padded(l)
}

impl<S: Copy> Lanes<S, 2> for Vector2<S> {
    open spec fn width() -> int {
        2
    }

    open spec fn component(self, i: int) -> S {
        if i == 0 {
            self.x
        } else {
            self.y
        }
    }

    open spec fn padded(l: [S; 2]) -> bool {
        true
    }

    proof fn lemma_width() {
    }

    proof fn lemma_determined(self, other: Self) {
        assert(self.component(0) == other.component(0));
        assert(self.component(1) == other.component(1));
    }

    fn to_lanes(self) -> (l: [S; 2]) {
        [self.x, self.y]
    }

    fn from_lanes(l: [S; 2]) -> (v: Self) {
        Vector2 { x: l[0], y: l[1] }
    }
}

impl<S: Copy + From<u8>> Lanes<S, 4> for Vector3<S> {
    open spec fn width() -> int {
        3
    }

    open spec fn component(self, i: int) -> S {
        if i == 0 {
            self.x
        } else if i == 1 {
            self.y
        } else {
            self.z
        }
    }

    open spec fn padded(l: [S; 4]) -> bool {
        zero_lane(l[3])
    }

    proof fn lemma_width() {
    }

    proof fn lemma_determined(self, other: Self) {
        assert(self.component(0) == other.component(0));
        assert(self.component(1) == other.component(1));
        assert(self.component(2) == other.component(2));
    }

    fn to_lanes(self) -> (l: [S; 4]) {
        self.to_lanes_with(S::from(0u8))
    }

    fn from_lanes(l: [S; 4]) -> (v: Self) {
        Vector3 { x: l[0], y: l[1], z: l[2] }
    }
}

impl<S: Copy> Vector3<S> {
    /// The lanes of this vector with `pad` in the padding lane.
    pub fn to_lanes_with(self, pad: S) -> (l: [S; 4])
        ensures
            l[0] == self.x,
            l[1] == self.y,
            l[2] == self.z,
            l[3] == pad,
    {
        [self.x, self.y, self.z, pad]
    }
}

impl<S: Copy> Lanes<S, 4> for Vector4<S> {
    open spec fn width() -> int {
        4
    }

    open spec fn component(self, i: int) -> S {
        if i == 0 {
            self.x
        } else if i == 1 {
            self.y
        } else if i == 2 {
            self.z
        } else {
            self.w
        }
    }

    open spec fn padded(l: [S; 4]) -> bool {
        true
    }

    proof fn lemma_width() {
    }

    proof fn lemma_determined(self, other: Self) {
        assert(self.component(0) == other.component(0));
        assert(self.component(1) == other.component(1));
        assert(self.component(2) == other.component(2));
        assert(self.component(3) == other.component(3));
    }

    fn to_lanes(self) -> (l: [S; 4]) {
        [self.x, self.y, self.z, self.w]
    }

    fn from_lanes(l: [S; 4]) -> (v: Self) {
        Vector4 { x: l[0], y: l[1], z: l[2], w: l[3] }
    }
}

/// `p` is a packed value that `v` may convert to.
pub open spec fn packed_as<S: Copy, V: Lanes<S, N>, P: From<[S; N]>, const N: usize>(
    v: V,
    p: P,
) -> bool {
    exists|l: [S; N]| packs_as::<S, V, N>(v, l) && packs::<S, P, N>(l, p)
}

/// `v` is the vector that the packed value `p` may convert to.
pub open spec fn unpacked_as<S: Copy, V: Lanes<S, N>, P: Into<[S; N]>, const N: usize>(
    p: P,
    v: V,
) -> bool {
    exists|l: [S; N]| unpacks::<S, P, N>(p, l) && carries::<S, V, N>(v, l)
}

/// `r` may come of converting `lhs` and `rhs` into packed values, applying
/// `f` to them, and converting what `f` returned back into a vector.
pub open spec fn zip_result<
    S: Copy,
    V: Lanes<S, N>,
    P: From<[S; N]> + Into<[S; N]>,
    F: FnOnce(P, P) -> P,
    const N: usize,
>(lhs: V, rhs: V, r: V, f: F) -> bool {
    exists|a: [S; N], b: [S; N], out: [S; N]|
        packs_as::<S, V, N>(lhs, a) && packs_as::<S, V, N>(rhs, b) && zipped::<S, P, F, N>(
            a,
            b,
            out,
            f,
        ) && carries::<S, V, N>(r, out)
}

/// `r` may come of converting `lhs` into a packed value, applying `f` to it
/// and the scalar `s`, and converting what `f` returned back into a vector.
pub open spec fn broadcast_result<
    S: Copy,
    V: Lanes<S, N>,
    P: From<[S; N]> + Into<[S; N]>,
    F: FnOnce(P, S) -> P,
    const N: usize,
>(lhs: V, s: S, r: V, f: F) -> bool {
    exists|a: [S; N], out: [S; N]|
        packs_as::<S, V, N>(lhs, a) && broadcast::<S, P, F, N>(a, s, out, f) && carries::<S, V, N>(
            r,
            out,
        )
}

/// `r` may come of converting `v` into a packed value, applying `f` to it,
/// and converting what `f` returned back into a vector.
pub open spec fn map_result<
    S: Copy,
    V: Lanes<S, N>,
    P: From<[S; N]> + Into<[S; N]>,
    F: FnOnce(P) -> P,
    const N: usize,
>(v: V, r: V, f: F) -> bool {
    exists|a: [S; N], out: [S; N]|
        packs_as::<S, V, N>(v, a) && mapped::<S, P, F, N>(a, out, f) && carries::<S, V, N>(r, out)
}

/// `f` accepts whatever `lhs` and `rhs` may convert to.
pub open spec fn zip_allowed<
    S: Copy,
    V: Lanes<S, N>,
    P: From<[S; N]>,
    F: FnOnce(P, P) -> P,
    const N: usize,
>(lhs: V, rhs: V, f: F) -> bool {
    forall|a: [S; N], b: [S; N]|
        #![trigger packs_as::<S, V, N>(lhs, a), packs_as::<S, V, N>(rhs, b)]
        packs_as::<S, V, N>(lhs, a) && packs_as::<S, V, N>(rhs, b) ==> zip_ready::<S, P, F, N>(
            a,
            b,
            f,
        )
}

/// `f` accepts the scalar `s` beside whatever `lhs` may convert to.
pub open spec fn broadcast_allowed<
    S: Copy,
    V: Lanes<S, N>,
    P: From<[S; N]>,
    F: FnOnce(P, S) -> P,
    const N: usize,
>(lhs: V, s: S, f: F) -> bool {
    forall|a: [S; N]| #[trigger]
        packs_as::<S, V, N>(lhs, a) ==> broadcast_ready::<S, P, F, N>(a, s, f)
}

/// `f` accepts whatever `v` may convert to.
pub open spec fn map_allowed<
    S: Copy,
    V: Lanes<S, N>,
    P: From<[S; N]>,
    F: FnOnce(P) -> P,
    const N: usize,
>(v: V, f: F) -> bool {
    forall|a: [S; N]| #[trigger] packs_as::<S, V, N>(v, a) ==> map_ready::<S, P, F, N>(a, f)
}

/// Conversion between a vector and a packed value, and the three ways in
/// which a packed operation is applied to vectors. Every vector type with
/// [`Lanes`] has these.
pub trait PackedApply<S: Copy, const N: usize>: Lanes<S, N> {
    /// This vector as a packed value.
    fn to_packed<P: From<[S; N]>>(self) -> (p: P)
        ensures
            packed_as::<S, Self, P, N>(self, p),
    ;

    /// The vector that a packed value holds.
    fn from_packed<P: Into<[S; N]>>(p: P) -> (v: Self)
        ensures
            unpacked_as::<S, Self, P, N>(p, v),
    ;

    /// Applies the packed operation `f` to `self` and `rhs`.
    fn zip_with<P: From<[S; N]> + Into<[S; N]>, F: FnOnce(P, P) -> P>(
        self,
        rhs: Self,
        f: F,
    ) -> (r: Self)
        requires
            zip_allowed::<S, Self, P, F, N>(self, rhs, f),
        ensures
            zip_result::<S, Self, P, F, N>(self, rhs, r, f),
    ;

    /// Applies the packed operation `f` to `self` and the scalar `s`.
    fn broadcast_with<P: From<[S; N]> + Into<[S; N]>, F: FnOnce(P, S) -> P>(
        self,
        s: S,
        f: F,
    ) -> (r: Self)
        requires
            broadcast_allowed::<S, Self, P, F, N>(self, s, f),
        ensures
            broadcast_result::<S, Self, P, F, N>(self, s, r, f),
    ;

    /// Applies the packed operation `f` to `self`.
    fn map_with<P: From<[S; N]> + Into<[S; N]>, F: FnOnce(P) -> P>(self, f: F) -> (r: Self)
        requires
            map_allowed::<S, Self, P, F, N>(self, f),
        ensures
            map_result::<S, Self, P, F, N>(self, r, f),
    ;
}

impl<S: Copy, V: Lanes<S, N>, const N: usize> PackedApply<S, N> for V {
    fn to_packed<P: From<[S; N]>>(self) -> (p: P) {
        let l = self.to_lanes();
        let p = P::from(l);
        assert(packs_as::<S, V, N>(self, l) && packs::<S, P, N>(l, p));
        p
    }

    fn from_packed<P: Into<[S; N]>>(p: P) -> (v: Self) {
        let l: [S; N] = p.into();
        let v = Self::from_lanes(l);
        assert(unpacks::<S, P, N>(p, l) && carries::<S, V, N>(v, l));
        v
    }

    fn zip_with<P: From<[S; N]> + Into<[S; N]>, F: FnOnce(P, P) -> P>(
        self,
        rhs: Self,
        f: F,
    ) -> (r: Self) {
        let a = self.to_lanes();
        let b = rhs.to_lanes();
        assert(packs_as::<S, V, N>(self, a) && packs_as::<S, V, N>(rhs, b));
        let out = zip_packed::<S, P, F, N>(a, b, f);
        let r = Self::from_lanes(out);
        assert(zipped::<S, P, F, N>(a, b, out, f) && carries::<S, V, N>(r, out));
        r
    }

    fn broadcast_with<P: From<[S; N]> + Into<[S; N]>, F: FnOnce(P, S) -> P>(
        self,
        s: S,
        f: F,
    ) -> (r: Self) {
        let a = self.to_lanes();
        assert(packs_as::<S, V, N>(self, a));
        let out = broadcast_packed::<S, P, F, N>(a, s, f);
        let r = Self::from_lanes(out);
        assert(broadcast::<S, P, F, N>(a, s, out, f) && carries::<S, V, N>(r, out));
        r
    }

    fn map_with<P: From<[S; N]> + Into<[S; N]>, F: FnOnce(P) -> P>(self, f: F) -> (r: Self) {
        let a = self.to_lanes();
        assert(packs_as::<S, V, N>(self, a));
        let out = map_packed::<S, P, F, N>(a, f);
        let r = Self::from_lanes(out);
        assert(mapped::<S, P, F, N>(a, out, f) && carries::<S, V, N>(r, out));
        r
    }
}

} // verus!
