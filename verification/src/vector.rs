//! The vector types: two, three or four scalars under the names `x`, `y`,
//! `z`, `w`.

use vstd::prelude::*;

verus! {

/// A vector of two components.
#[derive(Clone, Copy, Debug, PartialEq, Eq)]
pub struct Vector2<S> {
    pub x: S,
    pub y: S,
}

/// A vector of three components.
#[derive(Clone, Copy, Debug, PartialEq, Eq)]
pub struct Vector3<S> {
    pub x: S,
    pub y: S,
    pub z: S,
}

/// A vector of four components.
#[derive(Clone, Copy, Debug, PartialEq, Eq)]
pub struct Vector4<S> {
    pub x: S,
    pub y: S,
    pub z: S,
    pub w: S,
}

impl<S> Vector2<S> {
    /// The vector with the given components.
    pub fn new(x: S, y: S) -> (v: Self)
        ensures
            v == (Vector2 { x, y }),
    {
        Vector2 { x, y }
    }
}

impl<S> Vector3<S> {
    /// The vector with the given components.
    pub fn new(x: S, y: S, z: S) -> (v: Self)
        ensures
            v == (Vector3 { x, y, z }),
    {
        Vector3 { x, y, z }
    }
}

impl<S> Vector4<S> {
    /// The vector with the given components.
    pub fn new(x: S, y: S, z: S, w: S) -> (v: Self)
        ensures
            v == (Vector4 { x, y, z, w }),
    {
        Vector4 { x, y, z, w }
    }
}

} // verus!
