//! Fixed-arity vectors whose arithmetic runs in packed lanes.
//!
//! A [`Vector2`], [`Vector3`] or [`Vector4`] is a plain struct with public
//! fields. Every operator converts its operands to a packed-lane value, lets
//! the packed type do the work on all lanes at once, and converts the result
//! back; no vector is ever kept in packed form.
//!
//! The packed-lane type is a type parameter `P` of each operation. It has to
//! convert from and into an array of lanes (`From<[S; N]>`, `Into<[S; N]>`)
//! and to offer the operator that is asked for (`Add`, `Mul<S>`, `Neg`, ...).
//! What the library proves is stated relative to `P`: each result is what
//! unpacking gives for some packed value that `P` may return for the packed
//! operands. The module [`laws`] derives the component-wise reading of the
//! operators for every `P` that works lane by lane.

pub mod element_wise;
pub mod lanes;
pub mod laws;
pub mod operators;
pub mod packed;
pub mod vector;
pub mod wide;

pub use crate::element_wise::ElementWise;
pub use crate::lanes::Lanes;
pub use crate::lanes::PackedApply;
pub use crate::operators::Operators;
pub use crate::vector::Vector2;
pub use crate::vector::Vector3;
pub use crate::vector::Vector4;
pub use crate::wide::WideMath;
