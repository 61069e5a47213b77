//! Fixed-dimension numeric vectors, generic over the element type.
//!
//! [`Vector2`], [`Vector3`] and [`Vector4`] hold two, three and four
//! components of any type. Sum, difference, negation, equality and dot
//! product are there for every element type that has the operator in
//! question, and each is specified by that operator. For element types that
//! are [`integral::Integral`] the modules also prove the usual laws, and
//! [`normalise`] decides whether a vector has a unit vector, which rests on
//! [`double`]'s account of the integers that a double holds exactly.

pub mod double;
pub mod integral;
pub mod normalise;
pub mod vector2;
pub mod vector3;
pub mod vector4;

pub use crate::vector2::Vector2;
pub use crate::vector3::Vector3;
pub use crate::vector4::Vector4;
