//! The three vector types and the conversions between them.

pub mod vec2;
pub mod vec3;
pub mod vec4;

pub use vec2::Vec2;
pub use vec3::Vec3;
pub use vec4::Vec4;

use crate::scalar::Scalar;
use vstd::prelude::*;

verus! {

/// A value that can stand where a [`Vec3`] is expected.
pub trait IntoVec3: Sized {
    /// The number type of the components.
    type Component: Scalar;

    /// The vector of three components that `self` stands for.
    spec fn into_vec3_spec(self) -> Vec3<Self::Component>;

    fn into_vec3(self) -> (r: Vec3<Self::Component>)
        ensures
            r == self.into_vec3_spec(),
    ;
}

/// A vector that has a homogeneous form: it can be promoted to a [`Vec4`]
/// and recovered from one.
pub trait Homogeneous: Sized {
    /// The number type of the components.
    type Component: Scalar;

    /// The homogeneous form of `self`.
    spec fn into_vec4_spec(self) -> Vec4<Self::Component>;

    /// The vector that the homogeneous coordinate `v` projects to.
    spec fn from_vec4_spec(v: Vec4<Self::Component>) -> Self;

    fn into_vec4(self) -> (r: Vec4<Self::Component>)
        ensures
            r == self.into_vec4_spec(),
    ;

    fn from_vec4(v: Vec4<Self::Component>) -> (r: Self)
        ensures
            r == Self::from_vec4_spec(v),
    ;

    /// Promoting a vector and projecting it back gives the vector itself.
    proof fn lemma_round_trip(self)
        ensures
            Self::from_vec4_spec(self.into_vec4_spec()) == self,
    ;
}

} // verus!
