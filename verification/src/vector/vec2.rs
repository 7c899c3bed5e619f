//! Vectors of two components: points and directions in the plane.

use crate::scalar::Scalar;
use crate::vector::{Homogeneous, IntoVec3, Vec3, Vec4};
use core::ops::{Add, Div, Mul, Sub};
use vstd::prelude::*;
use vstd::std_specs::cmp::PartialEqSpecImpl;
use vstd::std_specs::convert::FromSpecImpl;
use vstd::std_specs::ops::{AddSpecImpl, DivSpecImpl, MulSpecImpl, SubSpecImpl};

verus! {

/// A point or a direction in the plane.
#[derive(Debug)]
pub struct Vec2<S: Scalar> {
    pub x: S,
    pub y: S,
}

impl<S: Scalar> Clone for Vec2<S> {
    fn clone(&self) -> (r: Vec2<S>)
        ensures
            r == *self,
    {
        *self
    }
}

impl<S: Scalar> Copy for Vec2<S> {

}

impl<S: Scalar> Vec2<S> {
    /// Whether both products and their sum are defined.
    pub open spec fn dot_ok(self, rhs: Vec2<S>) -> bool {
        &&& self.x.times_ok(rhs.x)
        &&& self.y.times_ok(rhs.y)
        &&& self.x.times_spec(rhs.x).plus_ok(self.y.times_spec(rhs.y))
    }

    /// The dot product `x1*x2 + y1*y2`.
    pub open spec fn dot_spec(self, rhs: Vec2<S>) -> S {
        self.x.times_spec(rhs.x).plus_spec(self.y.times_spec(rhs.y))
    }

    /// The vector in space, at `z = 0`, that `self` is promoted to.
    pub open spec fn lift_spec(self) -> Vec3<S> {
        Vec3 { x: self.x, y: self.y, z: S::zero_spec() }
    }

    /// Whether the component-wise sum is defined.
    pub open spec fn sum_ok(self, rhs: Vec2<S>) -> bool {
        &&& self.x.plus_ok(rhs.x)
        &&& self.y.plus_ok(rhs.y)
    }

    /// The component-wise sum.
    pub open spec fn sum_spec(self, rhs: Vec2<S>) -> Vec2<S> {
        Vec2 { x: self.x.plus_spec(rhs.x), y: self.y.plus_spec(rhs.y) }
    }

    /// Whether the component-wise difference is defined.
    pub open spec fn diff_ok(self, rhs: Vec2<S>) -> bool {
        &&& self.x.minus_ok(rhs.x)
        &&& self.y.minus_ok(rhs.y)
    }

    /// The component-wise difference.
    pub open spec fn diff_spec(self, rhs: Vec2<S>) -> Vec2<S> {
        Vec2 { x: self.x.minus_spec(rhs.x), y: self.y.minus_spec(rhs.y) }
    }

    /// Whether both components can be multiplied by `k`.
    pub open spec fn scaled_ok(self, k: S) -> bool {
        &&& self.x.times_ok(k)
        &&& self.y.times_ok(k)
    }

    /// Both components multiplied by `k`.
    pub open spec fn scaled_spec(self, k: S) -> Vec2<S> {
        Vec2 { x: self.x.times_spec(k), y: self.y.times_spec(k) }
    }

    /// Whether both components can be divided by `k`.
    pub open spec fn divided_ok(self, k: S) -> bool {
        &&& self.x.over_ok(k)
        &&& self.y.over_ok(k)
    }

    /// Both components divided by `k`.
    pub open spec fn divided_spec(self, k: S) -> Vec2<S> {
        Vec2 { x: self.x.over_spec(k), y: self.y.over_spec(k) }
    }

    /// Whether both components of `self` are near those of `other`.
    pub open spec fn near_spec(self, other: Vec2<S>) -> bool {
        &&& self.x.near_spec(other.x)
        &&& self.y.near_spec(other.y)
    }

    /// Whether the magnitude is defined: the dot product of the vector with
    /// itself, and the square root of that.
    pub open spec fn mag_ok(self) -> bool {
        self.dot_ok(self) && self.dot_spec(self).sqrt_ok()
    }

    /// The Euclidean norm: the square root of the dot product of the vector
    /// with itself.
    pub open spec fn mag_spec(self) -> S {
        self.dot_spec(self).sqrt_spec()
    }

    /// Whether the vector can be divided by its magnitude.
    pub open spec fn unit_ok(self) -> bool {
        self.mag_ok() && self.divided_ok(self.mag_spec())
    }

    /// The vector divided by its magnitude.
    pub open spec fn unit_spec(self) -> Vec2<S> {
        self.divided_spec(self.mag_spec())
    }

    pub fn new(x: S, y: S) -> (r: Vec2<S>)
        ensures
            r == (Vec2 { x, y }),
    {
        Vec2 { x, y }
    }

    /// The dot product of the two vectors.
    pub fn dot(self, rhs: Vec2<S>) -> (r: S)
        requires
            self.dot_ok(rhs),
        ensures
            r == self.dot_spec(rhs),
    {
        self.x.times(rhs.x).plus(self.y.times(rhs.y))
    }

    /// The cross product of the two vectors, each promoted to space at
    /// `z = 0`.
    pub fn cross(self, rhs: Vec2<S>) -> (r: Vec3<S>)
        requires
            self.lift_spec().cross_ok(rhs.lift_spec()),
        ensures
            r == self.lift_spec().cross_spec(rhs.lift_spec()),
    {
        let lhs = Vec3::from(self);
        let rhs = Vec3::from(rhs);
        lhs.cross(rhs)
    }

    /// The magnitude of the vector.
    pub fn mag(&self) -> (r: S)
        requires
            self.mag_ok(),
        ensures
            r == self.mag_spec(),
    {
        self.dot(*self).sqrt()
    }

    /// The vector scaled to magnitude one: each component divided by the
    /// magnitude.
    pub fn unit(self) -> (r: Vec2<S>)
        requires
            self.unit_ok(),
        ensures
            r == self.unit_spec(),
    {
        self / self.mag()
    }
}

impl<S: Scalar> IntoVec3 for Vec2<S> {
    type Component = S;

    open spec fn into_vec3_spec(self) -> Vec3<S> {
        self.lift_spec()
    }

    fn into_vec3(self) -> (r: Vec3<S>) {
        Vec3::from(self)
    }
}

/// A vector of the plane is promoted to the point `(x, y, 0, 1)`; a
/// coordinate projects to its first two components.
impl<S: Scalar> Homogeneous for Vec2<S> {
    type Component = S;

    open spec fn into_vec4_spec(self) -> Vec4<S> {
        Vec4 { x: self.x, y: self.y, z: S::zero_spec(), w: S::one_spec() }
    }

    open spec fn from_vec4_spec(v: Vec4<S>) -> Vec2<S> {
        Vec2 { x: v.x, y: v.y }
    }

    fn into_vec4(self) -> (r: Vec4<S>) {
        Vec4::from(self)
    }

    fn from_vec4(v: Vec4<S>) -> (r: Vec2<S>) {
        Vec2::from(v)
    }

    proof fn lemma_round_trip(self) {
    }
}

impl<S: Scalar> AddSpecImpl<Vec2<S>> for Vec2<S> {
    open spec fn obeys_add_spec() -> bool {
        true
    }

    open spec fn add_req(self, rhs: Vec2<S>) -> bool {
        self.sum_ok(rhs)
    }

    open spec fn add_spec(self, rhs: Vec2<S>) -> Vec2<S> {
        self.sum_spec(rhs)
    }
}

/// `self + rhs`, component by component.
impl<S: Scalar> Add<Vec2<S>> for Vec2<S> {
    type Output = Vec2<S>;

    fn add(self, rhs: Vec2<S>) -> (r: Vec2<S>) {
        Vec2 { x: self.x.plus(rhs.x), y: self.y.plus(rhs.y) }
    }
}

impl<S: Scalar> SubSpecImpl<Vec2<S>> for Vec2<S> {
    open spec fn obeys_sub_spec() -> bool {
        true
    }

    open spec fn sub_req(self, rhs: Vec2<S>) -> bool {
        self.diff_ok(rhs)
    }

    open spec fn sub_spec(self, rhs: Vec2<S>) -> Vec2<S> {
        self.diff_spec(rhs)
    }
}

/// `self - rhs`, component by component.
impl<S: Scalar> Sub<Vec2<S>> for Vec2<S> {
    type Output = Vec2<S>;

    fn sub(self, rhs: Vec2<S>) -> (r: Vec2<S>) {
        Vec2 { x: self.x.minus(rhs.x), y: self.y.minus(rhs.y) }
    }
}

impl<S: Scalar> MulSpecImpl<S> for Vec2<S> {
    open spec fn obeys_mul_spec() -> bool {
        true
    }

    open spec fn mul_req(self, scalar: S) -> bool {
        self.scaled_ok(scalar)
    }

    open spec fn mul_spec(self, scalar: S) -> Vec2<S> {
        self.scaled_spec(scalar)
    }
}

/// Both components multiplied by the scalar.
impl<S: Scalar> Mul<S> for Vec2<S> {
    type Output = Vec2<S>;

    fn mul(self, scalar: S) -> (r: Vec2<S>) {
        Vec2 { x: self.x.times(scalar), y: self.y.times(scalar) }
    }
}

impl<S: Scalar> MulSpecImpl<i32> for Vec2<S> {
    open spec fn obeys_mul_spec() -> bool {
        true
    }

    open spec fn mul_req(self, scalar: i32) -> bool {
        self.scaled_ok(S::from_int_spec(scalar))
    }

    open spec fn mul_spec(self, scalar: i32) -> Vec2<S> {
        self.scaled_spec(S::from_int_spec(scalar))
    }
}

/// Both components multiplied by the scalar that stands for the integer.
impl<S: Scalar> Mul<i32> for Vec2<S> {
    type Output = Vec2<S>;

    fn mul(self, scalar: i32) -> (r: Vec2<S>) {
        let k = S::from_int(scalar);
        Vec2 { x: self.x.times(k), y: self.y.times(k) }
    }
}

impl<S: Scalar> DivSpecImpl<S> for Vec2<S> {
    open spec fn obeys_div_spec() -> bool {
        true
    }

    open spec fn div_req(self, scalar: S) -> bool {
        self.divided_ok(scalar)
    }

    open spec fn div_spec(self, scalar: S) -> Vec2<S> {
        self.divided_spec(scalar)
    }
}

/// Both components divided by the scalar.
impl<S: Scalar> Div<S> for Vec2<S> {
    type Output = Vec2<S>;

    fn div(self, scalar: S) -> (r: Vec2<S>) {
        Vec2 { x: self.x.over(scalar), y: self.y.over(scalar) }
    }
}

impl<S: Scalar> DivSpecImpl<i32> for Vec2<S> {
    open spec fn obeys_div_spec() -> bool {
        true
    }

    open spec fn div_req(self, scalar: i32) -> bool {
        self.divided_ok(S::from_int_spec(scalar))
    }

    open spec fn div_spec(self, scalar: i32) -> Vec2<S> {
        self.divided_spec(S::from_int_spec(scalar))
    }
}

/// Both components divided by the scalar that stands for the integer.
impl<S: Scalar> Div<i32> for Vec2<S> {
    type Output = Vec2<S>;

    fn div(self, scalar: i32) -> (r: Vec2<S>) {
        let k = S::from_int(scalar);
        Vec2 { x: self.x.over(k), y: self.y.over(k) }
    }
}

impl<S: Scalar> PartialEqSpecImpl for Vec2<S> {
    open spec fn obeys_eq_spec() -> bool {
        true
    }

    open spec fn eq_spec(&self, other: &Vec2<S>) -> bool {
        self.near_spec(*other)
    }
}

/// Two vectors are equal when both pairs of components are near.
impl<S: Scalar> PartialEq for Vec2<S> {
    fn eq(&self, other: &Vec2<S>) -> (r: bool) {
        self.x.near(other.x) && self.y.near(other.y)
    }
}

impl<S: Scalar> FromSpecImpl<Vec3<S>> for Vec2<S> {
    open spec fn obeys_from_spec() -> bool {
        true
    }

    open spec fn from_spec(vec: Vec3<S>) -> Vec2<S> {
        Vec2 { x: vec.x, y: vec.y }
    }
}

/// A vector of space loses its third component.
impl<S: Scalar> From<Vec3<S>> for Vec2<S> {
    fn from(vec: Vec3<S>) -> (r: Vec2<S>) {
        Vec2::new(vec.x, vec.y)
    }
}

impl<S: Scalar> FromSpecImpl<Vec4<S>> for Vec2<S> {
    open spec fn obeys_from_spec() -> bool {
        true
    }

    open spec fn from_spec(vec: Vec4<S>) -> Vec2<S> {
        Vec2 { x: vec.x, y: vec.y }
    }
}

/// A coordinate loses its third and fourth components.
impl<S: Scalar> From<Vec4<S>> for Vec2<S> {
    fn from(vec: Vec4<S>) -> (r: Vec2<S>) {
        Vec2::new(vec.x, vec.y)
    }
}

} // verus!
