//! Vectors of three components: points and directions in space.

use crate::scalar::Scalar;
use crate::vector::{Homogeneous, IntoVec3, Vec2, Vec4};
use core::ops::{Add, Div, Mul, Sub};
use vstd::prelude::*;
use vstd::std_specs::cmp::PartialEqSpecImpl;
use vstd::std_specs::convert::FromSpecImpl;
use vstd::std_specs::ops::{AddSpecImpl, DivSpecImpl, MulSpecImpl, SubSpecImpl};

verus! {

/// A point or a direction in space.
#[derive(Debug)]
pub struct Vec3<S: Scalar> {
    pub x: S,
    pub y: S,
    pub z: S,
}

impl<S: Scalar> Clone for Vec3<S> {
    fn clone(&self) -> (r: Vec3<S>)
        ensures
            r == *self,
    {
        *self
    }
}

impl<S: Scalar> Copy for Vec3<S> {

}

impl<S: Scalar> Vec3<S> {
    /// Whether every product and every partial sum of the dot product is
    /// defined.
    pub open spec fn dot_ok(self, rhs: Vec3<S>) -> bool {
        let xx = self.x.times_spec(rhs.x);
        let yy = self.y.times_spec(rhs.y);
        let zz = self.z.times_spec(rhs.z);
        &&& self.x.times_ok(rhs.x)
        &&& self.y.times_ok(rhs.y)
        &&& self.z.times_ok(rhs.z)
        &&& xx.plus_ok(yy)
        &&& xx.plus_spec(yy).plus_ok(zz)
    }

    /// The dot product `(x1*x2 + y1*y2) + z1*z2`.
    pub open spec fn dot_spec(self, rhs: Vec3<S>) -> S {
        let xx = self.x.times_spec(rhs.x);
        let yy = self.y.times_spec(rhs.y);
        let zz = self.z.times_spec(rhs.z);
        xx.plus_spec(yy).plus_spec(zz)
    }

    /// Whether the six products and three differences of the cross product
    /// are defined.
    pub open spec fn cross_ok(self, rhs: Vec3<S>) -> bool {
        &&& self.y.times_ok(rhs.z)
        &&& self.z.times_ok(rhs.y)
        &&& self.y.times_spec(rhs.z).minus_ok(self.z.times_spec(rhs.y))
        &&& self.z.times_ok(rhs.x)
        &&& self.x.times_ok(rhs.z)
        &&& self.z.times_spec(rhs.x).minus_ok(self.x.times_spec(rhs.z))
        &&& self.x.times_ok(rhs.y)
        &&& self.y.times_ok(rhs.x)
        &&& self.x.times_spec(rhs.y).minus_ok(self.y.times_spec(rhs.x))
    }

    /// The cross product
    /// `(y1*z2 - z1*y2, z1*x2 - x1*z2, x1*y2 - y1*x2)`.
    pub open spec fn cross_spec(self, rhs: Vec3<S>) -> Vec3<S> {
        Vec3 {
            x: self.y.times_spec(rhs.z).minus_spec(self.z.times_spec(rhs.y)),
            y: self.z.times_spec(rhs.x).minus_spec(self.x.times_spec(rhs.z)),
            z: self.x.times_spec(rhs.y).minus_spec(self.y.times_spec(rhs.x)),
        }
    }

    /// Whether the component-wise sum is defined.
    pub open spec fn sum_ok(self, rhs: Vec3<S>) -> bool {
        &&& self.x.plus_ok(rhs.x)
        &&& self.y.plus_ok(rhs.y)
        &&& self.z.plus_ok(rhs.z)
    }

    /// The component-wise sum.
    pub open spec fn sum_spec(self, rhs: Vec3<S>) -> Vec3<S> {
        Vec3 {
            x: self.x.plus_spec(rhs.x),
            y: self.y.plus_spec(rhs.y),
            z: self.z.plus_spec(rhs.z),
        }
    }

    /// Whether the component-wise difference is defined.
    pub open spec fn diff_ok(self, rhs: Vec3<S>) -> bool {
        &&& self.x.minus_ok(rhs.x)
        &&& self.y.minus_ok(rhs.y)
        &&& self.z.minus_ok(rhs.z)
    }

    /// The component-wise difference.
    pub open spec fn diff_spec(self, rhs: Vec3<S>) -> Vec3<S> {
        Vec3 {
            x: self.x.minus_spec(rhs.x),
            y: self.y.minus_spec(rhs.y),
            z: self.z.minus_spec(rhs.z),
        }
    }

    /// Whether every component can be multiplied by `k`.
    pub open spec fn scaled_ok(self, k: S) -> bool {
        &&& self.x.times_ok(k)
        &&& self.y.times_ok(k)
        &&& self.z.times_ok(k)
    }

    /// Every component multiplied by `k`.
    pub open spec fn scaled_spec(self, k: S) -> Vec3<S> {
        Vec3 { x: self.x.times_spec(k), y: self.y.times_spec(k), z: self.z.times_spec(k) }
    }

    /// Whether every component can be divided by `k`.
    pub open spec fn divided_ok(self, k: S) -> bool {
        &&& self.x.over_ok(k)
        &&& self.y.over_ok(k)
        &&& self.z.over_ok(k)
    }

    /// Every component divided by `k`.
    pub open spec fn divided_spec(self, k: S) -> Vec3<S> {
        Vec3 { x: self.x.over_spec(k), y: self.y.over_spec(k), z: self.z.over_spec(k) }
    }

    /// Whether every component of `self` is near the same component of
    /// `other`.
    pub open spec fn near_spec(self, other: Vec3<S>) -> bool {
        &&& self.x.near_spec(other.x)
        &&& self.y.near_spec(other.y)
        &&& self.z.near_spec(other.z)
    }

    /// Whether the magnitude is defined: the dot product of the vector with
    /// itself, and the square root of that.
    pub open spec fn mag_ok(self) -> bool {
        self.dot_ok(self) && self.dot_spec(self).sqrt_ok()
    }

    /// The Euclidean norm: the square root of the dot product of the vector
    /// with itself.
    pub open spec fn mag_spec(self) -> S {
        self.dot_spec(self).sqrt_spec()
    }

    /// Whether the vector can be divided by its magnitude.
    pub open spec fn unit_ok(self) -> bool {
        self.mag_ok() && self.divided_ok(self.mag_spec())
    }

    /// The vector divided by its magnitude.
    pub open spec fn unit_spec(self) -> Vec3<S> {
        self.divided_spec(self.mag_spec())
    }

    pub fn new(x: S, y: S, z: S) -> (r: Vec3<S>)
        ensures
            r == (Vec3 { x, y, z }),
    {
        Vec3 { x, y, z }
    }

    /// The dot product of the two vectors.
    pub fn dot(self, rhs: Vec3<S>) -> (r: S)
        requires
            self.dot_ok(rhs),
        ensures
            r == self.dot_spec(rhs),
    {
        let xx = self.x.times(rhs.x);
        let yy = self.y.times(rhs.y);
        let zz = self.z.times(rhs.z);
        xx.plus(yy).plus(zz)
    }

    /// The cross product of the two vectors.
    pub fn cross(self, rhs: Vec3<S>) -> (r: Vec3<S>)
        requires
            self.cross_ok(rhs),
        ensures
            r == self.cross_spec(rhs),
    {
        Vec3::new(
            self.y.times(rhs.z).minus(self.z.times(rhs.y)),
            self.z.times(rhs.x).minus(self.x.times(rhs.z)),
            self.x.times(rhs.y).minus(self.y.times(rhs.x)),
        )
    }

    /// The magnitude of the vector.
    pub fn mag(self) -> (r: S)
        requires
            self.mag_ok(),
        ensures
            r == self.mag_spec(),
    {
        self.dot(self).sqrt()
    }

    /// The vector scaled to magnitude one: each component divided by the
    /// magnitude.
    pub fn unit(self) -> (r: Vec3<S>)
        requires
            self.unit_ok(),
        ensures
            r == self.unit_spec(),
    {
        self / self.mag()
    }
}

impl<S: Scalar> IntoVec3 for Vec3<S> {
    type Component = S;

    open spec fn into_vec3_spec(self) -> Vec3<S> {
        self
    }

    fn into_vec3(self) -> (r: Vec3<S>) {
        self
    }
}

/// A vector of space is promoted to the point `(x, y, z, 1)`; a coordinate
/// projects to its first three components.
impl<S: Scalar> Homogeneous for Vec3<S> {
    type Component = S;

    open spec fn into_vec4_spec(self) -> Vec4<S> {
        Vec4 { x: self.x, y: self.y, z: self.z, w: S::one_spec() }
    }

    open spec fn from_vec4_spec(v: Vec4<S>) -> Vec3<S> {
        Vec3 { x: v.x, y: v.y, z: v.z }
    }

    fn into_vec4(self) -> (r: Vec4<S>) {
        Vec4::new(self.x, self.y, self.z, S::one())
    }

    fn from_vec4(v: Vec4<S>) -> (r: Vec3<S>) {
        Vec3::new(v.x, v.y, v.z)
    }

    proof fn lemma_round_trip(self) {
    }
}

impl<S: Scalar, T: IntoVec3<Component = S>> AddSpecImpl<T> for Vec3<S> {
    open spec fn obeys_add_spec() -> bool {
        true
    }

    open spec fn add_req(self, rhs: T) -> bool {
        self.sum_ok(rhs.into_vec3_spec())
    }

    open spec fn add_spec(self, rhs: T) -> Vec3<S> {
        self.sum_spec(rhs.into_vec3_spec())
    }
}

/// `self + rhs`, component by component, after `rhs` is converted to three
/// components.
impl<S: Scalar, T: IntoVec3<Component = S>> Add<T> for Vec3<S> {
    type Output = Vec3<S>;

    fn add(self, rhs: T) -> (r: Vec3<S>) {
        let rhs = rhs.into_vec3();
        Vec3::new(self.x.plus(rhs.x), self.y.plus(rhs.y), self.z.plus(rhs.z))
    }
}

impl<S: Scalar, T: IntoVec3<Component = S>> SubSpecImpl<T> for Vec3<S> {
    open spec fn obeys_sub_spec() -> bool {
        true
    }

    open spec fn sub_req(self, rhs: T) -> bool {
        self.diff_ok(rhs.into_vec3_spec())
    }

    open spec fn sub_spec(self, rhs: T) -> Vec3<S> {
        self.diff_spec(rhs.into_vec3_spec())
    }
}

/// `self - rhs`, component by component, after `rhs` is converted to three
/// components.
impl<S: Scalar, T: IntoVec3<Component = S>> Sub<T> for Vec3<S> {
    type Output = Vec3<S>;

    fn sub(self, rhs: T) -> (r: Vec3<S>) {
        let rhs = rhs.into_vec3();
        Vec3::new(self.x.minus(rhs.x), self.y.minus(rhs.y), self.z.minus(rhs.z))
    }
}

impl<S: Scalar> MulSpecImpl<S> for Vec3<S> {
    open spec fn obeys_mul_spec() -> bool {
        true
    }

    open spec fn mul_req(self, scalar: S) -> bool {
        self.scaled_ok(scalar)
    }

    open spec fn mul_spec(self, scalar: S) -> Vec3<S> {
        self.scaled_spec(scalar)
    }
}

/// Every component multiplied by the scalar.
impl<S: Scalar> Mul<S> for Vec3<S> {
    type Output = Vec3<S>;

    fn mul(self, scalar: S) -> (r: Vec3<S>) {
        Vec3::new(self.x.times(scalar), self.y.times(scalar), self.z.times(scalar))
    }
}

impl<S: Scalar> MulSpecImpl<i32> for Vec3<S> {
    open spec fn obeys_mul_spec() -> bool {
        true
    }

    open spec fn mul_req(self, scalar: i32) -> bool {
        self.scaled_ok(S::from_int_spec(scalar))
    }

    open spec fn mul_spec(self, scalar: i32) -> Vec3<S> {
        self.scaled_spec(S::from_int_spec(scalar))
    }
}

/// Every component multiplied by the scalar that stands for the integer.
impl<S: Scalar> Mul<i32> for Vec3<S> {
    type Output = Vec3<S>;

    fn mul(self, scalar: i32) -> (r: Vec3<S>) {
        let k = S::from_int(scalar);
        Vec3::new(self.x.times(k), self.y.times(k), self.z.times(k))
    }
}

impl<S: Scalar> DivSpecImpl<S> for Vec3<S> {
    open spec fn obeys_div_spec() -> bool {
        true
    }

    open spec fn div_req(self, scalar: S) -> bool {
        self.divided_ok(scalar)
    }

    open spec fn div_spec(self, scalar: S) -> Vec3<S> {
        self.divided_spec(scalar)
    }
}

/// Every component divided by the scalar.
impl<S: Scalar> Div<S> for Vec3<S> {
    type Output = Vec3<S>;

    fn div(self, scalar: S) -> (r: Vec3<S>) {
        Vec3::new(self.x.over(scalar), self.y.over(scalar), self.z.over(scalar))
    }
}

impl<S: Scalar> DivSpecImpl<i32> for Vec3<S> {
    open spec fn obeys_div_spec() -> bool {
        true
    }

    open spec fn div_req(self, scalar: i32) -> bool {
        self.divided_ok(S::from_int_spec(scalar))
    }

    open spec fn div_spec(self, scalar: i32) -> Vec3<S> {
        self.divided_spec(S::from_int_spec(scalar))
    }
}

/// Every component divided by the scalar that stands for the integer.
impl<S: Scalar> Div<i32> for Vec3<S> {
    type Output = Vec3<S>;

    fn div(self, scalar: i32) -> (r: Vec3<S>) {
        let k = S::from_int(scalar);
        Vec3::new(self.x.over(k), self.y.over(k), self.z.over(k))
    }
}

impl<S: Scalar> PartialEqSpecImpl for Vec3<S> {
    open spec fn obeys_eq_spec() -> bool {
        true
    }

    open spec fn eq_spec(&self, other: &Vec3<S>) -> bool {
        self.near_spec(*other)
    }
}

/// Two vectors are equal when every pair of components is near.
impl<S: Scalar> PartialEq for Vec3<S> {
    fn eq(&self, other: &Vec3<S>) -> (r: bool) {
        self.x.near(other.x) && self.y.near(other.y) && self.z.near(other.z)
    }
}

impl<S: Scalar> FromSpecImpl<Vec2<S>> for Vec3<S> {
    open spec fn obeys_from_spec() -> bool {
        true
    }

    open spec fn from_spec(vec2: Vec2<S>) -> Vec3<S> {
        Vec3 { x: vec2.x, y: vec2.y, z: S::zero_spec() }
    }
}

/// A vector of the plane lies in space at `z = 0`.
impl<S: Scalar> From<Vec2<S>> for Vec3<S> {
    fn from(vec2: Vec2<S>) -> (r: Vec3<S>) {
        Vec3 { x: vec2.x, y: vec2.y, z: S::zero() }
    }
}

impl<S: Scalar> FromSpecImpl<Vec4<S>> for Vec3<S> {
    open spec fn obeys_from_spec() -> bool {
        true
    }

    open spec fn from_spec(vec: Vec4<S>) -> Vec3<S> {
        Vec3 { x: vec.x, y: vec.y, z: vec.z }
    }
}

/// A coordinate loses its fourth component, with no perspective divide.
impl<S: Scalar> From<Vec4<S>> for Vec3<S> {
    fn from(vec: Vec4<S>) -> (r: Vec3<S>) {
        Vec3::new(vec.x, vec.y, vec.z)
    }
}

} // verus!
