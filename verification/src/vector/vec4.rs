//! Vectors of four components: homogeneous coordinates.

use crate::scalar::Scalar;
use crate::vector::{Homogeneous, IntoVec3, Vec2, Vec3};
use core::ops::{Add, Div, Mul, Sub};
use vstd::prelude::*;
use vstd::std_specs::cmp::PartialEqSpecImpl;
use vstd::std_specs::convert::FromSpecImpl;
use vstd::std_specs::ops::{AddSpecImpl, DivSpecImpl, MulSpecImpl, SubSpecImpl};

verus! {

/// A homogeneous coordinate `(x, y, z, w)`: `w` is one for a point and zero
/// for a direction.
#[derive(Debug)]
pub struct Vec4<S: Scalar> {
    pub x: S,
    pub y: S,
    pub z: S,
    pub w: S,
}

impl<S: Scalar> Clone for Vec4<S> {
    fn clone(&self) -> (r: Vec4<S>)
        ensures
            r == *self,
    {
        *self
    }
}

impl<S: Scalar> Copy for Vec4<S> {

}

impl<S: Scalar> Vec4<S> {
    /// Whether every product and every partial sum of the dot product is
    /// defined.
    pub open spec fn dot_ok(self, rhs: Vec4<S>) -> bool {
        let xx = self.x.times_spec(rhs.x);
        let yy = self.y.times_spec(rhs.y);
        let zz = self.z.times_spec(rhs.z);
        let ww = self.w.times_spec(rhs.w);
        &&& self.x.times_ok(rhs.x)
        &&& self.y.times_ok(rhs.y)
        &&& self.z.times_ok(rhs.z)
        &&& self.w.times_ok(rhs.w)
        &&& xx.plus_ok(yy)
        &&& xx.plus_spec(yy).plus_ok(zz)
        &&& xx.plus_spec(yy).plus_spec(zz).plus_ok(ww)
    }

    /// The dot product `((x1*x2 + y1*y2) + z1*z2) + w1*w2`.
    pub open spec fn dot_spec(self, rhs: Vec4<S>) -> S {
        let xx = self.x.times_spec(rhs.x);
        let yy = self.y.times_spec(rhs.y);
        let zz = self.z.times_spec(rhs.z);
        let ww = self.w.times_spec(rhs.w);
        xx.plus_spec(yy).plus_spec(zz).plus_spec(ww)
    }

    /// Whether the component-wise sum is defined.
    pub open spec fn sum_ok(self, rhs: Vec4<S>) -> bool {
        &&& self.x.plus_ok(rhs.x)
        &&& self.y.plus_ok(rhs.y)
        &&& self.z.plus_ok(rhs.z)
        &&& self.w.plus_ok(rhs.w)
    }

    /// The component-wise sum.
    pub open spec fn sum_spec(self, rhs: Vec4<S>) -> Vec4<S> {
        Vec4 {
            x: self.x.plus_spec(rhs.x),
            y: self.y.plus_spec(rhs.y),
            z: self.z.plus_spec(rhs.z),
            w: self.w.plus_spec(rhs.w),
        }
    }

    /// Whether the component-wise difference is defined.
    pub open spec fn diff_ok(self, rhs: Vec4<S>) -> bool {
        &&& self.x.minus_ok(rhs.x)
        &&& self.y.minus_ok(rhs.y)
        &&& self.z.minus_ok(rhs.z)
        &&& self.w.minus_ok(rhs.w)
    }

    /// The component-wise difference.
    pub open spec fn diff_spec(self, rhs: Vec4<S>) -> Vec4<S> {
        Vec4 {
            x: self.x.minus_spec(rhs.x),
            y: self.y.minus_spec(rhs.y),
            z: self.z.minus_spec(rhs.z),
            w: self.w.minus_spec(rhs.w),
        }
    }

    /// Whether every component can be multiplied by `k`.
    pub open spec fn scaled_ok(self, k: S) -> bool {
        &&& self.x.times_ok(k)
        &&& self.y.times_ok(k)
        &&& self.z.times_ok(k)
        &&& self.w.times_ok(k)
    }

    /// Every component multiplied by `k`.
    pub open spec fn scaled_spec(self, k: S) -> Vec4<S> {
        Vec4 {
            x: self.x.times_spec(k),
            y: self.y.times_spec(k),
            z: self.z.times_spec(k),
            w: self.w.times_spec(k),
        }
    }

    /// Whether every component can be divided by `k`.
    pub open spec fn divided_ok(self, k: S) -> bool {
        &&& self.x.over_ok(k)
        &&& self.y.over_ok(k)
        &&& self.z.over_ok(k)
        &&& self.w.over_ok(k)
    }

    /// Every component divided by `k`.
    pub open spec fn divided_spec(self, k: S) -> Vec4<S> {
        Vec4 {
            x: self.x.over_spec(k),
            y: self.y.over_spec(k),
            z: self.z.over_spec(k),
            w: self.w.over_spec(k),
        }
    }

    /// Whether every component of `self` is near the same component of
    /// `other`.
    pub open spec fn near_spec(self, other: Vec4<S>) -> bool {
        &&& self.x.near_spec(other.x)
        &&& self.y.near_spec(other.y)
        &&& self.z.near_spec(other.z)
        &&& self.w.near_spec(other.w)
    }

    /// The zero vector.
    pub open spec fn zero_spec() -> Vec4<S> {
        Vec4 { x: S::zero_spec(), y: S::zero_spec(), z: S::zero_spec(), w: S::zero_spec() }
    }

    /// Whether the magnitude is defined: the dot product of the vector with
    /// itself, and the square root of that.
    pub open spec fn mag_ok(self) -> bool {
        self.dot_ok(self) && self.dot_spec(self).sqrt_ok()
    }

    /// The Euclidean norm: the square root of the dot product of the vector
    /// with itself.
    pub open spec fn mag_spec(self) -> S {
        self.dot_spec(self).sqrt_spec()
    }

    /// Whether the vector can be divided by its magnitude.
    pub open spec fn unit_ok(self) -> bool {
        self.mag_ok() && self.divided_ok(self.mag_spec())
    }

    /// The vector divided by its magnitude.
    pub open spec fn unit_spec(self) -> Vec4<S> {
        self.divided_spec(self.mag_spec())
    }

    pub fn new(x: S, y: S, z: S, w: S) -> (r: Vec4<S>)
        ensures
            r == (Vec4 { x, y, z, w }),
    {
        Vec4 { x, y, z, w }
    }

    /// The dot product of the two vectors.
    pub fn dot(self, rhs: Vec4<S>) -> (r: S)
        requires
            self.dot_ok(rhs),
        ensures
            r == self.dot_spec(rhs),
    {
        let xx = self.x.times(rhs.x);
        let yy = self.y.times(rhs.y);
        let zz = self.z.times(rhs.z);
        let ww = self.w.times(rhs.w);
        xx.plus(yy).plus(zz).plus(ww)
    }

    /// The magnitude of the vector.
    pub fn mag(self) -> (r: S)
        requires
            self.mag_ok(),
        ensures
            r == self.mag_spec(),
    {
        self.dot(self).sqrt()
    }

    /// The vector scaled to magnitude one: each component divided by the
    /// magnitude.
    pub fn unit(self) -> (r: Vec4<S>)
        requires
            self.unit_ok(),
        ensures
            r == self.unit_spec(),
    {
        self / self.mag()
    }
}

impl<S: Scalar> Default for Vec4<S> {
    /// The zero vector.
    fn default() -> (r: Vec4<S>)
        ensures
            r == Vec4::<S>::zero_spec(),
    {
        Vec4 { x: S::zero(), y: S::zero(), z: S::zero(), w: S::zero() }
    }
}

impl<S: Scalar> Homogeneous for Vec4<S> {
    type Component = S;

    open spec fn into_vec4_spec(self) -> Vec4<S> {
        self
    }

    open spec fn from_vec4_spec(v: Vec4<S>) -> Vec4<S> {
        v
    }

    fn into_vec4(self) -> (r: Vec4<S>) {
        self
    }

    fn from_vec4(v: Vec4<S>) -> (r: Vec4<S>) {
        v
    }

    proof fn lemma_round_trip(self) {
    }
}

/// A coordinate stands for the vector of its first three components: the
/// fourth is dropped, with no perspective divide.
impl<S: Scalar> IntoVec3 for Vec4<S> {
    type Component = S;

    open spec fn into_vec3_spec(self) -> Vec3<S> {
        Vec3 { x: self.x, y: self.y, z: self.z }
    }

    fn into_vec3(self) -> (r: Vec3<S>) {
        Vec3 { x: self.x, y: self.y, z: self.z }
    }
}

impl<S: Scalar, T: Homogeneous<Component = S>> AddSpecImpl<T> for Vec4<S> {
    open spec fn obeys_add_spec() -> bool {
        true
    }

    open spec fn add_req(self, rhs: T) -> bool {
        self.sum_ok(rhs.into_vec4_spec())
    }

    open spec fn add_spec(self, rhs: T) -> Vec4<S> {
        self.sum_spec(rhs.into_vec4_spec())
    }
}

/// `self + rhs`, component by component, after `rhs` is promoted to four
/// components.
impl<S: Scalar, T: Homogeneous<Component = S>> Add<T> for Vec4<S> {
    type Output = Vec4<S>;

    fn add(self, rhs: T) -> (r: Vec4<S>) {
        let rhs = rhs.into_vec4();
        Vec4::new(
            self.x.plus(rhs.x),
            self.y.plus(rhs.y),
            self.z.plus(rhs.z),
            self.w.plus(rhs.w),
        )
    }
}

impl<S: Scalar, T: Homogeneous<Component = S>> SubSpecImpl<T> for Vec4<S> {
    open spec fn obeys_sub_spec() -> bool {
        true
    }

    open spec fn sub_req(self, rhs: T) -> bool {
        self.diff_ok(rhs.into_vec4_spec())
    }

    open spec fn sub_spec(self, rhs: T) -> Vec4<S> {
        self.diff_spec(rhs.into_vec4_spec())
    }
}

/// `self - rhs`, component by component, after `rhs` is promoted to four
/// components.
impl<S: Scalar, T: Homogeneous<Component = S>> Sub<T> for Vec4<S> {
    type Output = Vec4<S>;

    fn sub(self, rhs: T) -> (r: Vec4<S>) {
        let rhs = rhs.into_vec4();
        Vec4::new(
            self.x.minus(rhs.x),
            self.y.minus(rhs.y),
            self.z.minus(rhs.z),
            self.w.minus(rhs.w),
        )
    }
}

impl<S: Scalar> MulSpecImpl<S> for Vec4<S> {
    open spec fn obeys_mul_spec() -> bool {
        true
    }

    open spec fn mul_req(self, scalar: S) -> bool {
        self.scaled_ok(scalar)
    }

    open spec fn mul_spec(self, scalar: S) -> Vec4<S> {
        self.scaled_spec(scalar)
    }
}

/// Every component multiplied by the scalar.
impl<S: Scalar> Mul<S> for Vec4<S> {
    type Output = Vec4<S>;

    fn mul(self, scalar: S) -> (r: Vec4<S>) {
        Vec4::new(
            self.x.times(scalar),
            self.y.times(scalar),
            self.z.times(scalar),
            self.w.times(scalar),
        )
    }
}

impl<S: Scalar> MulSpecImpl<i32> for Vec4<S> {
    open spec fn obeys_mul_spec() -> bool {
        true
    }

    open spec fn mul_req(self, scalar: i32) -> bool {
        self.scaled_ok(S::from_int_spec(scalar))
    }

    open spec fn mul_spec(self, scalar: i32) -> Vec4<S> {
        self.scaled_spec(S::from_int_spec(scalar))
    }
}

/// Every component multiplied by the scalar that stands for the integer.
impl<S: Scalar> Mul<i32> for Vec4<S> {
    type Output = Vec4<S>;

    fn mul(self, scalar: i32) -> (r: Vec4<S>) {
        let k = S::from_int(scalar);
        Vec4::new(self.x.times(k), self.y.times(k), self.z.times(k), self.w.times(k))
    }
}

impl<S: Scalar> DivSpecImpl<S> for Vec4<S> {
    open spec fn obeys_div_spec() -> bool {
        true
    }

    open spec fn div_req(self, scalar: S) -> bool {
        self.divided_ok(scalar)
    }

    open spec fn div_spec(self, scalar: S) -> Vec4<S> {
        self.divided_spec(scalar)
    }
}

/// Every component divided by the scalar.
impl<S: Scalar> Div<S> for Vec4<S> {
    type Output = Vec4<S>;

    fn div(self, scalar: S) -> (r: Vec4<S>) {
        Vec4::new(
            self.x.over(scalar),
            self.y.over(scalar),
            self.z.over(scalar),
            self.w.over(scalar),
        )
    }
}

impl<S: Scalar> DivSpecImpl<i32> for Vec4<S> {
    open spec fn obeys_div_spec() -> bool {
        true
    }

    open spec fn div_req(self, scalar: i32) -> bool {
        self.divided_ok(S::from_int_spec(scalar))
    }

    open spec fn div_spec(self, scalar: i32) -> Vec4<S> {
        self.divided_spec(S::from_int_spec(scalar))
    }
}

/// Every component divided by the scalar that stands for the integer.
impl<S: Scalar> Div<i32> for Vec4<S> {
    type Output = Vec4<S>;

    fn div(self, scalar: i32) -> (r: Vec4<S>) {
        let k = S::from_int(scalar);
        Vec4::new(self.x.over(k), self.y.over(k), self.z.over(k), self.w.over(k))
    }
}

impl<S: Scalar> PartialEqSpecImpl for Vec4<S> {
    open spec fn obeys_eq_spec() -> bool {
        true
    }

    open spec fn eq_spec(&self, other: &Vec4<S>) -> bool {
        self.near_spec(*other)
    }
}

/// Two vectors are equal when every pair of components is near.
impl<S: Scalar> PartialEq for Vec4<S> {
    fn eq(&self, other: &Vec4<S>) -> (r: bool) {
        self.x.near(other.x) && self.y.near(other.y) && self.z.near(other.z) && self.w.near(
            other.w,
        )
    }
}

impl<S: Scalar> FromSpecImpl<Vec2<S>> for Vec4<S> {
    open spec fn obeys_from_spec() -> bool {
        true
    }

    open spec fn from_spec(vec: Vec2<S>) -> Vec4<S> {
        Vec4 { x: vec.x, y: vec.y, z: S::zero_spec(), w: S::one_spec() }
    }
}

/// A vector of the plane becomes the point `(x, y, 0, 1)`.
impl<S: Scalar> From<Vec2<S>> for Vec4<S> {
    fn from(vec: Vec2<S>) -> (r: Vec4<S>) {
        Vec4::new(vec.x, vec.y, S::zero(), S::one())
    }
}

impl<S: Scalar> FromSpecImpl<Vec3<S>> for Vec4<S> {
    open spec fn obeys_from_spec() -> bool {
        true
    }

    open spec fn from_spec(vec: Vec3<S>) -> Vec4<S> {
        Vec4 { x: vec.x, y: vec.y, z: vec.z, w: S::one_spec() }
    }
}

/// A vector of space becomes the point `(x, y, z, 1)`.
impl<S: Scalar> From<Vec3<S>> for Vec4<S> {
    fn from(vec: Vec3<S>) -> (r: Vec4<S>) {
        Vec4::new(vec.x, vec.y, vec.z, S::one())
    }
}

} // verus!
