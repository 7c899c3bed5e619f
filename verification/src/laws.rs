//! Identities of the algebra.
//!
//! The conversions between the vector types lose and restore components in
//! the same way over every scalar. The arithmetic identities hold over the
//! exact scalar `i64`, wherever the operations involved are defined.

use crate::matrix::{identity_entries, scaling_entries, translation_entries, Mat4};
use crate::scalar::Scalar;
use crate::vector::{Homogeneous, Vec2, Vec3, Vec4};
use vstd::prelude::*;
use vstd::std_specs::convert::FromSpec;

verus! {

/// Adding a vector and then subtracting it again gives back the vector
/// that one started from.
pub proof fn lemma_add_then_sub(a: Vec2<i64>, b: Vec2<i64>)
    requires
        a.sum_ok(b),
    ensures
        a.sum_spec(b).diff_ok(b),
        a.sum_spec(b).diff_spec(b) == a,
        a.sum_spec(b).diff_spec(b).near_spec(a),
{
}

/// Subtracting a vector and then adding it again gives back the vector
/// that one started from.
pub proof fn lemma_sub_then_add(a: Vec2<i64>, b: Vec2<i64>)
    requires
        a.diff_ok(b),
    ensures
        a.diff_spec(b).sum_ok(b),
        a.diff_spec(b).sum_spec(b) == a,
        a.diff_spec(b).sum_spec(b).near_spec(a),
{
}

/// The cross product changes sign when its operands change places:
/// `a x b` is `b x a` with every component multiplied by minus one.
pub proof fn lemma_cross_anticommutative(a: Vec3<i64>, b: Vec3<i64>)
    requires
        a.cross_ok(b),
        b.cross_ok(a),
    ensures
        b.cross_spec(a).scaled_ok(-1i64),
        a.cross_spec(b) == b.cross_spec(a).scaled_spec(-1i64),
        a.cross_spec(b).near_spec(b.cross_spec(a).scaled_spec(-1i64)),
{
    lemma_products_commute(a.y, b.z);
    lemma_products_commute(a.z, b.y);
    lemma_products_commute(a.z, b.x);
    lemma_products_commute(a.x, b.z);
    lemma_products_commute(a.x, b.y);
    lemma_products_commute(a.y, b.x);
}

/// The cross product of two vectors is orthogonal to the first of them.
pub proof fn lemma_cross_orthogonal(a: Vec3<i64>, b: Vec3<i64>)
    requires
        a.cross_ok(b),
        a.dot_ok(a.cross_spec(b)),
    ensures
        a.dot_spec(a.cross_spec(b)) == 0,
        a.dot_spec(a.cross_spec(b)).near_spec(0i64),
{
    let (ax, ay, az) = (a.x as int, a.y as int, a.z as int);
    let (bx, by, bz) = (b.x as int, b.y as int, b.z as int);
    assert(ax * (ay * bz - az * by) + ay * (az * bx - ax * bz) + az * (ax * by - ay * bx) == 0)
        by (nonlinear_arith);
}

/// The identity matrix maps every vector that has a homogeneous form to
/// itself, and every product on the way is defined.
pub proof fn lemma_identity_apply<T: Homogeneous<Component = i64>>(m: Mat4<i64>, v: T)
    requires
        m@ == identity_entries::<i64>(),
    ensures
        m.apply_ok(v.into_vec4_spec()),
        T::from_vec4_spec(m.apply_spec(v.into_vec4_spec())) == v,
{
    let h = v.into_vec4_spec();
    lemma_unit_products(h.x as int);
    lemma_unit_products(h.y as int);
    lemma_unit_products(h.z as int);
    lemma_unit_products(h.w as int);
    assert(m.row_spec(0) == (Vec4::<i64> { x: 1, y: 0, z: 0, w: 0 }));
    assert(m.row_spec(1) == (Vec4::<i64> { x: 0, y: 1, z: 0, w: 0 }));
    assert(m.row_spec(2) == (Vec4::<i64> { x: 0, y: 0, z: 1, w: 0 }));
    assert(m.row_spec(3) == (Vec4::<i64> { x: 0, y: 0, z: 0, w: 1 }));
    assert(m.row_spec(0).dot_ok(h) && m.row_spec(0).dot_spec(h) == h.x);
    assert(m.row_spec(1).dot_ok(h) && m.row_spec(1).dot_spec(h) == h.y);
    assert(m.row_spec(2).dot_ok(h) && m.row_spec(2).dot_spec(h) == h.z);
    assert(m.row_spec(3).dot_ok(h) && m.row_spec(3).dot_spec(h) == h.w);
    assert(m.apply_spec(h) == h);
    v.lemma_round_trip();
}

/// A translation matrix moves a point of space by the vector that it was
/// made from.
pub proof fn lemma_translation_apply(m: Mat4<i64>, t: Vec3<i64>, v: Vec3<i64>)
    requires
        m@ == translation_entries(t),
        v.sum_ok(t),
    ensures
        m.apply_ok(v.into_vec4_spec()),
        Vec3::from_vec4_spec(m.apply_spec(v.into_vec4_spec())) == v.sum_spec(t),
{
    let h = v.into_vec4_spec();
    lemma_unit_products(v.x as int);
    lemma_unit_products(v.y as int);
    lemma_unit_products(v.z as int);
    lemma_unit_products(t.x as int);
    lemma_unit_products(t.y as int);
    lemma_unit_products(t.z as int);
    assert(m.row_spec(0) == (Vec4::<i64> { x: 1, y: 0, z: 0, w: t.x }));
    assert(m.row_spec(1) == (Vec4::<i64> { x: 0, y: 1, z: 0, w: t.y }));
    assert(m.row_spec(2) == (Vec4::<i64> { x: 0, y: 0, z: 1, w: t.z }));
    assert(m.row_spec(3) == (Vec4::<i64> { x: 0, y: 0, z: 0, w: 1 }));
    assert(m.row_spec(0).dot_ok(h) && m.row_spec(0).dot_spec(h) == v.x + t.x);
    assert(m.row_spec(1).dot_ok(h) && m.row_spec(1).dot_spec(h) == v.y + t.y);
    assert(m.row_spec(2).dot_ok(h) && m.row_spec(2).dot_spec(h) == v.z + t.z);
    assert(m.row_spec(3).dot_ok(h));
}

/// A scaling matrix multiplies each component of a point of space by the
/// matching component of the vector that it was made from.
pub proof fn lemma_scaling_apply(m: Mat4<i64>, s: Vec3<i64>, v: Vec3<i64>)
    requires
        m@ == scaling_entries(s),
        s.x.times_ok(v.x),
        s.y.times_ok(v.y),
        s.z.times_ok(v.z),
    ensures
        m.apply_ok(v.into_vec4_spec()),
        Vec3::from_vec4_spec(m.apply_spec(v.into_vec4_spec())) == (Vec3 {
            x: s.x.times_spec(v.x),
            y: s.y.times_spec(v.y),
            z: s.z.times_spec(v.z),
        }),
{
    let h = v.into_vec4_spec();
    lemma_unit_products(v.x as int);
    lemma_unit_products(v.y as int);
    lemma_unit_products(v.z as int);
    lemma_unit_products(s.x as int);
    lemma_unit_products(s.y as int);
    lemma_unit_products(s.z as int);
    assert(m.row_spec(0) == (Vec4::<i64> { x: s.x, y: 0, z: 0, w: 0 }));
    assert(m.row_spec(1) == (Vec4::<i64> { x: 0, y: s.y, z: 0, w: 0 }));
    assert(m.row_spec(2) == (Vec4::<i64> { x: 0, y: 0, z: s.z, w: 0 }));
    assert(m.row_spec(3) == (Vec4::<i64> { x: 0, y: 0, z: 0, w: 1 }));
    assert(m.row_spec(0).dot_ok(h) && m.row_spec(0).dot_spec(h) == s.x * v.x);
    assert(m.row_spec(1).dot_ok(h) && m.row_spec(1).dot_spec(h) == s.y * v.y);
    assert(m.row_spec(2).dot_ok(h) && m.row_spec(2).dot_spec(h) == s.z * v.z);
    assert(m.row_spec(3).dot_ok(h));
}

/// The cross product of two vectors of the plane points along the z axis:
/// its first two components are zero and its third is `x1*y2 - y1*x2`.
pub proof fn lemma_plane_cross(a: Vec2<i64>, b: Vec2<i64>)
    requires
        a.lift_spec().cross_ok(b.lift_spec()),
    ensures
        a.lift_spec().cross_spec(b.lift_spec()).x == 0,
        a.lift_spec().cross_spec(b.lift_spec()).y == 0,
        a.lift_spec().cross_spec(b.lift_spec()).z == a.x * b.y - a.y * b.x,
{
}

/// A vector of space that is cut down to the plane and brought back keeps
/// its first two components and has zero for the third.
pub proof fn lemma_vec3_through_vec2<S: Scalar>(v: Vec3<S>)
    ensures
        <Vec3<S> as FromSpec<Vec2<S>>>::from_spec(<Vec2<S> as FromSpec<Vec3<S>>>::from_spec(v))
            == (Vec3 { x: v.x, y: v.y, z: S::zero_spec() }),
{
}

/// A vector of the plane that is promoted to space and then to a
/// homogeneous coordinate is the point `(x, y, 0, 1)`.
pub proof fn lemma_vec2_through_vec3<S: Scalar>(v: Vec2<S>)
    ensures
        <Vec4<S> as FromSpec<Vec3<S>>>::from_spec(<Vec3<S> as FromSpec<Vec2<S>>>::from_spec(v))
            == (Vec4 { x: v.x, y: v.y, z: S::zero_spec(), w: S::one_spec() }),
{
}

/// Products with zero and with one.
proof fn lemma_unit_products(a: int)
    ensures
        0 * a == 0,
        a * 0 == 0,
        1 * a == a,
        a * 1 == a,
{
}

/// The product of two integers does not depend on their order.
proof fn lemma_products_commute(a: i64, b: i64)
    ensures
        a * b == b * a,
{
    assert(a * b == b * a) by (nonlinear_arith);
}

/// A product of matrices applies its right factor first: applying
/// `a * b` to a coordinate is applying `b` and then `a`.
pub proof fn lemma_product_applies_right_first(
    a: Mat4<i64>,
    b: Mat4<i64>,
    p: Mat4<i64>,
    v: Vec4<i64>,
)
    requires
        a.product_ok(b),
        p@ == a.product_entries(b),
        p.apply_ok(v),
        b.apply_ok(v),
        a.apply_ok(b.apply_spec(v)),
    ensures
        p.apply_spec(v) == a.apply_spec(b.apply_spec(v)),
{
    let w = b.apply_spec(v);
    lemma_product_row(a, b, p, v, 0);
    lemma_product_row(a, b, p, v, 1);
    lemma_product_row(a, b, p, v, 2);
    lemma_product_row(a, b, p, v, 3);
}

/// One row of `lemma_product_applies_right_first`.
proof fn lemma_product_row(a: Mat4<i64>, b: Mat4<i64>, p: Mat4<i64>, v: Vec4<i64>, i: int)
    requires
        0 <= i < 4,
        a.product_ok(b),
        p@ == a.product_entries(b),
        p.apply_ok(v),
        b.apply_ok(v),
        a.apply_ok(b.apply_spec(v)),
    ensures
        p.row_spec(i).dot_spec(v) == a.row_spec(i).dot_spec(b.apply_spec(v)),
{
    let r = a.row_spec(i);
    let w = b.apply_spec(v);
    assert(r.dot_ok(b.col_spec(0)));
    assert(r.dot_ok(b.col_spec(1)));
    assert(r.dot_ok(b.col_spec(2)));
    assert(r.dot_ok(b.col_spec(3)));
    assert(p@[i * 4] == r.dot_spec(b.col_spec(0)));
    assert(p@[i * 4 + 1] == r.dot_spec(b.col_spec(1)));
    assert(p@[i * 4 + 2] == r.dot_spec(b.col_spec(2)));
    assert(p@[i * 4 + 3] == r.dot_spec(b.col_spec(3)));
    assert(p.row_spec(i).dot_ok(v));
    assert(r.dot_ok(w));
    lemma_dot_of_dots(
        r.x as int,
        r.y as int,
        r.z as int,
        r.w as int,
        b.row_spec(0),
        b.row_spec(1),
        b.row_spec(2),
        b.row_spec(3),
        v,
    );
}

/// The dot product over integers, without bounds.
spec fn dot4(ax: int, ay: int, az: int, aw: int, bx: int, by: int, bz: int, bw: int) -> int {
    ax * bx + ay * by + az * bz + aw * bw
}

/// Combining four rows with the weights `r` and then taking the dot
/// product with `v` is the same as taking the four dot products with `v`
/// and combining those.
proof fn lemma_dot_of_dots(
    rx: int,
    ry: int,
    rz: int,
    rw: int,
    b0: Vec4<i64>,
    b1: Vec4<i64>,
    b2: Vec4<i64>,
    b3: Vec4<i64>,
    v: Vec4<i64>,
)
    ensures
        dot4(
            dot4(rx, ry, rz, rw, b0.x as int, b1.x as int, b2.x as int, b3.x as int),
            dot4(rx, ry, rz, rw, b0.y as int, b1.y as int, b2.y as int, b3.y as int),
            dot4(rx, ry, rz, rw, b0.z as int, b1.z as int, b2.z as int, b3.z as int),
            dot4(rx, ry, rz, rw, b0.w as int, b1.w as int, b2.w as int, b3.w as int),
            v.x as int,
            v.y as int,
            v.z as int,
            v.w as int,
        ) == dot4(
            rx,
            ry,
            rz,
            rw,
            dot4(b0.x as int, b0.y as int, b0.z as int, b0.w as int, v.x as int, v.y as int, v.z as int, v.w as int),
            dot4(b1.x as int, b1.y as int, b1.z as int, b1.w as int, v.x as int, v.y as int, v.z as int, v.w as int),
            dot4(b2.x as int, b2.y as int, b2.z as int, b2.w as int, v.x as int, v.y as int, v.z as int, v.w as int),
            dot4(b3.x as int, b3.y as int, b3.z as int, b3.w as int, v.x as int, v.y as int, v.z as int, v.w as int),
        ),
{
    let (vx, vy, vz, vw) = (v.x as int, v.y as int, v.z as int, v.w as int);
    lemma_weighted_sum(rx, b0.x as int, ry, b1.x as int, rz, b2.x as int, rw, b3.x as int, vx);
    lemma_weighted_sum(rx, b0.y as int, ry, b1.y as int, rz, b2.y as int, rw, b3.y as int, vy);
    lemma_weighted_sum(rx, b0.z as int, ry, b1.z as int, rz, b2.z as int, rw, b3.z as int, vz);
    lemma_weighted_sum(rx, b0.w as int, ry, b1.w as int, rz, b2.w as int, rw, b3.w as int, vw);
    lemma_weight_of_sum(rx, b0.x as int * vx, b0.y as int * vy, b0.z as int * vz, b0.w as int * vw);
    lemma_weight_of_sum(ry, b1.x as int * vx, b1.y as int * vy, b1.z as int * vz, b1.w as int * vw);
    lemma_weight_of_sum(rz, b2.x as int * vx, b2.y as int * vy, b2.z as int * vz, b2.w as int * vw);
    lemma_weight_of_sum(rw, b3.x as int * vx, b3.y as int * vy, b3.z as int * vz, b3.w as int * vw);
}

/// `(a*p + b*q + c*r + d*s) * v == a*(p*v) + b*(q*v) + c*(r*v) + d*(s*v)`.
proof fn lemma_weighted_sum(a: int, p: int, b: int, q: int, c: int, r: int, d: int, s: int, v: int)
    ensures
        (a * p + b * q + c * r + d * s) * v == a * (p * v) + b * (q * v) + c * (r * v) + d * (s
            * v),
{
    lemma_sum_times(a * p, b * q, c * r, d * s, v);
    lemma_times_associates(a, p, v);
    lemma_times_associates(b, q, v);
    lemma_times_associates(c, r, v);
    lemma_times_associates(d, s, v);
}

/// `(p + q + r + s) * v == p*v + q*v + r*v + s*v`.
proof fn lemma_sum_times(p: int, q: int, r: int, s: int, v: int)
    ensures
        (p + q + r + s) * v == p * v + q * v + r * v + s * v,
{
    assert((p + q + r + s) * v == p * v + q * v + r * v + s * v) by (nonlinear_arith);
}

/// `(a * p) * v == a * (p * v)`.
proof fn lemma_times_associates(a: int, p: int, v: int)
    ensures
        (a * p) * v == a * (p * v),
{
    assert((a * p) * v == a * (p * v)) by (nonlinear_arith);
}

/// `a * (p + q + r + s) == a*p + a*q + a*r + a*s`.
proof fn lemma_weight_of_sum(a: int, p: int, q: int, r: int, s: int)
    ensures
        a * (p + q + r + s) == a * p + a * q + a * r + a * s,
{
    assert(a * (p + q + r + s) == a * p + a * q + a * r + a * s) by (nonlinear_arith);
}

} // verus!
