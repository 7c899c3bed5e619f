//! The vectors over the exact scalar.

use linalg::scalar::Scalar;
use linalg::vector::{Homogeneous, IntoVec3, Vec2, Vec3, Vec4};

#[test]
fn vec2_fields_and_new() {
    let v: Vec2<i64> = Vec2::new(1, 2);
    assert_eq!((v.x, v.y), (1, 2));
}

#[test]
fn vec2_dot_and_cross() {
    let lhs: Vec2<i64> = Vec2::new(1, 2);
    let rhs: Vec2<i64> = Vec2::new(3, 5);
    assert_eq!(lhs.dot(rhs), 13);
    let cross = lhs.cross(rhs);
    assert_eq!((cross.x, cross.y, cross.z), (0, 0, -1));
}

#[test]
fn vec2_add_and_sub() {
    let lhs: Vec2<i64> = Vec2::new(1, 2);
    let rhs: Vec2<i64> = Vec2::new(3, 5);
    let added = lhs + rhs;
    let subbed = lhs - rhs;
    assert_eq!((added.x, added.y), (4, 7));
    assert_eq!((subbed.x, subbed.y), (-2, -3));
}

#[test]
fn vec2_scaling_by_integer_and_by_scalar() {
    let lhs: Vec2<i64> = Vec2::new(1, 2);
    let by_int = lhs * 2i32;
    let by_scalar = lhs * 3i64;
    assert_eq!((by_int.x, by_int.y), (2, 4));
    assert_eq!((by_scalar.x, by_scalar.y), (3, 6));
}

#[test]
fn vec2_division_rounds_toward_zero() {
    let v: Vec2<i64> = Vec2::new(-7, 7);
    let by_scalar = v / 2i64;
    let by_int = v / -2i32;
    assert_eq!((by_scalar.x, by_scalar.y), (-3, 3));
    assert_eq!((by_int.x, by_int.y), (3, -3));
}

#[test]
fn vec2_magnitude_and_unit() {
    let v: Vec2<i64> = Vec2::new(3, 4);
    assert_eq!(v.mag(), 5);
    let w: Vec2<i64> = Vec2::new(3, 5);
    assert_eq!(w.mag(), 5);
    let axis: Vec2<i64> = Vec2::new(0, -9);
    let unit = axis.unit();
    assert_eq!((unit.x, unit.y), (0, -1));
}

#[test]
fn vec2_add_then_sub_round_trips() {
    let a: Vec2<i64> = Vec2::new(i64::MAX - 5, -17);
    let b: Vec2<i64> = Vec2::new(5, i64::MIN + 17);
    let there = (a + b) - b;
    assert_eq!((there.x, there.y), (a.x, a.y));
    let c: Vec2<i64> = Vec2::new(12, -40);
    let d: Vec2<i64> = Vec2::new(-30, 2);
    let back = (c - d) + d;
    assert_eq!((back.x, back.y), (c.x, c.y));
}

#[test]
fn vec2_equality() {
    let a: Vec2<i64> = Vec2::new(1, 2);
    assert!(a == Vec2::new(1, 2));
    assert!(a != Vec2::new(1, 3));
    assert!(a != Vec2::new(0, 2));
}

#[test]
fn vec2_from_longer_vectors() {
    let from3: Vec2<i64> = Vec2::from(Vec3::new(1, 2, 3));
    let from4: Vec2<i64> = Vec2::from(Vec4::new(4, 5, 6, 7));
    assert_eq!((from3.x, from3.y), (1, 2));
    assert_eq!((from4.x, from4.y), (4, 5));
}

#[test]
fn vec3_dot_and_cross() {
    let lhs: Vec3<i64> = Vec3::new(1, 2, 3);
    let rhs: Vec3<i64> = Vec3::new(3, 5, 7);
    assert_eq!(lhs.dot(rhs), 34);
    let cross = lhs.cross(rhs);
    assert_eq!((cross.x, cross.y, cross.z), (-1, 2, -1));
}

#[test]
fn vec3_cross_is_anticommutative_and_orthogonal() {
    let a: Vec3<i64> = Vec3::new(4, -2, 9);
    let b: Vec3<i64> = Vec3::new(-3, 5, 7);
    let ab = a.cross(b);
    let ba = b.cross(a) * -1i64;
    assert_eq!((ab.x, ab.y, ab.z), (ba.x, ba.y, ba.z));
    assert_eq!((ab.x, ab.y, ab.z), (-59, -55, 14));
    assert_eq!(a.dot(ab), 0);
    assert_eq!(b.dot(ab), 0);
}

#[test]
fn vec3_add_and_sub_take_shorter_and_longer_vectors() {
    let lhs: Vec3<i64> = Vec3::new(1, 2, 3);
    let rhs: Vec3<i64> = Vec3::new(3, 5, 7);
    let added = lhs + rhs;
    let subbed = lhs - rhs;
    let plane_added = lhs + Vec2::from(rhs);
    let plane_subbed = lhs - Vec2::from(rhs);
    let point_added = lhs + Vec4::new(3, 5, 7, 9);
    assert_eq!((added.x, added.y, added.z), (4, 7, 10));
    assert_eq!((subbed.x, subbed.y, subbed.z), (-2, -3, -4));
    assert_eq!((plane_added.x, plane_added.y, plane_added.z), (4, 7, 3));
    assert_eq!((plane_subbed.x, plane_subbed.y, plane_subbed.z), (-2, -3, 3));
    assert_eq!((point_added.x, point_added.y, point_added.z), (4, 7, 10));
}

#[test]
fn vec3_scaling_and_division() {
    let v: Vec3<i64> = Vec3::new(2, -4, 6);
    let twice = v * 2i32;
    let thrice = v * 3i64;
    let half = v / 2i32;
    let third = v / 3i64;
    assert_eq!((twice.x, twice.y, twice.z), (4, -8, 12));
    assert_eq!((thrice.x, thrice.y, thrice.z), (6, -12, 18));
    assert_eq!((half.x, half.y, half.z), (1, -2, 3));
    assert_eq!((third.x, third.y, third.z), (0, -1, 2));
}

#[test]
fn vec3_magnitude_and_unit() {
    let v: Vec3<i64> = Vec3::new(2, 3, 6);
    assert_eq!(v.mag(), 7);
    let w: Vec3<i64> = Vec3::new(3, 5, 7);
    assert_eq!(w.mag(), 9);
    let unit = Vec3::<i64>::new(0, 0, 12).unit();
    assert_eq!((unit.x, unit.y, unit.z), (0, 0, 1));
}

#[test]
fn vec3_equality_and_conversions() {
    let v: Vec3<i64> = Vec3::new(1, 2, 3);
    assert!(v == Vec3::new(1, 2, 3));
    assert!(v != Vec3::new(1, 2, 4));
    let lifted: Vec3<i64> = Vec3::from(Vec2::new(8, 9));
    assert_eq!((lifted.x, lifted.y, lifted.z), (8, 9, 0));
    let dropped: Vec3<i64> = Vec3::from(Vec4::new(1, 2, 3, 4));
    assert_eq!((dropped.x, dropped.y, dropped.z), (1, 2, 3));
}

#[test]
fn vec3_through_vec2_loses_z() {
    let v: Vec3<i64> = Vec3::new(7, -8, 9);
    let back = Vec3::from(Vec2::from(v));
    assert_eq!((back.x, back.y, back.z), (7, -8, 0));
}

#[test]
fn vec2_through_vec3_becomes_a_point() {
    let v: Vec2<i64> = Vec2::new(7, -8);
    let point = Vec4::from(Vec3::from(v));
    assert_eq!((point.x, point.y, point.z, point.w), (7, -8, 0, 1));
}

#[test]
fn vec4_dot_magnitude_and_unit() {
    let lhs: Vec4<i64> = Vec4::new(1, 2, 3, 4);
    let rhs: Vec4<i64> = Vec4::new(3, 5, 7, 9);
    assert_eq!(lhs.dot(rhs), 70);
    assert_eq!(Vec4::<i64>::new(1, 1, 1, 1).mag(), 2);
    assert_eq!(lhs.mag(), 5);
    let unit = Vec4::<i64>::new(0, 0, 0, -3).unit();
    assert_eq!((unit.x, unit.y, unit.z, unit.w), (0, 0, 0, -1));
}

#[test]
fn vec4_add_and_sub_promote_the_operand() {
    let lhs: Vec4<i64> = Vec4::new(1, 2, 3, 4);
    let rhs: Vec4<i64> = Vec4::new(3, 5, 7, 9);
    let added = lhs + rhs;
    let subbed = lhs - rhs;
    let plane = lhs + Vec2::new(10, 20);
    let space = lhs - Vec3::new(10, 20, 30);
    assert_eq!((added.x, added.y, added.z, added.w), (4, 7, 10, 13));
    assert_eq!((subbed.x, subbed.y, subbed.z, subbed.w), (-2, -3, -4, -5));
    assert_eq!((plane.x, plane.y, plane.z, plane.w), (11, 22, 3, 5));
    assert_eq!((space.x, space.y, space.z, space.w), (-9, -18, -27, 3));
}

#[test]
fn vec4_scaling_and_division() {
    let v: Vec4<i64> = Vec4::new(2, -4, 6, 9);
    let twice = v * 2i32;
    let thrice = v * 3i64;
    let half = v / 2i32;
    let third = v / -3i64;
    assert_eq!((twice.x, twice.y, twice.z, twice.w), (4, -8, 12, 18));
    assert_eq!((thrice.x, thrice.y, thrice.z, thrice.w), (6, -12, 18, 27));
    assert_eq!((half.x, half.y, half.z, half.w), (1, -2, 3, 4));
    assert_eq!((third.x, third.y, third.z, third.w), (0, 1, -2, -3));
}

#[test]
fn vec4_default_equality_and_conversions() {
    let zero: Vec4<i64> = Vec4::default();
    assert_eq!((zero.x, zero.y, zero.z, zero.w), (0, 0, 0, 0));
    assert!(zero == Vec4::new(0, 0, 0, 0));
    assert!(zero != Vec4::new(0, 0, 0, 1));
    let from2: Vec4<i64> = Vec4::from(Vec2::new(5, 6));
    let from3: Vec4<i64> = Vec4::from(Vec3::new(5, 6, 7));
    assert_eq!((from2.x, from2.y, from2.z, from2.w), (5, 6, 0, 1));
    assert_eq!((from3.x, from3.y, from3.z, from3.w), (5, 6, 7, 1));
}

#[test]
fn homogeneous_forms_round_trip() {
    let a: Vec2<i64> = Vec2::new(3, 4);
    let b: Vec3<i64> = Vec3::new(3, 4, 5);
    let c: Vec4<i64> = Vec4::new(3, 4, 5, 6);
    let ha = a.into_vec4();
    let hb = b.into_vec4();
    let hc = c.into_vec4();
    assert_eq!((ha.x, ha.y, ha.z, ha.w), (3, 4, 0, 1));
    assert_eq!((hb.x, hb.y, hb.z, hb.w), (3, 4, 5, 1));
    assert_eq!((hc.x, hc.y, hc.z, hc.w), (3, 4, 5, 6));
    assert!(Vec2::from_vec4(ha) == a);
    assert!(Vec3::from_vec4(hb) == b);
    assert!(Vec4::from_vec4(hc) == c);
    let s = a.into_vec3();
    assert_eq!((s.x, s.y, s.z), (3, 4, 0));
    let t = c.into_vec3();
    assert_eq!((t.x, t.y, t.z), (3, 4, 5));
    assert!(b.into_vec3() == b);
}

#[test]
fn integer_scalar_operations() {
    assert_eq!(<i64 as Scalar>::zero(), 0);
    assert_eq!(<i64 as Scalar>::one(), 1);
    assert_eq!(<i64 as Scalar>::from_int(-12), -12);
    assert_eq!(7i64.plus(-9), -2);
    assert_eq!(7i64.minus(-9), 16);
    assert_eq!(7i64.times(-9), -63);
    assert_eq!(7i64.over(2), 3);
    assert_eq!((-7i64).over(2), -3);
    assert_eq!(7i64.over(-2), -3);
    assert_eq!((-7i64).over(-2), 3);
    assert_eq!(i64::MIN.over(1), i64::MIN);
    assert!(7i64.near(7));
    assert!(!7i64.near(8));
}

#[test]
fn integer_square_roots_round_down() {
    assert_eq!(0i64.sqrt(), 0);
    assert_eq!(1i64.sqrt(), 1);
    assert_eq!(3i64.sqrt(), 1);
    assert_eq!(4i64.sqrt(), 2);
    assert_eq!(34i64.sqrt(), 5);
    assert_eq!(1_000_000i64.sqrt(), 1000);
    assert_eq!(999_999i64.sqrt(), 999);
    assert_eq!(i64::MAX.sqrt(), 3037000499);
}
