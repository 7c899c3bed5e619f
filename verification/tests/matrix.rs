//! The matrix over the exact scalar.

use linalg::matrix::Mat4;
use linalg::vector::{Vec2, Vec3, Vec4};

fn entries(m: &Mat4<i64>) -> Vec<i64> {
    let mut out = Vec::new();
    for idx in 0..16 {
        out.push(*m.index(idx));
    }
    out
}

fn counting() -> Mat4<i64> {
    let mut m: Mat4<i64> = Mat4::new();
    for idx in 0..16 {
        *m.index_mut(idx) = idx as i64 + 1;
    }
    m
}

#[test]
fn new_is_the_zero_matrix() {
    let m: Mat4<i64> = Mat4::new();
    assert_eq!(entries(&m), vec![0; 16]);
}

#[test]
fn identity_has_ones_on_the_diagonal() {
    let m: Mat4<i64> = Mat4::identity();
    assert_eq!(entries(&m), vec![1, 0, 0, 0, 0, 1, 0, 0, 0, 0, 1, 0, 0, 0, 0, 1]);
}

#[test]
fn translation_fills_the_last_column() {
    let m: Mat4<i64> = Mat4::translation(Vec3::new(7, 8, 9));
    assert_eq!(entries(&m), vec![1, 0, 0, 7, 0, 1, 0, 8, 0, 0, 1, 9, 0, 0, 0, 1]);
}

#[test]
fn scaling_fills_the_diagonal() {
    let m: Mat4<i64> = Mat4::scaling(Vec3::new(7, 8, 9));
    assert_eq!(entries(&m), vec![7, 0, 0, 0, 0, 8, 0, 0, 0, 0, 9, 0, 0, 0, 0, 1]);
}

#[test]
fn rows_and_columns() {
    let m = counting();
    let r = m.row(2);
    let c = m.col(2);
    assert_eq!((r.x, r.y, r.z, r.w), (9, 10, 11, 12));
    assert_eq!((c.x, c.y, c.z, c.w), (3, 7, 11, 15));
    let first = m.row(0);
    let last = m.col(3);
    assert_eq!((first.x, first.y, first.z, first.w), (1, 2, 3, 4));
    assert_eq!((last.x, last.y, last.z, last.w), (4, 8, 12, 16));
}

#[test]
fn index_reads_and_index_mut_writes_one_entry() {
    let mut m: Mat4<i64> = Mat4::identity();
    *m.index_mut(6) = 42;
    assert_eq!(*m.index(6), 42);
    assert_eq!(entries(&m), vec![1, 0, 0, 0, 0, 1, 42, 0, 0, 0, 1, 0, 0, 0, 0, 1]);
}

#[test]
fn product_is_row_by_column() {
    let a = counting();
    let b: Mat4<i64> = Mat4::translation(Vec3::new(1, 2, 3));
    let ab = a * b;
    assert_eq!(
        entries(&ab),
        vec![1, 2, 3, 18, 5, 6, 7, 46, 9, 10, 11, 74, 13, 14, 15, 102]
    );
    let ba = b * a;
    assert_eq!(
        entries(&ba),
        vec![14, 16, 18, 20, 31, 34, 37, 40, 48, 52, 56, 60, 13, 14, 15, 16]
    );
}

#[test]
fn product_with_the_identity() {
    let a = counting();
    let id: Mat4<i64> = Mat4::identity();
    assert_eq!(entries(&(a * id)), entries(&a));
    assert_eq!(entries(&(id * a)), entries(&a));
}

#[test]
fn translation_times_scaling_scales_first() {
    let translate: Mat4<i64> = Mat4::translation(Vec3::new(1, 2, 0));
    let scale: Mat4<i64> = Mat4::scaling(Vec3::new(2, 2, 0));
    let moved = (translate * scale) * Vec2::new(2, 5);
    assert_eq!((moved.x, moved.y), (5, 12));
    let stepwise = translate * (scale * Vec2::new(2, 5));
    assert_eq!((stepwise.x, stepwise.y), (5, 12));
    let other = (scale * translate) * Vec2::new(2, 5);
    assert_eq!((other.x, other.y), (6, 14));
}

#[test]
fn identity_keeps_every_vector() {
    let id: Mat4<i64> = Mat4::identity();
    let a = id * Vec2::new(3, -4);
    let b = id * Vec3::new(3, -4, 5);
    let c = id * Vec4::new(3, -4, 5, -6);
    assert_eq!((a.x, a.y), (3, -4));
    assert_eq!((b.x, b.y, b.z), (3, -4, 5));
    assert_eq!((c.x, c.y, c.z, c.w), (3, -4, 5, -6));
}

#[test]
fn application_promotes_and_projects() {
    let m = counting();
    let plane = m * Vec2::new(1, 1);
    let space = m * Vec3::new(1, 1, 1);
    let point = m * Vec4::new(1, 1, 1, 0);
    assert_eq!((plane.x, plane.y), (7, 19));
    assert_eq!((space.x, space.y, space.z), (10, 26, 42));
    assert_eq!((point.x, point.y, point.z, point.w), (6, 18, 30, 42));
}

#[test]
fn translation_leaves_directions_alone() {
    let translate: Mat4<i64> = Mat4::translation(Vec3::new(10, 20, 30));
    let direction = translate * Vec4::new(1, 2, 3, 0);
    let point = translate * Vec4::new(1, 2, 3, 1);
    assert_eq!((direction.x, direction.y, direction.z, direction.w), (1, 2, 3, 0));
    assert_eq!((point.x, point.y, point.z, point.w), (11, 22, 33, 1));
}

#[test]
fn translation_moves_a_point_of_space() {
    let translate: Mat4<i64> = Mat4::translation(Vec3::new(10, 20, 30));
    let moved = translate * Vec3::new(1, -2, 3);
    assert_eq!((moved.x, moved.y, moved.z), (11, 18, 33));
}

#[test]
fn scaling_multiplies_axis_by_axis() {
    let scale: Mat4<i64> = Mat4::scaling(Vec3::new(2, -3, 4));
    let scaled = scale * Vec3::new(5, 6, 7);
    assert_eq!((scaled.x, scaled.y, scaled.z), (10, -18, 28));
}

#[test]
fn product_applies_its_right_factor_first() {
    let a = counting();
    let b: Mat4<i64> = Mat4::scaling(Vec3::new(2, 3, 4)) * Mat4::translation(Vec3::new(1, 1, 1));
    let v: Vec4<i64> = Vec4::new(1, -2, 3, 1);
    let at_once = (a * b) * v;
    let in_turn = a * (b * v);
    assert_eq!(
        (at_once.x, at_once.y, at_once.z, at_once.w),
        (in_turn.x, in_turn.y, in_turn.z, in_turn.w)
    );
    assert_eq!((in_turn.x, in_turn.y, in_turn.z, in_turn.w), (50, 122, 194, 266));
}

#[test]
fn matrices_are_copied_on_use() {
    let a = counting();
    let mut b = a;
    *b.index_mut(0) = 100;
    assert_eq!(*a.index(0), 1);
    assert_eq!(*b.index(0), 100);
    assert_eq!(entries(&a.clone()), entries(&a));
}
