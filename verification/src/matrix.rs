//! The four-by-four matrix.

use crate::scalar::Scalar;
use crate::vector::{Homogeneous, Vec3, Vec4};
use core::ops::Mul;
use vstd::prelude::*;
use vstd::std_specs::ops::MulSpecImpl;

verus! {

/// A four-by-four matrix over homogeneous coordinates: sixteen scalars in
/// row-major order, the entry of row `r` and column `c` at `r * 4 + c`.
#[derive(Debug)]
pub struct Mat4<S: Scalar>([S; 16]);

impl<S: Scalar> Clone for Mat4<S> {
    fn clone(&self) -> (r: Mat4<S>)
        ensures
            r == *self,
    {
        *self
    }
}

impl<S: Scalar> Copy for Mat4<S> {

}

/// The sixteen entries of the zero matrix.
pub open spec fn zero_entries<S: Scalar>() -> Seq<S> {
    Seq::new(16, |i: int| S::zero_spec())
}

/// The sixteen entries of the identity matrix: one where the row equals
/// the column, zero elsewhere.
pub open spec fn identity_entries<S: Scalar>() -> Seq<S> {
    Seq::new(
        16,
        |i: int|
            if i / 4 == i % 4 {
                S::one_spec()
            } else {
                S::zero_spec()
            },
    )
}

/// The entries of the matrix that moves a point by `v`: the identity with
/// the first three entries of the last column set to `v.x`, `v.y`, `v.z`.
pub open spec fn translation_entries<S: Scalar>(v: Vec3<S>) -> Seq<S> {
    identity_entries::<S>().update(3, v.x).update(7, v.y).update(11, v.z)
}

/// The entries of the matrix that scales each axis by the matching
/// component of `v`: the identity with the first three entries of the
/// diagonal set to `v.x`, `v.y`, `v.z`.
pub open spec fn scaling_entries<S: Scalar>(v: Vec3<S>) -> Seq<S> {
    identity_entries::<S>().update(0, v.x).update(5, v.y).update(10, v.z)
}

impl<S: Scalar> View for Mat4<S> {
    type V = Seq<S>;

    /// The sixteen entries in row-major order.
    closed spec fn view(&self) -> Seq<S> {
        self.0@
    }
}

impl<S: Scalar> Mat4<S> {
    /// The `i`-th row, for `0 <= i < 4`.
    pub open spec fn row_spec(self, i: int) -> Vec4<S> {
        Vec4 { x: self@[i * 4], y: self@[i * 4 + 1], z: self@[i * 4 + 2], w: self@[i * 4 + 3] }
    }

    /// The `j`-th column, for `0 <= j < 4`.
    pub open spec fn col_spec(self, j: int) -> Vec4<S> {
        Vec4 { x: self@[j], y: self@[4 + j], z: self@[8 + j], w: self@[12 + j] }
    }

    /// The matrix with the given sixteen entries.
    pub open spec fn with_entries(entries: Seq<S>) -> Mat4<S> {
        choose|m: Mat4<S>| m@ == entries
    }

    /// Whether every dot product of a row of `self` with a column of `rhs`
    /// is defined.
    pub open spec fn product_ok(self, rhs: Mat4<S>) -> bool {
        forall|i: int, j: int|
            0 <= i < 4 && 0 <= j < 4 ==> #[trigger] self.row_spec(i).dot_ok(rhs.col_spec(j))
    }

    /// The entries of the product: at row `i` and column `j`, the dot
    /// product of row `i` of `self` with column `j` of `rhs`.
    pub open spec fn product_entries(self, rhs: Mat4<S>) -> Seq<S> {
        Seq::new(16, |k: int| self.row_spec(k / 4).dot_spec(rhs.col_spec(k % 4)))
    }

    /// Whether the dot product of every row with `v` is defined.
    pub open spec fn apply_ok(self, v: Vec4<S>) -> bool {
        &&& self.row_spec(0).dot_ok(v)
        &&& self.row_spec(1).dot_ok(v)
        &&& self.row_spec(2).dot_ok(v)
        &&& self.row_spec(3).dot_ok(v)
    }

    /// The coordinate whose components are the dot products of the four
    /// rows with `v`.
    pub open spec fn apply_spec(self, v: Vec4<S>) -> Vec4<S> {
        Vec4 {
            x: self.row_spec(0).dot_spec(v),
            y: self.row_spec(1).dot_spec(v),
            z: self.row_spec(2).dot_spec(v),
            w: self.row_spec(3).dot_spec(v),
        }
    }

    /// A matrix has sixteen entries.
    pub proof fn lemma_sixteen_entries(self)
        ensures
            self@.len() == 16,
    {
    }

    /// Two matrices with the same entries are the same matrix.
    pub proof fn lemma_same_entries(self, other: Mat4<S>)
        requires
            self@ == other@,
        ensures
            self == other,
    {
        assert(self.0@ =~= other.0@);
        assert(self.0 == other.0);
    }

    /// The zero matrix.
    pub fn new() -> (r: Mat4<S>)
        ensures
            r@ == zero_entries::<S>(),
    {
        let o = S::zero();
        let r = Mat4([o, o, o, o, o, o, o, o, o, o, o, o, o, o, o, o]);
        assert(r@ =~= zero_entries::<S>());
        r
    }

    /// The identity matrix.
    pub fn identity() -> (r: Mat4<S>)
        ensures
            r@ == identity_entries::<S>(),
    {
        let o = S::zero();
        let i = S::one();
        let r = Mat4([i, o, o, o, o, i, o, o, o, o, i, o, o, o, o, i]);
        assert(r@ =~= identity_entries::<S>());
        r
    }

    /// The matrix of the translation by `translation`.
    pub fn translation(translation: Vec3<S>) -> (r: Mat4<S>)
        ensures
            r@ == translation_entries(translation),
    {
        let mut mat = Mat4::identity();
        *mat.index_mut(3) = translation.x;
        *mat.index_mut(7) = translation.y;
        *mat.index_mut(11) = translation.z;
        mat
    }

    /// The matrix of the scaling by `scaling`, axis by axis.
    pub fn scaling(scaling: Vec3<S>) -> (r: Mat4<S>)
        ensures
            r@ == scaling_entries(scaling),
    {
        let mut mat = Mat4::identity();
        *mat.index_mut(0) = scaling.x;
        *mat.index_mut(5) = scaling.y;
        *mat.index_mut(10) = scaling.z;
        mat
    }

    /// The entry at the flat index `idx`, to be written through.
    pub fn index_mut(&mut self, idx: usize) -> (r: &mut S)
        requires
            idx < 16,
        ensures
            *r == old(self)@[idx as int],
            final(self)@ == old(self)@.update(idx as int, *final(r)),
    {
        &mut self.0[idx]
    }

    /// The entry at the flat index `idx`.
    pub fn index(&self, idx: usize) -> (r: &S)
        requires
            idx < 16,
        ensures
            *r == self@[idx as int],
    {
        &self.0[idx]
    }

    /// The `i`-th row.
    pub fn row(&self, row: usize) -> (r: Vec4<S>)
        requires
            row < 4,
        ensures
            r == self.row_spec(row as int),
    {
        Vec4::new(
            self.0[row * 4],
            self.0[row * 4 + 1],
            self.0[row * 4 + 2],
            self.0[row * 4 + 3],
        )
    }

    /// The `j`-th column.
    pub fn col(&self, column: usize) -> (r: Vec4<S>)
        requires
            column < 4,
        ensures
            r == self.col_spec(column as int),
    {
        Vec4::new(self.0[column], self.0[4 + column], self.0[8 + column], self.0[12 + column])
    }
}

impl<S: Scalar> MulSpecImpl<Mat4<S>> for Mat4<S> {
    open spec fn obeys_mul_spec() -> bool {
        true
    }

    open spec fn mul_req(self, rhs: Mat4<S>) -> bool {
        self.product_ok(rhs)
    }

    open spec fn mul_spec(self, rhs: Mat4<S>) -> Mat4<S> {
        Mat4::with_entries(self.product_entries(rhs))
    }
}

/// The product of two matrices, row by column. Applied to a vector,
/// `self * rhs` applies `rhs` first and `self` second.
impl<S: Scalar> Mul<Mat4<S>> for Mat4<S> {
    type Output = Mat4<S>;

    fn mul(self, rhs: Mat4<S>) -> (r: Mat4<S>)
        ensures
            r@ == self.product_entries(rhs),
    {
        let rows = [self.row(0), self.row(1), self.row(2), self.row(3)];
        let cols = [rhs.col(0), rhs.col(1), rhs.col(2), rhs.col(3)];
        let mut mat = Mat4::new();
        let mut i: usize = 0;
        while i < 4
            invariant
                i <= 4,
                self.product_ok(rhs),
                forall|k: int| 0 <= k < 4 ==> rows@[k] == self.row_spec(k),
                forall|k: int| 0 <= k < 4 ==> cols@[k] == rhs.col_spec(k),
                mat@.len() == 16,
                forall|k: int| 0 <= k < i * 4 ==> mat@[k] == self.product_entries(rhs)[k],
            decreases 4 - i,
        {
            let row = rows[i];
            proof {
                assert(row == self.row_spec(i as int));
                assert(self.row_spec(i as int).dot_ok(rhs.col_spec(0)));
                assert(self.row_spec(i as int).dot_ok(rhs.col_spec(1)));
                assert(self.row_spec(i as int).dot_ok(rhs.col_spec(2)));
                assert(self.row_spec(i as int).dot_ok(rhs.col_spec(3)));
            }
            *mat.index_mut(i * 4) = row.dot(cols[0]);
            *mat.index_mut(i * 4 + 1) = row.dot(cols[1]);
            *mat.index_mut(i * 4 + 2) = row.dot(cols[2]);
            *mat.index_mut(i * 4 + 3) = row.dot(cols[3]);
            i += 1;
        }
        proof {
            assert(mat@ =~= self.product_entries(rhs));
            mat.lemma_same_entries(Mat4::with_entries(self.product_entries(rhs)));
        }
        mat
    }
}

impl<S: Scalar, T: Homogeneous<Component = S>> MulSpecImpl<T> for Mat4<S> {
    open spec fn obeys_mul_spec() -> bool {
        true
    }

    open spec fn mul_req(self, rhs: T) -> bool {
        self.apply_ok(rhs.into_vec4_spec())
    }

    open spec fn mul_spec(self, rhs: T) -> T {
        T::from_vec4_spec(self.apply_spec(rhs.into_vec4_spec()))
    }
}

/// The matrix applied to a vector: the vector is promoted to a homogeneous
/// coordinate, each row is multiplied with it, and the result is projected
/// back, with no perspective divide.
impl<S: Scalar, T: Homogeneous<Component = S>> Mul<T> for Mat4<S> {
    type Output = T;

    fn mul(self, rhs: T) -> (r: T) {
        let vec = rhs.into_vec4();
        T::from_vec4(
            Vec4::new(
                self.row(0).dot(vec),
                self.row(1).dot(vec),
                self.row(2).dot(vec),
                self.row(3).dot(vec),
            ),
        )
    }
}

} // verus!
