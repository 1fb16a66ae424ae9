//! Square matrices of side three and four, stored row by row.
//!
//! A four-by-four matrix stands for a rotation, a translation, a change to the
//! camera's frame or the perspective projection. Products are not commutative,
//! so each contract names its operands in the order in which they are combined.

use vstd::prelude::*;
use vstd::std_specs::ops::MulSpecImpl;
use vstd::std_specs::ops::DivSpecImpl;
use crate::scalar::Scalar;
use crate::vector::Vec3;
use crate::vector::Vec4;

verus! {

/// A three-by-three matrix: nine entries, row by row.
#[derive(Clone, Copy, Debug)]
pub struct Mat3<S: Scalar> {
    pub elems: [S; 9],
}

/// A four-by-four matrix: sixteen entries, row by row.
#[derive(Clone, Copy, Debug)]
pub struct Mat4<S: Scalar> {
    pub elems: [S; 16],
}

impl<S: Scalar> Mat3<S> {
    /// The matrix whose diagonal is one and whose other entries are zero.
    pub open spec fn identity_spec() -> Mat3<S> {
        Mat3 {
            elems: [
                S::lit(1), S::lit(0), S::lit(0),
                S::lit(0), S::lit(1), S::lit(0),
                S::lit(0), S::lit(0), S::lit(1),
            ],
        }
    }

    /// Row `r` of the matrix times the vector `v`: the products are added
    /// from the left.
    pub open spec fn row_dot(self, r: int, v: Vec3<S>) -> S {
        self.elems[3 * r].product(v.elems[0])
            .sum(self.elems[3 * r + 1].product(v.elems[1]))
            .sum(self.elems[3 * r + 2].product(v.elems[2]))
    }

    /// The matrix applied to a column vector.
    pub open spec fn apply(self, v: Vec3<S>) -> Vec3<S> {
        Vec3 {
            elems: [
                self.row_dot(0, v),
                self.row_dot(1, v),
                self.row_dot(2, v),
            ],
        }
    }

    /// Row `r` of `self` times column `c` of `other`, added from the left.
    pub open spec fn cell(self, other: Mat3<S>, r: int, c: int) -> S {
        self.elems[3 * r].product(other.elems[c])
            .sum(self.elems[3 * r + 1].product(other.elems[3 + c]))
            .sum(self.elems[3 * r + 2].product(other.elems[6 + c]))
    }

    /// The matrix product of `self` and `other`, in this order.
    pub open spec fn compose(self, other: Mat3<S>) -> Mat3<S> {
        Mat3 {
            elems: [
                self.cell(other, 0, 0), self.cell(other, 0, 1), self.cell(other, 0, 2),
                self.cell(other, 1, 0), self.cell(other, 1, 1), self.cell(other, 1, 2),
                self.cell(other, 2, 0), self.cell(other, 2, 1), self.cell(other, 2, 2),
            ],
        }
    }

    /// Every entry multiplied by `scalar`, the scalar being the left factor.
    pub open spec fn scaled(self, scalar: S) -> Mat3<S> {
        Mat3 {
            elems: [
                scalar.product(self.elems[0]),
                scalar.product(self.elems[1]),
                scalar.product(self.elems[2]),
                scalar.product(self.elems[3]),
                scalar.product(self.elems[4]),
                scalar.product(self.elems[5]),
                scalar.product(self.elems[6]),
                scalar.product(self.elems[7]),
                scalar.product(self.elems[8]),
            ],
        }
    }

    /// Every entry divided by `scalar`.
    pub open spec fn divided(self, scalar: S) -> Mat3<S> {
        Mat3 {
            elems: [
                self.elems[0].quotient(scalar),
                self.elems[1].quotient(scalar),
                self.elems[2].quotient(scalar),
                self.elems[3].quotient(scalar),
                self.elems[4].quotient(scalar),
                self.elems[5].quotient(scalar),
                self.elems[6].quotient(scalar),
                self.elems[7].quotient(scalar),
                self.elems[8].quotient(scalar),
            ],
        }
    }

    /// The matrix mirrored at its diagonal.
    pub open spec fn transposed(self) -> Mat3<S> {
        Mat3 {
            elems: [
                self.elems[0], self.elems[3], self.elems[6],
                self.elems[1], self.elems[4], self.elems[7],
                self.elems[2], self.elems[5], self.elems[8],
            ],
        }
    }

    /// The matrix with the given entries, row by row.
    pub fn new(arr: [S; 9]) -> (r: Mat3<S>)
        ensures
            r.elems == arr,
    {
        Mat3 { elems: arr }
    }

    /// The zero matrix.
    pub fn default() -> (r: Mat3<S>)
        ensures
            forall|k: int| 0 <= k < 9 ==> r.elems[k] == S::lit(0),
    {
        Mat3 { elems: [S::from_i32(0);9] }
    }

    /// The identity matrix.
    pub fn identity() -> (r: Mat3<S>)
        ensures
            r == Self::identity_spec(),
    {
        let o: S = S::from_i32(0);
        let i: S = S::from_i32(1);
        Mat3 {
            elems: [
                i, o, o,
                o, i, o,
                o, o, i,
            ],
        }
    }

    /// The matrix mirrored at its diagonal.
    pub fn transpose(self) -> (r: Mat3<S>)
        ensures
            r == self.transposed(),
    {
        Mat3 {
            elems: [
                self.elems[0], self.elems[3], self.elems[6],
                self.elems[1], self.elems[4], self.elems[7],
                self.elems[2], self.elems[5], self.elems[8],
            ],
        }
    }

    /// Row `r` of the matrix times the vector `v`.
    fn row_times(&self, r: usize, v: &Vec3<S>) -> (x: S)
        requires
            r < 3,
        ensures
            x == self.row_dot(r as int, *v),
    {
        self.elems[3 * r].times(v.elems[0])
            .plus(self.elems[3 * r + 1].times(v.elems[1]))
            .plus(self.elems[3 * r + 2].times(v.elems[2]))
    }
}

/// A row of the matrix, as a slice of its entries.
impl<S: Scalar> core::ops::Index<usize> for Mat3<S> {
    type Output = [S];

    fn index(&self, idx: usize) -> (r: &[S])
        ensures
            r@ == self.elems@.subrange(3 * idx as int, 3 * idx as int + 3),
    {
        let start_idx: usize = idx * 3;
        let end_idx: usize = start_idx + 3;
        &self.elems[start_idx..end_idx]
    }
}

impl<S: Scalar> vstd::std_specs::core::IndexSpecImpl<usize> for Mat3<S> {
    open spec fn index_req(&self, idx: &usize) -> bool {
        *idx < 3
    }
}

/// Scaling: the scalar is the left factor of every product.
impl<S: Scalar> core::ops::Mul<S> for Mat3<S> {
    type Output = Mat3<S>;

    fn mul(self, scalar: S) -> (r: Mat3<S>)
        ensures
            r == self.scaled(scalar),
    {
        Mat3 {
            elems: [
                scalar.times(self.elems[0]),
                scalar.times(self.elems[1]),
                scalar.times(self.elems[2]),
                scalar.times(self.elems[3]),
                scalar.times(self.elems[4]),
                scalar.times(self.elems[5]),
                scalar.times(self.elems[6]),
                scalar.times(self.elems[7]),
                scalar.times(self.elems[8]),
            ],
        }
    }
}

impl<S: Scalar> MulSpecImpl<S> for Mat3<S> {
    open spec fn obeys_mul_spec() -> bool {
        true
    }

    open spec fn mul_req(self, scalar: S) -> bool {
        true
    }

    open spec fn mul_spec(self, scalar: S) -> Mat3<S> {
        self.scaled(scalar)
    }
}

/// Division of every entry by one scalar.
impl<S: Scalar> core::ops::Div<S> for Mat3<S> {
    type Output = Mat3<S>;

    fn div(self, scalar: S) -> (r: Mat3<S>)
        ensures
            r == self.divided(scalar),
    {
        Mat3 {
            elems: [
                self.elems[0].over(scalar),
                self.elems[1].over(scalar),
                self.elems[2].over(scalar),
                self.elems[3].over(scalar),
                self.elems[4].over(scalar),
                self.elems[5].over(scalar),
                self.elems[6].over(scalar),
                self.elems[7].over(scalar),
                self.elems[8].over(scalar),
            ],
        }
    }
}

impl<S: Scalar> DivSpecImpl<S> for Mat3<S> {
    open spec fn obeys_div_spec() -> bool {
        true
    }

    open spec fn div_req(self, scalar: S) -> bool {
        true
    }

    open spec fn div_spec(self, scalar: S) -> Mat3<S> {
        self.divided(scalar)
    }
}

/// The matrix applied to a column vector.
impl<S: Scalar> core::ops::Mul<Vec3<S>> for Mat3<S> {
    type Output = Vec3<S>;

    fn mul(self, v: Vec3<S>) -> (r: Vec3<S>)
        ensures
            r == self.apply(v),
    {
        Vec3 {
            elems: [
                self.row_times(0, &v),
                self.row_times(1, &v),
                self.row_times(2, &v),
            ],
        }
    }
}

impl<S: Scalar> MulSpecImpl<Vec3<S>> for Mat3<S> {
    open spec fn obeys_mul_spec() -> bool {
        true
    }

    open spec fn mul_req(self, v: Vec3<S>) -> bool {
        true
    }

    open spec fn mul_spec(self, v: Vec3<S>) -> Vec3<S> {
        self.apply(v)
    }
}

/// The matrix product. It is not commutative: `a * b` applies `b` first.
impl<S: Scalar> core::ops::Mul<Mat3<S>> for Mat3<S> {
    type Output = Mat3<S>;

    fn mul(self, other: Mat3<S>) -> (r: Mat3<S>)
        ensures
            r == self.compose(other),
    {
        let mut cells: [S; 9] = [S::from_i32(0);9];
        let mut row: usize = 0;
        while row < 3
            invariant
                row <= 3,
                forall|k: int|
                    0 <= k < 3 * row ==> cells[k] == self.cell(other, k / 3, k % 3),
            decreases 3 - row,
        {
            let mut col: usize = 0;
            while col < 3
                invariant
                    row < 3,
                    col <= 3,
                    forall|k: int|
                        0 <= k < 3 * row + col ==> cells[k] == self.cell(
                            other,
                            k / 3,
                            k % 3,
                        ),
                decreases 3 - col,
            {
                let cell: S = self.elems[3 * row].times(other.elems[col])
                    .plus(self.elems[3 * row + 1].times(other.elems[3 + col]))
                    .plus(self.elems[3 * row + 2].times(other.elems[6 + col]));
                cells[3 * row + col] = cell;
                col += 1;
            }
            row += 1;
        }
        let r = Mat3 { elems: cells };
        assert(r.elems =~= self.compose(other).elems);
        r
    }
}

impl<S: Scalar> MulSpecImpl<Mat3<S>> for Mat3<S> {
    open spec fn obeys_mul_spec() -> bool {
        true
    }

    open spec fn mul_req(self, other: Mat3<S>) -> bool {
        true
    }

    open spec fn mul_spec(self, other: Mat3<S>) -> Mat3<S> {
        self.compose(other)
    }
}

impl<S: Scalar> Mat4<S> {
    /// The matrix whose diagonal is one and whose other entries are zero.
    pub open spec fn identity_spec() -> Mat4<S> {
        Mat4 {
            elems: [
                S::lit(1), S::lit(0), S::lit(0), S::lit(0),
                S::lit(0), S::lit(1), S::lit(0), S::lit(0),
                S::lit(0), S::lit(0), S::lit(1), S::lit(0),
                S::lit(0), S::lit(0), S::lit(0), S::lit(1),
            ],
        }
    }

    /// Row `r` of the matrix times the vector `v`: the products are added
    /// from the left.
    pub open spec fn row_dot(self, r: int, v: Vec4<S>) -> S {
        self.elems[4 * r].product(v.elems[0])
            .sum(self.elems[4 * r + 1].product(v.elems[1]))
            .sum(self.elems[4 * r + 2].product(v.elems[2]))
            .sum(self.elems[4 * r + 3].product(v.elems[3]))
    }

    /// The matrix applied to a column vector.
    pub open spec fn apply(self, v: Vec4<S>) -> Vec4<S> {
        Vec4 {
            elems: [
                self.row_dot(0, v),
                self.row_dot(1, v),
                self.row_dot(2, v),
                self.row_dot(3, v),
            ],
        }
    }

    /// Row `r` of `self` times column `c` of `other`, added from the left.
    pub open spec fn cell(self, other: Mat4<S>, r: int, c: int) -> S {
        self.elems[4 * r].product(other.elems[c])
            .sum(self.elems[4 * r + 1].product(other.elems[4 + c]))
            .sum(self.elems[4 * r + 2].product(other.elems[8 + c]))
            .sum(self.elems[4 * r + 3].product(other.elems[12 + c]))
    }

    /// The matrix product of `self` and `other`, in this order.
    pub open spec fn compose(self, other: Mat4<S>) -> Mat4<S> {
        Mat4 {
            elems: [
                self.cell(other, 0, 0),
                self.cell(other, 0, 1),
                self.cell(other, 0, 2),
                self.cell(other, 0, 3),
                self.cell(other, 1, 0),
                self.cell(other, 1, 1),
                self.cell(other, 1, 2),
                self.cell(other, 1, 3),
                self.cell(other, 2, 0),
                self.cell(other, 2, 1),
                self.cell(other, 2, 2),
                self.cell(other, 2, 3),
                self.cell(other, 3, 0),
                self.cell(other, 3, 1),
                self.cell(other, 3, 2),
                self.cell(other, 3, 3),
            ],
        }
    }

    /// Every entry multiplied by `scalar`, the scalar being the left factor.
    pub open spec fn scaled(self, scalar: S) -> Mat4<S> {
        Mat4 {
            elems: [
                scalar.product(self.elems[0]),
                scalar.product(self.elems[1]),
                scalar.product(self.elems[2]),
                scalar.product(self.elems[3]),
                scalar.product(self.elems[4]),
                scalar.product(self.elems[5]),
                scalar.product(self.elems[6]),
                scalar.product(self.elems[7]),
                scalar.product(self.elems[8]),
                scalar.product(self.elems[9]),
                scalar.product(self.elems[10]),
                scalar.product(self.elems[11]),
                scalar.product(self.elems[12]),
                scalar.product(self.elems[13]),
                scalar.product(self.elems[14]),
                scalar.product(self.elems[15]),
            ],
        }
    }

    /// Every entry divided by `scalar`.
    pub open spec fn divided(self, scalar: S) -> Mat4<S> {
        Mat4 {
            elems: [
                self.elems[0].quotient(scalar),
                self.elems[1].quotient(scalar),
                self.elems[2].quotient(scalar),
                self.elems[3].quotient(scalar),
                self.elems[4].quotient(scalar),
                self.elems[5].quotient(scalar),
                self.elems[6].quotient(scalar),
                self.elems[7].quotient(scalar),
                self.elems[8].quotient(scalar),
                self.elems[9].quotient(scalar),
                self.elems[10].quotient(scalar),
                self.elems[11].quotient(scalar),
                self.elems[12].quotient(scalar),
                self.elems[13].quotient(scalar),
                self.elems[14].quotient(scalar),
                self.elems[15].quotient(scalar),
            ],
        }
    }

    /// The matrix mirrored at its diagonal.
    pub open spec fn transposed(self) -> Mat4<S> {
        Mat4 {
            elems: [
                self.elems[0], self.elems[4], self.elems[8], self.elems[12],
                self.elems[1], self.elems[5], self.elems[9], self.elems[13],
                self.elems[2], self.elems[6], self.elems[10], self.elems[14],
                self.elems[3], self.elems[7], self.elems[11], self.elems[15],
            ],
        }
    }

    /// The matrix with the given entries, row by row.
    pub fn new(arr: [S; 16]) -> (r: Mat4<S>)
        ensures
            r.elems == arr,
    {
        Mat4 { elems: arr }
    }

    /// The zero matrix.
    pub fn default() -> (r: Mat4<S>)
        ensures
            forall|k: int| 0 <= k < 16 ==> r.elems[k] == S::lit(0),
    {
        Mat4 { elems: [S::from_i32(0);16] }
    }

    /// The identity matrix.
    pub fn identity() -> (r: Mat4<S>)
        ensures
            r == Self::identity_spec(),
    {
        let o: S = S::from_i32(0);
        let i: S = S::from_i32(1);
        Mat4 {
            elems: [
                i, o, o, o,
                o, i, o, o,
                o, o, i, o,
                o, o, o, i,
            ],
        }
    }

    /// The matrix mirrored at its diagonal.
    pub fn transpose(self) -> (r: Mat4<S>)
        ensures
            r == self.transposed(),
    {
        Mat4 {
            elems: [
                self.elems[0], self.elems[4], self.elems[8], self.elems[12],
                self.elems[1], self.elems[5], self.elems[9], self.elems[13],
                self.elems[2], self.elems[6], self.elems[10], self.elems[14],
                self.elems[3], self.elems[7], self.elems[11], self.elems[15],
            ],
        }
    }

    /// Row `r` of the matrix times the vector `v`.
    fn row_times(&self, r: usize, v: &Vec4<S>) -> (x: S)
        requires
            r < 4,
        ensures
            x == self.row_dot(r as int, *v),
    {
        self.elems[4 * r].times(v.elems[0])
            .plus(self.elems[4 * r + 1].times(v.elems[1]))
            .plus(self.elems[4 * r + 2].times(v.elems[2]))
            .plus(self.elems[4 * r + 3].times(v.elems[3]))
    }
}

/// A row of the matrix, as a slice of its entries.
impl<S: Scalar> core::ops::Index<usize> for Mat4<S> {
    type Output = [S];

    fn index(&self, idx: usize) -> (r: &[S])
        ensures
            r@ == self.elems@.subrange(4 * idx as int, 4 * idx as int + 4),
    {
        let start_idx: usize = idx * 4;
        let end_idx: usize = start_idx + 4;
        &self.elems[start_idx..end_idx]
    }
}

impl<S: Scalar> vstd::std_specs::core::IndexSpecImpl<usize> for Mat4<S> {
    open spec fn index_req(&self, idx: &usize) -> bool {
        *idx < 4
    }
}

/// Scaling: the scalar is the left factor of every product.
impl<S: Scalar> core::ops::Mul<S> for Mat4<S> {
    type Output = Mat4<S>;

    fn mul(self, scalar: S) -> (r: Mat4<S>)
        ensures
            r == self.scaled(scalar),
    {
        Mat4 {
            elems: [
                scalar.times(self.elems[0]),
                scalar.times(self.elems[1]),
                scalar.times(self.elems[2]),
                scalar.times(self.elems[3]),
                scalar.times(self.elems[4]),
                scalar.times(self.elems[5]),
                scalar.times(self.elems[6]),
                scalar.times(self.elems[7]),
                scalar.times(self.elems[8]),
                scalar.times(self.elems[9]),
                scalar.times(self.elems[10]),
                scalar.times(self.elems[11]),
                scalar.times(self.elems[12]),
                scalar.times(self.elems[13]),
                scalar.times(self.elems[14]),
                scalar.times(self.elems[15]),
            ],
        }
    }
}

impl<S: Scalar> MulSpecImpl<S> for Mat4<S> {
    open spec fn obeys_mul_spec() -> bool {
        true
    }

    open spec fn mul_req(self, scalar: S) -> bool {
        true
    }

    open spec fn mul_spec(self, scalar: S) -> Mat4<S> {
        self.scaled(scalar)
    }
}

/// Division of every entry by one scalar.
impl<S: Scalar> core::ops::Div<S> for Mat4<S> {
    type Output = Mat4<S>;

    fn div(self, scalar: S) -> (r: Mat4<S>)
        ensures
            r == self.divided(scalar),
    {
        Mat4 {
            elems: [
                self.elems[0].over(scalar),
                self.elems[1].over(scalar),
                self.elems[2].over(scalar),
                self.elems[3].over(scalar),
                self.elems[4].over(scalar),
                self.elems[5].over(scalar),
                self.elems[6].over(scalar),
                self.elems[7].over(scalar),
                self.elems[8].over(scalar),
                self.elems[9].over(scalar),
                self.elems[10].over(scalar),
                self.elems[11].over(scalar),
                self.elems[12].over(scalar),
                self.elems[13].over(scalar),
                self.elems[14].over(scalar),
                self.elems[15].over(scalar),
            ],
        }
    }
}

impl<S: Scalar> DivSpecImpl<S> for Mat4<S> {
    open spec fn obeys_div_spec() -> bool {
        true
    }

    open spec fn div_req(self, scalar: S) -> bool {
        true
    }

    open spec fn div_spec(self, scalar: S) -> Mat4<S> {
        self.divided(scalar)
    }
}

/// The matrix applied to a column vector.
impl<S: Scalar> core::ops::Mul<Vec4<S>> for Mat4<S> {
    type Output = Vec4<S>;

    fn mul(self, v: Vec4<S>) -> (r: Vec4<S>)
        ensures
            r == self.apply(v),
    {
        Vec4 {
            elems: [
                self.row_times(0, &v),
                self.row_times(1, &v),
                self.row_times(2, &v),
                self.row_times(3, &v),
            ],
        }
    }
}

impl<S: Scalar> MulSpecImpl<Vec4<S>> for Mat4<S> {
    open spec fn obeys_mul_spec() -> bool {
        true
    }

    open spec fn mul_req(self, v: Vec4<S>) -> bool {
        true
    }

    open spec fn mul_spec(self, v: Vec4<S>) -> Vec4<S> {
        self.apply(v)
    }
}

/// The matrix product. It is not commutative: `a * b` applies `b` first.
impl<S: Scalar> core::ops::Mul<Mat4<S>> for Mat4<S> {
    type Output = Mat4<S>;

    fn mul(self, other: Mat4<S>) -> (r: Mat4<S>)
        ensures
            r == self.compose(other),
    {
        let mut cells: [S; 16] = [S::from_i32(0);16];
        let mut row: usize = 0;
        while row < 4
            invariant
                row <= 4,
                forall|k: int|
                    0 <= k < 4 * row ==> cells[k] == self.cell(other, k / 4, k % 4),
            decreases 4 - row,
        {
            let mut col: usize = 0;
            while col < 4
                invariant
                    row < 4,
                    col <= 4,
                    forall|k: int|
                        0 <= k < 4 * row + col ==> cells[k] == self.cell(
                            other,
                            k / 4,
                            k % 4,
                        ),
                decreases 4 - col,
            {
                let cell: S = self.elems[4 * row].times(other.elems[col])
                    .plus(self.elems[4 * row + 1].times(other.elems[4 + col]))
                    .plus(self.elems[4 * row + 2].times(other.elems[8 + col]))
                    .plus(self.elems[4 * row + 3].times(other.elems[12 + col]));
                cells[4 * row + col] = cell;
                col += 1;
            }
            row += 1;
        }
        let r = Mat4 { elems: cells };
        assert(r.elems =~= self.compose(other).elems);
        r
    }
}

impl<S: Scalar> MulSpecImpl<Mat4<S>> for Mat4<S> {
    open spec fn obeys_mul_spec() -> bool {
        true
    }

    open spec fn mul_req(self, other: Mat4<S>) -> bool {
        true
    }

    open spec fn mul_spec(self, other: Mat4<S>) -> Mat4<S> {
        self.compose(other)
    }
}

} // verus!
