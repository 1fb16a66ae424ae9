//! The inverse of a four-by-four matrix, by cofactors.
//!
//! The adjugate holds, in row `i` and column `j`, the cofactor of the entry in
//! row `j` and column `i`: the signed determinant of the three-by-three matrix
//! that is left when that row and that column are struck out. The determinant is
//! the first row times the first column of the adjugate, and the inverse is the
//! adjugate scaled by the determinant's reciprocal. Nothing looks at whether the
//! determinant is zero: the inverse of a singular matrix is whatever the scalar
//! makes of a division by zero.

use vstd::prelude::*;
use crate::scalar::Scalar;
use crate::matrix::Mat4;

verus! {

/// The `k`-th of the indices that remain when `gone` is struck out.
pub open spec fn skip(k: int, gone: int) -> int {
    if k < gone {
        k
    } else {
        k + 1
    }
}

/// The determinant of the three-by-three matrix with the rows `a b c`,
/// `d e f` and `g h i`, as `aei - afh - dbi + dch + gbf - gce`, each product
/// and then the whole taken from the left.
pub open spec fn expand<S: Scalar>(a: S, b: S, c: S, d: S, e: S, f: S, g: S, h: S, i: S) -> S {
    a.product(e).product(i).difference(a.product(f).product(h)).difference(
        d.product(b).product(i),
    ).sum(d.product(c).product(h)).sum(g.product(b).product(f)).difference(
        g.product(c).product(e),
    )
}

/// The same determinant with every sign turned:
/// `(-a)ei + afh + dbi - dch - gbf + gce`.
pub open spec fn expand_negated<S: Scalar>(
    a: S,
    b: S,
    c: S,
    d: S,
    e: S,
    f: S,
    g: S,
    h: S,
    i: S,
) -> S {
    a.negation().product(e).product(i).sum(a.product(f).product(h)).sum(
        d.product(b).product(i),
    ).difference(d.product(c).product(h)).difference(g.product(b).product(f)).sum(
        g.product(c).product(e),
    )
}

impl<S: Scalar> Mat4<S> {
    /// The entry in row `r` and column `c` of what is left of the matrix
    /// without row `row` and column `col`.
    pub open spec fn minor_at(self, row: int, col: int, r: int, c: int) -> S {
        self.elems[4 * skip(r, row) + skip(c, col)]
    }

    /// The cofactor of the entry in row `row` and column `col`.
    pub open spec fn cofactor(self, row: int, col: int) -> S {
        if (row + col) % 2 == 0 {
            expand(
                self.minor_at(row, col, 0, 0),
                self.minor_at(row, col, 0, 1),
                self.minor_at(row, col, 0, 2),
                self.minor_at(row, col, 1, 0),
                self.minor_at(row, col, 1, 1),
                self.minor_at(row, col, 1, 2),
                self.minor_at(row, col, 2, 0),
                self.minor_at(row, col, 2, 1),
                self.minor_at(row, col, 2, 2),
            )
        } else {
            expand_negated(
                self.minor_at(row, col, 0, 0),
                self.minor_at(row, col, 0, 1),
                self.minor_at(row, col, 0, 2),
                self.minor_at(row, col, 1, 0),
                self.minor_at(row, col, 1, 1),
                self.minor_at(row, col, 1, 2),
                self.minor_at(row, col, 2, 0),
                self.minor_at(row, col, 2, 1),
                self.minor_at(row, col, 2, 2),
            )
        }
    }

    /// The transposed matrix of cofactors.
    pub open spec fn adjugate(self) -> Mat4<S> {
        Mat4 {
            elems: [
                self.cofactor(0, 0), self.cofactor(1, 0), self.cofactor(2, 0), self.cofactor(3, 0),
                self.cofactor(0, 1), self.cofactor(1, 1), self.cofactor(2, 1), self.cofactor(3, 1),
                self.cofactor(0, 2), self.cofactor(1, 2), self.cofactor(2, 2), self.cofactor(3, 2),
                self.cofactor(0, 3), self.cofactor(1, 3), self.cofactor(2, 3), self.cofactor(3, 3),
            ],
        }
    }

    /// The determinant: the first row times the cofactors of its entries,
    /// added from the left.
    pub open spec fn determinant(self) -> S {
        self.elems[0].product(self.cofactor(0, 0)).sum(
            self.elems[1].product(self.cofactor(0, 1)),
        ).sum(self.elems[2].product(self.cofactor(0, 2))).sum(
            self.elems[3].product(self.cofactor(0, 3)),
        )
    }

    /// The adjugate scaled by the reciprocal of the determinant.
    pub open spec fn inverse_spec(self) -> Mat4<S> {
        self.adjugate().scaled(S::lit(1).quotient(self.determinant()))
    }

    /// Computes the cofactor of the entry in row `row` and column `col`.
    fn cofactor_at(&self, row: usize, col: usize) -> (r: S)
        requires
            row < 4,
            col < 4,
        ensures
            r == self.cofactor(row as int, col as int),
    {
        let r0: usize = step_over(0, row);
        let r1: usize = step_over(1, row);
        let r2: usize = step_over(2, row);
        let c0: usize = step_over(0, col);
        let c1: usize = step_over(1, col);
        let c2: usize = step_over(2, col);
        let a: S = self.elems[4 * r0 + c0];
        let b: S = self.elems[4 * r0 + c1];
        let c: S = self.elems[4 * r0 + c2];
        let d: S = self.elems[4 * r1 + c0];
        let e: S = self.elems[4 * r1 + c1];
        let f: S = self.elems[4 * r1 + c2];
        let g: S = self.elems[4 * r2 + c0];
        let h: S = self.elems[4 * r2 + c1];
        let i: S = self.elems[4 * r2 + c2];
        if (row + col) % 2 == 0 {
            a.times(e).times(i).minus(a.times(f).times(h)).minus(d.times(b).times(i)).plus(
                d.times(c).times(h),
            ).plus(g.times(b).times(f)).minus(g.times(c).times(e))
        } else {
            a.negated().times(e).times(i).plus(a.times(f).times(h)).plus(
                d.times(b).times(i),
            ).minus(d.times(c).times(h)).minus(g.times(b).times(f)).plus(g.times(c).times(e))
        }
    }

    /// Computes the adjugate.
    fn adjugate_matrix(&self) -> (r: Mat4<S>)
        ensures
            r == self.adjugate(),
    {
        let mut cells: [S; 16] = [S::from_i32(0);16];
        let mut i: usize = 0;
        while i < 4
            invariant
                i <= 4,
                forall|k: int| 0 <= k < 4 * i ==> cells[k] == self.cofactor(k % 4, k / 4),
            decreases 4 - i,
        {
            let mut j: usize = 0;
            while j < 4
                invariant
                    i < 4,
                    j <= 4,
                    forall|k: int| 0 <= k < 4 * i + j ==> cells[k] == self.cofactor(k % 4, k / 4),
                decreases 4 - j,
            {
                cells[4 * i + j] = self.cofactor_at(j, i);
                j += 1;
            }
            i += 1;
        }
        let r = Mat4 { elems: cells };
        assert(r.elems =~= self.adjugate().elems);
        r
    }

    /// The inverse of the matrix.
    ///
    /// Where the determinant is zero the result is the adjugate scaled by the
    /// quotient of one and zero.
    pub fn inverse(self) -> (r: Mat4<S>)
        ensures
            r == self.inverse_spec(),
    {
        let adj: Mat4<S> = self.adjugate_matrix();
        let det: S = self.elems[0].times(adj.elems[0]).plus(self.elems[1].times(adj.elems[4])).plus(
            self.elems[2].times(adj.elems[8]),
        ).plus(self.elems[3].times(adj.elems[12]));
        let reciprocal: S = S::from_i32(1).over(det);
        adj * reciprocal
    }
}

/// Computes the `k`-th of the indices that remain when `gone` is struck out.
fn step_over(k: usize, gone: usize) -> (r: usize)
    requires
        k < 3,
        gone < 4,
    ensures
        r == skip(k as int, gone as int),
        r < 4,
{
    if k < gone {
        k
    } else {
        k + 1
    }
}

} // verus!
