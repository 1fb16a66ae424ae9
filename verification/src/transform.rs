//! The matrices of the elementary motions: a turn about one axis of a
//! right-handed frame, and a shift.
//!
//! A turn is given by the cosine and the sine of its angle, which the caller
//! takes of the angle in radians. The matrices are meant to be applied to column
//! vectors, so a shift stands in the last column.

use vstd::prelude::*;
use crate::scalar::Scalar;
use crate::matrix::Mat4;

verus! {

/// The turn about the x axis by the angle with cosine `c` and sine `s`.
pub open spec fn x_rotation<S: Scalar>(c: S, s: S) -> Mat4<S> {
    Mat4 {
        elems: [
            S::lit(1), S::lit(0), S::lit(0), S::lit(0),
            S::lit(0), c, s.negation(), S::lit(0),
            S::lit(0), s, c, S::lit(0),
            S::lit(0), S::lit(0), S::lit(0), S::lit(1),
        ],
    }
}

/// The turn about the y axis by the angle with cosine `c` and sine `s`.
pub open spec fn y_rotation<S: Scalar>(c: S, s: S) -> Mat4<S> {
    Mat4 {
        elems: [
            c, S::lit(0), s, S::lit(0),
            S::lit(0), S::lit(1), S::lit(0), S::lit(0),
            s.negation(), S::lit(0), c, S::lit(0),
            S::lit(0), S::lit(0), S::lit(0), S::lit(1),
        ],
    }
}

/// The turn about the z axis by the angle with cosine `c` and sine `s`.
pub open spec fn z_rotation<S: Scalar>(c: S, s: S) -> Mat4<S> {
    Mat4 {
        elems: [
            c, s.negation(), S::lit(0), S::lit(0),
            s, c, S::lit(0), S::lit(0),
            S::lit(0), S::lit(0), S::lit(1), S::lit(0),
            S::lit(0), S::lit(0), S::lit(0), S::lit(1),
        ],
    }
}

/// The shift by `(dx, dy, dz)`.
pub open spec fn translation<S: Scalar>(dx: S, dy: S, dz: S) -> Mat4<S> {
    Mat4 {
        elems: [
            S::lit(1), S::lit(0), S::lit(0), dx,
            S::lit(0), S::lit(1), S::lit(0), dy,
            S::lit(0), S::lit(0), S::lit(1), dz,
            S::lit(0), S::lit(0), S::lit(0), S::lit(1),
        ],
    }
}

/// The rotation about the x axis, from the cosine and the sine of its angle.
pub fn x_rotation_matrix<S: Scalar>(cos_theta: S, sin_theta: S) -> (r: Mat4<S>)
    ensures
        r == x_rotation(cos_theta, sin_theta),
{
    let o: S = S::from_i32(0);
    let i: S = S::from_i32(1);
    let c: S = cos_theta;
    let s: S = sin_theta;
    Mat4 { elems: [i, o, o, o, o, c, s.negated(), o, o, s, c, o, o, o, o, i] }
}

/// The rotation about the y axis, from the cosine and the sine of its angle.
pub fn y_rotation_matrix<S: Scalar>(cos_theta: S, sin_theta: S) -> (r: Mat4<S>)
    ensures
        r == y_rotation(cos_theta, sin_theta),
{
    let o: S = S::from_i32(0);
    let i: S = S::from_i32(1);
    let c: S = cos_theta;
    let s: S = sin_theta;
    Mat4 { elems: [c, o, s, o, o, i, o, o, s.negated(), o, c, o, o, o, o, i] }
}

/// The rotation about the z axis, from the cosine and the sine of its angle.
pub fn z_rotation_matrix<S: Scalar>(cos_theta: S, sin_theta: S) -> (r: Mat4<S>)
    ensures
        r == z_rotation(cos_theta, sin_theta),
{
    let o: S = S::from_i32(0);
    let i: S = S::from_i32(1);
    let c: S = cos_theta;
    let s: S = sin_theta;
    Mat4 { elems: [c, s.negated(), o, o, s, c, o, o, o, o, i, o, o, o, o, i] }
}

/// The translation by `(delta_x, delta_y, delta_z)`.
pub fn translation_matrix<S: Scalar>(delta_x: S, delta_y: S, delta_z: S) -> (r: Mat4<S>)
    ensures
        r == translation(delta_x, delta_y, delta_z),
{
    let o: S = S::from_i32(0);
    let i: S = S::from_i32(1);
    Mat4 { elems: [i, o, o, delta_x, o, i, o, delta_y, o, o, i, delta_z, o, o, o, i] }
}

} // verus!
