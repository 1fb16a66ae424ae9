//! Three- and four-component vectors.
//!
//! A vector is a value: every operation returns a new one. What an operation
//! returns is stated component by component over the scalar's named operations,
//! in the order in which the components are combined.

use vstd::prelude::*;
use vstd::std_specs::ops::AddSpecImpl;
use vstd::std_specs::ops::SubSpecImpl;
use vstd::std_specs::ops::MulSpecImpl;
use vstd::std_specs::ops::DivSpecImpl;
use crate::scalar::Scalar;

verus! {

/// A point or direction in three-dimensional space.
#[derive(Clone, Copy, Debug)]
pub struct Vec3<S: Scalar> {
    pub elems: [S; 3],
}

/// A point in homogeneous coordinates: `x`, `y`, `z` and the weight `w`.
#[derive(Clone, Copy, Debug)]
pub struct Vec4<S: Scalar> {
    pub elems: [S; 4],
}

impl<S: Scalar> Vec3<S> {
    /// The sum of the products of matching components, added from the left.
    pub open spec fn dot_spec(self, other: Vec3<S>) -> S {
        self.elems[0].product(other.elems[0])
            .sum(self.elems[1].product(other.elems[1]))
            .sum(self.elems[2].product(other.elems[2]))
    }

    /// The right-handed cross product.
    pub open spec fn cross_spec(self, other: Vec3<S>) -> Vec3<S> {
        Vec3 {
            elems: [
                self.elems[1].product(other.elems[2]).difference(
                    self.elems[2].product(other.elems[1]),
                ),
                self.elems[2].product(other.elems[0]).difference(
                    self.elems[0].product(other.elems[2]),
                ),
                self.elems[0].product(other.elems[1]).difference(
                    self.elems[1].product(other.elems[0]),
                ),
            ],
        }
    }

    /// The sum, component by component.
    pub open spec fn sum(self, other: Vec3<S>) -> Vec3<S> {
        Vec3 {
            elems: [
                self.elems[0].sum(other.elems[0]),
                self.elems[1].sum(other.elems[1]),
                self.elems[2].sum(other.elems[2]),
            ],
        }
    }

    /// The difference, component by component.
    pub open spec fn difference(self, other: Vec3<S>) -> Vec3<S> {
        Vec3 {
            elems: [
                self.elems[0].difference(other.elems[0]),
                self.elems[1].difference(other.elems[1]),
                self.elems[2].difference(other.elems[2]),
            ],
        }
    }

    /// Every component multiplied by `scalar`, the scalar being the left
    /// factor.
    pub open spec fn scaled(self, scalar: S) -> Vec3<S> {
        Vec3 {
            elems: [
                scalar.product(self.elems[0]),
                scalar.product(self.elems[1]),
                scalar.product(self.elems[2]),
            ],
        }
    }

    /// Every component divided by `scalar`.
    pub open spec fn divided(self, scalar: S) -> Vec3<S> {
        Vec3 {
            elems: [
                self.elems[0].quotient(scalar),
                self.elems[1].quotient(scalar),
                self.elems[2].quotient(scalar),
            ],
        }
    }

    /// The vector `(x, y, z)`.
    pub fn new(x: S, y: S, z: S) -> (r: Vec3<S>)
        ensures
            r == (Vec3 { elems: [x, y, z] }),
    {
        Vec3 { elems: [x, y, z] }
    }

    /// The zero vector.
    pub fn default() -> (r: Vec3<S>)
        ensures
            r == (Vec3 { elems: [S::lit(0), S::lit(0), S::lit(0)] }),
    {
        Vec3 { elems: [S::from_i32(0), S::from_i32(0), S::from_i32(0)] }
    }

    /// The dot product.
    pub fn dot(self, other: Vec3<S>) -> (r: S)
        ensures
            r == self.dot_spec(other),
    {
        self.elems[0].times(other.elems[0])
            .plus(self.elems[1].times(other.elems[1]))
            .plus(self.elems[2].times(other.elems[2]))
    }

    /// The cross product.
    pub fn cross(self, other: Vec3<S>) -> (r: Vec3<S>)
        ensures
            r == self.cross_spec(other),
    {
        Vec3 {
            elems: [
                self.elems[1].times(other.elems[2]).minus(self.elems[2].times(other.elems[1])),
                self.elems[2].times(other.elems[0]).minus(self.elems[0].times(other.elems[2])),
                self.elems[0].times(other.elems[1]).minus(self.elems[1].times(other.elems[0])),
            ],
        }
    }
}

/// The component at `idx`, counted from zero. There are no others: an index
/// beyond the last is not accepted.
impl<S: Scalar> core::ops::Index<usize> for Vec3<S> {
    type Output = S;

    fn index(&self, idx: usize) -> (r: &S)
        ensures
            *r == self.elems[idx as int],
    {
        &self.elems[idx]
    }
}

impl<S: Scalar> vstd::std_specs::core::IndexSpecImpl<usize> for Vec3<S> {
    open spec fn index_req(&self, idx: &usize) -> bool {
        *idx < 3
    }
}

/// The sum, component by component.
impl<S: Scalar> core::ops::Add for Vec3<S> {
    type Output = Vec3<S>;

    fn add(self, other: Vec3<S>) -> (r: Vec3<S>)
        ensures
            r == self.sum(other),
    {
        Vec3 {
            elems: [
                self.elems[0].plus(other.elems[0]),
                self.elems[1].plus(other.elems[1]),
                self.elems[2].plus(other.elems[2]),
            ],
        }
    }
}

impl<S: Scalar> AddSpecImpl for Vec3<S> {
    open spec fn obeys_add_spec() -> bool {
        true
    }

    open spec fn add_req(self, other: Vec3<S>) -> bool {
        true
    }

    open spec fn add_spec(self, other: Vec3<S>) -> Vec3<S> {
        self.sum(other)
    }
}

/// The difference, component by component.
impl<S: Scalar> core::ops::Sub for Vec3<S> {
    type Output = Vec3<S>;

    fn sub(self, other: Vec3<S>) -> (r: Vec3<S>)
        ensures
            r == self.difference(other),
    {
        Vec3 {
            elems: [
                self.elems[0].minus(other.elems[0]),
                self.elems[1].minus(other.elems[1]),
                self.elems[2].minus(other.elems[2]),
            ],
        }
    }
}

impl<S: Scalar> SubSpecImpl for Vec3<S> {
    open spec fn obeys_sub_spec() -> bool {
        true
    }

    open spec fn sub_req(self, other: Vec3<S>) -> bool {
        true
    }

    open spec fn sub_spec(self, other: Vec3<S>) -> Vec3<S> {
        self.difference(other)
    }
}

/// Scaling: the scalar is the left factor of every product.
impl<S: Scalar> core::ops::Mul<S> for Vec3<S> {
    type Output = Vec3<S>;

    fn mul(self, scalar: S) -> (r: Vec3<S>)
        ensures
            r == self.scaled(scalar),
    {
        Vec3 {
            elems: [
                scalar.times(self.elems[0]),
                scalar.times(self.elems[1]),
                scalar.times(self.elems[2]),
            ],
        }
    }
}

impl<S: Scalar> MulSpecImpl<S> for Vec3<S> {
    open spec fn obeys_mul_spec() -> bool {
        true
    }

    open spec fn mul_req(self, scalar: S) -> bool {
        true
    }

    open spec fn mul_spec(self, scalar: S) -> Vec3<S> {
        self.scaled(scalar)
    }
}

/// Division of every component by one scalar. Nothing is asked of the
/// divisor: what a division by zero gives is the scalar's own affair.
impl<S: Scalar> core::ops::Div<S> for Vec3<S> {
    type Output = Vec3<S>;

    fn div(self, scalar: S) -> (r: Vec3<S>)
        ensures
            r == self.divided(scalar),
    {
        Vec3 {
            elems: [
                self.elems[0].over(scalar),
                self.elems[1].over(scalar),
                self.elems[2].over(scalar),
            ],
        }
    }
}

impl<S: Scalar> DivSpecImpl<S> for Vec3<S> {
    open spec fn obeys_div_spec() -> bool {
        true
    }

    open spec fn div_req(self, scalar: S) -> bool {
        true
    }

    open spec fn div_spec(self, scalar: S) -> Vec3<S> {
        self.divided(scalar)
    }
}

impl<S: Scalar> Vec4<S> {
    /// The sum of the products of matching components, added from the left.
    pub open spec fn dot_spec(self, other: Vec4<S>) -> S {
        self.elems[0].product(other.elems[0])
            .sum(self.elems[1].product(other.elems[1]))
            .sum(self.elems[2].product(other.elems[2]))
            .sum(self.elems[3].product(other.elems[3]))
    }

    /// The sum, component by component.
    pub open spec fn sum(self, other: Vec4<S>) -> Vec4<S> {
        Vec4 {
            elems: [
                self.elems[0].sum(other.elems[0]),
                self.elems[1].sum(other.elems[1]),
                self.elems[2].sum(other.elems[2]),
                self.elems[3].sum(other.elems[3]),
            ],
        }
    }

    /// The difference, component by component.
    pub open spec fn difference(self, other: Vec4<S>) -> Vec4<S> {
        Vec4 {
            elems: [
                self.elems[0].difference(other.elems[0]),
                self.elems[1].difference(other.elems[1]),
                self.elems[2].difference(other.elems[2]),
                self.elems[3].difference(other.elems[3]),
            ],
        }
    }

    /// Every component multiplied by `scalar`, the scalar being the left
    /// factor.
    pub open spec fn scaled(self, scalar: S) -> Vec4<S> {
        Vec4 {
            elems: [
                scalar.product(self.elems[0]),
                scalar.product(self.elems[1]),
                scalar.product(self.elems[2]),
                scalar.product(self.elems[3]),
            ],
        }
    }

    /// Every component divided by `scalar`.
    pub open spec fn divided(self, scalar: S) -> Vec4<S> {
        Vec4 {
            elems: [
                self.elems[0].quotient(scalar),
                self.elems[1].quotient(scalar),
                self.elems[2].quotient(scalar),
                self.elems[3].quotient(scalar),
            ],
        }
    }

    /// The vector `(x, y, z, w)`.
    pub fn new(x: S, y: S, z: S, w: S) -> (r: Vec4<S>)
        ensures
            r == (Vec4 { elems: [x, y, z, w] }),
    {
        Vec4 { elems: [x, y, z, w] }
    }

    /// The origin in homogeneous coordinates: weight one, the rest zero.
    pub fn default() -> (r: Vec4<S>)
        ensures
            r == (Vec4 { elems: [S::lit(0), S::lit(0), S::lit(0), S::lit(1)] }),
    {
        Vec4 { elems: [S::from_i32(0), S::from_i32(0), S::from_i32(0), S::from_i32(1)] }
    }

    /// The dot product.
    pub fn dot(self, other: Vec4<S>) -> (r: S)
        ensures
            r == self.dot_spec(other),
    {
        self.elems[0].times(other.elems[0])
            .plus(self.elems[1].times(other.elems[1]))
            .plus(self.elems[2].times(other.elems[2]))
            .plus(self.elems[3].times(other.elems[3]))
    }
}

/// The component at `idx`, counted from zero. There are no others: an index
/// beyond the last is not accepted.
impl<S: Scalar> core::ops::Index<usize> for Vec4<S> {
    type Output = S;

    fn index(&self, idx: usize) -> (r: &S)
        ensures
            *r == self.elems[idx as int],
    {
        &self.elems[idx]
    }
}

impl<S: Scalar> vstd::std_specs::core::IndexSpecImpl<usize> for Vec4<S> {
    open spec fn index_req(&self, idx: &usize) -> bool {
        *idx < 4
    }
}

/// The sum, component by component.
impl<S: Scalar> core::ops::Add for Vec4<S> {
    type Output = Vec4<S>;

    fn add(self, other: Vec4<S>) -> (r: Vec4<S>)
        ensures
            r == self.sum(other),
    {
        Vec4 {
            elems: [
                self.elems[0].plus(other.elems[0]),
                self.elems[1].plus(other.elems[1]),
                self.elems[2].plus(other.elems[2]),
                self.elems[3].plus(other.elems[3]),
            ],
        }
    }
}

impl<S: Scalar> AddSpecImpl for Vec4<S> {
    open spec fn obeys_add_spec() -> bool {
        true
    }

    open spec fn add_req(self, other: Vec4<S>) -> bool {
        true
    }

    open spec fn add_spec(self, other: Vec4<S>) -> Vec4<S> {
        self.sum(other)
    }
}

/// The difference, component by component.
impl<S: Scalar> core::ops::Sub for Vec4<S> {
    type Output = Vec4<S>;

    fn sub(self, other: Vec4<S>) -> (r: Vec4<S>)
        ensures
            r == self.difference(other),
    {
        Vec4 {
            elems: [
                self.elems[0].minus(other.elems[0]),
                self.elems[1].minus(other.elems[1]),
                self.elems[2].minus(other.elems[2]),
                self.elems[3].minus(other.elems[3]),
            ],
        }
    }
}

impl<S: Scalar> SubSpecImpl for Vec4<S> {
    open spec fn obeys_sub_spec() -> bool {
        true
    }

    open spec fn sub_req(self, other: Vec4<S>) -> bool {
        true
    }

    open spec fn sub_spec(self, other: Vec4<S>) -> Vec4<S> {
        self.difference(other)
    }
}

/// Scaling: the scalar is the left factor of every product.
impl<S: Scalar> core::ops::Mul<S> for Vec4<S> {
    type Output = Vec4<S>;

    fn mul(self, scalar: S) -> (r: Vec4<S>)
        ensures
            r == self.scaled(scalar),
    {
        Vec4 {
            elems: [
                scalar.times(self.elems[0]),
                scalar.times(self.elems[1]),
                scalar.times(self.elems[2]),
                scalar.times(self.elems[3]),
            ],
        }
    }
}

impl<S: Scalar> MulSpecImpl<S> for Vec4<S> {
    open spec fn obeys_mul_spec() -> bool {
        true
    }

    open spec fn mul_req(self, scalar: S) -> bool {
        true
    }

    open spec fn mul_spec(self, scalar: S) -> Vec4<S> {
        self.scaled(scalar)
    }
}

/// Division of every component by one scalar. Nothing is asked of the
/// divisor: what a division by zero gives is the scalar's own affair.
impl<S: Scalar> core::ops::Div<S> for Vec4<S> {
    type Output = Vec4<S>;

    fn div(self, scalar: S) -> (r: Vec4<S>)
        ensures
            r == self.divided(scalar),
    {
        Vec4 {
            elems: [
                self.elems[0].over(scalar),
                self.elems[1].over(scalar),
                self.elems[2].over(scalar),
                self.elems[3].over(scalar),
            ],
        }
    }
}

impl<S: Scalar> DivSpecImpl<S> for Vec4<S> {
    open spec fn obeys_div_spec() -> bool {
        true
    }

    open spec fn div_req(self, scalar: S) -> bool {
        true
    }

    open spec fn div_spec(self, scalar: S) -> Vec4<S> {
        self.divided(scalar)
    }
}

} // verus!
