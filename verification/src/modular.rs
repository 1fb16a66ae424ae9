//! An exact scalar: the integers modulo 2^64.
//!
//! Sums, differences and products wrap around, so they obey the laws of
//! arithmetic without exception. A negative integer is held as its residue:
//! `-1` is `2^64 - 1`.

use vstd::prelude::*;
use crate::scalar::Scalar;
use crate::exact::Exact;

verus! {

/// An integer modulo 2^64, held as its residue.
#[derive(Clone, Copy, Debug, PartialEq, Eq, Structural)]
pub struct Modular {
    pub residue: u64,
}

/// The residue of `n` modulo 2^64.
pub open spec fn reduce(n: int) -> u64 {
    (n % 0x1_0000_0000_0000_0000) as u64
}

impl Scalar for Modular {
    open spec fn lit(v: i32) -> Modular {
        Modular { residue: reduce(v as int) }
    }

    open spec fn sum(self, rhs: Modular) -> Modular {
        Modular { residue: reduce(self.residue + rhs.residue) }
    }

    open spec fn difference(self, rhs: Modular) -> Modular {
        Modular { residue: reduce(self.residue - rhs.residue) }
    }

    open spec fn product(self, rhs: Modular) -> Modular {
        Modular { residue: reduce(self.residue * rhs.residue) }
    }

    /// The quotient of the residues, rounded down; zero where the divisor
    /// is zero.
    open spec fn quotient(self, rhs: Modular) -> Modular {
        if rhs.residue == 0 {
            Modular { residue: 0 }
        } else {
            Modular { residue: (self.residue / rhs.residue) as u64 }
        }
    }

    open spec fn negation(self) -> Modular {
        Modular { residue: reduce(-self.residue) }
    }

    fn from_i32(v: i32) -> (r: Modular) {
        if v >= 0 {
            Modular { residue: v as u64 }
        } else {
            let magnitude: u64 = (-(v as i64)) as u64;
            Modular { residue: 0u64.wrapping_sub(magnitude) }
        }
    }

    fn plus(self, rhs: Modular) -> (r: Modular) {
        Modular { residue: self.residue.wrapping_add(rhs.residue) }
    }

    fn minus(self, rhs: Modular) -> (r: Modular) {
        Modular { residue: self.residue.wrapping_sub(rhs.residue) }
    }

    fn times(self, rhs: Modular) -> (r: Modular) {
        Modular { residue: self.residue.wrapping_mul(rhs.residue) }
    }

    fn over(self, rhs: Modular) -> (r: Modular) {
        if rhs.residue == 0 {
            Modular { residue: 0 }
        } else {
            Modular { residue: self.residue / rhs.residue }
        }
    }

    fn negated(self) -> (r: Modular) {
        Modular { residue: 0u64.wrapping_sub(self.residue) }
    }
}

impl Exact for Modular {
    open spec fn modulus() -> int {
        0x1_0000_0000_0000_0000
    }

    open spec fn value(self) -> int {
        self.residue as int
    }

    proof fn value_in_range(self) {
    }

    proof fn value_decides(self, other: Modular) {
    }

    proof fn lit_value(v: i32) {
    }

    proof fn sum_value(self, rhs: Modular) {
    }

    proof fn difference_value(self, rhs: Modular) {
    }

    proof fn product_value(self, rhs: Modular) {
    }

    proof fn negation_value(self) {
    }
}

} // verus!
