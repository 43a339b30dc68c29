//! 64-bit signed integers as a scalar: ring operations wrap modulo 2^64,
//! division truncates toward zero, and the tolerance of equality is zero.
//!
//! Because division truncates, the matrix `inverse` over this scalar is the
//! adjugate divided entry by entry with truncation: it is the true inverse
//! only when every cofactor is a multiple of the determinant (for instance
//! when the determinant is 1 or -1).
use vstd::prelude::*;
use crate::common::{FuzzyEq, Scalar};

verus! {

impl FuzzyEq for i64 {
    open spec fn fuzzy_eq_spec(&self, other: &i64) -> bool {
        *self == *other
    }

    fn fuzzy_eq(&self, other: &i64) -> (r: bool) {
        *self == *other
    }
}

impl Scalar for i64 {
    open spec fn zero_spec() -> i64 {
        0
    }

    open spec fn one_spec() -> i64 {
        1
    }

    open spec fn plus_spec(a: i64, b: i64) -> i64 {
        a.wrapping_add(b)
    }

    open spec fn minus_spec(a: i64, b: i64) -> i64 {
        a.wrapping_sub(b)
    }

    open spec fn times_spec(a: i64, b: i64) -> i64 {
        a.wrapping_mul(b)
    }

    /// Truncating division; the one quotient that overflows, `i64::MIN / -1`,
    /// wraps back to `i64::MIN`.
    open spec fn divide_spec(a: i64, b: i64) -> i64 {
        match a.checked_div(b) {
            Some(q) => q,
            None => a,
        }
    }

    open spec fn negate_spec(a: i64) -> i64 {
        0i64.wrapping_sub(a)
    }

    fn zero() -> (r: i64) {
        0
    }

    fn one() -> (r: i64) {
        1
    }

    fn plus(self, b: i64) -> (r: i64) {
        self.wrapping_add(b)
    }

    fn minus(self, b: i64) -> (r: i64) {
        self.wrapping_sub(b)
    }

    fn times(self, b: i64) -> (r: i64) {
        self.wrapping_mul(b)
    }

    fn divide(self, b: i64) -> (r: i64) {
        match self.checked_div(b) {
            Some(q) => q,
            None => self,
        }
    }

    fn negate(self) -> (r: i64) {
        0i64.wrapping_sub(self)
    }
}

} // verus!
