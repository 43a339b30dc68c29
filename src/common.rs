use vstd::prelude::*;

verus! {

/// Equality up to a tolerance.
///
/// The relation need not be transitive: two values may each lie within the
/// tolerance of a third and not of each other.
pub trait FuzzyEq: Sized {
    /// Whether the two values are equal within the tolerance.
    spec fn fuzzy_eq_spec(&self, other: &Self) -> bool;

    fn fuzzy_eq(&self, other: &Self) -> (r: bool)
        ensures
            r == self.fuzzy_eq_spec(other),
    ;
}

/// The arithmetic that matrices and vectors are built from.
///
/// Each operation is described by a spec function of its operands; an
/// implementation's operations are therefore functions of their operands.
pub trait Scalar: Copy + FuzzyEq {
    spec fn zero_spec() -> Self;

    spec fn one_spec() -> Self;

    spec fn plus_spec(a: Self, b: Self) -> Self;

    spec fn minus_spec(a: Self, b: Self) -> Self;

    spec fn times_spec(a: Self, b: Self) -> Self;

    spec fn divide_spec(a: Self, b: Self) -> Self;

    spec fn negate_spec(a: Self) -> Self;

    fn zero() -> (r: Self)
        ensures
            r == Self::zero_spec(),
    ;

    fn one() -> (r: Self)
        ensures
            r == Self::one_spec(),
    ;

    fn plus(self, b: Self) -> (r: Self)
        ensures
            r == Self::plus_spec(self, b),
    ;

    fn minus(self, b: Self) -> (r: Self)
        ensures
            r == Self::minus_spec(self, b),
    ;

    fn times(self, b: Self) -> (r: Self)
        ensures
            r == Self::times_spec(self, b),
    ;

    /// Division by a divisor that is not zero within the tolerance.
    fn divide(self, b: Self) -> (r: Self)
        requires
            !b.fuzzy_eq_spec(&Self::zero_spec()),
        ensures
            r == Self::divide_spec(self, b),
    ;

    fn negate(self) -> (r: Self)
        ensures
            r == Self::negate_spec(self),
    ;
}

/// The circular functions that rotations need.
///
/// Each is described by a spec function of its argument; an
/// implementation's cosine and sine are therefore functions of the angle.
pub trait Trig: Scalar {
    spec fn cos_spec(a: Self) -> Self;

    spec fn sin_spec(a: Self) -> Self;

    fn cos(self) -> (r: Self)
        ensures
            r == Self::cos_spec(self),
    ;

    fn sin(self) -> (r: Self)
        ensures
            r == Self::sin_spec(self),
    ;
}

/// A value with four named components.
pub trait Dimension4 {
    type Value;

    spec fn x_spec(&self) -> Self::Value;

    spec fn y_spec(&self) -> Self::Value;

    spec fn z_spec(&self) -> Self::Value;

    spec fn w_spec(&self) -> Self::Value;

    fn new(x: Self::Value, y: Self::Value, z: Self::Value, w: Self::Value) -> (r: Self)
        where Self: Sized
        ensures
            r.x_spec() == x,
            r.y_spec() == y,
            r.z_spec() == z,
            r.w_spec() == w,
    ;

    fn get_x(&self) -> (r: Self::Value)
        ensures
            r == self.x_spec(),
    ;

    fn get_y(&self) -> (r: Self::Value)
        ensures
            r == self.y_spec(),
    ;

    fn get_z(&self) -> (r: Self::Value)
        ensures
            r == self.z_spec(),
    ;

    fn get_w(&self) -> (r: Self::Value)
        ensures
            r == self.w_spec(),
    ;
}

/// A value with three named components.
pub trait Dimension3 {
    type Value;

    spec fn x_spec(&self) -> Self::Value;

    spec fn y_spec(&self) -> Self::Value;

    spec fn z_spec(&self) -> Self::Value;

    fn new(x: Self::Value, y: Self::Value, z: Self::Value) -> (r: Self)
        where Self: Sized
        ensures
            r.x_spec() == x,
            r.y_spec() == y,
            r.z_spec() == z,
    ;

    fn get_x(&self) -> (r: Self::Value)
        ensures
            r == self.x_spec(),
    ;

    fn get_y(&self) -> (r: Self::Value)
        ensures
            r == self.y_spec(),
    ;

    fn get_z(&self) -> (r: Self::Value)
        ensures
            r == self.z_spec(),
    ;
}

/// The determinant of a square matrix, as a scalar of type `T`.
pub trait Determinant<T> {
    spec fn det_spec(&self) -> T;

    fn det(&self) -> (r: T)
        ensures
            r == self.det_spec(),
    ;
}

} // verus!
