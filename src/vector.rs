//! Vectors of a fixed dimension over a scalar type.
use vstd::prelude::*;
use crate::common::{Dimension4, FuzzyEq, Scalar};
use crate::matrix::Matrix;

verus! {

/// The sum of `m[r][k] * v[k]` over `k < n`, accumulated from the left
/// starting at zero.
pub open spec fn row_dot<T: Scalar>(m: Seq<Seq<T>>, v: Seq<T>, r: int, n: int) -> T
    decreases n,
{
    if n <= 0 {
        T::zero_spec()
    } else {
        T::plus_spec(row_dot(m, v, r, n - 1), T::times_spec(m[r][n - 1], v[n - 1]))
    }
}

/// The column vector `m * v`.
pub open spec fn apply_model<T: Scalar>(m: Seq<Seq<T>>, v: Seq<T>) -> Seq<T> {
    Seq::new(v.len(), |r: int| row_dot(m, v, r, v.len() as int))
}

/// An ordered tuple of `D` scalars.
#[derive(Clone, Copy, Debug)]
pub struct Vector<T, const D: usize> {
    pub data: [T; D],
}

impl<T, const D: usize> View for Vector<T, D> {
    type V = Seq<T>;

    open spec fn view(&self) -> Seq<T> {
        self.data@
    }
}

impl<T: Scalar, const D: usize> Vector<T, D> {
    /// The vector whose components are all zero.
    pub fn zero() -> (r: Self)
        ensures
            r@ == Seq::new(D as nat, |i: int| T::zero_spec()),
    {
        let r = Vector { data: [T::zero(); D] };
        assert(r@ =~= Seq::new(D as nat, |i: int| T::zero_spec()));
        r
    }

    /// Component `i`.
    pub fn at(&self, i: usize) -> (r: T)
        requires
            i < D,
        ensures
            r == self@[i as int],
    {
        self.data[i]
    }

    /// Overwrites component `i`; every other component is kept.
    pub fn set(&mut self, i: usize, value: T)
        requires
            i < D,
        ensures
            final(self)@ == old(self)@.update(i as int, value),
    {
        self.data[i] = value;
    }
}

impl<T: Scalar, const D: usize> FuzzyEq for Vector<T, D> {
    open spec fn fuzzy_eq_spec(&self, other: &Self) -> bool {
        forall|i: int| 0 <= i < D ==> (#[trigger] self@[i]).fuzzy_eq_spec(&other@[i])
    }

    fn fuzzy_eq(&self, other: &Self) -> (r: bool) {
        for i in 0..D
            invariant
                forall|k: int| 0 <= k < i ==> (#[trigger] self@[k]).fuzzy_eq_spec(&other@[k]),
        {
            if !self.at(i).fuzzy_eq(&other.at(i)) {
                return false;
            }
        }
        true
    }
}

impl<T: Scalar> Dimension4 for Vector<T, 4> {
    type Value = T;

    open spec fn x_spec(&self) -> T {
        self@[0]
    }

    open spec fn y_spec(&self) -> T {
        self@[1]
    }

    open spec fn z_spec(&self) -> T {
        self@[2]
    }

    open spec fn w_spec(&self) -> T {
        self@[3]
    }

    fn new(x: T, y: T, z: T, w: T) -> (r: Self) {
        Vector { data: [x, y, z, w] }
    }

    fn get_x(&self) -> (r: T) {
        self.at(0)
    }

    fn get_y(&self) -> (r: T) {
        self.at(1)
    }

    fn get_z(&self) -> (r: T) {
        self.at(2)
    }

    fn get_w(&self) -> (r: T) {
        self.at(3)
    }
}

impl<T: Scalar, const D: usize> Matrix<T, D> {
    /// The column vector `self * v`, freshly computed.
    pub fn apply(&self, v: &Vector<T, D>) -> (r: Vector<T, D>)
        ensures
            r@ == apply_model(self@, v@),
    {
        let mut res: Vector<T, D> = Vector::zero();
        for row in 0..D
            invariant
                forall|r: int|
                    0 <= r < D ==> #[trigger] res@[r] == if r < row {
                        row_dot(self@, v@, r, D as int)
                    } else {
                        T::zero_spec()
                    },
        {
            for inter in 0..D
                invariant
                    row < D,
                    forall|r: int|
                        0 <= r < D ==> #[trigger] res@[r] == if r < row {
                            row_dot(self@, v@, r, D as int)
                        } else if r == row {
                            row_dot(self@, v@, r, inter as int)
                        } else {
                            T::zero_spec()
                        },
            {
                let sum = res.at(row).plus(self.at(row, inter).times(v.at(inter)));
                res.set(row, sum);
            }
        }
        assert(res@ =~= apply_model(self@, v@));
        res
    }
}

impl<T: Scalar, const D: usize> Default for Vector<T, D> {
    /// The zero vector.
    fn default() -> (r: Self)
        ensures
            r@ == Seq::new(D as nat, |i: int| T::zero_spec()),
    {
        Self::zero()
    }
}

impl<T: Scalar, const D: usize> PartialEq for Vector<T, D> {
    /// Component-wise equality within the scalar's tolerance.
    fn eq(&self, other: &Self) -> (r: bool) {
        self.fuzzy_eq(other)
    }
}

impl<T: Scalar, const D: usize> vstd::std_specs::cmp::PartialEqSpecImpl for Vector<T, D> {
    open spec fn obeys_eq_spec() -> bool {
        true
    }

    open spec fn eq_spec(&self, other: &Self) -> bool {
        self.fuzzy_eq_spec(other)
    }
}

} // verus!
