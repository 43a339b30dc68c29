//! Square matrices of a fixed dimension over a scalar type.
use vstd::prelude::*;
use crate::common::{FuzzyEq, Scalar};

verus! {

/// Whether `m` has `n` rows of `n` entries each.
pub open spec fn is_square<T>(m: Seq<Seq<T>>, n: nat) -> bool {
    &&& m.len() == n
    &&& forall|r: int| 0 <= r < n ==> (#[trigger] m[r]).len() == n
}

/// The `n`-by-`n` matrix with `v` on the main diagonal and zero elsewhere.
pub open spec fn diagonal_model<T: Scalar>(n: nat, v: T) -> Seq<Seq<T>> {
    Seq::new(n, |r: int| Seq::new(n, |c: int| if r == c { v } else { T::zero_spec() }))
}

pub open spec fn identity_model<T: Scalar>(n: nat) -> Seq<Seq<T>> {
    diagonal_model(n, T::one_spec())
}

pub open spec fn transpose_model<T>(m: Seq<Seq<T>>) -> Seq<Seq<T>> {
    Seq::new(m.len(), |r: int| Seq::new(m.len(), |c: int| m[c][r]))
}

/// The sum of `a[r][k] * b[k][c]` over `k < n`, accumulated from the left
/// starting at zero.
pub open spec fn dot<T: Scalar>(a: Seq<Seq<T>>, b: Seq<Seq<T>>, r: int, c: int, n: int) -> T
    decreases n,
{
    if n <= 0 {
        T::zero_spec()
    } else {
        T::plus_spec(dot(a, b, r, c, n - 1), T::times_spec(a[r][n - 1], b[n - 1][c]))
    }
}

/// The matrix product `a * b` of two square matrices of one dimension.
pub open spec fn product_model<T: Scalar>(a: Seq<Seq<T>>, b: Seq<Seq<T>>) -> Seq<Seq<T>> {
    Seq::new(a.len(), |r: int| Seq::new(a.len(), |c: int| dot(a, b, r, c, a.len() as int)))
}

/// Entry-wise equality within the scalar's tolerance.
pub open spec fn fuzzy_eq_model<T: Scalar>(a: Seq<Seq<T>>, b: Seq<Seq<T>>) -> bool {
    forall|r: int, c: int|
        0 <= r < a.len() && 0 <= c < a.len() ==> (#[trigger] a[r][c]).fuzzy_eq_spec(&b[r][c])
}

/// A `D`-by-`D` grid of scalars, indexed by row, then column.
#[derive(Clone, Copy, Debug)]
pub struct Matrix<T, const D: usize> {
    pub data: [[T; D]; D],
}

impl<T, const D: usize> View for Matrix<T, D> {
    type V = Seq<Seq<T>>;

    open spec fn view(&self) -> Seq<Seq<T>> {
        Seq::new(D as nat, |r: int| self.data[r]@)
    }
}

impl<T: Scalar, const D: usize> Matrix<T, D> {
    /// The view of every matrix has `D` rows of `D` entries.
    pub proof fn lemma_square(&self)
        ensures
            is_square(self@, D as nat),
    {
    }

    /// The zero matrix.
    pub fn new() -> (r: Self)
        ensures
            r@ == diagonal_model(D as nat, T::zero_spec()),
    {
        let z = T::zero();
        let r = Matrix { data: [[z; D]; D] };
        assert(r@ =~~= diagonal_model(D as nat, T::zero_spec()));
        r
    }

    /// The matrix with `value` on the main diagonal and zero elsewhere.
    pub fn diagonal(value: T) -> (r: Self)
        ensures
            r@ == diagonal_model(D as nat, value),
    {
        let mut matrix = Self::new();
        for i in 0..D
            invariant
                forall|r: int, c: int|
                    0 <= r < D && 0 <= c < D ==> #[trigger] matrix@[r][c] == if r == c && r < i {
                        value
                    } else {
                        T::zero_spec()
                    },
        {
            matrix.set(i, i, value);
        }
        assert(matrix@ =~~= diagonal_model(D as nat, value));
        matrix
    }

    pub fn identity() -> (r: Self)
        ensures
            r@ == identity_model::<T>(D as nat),
    {
        Self::diagonal(T::one())
    }

    /// The entry at `row`, `col`.
    pub fn at(&self, row: usize, col: usize) -> (r: T)
        requires
            row < D,
            col < D,
        ensures
            r == self@[row as int][col as int],
    {
        self.data[row][col]
    }

    /// Overwrites the entry at `row`, `col`; every other entry is kept.
    pub fn set(&mut self, row: usize, col: usize, value: T)
        requires
            row < D,
            col < D,
        ensures
            final(self)@ == old(self)@.update(row as int, old(self)@[row as int].update(col as int, value)),
    {
        let mut line = self.data[row];
        line[col] = value;
        self.data[row] = line;
        assert(final(self)@ =~~= old(self)@.update(row as int, old(self)@[row as int].update(col as int, value)));
    }

    /// A new matrix whose entry at `c`, `r` is this one's at `r`, `c`.
    pub fn transpose(&self) -> (r: Self)
        ensures
            r@ == transpose_model(self@),
    {
        let mut matrix = Self::new();
        for row in 0..D
            invariant
                forall|r: int, c: int|
                    0 <= r < D && 0 <= c < D ==> #[trigger] matrix@[r][c] == if c < row {
                        self@[c][r]
                    } else {
                        T::zero_spec()
                    },
        {
            for col in 0..D
                invariant
                    0 <= row < D,
                    forall|r: int, c: int|
                        0 <= r < D && 0 <= c < D ==> #[trigger] matrix@[r][c] == if c < row || (c
                            == row && r < col) {
                            self@[c][r]
                        } else {
                            T::zero_spec()
                        },
            {
                matrix.set(col, row, self.at(row, col));
            }
        }
        assert(matrix@ =~~= transpose_model(self@));
        matrix
    }

    /// The product `self * rhs`, freshly computed.
    pub fn multiply(&self, rhs: &Self) -> (r: Self)
        ensures
            r@ == product_model(self@, rhs@),
    {
        let mut res = Self::new();
        for row in 0..D
            invariant
                forall|r: int, c: int|
                    0 <= r < D && 0 <= c < D ==> #[trigger] res@[r][c] == if r < row {
                        dot(self@, rhs@, r, c, D as int)
                    } else {
                        T::zero_spec()
                    },
        {
            for col in 0..D
                invariant
                    0 <= row < D,
                    forall|r: int, c: int|
                        0 <= r < D && 0 <= c < D ==> #[trigger] res@[r][c] == if r < row || (r
                            == row && c < col) {
                            dot(self@, rhs@, r, c, D as int)
                        } else {
                            T::zero_spec()
                        },
            {
                for inter in 0..D
                    invariant
                        0 <= row < D,
                        0 <= col < D,
                        forall|r: int, c: int|
                            0 <= r < D && 0 <= c < D ==> #[trigger] res@[r][c] == if r < row || (r
                                == row && c < col) {
                                dot(self@, rhs@, r, c, D as int)
                            } else if r == row && c == col {
                                dot(self@, rhs@, r, c, inter as int)
                            } else {
                                T::zero_spec()
                            },
                {
                    let sum = res.at(row, col).plus(self.at(row, inter).times(rhs.at(inter, col)));
                    res.set(row, col, sum);
                }
            }
        }
        assert(res@ =~~= product_model(self@, rhs@));
        res
    }
}

impl<T: Scalar, const D: usize> FuzzyEq for Matrix<T, D> {
    open spec fn fuzzy_eq_spec(&self, other: &Self) -> bool {
        fuzzy_eq_model(self@, other@)
    }

    fn fuzzy_eq(&self, other: &Self) -> (r: bool) {
        for row in 0..D
            invariant
                forall|r: int, c: int|
                    0 <= r < row && 0 <= c < D ==> (#[trigger] self@[r][c]).fuzzy_eq_spec(
                        &other@[r][c],
                    ),
        {
            for col in 0..D
                invariant
                    0 <= row < D,
                    forall|r: int, c: int|
                        0 <= r < D && 0 <= c < D && (r < row || (r == row && c < col))
                            ==> (#[trigger] self@[r][c]).fuzzy_eq_spec(&other@[r][c]),
            {
                if !self.at(row, col).fuzzy_eq(&other.at(row, col)) {
                    return false;
                }
            }
        }
        true
    }
}

impl<T: Scalar, const D: usize> Default for Matrix<T, D> {
    /// The zero matrix.
    fn default() -> (r: Self)
        ensures
            r@ == diagonal_model(D as nat, T::zero_spec()),
    {
        Self::new()
    }
}

impl<T: Scalar, const D: usize> PartialEq for Matrix<T, D> {
    /// Entry-wise equality within the scalar's tolerance.
    fn eq(&self, other: &Self) -> (r: bool) {
        self.fuzzy_eq(other)
    }
}

impl<T: Scalar, const D: usize> vstd::std_specs::cmp::PartialEqSpecImpl for Matrix<T, D> {
    open spec fn obeys_eq_spec() -> bool {
        true
    }

    open spec fn eq_spec(&self, other: &Self) -> bool {
        self.fuzzy_eq_spec(other)
    }
}

} // verus!
