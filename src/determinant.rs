//! Determinants of 2-, 3- and 4-dimensional matrices, minors and cofactors
//! of 4-dimensional ones, and inversion through the adjugate.
use vstd::prelude::*;
use crate::common::{Determinant, FuzzyEq, Scalar};
use crate::matrix::Matrix;

verus! {

pub open spec fn times3<T: Scalar>(a: T, b: T, c: T) -> T {
    T::times_spec(T::times_spec(a, b), c)
}

/// `m[0][0] * m[1][1] - m[0][1] * m[1][0]`.
pub open spec fn det2_model<T: Scalar>(m: Seq<Seq<T>>) -> T {
    T::minus_spec(T::times_spec(m[0][0], m[1][1]), T::times_spec(m[0][1], m[1][0]))
}

/// The rule of Sarrus: the three products along the forward diagonals, less
/// the three along the backward diagonals, taken in that order.
pub open spec fn det3_model<T: Scalar>(m: Seq<Seq<T>>) -> T {
    let forward = T::plus_spec(
        T::plus_spec(times3(m[0][0], m[1][1], m[2][2]), times3(m[0][1], m[1][2], m[2][0])),
        times3(m[0][2], m[1][0], m[2][1]),
    );
    T::minus_spec(
        T::minus_spec(
            T::minus_spec(forward, times3(m[0][2], m[1][1], m[2][0])),
            times3(m[0][1], m[1][0], m[2][2]),
        ),
        times3(m[0][0], m[1][2], m[2][1]),
    )
}

/// The index in the full matrix of the `i`-th index that remains once `k`
/// is deleted.
pub open spec fn skip(i: int, k: int) -> int {
    if i < k {
        i
    } else {
        i + 1
    }
}

/// The matrix left when row `row` and column `col` of `m` are deleted, with
/// the remaining rows and columns in their order.
pub open spec fn minor_model<T>(m: Seq<Seq<T>>, row: int, col: int) -> Seq<Seq<T>> {
    Seq::new(
        (m.len() - 1) as nat,
        |i: int| Seq::new((m.len() - 1) as nat, |j: int| m[skip(i, row)][skip(j, col)]),
    )
}

/// `(-1)^(row + col)` times the determinant of the minor at `row`, `col` of a
/// 4-by-4 matrix.
pub open spec fn cofactor_model<T: Scalar>(m: Seq<Seq<T>>, row: int, col: int) -> T {
    if (row + col) % 2 == 0 {
        det3_model(minor_model(m, row, col))
    } else {
        T::negate_spec(det3_model(minor_model(m, row, col)))
    }
}

/// The sum of `cofactor(0, c) * m[0][c]` over `c < n`, accumulated from the
/// left starting at zero.
pub open spec fn expansion<T: Scalar>(m: Seq<Seq<T>>, n: int) -> T
    decreases n,
{
    if n <= 0 {
        T::zero_spec()
    } else {
        T::plus_spec(expansion(m, n - 1), T::times_spec(cofactor_model(m, 0, n - 1), m[0][n - 1]))
    }
}

/// The determinant of a 4-by-4 matrix, by cofactor expansion along row 0.
pub open spec fn det4_model<T: Scalar>(m: Seq<Seq<T>>) -> T {
    expansion(m, 4)
}

/// A 4-by-4 matrix is invertible when its determinant is not zero within
/// the tolerance.
pub open spec fn invertible_model<T: Scalar>(m: Seq<Seq<T>>) -> bool {
    !det4_model(m).fuzzy_eq_spec(&T::zero_spec())
}

/// The adjugate (the transposed matrix of cofactors) divided by the
/// determinant.
pub open spec fn inverse_model<T: Scalar>(m: Seq<Seq<T>>) -> Seq<Seq<T>> {
    Seq::new(4, |r: int| Seq::new(4, |c: int| T::divide_spec(cofactor_model(m, c, r), det4_model(m))))
}

/// Why a matrix operation could not be carried out.
#[derive(Clone, Copy, Debug, PartialEq, Eq, Structural)]
pub enum MatrixError {
    /// The determinant is zero within the tolerance.
    NotInvertible,
}

impl<T: Scalar> Determinant<T> for Matrix<T, 2> {
    open spec fn det_spec(&self) -> T {
        det2_model(self@)
    }

    fn det(&self) -> (r: T) {
        self.at(0, 0).times(self.at(1, 1)).minus(self.at(0, 1).times(self.at(1, 0)))
    }
}

impl<T: Scalar> Determinant<T> for Matrix<T, 3> {
    open spec fn det_spec(&self) -> T {
        det3_model(self@)
    }

    fn det(&self) -> (r: T) {
        let forward = self.at(0, 0).times(self.at(1, 1)).times(self.at(2, 2)).plus(
            self.at(0, 1).times(self.at(1, 2)).times(self.at(2, 0)),
        ).plus(self.at(0, 2).times(self.at(1, 0)).times(self.at(2, 1)));
        forward.minus(self.at(0, 2).times(self.at(1, 1)).times(self.at(2, 0))).minus(
            self.at(0, 1).times(self.at(1, 0)).times(self.at(2, 2)),
        ).minus(self.at(0, 0).times(self.at(1, 2)).times(self.at(2, 1)))
    }
}

impl<T: Scalar> Matrix<T, 4> {
    /// The 3-by-3 matrix left when `row` and `col` are deleted.
    pub fn minor(&self, row: usize, col: usize) -> (r: Matrix<T, 3>)
        requires
            row < 4,
            col < 4,
        ensures
            r@ == minor_model(self@, row as int, col as int),
    {
        let mut matrix: Matrix<T, 3> = Matrix::new();
        for target_row in 0..3
            invariant
                row < 4,
                col < 4,
                forall|i: int, j: int|
                    0 <= i < 3 && 0 <= j < 3 ==> #[trigger] matrix@[i][j] == if i < target_row {
                        self@[skip(i, row as int)][skip(j, col as int)]
                    } else {
                        T::zero_spec()
                    },
        {
            let source_row: usize = if target_row < row {
                target_row
            } else {
                target_row + 1
            };
            for target_col in 0..3
                invariant
                    row < 4,
                    col < 4,
                    target_row < 3,
                    source_row == skip(target_row as int, row as int),
                    forall|i: int, j: int|
                        0 <= i < 3 && 0 <= j < 3 ==> #[trigger] matrix@[i][j] == if i < target_row
                            || (i == target_row && j < target_col) {
                            self@[skip(i, row as int)][skip(j, col as int)]
                        } else {
                            T::zero_spec()
                        },
            {
                let source_col: usize = if target_col < col {
                    target_col
                } else {
                    target_col + 1
                };
                matrix.set(target_row, target_col, self.at(source_row, source_col));
            }
        }
        assert(matrix@ =~~= minor_model(self@, row as int, col as int));
        matrix
    }

    /// The signed determinant of the minor at `row`, `col`.
    pub fn cofactor(&self, row: usize, col: usize) -> (r: T)
        requires
            row < 4,
            col < 4,
        ensures
            r == cofactor_model(self@, row as int, col as int),
    {
        let minor_det = self.minor(row, col).det();
        if (row + col) % 2 == 0 {
            minor_det
        } else {
            minor_det.negate()
        }
    }

    pub fn is_invertible(&self) -> (r: bool)
        ensures
            r == invertible_model(self@),
    {
        !self.det().fuzzy_eq(&T::zero())
    }

    /// The inverse, or `NotInvertible` when the determinant is zero within
    /// the tolerance. Each entry is a cofactor divided by the determinant
    /// with the scalar's division; where that division is inexact (it
    /// rounds for floats and truncates for integers) the product with the
    /// matrix is the identity only as far as that division allows.
    pub fn inverse(&self) -> (r: Result<Matrix<T, 4>, MatrixError>)
        ensures
            r is Ok <==> invertible_model(self@),
            r is Ok ==> r->Ok_0@ == inverse_model(self@),
            r is Err ==> r->Err_0 == MatrixError::NotInvertible,
    {
        if self.is_invertible() {
            let det = self.det();
            let mut inverse: Matrix<T, 4> = Matrix::new();
            for row in 0..4
                invariant
                    det == det4_model(self@),
                    invertible_model(self@),
                    forall|r: int, c: int|
                        0 <= r < 4 && 0 <= c < 4 ==> #[trigger] inverse@[r][c] == if c < row {
                            T::divide_spec(cofactor_model(self@, c, r), det)
                        } else {
                            T::zero_spec()
                        },
            {
                for col in 0..4
                    invariant
                        row < 4,
                        det == det4_model(self@),
                        invertible_model(self@),
                        forall|r: int, c: int|
                            0 <= r < 4 && 0 <= c < 4 ==> #[trigger] inverse@[r][c] == if c < row
                                || (c == row && r < col) {
                                T::divide_spec(cofactor_model(self@, c, r), det)
                            } else {
                                T::zero_spec()
                            },
                {
                    let cofactor = self.cofactor(row, col);
                    inverse.set(col, row, cofactor.divide(det));
                }
            }
            assert(inverse@ =~~= inverse_model(self@));
            Ok(inverse)
        } else {
            Err(MatrixError::NotInvertible)
        }
    }
}

impl<T: Scalar> Determinant<T> for Matrix<T, 4> {
    open spec fn det_spec(&self) -> T {
        det4_model(self@)
    }

    fn det(&self) -> (r: T) {
        let mut det = T::zero();
        for col in 0..4
            invariant
                det == expansion(self@, col as int),
        {
            det = det.plus(self.cofactor(0, col).times(self.at(0, col)));
        }
        det
    }
}

} // verus!
