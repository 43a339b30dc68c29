//! Algebraic properties of the matrix operations.
use vstd::prelude::*;
use vstd::arithmetic::mul::lemma_mul_is_commutative;
use crate::common::Scalar;
use crate::congruence::{
    lemma_congruent_zero,
    lemma_det3,
    lemma_expansion,
    lemma_expansion_exact_repeated,
    lemma_sarrus_repeated,
};
use crate::determinant::{cofactor_model, det2_model, det3_model, det4_model, expansion, invertible_model, minor_model};
use crate::matrix::{dot, identity_model, is_square, product_model, transpose_model, Matrix};

verus! {

/// Transposing twice gives back the matrix one started from, entry for
/// entry, whatever the scalar.
pub proof fn lemma_transpose_involutive<T: Scalar, const D: usize>(m: Matrix<T, D>)
    ensures
        transpose_model(transpose_model(m@)) == m@,
{
    assert(transpose_model(transpose_model(m@)) =~~= m@);
}

proof fn lemma_i64_units(x: i64)
    ensures
        i64::times_spec(1, x) == x,
        i64::times_spec(x, 1) == x,
        i64::times_spec(0, x) == 0,
        i64::times_spec(x, 0) == 0,
        i64::plus_spec(0, x) == x,
        i64::plus_spec(x, 0) == x,
{
}

proof fn lemma_dot_identity_left<const D: usize>(m: Matrix<i64, D>, r: int, c: int, k: int)
    requires
        0 <= r < D,
        0 <= c < D,
        0 <= k <= D,
    ensures
        dot(identity_model::<i64>(D as nat), m@, r, c, k) == if r < k {
            m@[r][c]
        } else {
            0
        },
    decreases k,
{
    if k > 0 {
        lemma_dot_identity_left(m, r, c, k - 1);
        lemma_i64_units(m@[k - 1][c]);
        lemma_i64_units(m@[r][c]);
    }
}

proof fn lemma_dot_identity_right<const D: usize>(m: Matrix<i64, D>, r: int, c: int, k: int)
    requires
        0 <= r < D,
        0 <= c < D,
        0 <= k <= D,
    ensures
        dot(m@, identity_model::<i64>(D as nat), r, c, k) == if c < k {
            m@[r][c]
        } else {
            0
        },
    decreases k,
{
    if k > 0 {
        lemma_dot_identity_right(m, r, c, k - 1);
        lemma_i64_units(m@[r][k - 1]);
        lemma_i64_units(m@[r][c]);
    }
}

/// With wrapping 64-bit integers as scalars, the identity is neutral for
/// the matrix product on both sides.
pub proof fn lemma_identity_neutral<const D: usize>(m: Matrix<i64, D>)
    ensures
        product_model(identity_model::<i64>(D as nat), m@) == m@,
        product_model(m@, identity_model::<i64>(D as nat)) == m@,
{
    assert forall|r: int, c: int| 0 <= r < D && 0 <= c < D implies dot(
        identity_model::<i64>(D as nat),
        m@,
        r,
        c,
        D as int,
    ) == m@[r][c] && dot(m@, identity_model::<i64>(D as nat), r, c, D as int) == m@[r][c] by {
        lemma_dot_identity_left(m, r, c, D as int);
        lemma_dot_identity_right(m, r, c, D as int);
    }
    assert(product_model(identity_model::<i64>(D as nat), m@) =~~= m@);
    assert(product_model(m@, identity_model::<i64>(D as nat)) =~~= m@);
}

/// With wrapping 64-bit integers as scalars, the identity of each of the
/// dimensions 2, 3 and 4 has determinant one.
pub proof fn lemma_det_identity()
    ensures
        det2_model(identity_model::<i64>(2)) == 1,
        det3_model(identity_model::<i64>(3)) == 1,
        det4_model(identity_model::<i64>(4)) == 1,
{
    lemma_i64_units(0);
    lemma_i64_units(1);
    let id4 = identity_model::<i64>(4);
    assert(minor_model(id4, 0, 0) =~~= identity_model::<i64>(3));
    assert(cofactor_model(id4, 0, 0) == 1);
    lemma_i64_units(cofactor_model(id4, 0, 1));
    lemma_i64_units(cofactor_model(id4, 0, 2));
    lemma_i64_units(cofactor_model(id4, 0, 3));
    assert(expansion(id4, 0) == 0);
    assert(id4[0][0] == 1);
    assert(expansion(id4, 1) == 1);
    assert(expansion(id4, 2) == 1);
    assert(expansion(id4, 3) == 1);
    assert(expansion(id4, 4) == 1);
}

/// With wrapping 64-bit integers as scalars, a 2-by-2 matrix whose two rows
/// are equal has determinant zero.
pub proof fn lemma_repeated_row_det2(m: Matrix<i64, 2>)
    requires
        m@[0] == m@[1],
    ensures
        det2_model(m@) == 0,
{
    lemma_mul_is_commutative(m@[0][0] as int, m@[0][1] as int);
}

/// With wrapping 64-bit integers as scalars, a 3-by-3 matrix with two equal
/// rows has determinant zero.
pub proof fn lemma_repeated_row_det3(m: Matrix<i64, 3>, r1: int, r2: int)
    requires
        0 <= r1 < 3,
        0 <= r2 < 3,
        r1 != r2,
        m@[r1] == m@[r2],
    ensures
        det3_model(m@) == 0,
{
    lemma_det3(m@);
    if r1 < r2 {
        lemma_sarrus_repeated(m@, r1, r2);
    } else {
        lemma_sarrus_repeated(m@, r2, r1);
    }
    lemma_congruent_zero(det3_model(m@));
}

/// With wrapping 64-bit integers as scalars, a 4-by-4 matrix with two equal
/// rows has determinant zero and is not invertible.
///
/// By the contract of `inverse`, which returns `Ok` exactly when
/// `invertible_model` holds, its inverse is `Err(NotInvertible)`.
pub proof fn lemma_repeated_row_det4(m: Matrix<i64, 4>, r1: int, r2: int)
    requires
        0 <= r1 < 4,
        0 <= r2 < 4,
        r1 != r2,
        m@[r1] == m@[r2],
    ensures
        det4_model(m@) == 0,
        !invertible_model(m@),
{
    m.lemma_square();
    lemma_expansion(m@, 4);
    if r1 < r2 {
        lemma_expansion_exact_repeated(m@, r1, r2);
    } else {
        lemma_expansion_exact_repeated(m@, r2, r1);
    }
    lemma_congruent_zero(det4_model(m@));
}

} // verus!
