//! Translation, scaling and rotation in homogeneous coordinates: 3-by-3
//! matrices for the plane and 4-by-4 matrices for space. Vectors are
//! columns, and a transform acts on one by multiplication from the left.
use vstd::prelude::*;
use crate::common::{Scalar, Trig};
use crate::matrix::{identity_model, Matrix};

verus! {

/// `m` with `v` at `row`, `col`.
pub open spec fn with_entry<T>(m: Seq<Seq<T>>, row: int, col: int, v: T) -> Seq<Seq<T>> {
    m.update(row, m[row].update(col, v))
}

/// The identity of dimension `n` with `d[i]` at position `i`, `i` of the
/// diagonal for each `i < d.len()`.
pub open spec fn scale_model<T: Scalar>(n: nat, d: Seq<T>) -> Seq<Seq<T>> {
    Seq::new(
        n,
        |r: int|
            Seq::new(
                n,
                |c: int|
                    if r == c && r < d.len() {
                        d[r]
                    } else {
                        identity_model::<T>(n)[r][c]
                    },
            ),
    )
}

/// The identity of dimension `n` with `t[i]` at row `i` of the last column
/// for each `i < t.len()`.
pub open spec fn translate_model<T: Scalar>(n: nat, t: Seq<T>) -> Seq<Seq<T>> {
    Seq::new(
        n,
        |r: int|
            Seq::new(
                n,
                |c: int|
                    if c == n - 1 && r < t.len() {
                        t[r]
                    } else {
                        identity_model::<T>(n)[r][c]
                    },
            ),
    )
}

/// The identity of dimension `n` turned in the plane of axes `i` and `j`,
/// counter-clockwise from `i` toward `j`, by the angle whose cosine is `c`
/// and whose sine is `s`.
pub open spec fn rotation_model<T: Scalar>(n: nat, i: int, j: int, c: T, s: T) -> Seq<Seq<T>> {
    with_entry(
        with_entry(
            with_entry(with_entry(identity_model::<T>(n), i, i, c), i, j, T::negate_spec(s)),
            j,
            i,
            s,
        ),
        j,
        j,
        c,
    )
}

impl<T: Scalar> Matrix<T, 3> {
    /// Translation of the plane by `tx`, `ty`.
    pub fn translate(tx: T, ty: T) -> (r: Self)
        ensures
            r@ == translate_model(3, seq![tx, ty]),
    {
        let mut trans = Self::identity();
        trans.set(0, 2, tx);
        trans.set(1, 2, ty);
        assert(trans@ =~~= translate_model(3, seq![tx, ty]));
        trans
    }

    /// Scaling of the plane by `sx` along x and `sy` along y.
    pub fn scale(sx: T, sy: T) -> (r: Self)
        ensures
            r@ == scale_model(3, seq![sx, sy]),
    {
        let mut scale = Self::identity();
        scale.set(0, 0, sx);
        scale.set(1, 1, sy);
        assert(scale@ =~~= scale_model(3, seq![sx, sy]));
        scale
    }
}

impl<T: Trig> Matrix<T, 3> {
    /// Counter-clockwise rotation of the plane by `angle`: cosine at 0, 0
    /// and 1, 1, minus sine at 0, 1, sine at 1, 0.
    pub fn rotate(angle: T) -> (r: Self)
        ensures
            r@ == rotation_model(3, 0, 1, T::cos_spec(angle), T::sin_spec(angle)),
    {
        Self::rotation(0, 1, angle.cos(), angle.sin())
    }
}

impl<T: Scalar> Matrix<T, 4> {
    /// Translation of space by `x`, `y`, `z`.
    pub fn translate(x: T, y: T, z: T) -> (r: Self)
        ensures
            r@ == translate_model(4, seq![x, y, z]),
    {
        let mut trans = Self::identity();
        trans.set(0, 3, x);
        trans.set(1, 3, y);
        trans.set(2, 3, z);
        assert(trans@ =~~= translate_model(4, seq![x, y, z]));
        trans
    }

    /// Scaling of space by `x`, `y`, `z` along the three axes.
    pub fn scale(x: T, y: T, z: T) -> (r: Self)
        ensures
            r@ == scale_model(4, seq![x, y, z]),
    {
        let mut scale = Self::identity();
        scale.set(0, 0, x);
        scale.set(1, 1, y);
        scale.set(2, 2, z);
        assert(scale@ =~~= scale_model(4, seq![x, y, z]));
        scale
    }
}

impl<T: Trig> Matrix<T, 4> {
    /// Right-handed rotation about the x axis by `angle`: cosine at 1, 1
    /// and 2, 2, minus sine at 1, 2, sine at 2, 1.
    pub fn rotate_x(angle: T) -> (r: Self)
        ensures
            r@ == rotation_model(4, 1, 2, T::cos_spec(angle), T::sin_spec(angle)),
    {
        Self::rotation(1, 2, angle.cos(), angle.sin())
    }

    /// Right-handed rotation about the y axis by `angle`: cosine at 0, 0
    /// and 2, 2, sine at 0, 2, minus sine at 2, 0.
    pub fn rotate_y(angle: T) -> (r: Self)
        ensures
            r@ == rotation_model(4, 2, 0, T::cos_spec(angle), T::sin_spec(angle)),
    {
        Self::rotation(2, 0, angle.cos(), angle.sin())
    }

    /// Right-handed rotation about the z axis by `angle`: cosine at 0, 0
    /// and 1, 1, minus sine at 0, 1, sine at 1, 0.
    pub fn rotate_z(angle: T) -> (r: Self)
        ensures
            r@ == rotation_model(4, 0, 1, T::cos_spec(angle), T::sin_spec(angle)),
    {
        Self::rotation(0, 1, angle.cos(), angle.sin())
    }
}

impl<T: Scalar, const D: usize> Matrix<T, D> {
    /// The identity turned in the plane of axes `i` and `j` by the angle
    /// with cosine `cos` and sine `sin`.
    pub fn rotation(i: usize, j: usize, cos: T, sin: T) -> (r: Self)
        requires
            i < D,
            j < D,
            i != j,
        ensures
            r@ == rotation_model(D as nat, i as int, j as int, cos, sin),
    {
        let mut rotation = Self::identity();
        rotation.set(i, i, cos);
        rotation.set(i, j, sin.negate());
        rotation.set(j, i, sin);
        rotation.set(j, j, cos);
        rotation
    }
}

} // verus!
