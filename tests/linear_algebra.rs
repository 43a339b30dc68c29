use gfx_math::common::{Determinant, Dimension4, FuzzyEq, Scalar, Trig};
use gfx_math::determinant::MatrixError;
use gfx_math::matrix::Matrix;
use gfx_math::vector::Vector;

const EPSILON: f32 = 1e-5;

/// Single-precision scalar used to exercise the library with floats.
#[derive(Clone, Copy, Debug)]
struct F(f32);

impl FuzzyEq for F {
    fn fuzzy_eq_spec(&self, other: &F) -> bool {
        self.fuzzy_eq(other)
    }
    fn fuzzy_eq(&self, other: &F) -> bool {
        (self.0 - other.0).abs() <= EPSILON
    }
}

impl Scalar for F {
    fn zero_spec() -> F {
        F::zero()
    }
    fn one_spec() -> F {
        F::one()
    }
    fn plus_spec(a: F, b: F) -> F {
        a.plus(b)
    }
    fn minus_spec(a: F, b: F) -> F {
        a.minus(b)
    }
    fn times_spec(a: F, b: F) -> F {
        a.times(b)
    }
    fn divide_spec(a: F, b: F) -> F {
        a.divide(b)
    }
    fn negate_spec(a: F) -> F {
        a.negate()
    }
    fn zero() -> F {
        F(0.0)
    }
    fn one() -> F {
        F(1.0)
    }
    fn plus(self, b: F) -> F {
        F(self.0 + b.0)
    }
    fn minus(self, b: F) -> F {
        F(self.0 - b.0)
    }
    fn times(self, b: F) -> F {
        F(self.0 * b.0)
    }
    fn divide(self, b: F) -> F {
        F(self.0 / b.0)
    }
    fn negate(self) -> F {
        F(-self.0)
    }
}

impl Trig for F {
    fn cos_spec(a: F) -> F {
        a.cos()
    }
    fn sin_spec(a: F) -> F {
        a.sin()
    }
    fn cos(self) -> F {
        F(self.0.cos())
    }
    fn sin(self) -> F {
        F(self.0.sin())
    }
}

fn fm<const D: usize>(rows: [[f32; D]; D]) -> Matrix<F, D> {
    let mut m: Matrix<F, D> = Matrix::new();
    for r in 0..D {
        for c in 0..D {
            m.set(r, c, F(rows[r][c]));
        }
    }
    m
}

fn im<const D: usize>(rows: [[i64; D]; D]) -> Matrix<i64, D> {
    Matrix { data: rows }
}

fn sample4() -> Matrix<i64, 4> {
    im([[1, 0, 2, -1], [3, 0, 0, 5], [2, 1, 4, -3], [1, 0, 5, 0]])
}

#[test]
fn identity_is_neutral_for_each_dimension() {
    let m2 = im([[3, -1], [4, 7]]);
    assert_eq!(Matrix::<i64, 2>::identity().multiply(&m2).data, m2.data);
    assert_eq!(m2.multiply(&Matrix::identity()).data, m2.data);
    let m3 = im([[1, 2, 3], [0, 1, 4], [5, 6, 0]]);
    assert_eq!(Matrix::<i64, 3>::identity().multiply(&m3).data, m3.data);
    assert_eq!(m3.multiply(&Matrix::identity()).data, m3.data);
    let m4 = sample4();
    assert_eq!(Matrix::<i64, 4>::identity().multiply(&m4).data, m4.data);
    assert_eq!(m4.multiply(&Matrix::identity()).data, m4.data);
}

#[test]
fn identity_is_neutral_with_floats() {
    let m = fm([[0.5, -1.25, 3.0, 2.0], [1.0, 0.0, -2.5, 4.0], [7.0, 1.5, 0.25, -3.0], [0.0, 2.0, 1.0, 1.0]]);
    assert!(Matrix::<F, 4>::identity().multiply(&m).fuzzy_eq(&m));
    assert!(m.multiply(&Matrix::identity()).fuzzy_eq(&m));
    assert!(Matrix::<F, 4>::identity().multiply(&m) == m);
}

#[test]
fn transpose_swaps_and_is_involutive() {
    let m = im([[1, 2, 3], [4, 5, 6], [7, 8, 9]]);
    let t = m.transpose();
    assert_eq!(t.data, [[1, 4, 7], [2, 5, 8], [3, 6, 9]]);
    assert_eq!(t.transpose().data, m.data);
    assert_eq!(m.data, [[1, 2, 3], [4, 5, 6], [7, 8, 9]]);
}

#[test]
fn det_of_identity_is_one() {
    assert_eq!(Matrix::<i64, 2>::identity().det(), 1);
    assert_eq!(Matrix::<i64, 3>::identity().det(), 1);
    assert_eq!(Matrix::<i64, 4>::identity().det(), 1);
    assert!(Matrix::<F, 2>::identity().det().fuzzy_eq(&F(1.0)));
    assert!(Matrix::<F, 3>::identity().det().fuzzy_eq(&F(1.0)));
    assert!(Matrix::<F, 4>::identity().det().fuzzy_eq(&F(1.0)));
}

#[test]
fn det_of_known_matrices() {
    assert_eq!(im([[3, 8], [4, 6]]).det(), -14);
    assert_eq!(im([[1, 2, 3], [0, 1, 4], [5, 6, 0]]).det(), 1);
    assert_eq!(im([[6, 1, 1], [4, -2, 5], [2, 8, 7]]).det(), -306);
    assert_eq!(sample4().det(), 30);
    assert!(fm([[1.0, 0.0, 2.0, -1.0], [3.0, 0.0, 0.0, 5.0], [2.0, 1.0, 4.0, -3.0], [1.0, 0.0, 5.0, 0.0]])
        .det()
        .fuzzy_eq(&F(30.0)));
}

#[test]
fn repeated_rows_give_zero_det_and_no_inverse() {
    assert_eq!(im([[2, 5], [2, 5]]).det(), 0);
    assert_eq!(im([[1, 2, 3], [4, 5, 6], [1, 2, 3]]).det(), 0);
    let m = im([[1, 2, 3, 4], [5, 6, 7, 8], [1, 2, 3, 4], [9, 1, 2, 3]]);
    assert_eq!(m.det(), 0);
    assert!(!m.is_invertible());
    assert_eq!(m.inverse().err(), Some(MatrixError::NotInvertible));
    let f = fm([[1.5, 2.0, -3.0, 4.0], [1.5, 2.0, -3.0, 4.0], [0.0, 1.0, 2.0, 3.0], [9.0, 1.0, 2.0, 3.0]]);
    assert!(f.det().fuzzy_eq(&F(0.0)));
    assert!(!f.is_invertible());
    assert_eq!(f.inverse().err(), Some(MatrixError::NotInvertible));
}

#[test]
fn minor_deletes_row_and_column() {
    let m = sample4();
    assert_eq!(m.minor(1, 2).data, [[1, 0, -1], [2, 1, -3], [1, 0, 0]]);
    assert_eq!(m.minor(0, 0).data, [[0, 0, 5], [1, 4, -3], [0, 5, 0]]);
    assert_eq!(m.minor(3, 3).data, [[1, 0, 2], [3, 0, 0], [2, 1, 4]]);
}

#[test]
fn cofactor_carries_the_sign() {
    let m = sample4();
    assert_eq!(m.cofactor(1, 0), 5);
    assert_eq!(m.cofactor(1, 1), 3);
    assert_eq!(m.cofactor(1, 2), -1);
    assert_eq!(m.cofactor(1, 3), 3);
}

#[test]
fn inverse_of_unimodular_matrix_is_exact() {
    let u = im([[1, 2, 0, 1], [0, 1, 3, 0], [0, 0, 1, 4], [0, 0, 0, 1]]);
    let inv = u.inverse().unwrap();
    assert_eq!(inv.data, [[1, -2, 6, -25], [0, 1, -3, 12], [0, 0, 1, -4], [0, 0, 0, 1]]);
    assert_eq!(u.multiply(&inv).data, Matrix::<i64, 4>::identity().data);
}

#[test]
fn inverse_with_floats() {
    let m = fm([[2.0, 0.0, 0.0, 1.0], [0.0, 1.0, 0.0, 2.0], [1.0, 0.0, 1.0, 0.0], [0.0, 0.0, 0.0, 4.0]]);
    assert!(m.is_invertible());
    let inv = m.inverse().unwrap();
    let expected = fm([[0.5, 0.0, 0.0, -0.125], [0.0, 1.0, 0.0, -0.5], [-0.5, 0.0, 1.0, 0.125], [0.0, 0.0, 0.0, 0.25]]);
    assert!(inv.fuzzy_eq(&expected));
    assert!(m.multiply(&inv).fuzzy_eq(&Matrix::identity()));
    assert!(inv.multiply(&m).fuzzy_eq(&Matrix::identity()));
}

#[test]
fn inverse_of_scale() {
    let m = Matrix::<F, 4>::scale(F(2.0), F(2.0), F(2.0));
    let inv = m.inverse().unwrap();
    assert!(inv.fuzzy_eq(&Matrix::<F, 4>::scale(F(0.5), F(0.5), F(0.5))));
    assert!(m.multiply(&inv).fuzzy_eq(&Matrix::identity()));
}

#[test]
fn rotate_z_zero_and_half_turn() {
    assert!(Matrix::<F, 4>::rotate_z(F(0.0)).fuzzy_eq(&Matrix::identity()));
    let p = Vector::new(F(1.0), F(0.0), F(0.0), F(1.0));
    let q = Matrix::<F, 4>::rotate_z(F(std::f32::consts::PI)).apply(&p);
    assert!(q.fuzzy_eq(&Vector::new(F(-1.0), F(0.0), F(0.0), F(1.0))));
    assert!(q.get_x().fuzzy_eq(&F(-1.0)));
    assert!(q.get_w().fuzzy_eq(&F(1.0)));
}

#[test]
fn rotate_x_and_y_quarter_turns() {
    let half_pi = F(std::f32::consts::FRAC_PI_2);
    let y = Vector::new(F(0.0), F(1.0), F(0.0), F(1.0));
    let about_x = Matrix::<F, 4>::rotate_x(half_pi).apply(&y);
    assert!(about_x.fuzzy_eq(&Vector::new(F(0.0), F(0.0), F(1.0), F(1.0))));
    let z = Vector::new(F(0.0), F(0.0), F(1.0), F(1.0));
    let about_y = Matrix::<F, 4>::rotate_y(half_pi).apply(&z);
    assert!(about_y.fuzzy_eq(&Vector::new(F(1.0), F(0.0), F(0.0), F(1.0))));
    let x = Vector::new(F(1.0), F(0.0), F(0.0), F(1.0));
    let about_z = Matrix::<F, 4>::rotate_z(half_pi).apply(&x);
    assert!(about_z.fuzzy_eq(&Vector::new(F(0.0), F(1.0), F(0.0), F(1.0))));
}

#[test]
fn translate_then_opposite_is_identity() {
    let t = Matrix::<F, 4>::translate(F(1.0), F(2.0), F(3.0));
    let back = Matrix::<F, 4>::translate(F(-1.0), F(-2.0), F(-3.0));
    assert!(t.multiply(&back).fuzzy_eq(&Matrix::identity()));
    let ti = Matrix::<i64, 4>::translate(1, 2, 3).multiply(&Matrix::<i64, 4>::translate(-1, -2, -3));
    assert_eq!(ti.data, Matrix::<i64, 4>::identity().data);
}

#[test]
fn translate_and_scale_layouts_in_space() {
    assert_eq!(
        Matrix::<i64, 4>::translate(4, 5, 6).data,
        [[1, 0, 0, 4], [0, 1, 0, 5], [0, 0, 1, 6], [0, 0, 0, 1]]
    );
    assert_eq!(
        Matrix::<i64, 4>::scale(4, 5, 6).data,
        [[4, 0, 0, 0], [0, 5, 0, 0], [0, 0, 6, 0], [0, 0, 0, 1]]
    );
}

#[test]
fn plane_transforms() {
    assert_eq!(Matrix::<i64, 3>::translate(4, 5).data, [[1, 0, 4], [0, 1, 5], [0, 0, 1]]);
    assert_eq!(Matrix::<i64, 3>::scale(4, 5).data, [[4, 0, 0], [0, 5, 0], [0, 0, 1]]);
    let p: Vector<i64, 3> = Vector { data: [2, 3, 1] };
    assert_eq!(Matrix::<i64, 3>::translate(4, 5).apply(&p).data, [6, 8, 1]);
    assert_eq!(Matrix::<i64, 3>::scale(4, 5).apply(&p).data, [8, 15, 1]);
    let r = Matrix::<F, 3>::rotate(F(std::f32::consts::FRAC_PI_2));
    let expected = fm([[0.0, -1.0, 0.0], [1.0, 0.0, 0.0], [0.0, 0.0, 1.0]]);
    assert!(r.fuzzy_eq(&expected));
}

#[test]
fn product_is_computed_not_an_operand() {
    let a = im([[1, 2], [3, 4]]);
    let b = im([[5, 6], [7, 8]]);
    let p = a.multiply(&b);
    assert_eq!(p.data, [[19, 22], [43, 50]]);
    assert_ne!(p.data, a.data);
    assert_ne!(p.data, b.data);
    assert_eq!(a.data, [[1, 2], [3, 4]]);
    assert_eq!(b.data, [[5, 6], [7, 8]]);
    let fa = fm([[1.0, 2.0], [3.0, 4.0]]);
    let fb = fm([[5.0, 6.0], [7.0, 8.0]]);
    let fp = fa.multiply(&fb);
    assert!(fp.fuzzy_eq(&fm([[19.0, 22.0], [43.0, 50.0]])));
    assert!(!fp.fuzzy_eq(&fa));
}

#[test]
fn zero_diagonal_and_default() {
    assert_eq!(Matrix::<i64, 3>::new().data, [[0; 3]; 3]);
    assert_eq!(Matrix::<i64, 3>::default().data, [[0; 3]; 3]);
    assert_eq!(Matrix::<i64, 2>::diagonal(7).data, [[7, 0], [0, 7]]);
    assert_eq!(Matrix::<i64, 3>::identity().data, [[1, 0, 0], [0, 1, 0], [0, 0, 1]]);
}

#[test]
fn entry_access() {
    let mut m = Matrix::<i64, 2>::new();
    m.set(0, 1, 9);
    assert_eq!(m.at(0, 1), 9);
    assert_eq!(m.at(1, 0), 0);
}

#[test]
fn fuzzy_equality_of_matrices() {
    let a = fm([[1.0, 2.0], [3.0, 4.0]]);
    let near = fm([[1.0, 2.0], [3.0, 4.000001]]);
    let far = fm([[1.0, 2.0], [3.0, 4.01]]);
    assert!(a.fuzzy_eq(&near));
    assert!(!a.fuzzy_eq(&far));
    assert!(a == near);
    assert!(a != far);
    assert!(im([[1, 2], [3, 4]]).fuzzy_eq(&im([[1, 2], [3, 4]])));
    assert!(!im([[1, 2], [3, 4]]).fuzzy_eq(&im([[1, 2], [3, 5]])));
}

#[test]
fn vector_components() {
    let v: Vector<i64, 4> = Vector::new(1, 2, 3, 4);
    assert_eq!((v.get_x(), v.get_y(), v.get_z(), v.get_w()), (1, 2, 3, 4));
    assert_eq!(v.at(2), 3);
    let mut w = v;
    w.set(0, 10);
    assert_eq!(w.data, [10, 2, 3, 4]);
    assert_eq!(Vector::<i64, 3>::zero().data, [0, 0, 0]);
    assert_eq!(Vector::<i64, 3>::default().data, [0, 0, 0]);
    assert!(v.fuzzy_eq(&Vector::new(1, 2, 3, 4)));
    assert!(!v.fuzzy_eq(&w));
    assert!(Vector::new(F(1.0), F(2.0), F(3.0), F(4.0)) == Vector::new(F(1.0), F(2.0), F(3.0), F(4.000001)));
}

#[test]
fn integer_scalar_wraps() {
    assert_eq!(i64::MAX.plus(1), i64::MIN);
    assert_eq!(i64::MIN.minus(1), i64::MAX);
    assert_eq!(i64::MIN.negate(), i64::MIN);
    assert_eq!((-7i64).divide(2), -3);
    assert_eq!(i64::MIN.divide(-1), i64::MIN);
    let big = im([[i64::MAX, 0], [0, 1]]);
    assert_eq!(big.multiply(&im([[2, 0], [0, 1]])).data, [[-2, 0], [0, 1]]);
}
