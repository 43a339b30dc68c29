//! Wrapping 64-bit arithmetic agrees with exact integer arithmetic modulo
//! 2^64; determinants computed with wrapping operations are therefore
//! congruent to the exact ones.
use vstd::prelude::*;
use vstd::arithmetic::div_mod::lemma_fundamental_div_mod;
use vstd::arithmetic::mul::{
    lemma_mul_is_associative,
    lemma_mul_is_commutative,
    lemma_mul_is_distributive_add_other_way,
    lemma_mul_is_distributive_sub,
    lemma_mul_is_distributive_sub_other_way,
};
use crate::common::Scalar;
use crate::determinant::{cofactor_model, det3_model, expansion, minor_model};

verus! {

pub open spec fn scaled(k: int) -> int {
    k * 0x1_0000_0000_0000_0000
}

/// `x` and `v` differ by a multiple of 2^64.
pub open spec fn congruent(x: int, v: int) -> bool {
    exists|k: int| x - v == #[trigger] scaled(k)
}

pub proof fn lemma_congruent_refl(x: int)
    ensures
        congruent(x, x),
{
    assert(x - x == scaled(0));
}

/// A 64-bit value congruent to zero is zero.
pub proof fn lemma_congruent_zero(x: i64)
    requires
        congruent(x as int, 0),
    ensures
        x == 0,
{
    let k = choose|k: int| x as int - 0 == #[trigger] scaled(k);
    assert(k == 0);
}

pub proof fn lemma_plus(a: i64, b: i64, u: int, v: int)
    requires
        congruent(a as int, u),
        congruent(b as int, v),
    ensures
        congruent(i64::plus_spec(a, b) as int, u + v),
{
    let k1 = choose|k: int| a as int - u == #[trigger] scaled(k);
    let k2 = choose|k: int| b as int - v == #[trigger] scaled(k);
    let s = i64::plus_spec(a, b) as int;
    if a + b > i64::MAX {
        assert(s - (u + v) == scaled(k1 + k2 - 1));
    } else if a + b < i64::MIN {
        assert(s - (u + v) == scaled(k1 + k2 + 1));
    } else {
        assert(s - (u + v) == scaled(k1 + k2));
    }
}

pub proof fn lemma_minus(a: i64, b: i64, u: int, v: int)
    requires
        congruent(a as int, u),
        congruent(b as int, v),
    ensures
        congruent(i64::minus_spec(a, b) as int, u - v),
{
    let k1 = choose|k: int| a as int - u == #[trigger] scaled(k);
    let k2 = choose|k: int| b as int - v == #[trigger] scaled(k);
    let s = i64::minus_spec(a, b) as int;
    if a - b > i64::MAX {
        assert(s - (u - v) == scaled(k1 - k2 - 1));
    } else if a - b < i64::MIN {
        assert(s - (u - v) == scaled(k1 - k2 + 1));
    } else {
        assert(s - (u - v) == scaled(k1 - k2));
    }
}

pub proof fn lemma_negate(a: i64, u: int)
    requires
        congruent(a as int, u),
    ensures
        congruent(i64::negate_spec(a) as int, -u),
{
    lemma_congruent_refl(0);
    lemma_minus(0, a, 0, u);
}

pub proof fn lemma_times(a: i64, b: i64, u: int, v: int)
    requires
        congruent(a as int, u),
        congruent(b as int, v),
    ensures
        congruent(i64::times_spec(a, b) as int, u * v),
{
    let m: int = 0x1_0000_0000_0000_0000;
    let k1 = choose|k: int| a as int - u == #[trigger] scaled(k);
    let k2 = choose|k: int| b as int - v == #[trigger] scaled(k);
    let p = a as int * b as int;
    lemma_fundamental_div_mod(p, m);
    let s = i64::times_spec(a, b) as int;
    let q = p / m;
    let kc: int = if p % m > i64::MAX { -q - 1 } else { -q };
    assert(s - p == scaled(kc));
    let kp = u * k2 + k1 * (b as int);
    assert(p - u * v == kp * m) by (nonlinear_arith)
        requires
            a as int - u == k1 * m,
            b as int - v == k2 * m,
            p == a as int * b as int,
            kp == u * k2 + k1 * (b as int),
    ;
    assert(s - u * v == scaled(kc + kp));
}

/// The rule of Sarrus in exact integer arithmetic.
pub open spec fn det3_exact(m: Seq<Seq<i64>>) -> int {
    (m[0][0] as int) * (m[1][1] as int) * (m[2][2] as int) + (m[0][1] as int) * (m[1][2] as int) * (
    m[2][0] as int) + (m[0][2] as int) * (m[1][0] as int) * (m[2][1] as int) - (m[0][2] as int) * (
    m[1][1] as int) * (m[2][0] as int) - (m[0][1] as int) * (m[1][0] as int) * (m[2][2] as int) - (
    m[0][0] as int) * (m[1][2] as int) * (m[2][1] as int)
}

pub open spec fn cofactor_exact(m: Seq<Seq<i64>>, row: int, col: int) -> int {
    if (row + col) % 2 == 0 {
        det3_exact(minor_model(m, row, col))
    } else {
        -det3_exact(minor_model(m, row, col))
    }
}

pub open spec fn expansion_exact(m: Seq<Seq<i64>>, n: int) -> int
    decreases n,
{
    if n <= 0 {
        0
    } else {
        expansion_exact(m, n - 1) + cofactor_exact(m, 0, n - 1) * (m[0][n - 1] as int)
    }
}

proof fn lemma_times3(a: i64, b: i64, c: i64)
    ensures
        congruent(
            i64::times_spec(i64::times_spec(a, b), c) as int,
            (a as int) * (b as int) * (c as int),
        ),
{
    lemma_congruent_refl(a as int);
    lemma_congruent_refl(b as int);
    lemma_congruent_refl(c as int);
    lemma_times(a, b, a as int, b as int);
    lemma_times(i64::times_spec(a, b), c, (a as int) * (b as int), c as int);
}

pub proof fn lemma_det3(m: Seq<Seq<i64>>)
    ensures
        congruent(det3_model(m) as int, det3_exact(m)),
{
    let t0 = crate::determinant::times3(m[0][0], m[1][1], m[2][2]);
    let t1 = crate::determinant::times3(m[0][1], m[1][2], m[2][0]);
    let t2 = crate::determinant::times3(m[0][2], m[1][0], m[2][1]);
    let t3 = crate::determinant::times3(m[0][2], m[1][1], m[2][0]);
    let t4 = crate::determinant::times3(m[0][1], m[1][0], m[2][2]);
    let t5 = crate::determinant::times3(m[0][0], m[1][2], m[2][1]);
    let e0 = (m[0][0] as int) * (m[1][1] as int) * (m[2][2] as int);
    let e1 = (m[0][1] as int) * (m[1][2] as int) * (m[2][0] as int);
    let e2 = (m[0][2] as int) * (m[1][0] as int) * (m[2][1] as int);
    let e3 = (m[0][2] as int) * (m[1][1] as int) * (m[2][0] as int);
    let e4 = (m[0][1] as int) * (m[1][0] as int) * (m[2][2] as int);
    let e5 = (m[0][0] as int) * (m[1][2] as int) * (m[2][1] as int);
    lemma_times3(m[0][0], m[1][1], m[2][2]);
    lemma_times3(m[0][1], m[1][2], m[2][0]);
    lemma_times3(m[0][2], m[1][0], m[2][1]);
    lemma_times3(m[0][2], m[1][1], m[2][0]);
    lemma_times3(m[0][1], m[1][0], m[2][2]);
    lemma_times3(m[0][0], m[1][2], m[2][1]);
    lemma_plus(t0, t1, e0, e1);
    let s1 = i64::plus_spec(t0, t1);
    lemma_plus(s1, t2, e0 + e1, e2);
    let s2 = i64::plus_spec(s1, t2);
    lemma_minus(s2, t3, e0 + e1 + e2, e3);
    let s3 = i64::minus_spec(s2, t3);
    lemma_minus(s3, t4, e0 + e1 + e2 - e3, e4);
    let s4 = i64::minus_spec(s3, t4);
    lemma_minus(s4, t5, e0 + e1 + e2 - e3 - e4, e5);
}

pub proof fn lemma_expansion(m: Seq<Seq<i64>>, n: int)
    ensures
        congruent(expansion(m, n) as int, expansion_exact(m, n)),
    decreases n,
{
    if n <= 0 {
        lemma_congruent_refl(0);
    } else {
        lemma_expansion(m, n - 1);
        let mi = minor_model(m, 0, n - 1);
        lemma_det3(mi);
        let cof = cofactor_model(m, 0, n - 1);
        if (n - 1) % 2 != 0 {
            lemma_negate(det3_model(mi), det3_exact(mi));
        }
        lemma_congruent_refl(m[0][n - 1] as int);
        lemma_times(cof, m[0][n - 1], cofactor_exact(m, 0, n - 1), m[0][n - 1] as int);
        lemma_plus(
            expansion(m, n - 1),
            i64::times_spec(cof, m[0][n - 1]),
            expansion_exact(m, n - 1),
            cofactor_exact(m, 0, n - 1) * (m[0][n - 1] as int),
        );
    }
}

/// The rule of Sarrus on the rows `(a, b, c)`, `(d, e, f)`, `(g, h, i)`.
pub open spec fn sarrus(a: int, b: int, c: int, d: int, e: int, f: int, g: int, h: int, i: int) -> int {
    a * e * i + b * f * g + c * d * h - c * e * g - b * d * i - a * f * h
}

pub proof fn lemma_sarrus_repeated(m: Seq<Seq<i64>>, r1: int, r2: int)
    requires
        0 <= r1 < r2 < 3,
        m.len() == 3,
        m[r1] == m[r2],
    ensures
        det3_exact(m) == 0,
{
    let (a, b, c) = (m[0][0] as int, m[0][1] as int, m[0][2] as int);
    let (d, e, f) = (m[1][0] as int, m[1][1] as int, m[1][2] as int);
    let (g, h, i) = (m[2][0] as int, m[2][1] as int, m[2][2] as int);
    assert(det3_exact(m) == sarrus(a, b, c, d, e, f, g, h, i));
    if r1 == 0 && r2 == 1 {
        assert(sarrus(a, b, c, a, b, c, g, h, i) == 0) by (nonlinear_arith);
    } else if r1 == 0 {
        assert(sarrus(a, b, c, d, e, f, a, b, c) == 0) by (nonlinear_arith);
    } else {
        assert(sarrus(a, b, c, d, e, f, d, e, f) == 0) by (nonlinear_arith);
    }
}

/// Cofactor expansion along the first row `(a, b, c, d)` of the rows
/// that follow it.
pub open spec fn laplace(
    a: int,
    b: int,
    c: int,
    d: int,
    e: int,
    f: int,
    g: int,
    h: int,
    i: int,
    j: int,
    k: int,
    l: int,
    m: int,
    n: int,
    o: int,
    p: int,
) -> int {
    sarrus(f, g, h, j, k, l, n, o, p) * a - sarrus(e, g, h, i, k, l, m, o, p) * b + sarrus(
        e,
        f,
        h,
        i,
        j,
        l,
        m,
        n,
        p,
    ) * c - sarrus(e, f, g, i, j, k, m, n, o) * d
}

/// `x * (y * z - u * v)` as a difference of two triple products.
proof fn lemma_distribute(x: int, y: int, z: int, u: int, v: int)
    ensures
        x * (y * z - u * v) == x * y * z - x * u * v,
        x * y * z == y * z * x,
        x * u * v == u * v * x,
{
    lemma_mul_is_distributive_sub(x, y * z, u * v);
    lemma_mul_is_associative(x, y, z);
    lemma_mul_is_associative(x, u, v);
    lemma_mul_is_commutative(x, y * z);
    lemma_mul_is_commutative(x, u * v);
}

/// The rule of Sarrus expanded along each of its three rows.
proof fn lemma_sarrus_rows(a: int, b: int, c: int, d: int, e: int, f: int, g: int, h: int, i: int)
    ensures
        sarrus(a, b, c, d, e, f, g, h, i) == a * (e * i - f * h) - b * (d * i - f * g) + c * (d * h
            - e * g),
        sarrus(a, b, c, d, e, f, g, h, i) == -(d * (b * i - c * h)) + e * (a * i - c * g) - f * (a
            * h - b * g),
        sarrus(a, b, c, d, e, f, g, h, i) == g * (b * f - c * e) - h * (a * f - c * d) + i * (a * e
            - b * d),
{
    lemma_distribute(a, e, i, f, h);
    lemma_distribute(b, d, i, f, g);
    lemma_distribute(c, d, h, e, g);
    lemma_distribute(d, b, i, c, h);
    lemma_distribute(e, a, i, c, g);
    lemma_distribute(f, a, h, b, g);
    lemma_distribute(g, b, f, c, e);
    lemma_distribute(h, a, f, c, d);
    lemma_distribute(i, a, e, b, d);
}

/// `(x - y + z) * w` term by term.
proof fn lemma_distribute3(x: int, y: int, z: int, w: int)
    ensures
        (x - y + z) * w == x * w - y * w + z * w,
{
    lemma_mul_is_distributive_add_other_way(w, x - y, z);
    lemma_mul_is_distributive_sub_other_way(w, x, y);
}

/// `(x * t) * y == (y * t) * x`.
proof fn lemma_swap(x: int, y: int, t: int)
    ensures
        (x * t) * y == (y * t) * x,
{
    lemma_mul_is_associative(x, t, y);
    lemma_mul_is_associative(y, t, x);
    lemma_mul_is_commutative(t, y);
    lemma_mul_is_commutative(t, x);
    lemma_mul_is_associative(x, y, t);
    lemma_mul_is_associative(y, x, t);
    lemma_mul_is_commutative(x, y);
}

/// The terms of a 4-by-4 cofactor expansion along a row, each minor
/// expanded in turn along a copy of that row, cancel in pairs.
proof fn lemma_cancel(
    a: int,
    b: int,
    c: int,
    d: int,
    d01: int,
    d02: int,
    d03: int,
    d12: int,
    d13: int,
    d23: int,
)
    ensures
        (b * d23 - c * d13 + d * d12) * a - (a * d23 - c * d03 + d * d02) * b + (a * d13 - b * d03
            + d * d01) * c - (a * d12 - b * d02 + c * d01) * d == 0,
{
    lemma_distribute3(b * d23, c * d13, d * d12, a);
    lemma_distribute3(a * d23, c * d03, d * d02, b);
    lemma_distribute3(a * d13, b * d03, d * d01, c);
    lemma_distribute3(a * d12, b * d02, c * d01, d);
    lemma_swap(b, a, d23);
    lemma_swap(c, a, d13);
    lemma_swap(d, a, d12);
    lemma_swap(c, b, d03);
    lemma_swap(d, b, d02);
    lemma_swap(d, c, d01);
}

pub proof fn lemma_expansion_exact_repeated(m: Seq<Seq<i64>>, r1: int, r2: int)
    requires
        0 <= r1 < r2 < 4,
        crate::matrix::is_square(m, 4),
        m[r1] == m[r2],
    ensures
        expansion_exact(m, 4) == 0,
{
    assert(expansion_exact(m, 0) == 0);
    if r1 > 0 {
        assert forall|c: int| 0 <= c < 4 implies det3_exact(#[trigger] minor_model(m, 0, c)) == 0 by {
            let mi = minor_model(m, 0, c);
            assert(mi[r1 - 1] =~= mi[r2 - 1]);
            lemma_sarrus_repeated(mi, r1 - 1, r2 - 1);
        }
        assert(cofactor_exact(m, 0, 0) == 0);
        assert(cofactor_exact(m, 0, 1) == 0);
        assert(cofactor_exact(m, 0, 2) == 0);
        assert(cofactor_exact(m, 0, 3) == 0);
        assert(expansion_exact(m, 1) == 0);
        assert(expansion_exact(m, 2) == 0);
        assert(expansion_exact(m, 3) == 0);
    } else {
        let (a, b, c, d) = (m[0][0] as int, m[0][1] as int, m[0][2] as int, m[0][3] as int);
        let (e, f, g, h) = (m[1][0] as int, m[1][1] as int, m[1][2] as int, m[1][3] as int);
        let (i, j, k, l) = (m[2][0] as int, m[2][1] as int, m[2][2] as int, m[2][3] as int);
        let (mm, n, o, p) = (m[3][0] as int, m[3][1] as int, m[3][2] as int, m[3][3] as int);
        let s0 = sarrus(f, g, h, j, k, l, n, o, p);
        let s1 = sarrus(e, g, h, i, k, l, mm, o, p);
        let s2 = sarrus(e, f, h, i, j, l, mm, n, p);
        let s3 = sarrus(e, f, g, i, j, k, mm, n, o);
        assert((-s1) * b == -(s1 * b)) by (nonlinear_arith);
        assert((-s3) * d == -(s3 * d)) by (nonlinear_arith);
        assert(expansion_exact(m, 1) == s0 * a);
        assert(expansion_exact(m, 2) == s0 * a - s1 * b);
        assert(expansion_exact(m, 3) == s0 * a - s1 * b + s2 * c);
        assert(expansion_exact(m, 4) == s0 * a - s1 * b + s2 * c - s3 * d);
        lemma_sarrus_rows(f, g, h, j, k, l, n, o, p);
        lemma_sarrus_rows(e, g, h, i, k, l, mm, o, p);
        lemma_sarrus_rows(e, f, h, i, j, l, mm, n, p);
        lemma_sarrus_rows(e, f, g, i, j, k, mm, n, o);
        if r2 == 1 {
            assert(e == a && f == b && g == c && h == d);
            lemma_cancel(
                a,
                b,
                c,
                d,
                i * n - j * mm,
                i * o - k * mm,
                i * p - l * mm,
                j * o - k * n,
                j * p - l * n,
                k * p - l * o,
            );
        } else if r2 == 2 {
            assert(i == a && j == b && k == c && l == d);
            lemma_cancel(
                a,
                b,
                c,
                d,
                e * n - f * mm,
                e * o - g * mm,
                e * p - h * mm,
                f * o - g * n,
                f * p - h * n,
                g * p - h * o,
            );
            assert(s0 * a - s1 * b + s2 * c - s3 * d == 0) by (nonlinear_arith)
                requires
                    s0 == -(b * (g * p - h * o) - c * (f * p - h * n) + d * (f * o - g * n)),
                    s1 == -(a * (g * p - h * o) - c * (e * p - h * mm) + d * (e * o - g * mm)),
                    s2 == -(a * (f * p - h * n) - b * (e * p - h * mm) + d * (e * n - f * mm)),
                    s3 == -(a * (f * o - g * n) - b * (e * o - g * mm) + c * (e * n - f * mm)),
                    (b * (g * p - h * o) - c * (f * p - h * n) + d * (f * o - g * n)) * a - (a * (g
                        * p - h * o) - c * (e * p - h * mm) + d * (e * o - g * mm)) * b + (a * (f
                        * p - h * n) - b * (e * p - h * mm) + d * (e * n - f * mm)) * c - (a * (f
                        * o - g * n) - b * (e * o - g * mm) + c * (e * n - f * mm)) * d == 0,
            ;
        } else {
            assert(mm == a && n == b && o == c && p == d);
            lemma_cancel(
                a,
                b,
                c,
                d,
                e * j - f * i,
                e * k - g * i,
                e * l - h * i,
                f * k - g * j,
                f * l - h * j,
                g * l - h * k,
            );
        }
    }
}

} // verus!
