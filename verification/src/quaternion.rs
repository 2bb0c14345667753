//! Quaternions: orientation without gimbal lock.
//!
//! A quaternion is four fixed-point scalars `(r, i, j, k)`. A unit quaternion
//! stands for a 3-D rotation; repeated Hamilton products drift away from unit
//! norm by rounding, so [`Quaternion::normalise`] is applied before every
//! conversion to a rotation matrix.

use vstd::prelude::*;
use vstd::arithmetic::div_mod::lemma_div_by_multiple;
use crate::fixed::{
    absi, div_trunc, fmul, fmul_val, is_sqrt_floor, isqrt, lemma_abs_mul_le, lemma_fmul_val_comm,
    lemma_fmul_val_err, lemma_fmul_val_neg_right, lemma_sq_close, lemma_sqrt_floor_exists,
    lemma_tdiv_mag_le, lemma_tdiv_sandwich, sqrt_floor, tdiv, FX_LIMIT, SCALE,
};
use crate::matrix::{lemma_fmul_val_mag, mat_bounded, Matrix};

verus! {

/// The mathematical model of a quaternion: four unbounded integers, each a
/// fixed-point scalar (the real component is `r / SCALE`, and so on).
pub ghost struct Quat {
    pub r: int,
    pub i: int,
    pub j: int,
    pub k: int,
}

/// Every component of `q` has magnitude at most `c`.
pub open spec fn q_bounded(q: Quat, c: int) -> bool {
    absi(q.r) <= c && absi(q.i) <= c && absi(q.j) <= c && absi(q.k) <= c
}

/// The squared norm (in squared scale units: a unit quaternion has
/// `norm_sq` close to `SCALE * SCALE`).
pub open spec fn norm_sq(q: Quat) -> int {
    q.r * q.r + q.i * q.i + q.j * q.j + q.k * q.k
}

/// The exact Hamilton product, before any rescaling: components carry two
/// scale factors.
pub open spec fn quat_mul_exact(a: Quat, b: Quat) -> Quat {
    Quat {
        r: a.r * b.r - a.i * b.i - a.j * b.j - a.k * b.k,
        i: a.r * b.i + a.i * b.r + a.j * b.k - a.k * b.j,
        j: a.r * b.j + a.j * b.r + a.k * b.i - a.i * b.k,
        k: a.r * b.k + a.k * b.r + a.i * b.j - a.j * b.i,
    }
}

/// The fixed-point Hamilton product, each term rescaled with truncation:
/// exactly what the executable product computes.
pub open spec fn quat_mul_fixed(a: Quat, b: Quat) -> Quat {
    Quat {
        r: fmul_val(a.r, b.r) - fmul_val(a.i, b.i) - fmul_val(a.j, b.j) - fmul_val(a.k, b.k),
        i: fmul_val(a.r, b.i) + fmul_val(a.i, b.r) + fmul_val(a.j, b.k) - fmul_val(a.k, b.j),
        j: fmul_val(a.r, b.j) + fmul_val(a.j, b.r) + fmul_val(a.k, b.i) - fmul_val(a.i, b.k),
        k: fmul_val(a.r, b.k) + fmul_val(a.k, b.r) + fmul_val(a.i, b.j) - fmul_val(a.j, b.i),
    }
}

/// The conjugate: imaginary components negated. For a unit quaternion this
/// is the inverse rotation.
pub open spec fn quat_conj(q: Quat) -> Quat {
    Quat { r: q.r, i: -q.i, j: -q.j, k: -q.k }
}

/// The normalised quaternion: every component divided (with truncation) by
/// the integer square root of the squared norm, restoring one scale factor.
pub open spec fn quat_normalised(q: Quat) -> Quat {
    let s = sqrt_floor(norm_sq(q));
    Quat {
        r: tdiv(q.r * (SCALE as int), s),
        i: tdiv(q.i * (SCALE as int), s),
        j: tdiv(q.j * (SCALE as int), s),
        k: tdiv(q.k * (SCALE as int), s),
    }
}

/// Entry `(r, c)` of the rotation matrix of `q` (meaningful for a unit
/// quaternion): the standard quaternion-to-rotation formula, embedded in the
/// top-left of a 4x4 identity-affine matrix.
pub open spec fn rot_entry(q: Quat, r: int, c: int) -> int {
    if r == 0 && c == 0 {
        SCALE as int - 2 * fmul_val(q.j, q.j) - 2 * fmul_val(q.k, q.k)
    } else if r == 0 && c == 1 {
        2 * (fmul_val(q.i, q.j) - fmul_val(q.k, q.r))
    } else if r == 0 && c == 2 {
        2 * (fmul_val(q.k, q.i) + fmul_val(q.j, q.r))
    } else if r == 1 && c == 0 {
        2 * (fmul_val(q.i, q.j) + fmul_val(q.k, q.r))
    } else if r == 1 && c == 1 {
        SCALE as int - 2 * fmul_val(q.k, q.k) - 2 * fmul_val(q.i, q.i)
    } else if r == 1 && c == 2 {
        2 * (fmul_val(q.j, q.k) - fmul_val(q.i, q.r))
    } else if r == 2 && c == 0 {
        2 * (fmul_val(q.k, q.i) - fmul_val(q.j, q.r))
    } else if r == 2 && c == 1 {
        2 * (fmul_val(q.j, q.k) + fmul_val(q.i, q.r))
    } else if r == 2 && c == 2 {
        SCALE as int - 2 * fmul_val(q.i, q.i) - 2 * fmul_val(q.j, q.j)
    } else if r == 3 && c == 3 {
        SCALE as int
    } else {
        0
    }
}

/// A quaternion: four fixed-point scalars.
#[derive(Clone, Copy)]
pub struct Quaternion {
    pub r: i128,
    pub i: i128,
    pub j: i128,
    pub k: i128,
}

impl View for Quaternion {
    type V = Quat;

    open spec fn view(&self) -> Quat {
        Quat { r: self.r as int, i: self.i as int, j: self.j as int, k: self.k as int }
    }
}

impl Quaternion {
    /// A quaternion from its four components. No normalisation is performed:
    /// the caller is responsible for unit norm where the value is meant to
    /// stand for a rotation.
    pub fn new(in_r: i128, in_i: i128, in_j: i128, in_k: i128) -> (out: Quaternion)
        ensures
            out@ == (Quat { r: in_r as int, i: in_i as int, j: in_j as int, k: in_k as int }),
    {
        Quaternion { r: in_r, i: in_i, j: in_j, k: in_k }
    }

    /// The real component.
    pub fn r(&self) -> (out: i128)
        ensures
            out as int == self@.r,
    {
        self.r
    }

    /// The first imaginary component.
    pub fn i(&self) -> (out: i128)
        ensures
            out as int == self@.i,
    {
        self.i
    }

    /// The second imaginary component.
    pub fn j(&self) -> (out: i128)
        ensures
            out as int == self@.j,
    {
        self.j
    }

    /// The third imaginary component.
    pub fn k(&self) -> (out: i128)
        ensures
            out as int == self@.k,
    {
        self.k
    }

    /// The Hamilton product `self * other` (non-commutative).
    pub fn multiply(&self, other: &Quaternion) -> (out: Quaternion)
        requires
            q_bounded(self@, FX_LIMIT as int),
            q_bounded(other@, FX_LIMIT as int),
        ensures
            out@ == quat_mul_fixed(self@, other@),
    {
        Quaternion {
            r: fmul(self.r, other.r) - fmul(self.i, other.i) - fmul(self.j, other.j) - fmul(
                self.k,
                other.k,
            ),
            i: fmul(self.r, other.i) + fmul(self.i, other.r) + fmul(self.j, other.k) - fmul(
                self.k,
                other.j,
            ),
            j: fmul(self.r, other.j) + fmul(self.j, other.r) + fmul(self.k, other.i) - fmul(
                self.i,
                other.k,
            ),
            k: fmul(self.r, other.k) + fmul(self.k, other.r) + fmul(self.i, other.j) - fmul(
                self.j,
                other.i,
            ),
        }
    }

    /// Replaces `self` with `self * other`: the step `other` applied in the
    /// body frame.
    pub fn right_multiply(&mut self, in_other: &Quaternion)
        requires
            q_bounded(old(self)@, FX_LIMIT as int),
            q_bounded(in_other@, FX_LIMIT as int),
        ensures
            final(self)@ == quat_mul_fixed(old(self)@, in_other@),
    {
        let prod = self.multiply(in_other);
        *self = prod;
    }

    /// Replaces `self` with `other * self`: the step `other` applied in the
    /// world frame, the composition every camera command uses.
    pub fn left_multiply(&mut self, in_other: &Quaternion)
        requires
            q_bounded(old(self)@, FX_LIMIT as int),
            q_bounded(in_other@, FX_LIMIT as int),
        ensures
            final(self)@ == quat_mul_fixed(in_other@, old(self)@),
    {
        let prod = in_other.multiply(self);
        *self = prod;
    }

    /// Negates the imaginary components in place: the conjugate, which for a
    /// unit quaternion is the inverse rotation.
    pub fn invert(&mut self)
        requires
            q_bounded(old(self)@, FX_LIMIT as int),
        ensures
            final(self)@ == quat_conj(old(self)@),
    {
        self.i = -self.i;
        self.j = -self.j;
        self.k = -self.k;
    }

    /// Divides all four components by the Euclidean norm, restoring unit
    /// norm after rounding drift. The zero quaternion is ruled out by the
    /// precondition; the magnitude bound keeps every square inside `i128`.
    pub fn normalise(&mut self)
        requires
            1 <= norm_sq(old(self)@),
            q_bounded(old(self)@, 1_000_000_000_000_000int),
        ensures
            final(self)@ == quat_normalised(old(self)@),
            q_bounded(final(self)@, SCALE as int),
    {
        proof {
            let q = old(self)@;
            assert(absi(q.r * q.r) <= 1_000_000_000_000_000_000_000_000_000_000int && q.r * q.r
                >= 0 && absi(q.i * q.i) <= 1_000_000_000_000_000_000_000_000_000_000int && q.i
                * q.i >= 0 && absi(q.j * q.j) <= 1_000_000_000_000_000_000_000_000_000_000int
                && q.j * q.j >= 0 && absi(q.k * q.k)
                <= 1_000_000_000_000_000_000_000_000_000_000int && q.k * q.k >= 0)
                by (nonlinear_arith)
                requires
                    absi(q.r) <= 1_000_000_000_000_000int,
                    absi(q.i) <= 1_000_000_000_000_000int,
                    absi(q.j) <= 1_000_000_000_000_000int,
                    absi(q.k) <= 1_000_000_000_000_000int,
            ;
        }
        let n = self.r * self.r + self.i * self.i + self.j * self.j + self.k * self.k;
        let s_wide = isqrt(n as u128);
        proof {
            assert(s_wide as int <= 2_000_000_000_000_000int) by (nonlinear_arith)
                requires
                    (s_wide as int) * (s_wide as int) <= n as int,
                    0 <= s_wide as int,
                    n as int <= 4_000_000_000_000_000_000_000_000_000_000int,
            ;
        }
        let s = s_wide as i128;
        proof {
            let q = old(self)@;
            let nn = norm_sq(q);
            let ss = s as int;
            assert(absi(q.r) <= ss && absi(q.i) <= ss && absi(q.j) <= ss && absi(q.k) <= ss)
                by (nonlinear_arith)
                requires
                    q.r * q.r <= nn,
                    q.i * q.i <= nn,
                    q.j * q.j <= nn,
                    q.k * q.k <= nn,
                    nn == norm_sq(q),
                    q.r * q.r >= 0,
                    q.i * q.i >= 0,
                    q.j * q.j >= 0,
                    q.k * q.k >= 0,
                    is_sqrt_floor(nn, ss),
            ;
            lemma_tdiv_mag_le(q.r * (SCALE as int), ss, ss * (SCALE as int));
            lemma_tdiv_mag_le(q.i * (SCALE as int), ss, ss * (SCALE as int));
            lemma_tdiv_mag_le(q.j * (SCALE as int), ss, ss * (SCALE as int));
            lemma_tdiv_mag_le(q.k * (SCALE as int), ss, ss * (SCALE as int));
            lemma_div_by_multiple(SCALE as int, ss);
            assert(absi(q.r * (SCALE as int)) <= ss * (SCALE as int) && absi(
                q.i * (SCALE as int),
            ) <= ss * (SCALE as int) && absi(q.j * (SCALE as int)) <= ss * (SCALE as int) && absi(
                q.k * (SCALE as int),
            ) <= ss * (SCALE as int)) by (nonlinear_arith)
                requires
                    absi(q.r) <= ss,
                    absi(q.i) <= ss,
                    absi(q.j) <= ss,
                    absi(q.k) <= ss,
                    SCALE as int > 0,
            ;
        }
        self.r = div_trunc(self.r * SCALE, s);
        self.i = div_trunc(self.i * SCALE, s);
        self.j = div_trunc(self.j * SCALE, s);
        self.k = div_trunc(self.k * SCALE, s);
    }

    /// The rotation matrix of a unit quaternion, embedded in a 4x4
    /// identity-affine matrix. The quaternion must already be normalised:
    /// no renormalisation happens here.
    #[verifier::rlimit(30)]
    pub fn rotation_matrix(&self) -> (out: Matrix)
        requires
            q_bounded(self@, SCALE as int),
        ensures
            forall|r: int, c: int|
                0 <= r < 4 && 0 <= c < 4 ==> #[trigger] out.m[r][c] as int == rot_entry(
                    self@,
                    r,
                    c,
                ),
            mat_bounded(out, 5 * (SCALE as int)),
    {
        proof {
            let q = self@;
            let k1 = SCALE as int;
            lemma_fmul_val_mag(q.r, q.r, k1, k1);
            lemma_fmul_val_mag(q.r, q.i, k1, k1);
            lemma_fmul_val_mag(q.r, q.j, k1, k1);
            lemma_fmul_val_mag(q.r, q.k, k1, k1);
            lemma_fmul_val_mag(q.i, q.i, k1, k1);
            lemma_fmul_val_mag(q.i, q.j, k1, k1);
            lemma_fmul_val_mag(q.i, q.k, k1, k1);
            lemma_fmul_val_mag(q.j, q.j, k1, k1);
            lemma_fmul_val_mag(q.j, q.k, k1, k1);
            lemma_fmul_val_mag(q.k, q.k, k1, k1);
            lemma_fmul_val_mag(q.i, q.r, k1, k1);
            lemma_fmul_val_mag(q.j, q.r, k1, k1);
            lemma_fmul_val_mag(q.k, q.r, k1, k1);
            lemma_fmul_val_mag(q.j, q.i, k1, k1);
            lemma_fmul_val_mag(q.k, q.i, k1, k1);
            lemma_fmul_val_mag(q.k, q.j, k1, k1);
        }
        Matrix::new(
            [
                [
                    SCALE - 2 * fmul(self.j, self.j) - 2 * fmul(self.k, self.k),
                    2 * (fmul(self.i, self.j) - fmul(self.k, self.r)),
                    2 * (fmul(self.k, self.i) + fmul(self.j, self.r)),
                    0,
                ],
                [
                    2 * (fmul(self.i, self.j) + fmul(self.k, self.r)),
                    SCALE - 2 * fmul(self.k, self.k) - 2 * fmul(self.i, self.i),
                    2 * (fmul(self.j, self.k) - fmul(self.i, self.r)),
                    0,
                ],
                [
                    2 * (fmul(self.k, self.i) - fmul(self.j, self.r)),
                    2 * (fmul(self.j, self.k) + fmul(self.i, self.r)),
                    SCALE - 2 * fmul(self.i, self.i) - 2 * fmul(self.j, self.j),
                    0,
                ],
                [0, 0, 0, SCALE],
            ],
        )
    }
}

/// Entry `(r, c)` of the exact (unrounded) 3x3 rotation block of `q`,
/// scaled by the squared norm: for a unit quaternion, the rotation matrix
/// without rounding.
pub open spec fn rot3_exact(q: Quat, r: int, c: int) -> int {
    if r == 0 && c == 0 {
        q.r * q.r + q.i * q.i - q.j * q.j - q.k * q.k
    } else if r == 0 && c == 1 {
        2 * (q.i * q.j) - 2 * (q.r * q.k)
    } else if r == 0 && c == 2 {
        2 * (q.i * q.k) + 2 * (q.r * q.j)
    } else if r == 1 && c == 0 {
        2 * (q.i * q.j) + 2 * (q.r * q.k)
    } else if r == 1 && c == 1 {
        q.r * q.r - q.i * q.i + q.j * q.j - q.k * q.k
    } else if r == 1 && c == 2 {
        2 * (q.j * q.k) - 2 * (q.r * q.i)
    } else if r == 2 && c == 0 {
        2 * (q.i * q.k) - 2 * (q.r * q.j)
    } else if r == 2 && c == 1 {
        2 * (q.j * q.k) + 2 * (q.r * q.i)
    } else if r == 2 && c == 2 {
        q.r * q.r - q.i * q.i - q.j * q.j + q.k * q.k
    } else {
        0
    }
}

/// The dot product of columns `c1` and `c2` of the exact rotation block.
pub open spec fn rot_col_dot(q: Quat, c1: int, c2: int) -> int {
    rot3_exact(q, 0, c1) * rot3_exact(q, 0, c2) + rot3_exact(q, 1, c1) * rot3_exact(q, 1, c2)
        + rot3_exact(q, 2, c1) * rot3_exact(q, 2, c2)
}

/// The determinant of the exact 3x3 rotation block, expanded along the
/// first row.
pub open spec fn rot3_det(q: Quat) -> int {
    rot3_exact(q, 0, 0) * (rot3_exact(q, 1, 1) * rot3_exact(q, 2, 2) - rot3_exact(q, 1, 2)
        * rot3_exact(q, 2, 1)) - rot3_exact(q, 0, 1) * (rot3_exact(q, 1, 0) * rot3_exact(q, 2, 2)
        - rot3_exact(q, 1, 2) * rot3_exact(q, 2, 0)) + rot3_exact(q, 0, 2) * (rot3_exact(q, 1, 0)
        * rot3_exact(q, 2, 1) - rot3_exact(q, 1, 1) * rot3_exact(q, 2, 0))
}

/// Orthogonality of the rotation matrix, on the exact model: for any
/// quaternion, the transpose of the exact 3x3 block times the block itself
/// is the squared norm squared times the identity. For a unit quaternion
/// this is orthogonality with determinant-preserving scale.
pub proof fn lemma_rot_exact_orthogonal(q: Quat)
    ensures
        forall|c1: int, c2: int|
            0 <= c1 < 3 && 0 <= c2 < 3 ==> #[trigger] rot_col_dot(q, c1, c2) == if c1 == c2 {
                norm_sq(q) * norm_sq(q)
            } else {
                0
            },
{
    let trr = q.r * q.r;
    let tri = q.r * q.i;
    let trj = q.r * q.j;
    let trk = q.r * q.k;
    let tii = q.i * q.i;
    let tij = q.i * q.j;
    let tik = q.i * q.k;
    let tjj = q.j * q.j;
    let tjk = q.j * q.k;
    let tkk = q.k * q.k;
    assert(tij * tij == tii * tjj) by (nonlinear_arith)
        requires
            tij == q.i * q.j,
            tii == q.i * q.i,
            tjj == q.j * q.j,
    ;
    assert(tij * tik == tii * tjk) by (nonlinear_arith)
        requires
            tjk == q.j * q.k,
            tik == q.i * q.k,
            tij == q.i * q.j,
            tii == q.i * q.i,
    ;
    assert(tik * tik == tii * tkk) by (nonlinear_arith)
        requires
            tkk == q.k * q.k,
            tik == q.i * q.k,
            tii == q.i * q.i,
    ;
    assert(tik * tjj == tij * tjk) by (nonlinear_arith)
        requires
            tjk == q.j * q.k,
            tij == q.i * q.j,
            tik == q.i * q.k,
            tjj == q.j * q.j,
    ;
    assert(tik * tjk == tij * tkk) by (nonlinear_arith)
        requires
            tjk == q.j * q.k,
            tkk == q.k * q.k,
            tij == q.i * q.j,
            tik == q.i * q.k,
    ;
    assert(tjk * tjk == tjj * tkk) by (nonlinear_arith)
        requires
            tjk == q.j * q.k,
            tkk == q.k * q.k,
            tjj == q.j * q.j,
    ;
    assert(tri * tri == trr * tii) by (nonlinear_arith)
        requires
            trr == q.r * q.r,
            tii == q.i * q.i,
            tri == q.r * q.i,
    ;
    assert(tri * trj == trr * tij) by (nonlinear_arith)
        requires
            trj == q.r * q.j,
            tij == q.i * q.j,
            trr == q.r * q.r,
            tri == q.r * q.i,
    ;
    assert(tri * trk == trr * tik) by (nonlinear_arith)
        requires
            tik == q.i * q.k,
            trr == q.r * q.r,
            tri == q.r * q.i,
            trk == q.r * q.k,
    ;
    assert(trj * tii == tri * tij) by (nonlinear_arith)
        requires
            trj == q.r * q.j,
            tij == q.i * q.j,
            tii == q.i * q.i,
            tri == q.r * q.i,
    ;
    assert(trj * tij == tri * tjj) by (nonlinear_arith)
        requires
            trj == q.r * q.j,
            tij == q.i * q.j,
            tjj == q.j * q.j,
            tri == q.r * q.i,
    ;
    assert(trj * tik == tri * tjk) by (nonlinear_arith)
        requires
            tjk == q.j * q.k,
            trj == q.r * q.j,
            tik == q.i * q.k,
            tri == q.r * q.i,
    ;
    assert(trj * trj == trr * tjj) by (nonlinear_arith)
        requires
            trj == q.r * q.j,
            trr == q.r * q.r,
            tjj == q.j * q.j,
    ;
    assert(trj * trk == trr * tjk) by (nonlinear_arith)
        requires
            tjk == q.j * q.k,
            trj == q.r * q.j,
            trr == q.r * q.r,
            trk == q.r * q.k,
    ;
    assert(trk * tii == tri * tik) by (nonlinear_arith)
        requires
            tik == q.i * q.k,
            tii == q.i * q.i,
            tri == q.r * q.i,
            trk == q.r * q.k,
    ;
    assert(trk * tij == tri * tjk) by (nonlinear_arith)
        requires
            tjk == q.j * q.k,
            tij == q.i * q.j,
            tri == q.r * q.i,
            trk == q.r * q.k,
    ;
    assert(trk * tik == tri * tkk) by (nonlinear_arith)
        requires
            tkk == q.k * q.k,
            tik == q.i * q.k,
            tri == q.r * q.i,
            trk == q.r * q.k,
    ;
    assert(trk * tjj == trj * tjk) by (nonlinear_arith)
        requires
            tjk == q.j * q.k,
            trj == q.r * q.j,
            tjj == q.j * q.j,
            trk == q.r * q.k,
    ;
    assert(trk * tjk == trj * tkk) by (nonlinear_arith)
        requires
            tjk == q.j * q.k,
            trj == q.r * q.j,
            tkk == q.k * q.k,
            trk == q.r * q.k,
    ;
    assert(trk * trk == trr * tkk) by (nonlinear_arith)
        requires
            tkk == q.k * q.k,
            trr == q.r * q.r,
            trk == q.r * q.k,
    ;
    assert((trr + tii - tjj - tkk) * (trr + tii - tjj - tkk) == (trr * trr) + (trr * tii) - (trr * tjj) - (trr * tkk) + (trr * tii) + (tii * tii) - (tii * tjj) - (tii * tkk) - (trr * tjj) - (tii * tjj) + (tjj * tjj) + (tjj * tkk) - (trr * tkk) - (tii * tkk) + (tjj * tkk) + (tkk * tkk)) by (nonlinear_arith);
    assert((2 * tij + 2 * trk) * (2 * tij + 2 * trk) == 4 * (tij * tij) + 4 * (trk * tij) + 4 * (trk * tij) + 4 * (trk * trk)) by (nonlinear_arith);
    assert((2 * tik - 2 * trj) * (2 * tik - 2 * trj) == 4 * (tik * tik) - 4 * (trj * tik) - 4 * (trj * tik) + 4 * (trj * trj)) by (nonlinear_arith);
    assert((trr + tii - tjj - tkk) * (2 * tij - 2 * trk) == 2 * (trr * tij) - 2 * (trr * trk) + 2 * (tii * tij) - 2 * (trk * tii) - 2 * (tij * tjj) + 2 * (trk * tjj) - 2 * (tij * tkk) + 2 * (trk * tkk)) by (nonlinear_arith);
    assert((2 * tij + 2 * trk) * (trr - tii + tjj - tkk) == 2 * (trr * tij) - 2 * (tii * tij) + 2 * (tij * tjj) - 2 * (tij * tkk) + 2 * (trr * trk) - 2 * (trk * tii) + 2 * (trk * tjj) - 2 * (trk * tkk)) by (nonlinear_arith);
    assert((2 * tik - 2 * trj) * (2 * tjk + 2 * tri) == 4 * (tik * tjk) + 4 * (tri * tik) - 4 * (trj * tjk) - 4 * (tri * trj)) by (nonlinear_arith);
    assert((trr + tii - tjj - tkk) * (2 * tik + 2 * trj) == 2 * (trr * tik) + 2 * (trr * trj) + 2 * (tii * tik) + 2 * (trj * tii) - 2 * (tik * tjj) - 2 * (trj * tjj) - 2 * (tik * tkk) - 2 * (trj * tkk)) by (nonlinear_arith);
    assert((2 * tij + 2 * trk) * (2 * tjk - 2 * tri) == 4 * (tij * tjk) - 4 * (tri * tij) + 4 * (trk * tjk) - 4 * (tri * trk)) by (nonlinear_arith);
    assert((2 * tik - 2 * trj) * (trr - tii - tjj + tkk) == 2 * (trr * tik) - 2 * (tii * tik) - 2 * (tik * tjj) + 2 * (tik * tkk) - 2 * (trr * trj) + 2 * (trj * tii) + 2 * (trj * tjj) - 2 * (trj * tkk)) by (nonlinear_arith);
    assert((2 * tij - 2 * trk) * (trr + tii - tjj - tkk) == 2 * (trr * tij) + 2 * (tii * tij) - 2 * (tij * tjj) - 2 * (tij * tkk) - 2 * (trr * trk) - 2 * (trk * tii) + 2 * (trk * tjj) + 2 * (trk * tkk)) by (nonlinear_arith);
    assert((trr - tii + tjj - tkk) * (2 * tij + 2 * trk) == 2 * (trr * tij) + 2 * (trr * trk) - 2 * (tii * tij) - 2 * (trk * tii) + 2 * (tij * tjj) + 2 * (trk * tjj) - 2 * (tij * tkk) - 2 * (trk * tkk)) by (nonlinear_arith);
    assert((2 * tjk + 2 * tri) * (2 * tik - 2 * trj) == 4 * (tik * tjk) - 4 * (trj * tjk) + 4 * (tri * tik) - 4 * (tri * trj)) by (nonlinear_arith);
    assert((2 * tij - 2 * trk) * (2 * tij - 2 * trk) == 4 * (tij * tij) - 4 * (trk * tij) - 4 * (trk * tij) + 4 * (trk * trk)) by (nonlinear_arith);
    assert((trr - tii + tjj - tkk) * (trr - tii + tjj - tkk) == (trr * trr) - (trr * tii) + (trr * tjj) - (trr * tkk) - (trr * tii) + (tii * tii) - (tii * tjj) + (tii * tkk) + (trr * tjj) - (tii * tjj) + (tjj * tjj) - (tjj * tkk) - (trr * tkk) + (tii * tkk) - (tjj * tkk) + (tkk * tkk)) by (nonlinear_arith);
    assert((2 * tjk + 2 * tri) * (2 * tjk + 2 * tri) == 4 * (tjk * tjk) + 4 * (tri * tjk) + 4 * (tri * tjk) + 4 * (tri * tri)) by (nonlinear_arith);
    assert((2 * tij - 2 * trk) * (2 * tik + 2 * trj) == 4 * (tij * tik) + 4 * (trj * tij) - 4 * (trk * tik) - 4 * (trj * trk)) by (nonlinear_arith);
    assert((trr - tii + tjj - tkk) * (2 * tjk - 2 * tri) == 2 * (trr * tjk) - 2 * (trr * tri) - 2 * (tii * tjk) + 2 * (tri * tii) + 2 * (tjj * tjk) - 2 * (tri * tjj) - 2 * (tjk * tkk) + 2 * (tri * tkk)) by (nonlinear_arith);
    assert((2 * tjk + 2 * tri) * (trr - tii - tjj + tkk) == 2 * (trr * tjk) - 2 * (tii * tjk) - 2 * (tjj * tjk) + 2 * (tjk * tkk) + 2 * (trr * tri) - 2 * (tri * tii) - 2 * (tri * tjj) + 2 * (tri * tkk)) by (nonlinear_arith);
    assert((2 * tik + 2 * trj) * (trr + tii - tjj - tkk) == 2 * (trr * tik) + 2 * (tii * tik) - 2 * (tik * tjj) - 2 * (tik * tkk) + 2 * (trr * trj) + 2 * (trj * tii) - 2 * (trj * tjj) - 2 * (trj * tkk)) by (nonlinear_arith);
    assert((2 * tjk - 2 * tri) * (2 * tij + 2 * trk) == 4 * (tij * tjk) + 4 * (trk * tjk) - 4 * (tri * tij) - 4 * (tri * trk)) by (nonlinear_arith);
    assert((trr - tii - tjj + tkk) * (2 * tik - 2 * trj) == 2 * (trr * tik) - 2 * (trr * trj) - 2 * (tii * tik) + 2 * (trj * tii) - 2 * (tik * tjj) + 2 * (trj * tjj) + 2 * (tik * tkk) - 2 * (trj * tkk)) by (nonlinear_arith);
    assert((2 * tik + 2 * trj) * (2 * tij - 2 * trk) == 4 * (tij * tik) - 4 * (trk * tik) + 4 * (trj * tij) - 4 * (trj * trk)) by (nonlinear_arith);
    assert((2 * tjk - 2 * tri) * (trr - tii + tjj - tkk) == 2 * (trr * tjk) - 2 * (tii * tjk) + 2 * (tjj * tjk) - 2 * (tjk * tkk) - 2 * (trr * tri) + 2 * (tri * tii) - 2 * (tri * tjj) + 2 * (tri * tkk)) by (nonlinear_arith);
    assert((trr - tii - tjj + tkk) * (2 * tjk + 2 * tri) == 2 * (trr * tjk) + 2 * (trr * tri) - 2 * (tii * tjk) - 2 * (tri * tii) - 2 * (tjj * tjk) - 2 * (tri * tjj) + 2 * (tjk * tkk) + 2 * (tri * tkk)) by (nonlinear_arith);
    assert((2 * tik + 2 * trj) * (2 * tik + 2 * trj) == 4 * (tik * tik) + 4 * (trj * tik) + 4 * (trj * tik) + 4 * (trj * trj)) by (nonlinear_arith);
    assert((2 * tjk - 2 * tri) * (2 * tjk - 2 * tri) == 4 * (tjk * tjk) - 4 * (tri * tjk) - 4 * (tri * tjk) + 4 * (tri * tri)) by (nonlinear_arith);
    assert((trr - tii - tjj + tkk) * (trr - tii - tjj + tkk) == (trr * trr) - (trr * tii) - (trr * tjj) + (trr * tkk) - (trr * tii) + (tii * tii) + (tii * tjj) - (tii * tkk) - (trr * tjj) + (tii * tjj) + (tjj * tjj) - (tjj * tkk) + (trr * tkk) - (tii * tkk) - (tjj * tkk) + (tkk * tkk)) by (nonlinear_arith);
    assert(norm_sq(q) * norm_sq(q) == (trr * trr) + (trr * tii) + (trr * tjj) + (trr * tkk) + (trr * tii) + (tii * tii) + (tii * tjj) + (tii * tkk) + (trr * tjj) + (tii * tjj) + (tjj * tjj) + (tjj * tkk) + (trr * tkk) + (tii * tkk) + (tjj * tkk) + (tkk * tkk)) by (nonlinear_arith)
        requires
            norm_sq(q) == trr + tii + tjj + tkk,
    ;
    assert forall|c1: int, c2: int| 0 <= c1 < 3 && 0 <= c2 < 3 implies #[trigger] rot_col_dot(
        q,
        c1,
        c2,
    ) == if c1 == c2 {
        norm_sq(q) * norm_sq(q)
    } else {
        0
    } by {}
}

/// Associativity of the exact Hamilton product: every triple product is
/// expanded into the 16 three-factor monomials of each component, which
/// coincide after reassociation.
pub proof fn lemma_quat_mul_assoc(a: Quat, b: Quat, c: Quat)
    ensures
        quat_mul_exact(quat_mul_exact(a, b), c) == quat_mul_exact(a, quat_mul_exact(b, c)),
{
    let p1 = quat_mul_exact(a, b);
    let p2 = quat_mul_exact(b, c);
    vstd::arithmetic::mul::lemma_mul_is_associative(a.r, b.r, c.r);
    vstd::arithmetic::mul::lemma_mul_is_associative(a.r, b.r, c.i);
    vstd::arithmetic::mul::lemma_mul_is_associative(a.r, b.r, c.j);
    vstd::arithmetic::mul::lemma_mul_is_associative(a.r, b.r, c.k);
    vstd::arithmetic::mul::lemma_mul_is_associative(a.r, b.i, c.r);
    vstd::arithmetic::mul::lemma_mul_is_associative(a.r, b.i, c.i);
    vstd::arithmetic::mul::lemma_mul_is_associative(a.r, b.i, c.j);
    vstd::arithmetic::mul::lemma_mul_is_associative(a.r, b.i, c.k);
    vstd::arithmetic::mul::lemma_mul_is_associative(a.r, b.j, c.r);
    vstd::arithmetic::mul::lemma_mul_is_associative(a.r, b.j, c.i);
    vstd::arithmetic::mul::lemma_mul_is_associative(a.r, b.j, c.j);
    vstd::arithmetic::mul::lemma_mul_is_associative(a.r, b.j, c.k);
    vstd::arithmetic::mul::lemma_mul_is_associative(a.r, b.k, c.r);
    vstd::arithmetic::mul::lemma_mul_is_associative(a.r, b.k, c.i);
    vstd::arithmetic::mul::lemma_mul_is_associative(a.r, b.k, c.j);
    vstd::arithmetic::mul::lemma_mul_is_associative(a.r, b.k, c.k);
    vstd::arithmetic::mul::lemma_mul_is_associative(a.i, b.r, c.r);
    vstd::arithmetic::mul::lemma_mul_is_associative(a.i, b.r, c.i);
    vstd::arithmetic::mul::lemma_mul_is_associative(a.i, b.r, c.j);
    vstd::arithmetic::mul::lemma_mul_is_associative(a.i, b.r, c.k);
    vstd::arithmetic::mul::lemma_mul_is_associative(a.i, b.i, c.r);
    vstd::arithmetic::mul::lemma_mul_is_associative(a.i, b.i, c.i);
    vstd::arithmetic::mul::lemma_mul_is_associative(a.i, b.i, c.j);
    vstd::arithmetic::mul::lemma_mul_is_associative(a.i, b.i, c.k);
    vstd::arithmetic::mul::lemma_mul_is_associative(a.i, b.j, c.r);
    vstd::arithmetic::mul::lemma_mul_is_associative(a.i, b.j, c.i);
    vstd::arithmetic::mul::lemma_mul_is_associative(a.i, b.j, c.j);
    vstd::arithmetic::mul::lemma_mul_is_associative(a.i, b.j, c.k);
    vstd::arithmetic::mul::lemma_mul_is_associative(a.i, b.k, c.r);
    vstd::arithmetic::mul::lemma_mul_is_associative(a.i, b.k, c.i);
    vstd::arithmetic::mul::lemma_mul_is_associative(a.i, b.k, c.j);
    vstd::arithmetic::mul::lemma_mul_is_associative(a.i, b.k, c.k);
    vstd::arithmetic::mul::lemma_mul_is_associative(a.j, b.r, c.r);
    vstd::arithmetic::mul::lemma_mul_is_associative(a.j, b.r, c.i);
    vstd::arithmetic::mul::lemma_mul_is_associative(a.j, b.r, c.j);
    vstd::arithmetic::mul::lemma_mul_is_associative(a.j, b.r, c.k);
    vstd::arithmetic::mul::lemma_mul_is_associative(a.j, b.i, c.r);
    vstd::arithmetic::mul::lemma_mul_is_associative(a.j, b.i, c.i);
    vstd::arithmetic::mul::lemma_mul_is_associative(a.j, b.i, c.j);
    vstd::arithmetic::mul::lemma_mul_is_associative(a.j, b.i, c.k);
    vstd::arithmetic::mul::lemma_mul_is_associative(a.j, b.j, c.r);
    vstd::arithmetic::mul::lemma_mul_is_associative(a.j, b.j, c.i);
    vstd::arithmetic::mul::lemma_mul_is_associative(a.j, b.j, c.j);
    vstd::arithmetic::mul::lemma_mul_is_associative(a.j, b.j, c.k);
    vstd::arithmetic::mul::lemma_mul_is_associative(a.j, b.k, c.r);
    vstd::arithmetic::mul::lemma_mul_is_associative(a.j, b.k, c.i);
    vstd::arithmetic::mul::lemma_mul_is_associative(a.j, b.k, c.j);
    vstd::arithmetic::mul::lemma_mul_is_associative(a.j, b.k, c.k);
    vstd::arithmetic::mul::lemma_mul_is_associative(a.k, b.r, c.r);
    vstd::arithmetic::mul::lemma_mul_is_associative(a.k, b.r, c.i);
    vstd::arithmetic::mul::lemma_mul_is_associative(a.k, b.r, c.j);
    vstd::arithmetic::mul::lemma_mul_is_associative(a.k, b.r, c.k);
    vstd::arithmetic::mul::lemma_mul_is_associative(a.k, b.i, c.r);
    vstd::arithmetic::mul::lemma_mul_is_associative(a.k, b.i, c.i);
    vstd::arithmetic::mul::lemma_mul_is_associative(a.k, b.i, c.j);
    vstd::arithmetic::mul::lemma_mul_is_associative(a.k, b.i, c.k);
    vstd::arithmetic::mul::lemma_mul_is_associative(a.k, b.j, c.r);
    vstd::arithmetic::mul::lemma_mul_is_associative(a.k, b.j, c.i);
    vstd::arithmetic::mul::lemma_mul_is_associative(a.k, b.j, c.j);
    vstd::arithmetic::mul::lemma_mul_is_associative(a.k, b.j, c.k);
    vstd::arithmetic::mul::lemma_mul_is_associative(a.k, b.k, c.r);
    vstd::arithmetic::mul::lemma_mul_is_associative(a.k, b.k, c.i);
    vstd::arithmetic::mul::lemma_mul_is_associative(a.k, b.k, c.j);
    vstd::arithmetic::mul::lemma_mul_is_associative(a.k, b.k, c.k);
    assert(p1.r * c.r == (a.r * b.r) * c.r - (a.i * b.i) * c.r - (a.j * b.j) * c.r - (a.k * b.k) * c.r) by (nonlinear_arith)
        requires
            p1.r == a.r * b.r - a.i * b.i - a.j * b.j - a.k * b.k,
    ;
    assert(p1.r * c.i == (a.r * b.r) * c.i - (a.i * b.i) * c.i - (a.j * b.j) * c.i - (a.k * b.k) * c.i) by (nonlinear_arith)
        requires
            p1.r == a.r * b.r - a.i * b.i - a.j * b.j - a.k * b.k,
    ;
    assert(p1.r * c.j == (a.r * b.r) * c.j - (a.i * b.i) * c.j - (a.j * b.j) * c.j - (a.k * b.k) * c.j) by (nonlinear_arith)
        requires
            p1.r == a.r * b.r - a.i * b.i - a.j * b.j - a.k * b.k,
    ;
    assert(p1.r * c.k == (a.r * b.r) * c.k - (a.i * b.i) * c.k - (a.j * b.j) * c.k - (a.k * b.k) * c.k) by (nonlinear_arith)
        requires
            p1.r == a.r * b.r - a.i * b.i - a.j * b.j - a.k * b.k,
    ;
    assert(p1.i * c.r == (a.r * b.i) * c.r + (a.i * b.r) * c.r + (a.j * b.k) * c.r - (a.k * b.j) * c.r) by (nonlinear_arith)
        requires
            p1.i == a.r * b.i + a.i * b.r + a.j * b.k - a.k * b.j,
    ;
    assert(p1.i * c.i == (a.r * b.i) * c.i + (a.i * b.r) * c.i + (a.j * b.k) * c.i - (a.k * b.j) * c.i) by (nonlinear_arith)
        requires
            p1.i == a.r * b.i + a.i * b.r + a.j * b.k - a.k * b.j,
    ;
    assert(p1.i * c.j == (a.r * b.i) * c.j + (a.i * b.r) * c.j + (a.j * b.k) * c.j - (a.k * b.j) * c.j) by (nonlinear_arith)
        requires
            p1.i == a.r * b.i + a.i * b.r + a.j * b.k - a.k * b.j,
    ;
    assert(p1.i * c.k == (a.r * b.i) * c.k + (a.i * b.r) * c.k + (a.j * b.k) * c.k - (a.k * b.j) * c.k) by (nonlinear_arith)
        requires
            p1.i == a.r * b.i + a.i * b.r + a.j * b.k - a.k * b.j,
    ;
    assert(p1.j * c.r == (a.r * b.j) * c.r + (a.j * b.r) * c.r + (a.k * b.i) * c.r - (a.i * b.k) * c.r) by (nonlinear_arith)
        requires
            p1.j == a.r * b.j + a.j * b.r + a.k * b.i - a.i * b.k,
    ;
    assert(p1.j * c.i == (a.r * b.j) * c.i + (a.j * b.r) * c.i + (a.k * b.i) * c.i - (a.i * b.k) * c.i) by (nonlinear_arith)
        requires
            p1.j == a.r * b.j + a.j * b.r + a.k * b.i - a.i * b.k,
    ;
    assert(p1.j * c.j == (a.r * b.j) * c.j + (a.j * b.r) * c.j + (a.k * b.i) * c.j - (a.i * b.k) * c.j) by (nonlinear_arith)
        requires
            p1.j == a.r * b.j + a.j * b.r + a.k * b.i - a.i * b.k,
    ;
    assert(p1.j * c.k == (a.r * b.j) * c.k + (a.j * b.r) * c.k + (a.k * b.i) * c.k - (a.i * b.k) * c.k) by (nonlinear_arith)
        requires
            p1.j == a.r * b.j + a.j * b.r + a.k * b.i - a.i * b.k,
    ;
    assert(p1.k * c.r == (a.r * b.k) * c.r + (a.k * b.r) * c.r + (a.i * b.j) * c.r - (a.j * b.i) * c.r) by (nonlinear_arith)
        requires
            p1.k == a.r * b.k + a.k * b.r + a.i * b.j - a.j * b.i,
    ;
    assert(p1.k * c.i == (a.r * b.k) * c.i + (a.k * b.r) * c.i + (a.i * b.j) * c.i - (a.j * b.i) * c.i) by (nonlinear_arith)
        requires
            p1.k == a.r * b.k + a.k * b.r + a.i * b.j - a.j * b.i,
    ;
    assert(p1.k * c.j == (a.r * b.k) * c.j + (a.k * b.r) * c.j + (a.i * b.j) * c.j - (a.j * b.i) * c.j) by (nonlinear_arith)
        requires
            p1.k == a.r * b.k + a.k * b.r + a.i * b.j - a.j * b.i,
    ;
    assert(p1.k * c.k == (a.r * b.k) * c.k + (a.k * b.r) * c.k + (a.i * b.j) * c.k - (a.j * b.i) * c.k) by (nonlinear_arith)
        requires
            p1.k == a.r * b.k + a.k * b.r + a.i * b.j - a.j * b.i,
    ;
    assert(a.r * p2.r == a.r * (b.r * c.r) - a.r * (b.i * c.i) - a.r * (b.j * c.j) - a.r * (b.k * c.k)) by (nonlinear_arith)
        requires
            p2.r == b.r * c.r - b.i * c.i - b.j * c.j - b.k * c.k,
    ;
    assert(a.r * p2.i == a.r * (b.r * c.i) + a.r * (b.i * c.r) + a.r * (b.j * c.k) - a.r * (b.k * c.j)) by (nonlinear_arith)
        requires
            p2.i == b.r * c.i + b.i * c.r + b.j * c.k - b.k * c.j,
    ;
    assert(a.r * p2.j == a.r * (b.r * c.j) + a.r * (b.j * c.r) + a.r * (b.k * c.i) - a.r * (b.i * c.k)) by (nonlinear_arith)
        requires
            p2.j == b.r * c.j + b.j * c.r + b.k * c.i - b.i * c.k,
    ;
    assert(a.r * p2.k == a.r * (b.r * c.k) + a.r * (b.k * c.r) + a.r * (b.i * c.j) - a.r * (b.j * c.i)) by (nonlinear_arith)
        requires
            p2.k == b.r * c.k + b.k * c.r + b.i * c.j - b.j * c.i,
    ;
    assert(a.i * p2.r == a.i * (b.r * c.r) - a.i * (b.i * c.i) - a.i * (b.j * c.j) - a.i * (b.k * c.k)) by (nonlinear_arith)
        requires
            p2.r == b.r * c.r - b.i * c.i - b.j * c.j - b.k * c.k,
    ;
    assert(a.i * p2.i == a.i * (b.r * c.i) + a.i * (b.i * c.r) + a.i * (b.j * c.k) - a.i * (b.k * c.j)) by (nonlinear_arith)
        requires
            p2.i == b.r * c.i + b.i * c.r + b.j * c.k - b.k * c.j,
    ;
    assert(a.i * p2.j == a.i * (b.r * c.j) + a.i * (b.j * c.r) + a.i * (b.k * c.i) - a.i * (b.i * c.k)) by (nonlinear_arith)
        requires
            p2.j == b.r * c.j + b.j * c.r + b.k * c.i - b.i * c.k,
    ;
    assert(a.i * p2.k == a.i * (b.r * c.k) + a.i * (b.k * c.r) + a.i * (b.i * c.j) - a.i * (b.j * c.i)) by (nonlinear_arith)
        requires
            p2.k == b.r * c.k + b.k * c.r + b.i * c.j - b.j * c.i,
    ;
    assert(a.j * p2.r == a.j * (b.r * c.r) - a.j * (b.i * c.i) - a.j * (b.j * c.j) - a.j * (b.k * c.k)) by (nonlinear_arith)
        requires
            p2.r == b.r * c.r - b.i * c.i - b.j * c.j - b.k * c.k,
    ;
    assert(a.j * p2.i == a.j * (b.r * c.i) + a.j * (b.i * c.r) + a.j * (b.j * c.k) - a.j * (b.k * c.j)) by (nonlinear_arith)
        requires
            p2.i == b.r * c.i + b.i * c.r + b.j * c.k - b.k * c.j,
    ;
    assert(a.j * p2.j == a.j * (b.r * c.j) + a.j * (b.j * c.r) + a.j * (b.k * c.i) - a.j * (b.i * c.k)) by (nonlinear_arith)
        requires
            p2.j == b.r * c.j + b.j * c.r + b.k * c.i - b.i * c.k,
    ;
    assert(a.j * p2.k == a.j * (b.r * c.k) + a.j * (b.k * c.r) + a.j * (b.i * c.j) - a.j * (b.j * c.i)) by (nonlinear_arith)
        requires
            p2.k == b.r * c.k + b.k * c.r + b.i * c.j - b.j * c.i,
    ;
    assert(a.k * p2.r == a.k * (b.r * c.r) - a.k * (b.i * c.i) - a.k * (b.j * c.j) - a.k * (b.k * c.k)) by (nonlinear_arith)
        requires
            p2.r == b.r * c.r - b.i * c.i - b.j * c.j - b.k * c.k,
    ;
    assert(a.k * p2.i == a.k * (b.r * c.i) + a.k * (b.i * c.r) + a.k * (b.j * c.k) - a.k * (b.k * c.j)) by (nonlinear_arith)
        requires
            p2.i == b.r * c.i + b.i * c.r + b.j * c.k - b.k * c.j,
    ;
    assert(a.k * p2.j == a.k * (b.r * c.j) + a.k * (b.j * c.r) + a.k * (b.k * c.i) - a.k * (b.i * c.k)) by (nonlinear_arith)
        requires
            p2.j == b.r * c.j + b.j * c.r + b.k * c.i - b.i * c.k,
    ;
    assert(a.k * p2.k == a.k * (b.r * c.k) + a.k * (b.k * c.r) + a.k * (b.i * c.j) - a.k * (b.j * c.i)) by (nonlinear_arith)
        requires
            p2.k == b.r * c.k + b.k * c.r + b.i * c.j - b.j * c.i,
    ;
}

/// Euler's four-square identity: the exact Hamilton product multiplies
/// squared norms. Each squared component is expanded over products of
/// paired factors of `a` and of `b` alone; the cross terms then cancel.
pub proof fn lemma_norm_sq_mul_exact(a: Quat, b: Quat)
    ensures
        norm_sq(quat_mul_exact(a, b)) == norm_sq(a) * norm_sq(b),
{
    let p = quat_mul_exact(a, b);
    let ur0 = a.r * b.r;
    let ur1 = a.i * b.i;
    let ur2 = a.j * b.j;
    let ur3 = a.k * b.k;
    let ui0 = a.r * b.i;
    let ui1 = a.i * b.r;
    let ui2 = a.j * b.k;
    let ui3 = a.k * b.j;
    let uj0 = a.r * b.j;
    let uj1 = a.j * b.r;
    let uj2 = a.k * b.i;
    let uj3 = a.i * b.k;
    let uk0 = a.r * b.k;
    let uk1 = a.k * b.r;
    let uk2 = a.i * b.j;
    let uk3 = a.j * b.i;
    let aii = a.i * a.i;
    let aij = a.i * a.j;
    let aik = a.i * a.k;
    let ajj = a.j * a.j;
    let ajk = a.j * a.k;
    let akk = a.k * a.k;
    let ari = a.r * a.i;
    let arj = a.r * a.j;
    let ark = a.r * a.k;
    let arr = a.r * a.r;
    let bii = b.i * b.i;
    let bij = b.i * b.j;
    let bik = b.i * b.k;
    let bjj = b.j * b.j;
    let bjk = b.j * b.k;
    let bkk = b.k * b.k;
    let bri = b.r * b.i;
    let brj = b.r * b.j;
    let brk = b.r * b.k;
    let brr = b.r * b.r;
    assert(p.r * p.r == (ur0 * ur0) - 2 * (ur0 * ur1) - 2 * (ur0 * ur2) - 2 * (ur0 * ur3) + (ur1 * ur1) + 2 * (ur1 * ur2) + 2 * (ur1 * ur3) + (ur2 * ur2) + 2 * (ur2 * ur3) + (ur3 * ur3)) by (nonlinear_arith)
        requires
            p.r == ur0 - ur1 - ur2 - ur3,
    ;
    assert(ur0 * ur0 == arr * brr) by (nonlinear_arith)
        requires
            ur0 == a.r * b.r,
            arr == a.r * a.r,
            brr == b.r * b.r,
    ;
    assert(ur0 * ur1 == ari * bri) by (nonlinear_arith)
        requires
            ur0 == a.r * b.r,
            ur1 == a.i * b.i,
            ari == a.r * a.i,
            bri == b.r * b.i,
    ;
    assert(ur0 * ur2 == arj * brj) by (nonlinear_arith)
        requires
            ur0 == a.r * b.r,
            ur2 == a.j * b.j,
            arj == a.r * a.j,
            brj == b.r * b.j,
    ;
    assert(ur0 * ur3 == ark * brk) by (nonlinear_arith)
        requires
            ur0 == a.r * b.r,
            ur3 == a.k * b.k,
            ark == a.r * a.k,
            brk == b.r * b.k,
    ;
    assert(ur1 * ur1 == aii * bii) by (nonlinear_arith)
        requires
            ur1 == a.i * b.i,
            aii == a.i * a.i,
            bii == b.i * b.i,
    ;
    assert(ur1 * ur2 == aij * bij) by (nonlinear_arith)
        requires
            ur1 == a.i * b.i,
            ur2 == a.j * b.j,
            aij == a.i * a.j,
            bij == b.i * b.j,
    ;
    assert(ur1 * ur3 == aik * bik) by (nonlinear_arith)
        requires
            ur1 == a.i * b.i,
            ur3 == a.k * b.k,
            aik == a.i * a.k,
            bik == b.i * b.k,
    ;
    assert(ur2 * ur2 == ajj * bjj) by (nonlinear_arith)
        requires
            ur2 == a.j * b.j,
            ajj == a.j * a.j,
            bjj == b.j * b.j,
    ;
    assert(ur2 * ur3 == ajk * bjk) by (nonlinear_arith)
        requires
            ur2 == a.j * b.j,
            ur3 == a.k * b.k,
            ajk == a.j * a.k,
            bjk == b.j * b.k,
    ;
    assert(ur3 * ur3 == akk * bkk) by (nonlinear_arith)
        requires
            ur3 == a.k * b.k,
            akk == a.k * a.k,
            bkk == b.k * b.k,
    ;
    assert(p.r * p.r == (arr * brr) - 2 * (ari * bri) - 2 * (arj * brj) - 2 * (ark * brk) + (aii * bii) + 2 * (aij * bij) + 2 * (aik * bik) + (ajj * bjj) + 2 * (ajk * bjk) + (akk * bkk));
    assert(p.i * p.i == (ui0 * ui0) + 2 * (ui0 * ui1) + 2 * (ui0 * ui2) - 2 * (ui0 * ui3) + (ui1 * ui1) + 2 * (ui1 * ui2) - 2 * (ui1 * ui3) + (ui2 * ui2) - 2 * (ui2 * ui3) + (ui3 * ui3)) by (nonlinear_arith)
        requires
            p.i == ui0 + ui1 + ui2 - ui3,
    ;
    assert(ui0 * ui0 == arr * bii) by (nonlinear_arith)
        requires
            ui0 == a.r * b.i,
            arr == a.r * a.r,
            bii == b.i * b.i,
    ;
    assert(ui0 * ui1 == ari * bri) by (nonlinear_arith)
        requires
            ui0 == a.r * b.i,
            ui1 == a.i * b.r,
            ari == a.r * a.i,
            bri == b.r * b.i,
    ;
    assert(ui0 * ui2 == arj * bik) by (nonlinear_arith)
        requires
            ui0 == a.r * b.i,
            ui2 == a.j * b.k,
            arj == a.r * a.j,
            bik == b.i * b.k,
    ;
    assert(ui0 * ui3 == ark * bij) by (nonlinear_arith)
        requires
            ui0 == a.r * b.i,
            ui3 == a.k * b.j,
            ark == a.r * a.k,
            bij == b.i * b.j,
    ;
    assert(ui1 * ui1 == aii * brr) by (nonlinear_arith)
        requires
            ui1 == a.i * b.r,
            aii == a.i * a.i,
            brr == b.r * b.r,
    ;
    assert(ui1 * ui2 == aij * brk) by (nonlinear_arith)
        requires
            ui1 == a.i * b.r,
            ui2 == a.j * b.k,
            aij == a.i * a.j,
            brk == b.r * b.k,
    ;
    assert(ui1 * ui3 == aik * brj) by (nonlinear_arith)
        requires
            ui1 == a.i * b.r,
            ui3 == a.k * b.j,
            aik == a.i * a.k,
            brj == b.r * b.j,
    ;
    assert(ui2 * ui2 == ajj * bkk) by (nonlinear_arith)
        requires
            ui2 == a.j * b.k,
            ajj == a.j * a.j,
            bkk == b.k * b.k,
    ;
    assert(ui2 * ui3 == ajk * bjk) by (nonlinear_arith)
        requires
            ui2 == a.j * b.k,
            ui3 == a.k * b.j,
            ajk == a.j * a.k,
            bjk == b.j * b.k,
    ;
    assert(ui3 * ui3 == akk * bjj) by (nonlinear_arith)
        requires
            ui3 == a.k * b.j,
            akk == a.k * a.k,
            bjj == b.j * b.j,
    ;
    assert(p.i * p.i == (arr * bii) + 2 * (ari * bri) + 2 * (arj * bik) - 2 * (ark * bij) + (aii * brr) + 2 * (aij * brk) - 2 * (aik * brj) + (ajj * bkk) - 2 * (ajk * bjk) + (akk * bjj));
    assert(p.j * p.j == (uj0 * uj0) + 2 * (uj0 * uj1) + 2 * (uj0 * uj2) - 2 * (uj0 * uj3) + (uj1 * uj1) + 2 * (uj1 * uj2) - 2 * (uj1 * uj3) + (uj2 * uj2) - 2 * (uj2 * uj3) + (uj3 * uj3)) by (nonlinear_arith)
        requires
            p.j == uj0 + uj1 + uj2 - uj3,
    ;
    assert(uj0 * uj0 == arr * bjj) by (nonlinear_arith)
        requires
            uj0 == a.r * b.j,
            arr == a.r * a.r,
            bjj == b.j * b.j,
    ;
    assert(uj0 * uj1 == arj * brj) by (nonlinear_arith)
        requires
            uj0 == a.r * b.j,
            uj1 == a.j * b.r,
            arj == a.r * a.j,
            brj == b.r * b.j,
    ;
    assert(uj0 * uj2 == ark * bij) by (nonlinear_arith)
        requires
            uj0 == a.r * b.j,
            uj2 == a.k * b.i,
            ark == a.r * a.k,
            bij == b.i * b.j,
    ;
    assert(uj0 * uj3 == ari * bjk) by (nonlinear_arith)
        requires
            uj0 == a.r * b.j,
            uj3 == a.i * b.k,
            ari == a.r * a.i,
            bjk == b.j * b.k,
    ;
    assert(uj1 * uj1 == ajj * brr) by (nonlinear_arith)
        requires
            uj1 == a.j * b.r,
            ajj == a.j * a.j,
            brr == b.r * b.r,
    ;
    assert(uj1 * uj2 == ajk * bri) by (nonlinear_arith)
        requires
            uj1 == a.j * b.r,
            uj2 == a.k * b.i,
            ajk == a.j * a.k,
            bri == b.r * b.i,
    ;
    assert(uj1 * uj3 == aij * brk) by (nonlinear_arith)
        requires
            uj1 == a.j * b.r,
            uj3 == a.i * b.k,
            aij == a.i * a.j,
            brk == b.r * b.k,
    ;
    assert(uj2 * uj2 == akk * bii) by (nonlinear_arith)
        requires
            uj2 == a.k * b.i,
            akk == a.k * a.k,
            bii == b.i * b.i,
    ;
    assert(uj2 * uj3 == aik * bik) by (nonlinear_arith)
        requires
            uj2 == a.k * b.i,
            uj3 == a.i * b.k,
            aik == a.i * a.k,
            bik == b.i * b.k,
    ;
    assert(uj3 * uj3 == aii * bkk) by (nonlinear_arith)
        requires
            uj3 == a.i * b.k,
            aii == a.i * a.i,
            bkk == b.k * b.k,
    ;
    assert(p.j * p.j == (arr * bjj) + 2 * (arj * brj) + 2 * (ark * bij) - 2 * (ari * bjk) + (ajj * brr) + 2 * (ajk * bri) - 2 * (aij * brk) + (akk * bii) - 2 * (aik * bik) + (aii * bkk));
    assert(p.k * p.k == (uk0 * uk0) + 2 * (uk0 * uk1) + 2 * (uk0 * uk2) - 2 * (uk0 * uk3) + (uk1 * uk1) + 2 * (uk1 * uk2) - 2 * (uk1 * uk3) + (uk2 * uk2) - 2 * (uk2 * uk3) + (uk3 * uk3)) by (nonlinear_arith)
        requires
            p.k == uk0 + uk1 + uk2 - uk3,
    ;
    assert(uk0 * uk0 == arr * bkk) by (nonlinear_arith)
        requires
            uk0 == a.r * b.k,
            arr == a.r * a.r,
            bkk == b.k * b.k,
    ;
    assert(uk0 * uk1 == ark * brk) by (nonlinear_arith)
        requires
            uk0 == a.r * b.k,
            uk1 == a.k * b.r,
            ark == a.r * a.k,
            brk == b.r * b.k,
    ;
    assert(uk0 * uk2 == ari * bjk) by (nonlinear_arith)
        requires
            uk0 == a.r * b.k,
            uk2 == a.i * b.j,
            ari == a.r * a.i,
            bjk == b.j * b.k,
    ;
    assert(uk0 * uk3 == arj * bik) by (nonlinear_arith)
        requires
            uk0 == a.r * b.k,
            uk3 == a.j * b.i,
            arj == a.r * a.j,
            bik == b.i * b.k,
    ;
    assert(uk1 * uk1 == akk * brr) by (nonlinear_arith)
        requires
            uk1 == a.k * b.r,
            akk == a.k * a.k,
            brr == b.r * b.r,
    ;
    assert(uk1 * uk2 == aik * brj) by (nonlinear_arith)
        requires
            uk1 == a.k * b.r,
            uk2 == a.i * b.j,
            aik == a.i * a.k,
            brj == b.r * b.j,
    ;
    assert(uk1 * uk3 == ajk * bri) by (nonlinear_arith)
        requires
            uk1 == a.k * b.r,
            uk3 == a.j * b.i,
            ajk == a.j * a.k,
            bri == b.r * b.i,
    ;
    assert(uk2 * uk2 == aii * bjj) by (nonlinear_arith)
        requires
            uk2 == a.i * b.j,
            aii == a.i * a.i,
            bjj == b.j * b.j,
    ;
    assert(uk2 * uk3 == aij * bij) by (nonlinear_arith)
        requires
            uk2 == a.i * b.j,
            uk3 == a.j * b.i,
            aij == a.i * a.j,
            bij == b.i * b.j,
    ;
    assert(uk3 * uk3 == ajj * bii) by (nonlinear_arith)
        requires
            uk3 == a.j * b.i,
            ajj == a.j * a.j,
            bii == b.i * b.i,
    ;
    assert(p.k * p.k == (arr * bkk) + 2 * (ark * brk) + 2 * (ari * bjk) - 2 * (arj * bik) + (akk * brr) + 2 * (aik * brj) - 2 * (ajk * bri) + (aii * bjj) - 2 * (aij * bij) + (ajj * bii));
    let na = norm_sq(a);
    assert(na * norm_sq(b) == na * brr + na * bii + na * bjj + na * bkk) by (nonlinear_arith)
        requires
            norm_sq(b) == brr + bii + bjj + bkk,
    ;
    assert(na * brr == arr * brr + aii * brr + ajj * brr + akk * brr) by (nonlinear_arith)
        requires
            na == arr + aii + ajj + akk,
    ;
    assert(na * bii == arr * bii + aii * bii + ajj * bii + akk * bii) by (nonlinear_arith)
        requires
            na == arr + aii + ajj + akk,
    ;
    assert(na * bjj == arr * bjj + aii * bjj + ajj * bjj + akk * bjj) by (nonlinear_arith)
        requires
            na == arr + aii + ajj + akk,
    ;
    assert(na * bkk == arr * bkk + aii * bkk + ajj * bkk + akk * bkk) by (nonlinear_arith)
        requires
            na == arr + aii + ajj + akk,
    ;
}

/// One scaled component of a normalisation: squaring the bracket
/// `s * |y| <= |x| * SCALE <= s * |y| + s - 1` bounds `s * s * y * y`
/// against `x * x * SCALE * SCALE` from both sides.
proof fn lemma_scaled_comp_sq(x: int, y: int, s: int)
    by (nonlinear_arith)
    requires
        s >= 1,
        absi(x) <= s,
        s * absi(y) <= absi(x) * 1_000_000,
        absi(x) * 1_000_000 <= s * absi(y) + s - 1,
    ensures
        s * s * (y * y) <= (x * x) * 1_000_000_000_000,
        (x * x) * 1_000_000_000_000 <= s * s * (y * y) + (s * s) * 2_000_001,
        absi(y) <= 1_000_000,
{
}

/// Round-trip identity: multiplying a quaternion by its inverse (the
/// conjugate) gives exactly zero for all three imaginary components, even
/// in rounded arithmetic, because truncation toward zero respects negation
/// and the product commutes termwise. The real component is the rescaled
/// squared norm: within 13 millionths of one for a unit quaternion.
pub proof fn lemma_mul_conj_round_trip(q: Quat)
    ensures
        quat_mul_fixed(q, quat_conj(q)).i == 0,
        quat_mul_fixed(q, quat_conj(q)).j == 0,
        quat_mul_fixed(q, quat_conj(q)).k == 0,
        absi(norm_sq(q) - 1_000_000_000_000) <= 9_000_000 ==> absi(
            quat_mul_fixed(q, quat_conj(q)).r - (SCALE as int),
        ) <= 13,
{
    lemma_fmul_val_neg_right(q.r, q.i);
    lemma_fmul_val_neg_right(q.r, q.j);
    lemma_fmul_val_neg_right(q.r, q.k);
    lemma_fmul_val_neg_right(q.i, q.i);
    lemma_fmul_val_neg_right(q.i, q.j);
    lemma_fmul_val_neg_right(q.i, q.k);
    lemma_fmul_val_neg_right(q.j, q.i);
    lemma_fmul_val_neg_right(q.j, q.j);
    lemma_fmul_val_neg_right(q.j, q.k);
    lemma_fmul_val_neg_right(q.k, q.i);
    lemma_fmul_val_neg_right(q.k, q.j);
    lemma_fmul_val_neg_right(q.k, q.k);
    lemma_fmul_val_comm(q.r, q.i);
    lemma_fmul_val_comm(q.r, q.j);
    lemma_fmul_val_comm(q.r, q.k);
    lemma_fmul_val_comm(q.i, q.j);
    lemma_fmul_val_comm(q.i, q.k);
    lemma_fmul_val_comm(q.j, q.k);
    lemma_fmul_val_err(q.r, q.r);
    lemma_fmul_val_err(q.i, q.i);
    lemma_fmul_val_err(q.j, q.j);
    lemma_fmul_val_err(q.k, q.k);
    assert(q.r * q.r >= 0 && q.i * q.i >= 0 && q.j * q.j >= 0 && q.k * q.k >= 0)
        by (nonlinear_arith);
}

/// Component bound of one rounded Hamilton product: each component is a sum
/// of four rescaled products of bounded factors.
pub proof fn lemma_mul_fixed_bounded(a: Quat, b: Quat, p: int, q: int)
    requires
        0 <= p,
        0 <= q,
        q_bounded(a, p),
        q_bounded(b, q),
    ensures
        q_bounded(quat_mul_fixed(a, b), 4 * ((p * q) / (SCALE as int))),
{
    lemma_fmul_val_mag(a.r, b.r, p, q);
    lemma_fmul_val_mag(a.r, b.i, p, q);
    lemma_fmul_val_mag(a.r, b.j, p, q);
    lemma_fmul_val_mag(a.r, b.k, p, q);
    lemma_fmul_val_mag(a.i, b.r, p, q);
    lemma_fmul_val_mag(a.i, b.i, p, q);
    lemma_fmul_val_mag(a.i, b.j, p, q);
    lemma_fmul_val_mag(a.i, b.k, p, q);
    lemma_fmul_val_mag(a.j, b.r, p, q);
    lemma_fmul_val_mag(a.j, b.i, p, q);
    lemma_fmul_val_mag(a.j, b.j, p, q);
    lemma_fmul_val_mag(a.j, b.k, p, q);
    lemma_fmul_val_mag(a.k, b.r, p, q);
    lemma_fmul_val_mag(a.k, b.i, p, q);
    lemma_fmul_val_mag(a.k, b.j, p, q);
    lemma_fmul_val_mag(a.k, b.k, p, q);
}

/// Norm drift of one rounded Hamilton product: multiplying a quaternion
/// bounded by `p` and within `da` of unit squared norm with a quaternion
/// bounded by one and within `db` of unit squared norm leaves the squared
/// norm within `128 * p + 64 + 2 * da + db` millionths of one.
pub proof fn lemma_mul_fixed_norm_dev(a: Quat, b: Quat, p: int, da: int, db: int)
    requires
        p >= 1_000_000,
        q_bounded(a, p),
        q_bounded(b, 1_000_000),
        absi(norm_sq(a) - 1_000_000_000_000) <= da,
        absi(norm_sq(b) - 1_000_000_000_000) <= db,
        0 <= da <= 1_000_000_000_000,
        0 <= db <= 1_000_000_000_000,
    ensures
        absi(norm_sq(quat_mul_fixed(a, b)) - 1_000_000_000_000) <= 128 * p + 64 + 2 * da + db,
{
    let e = quat_mul_exact(a, b);
    let m = quat_mul_fixed(a, b);
    lemma_fmul_val_err(a.r, b.r);
    lemma_fmul_val_err(a.r, b.i);
    lemma_fmul_val_err(a.r, b.j);
    lemma_fmul_val_err(a.r, b.k);
    lemma_fmul_val_err(a.i, b.r);
    lemma_fmul_val_err(a.i, b.i);
    lemma_fmul_val_err(a.i, b.j);
    lemma_fmul_val_err(a.i, b.k);
    lemma_fmul_val_err(a.j, b.r);
    lemma_fmul_val_err(a.j, b.i);
    lemma_fmul_val_err(a.j, b.j);
    lemma_fmul_val_err(a.j, b.k);
    lemma_fmul_val_err(a.k, b.r);
    lemma_fmul_val_err(a.k, b.i);
    lemma_fmul_val_err(a.k, b.j);
    lemma_fmul_val_err(a.k, b.k);
    assert(absi(1_000_000 * m.r - e.r) <= 4_000_000 && absi(1_000_000 * m.i - e.i) <= 4_000_000
        && absi(1_000_000 * m.j - e.j) <= 4_000_000 && absi(1_000_000 * m.k - e.k) <= 4_000_000);
    lemma_abs_mul_le(a.r, b.r, p, 1_000_000);
    lemma_abs_mul_le(a.r, b.i, p, 1_000_000);
    lemma_abs_mul_le(a.r, b.j, p, 1_000_000);
    lemma_abs_mul_le(a.r, b.k, p, 1_000_000);
    lemma_abs_mul_le(a.i, b.r, p, 1_000_000);
    lemma_abs_mul_le(a.i, b.i, p, 1_000_000);
    lemma_abs_mul_le(a.i, b.j, p, 1_000_000);
    lemma_abs_mul_le(a.i, b.k, p, 1_000_000);
    lemma_abs_mul_le(a.j, b.r, p, 1_000_000);
    lemma_abs_mul_le(a.j, b.i, p, 1_000_000);
    lemma_abs_mul_le(a.j, b.j, p, 1_000_000);
    lemma_abs_mul_le(a.j, b.k, p, 1_000_000);
    lemma_abs_mul_le(a.k, b.r, p, 1_000_000);
    lemma_abs_mul_le(a.k, b.i, p, 1_000_000);
    lemma_abs_mul_le(a.k, b.j, p, 1_000_000);
    lemma_abs_mul_le(a.k, b.k, p, 1_000_000);
    assert(absi(e.r) <= 4 * (p * 1_000_000) && absi(e.i) <= 4 * (p * 1_000_000) && absi(e.j) <= 4
        * (p * 1_000_000) && absi(e.k) <= 4 * (p * 1_000_000));
    lemma_sq_close(1_000_000 * m.r, e.r, 4_000_000, 4 * (p * 1_000_000));
    lemma_sq_close(1_000_000 * m.i, e.i, 4_000_000, 4 * (p * 1_000_000));
    lemma_sq_close(1_000_000 * m.j, e.j, 4_000_000, 4 * (p * 1_000_000));
    lemma_sq_close(1_000_000 * m.k, e.k, 4_000_000, 4 * (p * 1_000_000));
    assert((1_000_000 * m.r) * (1_000_000 * m.r) == 1_000_000_000_000 * (m.r * m.r) && (1_000_000
        * m.i) * (1_000_000 * m.i) == 1_000_000_000_000 * (m.i * m.i) && (1_000_000 * m.j) * (
    1_000_000 * m.j) == 1_000_000_000_000 * (m.j * m.j) && (1_000_000 * m.k) * (1_000_000 * m.k)
        == 1_000_000_000_000 * (m.k * m.k)) by (nonlinear_arith);
    lemma_norm_sq_mul_exact(a, b);
    let u = norm_sq(a) - 1_000_000_000_000;
    let v = norm_sq(b) - 1_000_000_000_000;
    assert(norm_sq(a) * norm_sq(b) == 1_000_000_000_000_000_000_000_000 + 1_000_000_000_000 * u
        + 1_000_000_000_000 * v + u * v) by (nonlinear_arith)
        requires
            norm_sq(a) == 1_000_000_000_000 + u,
            norm_sq(b) == 1_000_000_000_000 + v,
    ;
    lemma_abs_mul_le(u, v, da, db);
    assert(da * db <= da * 1_000_000_000_000) by (nonlinear_arith)
        requires
            0 <= da,
            db <= 1_000_000_000_000,
    ;
    assert(absi(1_000_000_000_000 * norm_sq(m) - 1_000_000_000_000_000_000_000_000) <= (128 * p
        + 64 + 2 * da + db) * 1_000_000_000_000);
}

/// Unit-norm restoration: normalising any quaternion whose squared norm is
/// at least a quarter of one brings the squared norm within `9 * SCALE`
/// (nine millionths) of one, and every component within one.
pub proof fn lemma_normalised_norm(q: Quat)
    requires
        norm_sq(q) >= 250_000_000_000,
    ensures
        absi(norm_sq(quat_normalised(q)) - 1_000_000_000_000) <= 9 * (SCALE as int),
        q_bounded(quat_normalised(q), SCALE as int),
{
    let n = norm_sq(q);
    lemma_sqrt_floor_exists(n);
    let s = sqrt_floor(n);
    assert(s >= 500_000) by (nonlinear_arith)
        requires
            n >= 250_000_000_000,
            n < (s + 1) * (s + 1),
            s >= 0,
    ;
    assert(q.r * q.r >= 0 && q.i * q.i >= 0 && q.j * q.j >= 0 && q.k * q.k >= 0)
        by (nonlinear_arith);
    assert(absi(q.r) <= s && absi(q.i) <= s && absi(q.j) <= s && absi(q.k) <= s)
        by (nonlinear_arith)
        requires
            q.r * q.r <= n,
            q.i * q.i <= n,
            q.j * q.j <= n,
            q.k * q.k <= n,
            n < (s + 1) * (s + 1),
            s >= 0,
    ;
    let nq = quat_normalised(q);
    let np = norm_sq(nq);
    lemma_tdiv_sandwich(q.r, s);
    lemma_tdiv_sandwich(q.i, s);
    lemma_tdiv_sandwich(q.j, s);
    lemma_tdiv_sandwich(q.k, s);
    lemma_scaled_comp_sq(q.r, nq.r, s);
    lemma_scaled_comp_sq(q.i, nq.i, s);
    lemma_scaled_comp_sq(q.j, nq.j, s);
    lemma_scaled_comp_sq(q.k, nq.k, s);
    assert(s * s * (nq.r * nq.r) + s * s * (nq.i * nq.i) + s * s * (nq.j * nq.j) + s * s * (nq.k
        * nq.k) == (s * s) * np) by (nonlinear_arith)
        requires
            np == nq.r * nq.r + nq.i * nq.i + nq.j * nq.j + nq.k * nq.k,
    ;
    assert((s + 1) * (s + 1) == s * s + 2 * s + 1) by (nonlinear_arith);
    assert(2_000_000_000_000 * s <= 7_000_000 * (s * s)) by (nonlinear_arith)
        requires
            s >= 500_000,
    ;
    assert((s * s) * np <= (s * s) * 1_000_007_000_000);
    assert((s * s) * np >= (s * s) * 999_991_999_996);
    assert(np <= 1_000_007_000_000) by (nonlinear_arith)
        requires
            (s * s) * np <= (s * s) * 1_000_007_000_000,
            s >= 1,
    ;
    assert(np >= 999_991_999_996) by (nonlinear_arith)
        requires
            (s * s) * np >= (s * s) * 999_991_999_996,
            s >= 1,
    ;
}


/// The determinant of the exact rotation block is the cube of the squared
/// norm: together with the column orthogonality this makes the block a
/// proper rotation (determinant plus one, never a reflection) for a unit
/// quaternion.
pub proof fn lemma_rot_exact_det(q: Quat)
    ensures
        rot3_det(q) == norm_sq(q) * norm_sq(q) * norm_sq(q),
{
    let trr = q.r * q.r;
    let tri = q.r * q.i;
    let trj = q.r * q.j;
    let trk = q.r * q.k;
    let tii = q.i * q.i;
    let tij = q.i * q.j;
    let tik = q.i * q.k;
    let tjj = q.j * q.j;
    let tjk = q.j * q.k;
    let tkk = q.k * q.k;
    let e00 = rot3_exact(q, 0, 0);
    let e01 = rot3_exact(q, 0, 1);
    let e02 = rot3_exact(q, 0, 2);
    let e10 = rot3_exact(q, 1, 0);
    let e11 = rot3_exact(q, 1, 1);
    let e12 = rot3_exact(q, 1, 2);
    let e20 = rot3_exact(q, 2, 0);
    let e21 = rot3_exact(q, 2, 1);
    let e22 = rot3_exact(q, 2, 2);
    let cpa = e11 * e22;
    assert(cpa == (trr * trr) - (trr * tii) - (trr * tjj) + (trr * tkk) - (trr * tii) + (tii * tii) + (tii * tjj) - (tii * tkk) + (trr * tjj) - (tii * tjj) - (tjj * tjj) + (tjj * tkk) - (trr * tkk) + (tii * tkk) + (tjj * tkk) - (tkk * tkk)) by (nonlinear_arith)
        requires
            cpa == e11 * e22,
            e11 == trr - tii + tjj - tkk,
            e22 == trr - tii - tjj + tkk,
    ;
    let cpb = e12 * e21;
    assert(cpb == 4 * (tjk * tjk) + 4 * (tri * tjk) - 4 * (tri * tjk) - 4 * (tri * tri)) by (nonlinear_arith)
        requires
            cpb == e12 * e21,
            e12 == 2 * tjk - 2 * tri,
            e21 == 2 * tjk + 2 * tri,
    ;
    let cpc = e10 * e22;
    assert(cpc == 2 * (trr * tij) - 2 * (tii * tij) - 2 * (tij * tjj) + 2 * (tij * tkk) + 2 * (trr * trk) - 2 * (trk * tii) - 2 * (trk * tjj) + 2 * (trk * tkk)) by (nonlinear_arith)
        requires
            cpc == e10 * e22,
            e10 == 2 * tij + 2 * trk,
            e22 == trr - tii - tjj + tkk,
    ;
    let cpd = e12 * e20;
    assert(cpd == 4 * (tik * tjk) - 4 * (trj * tjk) - 4 * (tri * tik) + 4 * (tri * trj)) by (nonlinear_arith)
        requires
            cpd == e12 * e20,
            e12 == 2 * tjk - 2 * tri,
            e20 == 2 * tik - 2 * trj,
    ;
    let cpe = e10 * e21;
    assert(cpe == 4 * (tij * tjk) + 4 * (tri * tij) + 4 * (trk * tjk) + 4 * (tri * trk)) by (nonlinear_arith)
        requires
            cpe == e10 * e21,
            e10 == 2 * tij + 2 * trk,
            e21 == 2 * tjk + 2 * tri,
    ;
    let cpf = e11 * e20;
    assert(cpf == 2 * (trr * tik) - 2 * (trr * trj) - 2 * (tii * tik) + 2 * (trj * tii) + 2 * (tik * tjj) - 2 * (trj * tjj) - 2 * (tik * tkk) + 2 * (trj * tkk)) by (nonlinear_arith)
        requires
            cpf == e11 * e20,
            e11 == trr - tii + tjj - tkk,
            e20 == 2 * tik - 2 * trj,
    ;
    assert(trr * cpa == (trr * (trr * trr)) - (trr * (trr * tii)) - (trr * (trr * tjj)) + (trr * (trr * tkk)) - (trr * (trr * tii)) + (trr * (tii * tii)) + (trr * (tii * tjj)) - (trr * (tii * tkk)) + (trr * (trr * tjj)) - (trr * (tii * tjj)) - (trr * (tjj * tjj)) + (trr * (tjj * tkk)) - (trr * (trr * tkk)) + (trr * (tii * tkk)) + (trr * (tjj * tkk)) - (trr * (tkk * tkk))) by (nonlinear_arith)
        requires
            cpa == (trr * trr) - (trr * tii) - (trr * tjj) + (trr * tkk) - (trr * tii) + (tii * tii) + (tii * tjj) - (tii * tkk) + (trr * tjj) - (tii * tjj) - (tjj * tjj) + (tjj * tkk) - (trr * tkk) + (tii * tkk) + (tjj * tkk) - (tkk * tkk),
    ;
    assert(tii * cpa == (tii * (trr * trr)) - (tii * (trr * tii)) - (tii * (trr * tjj)) + (tii * (trr * tkk)) - (tii * (trr * tii)) + (tii * (tii * tii)) + (tii * (tii * tjj)) - (tii * (tii * tkk)) + (tii * (trr * tjj)) - (tii * (tii * tjj)) - (tii * (tjj * tjj)) + (tii * (tjj * tkk)) - (tii * (trr * tkk)) + (tii * (tii * tkk)) + (tii * (tjj * tkk)) - (tii * (tkk * tkk))) by (nonlinear_arith)
        requires
            cpa == (trr * trr) - (trr * tii) - (trr * tjj) + (trr * tkk) - (trr * tii) + (tii * tii) + (tii * tjj) - (tii * tkk) + (trr * tjj) - (tii * tjj) - (tjj * tjj) + (tjj * tkk) - (trr * tkk) + (tii * tkk) + (tjj * tkk) - (tkk * tkk),
    ;
    assert(tjj * cpa == (tjj * (trr * trr)) - (tjj * (trr * tii)) - (tjj * (trr * tjj)) + (tjj * (trr * tkk)) - (tjj * (trr * tii)) + (tjj * (tii * tii)) + (tjj * (tii * tjj)) - (tjj * (tii * tkk)) + (tjj * (trr * tjj)) - (tjj * (tii * tjj)) - (tjj * (tjj * tjj)) + (tjj * (tjj * tkk)) - (tjj * (trr * tkk)) + (tjj * (tii * tkk)) + (tjj * (tjj * tkk)) - (tjj * (tkk * tkk))) by (nonlinear_arith)
        requires
            cpa == (trr * trr) - (trr * tii) - (trr * tjj) + (trr * tkk) - (trr * tii) + (tii * tii) + (tii * tjj) - (tii * tkk) + (trr * tjj) - (tii * tjj) - (tjj * tjj) + (tjj * tkk) - (trr * tkk) + (tii * tkk) + (tjj * tkk) - (tkk * tkk),
    ;
    assert(tkk * cpa == (tkk * (trr * trr)) - (tkk * (trr * tii)) - (tkk * (trr * tjj)) + (tkk * (trr * tkk)) - (tkk * (trr * tii)) + (tkk * (tii * tii)) + (tkk * (tii * tjj)) - (tkk * (tii * tkk)) + (tkk * (trr * tjj)) - (tkk * (tii * tjj)) - (tkk * (tjj * tjj)) + (tkk * (tjj * tkk)) - (tkk * (trr * tkk)) + (tkk * (tii * tkk)) + (tkk * (tjj * tkk)) - (tkk * (tkk * tkk))) by (nonlinear_arith)
        requires
            cpa == (trr * trr) - (trr * tii) - (trr * tjj) + (trr * tkk) - (trr * tii) + (tii * tii) + (tii * tjj) - (tii * tkk) + (trr * tjj) - (tii * tjj) - (tjj * tjj) + (tjj * tkk) - (trr * tkk) + (tii * tkk) + (tjj * tkk) - (tkk * tkk),
    ;
    assert(trr * cpb == 4 * (trr * (tjk * tjk)) + 4 * (trr * (tri * tjk)) - 4 * (trr * (tri * tjk)) - 4 * (trr * (tri * tri))) by (nonlinear_arith)
        requires
            cpb == 4 * (tjk * tjk) + 4 * (tri * tjk) - 4 * (tri * tjk) - 4 * (tri * tri),
    ;
    assert(tii * cpb == 4 * (tii * (tjk * tjk)) + 4 * (tii * (tri * tjk)) - 4 * (tii * (tri * tjk)) - 4 * (tii * (tri * tri))) by (nonlinear_arith)
        requires
            cpb == 4 * (tjk * tjk) + 4 * (tri * tjk) - 4 * (tri * tjk) - 4 * (tri * tri),
    ;
    assert(tjj * cpb == 4 * (tjj * (tjk * tjk)) + 4 * (tjj * (tri * tjk)) - 4 * (tjj * (tri * tjk)) - 4 * (tjj * (tri * tri))) by (nonlinear_arith)
        requires
            cpb == 4 * (tjk * tjk) + 4 * (tri * tjk) - 4 * (tri * tjk) - 4 * (tri * tri),
    ;
    assert(tkk * cpb == 4 * (tkk * (tjk * tjk)) + 4 * (tkk * (tri * tjk)) - 4 * (tkk * (tri * tjk)) - 4 * (tkk * (tri * tri))) by (nonlinear_arith)
        requires
            cpb == 4 * (tjk * tjk) + 4 * (tri * tjk) - 4 * (tri * tjk) - 4 * (tri * tri),
    ;
    assert(tij * cpc == 2 * (tij * (trr * tij)) - 2 * (tij * (tii * tij)) - 2 * (tij * (tij * tjj)) + 2 * (tij * (tij * tkk)) + 2 * (tij * (trr * trk)) - 2 * (tij * (trk * tii)) - 2 * (tij * (trk * tjj)) + 2 * (tij * (trk * tkk))) by (nonlinear_arith)
        requires
            cpc == 2 * (trr * tij) - 2 * (tii * tij) - 2 * (tij * tjj) + 2 * (tij * tkk) + 2 * (trr * trk) - 2 * (trk * tii) - 2 * (trk * tjj) + 2 * (trk * tkk),
    ;
    let cpc_a = 2 * (trr * tij) - 2 * (tii * tij) - 2 * (tij * tjj) + 2 * (tij * tkk);
    let cpc_b = 2 * (trr * trk) - 2 * (trk * tii) - 2 * (trk * tjj) + 2 * (trk * tkk);
    assert(trk * cpc == trk * cpc_a + trk * cpc_b) by (nonlinear_arith)
        requires
            cpc == cpc_a + cpc_b,
    ;
    assert(trk * cpc_a == 2 * (trk * (trr * tij)) - 2 * (trk * (tii * tij)) - 2 * (trk * (tij * tjj)) + 2 * (trk * (tij * tkk))) by (nonlinear_arith)
        requires
            cpc_a == 2 * (trr * tij) - 2 * (tii * tij) - 2 * (tij * tjj) + 2 * (tij * tkk),
    ;
    assert(trk * cpc_b == 2 * (trk * (trr * trk)) - 2 * (trk * (trk * tii)) - 2 * (trk * (trk * tjj)) + 2 * (trk * (trk * tkk))) by (nonlinear_arith)
        requires
            cpc_b == 2 * (trr * trk) - 2 * (trk * tii) - 2 * (trk * tjj) + 2 * (trk * tkk),
    ;
    assert(trk * cpc == 2 * (trk * (trr * tij)) - 2 * (trk * (tii * tij)) - 2 * (trk * (tij * tjj)) + 2 * (trk * (tij * tkk)) + 2 * (trk * (trr * trk)) - 2 * (trk * (trk * tii)) - 2 * (trk * (trk * tjj)) + 2 * (trk * (trk * tkk)));
    assert(tij * cpd == 4 * (tij * (tik * tjk)) - 4 * (tij * (trj * tjk)) - 4 * (tij * (tri * tik)) + 4 * (tij * (tri * trj))) by (nonlinear_arith)
        requires
            cpd == 4 * (tik * tjk) - 4 * (trj * tjk) - 4 * (tri * tik) + 4 * (tri * trj),
    ;
    assert(trk * cpd == 4 * (trk * (tik * tjk)) - 4 * (trk * (trj * tjk)) - 4 * (trk * (tri * tik)) + 4 * (trk * (tri * trj))) by (nonlinear_arith)
        requires
            cpd == 4 * (tik * tjk) - 4 * (trj * tjk) - 4 * (tri * tik) + 4 * (tri * trj),
    ;
    assert(tik * cpe == 4 * (tik * (tij * tjk)) + 4 * (tik * (tri * tij)) + 4 * (tik * (trk * tjk)) + 4 * (tik * (tri * trk))) by (nonlinear_arith)
        requires
            cpe == 4 * (tij * tjk) + 4 * (tri * tij) + 4 * (trk * tjk) + 4 * (tri * trk),
    ;
    assert(trj * cpe == 4 * (trj * (tij * tjk)) + 4 * (trj * (tri * tij)) + 4 * (trj * (trk * tjk)) + 4 * (trj * (tri * trk))) by (nonlinear_arith)
        requires
            cpe == 4 * (tij * tjk) + 4 * (tri * tij) + 4 * (trk * tjk) + 4 * (tri * trk),
    ;
    assert(tik * cpf == 2 * (tik * (trr * tik)) - 2 * (tik * (trr * trj)) - 2 * (tik * (tii * tik)) + 2 * (tik * (trj * tii)) + 2 * (tik * (tik * tjj)) - 2 * (tik * (trj * tjj)) - 2 * (tik * (tik * tkk)) + 2 * (tik * (trj * tkk))) by (nonlinear_arith)
        requires
            cpf == 2 * (trr * tik) - 2 * (trr * trj) - 2 * (tii * tik) + 2 * (trj * tii) + 2 * (tik * tjj) - 2 * (trj * tjj) - 2 * (tik * tkk) + 2 * (trj * tkk),
    ;
    assert(trj * cpf == 2 * (trj * (trr * tik)) - 2 * (trj * (trr * trj)) - 2 * (trj * (tii * tik)) + 2 * (trj * (trj * tii)) + 2 * (trj * (tik * tjj)) - 2 * (trj * (trj * tjj)) - 2 * (trj * (tik * tkk)) + 2 * (trj * (trj * tkk))) by (nonlinear_arith)
        requires
            cpf == 2 * (trr * tik) - 2 * (trr * trj) - 2 * (tii * tik) + 2 * (trj * tii) + 2 * (tik * tjj) - 2 * (trj * tjj) - 2 * (tik * tkk) + 2 * (trj * tkk),
    ;
    assert(e00 * cpa == (trr * cpa) + (tii * cpa) - (tjj * cpa) - (tkk * cpa)) by (nonlinear_arith)
        requires
            e00 == trr + tii - tjj - tkk,
    ;
    assert(e00 * cpb == (trr * cpb) + (tii * cpb) - (tjj * cpb) - (tkk * cpb)) by (nonlinear_arith)
        requires
            e00 == trr + tii - tjj - tkk,
    ;
    assert(e01 * cpc == 2 * (tij * cpc) - 2 * (trk * cpc)) by (nonlinear_arith)
        requires
            e01 == 2 * tij - 2 * trk,
    ;
    assert(e01 * cpd == 2 * (tij * cpd) - 2 * (trk * cpd)) by (nonlinear_arith)
        requires
            e01 == 2 * tij - 2 * trk,
    ;
    assert(e02 * cpe == 2 * (tik * cpe) + 2 * (trj * cpe)) by (nonlinear_arith)
        requires
            e02 == 2 * tik + 2 * trj,
    ;
    assert(e02 * cpf == 2 * (tik * cpf) + 2 * (trj * cpf)) by (nonlinear_arith)
        requires
            e02 == 2 * tik + 2 * trj,
    ;
    assert(tii * (tii * tii) == (tii * tii) * tii) by (nonlinear_arith)
        requires
            tii == q.i * q.i,
    ;
    assert(tii * (tii * tjj) == (tii * tii) * tjj) by (nonlinear_arith)
        requires
            tii == q.i * q.i,
            tjj == q.j * q.j,
    ;
    assert(tii * (tii * tkk) == (tii * tii) * tkk) by (nonlinear_arith)
        requires
            tii == q.i * q.i,
            tkk == q.k * q.k,
    ;
    assert(tii * (tjj * tjj) == (tii * tjj) * tjj) by (nonlinear_arith)
        requires
            tii == q.i * q.i,
            tjj == q.j * q.j,
    ;
    assert(tii * (tjj * tkk) == (tii * tjj) * tkk) by (nonlinear_arith)
        requires
            tii == q.i * q.i,
            tjj == q.j * q.j,
            tkk == q.k * q.k,
    ;
    assert(tii * (tjk * tjk) == (tii * tjj) * tkk) by (nonlinear_arith)
        requires
            tii == q.i * q.i,
            tjj == q.j * q.j,
            tjk == q.j * q.k,
            tkk == q.k * q.k,
    ;
    assert(tii * (tkk * tkk) == (tii * tkk) * tkk) by (nonlinear_arith)
        requires
            tii == q.i * q.i,
            tkk == q.k * q.k,
    ;
    assert(tii * (tri * tjk) == (tri * tii) * tjk) by (nonlinear_arith)
        requires
            tii == q.i * q.i,
            tjk == q.j * q.k,
            tri == q.r * q.i,
    ;
    assert(tii * (tri * tri) == (trr * tii) * tii) by (nonlinear_arith)
        requires
            tii == q.i * q.i,
            tri == q.r * q.i,
            trr == q.r * q.r,
    ;
    assert(tii * (trr * tii) == (trr * tii) * tii) by (nonlinear_arith)
        requires
            tii == q.i * q.i,
            trr == q.r * q.r,
    ;
    assert(tii * (trr * tjj) == (trr * tii) * tjj) by (nonlinear_arith)
        requires
            tii == q.i * q.i,
            tjj == q.j * q.j,
            trr == q.r * q.r,
    ;
    assert(tii * (trr * tkk) == (trr * tii) * tkk) by (nonlinear_arith)
        requires
            tii == q.i * q.i,
            tkk == q.k * q.k,
            trr == q.r * q.r,
    ;
    assert(tii * (trr * trr) == (trr * trr) * tii) by (nonlinear_arith)
        requires
            tii == q.i * q.i,
            trr == q.r * q.r,
    ;
    assert(tij * (tii * tij) == (tii * tii) * tjj) by (nonlinear_arith)
        requires
            tii == q.i * q.i,
            tij == q.i * q.j,
            tjj == q.j * q.j,
    ;
    assert(tij * (tij * tjj) == (tii * tjj) * tjj) by (nonlinear_arith)
        requires
            tii == q.i * q.i,
            tij == q.i * q.j,
            tjj == q.j * q.j,
    ;
    assert(tij * (tij * tkk) == (tii * tjj) * tkk) by (nonlinear_arith)
        requires
            tii == q.i * q.i,
            tij == q.i * q.j,
            tjj == q.j * q.j,
            tkk == q.k * q.k,
    ;
    assert(tij * (tik * tjk) == (tii * tjj) * tkk) by (nonlinear_arith)
        requires
            tii == q.i * q.i,
            tij == q.i * q.j,
            tik == q.i * q.k,
            tjj == q.j * q.j,
            tjk == q.j * q.k,
            tkk == q.k * q.k,
    ;
    assert(tij * (tri * tik) == (tri * tii) * tjk) by (nonlinear_arith)
        requires
            tii == q.i * q.i,
            tij == q.i * q.j,
            tik == q.i * q.k,
            tjk == q.j * q.k,
            tri == q.r * q.i,
    ;
    assert(tij * (tri * trj) == (trr * tii) * tjj) by (nonlinear_arith)
        requires
            tii == q.i * q.i,
            tij == q.i * q.j,
            tjj == q.j * q.j,
            tri == q.r * q.i,
            trj == q.r * q.j,
            trr == q.r * q.r,
    ;
    assert(tij * (trj * tjk) == (tri * tjj) * tjk) by (nonlinear_arith)
        requires
            tij == q.i * q.j,
            tjj == q.j * q.j,
            tjk == q.j * q.k,
            tri == q.r * q.i,
            trj == q.r * q.j,
    ;
    assert(tij * (trk * tii) == (tri * tii) * tjk) by (nonlinear_arith)
        requires
            tii == q.i * q.i,
            tij == q.i * q.j,
            tjk == q.j * q.k,
            tri == q.r * q.i,
            trk == q.r * q.k,
    ;
    assert(tij * (trk * tjj) == (tri * tjj) * tjk) by (nonlinear_arith)
        requires
            tij == q.i * q.j,
            tjj == q.j * q.j,
            tjk == q.j * q.k,
            tri == q.r * q.i,
            trk == q.r * q.k,
    ;
    assert(tij * (trk * tkk) == (tri * tjk) * tkk) by (nonlinear_arith)
        requires
            tij == q.i * q.j,
            tjk == q.j * q.k,
            tkk == q.k * q.k,
            tri == q.r * q.i,
            trk == q.r * q.k,
    ;
    assert(tij * (trr * tij) == (trr * tii) * tjj) by (nonlinear_arith)
        requires
            tii == q.i * q.i,
            tij == q.i * q.j,
            tjj == q.j * q.j,
            trr == q.r * q.r,
    ;
    assert(tij * (trr * trk) == (trr * tri) * tjk) by (nonlinear_arith)
        requires
            tij == q.i * q.j,
            tjk == q.j * q.k,
            tri == q.r * q.i,
            trk == q.r * q.k,
            trr == q.r * q.r,
    ;
    assert(tik * (tii * tik) == (tii * tii) * tkk) by (nonlinear_arith)
        requires
            tii == q.i * q.i,
            tik == q.i * q.k,
            tkk == q.k * q.k,
    ;
    assert(tik * (tij * tjk) == (tii * tjj) * tkk) by (nonlinear_arith)
        requires
            tii == q.i * q.i,
            tij == q.i * q.j,
            tik == q.i * q.k,
            tjj == q.j * q.j,
            tjk == q.j * q.k,
            tkk == q.k * q.k,
    ;
    assert(tik * (tik * tjj) == (tii * tjj) * tkk) by (nonlinear_arith)
        requires
            tii == q.i * q.i,
            tik == q.i * q.k,
            tjj == q.j * q.j,
            tkk == q.k * q.k,
    ;
    assert(tik * (tik * tkk) == (tii * tkk) * tkk) by (nonlinear_arith)
        requires
            tii == q.i * q.i,
            tik == q.i * q.k,
            tkk == q.k * q.k,
    ;
    assert(tik * (tri * tij) == (tri * tii) * tjk) by (nonlinear_arith)
        requires
            tii == q.i * q.i,
            tij == q.i * q.j,
            tik == q.i * q.k,
            tjk == q.j * q.k,
            tri == q.r * q.i,
    ;
    assert(tik * (tri * trk) == (trr * tii) * tkk) by (nonlinear_arith)
        requires
            tii == q.i * q.i,
            tik == q.i * q.k,
            tkk == q.k * q.k,
            tri == q.r * q.i,
            trk == q.r * q.k,
            trr == q.r * q.r,
    ;
    assert(tik * (trj * tii) == (tri * tii) * tjk) by (nonlinear_arith)
        requires
            tii == q.i * q.i,
            tik == q.i * q.k,
            tjk == q.j * q.k,
            tri == q.r * q.i,
            trj == q.r * q.j,
    ;
    assert(tik * (trj * tjj) == (tri * tjj) * tjk) by (nonlinear_arith)
        requires
            tik == q.i * q.k,
            tjj == q.j * q.j,
            tjk == q.j * q.k,
            tri == q.r * q.i,
            trj == q.r * q.j,
    ;
    assert(tik * (trj * tkk) == (tri * tjk) * tkk) by (nonlinear_arith)
        requires
            tik == q.i * q.k,
            tjk == q.j * q.k,
            tkk == q.k * q.k,
            tri == q.r * q.i,
            trj == q.r * q.j,
    ;
    assert(tik * (trk * tjk) == (tri * tjk) * tkk) by (nonlinear_arith)
        requires
            tik == q.i * q.k,
            tjk == q.j * q.k,
            tkk == q.k * q.k,
            tri == q.r * q.i,
            trk == q.r * q.k,
    ;
    assert(tik * (trr * tik) == (trr * tii) * tkk) by (nonlinear_arith)
        requires
            tii == q.i * q.i,
            tik == q.i * q.k,
            tkk == q.k * q.k,
            trr == q.r * q.r,
    ;
    assert(tik * (trr * trj) == (trr * tri) * tjk) by (nonlinear_arith)
        requires
            tik == q.i * q.k,
            tjk == q.j * q.k,
            tri == q.r * q.i,
            trj == q.r * q.j,
            trr == q.r * q.r,
    ;
    assert(tjj * (tii * tii) == (tii * tii) * tjj) by (nonlinear_arith)
        requires
            tii == q.i * q.i,
            tjj == q.j * q.j,
    ;
    assert(tjj * (tii * tjj) == (tii * tjj) * tjj) by (nonlinear_arith)
        requires
            tii == q.i * q.i,
            tjj == q.j * q.j,
    ;
    assert(tjj * (tii * tkk) == (tii * tjj) * tkk) by (nonlinear_arith)
        requires
            tii == q.i * q.i,
            tjj == q.j * q.j,
            tkk == q.k * q.k,
    ;
    assert(tjj * (tjj * tjj) == (tjj * tjj) * tjj) by (nonlinear_arith)
        requires
            tjj == q.j * q.j,
    ;
    assert(tjj * (tjj * tkk) == (tjj * tjj) * tkk) by (nonlinear_arith)
        requires
            tjj == q.j * q.j,
            tkk == q.k * q.k,
    ;
    assert(tjj * (tjk * tjk) == (tjj * tjj) * tkk) by (nonlinear_arith)
        requires
            tjj == q.j * q.j,
            tjk == q.j * q.k,
            tkk == q.k * q.k,
    ;
    assert(tjj * (tkk * tkk) == (tjj * tkk) * tkk) by (nonlinear_arith)
        requires
            tjj == q.j * q.j,
            tkk == q.k * q.k,
    ;
    assert(tjj * (tri * tjk) == (tri * tjj) * tjk) by (nonlinear_arith)
        requires
            tjj == q.j * q.j,
            tjk == q.j * q.k,
            tri == q.r * q.i,
    ;
    assert(tjj * (tri * tri) == (trr * tii) * tjj) by (nonlinear_arith)
        requires
            tii == q.i * q.i,
            tjj == q.j * q.j,
            tri == q.r * q.i,
            trr == q.r * q.r,
    ;
    assert(tjj * (trr * tii) == (trr * tii) * tjj) by (nonlinear_arith)
        requires
            tii == q.i * q.i,
            tjj == q.j * q.j,
            trr == q.r * q.r,
    ;
    assert(tjj * (trr * tjj) == (trr * tjj) * tjj) by (nonlinear_arith)
        requires
            tjj == q.j * q.j,
            trr == q.r * q.r,
    ;
    assert(tjj * (trr * tkk) == (trr * tjj) * tkk) by (nonlinear_arith)
        requires
            tjj == q.j * q.j,
            tkk == q.k * q.k,
            trr == q.r * q.r,
    ;
    assert(tjj * (trr * trr) == (trr * trr) * tjj) by (nonlinear_arith)
        requires
            tjj == q.j * q.j,
            trr == q.r * q.r,
    ;
    assert(tkk * (tii * tii) == (tii * tii) * tkk) by (nonlinear_arith)
        requires
            tii == q.i * q.i,
            tkk == q.k * q.k,
    ;
    assert(tkk * (tii * tjj) == (tii * tjj) * tkk) by (nonlinear_arith)
        requires
            tii == q.i * q.i,
            tjj == q.j * q.j,
            tkk == q.k * q.k,
    ;
    assert(tkk * (tii * tkk) == (tii * tkk) * tkk) by (nonlinear_arith)
        requires
            tii == q.i * q.i,
            tkk == q.k * q.k,
    ;
    assert(tkk * (tjj * tjj) == (tjj * tjj) * tkk) by (nonlinear_arith)
        requires
            tjj == q.j * q.j,
            tkk == q.k * q.k,
    ;
    assert(tkk * (tjj * tkk) == (tjj * tkk) * tkk) by (nonlinear_arith)
        requires
            tjj == q.j * q.j,
            tkk == q.k * q.k,
    ;
    assert(tkk * (tjk * tjk) == (tjj * tkk) * tkk) by (nonlinear_arith)
        requires
            tjj == q.j * q.j,
            tjk == q.j * q.k,
            tkk == q.k * q.k,
    ;
    assert(tkk * (tkk * tkk) == (tkk * tkk) * tkk) by (nonlinear_arith)
        requires
            tkk == q.k * q.k,
    ;
    assert(tkk * (tri * tjk) == (tri * tjk) * tkk) by (nonlinear_arith)
        requires
            tjk == q.j * q.k,
            tkk == q.k * q.k,
            tri == q.r * q.i,
    ;
    assert(tkk * (tri * tri) == (trr * tii) * tkk) by (nonlinear_arith)
        requires
            tii == q.i * q.i,
            tkk == q.k * q.k,
            tri == q.r * q.i,
            trr == q.r * q.r,
    ;
    assert(tkk * (trr * tii) == (trr * tii) * tkk) by (nonlinear_arith)
        requires
            tii == q.i * q.i,
            tkk == q.k * q.k,
            trr == q.r * q.r,
    ;
    assert(tkk * (trr * tjj) == (trr * tjj) * tkk) by (nonlinear_arith)
        requires
            tjj == q.j * q.j,
            tkk == q.k * q.k,
            trr == q.r * q.r,
    ;
    assert(tkk * (trr * tkk) == (trr * tkk) * tkk) by (nonlinear_arith)
        requires
            tkk == q.k * q.k,
            trr == q.r * q.r,
    ;
    assert(tkk * (trr * trr) == (trr * trr) * tkk) by (nonlinear_arith)
        requires
            tkk == q.k * q.k,
            trr == q.r * q.r,
    ;
    assert(trj * (tii * tik) == (tri * tii) * tjk) by (nonlinear_arith)
        requires
            tii == q.i * q.i,
            tik == q.i * q.k,
            tjk == q.j * q.k,
            tri == q.r * q.i,
            trj == q.r * q.j,
    ;
    assert(trj * (tij * tjk) == (tri * tjj) * tjk) by (nonlinear_arith)
        requires
            tij == q.i * q.j,
            tjj == q.j * q.j,
            tjk == q.j * q.k,
            tri == q.r * q.i,
            trj == q.r * q.j,
    ;
    assert(trj * (tik * tjj) == (tri * tjj) * tjk) by (nonlinear_arith)
        requires
            tik == q.i * q.k,
            tjj == q.j * q.j,
            tjk == q.j * q.k,
            tri == q.r * q.i,
            trj == q.r * q.j,
    ;
    assert(trj * (tik * tkk) == (tri * tjk) * tkk) by (nonlinear_arith)
        requires
            tik == q.i * q.k,
            tjk == q.j * q.k,
            tkk == q.k * q.k,
            tri == q.r * q.i,
            trj == q.r * q.j,
    ;
    assert(trj * (tri * tij) == (trr * tii) * tjj) by (nonlinear_arith)
        requires
            tii == q.i * q.i,
            tij == q.i * q.j,
            tjj == q.j * q.j,
            tri == q.r * q.i,
            trj == q.r * q.j,
            trr == q.r * q.r,
    ;
    assert(trj * (tri * trk) == (trr * tri) * tjk) by (nonlinear_arith)
        requires
            tjk == q.j * q.k,
            tri == q.r * q.i,
            trj == q.r * q.j,
            trk == q.r * q.k,
            trr == q.r * q.r,
    ;
    assert(trj * (trj * tii) == (trr * tii) * tjj) by (nonlinear_arith)
        requires
            tii == q.i * q.i,
            tjj == q.j * q.j,
            trj == q.r * q.j,
            trr == q.r * q.r,
    ;
    assert(trj * (trj * tjj) == (trr * tjj) * tjj) by (nonlinear_arith)
        requires
            tjj == q.j * q.j,
            trj == q.r * q.j,
            trr == q.r * q.r,
    ;
    assert(trj * (trj * tkk) == (trr * tjj) * tkk) by (nonlinear_arith)
        requires
            tjj == q.j * q.j,
            tkk == q.k * q.k,
            trj == q.r * q.j,
            trr == q.r * q.r,
    ;
    assert(trj * (trk * tjk) == (trr * tjj) * tkk) by (nonlinear_arith)
        requires
            tjj == q.j * q.j,
            tjk == q.j * q.k,
            tkk == q.k * q.k,
            trj == q.r * q.j,
            trk == q.r * q.k,
            trr == q.r * q.r,
    ;
    assert(trj * (trr * tik) == (trr * tri) * tjk) by (nonlinear_arith)
        requires
            tik == q.i * q.k,
            tjk == q.j * q.k,
            tri == q.r * q.i,
            trj == q.r * q.j,
            trr == q.r * q.r,
    ;
    assert(trj * (trr * trj) == (trr * trr) * tjj) by (nonlinear_arith)
        requires
            tjj == q.j * q.j,
            trj == q.r * q.j,
            trr == q.r * q.r,
    ;
    assert(trk * (tii * tij) == (tri * tii) * tjk) by (nonlinear_arith)
        requires
            tii == q.i * q.i,
            tij == q.i * q.j,
            tjk == q.j * q.k,
            tri == q.r * q.i,
            trk == q.r * q.k,
    ;
    assert(trk * (tij * tjj) == (tri * tjj) * tjk) by (nonlinear_arith)
        requires
            tij == q.i * q.j,
            tjj == q.j * q.j,
            tjk == q.j * q.k,
            tri == q.r * q.i,
            trk == q.r * q.k,
    ;
    assert(trk * (tij * tkk) == (tri * tjk) * tkk) by (nonlinear_arith)
        requires
            tij == q.i * q.j,
            tjk == q.j * q.k,
            tkk == q.k * q.k,
            tri == q.r * q.i,
            trk == q.r * q.k,
    ;
    assert(trk * (tik * tjk) == (tri * tjk) * tkk) by (nonlinear_arith)
        requires
            tik == q.i * q.k,
            tjk == q.j * q.k,
            tkk == q.k * q.k,
            tri == q.r * q.i,
            trk == q.r * q.k,
    ;
    assert(trk * (tri * tik) == (trr * tii) * tkk) by (nonlinear_arith)
        requires
            tii == q.i * q.i,
            tik == q.i * q.k,
            tkk == q.k * q.k,
            tri == q.r * q.i,
            trk == q.r * q.k,
            trr == q.r * q.r,
    ;
    assert(trk * (tri * trj) == (trr * tri) * tjk) by (nonlinear_arith)
        requires
            tjk == q.j * q.k,
            tri == q.r * q.i,
            trj == q.r * q.j,
            trk == q.r * q.k,
            trr == q.r * q.r,
    ;
    assert(trk * (trj * tjk) == (trr * tjj) * tkk) by (nonlinear_arith)
        requires
            tjj == q.j * q.j,
            tjk == q.j * q.k,
            tkk == q.k * q.k,
            trj == q.r * q.j,
            trk == q.r * q.k,
            trr == q.r * q.r,
    ;
    assert(trk * (trk * tii) == (trr * tii) * tkk) by (nonlinear_arith)
        requires
            tii == q.i * q.i,
            tkk == q.k * q.k,
            trk == q.r * q.k,
            trr == q.r * q.r,
    ;
    assert(trk * (trk * tjj) == (trr * tjj) * tkk) by (nonlinear_arith)
        requires
            tjj == q.j * q.j,
            tkk == q.k * q.k,
            trk == q.r * q.k,
            trr == q.r * q.r,
    ;
    assert(trk * (trk * tkk) == (trr * tkk) * tkk) by (nonlinear_arith)
        requires
            tkk == q.k * q.k,
            trk == q.r * q.k,
            trr == q.r * q.r,
    ;
    assert(trk * (trr * tij) == (trr * tri) * tjk) by (nonlinear_arith)
        requires
            tij == q.i * q.j,
            tjk == q.j * q.k,
            tri == q.r * q.i,
            trk == q.r * q.k,
            trr == q.r * q.r,
    ;
    assert(trk * (trr * trk) == (trr * trr) * tkk) by (nonlinear_arith)
        requires
            tkk == q.k * q.k,
            trk == q.r * q.k,
            trr == q.r * q.r,
    ;
    assert(trr * (tii * tii) == (trr * tii) * tii) by (nonlinear_arith)
        requires
            tii == q.i * q.i,
            trr == q.r * q.r,
    ;
    assert(trr * (tii * tjj) == (trr * tii) * tjj) by (nonlinear_arith)
        requires
            tii == q.i * q.i,
            tjj == q.j * q.j,
            trr == q.r * q.r,
    ;
    assert(trr * (tii * tkk) == (trr * tii) * tkk) by (nonlinear_arith)
        requires
            tii == q.i * q.i,
            tkk == q.k * q.k,
            trr == q.r * q.r,
    ;
    assert(trr * (tjj * tjj) == (trr * tjj) * tjj) by (nonlinear_arith)
        requires
            tjj == q.j * q.j,
            trr == q.r * q.r,
    ;
    assert(trr * (tjj * tkk) == (trr * tjj) * tkk) by (nonlinear_arith)
        requires
            tjj == q.j * q.j,
            tkk == q.k * q.k,
            trr == q.r * q.r,
    ;
    assert(trr * (tjk * tjk) == (trr * tjj) * tkk) by (nonlinear_arith)
        requires
            tjj == q.j * q.j,
            tjk == q.j * q.k,
            tkk == q.k * q.k,
            trr == q.r * q.r,
    ;
    assert(trr * (tkk * tkk) == (trr * tkk) * tkk) by (nonlinear_arith)
        requires
            tkk == q.k * q.k,
            trr == q.r * q.r,
    ;
    assert(trr * (tri * tjk) == (trr * tri) * tjk) by (nonlinear_arith)
        requires
            tjk == q.j * q.k,
            tri == q.r * q.i,
            trr == q.r * q.r,
    ;
    assert(trr * (tri * tri) == (trr * trr) * tii) by (nonlinear_arith)
        requires
            tii == q.i * q.i,
            tri == q.r * q.i,
            trr == q.r * q.r,
    ;
    assert(trr * (trr * tii) == (trr * trr) * tii) by (nonlinear_arith)
        requires
            tii == q.i * q.i,
            trr == q.r * q.r,
    ;
    assert(trr * (trr * tjj) == (trr * trr) * tjj) by (nonlinear_arith)
        requires
            tjj == q.j * q.j,
            trr == q.r * q.r,
    ;
    assert(trr * (trr * tkk) == (trr * trr) * tkk) by (nonlinear_arith)
        requires
            tkk == q.k * q.k,
            trr == q.r * q.r,
    ;
    assert(trr * (trr * trr) == (trr * trr) * trr) by (nonlinear_arith)
        requires
            trr == q.r * q.r,
    ;
    let nq = norm_sq(q);
    let nsq2 = nq * nq;
    assert(nq * trr == (trr * trr) + (trr * tii) + (trr * tjj) + (trr * tkk)) by (nonlinear_arith)
        requires
            nq == trr + tii + tjj + tkk,
    ;
    assert(nq * tii == (trr * tii) + (tii * tii) + (tii * tjj) + (tii * tkk)) by (nonlinear_arith)
        requires
            nq == trr + tii + tjj + tkk,
    ;
    assert(nq * tjj == (trr * tjj) + (tii * tjj) + (tjj * tjj) + (tjj * tkk)) by (nonlinear_arith)
        requires
            nq == trr + tii + tjj + tkk,
    ;
    assert(nq * tkk == (trr * tkk) + (tii * tkk) + (tjj * tkk) + (tkk * tkk)) by (nonlinear_arith)
        requires
            nq == trr + tii + tjj + tkk,
    ;
    assert(nsq2 == nq * trr + nq * tii + nq * tjj + nq * tkk) by (nonlinear_arith)
        requires
            nsq2 == nq * nq,
            nq == trr + tii + tjj + tkk,
    ;
    assert(nsq2 == (trr * trr) + (trr * tii) + (trr * tjj) + (trr * tkk) + (trr * tii) + (tii * tii) + (tii * tjj) + (tii * tkk) + (trr * tjj) + (tii * tjj) + (tjj * tjj) + (tjj * tkk) + (trr * tkk) + (tii * tkk) + (tjj * tkk) + (tkk * tkk));
    assert(nsq2 * nq == nsq2 * trr + nsq2 * tii + nsq2 * tjj + nsq2 * tkk) by (nonlinear_arith)
        requires
            nq == trr + tii + tjj + tkk,
    ;
    assert(nsq2 * trr == ((trr * trr) * trr) + ((trr * tii) * trr) + ((trr * tjj) * trr) + ((trr * tkk) * trr) + ((trr * tii) * trr) + ((tii * tii) * trr) + ((tii * tjj) * trr) + ((tii * tkk) * trr) + ((trr * tjj) * trr) + ((tii * tjj) * trr) + ((tjj * tjj) * trr) + ((tjj * tkk) * trr) + ((trr * tkk) * trr) + ((tii * tkk) * trr) + ((tjj * tkk) * trr) + ((tkk * tkk) * trr)) by (nonlinear_arith)
        requires
            nsq2 == (trr * trr) + (trr * tii) + (trr * tjj) + (trr * tkk) + (trr * tii) + (tii * tii) + (tii * tjj) + (tii * tkk) + (trr * tjj) + (tii * tjj) + (tjj * tjj) + (tjj * tkk) + (trr * tkk) + (tii * tkk) + (tjj * tkk) + (tkk * tkk),
    ;
    assert(nsq2 * tii == ((trr * trr) * tii) + ((trr * tii) * tii) + ((trr * tjj) * tii) + ((trr * tkk) * tii) + ((trr * tii) * tii) + ((tii * tii) * tii) + ((tii * tjj) * tii) + ((tii * tkk) * tii) + ((trr * tjj) * tii) + ((tii * tjj) * tii) + ((tjj * tjj) * tii) + ((tjj * tkk) * tii) + ((trr * tkk) * tii) + ((tii * tkk) * tii) + ((tjj * tkk) * tii) + ((tkk * tkk) * tii)) by (nonlinear_arith)
        requires
            nsq2 == (trr * trr) + (trr * tii) + (trr * tjj) + (trr * tkk) + (trr * tii) + (tii * tii) + (tii * tjj) + (tii * tkk) + (trr * tjj) + (tii * tjj) + (tjj * tjj) + (tjj * tkk) + (trr * tkk) + (tii * tkk) + (tjj * tkk) + (tkk * tkk),
    ;
    assert(nsq2 * tjj == ((trr * trr) * tjj) + ((trr * tii) * tjj) + ((trr * tjj) * tjj) + ((trr * tkk) * tjj) + ((trr * tii) * tjj) + ((tii * tii) * tjj) + ((tii * tjj) * tjj) + ((tii * tkk) * tjj) + ((trr * tjj) * tjj) + ((tii * tjj) * tjj) + ((tjj * tjj) * tjj) + ((tjj * tkk) * tjj) + ((trr * tkk) * tjj) + ((tii * tkk) * tjj) + ((tjj * tkk) * tjj) + ((tkk * tkk) * tjj)) by (nonlinear_arith)
        requires
            nsq2 == (trr * trr) + (trr * tii) + (trr * tjj) + (trr * tkk) + (trr * tii) + (tii * tii) + (tii * tjj) + (tii * tkk) + (trr * tjj) + (tii * tjj) + (tjj * tjj) + (tjj * tkk) + (trr * tkk) + (tii * tkk) + (tjj * tkk) + (tkk * tkk),
    ;
    assert(nsq2 * tkk == ((trr * trr) * tkk) + ((trr * tii) * tkk) + ((trr * tjj) * tkk) + ((trr * tkk) * tkk) + ((trr * tii) * tkk) + ((tii * tii) * tkk) + ((tii * tjj) * tkk) + ((tii * tkk) * tkk) + ((trr * tjj) * tkk) + ((tii * tjj) * tkk) + ((tjj * tjj) * tkk) + ((tjj * tkk) * tkk) + ((trr * tkk) * tkk) + ((tii * tkk) * tkk) + ((tjj * tkk) * tkk) + ((tkk * tkk) * tkk)) by (nonlinear_arith)
        requires
            nsq2 == (trr * trr) + (trr * tii) + (trr * tjj) + (trr * tkk) + (trr * tii) + (tii * tii) + (tii * tjj) + (tii * tkk) + (trr * tjj) + (tii * tjj) + (tjj * tjj) + (tjj * tkk) + (trr * tkk) + (tii * tkk) + (tjj * tkk) + (tkk * tkk),
    ;
    assert((tii * tjj) * tii == (tii * tii) * tjj) by (nonlinear_arith)
        requires
            tii == q.i * q.i,
            tjj == q.j * q.j,
    ;
    assert((tii * tkk) * tii == (tii * tii) * tkk) by (nonlinear_arith)
        requires
            tii == q.i * q.i,
            tkk == q.k * q.k,
    ;
    assert((tjj * tjj) * tii == (tii * tjj) * tjj) by (nonlinear_arith)
        requires
            tii == q.i * q.i,
            tjj == q.j * q.j,
    ;
    assert((tjj * tkk) * tii == (tii * tjj) * tkk) by (nonlinear_arith)
        requires
            tii == q.i * q.i,
            tjj == q.j * q.j,
            tkk == q.k * q.k,
    ;
    assert((tkk * tkk) * tii == (tii * tkk) * tkk) by (nonlinear_arith)
        requires
            tii == q.i * q.i,
            tkk == q.k * q.k,
    ;
    assert((trr * tjj) * tii == (trr * tii) * tjj) by (nonlinear_arith)
        requires
            tii == q.i * q.i,
            tjj == q.j * q.j,
            trr == q.r * q.r,
    ;
    assert((trr * tkk) * tii == (trr * tii) * tkk) by (nonlinear_arith)
        requires
            tii == q.i * q.i,
            tkk == q.k * q.k,
            trr == q.r * q.r,
    ;
    assert((tii * tkk) * tjj == (tii * tjj) * tkk) by (nonlinear_arith)
        requires
            tii == q.i * q.i,
            tjj == q.j * q.j,
            tkk == q.k * q.k,
    ;
    assert((tjj * tkk) * tjj == (tjj * tjj) * tkk) by (nonlinear_arith)
        requires
            tjj == q.j * q.j,
            tkk == q.k * q.k,
    ;
    assert((tkk * tkk) * tjj == (tjj * tkk) * tkk) by (nonlinear_arith)
        requires
            tjj == q.j * q.j,
            tkk == q.k * q.k,
    ;
    assert((trr * tkk) * tjj == (trr * tjj) * tkk) by (nonlinear_arith)
        requires
            tjj == q.j * q.j,
            tkk == q.k * q.k,
            trr == q.r * q.r,
    ;
    assert((tii * tii) * trr == (trr * tii) * tii) by (nonlinear_arith)
        requires
            tii == q.i * q.i,
            trr == q.r * q.r,
    ;
    assert((tii * tjj) * trr == (trr * tii) * tjj) by (nonlinear_arith)
        requires
            tii == q.i * q.i,
            tjj == q.j * q.j,
            trr == q.r * q.r,
    ;
    assert((tii * tkk) * trr == (trr * tii) * tkk) by (nonlinear_arith)
        requires
            tii == q.i * q.i,
            tkk == q.k * q.k,
            trr == q.r * q.r,
    ;
    assert((tjj * tjj) * trr == (trr * tjj) * tjj) by (nonlinear_arith)
        requires
            tjj == q.j * q.j,
            trr == q.r * q.r,
    ;
    assert((tjj * tkk) * trr == (trr * tjj) * tkk) by (nonlinear_arith)
        requires
            tjj == q.j * q.j,
            tkk == q.k * q.k,
            trr == q.r * q.r,
    ;
    assert((tkk * tkk) * trr == (trr * tkk) * tkk) by (nonlinear_arith)
        requires
            tkk == q.k * q.k,
            trr == q.r * q.r,
    ;
    assert((trr * tii) * trr == (trr * trr) * tii) by (nonlinear_arith)
        requires
            tii == q.i * q.i,
            trr == q.r * q.r,
    ;
    assert((trr * tjj) * trr == (trr * trr) * tjj) by (nonlinear_arith)
        requires
            tjj == q.j * q.j,
            trr == q.r * q.r,
    ;
    assert((trr * tkk) * trr == (trr * trr) * tkk) by (nonlinear_arith)
        requires
            tkk == q.k * q.k,
            trr == q.r * q.r,
    ;
    assert(e00 * (cpa - cpb) == e00 * cpa - e00 * cpb) by (nonlinear_arith);
    assert(e01 * (cpc - cpd) == e01 * cpc - e01 * cpd) by (nonlinear_arith);
    assert(e02 * (cpe - cpf) == e02 * cpe - e02 * cpf) by (nonlinear_arith);
    assert(rot3_det(q) == nsq2 * nq);
    assert(norm_sq(q) * norm_sq(q) * norm_sq(q) == nsq2 * nq);
}

} // verus!
