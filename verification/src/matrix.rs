//! Immutable 4x4 fixed-point transform matrices.
//!
//! Row-major, row-vector convention: composition `A.multiply(B)` stands for
//! the transform B applied first when a column vector is sent through
//! [`Matrix::apply`].

use vstd::prelude::*;
use crate::fixed::{absi, fmul, fmul_val, lemma_tdiv_mag_le, FMUL_BOUND, FX_LIMIT, SCALE};

verus! {

/// A 4x4 matrix of fixed-point scalars, row-major.
#[derive(Clone, Copy)]
pub struct Matrix {
    pub m: [[i128; 4]; 4],
}

/// Every entry of `a` has magnitude at most `c`.
pub open spec fn mat_bounded(a: Matrix, c: int) -> bool {
    forall|r: int, q: int|
        0 <= r < 4 && 0 <= q < 4 ==> absi(#[trigger] a.m[r][q] as int) <= c
}

/// Every component of the column vector `v` has magnitude at most `c`.
pub open spec fn vec_bounded(v: [i128; 4], c: int) -> bool {
    forall|r: int| 0 <= r < 4 ==> absi(#[trigger] v[r] as int) <= c
}

/// Row `r`, column `c` of the fixed-point product `a * b`.
pub open spec fn mul_entry(a: Matrix, b: Matrix, r: int, c: int) -> int {
    fmul_val(a.m[r][0] as int, b.m[0][c] as int) + fmul_val(a.m[r][1] as int, b.m[1][c] as int)
        + fmul_val(a.m[r][2] as int, b.m[2][c] as int) + fmul_val(
        a.m[r][3] as int,
        b.m[3][c] as int,
    )
}

/// Row `r` of the fixed-point product `a * v` for a column vector `v`.
pub open spec fn apply_entry(a: Matrix, v: [i128; 4], r: int) -> int {
    fmul_val(a.m[r][0] as int, v[0] as int) + fmul_val(a.m[r][1] as int, v[1] as int) + fmul_val(
        a.m[r][2] as int,
        v[2] as int,
    ) + fmul_val(a.m[r][3] as int, v[3] as int)
}

/// A fixed-point product of bounded factors is bounded.
pub proof fn lemma_fmul_val_mag(a: int, b: int, p: int, q: int)
    requires
        0 <= p,
        0 <= q,
        absi(a) <= p,
        absi(b) <= q,
    ensures
        absi(fmul_val(a, b)) <= (p * q) / (SCALE as int),
{
    assert(absi(a * b) <= p * q) by (nonlinear_arith)
        requires
            0 <= p,
            0 <= q,
            absi(a) <= p,
            absi(b) <= q,
    ;
    lemma_tdiv_mag_le(a * b, SCALE as int, p * q);
}

/// Entry bound for a product of two bounded matrices.
pub proof fn lemma_mul_entry_bound(a: Matrix, b: Matrix, p: int, q: int)
    requires
        0 <= p,
        0 <= q,
        mat_bounded(a, p),
        mat_bounded(b, q),
    ensures
        forall|r: int, c: int|
            0 <= r < 4 && 0 <= c < 4 ==> absi(#[trigger] mul_entry(a, b, r, c)) <= 4 * ((p * q) / (
            SCALE as int)),
{
    assert forall|r: int, c: int| 0 <= r < 4 && 0 <= c < 4 implies absi(
        #[trigger] mul_entry(a, b, r, c),
    ) <= 4 * ((p * q) / (SCALE as int)) by {
        lemma_fmul_val_mag(a.m[r][0] as int, b.m[0][c] as int, p, q);
        lemma_fmul_val_mag(a.m[r][1] as int, b.m[1][c] as int, p, q);
        lemma_fmul_val_mag(a.m[r][2] as int, b.m[2][c] as int, p, q);
        lemma_fmul_val_mag(a.m[r][3] as int, b.m[3][c] as int, p, q);
    }
}

impl Matrix {
    /// Wraps the given rows.
    pub fn new(in_contents: [[i128; 4]; 4]) -> (out: Matrix)
        ensures
            out.m == in_contents,
    {
        Matrix { m: in_contents }
    }

    /// The rows, by value.
    pub fn contents(&self) -> (out: [[i128; 4]; 4])
        ensures
            out == self.m,
    {
        self.m
    }

    /// The matrix product `self * other`, entry by entry; `C[r][c]` is the
    /// fixed-point dot product of row `r` of `self` with column `c` of
    /// `other`.
    pub fn multiply(&self, other: &Matrix) -> (out: Matrix)
        requires
            mat_bounded(*self, FX_LIMIT as int),
            mat_bounded(*other, FX_LIMIT as int),
        ensures
            forall|r: int, c: int|
                0 <= r < 4 && 0 <= c < 4 ==> #[trigger] out.m[r][c] as int == mul_entry(
                    *self,
                    *other,
                    r,
                    c,
                ),
            mat_bounded(out, 4 * (FMUL_BOUND as int)),
    {
        let a = &self.m;
        let b = &other.m;
        let out = Matrix::new(
            [
                [
                    fmul(a[0][0], b[0][0]) + fmul(a[0][1], b[1][0]) + fmul(a[0][2], b[2][0]) + fmul(
                        a[0][3],
                        b[3][0],
                    ),
                    fmul(a[0][0], b[0][1]) + fmul(a[0][1], b[1][1]) + fmul(a[0][2], b[2][1]) + fmul(
                        a[0][3],
                        b[3][1],
                    ),
                    fmul(a[0][0], b[0][2]) + fmul(a[0][1], b[1][2]) + fmul(a[0][2], b[2][2]) + fmul(
                        a[0][3],
                        b[3][2],
                    ),
                    fmul(a[0][0], b[0][3]) + fmul(a[0][1], b[1][3]) + fmul(a[0][2], b[2][3]) + fmul(
                        a[0][3],
                        b[3][3],
                    ),
                ],
                [
                    fmul(a[1][0], b[0][0]) + fmul(a[1][1], b[1][0]) + fmul(a[1][2], b[2][0]) + fmul(
                        a[1][3],
                        b[3][0],
                    ),
                    fmul(a[1][0], b[0][1]) + fmul(a[1][1], b[1][1]) + fmul(a[1][2], b[2][1]) + fmul(
                        a[1][3],
                        b[3][1],
                    ),
                    fmul(a[1][0], b[0][2]) + fmul(a[1][1], b[1][2]) + fmul(a[1][2], b[2][2]) + fmul(
                        a[1][3],
                        b[3][2],
                    ),
                    fmul(a[1][0], b[0][3]) + fmul(a[1][1], b[1][3]) + fmul(a[1][2], b[2][3]) + fmul(
                        a[1][3],
                        b[3][3],
                    ),
                ],
                [
                    fmul(a[2][0], b[0][0]) + fmul(a[2][1], b[1][0]) + fmul(a[2][2], b[2][0]) + fmul(
                        a[2][3],
                        b[3][0],
                    ),
                    fmul(a[2][0], b[0][1]) + fmul(a[2][1], b[1][1]) + fmul(a[2][2], b[2][1]) + fmul(
                        a[2][3],
                        b[3][1],
                    ),
                    fmul(a[2][0], b[0][2]) + fmul(a[2][1], b[1][2]) + fmul(a[2][2], b[2][2]) + fmul(
                        a[2][3],
                        b[3][2],
                    ),
                    fmul(a[2][0], b[0][3]) + fmul(a[2][1], b[1][3]) + fmul(a[2][2], b[2][3]) + fmul(
                        a[2][3],
                        b[3][3],
                    ),
                ],
                [
                    fmul(a[3][0], b[0][0]) + fmul(a[3][1], b[1][0]) + fmul(a[3][2], b[2][0]) + fmul(
                        a[3][3],
                        b[3][0],
                    ),
                    fmul(a[3][0], b[0][1]) + fmul(a[3][1], b[1][1]) + fmul(a[3][2], b[2][1]) + fmul(
                        a[3][3],
                        b[3][1],
                    ),
                    fmul(a[3][0], b[0][2]) + fmul(a[3][1], b[1][2]) + fmul(a[3][2], b[2][2]) + fmul(
                        a[3][3],
                        b[3][2],
                    ),
                    fmul(a[3][0], b[0][3]) + fmul(a[3][1], b[1][3]) + fmul(a[3][2], b[2][3]) + fmul(
                        a[3][3],
                        b[3][3],
                    ),
                ],
            ],
        );
        out
    }

    /// The matrix applied to a homogeneous column vector.
    pub fn apply(&self, v: &[i128; 4]) -> (out: [i128; 4])
        requires
            mat_bounded(*self, FX_LIMIT as int),
            vec_bounded(*v, FX_LIMIT as int),
        ensures
            forall|r: int|
                0 <= r < 4 ==> #[trigger] out[r] as int == apply_entry(*self, *v, r),
            vec_bounded(out, 4 * (FMUL_BOUND as int)),
    {
        let a = &self.m;
        [
            fmul(a[0][0], v[0]) + fmul(a[0][1], v[1]) + fmul(a[0][2], v[2]) + fmul(a[0][3], v[3]),
            fmul(a[1][0], v[0]) + fmul(a[1][1], v[1]) + fmul(a[1][2], v[2]) + fmul(a[1][3], v[3]),
            fmul(a[2][0], v[0]) + fmul(a[2][1], v[1]) + fmul(a[2][2], v[2]) + fmul(a[2][3], v[3]),
            fmul(a[3][0], v[0]) + fmul(a[3][1], v[1]) + fmul(a[3][2], v[2]) + fmul(a[3][3], v[3]),
        ]
    }
}

} // verus!
