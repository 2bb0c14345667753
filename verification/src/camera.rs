//! The orbital camera.
//!
//! The camera orbits a fixed focus point at radius `r`, holding its
//! orientation as a unit quaternion. Discrete commands (spin, orbit,
//! azimuth, zoom) left-multiply the orientation by a small fixed-angle step
//! quaternion and then recompute the derived view, perspective and
//! view-projection matrices, renormalising the orientation first so that
//! rounding drift never accumulates. Angles enter only as half-angle
//! cosine/sine pairs, already fixed-point; the field of view enters as the
//! precomputed factor `1 / tan(fov / 2)`.

use vstd::prelude::*;
use crate::fixed::{absi, div_trunc, fmul_val, lemma_tdiv_mag_le, tdiv, FX_LIMIT, SCALE};
use crate::matrix::{lemma_mul_entry_bound, mat_bounded, mul_entry, Matrix};
use crate::quaternion::{
    lemma_mul_fixed_norm_dev, lemma_normalised_norm, norm_sq, q_bounded, quat_mul_fixed,
    quat_normalised, rot_entry, Quat, Quaternion,
};

verus! {

/// The fixed zoom step: one tenth of a unit.
pub const ZOOM_STEP: i128 = 100_000;

/// Cosine of half the fixed angular step (2.5 degrees), fixed-point.
pub const COS_HALF_STEP: i128 = 999_048;

/// Sine of half the fixed angular step (2.5 degrees), fixed-point.
pub const SIN_HALF_STEP: i128 = 43_620;

/// Largest magnitude accepted for a focus coordinate (a thousand units).
pub const FOCUS_LIMIT: i128 = 1_000_000_000;

/// Largest zoom radius (a thousand units); `zoom_out` stops there.
pub const RADIUS_LIMIT: i128 = 1_000_000_000;

/// Largest clip-plane distance (a thousand units).
pub const PLANE_LIMIT: i128 = 1_000_000_000;

/// Largest perspective scale factor `1 / tan(fov / 2)` (a thousand).
pub const S_FACTOR_LIMIT: i128 = 1_000_000_000;

/// Largest screen dimension in pixels.
pub const SCREEN_LIMIT: u32 = 100_000;

/// Entry `(r, c)` of the zoom matrix: the identity, with a translation by
/// `rad` along the view axis in the last column.
pub open spec fn zoom_entry(rad: int, r: int, c: int) -> int {
    if r == 2 && c == 3 {
        rad
    } else if r == c && 0 <= r < 4 {
        SCALE as int
    } else {
        0
    }
}

/// Entry `(r, c)` of the focus-translation matrix: the identity, with the
/// negated focus point in the last column.
pub open spec fn trans_entry(fx: int, fy: int, fz: int, r: int, c: int) -> int {
    if r == 0 && c == 3 {
        -fx
    } else if r == 1 && c == 3 {
        -fy
    } else if r == 2 && c == 3 {
        -fz
    } else if r == c && 0 <= r < 4 {
        SCALE as int
    } else {
        0
    }
}

/// Entry `(r, c)` of the perspective matrix for scale factor `s`, near and
/// far planes `n` and `f`, and screen `w` by `h`: the diagonal carries `s`
/// corrected by the aspect ratio, the third row the standard depth mapping,
/// and the last row picks out the depth coordinate.
pub open spec fn persp_entry(s: int, n: int, f: int, w: int, h: int, r: int, c: int) -> int {
    if r == 0 && c == 0 {
        if w > h {
            tdiv(s * h, w)
        } else {
            s
        }
    } else if r == 1 && c == 1 {
        if w > h {
            s
        } else {
            tdiv(s * w, h)
        }
    } else if r == 2 && c == 2 {
        tdiv((f + n) * (SCALE as int), f - n)
    } else if r == 2 && c == 3 {
        -tdiv(2 * f * n, f - n)
    } else if r == 3 && c == 2 {
        SCALE as int
    } else {
        0
    }
}

/// Entry `(r, c)` of the product `zoom * rotation`.
pub open spec fn zr_entry(q: Quat, rad: int, r: int, c: int) -> int {
    fmul_val(zoom_entry(rad, r, 0), rot_entry(q, 0, c)) + fmul_val(
        zoom_entry(rad, r, 1),
        rot_entry(q, 1, c),
    ) + fmul_val(zoom_entry(rad, r, 2), rot_entry(q, 2, c)) + fmul_val(
        zoom_entry(rad, r, 3),
        rot_entry(q, 3, c),
    )
}

/// Entry `(r, c)` of the view matrix `zoom * rotation * focus_translation`
/// for orientation `q`, radius `rad` and focus point `(fx, fy, fz)`.
pub open spec fn view_entry(q: Quat, rad: int, fx: int, fy: int, fz: int, r: int, c: int) -> int {
    fmul_val(zr_entry(q, rad, r, 0), trans_entry(fx, fy, fz, 0, c)) + fmul_val(
        zr_entry(q, rad, r, 1),
        trans_entry(fx, fy, fz, 1, c),
    ) + fmul_val(zr_entry(q, rad, r, 2), trans_entry(fx, fy, fz, 2, c)) + fmul_val(
        zr_entry(q, rad, r, 3),
        trans_entry(fx, fy, fz, 3, c),
    )
}

/// The orbital camera: focus point, zoom radius, orientation quaternion,
/// projection inputs, and the three derived matrices.
pub struct Camera {
    pub focus: [i128; 3],
    pub r: i128,
    pub quaternion: Quaternion,
    pub cos_half_step: i128,
    pub sin_half_step: i128,
    pub r_step: i128,
    pub s_factor: i128,
    pub near_plane: i128,
    pub far_plane: i128,
    pub screen_size: [u32; 2],
    pub view_matrix: Matrix,
    pub perspective_matrix: Matrix,
    pub vp_matrix: Matrix,
}

/// The camera's input fields are in range: focus, radius and clip planes
/// within their limits, the far plane strictly beyond the near plane, a
/// positive perspective factor, a nonempty screen, and the two step
/// constants as built.
pub open spec fn camera_inputs_ok(c: Camera) -> bool {
    absi(c.focus[0] as int) <= FOCUS_LIMIT as int && absi(c.focus[1] as int) <= FOCUS_LIMIT as int
        && absi(c.focus[2] as int) <= FOCUS_LIMIT as int && 0 <= c.r <= RADIUS_LIMIT
        && c.r_step == ZOOM_STEP && c.cos_half_step == COS_HALF_STEP && c.sin_half_step
        == SIN_HALF_STEP && 0 < c.near_plane && c.near_plane < c.far_plane && c.far_plane
        <= PLANE_LIMIT && 0 < c.s_factor <= S_FACTOR_LIMIT && 1 <= c.screen_size[0] <= SCREEN_LIMIT
        && 1 <= c.screen_size[1] <= SCREEN_LIMIT
}

/// The orientation is a normalised unit quaternion: components within one,
/// squared norm within nine millionths of one.
pub open spec fn camera_oriented(c: Camera) -> bool {
    q_bounded(c.quaternion@, SCALE as int) && absi(norm_sq(c.quaternion@) - 1_000_000_000_000) <= 9
        * (SCALE as int)
}

/// The camera invariant: every public command requires it and gives it
/// back, so after any sequence of spin, orbit, azimuth, zoom, resize and
/// reset commands the orientation is still a unit quaternion within nine
/// millionths, and the derived matrices stay within the fixed-point range.
pub open spec fn camera_valid(c: Camera) -> bool {
    camera_inputs_ok(c) && camera_oriented(c)
}

/// A quaternion close enough to unit norm for one renormalisation: the
/// state of the orientation just after a command composed it with a step,
/// before `update` renormalises.
pub open spec fn near_unit(q: Quat) -> bool {
    q_bounded(q, 16_000_000) && absi(norm_sq(q) - 1_000_000_000_000) <= 900_000_000
}

/// The derived matrices agree exactly with the camera's input fields, the
/// orientation being the normalisation of `q`: what one `update` computes.
pub open spec fn camera_recomputed(c: Camera, q: Quat) -> bool {
    c.quaternion@ == quat_normalised(q) && (forall|rr: int, cc: int|
        0 <= rr < 4 && 0 <= cc < 4 ==> #[trigger] c.perspective_matrix.m[rr][cc] as int
            == persp_entry(
            c.s_factor as int,
            c.near_plane as int,
            c.far_plane as int,
            c.screen_size[0] as int,
            c.screen_size[1] as int,
            rr,
            cc,
        )) && (forall|rr: int, cc: int|
        0 <= rr < 4 && 0 <= cc < 4 ==> #[trigger] c.view_matrix.m[rr][cc] as int == view_entry(
            quat_normalised(q),
            c.r as int,
            c.focus[0] as int,
            c.focus[1] as int,
            c.focus[2] as int,
            rr,
            cc,
        )) && (forall|rr: int, cc: int|
        0 <= rr < 4 && 0 <= cc < 4 ==> #[trigger] c.vp_matrix.m[rr][cc] as int == mul_entry(
            c.perspective_matrix,
            c.view_matrix,
            rr,
            cc,
        ))
}

/// The input fields of `a` equal those of `b` (derived matrices and
/// orientation aside).
pub open spec fn same_inputs(a: Camera, b: Camera) -> bool {
    a.focus == b.focus && a.r == b.r && a.cos_half_step == b.cos_half_step && a.sin_half_step
        == b.sin_half_step && a.r_step == b.r_step && a.s_factor == b.s_factor && a.near_plane
        == b.near_plane && a.far_plane == b.far_plane && a.screen_size == b.screen_size
}

impl Camera {
    /// A camera orbiting `in_focus` at radius `in_r`, its home orientation
    /// built from three half-angle rotations as in [`Camera::set_angles`],
    /// its projection from the factor `1 / tan(fov / 2)`, the clip planes
    /// and the screen size. All derived matrices are computed before the
    /// camera is handed out.
    pub fn new(
        in_focus: [i128; 3],
        cos_half_theta: i128,
        sin_half_theta: i128,
        cos_half_phi: i128,
        sin_half_phi: i128,
        cos_half_psi: i128,
        sin_half_psi: i128,
        in_r: i128,
        in_s_factor: i128,
        in_near_plane: i128,
        in_far_plane: i128,
        in_width: u32,
        in_height: u32,
    ) -> (out: Camera)
        requires
            absi(in_focus[0] as int) <= FOCUS_LIMIT as int,
            absi(in_focus[1] as int) <= FOCUS_LIMIT as int,
            absi(in_focus[2] as int) <= FOCUS_LIMIT as int,
            unit_pair(cos_half_theta as int, sin_half_theta as int),
            unit_pair(cos_half_phi as int, sin_half_phi as int),
            unit_pair(cos_half_psi as int, sin_half_psi as int),
            0 <= in_r <= RADIUS_LIMIT,
            0 < in_s_factor <= S_FACTOR_LIMIT,
            0 < in_near_plane,
            in_near_plane < in_far_plane,
            in_far_plane <= PLANE_LIMIT,
            1 <= in_width <= SCREEN_LIMIT,
            1 <= in_height <= SCREEN_LIMIT,
        ensures
            out.focus == in_focus && out.r == in_r && out.s_factor == in_s_factor
                && out.near_plane == in_near_plane && out.far_plane == in_far_plane
                && out.screen_size[0] == in_width && out.screen_size[1] == in_height,
            camera_recomputed(
                out,
                quat_mul_fixed(
                    quat_mul_fixed(
                        Quat {
                            r: cos_half_psi as int,
                            i: 0,
                            j: 0,
                            k: sin_half_psi as int,
                        },
                        Quat {
                            r: cos_half_phi as int,
                            i: 0,
                            j: sin_half_phi as int,
                            k: 0,
                        },
                    ),
                    Quat {
                        r: cos_half_theta as int,
                        i: sin_half_theta as int,
                        j: 0,
                        k: 0,
                    },
                ),
            ),
            camera_valid(out),
    {
        let zero = Matrix::new([[0, 0, 0, 0], [0, 0, 0, 0], [0, 0, 0, 0], [0, 0, 0, 0]]);
        let mut camera = Camera {
            focus: in_focus,
            r: in_r,
            quaternion: Quaternion::new(SCALE, 0, 0, 0),
            cos_half_step: COS_HALF_STEP,
            sin_half_step: SIN_HALF_STEP,
            r_step: ZOOM_STEP,
            s_factor: in_s_factor,
            near_plane: in_near_plane,
            far_plane: in_far_plane,
            screen_size: [in_width, in_height],
            view_matrix: zero,
            perspective_matrix: zero,
            vp_matrix: zero,
        };
        camera.set_angles(
            cos_half_theta,
            sin_half_theta,
            cos_half_phi,
            sin_half_phi,
            cos_half_psi,
            sin_half_psi,
            in_r,
        );
        camera
    }

    /// The view matrix: world space to camera space.
    pub fn view_matrix(&self) -> (out: Matrix)
        ensures
            out == self.view_matrix,
    {
        self.view_matrix
    }

    /// The perspective matrix: camera space to clip space.
    pub fn perspective_matrix(&self) -> (out: Matrix)
        ensures
            out == self.perspective_matrix,
    {
        self.perspective_matrix
    }

    /// The view-projection matrix: the product of the two.
    pub fn vp_matrix(&self) -> (out: Matrix)
        ensures
            out == self.vp_matrix,
    {
        self.vp_matrix
    }

    /// The orientation quaternion.
    pub fn quaternion(&self) -> (out: Quaternion)
        ensures
            out == self.quaternion,
    {
        self.quaternion
    }

    /// Recomputes the three derived matrices from the current inputs,
    /// renormalising the orientation first. Invoked at the end of every
    /// command; the derived matrices are therefore always consistent with
    /// the inputs at the public boundary.
    pub fn update(&mut self)
        requires
            camera_inputs_ok(*old(self)),
            near_unit(old(self).quaternion@),
        ensures
            same_inputs(*final(self), *old(self)),
            camera_recomputed(*final(self), old(self).quaternion@),
            camera_valid(*final(self)),
            mat_bounded(final(self).view_matrix, FX_LIMIT as int),
            mat_bounded(final(self).perspective_matrix, FX_LIMIT as int),
    {
        let ghost q0 = old(self).quaternion@;
        // Perspective matrix.
        let w = self.screen_size[0];
        let h = self.screen_size[1];
        let s = self.s_factor;
        let n = self.near_plane;
        let f = self.far_plane;
        proof {
            assert(absi(s as int * (h as int)) <= 100_000_000_000_000int && absi(
                s as int * (w as int),
            ) <= 100_000_000_000_000int) by (nonlinear_arith)
                requires
                    0 < s <= 1_000_000_000,
                    1 <= h <= 100_000,
                    1 <= w <= 100_000,
            ;
            assert(absi(2 * (f as int) * (n as int)) <= 2_000_000_000_000_000_000int)
                by (nonlinear_arith)
                requires
                    0 < n,
                    n < f,
                    f <= 1_000_000_000,
            ;
        }
        let p00: i128 = if w > h {
            div_trunc(s * (h as i128), w as i128)
        } else {
            s
        };
        let p11: i128 = if w > h {
            s
        } else {
            div_trunc(s * (w as i128), h as i128)
        };
        let p22: i128 = div_trunc((f + n) * SCALE, f - n);
        let p23: i128 = -div_trunc(2 * f * n, f - n);
        proof {
            lemma_tdiv_mag_le(s as int * (h as int), w as int, 100_000_000_000_000int);
            lemma_tdiv_mag_le(s as int * (w as int), h as int, 100_000_000_000_000int);
            crate::fixed::lemma_div_le_self(100_000_000_000_000int, w as int);
            crate::fixed::lemma_div_le_self(100_000_000_000_000int, h as int);
            lemma_tdiv_mag_le((f + n) as int * (SCALE as int), (f - n) as int,
                2_000_000_000_000_000int);
            crate::fixed::lemma_div_le_self(2_000_000_000_000_000int, (f - n) as int);
            lemma_tdiv_mag_le(2 * (f as int) * (n as int), (f - n) as int,
                2_000_000_000_000_000_000int);
            crate::fixed::lemma_div_le_self(2_000_000_000_000_000_000int, (f - n) as int);
        }
        let persp = Matrix::new(
            [
                [p00, 0, 0, 0],
                [0, p11, 0, 0],
                [0, 0, p22, p23],
                [0, 0, SCALE, 0],
            ],
        );
        proof {
            assert forall|rr: int, cc: int| 0 <= rr < 4 && 0 <= cc < 4 implies #[trigger] persp.m[rr][cc] as int
                == persp_entry(s as int, n as int, f as int, w as int, h as int, rr, cc) by {}
            assert(mat_bounded(persp, FX_LIMIT as int));
        }
        self.perspective_matrix = persp;

        // Focus translation.
        let ft = Matrix::new(
            [
                [SCALE, 0, 0, -self.focus[0]],
                [0, SCALE, 0, -self.focus[1]],
                [0, 0, SCALE, -self.focus[2]],
                [0, 0, 0, SCALE],
            ],
        );
        proof {
            assert forall|rr: int, cc: int| 0 <= rr < 4 && 0 <= cc < 4 implies #[trigger] ft.m[rr][cc] as int
                == trans_entry(
                old(self).focus[0] as int,
                old(self).focus[1] as int,
                old(self).focus[2] as int,
                rr,
                cc,
            ) by {}
            assert(mat_bounded(ft, FOCUS_LIMIT as int));
        }

        // Orientation, renormalised, then its rotation matrix.
        proof {
            lemma_normalised_norm(q0);
        }
        self.quaternion.normalise();
        let rot = self.quaternion.rotation_matrix();

        // Zoom translation.
        let zm = Matrix::new(
            [
                [SCALE, 0, 0, 0],
                [0, SCALE, 0, 0],
                [0, 0, SCALE, self.r],
                [0, 0, 0, SCALE],
            ],
        );
        proof {
            assert forall|rr: int, cc: int| 0 <= rr < 4 && 0 <= cc < 4 implies #[trigger] zm.m[rr][cc] as int
                == zoom_entry(old(self).r as int, rr, cc) by {}
            assert(mat_bounded(zm, RADIUS_LIMIT as int));
        }

        // view = zoom * rotation * focus_translation.
        let zr = zm.multiply(&rot);
        proof {
            lemma_mul_entry_bound(zm, rot, RADIUS_LIMIT as int, 5 * (SCALE as int));
            assert(mat_bounded(zr, 20_000_000_000int));
            assert forall|rr: int, cc: int| 0 <= rr < 4 && 0 <= cc < 4 implies #[trigger] zr.m[rr][cc] as int
                == zr_entry(quat_normalised(q0), old(self).r as int, rr, cc) by {}
        }
        let view = zr.multiply(&ft);
        proof {
            lemma_mul_entry_bound(zr, ft, 20_000_000_000int, FOCUS_LIMIT as int);
            assert(mat_bounded(view, 80_000_000_000_000int));
            assert forall|rr: int, cc: int| 0 <= rr < 4 && 0 <= cc < 4 implies #[trigger] view.m[rr][cc] as int
                == view_entry(
                quat_normalised(q0),
                old(self).r as int,
                old(self).focus[0] as int,
                old(self).focus[1] as int,
                old(self).focus[2] as int,
                rr,
                cc,
            ) by {}
        }
        self.view_matrix = view;
        self.vp_matrix = self.perspective_matrix.multiply(&self.view_matrix);
    }

    /// Rolls the view clockwise about the view axis by one fixed step and
    /// recomputes the matrices.
    pub fn spin_clockwise(&mut self)
        requires
            camera_valid(*old(self)),
        ensures
            same_inputs(*final(self), *old(self)),
            camera_recomputed(
                *final(self),
                quat_mul_fixed(
                    Quat {
                        r: COS_HALF_STEP as int,
                        i: 0,
                        j: 0,
                        k: -SIN_HALF_STEP as int,
                    },
                    old(self).quaternion@,
                ),
            ),
            camera_valid(*final(self)),
    {
        let step = Quaternion::new(self.cos_half_step, 0, 0, -self.sin_half_step);
        proof {
            lemma_mul_fixed_norm_dev(step@, old(self).quaternion@, 1_000_000, 1_000_000,
                9_000_000);
            crate::quaternion::lemma_mul_fixed_bounded(step@, old(self).quaternion@, 1_000_000,
                1_000_000);
        }
        self.quaternion.left_multiply(&step);
        self.update();
    }

    /// Rolls the view anticlockwise about the view axis by one fixed step
    /// and recomputes the matrices.
    pub fn spin_anticlockwise(&mut self)
        requires
            camera_valid(*old(self)),
        ensures
            same_inputs(*final(self), *old(self)),
            camera_recomputed(
                *final(self),
                quat_mul_fixed(
                    Quat { r: COS_HALF_STEP as int, i: 0, j: 0, k: SIN_HALF_STEP as int },
                    old(self).quaternion@,
                ),
            ),
            camera_valid(*final(self)),
    {
        let step = Quaternion::new(self.cos_half_step, 0, 0, self.sin_half_step);
        proof {
            lemma_mul_fixed_norm_dev(step@, old(self).quaternion@, 1_000_000, 1_000_000,
                9_000_000);
            crate::quaternion::lemma_mul_fixed_bounded(step@, old(self).quaternion@, 1_000_000,
                1_000_000);
        }
        self.quaternion.left_multiply(&step);
        self.update();
    }

    /// Tilts the view up about the screen-horizontal axis by one fixed step
    /// and recomputes the matrices.
    pub fn azimuth_up(&mut self)
        requires
            camera_valid(*old(self)),
        ensures
            same_inputs(*final(self), *old(self)),
            camera_recomputed(
                *final(self),
                quat_mul_fixed(
                    Quat { r: COS_HALF_STEP as int, i: SIN_HALF_STEP as int, j: 0, k: 0 },
                    old(self).quaternion@,
                ),
            ),
            camera_valid(*final(self)),
    {
        let step = Quaternion::new(self.cos_half_step, self.sin_half_step, 0, 0);
        proof {
            lemma_mul_fixed_norm_dev(step@, old(self).quaternion@, 1_000_000, 1_000_000,
                9_000_000);
            crate::quaternion::lemma_mul_fixed_bounded(step@, old(self).quaternion@, 1_000_000,
                1_000_000);
        }
        self.quaternion.left_multiply(&step);
        self.update();
    }

    /// Tilts the view down about the screen-horizontal axis by one fixed
    /// step and recomputes the matrices.
    pub fn azimuth_down(&mut self)
        requires
            camera_valid(*old(self)),
        ensures
            same_inputs(*final(self), *old(self)),
            camera_recomputed(
                *final(self),
                quat_mul_fixed(
                    Quat {
                        r: COS_HALF_STEP as int,
                        i: -SIN_HALF_STEP as int,
                        j: 0,
                        k: 0,
                    },
                    old(self).quaternion@,
                ),
            ),
            camera_valid(*final(self)),
    {
        let step = Quaternion::new(self.cos_half_step, -self.sin_half_step, 0, 0);
        proof {
            lemma_mul_fixed_norm_dev(step@, old(self).quaternion@, 1_000_000, 1_000_000,
                9_000_000);
            crate::quaternion::lemma_mul_fixed_bounded(step@, old(self).quaternion@, 1_000_000,
                1_000_000);
        }
        self.quaternion.left_multiply(&step);
        self.update();
    }

    /// Orbits the camera right about the screen-vertical axis by one fixed
    /// step and recomputes the matrices.
    pub fn orbit_right(&mut self)
        requires
            camera_valid(*old(self)),
        ensures
            same_inputs(*final(self), *old(self)),
            camera_recomputed(
                *final(self),
                quat_mul_fixed(
                    Quat {
                        r: COS_HALF_STEP as int,
                        i: 0,
                        j: -SIN_HALF_STEP as int,
                        k: 0,
                    },
                    old(self).quaternion@,
                ),
            ),
            camera_valid(*final(self)),
    {
        let step = Quaternion::new(self.cos_half_step, 0, -self.sin_half_step, 0);
        proof {
            lemma_mul_fixed_norm_dev(step@, old(self).quaternion@, 1_000_000, 1_000_000,
                9_000_000);
            crate::quaternion::lemma_mul_fixed_bounded(step@, old(self).quaternion@, 1_000_000,
                1_000_000);
        }
        self.quaternion.left_multiply(&step);
        self.update();
    }

    /// Orbits the camera left about the screen-vertical axis by one fixed
    /// step and recomputes the matrices.
    pub fn orbit_left(&mut self)
        requires
            camera_valid(*old(self)),
        ensures
            same_inputs(*final(self), *old(self)),
            camera_recomputed(
                *final(self),
                quat_mul_fixed(
                    Quat { r: COS_HALF_STEP as int, i: 0, j: SIN_HALF_STEP as int, k: 0 },
                    old(self).quaternion@,
                ),
            ),
            camera_valid(*final(self)),
    {
        let step = Quaternion::new(self.cos_half_step, 0, self.sin_half_step, 0);
        proof {
            lemma_mul_fixed_norm_dev(step@, old(self).quaternion@, 1_000_000, 1_000_000,
                9_000_000);
            crate::quaternion::lemma_mul_fixed_bounded(step@, old(self).quaternion@, 1_000_000,
                1_000_000);
        }
        self.quaternion.left_multiply(&step);
        self.update();
    }

    /// Steps the camera toward the focus, unless it is already within one
    /// step: the floor guard keeps the radius strictly positive.
    pub fn zoom_in(&mut self)
        requires
            camera_valid(*old(self)),
        ensures
            final(self).r as int == if old(self).r > ZOOM_STEP {
                old(self).r - ZOOM_STEP
            } else {
                old(self).r as int
            },
            final(self).r >= 0,
            final(self).focus == old(self).focus && final(self).s_factor == old(self).s_factor
                && final(self).near_plane == old(self).near_plane && final(self).far_plane == old(self).far_plane && final(self).screen_size == old(self).screen_size,
            camera_recomputed(*final(self), old(self).quaternion@),
            camera_valid(*final(self)),
    {
        if self.r > self.r_step {
            self.r = self.r - self.r_step;
        }
        self.update();
    }

    /// Steps the camera away from the focus. The radius saturates at
    /// [`RADIUS_LIMIT`], the machine bound the fixed-point range imposes.
    pub fn zoom_out(&mut self)
        requires
            camera_valid(*old(self)),
        ensures
            final(self).r as int == if old(self).r + ZOOM_STEP <= RADIUS_LIMIT {
                old(self).r + ZOOM_STEP
            } else {
                old(self).r as int
            },
            final(self).focus == old(self).focus && final(self).s_factor == old(self).s_factor
                && final(self).near_plane == old(self).near_plane && final(self).far_plane == old(self).far_plane && final(self).screen_size == old(self).screen_size,
            camera_recomputed(*final(self), old(self).quaternion@),
            camera_valid(*final(self)),
    {
        if self.r + self.r_step <= RADIUS_LIMIT {
            self.r = self.r + self.r_step;
        }
        self.update();
    }

    /// Records a new screen size and recomputes the matrices.
    pub fn set_screen_size(&mut self, in_x: u32, in_y: u32)
        requires
            camera_valid(*old(self)),
            1 <= in_x <= SCREEN_LIMIT,
            1 <= in_y <= SCREEN_LIMIT,
        ensures
            final(self).screen_size[0] == in_x && final(self).screen_size[1] == in_y,
            final(self).focus == old(self).focus && final(self).r == old(self).r && final(self).s_factor == old(self).s_factor && final(self).near_plane == old(self).near_plane
                && final(self).far_plane == old(self).far_plane,
            camera_recomputed(*final(self), old(self).quaternion@),
            camera_valid(*final(self)),
    {
        self.screen_size = [in_x, in_y];
        self.update();
    }

    /// Rebuilds the orientation from three half-angle rotations, composed
    /// spin-orbit-azimuth: the spin `psi` about the view axis, then the
    /// orbit `phi` about the screen-vertical axis, then the azimuth `theta`
    /// about the screen-horizontal axis (a fixed, non-commutative order:
    /// the canonical home pose). Resets the zoom radius and recomputes the
    /// matrices. Each rotation enters as the fixed-point cosine and sine of
    /// its half angle, which must form a unit pair.
    pub fn set_angles(
        &mut self,
        cos_half_theta: i128,
        sin_half_theta: i128,
        cos_half_phi: i128,
        sin_half_phi: i128,
        cos_half_psi: i128,
        sin_half_psi: i128,
        in_r: i128,
    )
        requires
            camera_inputs_ok(*old(self)),
            unit_pair(cos_half_theta as int, sin_half_theta as int),
            unit_pair(cos_half_phi as int, sin_half_phi as int),
            unit_pair(cos_half_psi as int, sin_half_psi as int),
            0 <= in_r <= RADIUS_LIMIT,
        ensures
            final(self).r == in_r,
            final(self).focus == old(self).focus && final(self).s_factor == old(self).s_factor
                && final(self).near_plane == old(self).near_plane && final(self).far_plane == old(self).far_plane && final(self).screen_size == old(self).screen_size,
            camera_recomputed(
                *final(self),
                quat_mul_fixed(
                    quat_mul_fixed(
                        Quat {
                            r: cos_half_psi as int,
                            i: 0,
                            j: 0,
                            k: sin_half_psi as int,
                        },
                        Quat {
                            r: cos_half_phi as int,
                            i: 0,
                            j: sin_half_phi as int,
                            k: 0,
                        },
                    ),
                    Quat {
                        r: cos_half_theta as int,
                        i: sin_half_theta as int,
                        j: 0,
                        k: 0,
                    },
                ),
            ),
            camera_valid(*final(self)),
    {
        let qz = Quaternion::new(cos_half_psi, 0, 0, sin_half_psi);
        let qy = Quaternion::new(cos_half_phi, 0, sin_half_phi, 0);
        let qx = Quaternion::new(cos_half_theta, sin_half_theta, 0, 0);
        let q1 = qz.multiply(&qy);
        proof {
            lemma_mul_fixed_norm_dev(qz@, qy@, 1_000_000, 8_000_000, 8_000_000);
            crate::quaternion::lemma_mul_fixed_bounded(qz@, qy@, 1_000_000, 1_000_000);
        }
        let q2 = q1.multiply(&qx);
        proof {
            lemma_mul_fixed_norm_dev(q1@, qx@, 4_000_000, 152_000_064, 8_000_000);
            crate::quaternion::lemma_mul_fixed_bounded(q1@, qx@, 4_000_000, 1_000_000);
        }
        self.quaternion = q2;
        self.r = in_r;
        self.update();
    }
}

/// A fixed-point cosine/sine pair of one angle: each within one, and the
/// sum of squares within eight millionths of one.
pub open spec fn unit_pair(c: int, s: int) -> bool {
    absi(c) <= SCALE as int && absi(s) <= SCALE as int && absi(
        c * c + s * s - 1_000_000_000_000,
    ) <= 8_000_000
}

/// Recomputation is deterministic: two cameras with the same inputs and the
/// same pre-normalisation orientation hold identical derived matrices after
/// recomputation — the matrices are functions of the inputs alone.
pub proof fn lemma_update_deterministic(c1: Camera, c2: Camera, q: Quat)
    requires
        same_inputs(c1, c2),
        camera_recomputed(c1, q),
        camera_recomputed(c2, q),
    ensures
        c1.quaternion@ == c2.quaternion@,
        forall|rr: int, cc: int|
            0 <= rr < 4 && 0 <= cc < 4 ==> #[trigger] c1.view_matrix.m[rr][cc]
                == c2.view_matrix.m[rr][cc],
        forall|rr: int, cc: int|
            0 <= rr < 4 && 0 <= cc < 4 ==> #[trigger] c1.perspective_matrix.m[rr][cc]
                == c2.perspective_matrix.m[rr][cc],
        forall|rr: int, cc: int|
            0 <= rr < 4 && 0 <= cc < 4 ==> #[trigger] c1.vp_matrix.m[rr][cc]
                == c2.vp_matrix.m[rr][cc],
{
    assert forall|rr: int, cc: int| 0 <= rr < 4 && 0 <= cc < 4 implies #[trigger] c1.vp_matrix.m[rr][cc]
        == c2.vp_matrix.m[rr][cc] by {
        assert(c1.vp_matrix.m[rr][cc] as int == mul_entry(
            c1.perspective_matrix,
            c1.view_matrix,
            rr,
            cc,
        ));
        assert(c2.vp_matrix.m[rr][cc] as int == mul_entry(
            c2.perspective_matrix,
            c2.view_matrix,
            rr,
            cc,
        ));
    }
}


} // verus!
