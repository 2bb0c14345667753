//! Atoms: typed spheres with a per-atom model matrix.
//!
//! An atom's drawable transform scales by its species size and translates to
//! its position. For billboard-style meshes the transform is recomposed with
//! the inverse of the camera's orientation, so the mesh faces the viewer
//! whatever the orbit.

use vstd::prelude::*;
use crate::camera::{camera_valid, Camera, FOCUS_LIMIT};
use crate::fixed::{absi, fmul_val, SCALE};
use crate::matrix::{mat_bounded, mul_entry, Matrix};
use crate::quaternion::{q_bounded, quat_conj, rot_entry, Quat};

verus! {

/// Largest species size (a thousand units).
pub const SIZE_LIMIT: i128 = 1_000_000_000;

/// Entry `(r, c)` of the scale-and-translate matrix: the species size on
/// the diagonal, the position in the last column.
pub open spec fn model_entry(size: int, px: int, py: int, pz: int, r: int, c: int) -> int {
    if r == 0 && c == 3 {
        px
    } else if r == 1 && c == 3 {
        py
    } else if r == 2 && c == 3 {
        pz
    } else if r == 3 && c == 3 {
        SCALE as int
    } else if r == c && 0 <= r < 3 {
        size
    } else {
        0
    }
}

/// Entry `(r, c)` of the billboard transform: scale-and-translate composed
/// with the rotation matrix of the inverse (conjugate) of `q`.
pub open spec fn billboard_entry(
    size: int,
    px: int,
    py: int,
    pz: int,
    q: Quat,
    r: int,
    c: int,
) -> int {
    fmul_val(model_entry(size, px, py, pz, r, 0), rot_entry(quat_conj(q), 0, c)) + fmul_val(
        model_entry(size, px, py, pz, r, 1),
        rot_entry(quat_conj(q), 1, c),
    ) + fmul_val(model_entry(size, px, py, pz, r, 2), rot_entry(quat_conj(q), 2, c)) + fmul_val(
        model_entry(size, px, py, pz, r, 3),
        rot_entry(quat_conj(q), 3, c),
    )
}

/// An atom: a species size, a position, and the model matrix derived from
/// them.
#[derive(Clone, Copy)]
pub struct Atom {
    pub size: i128,
    pub position: [i128; 3],
    pub model_matrix: Matrix,
}

/// The atom's size and position are within the fixed-point working range.
pub open spec fn atom_valid(a: Atom) -> bool {
    0 < a.size <= SIZE_LIMIT && absi(a.position[0] as int) <= FOCUS_LIMIT as int && absi(
        a.position[1] as int,
    ) <= FOCUS_LIMIT as int && absi(a.position[2] as int) <= FOCUS_LIMIT as int
}

impl Atom {
    /// An atom of the given species size at the given position, with its
    /// plain scale-and-translate model matrix.
    pub fn new(in_size: i128, in_position: [i128; 3]) -> (out: Atom)
        requires
            0 < in_size <= SIZE_LIMIT,
            absi(in_position[0] as int) <= FOCUS_LIMIT as int,
            absi(in_position[1] as int) <= FOCUS_LIMIT as int,
            absi(in_position[2] as int) <= FOCUS_LIMIT as int,
        ensures
            out.size == in_size,
            out.position == in_position,
            atom_valid(out),
            forall|rr: int, cc: int|
                0 <= rr < 4 && 0 <= cc < 4 ==> #[trigger] out.model_matrix.m[rr][cc] as int
                    == model_entry(
                    in_size as int,
                    in_position[0] as int,
                    in_position[1] as int,
                    in_position[2] as int,
                    rr,
                    cc,
                ),
    {
        let mm = Matrix::new(
            [
                [in_size, 0, 0, in_position[0]],
                [0, in_size, 0, in_position[1]],
                [0, 0, in_size, in_position[2]],
                [0, 0, 0, SCALE],
            ],
        );
        Atom { size: in_size, position: in_position, model_matrix: mm }
    }

    /// The model matrix.
    pub fn model_matrix(&self) -> (out: Matrix)
        ensures
            out == self.model_matrix,
    {
        self.model_matrix
    }

    /// Recomposes the model matrix with the inverse of the camera's
    /// orientation, so a billboard mesh faces the viewer.
    pub fn rotate_against_camera(&mut self, in_camera: &Camera)
        requires
            atom_valid(*old(self)),
            camera_valid(*in_camera),
        ensures
            final(self).size == old(self).size,
            final(self).position == old(self).position,
            atom_valid(*final(self)),
            forall|rr: int, cc: int|
                0 <= rr < 4 && 0 <= cc < 4 ==> #[trigger] final(self).model_matrix.m[rr][cc] as int
                    == billboard_entry(
                    old(self).size as int,
                    old(self).position[0] as int,
                    old(self).position[1] as int,
                    old(self).position[2] as int,
                    in_camera.quaternion@,
                    rr,
                    cc,
                ),
    {
        let ts = Matrix::new(
            [
                [self.size, 0, 0, self.position[0]],
                [0, self.size, 0, self.position[1]],
                [0, 0, self.size, self.position[2]],
                [0, 0, 0, SCALE],
            ],
        );
        let mut q = in_camera.quaternion();
        q.invert();
        let rot = q.rotation_matrix();
        proof {
            assert(mat_bounded(ts, FOCUS_LIMIT as int));
            assert forall|rr: int, cc: int| 0 <= rr < 4 && 0 <= cc < 4 implies #[trigger] ts.m[rr][cc] as int
                == model_entry(
                old(self).size as int,
                old(self).position[0] as int,
                old(self).position[1] as int,
                old(self).position[2] as int,
                rr,
                cc,
            ) by {}
        }
        self.model_matrix = ts.multiply(&rot);
    }
}

} // verus!
