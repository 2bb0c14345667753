//! A molecule: a collection of atoms.

use vstd::prelude::*;
use crate::atom::{atom_valid, billboard_entry, model_entry, Atom};
use crate::camera::{camera_valid, Camera, FOCUS_LIMIT};
use crate::fixed::absi;
use crate::atom::SIZE_LIMIT;

verus! {

/// The billboard transform of `na` is that of `ao` recomposed against the
/// orientation `q`; size and position are kept.
pub open spec fn atom_rotated(na: Atom, ao: Atom, q: crate::quaternion::Quat) -> bool {
    na.size == ao.size && na.position == ao.position && forall|rr: int, cc: int|
        0 <= rr < 4 && 0 <= cc < 4 ==> #[trigger] na.model_matrix.m[rr][cc] as int
            == billboard_entry(
            ao.size as int,
            ao.position[0] as int,
            ao.position[1] as int,
            ao.position[2] as int,
            q,
            rr,
            cc,
        )
}

/// The molecule: the atoms of a cluster, crystal motif or molecule proper.
pub struct Molecule {
    pub atoms: Vec<Atom>,
}

/// Every atom of the molecule is within the working range.
pub open spec fn molecule_valid(m: Molecule) -> bool {
    forall|i: int| 0 <= i < m.atoms.len() ==> atom_valid(#[trigger] m.atoms[i])
}

impl Molecule {
    /// An empty molecule.
    pub fn new() -> (out: Molecule)
        ensures
            out.atoms.len() == 0,
            molecule_valid(out),
    {
        Molecule { atoms: Vec::new() }
    }

    /// Appends an atom of the given species size at the given position.
    pub fn add_atom(&mut self, in_size: i128, in_position: [i128; 3])
        requires
            molecule_valid(*old(self)),
            0 < in_size <= SIZE_LIMIT,
            absi(in_position[0] as int) <= FOCUS_LIMIT as int,
            absi(in_position[1] as int) <= FOCUS_LIMIT as int,
            absi(in_position[2] as int) <= FOCUS_LIMIT as int,
        ensures
            final(self).atoms.len() == old(self).atoms.len() + 1,
            forall|i: int|
                0 <= i < old(self).atoms.len() ==> #[trigger] final(self).atoms[i] == old(
                    self,
                ).atoms[i],
            final(self).atoms[old(self).atoms.len() as int].size == in_size,
            final(self).atoms[old(self).atoms.len() as int].position == in_position,
            forall|rr: int, cc: int|
                0 <= rr < 4 && 0 <= cc < 4 ==> #[trigger] final(self).atoms[old(
                    self,
                ).atoms.len() as int].model_matrix.m[rr][cc] as int == model_entry(
                    in_size as int,
                    in_position[0] as int,
                    in_position[1] as int,
                    in_position[2] as int,
                    rr,
                    cc,
                ),
            molecule_valid(*final(self)),
    {
        let atom = Atom::new(in_size, in_position);
        self.atoms.push(atom);
    }

    /// The atoms.
    pub fn atoms(&self) -> (out: &Vec<Atom>)
        ensures
            out == &self.atoms,
    {
        &self.atoms
    }

    /// Recomposes every atom's model matrix against the camera's inverse
    /// orientation, so billboard meshes face the viewer.
    pub fn rotate_atoms_against_camera(&mut self, in_camera: &Camera)
        requires
            molecule_valid(*old(self)),
            camera_valid(*in_camera),
        ensures
            final(self).atoms.len() == old(self).atoms.len(),
            forall|i: int|
                0 <= i < old(self).atoms.len() ==> atom_rotated(
                    #[trigger] final(self).atoms[i],
                    old(self).atoms[i],
                    in_camera.quaternion@,
                ),
            molecule_valid(*final(self)),
    {
        let n = self.atoms.len();
        let mut i: usize = 0;
        while i < n
            invariant
                n == self.atoms.len(),
                0 <= i <= n,
                n == old(self).atoms.len(),
                camera_valid(*in_camera),
                forall|t: int| i <= t < n ==> #[trigger] self.atoms[t] == old(self).atoms[t],
                forall|t: int|
                    0 <= t < i ==> atom_rotated(
                        #[trigger] self.atoms[t],
                        old(self).atoms[t],
                        in_camera.quaternion@,
                    ),
                molecule_valid(*old(self)),
                molecule_valid(*self),
            decreases n - i,
        {
            let mut atom = self.atoms[i];
            atom.rotate_against_camera(in_camera);
            self.atoms.set(i, atom);
            i = i + 1;
        }
    }
}

} // verus!
