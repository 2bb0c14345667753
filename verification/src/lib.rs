//! An orbital-camera library for a molecular viewer: quaternion orientation,
//! 4x4 matrix algebra, and the view/perspective/view-projection pipeline.
//!
//! All scalars are fixed-point: an `i128` holds the value times [`fixed::SCALE`].
//! Every operation has an exact contract over truncated integer arithmetic, so
//! the camera's unit-norm orientation invariant is a theorem, not a hope.

pub mod fixed;
pub mod matrix;
pub mod quaternion;
pub mod camera;
pub mod atom;
pub mod molecule;
