//! The geometry primitive: a sphere with an indexed material.
//!
//! The device consumes spheres as 32-byte records: the center as a
//! 4-component vector (for 16-byte stride alignment), the radius, the
//! material index, and two words of padding. Center components and the
//! radius are linear-space reals held as IEEE-754 single-precision bit
//! patterns, so that the record the library reasons about is bit-for-bit
//! the record the compute kernel reads.

use vstd::prelude::*;

verus! {

/// A sphere, immutable once placed in a scene. `center_x/y/z` and `radius`
/// hold IEEE-754 single-precision bit patterns; `material_idx` indexes the
/// owning scene's material list.
#[derive(Clone, Copy, Debug, PartialEq, Eq, Structural)]
pub struct Sphere {
    pub center_x: u32,
    pub center_y: u32,
    pub center_z: u32,
    pub radius: u32,
    pub material_idx: u32,
}

impl Sphere {
    pub fn new(center_x: u32, center_y: u32, center_z: u32, radius: u32, material_idx: u32) -> (r:
        Self)
        ensures
            r == (Sphere { center_x, center_y, center_z, radius, material_idx }),
    {
        Self { center_x, center_y, center_z, radius, material_idx }
    }
}

} // verus!
