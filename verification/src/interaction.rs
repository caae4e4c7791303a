//! The result of a successful ray-geometry hit.
//!
//! An interaction carries the hit point, the side of the surface the ray
//! arrived at, and a shading frame: a normal plus two tangents, all at
//! direction scale.  The intersection routine fills in the geometric
//! normal; [`Interaction::interpolate_normal`] later refines it with the
//! scene's per-patch shading normal.

use vstd::prelude::*;
use crate::vec3::Vec3;

verus! {

/// Which side of a surface a ray arrived at, relative to its geometric
/// orientation.
#[derive(Clone, Copy, PartialEq, Eq, Structural, Debug)]
pub enum SurfaceSide {
    /// The ray runs against the geometric normal.
    Front,
    /// The ray runs along the geometric normal.
    Back,
    /// The ray is parallel to the surface: a degenerate grazing hit.
    NonApplicable,
}

/// Shading data at a hit point.
#[derive(Clone, Copy, PartialEq, Eq, Structural, Debug)]
pub struct Interaction {
    /// The hit point, in spatial units.
    pub point: Vec3,
    /// The side of the surface the ray arrived at.
    pub side: SurfaceSide,
    /// The shading normal, at direction scale.
    pub shading_normal: Vec3,
    /// First tangent of the shading frame.
    pub e1: Vec3,
    /// Second tangent of the shading frame.
    pub e2: Vec3,
}

impl Interaction {
    /// This interaction with its shading normal replaced by `n`.
    pub open spec fn spec_with_normal(self, n: Vec3) -> Interaction {
        Interaction { shading_normal: n, ..self }
    }

    /// Refine the preliminary geometric normal with the per-patch shading
    /// normal `n`.
    pub fn interpolate_normal(&mut self, n: Vec3)
        ensures
            *final(self) == old(self).spec_with_normal(n),
    {
        self.shading_normal = n;
    }

    /// The orthonormal local frame at the hit: point, shading normal and
    /// the two tangents.
    pub fn get_triad(&self) -> (t: (Vec3, Vec3, Vec3, Vec3))
        ensures
            t == (self.point, self.shading_normal, self.e1, self.e2),
    {
        (self.point, self.shading_normal, self.e1, self.e2)
    }
}

} // verus!
