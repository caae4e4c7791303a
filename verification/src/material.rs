//! Surface materials: light sources and diffuse reflectors.
//!
//! A material either emits light (transport stops there) or reflects it
//! diffusely with a base colour.  The local-to-world frame transform lives
//! here too, as in the material interface the estimator consumes.

use vstd::prelude::*;
use crate::spectrum::Spectrum;
use crate::vec3::{
    Vec3, DIR_ONE, RAY_DIR_BOUND, spec_div_trunc, div_trunc_i128, vec_bounded,
    lemma_div_trunc_small, lemma_mul_bounds,
};

verus! {

/// A surface material, tagged by whether it emits light.
#[derive(Clone, Copy, PartialEq, Eq, Structural, Debug)]
pub enum Material {
    /// A light source with the given emitted colour.
    Light { colour: Spectrum },
    /// A diffuse (Lambertian) reflector with the given base colour.
    Diffuse { colour: Spectrum },
}

impl Material {
    /// Whether this material is a light source.
    pub open spec fn spec_emits_light(self) -> bool {
        match self {
            Material::Light { .. } => true,
            Material::Diffuse { .. } => false,
        }
    }

    /// The intrinsic colour: emitted colour for a light, base reflectance
    /// for a diffuse material.
    pub open spec fn spec_colour(self) -> Spectrum {
        match self {
            Material::Light { colour } => colour,
            Material::Diffuse { colour } => colour,
        }
    }

    /// Whether this material is a light source.
    pub fn emits_light(&self) -> (e: bool)
        ensures
            e == self.spec_emits_light(),
    {
        match self {
            Material::Light { .. } => true,
            Material::Diffuse { .. } => false,
        }
    }

    /// The intrinsic colour of the material.
    pub fn colour(&self) -> (c: Spectrum)
        ensures
            c == self.spec_colour(),
    {
        match self {
            Material::Light { colour } => *colour,
            Material::Diffuse { colour } => *colour,
        }
    }

    /// Map a local-frame direction into world space using the orthonormal
    /// triad `(normal, e1, e2)` of a hit.
    pub fn to_world(&self, normal: Vec3, e1: Vec3, e2: Vec3, local: Vec3) -> (w: Vec3)
        requires
            vec_bounded(normal, DIR_ONE),
            vec_bounded(e1, DIR_ONE),
            vec_bounded(e2, DIR_ONE),
            vec_bounded(local, DIR_ONE),
        ensures
            w == spec_to_world(normal, e1, e2, local),
            vec_bounded(w, RAY_DIR_BOUND),
    {
        let x: i64 = world_comp(normal.x, e1.x, e2.x, local);
        let y: i64 = world_comp(normal.y, e1.y, e2.y, local);
        let z: i64 = world_comp(normal.z, e1.z, e2.z, local);
        Vec3 { x, y, z }
    }
}

/// One world-space component of a frame transform: the dot product of the
/// local direction with the triad's components along that world axis,
/// rescaled from the squared direction scale back to [`DIR_ONE`].
pub open spec fn spec_world_comp(n: i64, t1: i64, t2: i64, local: Vec3) -> int {
    spec_div_trunc(t1 * local.x + t2 * local.y + n * local.z, DIR_ONE as int)
}

/// The world-space direction of a local direction under the triad
/// `(normal, e1, e2)`.
pub open spec fn spec_to_world(normal: Vec3, e1: Vec3, e2: Vec3, local: Vec3) -> Vec3 {
    Vec3 {
        x: spec_world_comp(normal.x, e1.x, e2.x, local) as i64,
        y: spec_world_comp(normal.y, e1.y, e2.y, local) as i64,
        z: spec_world_comp(normal.z, e1.z, e2.z, local) as i64,
    }
}

/// Compute one component of the frame transform.
fn world_comp(n: i64, t1: i64, t2: i64, local: Vec3) -> (c: i64)
    requires
        -DIR_ONE <= n <= DIR_ONE,
        -DIR_ONE <= t1 <= DIR_ONE,
        -DIR_ONE <= t2 <= DIR_ONE,
        vec_bounded(local, DIR_ONE),
    ensures
        c == spec_world_comp(n, t1, t2, local),
        -RAY_DIR_BOUND <= c <= RAY_DIR_BOUND,
{
    proof {
        lemma_mul_bounds(t1 as int, local.x as int, DIR_ONE as int, DIR_ONE as int);
        lemma_mul_bounds(t2 as int, local.y as int, DIR_ONE as int, DIR_ONE as int);
        lemma_mul_bounds(n as int, local.z as int, DIR_ONE as int, DIR_ONE as int);
    }
    let s: i128 = t1 as i128 * local.x as i128 + t2 as i128 * local.y as i128
        + n as i128 * local.z as i128;
    proof {
        lemma_div_trunc_small(s as int, DIR_ONE as int, RAY_DIR_BOUND as int);
    }
    let q: i128 = div_trunc_i128(s, DIR_ONE as i128);
    q as i64
}

} // verus!
