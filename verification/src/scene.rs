//! The scene: axis-aligned surface patches with per-side materials.
//!
//! Geometry is intentionally simple — rectangular patches perpendicular to
//! a coordinate axis, the walls and panels of box-like scenes — so that the
//! nearest-hit query is exact integer arithmetic: a hit parameter is kept
//! as a fraction `num/den` and hits are compared by cross-multiplication,
//! never by rounding.  The estimator consumes the query only through
//! [`Scene::cast_ray`]'s contract, so it is independent of the primitive
//! shape.

use vstd::prelude::*;
use crate::vec3::{
    Vec3, Ray3D, Axis, COORD_BOUND, RAY_ORIGIN_BOUND, RAY_DIR_BOUND, DIR_ONE,
    spec_comp, spec_tangent_axes, spec_axis_unit, spec_div_trunc, vec_bounded, ray_ok,
    tangent_axes, axis_unit, div_trunc_i128, lemma_mul_bounds, lemma_trunc_add_in_bounds,
};
use crate::material::Material;
use crate::interaction::{Interaction, SurfaceSide};

verus! {

/// Largest magnitude of a hit-parameter numerator: a plane coordinate
/// minus a ray origin coordinate.
pub const HIT_NUM_BOUND: i64 = 2000000064;

/// A rectangular patch perpendicular to `axis`, at position `coord` along
/// it, spanning `[lo1, hi1] x [lo2, hi2]` along the two tangent axes.  Its
/// geometric normal points along the positive axis.
#[derive(Clone, Copy, PartialEq, Eq, Structural, Debug)]
pub struct Patch {
    pub axis: Axis,
    pub coord: i64,
    pub lo1: i64,
    pub hi1: i64,
    pub lo2: i64,
    pub hi2: i64,
}

/// All patch coordinates are within the scene bound.
pub open spec fn wf_patch(p: Patch) -> bool {
    &&& -COORD_BOUND <= p.coord <= COORD_BOUND
    &&& -COORD_BOUND <= p.lo1 <= COORD_BOUND
    &&& -COORD_BOUND <= p.hi1 <= COORD_BOUND
    &&& -COORD_BOUND <= p.lo2 <= COORD_BOUND
    &&& -COORD_BOUND <= p.hi2 <= COORD_BOUND
}

/// The vector whose component along `axis` is `va` and whose components
/// along the two tangent axes of `axis` are `v1` and `v2`.
pub open spec fn spec_vec_from_axis(axis: Axis, va: i64, v1: i64, v2: i64) -> Vec3 {
    match axis {
        Axis::X => Vec3 { x: va, y: v1, z: v2 },
        Axis::Y => Vec3 { x: v2, y: va, z: v1 },
        Axis::Z => Vec3 { x: v1, y: v2, z: va },
    }
}

/// A raw patch hit: parameter `num / den` along the ray (with `den > 0`),
/// the rounded hit point and the side classification.
#[derive(Clone, Copy, PartialEq, Eq, Structural, Debug)]
pub struct PatchHit {
    pub num: i64,
    pub den: i64,
    pub point: Vec3,
    pub side: SurfaceSide,
}

/// Numeric sanity of a hit: non-negative parameter, positive denominator,
/// point within the scene bound.
pub open spec fn hit_ok(h: PatchHit) -> bool {
    &&& 0 <= h.num <= HIT_NUM_BOUND
    &&& 1 <= h.den <= RAY_DIR_BOUND
    &&& vec_bounded(h.point, COORD_BOUND)
}

/// Where, if anywhere, `ray` meets patch `p`.
///
/// A ray parallel to the patch hits it only when it starts on it, at
/// parameter zero, classified `NonApplicable`; otherwise the hit exists
/// when the parameter is non-negative and the exact (unrounded) hit point
/// lies within the patch rectangle.  The stored point rounds each tangent
/// coordinate toward the origin's side, which keeps it inside the
/// rectangle.
pub open spec fn spec_hit_patch(p: Patch, ray: Ray3D) -> Option<PatchHit> {
    let oa = spec_comp(ray.origin, p.axis);
    let da = spec_comp(ray.direction, p.axis);
    let axes = spec_tangent_axes(p.axis);
    let o1 = spec_comp(ray.origin, axes.0);
    let o2 = spec_comp(ray.origin, axes.1);
    let d1 = spec_comp(ray.direction, axes.0);
    let d2 = spec_comp(ray.direction, axes.1);
    if da == 0 {
        if oa == p.coord && p.lo1 <= o1 <= p.hi1 && p.lo2 <= o2 <= p.hi2 {
            Some(
                PatchHit { num: 0, den: 1, point: ray.origin, side: SurfaceSide::NonApplicable },
            )
        } else {
            None
        }
    } else {
        let num = if da > 0 { p.coord - oa } else { -(p.coord - oa) } as i64;
        let den = if da > 0 { da } else { (-da) as i64 };
        if num < 0 {
            None
        } else if p.lo1 * den <= o1 * den + num * d1 <= p.hi1 * den
            && p.lo2 * den <= o2 * den + num * d2 <= p.hi2 * den {
            let p1 = (o1 + spec_div_trunc(num * d1, den as int)) as i64;
            let p2 = (o2 + spec_div_trunc(num * d2, den as int)) as i64;
            let side = if da < 0 { SurfaceSide::Front } else { SurfaceSide::Back };
            Some(
                PatchHit {
                    num,
                    den,
                    point: spec_vec_from_axis(p.axis, p.coord, p1, p2),
                    side,
                },
            )
        } else {
            None
        }
    }
}

/// The nearest hit among the first `k` patches, ties going to the earliest
/// patch: indices and hit data of the winner.
pub open spec fn spec_best_hit(patches: Seq<Patch>, ray: Ray3D, k: int) -> Option<
    (usize, PatchHit),
>
    decreases k,
{
    if k <= 0 {
        None
    } else {
        let prev = spec_best_hit(patches, ray, k - 1);
        match spec_hit_patch(patches[k - 1], ray) {
            None => prev,
            Some(h) => match prev {
                None => Some(((k - 1) as usize, h)),
                Some(best) => if h.num * best.1.den < best.1.num * h.den {
                    Some(((k - 1) as usize, h))
                } else {
                    prev
                },
            },
        }
    }
}

/// The interaction reported for a hit on patch `p`: the rounded hit point,
/// the side, and a local frame from the patch's geometric orientation.
/// The shading normal starts as the geometric normal until it is
/// interpolated.
pub open spec fn spec_make_interaction(p: Patch, h: PatchHit) -> Interaction {
    let axes = spec_tangent_axes(p.axis);
    Interaction {
        point: h.point,
        side: h.side,
        shading_normal: spec_axis_unit(p.axis),
        e1: spec_axis_unit(axes.0),
        e2: spec_axis_unit(axes.1),
    }
}

/// A scene: patches, their per-patch shading normals, and the materials
/// seen from each side.
pub struct Scene {
    pub patches: Vec<Patch>,
    pub materials: Vec<Material>,
    pub front_material_indexes: Vec<usize>,
    pub back_material_indexes: Vec<usize>,
    pub normals: Vec<Vec3>,
}

impl Scene {
    /// Well-formedness: the per-patch tables line up, material indexes are
    /// in range, all coordinates are bounded and shading normals are at
    /// direction scale.
    pub open spec fn wf(self) -> bool {
        &&& self.patches@.len() == self.front_material_indexes@.len()
        &&& self.patches@.len() == self.back_material_indexes@.len()
        &&& self.patches@.len() == self.normals@.len()
        &&& forall|i: int|
            0 <= i < self.patches@.len() ==> wf_patch(#[trigger] self.patches@[i])
        &&& forall|i: int|
            0 <= i < self.patches@.len() ==> (#[trigger] self.front_material_indexes@[i])
                < self.materials@.len()
        &&& forall|i: int|
            0 <= i < self.patches@.len() ==> (#[trigger] self.back_material_indexes@[i])
                < self.materials@.len()
        &&& forall|i: int|
            0 <= i < self.patches@.len() ==> vec_bounded(#[trigger] self.normals@[i], DIR_ONE)
    }

    /// The nearest hit of `ray` in this scene, if any.
    pub open spec fn spec_cast_ray(self, ray: Ray3D) -> Option<(usize, Interaction)> {
        match spec_best_hit(self.patches@, ray, self.patches@.len() as int) {
            None => None,
            Some(best) => Some((best.0, spec_make_interaction(self.patches@[best.0 as int], best.1))),
        }
    }

    /// The material governing patch `i` as seen from `side`.
    pub open spec fn spec_material_for(self, i: int, side: SurfaceSide) -> Material {
        if side == SurfaceSide::Back {
            self.materials@[self.back_material_indexes@[i] as int]
        } else {
            self.materials@[self.front_material_indexes@[i] as int]
        }
    }

    /// Nearest-hit query: the index of the patch hit first and the shading
    /// interaction there, or `None` when the ray escapes the scene.
    pub fn cast_ray(&self, ray: Ray3D) -> (r: Option<(usize, Interaction)>)
        requires
            self.wf(),
            ray_ok(ray),
        ensures
            r == self.spec_cast_ray(ray),
            (match r {
                Some(hit) => hit.0 < self.patches@.len() && vec_bounded(
                    hit.1.point,
                    COORD_BOUND,
                ) && vec_bounded(hit.1.shading_normal, DIR_ONE) && vec_bounded(hit.1.e1, DIR_ONE)
                    && vec_bounded(hit.1.e2, DIR_ONE),
                None => true,
            }),
    {
        let n: usize = self.patches.len();
        let mut best: Option<(usize, PatchHit)> = None;
        let mut i: usize = 0;
        while i < n
            invariant
                i <= n,
                n == self.patches@.len(),
                self.wf(),
                ray_ok(ray),
                best == spec_best_hit(self.patches@, ray, i as int),
                (match best {
                    Some(b) => b.0 < i && hit_ok(b.1),
                    None => true,
                }),
            decreases n - i,
        {
            let h = hit_patch(self.patches[i], ray);
            match h {
                Some(hh) => {
                    match best {
                        None => {
                            best = Some((i, hh));
                        },
                        Some(b) => {
                            proof {
                                lemma_mul_bounds(
                                    hh.num as int,
                                    b.1.den as int,
                                    HIT_NUM_BOUND as int,
                                    RAY_DIR_BOUND as int,
                                );
                                lemma_mul_bounds(
                                    b.1.num as int,
                                    hh.den as int,
                                    HIT_NUM_BOUND as int,
                                    RAY_DIR_BOUND as int,
                                );
                            }
                            if (hh.num as i128) * (b.1.den as i128) < (b.1.num as i128) * (hh.den
                                as i128) {
                                best = Some((i, hh));
                            }
                        },
                    }
                },
                None => {},
            }
            i = i + 1;
        }
        match best {
            None => None,
            Some(b) => {
                let p = self.patches[b.0];
                let axes = tangent_axes(p.axis);
                let it = Interaction {
                    point: b.1.point,
                    side: b.1.side,
                    shading_normal: axis_unit(p.axis),
                    e1: axis_unit(axes.0),
                    e2: axis_unit(axes.1),
                };
                Some((b.0, it))
            },
        }
    }

    /// The material governing patch `i` as seen from `side`.
    pub fn material_for(&self, i: usize, side: SurfaceSide) -> (m: Material)
        requires
            self.wf(),
            i < self.patches@.len(),
        ensures
            m == self.spec_material_for(i as int, side),
    {
        if side == SurfaceSide::Back {
            self.materials[self.back_material_indexes[i]]
        } else {
            self.materials[self.front_material_indexes[i]]
        }
    }
}

/// Test `ray` against a single patch.
fn hit_patch(p: Patch, ray: Ray3D) -> (r: Option<PatchHit>)
    requires
        wf_patch(p),
        ray_ok(ray),
    ensures
        r == spec_hit_patch(p, ray),
        (match r {
            Some(h) => hit_ok(h),
            None => true,
        }),
{
    let oa: i64 = ray.origin.comp(p.axis);
    let da: i64 = ray.direction.comp(p.axis);
    let axes = tangent_axes(p.axis);
    let o1: i64 = ray.origin.comp(axes.0);
    let o2: i64 = ray.origin.comp(axes.1);
    let d1: i64 = ray.direction.comp(axes.0);
    let d2: i64 = ray.direction.comp(axes.1);
    if da == 0 {
        if oa == p.coord && p.lo1 <= o1 && o1 <= p.hi1 && p.lo2 <= o2 && o2 <= p.hi2 {
            Some(PatchHit { num: 0, den: 1, point: ray.origin, side: SurfaceSide::NonApplicable })
        } else {
            None
        }
    } else {
        let num: i64 = if da > 0 {
            p.coord - oa
        } else {
            -(p.coord - oa)
        };
        let den: i64 = if da > 0 {
            da
        } else {
            -da
        };
        if num < 0 {
            None
        } else {
            proof {
                lemma_mul_bounds(o1 as int, den as int, RAY_ORIGIN_BOUND as int, RAY_DIR_BOUND as int);
                lemma_mul_bounds(o2 as int, den as int, RAY_ORIGIN_BOUND as int, RAY_DIR_BOUND as int);
                lemma_mul_bounds(num as int, d1 as int, HIT_NUM_BOUND as int, RAY_DIR_BOUND as int);
                lemma_mul_bounds(num as int, d2 as int, HIT_NUM_BOUND as int, RAY_DIR_BOUND as int);
                lemma_mul_bounds(p.lo1 as int, den as int, COORD_BOUND as int, RAY_DIR_BOUND as int);
                lemma_mul_bounds(p.hi1 as int, den as int, COORD_BOUND as int, RAY_DIR_BOUND as int);
                lemma_mul_bounds(p.lo2 as int, den as int, COORD_BOUND as int, RAY_DIR_BOUND as int);
                lemma_mul_bounds(p.hi2 as int, den as int, COORD_BOUND as int, RAY_DIR_BOUND as int);
            }
            let s1: i128 = o1 as i128 * den as i128 + num as i128 * d1 as i128;
            let s2: i128 = o2 as i128 * den as i128 + num as i128 * d2 as i128;
            let lo1d: i128 = p.lo1 as i128 * den as i128;
            let hi1d: i128 = p.hi1 as i128 * den as i128;
            let lo2d: i128 = p.lo2 as i128 * den as i128;
            let hi2d: i128 = p.hi2 as i128 * den as i128;
            if lo1d <= s1 && s1 <= hi1d && lo2d <= s2 && s2 <= hi2d {
                proof {
                    lemma_trunc_add_in_bounds(
                        o1 as int,
                        num as int * d1 as int,
                        den as int,
                        p.lo1 as int,
                        p.hi1 as int,
                    );
                    lemma_trunc_add_in_bounds(
                        o2 as int,
                        num as int * d2 as int,
                        den as int,
                        p.lo2 as int,
                        p.hi2 as int,
                    );
                }
                let q1: i128 = div_trunc_i128(num as i128 * d1 as i128, den as i128);
                let q2: i128 = div_trunc_i128(num as i128 * d2 as i128, den as i128);
                let p1: i64 = o1 + q1 as i64;
                let p2: i64 = o2 + q2 as i64;
                let side = if da < 0 {
                    SurfaceSide::Front
                } else {
                    SurfaceSide::Back
                };
                let point = vec_from_axis(p.axis, p.coord, p1, p2);
                Some(PatchHit { num, den, point, side })
            } else {
                None
            }
        }
    }
}

/// Assemble a vector from a value along `axis` and two tangent values.
fn vec_from_axis(axis: Axis, va: i64, v1: i64, v2: i64) -> (v: Vec3)
    ensures
        v == spec_vec_from_axis(axis, va, v1, v2),
{
    match axis {
        Axis::X => Vec3 { x: va, y: v1, z: v2 },
        Axis::Y => Vec3 { x: v2, y: va, z: v1 },
        Axis::Z => Vec3 { x: v1, y: v2, z: va },
    }
}

} // verus!
