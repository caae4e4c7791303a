//! The radiance estimator: the Monte-Carlo bounce loop.
//!
//! [`Estimator::trace_ray`] estimates the radiance arriving along a ray by
//! averaging independent bounce trials.  Its whole behaviour — every
//! spectrum it accumulates and every random draw it spends — is pinned
//! down by the recursive specification [`Estimator::spec_bounce`] /
//! [`Estimator::spec_trials`], so the laws about double counting, depth
//! cutoff and averaging are theorems about the very value the executable
//! code returns.
//!
//! The throughput update is the Lambertian reflectance over pi, times the
//! cosine, divided by the uniform-hemisphere density 1/(2*pi) and by the
//! correction constant: the factors of pi cancel exactly, which is why no
//! value of pi appears anywhere — the weight is `2 * reflectance * cosine
//! / correction`, a ratio of integers.

use vstd::prelude::*;
use crate::spectrum::{
    Spectrum, sat64, spec_black, spec_white, spec_add, spec_mul, spec_div_count,
    lemma_add_black, lemma_add_assoc,
};
use crate::vec3::{
    Ray3D, COORD_BOUND, DIR_ONE, ray_ok, vec_bounded, spec_offset_point, offset_point,
};
use crate::rng::{RandGen, spec_next_state, spec_rand_value};
use crate::sampling::{sample_uniform_hemisphere, spec_sample_hemisphere};
use crate::material::{Material, spec_to_world};
use crate::interaction::{Interaction, SurfaceSide};
use crate::scene::Scene;

verus! {

/// Numerator of the empirical throughput correction factor 1.07.
///
/// Every bounce weight is divided by 1.07; the derivation of that
/// constant is an open question, so it is kept isolated here as an exact
/// ratio rather than silently folded into the formula.
pub const CORRECTION_NUM: u64 = 107;

/// Denominator of the empirical throughput correction factor 1.07.
pub const CORRECTION_DEN: u64 = 100;

/// Numerator of the indirect bounce weight: the 2 left over when the
/// Lambertian 1/pi meets the uniform-hemisphere density 1/(2*pi), times
/// [`CORRECTION_DEN`].
pub const INDIRECT_SCALE_NUM: u64 = 2 * CORRECTION_DEN;

/// Denominator of the indirect bounce weight: the cosine scale times
/// [`CORRECTION_NUM`].
pub const INDIRECT_SCALE_DIV: u64 = 65536 * CORRECTION_NUM;

/// One channel scaled by `cos * numf / divf`, saturating.
pub open spec fn spec_scale_channel(c: u64, cos: u64, numf: u64, divf: u64) -> u64
    recommends
        divf >= 1,
{
    sat64((c * cos * numf) / (divf as int))
}

/// A spectrum scaled by `cos * numf / divf` in every channel.
pub open spec fn spec_scale_spectrum(t: Spectrum, cos: u64, numf: u64, divf: u64) -> Spectrum {
    Spectrum {
        r: spec_scale_channel(t.r, cos, numf, divf),
        g: spec_scale_channel(t.g, cos, numf, divf),
        b: spec_scale_channel(t.b, cos, numf, divf),
    }
}

/// The throughput factor applied at a diffuse bounce with cosine `cos`.
pub open spec fn spec_beta_scale(t: Spectrum, cos: u64) -> Spectrum {
    spec_scale_spectrum(t, cos, INDIRECT_SCALE_NUM, INDIRECT_SCALE_DIV)
}

/// The weight of one shadow sample with cosine `cos` (no correction
/// factor: 2 over the cosine scale).
pub open spec fn spec_direct_scale(t: Spectrum, cos: u64) -> Spectrum {
    spec_scale_spectrum(t, cos, 2, 65536)
}

/// Scale one channel by `cos * numf / divf`, saturating.
fn scale_channel(c: u64, cos: u64, numf: u64, divf: u64) -> (r: u64)
    requires
        cos <= 65536,
        numf <= 200,
        divf >= 1,
    ensures
        r == spec_scale_channel(c, cos, numf, divf),
{
    proof {
        assert(0 <= (c as int) * (cos as int) <= (u64::MAX as int) * 65536) by (nonlinear_arith)
            requires
                c <= u64::MAX,
                0 <= cos <= 65536,
        ;
        assert(((c as int) * (cos as int)) * (numf as int) <= ((u64::MAX as int) * 65536) * 200
            && ((c as int) * (cos as int)) * (numf as int) >= 0) by (nonlinear_arith)
            requires
                0 <= (c as int) * (cos as int) <= (u64::MAX as int) * 65536,
                0 <= numf <= 200,
        ;
    }
    let p: u128 = (c as u128) * (cos as u128) * (numf as u128);
    let q: u128 = p / (divf as u128);
    if q > u64::MAX as u128 {
        u64::MAX
    } else {
        q as u64
    }
}

/// Scale a spectrum by `cos * numf / divf` in every channel.
fn scale_spectrum(t: Spectrum, cos: u64, numf: u64, divf: u64) -> (r: Spectrum)
    requires
        cos <= 65536,
        numf <= 200,
        divf >= 1,
    ensures
        r == spec_scale_spectrum(t, cos, numf, divf),
{
    Spectrum {
        r: scale_channel(t.r, cos, numf, divf),
        g: scale_channel(t.g, cos, numf, divf),
        b: scale_channel(t.b, cos, numf, divf),
    }
}

/// The throughput update at a diffuse bounce: reflectance times cosine
/// times 2, divided by the correction constant, saturating.
pub fn beta_scale(t: Spectrum, cos: u64) -> (r: Spectrum)
    requires
        cos <= 65536,
    ensures
        r == spec_beta_scale(t, cos),
{
    scale_spectrum(t, cos, INDIRECT_SCALE_NUM, INDIRECT_SCALE_DIV)
}

/// An interaction whose point and frame are within the bounds the bounce
/// loop relies on.
pub open spec fn interaction_ok(it: Interaction) -> bool {
    &&& vec_bounded(it.point, COORD_BOUND)
    &&& vec_bounded(it.shading_normal, DIR_ONE)
    &&& vec_bounded(it.e1, DIR_ONE)
    &&& vec_bounded(it.e2, DIR_ONE)
}

/// The sum of `k` shadow samples at a hit, threading the random state:
/// each sample draws a hemisphere direction, casts a shadow ray, and
/// contributes the emitted colour (times the surface reflectance and the
/// sample weight) when it reaches a light.
pub open spec fn spec_local_illumination(
    scene: Scene,
    material: Material,
    it: Interaction,
    rng: u64,
    k: int,
) -> (Spectrum, u64)
    decreases k,
{
    if k <= 0 {
        (spec_black(), rng)
    } else {
        let prev = spec_local_illumination(scene, material, it, rng, k - 1);
        let s1 = spec_next_state(prev.1);
        let s2 = spec_next_state(s1);
        let s3 = spec_next_state(s2);
        let local = spec_sample_hemisphere(
            spec_rand_value(s1),
            spec_rand_value(s2),
            spec_rand_value(s3),
        );
        let sray = Ray3D {
            origin: spec_offset_point(it.point, it.shading_normal),
            direction: spec_to_world(it.shading_normal, it.e1, it.e2, local),
        };
        let contribution = match scene.spec_cast_ray(sray) {
            None => spec_black(),
            Some(hit) => if hit.1.side == SurfaceSide::NonApplicable {
                spec_black()
            } else {
                let m2 = scene.spec_material_for(hit.0 as int, hit.1.side);
                if m2.spec_emits_light() {
                    spec_direct_scale(
                        spec_mul(m2.spec_colour(), material.spec_colour()),
                        local.z as u64,
                    )
                } else {
                    spec_black()
                }
            },
        };
        (spec_add(prev.0, contribution), s3)
    }
}

/// The direct-illumination estimate at a hit: the average of `k` shadow
/// samples, and the random state after them.
pub open spec fn spec_direct_illumination(
    scene: Scene,
    material: Material,
    it: Interaction,
    rng: u64,
    k: int,
) -> (Spectrum, u64)
    recommends
        k >= 1,
{
    let sum = spec_local_illumination(scene, material, it, rng, k);
    (spec_div_count(sum.0, k as u64), sum.1)
}

/// The radiance estimator: bounce limit and sample counts.
#[derive(Clone, Copy, PartialEq, Eq, Structural, Debug)]
pub struct Estimator {
    /// Bounce depth limit: the loop hard-stops once the depth would
    /// exceed it.
    pub max_depth: u32,
    /// Number of independent bounce trials averaged per call.
    pub n_ambient_samples: u32,
    /// Shadow samples spent at the primary hit (deeper hits use one).
    pub n_shadow_samples: u32,
}

impl Estimator {
    /// How many trials one call actually runs: exactly one when no bounce
    /// is possible, the configured count otherwise.
    pub open spec fn spec_effective_samples(self) -> int {
        if self.max_depth == 0 {
            1
        } else {
            self.n_ambient_samples as int
        }
    }

    /// The contribution of the rest of one trial, from a state of the
    /// bounce loop: current ray, throughput `beta`, depth, specular flag
    /// and random state.  Returns the spectrum still to be accumulated and
    /// the random state when the trial ends.
    pub open spec fn spec_bounce(
        self,
        scene: Scene,
        ray: Ray3D,
        beta: Spectrum,
        depth: int,
        specular: bool,
        rng: u64,
    ) -> (Spectrum, u64)
        decreases self.max_depth as int + 1 - depth,
    {
        match scene.spec_cast_ray(ray) {
            None => (spec_black(), rng),
            Some(hit) => {
                if hit.1.side == SurfaceSide::NonApplicable {
                    (spec_black(), rng)
                } else {
                    let material = scene.spec_material_for(hit.0 as int, hit.1.side);
                    if material.spec_emits_light() {
                        if specular {
                            (spec_mul(beta, material.spec_colour()), rng)
                        } else {
                            (spec_black(), rng)
                        }
                    } else {
                        let it = hit.1.spec_with_normal(scene.normals@[hit.0 as int]);
                        let nss = if depth == 0 {
                            self.n_shadow_samples as int
                        } else {
                            1
                        };
                        let direct = spec_direct_illumination(scene, material, it, rng, nss);
                        let term = spec_mul(beta, direct.0);
                        if depth + 1 > self.max_depth {
                            (term, direct.1)
                        } else {
                            let s1 = spec_next_state(direct.1);
                            let s2 = spec_next_state(s1);
                            let s3 = spec_next_state(s2);
                            let local = spec_sample_hemisphere(
                                spec_rand_value(s1),
                                spec_rand_value(s2),
                                spec_rand_value(s3),
                            );
                            let beta2 = spec_beta_scale(
                                spec_mul(beta, material.spec_colour()),
                                local.z as u64,
                            );
                            let ray2 = Ray3D {
                                origin: spec_offset_point(it.point, it.shading_normal),
                                direction: spec_to_world(it.shading_normal, it.e1, it.e2, local),
                            };
                            let rest = self.spec_bounce(scene, ray2, beta2, depth + 1, false, s3);
                            (spec_add(term, rest.0), rest.1)
                        }
                    }
                }
            },
        }
    }

    /// One full trial: the bounce loop started on the input ray with unit
    /// throughput, depth zero and the specular flag set.
    pub open spec fn spec_trial(self, scene: Scene, ray: Ray3D, rng: u64) -> (Spectrum, u64) {
        self.spec_bounce(scene, ray, spec_white(), 0, true, rng)
    }

    /// The sum of `k` independent trials, each starting from the random
    /// state the previous one left behind.
    pub open spec fn spec_trials(self, scene: Scene, ray: Ray3D, rng: u64, k: int) -> (
        Spectrum,
        u64,
    )
        decreases k,
    {
        if k <= 0 {
            (spec_black(), rng)
        } else {
            let first = self.spec_trial(scene, ray, rng);
            let rest = self.spec_trials(scene, ray, first.1, k - 1);
            (spec_add(first.0, rest.0), rest.1)
        }
    }

    /// The estimate a call returns: the trial sum averaged over the
    /// effective sample count, and the final random state.
    pub open spec fn spec_trace_ray(self, scene: Scene, ray: Ray3D, rng: u64) -> (Spectrum, u64) {
        let n = self.spec_effective_samples();
        let sum = self.spec_trials(scene, ray, rng, n);
        (spec_div_count(sum.0, n as u64), sum.1)
    }

    /// Shadow-ray estimate of the direct light reaching a hit point:
    /// averages `n_shadow_samples` hemisphere samples, each contributing
    /// the light it reaches, weighted by the surface reflectance and the
    /// sample cosine.
    pub fn get_local_illumination(
        &self,
        scene: &Scene,
        material: &Material,
        interaction: &Interaction,
        rng: &mut RandGen,
        n_shadow_samples: u32,
    ) -> (s: Spectrum)
        requires
            scene.wf(),
            interaction_ok(*interaction),
            n_shadow_samples >= 1,
        ensures
            ({
                let r = spec_direct_illumination(
                    *scene,
                    *material,
                    *interaction,
                    old(rng).state,
                    n_shadow_samples as int,
                );
                s == r.0 && final(rng).state == r.1
            }),
    {
        let mut acc = Spectrum::black();
        let mut j: u32 = 0;
        while j < n_shadow_samples
            invariant
                j <= n_shadow_samples,
                scene.wf(),
                interaction_ok(*interaction),
                ({
                    let r = spec_local_illumination(
                        *scene,
                        *material,
                        *interaction,
                        old(rng).state,
                        j as int,
                    );
                    acc == r.0 && rng.state == r.1
                }),
            decreases n_shadow_samples - j,
        {
            let u1 = rng.gen();
            let u2 = rng.gen();
            let u3 = rng.gen();
            let local = sample_uniform_hemisphere(u1, u2, u3);
            let triad = interaction.get_triad();
            let wdir = material.to_world(triad.1, triad.2, triad.3, local);
            let sray = Ray3D { origin: offset_point(triad.0, triad.1), direction: wdir };
            let contribution = match scene.cast_ray(sray) {
                None => Spectrum::black(),
                Some(hit) => {
                    if hit.1.side == SurfaceSide::NonApplicable {
                        Spectrum::black()
                    } else {
                        let m2 = scene.material_for(hit.0, hit.1.side);
                        if m2.emits_light() {
                            scale_spectrum(
                                m2.colour().mul(material.colour()),
                                local.z as u64,
                                2,
                                65536,
                            )
                        } else {
                            Spectrum::black()
                        }
                    }
                },
            };
            acc = acc.add(contribution);
            j = j + 1;
        }
        acc.div_count(n_shadow_samples as u64)
    }

    /// Estimate the radiance arriving along `ray`.
    ///
    /// Runs the effective number of independent bounce trials and returns
    /// their average; the exact value, and the random state left behind,
    /// are given by [`Estimator::spec_trace_ray`].
    pub fn trace_ray(&self, rng: &mut RandGen, scene: &Scene, ray: Ray3D) -> (s: Spectrum)
        requires
            scene.wf(),
            ray_ok(ray),
            self.n_ambient_samples >= 1,
            self.n_shadow_samples >= 1,
        ensures
            ({
                let r = self.spec_trace_ray(*scene, ray, old(rng).state);
                s == r.0 && final(rng).state == r.1
            }),
    {
        let n_ambient: u32 = if self.max_depth == 0 {
            1
        } else {
            self.n_ambient_samples
        };
        let mut spectrum = Spectrum::black();
        let mut i: u32 = 0;
        while i < n_ambient
            invariant
                i <= n_ambient,
                n_ambient as int == self.spec_effective_samples(),
                n_ambient >= 1,
                scene.wf(),
                ray_ok(ray),
                self.n_shadow_samples >= 1,
                ({
                    let rem = self.spec_trials(*scene, ray, rng.state, n_ambient as int - i);
                    let all = self.spec_trials(*scene, ray, old(rng).state, n_ambient as int);
                    spec_add(spectrum, rem.0) == all.0 && rem.1 == all.1
                }),
            decreases n_ambient - i,
        {
            let ghost trial_goal = self.spec_trial(*scene, ray, rng.state);
            let ghost spectrum_before = spectrum;
            let mut ray_cur = ray;
            let mut beta = Spectrum::white();
            let mut depth: u32 = 0;
            let mut specular_bounce = true;
            loop
                invariant_except_break
                    scene.wf(),
                    ray_ok(ray_cur),
                    self.n_shadow_samples >= 1,
                    depth <= self.max_depth,
                    ({
                        let rest = self.spec_bounce(
                            *scene,
                            ray_cur,
                            beta,
                            depth as int,
                            specular_bounce,
                            rng.state,
                        );
                        spec_add(spectrum, rest.0) == spec_add(spectrum_before, trial_goal.0)
                            && rest.1 == trial_goal.1
                    }),
                ensures
                    spectrum == spec_add(spectrum_before, trial_goal.0),
                    rng.state == trial_goal.1,
                decreases self.max_depth as int - depth as int,
            {
                match scene.cast_ray(ray_cur) {
                    None => {
                        proof {
                            lemma_add_black(spectrum);
                        }
                        break;
                    },
                    Some(hit) => {
                        let triangle_index = hit.0;
                        let mut interaction = hit.1;
                        if interaction.side == SurfaceSide::NonApplicable {
                            proof {
                                lemma_add_black(spectrum);
                            }
                            break;
                        }
                        let material = scene.material_for(triangle_index, interaction.side);
                        if material.emits_light() {
                            if specular_bounce {
                                spectrum = spectrum.add(beta.mul(material.colour()));
                            } else {
                                proof {
                                    lemma_add_black(spectrum);
                                }
                            }
                            break;
                        }
                        interaction.interpolate_normal(scene.normals[triangle_index]);
                        let nss: u32 = if depth == 0 {
                            self.n_shadow_samples
                        } else {
                            1
                        };
                        let local = self.get_local_illumination(
                            scene,
                            &material,
                            &interaction,
                            rng,
                            nss,
                        );
                        let term = beta.mul(local);
                        proof {
                            lemma_add_assoc(spectrum, term, self.spec_bounce(
                                *scene,
                                ray_cur,
                                beta,
                                depth as int,
                                specular_bounce,
                                rng.state,
                            ).0);
                        }
                        spectrum = spectrum.add(term);
                        if depth >= self.max_depth {
                            break;
                        }
                        depth = depth + 1;
                        let u1 = rng.gen();
                        let u2 = rng.gen();
                        let u3 = rng.gen();
                        let new_dir = sample_uniform_hemisphere(u1, u2, u3);
                        let cos_theta = new_dir.z;
                        beta = beta_scale(beta.mul(material.colour()), cos_theta as u64);
                        specular_bounce = false;
                        let triad = interaction.get_triad();
                        ray_cur = Ray3D {
                            direction: material.to_world(triad.1, triad.2, triad.3, new_dir),
                            origin: offset_point(triad.0, triad.1),
                        };
                    },
                }
            }
            i = i + 1;
        }
        spectrum.div_count(n_ambient as u64)
    }
}

} // verus!
