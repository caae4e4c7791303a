//! Laws of the radiance estimator, proved from its specification.
//!
//! Each proof function here states a behavioural guarantee of
//! [`Estimator::trace_ray`] over the same specification functions its
//! contract uses, so the guarantee holds of the value the executable code
//! actually returns.

use vstd::prelude::*;
use vstd::arithmetic::div_mod::{
    lemma_div_pos_is_pos, lemma_div_is_ordered, lemma_div_by_multiple, lemma_div_multiples_vanish,
    lemma_mul_hoist_inequality,
};
use vstd::arithmetic::mul::lemma_mul_inequality;
use crate::spectrum::{
    Spectrum, spec_black, spec_add, spec_mul, spec_mul_channel, spec_div_count,
    lemma_add_black, lemma_mul_white,
};
use crate::vec3::Ray3D;
use crate::rng::{spec_next_state, spec_rand_value};
use crate::sampling::spec_sample_hemisphere;
use crate::vec3::spec_offset_point;
use crate::material::spec_to_world;
use crate::interaction::SurfaceSide;
use crate::scene::Scene;
use crate::estimator::{
    Estimator, spec_direct_illumination, spec_beta_scale, spec_scale_channel,
    INDIRECT_SCALE_NUM, INDIRECT_SCALE_DIV,
};

verus! {

/// With a bounce limit of zero, exactly one trial runs no matter how many
/// ambient samples are configured, and the estimate is the
/// direct-illumination term at the first hit — black on a miss or a
/// grazing hit, the emitted colour when the first hit is a light.
pub proof fn lemma_zero_depth_single_sample(est: Estimator, scene: Scene, ray: Ray3D, rng: u64)
    requires
        est.max_depth == 0,
    ensures
        est.spec_effective_samples() == 1,
        est.spec_trace_ray(scene, ray, rng).0 == est.spec_trial(scene, ray, rng).0,
        est.spec_trace_ray(scene, ray, rng).1 == est.spec_trial(scene, ray, rng).1,
        (match scene.spec_cast_ray(ray) {
            None => est.spec_trial(scene, ray, rng).0 == spec_black(),
            Some(hit) => {
                if hit.1.side == SurfaceSide::NonApplicable {
                    est.spec_trial(scene, ray, rng).0 == spec_black()
                } else {
                    let material = scene.spec_material_for(hit.0 as int, hit.1.side);
                    if material.spec_emits_light() {
                        est.spec_trial(scene, ray, rng).0 == material.spec_colour()
                    } else {
                        let it = hit.1.spec_with_normal(scene.normals@[hit.0 as int]);
                        est.spec_trial(scene, ray, rng).0 == spec_direct_illumination(
                            scene,
                            material,
                            it,
                            rng,
                            est.n_shadow_samples as int,
                        ).0
                    }
                }
            },
        }),
{
    let trial = est.spec_trial(scene, ray, rng);
    assert(est.spec_trials(scene, ray, trial.1, 0) == (spec_black(), trial.1));
    lemma_add_black(trial.0);
    assert(est.spec_trials(scene, ray, rng, 1) == (trial.0, trial.1));
    assert(spec_div_count(trial.0, 1) == trial.0);
    match scene.spec_cast_ray(ray) {
        None => {},
        Some(hit) => {
            if hit.1.side != SurfaceSide::NonApplicable {
                let material = scene.spec_material_for(hit.0 as int, hit.1.side);
                if material.spec_emits_light() {
                    lemma_mul_white(material.spec_colour());
                } else {
                    let it = hit.1.spec_with_normal(scene.normals@[hit.0 as int]);
                    lemma_mul_white(
                        spec_direct_illumination(
                            scene,
                            material,
                            it,
                            rng,
                            est.n_shadow_samples as int,
                        ).0,
                    );
                }
            }
        },
    }
}

/// Every trial of a ray that misses all geometry contributes black and
/// draws no random number.
proof fn lemma_trials_miss(est: Estimator, scene: Scene, ray: Ray3D, rng: u64, k: int)
    requires
        scene.spec_cast_ray(ray) is None,
    ensures
        est.spec_trials(scene, ray, rng, k) == (spec_black(), rng),
    decreases k,
{
    if k > 0 {
        lemma_trials_miss(est, scene, ray, rng, k - 1);
        lemma_add_black(spec_black());
    }
}

/// A ray that misses all geometry returns exactly black, whatever the
/// configuration, and leaves the random source untouched.
pub proof fn lemma_miss_returns_black(est: Estimator, scene: Scene, ray: Ray3D, rng: u64)
    requires
        est.n_ambient_samples >= 1,
        scene.spec_cast_ray(ray) is None,
    ensures
        est.spec_trace_ray(scene, ray, rng).0 == spec_black(),
        est.spec_trace_ray(scene, ray, rng).1 == rng,
{
    let n = est.spec_effective_samples();
    lemma_trials_miss(est, scene, ray, rng, n);
    let m = n as u64;
    assert(m >= 1);
    assert(0u64 / m == 0) by (nonlinear_arith)
        requires
            m >= 1,
    ;
}

/// When the first hit of every trial is the same emissive surface, `k`
/// trials sum to `k` times its colour, with no random draw spent.
proof fn lemma_trials_emission(
    est: Estimator,
    scene: Scene,
    ray: Ray3D,
    rng: u64,
    k: int,
    colour: Spectrum,
)
    requires
        0 <= k,
        k * colour.r <= u64::MAX,
        k * colour.g <= u64::MAX,
        k * colour.b <= u64::MAX,
        ({
            let cast = scene.spec_cast_ray(ray);
            cast matches Some(hit) && {
                &&& hit.1.side != SurfaceSide::NonApplicable
                &&& scene.spec_material_for(hit.0 as int, hit.1.side).spec_emits_light()
                &&& scene.spec_material_for(hit.0 as int, hit.1.side).spec_colour() == colour
            }
        }),
    ensures
        est.spec_trials(scene, ray, rng, k).1 == rng,
        est.spec_trials(scene, ray, rng, k).0 == (Spectrum {
            r: (k * colour.r) as u64,
            g: (k * colour.g) as u64,
            b: (k * colour.b) as u64,
        }),
    decreases k,
{
    if k <= 0 {
        assert(k * colour.r == 0 && k * colour.g == 0 && k * colour.b == 0) by (nonlinear_arith)
            requires
                k == 0,
        ;
    } else {
        lemma_mul_white(colour);
        assert((k - 1) * colour.r == k * colour.r - colour.r) by (nonlinear_arith);
        assert((k - 1) * colour.g == k * colour.g - colour.g) by (nonlinear_arith);
        assert((k - 1) * colour.b == k * colour.b - colour.b) by (nonlinear_arith);
        lemma_trials_emission(est, scene, ray, rng, k - 1, colour);
    }
}

/// A ray that hits a light source on the very first bounce returns exactly
/// the emitted colour: the throughput is still one and the specular flag is
/// still set.  (Averaging is exact as long as the summed channels do not
/// saturate, which the sample-count premises state.)
pub proof fn lemma_first_hit_emission(
    est: Estimator,
    scene: Scene,
    ray: Ray3D,
    rng: u64,
    colour: Spectrum,
)
    requires
        est.n_ambient_samples >= 1,
        est.spec_effective_samples() * colour.r <= u64::MAX,
        est.spec_effective_samples() * colour.g <= u64::MAX,
        est.spec_effective_samples() * colour.b <= u64::MAX,
        ({
            let cast = scene.spec_cast_ray(ray);
            cast matches Some(hit) && {
                &&& hit.1.side != SurfaceSide::NonApplicable
                &&& scene.spec_material_for(hit.0 as int, hit.1.side).spec_emits_light()
                &&& scene.spec_material_for(hit.0 as int, hit.1.side).spec_colour() == colour
            }
        }),
    ensures
        est.spec_trace_ray(scene, ray, rng).0 == colour,
        est.spec_trace_ray(scene, ray, rng).1 == rng,
{
    let n = est.spec_effective_samples();
    lemma_trials_emission(est, scene, ray, rng, n, colour);
    lemma_div_multiples_vanish(colour.r as int, n);
    lemma_div_multiples_vanish(colour.g as int, n);
    lemma_div_multiples_vanish(colour.b as int, n);
}

/// Hitting a light after a diffuse bounce (specular flag off) adds no
/// emission term at all: direct light was already credited by the
/// direct-illumination estimate at the previous hit, so the trial ends
/// contributing black from that point on.
pub proof fn lemma_no_double_counting(
    est: Estimator,
    scene: Scene,
    ray: Ray3D,
    beta: Spectrum,
    depth: int,
    rng: u64,
)
    requires
        ({
            let cast = scene.spec_cast_ray(ray);
            cast matches Some(hit) && {
                &&& hit.1.side != SurfaceSide::NonApplicable
                &&& scene.spec_material_for(hit.0 as int, hit.1.side).spec_emits_light()
            }
        }),
    ensures
        est.spec_bounce(scene, ray, beta, depth, false, rng) == (spec_black(), rng),
{
}

/// One channel of the throughput update stays at or below its old value
/// whenever the boundary inequality on reflectance, cosine and correction
/// holds.
proof fn lemma_throughput_channel(a: u64, r: u64, c: u64)
    requires
        c <= 65536,
        r * c * 200 <= 107 * 65536 * 65536,
    ensures
        spec_scale_channel(
            spec_mul_channel(a, r),
            c,
            INDIRECT_SCALE_NUM,
            INDIRECT_SCALE_DIV,
        ) <= a,
{
    let ar = (a as int) * (r as int);
    assert((a as int) * (r as int) >= 0) by (nonlinear_arith)
        requires
            a >= 0,
            r >= 0,
    ;
    lemma_div_pos_is_pos(ar, 65536);
    let p = ar / 65536;
    let t1 = spec_mul_channel(a, r) as int;
    assert(0 <= t1 <= p);
    let x200 = (c as int) * 200;
    lemma_mul_inequality(t1, p, x200);
    lemma_mul_hoist_inequality(x200, ar, 65536);
    assert(p * x200 == x200 * p) by (nonlinear_arith);
    assert(x200 * ar == (a as int) * ((r as int) * (c as int) * 200)) by (nonlinear_arith)
        requires
            x200 == (c as int) * 200,
            ar == (a as int) * (r as int),
    ;
    lemma_mul_inequality((r as int) * (c as int) * 200, (107 * 65536 * 65536) as int, a as int);
    assert(((r as int) * (c as int) * 200) * (a as int) == (a as int) * ((r as int) * (c as int)
        * 200)) by (nonlinear_arith);
    assert((107 * 65536 * 65536) * (a as int) == ((a as int) * 7012352) * 65536)
        by (nonlinear_arith);
    assert((a as int) * 7012352 >= 0) by (nonlinear_arith)
        requires
            a >= 0,
    ;
    lemma_div_is_ordered(x200 * ar, ((a as int) * 7012352) * 65536, 65536);
    lemma_div_by_multiple((a as int) * 7012352, 65536);
    assert(t1 * x200 <= (a as int) * 7012352);
    lemma_div_is_ordered(t1 * x200, (a as int) * 7012352, 7012352);
    assert((a as int) * 7012352 == 7012352 * (a as int)) by (nonlinear_arith);
    lemma_div_multiples_vanish(a as int, 7012352);
    assert((t1 * x200) / 7012352 <= a as int);
    assert(t1 * x200 == (t1 * (c as int)) * 200) by (nonlinear_arith)
        requires
            x200 == (c as int) * 200,
    ;
    assert(t1 * (c as int) * 200 >= 0) by (nonlinear_arith)
        requires
            t1 >= 0,
            c >= 0,
    ;
    lemma_div_pos_is_pos(t1 * (c as int) * 200, 7012352);
}

/// Throughput safety: the updated `beta` is never negative (channels are
/// unsigned by construction) and never exceeds the old `beta` as long as
/// the reflectance-cosine product respects the correction boundary
/// `200 * reflectance * cosine <= 107 * SPECTRUM_ONE * DIR_ONE`.
pub proof fn lemma_throughput_bounded(beta: Spectrum, reflectance: Spectrum, cos: u64)
    requires
        cos <= 65536,
        reflectance.r * cos * 200 <= 107 * 65536 * 65536,
        reflectance.g * cos * 200 <= 107 * 65536 * 65536,
        reflectance.b * cos * 200 <= 107 * 65536 * 65536,
    ensures
        spec_beta_scale(spec_mul(beta, reflectance), cos).r <= beta.r,
        spec_beta_scale(spec_mul(beta, reflectance), cos).g <= beta.g,
        spec_beta_scale(spec_mul(beta, reflectance), cos).b <= beta.b,
{
    lemma_throughput_channel(beta.r, reflectance.r, cos);
    lemma_throughput_channel(beta.g, reflectance.g, cos);
    lemma_throughput_channel(beta.b, reflectance.b, cos);
}

/// The per-trial spectra of `k` consecutive trials: each trial starts from
/// the random state the previous one left behind, so each element is a
/// pure function of its own slice of the random sequence.
pub open spec fn spec_trial_sequence(
    est: Estimator,
    scene: Scene,
    ray: Ray3D,
    rng: u64,
    k: int,
) -> Seq<Spectrum>
    decreases k,
{
    if k <= 0 {
        Seq::empty()
    } else {
        let first = est.spec_trial(scene, ray, rng);
        seq![first.0] + spec_trial_sequence(est, scene, ray, first.1, k - 1)
    }
}

/// The elementwise saturating sum of a sequence of spectra.
pub open spec fn spec_sum_spectra(s: Seq<Spectrum>) -> Spectrum
    decreases s.len(),
{
    if s.len() == 0 {
        spec_black()
    } else {
        spec_add(s[0], spec_sum_spectra(s.drop_first()))
    }
}

/// The threaded trial sum equals the sum of the independent per-trial
/// spectra.
proof fn lemma_trials_sum(est: Estimator, scene: Scene, ray: Ray3D, rng: u64, k: int)
    ensures
        est.spec_trials(scene, ray, rng, k).0 == spec_sum_spectra(
            spec_trial_sequence(est, scene, ray, rng, k),
        ),
    decreases k,
{
    if k <= 0 {
        assert(spec_trial_sequence(est, scene, ray, rng, k) =~= Seq::<Spectrum>::empty());
    } else {
        let first = est.spec_trial(scene, ray, rng);
        lemma_trials_sum(est, scene, ray, first.1, k - 1);
        let s = spec_trial_sequence(est, scene, ray, rng, k);
        assert(s.drop_first() =~= spec_trial_sequence(est, scene, ray, first.1, k - 1));
        assert(s[0] == first.0);
    }
}

/// Averaging: the returned spectrum equals the elementwise average of the
/// per-trial spectra, each trial computed independently from its own
/// deterministic slice of the random sequence.
pub proof fn lemma_averaging(est: Estimator, scene: Scene, ray: Ray3D, rng: u64)
    ensures
        ({
            let n = est.spec_effective_samples();
            est.spec_trace_ray(scene, ray, rng).0 == spec_div_count(
                spec_sum_spectra(spec_trial_sequence(est, scene, ray, rng, n)),
                n as u64,
            )
        }),
{
    lemma_trials_sum(est, scene, ray, rng, est.spec_effective_samples());
}

/// How many direct-illumination evaluations the rest of a trial performs
/// from a given bounce state.  Mirrors the branch structure of
/// [`Estimator::spec_bounce`]: one evaluation per non-emissive,
/// non-grazing hit, then the bounce continues only below the depth limit.
pub open spec fn spec_bounce_evaluations(
    est: Estimator,
    scene: Scene,
    ray: Ray3D,
    depth: int,
    rng: u64,
) -> int
    decreases est.max_depth as int + 1 - depth,
{
    match scene.spec_cast_ray(ray) {
        None => 0,
        Some(hit) => {
            if hit.1.side == SurfaceSide::NonApplicable {
                0
            } else {
                let material = scene.spec_material_for(hit.0 as int, hit.1.side);
                if material.spec_emits_light() {
                    0
                } else {
                    let it = hit.1.spec_with_normal(scene.normals@[hit.0 as int]);
                    let nss = if depth == 0 {
                        est.n_shadow_samples as int
                    } else {
                        1
                    };
                    let direct = spec_direct_illumination(scene, material, it, rng, nss);
                    if depth + 1 > est.max_depth {
                        1
                    } else {
                        let s1 = spec_next_state(direct.1);
                        let s2 = spec_next_state(s1);
                        let s3 = spec_next_state(s2);
                        let local = spec_sample_hemisphere(
                            spec_rand_value(s1),
                            spec_rand_value(s2),
                            spec_rand_value(s3),
                        );
                        let ray2 = Ray3D {
                            origin: spec_offset_point(it.point, it.shading_normal),
                            direction: spec_to_world(it.shading_normal, it.e1, it.e2, local),
                        };
                        1 + spec_bounce_evaluations(est, scene, ray2, depth + 1, s3)
                    }
                }
            }
        },
    }
}

/// From depth `d`, at most `max_depth + 1 - d` direct-illumination
/// evaluations remain, whatever the scene keeps returning.
proof fn lemma_bounce_evaluations_bound(
    est: Estimator,
    scene: Scene,
    ray: Ray3D,
    depth: int,
    rng: u64,
)
    requires
        0 <= depth <= est.max_depth,
    ensures
        0 <= spec_bounce_evaluations(est, scene, ray, depth, rng) <= est.max_depth as int + 1
            - depth,
    decreases est.max_depth as int + 1 - depth,
{
    match scene.spec_cast_ray(ray) {
        None => {},
        Some(hit) => {
            if hit.1.side != SurfaceSide::NonApplicable {
                let material = scene.spec_material_for(hit.0 as int, hit.1.side);
                if !material.spec_emits_light() {
                    let it = hit.1.spec_with_normal(scene.normals@[hit.0 as int]);
                    let nss = if depth == 0 {
                        est.n_shadow_samples as int
                    } else {
                        1
                    };
                    let direct = spec_direct_illumination(scene, material, it, rng, nss);
                    if depth + 1 <= est.max_depth {
                        let s1 = spec_next_state(direct.1);
                        let s2 = spec_next_state(s1);
                        let s3 = spec_next_state(s2);
                        let local = spec_sample_hemisphere(
                            spec_rand_value(s1),
                            spec_rand_value(s2),
                            spec_rand_value(s3),
                        );
                        let ray2 = Ray3D {
                            origin: spec_offset_point(it.point, it.shading_normal),
                            direction: spec_to_world(it.shading_normal, it.e1, it.e2, local),
                        };
                        lemma_bounce_evaluations_bound(est, scene, ray2, depth + 1, s3);
                    }
                }
            }
        },
    }
}

/// Depth cutoff: one trial performs at most `max_depth + 1`
/// direct-illumination evaluations before its bounce loop terminates,
/// for any scene — even one that keeps producing hits.
pub proof fn lemma_depth_cutoff(est: Estimator, scene: Scene, ray: Ray3D, rng: u64)
    ensures
        0 <= spec_bounce_evaluations(est, scene, ray, 0, rng) <= est.max_depth as int + 1,
{
    lemma_bounce_evaluations_bound(est, scene, ray, 0, rng);
}

} // verus!
