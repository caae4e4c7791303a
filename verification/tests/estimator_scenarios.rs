//! End-to-end scenarios for the radiance estimator.

use pathtracer::estimator::Estimator;
use pathtracer::material::Material;
use pathtracer::rng::RandGen;
use pathtracer::scene::{Patch, Scene};
use pathtracer::spectrum::Spectrum;
use pathtracer::vec3::{Axis, Ray3D, Vec3};

const HALF_EXTENT: i64 = 1_000_000_000;

fn up() -> Vec3 {
    Vec3 { x: 0, y: 0, z: 65536 }
}

fn down() -> Vec3 {
    Vec3 { x: 0, y: 0, z: -65536 }
}

fn horizontal_patch(z: i64) -> Patch {
    Patch {
        axis: Axis::Z,
        coord: z,
        lo1: -HALF_EXTENT,
        hi1: HALF_EXTENT,
        lo2: -HALF_EXTENT,
        hi2: HALF_EXTENT,
    }
}

fn down_ray() -> Ray3D {
    Ray3D { origin: Vec3 { x: 0, y: 0, z: 1000 }, direction: down() }
}

fn empty_scene() -> Scene {
    Scene {
        patches: vec![],
        materials: vec![],
        front_material_indexes: vec![],
        back_material_indexes: vec![],
        normals: vec![],
    }
}

/// Floor at z = 0 (diffuse grey on the front) under a ceiling at z = 2000
/// whose underside is a light; a black absorber everywhere else.
fn box_scene() -> Scene {
    let grey = Material::Diffuse { colour: Spectrum { r: 32768, g: 32768, b: 32768 } };
    let light = Material::Light { colour: Spectrum { r: 40000, g: 40000, b: 40000 } };
    let black = Material::Diffuse { colour: Spectrum { r: 0, g: 0, b: 0 } };
    Scene {
        patches: vec![horizontal_patch(0), horizontal_patch(2000)],
        materials: vec![grey, light, black],
        front_material_indexes: vec![0, 2],
        back_material_indexes: vec![2, 1],
        normals: vec![up(), down()],
    }
}

#[test]
fn miss_returns_black() {
    let scene = empty_scene();
    let est = Estimator { max_depth: 5, n_ambient_samples: 3, n_shadow_samples: 2 };
    let mut rng = RandGen::new(42);
    let s = est.trace_ray(&mut rng, &scene, down_ray());
    assert_eq!(s, Spectrum::black());
    assert_eq!(rng.state, 42);
}

#[test]
fn emissive_first_hit_returns_emitted_colour() {
    let colour = Spectrum { r: 10000, g: 20000, b: 30000 };
    let scene = Scene {
        patches: vec![horizontal_patch(0)],
        materials: vec![Material::Light { colour }],
        front_material_indexes: vec![0],
        back_material_indexes: vec![0],
        normals: vec![up()],
    };
    let est = Estimator { max_depth: 3, n_ambient_samples: 4, n_shadow_samples: 2 };
    let mut rng = RandGen::new(7);
    let s = est.trace_ray(&mut rng, &scene, down_ray());
    assert_eq!(s, colour);
    assert_eq!(rng.state, 7);
}

#[test]
fn grazing_hit_contributes_nothing() {
    let colour = Spectrum { r: 10000, g: 20000, b: 30000 };
    let scene = Scene {
        patches: vec![horizontal_patch(0)],
        materials: vec![Material::Light { colour }],
        front_material_indexes: vec![0],
        back_material_indexes: vec![0],
        normals: vec![up()],
    };
    // A ray starting on the patch, running inside its plane.
    let ray = Ray3D {
        origin: Vec3 { x: 0, y: 0, z: 0 },
        direction: Vec3 { x: 65536, y: 0, z: 0 },
    };
    let hit = scene.cast_ray(ray);
    assert!(hit.is_some());
    let est = Estimator { max_depth: 4, n_ambient_samples: 3, n_shadow_samples: 2 };
    let mut rng = RandGen::new(13);
    let s = est.trace_ray(&mut rng, &scene, ray);
    assert_eq!(s, Spectrum::black());
    assert_eq!(rng.state, 13);
}

#[test]
fn zero_depth_forces_single_sample() {
    let scene = box_scene();
    let few = Estimator { max_depth: 0, n_ambient_samples: 1, n_shadow_samples: 3 };
    let many = Estimator { max_depth: 0, n_ambient_samples: 7, n_shadow_samples: 3 };
    let mut rng_few = RandGen::new(21);
    let mut rng_many = RandGen::new(21);
    let s_few = few.trace_ray(&mut rng_few, &scene, down_ray());
    let s_many = many.trace_ray(&mut rng_many, &scene, down_ray());
    assert_eq!(s_few, s_many);
    assert_eq!(rng_few.state, rng_many.state);
}

#[test]
fn zero_depth_equals_direct_illumination() {
    let scene = box_scene();
    let est = Estimator { max_depth: 0, n_ambient_samples: 9, n_shadow_samples: 3 };
    let mut rng = RandGen::new(7);
    let s = est.trace_ray(&mut rng, &scene, down_ray());

    // Rebuild the single trial by hand from the public pieces.
    let (index, mut interaction) = scene.cast_ray(down_ray()).unwrap();
    let material = scene.material_for(index, interaction.side);
    interaction.interpolate_normal(scene.normals[index]);
    let mut rng_expected = RandGen::new(7);
    let expected = est.get_local_illumination(&scene, &material, &interaction, &mut rng_expected, 3);
    assert_eq!(s, expected);
    assert_eq!(rng.state, rng_expected.state);
}

#[test]
fn no_emission_added_after_diffuse_bounce() {
    let scene = box_scene();
    let est = Estimator { max_depth: 1, n_ambient_samples: 1, n_shadow_samples: 1 };
    let mut rng = RandGen::new(11);
    let s = est.trace_ray(&mut rng, &scene, down_ray());

    // The trial takes the direct term at the floor, then bounces into the
    // ceiling light with the specular flag cleared: nothing more may be
    // added, so the estimate is exactly the direct term.
    let (index, mut interaction) = scene.cast_ray(down_ray()).unwrap();
    let material = scene.material_for(index, interaction.side);
    interaction.interpolate_normal(scene.normals[index]);
    let mut rng_expected = RandGen::new(11);
    let direct = est.get_local_illumination(&scene, &material, &interaction, &mut rng_expected, 1);
    assert_eq!(s, direct);
    // The trial spent exactly three more draws on the bounce direction.
    rng_expected.gen();
    rng_expected.gen();
    rng_expected.gen();
    assert_eq!(rng.state, rng_expected.state);
}

#[test]
fn averaging_matches_independent_trials() {
    let scene = box_scene();
    let paired = Estimator { max_depth: 2, n_ambient_samples: 2, n_shadow_samples: 2 };
    let single = Estimator { max_depth: 2, n_ambient_samples: 1, n_shadow_samples: 2 };
    let mut rng = RandGen::new(99);
    let s = paired.trace_ray(&mut rng, &scene, down_ray());

    // One-sample calls return exactly one trial each, threading the same
    // random sequence.
    let mut rng_trials = RandGen::new(99);
    let first = single.trace_ray(&mut rng_trials, &scene, down_ray());
    let second = single.trace_ray(&mut rng_trials, &scene, down_ray());
    assert_eq!(s, first.add(second).div_count(2));
    assert_eq!(rng.state, rng_trials.state);
}

#[test]
fn depth_cutoff_bounds_evaluations() {
    // Two facing diffuse panels that bounce every ray back and forth
    // forever: the trial must stop after max_depth + 1 illumination
    // evaluations.  Each evaluation costs three draws (one shadow sample)
    // and each continued bounce three more, so the random state must land
    // exactly 2 * (3 * 3 + 3 * 2) draws ahead.
    let white = Material::Diffuse { colour: Spectrum { r: 65536, g: 65536, b: 65536 } };
    let scene = Scene {
        patches: vec![horizontal_patch(0), horizontal_patch(2000)],
        materials: vec![white],
        front_material_indexes: vec![0, 0],
        back_material_indexes: vec![0, 0],
        normals: vec![up(), down()],
    };
    let est = Estimator { max_depth: 2, n_ambient_samples: 2, n_shadow_samples: 1 };
    let mut rng = RandGen::new(5);
    let s = est.trace_ray(&mut rng, &scene, down_ray());
    assert_eq!(s, Spectrum::black());
    let mut counter = RandGen::new(5);
    for _ in 0..30 {
        counter.gen();
    }
    assert_eq!(rng.state, counter.state);
}
