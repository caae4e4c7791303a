//! Unit checks of the fixed-point building blocks.

use pathtracer::estimator::beta_scale;
use pathtracer::interaction::SurfaceSide;
use pathtracer::material::Material;
use pathtracer::rng::RandGen;
use pathtracer::sampling::sample_uniform_hemisphere;
use pathtracer::scene::{Patch, Scene};
use pathtracer::spectrum::Spectrum;
use pathtracer::vec3::{Axis, Ray3D, Vec3};

fn floor_at(z: i64) -> Patch {
    Patch { axis: Axis::Z, coord: z, lo1: -100000, hi1: 100000, lo2: -100000, hi2: 100000 }
}

fn two_floor_scene() -> Scene {
    let grey = Material::Diffuse { colour: Spectrum { r: 32768, g: 32768, b: 32768 } };
    let light = Material::Light { colour: Spectrum { r: 50000, g: 50000, b: 50000 } };
    Scene {
        patches: vec![floor_at(200), floor_at(500)],
        materials: vec![grey, light],
        front_material_indexes: vec![0, 1],
        back_material_indexes: vec![1, 0],
        normals: vec![
            Vec3 { x: 0, y: 0, z: 65536 },
            Vec3 { x: 0, y: 0, z: 65536 },
        ],
    }
}

#[test]
fn spectrum_add_is_elementwise_and_saturates() {
    let a = Spectrum { r: 1, g: 2, b: 3 };
    let b = Spectrum { r: 10, g: 20, b: 30 };
    assert_eq!(a.add(b), Spectrum { r: 11, g: 22, b: 33 });
    let near_full = Spectrum { r: u64::MAX - 5, g: 0, b: u64::MAX };
    let bump = Spectrum { r: 10, g: 1, b: 1 };
    assert_eq!(
        near_full.add(bump),
        Spectrum { r: u64::MAX, g: 1, b: u64::MAX }
    );
}

#[test]
fn spectrum_mul_is_fixed_point() {
    let a = Spectrum { r: 65536, g: 32768, b: 16384 };
    let b = Spectrum { r: 65536, g: 65536, b: 32768 };
    assert_eq!(a.mul(b), Spectrum { r: 65536, g: 32768, b: 8192 });
    let white = Spectrum::white();
    let c = Spectrum { r: 123, g: 456, b: 789 };
    assert_eq!(white.mul(c), c);
}

#[test]
fn spectrum_div_count_averages() {
    let a = Spectrum { r: 90, g: 60, b: 31 };
    assert_eq!(a.div_count(3), Spectrum { r: 30, g: 20, b: 10 });
}

#[test]
fn beta_scale_exact_values() {
    // Reflectance one half, cosine just under one: the boundary
    // inequality 200 * reflectance * cosine <= 107 * 65536 * 65536 holds,
    // and the throughput shrinks.
    let beta = Spectrum::white();
    let grey = Spectrum { r: 32768, g: 32768, b: 32768 };
    let scaled = beta_scale(beta.mul(grey), 65535);
    assert_eq!(scaled, Spectrum { r: 61247, g: 61247, b: 61247 });
    assert!(scaled.r <= beta.r && scaled.g <= beta.g && scaled.b <= beta.b);

    // Full reflectance violates the boundary: the weight 2/1.07 exceeds
    // one and the throughput grows.
    let grown = beta_scale(beta.mul(Spectrum::white()), 65535);
    assert_eq!(grown, Spectrum { r: 122495, g: 122495, b: 122495 });
    assert!(grown.r > beta.r);
}

#[test]
fn hemisphere_sample_points_up() {
    // Centred azimuth draws degenerate to the radial axis.
    let v = sample_uniform_hemisphere(0, 32768, 32768);
    assert_eq!(v, Vec3 { x: 65536, y: 0, z: 0 });
    // A grazing-cosine sample keeps its third component equal to the
    // first draw and normalises the azimuth radius exactly.
    let w = sample_uniform_hemisphere(65535, 0, 0);
    assert_eq!(w, Vec3 { x: -255, y: -255, z: 65535 });
    assert!(0 <= w.z && w.z < 65536);
}

#[test]
fn rng_is_deterministic_and_in_range() {
    let mut a = RandGen::new(12345);
    let mut b = RandGen::new(12345);
    for _ in 0..100 {
        let x = a.gen();
        let y = b.gen();
        assert_eq!(x, y);
        assert!(x < 65536);
    }
    assert_eq!(a.state, b.state);
}

#[test]
fn cast_ray_picks_nearest_hit() {
    let scene = two_floor_scene();
    let ray = Ray3D {
        origin: Vec3 { x: 0, y: 0, z: 1000 },
        direction: Vec3 { x: 0, y: 0, z: -65536 },
    };
    let (index, interaction) = scene.cast_ray(ray).unwrap();
    assert_eq!(index, 1);
    assert_eq!(interaction.point, Vec3 { x: 0, y: 0, z: 500 });
    assert_eq!(interaction.side, SurfaceSide::Front);
}

#[test]
fn cast_ray_tie_goes_to_earliest_patch() {
    let grey = Material::Diffuse { colour: Spectrum { r: 32768, g: 32768, b: 32768 } };
    let scene = Scene {
        patches: vec![floor_at(500), floor_at(500)],
        materials: vec![grey],
        front_material_indexes: vec![0, 0],
        back_material_indexes: vec![0, 0],
        normals: vec![
            Vec3 { x: 0, y: 0, z: 65536 },
            Vec3 { x: 0, y: 0, z: 65536 },
        ],
    };
    let ray = Ray3D {
        origin: Vec3 { x: 0, y: 0, z: 1000 },
        direction: Vec3 { x: 0, y: 0, z: -65536 },
    };
    let (index, _) = scene.cast_ray(ray).unwrap();
    assert_eq!(index, 0);
}

#[test]
fn cast_ray_classifies_back_side_and_misses() {
    let scene = two_floor_scene();
    let ray_up = Ray3D {
        origin: Vec3 { x: 0, y: 0, z: 0 },
        direction: Vec3 { x: 0, y: 0, z: 65536 },
    };
    let (index, interaction) = scene.cast_ray(ray_up).unwrap();
    assert_eq!(index, 0);
    assert_eq!(interaction.side, SurfaceSide::Back);
    // The back material of the lower patch is the light.
    let material = scene.material_for(index, interaction.side);
    assert!(material.emits_light());
    assert_eq!(material.colour(), Spectrum { r: 50000, g: 50000, b: 50000 });

    let ray_away = Ray3D {
        origin: Vec3 { x: 0, y: 0, z: 1000 },
        direction: Vec3 { x: 0, y: 0, z: 65536 },
    };
    assert!(scene.cast_ray(ray_away).is_none());

    let ray_outside = Ray3D {
        origin: Vec3 { x: 200000, y: 0, z: 1000 },
        direction: Vec3 { x: 0, y: 0, z: -65536 },
    };
    assert!(scene.cast_ray(ray_outside).is_none());
}

#[test]
fn cast_ray_handles_all_axes() {
    let grey = Material::Diffuse { colour: Spectrum { r: 32768, g: 32768, b: 32768 } };
    let wall_x = Patch { axis: Axis::X, coord: 500, lo1: -100, hi1: 100, lo2: -100, hi2: 100 };
    let wall_y = Patch { axis: Axis::Y, coord: -300, lo1: -100, hi1: 100, lo2: -100, hi2: 100 };
    let scene = Scene {
        patches: vec![wall_x, wall_y],
        materials: vec![grey],
        front_material_indexes: vec![0, 0],
        back_material_indexes: vec![0, 0],
        normals: vec![
            Vec3 { x: 65536, y: 0, z: 0 },
            Vec3 { x: 0, y: 65536, z: 0 },
        ],
    };
    // Along +x into the x-wall: a back-side hit, tangents are (y, z).
    let ray_x = Ray3D {
        origin: Vec3 { x: 0, y: 10, z: 20 },
        direction: Vec3 { x: 65536, y: 0, z: 0 },
    };
    let (index, interaction) = scene.cast_ray(ray_x).unwrap();
    assert_eq!(index, 0);
    assert_eq!(interaction.point, Vec3 { x: 500, y: 10, z: 20 });
    assert_eq!(interaction.side, SurfaceSide::Back);
    // Along -y into the y-wall: a front-side hit, tangents are (z, x).
    let ray_y = Ray3D {
        origin: Vec3 { x: 5, y: 0, z: 7 },
        direction: Vec3 { x: 0, y: -65536, z: 0 },
    };
    let (index, interaction) = scene.cast_ray(ray_y).unwrap();
    assert_eq!(index, 1);
    assert_eq!(interaction.point, Vec3 { x: 5, y: -300, z: 7 });
    assert_eq!(interaction.side, SurfaceSide::Front);
}

#[test]
fn interaction_normal_interpolation_updates_triad() {
    let scene = two_floor_scene();
    let ray = Ray3D {
        origin: Vec3 { x: 0, y: 0, z: 1000 },
        direction: Vec3 { x: 0, y: 0, z: -65536 },
    };
    let (index, mut interaction) = scene.cast_ray(ray).unwrap();
    assert_eq!(index, 1);
    let tilted = Vec3 { x: 100, y: -100, z: 65000 };
    interaction.interpolate_normal(tilted);
    let triad = interaction.get_triad();
    assert_eq!(triad.0, Vec3 { x: 0, y: 0, z: 500 });
    assert_eq!(triad.1, tilted);
}
