//! A forward Monte-Carlo path-tracing radiance estimator.
//!
//! Given a camera ray, the estimator computes the light spectrum arriving
//! along it by simulating bounces through a scene of axis-aligned surface
//! patches with front/back materials.  All quantities are fixed-point
//! integers, so every arithmetic step has an exact, machine-checked
//! specification: spectra saturate instead of overflowing, directions are
//! scaled by [`vec3::DIR_ONE`], and spatial coordinates are plain `i64`
//! units.

pub mod spectrum;
pub mod vec3;
pub mod rng;
pub mod sampling;
pub mod material;
pub mod interaction;
pub mod scene;
pub mod estimator;
pub mod laws;
