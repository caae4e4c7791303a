//! Integer 3-vectors, rays and the fixed-point direction scale.
//!
//! Spatial coordinates are plain `i64` units bounded by [`COORD_BOUND`];
//! directions are fixed-point with [`DIR_ONE`] standing for length 1.0.
//! Signed division is truncated toward zero, as a helper with an exact
//! specification, so every rounding step is pinned down.

use vstd::prelude::*;

verus! {

/// Largest magnitude of any scene geometry coordinate.
pub const COORD_BOUND: i64 = 1_000_000_000;

/// Largest magnitude of a ray origin coordinate: scene bound plus slack
/// for the self-intersection offset applied at each bounce.
pub const RAY_ORIGIN_BOUND: i64 = 1_000_000_064;

/// Fixed-point scale of a direction component: this value stands for 1.0.
pub const DIR_ONE: i64 = 65536;

/// Largest magnitude of a ray direction component (three times [`DIR_ONE`],
/// the worst case of a local frame transform).
pub const RAY_DIR_BOUND: i64 = 196608;

/// Offset, in spatial units, applied along the shading normal when a bounce
/// ray is spawned, to avoid re-hitting the surface it starts on.
pub const NORMAL_EPS: i64 = 16;

/// A point or direction with integer components.
#[derive(Clone, Copy, PartialEq, Eq, Structural, Debug)]
pub struct Vec3 {
    pub x: i64,
    pub y: i64,
    pub z: i64,
}

/// A half-line: origin point and (fixed-point) direction.
#[derive(Clone, Copy, PartialEq, Eq, Structural, Debug)]
pub struct Ray3D {
    pub origin: Vec3,
    pub direction: Vec3,
}

/// One of the three coordinate axes.
#[derive(Clone, Copy, PartialEq, Eq, Structural, Debug)]
pub enum Axis {
    X,
    Y,
    Z,
}

/// Every component of `v` has magnitude at most `bound`.
pub open spec fn vec_bounded(v: Vec3, bound: i64) -> bool {
    &&& -bound <= v.x <= bound
    &&& -bound <= v.y <= bound
    &&& -bound <= v.z <= bound
}

/// A ray whose origin and direction are within the limits the intersection
/// routines rely on for overflow freedom.
pub open spec fn ray_ok(r: Ray3D) -> bool {
    &&& vec_bounded(r.origin, RAY_ORIGIN_BOUND)
    &&& vec_bounded(r.direction, RAY_DIR_BOUND)
}

/// The component of `v` along axis `a`.
pub open spec fn spec_comp(v: Vec3, a: Axis) -> i64 {
    match a {
        Axis::X => v.x,
        Axis::Y => v.y,
        Axis::Z => v.z,
    }
}

/// The unit vector along axis `a`, at direction scale.
pub open spec fn spec_axis_unit(a: Axis) -> Vec3 {
    match a {
        Axis::X => Vec3 { x: DIR_ONE, y: 0, z: 0 },
        Axis::Y => Vec3 { x: 0, y: DIR_ONE, z: 0 },
        Axis::Z => Vec3 { x: 0, y: 0, z: DIR_ONE },
    }
}

/// The two axes spanning the plane perpendicular to `a`, in right-handed
/// order.
pub open spec fn spec_tangent_axes(a: Axis) -> (Axis, Axis) {
    match a {
        Axis::X => (Axis::Y, Axis::Z),
        Axis::Y => (Axis::Z, Axis::X),
        Axis::Z => (Axis::X, Axis::Y),
    }
}

/// Integer division truncated toward zero, for a positive divisor.
pub open spec fn spec_div_trunc(n: int, d: int) -> int
    recommends
        d > 0,
{
    if n >= 0 {
        n / d
    } else {
        -((-n) / d)
    }
}

impl Vec3 {
    /// The component along axis `a`.
    pub fn comp(self, a: Axis) -> (c: i64)
        ensures
            c == spec_comp(self, a),
    {
        match a {
            Axis::X => self.x,
            Axis::Y => self.y,
            Axis::Z => self.z,
        }
    }
}

/// The unit vector along axis `a`, at direction scale.
pub fn axis_unit(a: Axis) -> (v: Vec3)
    ensures
        v == spec_axis_unit(a),
{
    match a {
        Axis::X => Vec3 { x: DIR_ONE, y: 0, z: 0 },
        Axis::Y => Vec3 { x: 0, y: DIR_ONE, z: 0 },
        Axis::Z => Vec3 { x: 0, y: 0, z: DIR_ONE },
    }
}

/// The two axes spanning the plane perpendicular to `a`.
pub fn tangent_axes(a: Axis) -> (t: (Axis, Axis))
    ensures
        t == spec_tangent_axes(a),
{
    match a {
        Axis::X => (Axis::Y, Axis::Z),
        Axis::Y => (Axis::Z, Axis::X),
        Axis::Z => (Axis::X, Axis::Y),
    }
}

/// Truncated signed division with a positive divisor.
pub fn div_trunc_i128(n: i128, d: i128) -> (q: i128)
    requires
        d > 0,
        n > i128::MIN,
    ensures
        q == spec_div_trunc(n as int, d as int),
{
    if n >= 0 {
        let qn: u128 = (n as u128) / (d as u128);
        qn as i128
    } else {
        let m: i128 = -n;
        let qn: u128 = (m as u128) / (d as u128);
        -(qn as i128)
    }
}

/// The point `p` moved [`NORMAL_EPS`] units along the (fixed-point) normal
/// `n`: the spawn origin of a bounce ray.
pub open spec fn spec_offset_point(p: Vec3, n: Vec3) -> Vec3 {
    Vec3 {
        x: (p.x + spec_div_trunc(n.x * NORMAL_EPS, DIR_ONE as int)) as i64,
        y: (p.y + spec_div_trunc(n.y * NORMAL_EPS, DIR_ONE as int)) as i64,
        z: (p.z + spec_div_trunc(n.z * NORMAL_EPS, DIR_ONE as int)) as i64,
    }
}

/// Move `p` by [`NORMAL_EPS`] units along the normal `n`.
pub fn offset_point(p: Vec3, n: Vec3) -> (q: Vec3)
    requires
        vec_bounded(p, (RAY_ORIGIN_BOUND - NORMAL_EPS) as i64),
        vec_bounded(n, DIR_ONE),
    ensures
        q == spec_offset_point(p, n),
        vec_bounded(q, RAY_ORIGIN_BOUND),
{
    let dx: i128 = div_trunc_i128(n.x as i128 * NORMAL_EPS as i128, DIR_ONE as i128);
    let dy: i128 = div_trunc_i128(n.y as i128 * NORMAL_EPS as i128, DIR_ONE as i128);
    let dz: i128 = div_trunc_i128(n.z as i128 * NORMAL_EPS as i128, DIR_ONE as i128);
    proof {
        lemma_div_trunc_small(n.x as int * NORMAL_EPS as int, DIR_ONE as int, NORMAL_EPS as int);
        lemma_div_trunc_small(n.y as int * NORMAL_EPS as int, DIR_ONE as int, NORMAL_EPS as int);
        lemma_div_trunc_small(n.z as int * NORMAL_EPS as int, DIR_ONE as int, NORMAL_EPS as int);
    }
    Vec3 {
        x: p.x + dx as i64,
        y: p.y + dy as i64,
        z: p.z + dz as i64,
    }
}

/// A product of two bounded factors is bounded by the product of the bounds.
pub proof fn lemma_mul_bounds(a: int, b: int, ba: int, bb: int)
    requires
        -ba <= a <= ba,
        -bb <= b <= bb,
        ba >= 0,
        bb >= 0,
    ensures
        -(ba * bb) <= a * b <= ba * bb,
{
    assert(-(ba * bb) <= a * b <= ba * bb) by (nonlinear_arith)
        requires
            -ba <= a <= ba,
            -bb <= b <= bb,
            ba >= 0,
            bb >= 0,
    ;
}

/// Truncated division of a product `n` with `|n| <= bound * d` has a
/// quotient of magnitude at most `bound`.
pub proof fn lemma_div_trunc_small(n: int, d: int, bound: int)
    requires
        d > 0,
        bound >= 0,
        -bound * d <= n <= bound * d,
    ensures
        -bound <= spec_div_trunc(n, d) <= bound,
{
    assert(-bound * d == -(bound * d)) by (nonlinear_arith);
    if n >= 0 {
        assert(n / d <= bound) by (nonlinear_arith)
            requires
                d > 0,
                0 <= n <= bound * d,
        ;
        assert(n / d >= 0) by (nonlinear_arith)
            requires
                d > 0,
                n >= 0,
        ;
    } else {
        assert((-n) / d <= bound) by (nonlinear_arith)
            requires
                d > 0,
                0 <= -n <= bound * d,
        ;
        assert((-n) / d >= 0) by (nonlinear_arith)
            requires
                d > 0,
                -n >= 0,
        ;
    }
}

/// Truncated division keeps a value between any bounds given as multiples
/// of the divisor.
pub proof fn lemma_div_trunc_between(s: int, den: int, lo: int, hi: int)
    requires
        den > 0,
        lo * den <= s <= hi * den,
    ensures
        lo <= spec_div_trunc(s, den) <= hi,
{
    if s >= 0 {
        assert(lo <= s / den <= hi) by (nonlinear_arith)
            requires
                den > 0,
                s >= 0,
                lo * den <= s <= hi * den,
        ;
    } else {
        assert(lo <= -((-s) / den) <= hi) by (nonlinear_arith)
            requires
                den > 0,
                s < 0,
                lo * den <= s <= hi * den,
        ;
    }
}

/// Adding a truncated quotient keeps a coordinate inside an interval whose
/// endpoints were checked exactly, scaled by the divisor.
pub proof fn lemma_trunc_add_in_bounds(o: int, s: int, den: int, lo: int, hi: int)
    requires
        den > 0,
        lo * den <= o * den + s <= hi * den,
    ensures
        lo <= o + spec_div_trunc(s, den) <= hi,
{
    assert((lo - o) * den <= s <= (hi - o) * den) by (nonlinear_arith)
        requires
            den > 0,
            lo * den <= o * den + s <= hi * den,
    ;
    lemma_div_trunc_between(s, den, lo - o, hi - o);
}

} // verus!
