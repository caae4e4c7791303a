//! Hemisphere direction sampling in fixed-point arithmetic.
//!
//! Three random draws in `[0, DIR_ONE)` become an upward-looking local
//! direction: the third component (the cosine against the local normal) is
//! the first draw itself, and the other two draws pick the azimuth.  The
//! radial part is normalised with an exact integer square root, so the
//! whole sample is a pure function of the three draws.

use vstd::prelude::*;
use crate::vec3::{Vec3, DIR_ONE, spec_div_trunc, div_trunc_i128, lemma_div_trunc_small, vec_bounded};

verus! {

/// `r` is the integer square root of `x`.
pub open spec fn is_isqrt(x: int, r: int) -> bool {
    &&& 0 <= r
    &&& r * r <= x
    &&& x < (r + 1) * (r + 1)
}

/// The integer square root of `x` (the unique `r` with `r^2 <= x < (r+1)^2`).
pub open spec fn spec_isqrt(x: int) -> int {
    choose|r: int| is_isqrt(x, r)
}

/// The integer square root is unique, so any witness equals `spec_isqrt`.
pub proof fn lemma_isqrt_unique(x: int, r: int)
    requires
        is_isqrt(x, r),
    ensures
        spec_isqrt(x) == r,
{
    assert(is_isqrt(x, spec_isqrt(x)));
    let s = spec_isqrt(x);
    if s < r {
        assert((s + 1) * (s + 1) <= r * r) by (nonlinear_arith)
            requires
                0 <= s,
                s < r,
        ;
    }
    if r < s {
        assert((r + 1) * (r + 1) <= s * s) by (nonlinear_arith)
            requires
                0 <= r,
                r < s,
        ;
    }
}

/// Integer square root by binary search, for inputs up to `DIR_ONE^2`.
pub fn isqrt64(x: u64) -> (r: u64)
    requires
        x <= 0x1_0000_0000,
    ensures
        is_isqrt(x as int, r as int),
        r as int == spec_isqrt(x as int),
        r <= 65536,
{
    let mut lo: u64 = 0;
    let mut hi: u64 = 65536;
    while lo < hi
        invariant
            lo <= hi <= 65536,
            (lo as int) * (lo as int) <= x as int,
            (x as int) < (hi as int + 1) * (hi as int + 1),
        decreases hi - lo,
    {
        let mid: u64 = (lo + hi + 1) / 2;
        proof {
            assert((mid as int) * (mid as int) <= 65536 * 65536) by (nonlinear_arith)
                requires
                    mid <= 65536,
            ;
        }
        if mid * mid <= x {
            lo = mid;
        } else {
            hi = mid - 1;
        }
    }
    proof {
        lemma_isqrt_unique(x as int, lo as int);
    }
    lo
}

/// The upward-looking local direction determined by three draws in
/// `[0, DIR_ONE)`: cosine `u1` against the local normal, azimuth from
/// `(u2, u3)`.
pub open spec fn spec_sample_hemisphere(u1: u64, u2: u64, u3: u64) -> Vec3
    recommends
        u1 < DIR_ONE,
        u2 < DIR_ONE,
        u3 < DIR_ONE,
{
    let z = u1 as int;
    let rad = spec_isqrt(DIR_ONE * DIR_ONE - z * z);
    let a = u2 as int - 32768;
    let b = u3 as int - 32768;
    if a == 0 && b == 0 {
        Vec3 { x: rad as i64, y: 0, z: u1 as i64 }
    } else {
        let len = spec_isqrt(a * a + b * b);
        Vec3 {
            x: spec_div_trunc(a * rad, len) as i64,
            y: spec_div_trunc(b * rad, len) as i64,
            z: u1 as i64,
        }
    }
}

/// Sample an upward-looking direction over the local hemisphere from three
/// fixed-point draws.
pub fn sample_uniform_hemisphere(u1: u64, u2: u64, u3: u64) -> (v: Vec3)
    requires
        u1 < DIR_ONE,
        u2 < DIR_ONE,
        u3 < DIR_ONE,
    ensures
        v == spec_sample_hemisphere(u1, u2, u3),
        0 <= v.z < DIR_ONE,
        vec_bounded(v, DIR_ONE),
{
    proof {
        assert((u1 as int) * (u1 as int) <= 65535 * 65535) by (nonlinear_arith)
            requires
                u1 <= 65535,
        ;
        assert((u1 as int) * (u1 as int) >= 0) by (nonlinear_arith);
    }
    let z2: u64 = u1 * u1;
    let rad: u64 = isqrt64(0x1_0000_0000 - z2);
    let a: i64 = u2 as i64 - 32768;
    let b: i64 = u3 as i64 - 32768;
    if a == 0 && b == 0 {
        Vec3 { x: rad as i64, y: 0, z: u1 as i64 }
    } else {
        proof {
            assert((a as int) * (a as int) <= 32768 * 32768 && (a as int) * (a as int) >= 0)
                by (nonlinear_arith)
                requires
                    -32768 <= a <= 32768,
            ;
            assert((b as int) * (b as int) <= 32768 * 32768 && (b as int) * (b as int) >= 0)
                by (nonlinear_arith)
                requires
                    -32768 <= b <= 32768,
            ;
        }
        let sq: u64 = (a * a) as u64 + (b * b) as u64;
        let len: u64 = isqrt64(sq);
        proof {
            if len == 0 {
                assert(sq < 1) by (nonlinear_arith)
                    requires
                        len as int == 0,
                        (sq as int) < ((len as int + 1) * (len as int + 1)),
                ;
                assert(a == 0 && b == 0) by (nonlinear_arith)
                    requires
                        (a as int) * (a as int) + (b as int) * (b as int) < 1,
                ;
            }
            lemma_abs_le_isqrt(a as int, b as int, len as int);
            lemma_abs_le_isqrt(b as int, a as int, len as int);
            assert(-(rad as int) * (len as int) <= (a as int) * (rad as int)
                <= (rad as int) * (len as int)) by (nonlinear_arith)
                requires
                    -(len as int) <= a as int <= len as int,
                    rad >= 0,
            ;
            assert(-(rad as int) * (len as int) <= (b as int) * (rad as int)
                <= (rad as int) * (len as int)) by (nonlinear_arith)
                requires
                    -(len as int) <= b as int <= len as int,
                    rad >= 0,
            ;
            lemma_div_trunc_small((a as int) * (rad as int), len as int, rad as int);
            lemma_div_trunc_small((b as int) * (rad as int), len as int, rad as int);
            assert(-(32768 * 65536) <= (a as int) * (rad as int) <= 32768 * 65536)
                by (nonlinear_arith)
                requires
                    -32768 <= a as int <= 32768,
                    0 <= rad as int <= 65536,
            ;
            assert(-(32768 * 65536) <= (b as int) * (rad as int) <= 32768 * 65536)
                by (nonlinear_arith)
                requires
                    -32768 <= b as int <= 32768,
                    0 <= rad as int <= 65536,
            ;
        }
        let x: i128 = div_trunc_i128(a as i128 * rad as i128, len as i128);
        let y: i128 = div_trunc_i128(b as i128 * rad as i128, len as i128);
        Vec3 { x: x as i64, y: y as i64, z: u1 as i64 }
    }
}

/// A leg of a right triangle is no longer than the integer square root of
/// the squared hypotenuse.
proof fn lemma_abs_le_isqrt(a: int, b: int, len: int)
    requires
        is_isqrt(a * a + b * b, len),
    ensures
        -len <= a <= len,
{
    assert(-len <= a <= len) by (nonlinear_arith)
        requires
            0 <= len,
            a * a + b * b < (len + 1) * (len + 1),
    ;
}

} // verus!
