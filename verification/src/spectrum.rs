//! Light spectra as RGB triples of fixed-point intensities.
//!
//! A channel value of [`SPECTRUM_ONE`] stands for intensity 1.0.  Addition
//! and multiplication saturate at `u64::MAX` instead of overflowing; the
//! saturation point is stated exactly in every specification, so throughput
//! weights can never go negative or wrap around.

use vstd::prelude::*;

verus! {

/// Fixed-point scale of a spectrum channel: this value stands for 1.0.
pub const SPECTRUM_ONE: u64 = 65536;

/// Clamp a non-negative mathematical integer into a `u64`.
pub open spec fn sat64(x: int) -> u64 {
    if x > u64::MAX {
        u64::MAX
    } else if x < 0 {
        0
    } else {
        x as u64
    }
}

/// An additive light quantity, one fixed-point intensity per colour band.
#[derive(Clone, Copy, PartialEq, Eq, Structural, Debug)]
pub struct Spectrum {
    pub r: u64,
    pub g: u64,
    pub b: u64,
}

/// The absence of light: zero in every channel.
pub open spec fn spec_black() -> Spectrum {
    Spectrum { r: 0, g: 0, b: 0 }
}

/// The multiplicative identity: 1.0 in every channel.
pub open spec fn spec_white() -> Spectrum {
    Spectrum { r: SPECTRUM_ONE, g: SPECTRUM_ONE, b: SPECTRUM_ONE }
}

/// Saturating channel addition.
pub open spec fn spec_sat_add64(a: u64, b: u64) -> u64 {
    sat64(a + b)
}

/// Elementwise saturating addition of two spectra.
pub open spec fn spec_add(a: Spectrum, b: Spectrum) -> Spectrum {
    Spectrum {
        r: spec_sat_add64(a.r, b.r),
        g: spec_sat_add64(a.g, b.g),
        b: spec_sat_add64(a.b, b.b),
    }
}

/// Fixed-point channel product: `a * b / SPECTRUM_ONE`, saturated.
pub open spec fn spec_mul_channel(a: u64, b: u64) -> u64 {
    sat64((a * b) / (SPECTRUM_ONE as int))
}

/// Elementwise fixed-point multiplication of two spectra.
pub open spec fn spec_mul(a: Spectrum, b: Spectrum) -> Spectrum {
    Spectrum {
        r: spec_mul_channel(a.r, b.r),
        g: spec_mul_channel(a.g, b.g),
        b: spec_mul_channel(a.b, b.b),
    }
}

/// Elementwise division of a spectrum by a positive sample count.
pub open spec fn spec_div_count(a: Spectrum, n: u64) -> Spectrum
    recommends
        n >= 1,
{
    Spectrum { r: (a.r / n) as u64, g: (a.g / n) as u64, b: (a.b / n) as u64 }
}

impl Spectrum {
    /// Zero in every channel.
    pub fn black() -> (s: Spectrum)
        ensures
            s == spec_black(),
    {
        Spectrum { r: 0, g: 0, b: 0 }
    }

    /// 1.0 in every channel.
    pub fn white() -> (s: Spectrum)
        ensures
            s == spec_white(),
    {
        Spectrum { r: SPECTRUM_ONE, g: SPECTRUM_ONE, b: SPECTRUM_ONE }
    }

    /// Elementwise saturating addition.
    pub fn add(self, other: Spectrum) -> (s: Spectrum)
        ensures
            s == spec_add(self, other),
    {
        Spectrum {
            r: sat_add64(self.r, other.r),
            g: sat_add64(self.g, other.g),
            b: sat_add64(self.b, other.b),
        }
    }

    /// Elementwise fixed-point multiplication.
    pub fn mul(self, other: Spectrum) -> (s: Spectrum)
        ensures
            s == spec_mul(self, other),
    {
        Spectrum {
            r: mul_channel(self.r, other.r),
            g: mul_channel(self.g, other.g),
            b: mul_channel(self.b, other.b),
        }
    }

    /// Elementwise division by a positive sample count.
    pub fn div_count(self, n: u64) -> (s: Spectrum)
        requires
            n >= 1,
        ensures
            s == spec_div_count(self, n),
    {
        Spectrum { r: self.r / n, g: self.g / n, b: self.b / n }
    }
}

/// Saturating `u64` addition.
pub fn sat_add64(a: u64, b: u64) -> (r: u64)
    ensures
        r == spec_sat_add64(a, b),
{
    let s: u128 = a as u128 + b as u128;
    if s > u64::MAX as u128 {
        u64::MAX
    } else {
        s as u64
    }
}

/// Fixed-point channel product, saturated.
pub fn mul_channel(a: u64, b: u64) -> (r: u64)
    ensures
        r == spec_mul_channel(a, b),
{
    proof {
        assert((a as int) * (b as int) <= (u64::MAX as int) * (u64::MAX as int))
            by (nonlinear_arith)
            requires
                a <= u64::MAX,
                b <= u64::MAX,
        ;
    }
    let p: u128 = (a as u128) * (b as u128);
    let q: u128 = p / (SPECTRUM_ONE as u128);
    if q > u64::MAX as u128 {
        u64::MAX
    } else {
        q as u64
    }
}

/// Adding black changes nothing.
pub proof fn lemma_add_black(s: Spectrum)
    ensures
        spec_add(s, spec_black()) == s,
        spec_add(spec_black(), s) == s,
{
}

/// Saturating addition is associative: both groupings clamp the same total.
pub proof fn lemma_add_assoc(a: Spectrum, b: Spectrum, c: Spectrum)
    ensures
        spec_add(spec_add(a, b), c) == spec_add(a, spec_add(b, c)),
{
}

/// Multiplying by the white spectrum changes nothing.
pub proof fn lemma_mul_white(s: Spectrum)
    ensures
        spec_mul(spec_white(), s) == s,
        spec_mul(s, spec_white()) == s,
{
}

} // verus!
