use vstd::prelude::*;

verus! {

/// An analog sample held exactly as the fraction `num / den`.
///
/// The client reports samples nominally in [-1, 1]; values outside that range are
/// kept as they are and mapped linearly like any other.
#[derive(Debug, Clone, Copy, PartialEq, Eq, Structural)]
pub struct Sample {
    pub num: i32,
    pub den: u32,
}

impl Sample {
    pub open spec fn wf(self) -> bool {
        self.den > 0
    }

    /// The sample as a rational number, numerator and denominator.
    pub open spec fn numer(self) -> int {
        self.num as int
    }

    pub open spec fn denom(self) -> int {
        self.den as int
    }
}

/// `n / d` rounded to the nearest integer, halves rounded away from zero.
pub open spec fn round_half_away(n: int, d: int) -> int
    recommends
        d > 0,
{
    if n >= 0 {
        (2 * n + d) / (2 * d)
    } else {
        -((-2 * n + d) / (2 * d))
    }
}

/// `((v + 1) / 2) * (max - min) + min` for `v = num / den`, where `v` is negated first
/// when `invert` holds, rounded half away from zero.
pub open spec fn normalized(num: int, den: int, min: int, max: int, invert: bool) -> int
    recommends
        den > 0,
{
    let v = if invert { -num } else { num };
    round_half_away((v + den) * (max - min) + 2 * den * min, 2 * den)
}

proof fn lemma_round_bound(n: int, d: int, b: int)
    requires
        d > 0,
        b >= 0,
        -(d * b) <= n <= d * b,
    ensures
        -(b + 1) <= round_half_away(n, d) <= b + 1,
{
    if n >= 0 {
        assert((2 * n + d) <= (2 * d) * (b + 1)) by (nonlinear_arith)
            requires n <= d * b, d > 0;
        assert((2 * n + d) / (2 * d) <= b + 1) by (nonlinear_arith)
            requires (2 * n + d) <= (2 * d) * (b + 1), d > 0, n >= 0;
        assert((2 * n + d) / (2 * d) >= 0) by (nonlinear_arith)
            requires d > 0, n >= 0;
    } else {
        assert((-2 * n + d) <= (2 * d) * (b + 1)) by (nonlinear_arith)
            requires -(d * b) <= n, d > 0;
        assert((-2 * n + d) / (2 * d) <= b + 1) by (nonlinear_arith)
            requires (-2 * n + d) <= (2 * d) * (b + 1), d > 0, n < 0;
        assert((-2 * n + d) / (2 * d) >= 0) by (nonlinear_arith)
            requires d > 0, n < 0;
    }
}

/// Maps `sample` linearly onto the axis domain `[min, max]`: -1 goes to `min`, 1 goes to
/// `max`, and with `invert` the sample is negated before scaling. The result is rounded to
/// the nearest integer with halves away from zero; it is not clamped to the domain.
pub fn normalize(sample: Sample, min: i32, max: i32, invert: bool) -> (r: i64)
    requires
        sample.wf(),
    ensures
        r as int == normalized(sample.numer(), sample.denom(), min as int, max as int, invert),
{
    let v: i128 = if invert { -(sample.num as i128) } else { sample.num as i128 };
    let d: i128 = sample.den as i128;
    let span: i128 = max as i128 - min as i128;
    assert(-0x1_0000_0000 <= span <= 0x1_0000_0000);
    assert(-0x1_0000_0000 <= v + d <= 0x2_0000_0000);
    assert(-0x2_0000_0000_0000_0000 <= (v + d) * span <= 0x2_0000_0000_0000_0000) by (nonlinear_arith)
        requires -0x1_0000_0000 <= span <= 0x1_0000_0000, -0x1_0000_0000 <= v + d <= 0x2_0000_0000;
    assert(-0x2_0000_0000_0000_0000 <= 2 * d * (min as i128) <= 0x2_0000_0000_0000_0000) by (nonlinear_arith)
        requires 0 < d <= 0x1_0000_0000, -0x8000_0000 <= min <= 0x7fff_ffff;
    let n: i128 = (v + d) * span + 2 * d * (min as i128);
    let dd: i128 = 2 * d;
    proof {
        // |n| <= (2^31 + d) * 2^32 + 2 * d * 2^31 <= dd * (2^62 + 2^32)
        let b: int = 0x4000_0001_0000_0000;
        assert(-(dd * b) <= n <= dd * b) by (nonlinear_arith)
            requires
                n == (v + d) * span + 2 * d * (min as int),
                dd == 2 * d,
                b == 0x4000_0001_0000_0000,
                -0x8000_0000 <= v <= 0x8000_0000,
                1 <= d <= 0xffff_ffff,
                -0x1_0000_0000 <= span <= 0x1_0000_0000,
                -0x8000_0000 <= min <= 0x7fff_ffff;
        lemma_round_bound(n as int, dd as int, b);
    }
    let r: i128 = if n >= 0 {
        (2 * n + dd) / (2 * dd)
    } else {
        -((-2 * n + dd) / (2 * dd))
    };
    r as i64
}

/// With `invert`, a sample maps to where its negation maps without it.
pub proof fn lemma_invert_is_negation(num: int, den: int, min: int, max: int)
    requires
        den > 0,
    ensures
        normalized(num, den, min, max, true) == normalized(-num, den, min, max, false),
{
}

/// The nominal ends of the sample range land exactly on the ends of the axis domain.
pub proof fn lemma_endpoints(den: int, min: int, max: int)
    requires
        den > 0,
    ensures
        normalized(-den, den, min, max, false) == min,
        normalized(den, den, min, max, false) == max,
{
    assert((-den + den) * (max - min) + 2 * den * min == min * (2 * den)) by (nonlinear_arith);
    assert((den + den) * (max - min) + 2 * den * min == max * (2 * den)) by (nonlinear_arith);
    lemma_round_exact(min, 2 * den);
    lemma_round_exact(max, 2 * den);
}

proof fn lemma_round_exact(k: int, d: int)
    requires
        d > 0,
    ensures
        round_half_away(k * d, d) == k,
{
    if k * d >= 0 {
        assert(k >= 0) by (nonlinear_arith) requires k * d >= 0, d > 0;
        assert((2 * (k * d) + d) / (2 * d) == k) by (nonlinear_arith)
            requires k >= 0, d > 0;
    } else {
        assert(k < 0) by (nonlinear_arith) requires k * d < 0, d > 0;
        assert((-2 * (k * d) + d) / (2 * d) == -k) by (nonlinear_arith)
            requires k < 0, d > 0;
    }
}

} // verus!
