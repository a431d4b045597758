//! Frame rates as fixed-point numbers, and what encoders derive from them.

use vstd::prelude::*;

verus! {

/// Nanos of one frame per second.
pub const ONE_FPS: u64 = 1_000_000_000;

/// A frame rate in billionths of a frame per second. Zero stands for a rate
/// that is unknown or unusable.
#[derive(Debug, Clone, Copy, PartialEq, Eq, Structural)]
pub struct FrameRate {
    pub nanos: u64,
}

/// `a / b`, rounded half up.
pub open spec fn round_div(a: int, b: int) -> int {
    (2 * a + b) / (2 * b)
}

/// `a / b`, rounded up.
pub open spec fn ceil_div(a: int, b: int) -> int {
    (a + b - 1) / b
}

/// The smaller of two integers.
pub open spec fn min_int(a: int, b: int) -> int {
    if a <= b {
        a
    } else {
        b
    }
}

/// The larger of two integers.
pub open spec fn max_int(a: int, b: int) -> int {
    if a >= b {
        a
    } else {
        b
    }
}

/// `v` moved into `lo ..= hi`.
pub open spec fn clamp_int(v: int, lo: int, hi: int) -> int {
    if v < lo {
        lo
    } else if v > hi {
        hi
    } else {
        v
    }
}

/// Distance of a rate, in nanos, from the nearest whole number.
pub open spec fn off_whole(nanos: int) -> int {
    let part = nanos % 1_000_000_000;
    if part <= 500_000_000 {
        part
    } else {
        1_000_000_000 - part
    }
}

impl FrameRate {
    /// A whole number of frames per second.
    pub fn whole(fps: u32) -> (r: FrameRate)
        ensures
            r.nanos == fps * 1_000_000_000,
    {
        FrameRate { nanos: fps as u64 * 1_000_000_000 }
    }

    /// The rate in thousandths of a frame per second, rounded.
    pub open spec fn millis(self) -> int {
        round_div(self.nanos as int, 1_000_000)
    }

    /// The rate in frames per second, rounded.
    pub open spec fn rounded(self) -> int {
        round_div(self.nanos as int, 1_000_000_000)
    }

    /// The rate, or 30 frames per second where it is unknown.
    pub open spec fn or_thirty(self) -> FrameRate {
        if self.nanos == 0 {
            FrameRate { nanos: 30_000_000_000 }
        } else {
            self
        }
    }

    /// The rate, but never under one frame per second.
    pub open spec fn at_least_one(self) -> int {
        max_int(self.nanos as int, 1_000_000_000)
    }

    /// Whether the rate is a whole number to a millionth.
    pub open spec fn is_whole(self) -> bool {
        off_whole(self.nanos as int) < 1000
    }

    /// The rate in thousandths, rounded.
    pub fn to_millis(self) -> (m: u64)
        ensures
            m == self.millis(),
    {
        ((2 * self.nanos as u128 + 1_000_000) / 2_000_000) as u64
    }

    /// The rate in whole frames per second, rounded.
    pub fn to_rounded(self) -> (m: u64)
        ensures
            m == self.rounded(),
    {
        ((2 * self.nanos as u128 + 1_000_000_000) / 2_000_000_000) as u64
    }

    /// The rate, or 30 frames per second where it is unknown.
    pub fn known(self) -> (r: FrameRate)
        ensures
            r == self.or_thirty(),
    {
        if self.nanos == 0 {
            FrameRate { nanos: 30_000_000_000 }
        } else {
            self
        }
    }

    /// Whether the rate is a whole number to a millionth.
    pub fn whole_rate(self) -> (b: bool)
        ensures
            b == self.is_whole(),
    {
        let part: u64 = self.nanos % 1_000_000_000;
        part < 1000 || part > 999_999_000
    }
}

/// Cut a count down to 32 bits.
fn to_u32(v: u64) -> (r: u32)
    ensures
        r == min_int(v as int, u32::MAX as int),
{
    if v > 0xffff_ffff {
        0xffff_ffff
    } else {
        v as u32
    }
}

/// What the AMF components take as a frame rate: a whole rate over one, any
/// other as thousandths over a thousand, an unknown one as 30.
pub open spec fn amf_rational(rate: FrameRate) -> (u32, u32) {
    let r = rate.or_thirty();
    if r.is_whole() {
        (min_int(r.rounded(), u32::MAX as int) as u32, 1u32)
    } else {
        (min_int(r.millis(), u32::MAX as int) as u32, 1000u32)
    }
}

/// The frame rate as the rational the AMF components take.
pub fn frame_rate_rational(rate: FrameRate) -> (r: (u32, u32))
    ensures
        r == amf_rational(rate),
{
    let known: FrameRate = rate.known();
    if known.whole_rate() {
        (to_u32(known.to_rounded()), 1)
    } else {
        (to_u32(known.to_millis()), 1000)
    }
}

/// What the session wrappers take as a frame rate: a rate that is a whole
/// number to a millionth from above over one, any other as thousandths over a
/// thousand, and never zero.
pub open spec fn wrapper_rational(rate: FrameRate) -> (u32, u32) {
    if rate.nanos % 1_000_000_000 < 1000 {
        (clamp_int(rate.rounded(), 1, u32::MAX as int) as u32, 1u32)
    } else {
        (clamp_int(rate.millis(), 1, u32::MAX as int) as u32, 1000u32)
    }
}

/// The frame rate as the rational the session wrappers take.
pub fn wrapper_frame_rate(rate: FrameRate) -> (r: (u32, u32))
    ensures
        r == wrapper_rational(rate),
{
    if rate.nanos % 1_000_000_000 < 1000 {
        let n: u32 = to_u32(rate.to_rounded());
        (if n == 0 { 1 } else { n }, 1)
    } else {
        let n: u32 = to_u32(rate.to_millis());
        (if n == 0 { 1 } else { n }, 1000)
    }
}

/// The whole rate `n` for which `1000 n / 1001` is nearest.
pub open spec fn ntsc_base(rate: FrameRate) -> int {
    round_div(rate.nanos * 1001, 1_000_000_000_000)
}

/// Whether the rate is one of the `n * 1000 / 1001` family, to a thousandth
/// of a frame per second.
pub open spec fn is_ntsc(rate: FrameRate) -> bool {
    let d = rate.nanos * 1001 - ntsc_base(rate) * 1_000_000_000_000;
    -1_001_000_000 < d < 1_001_000_000
}

/// What NVENC takes as a frame rate: a whole rate over one, the 1001 family
/// exactly, anything else as thousandths over a thousand.
pub open spec fn nvenc_rational(rate: FrameRate) -> (u32, u32) {
    if rate.is_whole() {
        (clamp_int(rate.rounded(), 1, u32::MAX as int) as u32, 1u32)
    } else if is_ntsc(rate) && ntsc_base(rate) * 1000 <= u32::MAX {
        ((ntsc_base(rate) * 1000) as u32, 1001u32)
    } else {
        (clamp_int(rate.millis(), 1, u32::MAX as int) as u32, 1000u32)
    }
}

/// The frame rate as the rational NVENC takes.
pub fn fps_to_rational(rate: FrameRate) -> (r: (u32, u32))
    ensures
        r == nvenc_rational(rate),
{
    if rate.whole_rate() {
        let n: u32 = to_u32(rate.to_rounded());
        return (if n == 0 { 1 } else { n }, 1);
    }
    let scaled: u128 = rate.nanos as u128 * 1001;
    let base: u128 = (2 * scaled + 1_000_000_000_000) / 2_000_000_000_000;
    let at: u128 = base * 1_000_000_000_000;
    let near: bool = if scaled >= at {
        scaled - at < 1_001_000_000
    } else {
        at - scaled < 1_001_000_000
    };
    if near && base * 1000 <= 0xffff_ffff {
        return ((base * 1000) as u32, 1001);
    }
    let n: u32 = to_u32(rate.to_millis());
    (if n == 0 { 1 } else { n }, 1000)
}

/// The exact rates of the 1001 family come out as themselves: a rate within
/// rounding of `1000 n / 1001` becomes exactly `1000 n / 1001`.
pub proof fn ntsc_rates_are_exact(n: int, rate: FrameRate)
    requires
        0 < n <= 4_000_000,
        !rate.is_whole(),
        rate.nanos == n * 1_000_000_000_000 / 1001 || rate.nanos == n * 1_000_000_000_000 / 1001
            + 1,
    ensures
        nvenc_rational(rate) == ((n * 1000) as u32, 1001u32),
{
    let a = n * 1_000_000_000_000;
    assert(a - 1001 < rate.nanos * 1001 <= a + 1001);
    let x = 2 * (rate.nanos * 1001) + 1_000_000_000_000;
    vstd::arithmetic::div_mod::lemma_fundamental_div_mod_converse(
        x,
        2_000_000_000_000,
        n,
        x - n * 2_000_000_000_000,
    );
    assert(ntsc_base(rate) == n);
}

/// Ticks of a hundred nanoseconds in one frame; saturated where the rate is
/// unknown.
pub open spec fn ticks_per_frame(rate: FrameRate) -> u64 {
    if rate.nanos == 0 {
        u64::MAX
    } else {
        round_div(10_000_000_000_000_000, rate.nanos as int) as u64
    }
}

/// Ticks of a hundred nanoseconds in one frame.
pub fn pts_timescale(rate: FrameRate) -> (t: u64)
    ensures
        t == ticks_per_frame(rate),
{
    if rate.nanos == 0 {
        return u64::MAX;
    }
    let b: u128 = rate.nanos as u128;
    let num: u128 = 20_000_000_000_000_000 + b;
    let q: u128 = num / (2 * b);
    proof {
        let n = num as int;
        let d = 2 * (b as int);
        vstd::arithmetic::div_mod::lemma_div_is_ordered_by_denominator(n, 1, d);
        assert(n / d <= n);
    }
    q as u64
}

/// A timestamp that was scaled to ticks divides back to itself.
pub proof fn ticks_divide_back(pts: int, scale: int)
    requires
        0 <= pts,
        0 < scale,
    ensures
        (pts * scale) / scale == pts,
{
    vstd::arithmetic::div_mod::lemma_div_multiples_vanish(pts, scale);
    assert(pts * scale == scale * pts) by (nonlinear_arith);
}

/// Rounding takes the nearest whole number, the larger one where two are as
/// near.
pub proof fn rounding_is_to_the_nearest(a: int, b: int)
    requires
        0 <= a,
        0 < b,
    ensures
        -b < 2 * (round_div(a, b) * b - a) <= b,
        0 <= round_div(a, b),
{
    let q = round_div(a, b);
    vstd::arithmetic::div_mod::lemma_fundamental_div_mod(2 * a + b, 2 * b);
    vstd::arithmetic::div_mod::lemma_mod_bound(2 * a + b, 2 * b);
    vstd::arithmetic::div_mod::lemma_div_pos_is_pos(2 * a + b, 2 * b);
    assert((2 * b) * q == 2 * (q * b)) by (nonlinear_arith);
}

/// A rate in thousandths, and in whole frames, is off by half a unit at most.
pub proof fn rounded_rates_are_within_half_a_unit(rate: FrameRate)
    ensures
        -500_000_000 < rate.rounded() * 1_000_000_000 - rate.nanos <= 500_000_000,
        -500_000 < rate.millis() * 1_000_000 - rate.nanos <= 500_000,
{
    rounding_is_to_the_nearest(rate.nanos as int, 1_000_000_000);
    rounding_is_to_the_nearest(rate.nanos as int, 1_000_000);
}

/// Whether a rate lies within a millionth of a frame per second of a whole
/// number.
pub open spec fn near_whole(nanos: int, n: int) -> bool {
    -1000 < nanos - n * 1_000_000_000 < 1000
}

proof fn near_whole_is_the_rounded_one(rate: FrameRate)
    ensures
        rate.is_whole() ==> near_whole(rate.nanos as int, rate.rounded()),
        forall|n: int| #[trigger] near_whole(rate.nanos as int, n) ==> rate.is_whole() && n
            == rate.rounded(),
{
    let nanos = rate.nanos as int;
    rounded_rates_are_within_half_a_unit(rate);
    vstd::arithmetic::div_mod::lemma_fundamental_div_mod(nanos, 1_000_000_000);
    assert forall|n: int| #[trigger] near_whole(nanos, n) implies rate.is_whole() && n
        == rate.rounded() by {
        let d = nanos - n * 1_000_000_000;
        if d >= 0 {
            vstd::arithmetic::div_mod::lemma_fundamental_div_mod_converse(
                nanos,
                1_000_000_000,
                n,
                d,
            );
        } else {
            vstd::arithmetic::div_mod::lemma_fundamental_div_mod_converse(
                nanos,
                1_000_000_000,
                n - 1,
                d + 1_000_000_000,
            );
        }
    }
}

/// The AMF components are handed a rate as near to the real one as its
/// denominator allows: over one exactly where it is a whole number to a
/// millionth, else in thousandths. An unknown rate is handed on as 30.
pub proof fn amf_rates_are_near(rate: FrameRate, n: int)
    ensures
        rate.nanos == 0 ==> amf_rational(rate) == (30u32, 1u32),
        rate.nanos > 0 && near_whole(rate.nanos as int, n) && n <= u32::MAX ==> amf_rational(rate).0
            == n && amf_rational(rate).1 == 1,
        amf_rational(rate).1 == 1 || amf_rational(rate).1 == 1000,
        amf_rational(rate).1 == 1 && 0 < rate.nanos <= 4_000_000_000_000_000_000 ==> near_whole(
            rate.nanos as int,
            amf_rational(rate).0 as int,
        ),
        amf_rational(rate).1 == 1000 && rate.nanos <= 4_000_000_000_000_000 ==> -500_000
            < amf_rational(rate).0 * 1_000_000 - rate.nanos <= 500_000,
{
    near_whole_is_the_rounded_one(rate);
    near_whole_is_the_rounded_one(FrameRate { nanos: 30_000_000_000 });
    rounded_rates_are_within_half_a_unit(rate);
    assert(near_whole(30_000_000_000, 30));
    assert(near_whole(rate.nanos as int, n) ==> n == rate.rounded());
    rounding_is_to_the_nearest(rate.nanos as int, 1_000_000_000);
    rounding_is_to_the_nearest(rate.nanos as int, 1_000_000);
}

/// The session wrappers are handed a rate that is never zero: over one exactly
/// where it is a whole number or up to a millionth above one, else in
/// thousandths.
pub proof fn wrapper_rates_are_near(rate: FrameRate)
    ensures
        wrapper_rational(rate).0 >= 1,
        wrapper_rational(rate).1 == 1 || wrapper_rational(rate).1 == 1000,
        wrapper_rational(rate).1 == 1 <==> rate.nanos % 1_000_000_000 < 1000,
        wrapper_rational(rate).1 == 1 && 1_000_000_000 <= rate.nanos <= 4_000_000_000_000_000_000
            ==> 0 <= rate.nanos - wrapper_rational(rate).0 * 1_000_000_000 < 1000,
        wrapper_rational(rate).1 == 1000 && 500_000 <= rate.nanos <= 4_000_000_000_000_000 ==> -500_000
            < wrapper_rational(rate).0 * 1_000_000 - rate.nanos <= 500_000,
        rate.nanos < 500_000 ==> wrapper_rational(rate).0 == 1,
{
    rounded_rates_are_within_half_a_unit(rate);
    rounding_is_to_the_nearest(rate.nanos as int, 1_000_000_000);
    rounding_is_to_the_nearest(rate.nanos as int, 1_000_000);
    let nanos = rate.nanos as int;
    vstd::arithmetic::div_mod::lemma_fundamental_div_mod(nanos, 1_000_000_000);
    assert(nanos == 1_000_000_000 * (nanos / 1_000_000_000) + nanos % 1_000_000_000);
    if nanos % 1_000_000_000 < 1000 {
        assert(rate.rounded() == nanos / 1_000_000_000);
    }
}

/// From a thousandth of a frame per second on, NVENC is handed a rate within a
/// thousandth of the real one: over one where it is a whole number to a
/// millionth, over 1001 only where it is within a thousandth of that family,
/// else in thousandths, which are within half of one. Over one or a thousand
/// it is never zero.
pub proof fn nvenc_rates_are_near(rate: FrameRate, n: int)
    requires
        rate.nanos <= 4_000_000_000_000_000,
    ensures
        nvenc_rational(rate).0 >= 1 || nvenc_rational(rate).1 == 1001,
        nvenc_rational(rate).1 == 1 || nvenc_rational(rate).1 == 1000 || nvenc_rational(rate).1
            == 1001,
        1 <= n && near_whole(rate.nanos as int, n) ==> nvenc_rational(rate).0 == n
            && nvenc_rational(rate).1 == 1,
        nvenc_rational(rate).1 == 1 && rate.nanos >= 1_000_000 ==> near_whole(
            rate.nanos as int,
            nvenc_rational(rate).0 as int,
        ),
        nvenc_rational(rate).1 == 1001 ==> -1_001_000_000 < nvenc_rational(rate).0 * 1_000_000_000
            - rate.nanos * 1001 < 1_001_000_000,
        nvenc_rational(rate).1 == 1000 && rate.nanos >= 500_000 ==> -500_000 < nvenc_rational(
            rate,
        ).0 * 1_000_000 - rate.nanos <= 500_000,
{
    near_whole_is_the_rounded_one(rate);
    rounded_rates_are_within_half_a_unit(rate);
    rounding_is_to_the_nearest(rate.nanos as int, 1_000_000_000);
    rounding_is_to_the_nearest(rate.nanos as int, 1_000_000);
    rounding_is_to_the_nearest(rate.nanos * 1001, 1_000_000_000_000);
    assert(near_whole(rate.nanos as int, n) ==> n == rate.rounded());
}

/// A rate within a thousandth of `1000 k / 1001`, and of no whole number, is
/// handed to NVENC as that.
pub proof fn nvenc_knows_the_1001_family(rate: FrameRate, k: int)
    requires
        1 <= k <= 4_000_000,
        -1_001_000_000 < rate.nanos * 1001 - k * 1_000_000_000_000 < 1_001_000_000,
        !rate.is_whole(),
    ensures
        nvenc_rational(rate).0 == k * 1000,
        nvenc_rational(rate).1 == 1001,
{
    rounding_is_to_the_nearest(rate.nanos * 1001, 1_000_000_000_000);
    assert(ntsc_base(rate) == k);
}

/// A frame lasts as many ticks as fit its rate best: the error over a whole
/// second is under half the rate.
pub proof fn ticks_fill_the_second(rate: FrameRate)
    ensures
        rate.nanos == 0 ==> ticks_per_frame(rate) == 0xffff_ffff_ffff_ffff,
        rate.nanos > 0 ==> -rate.nanos < 2 * (ticks_per_frame(rate) * rate.nanos
            - 10_000_000_000_000_000) <= rate.nanos,
{
    if rate.nanos > 0 {
        let b = rate.nanos as int;
        rounding_is_to_the_nearest(10_000_000_000_000_000, b);
        let t = round_div(10_000_000_000_000_000, b);
        assert(t <= 10_000_000_000_000_001) by (nonlinear_arith)
            requires
                2 * (t * b - 10_000_000_000_000_000) <= b,
                b >= 1,
        ;
    }
}

} // verus!
