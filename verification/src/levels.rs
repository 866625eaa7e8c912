//! Fixed-point levels: the units of volume and pan, the linear pan law and
//! the scaling of one sample by a gain and a volume.

use vstd::prelude::*;

verus! {

/// Pan position of an extreme: `-PAN_UNIT` is hard left, `PAN_UNIT` hard
/// right, zero the centre. It is also the gain that leaves a side unchanged.
pub const PAN_UNIT: i32 = 1000;

/// Volume at which a channel passes its signal unchanged: one hundred
/// percent, in thousandths of a percent.
pub const VOLUME_UNIT: u32 = 100_000;

/// What a product of a sample, a pan gain and a volume is divided by.
pub const SCALE_DIVISOR: u64 = 100_000_000;

/// Largest magnitude that one channel can add to one output sample.
pub const MAX_CONTRIBUTION: i64 = 1_407_374_883;

/// `x` held to the range from `low` to `high`.
pub open spec fn clamped(x: int, low: int, high: int) -> int {
    if x < low {
        low
    } else if x > high {
        high
    } else {
        x
    }
}

/// Gain of the left output under the linear pan law.
pub open spec fn left_gain_spec(panning: int) -> int {
    clamped(1000 - panning, 0, 1000)
}

/// Gain of the right output under the linear pan law.
pub open spec fn right_gain_spec(panning: int) -> int {
    clamped(1000 + panning, 0, 1000)
}

/// A sample scaled by a pan gain and a volume: the exact product over
/// `PAN_UNIT * VOLUME_UNIT`, rounded towards zero.
pub open spec fn scaled_spec(sample: int, gain: int, volume: int) -> int {
    if sample >= 0 {
        (sample * gain * volume) / 100_000_000
    } else {
        -(((-sample) * gain * volume) / 100_000_000)
    }
}

/// Gain of the left output for a pan position: full up to the centre, then
/// falling linearly to nothing at hard right. The law is linear, not
/// equal-power: at the centre both sides are at full gain.
pub fn left_gain(panning: i32) -> (gain: i32)
    ensures
        gain == left_gain_spec(panning as int),
        0 <= gain <= PAN_UNIT,
{
    if panning <= 0 {
        PAN_UNIT
    } else if panning >= PAN_UNIT {
        0
    } else {
        PAN_UNIT - panning
    }
}

/// Gain of the right output for a pan position: the mirror of `left_gain`.
pub fn right_gain(panning: i32) -> (gain: i32)
    ensures
        gain == right_gain_spec(panning as int),
        0 <= gain <= PAN_UNIT,
{
    if panning >= 0 {
        PAN_UNIT
    } else if panning <= -PAN_UNIT {
        0
    } else {
        PAN_UNIT + panning
    }
}

/// The magnitude of a scaled sample never exceeds `MAX_CONTRIBUTION`.
pub proof fn lemma_scaled_bound(sample: int, gain: int, volume: int)
    requires
        -32768 <= sample <= 32767,
        0 <= gain <= 1000,
        0 <= volume <= u32::MAX,
    ensures
        -MAX_CONTRIBUTION <= scaled_spec(sample, gain, volume) <= MAX_CONTRIBUTION,
{
    let magnitude: int = if sample >= 0 {
        sample
    } else {
        -sample
    };
    assert(0 <= magnitude * gain * volume <= 32768 * 1000 * 4294967295) by (nonlinear_arith)
        requires
            0 <= magnitude <= 32768,
            0 <= gain <= 1000,
            0 <= volume <= 4294967295,
    ;
}

/// A zero sample, a zero gain or a zero volume gives silence.
pub proof fn lemma_scaled_zero(sample: int, gain: int, volume: int)
    requires
        sample == 0 || gain == 0 || volume == 0,
    ensures
        scaled_spec(sample, gain, volume) == 0,
{
    assert(sample * gain * volume == 0) by (nonlinear_arith)
        requires
            sample == 0 || gain == 0 || volume == 0,
    ;
    assert((-sample) * gain * volume == 0) by (nonlinear_arith)
        requires
            sample == 0 || gain == 0 || volume == 0,
    ;
}

/// At full gain and unit volume a sample passes unchanged.
pub proof fn lemma_scaled_unity(sample: int)
    ensures
        scaled_spec(sample, PAN_UNIT as int, VOLUME_UNIT as int) == sample,
{
    if sample >= 0 {
        assert(sample * 1000 * 100_000 == sample * 100_000_000) by (nonlinear_arith);
        assert((sample * 100_000_000) / 100_000_000 == sample) by (nonlinear_arith)
            requires
                sample >= 0,
        ;
    } else {
        let m = -sample;
        assert(m * 1000 * 100_000 == m * 100_000_000) by (nonlinear_arith);
        assert((m * 100_000_000) / 100_000_000 == m) by (nonlinear_arith)
            requires
                m >= 0,
        ;
    }
}

/// Scales one sample by a pan gain and a volume, rounding towards zero.
pub(crate) fn scale_sample(sample: i16, gain: i32, volume: u32) -> (out: i64)
    requires
        0 <= gain <= PAN_UNIT,
    ensures
        out == scaled_spec(sample as int, gain as int, volume as int),
        -MAX_CONTRIBUTION <= out <= MAX_CONTRIBUTION,
{
    proof {
        lemma_scaled_bound(sample as int, gain as int, volume as int);
    }
    let negative = sample < 0;
    let magnitude: u64 = if negative {
        (-(sample as i64)) as u64
    } else {
        sample as u64
    };
    assert(magnitude * (gain as u64) <= 32768 * 1000) by (nonlinear_arith)
        requires
            magnitude <= 32768,
            0 <= gain <= 1000,
    ;
    let with_gain: u64 = magnitude * (gain as u64);
    assert(with_gain * (volume as u64) <= 32768 * 1000 * 4294967295) by (nonlinear_arith)
        requires
            with_gain <= 32768 * 1000,
            volume <= 4294967295,
    ;
    let product: u64 = with_gain * (volume as u64);
    let quotient: u64 = product / SCALE_DIVISOR;
    assert(quotient <= MAX_CONTRIBUTION);
    if negative {
        -(quotient as i64)
    } else {
        quotient as i64
    }
}

} // verus!
