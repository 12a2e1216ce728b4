//! Conversion of the current rotation sample into the two per-tick outputs:
//! an animation angular step and a signed audio playback rate.
//!
//! Both outputs are exact rationals. A [`Ratio`] is a saturating ratio in
//! `[-1, 1]`, held as `num / den`; an [`AngleStep`] is a fraction of a full
//! turn, so the angle in radians is `num / den * 2 * pi`. Keeping the values
//! as integer fractions makes the saturation and sign rules exact; callers
//! that need a floating-point value divide at the edge.

use vstd::prelude::*;

verus! {

/// A rotation ratio in `[-1, 1]`, held exactly as `num / den`.
#[derive(Clone, Copy, Debug, PartialEq, Eq, Structural)]
pub struct Ratio {
    /// Numerator; its magnitude never exceeds `den`.
    pub num: i32,
    /// Denominator: the configured threshold, at least 1.
    pub den: u16,
}

impl Ratio {
    /// The ratio is well formed: positive denominator and a numerator within
    /// `[-den, den]`, so the value lies in `[-1, 1]`.
    pub open spec fn wf(self) -> bool {
        &&& self.den >= 1
        &&& -(self.den as int) <= self.num as int <= self.den as int
    }
}

/// An angle as a signed fraction `num / den` of one full turn; the angle in
/// radians is `num / den * 2 * pi`.
#[derive(Clone, Copy, Debug, PartialEq, Eq, Structural)]
pub struct AngleStep {
    /// Numerator; its magnitude never exceeds `den / slice count`.
    pub num: i32,
    /// Denominator: threshold times slice count.
    pub den: u32,
}

/// `delta` clamped to `[-threshold, threshold]`.
pub open spec fn clamp_spec(delta: int, threshold: int) -> int {
    if delta >= threshold {
        threshold
    } else if delta <= -threshold {
        -threshold
    } else {
        delta
    }
}

/// Clamp a rotation sample to the configured full-scale threshold and put it
/// over that threshold: the result is `clamp(delta, -threshold, threshold) /
/// threshold`, a linear response that saturates exactly at the threshold
/// magnitude.
pub fn normalize(delta: i8, threshold: u16) -> (r: Ratio)
    requires
        threshold >= 1,
    ensures
        r.den == threshold,
        r.num as int == clamp_spec(delta as int, threshold as int),
        r.wf(),
{
    let d: i32 = delta as i32;
    let t: i32 = threshold as i32;
    let num: i32 = if d >= t {
        t
    } else if d <= -t {
        -t
    } else {
        d
    };
    Ratio { num, den: threshold }
}

/// Saturation is monotonic: a larger sample never yields a smaller clamped
/// value, so the normalized ratio is monotonic in `delta` for a fixed
/// threshold.
pub proof fn lemma_normalize_monotonic(d1: int, d2: int, threshold: int)
    requires
        threshold >= 1,
        d1 <= d2,
    ensures
        clamp_spec(d1, threshold) <= clamp_spec(d2, threshold),
{
}

/// Turn a normalized ratio into the angular step for one tick: `ratio * (2 *
/// pi / slice_count)` radians, held exactly as a fraction of a full turn. A
/// full-scale sample advances the image by exactly one slice width, so the
/// step size follows the magnitude of the current sample, not elapsed time.
pub fn animation_step(r: Ratio, slice_count: u16) -> (s: AngleStep)
    requires
        r.wf(),
        slice_count >= 1,
    ensures
        s.num == r.num,
        s.den == r.den as u32 * slice_count as u32,
        s.den >= 1,
{
    proof {
        assert(1 <= r.den as int * slice_count as int <= 65535 * 65535) by (nonlinear_arith)
            requires
                1 <= r.den as int <= 65535,
                1 <= slice_count as int <= 65535,
        ;
    }
    AngleStep { num: r.num, den: r.den as u32 * slice_count as u32 }
}

/// A full-scale ratio steps exactly one slice width: the step times the slice
/// count is one full turn.
pub proof fn lemma_full_scale_step(r: Ratio, slice_count: u16, s: AngleStep)
    requires
        r.wf(),
        slice_count >= 1,
        r.num == r.den,
        s.num == r.num,
        s.den == r.den as int * slice_count as int,
    ensures
        s.num * slice_count == s.den,
{
}

/// Flip the audio scrub direction independently of the visual rotation: the
/// playback rate is `ratio` or `-ratio` by the direction flag.
pub fn audio_rate(r: Ratio, direction_inverted: bool) -> (out: Ratio)
    requires
        r.wf(),
    ensures
        out.den == r.den,
        out.num as int == if direction_inverted {
            -(r.num as int)
        } else {
            r.num as int
        },
        out.wf(),
{
    Ratio { num: if direction_inverted { -r.num } else { r.num }, den: r.den }
}

/// The byte is an ASCII decimal digit.
pub open spec fn is_digit(b: u8) -> bool {
    48 <= b <= 57
}

/// The number a sequence of ASCII decimal digits denotes.
pub open spec fn digits_value(s: Seq<u8>) -> int
    decreases s.len(),
{
    if s.len() == 0 {
        0
    } else {
        digits_value(s.drop_last()) * 10 + (s.last() - 48)
    }
}

/// The digits of an entry: everything after an optional leading plus sign.
pub open spec fn entry_digits(s: Seq<u8>) -> Seq<u8> {
    if s.len() > 0 && s[0] == 43 {
        s.subrange(1, s.len() as int)
    } else {
        s
    }
}

/// The entry parses under Rust's unsigned-byte grammar: an optional plus
/// sign, then one or more ASCII digits (leading zeros allowed), denoting a
/// value that fits a byte.
pub open spec fn valid_u8_entry(s: Seq<u8>) -> bool {
    &&& entry_digits(s).len() >= 1
    &&& forall|i: int| 0 <= i < entry_digits(s).len() ==> is_digit(entry_digits(s)[i])
    &&& digits_value(entry_digits(s)) <= 255
}

/// Read a slice count from a settings entry: the number it denotes under
/// Rust's unsigned-byte grammar, or the default of 24 where the entry does
/// not parse, does not fit a byte, or denotes zero — a zero slice count
/// would be unusable.
pub fn parse_slice_count(entry: &Vec<u8>) -> (n: u8)
    ensures
        n == if valid_u8_entry(entry@) && digits_value(entry_digits(entry@)) >= 1 {
            digits_value(entry_digits(entry@))
        } else {
            24int
        },
        n >= 1,
{
    let len: usize = entry.len();
    let start: usize = if len > 0 && entry[0] == 43 {
        1
    } else {
        0
    };
    if len == start {
        return 24;
    }
    // Accumulate the denoted value; 300 stands in for any value past a byte,
    // which only grows as digits are appended.
    let mut value: u32 = 0;
    let mut i: usize = start;
    while i < len
        invariant
            len == entry@.len(),
            start <= i <= len,
            start == 1 ==> len > 0 && entry@[0] == 43,
            start == 0 ==> len == 0 || entry@[0] != 43,
            start <= 1,
            forall|j: int| start <= j < i ==> is_digit(entry@[j]),
            value == if digits_value(entry@.subrange(start as int, i as int)) <= 255 {
                digits_value(entry@.subrange(start as int, i as int))
            } else {
                300int
            },
        decreases len - i,
    {
        let b: u8 = entry[i];
        if b < 48 || b > 57 {
            proof {
                assert(!is_digit(entry_digits(entry@)[i - start]));
            }
            return 24;
        }
        proof {
            assert(entry@.subrange(start as int, i + 1).drop_last() =~= entry@.subrange(
                start as int,
                i as int,
            ));
            assert(entry@.subrange(start as int, i + 1).last() == entry@[i as int]);
        }
        if value <= 255 {
            let grown: u32 = value * 10 + ((b - 48) as u32);
            value = if grown <= 255 {
                grown
            } else {
                300
            };
        }
        i = i + 1;
    }
    proof {
        assert(entry@.subrange(start as int, len as int) =~= entry_digits(entry@));
    }
    if value >= 1 && value <= 255 {
        value as u8
    } else {
        24
    }
}

/// Immutable per-session configuration of the modulator.
#[derive(Clone, Copy, Debug, PartialEq, Eq, Structural)]
pub struct ModulatorConfig {
    /// Maximum expected sample magnitude: full-scale saturation point.
    pub threshold: u16,
    /// Number of angular segments the zoetrope imagery is divided into.
    pub slice_count: u16,
    /// Whether the audio scrub direction is flipped.
    pub audio_inverted: bool,
}

impl ModulatorConfig {
    /// Threshold and slice count are positive.
    pub open spec fn wf(self) -> bool {
        self.threshold >= 1 && self.slice_count >= 1
    }
}

/// The two outputs recomputed on every tick.
#[derive(Clone, Copy, Debug, PartialEq, Eq, Structural)]
pub struct TickOutputs {
    /// Angular step to rotate the image by this tick.
    pub step: AngleStep,
    /// Signed audio playback-rate multiplier.
    pub audio: Ratio,
}

/// Turn the current rotation sample into this tick's animation step and
/// audio rate. Stateless and unsmoothed: both outputs are a direct function
/// of the latest sample at the moment of the tick.
pub fn modulate(delta: i8, cfg: &ModulatorConfig) -> (out: TickOutputs)
    requires
        cfg.wf(),
    ensures
        out.step.num as int == clamp_spec(delta as int, cfg.threshold as int),
        out.step.den == cfg.threshold as u32 * cfg.slice_count as u32,
        out.audio.den == cfg.threshold,
        out.audio.num as int == if cfg.audio_inverted {
            -clamp_spec(delta as int, cfg.threshold as int)
        } else {
            clamp_spec(delta as int, cfg.threshold as int)
        },
        out.audio.wf(),
{
    let r = normalize(delta, cfg.threshold);
    TickOutputs {
        step: animation_step(r, cfg.slice_count),
        audio: audio_rate(r, cfg.audio_inverted),
    }
}

} // verus!
