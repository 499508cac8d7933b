//! The Deluge patch document model: normalized 32-bit parameter values, the
//! oscillator/envelope/effect tree, factory defaults, and XML serialization.

use vstd::prelude::*;
use vstd::arithmetic::div_mod::{lemma_fundamental_div_mod, lemma_div_is_ordered};
use vstd::math::abs;

verus! {

/// A 32-bit pattern read as a signed two's-complement integer.
pub open spec fn as_signed(u: u32) -> int {
    if u < 0x8000_0000 {
        u as int
    } else {
        u as int - 0x1_0000_0000
    }
}

/// The 32-bit pattern holding a signed value in two's complement.
pub open spec fn as_bits(i: int) -> u32
    recommends
        -0x8000_0000 <= i < 0x8000_0000,
{
    if i >= 0 {
        i as u32
    } else {
        (i + 0x1_0000_0000) as u32
    }
}

/// Integer division rounding half away from zero (for `d > 0`).
pub open spec fn round_div(n: int, d: int) -> int
    recommends
        d > 0,
{
    if n >= 0 {
        (n + d / 2) / d
    } else {
        -((-n + d / 2) / d)
    }
}

/// The display value (0..=50) of a normalized parameter: the bit pattern read
/// as a signed integer, divided by the maximum positive signed 32-bit value,
/// is a ratio in [-1, 1]; the display value is `round(ratio * 25 + 25)`.
pub open spec fn spec_to_display(u: u32) -> int {
    25 + round_div(as_signed(u) * 25, 0x7FFF_FFFF)
}

/// The signed normalized value for a display value: `round((d - 25) / 25)`
/// scaled by 2^31, clamped to the signed 32-bit range.
pub open spec fn spec_from_display(d: int) -> int {
    let raw = round_div((d - 25) * 0x8000_0000, 25);
    if raw < -0x8000_0000 {
        -0x8000_0000
    } else if raw > 0x7FFF_FFFF {
        0x7FFF_FFFF
    } else {
        raw
    }
}

/// The bit pattern for a display value.
pub open spec fn spec_from_display_bits(d: int) -> u32 {
    as_bits(spec_from_display(d))
}

/// Rounding half away from zero lands within half a divisor of the target.
proof fn lemma_round_div_error(n: int, d: int)
    requires
        d > 0,
    ensures
        abs(round_div(n, d) * d - n) <= d / 2,
{
    if n >= 0 {
        lemma_fundamental_div_mod(n + d / 2, d);
        vstd::arithmetic::div_mod::lemma_mod_division_less_than_divisor(n + d / 2, d);
        vstd::arithmetic::div_mod::lemma_div_pos_is_pos(n + d / 2, d);
        assert(d * ((n + d / 2) / d) == ((n + d / 2) / d) * d) by (nonlinear_arith);
    } else {
        lemma_fundamental_div_mod(-n + d / 2, d);
        vstd::arithmetic::div_mod::lemma_mod_division_less_than_divisor(-n + d / 2, d);
        vstd::arithmetic::div_mod::lemma_div_pos_is_pos(-n + d / 2, d);
        assert(d * ((-n + d / 2) / d) == ((-n + d / 2) / d) * d) by (nonlinear_arith);
        assert(-((-n + d / 2) / d) * d == -(((-n + d / 2) / d) * d)) by (nonlinear_arith);
    }
}

/// `round_div` is monotone in the numerator.
proof fn lemma_round_div_ordered(n1: int, n2: int, d: int)
    requires
        d > 0,
        n1 <= n2,
    ensures
        round_div(n1, d) <= round_div(n2, d),
{
    if n1 >= 0 {
        lemma_div_is_ordered(n1 + d / 2, n2 + d / 2, d);
    } else if n2 < 0 {
        lemma_div_is_ordered(-n2 + d / 2, -n1 + d / 2, d);
    } else {
        lemma_div_is_ordered(0, n2 + d / 2, d);
        lemma_div_is_ordered(0, -n1 + d / 2, d);
        assert((0 + d / 2) / d == 0) by {
            vstd::arithmetic::div_mod::lemma_basic_div(d / 2, d);
        }
    }
}

/// Division rounding half away from zero, on machine integers.
fn round_div_i64(n: i64, d: i64) -> (r: i64)
    requires
        0 < d <= 0x1_0000_0000,
        -0x4000_0000_0000_0000 <= n <= 0x4000_0000_0000_0000,
    ensures
        r as int == round_div(n as int, d as int),
{
    let du: u64 = d as u64;
    if n >= 0 {
        let m: u64 = n as u64;
        let q: u64 = (m + du / 2) / du;
        assert(q <= m + du / 2) by {
            vstd::arithmetic::div_mod::lemma_div_nonincreasing((m + du / 2) as int, du as int);
        }
        q as i64
    } else {
        let m: u64 = (-n) as u64;
        let q: u64 = (m + du / 2) / du;
        assert(q <= m + du / 2) by {
            vstd::arithmetic::div_mod::lemma_div_nonincreasing((m + du / 2) as int, du as int);
        }
        -(q as i64)
    }
}

/// A normalized 32-bit Deluge parameter value. Read as a signed integer and
/// divided by the maximum positive signed 32-bit value it is a ratio in
/// [-1, 1]; it is serialized as a lowercase 8-hex-digit string.
#[derive(Clone, Copy, Debug, PartialEq, Eq, Structural)]
pub struct Value(pub u32);

impl Value {
    /// The 0..=50 display-scale value shown on the Deluge for this parameter.
    pub fn to_deluge_val(&self) -> (r: i32)
        ensures
            r as int == spec_to_display(self.0),
            0 <= r <= 50,
    {
        let sv: i64 = if self.0 >= 0x8000_0000u32 {
            self.0 as i64 - 0x1_0000_0000i64
        } else {
            self.0 as i64
        };
        assert(sv as int == as_signed(self.0));
        let q: i64 = round_div_i64(sv * 25, 0x7FFF_FFFF);
        proof {
            lemma_round_div_ordered((-25int) * 0x8000_0000, sv as int * 25, 0x7FFF_FFFF);
            lemma_round_div_ordered(sv as int * 25, 25int * 0x7FFF_FFFF, 0x7FFF_FFFF);
            assert(round_div((-25int) * 0x8000_0000, 0x7FFF_FFFF) == -25) by {
                lemma_fundamental_div_mod(25int * 0x8000_0000 + 0x7FFF_FFFFint / 2, 0x7FFF_FFFF);
            }
            assert(round_div(25int * 0x7FFF_FFFF, 0x7FFF_FFFF) == 25) by {
                lemma_fundamental_div_mod(25int * 0x7FFF_FFFF + 0x7FFF_FFFFint / 2, 0x7FFF_FFFF);
            }
        }
        (25 + q) as i32
    }

    /// The normalized value for a 0..=50 display-scale value (out-of-range
    /// inputs saturate at the ends of the signed 32-bit range).
    pub fn from_deluge_val(v: i32) -> (r: Value)
        ensures
            as_signed(r.0) == spec_from_display(v as int),
            r.0 == spec_from_display_bits(v as int),
    {
        let k: i64 = v as i64 - 25;
        if k >= 25 {
            proof {
                lemma_round_div_ordered(25int * 0x8000_0000, k as int * 0x8000_0000, 25);
                assert(round_div(25int * 0x8000_0000, 25) == 0x8000_0000) by {
                    lemma_fundamental_div_mod(25int * 0x8000_0000 + 12, 25);
                }
            }
            Value(0x7FFF_FFFF)
        } else if k <= -25 {
            proof {
                lemma_round_div_ordered(k as int * 0x8000_0000, (-25int) * 0x8000_0000, 25);
                assert(round_div((-25int) * 0x8000_0000, 25) == -0x8000_0000) by {
                    lemma_fundamental_div_mod(25int * 0x8000_0000 + 12, 25);
                }
            }
            Value(0x8000_0000)
        } else {
            let raw: i64 = round_div_i64(k * 0x8000_0000, 25);
            proof {
                lemma_round_div_ordered((-24int) * 0x8000_0000, k as int * 0x8000_0000, 25);
                lemma_round_div_ordered(k as int * 0x8000_0000, 24int * 0x8000_0000, 25);
                assert(round_div(24int * 0x8000_0000, 25) < 0x8000_0000) by {
                    lemma_fundamental_div_mod(24int * 0x8000_0000 + 12, 25);
                }
                assert(round_div((-24int) * 0x8000_0000, 25) > -0x8000_0000) by {
                    lemma_fundamental_div_mod(24int * 0x8000_0000 + 12, 25);
                }
            }
            if raw >= 0 {
                Value(raw as u32)
            } else {
                Value((raw + 0x1_0000_0000) as u32)
            }
        }
    }
}

/// Round-trip law on the display/bit mapping: every display value 0..=50
/// encodes to a normalized value that decodes back to the same display value.
pub proof fn lemma_display_round_trip(d: int)
    requires
        0 <= d <= 50,
    ensures
        spec_to_display(spec_from_display_bits(d)) == d,
{
    let k = d - 25;
    let m = 0x7FFF_FFFFint;
    let raw = spec_from_display(d);
    assert(as_signed(spec_from_display_bits(d)) == raw);
    if k == 25 {
        assert(round_div(25int * 0x8000_0000, 25) == 0x8000_0000) by {
            lemma_fundamental_div_mod(25int * 0x8000_0000 + 12, 25);
        }
        assert(raw == m);
        assert(round_div(m * 25, m) == 25) by {
            lemma_fundamental_div_mod(m * 25 + m / 2, m);
        }
    } else if k == -25 {
        assert(round_div((-25int) * 0x8000_0000, 25) == -0x8000_0000) by {
            lemma_fundamental_div_mod(25int * 0x8000_0000 + 12, 25);
        }
        assert(raw == -0x8000_0000);
        assert(round_div(-0x8000_0000int * 25, m) == -25) by {
            lemma_fundamental_div_mod(0x8000_0000int * 25 + m / 2, m);
        }
    } else {
        let raw0 = round_div(k * 0x8000_0000, 25);
        lemma_round_div_error(k * 0x8000_0000, 25);
        assert(abs(raw0 * 25 - k * 0x8000_0000) <= 12);
        lemma_round_div_ordered((-24int) * 0x8000_0000, k * 0x8000_0000, 25);
        lemma_round_div_ordered(k * 0x8000_0000, 24int * 0x8000_0000, 25);
        assert(round_div(24int * 0x8000_0000, 25) < 0x8000_0000) by {
            lemma_fundamental_div_mod(24int * 0x8000_0000 + 12, 25);
        }
        assert(round_div((-24int) * 0x8000_0000, 25) > -0x8000_0000) by {
            lemma_fundamental_div_mod(24int * 0x8000_0000 + 12, 25);
        }
        assert(raw == raw0);
        // k * 2^31 == k * m + k, so 25 * raw is within 12 + |k| of k * m.
        assert(k * 0x8000_0000 == k * 0x7FFF_FFFF + k);
        assert(abs(raw * 25 - k * m) <= 36);
        // Hence round_div(raw * 25, m) == k.
        if raw * 25 >= 0 {
            assert((raw * 25 + m / 2) / m == k) by {
                lemma_fundamental_div_mod(raw * 25 + m / 2, m);
                let x = raw * 25 + m / 2;
                let q = x / m;
                if q < k {
                    vstd::arithmetic::mul::lemma_mul_inequality(q + 1, k, m);
                }
                if q > k {
                    vstd::arithmetic::mul::lemma_mul_inequality(k + 1, q, m);
                }
            }
        } else {
            assert((-(raw * 25) + m / 2) / m == -k) by {
                lemma_fundamental_div_mod(-(raw * 25) + m / 2, m);
                let x = -(raw * 25) + m / 2;
                let q = x / m;
                if q < -k {
                    vstd::arithmetic::mul::lemma_mul_inequality(q + 1, -k, m);
                }
                if q > -k {
                    vstd::arithmetic::mul::lemma_mul_inequality(-k + 1, q, m);
                }
            }
        }
    }
}

/// Round-trip law on the bit/display mapping: for every representable 32-bit
/// normalized value, decoding the display value and re-encoding it lands
/// within half of one display step (the rounding granularity) of the
/// original value.
pub proof fn lemma_value_round_trip(u: u32)
    ensures
        abs(as_signed(spec_from_display_bits(spec_to_display(u))) - as_signed(u)) <= 42949675,
{
    let s = as_signed(u);
    let m = 0x7FFF_FFFFint;
    let k = round_div(s * 25, m);
    lemma_round_div_ordered((-25int) * 0x8000_0000, s * 25, m);
    lemma_round_div_ordered(s * 25, 25int * m, m);
    assert(round_div((-25int) * 0x8000_0000, m) == -25) by {
        lemma_fundamental_div_mod(25int * 0x8000_0000 + m / 2, m);
    }
    assert(round_div(25int * m, m) == 25) by {
        lemma_fundamental_div_mod(25int * m + m / 2, m);
    }
    assert(-25 <= k <= 25);
    let d = spec_to_display(u);
    assert(d == 25 + k);
    lemma_round_div_error(s * 25, m);
    assert(abs(k * m - s * 25) <= m / 2);
    let raw0 = round_div(k * 0x8000_0000, 25);
    lemma_round_div_error(k * 0x8000_0000, 25);
    assert(abs(raw0 * 25 - k * 0x8000_0000) <= 12);
    assert(k * 0x8000_0000 == k * 0x7FFF_FFFF + k);
    assert(abs(raw0 * 25 - s * 25) <= 12 + 25 + m / 2);
    let raw = spec_from_display(d);
    lemma_round_div_ordered((-25int) * 0x8000_0000, k * 0x8000_0000, 25);
    lemma_round_div_ordered(k * 0x8000_0000, 25int * 0x8000_0000, 25);
    assert(round_div(25int * 0x8000_0000, 25) == 0x8000_0000) by {
        lemma_fundamental_div_mod(25int * 0x8000_0000 + 12, 25);
    }
    assert(round_div((-25int) * 0x8000_0000, 25) == -0x8000_0000) by {
        lemma_fundamental_div_mod(25int * 0x8000_0000 + 12, 25);
    }
    assert(-0x8000_0000 <= raw0 <= 0x8000_0000);
    assert(abs(raw - raw0) <= 1);
    assert(raw * 25 - raw0 * 25 == (raw - raw0) * 25) by (nonlinear_arith);
    assert(abs(raw * 25 - s * 25) <= 12 + 25 + 25 + m / 2);
    assert(raw * 25 - s * 25 == (raw - s) * 25) by (nonlinear_arith);
    assert(abs((raw - s) * 25) <= 1073741885);
    assert(abs(raw - s) <= 42949675) by (nonlinear_arith)
        requires
            abs((raw - s) * 25) <= 1073741885,
    ;
    assert(as_signed(spec_from_display_bits(d)) == raw);
}

// --- The patch document model ------------------------------------------------

/// An oscillator's source type.
#[derive(Clone, Copy, Debug, PartialEq, Eq)]
pub enum OscType {
    AnalogSaw,
    AnalogSquare,
    InLeft,
    InRight,
    Sample,
    Saw,
    Sine,
    Square,
    Triangle,
}

/// The factory-default oscillator source type.
pub open spec fn spec_osc_type_default() -> OscType {
    OscType::Sine
}

impl Default for OscType {
    fn default() -> (r: OscType)
        ensures
            r == spec_osc_type_default(),
    {
        OscType::Sine
    }
}

/// A sample playback window: start/end positions and an optional loop.
#[derive(Clone, Copy, Debug, PartialEq, Eq)]
pub struct Zone {
    pub start_sample_pos: u32,
    pub end_sample_pos: u32,
    pub start_loop_pos: Option<u32>,
    pub end_loop_pos: Option<u32>,
}

/// The factory-default sample playback window.
pub open spec fn spec_zone_default() -> Zone {
    Zone { start_sample_pos: 0, end_sample_pos: 0, start_loop_pos: None, end_loop_pos: None }
}

impl Default for Zone {
    fn default() -> (r: Zone)
        ensures
            r == spec_zone_default(),
    {
        Zone { start_sample_pos: 0, end_sample_pos: 0, start_loop_pos: None, end_loop_pos: None }
    }
}

/// One key-range-bounded sample assignment inside an oscillator.
#[derive(Clone, Debug, PartialEq, Eq)]
pub struct SampleRange {
    pub range_top_note: Option<i32>,
    pub transpose: Option<i32>,
    pub cents: Option<i32>,
    pub file_name: Option<String>,
    pub zone: Zone,
}

/// The mathematical content of a sample range.
#[verifier::ext_equal]
pub struct SampleRangeV {
    pub range_top_note: Option<i32>,
    pub transpose: Option<i32>,
    pub cents: Option<i32>,
    pub file_name: Option<Seq<char>>,
    pub zone: Zone,
}

impl View for SampleRange {
    type V = SampleRangeV;

    open spec fn view(&self) -> SampleRangeV {
        SampleRangeV {
            range_top_note: self.range_top_note,
            transpose: self.transpose,
            cents: self.cents,
            file_name: match self.file_name {
                Some(s) => Some(s@),
                None => None,
            },
            zone: self.zone,
        }
    }
}

/// The ordered sample ranges of one oscillator.
#[derive(Clone, Debug, PartialEq, Eq)]
pub struct SampleRanges {
    pub sample_range: Vec<SampleRange>,
}

impl View for SampleRanges {
    type V = Seq<SampleRangeV>;

    open spec fn view(&self) -> Seq<SampleRangeV> {
        self.sample_range@.map_values(|x: SampleRange| x@)
    }
}

/// One of the two oscillator slots.
#[derive(Clone, Debug, PartialEq, Eq)]
pub struct Osc {
    pub osc_type: OscType,
    pub transpose: Option<i32>,
    pub cents: Option<i32>,
    pub retrig_phase: Option<i32>,
    pub file_name: Option<String>,
    pub loop_mode: Option<i32>,
    pub reversed: Option<i32>,
    pub time_stretch_enable: Option<i32>,
    pub time_stretch_amount: Option<i32>,
    pub sample_ranges: Option<SampleRanges>,
    pub zone: Option<Zone>,
}

/// The mathematical content of an oscillator slot.
#[verifier::ext_equal]
pub struct OscV {
    pub osc_type: OscType,
    pub transpose: Option<i32>,
    pub cents: Option<i32>,
    pub retrig_phase: Option<i32>,
    pub file_name: Option<Seq<char>>,
    pub loop_mode: Option<i32>,
    pub reversed: Option<i32>,
    pub time_stretch_enable: Option<i32>,
    pub time_stretch_amount: Option<i32>,
    pub sample_ranges: Option<Seq<SampleRangeV>>,
    pub zone: Option<Zone>,
}

impl View for Osc {
    type V = OscV;

    open spec fn view(&self) -> OscV {
        OscV {
            osc_type: self.osc_type,
            transpose: self.transpose,
            cents: self.cents,
            retrig_phase: self.retrig_phase,
            file_name: match self.file_name {
                Some(s) => Some(s@),
                None => None,
            },
            loop_mode: self.loop_mode,
            reversed: self.reversed,
            time_stretch_enable: self.time_stretch_enable,
            time_stretch_amount: self.time_stretch_amount,
            sample_ranges: match self.sample_ranges {
                Some(s) => Some(s@),
                None => None,
            },
            zone: self.zone,
        }
    }
}

/// The factory-default oscillator slot: a square wave with no sample.
pub open spec fn spec_osc_default() -> OscV {
    OscV {
        osc_type: OscType::Square,
        transpose: Some(0i32),
        cents: Some(0i32),
        retrig_phase: Some(-1i32),
        file_name: None,
        loop_mode: None,
        reversed: None,
        time_stretch_enable: None,
        time_stretch_amount: None,
        sample_ranges: None,
        zone: None,
    }
}

impl Default for Osc {
    fn default() -> (r: Osc)
        ensures
            r@ == spec_osc_default(),
    {
        Osc {
            osc_type: OscType::Square,
            transpose: Some(0),
            cents: Some(0),
            retrig_phase: Some(-1),
            file_name: None,
            loop_mode: None,
            reversed: None,
            time_stretch_enable: None,
            time_stretch_amount: None,
            sample_ranges: None,
            zone: None,
        }
    }
}

/// A low-frequency oscillator's shape.
#[derive(Clone, Copy, Debug, PartialEq, Eq)]
pub enum LfoType {
    Saw,
    Sine,
    Square,
    Triangle,
}

impl Default for LfoType {
    fn default() -> (r: LfoType)
        ensures
            r == LfoType::Sine,
    {
        LfoType::Sine
    }
}

/// A low-frequency oscillator.
#[derive(Clone, Copy, Debug, PartialEq, Eq)]
pub struct Lfo {
    pub lfo_type: LfoType,
    pub sync_level: Option<i32>,
}

impl Default for Lfo {
    fn default() -> (r: Lfo)
        ensures
            r == (Lfo { lfo_type: LfoType::Sine, sync_level: None }),
    {
        Lfo { lfo_type: LfoType::Sine, sync_level: None }
    }
}

/// The synthesis mode.
#[derive(Clone, Copy, Debug, PartialEq, Eq)]
pub enum Mode {
    Ringmod,
    Subtractive,
    Fm,
}

impl Default for Mode {
    fn default() -> (r: Mode)
        ensures
            r == Mode::Subtractive,
    {
        Mode::Subtractive
    }
}

/// The unison settings.
#[derive(Clone, Copy, Debug, PartialEq, Eq)]
pub struct Unison {
    pub num: i32,
    pub detune: i32,
}

impl Default for Unison {
    fn default() -> (r: Unison)
        ensures
            r == (Unison { num: 1, detune: 8 }),
    {
        Unison { num: 1, detune: 8 }
    }
}

/// The delay effect settings.
#[derive(Clone, Copy, Debug, PartialEq, Eq)]
pub struct Delay {
    pub ping_pong: i32,
    pub analog: i32,
    pub sync_level: i32,
}

impl Default for Delay {
    fn default() -> (r: Delay)
        ensures
            r == (Delay { ping_pong: 1, analog: 0, sync_level: 7 }),
    {
        Delay { ping_pong: 1, analog: 0, sync_level: 7 }
    }
}

/// The low-pass filter mode.
#[derive(Clone, Copy, Debug, PartialEq, Eq)]
pub enum LpfMode {
    Mode24dB,
    Mode24dBDrive,
    Mode12dB,
}

impl Default for LpfMode {
    fn default() -> (r: LpfMode)
        ensures
            r == LpfMode::Mode24dB,
    {
        LpfMode::Mode24dB
    }
}

/// The modulation effect type.
#[derive(Clone, Copy, Debug, PartialEq, Eq)]
pub enum ModFxType {
    NoEffect,
    Chorus,
    Flanger,
    Phaser,
}

impl Default for ModFxType {
    fn default() -> (r: ModFxType)
        ensures
            r == ModFxType::NoEffect,
    {
        ModFxType::NoEffect
    }
}

/// An amplitude envelope in normalized parameter values.
#[derive(Clone, Copy, Debug, PartialEq, Eq)]
pub struct Envelope {
    pub attack: Value,
    pub decay: Value,
    pub sustain: Value,
    pub release: Value,
}

impl Default for Envelope {
    fn default() -> (r: Envelope)
        ensures
            r == (Envelope {
                attack: Value(0),
                decay: Value(0),
                sustain: Value(0),
                release: Value(0),
            }),
    {
        Envelope { attack: Value(0), decay: Value(0), sustain: Value(0), release: Value(0) }
    }
}

/// A modulation source.
#[derive(Clone, Copy, Debug, PartialEq, Eq)]
pub enum Source {
    Aftertouch,
    Compressor,
    Envelope1,
    Envelope2,
    Lfo1,
    Lfo2,
    Note,
    Velocity,
    Random,
}

impl Default for Source {
    fn default() -> (r: Source)
        ensures
            r == Source::Velocity,
    {
        Source::Velocity
    }
}

/// A modulation destination.
#[derive(Clone, Copy, Debug, PartialEq, Eq)]
pub enum Destination {
    ArpRate,
    Bass,
    BassFreq,
    BitcrushAmount,
    Carrier1Feedback,
    Carrier2Feedback,
    DelayFeedback,
    DelayRate,
    Env1Attack,
    Env1Decay,
    Env1Release,
    Env1Sustain,
    Env2Attack,
    Env2Decay,
    Env2Release,
    Env2Sustain,
    HpfFrequency,
    HpfResonance,
    Lfo1Rate,
    Lfo2Rate,
    LpfFrequency,
    LpfResonance,
    ModFxDepth,
    ModFxFeedback,
    ModFxRate,
    Modulator1Feedback,
    Modulator1Pitch,
    Modulator1Volume,
    Modulator2Feedback,
    Modulator2Pitch,
    Modulator2Volume,
    NoiseVolume,
    Osc1PhaseWidth,
    Osc1Pitch,
    Osc1Volume,
    Osc2PhaseWidth,
    Osc2Pitch,
    Osc2Volume,
    Pan,
    Pitch,
    Portamento,
    Range,
    ReverbAmount,
    SampleRateReduction,
    StutterRate,
    Treble,
    TrebleFreq,
    Volume,
    VolumePostFx,
    VolumePostReverbSend,
}

impl Default for Destination {
    fn default() -> (r: Destination)
        ensures
            r == Destination::Volume,
    {
        Destination::Volume
    }
}

/// One modulation routing: a source, a destination and an amount.
#[derive(Clone, Copy, Debug, PartialEq, Eq)]
pub struct PatchCable {
    pub source: Source,
    pub destination: Destination,
    pub amount: Value,
}

/// The equalizer settings.
#[derive(Clone, Copy, Debug, PartialEq, Eq)]
pub struct Equalizer {
    pub bass: Value,
    pub treble: Value,
    pub bass_frequency: Value,
    pub treble_frequency: Value,
}

impl Default for Equalizer {
    fn default() -> (r: Equalizer)
        ensures
            r == (Equalizer {
                bass: Value(0),
                treble: Value(0),
                bass_frequency: Value(0),
                treble_frequency: Value(0),
            }),
    {
        Equalizer {
            bass: Value(0),
            treble: Value(0),
            bass_frequency: Value(0),
            treble_frequency: Value(0),
        }
    }
}

/// The compressor settings.
#[derive(Clone, Copy, Debug, PartialEq, Eq)]
pub struct Compressor {
    pub sync_level: i32,
    pub attack: i32,
    pub release: i32,
}

impl Default for Compressor {
    fn default() -> (r: Compressor)
        ensures
            r == (Compressor { sync_level: 7, attack: 327244, release: 936 }),
    {
        Compressor { sync_level: 7, attack: 327244, release: 936 }
    }
}

/// The modulation routings of a patch.
#[derive(Clone, Debug, PartialEq, Eq)]
pub struct PatchCables {
    pub patch_cable: Vec<PatchCable>,
}

impl View for PatchCables {
    type V = Seq<PatchCable>;

    open spec fn view(&self) -> Seq<PatchCable> {
        self.patch_cable@
    }
}

/// The factory-default modulation routing: velocity to volume.
pub open spec fn spec_patch_cables_default() -> Seq<PatchCable> {
    seq![
        PatchCable {
            source: Source::Velocity,
            destination: Destination::Volume,
            amount: Value(0x3FFFFFE8),
        },
    ]
}

impl Default for PatchCables {
    fn default() -> (r: PatchCables)
        ensures
            r@ == spec_patch_cables_default(),
    {
        let mut v: Vec<PatchCable> = Vec::new();
        v.push(
            PatchCable {
                source: Source::Velocity,
                destination: Destination::Volume,
                amount: Value(0x3FFFFFE8),
            },
        );
        proof {
            assert(v@ =~= spec_patch_cables_default());
        }
        PatchCables { patch_cable: v }
    }
}

/// A MIDI-assignable knob slot.
#[derive(Clone, Copy, Debug, PartialEq, Eq)]
pub struct MidiKnob {}

/// The MIDI knob assignments.
#[derive(Clone, Debug, PartialEq, Eq)]
pub struct MidiKnobs {
    pub midi_knob: Vec<MidiKnob>,
}

impl View for MidiKnobs {
    type V = Seq<MidiKnob>;

    open spec fn view(&self) -> Seq<MidiKnob> {
        self.midi_knob@
    }
}

impl Default for MidiKnobs {
    fn default() -> (r: MidiKnobs)
        ensures
            r@ == Seq::<MidiKnob>::empty(),
    {
        MidiKnobs { midi_knob: Vec::new() }
    }
}

/// One mod knob assignment.
#[derive(Clone, Copy, Debug, PartialEq, Eq)]
pub struct ModKnob {
    pub controls_param: Destination,
    pub patch_amount_from_source: Option<Source>,
}

/// The mod knob assignments.
#[derive(Clone, Debug, PartialEq, Eq)]
pub struct ModKnobs {
    pub mod_knob: Vec<ModKnob>,
}

impl View for ModKnobs {
    type V = Seq<ModKnob>;

    open spec fn view(&self) -> Seq<ModKnob> {
        self.mod_knob@
    }
}

/// One factory-default mod knob.
pub open spec fn spec_mod_knob(d: Destination, s: Option<Source>) -> ModKnob {
    ModKnob { controls_param: d, patch_amount_from_source: s }
}

/// The sixteen factory-default mod knob assignments.
pub open spec fn spec_mod_knobs_default() -> Seq<ModKnob> {
    seq![
        spec_mod_knob(Destination::Pan, None),
        spec_mod_knob(Destination::VolumePostFx, None),
        spec_mod_knob(Destination::LpfResonance, None),
        spec_mod_knob(Destination::LpfFrequency, None),
        spec_mod_knob(Destination::Env1Release, None),
        spec_mod_knob(Destination::Env1Attack, None),
        spec_mod_knob(Destination::DelayFeedback, None),
        spec_mod_knob(Destination::DelayRate, None),
        spec_mod_knob(Destination::ReverbAmount, None),
        spec_mod_knob(Destination::VolumePostReverbSend, Some(Source::Compressor)),
        spec_mod_knob(Destination::Pitch, Some(Source::Lfo1)),
        spec_mod_knob(Destination::Lfo1Rate, None),
        spec_mod_knob(Destination::Portamento, None),
        spec_mod_knob(Destination::StutterRate, None),
        spec_mod_knob(Destination::BitcrushAmount, None),
        spec_mod_knob(Destination::SampleRateReduction, None),
    ]
}

impl Default for ModKnobs {
    fn default() -> (r: ModKnobs)
        ensures
            r@ == spec_mod_knobs_default(),
    {
        let mut v: Vec<ModKnob> = Vec::new();
        v.push(ModKnob { controls_param: Destination::Pan, patch_amount_from_source: None });
        v.push(
            ModKnob { controls_param: Destination::VolumePostFx, patch_amount_from_source: None },
        );
        v.push(
            ModKnob { controls_param: Destination::LpfResonance, patch_amount_from_source: None },
        );
        v.push(
            ModKnob { controls_param: Destination::LpfFrequency, patch_amount_from_source: None },
        );
        v.push(
            ModKnob { controls_param: Destination::Env1Release, patch_amount_from_source: None },
        );
        v.push(
            ModKnob { controls_param: Destination::Env1Attack, patch_amount_from_source: None },
        );
        v.push(
            ModKnob { controls_param: Destination::DelayFeedback, patch_amount_from_source: None },
        );
        v.push(ModKnob { controls_param: Destination::DelayRate, patch_amount_from_source: None });
        v.push(
            ModKnob { controls_param: Destination::ReverbAmount, patch_amount_from_source: None },
        );
        v.push(
            ModKnob {
                controls_param: Destination::VolumePostReverbSend,
                patch_amount_from_source: Some(Source::Compressor),
            },
        );
        v.push(
            ModKnob {
                controls_param: Destination::Pitch,
                patch_amount_from_source: Some(Source::Lfo1),
            },
        );
        v.push(ModKnob { controls_param: Destination::Lfo1Rate, patch_amount_from_source: None });
        v.push(
            ModKnob { controls_param: Destination::Portamento, patch_amount_from_source: None },
        );
        v.push(
            ModKnob { controls_param: Destination::StutterRate, patch_amount_from_source: None },
        );
        v.push(
            ModKnob {
                controls_param: Destination::BitcrushAmount,
                patch_amount_from_source: None,
            },
        );
        v.push(
            ModKnob {
                controls_param: Destination::SampleRateReduction,
                patch_amount_from_source: None,
            },
        );
        proof {
            assert(v@ =~= spec_mod_knobs_default());
        }
        ModKnobs { mod_knob: v }
    }
}

/// The arpeggiator mode.
#[derive(Clone, Copy, Debug, PartialEq, Eq)]
pub enum ArpeggiatorMode {
    Off,
}

impl Default for ArpeggiatorMode {
    fn default() -> (r: ArpeggiatorMode)
        ensures
            r == ArpeggiatorMode::Off,
    {
        ArpeggiatorMode::Off
    }
}

/// The arpeggiator settings.
#[derive(Clone, Copy, Debug, PartialEq, Eq)]
pub struct Arpeggiator {
    pub mode: ArpeggiatorMode,
    pub num_octaves: i32,
    pub sync_level: i32,
}

impl Default for Arpeggiator {
    fn default() -> (r: Arpeggiator)
        ensures
            r == (Arpeggiator { mode: ArpeggiatorMode::Off, num_octaves: 2, sync_level: 7 }),
    {
        Arpeggiator { mode: ArpeggiatorMode::Off, num_octaves: 2, sync_level: 7 }
    }
}

/// The polyphony mode: a named mode or a fixed voice count.
#[derive(Clone, Copy, Debug, PartialEq, Eq)]
pub enum Polyphony {
    Auto,
    Mono,
    Legato,
    Poly,
    Integer(u32),
}

impl Default for Polyphony {
    fn default() -> (r: Polyphony)
        ensures
            r == Polyphony::Poly,
    {
        Polyphony::Poly
    }
}

/// The per-patch default parameter block.
#[derive(Clone, Debug, PartialEq, Eq)]
pub struct DefaultParams {
    pub arpeggiator_gate: Value,
    pub portamento: Value,
    pub compressor_shape: Value,
    pub osc1_volume: Value,
    pub osc1_pulse_width: Value,
    pub osc2_volume: Value,
    pub osc2_pulse_width: Value,
    pub noise_volume: Value,
    pub volume: Value,
    pub pan: Value,
    pub lpf_frequency: Value,
    pub lpf_resonance: Value,
    pub hpf_frequency: Value,
    pub hpf_resonance: Value,
    pub envelope1: Envelope,
    pub envelope2: Envelope,
    pub lfo1_rate: Value,
    pub lfo2_rate: Value,
    pub modulator1_amount: Value,
    pub modulator1_feedback: Value,
    pub modulator2_amount: Value,
    pub modulator2_feedback: Value,
    pub carrier1_feedback: Value,
    pub carrier2_feedback: Value,
    pub mod_fx_rate: Value,
    pub mod_fx_depth: Value,
    pub delay_rate: Value,
    pub delay_feedback: Value,
    pub reverb_amount: Value,
    pub arpeggiator_rate: Value,
    pub patch_cables: PatchCables,
    pub stutter_rate: Value,
    pub sample_rate_reduction: Value,
    pub bitcrush: Value,
    pub equalizer: Equalizer,
    pub mod_fx_offset: Value,
    pub mod_fx_feedback: Value,
}

/// The mathematical content of the default parameter block.
#[verifier::ext_equal]
pub struct DefaultParamsV {
    pub arpeggiator_gate: Value,
    pub portamento: Value,
    pub compressor_shape: Value,
    pub osc1_volume: Value,
    pub osc1_pulse_width: Value,
    pub osc2_volume: Value,
    pub osc2_pulse_width: Value,
    pub noise_volume: Value,
    pub volume: Value,
    pub pan: Value,
    pub lpf_frequency: Value,
    pub lpf_resonance: Value,
    pub hpf_frequency: Value,
    pub hpf_resonance: Value,
    pub envelope1: Envelope,
    pub envelope2: Envelope,
    pub lfo1_rate: Value,
    pub lfo2_rate: Value,
    pub modulator1_amount: Value,
    pub modulator1_feedback: Value,
    pub modulator2_amount: Value,
    pub modulator2_feedback: Value,
    pub carrier1_feedback: Value,
    pub carrier2_feedback: Value,
    pub mod_fx_rate: Value,
    pub mod_fx_depth: Value,
    pub delay_rate: Value,
    pub delay_feedback: Value,
    pub reverb_amount: Value,
    pub arpeggiator_rate: Value,
    pub patch_cables: Seq<PatchCable>,
    pub stutter_rate: Value,
    pub sample_rate_reduction: Value,
    pub bitcrush: Value,
    pub equalizer: Equalizer,
    pub mod_fx_offset: Value,
    pub mod_fx_feedback: Value,
}

impl View for DefaultParams {
    type V = DefaultParamsV;

    open spec fn view(&self) -> DefaultParamsV {
        DefaultParamsV {
            arpeggiator_gate: self.arpeggiator_gate,
            portamento: self.portamento,
            compressor_shape: self.compressor_shape,
            osc1_volume: self.osc1_volume,
            osc1_pulse_width: self.osc1_pulse_width,
            osc2_volume: self.osc2_volume,
            osc2_pulse_width: self.osc2_pulse_width,
            noise_volume: self.noise_volume,
            volume: self.volume,
            pan: self.pan,
            lpf_frequency: self.lpf_frequency,
            lpf_resonance: self.lpf_resonance,
            hpf_frequency: self.hpf_frequency,
            hpf_resonance: self.hpf_resonance,
            envelope1: self.envelope1,
            envelope2: self.envelope2,
            lfo1_rate: self.lfo1_rate,
            lfo2_rate: self.lfo2_rate,
            modulator1_amount: self.modulator1_amount,
            modulator1_feedback: self.modulator1_feedback,
            modulator2_amount: self.modulator2_amount,
            modulator2_feedback: self.modulator2_feedback,
            carrier1_feedback: self.carrier1_feedback,
            carrier2_feedback: self.carrier2_feedback,
            mod_fx_rate: self.mod_fx_rate,
            mod_fx_depth: self.mod_fx_depth,
            delay_rate: self.delay_rate,
            delay_feedback: self.delay_feedback,
            reverb_amount: self.reverb_amount,
            arpeggiator_rate: self.arpeggiator_rate,
            patch_cables: self.patch_cables@,
            stutter_rate: self.stutter_rate,
            sample_rate_reduction: self.sample_rate_reduction,
            bitcrush: self.bitcrush,
            equalizer: self.equalizer,
            mod_fx_offset: self.mod_fx_offset,
            mod_fx_feedback: self.mod_fx_feedback,
        }
    }
}

/// The factory-default parameter block, as saved in an initial patch.
pub open spec fn spec_default_params_default() -> DefaultParamsV {
    DefaultParamsV {
        arpeggiator_gate: Value(0x00000000),
        portamento: Value(0x80000000),
        compressor_shape: Value(0xDC28F5B2),
        osc1_volume: Value(0x7FFFFFFF),
        osc1_pulse_width: Value(0x00000000),
        osc2_volume: Value(0x80000000),
        osc2_pulse_width: Value(0x00000000),
        noise_volume: Value(0x80000000),
        volume: Value(0x4CCCCCA8),
        pan: Value(0x00000000),
        lpf_frequency: Value(0x7FFFFFFF),
        lpf_resonance: Value(0x80000000),
        hpf_frequency: Value(0x80000000),
        hpf_resonance: Value(0x80000000),
        envelope1: Envelope {
            attack: Value(0x80000000),
            decay: Value(0xE6666654),
            sustain: Value(0x7FFFFFFF),
            release: Value(0x80000000),
        },
        envelope2: Envelope {
            attack: Value(0xE6666654),
            decay: Value(0xE6666654),
            sustain: Value(0xFFFFFFE9),
            release: Value(0xE6666654),
        },
        lfo1_rate: Value(0x1999997E),
        lfo2_rate: Value(0x00000000),
        modulator1_amount: Value(0x80000000),
        modulator1_feedback: Value(0x80000000),
        modulator2_amount: Value(0x80000000),
        modulator2_feedback: Value(0x80000000),
        carrier1_feedback: Value(0x80000000),
        carrier2_feedback: Value(0x80000000),
        mod_fx_rate: Value(0x80000000),
        mod_fx_depth: Value(0x80000000),
        delay_rate: Value(0x00000000),
        delay_feedback: Value(0x80000000),
        reverb_amount: Value(0x80000000),
        arpeggiator_rate: Value(0x00000000),
        patch_cables: spec_patch_cables_default(),
        stutter_rate: Value(0x00000000),
        sample_rate_reduction: Value(0x80000000),
        bitcrush: Value(0x80000000),
        equalizer: Equalizer {
            bass: Value(0),
            treble: Value(0),
            bass_frequency: Value(0),
            treble_frequency: Value(0),
        },
        mod_fx_offset: Value(0x00000000),
        mod_fx_feedback: Value(0x00000000),
    }
}

impl Default for DefaultParams {
    fn default() -> (r: DefaultParams)
        ensures
            r@ == spec_default_params_default(),
    {
        let r = DefaultParams {
            arpeggiator_gate: Value(0x00000000),
            portamento: Value(0x80000000),
            compressor_shape: Value(0xDC28F5B2),
            osc1_volume: Value(0x7FFFFFFF),
            osc1_pulse_width: Value(0x00000000),
            osc2_volume: Value(0x80000000),
            osc2_pulse_width: Value(0x00000000),
            noise_volume: Value(0x80000000),
            volume: Value(0x4CCCCCA8),
            pan: Value(0x00000000),
            lpf_frequency: Value(0x7FFFFFFF),
            lpf_resonance: Value(0x80000000),
            hpf_frequency: Value(0x80000000),
            hpf_resonance: Value(0x80000000),
            envelope1: Envelope {
                attack: Value(0x80000000),
                decay: Value(0xE6666654),
                sustain: Value(0x7FFFFFFF),
                release: Value(0x80000000),
            },
            envelope2: Envelope {
                attack: Value(0xE6666654),
                decay: Value(0xE6666654),
                sustain: Value(0xFFFFFFE9),
                release: Value(0xE6666654),
            },
            lfo1_rate: Value(0x1999997E),
            lfo2_rate: Value(0x00000000),
            modulator1_amount: Value(0x80000000),
            modulator1_feedback: Value(0x80000000),
            modulator2_amount: Value(0x80000000),
            modulator2_feedback: Value(0x80000000),
            carrier1_feedback: Value(0x80000000),
            carrier2_feedback: Value(0x80000000),
            mod_fx_rate: Value(0x80000000),
            mod_fx_depth: Value(0x80000000),
            delay_rate: Value(0x00000000),
            delay_feedback: Value(0x80000000),
            reverb_amount: Value(0x80000000),
            arpeggiator_rate: Value(0x00000000),
            patch_cables: PatchCables::default(),
            stutter_rate: Value(0x00000000),
            sample_rate_reduction: Value(0x80000000),
            bitcrush: Value(0x80000000),
            equalizer: Equalizer::default(),
            mod_fx_offset: Value(0x00000000),
            mod_fx_feedback: Value(0x00000000),
        };
        proof {
            assert(r@ =~= spec_default_params_default());
        }
        r
    }
}

/// A whole voice patch: top-level synth settings, the two oscillator slots,
/// and the default parameter block. The `name` names the patch and its file;
/// it is not serialized into the document.
#[derive(Clone, Debug, PartialEq, Eq)]
pub struct Sound {
    pub name: String,
    pub firmware_version: Option<String>,
    pub earliest_compatible_firmware: Option<String>,
    pub osc1: Osc,
    pub osc2: Osc,
    pub polyphonic: Polyphony,
    pub clipping_amount: Option<u32>,
    pub voice_priority: u32,
    pub lfo1: Lfo,
    pub lfo2: Lfo,
    pub mode: Mode,
    pub lpf_mode: Option<LpfMode>,
    pub unison: Unison,
    pub delay: Delay,
    pub compressor: Option<Compressor>,
    pub mod_fx_type: ModFxType,
    pub default_params: DefaultParams,
    pub arpeggiator: Arpeggiator,
    pub midi_knobs: Option<MidiKnobs>,
    pub mod_knobs: ModKnobs,
}

/// The mathematical content of a voice patch.
#[verifier::ext_equal]
pub struct SoundV {
    pub name: Seq<char>,
    pub firmware_version: Option<Seq<char>>,
    pub earliest_compatible_firmware: Option<Seq<char>>,
    pub osc1: OscV,
    pub osc2: OscV,
    pub polyphonic: Polyphony,
    pub clipping_amount: Option<u32>,
    pub voice_priority: u32,
    pub lfo1: Lfo,
    pub lfo2: Lfo,
    pub mode: Mode,
    pub lpf_mode: Option<LpfMode>,
    pub unison: Unison,
    pub delay: Delay,
    pub compressor: Option<Compressor>,
    pub mod_fx_type: ModFxType,
    pub default_params: DefaultParamsV,
    pub arpeggiator: Arpeggiator,
    pub midi_knobs: Option<Seq<MidiKnob>>,
    pub mod_knobs: Seq<ModKnob>,
}

impl View for Sound {
    type V = SoundV;

    open spec fn view(&self) -> SoundV {
        SoundV {
            name: self.name@,
            firmware_version: match self.firmware_version {
                Some(s) => Some(s@),
                None => None,
            },
            earliest_compatible_firmware: match self.earliest_compatible_firmware {
                Some(s) => Some(s@),
                None => None,
            },
            osc1: self.osc1@,
            osc2: self.osc2@,
            polyphonic: self.polyphonic,
            clipping_amount: self.clipping_amount,
            voice_priority: self.voice_priority,
            lfo1: self.lfo1,
            lfo2: self.lfo2,
            mode: self.mode,
            lpf_mode: self.lpf_mode,
            unison: self.unison,
            delay: self.delay,
            compressor: self.compressor,
            mod_fx_type: self.mod_fx_type,
            default_params: self.default_params@,
            arpeggiator: self.arpeggiator,
            midi_knobs: match self.midi_knobs {
                Some(ref k) => Some(k@),
                None => None,
            },
            mod_knobs: self.mod_knobs@,
        }
    }
}

/// The factory-default voice patch, as saved in an initial patch.
pub open spec fn spec_sound_default() -> SoundV {
    SoundV {
        name: Seq::empty(),
        firmware_version: Some("3.1.3"@),
        earliest_compatible_firmware: Some("3.1.3-beta"@),
        osc1: spec_osc_default(),
        osc2: spec_osc_default(),
        polyphonic: Polyphony::Poly,
        clipping_amount: None,
        voice_priority: 1,
        lfo1: Lfo { lfo_type: LfoType::Triangle, sync_level: Some(0) },
        lfo2: Lfo { lfo_type: LfoType::Triangle, sync_level: None },
        mode: Mode::Subtractive,
        lpf_mode: Some(LpfMode::Mode24dB),
        unison: Unison { num: 1, detune: 8 },
        delay: Delay { ping_pong: 1, analog: 0, sync_level: 7 },
        compressor: Some(Compressor { sync_level: 7, attack: 327244, release: 936 }),
        mod_fx_type: ModFxType::NoEffect,
        default_params: spec_default_params_default(),
        arpeggiator: Arpeggiator { mode: ArpeggiatorMode::Off, num_octaves: 2, sync_level: 7 },
        midi_knobs: None,
        mod_knobs: spec_mod_knobs_default(),
    }
}

impl Default for Sound {
    fn default() -> (r: Sound)
        ensures
            r@ == spec_sound_default(),
    {
        let r = Sound {
            name: String::new(),
            firmware_version: Some("3.1.3".to_owned()),
            earliest_compatible_firmware: Some("3.1.3-beta".to_owned()),
            osc1: Osc::default(),
            osc2: Osc::default(),
            polyphonic: Polyphony::Poly,
            clipping_amount: None,
            voice_priority: 1,
            lfo1: Lfo { lfo_type: LfoType::Triangle, sync_level: Some(0) },
            lfo2: Lfo { lfo_type: LfoType::Triangle, sync_level: None },
            mode: Mode::Subtractive,
            lpf_mode: Some(LpfMode::Mode24dB),
            unison: Unison::default(),
            delay: Delay::default(),
            compressor: Some(Compressor::default()),
            mod_fx_type: ModFxType::NoEffect,
            default_params: DefaultParams::default(),
            arpeggiator: Arpeggiator::default(),
            midi_knobs: None,
            mod_knobs: ModKnobs::default(),
        };
        proof {
            assert(r@ =~= spec_sound_default());
        }
        r
    }
}


// --- Envelope curve transcoding -----------------------------------------------

/// The least display value whose calibration entry reaches `m`, scanning
/// upward from `d`; 50 when no entry does.
pub open spec fn spec_display_for_time(m: u64, t: Seq<u64>, d: int) -> int
    recommends
        t.len() == 51,
        0 <= d <= 50,
    decreases 50 - d,
{
    if d < 0 || d >= 50 {
        50
    } else if m <= t[d] {
        d
    } else {
        spec_display_for_time(m, t, d + 1)
    }
}

/// The least display value whose calibration entry reaches `level`, scanning
/// upward from `d`; 50 when no entry does.
pub open spec fn spec_display_for_level(level: i64, t: Seq<i64>, d: int) -> int
    recommends
        t.len() == 51,
        0 <= d <= 50,
    decreases 50 - d,
{
    if d < 0 || d >= 50 {
        50
    } else if level <= t[d] {
        d
    } else {
        spec_display_for_level(level, t, d + 1)
    }
}

fn display_for_time(m: u64, t: &Vec<u64>, d: usize) -> (r: i32)
    requires
        t@.len() == 51,
        d <= 50,
    ensures
        r == spec_display_for_time(m, t@, d as int),
        0 <= r <= 50,
    decreases 50 - d,
{
    if d >= 50 {
        50
    } else if m <= t[d] {
        d as i32
    } else {
        display_for_time(m, t, d + 1)
    }
}

fn display_for_level(level: i64, t: &Vec<i64>, d: usize) -> (r: i32)
    requires
        t@.len() == 51,
        d <= 50,
    ensures
        r == spec_display_for_level(level, t@, d as int),
        0 <= r <= 50,
    decreases 50 - d,
{
    if d >= 50 {
        50
    } else if level <= t[d] {
        d as i32
    } else {
        display_for_level(level, t, d + 1)
    }
}

/// The attack calibration table: the attack time in microseconds for each display value 0..=50.
pub open spec fn spec_attack_table() -> Seq<u64> {
    seq![
        700u64, 900, 1000, 1200, 1400, 1700, 2000, 2300, 2700, 3200, 3800, 4500, 5300, 6300,
        7400, 8800, 10000, 12000, 14000, 17000, 20000, 24000, 28000, 33000, 39000, 46000, 54000,
        64000, 76000, 90000, 106000, 125000, 148000, 174000, 206000, 243000, 287000, 339000,
        400000, 472000, 558000, 658000, 777000, 918000, 1080000, 1280000, 1510000, 1780000,
        2110000, 2490000, 2940000,
    ]
}

#[verifier::rlimit(60)]
fn attack_table_vec() -> (v: Vec<u64>)
    ensures
        v@ == spec_attack_table(),
{
    let mut v: Vec<u64> = Vec::new();
    v.push(700);
    v.push(900);
    v.push(1000);
    v.push(1200);
    v.push(1400);
    v.push(1700);
    v.push(2000);
    v.push(2300);
    v.push(2700);
    v.push(3200);
    v.push(3800);
    v.push(4500);
    v.push(5300);
    v.push(6300);
    v.push(7400);
    v.push(8800);
    v.push(10000);
    v.push(12000);
    v.push(14000);
    v.push(17000);
    v.push(20000);
    v.push(24000);
    v.push(28000);
    v.push(33000);
    v.push(39000);
    v.push(46000);
    v.push(54000);
    v.push(64000);
    v.push(76000);
    v.push(90000);
    v.push(106000);
    v.push(125000);
    v.push(148000);
    v.push(174000);
    v.push(206000);
    v.push(243000);
    v.push(287000);
    v.push(339000);
    v.push(400000);
    v.push(472000);
    v.push(558000);
    v.push(658000);
    v.push(777000);
    v.push(918000);
    v.push(1080000);
    v.push(1280000);
    v.push(1510000);
    v.push(1780000);
    v.push(2110000);
    v.push(2490000);
    v.push(2940000);
    proof {
        assert(v@ =~= spec_attack_table());
    }
    v
}

/// The decay calibration table: the decay time in microseconds for each display value 0..=50.
pub open spec fn spec_decay_table() -> Seq<u64> {
    seq![
        9000u64, 93000, 182000, 276000, 375000, 478000, 586000, 699000, 820000, 940000, 1070000,
        1210000, 1360000, 1510000, 1670000, 1820000, 1990000, 2160000, 2330000, 2520000,
        2710000, 2910000, 3120000, 3350000, 3580000, 3840000, 4110000, 4400000, 4720000,
        5070000, 5440000, 5850000, 6310000, 6810000, 7370000, 8000000, 8700000, 9500000,
        10400000, 11400000, 12600000, 14000000, 15600000, 17500000, 19800000, 22400000,
        25600000, 29400000, 34000000, 39500000, 46400000,
    ]
}

#[verifier::rlimit(60)]
fn decay_table_vec() -> (v: Vec<u64>)
    ensures
        v@ == spec_decay_table(),
{
    let mut v: Vec<u64> = Vec::new();
    v.push(9000);
    v.push(93000);
    v.push(182000);
    v.push(276000);
    v.push(375000);
    v.push(478000);
    v.push(586000);
    v.push(699000);
    v.push(820000);
    v.push(940000);
    v.push(1070000);
    v.push(1210000);
    v.push(1360000);
    v.push(1510000);
    v.push(1670000);
    v.push(1820000);
    v.push(1990000);
    v.push(2160000);
    v.push(2330000);
    v.push(2520000);
    v.push(2710000);
    v.push(2910000);
    v.push(3120000);
    v.push(3350000);
    v.push(3580000);
    v.push(3840000);
    v.push(4110000);
    v.push(4400000);
    v.push(4720000);
    v.push(5070000);
    v.push(5440000);
    v.push(5850000);
    v.push(6310000);
    v.push(6810000);
    v.push(7370000);
    v.push(8000000);
    v.push(8700000);
    v.push(9500000);
    v.push(10400000);
    v.push(11400000);
    v.push(12600000);
    v.push(14000000);
    v.push(15600000);
    v.push(17500000);
    v.push(19800000);
    v.push(22400000);
    v.push(25600000);
    v.push(29400000);
    v.push(34000000);
    v.push(39500000);
    v.push(46400000);
    proof {
        assert(v@ =~= spec_decay_table());
    }
    v
}

/// The release calibration table: the release time in microseconds for each display value 0..=50.
pub open spec fn spec_release_table() -> Seq<u64> {
    seq![
        0u64, 44000, 91000, 139000, 189000, 240000, 294000, 349000, 407000, 466000, 527000,
        600000, 675000, 751000, 830000, 910000, 990000, 1080000, 1170000, 1260000, 1360000,
        1460000, 1570000, 1690000, 1810000, 1940000, 2080000, 2220000, 2380000, 2560000,
        2750000, 2950000, 3180000, 3430000, 3710000, 4010000, 4360000, 4750000, 5180000,
        5680000, 6240000, 6890000, 7630000, 8500000, 9500000, 10700000, 12100000, 13700000,
        15600000, 17900000, 20700000,
    ]
}

#[verifier::rlimit(60)]
fn release_table_vec() -> (v: Vec<u64>)
    ensures
        v@ == spec_release_table(),
{
    let mut v: Vec<u64> = Vec::new();
    v.push(0);
    v.push(44000);
    v.push(91000);
    v.push(139000);
    v.push(189000);
    v.push(240000);
    v.push(294000);
    v.push(349000);
    v.push(407000);
    v.push(466000);
    v.push(527000);
    v.push(600000);
    v.push(675000);
    v.push(751000);
    v.push(830000);
    v.push(910000);
    v.push(990000);
    v.push(1080000);
    v.push(1170000);
    v.push(1260000);
    v.push(1360000);
    v.push(1460000);
    v.push(1570000);
    v.push(1690000);
    v.push(1810000);
    v.push(1940000);
    v.push(2080000);
    v.push(2220000);
    v.push(2380000);
    v.push(2560000);
    v.push(2750000);
    v.push(2950000);
    v.push(3180000);
    v.push(3430000);
    v.push(3710000);
    v.push(4010000);
    v.push(4360000);
    v.push(4750000);
    v.push(5180000);
    v.push(5680000);
    v.push(6240000);
    v.push(6890000);
    v.push(7630000);
    v.push(8500000);
    v.push(9500000);
    v.push(10700000);
    v.push(12100000);
    v.push(13700000);
    v.push(15600000);
    v.push(17900000);
    v.push(20700000);
    proof {
        assert(v@ =~= spec_release_table());
    }
    v
}

/// The sustain calibration table: the sustain level in centibels for each display value 0..=50.
pub open spec fn spec_sustain_table() -> Seq<i64> {
    seq![
        -10000i64, -680i64, -560i64, -489i64, -439i64, -400i64, -369i64, -342i64, -319i64, -298i64, -280i64, -263i64, -248i64, -234i64,
        -221i64, -209i64, -198i64, -188i64, -178i64, -168i64, -159i64, -151i64, -143i64, -135i64, -128i64, -121i64, -114i64, -107i64,
        -101i64, -95i64, -89i64, -83i64, -78i64, -72i64, -67i64, -62i64, -57i64, -53i64, -48i64, -43i64, -39i64, -35i64, -30i64, -26i64, -22i64,
        -18i64, -15i64, -11i64, -7i64, -4i64, 0i64,
    ]
}

#[verifier::rlimit(60)]
fn sustain_table_vec() -> (v: Vec<i64>)
    ensures
        v@ == spec_sustain_table(),
{
    let mut v: Vec<i64> = Vec::new();
    v.push(-10000);
    v.push(-680);
    v.push(-560);
    v.push(-489);
    v.push(-439);
    v.push(-400);
    v.push(-369);
    v.push(-342);
    v.push(-319);
    v.push(-298);
    v.push(-280);
    v.push(-263);
    v.push(-248);
    v.push(-234);
    v.push(-221);
    v.push(-209);
    v.push(-198);
    v.push(-188);
    v.push(-178);
    v.push(-168);
    v.push(-159);
    v.push(-151);
    v.push(-143);
    v.push(-135);
    v.push(-128);
    v.push(-121);
    v.push(-114);
    v.push(-107);
    v.push(-101);
    v.push(-95);
    v.push(-89);
    v.push(-83);
    v.push(-78);
    v.push(-72);
    v.push(-67);
    v.push(-62);
    v.push(-57);
    v.push(-53);
    v.push(-48);
    v.push(-43);
    v.push(-39);
    v.push(-35);
    v.push(-30);
    v.push(-26);
    v.push(-22);
    v.push(-18);
    v.push(-15);
    v.push(-11);
    v.push(-7);
    v.push(-4);
    v.push(0);
    proof {
        assert(v@ =~= spec_sustain_table());
    }
    v
}

/// The normalized parameter value for an attack time in microseconds: the
/// lowest display value whose calibrated attack time is at least as long,
/// encoded through the display/bit mapping.
pub fn attack_to_value(micros: u64) -> (r: Value)
    ensures
        r.0 == spec_from_display_bits(spec_display_for_time(micros, spec_attack_table(), 0)),
{
    let t = attack_table_vec();
    Value::from_deluge_val(display_for_time(micros, &t, 0))
}

/// The normalized parameter value for a decay time in microseconds.
pub fn decay_to_value(micros: u64) -> (r: Value)
    ensures
        r.0 == spec_from_display_bits(spec_display_for_time(micros, spec_decay_table(), 0)),
{
    let t = decay_table_vec();
    Value::from_deluge_val(display_for_time(micros, &t, 0))
}

/// The normalized parameter value for a release time in microseconds.
pub fn release_to_value(micros: u64) -> (r: Value)
    ensures
        r.0 == spec_from_display_bits(spec_display_for_time(micros, spec_release_table(), 0)),
{
    let t = release_table_vec();
    Value::from_deluge_val(display_for_time(micros, &t, 0))
}

/// The normalized parameter value for a sustain level in centibels (zero is
/// full level, negative values attenuate).
pub fn sustain_to_value(level_centibels: i64) -> (r: Value)
    ensures
        r.0 == spec_from_display_bits(
            spec_display_for_level(level_centibels, spec_sustain_table(), 0),
        ),
{
    let t = sustain_table_vec();
    Value::from_deluge_val(display_for_level(level_centibels, &t, 0))
}


// --- Serialization: attribute text of the enums -------------------------------

/// The attribute text of a `OscType`.
pub open spec fn spec_osc_type_chars(x: OscType) -> Seq<char> {
    match x {
        OscType::AnalogSaw => "analogSaw"@,
        OscType::AnalogSquare => "analogSquare"@,
        OscType::InLeft => "inLeft"@,
        OscType::InRight => "inRight"@,
        OscType::Sample => "sample"@,
        OscType::Saw => "saw"@,
        OscType::Sine => "sine"@,
        OscType::Square => "square"@,
        OscType::Triangle => "triangle"@,
    }
}

impl OscType {
    /// The attribute text this value serializes as.
    pub fn xml_name(&self) -> (r: &'static str)
        ensures
            r@ == spec_osc_type_chars(*self),
    {
        match *self {
            OscType::AnalogSaw => "analogSaw",
            OscType::AnalogSquare => "analogSquare",
            OscType::InLeft => "inLeft",
            OscType::InRight => "inRight",
            OscType::Sample => "sample",
            OscType::Saw => "saw",
            OscType::Sine => "sine",
            OscType::Square => "square",
            OscType::Triangle => "triangle",
        }
    }
}

/// The attribute text of a `LfoType`.
pub open spec fn spec_lfo_type_chars(x: LfoType) -> Seq<char> {
    match x {
        LfoType::Saw => "saw"@,
        LfoType::Sine => "sine"@,
        LfoType::Square => "square"@,
        LfoType::Triangle => "triangle"@,
    }
}

impl LfoType {
    /// The attribute text this value serializes as.
    pub fn xml_name(&self) -> (r: &'static str)
        ensures
            r@ == spec_lfo_type_chars(*self),
    {
        match *self {
            LfoType::Saw => "saw",
            LfoType::Sine => "sine",
            LfoType::Square => "square",
            LfoType::Triangle => "triangle",
        }
    }
}

/// The attribute text of a `Mode`.
pub open spec fn spec_mode_chars(x: Mode) -> Seq<char> {
    match x {
        Mode::Ringmod => "ringmod"@,
        Mode::Subtractive => "subtractive"@,
        Mode::Fm => "fm"@,
    }
}

impl Mode {
    /// The attribute text this value serializes as.
    pub fn xml_name(&self) -> (r: &'static str)
        ensures
            r@ == spec_mode_chars(*self),
    {
        match *self {
            Mode::Ringmod => "ringmod",
            Mode::Subtractive => "subtractive",
            Mode::Fm => "fm",
        }
    }
}

/// The attribute text of a `LpfMode`.
pub open spec fn spec_lpf_mode_chars(x: LpfMode) -> Seq<char> {
    match x {
        LpfMode::Mode24dB => "24dB"@,
        LpfMode::Mode24dBDrive => "24dBDrive"@,
        LpfMode::Mode12dB => "12dB"@,
    }
}

impl LpfMode {
    /// The attribute text this value serializes as.
    pub fn xml_name(&self) -> (r: &'static str)
        ensures
            r@ == spec_lpf_mode_chars(*self),
    {
        match *self {
            LpfMode::Mode24dB => "24dB",
            LpfMode::Mode24dBDrive => "24dBDrive",
            LpfMode::Mode12dB => "12dB",
        }
    }
}

/// The attribute text of a `ModFxType`.
pub open spec fn spec_mod_fx_type_chars(x: ModFxType) -> Seq<char> {
    match x {
        ModFxType::NoEffect => "none"@,
        ModFxType::Chorus => "chorus"@,
        ModFxType::Flanger => "flanger"@,
        ModFxType::Phaser => "phaser"@,
    }
}

impl ModFxType {
    /// The attribute text this value serializes as.
    pub fn xml_name(&self) -> (r: &'static str)
        ensures
            r@ == spec_mod_fx_type_chars(*self),
    {
        match *self {
            ModFxType::NoEffect => "none",
            ModFxType::Chorus => "chorus",
            ModFxType::Flanger => "flanger",
            ModFxType::Phaser => "phaser",
        }
    }
}

/// The attribute text of a `Source`.
pub open spec fn spec_source_chars(x: Source) -> Seq<char> {
    match x {
        Source::Aftertouch => "aftertouch"@,
        Source::Compressor => "compressor"@,
        Source::Envelope1 => "envelope1"@,
        Source::Envelope2 => "envelope2"@,
        Source::Lfo1 => "lfo1"@,
        Source::Lfo2 => "lfo2"@,
        Source::Note => "note"@,
        Source::Velocity => "velocity"@,
        Source::Random => "random"@,
    }
}

impl Source {
    /// The attribute text this value serializes as.
    pub fn xml_name(&self) -> (r: &'static str)
        ensures
            r@ == spec_source_chars(*self),
    {
        match *self {
            Source::Aftertouch => "aftertouch",
            Source::Compressor => "compressor",
            Source::Envelope1 => "envelope1",
            Source::Envelope2 => "envelope2",
            Source::Lfo1 => "lfo1",
            Source::Lfo2 => "lfo2",
            Source::Note => "note",
            Source::Velocity => "velocity",
            Source::Random => "random",
        }
    }
}

/// The attribute text of a `ArpeggiatorMode`.
pub open spec fn spec_arpeggiator_mode_chars(x: ArpeggiatorMode) -> Seq<char> {
    match x {
        ArpeggiatorMode::Off => "off"@,
    }
}

impl ArpeggiatorMode {
    /// The attribute text this value serializes as.
    pub fn xml_name(&self) -> (r: &'static str)
        ensures
            r@ == spec_arpeggiator_mode_chars(*self),
    {
        match *self {
            ArpeggiatorMode::Off => "off",
        }
    }
}

/// The attribute text of a `Destination`.
pub open spec fn spec_destination_chars(x: Destination) -> Seq<char> {
    match x {
        Destination::ArpRate => "arpRate"@,
        Destination::Bass => "bass"@,
        Destination::BassFreq => "bassFreq"@,
        Destination::BitcrushAmount => "bitcrushAmount"@,
        Destination::Carrier1Feedback => "carrier1Feedback"@,
        Destination::Carrier2Feedback => "carrier2Feedback"@,
        Destination::DelayFeedback => "delayFeedback"@,
        Destination::DelayRate => "delayRate"@,
        Destination::Env1Attack => "env1Attack"@,
        Destination::Env1Decay => "env1Decay"@,
        Destination::Env1Release => "env1Release"@,
        Destination::Env1Sustain => "env1Sustain"@,
        Destination::Env2Attack => "env2Attack"@,
        Destination::Env2Decay => "env2Decay"@,
        Destination::Env2Release => "env2Release"@,
        Destination::Env2Sustain => "env2Sustain"@,
        Destination::HpfFrequency => "hpfFreuency"@,
        Destination::HpfResonance => "hpfResonance"@,
        Destination::Lfo1Rate => "lfo1Rate"@,
        Destination::Lfo2Rate => "lfo2Rate"@,
        Destination::LpfFrequency => "lpfFrequency"@,
        Destination::LpfResonance => "lpfResonance"@,
        Destination::ModFxDepth => "modFXDepth"@,
        Destination::ModFxFeedback => "modFXFeedback"@,
        Destination::ModFxRate => "modFXRate"@,
        Destination::Modulator1Feedback => "modulator1Feedback"@,
        Destination::Modulator1Pitch => "modulator1Pitch"@,
        Destination::Modulator1Volume => "modulator1Volume"@,
        Destination::Modulator2Feedback => "modulator2Feedback"@,
        Destination::Modulator2Pitch => "modulator2Pitch"@,
        Destination::Modulator2Volume => "modulator2Volume"@,
        Destination::NoiseVolume => "noiseVolume"@,
        Destination::Osc1PhaseWidth => "oscAPhaseWidth"@,
        Destination::Osc1Pitch => "oscAPitch"@,
        Destination::Osc1Volume => "oscAVolume"@,
        Destination::Osc2PhaseWidth => "oscBPhaseWidth"@,
        Destination::Osc2Pitch => "oscBPitch"@,
        Destination::Osc2Volume => "oscBVolume"@,
        Destination::Pan => "pan"@,
        Destination::Pitch => "pitch"@,
        Destination::Portamento => "portamento"@,
        Destination::Range => "range"@,
        Destination::ReverbAmount => "reverbAmount"@,
        Destination::SampleRateReduction => "sampleRateReduction"@,
        Destination::StutterRate => "stutterRate"@,
        Destination::Treble => "treble"@,
        Destination::TrebleFreq => "trebleFreq"@,
        Destination::Volume => "volume"@,
        Destination::VolumePostFx => "volumePostFX"@,
        Destination::VolumePostReverbSend => "volumePostReverbSend"@,
    }
}

impl Destination {
    /// The attribute text this value serializes as.
    pub fn xml_name(&self) -> (r: &'static str)
        ensures
            r@ == spec_destination_chars(*self),
    {
        match *self {
            Destination::ArpRate => "arpRate",
            Destination::Bass => "bass",
            Destination::BassFreq => "bassFreq",
            Destination::BitcrushAmount => "bitcrushAmount",
            Destination::Carrier1Feedback => "carrier1Feedback",
            Destination::Carrier2Feedback => "carrier2Feedback",
            Destination::DelayFeedback => "delayFeedback",
            Destination::DelayRate => "delayRate",
            Destination::Env1Attack => "env1Attack",
            Destination::Env1Decay => "env1Decay",
            Destination::Env1Release => "env1Release",
            Destination::Env1Sustain => "env1Sustain",
            Destination::Env2Attack => "env2Attack",
            Destination::Env2Decay => "env2Decay",
            Destination::Env2Release => "env2Release",
            Destination::Env2Sustain => "env2Sustain",
            Destination::HpfFrequency => "hpfFreuency",
            Destination::HpfResonance => "hpfResonance",
            Destination::Lfo1Rate => "lfo1Rate",
            Destination::Lfo2Rate => "lfo2Rate",
            Destination::LpfFrequency => "lpfFrequency",
            Destination::LpfResonance => "lpfResonance",
            Destination::ModFxDepth => "modFXDepth",
            Destination::ModFxFeedback => "modFXFeedback",
            Destination::ModFxRate => "modFXRate",
            Destination::Modulator1Feedback => "modulator1Feedback",
            Destination::Modulator1Pitch => "modulator1Pitch",
            Destination::Modulator1Volume => "modulator1Volume",
            Destination::Modulator2Feedback => "modulator2Feedback",
            Destination::Modulator2Pitch => "modulator2Pitch",
            Destination::Modulator2Volume => "modulator2Volume",
            Destination::NoiseVolume => "noiseVolume",
            Destination::Osc1PhaseWidth => "oscAPhaseWidth",
            Destination::Osc1Pitch => "oscAPitch",
            Destination::Osc1Volume => "oscAVolume",
            Destination::Osc2PhaseWidth => "oscBPhaseWidth",
            Destination::Osc2Pitch => "oscBPitch",
            Destination::Osc2Volume => "oscBVolume",
            Destination::Pan => "pan",
            Destination::Pitch => "pitch",
            Destination::Portamento => "portamento",
            Destination::Range => "range",
            Destination::ReverbAmount => "reverbAmount",
            Destination::SampleRateReduction => "sampleRateReduction",
            Destination::StutterRate => "stutterRate",
            Destination::Treble => "treble",
            Destination::TrebleFreq => "trebleFreq",
            Destination::Volume => "volume",
            Destination::VolumePostFx => "volumePostFX",
            Destination::VolumePostReverbSend => "volumePostReverbSend",
        }
    }
}

/// The attribute text of a polyphony mode: a named mode or a voice count.
pub open spec fn spec_polyphony_chars(p: Polyphony) -> Seq<char> {
    match p {
        Polyphony::Auto => "auto"@,
        Polyphony::Mono => "mono"@,
        Polyphony::Legato => "legato"@,
        Polyphony::Poly => "poly"@,
        Polyphony::Integer(n) => crate::text::dec_digits(n as nat),
    }
}

impl Polyphony {
    /// Appends the attribute text this value serializes as.
    pub fn push_xml_name(&self, s: &mut String)
        ensures
            final(s)@ == old(s)@ + spec_polyphony_chars(*self),
    {
        match *self {
            Polyphony::Auto => s.append("auto"),
            Polyphony::Mono => s.append("mono"),
            Polyphony::Legato => s.append("legato"),
            Polyphony::Poly => s.append("poly"),
            Polyphony::Integer(n) => crate::text::push_dec_u64(s, n as u64),
        }
    }
}


// --- Serialization: attributes and escaping ------------------------------------

/// The serialized form of one character in attribute text.
pub open spec fn spec_escape_char(c: char) -> Seq<char> {
    if c == '&' {
        "&amp;"@
    } else if c == '<' {
        "&lt;"@
    } else if c == '>' {
        "&gt;"@
    } else if c == '"' {
        "&quot;"@
    } else if c == '\'' {
        "&apos;"@
    } else {
        seq![c]
    }
}

/// Attribute text with the five markup characters escaped.
pub open spec fn spec_xml_escape(s: Seq<char>) -> Seq<char>
    decreases s.len(),
{
    if s.len() == 0 {
        Seq::empty()
    } else {
        spec_xml_escape(s.drop_last()) + spec_escape_char(s.last())
    }
}

/// Appends attribute text, escaping markup characters.
fn push_escaped(s: &mut String, v: &str)
    ensures
        final(s)@ == old(s)@ + spec_xml_escape(v@),
{
    let n = v.unicode_len();
    let mut i: usize = 0;
    while i < n
        invariant
            i <= n,
            n == v@.len(),
            s@ == old(s)@ + spec_xml_escape(v@.take(i as int)),
        decreases n - i,
    {
        proof {
            assert(v@.take(i as int + 1).drop_last() =~= v@.take(i as int));
        }
        let c = v.get_char(i);
        if c == '&' {
            s.append("&amp;");
        } else if c == '<' {
            s.append("&lt;");
        } else if c == '>' {
            s.append("&gt;");
        } else if c == '"' {
            s.append("&quot;");
        } else if c == '\'' {
            s.append("&apos;");
        } else {
            crate::text::push_char(s, c);
        }
        i = i + 1;
        assert(s@ =~= old(s)@ + spec_xml_escape(v@.take(i as int)));
    }
    assert(v@.take(n as int) =~= v@);
}

/// A serialized attribute holding a decimal integer.
#[verifier::opaque]
pub open spec fn spec_attr_dec(name: Seq<char>, v: int) -> Seq<char> {
    " "@ + name + "=\""@ + crate::text::dec_int(v) + "\""@
}

/// A serialized attribute holding a normalized value as lowercase hex.
#[verifier::opaque]
pub open spec fn spec_attr_val(name: Seq<char>, v: Value) -> Seq<char> {
    " "@ + name + "=\"0x"@ + crate::text::hex8(v.0) + "\""@
}

/// A serialized attribute holding raw, markup-free text.
#[verifier::opaque]
pub open spec fn spec_attr_raw(name: Seq<char>, v: Seq<char>) -> Seq<char> {
    " "@ + name + "=\""@ + v + "\""@
}

/// A serialized attribute holding escaped text.
#[verifier::opaque]
pub open spec fn spec_attr_text(name: Seq<char>, v: Seq<char>) -> Seq<char> {
    " "@ + name + "=\""@ + spec_xml_escape(v) + "\""@
}

fn push_attr_dec(s: &mut String, name: &str, v: i64)
    ensures
        final(s)@ == old(s)@ + spec_attr_dec(name@, v as int),
{
    proof {
        reveal(spec_attr_dec);
    }
    s.append(" ");
    s.append(name);
    s.append("=\"");
    crate::text::push_dec_i64(s, v);
    s.append("\"");
    assert(s@ =~= old(s)@ + spec_attr_dec(name@, v as int));
}

fn push_attr_val(s: &mut String, name: &str, v: Value)
    ensures
        final(s)@ == old(s)@ + spec_attr_val(name@, v),
{
    proof {
        reveal(spec_attr_val);
    }
    s.append(" ");
    s.append(name);
    s.append("=\"0x");
    crate::text::push_hex8(s, v.0);
    s.append("\"");
    assert(s@ =~= old(s)@ + spec_attr_val(name@, v));
}

fn push_attr_raw(s: &mut String, name: &str, v: &str)
    ensures
        final(s)@ == old(s)@ + spec_attr_raw(name@, v@),
{
    proof {
        reveal(spec_attr_raw);
    }
    s.append(" ");
    s.append(name);
    s.append("=\"");
    s.append(v);
    s.append("\"");
    assert(s@ =~= old(s)@ + spec_attr_raw(name@, v@));
}

fn push_attr_text(s: &mut String, name: &str, v: &str)
    ensures
        final(s)@ == old(s)@ + spec_attr_text(name@, v@),
{
    proof {
        reveal(spec_attr_text);
    }
    s.append(" ");
    s.append(name);
    s.append("=\"");
    push_escaped(s, v);
    s.append("\"");
    assert(s@ =~= old(s)@ + spec_attr_text(name@, v@));
}

// --- Serialization: the elements -------------------------------------------------

/// The serialized playback window.
pub open spec fn spec_zone_xml(z: Zone) -> Seq<char> {
    "<zone"@ + spec_attr_dec("startSamplePos"@, z.start_sample_pos as int) + spec_attr_dec(
        "endSamplePos"@,
        z.end_sample_pos as int,
    ) + (match z.start_loop_pos {
        Some(v) => spec_attr_dec("startLoopPos"@, v as int),
        None => Seq::empty(),
    }) + (match z.end_loop_pos {
        Some(v) => spec_attr_dec("endLoopPos"@, v as int),
        None => Seq::empty(),
    }) + "/>"@
}

fn push_zone_xml(s: &mut String, z: &Zone)
    ensures
        final(s)@ == old(s)@ + spec_zone_xml(*z),
{
    s.append("<zone");
    push_attr_dec(s, "startSamplePos", z.start_sample_pos as i64);
    push_attr_dec(s, "endSamplePos", z.end_sample_pos as i64);
    match z.start_loop_pos {
        Some(v) => push_attr_dec(s, "startLoopPos", v as i64),
        None => (),
    }
    match z.end_loop_pos {
        Some(v) => push_attr_dec(s, "endLoopPos", v as i64),
        None => (),
    }
    s.append("/>");
    assert(s@ =~= old(s)@ + spec_zone_xml(*z));
}

/// One serialized sample range; the upper key bound is present exactly when
/// the range carries one.
pub open spec fn spec_sample_range_xml(r: SampleRangeV) -> Seq<char> {
    "<sampleRange"@ + (match r.range_top_note {
        Some(v) => spec_attr_dec("rangeTopNote"@, v as int),
        None => Seq::empty(),
    }) + (match r.transpose {
        Some(v) => spec_attr_dec("transpose"@, v as int),
        None => Seq::empty(),
    }) + (match r.cents {
        Some(v) => spec_attr_dec("cents"@, v as int),
        None => Seq::empty(),
    }) + (match r.file_name {
        Some(v) => spec_attr_text("fileName"@, v),
        None => Seq::empty(),
    }) + ">"@ + spec_zone_xml(r.zone) + "</sampleRange>"@
}

#[verifier::rlimit(100)]
fn push_sample_range_xml(s: &mut String, r: &SampleRange)
    ensures
        final(s)@ == old(s)@ + spec_sample_range_xml(r@),
{
    s.append("<sampleRange");
    match r.range_top_note {
        Some(v) => push_attr_dec(s, "rangeTopNote", v as i64),
        None => (),
    }
    match r.transpose {
        Some(v) => push_attr_dec(s, "transpose", v as i64),
        None => (),
    }
    match r.cents {
        Some(v) => push_attr_dec(s, "cents", v as i64),
        None => (),
    }
    match &r.file_name {
        Some(v) => push_attr_text(s, "fileName", v.as_str()),
        None => (),
    }
    s.append(">");
    push_zone_xml(s, &r.zone);
    s.append("</sampleRange>");
    assert(s@ =~= old(s)@ + spec_sample_range_xml(r@));
}

/// The serialized ranges of a nested range list, in order.
pub open spec fn spec_ranges_concat(rs: Seq<SampleRangeV>) -> Seq<char>
    decreases rs.len(),
{
    if rs.len() == 0 {
        Seq::empty()
    } else {
        spec_ranges_concat(rs.drop_last()) + spec_sample_range_xml(rs.last())
    }
}

/// The serialized nested range list.
pub open spec fn spec_sample_ranges_xml(rs: Seq<SampleRangeV>) -> Seq<char> {
    "<sampleRanges>"@ + spec_ranges_concat(rs) + "</sampleRanges>"@
}

fn push_sample_ranges_xml(s: &mut String, rs: &SampleRanges)
    ensures
        final(s)@ == old(s)@ + spec_sample_ranges_xml(rs@),
{
    s.append("<sampleRanges>");
    let ghost mid = s@;
    let mut i: usize = 0;
    while i < rs.sample_range.len()
        invariant
            i <= rs.sample_range@.len(),
            s@ == mid + spec_ranges_concat(rs@.take(i as int)),
            rs@ == rs.sample_range@.map_values(|x: SampleRange| x@),
        decreases rs.sample_range@.len() - i,
    {
        proof {
            assert(rs@.take(i as int + 1).drop_last() =~= rs@.take(i as int));
        }
        push_sample_range_xml(s, &rs.sample_range[i]);
        i = i + 1;
        assert(s@ =~= mid + spec_ranges_concat(rs@.take(i as int)));
    }
    assert(rs@.take(rs@.len() as int) =~= rs@);
    s.append("</sampleRanges>");
    assert(s@ =~= old(s)@ + spec_sample_ranges_xml(rs@));
}

/// The leading serialized attributes of an oscillator slot.
pub open spec fn spec_osc_attrs_a(o: OscV) -> Seq<char> {
    spec_attr_raw("type"@, spec_osc_type_chars(o.osc_type)) + (match o.transpose {
        Some(v) => spec_attr_dec("transpose"@, v as int),
        None => Seq::empty(),
    }) + (match o.cents {
        Some(v) => spec_attr_dec("cents"@, v as int),
        None => Seq::empty(),
    }) + (match o.retrig_phase {
        Some(v) => spec_attr_dec("retrigPhase"@, v as int),
        None => Seq::empty(),
    }) + (match o.file_name {
        Some(v) => spec_attr_text("fileName"@, v),
        None => Seq::empty(),
    })
}

/// The trailing serialized attributes of an oscillator slot.
pub open spec fn spec_osc_attrs_b(o: OscV) -> Seq<char> {
    (match o.loop_mode {
        Some(v) => spec_attr_dec("loopMode"@, v as int),
        None => Seq::empty(),
    }) + (match o.reversed {
        Some(v) => spec_attr_dec("reversed"@, v as int),
        None => Seq::empty(),
    }) + (match o.time_stretch_enable {
        Some(v) => spec_attr_dec("timeStretchEnable"@, v as int),
        None => Seq::empty(),
    }) + (match o.time_stretch_amount {
        Some(v) => spec_attr_dec("timeStretchAmount"@, v as int),
        None => Seq::empty(),
    })
}

/// The serialized attributes of an oscillator slot.
pub open spec fn spec_osc_attrs(o: OscV) -> Seq<char> {
    spec_osc_attrs_a(o) + spec_osc_attrs_b(o)
}

#[verifier::rlimit(100)]
fn push_osc_attrs_a(s: &mut String, o: &Osc)
    ensures
        final(s)@ == old(s)@ + spec_osc_attrs_a(o@),
{
    push_attr_raw(s, "type", o.osc_type.xml_name());
    match o.transpose {
        Some(v) => push_attr_dec(s, "transpose", v as i64),
        None => (),
    }
    match o.cents {
        Some(v) => push_attr_dec(s, "cents", v as i64),
        None => (),
    }
    match o.retrig_phase {
        Some(v) => push_attr_dec(s, "retrigPhase", v as i64),
        None => (),
    }
    match &o.file_name {
        Some(v) => push_attr_text(s, "fileName", v.as_str()),
        None => (),
    }
    assert(s@ =~= old(s)@ + spec_osc_attrs_a(o@));
}

#[verifier::rlimit(100)]
fn push_osc_attrs_b(s: &mut String, o: &Osc)
    ensures
        final(s)@ == old(s)@ + spec_osc_attrs_b(o@),
{
    match o.loop_mode {
        Some(v) => push_attr_dec(s, "loopMode", v as i64),
        None => (),
    }
    match o.reversed {
        Some(v) => push_attr_dec(s, "reversed", v as i64),
        None => (),
    }
    match o.time_stretch_enable {
        Some(v) => push_attr_dec(s, "timeStretchEnable", v as i64),
        None => (),
    }
    match o.time_stretch_amount {
        Some(v) => push_attr_dec(s, "timeStretchAmount", v as i64),
        None => (),
    }
    assert(s@ =~= old(s)@ + spec_osc_attrs_b(o@));
}

fn push_osc_attrs(s: &mut String, o: &Osc)
    ensures
        final(s)@ == old(s)@ + spec_osc_attrs(o@),
{
    push_osc_attrs_a(s, o);
    push_osc_attrs_b(s, o);
    assert(s@ =~= old(s)@ + spec_osc_attrs(o@));
}

/// The serialized children of an oscillator slot.
pub open spec fn spec_osc_children(o: OscV) -> Seq<char> {
    (match o.sample_ranges {
        Some(rs) => spec_sample_ranges_xml(rs),
        None => Seq::empty(),
    }) + (match o.zone {
        Some(z) => spec_zone_xml(z),
        None => Seq::empty(),
    })
}

/// One serialized oscillator slot under its element name.
pub open spec fn spec_osc_xml(o: OscV, name: Seq<char>) -> Seq<char> {
    if o.sample_ranges is Some || o.zone is Some {
        "<"@ + name + spec_osc_attrs(o) + ">"@ + spec_osc_children(o) + "</"@ + name + ">"@
    } else {
        "<"@ + name + spec_osc_attrs(o) + "/>"@
    }
}

#[verifier::rlimit(100)]
fn push_osc_xml(s: &mut String, o: &Osc, name: &str)
    ensures
        final(s)@ == old(s)@ + spec_osc_xml(o@, name@),
{
    s.append("<");
    s.append(name);
    push_osc_attrs(s, o);
    let has_children = o.sample_ranges.is_some() || o.zone.is_some();
    if has_children {
        s.append(">");
        match &o.sample_ranges {
            Some(rs) => push_sample_ranges_xml(s, rs),
            None => (),
        }
        match &o.zone {
            Some(z) => push_zone_xml(s, z),
            None => (),
        }
        s.append("</");
        s.append(name);
        s.append(">");
    } else {
        s.append("/>");
    }
    assert(s@ =~= old(s)@ + spec_osc_xml(o@, name@));
}

/// One serialized low-frequency oscillator under its element name.
pub open spec fn spec_lfo_xml(l: Lfo, name: Seq<char>) -> Seq<char> {
    "<"@ + name + spec_attr_raw("type"@, spec_lfo_type_chars(l.lfo_type)) + (match l.sync_level {
        Some(v) => spec_attr_dec("syncLevel"@, v as int),
        None => Seq::empty(),
    }) + "/>"@
}

fn push_lfo_xml(s: &mut String, l: &Lfo, name: &str)
    ensures
        final(s)@ == old(s)@ + spec_lfo_xml(*l, name@),
{
    s.append("<");
    s.append(name);
    push_attr_raw(s, "type", l.lfo_type.xml_name());
    match l.sync_level {
        Some(v) => push_attr_dec(s, "syncLevel", v as i64),
        None => (),
    }
    s.append("/>");
    assert(s@ =~= old(s)@ + spec_lfo_xml(*l, name@));
}

/// The serialized unison settings.
pub open spec fn spec_unison_xml(u: Unison) -> Seq<char> {
    "<unison"@ + spec_attr_dec("num"@, u.num as int) + spec_attr_dec("detune"@, u.detune as int)
        + "/>"@
}

fn push_unison_xml(s: &mut String, u: &Unison)
    ensures
        final(s)@ == old(s)@ + spec_unison_xml(*u),
{
    s.append("<unison");
    push_attr_dec(s, "num", u.num as i64);
    push_attr_dec(s, "detune", u.detune as i64);
    s.append("/>");
    assert(s@ =~= old(s)@ + spec_unison_xml(*u));
}

/// The serialized delay settings.
pub open spec fn spec_delay_xml(d: Delay) -> Seq<char> {
    "<delay"@ + spec_attr_dec("pingPong"@, d.ping_pong as int) + spec_attr_dec(
        "analog"@,
        d.analog as int,
    ) + spec_attr_dec("syncLevel"@, d.sync_level as int) + "/>"@
}

fn push_delay_xml(s: &mut String, d: &Delay)
    ensures
        final(s)@ == old(s)@ + spec_delay_xml(*d),
{
    s.append("<delay");
    push_attr_dec(s, "pingPong", d.ping_pong as i64);
    push_attr_dec(s, "analog", d.analog as i64);
    push_attr_dec(s, "syncLevel", d.sync_level as i64);
    s.append("/>");
    assert(s@ =~= old(s)@ + spec_delay_xml(*d));
}

/// The serialized compressor settings.
pub open spec fn spec_compressor_xml(c: Compressor) -> Seq<char> {
    "<compressor"@ + spec_attr_dec("syncLevel"@, c.sync_level as int) + spec_attr_dec(
        "attack"@,
        c.attack as int,
    ) + spec_attr_dec("release"@, c.release as int) + "/>"@
}

fn push_compressor_xml(s: &mut String, c: &Compressor)
    ensures
        final(s)@ == old(s)@ + spec_compressor_xml(*c),
{
    s.append("<compressor");
    push_attr_dec(s, "syncLevel", c.sync_level as i64);
    push_attr_dec(s, "attack", c.attack as i64);
    push_attr_dec(s, "release", c.release as i64);
    s.append("/>");
    assert(s@ =~= old(s)@ + spec_compressor_xml(*c));
}

/// One serialized envelope under its element name.
pub open spec fn spec_envelope_xml(e: Envelope, name: Seq<char>) -> Seq<char> {
    "<"@ + name + spec_attr_val("attack"@, e.attack) + spec_attr_val("decay"@, e.decay)
        + spec_attr_val("sustain"@, e.sustain) + spec_attr_val("release"@, e.release) + "/>"@
}

fn push_envelope_xml(s: &mut String, e: &Envelope, name: &str)
    ensures
        final(s)@ == old(s)@ + spec_envelope_xml(*e, name@),
{
    s.append("<");
    s.append(name);
    push_attr_val(s, "attack", e.attack);
    push_attr_val(s, "decay", e.decay);
    push_attr_val(s, "sustain", e.sustain);
    push_attr_val(s, "release", e.release);
    s.append("/>");
    assert(s@ =~= old(s)@ + spec_envelope_xml(*e, name@));
}

/// One serialized modulation routing.
pub open spec fn spec_patch_cable_xml(c: PatchCable) -> Seq<char> {
    "<patchCable"@ + spec_attr_raw("source"@, spec_source_chars(c.source)) + spec_attr_raw(
        "destination"@,
        spec_destination_chars(c.destination),
    ) + spec_attr_val("amount"@, c.amount) + "/>"@
}

fn push_patch_cable_xml(s: &mut String, c: &PatchCable)
    ensures
        final(s)@ == old(s)@ + spec_patch_cable_xml(*c),
{
    s.append("<patchCable");
    push_attr_raw(s, "source", c.source.xml_name());
    push_attr_raw(s, "destination", c.destination.xml_name());
    push_attr_val(s, "amount", c.amount);
    s.append("/>");
    assert(s@ =~= old(s)@ + spec_patch_cable_xml(*c));
}

/// The serialized routings, in order.
pub open spec fn spec_cables_concat(cs: Seq<PatchCable>) -> Seq<char>
    decreases cs.len(),
{
    if cs.len() == 0 {
        Seq::empty()
    } else {
        spec_cables_concat(cs.drop_last()) + spec_patch_cable_xml(cs.last())
    }
}

/// The serialized routing list.
pub open spec fn spec_patch_cables_xml(cs: Seq<PatchCable>) -> Seq<char> {
    "<patchCables>"@ + spec_cables_concat(cs) + "</patchCables>"@
}

fn push_patch_cables_xml(s: &mut String, cs: &PatchCables)
    ensures
        final(s)@ == old(s)@ + spec_patch_cables_xml(cs@),
{
    s.append("<patchCables>");
    let ghost mid = s@;
    let mut i: usize = 0;
    while i < cs.patch_cable.len()
        invariant
            i <= cs.patch_cable@.len(),
            s@ == mid + spec_cables_concat(cs.patch_cable@.take(i as int)),
        decreases cs.patch_cable@.len() - i,
    {
        proof {
            assert(cs.patch_cable@.take(i as int + 1).drop_last() =~= cs.patch_cable@.take(
                i as int,
            ));
        }
        push_patch_cable_xml(s, &cs.patch_cable[i]);
        i = i + 1;
        assert(s@ =~= mid + spec_cables_concat(cs.patch_cable@.take(i as int)));
    }
    assert(cs.patch_cable@.take(cs.patch_cable@.len() as int) =~= cs.patch_cable@);
    s.append("</patchCables>");
    assert(s@ =~= old(s)@ + spec_patch_cables_xml(cs@));
}

/// The serialized equalizer settings.
pub open spec fn spec_equalizer_xml(e: Equalizer) -> Seq<char> {
    "<equalizer"@ + spec_attr_val("bass"@, e.bass) + spec_attr_val("treble"@, e.treble)
        + spec_attr_val("bass_frequency"@, e.bass_frequency) + spec_attr_val(
        "treble_frequency"@,
        e.treble_frequency,
    ) + "/>"@
}

fn push_equalizer_xml(s: &mut String, e: &Equalizer)
    ensures
        final(s)@ == old(s)@ + spec_equalizer_xml(*e),
{
    s.append("<equalizer");
    push_attr_val(s, "bass", e.bass);
    push_attr_val(s, "treble", e.treble);
    push_attr_val(s, "bass_frequency", e.bass_frequency);
    push_attr_val(s, "treble_frequency", e.treble_frequency);
    s.append("/>");
    assert(s@ =~= old(s)@ + spec_equalizer_xml(*e));
}

/// The serialized arpeggiator settings.
pub open spec fn spec_arpeggiator_xml(a: Arpeggiator) -> Seq<char> {
    "<arpeggiator"@ + spec_attr_raw("mode"@, spec_arpeggiator_mode_chars(a.mode))
        + spec_attr_dec("numOctaves"@, a.num_octaves as int) + spec_attr_dec(
        "syncLevel"@,
        a.sync_level as int,
    ) + "/>"@
}

fn push_arpeggiator_xml(s: &mut String, a: &Arpeggiator)
    ensures
        final(s)@ == old(s)@ + spec_arpeggiator_xml(*a),
{
    s.append("<arpeggiator");
    push_attr_raw(s, "mode", a.mode.xml_name());
    push_attr_dec(s, "numOctaves", a.num_octaves as i64);
    push_attr_dec(s, "syncLevel", a.sync_level as i64);
    s.append("/>");
    assert(s@ =~= old(s)@ + spec_arpeggiator_xml(*a));
}

/// The serialized MIDI knob list.
pub open spec fn spec_midi_knobs_concat(ks: Seq<MidiKnob>) -> Seq<char>
    decreases ks.len(),
{
    if ks.len() == 0 {
        Seq::empty()
    } else {
        spec_midi_knobs_concat(ks.drop_last()) + "<midiKnob/>"@
    }
}

/// The serialized MIDI knob assignments.
pub open spec fn spec_midi_knobs_xml(ks: Seq<MidiKnob>) -> Seq<char> {
    "<midiKnobs>"@ + spec_midi_knobs_concat(ks) + "</midiKnobs>"@
}

fn push_midi_knobs_xml(s: &mut String, ks: &MidiKnobs)
    ensures
        final(s)@ == old(s)@ + spec_midi_knobs_xml(ks@),
{
    s.append("<midiKnobs>");
    let ghost mid = s@;
    let mut i: usize = 0;
    while i < ks.midi_knob.len()
        invariant
            i <= ks.midi_knob@.len(),
            s@ == mid + spec_midi_knobs_concat(ks.midi_knob@.take(i as int)),
        decreases ks.midi_knob@.len() - i,
    {
        proof {
            assert(ks.midi_knob@.take(i as int + 1).drop_last() =~= ks.midi_knob@.take(
                i as int,
            ));
        }
        s.append("<midiKnob/>");
        i = i + 1;
        assert(s@ =~= mid + spec_midi_knobs_concat(ks.midi_knob@.take(i as int)));
    }
    assert(ks.midi_knob@.take(ks.midi_knob@.len() as int) =~= ks.midi_knob@);
    s.append("</midiKnobs>");
    assert(s@ =~= old(s)@ + spec_midi_knobs_xml(ks@));
}

/// One serialized mod knob assignment.
pub open spec fn spec_mod_knob_xml(k: ModKnob) -> Seq<char> {
    "<modKnob"@ + spec_attr_raw("controlsParam"@, spec_destination_chars(k.controls_param)) + (
    match k.patch_amount_from_source {
        Some(src) => spec_attr_raw("patchAmountFromSource"@, spec_source_chars(src)),
        None => Seq::empty(),
    }) + "/>"@
}

fn push_mod_knob_xml(s: &mut String, k: &ModKnob)
    ensures
        final(s)@ == old(s)@ + spec_mod_knob_xml(*k),
{
    s.append("<modKnob");
    push_attr_raw(s, "controlsParam", k.controls_param.xml_name());
    match k.patch_amount_from_source {
        Some(src) => push_attr_raw(s, "patchAmountFromSource", src.xml_name()),
        None => (),
    }
    s.append("/>");
    assert(s@ =~= old(s)@ + spec_mod_knob_xml(*k));
}

/// The serialized mod knobs, in order.
pub open spec fn spec_mod_knobs_concat(ks: Seq<ModKnob>) -> Seq<char>
    decreases ks.len(),
{
    if ks.len() == 0 {
        Seq::empty()
    } else {
        spec_mod_knobs_concat(ks.drop_last()) + spec_mod_knob_xml(ks.last())
    }
}

/// The serialized mod knob assignments.
pub open spec fn spec_mod_knobs_xml(ks: Seq<ModKnob>) -> Seq<char> {
    "<modKnobs>"@ + spec_mod_knobs_concat(ks) + "</modKnobs>"@
}

fn push_mod_knobs_xml(s: &mut String, ks: &ModKnobs)
    ensures
        final(s)@ == old(s)@ + spec_mod_knobs_xml(ks@),
{
    s.append("<modKnobs>");
    let ghost mid = s@;
    let mut i: usize = 0;
    while i < ks.mod_knob.len()
        invariant
            i <= ks.mod_knob@.len(),
            s@ == mid + spec_mod_knobs_concat(ks.mod_knob@.take(i as int)),
        decreases ks.mod_knob@.len() - i,
    {
        proof {
            assert(ks.mod_knob@.take(i as int + 1).drop_last() =~= ks.mod_knob@.take(i as int));
        }
        push_mod_knob_xml(s, &ks.mod_knob[i]);
        i = i + 1;
        assert(s@ =~= mid + spec_mod_knobs_concat(ks.mod_knob@.take(i as int)));
    }
    assert(ks.mod_knob@.take(ks.mod_knob@.len() as int) =~= ks.mod_knob@);
    s.append("</modKnobs>");
    assert(s@ =~= old(s)@ + spec_mod_knobs_xml(ks@));
}


// --- Serialization: the default parameter block and the patch --------------------

/// Part of the serialized attributes of the default parameter block.
pub open spec fn spec_dp_attrs_a(p: DefaultParamsV) -> Seq<char> {
    spec_attr_val("arpeggiatorGate"@, p.arpeggiator_gate)
        + spec_attr_val("portamento"@, p.portamento)
        + spec_attr_val("compressorShape"@, p.compressor_shape)
        + spec_attr_val("oscAVolume"@, p.osc1_volume)
        + spec_attr_val("oscAPulseWidth"@, p.osc1_pulse_width)
        + spec_attr_val("oscBVolume"@, p.osc2_volume)
        + spec_attr_val("oscBPulseWidth"@, p.osc2_pulse_width)
        + spec_attr_val("noiseVolume"@, p.noise_volume)
        + spec_attr_val("volume"@, p.volume)
}

#[verifier::rlimit(100)]
fn push_dp_attrs_a(s: &mut String, p: &DefaultParams)
    ensures
        final(s)@ == old(s)@ + spec_dp_attrs_a(p@),
{
    push_attr_val(s, "arpeggiatorGate", p.arpeggiator_gate);
    push_attr_val(s, "portamento", p.portamento);
    push_attr_val(s, "compressorShape", p.compressor_shape);
    push_attr_val(s, "oscAVolume", p.osc1_volume);
    push_attr_val(s, "oscAPulseWidth", p.osc1_pulse_width);
    push_attr_val(s, "oscBVolume", p.osc2_volume);
    push_attr_val(s, "oscBPulseWidth", p.osc2_pulse_width);
    push_attr_val(s, "noiseVolume", p.noise_volume);
    push_attr_val(s, "volume", p.volume);
    assert(s@ =~= old(s)@ + spec_dp_attrs_a(p@));
}

/// Part of the serialized attributes of the default parameter block.
pub open spec fn spec_dp_attrs_b(p: DefaultParamsV) -> Seq<char> {
    spec_attr_val("pan"@, p.pan)
        + spec_attr_val("lpfFrequency"@, p.lpf_frequency)
        + spec_attr_val("lpfResonance"@, p.lpf_resonance)
        + spec_attr_val("hpfFrequency"@, p.hpf_frequency)
        + spec_attr_val("hpfResonance"@, p.hpf_resonance)
        + spec_attr_val("lfo1Rate"@, p.lfo1_rate)
        + spec_attr_val("lfo2Rate"@, p.lfo2_rate)
        + spec_attr_val("modulator1Amount"@, p.modulator1_amount)
}

#[verifier::rlimit(100)]
fn push_dp_attrs_b(s: &mut String, p: &DefaultParams)
    ensures
        final(s)@ == old(s)@ + spec_dp_attrs_b(p@),
{
    push_attr_val(s, "pan", p.pan);
    push_attr_val(s, "lpfFrequency", p.lpf_frequency);
    push_attr_val(s, "lpfResonance", p.lpf_resonance);
    push_attr_val(s, "hpfFrequency", p.hpf_frequency);
    push_attr_val(s, "hpfResonance", p.hpf_resonance);
    push_attr_val(s, "lfo1Rate", p.lfo1_rate);
    push_attr_val(s, "lfo2Rate", p.lfo2_rate);
    push_attr_val(s, "modulator1Amount", p.modulator1_amount);
    assert(s@ =~= old(s)@ + spec_dp_attrs_b(p@));
}

/// Part of the serialized attributes of the default parameter block.
pub open spec fn spec_dp_attrs_c(p: DefaultParamsV) -> Seq<char> {
    spec_attr_val("modulator1Feedback"@, p.modulator1_feedback)
        + spec_attr_val("modulator2Amount"@, p.modulator2_amount)
        + spec_attr_val("modulator2Feedback"@, p.modulator2_feedback)
        + spec_attr_val("carrier1Feedback"@, p.carrier1_feedback)
        + spec_attr_val("carrier2Feedback"@, p.carrier2_feedback)
        + spec_attr_val("modFXRate"@, p.mod_fx_rate)
        + spec_attr_val("modFXDepth"@, p.mod_fx_depth)
        + spec_attr_val("delayRate"@, p.delay_rate)
}

#[verifier::rlimit(100)]
fn push_dp_attrs_c(s: &mut String, p: &DefaultParams)
    ensures
        final(s)@ == old(s)@ + spec_dp_attrs_c(p@),
{
    push_attr_val(s, "modulator1Feedback", p.modulator1_feedback);
    push_attr_val(s, "modulator2Amount", p.modulator2_amount);
    push_attr_val(s, "modulator2Feedback", p.modulator2_feedback);
    push_attr_val(s, "carrier1Feedback", p.carrier1_feedback);
    push_attr_val(s, "carrier2Feedback", p.carrier2_feedback);
    push_attr_val(s, "modFXRate", p.mod_fx_rate);
    push_attr_val(s, "modFXDepth", p.mod_fx_depth);
    push_attr_val(s, "delayRate", p.delay_rate);
    assert(s@ =~= old(s)@ + spec_dp_attrs_c(p@));
}

/// Part of the serialized attributes of the default parameter block.
pub open spec fn spec_dp_attrs_d(p: DefaultParamsV) -> Seq<char> {
    spec_attr_val("delayFeedback"@, p.delay_feedback)
        + spec_attr_val("reverbAmount"@, p.reverb_amount)
        + spec_attr_val("arpeggiatorRate"@, p.arpeggiator_rate)
        + spec_attr_val("stutterRate"@, p.stutter_rate)
        + spec_attr_val("sampleRateReduction"@, p.sample_rate_reduction)
        + spec_attr_val("bitCrush"@, p.bitcrush)
        + spec_attr_val("modFXOffset"@, p.mod_fx_offset)
        + spec_attr_val("modFXFeedback"@, p.mod_fx_feedback)
}

#[verifier::rlimit(100)]
fn push_dp_attrs_d(s: &mut String, p: &DefaultParams)
    ensures
        final(s)@ == old(s)@ + spec_dp_attrs_d(p@),
{
    push_attr_val(s, "delayFeedback", p.delay_feedback);
    push_attr_val(s, "reverbAmount", p.reverb_amount);
    push_attr_val(s, "arpeggiatorRate", p.arpeggiator_rate);
    push_attr_val(s, "stutterRate", p.stutter_rate);
    push_attr_val(s, "sampleRateReduction", p.sample_rate_reduction);
    push_attr_val(s, "bitCrush", p.bitcrush);
    push_attr_val(s, "modFXOffset", p.mod_fx_offset);
    push_attr_val(s, "modFXFeedback", p.mod_fx_feedback);
    assert(s@ =~= old(s)@ + spec_dp_attrs_d(p@));
}

/// The serialized attributes of the default parameter block.
pub open spec fn spec_dp_attrs(p: DefaultParamsV) -> Seq<char> {
    spec_dp_attrs_a(p) + spec_dp_attrs_b(p) + spec_dp_attrs_c(p) + spec_dp_attrs_d(p)
}

fn push_dp_attrs(s: &mut String, p: &DefaultParams)
    ensures
        final(s)@ == old(s)@ + spec_dp_attrs(p@),
{
    push_dp_attrs_a(s, p);
    push_dp_attrs_b(s, p);
    push_dp_attrs_c(s, p);
    push_dp_attrs_d(s, p);
    assert(s@ =~= old(s)@ + spec_dp_attrs(p@));
}

/// The serialized children of the default parameter block.
pub open spec fn spec_dp_children(p: DefaultParamsV) -> Seq<char> {
    spec_envelope_xml(p.envelope1, "envelope1"@) + spec_envelope_xml(p.envelope2, "envelope2"@)
        + spec_patch_cables_xml(p.patch_cables) + spec_equalizer_xml(p.equalizer)
}

fn push_dp_children(s: &mut String, p: &DefaultParams)
    ensures
        final(s)@ == old(s)@ + spec_dp_children(p@),
{
    push_envelope_xml(s, &p.envelope1, "envelope1");
    push_envelope_xml(s, &p.envelope2, "envelope2");
    push_patch_cables_xml(s, &p.patch_cables);
    push_equalizer_xml(s, &p.equalizer);
    assert(s@ =~= old(s)@ + spec_dp_children(p@));
}

/// The serialized default parameter block: its normalized values as
/// attributes, then the two envelopes, the routing list and the equalizer.
pub open spec fn spec_default_params_xml(p: DefaultParamsV) -> Seq<char> {
    "<defaultParams"@ + spec_dp_attrs(p) + ">"@ + spec_dp_children(p) + "</defaultParams>"@
}

fn push_default_params_xml(s: &mut String, p: &DefaultParams)
    ensures
        final(s)@ == old(s)@ + spec_default_params_xml(p@),
{
    s.append("<defaultParams");
    push_dp_attrs(s, p);
    s.append(">");
    push_dp_children(s, p);
    s.append("</defaultParams>");
    assert(s@ =~= old(s)@ + spec_default_params_xml(p@));
}

/// The serialized attributes of the patch root element.
pub open spec fn spec_sound_attrs(v: SoundV) -> Seq<char> {
    (match v.firmware_version {
        Some(f) => spec_attr_text("firmwareVersion"@, f),
        None => Seq::empty(),
    }) + (match v.earliest_compatible_firmware {
        Some(f) => spec_attr_text("earliestCompatibleFirmware"@, f),
        None => Seq::empty(),
    }) + spec_attr_raw("polyphonic"@, spec_polyphony_chars(v.polyphonic)) + (match
        v.clipping_amount {
        Some(c) => spec_attr_dec("clippingAmount"@, c as int),
        None => Seq::empty(),
    }) + spec_attr_dec("voicePriority"@, v.voice_priority as int) + spec_attr_raw(
        "mode"@,
        spec_mode_chars(v.mode),
    ) + (match v.lpf_mode {
        Some(m) => spec_attr_raw("lpfMode"@, spec_lpf_mode_chars(m)),
        None => Seq::empty(),
    }) + spec_attr_raw("modFXType"@, spec_mod_fx_type_chars(v.mod_fx_type))
}

/// The leading serialized children of the patch root element.
pub open spec fn spec_sound_children_a(v: SoundV) -> Seq<char> {
    spec_osc_xml(v.osc1, "osc1"@) + spec_osc_xml(v.osc2, "osc2"@) + spec_lfo_xml(v.lfo1, "lfo1"@)
        + spec_lfo_xml(v.lfo2, "lfo2"@) + spec_unison_xml(v.unison) + spec_delay_xml(v.delay)
}

/// The trailing serialized children of the patch root element.
pub open spec fn spec_sound_children_b(v: SoundV) -> Seq<char> {
    (match v.compressor {
        Some(c) => spec_compressor_xml(c),
        None => Seq::empty(),
    }) + spec_default_params_xml(v.default_params) + spec_arpeggiator_xml(v.arpeggiator) + (
    match v.midi_knobs {
        Some(ks) => spec_midi_knobs_xml(ks),
        None => Seq::empty(),
    }) + spec_mod_knobs_xml(v.mod_knobs)
}

/// The serialized children of the patch root element.
pub open spec fn spec_sound_children(v: SoundV) -> Seq<char> {
    spec_sound_children_a(v) + spec_sound_children_b(v)
}

/// The serialized patch document: an XML declaration and one `sound` element
/// holding the top-level attributes, the two oscillator slots and the other
/// settings blocks, with no insignificant whitespace.
pub open spec fn spec_sound_xml(v: SoundV) -> Seq<char> {
    "<?xml version=\"1.0\" encoding=\"UTF-8\"?>"@ + "<sound"@ + spec_sound_attrs(v) + ">"@
        + spec_sound_children(v) + "</sound>"@
}

fn push_attr_polyphonic(s: &mut String, p: Polyphony)
    ensures
        final(s)@ == old(s)@ + spec_attr_raw("polyphonic"@, spec_polyphony_chars(p)),
{
    proof {
        reveal(spec_attr_raw);
    }
    s.append(" ");
    s.append("polyphonic");
    s.append("=\"");
    p.push_xml_name(s);
    s.append("\"");
    assert(s@ =~= old(s)@ + spec_attr_raw("polyphonic"@, spec_polyphony_chars(p)));
}

#[verifier::rlimit(100)]
fn push_sound_attrs(s: &mut String, v: &Sound)
    ensures
        final(s)@ == old(s)@ + spec_sound_attrs(v@),
{
    match &v.firmware_version {
        Some(f) => push_attr_text(s, "firmwareVersion", f.as_str()),
        None => (),
    }
    match &v.earliest_compatible_firmware {
        Some(f) => push_attr_text(s, "earliestCompatibleFirmware", f.as_str()),
        None => (),
    }
    push_attr_polyphonic(s, v.polyphonic);
    match v.clipping_amount {
        Some(c) => push_attr_dec(s, "clippingAmount", c as i64),
        None => (),
    }
    push_attr_dec(s, "voicePriority", v.voice_priority as i64);
    push_attr_raw(s, "mode", v.mode.xml_name());
    match v.lpf_mode {
        Some(m) => push_attr_raw(s, "lpfMode", m.xml_name()),
        None => (),
    }
    push_attr_raw(s, "modFXType", v.mod_fx_type.xml_name());
    assert(s@ =~= old(s)@ + spec_sound_attrs(v@));
}

#[verifier::rlimit(100)]
fn push_sound_children_a(s: &mut String, v: &Sound)
    ensures
        final(s)@ == old(s)@ + spec_sound_children_a(v@),
{
    push_osc_xml(s, &v.osc1, "osc1");
    push_osc_xml(s, &v.osc2, "osc2");
    push_lfo_xml(s, &v.lfo1, "lfo1");
    push_lfo_xml(s, &v.lfo2, "lfo2");
    push_unison_xml(s, &v.unison);
    push_delay_xml(s, &v.delay);
    assert(s@ =~= old(s)@ + spec_sound_children_a(v@));
}

#[verifier::rlimit(100)]
fn push_sound_children_b(s: &mut String, v: &Sound)
    ensures
        final(s)@ == old(s)@ + spec_sound_children_b(v@),
{
    match &v.compressor {
        Some(c) => push_compressor_xml(s, c),
        None => (),
    }
    push_default_params_xml(s, &v.default_params);
    push_arpeggiator_xml(s, &v.arpeggiator);
    match &v.midi_knobs {
        Some(ks) => push_midi_knobs_xml(s, ks),
        None => (),
    }
    push_mod_knobs_xml(s, &v.mod_knobs);
    assert(s@ =~= old(s)@ + spec_sound_children_b(v@));
}

fn push_sound_children(s: &mut String, v: &Sound)
    ensures
        final(s)@ == old(s)@ + spec_sound_children(v@),
{
    push_sound_children_a(s, v);
    push_sound_children_b(s, v);
    assert(s@ =~= old(s)@ + spec_sound_children(v@));
}

impl Sound {
    /// Serializes the whole patch as the Deluge's attribute-based XML
    /// document.
    pub fn to_xml(&self) -> (r: String)
        ensures
            r@ == spec_sound_xml(self@),
    {
        let mut s = String::new();
        s.append("<?xml version=\"1.0\" encoding=\"UTF-8\"?>");
        s.append("<sound");
        push_sound_attrs(&mut s, self);
        s.append(">");
        push_sound_children(&mut s, self);
        s.append("</sound>");
        assert(s@ =~= spec_sound_xml(self@));
        s
    }
}



} // verus!
