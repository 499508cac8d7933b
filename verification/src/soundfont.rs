//! The SoundFont bank model: chunk walking over the RIFF-style container,
//! fixed-layout record decoding, and the generator/modulator codecs.

use vstd::prelude::*;
use vstd::utf8::{valid_utf8, decode_utf8};
use crate::text::utf8_to_string;

verus! {

// --- Little-endian scalar fields -------------------------------------------

/// A 16-bit little-endian field.
pub open spec fn spec_u16_le(lo: u8, hi: u8) -> u16 {
    (lo + hi * 0x100) as u16
}

/// A 32-bit little-endian field.
pub open spec fn spec_u32_le(b0: u8, b1: u8, b2: u8, b3: u8) -> u32 {
    (b0 + b1 * 0x100 + b2 * 0x1_0000 + b3 * 0x100_0000) as u32
}

/// A signed 16-bit little-endian field.
pub open spec fn spec_i16_le(lo: u8, hi: u8) -> i16 {
    if lo + hi * 0x100 < 0x8000 {
        (lo + hi * 0x100) as i16
    } else {
        (lo + hi * 0x100 - 0x1_0000) as i16
    }
}

/// A signed byte field.
pub open spec fn spec_i8(b: u8) -> i8 {
    if b < 0x80 {
        b as i8
    } else {
        (b - 0x100) as i8
    }
}

fn u16_le(lo: u8, hi: u8) -> (r: u16)
    ensures
        r == spec_u16_le(lo, hi),
{
    lo as u16 + hi as u16 * 0x100
}

fn u32_le(b0: u8, b1: u8, b2: u8, b3: u8) -> (r: u32)
    ensures
        r == spec_u32_le(b0, b1, b2, b3),
{
    b0 as u32 + b1 as u32 * 0x100 + b2 as u32 * 0x1_0000 + b3 as u32 * 0x100_0000
}

fn i16_le(lo: u8, hi: u8) -> (r: i16)
    ensures
        r == spec_i16_le(lo, hi),
{
    let u: u32 = lo as u32 + hi as u32 * 0x100;
    if u < 0x8000 {
        u as i16
    } else {
        (u as i32 - 0x1_0000) as i16
    }
}

fn i8_of(b: u8) -> (r: i8)
    ensures
        r == spec_i8(b),
{
    if b < 0x80 {
        b as i8
    } else {
        (b as i16 - 0x100) as i8
    }
}

// --- Fixed-width name fields -----------------------------------------------

/// The index of the first null byte, or the length when none occurs.
pub open spec fn first_null(b: Seq<u8>) -> int
    decreases b.len(),
{
    if b.len() == 0 {
        0
    } else if b[0] == 0 {
        0
    } else {
        1 + first_null(b.drop_first())
    }
}

proof fn lemma_first_null_at(b: Seq<u8>, k: int)
    requires
        0 <= k <= b.len(),
        forall|j: int| 0 <= j < k ==> b[j] != 0,
        k < b.len() ==> b[k] == 0,
    ensures
        first_null(b) == k,
    decreases b.len(),
{
    if b.len() != 0 && b[0] != 0 {
        lemma_first_null_at(b.drop_first(), k - 1);
    }
}

/// A fixed-width name field: the bytes before the first null, decoded as
/// UTF-8 text, or a sentinel on invalid encoding.
pub open spec fn spec_name_field(b: Seq<u8>) -> Seq<char> {
    let p = b.take(first_null(b));
    if valid_utf8(p) {
        decode_utf8(p)
    } else {
        "<invalid>"@
    }
}

/// Decodes the 20-byte name slot at `start`.
fn decode_name_field(d: &Vec<u8>, start: usize) -> (r: String)
    requires
        start + 20 <= d@.len(),
    ensures
        r@ == spec_name_field(d@.subrange(start as int, start as int + 20)),
{
    let ghost b = d@.subrange(start as int, start as int + 20);
    let n = d.len();
    let mut pre: Vec<u8> = Vec::new();
    let mut i: usize = 0;
    while i < 20 && d[start + i] != 0
        invariant
            start + 20 <= n,
            n == d@.len(),
            b == d@.subrange(start as int, start as int + 20),
            0 <= i <= 20,
            pre@ == b.take(i as int),
            forall|j: int| 0 <= j < i ==> b[j] != 0,
        decreases 20 - i,
    {
        pre.push(d[start + i]);
        i = i + 1;
        assert(pre@ =~= b.take(i as int));
    }
    proof {
        lemma_first_null_at(b, i as int);
    }
    match utf8_to_string(&pre) {
        Some(s) => s,
        None => "<invalid>".to_owned(),
    }
}

// --- The generator codec ---------------------------------------------------

/// A sample's loop mode.
#[derive(Clone, Copy, Debug, PartialEq, Eq, Structural)]
pub enum LoopMode {
    NoLoop,
    ContinuousLoop,
    ReleaseLoop,
}

/// A raw generator record: a 16-bit operator and its two payload bytes.
#[derive(Clone, Copy, Debug, PartialEq, Eq)]
pub struct GeneratorData {
    pub oper: u16,
    pub amount: [u8; 2],
}

/// One typed zone parameter, keyed by the generator operator. Operators not
/// in the table decode to `Unused` so that decoding never aborts on an
/// unknown opcode.
#[derive(Clone, Copy, Debug, PartialEq, Eq, Structural)]
pub enum Generator {
    StartAddrsOffset(i16),
    EndAddrsOffset(i16),
    StartloopAddrsOffset(i16),
    EndloopAddrsOffset(i16),
    StartAddrsCoarseOffset(i16),
    ModLfoToPitch(i16),
    VibLfoToPitch(i16),
    ModEnvToPitch(i16),
    InitialFilterFc(i16),
    InitialFilterQ(i16),
    ModLfoToFilterFc(i16),
    ModEnvToFilterFc(i16),
    EndAddrsCoarseOffset(i16),
    ModLfoToVolume(i16),
    ChorusEffectsSend(i16),
    ReverbEffectsSend(i16),
    Pan(i16),
    DelayModLFO(i16),
    FreqModLFO(i16),
    DelayVibLFO(i16),
    FreqVibLFO(i16),
    DelayModEnv(i16),
    AttackModEnv(i16),
    HoldModEnv(i16),
    DecayModEnv(i16),
    SustainModEnv(i16),
    ReleaseModEnv(i16),
    KeynumToModEnvHold(i16),
    KeynumToModEnvDecay(i16),
    DelayVolEnv(i16),
    SustainVolEnv(i16),
    AttackVolEnv(i16),
    HoldVolEnv(i16),
    DecayVolEnv(i16),
    ReleaseVolEnv(i16),
    KeynumToVolEnvHold(i16),
    KeynumToVolEnvDecay(i16),
    Instrument(u16),
    KeyRange(u8, u8),
    VelRange(u8, u8),
    StartloopAddrsCoarseOffset(i16),
    Keynum(i16),
    Velocity(i16),
    InitialAttenuation(i16),
    EndloopAddrsCoarseOffset(i16),
    CoarseTune(i16),
    FineTune(i16),
    SampleID(u16),
    SampleModes(LoopMode),
    ScaleTuning(i16),
    ExclusiveClass(i16),
    OverridingRootKey(i16),
    EndOper,
    Unused,
}

/// The loop mode encoded in a sampleModes payload byte.
pub open spec fn spec_loop_mode(b: u8) -> LoopMode {
    if b == 1 {
        LoopMode::ContinuousLoop
    } else if b == 3 {
        LoopMode::ReleaseLoop
    } else {
        LoopMode::NoLoop
    }
}

/// The generator variant for an operator code and its two payload bytes.
#[verifier::opaque]
pub open spec fn spec_parse_generator(v: u16, a0: u8, a1: u8) -> Generator {
    if v == 0 { Generator::StartAddrsOffset(spec_i16_le(a0, a1)) }
    else if v == 1 { Generator::EndAddrsOffset(spec_i16_le(a0, a1)) }
    else if v == 2 { Generator::StartloopAddrsOffset(spec_i16_le(a0, a1)) }
    else if v == 3 { Generator::EndloopAddrsOffset(spec_i16_le(a0, a1)) }
    else if v == 4 { Generator::StartAddrsCoarseOffset(spec_i16_le(a0, a1)) }
    else if v == 5 { Generator::ModLfoToPitch(spec_i16_le(a0, a1)) }
    else if v == 6 { Generator::VibLfoToPitch(spec_i16_le(a0, a1)) }
    else if v == 7 { Generator::ModEnvToPitch(spec_i16_le(a0, a1)) }
    else if v == 8 { Generator::InitialFilterFc(spec_i16_le(a0, a1)) }
    else if v == 9 { Generator::InitialFilterQ(spec_i16_le(a0, a1)) }
    else if v == 10 { Generator::ModLfoToFilterFc(spec_i16_le(a0, a1)) }
    else if v == 11 { Generator::ModEnvToFilterFc(spec_i16_le(a0, a1)) }
    else if v == 12 { Generator::EndAddrsCoarseOffset(spec_i16_le(a0, a1)) }
    else if v == 13 { Generator::ModLfoToVolume(spec_i16_le(a0, a1)) }
    else if v == 15 { Generator::ChorusEffectsSend(spec_i16_le(a0, a1)) }
    else if v == 16 { Generator::ReverbEffectsSend(spec_i16_le(a0, a1)) }
    else if v == 17 { Generator::Pan(spec_i16_le(a0, a1)) }
    else if v == 21 { Generator::DelayModLFO(spec_i16_le(a0, a1)) }
    else if v == 22 { Generator::FreqModLFO(spec_i16_le(a0, a1)) }
    else if v == 23 { Generator::DelayVibLFO(spec_i16_le(a0, a1)) }
    else if v == 24 { Generator::FreqVibLFO(spec_i16_le(a0, a1)) }
    else if v == 25 { Generator::DelayModEnv(spec_i16_le(a0, a1)) }
    else if v == 26 { Generator::AttackModEnv(spec_i16_le(a0, a1)) }
    else if v == 27 { Generator::HoldModEnv(spec_i16_le(a0, a1)) }
    else if v == 28 { Generator::DecayModEnv(spec_i16_le(a0, a1)) }
    else if v == 29 { Generator::SustainModEnv(spec_i16_le(a0, a1)) }
    else if v == 30 { Generator::ReleaseModEnv(spec_i16_le(a0, a1)) }
    else if v == 31 { Generator::KeynumToModEnvHold(spec_i16_le(a0, a1)) }
    else if v == 32 { Generator::KeynumToModEnvDecay(spec_i16_le(a0, a1)) }
    else if v == 33 { Generator::DelayVolEnv(spec_i16_le(a0, a1)) }
    else if v == 34 { Generator::AttackVolEnv(spec_i16_le(a0, a1)) }
    else if v == 35 { Generator::HoldVolEnv(spec_i16_le(a0, a1)) }
    else if v == 36 { Generator::DecayVolEnv(spec_i16_le(a0, a1)) }
    else if v == 37 { Generator::SustainVolEnv(spec_i16_le(a0, a1)) }
    else if v == 38 { Generator::ReleaseVolEnv(spec_i16_le(a0, a1)) }
    else if v == 39 { Generator::KeynumToVolEnvHold(spec_i16_le(a0, a1)) }
    else if v == 40 { Generator::KeynumToVolEnvDecay(spec_i16_le(a0, a1)) }
    else if v == 41 { Generator::Instrument(spec_u16_le(a0, a1)) }
    else if v == 43 { Generator::KeyRange(a0, a1) }
    else if v == 44 { Generator::VelRange(a0, a1) }
    else if v == 45 { Generator::StartloopAddrsCoarseOffset(spec_i16_le(a0, a1)) }
    else if v == 46 { Generator::Keynum(spec_i16_le(a0, a1)) }
    else if v == 47 { Generator::Velocity(spec_i16_le(a0, a1)) }
    else if v == 48 { Generator::InitialAttenuation(spec_i16_le(a0, a1)) }
    else if v == 50 { Generator::EndloopAddrsCoarseOffset(spec_i16_le(a0, a1)) }
    else if v == 51 { Generator::CoarseTune(spec_i16_le(a0, a1)) }
    else if v == 52 { Generator::FineTune(spec_i16_le(a0, a1)) }
    else if v == 53 { Generator::SampleID(spec_u16_le(a0, a1)) }
    else if v == 54 { Generator::SampleModes(spec_loop_mode(a0)) }
    else if v == 56 { Generator::ScaleTuning(spec_i16_le(a0, a1)) }
    else if v == 57 { Generator::ExclusiveClass(spec_i16_le(a0, a1)) }
    else if v == 58 { Generator::OverridingRootKey(spec_i16_le(a0, a1)) }
    else if v == 60 { Generator::EndOper }
    else { Generator::Unused }
}

/// Maps an operator code and payload to its typed generator variant.
pub fn parse_generator(v: u16, a: [u8; 2]) -> (r: Generator)
    ensures
        r == spec_parse_generator(v, a[0], a[1]),
{
    proof {
        reveal(spec_parse_generator);
    }
    let a0 = a[0];
    let a1 = a[1];
    match v {
        0 => Generator::StartAddrsOffset(i16_le(a0, a1)),
        1 => Generator::EndAddrsOffset(i16_le(a0, a1)),
        2 => Generator::StartloopAddrsOffset(i16_le(a0, a1)),
        3 => Generator::EndloopAddrsOffset(i16_le(a0, a1)),
        4 => Generator::StartAddrsCoarseOffset(i16_le(a0, a1)),
        5 => Generator::ModLfoToPitch(i16_le(a0, a1)),
        6 => Generator::VibLfoToPitch(i16_le(a0, a1)),
        7 => Generator::ModEnvToPitch(i16_le(a0, a1)),
        8 => Generator::InitialFilterFc(i16_le(a0, a1)),
        9 => Generator::InitialFilterQ(i16_le(a0, a1)),
        10 => Generator::ModLfoToFilterFc(i16_le(a0, a1)),
        11 => Generator::ModEnvToFilterFc(i16_le(a0, a1)),
        12 => Generator::EndAddrsCoarseOffset(i16_le(a0, a1)),
        13 => Generator::ModLfoToVolume(i16_le(a0, a1)),
        15 => Generator::ChorusEffectsSend(i16_le(a0, a1)),
        16 => Generator::ReverbEffectsSend(i16_le(a0, a1)),
        17 => Generator::Pan(i16_le(a0, a1)),
        21 => Generator::DelayModLFO(i16_le(a0, a1)),
        22 => Generator::FreqModLFO(i16_le(a0, a1)),
        23 => Generator::DelayVibLFO(i16_le(a0, a1)),
        24 => Generator::FreqVibLFO(i16_le(a0, a1)),
        25 => Generator::DelayModEnv(i16_le(a0, a1)),
        26 => Generator::AttackModEnv(i16_le(a0, a1)),
        27 => Generator::HoldModEnv(i16_le(a0, a1)),
        28 => Generator::DecayModEnv(i16_le(a0, a1)),
        29 => Generator::SustainModEnv(i16_le(a0, a1)),
        30 => Generator::ReleaseModEnv(i16_le(a0, a1)),
        31 => Generator::KeynumToModEnvHold(i16_le(a0, a1)),
        32 => Generator::KeynumToModEnvDecay(i16_le(a0, a1)),
        33 => Generator::DelayVolEnv(i16_le(a0, a1)),
        34 => Generator::AttackVolEnv(i16_le(a0, a1)),
        35 => Generator::HoldVolEnv(i16_le(a0, a1)),
        36 => Generator::DecayVolEnv(i16_le(a0, a1)),
        37 => Generator::SustainVolEnv(i16_le(a0, a1)),
        38 => Generator::ReleaseVolEnv(i16_le(a0, a1)),
        39 => Generator::KeynumToVolEnvHold(i16_le(a0, a1)),
        40 => Generator::KeynumToVolEnvDecay(i16_le(a0, a1)),
        41 => Generator::Instrument(u16_le(a0, a1)),
        43 => Generator::KeyRange(a0, a1),
        44 => Generator::VelRange(a0, a1),
        45 => Generator::StartloopAddrsCoarseOffset(i16_le(a0, a1)),
        46 => Generator::Keynum(i16_le(a0, a1)),
        47 => Generator::Velocity(i16_le(a0, a1)),
        48 => Generator::InitialAttenuation(i16_le(a0, a1)),
        50 => Generator::EndloopAddrsCoarseOffset(i16_le(a0, a1)),
        51 => Generator::CoarseTune(i16_le(a0, a1)),
        52 => Generator::FineTune(i16_le(a0, a1)),
        53 => Generator::SampleID(u16_le(a0, a1)),
        54 => Generator::SampleModes(
            if a0 == 1 {
                LoopMode::ContinuousLoop
            } else if a0 == 3 {
                LoopMode::ReleaseLoop
            } else {
                LoopMode::NoLoop
            },
        ),
        56 => Generator::ScaleTuning(i16_le(a0, a1)),
        57 => Generator::ExclusiveClass(i16_le(a0, a1)),
        58 => Generator::OverridingRootKey(i16_le(a0, a1)),
        60 => Generator::EndOper,
        _ => Generator::Unused,
    }
}

// --- The modulator codec ---------------------------------------------------

/// The controller a modulator source reads.
#[derive(Clone, Copy, Debug, PartialEq, Eq, Structural)]
pub enum SourceEnumeratorController {
    NoController,
    NoteOnVelocity,
    NoteOnKeyNumber,
    PolyPressure,
    ChannelPressure,
    PitchWheel,
    PitchWheelSensitivity,
    Link,
    MidiCC(u8),
}

/// The curve shape of a modulator source.
#[derive(Clone, Copy, Debug, PartialEq, Eq, Structural)]
pub enum SourceType {
    Linear,
    Concave,
    Convex,
    Switch,
}

/// The direction of a modulator source.
#[derive(Clone, Copy, Debug, PartialEq, Eq, Structural)]
pub enum SourceDirection {
    Forward,
    Reverse,
}

/// The polarity of a modulator source.
#[derive(Clone, Copy, Debug, PartialEq, Eq, Structural)]
pub enum SourcePolarity {
    Unipolar,
    Bipolar,
}

/// The transform applied to a modulator's output.
#[derive(Clone, Copy, Debug, PartialEq, Eq, Structural)]
pub enum ModularTransform {
    Linear,
    AbsoluteValue,
}

/// A decoded modulator source field.
#[derive(Clone, Copy, Debug, PartialEq, Eq, Structural)]
pub struct Modulator {
    pub continuity: SourceType,
    pub polarity: SourcePolarity,
    pub direction: SourceDirection,
    pub index: SourceEnumeratorController,
}

/// The modulator encoded in a source field, or nothing when the field uses a
/// reserved curve type or controller index.
#[verifier::opaque]
pub open spec fn spec_parse_modulator(v: u16) -> Option<Modulator> {
    let t = v / 1024;
    let continuity = if t == 0 {
        Some(SourceType::Linear)
    } else if t == 1 {
        Some(SourceType::Concave)
    } else if t == 2 {
        Some(SourceType::Convex)
    } else if t == 3 {
        Some(SourceType::Switch)
    } else {
        None
    };
    let polarity = if (v / 0x200) % 2 == 1 {
        SourcePolarity::Bipolar
    } else {
        SourcePolarity::Unipolar
    };
    let direction = if (v / 0x100) % 2 == 1 {
        SourceDirection::Reverse
    } else {
        SourceDirection::Forward
    };
    let ix = v % 0x80;
    let index = if (v / 0x80) % 2 == 1 {
        Some(SourceEnumeratorController::MidiCC(ix as u8))
    } else if ix == 0 {
        Some(SourceEnumeratorController::NoController)
    } else if ix == 2 {
        Some(SourceEnumeratorController::NoteOnVelocity)
    } else if ix == 3 {
        Some(SourceEnumeratorController::NoteOnKeyNumber)
    } else if ix == 10 {
        Some(SourceEnumeratorController::PolyPressure)
    } else if ix == 13 {
        Some(SourceEnumeratorController::ChannelPressure)
    } else if ix == 14 {
        Some(SourceEnumeratorController::PitchWheel)
    } else if ix == 16 {
        Some(SourceEnumeratorController::PitchWheelSensitivity)
    } else if ix == 127 {
        Some(SourceEnumeratorController::Link)
    } else {
        None
    };
    match (continuity, index) {
        (Some(c), Some(i)) => Some(
            Modulator { continuity: c, polarity, direction, index: i },
        ),
        _ => None,
    }
}

/// Decodes a modulator source field; reserved curve types and controller
/// indices are rejected.
pub fn parse_modulator(v: u16) -> (r: Option<Modulator>)
    ensures
        r == spec_parse_modulator(v),
{
    proof {
        reveal(spec_parse_modulator);
    }
    let t = v / 1024;
    let continuity = if t == 0 {
        SourceType::Linear
    } else if t == 1 {
        SourceType::Concave
    } else if t == 2 {
        SourceType::Convex
    } else if t == 3 {
        SourceType::Switch
    } else {
        return None;
    };
    let polarity = if (v / 0x200) % 2 == 1 {
        SourcePolarity::Bipolar
    } else {
        SourcePolarity::Unipolar
    };
    let direction = if (v / 0x100) % 2 == 1 {
        SourceDirection::Reverse
    } else {
        SourceDirection::Forward
    };
    let ix = v % 0x80;
    let index = if (v / 0x80) % 2 == 1 {
        SourceEnumeratorController::MidiCC(ix as u8)
    } else if ix == 0 {
        SourceEnumeratorController::NoController
    } else if ix == 2 {
        SourceEnumeratorController::NoteOnVelocity
    } else if ix == 3 {
        SourceEnumeratorController::NoteOnKeyNumber
    } else if ix == 10 {
        SourceEnumeratorController::PolyPressure
    } else if ix == 13 {
        SourceEnumeratorController::ChannelPressure
    } else if ix == 14 {
        SourceEnumeratorController::PitchWheel
    } else if ix == 16 {
        SourceEnumeratorController::PitchWheelSensitivity
    } else if ix == 127 {
        SourceEnumeratorController::Link
    } else {
        return None;
    };
    Some(Modulator { continuity, polarity, direction, index })
}

/// A modulator's destination: a link to another modulator, or a generator.
#[derive(Clone, Copy, Debug, PartialEq, Eq, Structural)]
pub enum DestOper {
    Link(u16),
    Generator(Generator),
}

/// The destination encoded in a modulator destination field.
pub open spec fn spec_parse_dest_oper(v: u16) -> DestOper {
    if v / 0x8000 == 1 {
        DestOper::Link((v % 0x800) as u16)
    } else {
        DestOper::Generator(spec_parse_generator(v, 0, 0))
    }
}

/// Decodes a modulator destination field.
pub fn parse_dest_oper(v: u16) -> (r: DestOper)
    ensures
        r == spec_parse_dest_oper(v),
{
    if v / 0x8000 == 1 {
        DestOper::Link(v % 0x800)
    } else {
        DestOper::Generator(parse_generator(v, [0, 0]))
    }
}

/// A decoded modulator record: source, destination, amount and transform.
/// Modulators are decoded but not consumed by the conversion path.
#[derive(Clone, Copy, Debug, PartialEq, Eq, Structural)]
pub struct ModList {
    pub src_oper: Modulator,
    pub dest_oper: DestOper,
    pub amount: i16,
    pub amt_src_oper: Modulator,
    pub trans_oper: ModularTransform,
}

/// A bag: the start indices of one zone's slices of the shared generator and
/// modulator arrays.
#[derive(Clone, Copy, Debug, PartialEq, Eq, Structural)]
pub struct Bag {
    pub gen_ndx: u16,
    pub mod_ndx: u16,
}

/// A container format version field.
#[derive(Clone, Copy, Debug, PartialEq, Eq, Structural)]
pub struct Version {
    pub major: u16,
    pub minor: u16,
}

// --- Records ----------------------------------------------------------------

/// Decode errors. All of them are fatal: the run for the input is aborted.
#[derive(Clone, Copy, Debug, PartialEq, Eq, Structural)]
pub enum SfError {
    /// The container framing is undecodable: the file is too short for a
    /// root chunk, a chunk overruns its parent, or a container is too short
    /// for its form type.
    Framing,
    /// A fixed-layout record span is not a whole number of records.
    Record,
    /// A metadata chunk holds invalid text.
    Encoding,
    /// A modulator record uses a reserved curve type or controller index.
    Modulator,
}

/// A sample header: a name and sample-frame offsets into the shared PCM
/// buffer, with rate, pitch and channel information.
#[derive(Clone, Debug, PartialEq, Eq)]
pub struct Sample {
    pub name: String,
    pub start: u32,
    pub end: u32,
    pub start_loop: u32,
    pub end_loop: u32,
    pub sample_rate: u32,
    pub correction: i8,
    pub original_pitch: u8,
    pub sample_link: u16,
    pub sample_type: u16,
}

/// The mathematical content of a sample header.
pub struct SampleV {
    pub name: Seq<char>,
    pub start: u32,
    pub end: u32,
    pub start_loop: u32,
    pub end_loop: u32,
    pub sample_rate: u32,
    pub correction: i8,
    pub original_pitch: u8,
    pub sample_link: u16,
    pub sample_type: u16,
}

impl View for Sample {
    type V = SampleV;

    open spec fn view(&self) -> SampleV {
        SampleV {
            name: self.name@,
            start: self.start,
            end: self.end,
            start_loop: self.start_loop,
            end_loop: self.end_loop,
            sample_rate: self.sample_rate,
            correction: self.correction,
            original_pitch: self.original_pitch,
            sample_link: self.sample_link,
            sample_type: self.sample_type,
        }
    }
}

/// A preset header: a name, its program and bank numbers, and the index of
/// its first bag. Its last bag is implicit, bounded by the next preset.
#[derive(Clone, Debug, PartialEq, Eq)]
pub struct Preset {
    pub name: String,
    pub preset: u16,
    pub bank: u16,
    pub bag_index: u16,
    pub library: u32,
    pub genre: u32,
    pub morphology: u32,
}

/// The mathematical content of a preset header.
pub struct PresetV {
    pub name: Seq<char>,
    pub preset: u16,
    pub bank: u16,
    pub bag_index: u16,
    pub library: u32,
    pub genre: u32,
    pub morphology: u32,
}

impl View for Preset {
    type V = PresetV;

    open spec fn view(&self) -> PresetV {
        PresetV {
            name: self.name@,
            preset: self.preset,
            bank: self.bank,
            bag_index: self.bag_index,
            library: self.library,
            genre: self.genre,
            morphology: self.morphology,
        }
    }
}

/// An instrument header: a name and the index of its first bag.
#[derive(Clone, Debug, PartialEq, Eq)]
pub struct Instrument {
    pub name: String,
    pub bag_index: u16,
}

/// The mathematical content of an instrument header.
pub struct InstrumentV {
    pub name: Seq<char>,
    pub bag_index: u16,
}

impl View for Instrument {
    type V = InstrumentV;

    open spec fn view(&self) -> InstrumentV {
        InstrumentV { name: self.name@, bag_index: self.bag_index }
    }
}

/// The 46-byte sample header record at offset `o`.
pub open spec fn spec_sample_at(d: Seq<u8>, o: int) -> SampleV {
    SampleV {
        name: spec_name_field(d.subrange(o, o + 20)),
        start: spec_u32_le(d[o + 20], d[o + 21], d[o + 22], d[o + 23]),
        end: spec_u32_le(d[o + 24], d[o + 25], d[o + 26], d[o + 27]),
        start_loop: spec_u32_le(d[o + 28], d[o + 29], d[o + 30], d[o + 31]),
        end_loop: spec_u32_le(d[o + 32], d[o + 33], d[o + 34], d[o + 35]),
        sample_rate: spec_u32_le(d[o + 36], d[o + 37], d[o + 38], d[o + 39]),
        correction: spec_i8(d[o + 40]),
        original_pitch: d[o + 41],
        sample_link: spec_u16_le(d[o + 42], d[o + 43]),
        sample_type: spec_u16_le(d[o + 44], d[o + 45]),
    }
}

/// The 38-byte preset header record at offset `o`.
pub open spec fn spec_preset_at(d: Seq<u8>, o: int) -> PresetV {
    PresetV {
        name: spec_name_field(d.subrange(o, o + 20)),
        preset: spec_u16_le(d[o + 20], d[o + 21]),
        bank: spec_u16_le(d[o + 22], d[o + 23]),
        bag_index: spec_u16_le(d[o + 24], d[o + 25]),
        library: spec_u32_le(d[o + 26], d[o + 27], d[o + 28], d[o + 29]),
        genre: spec_u32_le(d[o + 30], d[o + 31], d[o + 32], d[o + 33]),
        morphology: spec_u32_le(d[o + 34], d[o + 35], d[o + 36], d[o + 37]),
    }
}

/// The 22-byte instrument header record at offset `o`.
pub open spec fn spec_instrument_at(d: Seq<u8>, o: int) -> InstrumentV {
    InstrumentV {
        name: spec_name_field(d.subrange(o, o + 20)),
        bag_index: spec_u16_le(d[o + 20], d[o + 21]),
    }
}

/// The 4-byte bag record at offset `o`.
pub open spec fn spec_bag_at(d: Seq<u8>, o: int) -> Bag {
    Bag {
        gen_ndx: spec_u16_le(d[o], d[o + 1]),
        mod_ndx: spec_u16_le(d[o + 2], d[o + 3]),
    }
}

/// The 4-byte generator record at offset `o`.
pub open spec fn spec_gen_at(d: Seq<u8>, o: int) -> Generator {
    spec_parse_generator(spec_u16_le(d[o], d[o + 1]), d[o + 2], d[o + 3])
}

/// The transform encoded in a modulator transform field (values other than
/// the two defined ones decode to the identity transform).
pub open spec fn spec_transform(v: u16) -> ModularTransform {
    if v == 1 {
        ModularTransform::AbsoluteValue
    } else {
        ModularTransform::Linear
    }
}

/// The 10-byte modulator record at offset `o`, or nothing when either source
/// field uses a reserved encoding.
pub open spec fn spec_mod_at(d: Seq<u8>, o: int) -> Option<ModList> {
    let src = spec_parse_modulator(spec_u16_le(d[o], d[o + 1]));
    let amt_src = spec_parse_modulator(spec_u16_le(d[o + 6], d[o + 7]));
    match (src, amt_src) {
        (Some(s), Some(a)) => Some(
            ModList {
                src_oper: s,
                dest_oper: spec_parse_dest_oper(spec_u16_le(d[o + 2], d[o + 3])),
                amount: spec_i16_le(d[o + 4], d[o + 5]),
                amt_src_oper: a,
                trans_oper: spec_transform(spec_u16_le(d[o + 8], d[o + 9])),
            },
        ),
        _ => None,
    }
}

/// Decodes the sample headers in `[start, end)`.
fn decode_samples(d: &Vec<u8>, start: usize, end: usize) -> (r: Result<Vec<Sample>, SfError>)
    requires
        start <= end <= d@.len(),
    ensures
        match r {
            Ok(v) => {
                &&& (end - start) % 46 == 0
                &&& v@.len() == (end - start) / 46
                &&& forall|i: int|
                    0 <= i < v@.len() ==> #[trigger] v@[i]@ == spec_sample_at(
                        d@,
                        start + 46 * i,
                    )
            },
            Err(e) => e == SfError::Record && (end - start) % 46 != 0,
        },
{
    if (end - start) % 46 != 0 {
        return Err(SfError::Record);
    }
    let mut v: Vec<Sample> = Vec::new();
    let mut o = start;
    while o < end
        invariant
            start <= o <= end <= d@.len(),
            (end - start) % 46 == 0,
            (end - o) % 46 == 0,
            o == start + 46 * v@.len(),
            forall|i: int|
                0 <= i < v@.len() ==> #[trigger] v@[i]@ == spec_sample_at(d@, start + 46 * i),
        decreases end - o,
    {
        let name = decode_name_field(d, o);
        let s = Sample {
            name,
            start: u32_le(d[o + 20], d[o + 21], d[o + 22], d[o + 23]),
            end: u32_le(d[o + 24], d[o + 25], d[o + 26], d[o + 27]),
            start_loop: u32_le(d[o + 28], d[o + 29], d[o + 30], d[o + 31]),
            end_loop: u32_le(d[o + 32], d[o + 33], d[o + 34], d[o + 35]),
            sample_rate: u32_le(d[o + 36], d[o + 37], d[o + 38], d[o + 39]),
            correction: i8_of(d[o + 40]),
            original_pitch: d[o + 41],
            sample_link: u16_le(d[o + 42], d[o + 43]),
            sample_type: u16_le(d[o + 44], d[o + 45]),
        };
        assert(s@ == spec_sample_at(d@, o as int));
        v.push(s);
        o = o + 46;
    }
    Ok(v)
}

/// Decodes the preset headers in `[start, end)`.
fn decode_presets(d: &Vec<u8>, start: usize, end: usize) -> (r: Result<Vec<Preset>, SfError>)
    requires
        start <= end <= d@.len(),
    ensures
        match r {
            Ok(v) => {
                &&& (end - start) % 38 == 0
                &&& v@.len() == (end - start) / 38
                &&& forall|i: int|
                    0 <= i < v@.len() ==> #[trigger] v@[i]@ == spec_preset_at(
                        d@,
                        start + 38 * i,
                    )
            },
            Err(e) => e == SfError::Record && (end - start) % 38 != 0,
        },
{
    if (end - start) % 38 != 0 {
        return Err(SfError::Record);
    }
    let mut v: Vec<Preset> = Vec::new();
    let mut o = start;
    while o < end
        invariant
            start <= o <= end <= d@.len(),
            (end - start) % 38 == 0,
            (end - o) % 38 == 0,
            o == start + 38 * v@.len(),
            forall|i: int|
                0 <= i < v@.len() ==> #[trigger] v@[i]@ == spec_preset_at(d@, start + 38 * i),
        decreases end - o,
    {
        let name = decode_name_field(d, o);
        let p = Preset {
            name,
            preset: u16_le(d[o + 20], d[o + 21]),
            bank: u16_le(d[o + 22], d[o + 23]),
            bag_index: u16_le(d[o + 24], d[o + 25]),
            library: u32_le(d[o + 26], d[o + 27], d[o + 28], d[o + 29]),
            genre: u32_le(d[o + 30], d[o + 31], d[o + 32], d[o + 33]),
            morphology: u32_le(d[o + 34], d[o + 35], d[o + 36], d[o + 37]),
        };
        assert(p@ == spec_preset_at(d@, o as int));
        v.push(p);
        o = o + 38;
    }
    Ok(v)
}

/// Decodes the instrument headers in `[start, end)`.
fn decode_instruments(d: &Vec<u8>, start: usize, end: usize) -> (r: Result<
    Vec<Instrument>,
    SfError,
>)
    requires
        start <= end <= d@.len(),
    ensures
        match r {
            Ok(v) => {
                &&& (end - start) % 22 == 0
                &&& v@.len() == (end - start) / 22
                &&& forall|i: int|
                    0 <= i < v@.len() ==> #[trigger] v@[i]@ == spec_instrument_at(
                        d@,
                        start + 22 * i,
                    )
            },
            Err(e) => e == SfError::Record && (end - start) % 22 != 0,
        },
{
    if (end - start) % 22 != 0 {
        return Err(SfError::Record);
    }
    let mut v: Vec<Instrument> = Vec::new();
    let mut o = start;
    while o < end
        invariant
            start <= o <= end <= d@.len(),
            (end - start) % 22 == 0,
            (end - o) % 22 == 0,
            o == start + 22 * v@.len(),
            forall|i: int|
                0 <= i < v@.len() ==> #[trigger] v@[i]@ == spec_instrument_at(
                    d@,
                    start + 22 * i,
                ),
        decreases end - o,
    {
        let name = decode_name_field(d, o);
        let inst = Instrument { name, bag_index: u16_le(d[o + 20], d[o + 21]) };
        assert(inst@ == spec_instrument_at(d@, o as int));
        v.push(inst);
        o = o + 22;
    }
    Ok(v)
}

/// Decodes the bag records in `[start, end)`.
fn decode_bags(d: &Vec<u8>, start: usize, end: usize) -> (r: Result<Vec<Bag>, SfError>)
    requires
        start <= end <= d@.len(),
    ensures
        match r {
            Ok(v) => {
                &&& (end - start) % 4 == 0
                &&& v@.len() == (end - start) / 4
                &&& forall|i: int|
                    0 <= i < v@.len() ==> #[trigger] v@[i] == spec_bag_at(d@, start + 4 * i)
            },
            Err(e) => e == SfError::Record && (end - start) % 4 != 0,
        },
{
    if (end - start) % 4 != 0 {
        return Err(SfError::Record);
    }
    let mut v: Vec<Bag> = Vec::new();
    let mut o = start;
    while o < end
        invariant
            start <= o <= end <= d@.len(),
            (end - start) % 4 == 0,
            (end - o) % 4 == 0,
            o == start + 4 * v@.len(),
            forall|i: int|
                0 <= i < v@.len() ==> #[trigger] v@[i] == spec_bag_at(d@, start + 4 * i),
        decreases end - o,
    {
        let b = Bag { gen_ndx: u16_le(d[o], d[o + 1]), mod_ndx: u16_le(d[o + 2], d[o + 3]) };
        v.push(b);
        o = o + 4;
    }
    Ok(v)
}

/// Decodes the generator records in `[start, end)`.
fn decode_gens(d: &Vec<u8>, start: usize, end: usize) -> (r: Result<Vec<Generator>, SfError>)
    requires
        start <= end <= d@.len(),
    ensures
        match r {
            Ok(v) => {
                &&& (end - start) % 4 == 0
                &&& v@.len() == (end - start) / 4
                &&& forall|i: int|
                    0 <= i < v@.len() ==> #[trigger] v@[i] == spec_gen_at(d@, start + 4 * i)
            },
            Err(e) => e == SfError::Record && (end - start) % 4 != 0,
        },
{
    if (end - start) % 4 != 0 {
        return Err(SfError::Record);
    }
    let mut v: Vec<Generator> = Vec::new();
    let mut o = start;
    while o < end
        invariant
            start <= o <= end <= d@.len(),
            (end - start) % 4 == 0,
            (end - o) % 4 == 0,
            o == start + 4 * v@.len(),
            forall|i: int|
                0 <= i < v@.len() ==> #[trigger] v@[i] == spec_gen_at(d@, start + 4 * i),
        decreases end - o,
    {
        let oper = u16_le(d[o], d[o + 1]);
        let g = parse_generator(oper, [d[o + 2], d[o + 3]]);
        v.push(g);
        o = o + 4;
    }
    Ok(v)
}

/// Decodes the 10-byte modulator record at `o`.
fn decode_mod_at(d: &Vec<u8>, o: usize) -> (r: Option<ModList>)
    requires
        o + 10 <= d@.len(),
    ensures
        r == spec_mod_at(d@, o as int),
{
    let n = d.len();
    assert(o + 10 <= n);
    let src = parse_modulator(u16_le(d[o], d[o + 1]));
    let amt_src = parse_modulator(u16_le(d[o + 6], d[o + 7]));
    match (src, amt_src) {
        (Some(s), Some(a)) => {
            let trans_raw = u16_le(d[o + 8], d[o + 9]);
            Some(
                ModList {
                    src_oper: s,
                    dest_oper: parse_dest_oper(u16_le(d[o + 2], d[o + 3])),
                    amount: i16_le(d[o + 4], d[o + 5]),
                    amt_src_oper: a,
                    trans_oper: if trans_raw == 1 {
                        ModularTransform::AbsoluteValue
                    } else {
                        ModularTransform::Linear
                    },
                },
            )
        },
        _ => None,
    }
}

/// Decodes the modulator records in `[start, end)`.
fn decode_mods(d: &Vec<u8>, start: usize, end: usize) -> (r: Result<Vec<ModList>, SfError>)
    requires
        start <= end <= d@.len(),
    ensures
        match r {
            Ok(v) => {
                &&& (end - start) % 10 == 0
                &&& v@.len() == (end - start) / 10
                &&& forall|i: int|
                    0 <= i < v@.len() ==> Some(#[trigger] v@[i]) == spec_mod_at(
                        d@,
                        start + 10 * i,
                    )
            },
            Err(e) => {
                ||| e == SfError::Record && (end - start) % 10 != 0
                ||| e == SfError::Modulator && (end - start) % 10 == 0 && exists|i: int|
                    0 <= i < (end - start) / 10 && #[trigger] spec_mod_at(d@, start + 10 * i)
                        is None
            },
        },
{
    if (end - start) % 10 != 0 {
        return Err(SfError::Record);
    }
    let mut v: Vec<ModList> = Vec::new();
    let mut o = start;
    while o < end
        invariant
            start <= o <= end <= d@.len(),
            (end - start) % 10 == 0,
            (end - o) % 10 == 0,
            o == start + 10 * v@.len(),
            forall|i: int|
                0 <= i < v@.len() ==> Some(#[trigger] v@[i]) == spec_mod_at(d@, start + 10 * i),
        decreases end - o,
    {
        match decode_mod_at(d, o) {
            Some(m) => {
                v.push(m);
                o = o + 10;
            },
            None => {
                assert(spec_mod_at(d@, start + 10 * (v@.len() as int)) is None);
                return Err(SfError::Modulator);
            },
        }
    }
    Ok(v)
}

// --- The chunk walker --------------------------------------------------------

/// Chunk tags, read as little-endian 32-bit values of their four characters.
pub const RIFF: u32 = 0x46464952;  // "RIFF"
pub const LIST: u32 = 0x5453494C;  // "LIST"
pub const SDTA: u32 = 0x61746473;  // "sdta"
pub const SMPL: u32 = 0x6C706D73;  // "smpl"
pub const SHDR: u32 = 0x72646873;  // "shdr"
pub const PHDR: u32 = 0x72646870;  // "phdr"
pub const INST: u32 = 0x74736E69;  // "inst"
pub const IGEN: u32 = 0x6E656769;  // "igen"
pub const PGEN: u32 = 0x6E656770;  // "pgen"
pub const IMOD: u32 = 0x646F6D69;  // "imod"
pub const PMOD: u32 = 0x646F6D70;  // "pmod"
pub const IBAG: u32 = 0x67616269;  // "ibag"
pub const PBAG: u32 = 0x67616270;  // "pbag"
pub const IFIL: u32 = 0x6C696669;  // "ifil"
pub const IVER: u32 = 0x72657669;  // "iver"
pub const INAM: u32 = 0x4D414E49;  // "INAM"
pub const ICOP: u32 = 0x504F4349;  // "ICOP"
pub const ICRD: u32 = 0x44524349;  // "ICRD"
pub const IPRD: u32 = 0x44525049;  // "IPRD"
pub const ISFT: u32 = 0x54465349;  // "ISFT"
pub const ICMT: u32 = 0x544D4349;  // "ICMT"
pub const IENG: u32 = 0x474E4549;  // "IENG"
pub const ISNG: u32 = 0x676E7369;  // "isng"
pub const IROM: u32 = 0x6D6F7269;  // "irom"

/// A leaf chunk: its tag and the byte span of its payload.
#[derive(Clone, Copy, Debug, PartialEq, Eq, Structural)]
pub struct Leaf {
    pub tag: u32,
    pub start: usize,
    pub end: usize,
}

/// The three container tags whose chunks hold a form type and child chunks.
pub open spec fn spec_is_container(tag: u32) -> bool {
    tag == RIFF || tag == LIST || tag == SDTA
}

/// The leaf chunks of the sibling chunks in `[pos, end)`, in document order,
/// depth first. A chunk is eight bytes of tag and little-endian length, then
/// its payload, then a pad byte when the length is odd; containers recurse
/// past their four-byte form type. A chunk overrunning its span, or a
/// container too short for its form type, is a framing error.
pub open spec fn spec_leaves(d: Seq<u8>, pos: int, end: int) -> Result<Seq<Leaf>, SfError>
    recommends
        0 <= pos,
        end <= d.len(),
    decreases end - pos,
{
    if pos + 8 > end {
        Ok(Seq::empty())
    } else {
        let tag = spec_u32_le(d[pos], d[pos + 1], d[pos + 2], d[pos + 3]);
        let len = spec_u32_le(d[pos + 4], d[pos + 5], d[pos + 6], d[pos + 7]) as int;
        let cend = pos + 8 + len;
        if cend > end {
            Err(SfError::Framing)
        } else {
            let here = if spec_is_container(tag) {
                if len < 4 {
                    Err(SfError::Framing)
                } else {
                    spec_leaves(d, pos + 12, cend)
                }
            } else {
                Ok(seq![Leaf { tag, start: (pos + 8) as usize, end: cend as usize }])
            };
            let next = if cend + len % 2 > end {
                end
            } else {
                cend + len % 2
            };
            match here {
                Err(e) => Err(e),
                Ok(a) => match spec_leaves(d, next, end) {
                    Err(e) => Err(e),
                    Ok(b) => Ok(a + b),
                },
            }
        }
    }
}

/// Every leaf of a well-framed span lies within that span.
proof fn lemma_leaves_in_range(d: Seq<u8>, pos: int, end: int)
    requires
        0 <= pos,
        end <= usize::MAX,
        spec_leaves(d, pos, end) is Ok,
    ensures
        forall|i: int|
            0 <= i < spec_leaves(d, pos, end)->Ok_0.len() ==> {
                let leaf = #[trigger] spec_leaves(d, pos, end)->Ok_0[i];
                pos <= leaf.start <= leaf.end <= end
            },
    decreases end - pos,
{
    let l = spec_leaves(d, pos, end)->Ok_0;
    if pos + 8 > end {
    } else {
        let tag = spec_u32_le(d[pos], d[pos + 1], d[pos + 2], d[pos + 3]);
        let len = spec_u32_le(d[pos + 4], d[pos + 5], d[pos + 6], d[pos + 7]) as int;
        let cend = pos + 8 + len;
        if cend <= end {
            let next = if cend + len % 2 > end {
                end
            } else {
                cend + len % 2
            };
            let b = spec_leaves(d, next, end)->Ok_0;
            lemma_leaves_in_range(d, next, end);
            let a = if spec_is_container(tag) {
                spec_leaves(d, pos + 12, cend)->Ok_0
            } else {
                seq![Leaf { tag, start: (pos + 8) as usize, end: cend as usize }]
            };
            if spec_is_container(tag) {
                lemma_leaves_in_range(d, pos + 12, cend);
            }
            assert(l == a + b);
            assert forall|i: int| 0 <= i < l.len() implies {
                let leaf = #[trigger] l[i];
                pos <= leaf.start <= leaf.end <= end
            } by {
                if i < a.len() {
                    assert(l[i] == a[i]);
                } else {
                    assert(l[i] == b[i - a.len()]);
                }
            }
        }
    }
}

/// Collects the leaf chunks of the sibling chunks in `[pos, end)` in
/// document order, depth first.
fn collect_leaves(d: &Vec<u8>, pos: usize, end: usize, out: &mut Vec<Leaf>) -> (r: Result<
    (),
    SfError,
>)
    requires
        pos <= end <= d@.len(),
    ensures
        match r {
            Ok(()) => spec_leaves(d@, pos as int, end as int) is Ok && final(out)@ == old(out)@
                + spec_leaves(d@, pos as int, end as int)->Ok_0,
            Err(e) => spec_leaves(d@, pos as int, end as int) == Err::<Seq<Leaf>, SfError>(e),
        },
    decreases end - pos,
{
    if end - pos < 8 {
        return Ok(());
    }
    let tag = u32_le(d[pos], d[pos + 1], d[pos + 2], d[pos + 3]);
    let len32 = u32_le(d[pos + 4], d[pos + 5], d[pos + 6], d[pos + 7]);
    let len = len32 as usize;
    if len > end - (pos + 8) {
        return Err(SfError::Framing);
    }
    let cend = pos + 8 + len;
    let ghost out0 = out@;
    if tag == RIFF || tag == LIST || tag == SDTA {
        if len < 4 {
            return Err(SfError::Framing);
        }
        let rec = collect_leaves(d, pos + 12, cend, out);
        if let Err(e) = rec {
            return Err(e);
        }
    } else {
        out.push(Leaf { tag, start: pos + 8, end: cend });
    }
    let ghost out1 = out@;
    let pad = len % 2;
    let next = if pad > end - cend {
        end
    } else {
        cend + pad
    };
    let rec = collect_leaves(d, next, end, out);
    match rec {
        Err(e) => Err(e),
        Ok(()) => {
            proof {
                assert(out@ =~= out0 + spec_leaves(d@, pos as int, end as int)->Ok_0);
            }
            Ok(())
        },
    }
}

// --- The decoded bank --------------------------------------------------------

/// A whole decoded bank: the shared record arrays and the PCM sample buffer,
/// decoded once, in full, before any conversion runs.
#[derive(Debug, Clone, PartialEq, Eq)]
pub struct SoundFont {
    pub samples: Vec<Sample>,
    pub sample_data: Vec<u8>,
    pub presets: Vec<Preset>,
    pub instruments: Vec<Instrument>,
    pub igens: Vec<Generator>,
    pub pgens: Vec<Generator>,
    pub imods: Vec<ModList>,
    pub pmods: Vec<ModList>,
    pub ibags: Vec<Bag>,
    pub pbags: Vec<Bag>,
}

/// The mathematical content of a decoded bank.
#[verifier::ext_equal]
pub struct SoundFontV {
    pub samples: Seq<SampleV>,
    pub sample_data: Seq<u8>,
    pub presets: Seq<PresetV>,
    pub instruments: Seq<InstrumentV>,
    pub igens: Seq<Generator>,
    pub pgens: Seq<Generator>,
    pub imods: Seq<ModList>,
    pub pmods: Seq<ModList>,
    pub ibags: Seq<Bag>,
    pub pbags: Seq<Bag>,
}

impl View for SoundFont {
    type V = SoundFontV;

    open spec fn view(&self) -> SoundFontV {
        SoundFontV {
            samples: self.samples@.map_values(|x: Sample| x@),
            sample_data: self.sample_data@,
            presets: self.presets@.map_values(|x: Preset| x@),
            instruments: self.instruments@.map_values(|x: Instrument| x@),
            igens: self.igens@,
            pgens: self.pgens@,
            imods: self.imods@,
            pmods: self.pmods@,
            ibags: self.ibags@,
            pbags: self.pbags@,
        }
    }
}

/// The bank with every array empty.
pub open spec fn spec_sf_empty() -> SoundFontV {
    SoundFontV {
        samples: Seq::empty(),
        sample_data: Seq::empty(),
        presets: Seq::empty(),
        instruments: Seq::empty(),
        igens: Seq::empty(),
        pgens: Seq::empty(),
        imods: Seq::empty(),
        pmods: Seq::empty(),
        ibags: Seq::empty(),
        pbags: Seq::empty(),
    }
}

/// The sample header records of the span `[s, e)`.
pub open spec fn spec_samples_seq(d: Seq<u8>, s: int, e: int) -> Seq<SampleV> {
    Seq::new(((e - s) / 46) as nat, |i: int| spec_sample_at(d, s + 46 * i))
}

/// The preset header records of the span `[s, e)`.
pub open spec fn spec_presets_seq(d: Seq<u8>, s: int, e: int) -> Seq<PresetV> {
    Seq::new(((e - s) / 38) as nat, |i: int| spec_preset_at(d, s + 38 * i))
}

/// The instrument header records of the span `[s, e)`.
pub open spec fn spec_instruments_seq(d: Seq<u8>, s: int, e: int) -> Seq<InstrumentV> {
    Seq::new(((e - s) / 22) as nat, |i: int| spec_instrument_at(d, s + 22 * i))
}

/// The bag records of the span `[s, e)`.
pub open spec fn spec_bags_seq(d: Seq<u8>, s: int, e: int) -> Seq<Bag> {
    Seq::new(((e - s) / 4) as nat, |i: int| spec_bag_at(d, s + 4 * i))
}

/// The generator records of the span `[s, e)`.
pub open spec fn spec_gens_seq(d: Seq<u8>, s: int, e: int) -> Seq<Generator> {
    Seq::new(((e - s) / 4) as nat, |i: int| spec_gen_at(d, s + 4 * i))
}

/// The modulator records of the span `[s, e)`.
pub open spec fn spec_mods_seq(d: Seq<u8>, s: int, e: int) -> Seq<ModList> {
    Seq::new(((e - s) / 10) as nat, |i: int| spec_mod_at(d, s + 10 * i)->Some_0)
}

/// The metadata tags whose chunks must hold valid text.
pub open spec fn spec_is_metadata(tag: u32) -> bool {
    tag == INAM || tag == ISFT || tag == IENG || tag == ICOP || tag == ISNG || tag == IROM
        || tag == ICRD || tag == IPRD || tag == ICMT
}

/// The bank after one leaf chunk: record chunks append their records to the
/// matching array, the PCM chunk replaces the sample buffer, metadata chunks
/// are checked for valid text, and other leaves change nothing.
pub open spec fn spec_apply_leaf(d: Seq<u8>, leaf: Leaf, sf: SoundFontV) -> Result<
    SoundFontV,
    SfError,
> {
    let s = leaf.start as int;
    let e = leaf.end as int;
    if leaf.tag == SHDR {
        if (e - s) % 46 == 0 {
            Ok(SoundFontV { samples: sf.samples + spec_samples_seq(d, s, e), ..sf })
        } else {
            Err(SfError::Record)
        }
    } else if leaf.tag == PHDR {
        if (e - s) % 38 == 0 {
            Ok(SoundFontV { presets: sf.presets + spec_presets_seq(d, s, e), ..sf })
        } else {
            Err(SfError::Record)
        }
    } else if leaf.tag == INST {
        if (e - s) % 22 == 0 {
            Ok(SoundFontV { instruments: sf.instruments + spec_instruments_seq(d, s, e), ..sf })
        } else {
            Err(SfError::Record)
        }
    } else if leaf.tag == IBAG {
        if (e - s) % 4 == 0 {
            Ok(SoundFontV { ibags: sf.ibags + spec_bags_seq(d, s, e), ..sf })
        } else {
            Err(SfError::Record)
        }
    } else if leaf.tag == PBAG {
        if (e - s) % 4 == 0 {
            Ok(SoundFontV { pbags: sf.pbags + spec_bags_seq(d, s, e), ..sf })
        } else {
            Err(SfError::Record)
        }
    } else if leaf.tag == IGEN {
        if (e - s) % 4 == 0 {
            Ok(SoundFontV { igens: sf.igens + spec_gens_seq(d, s, e), ..sf })
        } else {
            Err(SfError::Record)
        }
    } else if leaf.tag == PGEN {
        if (e - s) % 4 == 0 {
            Ok(SoundFontV { pgens: sf.pgens + spec_gens_seq(d, s, e), ..sf })
        } else {
            Err(SfError::Record)
        }
    } else if leaf.tag == IMOD {
        if (e - s) % 10 != 0 {
            Err(SfError::Record)
        } else if exists|i: int| 0 <= i < (e - s) / 10 && #[trigger] spec_mod_at(d, s + 10 * i)
            is None {
            Err(SfError::Modulator)
        } else {
            Ok(SoundFontV { imods: sf.imods + spec_mods_seq(d, s, e), ..sf })
        }
    } else if leaf.tag == PMOD {
        if (e - s) % 10 != 0 {
            Err(SfError::Record)
        } else if exists|i: int| 0 <= i < (e - s) / 10 && #[trigger] spec_mod_at(d, s + 10 * i)
            is None {
            Err(SfError::Modulator)
        } else {
            Ok(SoundFontV { pmods: sf.pmods + spec_mods_seq(d, s, e), ..sf })
        }
    } else if leaf.tag == SMPL {
        Ok(SoundFontV { sample_data: d.subrange(s, e), ..sf })
    } else if spec_is_metadata(leaf.tag) {
        if valid_utf8(d.subrange(s, e)) {
            Ok(sf)
        } else {
            Err(SfError::Encoding)
        }
    } else {
        Ok(sf)
    }
}

/// The bank after a list of leaf chunks, applied in order.
pub open spec fn spec_fold_leaves(d: Seq<u8>, leaves: Seq<Leaf>, sf: SoundFontV) -> Result<
    SoundFontV,
    SfError,
>
    decreases leaves.len(),
{
    if leaves.len() == 0 {
        Ok(sf)
    } else {
        match spec_fold_leaves(d, leaves.drop_last(), sf) {
            Ok(m) => spec_apply_leaf(d, leaves.last(), m),
            Err(e) => Err(e),
        }
    }
}

/// Once the fold fails, later leaves do not change the outcome.
proof fn lemma_fold_error_persists(d: Seq<u8>, leaves: Seq<Leaf>, i: int)
    requires
        0 <= i <= leaves.len(),
        spec_fold_leaves(d, leaves.take(i), spec_sf_empty()) is Err,
    ensures
        spec_fold_leaves(d, leaves, spec_sf_empty()) == spec_fold_leaves(
            d,
            leaves.take(i),
            spec_sf_empty(),
        ),
    decreases leaves.len() - i,
{
    if i == leaves.len() {
        assert(leaves.take(i) =~= leaves);
    } else {
        assert(leaves.take(i + 1).drop_last() =~= leaves.take(i));
        assert(leaves.take(i + 1).len() == i + 1);
        lemma_fold_error_persists(d, leaves, i + 1);
    }
}

/// The decoded bank of a whole container file, or the fatal error that stops
/// the decode: the leaf chunks are resolved and then applied in document
/// order. A file too short for a root chunk is a framing error.
pub open spec fn spec_parse_soundfont(d: Seq<u8>) -> Result<SoundFontV, SfError> {
    if d.len() < 8 {
        Err(SfError::Framing)
    } else {
        match spec_leaves(d, 0, d.len() as int) {
            Err(e) => Err(e),
            Ok(l) => spec_fold_leaves(d, l, spec_sf_empty()),
        }
    }
}

/// Applies one leaf chunk to the bank being built. Unrecognized leaf tags and
/// unrecognized generator operators add a line to `diags` and are skipped.
#[verifier::rlimit(100)]
fn apply_leaf(d: &Vec<u8>, leaf: Leaf, sf: &mut SoundFont, diags: &mut Vec<String>) -> (r:
    Result<(), SfError>)
    requires
        leaf.start <= leaf.end <= d@.len(),
    ensures
        match r {
            Ok(()) => spec_apply_leaf(d@, leaf, old(sf)@) == Ok::<SoundFontV, SfError>(
                final(sf)@,
            ),
            Err(e) => spec_apply_leaf(d@, leaf, old(sf)@) == Err::<SoundFontV, SfError>(e),
        },
        old(diags)@.is_prefix_of(final(diags)@),
{
    let ghost s = leaf.start as int;
    let ghost e = leaf.end as int;
    if leaf.tag == SHDR {
        let mut v = match decode_samples(d, leaf.start, leaf.end) {
            Ok(v) => v,
            Err(err) => {
                return Err(err);
            },
        };
        let ghost v0 = v@;
        sf.samples.append(&mut v);
        proof {
            assert(sf.samples@.map_values(|x: Sample| x@) =~= old(sf)@.samples
                + spec_samples_seq(d@, s, e));
            assert(spec_apply_leaf(d@, leaf, old(sf)@)->Ok_0 =~= sf@);
        }
        Ok(())
    } else if leaf.tag == PHDR {
        let mut v = match decode_presets(d, leaf.start, leaf.end) {
            Ok(v) => v,
            Err(err) => {
                return Err(err);
            },
        };
        sf.presets.append(&mut v);
        proof {
            assert(sf.presets@.map_values(|x: Preset| x@) =~= old(sf)@.presets
                + spec_presets_seq(d@, s, e));
            assert(spec_apply_leaf(d@, leaf, old(sf)@)->Ok_0 =~= sf@);
        }
        Ok(())
    } else if leaf.tag == INST {
        let mut v = match decode_instruments(d, leaf.start, leaf.end) {
            Ok(v) => v,
            Err(err) => {
                return Err(err);
            },
        };
        sf.instruments.append(&mut v);
        proof {
            assert(sf.instruments@.map_values(|x: Instrument| x@) =~= old(sf)@.instruments
                + spec_instruments_seq(d@, s, e));
            assert(spec_apply_leaf(d@, leaf, old(sf)@)->Ok_0 =~= sf@);
        }
        Ok(())
    } else if leaf.tag == IBAG {
        let mut v = match decode_bags(d, leaf.start, leaf.end) {
            Ok(v) => v,
            Err(err) => {
                return Err(err);
            },
        };
        sf.ibags.append(&mut v);
        proof {
            assert(sf.ibags@ =~= old(sf)@.ibags + spec_bags_seq(d@, s, e));
            assert(spec_apply_leaf(d@, leaf, old(sf)@)->Ok_0 =~= sf@);
        }
        Ok(())
    } else if leaf.tag == PBAG {
        let mut v = match decode_bags(d, leaf.start, leaf.end) {
            Ok(v) => v,
            Err(err) => {
                return Err(err);
            },
        };
        sf.pbags.append(&mut v);
        proof {
            assert(sf.pbags@ =~= old(sf)@.pbags + spec_bags_seq(d@, s, e));
            assert(spec_apply_leaf(d@, leaf, old(sf)@)->Ok_0 =~= sf@);
        }
        Ok(())
    } else if leaf.tag == IGEN {
        let mut v = match decode_gens(d, leaf.start, leaf.end) {
            Ok(v) => v,
            Err(err) => {
                return Err(err);
            },
        };
        diag_unused_gens(d, leaf, &v, diags);
        sf.igens.append(&mut v);
        proof {
            assert(sf.igens@ =~= old(sf)@.igens + spec_gens_seq(d@, s, e));
            assert(spec_apply_leaf(d@, leaf, old(sf)@)->Ok_0 =~= sf@);
        }
        Ok(())
    } else if leaf.tag == PGEN {
        let mut v = match decode_gens(d, leaf.start, leaf.end) {
            Ok(v) => v,
            Err(err) => {
                return Err(err);
            },
        };
        diag_unused_gens(d, leaf, &v, diags);
        sf.pgens.append(&mut v);
        proof {
            assert(sf.pgens@ =~= old(sf)@.pgens + spec_gens_seq(d@, s, e));
            assert(spec_apply_leaf(d@, leaf, old(sf)@)->Ok_0 =~= sf@);
        }
        Ok(())
    } else if leaf.tag == IMOD {
        let mut v = match decode_mods(d, leaf.start, leaf.end) {
            Ok(v) => v,
            Err(err) => {
                return Err(err);
            },
        };
        let ghost v0 = v@;
        sf.imods.append(&mut v);
        proof {
            assert forall|i: int| 0 <= i < (e - s) / 10 implies !(#[trigger] spec_mod_at(
                d@,
                s + 10 * i,
            ) is None) by {
                assert(Some(v0[i]) == spec_mod_at(d@, s + 10 * i));
            }
            assert(sf.imods@ =~= old(sf)@.imods + spec_mods_seq(d@, s, e));
            assert(spec_apply_leaf(d@, leaf, old(sf)@)->Ok_0 =~= sf@);
        }
        Ok(())
    } else if leaf.tag == PMOD {
        let mut v = match decode_mods(d, leaf.start, leaf.end) {
            Ok(v) => v,
            Err(err) => {
                return Err(err);
            },
        };
        let ghost v0 = v@;
        sf.pmods.append(&mut v);
        proof {
            assert forall|i: int| 0 <= i < (e - s) / 10 implies !(#[trigger] spec_mod_at(
                d@,
                s + 10 * i,
            ) is None) by {
                assert(Some(v0[i]) == spec_mod_at(d@, s + 10 * i));
            }
            assert(sf.pmods@ =~= old(sf)@.pmods + spec_mods_seq(d@, s, e));
            assert(spec_apply_leaf(d@, leaf, old(sf)@)->Ok_0 =~= sf@);
        }
        Ok(())
    } else if leaf.tag == SMPL {
        let payload = vstd::slice::slice_subrange(d.as_slice(), leaf.start, leaf.end);
        sf.sample_data = vstd::slice::slice_to_vec(payload);
        proof {
            assert(spec_apply_leaf(d@, leaf, old(sf)@)->Ok_0 =~= sf@);
        }
        Ok(())
    } else if leaf.tag == INAM || leaf.tag == ISFT || leaf.tag == IENG || leaf.tag == ICOP
        || leaf.tag == ISNG || leaf.tag == IROM || leaf.tag == ICRD || leaf.tag == IPRD
        || leaf.tag == ICMT {
        let payload = vstd::slice::slice_to_vec(
            vstd::slice::slice_subrange(d.as_slice(), leaf.start, leaf.end),
        );
        match crate::text::utf8_to_string(&payload) {
            Some(_) => Ok(()),
            None => Err(SfError::Encoding),
        }
    } else if leaf.tag == IFIL || leaf.tag == IVER {
        Ok(())
    } else {
        let mut msg = String::new();
        msg.append("unrecognized chunk tag: ");
        push_tag(&mut msg, leaf.tag);
        diags.push(msg);
        Ok(())
    }
}

/// Appends the four characters of a chunk tag.
fn push_tag(s: &mut String, tag: u32)
    ensures
        old(s)@.is_prefix_of(final(s)@),
{
    let ghost s0 = s@;
    crate::text::push_char(s, ((tag % 0x100) as u8) as char);
    crate::text::push_char(s, ((tag / 0x100 % 0x100) as u8) as char);
    crate::text::push_char(s, ((tag / 0x1_0000 % 0x100) as u8) as char);
    crate::text::push_char(s, ((tag / 0x100_0000) as u8) as char);
    assert(s0.is_prefix_of(s@));
}

/// Adds a diagnostic line for each generator that decoded to `Unused`.
fn diag_unused_gens(d: &Vec<u8>, leaf: Leaf, v: &Vec<Generator>, diags: &mut Vec<String>)
    requires
        leaf.start <= leaf.end <= d@.len(),
        (leaf.end - leaf.start) % 4 == 0,
        v@.len() == (leaf.end - leaf.start) / 4,
    ensures
        old(diags)@.is_prefix_of(final(diags)@),
{
    let n = d.len();
    let mut i: usize = 0;
    let mut o: usize = leaf.start;
    while i < v.len()
        invariant
            leaf.start <= leaf.end <= n,
            n == d@.len(),
            v@.len() == (leaf.end - leaf.start) / 4,
            (leaf.end - leaf.start) % 4 == 0,
            i <= v@.len(),
            o == leaf.start + 4 * i,
            old(diags)@.is_prefix_of(diags@),
        decreases v@.len() - i,
    {
        assert(4 * (i as int) + 4 <= 4 * ((leaf.end - leaf.start) as int / 4));
        if let Generator::Unused = v[i] {
            let op = u16_le(d[o], d[o + 1]);
            let mut msg = String::new();
            msg.append("unrecognized generator operator: ");
            crate::text::push_dec_u64(&mut msg, op as u64);
            diags.push(msg);
        }
        i = i + 1;
        o = o + 4;
    }
}

impl SoundFont {
    /// Decodes a whole container file into a bank: the file's leaf chunks are
    /// resolved and applied in document order, depth first. Diagnostic lines
    /// for skipped, unrecognized material are appended to `diags`; a fatal
    /// condition aborts the decode with its error.
    pub fn parse_soundfont(data: &Vec<u8>, diags: &mut Vec<String>) -> (r: Result<
        SoundFont,
        SfError,
    >)
        ensures
            match r {
                Ok(sf) => spec_parse_soundfont(data@) == Ok::<SoundFontV, SfError>(sf@),
                Err(e) => spec_parse_soundfont(data@) == Err::<SoundFontV, SfError>(e),
            },
            old(diags)@.is_prefix_of(final(diags)@),
    {
        if data.len() < 8 {
            return Err(SfError::Framing);
        }
        let mut leaves: Vec<Leaf> = Vec::new();
        match collect_leaves(data, 0, data.len(), &mut leaves) {
            Ok(()) => (),
            Err(e) => {
                return Err(e);
            },
        }
        let ghost lseq = spec_leaves(data@, 0, data@.len() as int)->Ok_0;
        proof {
            lemma_leaves_in_range(data@, 0, data@.len() as int);
        }
        let mut sf = SoundFont {
            samples: Vec::new(),
            sample_data: Vec::new(),
            presets: Vec::new(),
            instruments: Vec::new(),
            igens: Vec::new(),
            pgens: Vec::new(),
            imods: Vec::new(),
            pmods: Vec::new(),
            ibags: Vec::new(),
            pbags: Vec::new(),
        };
        assert(sf@ =~= spec_sf_empty());
        let mut i: usize = 0;
        while i < leaves.len()
            invariant
                leaves@ == lseq,
                spec_leaves(data@, 0, data@.len() as int) == Ok::<Seq<Leaf>, SfError>(lseq),
                data@.len() >= 8,
                i <= lseq.len(),
                forall|j: int|
                    0 <= j < lseq.len() ==> {
                        let leaf = #[trigger] lseq[j];
                        0 <= leaf.start <= leaf.end <= data@.len()
                    },
                spec_fold_leaves(data@, lseq.take(i as int), spec_sf_empty()) == Ok::<
                    SoundFontV,
                    SfError,
                >(sf@),
                old(diags)@.is_prefix_of(diags@),
            decreases leaves@.len() - i,
        {
            let leaf = leaves[i];
            let r = apply_leaf(data, leaf, &mut sf, diags);
            proof {
                assert(lseq.take(i as int + 1).drop_last() =~= lseq.take(i as int));
                assert(lseq.take(i as int + 1).last() == lseq[i as int]);
            }
            match r {
                Ok(()) => (),
                Err(e) => {
                    proof {
                        lemma_fold_error_persists(data@, lseq, i as int + 1);
                    }
                    return Err(e);
                },
            }
            i = i + 1;
        }
        assert(lseq.take(lseq.len() as int) =~= lseq);
        Ok(sf)
    }
}



// --- File-safe names -----------------------------------------------------------

/// A filesystem-unsafe character replaced by an underscore.
pub open spec fn spec_safe_char(c: char) -> char {
    if c == '/' || c == '"' || c == '?' || c == '*' {
        '_'
    } else {
        c
    }
}

/// A name with filesystem-unsafe characters replaced by underscores.
pub open spec fn spec_safe_name(s: Seq<char>) -> Seq<char> {
    s.map_values(|c: char| spec_safe_char(c))
}

impl SoundFont {
    /// Replaces filesystem-unsafe characters of a name by underscores.
    pub fn safe_name(s: &str) -> (r: String)
        ensures
            r@ == spec_safe_name(s@),
    {
        let n = s.unicode_len();
        let mut r = String::new();
        let mut i: usize = 0;
        while i < n
            invariant
                i <= n,
                n == s@.len(),
                r@ == spec_safe_name(s@.take(i as int)),
            decreases n - i,
        {
            let c = s.get_char(i);
            let mapped: char = if c == '/' || c == '"' || c == '?' || c == '*' {
                '_'
            } else {
                c
            };
            crate::text::push_char(&mut r, mapped);
            i = i + 1;
            assert(r@ =~= spec_safe_name(s@.take(i as int)));
        }
        assert(s@.take(n as int) =~= s@);
        r
    }
}



// --- PCM frame extraction --------------------------------------------------------

/// The 16-bit frames of sample `ix` cut from the shared PCM buffer, or
/// nothing when the sample's offsets do not fit the buffer.
pub open spec fn spec_sample_frames(sf: SoundFontV, ix: int) -> Option<Seq<i16>> {
    if 0 <= ix < sf.samples.len() {
        let smp = sf.samples[ix];
        if smp.start <= smp.end && 2 * smp.end <= sf.sample_data.len() {
            Some(
                Seq::new(
                    (smp.end - smp.start) as nat,
                    |k: int|
                        spec_i16_le(
                            sf.sample_data[2 * (smp.start + k)],
                            sf.sample_data[2 * (smp.start + k) + 1],
                        ),
                ),
            )
        } else {
            None
        }
    } else {
        None
    }
}

impl SoundFont {
    /// Cuts sample `ix`'s 16-bit little-endian frames out of the shared PCM
    /// buffer; nothing when the sample's offsets do not fit the buffer.
    pub fn sample_frames(&self, ix: usize) -> (r: Option<Vec<i16>>)
        ensures
            match r {
                Some(v) => spec_sample_frames(self@, ix as int) == Some(v@),
                None => spec_sample_frames(self@, ix as int) is None,
            },
    {
        if ix >= self.samples.len() {
            return None;
        }
        let smp_start = self.samples[ix].start;
        let smp_end = self.samples[ix].end;
        if smp_start > smp_end {
            return None;
        }
        let dlen = self.sample_data.len();
        if (smp_end as u64) * 2 > (dlen as u64) {
            return None;
        }
        let mut v: Vec<i16> = Vec::new();
        let mut k: usize = 0;
        let count = (smp_end - smp_start) as usize;
        while k < count
            invariant
                k <= count,
                count == smp_end - smp_start,
                smp_start == self@.samples[ix as int].start,
                smp_end == self@.samples[ix as int].end,
                ix < self@.samples.len(),
                2 * smp_end <= dlen,
                dlen == self@.sample_data.len(),
                v@.len() == k,
                forall|j: int|
                    0 <= j < k ==> #[trigger] v@[j] == spec_i16_le(
                        self@.sample_data[2 * (smp_start + j)],
                        self@.sample_data[2 * (smp_start + j) + 1],
                    ),
            decreases count - k,
        {
            let o = (smp_start as usize + k) * 2;
            let f = i16_le(self.sample_data[o], self.sample_data[o + 1]);
            v.push(f);
            k = k + 1;
        }
        proof {
            assert(spec_sample_frames(self@, ix as int) == Some(v@)) by {
                assert(v@ =~= spec_sample_frames(self@, ix as int)->Some_0);
            }
        }
        Some(v)
    }
}


// --- Readable generator descriptions ----------------------------------------------

/// The readable text of one generator: its operator name and payload.
pub open spec fn spec_generator_text(g: Generator) -> Seq<char> {
    match g {
        Generator::StartAddrsOffset(v) => "startAddrsOffset "@ + crate::text::dec_int(v as int),
        Generator::EndAddrsOffset(v) => "endAddrsOffset "@ + crate::text::dec_int(v as int),
        Generator::StartloopAddrsOffset(v) => "startloopAddrsOffset "@ + crate::text::dec_int(v as int),
        Generator::EndloopAddrsOffset(v) => "endloopAddrsOffset "@ + crate::text::dec_int(v as int),
        Generator::StartAddrsCoarseOffset(v) => "startAddrsCoarseOffset "@ + crate::text::dec_int(v as int),
        Generator::ModLfoToPitch(v) => "modLfoToPitch "@ + crate::text::dec_int(v as int),
        Generator::VibLfoToPitch(v) => "vibLfoToPitch "@ + crate::text::dec_int(v as int),
        Generator::ModEnvToPitch(v) => "modEnvToPitch "@ + crate::text::dec_int(v as int),
        Generator::InitialFilterFc(v) => "initialFilterFc "@ + crate::text::dec_int(v as int),
        Generator::InitialFilterQ(v) => "initialFilterQ "@ + crate::text::dec_int(v as int),
        Generator::ModLfoToFilterFc(v) => "modLfoToFilterFc "@ + crate::text::dec_int(v as int),
        Generator::ModEnvToFilterFc(v) => "modEnvToFilterFc "@ + crate::text::dec_int(v as int),
        Generator::EndAddrsCoarseOffset(v) => "endAddrsCoarseOffset "@ + crate::text::dec_int(v as int),
        Generator::ModLfoToVolume(v) => "modLfoToVolume "@ + crate::text::dec_int(v as int),
        Generator::ChorusEffectsSend(v) => "chorusEffectsSend "@ + crate::text::dec_int(v as int),
        Generator::ReverbEffectsSend(v) => "reverbEffectsSend "@ + crate::text::dec_int(v as int),
        Generator::Pan(v) => "pan "@ + crate::text::dec_int(v as int),
        Generator::DelayModLFO(v) => "delayModLFO "@ + crate::text::dec_int(v as int),
        Generator::FreqModLFO(v) => "freqModLFO "@ + crate::text::dec_int(v as int),
        Generator::DelayVibLFO(v) => "delayVibLFO "@ + crate::text::dec_int(v as int),
        Generator::FreqVibLFO(v) => "freqVibLFO "@ + crate::text::dec_int(v as int),
        Generator::DelayModEnv(v) => "delayModEnv "@ + crate::text::dec_int(v as int),
        Generator::AttackModEnv(v) => "attackModEnv "@ + crate::text::dec_int(v as int),
        Generator::HoldModEnv(v) => "holdModEnv "@ + crate::text::dec_int(v as int),
        Generator::DecayModEnv(v) => "decayModEnv "@ + crate::text::dec_int(v as int),
        Generator::SustainModEnv(v) => "sustainModEnv "@ + crate::text::dec_int(v as int),
        Generator::ReleaseModEnv(v) => "releaseModEnv "@ + crate::text::dec_int(v as int),
        Generator::KeynumToModEnvHold(v) => "keynumToModEnvHold "@ + crate::text::dec_int(v as int),
        Generator::KeynumToModEnvDecay(v) => "keynumToModEnvDecay "@ + crate::text::dec_int(v as int),
        Generator::DelayVolEnv(v) => "delayVolEnv "@ + crate::text::dec_int(v as int),
        Generator::SustainVolEnv(v) => "sustainVolEnv "@ + crate::text::dec_int(v as int),
        Generator::AttackVolEnv(v) => "attackVolEnv "@ + crate::text::dec_int(v as int),
        Generator::HoldVolEnv(v) => "holdVolEnv "@ + crate::text::dec_int(v as int),
        Generator::DecayVolEnv(v) => "decayVolEnv "@ + crate::text::dec_int(v as int),
        Generator::ReleaseVolEnv(v) => "releaseVolEnv "@ + crate::text::dec_int(v as int),
        Generator::KeynumToVolEnvHold(v) => "keynumToVolEnvHold "@ + crate::text::dec_int(v as int),
        Generator::KeynumToVolEnvDecay(v) => "keynumToVolEnvDecay "@ + crate::text::dec_int(v as int),
        Generator::StartloopAddrsCoarseOffset(v) => "startloopAddrsCoarseOffset "@ + crate::text::dec_int(v as int),
        Generator::Keynum(v) => "keynum "@ + crate::text::dec_int(v as int),
        Generator::Velocity(v) => "velocity "@ + crate::text::dec_int(v as int),
        Generator::InitialAttenuation(v) => "initialAttenuation "@ + crate::text::dec_int(v as int),
        Generator::EndloopAddrsCoarseOffset(v) => "endloopAddrsCoarseOffset "@ + crate::text::dec_int(v as int),
        Generator::CoarseTune(v) => "coarseTune "@ + crate::text::dec_int(v as int),
        Generator::FineTune(v) => "fineTune "@ + crate::text::dec_int(v as int),
        Generator::ScaleTuning(v) => "scaleTuning "@ + crate::text::dec_int(v as int),
        Generator::ExclusiveClass(v) => "exclusiveClass "@ + crate::text::dec_int(v as int),
        Generator::OverridingRootKey(v) => "overridingRootKey "@ + crate::text::dec_int(v as int),
        Generator::Instrument(v) => "instrument "@ + crate::text::dec_int(v as int),
        Generator::SampleID(v) => "sampleID "@ + crate::text::dec_int(v as int),
        Generator::KeyRange(l, h) => "keyRange "@ + crate::text::dec_int(l as int) + " "@
            + crate::text::dec_int(h as int),
        Generator::VelRange(l, h) => "velRange "@ + crate::text::dec_int(l as int) + " "@
            + crate::text::dec_int(h as int),
        Generator::SampleModes(m) => match m {
            LoopMode::NoLoop => "sampleModes noLoop"@,
            LoopMode::ContinuousLoop => "sampleModes continuousLoop"@,
            LoopMode::ReleaseLoop => "sampleModes releaseLoop"@,
        },
        Generator::EndOper => "endOper"@,
        Generator::Unused => "unused"@,
    }
}

impl Generator {
    /// The readable text of this generator.
    #[verifier::rlimit(100)]
    pub fn describe(&self) -> (r: String)
        ensures
            r@ == spec_generator_text(*self),
    {
        let mut s = String::new();
        match *self {
            Generator::StartAddrsOffset(v) => {
                s.append("startAddrsOffset ");
                crate::text::push_dec_i64(&mut s, v as i64);
            },
            Generator::EndAddrsOffset(v) => {
                s.append("endAddrsOffset ");
                crate::text::push_dec_i64(&mut s, v as i64);
            },
            Generator::StartloopAddrsOffset(v) => {
                s.append("startloopAddrsOffset ");
                crate::text::push_dec_i64(&mut s, v as i64);
            },
            Generator::EndloopAddrsOffset(v) => {
                s.append("endloopAddrsOffset ");
                crate::text::push_dec_i64(&mut s, v as i64);
            },
            Generator::StartAddrsCoarseOffset(v) => {
                s.append("startAddrsCoarseOffset ");
                crate::text::push_dec_i64(&mut s, v as i64);
            },
            Generator::ModLfoToPitch(v) => {
                s.append("modLfoToPitch ");
                crate::text::push_dec_i64(&mut s, v as i64);
            },
            Generator::VibLfoToPitch(v) => {
                s.append("vibLfoToPitch ");
                crate::text::push_dec_i64(&mut s, v as i64);
            },
            Generator::ModEnvToPitch(v) => {
                s.append("modEnvToPitch ");
                crate::text::push_dec_i64(&mut s, v as i64);
            },
            Generator::InitialFilterFc(v) => {
                s.append("initialFilterFc ");
                crate::text::push_dec_i64(&mut s, v as i64);
            },
            Generator::InitialFilterQ(v) => {
                s.append("initialFilterQ ");
                crate::text::push_dec_i64(&mut s, v as i64);
            },
            Generator::ModLfoToFilterFc(v) => {
                s.append("modLfoToFilterFc ");
                crate::text::push_dec_i64(&mut s, v as i64);
            },
            Generator::ModEnvToFilterFc(v) => {
                s.append("modEnvToFilterFc ");
                crate::text::push_dec_i64(&mut s, v as i64);
            },
            Generator::EndAddrsCoarseOffset(v) => {
                s.append("endAddrsCoarseOffset ");
                crate::text::push_dec_i64(&mut s, v as i64);
            },
            Generator::ModLfoToVolume(v) => {
                s.append("modLfoToVolume ");
                crate::text::push_dec_i64(&mut s, v as i64);
            },
            Generator::ChorusEffectsSend(v) => {
                s.append("chorusEffectsSend ");
                crate::text::push_dec_i64(&mut s, v as i64);
            },
            Generator::ReverbEffectsSend(v) => {
                s.append("reverbEffectsSend ");
                crate::text::push_dec_i64(&mut s, v as i64);
            },
            Generator::Pan(v) => {
                s.append("pan ");
                crate::text::push_dec_i64(&mut s, v as i64);
            },
            Generator::DelayModLFO(v) => {
                s.append("delayModLFO ");
                crate::text::push_dec_i64(&mut s, v as i64);
            },
            Generator::FreqModLFO(v) => {
                s.append("freqModLFO ");
                crate::text::push_dec_i64(&mut s, v as i64);
            },
            Generator::DelayVibLFO(v) => {
                s.append("delayVibLFO ");
                crate::text::push_dec_i64(&mut s, v as i64);
            },
            Generator::FreqVibLFO(v) => {
                s.append("freqVibLFO ");
                crate::text::push_dec_i64(&mut s, v as i64);
            },
            Generator::DelayModEnv(v) => {
                s.append("delayModEnv ");
                crate::text::push_dec_i64(&mut s, v as i64);
            },
            Generator::AttackModEnv(v) => {
                s.append("attackModEnv ");
                crate::text::push_dec_i64(&mut s, v as i64);
            },
            Generator::HoldModEnv(v) => {
                s.append("holdModEnv ");
                crate::text::push_dec_i64(&mut s, v as i64);
            },
            Generator::DecayModEnv(v) => {
                s.append("decayModEnv ");
                crate::text::push_dec_i64(&mut s, v as i64);
            },
            Generator::SustainModEnv(v) => {
                s.append("sustainModEnv ");
                crate::text::push_dec_i64(&mut s, v as i64);
            },
            Generator::ReleaseModEnv(v) => {
                s.append("releaseModEnv ");
                crate::text::push_dec_i64(&mut s, v as i64);
            },
            Generator::KeynumToModEnvHold(v) => {
                s.append("keynumToModEnvHold ");
                crate::text::push_dec_i64(&mut s, v as i64);
            },
            Generator::KeynumToModEnvDecay(v) => {
                s.append("keynumToModEnvDecay ");
                crate::text::push_dec_i64(&mut s, v as i64);
            },
            Generator::DelayVolEnv(v) => {
                s.append("delayVolEnv ");
                crate::text::push_dec_i64(&mut s, v as i64);
            },
            Generator::SustainVolEnv(v) => {
                s.append("sustainVolEnv ");
                crate::text::push_dec_i64(&mut s, v as i64);
            },
            Generator::AttackVolEnv(v) => {
                s.append("attackVolEnv ");
                crate::text::push_dec_i64(&mut s, v as i64);
            },
            Generator::HoldVolEnv(v) => {
                s.append("holdVolEnv ");
                crate::text::push_dec_i64(&mut s, v as i64);
            },
            Generator::DecayVolEnv(v) => {
                s.append("decayVolEnv ");
                crate::text::push_dec_i64(&mut s, v as i64);
            },
            Generator::ReleaseVolEnv(v) => {
                s.append("releaseVolEnv ");
                crate::text::push_dec_i64(&mut s, v as i64);
            },
            Generator::KeynumToVolEnvHold(v) => {
                s.append("keynumToVolEnvHold ");
                crate::text::push_dec_i64(&mut s, v as i64);
            },
            Generator::KeynumToVolEnvDecay(v) => {
                s.append("keynumToVolEnvDecay ");
                crate::text::push_dec_i64(&mut s, v as i64);
            },
            Generator::StartloopAddrsCoarseOffset(v) => {
                s.append("startloopAddrsCoarseOffset ");
                crate::text::push_dec_i64(&mut s, v as i64);
            },
            Generator::Keynum(v) => {
                s.append("keynum ");
                crate::text::push_dec_i64(&mut s, v as i64);
            },
            Generator::Velocity(v) => {
                s.append("velocity ");
                crate::text::push_dec_i64(&mut s, v as i64);
            },
            Generator::InitialAttenuation(v) => {
                s.append("initialAttenuation ");
                crate::text::push_dec_i64(&mut s, v as i64);
            },
            Generator::EndloopAddrsCoarseOffset(v) => {
                s.append("endloopAddrsCoarseOffset ");
                crate::text::push_dec_i64(&mut s, v as i64);
            },
            Generator::CoarseTune(v) => {
                s.append("coarseTune ");
                crate::text::push_dec_i64(&mut s, v as i64);
            },
            Generator::FineTune(v) => {
                s.append("fineTune ");
                crate::text::push_dec_i64(&mut s, v as i64);
            },
            Generator::ScaleTuning(v) => {
                s.append("scaleTuning ");
                crate::text::push_dec_i64(&mut s, v as i64);
            },
            Generator::ExclusiveClass(v) => {
                s.append("exclusiveClass ");
                crate::text::push_dec_i64(&mut s, v as i64);
            },
            Generator::OverridingRootKey(v) => {
                s.append("overridingRootKey ");
                crate::text::push_dec_i64(&mut s, v as i64);
            },
            Generator::Instrument(v) => {
                s.append("instrument ");
                crate::text::push_dec_i64(&mut s, v as i64);
            },
            Generator::SampleID(v) => {
                s.append("sampleID ");
                crate::text::push_dec_i64(&mut s, v as i64);
            },
            Generator::KeyRange(l, h) => {
                s.append("keyRange ");
                crate::text::push_dec_i64(&mut s, l as i64);
                s.append(" ");
                crate::text::push_dec_i64(&mut s, h as i64);
            },
            Generator::VelRange(l, h) => {
                s.append("velRange ");
                crate::text::push_dec_i64(&mut s, l as i64);
                s.append(" ");
                crate::text::push_dec_i64(&mut s, h as i64);
            },
            Generator::SampleModes(m) => match m {
                LoopMode::NoLoop => s.append("sampleModes noLoop"),
                LoopMode::ContinuousLoop => s.append("sampleModes continuousLoop"),
                LoopMode::ReleaseLoop => s.append("sampleModes releaseLoop"),
            },
            Generator::EndOper => s.append("endOper"),
            Generator::Unused => s.append("unused"),
        }
        assert(s@ =~= spec_generator_text(*self));
        s
    }
}


} // verus!
