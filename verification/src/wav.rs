//! WAV file assembly: the PCM format header, the sampler-loop chunk, and the
//! whole file as one byte stream.

use vstd::prelude::*;

verus! {

/// The two little-endian bytes of a 16-bit field.
pub open spec fn spec_u16_bytes(x: u16) -> Seq<u8> {
    seq![(x % 0x100) as u8, (x / 0x100) as u8]
}

/// The four little-endian bytes of a 32-bit field.
pub open spec fn spec_u32_bytes(x: u32) -> Seq<u8> {
    seq![
        (x % 0x100) as u8,
        (x / 0x100 % 0x100) as u8,
        (x / 0x1_0000 % 0x100) as u8,
        (x / 0x100_0000) as u8,
    ]
}

/// The two's-complement 16-bit pattern of a signed sample.
pub open spec fn spec_i16_bits(x: i16) -> u16 {
    if x >= 0 {
        x as u16
    } else {
        (x + 0x1_0000) as u16
    }
}

/// A run of zero padding bytes.
pub open spec fn spec_zeros(n: nat) -> Seq<u8> {
    Seq::new(n, |i: int| 0u8)
}

fn push_u16_bytes(v: &mut Vec<u8>, x: u16)
    ensures
        final(v)@ == old(v)@ + spec_u16_bytes(x),
{
    v.push((x % 0x100) as u8);
    v.push((x / 0x100) as u8);
    assert(v@ =~= old(v)@ + spec_u16_bytes(x));
}

fn push_u32_bytes(v: &mut Vec<u8>, x: u32)
    ensures
        final(v)@ == old(v)@ + spec_u32_bytes(x),
{
    v.push((x % 0x100) as u8);
    v.push((x / 0x100 % 0x100) as u8);
    v.push((x / 0x1_0000 % 0x100) as u8);
    v.push((x / 0x100_0000) as u8);
    assert(v@ =~= old(v)@ + spec_u32_bytes(x));
}

fn push_zeros(v: &mut Vec<u8>, n: usize)
    ensures
        final(v)@ == old(v)@ + spec_zeros(n as nat),
{
    let mut i: usize = 0;
    while i < n
        invariant
            i <= n,
            v@ == old(v)@ + spec_zeros(i as nat),
        decreases n - i,
    {
        v.push(0);
        i = i + 1;
        assert(v@ =~= old(v)@ + spec_zeros(i as nat));
    }
}

/// A PCM format header.
#[derive(Debug, Copy, Clone, Hash, PartialEq, Eq)]
pub struct Header {
    pub audio_format: u16,
    pub channel_count: u16,
    pub sampling_rate: u32,
    pub bytes_per_second: u32,
    pub bytes_per_sample: u16,
    pub bits_per_sample: u16,
}

/// The 16-bit PCM header for a channel count and sampling rate.
pub open spec fn spec_header_new(channel_count: u16, sampling_rate: u32) -> Header {
    Header {
        audio_format: 1,
        channel_count,
        sampling_rate,
        bytes_per_second: (2 * channel_count * sampling_rate) as u32,
        bytes_per_sample: (2 * channel_count) as u16,
        bits_per_sample: 16,
    }
}

/// The sixteen serialized bytes of a format header.
pub open spec fn spec_header_bytes(h: Header) -> Seq<u8> {
    spec_u16_bytes(h.audio_format) + spec_u16_bytes(h.channel_count) + spec_u32_bytes(
        h.sampling_rate,
    ) + spec_u32_bytes(h.bytes_per_second) + spec_u16_bytes(h.bytes_per_sample)
        + spec_u16_bytes(h.bits_per_sample)
}

impl Default for Header {
    fn default() -> (r: Header)
        ensures
            r == (Header {
                audio_format: 0,
                channel_count: 0,
                sampling_rate: 0,
                bytes_per_second: 0,
                bytes_per_sample: 0,
                bits_per_sample: 0,
            }),
    {
        Header {
            audio_format: 0,
            channel_count: 0,
            sampling_rate: 0,
            bytes_per_second: 0,
            bytes_per_sample: 0,
            bits_per_sample: 0,
        }
    }
}

impl Header {
    /// A 16-bit PCM header for the channel count and sampling rate.
    pub fn new(channel_count: u16, sampling_rate: u32) -> (r: Header)
        requires
            channel_count <= 0x7FFF,
            2 * channel_count * sampling_rate <= u32::MAX,
        ensures
            r == spec_header_new(channel_count, sampling_rate),
    {
        let bits_per_sample: u16 = 16;
        Header {
            audio_format: 1,
            channel_count,
            sampling_rate,
            bits_per_sample,
            bytes_per_second: 2 * channel_count as u32 * sampling_rate,
            bytes_per_sample: 2 * channel_count,
        }
    }

    /// The sixteen serialized bytes of this header.
    pub fn bytes(&self) -> (r: Vec<u8>)
        ensures
            r@ == spec_header_bytes(*self),
    {
        let mut v: Vec<u8> = Vec::new();
        push_u16_bytes(&mut v, self.audio_format);
        push_u16_bytes(&mut v, self.channel_count);
        push_u32_bytes(&mut v, self.sampling_rate);
        push_u32_bytes(&mut v, self.bytes_per_second);
        push_u16_bytes(&mut v, self.bytes_per_sample);
        push_u16_bytes(&mut v, self.bits_per_sample);
        assert(v@ =~= spec_header_bytes(*self));
        v
    }
}

/// A sampler loop's direction.
#[derive(Debug, Copy, Clone, Hash, PartialEq, Eq)]
pub enum Loop {
    Forward,
    PingPong,
    Backward,
}

/// The serialized code of a loop direction.
pub open spec fn spec_loop_code(l: Loop) -> u32 {
    match l {
        Loop::Forward => 0,
        Loop::PingPong => 1,
        Loop::Backward => 2,
    }
}

impl Default for Loop {
    fn default() -> (r: Loop)
        ensures
            r == Loop::Forward,
    {
        Loop::Forward
    }
}

/// One sampler loop: a direction and a frame range.
#[derive(Debug, Copy, Clone, Hash, PartialEq, Eq)]
pub struct SampleLoop {
    pub id: u32,
    pub loop_type: Loop,
    pub start: u32,
    pub end: u32,
}

/// The 24 serialized bytes of one sampler loop (fraction and play count stay
/// zero).
pub open spec fn spec_sample_loop_bytes(s: SampleLoop) -> Seq<u8> {
    spec_u32_bytes(s.id) + spec_u32_bytes(spec_loop_code(s.loop_type)) + spec_u32_bytes(s.start)
        + spec_u32_bytes(s.end) + spec_zeros(8)
}

impl SampleLoop {
    /// The 24 serialized bytes of this loop.
    pub fn bytes(&self) -> (r: Vec<u8>)
        ensures
            r@ == spec_sample_loop_bytes(*self),
    {
        let mut v: Vec<u8> = Vec::new();
        push_u32_bytes(&mut v, self.id);
        let code: u32 = match self.loop_type {
            Loop::Forward => 0,
            Loop::PingPong => 1,
            Loop::Backward => 2,
        };
        push_u32_bytes(&mut v, code);
        push_u32_bytes(&mut v, self.start);
        push_u32_bytes(&mut v, self.end);
        push_zeros(&mut v, 8);
        assert(v@ =~= spec_sample_loop_bytes(*self));
        v
    }
}

/// A sampler chunk: the sample rate and the loops of one sample.
#[derive(Debug, Clone, Hash, PartialEq, Eq)]
pub struct SampleChunk {
    pub sample_rate: u32,
    pub sample_loops: Vec<SampleLoop>,
}

/// The serialized loop records, in order.
pub open spec fn spec_sample_loops_bytes(ls: Seq<SampleLoop>) -> Seq<u8>
    decreases ls.len(),
{
    if ls.len() == 0 {
        Seq::empty()
    } else {
        spec_sample_loops_bytes(ls.drop_last()) + spec_sample_loop_bytes(ls.last())
    }
}

/// The serialized sampler chunk: a 36-byte header holding the sample period
/// in nanoseconds and the loop count, then the loop records.
pub open spec fn spec_sample_chunk_bytes(c: SampleChunk) -> Seq<u8>
    recommends
        c.sample_rate > 0,
{
    spec_zeros(8) + spec_u32_bytes((1_000_000_000int / c.sample_rate as int) as u32) + spec_zeros(16)
        + spec_u32_bytes(c.sample_loops@.len() as u32) + spec_zeros(4) + spec_sample_loops_bytes(
        c.sample_loops@,
    )
}

impl SampleChunk {
    /// A sampler chunk holding one forward loop over `[start, end]`.
    pub fn new(sample_rate: u32, start: u32, end: u32) -> (r: SampleChunk)
        ensures
            r.sample_rate == sample_rate,
            r.sample_loops@ == seq![
                SampleLoop { id: 0, loop_type: Loop::Forward, start, end },
            ],
    {
        let sample_loop = SampleLoop { id: 0, loop_type: Loop::Forward, start, end };
        let mut loops: Vec<SampleLoop> = Vec::new();
        loops.push(sample_loop);
        proof {
            assert(loops@ =~= seq![SampleLoop { id: 0, loop_type: Loop::Forward, start, end }]);
        }
        SampleChunk { sample_rate, sample_loops: loops }
    }

    /// The serialized bytes of this sampler chunk.
    pub fn bytes(&self) -> (r: Vec<u8>)
        requires
            self.sample_rate > 0,
            self.sample_loops@.len() <= u32::MAX,
        ensures
            r@ == spec_sample_chunk_bytes(*self),
    {
        let mut v: Vec<u8> = Vec::new();
        push_zeros(&mut v, 8);
        push_u32_bytes(&mut v, 1_000_000_000 / self.sample_rate);
        push_zeros(&mut v, 16);
        push_u32_bytes(&mut v, self.sample_loops.len() as u32);
        push_zeros(&mut v, 4);
        let ghost head = v@;
        let mut i: usize = 0;
        while i < self.sample_loops.len()
            invariant
                i <= self.sample_loops@.len(),
                v@ == head + spec_sample_loops_bytes(self.sample_loops@.take(i as int)),
            decreases self.sample_loops@.len() - i,
        {
            proof {
                assert(self.sample_loops@.take(i as int + 1).drop_last()
                    =~= self.sample_loops@.take(i as int));
            }
            let mut lb = self.sample_loops[i].bytes();
            v.append(&mut lb);
            i = i + 1;
            assert(v@ =~= head + spec_sample_loops_bytes(self.sample_loops@.take(i as int)));
        }
        assert(self.sample_loops@.take(self.sample_loops@.len() as int)
            =~= self.sample_loops@);
        assert(v@ =~= spec_sample_chunk_bytes(*self));
        v
    }
}

/// The serialized PCM frames, two little-endian bytes each.
pub open spec fn spec_track_bytes(t: Seq<i16>) -> Seq<u8>
    decreases t.len(),
{
    if t.len() == 0 {
        Seq::empty()
    } else {
        spec_track_bytes(t.drop_last()) + spec_u16_bytes(spec_i16_bits(t.last()))
    }
}

/// The whole serialized WAV file: a RIFF container holding the format chunk,
/// the sampler chunk when one is given, and the PCM data chunk.
pub open spec fn spec_wav_bytes(h: Header, t: Seq<i16>, s: Option<SampleChunk>) -> Seq<u8> {
    let smpl = match s {
        Some(c) => seq![0x73u8, 0x6D, 0x70, 0x6C] + spec_u32_bytes(
            (36 + 24 * c.sample_loops@.len()) as u32,
        ) + spec_sample_chunk_bytes(c),
        None => Seq::empty(),
    };
    let data = seq![0x64u8, 0x61, 0x74, 0x61] + spec_u32_bytes((2 * t.len()) as u32)
        + spec_track_bytes(t);
    let body = seq![0x57u8, 0x41, 0x56, 0x45] + seq![0x66u8, 0x6D, 0x74, 0x20]
        + spec_u32_bytes(16) + spec_header_bytes(h) + smpl + data;
    seq![0x52u8, 0x49, 0x46, 0x46] + spec_u32_bytes(body.len() as u32) + body
}

/// Assembles a whole WAV file: format header, optional sampler chunk, and the
/// PCM track.
pub fn write(header: Header, track: &Vec<i16>, sample: Option<SampleChunk>) -> (r: Vec<u8>)
    requires
        track@.len() <= 0x0FFF_FFFF,
        match sample {
            Some(c) => c.sample_rate > 0 && c.sample_loops@.len() <= 1000,
            None => true,
        },
    ensures
        r@ == spec_wav_bytes(header, track@, sample),
{
    let mut body: Vec<u8> = Vec::new();
    body.push(0x57);
    body.push(0x41);
    body.push(0x56);
    body.push(0x45);
    body.push(0x66);
    body.push(0x6D);
    body.push(0x74);
    body.push(0x20);
    push_u32_bytes(&mut body, 16);
    let mut hb = header.bytes();
    body.append(&mut hb);
    match &sample {
        Some(c) => {
            body.push(0x73);
            body.push(0x6D);
            body.push(0x70);
            body.push(0x6C);
            push_u32_bytes(&mut body, 36 + 24 * c.sample_loops.len() as u32);
            let mut cb = c.bytes();
            body.append(&mut cb);
        },
        None => (),
    }
    body.push(0x64);
    body.push(0x61);
    body.push(0x74);
    body.push(0x61);
    push_u32_bytes(&mut body, 2 * track.len() as u32);
    let ghost dhead = body@;
    let mut i: usize = 0;
    while i < track.len()
        invariant
            i <= track@.len(),
            body@ == dhead + spec_track_bytes(track@.take(i as int)),
        decreases track@.len() - i,
    {
        proof {
            assert(track@.take(i as int + 1).drop_last() =~= track@.take(i as int));
        }
        let x = track[i];
        let bits: u16 = if x >= 0 {
            x as u16
        } else {
            (x as i32 + 0x1_0000) as u16
        };
        push_u16_bytes(&mut body, bits);
        i = i + 1;
        assert(body@ =~= dhead + spec_track_bytes(track@.take(i as int)));
    }
    assert(track@.take(track@.len() as int) =~= track@);
    let mut r: Vec<u8> = Vec::new();
    r.push(0x52);
    r.push(0x49);
    r.push(0x46);
    r.push(0x46);
    push_u32_bytes(&mut r, body.len() as u32);
    let ghost rhead = r@;
    let ghost body0 = body@;
    let mut bt = body;
    r.append(&mut bt);
    proof {
        assert(body0 =~= seq![0x57u8, 0x41, 0x56, 0x45] + seq![0x66u8, 0x6D, 0x74, 0x20]
            + spec_u32_bytes(16) + spec_header_bytes(header) + (match sample {
            Some(c) => seq![0x73u8, 0x6D, 0x70, 0x6C] + spec_u32_bytes(
                (36 + 24 * c.sample_loops@.len()) as u32,
            ) + spec_sample_chunk_bytes(c),
            None => Seq::empty(),
        }) + (seq![0x64u8, 0x61, 0x74, 0x61] + spec_u32_bytes((2 * track@.len()) as u32)
            + spec_track_bytes(track@)));
        assert(r@ =~= spec_wav_bytes(header, track@, sample));
    }
    r
}

} // verus!
