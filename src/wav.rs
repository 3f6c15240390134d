//! Encoding of scaled audio samples into an in-memory 16-bit PCM WAV file.
use vstd::prelude::*;

verus! {

/// Sample rate of every encoded container, in Hz.
pub const SAMPLE_RATE: u32 = 16000;

/// Channel count of every encoded container (mono).
pub const CHANNELS: u16 = 1;

/// Bits per sample of every encoded container.
pub const BITS_PER_SAMPLE: u16 = 16;

/// Size of the canonical RIFF/WAVE header that precedes the sample data.
pub const HEADER_LEN: usize = 44;

/// The most samples a WAV container can hold: the RIFF size field
/// (`36 + 2 * n`) must fit in 32 bits.
pub const MAX_SAMPLES: usize = 2147483629;

/// The value of a scaled sample once limited to the signed 16-bit range.
pub open spec fn clamp_spec(x: int) -> int {
    if x < -32768 {
        -32768
    } else if x > 32767 {
        32767
    } else {
        x
    }
}

/// Every scaled sample of `s`, limited to the signed 16-bit range.
pub open spec fn clamp_all(s: Seq<i32>) -> Seq<i16> {
    s.map_values(|x: i32| clamp_spec(x as int) as i16)
}

/// Little-endian encoding of `v` in two bytes.
pub open spec fn le16(v: nat) -> Seq<u8> {
    seq![(v % 256) as u8, ((v / 256) % 256) as u8]
}

/// Little-endian encoding of `v` in four bytes.
pub open spec fn le32(v: nat) -> Seq<u8> {
    seq![
        (v % 256) as u8,
        ((v / 256) % 256) as u8,
        ((v / 65536) % 256) as u8,
        ((v / 16777216) % 256) as u8,
    ]
}

/// The 16-bit two's complement pattern of a sample.
pub open spec fn sample_bits(x: i16) -> nat {
    if x < 0 {
        (x + 65536) as nat
    } else {
        x as nat
    }
}

/// The data chunk payload: each sample as two little-endian bytes.
pub open spec fn sample_bytes(s: Seq<i16>) -> Seq<u8>
    decreases s.len(),
{
    if s.len() == 0 {
        Seq::empty()
    } else {
        sample_bytes(s.drop_last()) + le16(sample_bits(s.last()))
    }
}

/// The four ASCII bytes of a RIFF chunk tag.
pub open spec fn tag(a: u8, b: u8, c: u8, d: u8) -> Seq<u8> {
    seq![a, b, c, d]
}

/// A complete integer-PCM WAV file with 16-bit samples, `channels` channels
/// and `rate` samples per second, in the canonical 44-byte header layout.
pub open spec fn wav_file(channels: nat, rate: nat, s: Seq<i16>) -> Seq<u8> {
    let data_len = 2 * s.len();
    tag(0x52, 0x49, 0x46, 0x46) + le32(36 + data_len) + tag(0x57, 0x41, 0x56, 0x45)
        + tag(0x66, 0x6d, 0x74, 0x20) + le32(16) + le16(1) + le16(channels) + le32(rate)
        + le32(rate * 2 * channels) + le16(2 * channels) + le16(16)
        + tag(0x64, 0x61, 0x74, 0x61) + le32(data_len) + sample_bytes(s)
}

/// The container that encoding `samples` produces: mono, 16-bit, 16 kHz.
pub open spec fn encoded(samples: Seq<i32>) -> Seq<u8> {
    wav_file(CHANNELS as nat, SAMPLE_RATE as nat, clamp_all(samples))
}

/// Unsigned little-endian value of the two bytes of `b` at `at`.
pub open spec fn read_le16(b: Seq<u8>, at: int) -> nat {
    (b[at] + 256 * b[at + 1]) as nat
}

/// Unsigned little-endian value of the four bytes of `b` at `at`.
pub open spec fn read_le32(b: Seq<u8>, at: int) -> nat {
    (b[at] + 256 * b[at + 1] + 65536 * b[at + 2] + 16777216 * b[at + 3]) as nat
}

/// Signed value of a 16-bit two's complement pattern.
pub open spec fn signed16(u: nat) -> int {
    if u >= 32768 {
        u - 65536
    } else {
        u as int
    }
}

/// Limits a scaled sample (a normalized sample times `i16::MAX`, truncated
/// toward zero) to the signed 16-bit range, so that out-of-range input
/// saturates instead of wrapping.
pub fn clamp_sample(x: i32) -> (r: i16)
    ensures
        r as int == clamp_spec(x as int),
{
    if x < -32768 {
        -32768
    } else if x > 32767 {
        32767
    } else {
        x as i16
    }
}

/// The error type of hound's reader and writer.
#[verifier::external_type_specification]
#[verifier::external_body]
pub struct ExHoundError(hound::Error);

/// Relies on hound's `WavWriter` over an in-memory cursor: `new` writes the
/// 44-byte PCMWAVEFORMAT header (one or two channels, 16 bits), each
/// `write_sample` of an `i16` appends it little-endian, and `finalize`
/// patches the RIFF size (`36 + data`) and the data length. Writes and seeks
/// on an in-memory cursor do not fail, and `finalize` reports an error only
/// for a partial frame. The writer borrows the buffer, so the sample loop
/// cannot leave this body.
#[verifier::external_body]
fn write_pcm16_wav(channels: u16, rate: u32, bits: u16, samples: &Vec<i16>) -> (r: Result<Vec<u8>, hound::Error>)
    requires
        1 <= channels <= 2,
        bits == 16,
        0 < rate,
        rate as int * 2 * channels as int <= u32::MAX,
        36 + 2 * samples@.len() <= u32::MAX,
    ensures
        samples@.len() % (channels as nat) == 0 ==> r is Ok,
        r matches Ok(b) ==> b@ == wav_file(channels as nat, rate as nat, samples@),
{
    let spec = hound::WavSpec { channels, sample_rate: rate, bits_per_sample: bits, sample_format: hound::SampleFormat::Int };
    let mut buffer = std::io::Cursor::new(Vec::new());
    let mut writer = hound::WavWriter::new(&mut buffer, spec)?;
    for s in samples.iter() {
        writer.write_sample(*s)?;
    }
    writer.finalize()?;
    Ok(buffer.into_inner())
}

/// Why encoding failed.
#[derive(Debug, Clone, PartialEq, Eq)]
pub enum EncodeError {
    /// More samples than a WAV container can describe.
    TooLong,
    /// The container writer reported a failure, with its message.
    Writer(String),
}

/// Encodes scaled samples into a mono, 16-bit, 16 kHz WAV file in memory.
/// Each sample is first limited to the signed 16-bit range. Succeeds for
/// every input a WAV container can describe, the empty one included.
pub fn encode_wav_in_memory(samples: &Vec<i32>) -> (r: Result<Vec<u8>, EncodeError>)
    ensures
        samples@.len() > MAX_SAMPLES <==> r == Err::<Vec<u8>, EncodeError>(EncodeError::TooLong),
        samples@.len() <= MAX_SAMPLES ==> r is Ok,
        r matches Ok(b) ==> b@ == encoded(samples@),
{
    if samples.len() > MAX_SAMPLES {
        return Err(EncodeError::TooLong);
    }
    let mut pcm: Vec<i16> = Vec::with_capacity(samples.len());
    let mut i: usize = 0;
    while i < samples.len()
        invariant
            i <= samples@.len(),
            pcm@ == clamp_all(samples@.subrange(0, i as int)),
        decreases samples@.len() - i,
    {
        pcm.push(clamp_sample(samples[i]));
        i += 1;
        assert(clamp_all(samples@.subrange(0, i as int)) =~= clamp_all(samples@.subrange(0, i - 1)).push(
            clamp_spec(samples@[i - 1] as int) as i16,
        ));
    }
    assert(samples@.subrange(0, samples@.len() as int) =~= samples@);
    match write_pcm16_wav(CHANNELS, SAMPLE_RATE, BITS_PER_SAMPLE, &pcm) {
        Ok(b) => Ok(b),
        Err(e) => Err(EncodeError::Writer(e.to_string())),
    }
}

proof fn lemma_le16(v: nat)
    requires
        v < 65536,
    ensures
        le16(v).len() == 2,
        read_le16(le16(v), 0) == v,
{
    assert(v % 256 + 256 * ((v / 256) % 256) == v) by (nonlinear_arith)
        requires v < 65536;
}

proof fn lemma_le32(v: nat)
    requires
        v < 4294967296,
    ensures
        le32(v).len() == 4,
        read_le32(le32(v), 0) == v,
{
    assert(v % 256 + 256 * ((v / 256) % 256) + 65536 * ((v / 65536) % 256) + 16777216 * ((v
        / 16777216) % 256) == v) by (nonlinear_arith)
        requires v < 4294967296;
}

proof fn lemma_sample_bytes(s: Seq<i16>)
    ensures
        sample_bytes(s).len() == 2 * s.len(),
        forall|i: int|
            0 <= i < s.len() ==> #[trigger] sample_bytes(s).subrange(2 * i, 2 * i + 2) == le16(
                sample_bits(s[i]),
            ),
    decreases s.len(),
{
    if s.len() > 0 {
        let p = s.drop_last();
        lemma_sample_bytes(p);
        let b = sample_bytes(s);
        assert forall|i: int| 0 <= i < s.len() implies #[trigger] b.subrange(2 * i, 2 * i + 2)
            == le16(sample_bits(s[i])) by {
            if i < p.len() {
                assert(b.subrange(2 * i, 2 * i + 2) =~= sample_bytes(p).subrange(2 * i, 2 * i + 2));
                assert(p[i] == s[i]);
            } else {
                assert(b.subrange(2 * i, 2 * i + 2) =~= le16(sample_bits(s.last())));
            }
        }
    }
}

/// Every encoded container is a mono, 16-bit integer PCM, 16 kHz WAV file:
/// its header fields hold exactly those values, and its size fields agree
/// with the number of samples.
pub proof fn lemma_encoded_header(samples: Seq<i32>)
    requires
        samples.len() <= MAX_SAMPLES,
    ensures
        encoded(samples).len() == HEADER_LEN + 2 * samples.len(),
        encoded(samples).subrange(0, 4) == tag(0x52, 0x49, 0x46, 0x46),
        read_le32(encoded(samples), 4) == 36 + 2 * samples.len(),
        encoded(samples).subrange(8, 16) == tag(0x57, 0x41, 0x56, 0x45) + tag(0x66, 0x6d, 0x74, 0x20),
        read_le32(encoded(samples), 16) == 16,
        read_le16(encoded(samples), 20) == 1,
        read_le16(encoded(samples), 22) == CHANNELS,
        read_le32(encoded(samples), 24) == SAMPLE_RATE,
        read_le32(encoded(samples), 28) == 2 * SAMPLE_RATE,
        read_le16(encoded(samples), 32) == 2,
        read_le16(encoded(samples), 34) == BITS_PER_SAMPLE,
        encoded(samples).subrange(36, 40) == tag(0x64, 0x61, 0x74, 0x61),
        read_le32(encoded(samples), 40) == 2 * samples.len(),
{
    let c = clamp_all(samples);
    let n = 2 * samples.len();
    lemma_sample_bytes(c);
    lemma_le32(36 + n);
    lemma_le32(16);
    lemma_le16(1);
    lemma_le32(16000);
    lemma_le32(32000);
    lemma_le16(2);
    lemma_le16(16);
    lemma_le32(n);
    let b = encoded(samples);
    assert(b.subrange(4, 8) =~= le32(36 + n));
    assert(b.subrange(16, 20) =~= le32(16));
    assert(b.subrange(20, 22) =~= le16(1));
    assert(b.subrange(22, 24) =~= le16(1));
    assert(b.subrange(24, 28) =~= le32(16000));
    assert(b.subrange(28, 32) =~= le32(32000));
    assert(b.subrange(32, 34) =~= le16(2));
    assert(b.subrange(34, 36) =~= le16(16));
    assert(b.subrange(40, 44) =~= le32(n));
    assert(b.subrange(0, 4) =~= tag(0x52, 0x49, 0x46, 0x46));
    assert(b.subrange(8, 16) =~= tag(0x57, 0x41, 0x56, 0x45) + tag(0x66, 0x6d, 0x74, 0x20));
    assert(b.subrange(36, 40) =~= tag(0x64, 0x61, 0x74, 0x61));
}

/// Each sample stored in an encoded container is its input limited to the
/// signed 16-bit range: out-of-range input saturates at -32768 or 32767 and
/// never wraps around.
pub proof fn lemma_encoded_samples_clamped(samples: Seq<i32>, i: int)
    requires
        samples.len() <= MAX_SAMPLES,
        0 <= i < samples.len(),
    ensures
        -32768 <= signed16(read_le16(encoded(samples), HEADER_LEN + 2 * i)) <= 32767,
        signed16(read_le16(encoded(samples), HEADER_LEN + 2 * i)) == clamp_spec(samples[i] as int),
{
    let c = clamp_all(samples);
    lemma_sample_bytes(c);
    lemma_le16(sample_bits(c[i]));
    let b = encoded(samples);
    let d = sample_bytes(c);
    assert(b.subrange(44, b.len() as int) =~= d);
    assert(b.subrange(44 + 2 * i, 46 + 2 * i) =~= d.subrange(2 * i, 2 * i + 2));
    assert(read_le16(b, 44 + 2 * i) == read_le16(d.subrange(2 * i, 2 * i + 2), 0));
}

} // verus!
