use vstd::prelude::*;

verus! {

/// Audio is recorded and stored at this many frames per second.
pub const SAMPLE_RATE: u32 = 44100;

/// Little-endian bytes of a 16-bit value.
pub open spec fn le16(x: nat) -> Seq<u8> {
    seq![(x % 256) as u8, ((x / 256) % 256) as u8]
}

/// Little-endian bytes of a 32-bit value.
pub open spec fn le32(x: nat) -> Seq<u8> {
    le16(x % 65536) + le16(x / 65536)
}

/// The 16-bit value stored little-endian at position `i`.
pub open spec fn u16_at(b: Seq<u8>, i: int) -> nat {
    (b[i] + 256 * b[i + 1]) as nat
}

/// The 32-bit value stored little-endian at position `i`.
pub open spec fn u32_at(b: Seq<u8>, i: int) -> nat {
    u16_at(b, i) + 65536 * u16_at(b, i + 2)
}

pub open spec fn riff_tag() -> Seq<u8> {
    seq![82u8, 73u8, 70u8, 70u8]
}

pub open spec fn wave_tag() -> Seq<u8> {
    seq![87u8, 65u8, 86u8, 69u8]
}

pub open spec fn fmt_tag() -> Seq<u8> {
    seq![102u8, 109u8, 116u8, 32u8]
}

pub open spec fn data_tag() -> Seq<u8> {
    seq![100u8, 97u8, 116u8, 97u8]
}

/// The 44-byte header of a mono, 16-bit integer PCM file whose data chunk
/// holds `data_len` bytes.
pub open spec fn pcm16_mono_header(sample_rate: nat, data_len: nat) -> Seq<u8> {
    riff_tag() + le32(36 + data_len) + wave_tag() + fmt_tag() + le32(16) + le16(1) + le16(1)
        + le32(sample_rate) + le32(2 * sample_rate) + le16(2) + le16(16) + data_tag() + le32(
        data_len,
    )
}

/// The samples as consecutive little-endian 16-bit words.
pub open spec fn pcm16_data(samples: Seq<i16>) -> Seq<u8> {
    Seq::new(2 * samples.len(), |i: int| le16((samples[i / 2] as u16) as nat)[i % 2])
}

/// A complete mono, 16-bit integer PCM file holding `samples`.
pub open spec fn pcm16_mono_file(sample_rate: nat, samples: Seq<i16>) -> Seq<u8> {
    pcm16_mono_header(sample_rate, 2 * samples.len()) + pcm16_data(samples)
}

#[verifier::external_type_specification]
#[verifier::external_body]
pub struct ExHoundError(hound::Error);

/// Relies on hound's `WavWriter::new`, `write_sample` and `finalize`: for one
/// channel of 16-bit integers they write a PCMWAVEFORMAT header, each sample
/// as a little-endian word, and then fill in the RIFF and data sizes.
/// hound divides by the rate and keeps the sizes in `u32` counters. Into an
/// in-memory cursor, with a supported bit depth and a single channel, none of
/// the calls fails.
#[verifier::external_body]
fn write_pcm16_mono(samples: &[i16], sample_rate: u32) -> (r: Result<Vec<u8>, hound::Error>)
    requires
        0 < sample_rate <= u32::MAX / 2,
        36 + 2 * samples@.len() <= u32::MAX,
    ensures
        r is Ok,
        r matches Ok(bytes) ==> bytes@ == pcm16_mono_file(sample_rate as nat, samples@),
{
    let spec = hound::WavSpec {
        channels: 1,
        sample_rate,
        bits_per_sample: 16,
        sample_format: hound::SampleFormat::Int,
    };
    let mut out = std::io::Cursor::new(Vec::new());
    let mut writer = hound::WavWriter::new(&mut out, spec)?;
    for &s in samples {
        writer.write_sample(s)?;
    }
    writer.finalize()?;
    Ok(out.into_inner())
}

/// Why a buffer could not be encoded.
#[derive(Clone, Copy, Debug, PartialEq, Eq, Structural)]
pub enum WavError {
    /// The sample rate is zero, or twice it does not fit in 32 bits.
    UnsupportedRate,
    /// The data chunk would not fit the 32-bit sizes of the format.
    TooLong,
}

/// Whether a mono 16-bit file at this rate can state its byte rate.
pub open spec fn rate_supported(sample_rate: nat) -> bool {
    0 < sample_rate <= u32::MAX / 2
}

/// Whether the sizes of a file holding this many samples fit in 32 bits.
pub open spec fn length_supported(n: nat) -> bool {
    36 + 2 * n <= u32::MAX
}

/// Encodes samples as a mono, 16-bit integer PCM WAV file in memory.
pub fn encode_wav(samples: &[i16], sample_rate: u32) -> (r: Result<Vec<u8>, WavError>)
    ensures
        !rate_supported(sample_rate as nat) <==> r == Err::<Vec<u8>, WavError>(
            WavError::UnsupportedRate,
        ),
        rate_supported(sample_rate as nat) && !length_supported(samples@.len()) <==> r == Err::<
            Vec<u8>,
            WavError,
        >(WavError::TooLong),
        rate_supported(sample_rate as nat) && length_supported(samples@.len()) ==> r is Ok,
        r matches Ok(bytes) ==> bytes@ == pcm16_mono_file(sample_rate as nat, samples@),
{
    if sample_rate == 0 || sample_rate > u32::MAX / 2 {
        return Err(WavError::UnsupportedRate);
    }
    if samples.len() > ((u32::MAX - 36) / 2) as usize {
        return Err(WavError::TooLong);
    }
    match write_pcm16_mono(samples, sample_rate) {
        Ok(bytes) => Ok(bytes),
        // not reached: the writer does not fail on supported input
        Err(_) => Err(WavError::TooLong),
    }
}

/// The format fields of a canonical 44-byte PCM WAV header.
#[derive(Clone, Copy, Debug, PartialEq, Eq, Structural)]
pub struct WavHeader {
    pub channels: u16,
    pub sample_rate: u32,
    pub byte_rate: u32,
    pub block_align: u16,
    pub bits_per_sample: u16,
    pub data_len: u32,
}

/// Whether `tag` stands at position `i` of `b`.
pub open spec fn tag_at(b: Seq<u8>, i: int, tag: Seq<u8>) -> bool {
    b.subrange(i, i + tag.len()) == tag
}

/// The header that `b` begins with, if it begins with a canonical PCM header:
/// RIFF/WAVE tags, a 16-byte fmt chunk of integer PCM, then the data chunk.
pub open spec fn header_of(b: Seq<u8>) -> Option<WavHeader> {
    if b.len() >= 44 && tag_at(b, 0, riff_tag()) && tag_at(b, 8, wave_tag()) && tag_at(
        b,
        12,
        fmt_tag(),
    ) && u32_at(b, 16) == 16 && u16_at(b, 20) == 1 && tag_at(b, 36, data_tag()) {
        Some(
            WavHeader {
                channels: u16_at(b, 22) as u16,
                sample_rate: u32_at(b, 24) as u32,
                byte_rate: u32_at(b, 28) as u32,
                block_align: u16_at(b, 32) as u16,
                bits_per_sample: u16_at(b, 34) as u16,
                data_len: u32_at(b, 40) as u32,
            },
        )
    } else {
        None
    }
}

fn read_u16(b: &[u8], i: usize) -> (r: u16)
    requires
        i + 2 <= b@.len(),
    ensures
        r as nat == u16_at(b@, i as int),
{
    b[i] as u16 + 256 * (b[i + 1] as u16)
}

fn read_u32(b: &[u8], i: usize) -> (r: u32)
    requires
        i + 4 <= b@.len(),
    ensures
        r as nat == u32_at(b@, i as int),
{
    let len: usize = b.len();
    assert(i + 2 < len);
    read_u16(b, i) as u32 + 65536 * (read_u16(b, i + 2) as u32)
}

fn has_tag(b: &[u8], i: usize, tag: &[u8; 4]) -> (r: bool)
    requires
        i + 4 <= b@.len(),
    ensures
        r == tag_at(b@, i as int, tag@),
{
    let r = b[i] == tag[0] && b[i + 1] == tag[1] && b[i + 2] == tag[2] && b[i + 3] == tag[3];
    assert(r ==> b@.subrange(i as int, i + 4) =~= tag@);
    assert(b@.subrange(i as int, i + 4) == tag@ ==> b@.subrange(i as int, i + 4)[0] == tag@[0]
        && b@.subrange(i as int, i + 4)[1] == tag@[1] && b@.subrange(i as int, i + 4)[2]
        == tag@[2] && b@.subrange(i as int, i + 4)[3] == tag@[3]);
    r
}

/// Reads the format fields of a canonical PCM WAV header; `None` when the
/// bytes do not begin with one.
pub fn read_header(b: &[u8]) -> (r: Option<WavHeader>)
    ensures
        r == header_of(b@),
{
    if b.len() < 44 {
        return None;
    }
    let riff: [u8; 4] = [82, 73, 70, 70];
    let wave: [u8; 4] = [87, 65, 86, 69];
    let fmt: [u8; 4] = [102, 109, 116, 32];
    let data: [u8; 4] = [100, 97, 116, 97];
    assert(riff@ =~= riff_tag());
    assert(wave@ =~= wave_tag());
    assert(fmt@ =~= fmt_tag());
    assert(data@ =~= data_tag());
    if has_tag(b, 0, &riff) && has_tag(b, 8, &wave) && has_tag(b, 12, &fmt) && read_u32(b, 16)
        == 16 && read_u16(b, 20) == 1 && has_tag(b, 36, &data) {
        Some(
            WavHeader {
                channels: read_u16(b, 22),
                sample_rate: read_u32(b, 24),
                byte_rate: read_u32(b, 28),
                block_align: read_u16(b, 32),
                bits_per_sample: read_u16(b, 34),
                data_len: read_u32(b, 40),
            },
        )
    } else {
        None
    }
}

proof fn le16_round_trip(x: nat)
    requires
        x < 65536,
    ensures
        le16(x).len() == 2,
        u16_at(le16(x), 0) == x,
{
    assert(x / 256 < 256);
}

proof fn le32_round_trip(x: nat)
    requires
        x < 4294967296,
    ensures
        le32(x).len() == 4,
        u32_at(le32(x), 0) == x,
{
    le16_round_trip(x % 65536);
    le16_round_trip(x / 65536);
    let b = le32(x);
    assert(b.subrange(2, 4) =~= le16(x / 65536));
    assert(u16_at(b, 2) == u16_at(le16(x / 65536), 0));
}

/// The header of every file the encoder writes reports one channel, the
/// requested rate, 16 bits per sample and two data bytes per sample.
pub proof fn encoded_header_matches(sample_rate: nat, samples: Seq<i16>)
    requires
        rate_supported(sample_rate),
        length_supported(samples.len()),
    ensures
        header_of(pcm16_mono_file(sample_rate, samples)) == Some(
            WavHeader {
                channels: 1,
                sample_rate: sample_rate as u32,
                byte_rate: (2 * sample_rate) as u32,
                block_align: 2,
                bits_per_sample: 16,
                data_len: (2 * samples.len()) as u32,
            },
        ),
{
    let n = 2 * samples.len();
    let f = pcm16_mono_file(sample_rate, samples);
    let h = pcm16_mono_header(sample_rate, n);
    le32_round_trip(36 + n);
    le32_round_trip(16);
    le16_round_trip(1);
    le32_round_trip(sample_rate);
    le32_round_trip(2 * sample_rate);
    le16_round_trip(2);
    le16_round_trip(16);
    le32_round_trip(n);
    assert(h.len() == 44);
    assert(f.subrange(0, 44) =~= h);
    assert(h.subrange(0, 4) =~= riff_tag());
    assert(h.subrange(8, 12) =~= wave_tag());
    assert(h.subrange(12, 16) =~= fmt_tag());
    assert(h.subrange(36, 40) =~= data_tag());
    assert(h.subrange(16, 20) =~= le32(16));
    assert(h.subrange(20, 22) =~= le16(1));
    assert(h.subrange(22, 24) =~= le16(1));
    assert(h.subrange(24, 28) =~= le32(sample_rate));
    assert(h.subrange(28, 32) =~= le32(2 * sample_rate));
    assert(h.subrange(32, 34) =~= le16(2));
    assert(h.subrange(34, 36) =~= le16(16));
    assert(h.subrange(40, 44) =~= le32(n));
    assert(f.subrange(0, 4) =~= riff_tag());
    assert(f.subrange(8, 12) =~= wave_tag());
    assert(f.subrange(12, 16) =~= fmt_tag());
    assert(f.subrange(36, 40) =~= data_tag());
}

} // verus!
