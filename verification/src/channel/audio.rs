//! How long a sound file plays, as far as its headers tell.

use vstd::prelude::*;
use vstd::string::*;

use crate::text;

verus! {

/// The usual name of a sound format.
pub open spec fn usual_format(format: Seq<char>) -> Seq<char> {
    let name = text::trimmed(format).map_values(|c: char| text::ascii_lower(c));
    if name == "mpeg"@ {
        "mp3"@
    } else if name == "wave"@ || name == "x-wav"@ {
        "wav"@
    } else {
        name
    }
}

/// Finds the usual name of a sound format.
pub fn normalize_audio_format(format: &str) -> (r: String)
    ensures
        r@ == usual_format(format@),
{
    let name = text::to_ascii_lowercase(text::trim(format));
    if text::str_eq(name.as_str(), "mpeg") {
        "mp3".to_owned()
    } else if text::str_eq(name.as_str(), "wave") || text::str_eq(name.as_str(), "x-wav") {
        "wav".to_owned()
    } else {
        name
    }
}

/// Four bytes as a number, the lowest first.
pub open spec fn little_endian(b: Seq<u8>, i: int) -> int {
    b[i] + 0x100 * b[i + 1] + 0x1_0000 * b[i + 2] + 0x100_0000 * b[i + 3]
}

/// Whether a sound file begins as a WAV file does.
pub open spec fn is_wav(b: Seq<u8>) -> bool {
    &&& b.len() >= 44
    &&& b.subrange(0, 4) == seq![0x52u8, 0x49, 0x46, 0x46]
    &&& b.subrange(8, 12) == seq![0x57u8, 0x41, 0x56, 0x45]
}

/// How long a WAV file plays: its size over its rate, both as its header tells.
pub open spec fn wav_duration(b: Seq<u8>) -> Option<int> {
    if !is_wav(b) || little_endian(b, 28) == 0 {
        None
    } else {
        Some(little_endian(b, 40) * 1000 / little_endian(b, 28))
    }
}

fn read_le(bytes: &[u8], i: usize) -> (r: u32)
    requires
        i + 4 <= bytes@.len(),
    ensures
        r == little_endian(bytes@, i as int),
{
    bytes[i] as u32 + 0x100 * (bytes[i + 1] as u32) + 0x1_0000 * (bytes[i + 2] as u32) + 0x100_0000
        * (bytes[i + 3] as u32)
}

/// Reads how long a WAV file plays, in milliseconds.
pub fn estimate_wav_duration_ms(bytes: &[u8]) -> (r: Option<u64>)
    ensures
        match r {
            Some(n) => wav_duration(bytes@) == Some(n as int),
            None => wav_duration(bytes@) is None,
        },
{
    if bytes.len() < 44 {
        return None;
    }
    let riff = bytes[0] == 0x52 && bytes[1] == 0x49 && bytes[2] == 0x46 && bytes[3] == 0x46;
    let wave = bytes[8] == 0x57 && bytes[9] == 0x41 && bytes[10] == 0x56 && bytes[11] == 0x45;
    proof {
        let head = bytes@.subrange(0, 4);
        let mark = bytes@.subrange(8, 12);
        assert(riff ==> head =~= seq![0x52u8, 0x49, 0x46, 0x46]);
        assert(wave ==> mark =~= seq![0x57u8, 0x41, 0x56, 0x45]);
        assert(head[0] == bytes@[0] && head[1] == bytes@[1] && head[2] == bytes@[2] && head[3]
            == bytes@[3]);
        assert(mark[0] == bytes@[8] && mark[1] == bytes@[9] && mark[2] == bytes@[10] && mark[3]
            == bytes@[11]);
    }
    if !riff || !wave {
        return None;
    }
    let byte_rate: u32 = read_le(bytes, 28);
    let data_size: u32 = read_le(bytes, 40);
    if byte_rate == 0 {
        return None;
    }
    Some((data_size as u64 * 1000) / (byte_rate as u64))
}

/// Versions of the MPEG sound format.
#[derive(Debug, Clone, Copy, PartialEq, Eq, Structural)]
pub enum MpegVersion {
    V1,
    V2,
    V25,
}

/// Layers of the MPEG sound format.
#[derive(Debug, Clone, Copy, PartialEq, Eq, Structural)]
pub enum MpegLayer {
    L1,
    L2,
    L3,
}

/// The version that two header bits stand for.
pub open spec fn version_of(bits: int) -> Option<MpegVersion> {
    if bits == 0 {
        Some(MpegVersion::V25)
    } else if bits == 2 {
        Some(MpegVersion::V2)
    } else if bits == 3 {
        Some(MpegVersion::V1)
    } else {
        None
    }
}

/// The layer that two header bits stand for.
pub open spec fn layer_of(bits: int) -> Option<MpegLayer> {
    if bits == 1 {
        Some(MpegLayer::L3)
    } else if bits == 2 {
        Some(MpegLayer::L2)
    } else if bits == 3 {
        Some(MpegLayer::L1)
    } else {
        None
    }
}

/// Reads the version from two header bits.
pub fn mpeg_version(bits: u32) -> (r: Option<MpegVersion>)
    ensures
        r == version_of(bits as int),
{
    match bits {
        0 => Some(MpegVersion::V25),
        2 => Some(MpegVersion::V2),
        3 => Some(MpegVersion::V1),
        _ => None,
    }
}

/// Reads the layer from two header bits.
pub fn mpeg_layer(bits: u32) -> (r: Option<MpegLayer>)
    ensures
        r == layer_of(bits as int),
{
    match bits {
        1 => Some(MpegLayer::L3),
        2 => Some(MpegLayer::L2),
        3 => Some(MpegLayer::L1),
        _ => None,
    }
}

/// The sample rates of a version.
pub open spec fn rates(version: MpegVersion) -> Seq<u32> {
    match version {
        MpegVersion::V1 => seq![44_100, 48_000, 32_000],
        MpegVersion::V2 => seq![22_050, 24_000, 16_000],
        MpegVersion::V25 => seq![11_025, 12_000, 8_000],
    }
}

/// The sample rate that a place in the table stands for.
pub open spec fn rate_at(version: MpegVersion, index: int) -> Option<u32> {
    if 0 <= index < 3 {
        Some(rates(version)[index])
    } else {
        None
    }
}

/// Looks up a sample rate.
pub fn mp3_sample_rate(version: MpegVersion, index: usize) -> (r: Option<u32>)
    ensures
        r == rate_at(version, index as int),
        r matches Some(rate) ==> rate >= 8_000,
{
    let table: [u32; 3] = match version {
        MpegVersion::V1 => [44_100, 48_000, 32_000],
        MpegVersion::V2 => [22_050, 24_000, 16_000],
        MpegVersion::V25 => [11_025, 12_000, 8_000],
    };
    assert(table@ =~= rates(version));
    if index < 3 {
        Some(table[index])
    } else {
        None
    }
}

/// The bit rates of a version and layer, in kilobits per second.
pub open spec fn bitrates(version: MpegVersion, layer: MpegLayer) -> Seq<u32> {
    match (version, layer) {
        (MpegVersion::V1, MpegLayer::L1) => seq![
            32, 64, 96, 128, 160, 192, 224, 256, 288, 320, 352, 384, 416, 448,
        ],
        (MpegVersion::V1, MpegLayer::L2) => seq![
            32, 48, 56, 64, 80, 96, 112, 128, 160, 192, 224, 256, 320, 384,
        ],
        (MpegVersion::V1, MpegLayer::L3) => seq![
            32, 40, 48, 56, 64, 80, 96, 112, 128, 160, 192, 224, 256, 320,
        ],
        (_, MpegLayer::L1) => seq![
            32, 48, 56, 64, 80, 96, 112, 128, 144, 160, 176, 192, 224, 256,
        ],
        (_, _) => seq![8, 16, 24, 32, 40, 48, 56, 64, 80, 96, 112, 128, 144, 160],
    }
}

/// The bit rate that a place in the table stands for; the first and the last place are not used.
pub open spec fn bitrate_at(version: MpegVersion, layer: MpegLayer, index: int) -> Option<u32> {
    if 0 < index < 15 {
        Some(bitrates(version, layer)[index - 1])
    } else {
        None
    }
}

/// Looks up a bit rate.
pub fn mp3_bitrate_kbps(version: MpegVersion, layer: MpegLayer, index: usize) -> (r: Option<u32>)
    ensures
        r == bitrate_at(version, layer, index as int),
        r matches Some(rate) ==> 8 <= rate <= 448,
{
    if index == 0 || index >= 15 {
        return None;
    }
    let table: [u32; 14] = match (version, layer) {
        (MpegVersion::V1, MpegLayer::L1) => [
            32, 64, 96, 128, 160, 192, 224, 256, 288, 320, 352, 384, 416, 448,
        ],
        (MpegVersion::V1, MpegLayer::L2) => [
            32, 48, 56, 64, 80, 96, 112, 128, 160, 192, 224, 256, 320, 384,
        ],
        (MpegVersion::V1, MpegLayer::L3) => [
            32, 40, 48, 56, 64, 80, 96, 112, 128, 160, 192, 224, 256, 320,
        ],
        (_, MpegLayer::L1) => [
            32, 48, 56, 64, 80, 96, 112, 128, 144, 160, 176, 192, 224, 256,
        ],
        (_, _) => [8, 16, 24, 32, 40, 48, 56, 64, 80, 96, 112, 128, 144, 160],
    };
    assert(table@ =~= bitrates(version, layer));
    Some(table[index - 1])
}

/// The factor between bits for each sample and the size of a frame.
pub open spec fn frame_coefficient(version: MpegVersion, layer: MpegLayer) -> int {
    match layer {
        MpegLayer::L1 => 12,
        MpegLayer::L2 => 144,
        MpegLayer::L3 => if version == MpegVersion::V1 {
            144
        } else {
            72
        },
    }
}

/// How many bytes a frame takes.
pub open spec fn frame_length(
    version: MpegVersion,
    layer: MpegLayer,
    bitrate_kbps: int,
    sample_rate: int,
    padding: int,
) -> int {
    let slots = frame_coefficient(version, layer) * (bitrate_kbps * 1000) / sample_rate + padding;
    if layer == MpegLayer::L1 {
        slots * 4
    } else {
        slots
    }
}

/// Computes how many bytes a frame takes, where its bit rate can be counted in bits.
pub fn mp3_frame_length_bytes(
    version: MpegVersion,
    layer: MpegLayer,
    bitrate_kbps: u32,
    sample_rate: u32,
    padding: u32,
) -> (r: Option<usize>)
    requires
        bitrate_kbps * 1000 <= u32::MAX ==> {
            &&& sample_rate > 0
            &&& frame_coefficient(version, layer) * (bitrate_kbps * 1000) <= u32::MAX
            &&& frame_length(
                version,
                layer,
                bitrate_kbps as int,
                sample_rate as int,
                padding as int,
            ) <= u32::MAX
        },
    ensures
        match r {
            Some(n) => bitrate_kbps * 1000 <= u32::MAX && n == frame_length(
                version,
                layer,
                bitrate_kbps as int,
                sample_rate as int,
                padding as int,
            ),
            None => bitrate_kbps * 1000 > u32::MAX,
        },
{
    if bitrate_kbps > u32::MAX / 1000 {
        return None;
    }
    let bitrate: u32 = bitrate_kbps * 1000;
    let coefficient: u32 = match layer {
        MpegLayer::L1 => 12,
        MpegLayer::L2 => 144,
        MpegLayer::L3 => if version == MpegVersion::V1 {
            144
        } else {
            72
        },
    };
    let product: u32 = coefficient * bitrate;
    let quotient: u32 = product / sample_rate;
    assert(quotient >= 0 && padding >= 0);
    Some(
        match layer {
            MpegLayer::L1 => ((quotient + padding) * 4) as usize,
            _ => (quotient + padding) as usize,
        },
    )
}

/// How many samples a frame holds.
pub open spec fn frame_samples(version: MpegVersion, layer: MpegLayer) -> int {
    match (version, layer) {
        (_, MpegLayer::L1) => 384,
        (_, MpegLayer::L2) => 1152,
        (MpegVersion::V1, MpegLayer::L3) => 1152,
        (_, MpegLayer::L3) => 576,
    }
}

/// Looks up how many samples a frame holds.
pub fn mp3_samples_per_frame(version: MpegVersion, layer: MpegLayer) -> (r: u32)
    ensures
        r == frame_samples(version, layer),
{
    match (version, layer) {
        (_, MpegLayer::L1) => 384,
        (_, MpegLayer::L2) => 1152,
        (MpegVersion::V1, MpegLayer::L3) => 1152,
        (_, MpegLayer::L3) => 576,
    }
}

/// What the header of an MPEG frame tells.
pub struct Frame {
    pub rate: u32,
    pub samples: int,
    pub length: int,
}

/// The frame whose header stands at place `i`, where one does: eleven set bits, then two of the
/// version, two of the layer and one of no interest; four of the bit rate, two of the sample rate
/// and one of padding.
pub open spec fn frame_at(b: Seq<u8>, i: int) -> Option<Frame> {
    let version = version_of(b[i + 1] as int / 8 % 4);
    let layer = layer_of(b[i + 1] as int / 2 % 4);
    if b[i] != 0xff || b[i + 1] < 0xe0 || version is None || layer is None {
        None
    } else {
        let v = version->Some_0;
        let l = layer->Some_0;
        let rate = rate_at(v, b[i + 2] as int / 4 % 4);
        let bitrate = bitrate_at(v, l, b[i + 2] as int / 16);
        if rate is None || bitrate is None {
            None
        } else {
            Some(
                Frame {
                    rate: rate->Some_0,
                    samples: frame_samples(v, l),
                    length: frame_length(
                        v,
                        l,
                        bitrate->Some_0 as int,
                        rate->Some_0 as int,
                        b[i + 2] as int / 2 % 2,
                    ),
                },
            )
        }
    }
}

proof fn lemma_frame_fits(
    version: MpegVersion,
    layer: MpegLayer,
    bitrate_kbps: int,
    sample_rate: int,
    padding: int,
)
    requires
        0 <= bitrate_kbps <= 448,
        sample_rate >= 8_000,
        0 <= padding <= 1,
    ensures
        0 <= frame_coefficient(version, layer) * (bitrate_kbps * 1000) <= 144 * 448_000,
        frame_length(version, layer, bitrate_kbps, sample_rate, padding) <= u32::MAX,
{
    let bits = frame_coefficient(version, layer) * (bitrate_kbps * 1000);
    assert(0 <= bits <= 144 * 448_000) by (nonlinear_arith)
        requires
            bits == frame_coefficient(version, layer) * (bitrate_kbps * 1000),
            12 <= frame_coefficient(version, layer) <= 144,
            0 <= bitrate_kbps <= 448,
    ;
    assert(bits / sample_rate <= bits) by (nonlinear_arith)
        requires
            bits >= 0,
            sample_rate >= 1,
    ;
}

struct FrameRead {
    rate: u32,
    samples: u32,
    length: usize,
}

fn read_frame(bytes: &[u8], i: usize) -> (r: Option<FrameRead>)
    requires
        i + 4 <= bytes@.len() <= usize::MAX,
    ensures
        match r {
            Some(f) => {
                &&& frame_at(bytes@, i as int) == Some(
                    Frame { rate: f.rate, samples: f.samples as int, length: f.length as int },
                )
                &&& f.rate >= 8_000
                &&& f.samples <= 1152
            },
            None => frame_at(bytes@, i as int) is None,
        },
{
    let b1: u32 = bytes[i + 1] as u32;
    let b2: u32 = bytes[i + 2] as u32;
    if bytes[i] != 0xff || b1 < 0xe0 {
        return None;
    }
    let version = match mpeg_version(b1 / 8 % 4) {
        Some(v) => v,
        None => return None,
    };
    let layer = match mpeg_layer(b1 / 2 % 4) {
        Some(l) => l,
        None => return None,
    };
    let rate: u32 = match mp3_sample_rate(version, (b2 / 4 % 4) as usize) {
        Some(r) => r,
        None => return None,
    };
    let bitrate: u32 = match mp3_bitrate_kbps(version, layer, (b2 / 16) as usize) {
        Some(k) => k,
        None => return None,
    };
    let padding: u32 = b2 / 2 % 2;
    proof {
        lemma_frame_fits(version, layer, bitrate as int, rate as int, padding as int);
    }
    let length: usize = match mp3_frame_length_bytes(version, layer, bitrate, rate, padding) {
        Some(n) => n,
        None => return None,
    };
    let samples: u32 = mp3_samples_per_frame(version, layer);
    Some(FrameRead { rate, samples, length })
}

/// Where the sound begins behind a tag at the front of the file.
pub open spec fn sound_start(b: Seq<u8>) -> int {
    if b.len() < 10 || b.subrange(0, 3) != seq![0x49u8, 0x44, 0x33] {
        0
    } else {
        10 + 0x20_0000 * (b[6] as int % 128) + 0x4000 * (b[7] as int % 128) + 128 * (b[8] as int
            % 128) + b[9] as int % 128
    }
}

/// Finds where the sound begins behind a tag at the front of the file.
pub fn skip_id3v2_tag(bytes: &[u8]) -> (r: Option<usize>)
    ensures
        r matches Some(n) && n == sound_start(bytes@),
{
    if bytes.len() < 10 {
        return Some(0);
    }
    let tagged = bytes[0] == 0x49 && bytes[1] == 0x44 && bytes[2] == 0x33;
    proof {
        let head = bytes@.subrange(0, 3);
        assert(tagged ==> head =~= seq![0x49u8, 0x44, 0x33]);
        assert(head[0] == bytes@[0] && head[1] == bytes@[1] && head[2] == bytes@[2]);
    }
    if !tagged {
        return Some(0);
    }
    Some(
        10 + 0x20_0000 * (bytes[6] as usize % 128) + 0x4000 * (bytes[7] as usize % 128) + 128 * (
        bytes[8] as usize % 128) + bytes[9] as usize % 128,
    )
}

/// What counting the frames of a file gives: how many samples, and the rate of the last frame.
pub struct FrameCount {
    pub samples: int,
    pub rate: Option<u32>,
}

/// A sum that stops at the largest number of its size.
pub open spec fn capped(n: int) -> int {
    if n > u64::MAX {
        u64::MAX as int
    } else {
        n
    }
}

/// The frames from place `i` on, added to those before. What is no frame is skipped byte by byte;
/// a frame that is cut off ends the count.
pub open spec fn count_frames(b: Seq<u8>, i: int, before: FrameCount) -> FrameCount
    decreases b.len() - i,
{
    if i + 4 > b.len() {
        before
    } else {
        match frame_at(b, i) {
            None => count_frames(b, i + 1, before),
            Some(f) => if f.length <= 0 || i + f.length > b.len() {
                before
            } else {
                count_frames(
                    b,
                    i + f.length,
                    FrameCount { samples: capped(before.samples + f.samples), rate: Some(f.rate) },
                )
            },
        }
    }
}

/// How long an MP3 file plays: its samples over the sample rate.
pub open spec fn mp3_duration(b: Seq<u8>) -> Option<int> {
    let count = count_frames(b, sound_start(b), FrameCount { samples: 0, rate: None });
    match count.rate {
        None => None,
        Some(rate) => if count.samples == 0 {
            None
        } else {
            Some(count.samples * 1000 / rate as int)
        },
    }
}

/// Reads how long an MP3 file plays, in milliseconds.
pub fn estimate_mp3_duration_ms(bytes: &[u8]) -> (r: Option<u64>)
    ensures
        match r {
            Some(n) => mp3_duration(bytes@) == Some(n as int),
            None => mp3_duration(bytes@) is None,
        },
{
    let ghost b = bytes@;
    let n: usize = bytes.len();
    let mut offset: usize = match skip_id3v2_tag(bytes) {
        Some(start) => start,
        None => return None,
    };
    let mut samples: u64 = 0;
    let mut rate: Option<u32> = None;
    let mut done = false;
    while !done && offset <= n && n - offset >= 4
        invariant
            n == bytes@.len(),
            b == bytes@,
            rate matches Some(r) ==> r >= 8_000,
            done ==> count_frames(b, sound_start(b), FrameCount { samples: 0, rate: None })
                == (FrameCount { samples: samples as int, rate }),
            !done ==> count_frames(b, sound_start(b), FrameCount { samples: 0, rate: None })
                == count_frames(b, offset as int, FrameCount { samples: samples as int, rate }),
        decreases
            n - offset,
            if done {
                0int
            } else {
                1int
            },
    {
        match read_frame(bytes, offset) {
            None => {
                offset = offset + 1;
            },
            Some(frame) => {
                if frame.length == 0 || frame.length > n - offset {
                    done = true;
                } else {
                    samples = if samples > u64::MAX - frame.samples as u64 {
                        u64::MAX
                    } else {
                        samples + frame.samples as u64
                    };
                    rate = Some(frame.rate);
                    offset = offset + frame.length;
                }
            },
        }
    }
    match rate {
        None => None,
        Some(r) => if samples == 0 {
            None
        } else {
            proof {
                assert(samples as int * 1000 / r as int <= samples) by (nonlinear_arith)
                    requires
                        r >= 1000,
                        samples >= 0,
                ;
            }
            Some(((samples as u128 * 1000) / r as u128) as u64)
        },
    }
}

/// How long a sound file plays, where its format is known and its headers tell.
pub open spec fn duration_of(format: Seq<char>, b: Seq<u8>) -> Option<int> {
    if usual_format(format) == "mp3"@ {
        mp3_duration(b)
    } else if usual_format(format) == "wav"@ {
        wav_duration(b)
    } else {
        None
    }
}

/// Reads how long a sound file plays, in milliseconds.
pub fn estimate_audio_duration_ms(format: &str, bytes: &[u8]) -> (r: Option<u64>)
    ensures
        match r {
            Some(n) => duration_of(format@, bytes@) == Some(n as int),
            None => duration_of(format@, bytes@) is None,
        },
{
    let name = normalize_audio_format(format);
    if text::str_eq(name.as_str(), "mp3") {
        estimate_mp3_duration_ms(bytes)
    } else if text::str_eq(name.as_str(), "wav") {
        estimate_wav_duration_ms(bytes)
    } else {
        None
    }
}

} // verus!
