//! What holds of how long sound files play.

use vstd::prelude::*;
use vstd::string::*;

use crate::channel::audio;
use crate::channel::audio::{FrameCount, MpegLayer, MpegVersion};
use crate::text;

verus! {

/// Formats go by their usual names, in small letters: `mpeg` is `mp3`, `wave` and `x-wav` are `wav`,
/// and any other is itself.
pub proof fn law_formats_have_usual_names(
    format: &str,
    r: String,
    core: &str,
    small: String,
)
    requires
        call_ensures(audio::normalize_audio_format, (format,), r),
        call_ensures(text::trim, (format,), core),
        call_ensures(text::to_ascii_lowercase, (core,), small),
    ensures
        small@ == "mpeg"@ ==> r@ == "mp3"@,
        small@ == "wave"@ || small@ == "x-wav"@ ==> r@ == "wav"@,
        small@ != "mpeg"@ && small@ != "wave"@ && small@ != "x-wav"@ ==> r@ == small@,
{
    reveal_strlit("mpeg");
    reveal_strlit("wave");
    reveal_strlit("x-wav");
    assert("mpeg"@[0] == 'm' && "wave"@[0] == 'w' && "x-wav"@[0] == 'x');
}

/// How long a file plays is read as its format says; of other formats nothing is known.
pub proof fn law_duration_goes_by_the_format(
    format: &str,
    bytes: &[u8],
    r: Option<u64>,
    name: String,
    mp3: Option<u64>,
    wav: Option<u64>,
)
    requires
        call_ensures(audio::estimate_audio_duration_ms, (format, bytes), r),
        call_ensures(audio::normalize_audio_format, (format,), name),
        call_ensures(audio::estimate_mp3_duration_ms, (bytes,), mp3),
        call_ensures(audio::estimate_wav_duration_ms, (bytes,), wav),
    ensures
        name@ == "mp3"@ ==> r == mp3,
        name@ == "wav"@ ==> r == wav,
        name@ != "mp3"@ && name@ != "wav"@ ==> r is None,
{
    reveal_strlit("mp3");
    reveal_strlit("wav");
    assert("mp3"@[0] == 'm' && "wav"@[0] == 'w');
}

/// Four bytes as a number, the lowest first.
pub open spec fn four_bytes(b: Seq<u8>, i: int) -> int {
    b[i] as int + 256 * (b[i + 1] as int + 256 * (b[i + 2] as int + 256 * b[i + 3] as int))
}

/// A WAV file plays for as long as its data lasts at its byte rate, both as its header tells; what is
/// no WAV file, or has no byte rate, plays for no known time.
pub proof fn law_wav_plays_its_data(bytes: &[u8], r: Option<u64>)
    requires
        call_ensures(audio::estimate_wav_duration_ms, (bytes,), r),
    ensures
        ({
            let b = bytes@;
            let is_wav = b.len() >= 44 && b[0] == 'R' as u8 && b[1] == 'I' as u8 && b[2] == 'F' as u8
                && b[3] == 'F' as u8 && b[8] == 'W' as u8 && b[9] == 'A' as u8 && b[10] == 'V' as u8
                && b[11] == 'E' as u8;
            let rate = four_bytes(b, 28);
            let size = four_bytes(b, 40);
            &&& is_wav && rate > 0 ==> (r matches Some(ms) && ms * rate <= size * 1000 && size * 1000
                < (ms + 1) * rate)
            &&& !is_wav || rate == 0 ==> r is None
        }),
{
    let b = bytes@;
    if b.len() >= 44 {
        let head = b.subrange(0, 4);
        let mark = b.subrange(8, 12);
        assert(head[0] == b[0] && head[1] == b[1] && head[2] == b[2] && head[3] == b[3]);
        assert(mark[0] == b[8] && mark[1] == b[9] && mark[2] == b[10] && mark[3] == b[11]);
        let riff = seq![0x52u8, 0x49, 0x46, 0x46];
        let wave = seq![0x57u8, 0x41, 0x56, 0x45];
        assert(b[0] == 0x52 && b[1] == 0x49 && b[2] == 0x46 && b[3] == 0x46 ==> head =~= riff);
        assert(b[8] == 0x57 && b[9] == 0x41 && b[10] == 0x56 && b[11] == 0x45 ==> mark =~= wave);
        assert(head == riff ==> b[0] == riff[0] && b[1] == riff[1] && b[2] == riff[2] && b[3]
            == riff[3]);
        assert(mark == wave ==> b[8] == wave[0] && b[9] == wave[1] && b[10] == wave[2] && b[11]
            == wave[3]);
        let rate = four_bytes(b, 28);
        let size = four_bytes(b, 40);
        assert(rate == audio::little_endian(b, 28) && size == audio::little_endian(b, 40));
        if rate > 0 {
            let ms = size * 1000 / rate;
            assert(ms * rate <= size * 1000 && size * 1000 < (ms + 1) * rate) by (nonlinear_arith)
                requires
                    rate > 0,
                    ms == size * 1000 / rate,
            ;
        }
    }
}

/// The sample rates of the versions: each of version two is half, and each of version two and a half
/// a quarter, of that of version one.
pub proof fn law_sample_rates(index: usize, one: Option<u32>, two: Option<u32>, half: Option<u32>)
    requires
        call_ensures(audio::mp3_sample_rate, (MpegVersion::V1, index), one),
        call_ensures(audio::mp3_sample_rate, (MpegVersion::V2, index), two),
        call_ensures(audio::mp3_sample_rate, (MpegVersion::V25, index), half),
    ensures
        index >= 3 ==> one is None && two is None && half is None,
        index == 0 ==> one == Some(44_100u32),
        index == 1 ==> one == Some(48_000u32),
        index == 2 ==> one == Some(32_000u32),
        one matches Some(n) ==> two == Some((n / 2) as u32) && half == Some((n / 4) as u32),
{
}

/// The bit rates of the versions and layers.
pub proof fn law_bit_rates(version: MpegVersion, layer: MpegLayer, index: usize, r: Option<u32>)
    requires
        call_ensures(audio::mp3_bitrate_kbps, (version, layer, index), r),
    ensures
        r is None <==> index == 0 || index >= 15,
        r matches Some(n) ==> {
            &&& version is V1 && layer is L1 ==> n == 32 * index
            &&& version is V1 && layer is L2 ==> n == seq![
                0int,
                32,
                48,
                56,
                64,
                80,
                96,
                112,
                128,
                160,
                192,
                224,
                256,
                320,
                384,
            ][index as int]
            &&& version is V1 && layer is L3 ==> n == seq![
                0int,
                32,
                40,
                48,
                56,
                64,
                80,
                96,
                112,
                128,
                160,
                192,
                224,
                256,
                320,
            ][index as int]
            &&& !(version is V1) && layer is L1 ==> n == seq![
                0int,
                32,
                48,
                56,
                64,
                80,
                96,
                112,
                128,
                144,
                160,
                176,
                192,
                224,
                256,
            ][index as int]
            &&& !(version is V1) && !(layer is L1) ==> n == if index <= 8 {
                8 * index as int
            } else {
                16 * (index - 4)
            }
        },
{
}

/// The versions and layers that header bits stand for.
pub proof fn law_header_bits(bits: u32, v: Option<MpegVersion>, l: Option<MpegLayer>)
    requires
        call_ensures(audio::mpeg_version, (bits,), v),
        call_ensures(audio::mpeg_layer, (bits,), l),
    ensures
        v == Some(MpegVersion::V1) <==> bits == 3,
        v == Some(MpegVersion::V2) <==> bits == 2,
        v == Some(MpegVersion::V25) <==> bits == 0,
        l == Some(MpegLayer::L1) <==> bits == 3,
        l == Some(MpegLayer::L2) <==> bits == 2,
        l == Some(MpegLayer::L3) <==> bits == 1,
{
}

/// A frame holds 384 samples in layer one and 1152 in layers two and three, but half as many in layer
/// three of the later versions.
pub proof fn law_samples_of_a_frame(version: MpegVersion, layer: MpegLayer, r: u32)
    requires
        call_ensures(audio::mp3_samples_per_frame, (version, layer), r),
    ensures
        layer is L1 ==> r == 384,
        layer is L2 ==> r == 1152,
        layer is L3 && version is V1 ==> r == 1152,
        layer is L3 && !(version is V1) ==> r == 576,
{
}

/// A frame is as long as its samples take at its bit rate, in whole slots, and one slot more where it
/// is padded; a slot is four bytes in layer one and one byte else.
pub proof fn law_length_of_a_frame(
    version: MpegVersion,
    layer: MpegLayer,
    bitrate_kbps: u32,
    sample_rate: u32,
    padding: u32,
    samples: u32,
    r: Option<usize>,
)
    requires
        call_ensures(
            audio::mp3_frame_length_bytes,
            (version, layer, bitrate_kbps, sample_rate, padding),
            r,
        ),
        call_ensures(audio::mp3_samples_per_frame, (version, layer), samples),
        sample_rate > 0,
    ensures
        r matches Some(n) ==> {
            let slot: int = if layer is L1 {
                4
            } else {
                1
            };
            let slots = (samples as int / 8 / slot) * (bitrate_kbps as int * 1000)
                / sample_rate as int;
            n == slot * (slots + padding)
        },
        bitrate_kbps <= 4_294_967 ==> r is Some,
{
}

/// A file begins behind the tag at its front, if it has one, which tells its length in four times
/// seven bits.
pub proof fn law_tag_is_skipped(bytes: &[u8], r: Option<usize>)
    requires
        call_ensures(audio::skip_id3v2_tag, (bytes,), r),
    ensures
        ({
            let b = bytes@;
            let tagged = b.len() >= 10 && b[0] == 'I' as u8 && b[1] == 'D' as u8 && b[2] == '3' as u8;
            &&& !tagged ==> r == Some(0usize)
            &&& tagged ==> (r matches Some(n) && n == 10 + ((b[6] as int % 128 * 128 + b[7] as int
                % 128) * 128 + b[8] as int % 128) * 128 + b[9] as int % 128)
        }),
{
    let b = bytes@;
    if b.len() >= 10 {
        let head = b.subrange(0, 3);
        let id3 = seq![0x49u8, 0x44, 0x33];
        assert(head[0] == b[0] && head[1] == b[1] && head[2] == b[2]);
        assert(b[0] == 0x49 && b[1] == 0x44 && b[2] == 0x33 ==> head =~= id3);
        assert(head == id3 ==> b[0] == id3[0] && b[1] == id3[1] && b[2] == id3[2]);
    }
}

/// Whether a frame header of these settings stands at a place.
pub open spec fn header_at(
    b: Seq<u8>,
    i: int,
    version_bits: int,
    layer_bits: int,
    bitrate_index: int,
    rate_index: int,
    padding: int,
) -> bool {
    &&& 0 <= i && i + 4 <= b.len()
    &&& b[i] == 255
    &&& b[i + 1] as int / 32 == 7
    &&& b[i + 1] as int / 8 % 4 == version_bits
    &&& b[i + 1] as int / 2 % 4 == layer_bits
    &&& b[i + 2] as int / 16 == bitrate_index
    &&& b[i + 2] as int / 4 % 4 == rate_index
    &&& b[i + 2] as int / 2 % 2 == padding
}

proof fn lemma_equal_frames(
    b: Seq<u8>,
    f: audio::Frame,
    k: int,
    n: int,
    before: FrameCount,
)
    requires
        0 <= k <= n,
        f.length > 4,
        f.samples > 0,
        b.len() == n * f.length,
        before.samples == k * f.samples,
        n * f.samples <= u64::MAX,
        k > 0 ==> before.rate == Some(f.rate),
        forall|j: int| 0 <= j < n ==> #[trigger] audio::frame_at(b, j * f.length) == Some(f),
    ensures
        audio::count_frames(b, k * f.length, before).samples == n * f.samples,
        n > 0 ==> audio::count_frames(b, k * f.length, before).rate == Some(f.rate),
    decreases n - k,
{
    if k < n {
        assert(k * f.length + f.length <= n * f.length && (k + 1) * f.length == k * f.length
            + f.length) by (nonlinear_arith)
            requires
                0 <= k < n,
                f.length > 4,
        ;
        assert((k + 1) * f.samples == k * f.samples + f.samples && (k + 1) * f.samples <= n
            * f.samples) by (nonlinear_arith)
            requires
                0 <= k < n,
                f.samples > 0,
        ;
        assert(audio::frame_at(b, k * f.length) == Some(f));
        let next = FrameCount {
            samples: audio::capped(before.samples + f.samples),
            rate: Some(f.rate),
        };
        lemma_equal_frames(b, f, k + 1, n, next);
    } else {
        assert(k * f.length + 4 > b.len());
    }
}

/// A file without a tag that is made of frames of one kind plays for the time of all their samples at
/// their rate.
pub proof fn law_frames_add_up(
    bytes: &[u8],
    r: Option<u64>,
    f: audio::Frame,
    n: int,
)
    requires
        call_ensures(audio::estimate_mp3_duration_ms, (bytes,), r),
        n > 0,
        f.length > 4,
        f.samples > 0,
        f.rate > 0,
        bytes@.len() == n * f.length,
        n * f.samples <= u64::MAX,
        audio::sound_start(bytes@) == 0,
        forall|j: int| 0 <= j < n ==> #[trigger] audio::frame_at(bytes@, j * f.length) == Some(f),
    ensures
        r matches Some(ms) && ms == n * f.samples * 1000 / f.rate as int,
{
    let none = FrameCount { samples: 0, rate: None };
    assert(0 * f.length == 0 && 0 * f.samples == 0) by (nonlinear_arith);
    lemma_equal_frames(bytes@, f, 0, n, none);
    assert(n * f.samples > 0) by (nonlinear_arith)
        requires
            n > 0,
            f.samples > 0,
    ;
}

/// A frame is recognized by its header: eleven set bits, then its version, layer, bit rate, sample
/// rate and padding, all of which must be known.
pub proof fn law_header_tells_the_frame(
    b: Seq<u8>,
    i: int,
    version_bits: u32,
    layer_bits: u32,
    bitrate_index: usize,
    rate_index: usize,
    padding: u32,
    v: Option<MpegVersion>,
    l: Option<MpegLayer>,
    rate: Option<u32>,
    bitrate: Option<u32>,
    samples: u32,
    length: Option<usize>,
)
    requires
        header_at(
            b,
            i,
            version_bits as int,
            layer_bits as int,
            bitrate_index as int,
            rate_index as int,
            padding as int,
        ),
        call_ensures(audio::mpeg_version, (version_bits,), v),
        call_ensures(audio::mpeg_layer, (layer_bits,), l),
        v is Some && l is Some ==> {
            &&& call_ensures(audio::mp3_sample_rate, (v->Some_0, rate_index), rate)
            &&& call_ensures(audio::mp3_bitrate_kbps, (v->Some_0, l->Some_0, bitrate_index), bitrate)
            &&& call_ensures(audio::mp3_samples_per_frame, (v->Some_0, l->Some_0), samples)
            &&& rate is Some && bitrate is Some ==> call_ensures(
                audio::mp3_frame_length_bytes,
                (v->Some_0, l->Some_0, bitrate->Some_0, rate->Some_0, padding),
                length,
            )
        },
    ensures
        v is Some && l is Some && rate is Some && bitrate is Some ==> (audio::frame_at(b, i)
            matches Some(f) && f.rate == rate->Some_0 && f.samples == samples && length == Some(
            f.length as usize,
        )),
        v is None || l is None ==> audio::frame_at(b, i) is None,
        v is Some && l is Some && (rate is None || bitrate is None) ==> audio::frame_at(b, i)
            is None,
{
}

/// What is no frame is passed over byte by byte, a whole frame adds its samples and tells the rate, and
/// a frame that is cut off ends the count.
pub proof fn law_junk_is_passed_over(b: Seq<u8>, i: int, before: FrameCount)
    requires
        0 <= i,
        i + 4 <= b.len(),
    ensures
        b[i] != 255 || (b[i + 1] as int) < 224 ==> audio::count_frames(b, i, before)
            == audio::count_frames(b, i + 1, before),
        audio::frame_at(b, i) matches Some(f) ==> (f.length > 0 && i + f.length > b.len()
            ==> audio::count_frames(b, i, before) == before),
        audio::frame_at(b, i) matches Some(f) ==> (f.length > 0 && i + f.length <= b.len()
            && before.samples + f.samples <= u64::MAX ==> audio::count_frames(b, i, before)
            == audio::count_frames(
            b,
            i + f.length,
            FrameCount { samples: before.samples + f.samples, rate: Some(f.rate) },
        )),
{
}

} // verus!
