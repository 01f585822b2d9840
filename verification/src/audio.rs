//! PCM bookkeeping: detecting that a source produces sound, folding
//! channels into mono, decoding little-endian sample buffers, converting
//! between milliseconds and frames, and encoding 16-bit PCM as WAV.
use crate::domain::RecordedAudio;
use crate::ports::{AudioClipperError, Logger, RecorderError};
use crate::text::{concat2, decimal_string, decimal_text};
use vstd::prelude::*;

verus! {

/// The sample magnitude from which a source counts as producing sound.
pub const AUDIO_DETECTION_SAMPLE_THRESHOLD: u16 = 512;

/// The channel count that captures are normalized to.
pub const TARGET_CHANNELS: u16 = 1;

/// The sample rate that captures are normalized to.
pub const TARGET_SAMPLE_RATE: u32 = 24_000;

/// The magnitude of a sample.
pub open spec fn magnitude(s: i16) -> int {
    if s < 0 {
        -s
    } else {
        s as int
    }
}

/// Whether some sample reaches the detection threshold.
pub open spec fn has_detectable_audio(samples: Seq<i16>) -> bool {
    exists|i: int| 0 <= i < samples.len() && magnitude(#[trigger] samples[i]) >= AUDIO_DETECTION_SAMPLE_THRESHOLD
}

/// Whether `samples` holds sound rather than faint noise.
pub fn contains_detectable_audio(samples: &[i16]) -> (r: bool)
    ensures
        r == has_detectable_audio(samples@),
{
    let mut i: usize = 0;
    while i < samples.len()
        invariant
            i <= samples@.len(),
            forall|k: int| 0 <= k < i ==> magnitude(#[trigger] samples@[k]) < AUDIO_DETECTION_SAMPLE_THRESHOLD,
        decreases samples.len() - i,
    {
        let sample = samples[i] as i32;
        let size = if sample < 0 {
            -sample
        } else {
            sample
        };
        if size >= AUDIO_DETECTION_SAMPLE_THRESHOLD as i32 {
            assert(magnitude(samples@[i as int]) >= AUDIO_DETECTION_SAMPLE_THRESHOLD);
            return true;
        }
        i = i + 1;
    }
    false
}

/// Reports, once per source, that sound was detected: logs when sound has
/// been detected and nothing was logged before, and remembers that it did.
pub fn maybe_log_audio_detected(detected: bool, logged: &mut bool, logger: &dyn Logger)
    ensures
        *final(logged) == (*old(logged) || detected),
{
    if *logged || !detected {
        return;
    }
    let _ = logger.info("audio input detected");
    *logged = true;
}

/// `a / b` rounded toward zero, as Rust's integer division does.
pub open spec fn div_toward_zero(a: int, b: int) -> int {
    if a >= 0 {
        a / b
    } else {
        -((-a) / b)
    }
}

/// The sum of `s`.
pub open spec fn sum_of(s: Seq<i16>) -> int
    decreases s.len(),
{
    if s.len() == 0 {
        0
    } else {
        sum_of(s.drop_last()) + s.last()
    }
}

proof fn sum_of_bounds(s: Seq<i16>)
    ensures
        -32768 * s.len() <= sum_of(s) <= 32767 * s.len(),
    decreases s.len(),
{
    if s.len() > 0 {
        sum_of_bounds(s.drop_last());
    }
}

/// The mean of `s`, rounded toward zero.
pub open spec fn mean_of(s: Seq<i16>) -> int {
    div_toward_zero(sum_of(s), s.len() as int)
}

proof fn mean_fits(s: Seq<i16>)
    requires
        s.len() > 0,
    ensures
        -32768 <= mean_of(s) <= 32767,
{
    sum_of_bounds(s);
    let n = s.len() as int;
    let t = sum_of(s);
    if t >= 0 {
        assert(t / n <= 32767) by (nonlinear_arith)
            requires
                t <= 32767 * n,
                n > 0,
                t >= 0,
        ;
        assert(t / n >= 0) by (nonlinear_arith)
            requires
                n > 0,
                t >= 0,
        ;
    } else {
        assert((-t) / n <= 32768) by (nonlinear_arith)
            requires
                -t <= 32768 * n,
                n > 0,
                -t > 0,
        ;
        assert((-t) / n >= 0) by (nonlinear_arith)
            requires
                n > 0,
                -t > 0,
        ;
    }
}

/// Rust's `/` on `i32`, rounding toward zero.
fn divide_toward_zero(a: i32, b: i32) -> (r: i32)
    requires
        b > 0,
    ensures
        r == div_toward_zero(a as int, b as int),
{
    if a >= 0 {
        a / b
    } else {
        let m: i64 = -(a as i64);
        let q: i64 = m / (b as i64);
        assert(q <= 2147483648) by (nonlinear_arith)
            requires
                m <= 2147483648,
                b >= 1,
                q as int == (m as int) / (b as int),
                m >= 0,
        ;
        (-q) as i32
    }
}

/// Each frame of `channels` interleaved samples folded into their mean;
/// trailing samples that do not fill a frame are dropped.
pub open spec fn downmixed(samples: Seq<i16>, channels: nat) -> Seq<i16> {
    Seq::new(
        samples.len() / channels,
        |f: int| mean_of(samples.subrange(f * channels, f * channels + channels)) as i16,
    )
}

/// Folds interleaved frames into mono by averaging each frame; mono input
/// is returned as it is.
pub fn downmix_to_mono(pcm_samples: &[i16], channels: u16) -> (r: Vec<i16>)
    requires
        channels > 0,
    ensures
        channels == TARGET_CHANNELS ==> r@ == pcm_samples@,
        channels != TARGET_CHANNELS ==> r@ == downmixed(pcm_samples@, channels as nat),
{
    let mut out: Vec<i16> = Vec::new();
    if channels == TARGET_CHANNELS {
        let mut i: usize = 0;
        while i < pcm_samples.len()
            invariant
                i <= pcm_samples@.len(),
                out@ == pcm_samples@.take(i as int),
            decreases pcm_samples.len() - i,
        {
            out.push(pcm_samples[i]);
            i = i + 1;
            assert(out@ =~= pcm_samples@.take(i as int));
        }
        assert(pcm_samples@.take(pcm_samples@.len() as int) =~= pcm_samples@);
        return out;
    }
    let n = channels as usize;
    let frames = pcm_samples.len() / n;
    let mut f: usize = 0;
    while f < frames
        invariant
            n == channels as usize,
            n > 0,
            pcm_samples@.len() == pcm_samples.len(),
            frames == pcm_samples@.len() / (n as nat),
            f <= frames,
            out@.len() == f,
            forall|k: int|
                0 <= k < f ==> out@[k] == mean_of(
                    pcm_samples@.subrange(k * n, k * n + n),
                ) as i16,
        decreases frames - f,
    {
        assert(f * n + n <= pcm_samples@.len()) by (nonlinear_arith)
            requires
                f < frames,
                frames == pcm_samples@.len() / (n as nat),
                n > 0,
        ;
        let base = f * n;
        let mut sum: i32 = 0;
        let mut c: usize = 0;
        while c < n
            invariant
                n == channels as usize,
                n > 0,
                pcm_samples@.len() == pcm_samples.len(),
                base + n <= pcm_samples@.len(),
                c <= n,
                sum == sum_of(pcm_samples@.subrange(base as int, base + c)),
            decreases n - c,
        {
            proof {
                sum_of_bounds(pcm_samples@.subrange(base as int, base + c));
                assert(pcm_samples@.subrange(base as int, base + c + 1).drop_last()
                    =~= pcm_samples@.subrange(base as int, base + c));
            }
            sum = sum + pcm_samples[base + c] as i32;
            c = c + 1;
        }
        proof {
            mean_fits(pcm_samples@.subrange(base as int, base + n));
        }
        let mean = divide_toward_zero(sum, n as i32);
        out.push(mean as i16);
        f = f + 1;
    }
    assert(out@ =~= downmixed(pcm_samples@, channels as nat));
    out
}

/// Little-endian 16-bit samples read from `bytes`, two bytes each.
pub open spec fn le_i16_samples(bytes: Seq<u8>) -> Seq<i16> {
    Seq::new(
        bytes.len() / 2,
        |i: int| (bytes[2 * i] as int + bytes[2 * i + 1] as int * 256 - (if bytes[2 * i + 1] >= 128 {
            65536int
        } else {
            0int
        })) as i16,
    )
}

/// The little-endian 16-bit sample made of two bytes.
fn i16_from_le(lo: u8, hi: u8) -> (r: i16)
    ensures
        r as int == lo as int + hi as int * 256 - (if hi >= 128 {
            65536int
        } else {
            0int
        }),
{
    let v: i32 = lo as i32 + (hi as i32) * 256 - (if hi >= 128 {
        65536i32
    } else {
        0i32
    });
    v as i16
}

/// Decodes an interleaved buffer of little-endian 16-bit samples and folds
/// it into mono; a buffer with no channels decodes to nothing, and one whose
/// length is odd is refused.
pub fn decode_interleaved_i16_buffer(bytes: &[u8], channel_count: u32) -> (r: Result<
    Vec<i16>,
    RecorderError,
>)
    requires
        channel_count <= u16::MAX,
    ensures
        channel_count == 0 ==> (r matches Ok(v) && v@.len() == 0),
        channel_count > 0 ==> (r is Ok <==> bytes@.len() % 2 == 0),
        channel_count == 1 && bytes@.len() % 2 == 0 ==> (r matches Ok(v) && v@ == le_i16_samples(
            bytes@,
        )),
        channel_count > 1 && bytes@.len() % 2 == 0 ==> (r matches Ok(v) && v@ == downmixed(
            le_i16_samples(bytes@),
            channel_count as nat,
        )),
        r matches Err(e) ==> e matches RecorderError::DecodeCapturedAudio(m) && m@
            == "application audio byte count is not aligned to i16 samples: "@ + decimal_text(
            bytes@.len(),
        ),
{
    if channel_count == 0 {
        return Ok(Vec::new());
    }
    if bytes.len() % 2 != 0 {
        let count = decimal_string(bytes.len() as u64);
        return Err(
            RecorderError::DecodeCapturedAudio(
                concat2(
                    "application audio byte count is not aligned to i16 samples: ",
                    count.as_str(),
                ),
            ),
        );
    }
    let mut samples: Vec<i16> = Vec::new();
    let mut i: usize = 0;
    let total = bytes.len() / 2;
    while i < total
        invariant
            total == bytes@.len() / 2,
            bytes@.len() == bytes.len(),
            i <= total,
            samples@ == le_i16_samples(bytes@).take(i as int),
        decreases total - i,
    {
        let s = i16_from_le(bytes[2 * i], bytes[2 * i + 1]);
        samples.push(s);
        i = i + 1;
        assert(samples@ =~= le_i16_samples(bytes@).take(i as int));
    }
    assert(samples@ =~= le_i16_samples(bytes@));
    if channel_count == 1 {
        Ok(samples)
    } else {
        Ok(downmix_to_mono(samples.as_slice(), channel_count as u16))
    }
}

/// The mean across channels of the sample at `index`, rounded toward zero.
pub open spec fn planar_mean(channels: Seq<Vec<i16>>, index: int) -> int {
    div_toward_zero(
        sum_of(Seq::new(channels.len(), |c: int| channels[c]@[index])),
        channels.len() as int,
    )
}

/// Averages one buffer per channel into mono, sample by sample; no buffers
/// give no samples, and buffers of different lengths are refused.
pub fn average_planar_channels(planar_samples: Vec<Vec<i16>>) -> (r: Result<Vec<i16>, RecorderError>)
    requires
        planar_samples@.len() <= 65536,
    ensures
        planar_samples@.len() == 0 ==> (r matches Ok(v) && v@.len() == 0),
        planar_samples@.len() > 0 ==> (r is Ok <==> forall|c: int|
            0 <= c < planar_samples@.len() ==> (#[trigger] planar_samples@[c])@.len()
                == planar_samples@[0]@.len()),
        r matches Ok(v) ==> (planar_samples@.len() > 0 ==> v@.len() == planar_samples@[0]@.len()
            && forall|i: int|
            0 <= i < v@.len() ==> v@[i] as int == planar_mean(planar_samples@, i)),
        r matches Err(e) ==> e matches RecorderError::DecodeCapturedAudio(m) && m@
            == "planar application audio buffers have mismatched lengths"@,
{
    let n = planar_samples.len();
    if n == 0 {
        return Ok(Vec::new());
    }
    let expected_len = planar_samples[0].len();
    let mut c: usize = 0;
    while c < n
        invariant
            n == planar_samples@.len(),
            c <= n,
            expected_len == planar_samples@[0]@.len(),
            forall|k: int| 0 <= k < c ==> (#[trigger] planar_samples@[k])@.len() == expected_len,
        decreases n - c,
    {
        if planar_samples[c].len() != expected_len {
            return Err(
                RecorderError::DecodeCapturedAudio(
                    "planar application audio buffers have mismatched lengths".to_owned(),
                ),
            );
        }
        c = c + 1;
    }
    let mut out: Vec<i16> = Vec::new();
    let mut i: usize = 0;
    while i < expected_len
        invariant
            n == planar_samples@.len(),
            0 < n <= 65536,
            expected_len == planar_samples@[0]@.len(),
            forall|k: int| 0 <= k < n ==> (#[trigger] planar_samples@[k])@.len() == expected_len,
            i <= expected_len,
            out@.len() == i,
            forall|k: int| 0 <= k < i ==> out@[k] as int == planar_mean(planar_samples@, k),
        decreases expected_len - i,
    {
        let ghost column = Seq::new(n as nat, |c: int| planar_samples@[c]@[i as int]);
        let mut sum: i32 = 0;
        let mut c: usize = 0;
        while c < n
            invariant
                n == planar_samples@.len(),
                0 < n <= 65536,
                i < expected_len,
                forall|k: int| 0 <= k < n ==> (#[trigger] planar_samples@[k])@.len() == expected_len,
                column == Seq::new(n as nat, |c: int| planar_samples@[c]@[i as int]),
                c <= n,
                sum == sum_of(column.take(c as int)),
            decreases n - c,
        {
            proof {
                sum_of_bounds(column.take(c as int));
                assert(column.take(c as int + 1).drop_last() =~= column.take(c as int));
            }
            sum = sum + planar_samples[c][i] as i32;
            c = c + 1;
        }
        proof {
            assert(column.take(n as int) =~= column);
            mean_fits(column);
        }
        let mean = divide_toward_zero(sum, n as i32);
        out.push(mean as i16);
        i = i + 1;
    }
    Ok(out)
}

/// The number of whole frames in `ms` milliseconds at `sample_rate`.
pub open spec fn frames_in(ms: nat, sample_rate: nat) -> nat {
    ms * sample_rate / 1000
}

/// The number of whole frames in `duration_ms` milliseconds.
pub fn millis_to_frame_count(duration_ms: u64, sample_rate: u32) -> (r: u64)
    requires
        frames_in(duration_ms as nat, sample_rate as nat) <= u64::MAX,
    ensures
        r == frames_in(duration_ms as nat, sample_rate as nat),
{
    assert((duration_ms as nat) * (sample_rate as nat) <= u64::MAX as nat * u32::MAX as nat) by (nonlinear_arith);
    let scaled: u128 = (duration_ms as u128) * (sample_rate as u128);
    (scaled / 1000) as u64
}

/// The whole milliseconds that `frame_count` frames last (the frame count
/// scaled with saturation, as the recorder does).
pub fn frames_to_millis(frame_count: u64, sample_rate: u32) -> (r: u64)
    requires
        sample_rate > 0,
    ensures
        r == (if frame_count * 1000 <= u64::MAX {
            frame_count * 1000
        } else {
            u64::MAX as int
        }) / (sample_rate as int),
{
    let scaled = match frame_count.checked_mul(1000) {
        Some(v) => v,
        None => u64::MAX,
    };
    scaled / (sample_rate as u64)
}

/// The samples of `total_frames` frames that a clip of `duration_ms`
/// starting at `start_ms` covers, as a half-open range of sample indices;
/// a clip that runs past the end is refused.
pub fn resolve_sample_range(
    sample_count: usize,
    channels: u16,
    sample_rate: u32,
    start_ms: u64,
    duration_ms: u64,
) -> (r: Result<(usize, usize), AudioClipperError>)
    requires
        channels > 0,
        frames_in(start_ms as nat, sample_rate as nat) + frames_in(duration_ms as nat, sample_rate as nat) <= u64::MAX,
    ensures
        ({
            let total = sample_count as int / channels as int;
            let start = frames_in(start_ms as nat, sample_rate as nat);
            let end = start + frames_in(duration_ms as nat, sample_rate as nat);
            &&& (r is Ok <==> end <= total)
            &&& r matches Ok(range) ==> range.0 == start * channels && range.1 == end * channels
            &&& r matches Err(e) ==> e == AudioClipperError::InvalidRange {
                requested_start_ms: start_ms,
                requested_duration_ms: duration_ms,
                available_duration_ms: (if total * 1000 <= u64::MAX {
                    total * 1000
                } else {
                    u64::MAX as int
                } / (sample_rate as int)) as u64,
            }
        }),
{
    let n = channels as usize;
    let total_frames = sample_count / n;
    let start_frame = millis_to_frame_count(start_ms, sample_rate);
    let duration_frames = millis_to_frame_count(duration_ms, sample_rate);
    let end_frame = start_frame + duration_frames;
    if end_frame > total_frames as u64 {
        assert(sample_rate > 0) by {
            if sample_rate == 0 {
                assert(start_ms as nat * 0 == 0);
                assert(duration_ms as nat * 0 == 0);
            }
        }
        return Err(
            AudioClipperError::InvalidRange {
                requested_start_ms: start_ms,
                requested_duration_ms: duration_ms,
                available_duration_ms: frames_to_millis(total_frames as u64, sample_rate),
            },
        );
    }
    assert(end_frame * n <= sample_count) by (nonlinear_arith)
        requires
            end_frame <= total_frames,
            total_frames == sample_count / n,
            n > 0,
    ;
    assert(start_frame * n <= end_frame * n) by (nonlinear_arith)
        requires
            start_frame <= end_frame,
    ;
    Ok(((start_frame as usize) * n, (end_frame as usize) * n))
}

/// The WAV file, as hound writes it, of 16-bit integer samples with the
/// given channel count and sample rate.
pub uninterp spec fn hound_pcm16_wav(samples: Seq<i16>, channels: u16, sample_rate: u32) -> Seq<u8>;

/// Whether hound can encode `sample_count` 16-bit samples with this channel
/// count and sample rate without a division by zero or an overflow of its
/// 32-bit header fields (the byte rate, the data length and the file
/// length, whose header is at most 60 bytes).
pub open spec fn pcm16_encodable(sample_count: nat, channels: u16, sample_rate: u32) -> bool {
    &&& channels > 0
    &&& sample_rate > 0
    &&& sample_rate as nat * 2 * channels as nat <= u32::MAX
    &&& sample_count * 2 + 60 <= u32::MAX
}

/// Encodes 16-bit samples as a WAV file in memory with hound
/// (`WavWriter::new` over a `Cursor`, `write_sample` for each sample,
/// `finalize`).
///
/// Claimed: the bytes written are hound's encoding of exactly these
/// samples, channel count and sample rate, and hound fails exactly when the
/// sample count is not a whole number of frames (its `UnfinishedSample`
/// check in `finalize`): 16-bit samples always fit, and writes to memory do
/// not fail. The precondition leaves out the inputs on which hound divides
/// by zero or overflows its header fields. The error is hound's message,
/// whose text is not stated.
#[verifier::external_body]
fn hound_encode_pcm16(samples: &[i16], channels: u16, sample_rate: u32) -> (r: Result<Vec<u8>, String>)
    requires
        pcm16_encodable(samples@.len(), channels, sample_rate),
    ensures
        r is Ok <==> samples@.len() % (channels as nat) == 0,
        r matches Ok(bytes) ==> bytes@ == hound_pcm16_wav(samples@, channels, sample_rate),
{
    let spec = hound::WavSpec { channels, sample_rate, bits_per_sample: 16, sample_format: hound::SampleFormat::Int };
    let mut cursor = std::io::Cursor::new(Vec::new());
    let mut writer = hound::WavWriter::new(&mut cursor, spec).map_err(|e| e.to_string())?;
    for sample in samples {
        writer.write_sample(*sample).map_err(|e| e.to_string())?;
    }
    writer.finalize().map_err(|e| e.to_string())?;
    Ok(cursor.into_inner())
}

/// The capture made of encoded WAV bytes, or the recorder's error for a
/// failed encoding.
pub fn wav_capture(encoded: Result<Vec<u8>, String>) -> (r: Result<RecordedAudio, RecorderError>)
    ensures
        encoded matches Ok(bytes) ==> r matches Ok(a) && a.wav_bytes@ == bytes@ && a.content_type@
            == "audio/wav"@,
        encoded matches Err(m) ==> r == Err::<RecordedAudio, RecorderError>(
            RecorderError::EncodeWav(m),
        ),
{
    match encoded {
        Ok(wav_bytes) => Ok(RecordedAudio { wav_bytes, content_type: "audio/wav" }),
        Err(m) => Err(RecorderError::EncodeWav(m)),
    }
}

/// Encodes 16-bit PCM as an in-memory WAV capture; samples that do not
/// make whole frames are refused as an encoding error.
pub fn encode_wav(pcm_samples: Vec<i16>, channels: u16, sample_rate: u32) -> (r: Result<
    RecordedAudio,
    RecorderError,
>)
    requires
        pcm16_encodable(pcm_samples@.len(), channels, sample_rate),
    ensures
        r is Ok <==> pcm_samples@.len() % (channels as nat) == 0,
        r matches Ok(a) ==> a.wav_bytes@ == hound_pcm16_wav(pcm_samples@, channels, sample_rate)
            && a.content_type@ == "audio/wav"@,
        r matches Err(e) ==> e is EncodeWav,
{
    wav_capture(hound_encode_pcm16(pcm_samples.as_slice(), channels, sample_rate))
}

/// Whether `r` is the clip of 16-bit interleaved `samples` that starts
/// `start_offset_ms` in and lasts `duration_ms`: the WAV encoding of the
/// covered frames, or the range error where the clip runs past the end.
pub open spec fn is_clip_of(
    r: Result<RecordedAudio, AudioClipperError>,
    samples: Seq<i16>,
    channels: u16,
    sample_rate: u32,
    start_offset_ms: u64,
    duration_ms: u64,
) -> bool {
    let total = samples.len() as int / channels as int;
    let start = frames_in(start_offset_ms as nat, sample_rate as nat);
    let end = start + frames_in(duration_ms as nat, sample_rate as nat);
    &&& (r is Ok <==> end <= total)
    &&& r matches Ok(a) ==> a.content_type@ == "audio/wav"@ && a.wav_bytes@ == hound_pcm16_wav(
        samples.subrange(start * channels, end * channels),
        channels,
        sample_rate,
    )
    &&& r matches Err(e) ==> e == AudioClipperError::InvalidRange {
        requested_start_ms: start_offset_ms,
        requested_duration_ms: duration_ms,
        available_duration_ms: (if total * 1000 <= u64::MAX {
            total * 1000
        } else {
            u64::MAX as int
        } / (sample_rate as int)) as u64,
    }
}

/// The WAV file of the clip that starts `start_offset_ms` into 16-bit
/// interleaved `samples` and lasts `duration_ms`, in the source's channel
/// count and sample rate; a clip that runs past the end is refused as
/// `resolve_sample_range` refuses it.
pub fn clip_pcm16_segment(
    samples: Vec<i16>,
    channels: u16,
    sample_rate: u32,
    start_offset_ms: u64,
    duration_ms: u64,
) -> (r: Result<RecordedAudio, AudioClipperError>)
    requires
        pcm16_encodable(samples@.len(), channels, sample_rate),
        frames_in(start_offset_ms as nat, sample_rate as nat) + frames_in(duration_ms as nat, sample_rate as nat) <= u64::MAX,
    ensures
        is_clip_of(r, samples@, channels, sample_rate, start_offset_ms, duration_ms),
{
    let (start, end) = match resolve_sample_range(
        samples.len(),
        channels,
        sample_rate,
        start_offset_ms,
        duration_ms,
    ) {
        Ok(range) => range,
        Err(e) => {
            return Err(e);
        },
    };
    proof {
        let sf = frames_in(start_offset_ms as nat, sample_rate as nat);
        let ef = sf + frames_in(duration_ms as nat, sample_rate as nat);
        let total = samples@.len() as int / channels as int;
        assert(start <= end && end <= samples@.len()) by (nonlinear_arith)
            requires
                start == sf * channels,
                end == ef * channels,
                sf <= ef,
                ef <= total,
                total == samples@.len() as int / channels as int,
                channels > 0,
        ;
    }
    let mut clip: Vec<i16> = Vec::new();
    let mut i: usize = start;
    while i < end
        invariant
            start <= i <= end,
            end <= samples@.len(),
            clip@ == samples@.subrange(start as int, i as int),
        decreases end - i,
    {
        clip.push(samples[i]);
        assert(clip@ =~= samples@.subrange(start as int, i + 1));
        i = i + 1;
    }
    proof {
        let sf = frames_in(start_offset_ms as nat, sample_rate as nat);
        let ef = sf + frames_in(duration_ms as nat, sample_rate as nat);
        assert(clip@.len() == (ef - sf) * channels) by (nonlinear_arith)
            requires
                clip@.len() == end - start,
                start == sf * channels,
                end == ef * channels,
        ;
        vstd::arithmetic::div_mod::lemma_mod_multiples_basic(ef - sf, channels as int);
    }
    match encode_wav(clip, channels, sample_rate) {
        Ok(audio) => Ok(audio),
        Err(RecorderError::EncodeWav(m)) => Err(AudioClipperError::EncodeClip(m)),
        Err(_) => Err(AudioClipperError::EncodeClip(String::new())),
    }
}

/// What hound reads from a WAV file's bytes (`WavReader::new` over them,
/// then its `spec` and, for integer samples, `into_samples::<i32>`): `None`
/// where hound refuses the bytes; `Some(None)` for floating-point samples;
/// otherwise the interleaved samples, the channel count, the sample rate
/// and the bits per sample.
pub uninterp spec fn hound_int_samples(bytes: Seq<u8>) -> Option<Option<(Seq<i32>, u16, u32, u16)>>;

/// Reads a WAV file's integer samples with hound.
///
/// Claimed: the result is what `hound_int_samples` names for these bytes,
/// and hound fails exactly where that name is `None`. As hound's reader
/// shows, a file it reads has at least one channel, and 16-bit samples are
/// read as `i16` values widened to `i32`. The error is hound's message,
/// whose text is not stated.
#[verifier::external_body]
fn hound_decode_int_samples(bytes: &[u8]) -> (r: Result<Option<(Vec<i32>, u16, u32, u16)>, String>)
    ensures
        r is Ok <==> hound_int_samples(bytes@) is Some,
        r matches Ok(None) ==> hound_int_samples(bytes@) == Some(Option::<(Seq<i32>, u16, u32, u16)>::None),
        r matches Ok(Some(d)) ==> hound_int_samples(bytes@) == Some(Some((d.0@, d.1, d.2, d.3))),
        r matches Ok(Some(d)) ==> d.1 > 0,
        r matches Ok(Some(d)) ==> (d.3 == 16 ==> forall|i: int|
            0 <= i < d.0@.len() ==> i16::MIN <= #[trigger] d.0@[i] <= i16::MAX),
{
    let reader = hound::WavReader::new(std::io::Cursor::new(bytes)).map_err(|e| e.to_string())?;
    let spec = reader.spec();
    match spec.sample_format {
        hound::SampleFormat::Float => Ok(None),
        hound::SampleFormat::Int => {
            let samples = reader.into_samples::<i32>().collect::<Result<Vec<i32>, _>>().map_err(|e| e.to_string())?;
            Ok(Some((samples, spec.channels, spec.sample_rate, spec.bits_per_sample)))
        },
    }
}

/// The samples as 16-bit values.
pub open spec fn narrowed(samples: Seq<i32>) -> Seq<i16> {
    samples.map_values(|v: i32| v as i16)
}

/// Whether a clip of these samples can be cut and encoded as 16-bit WAV:
/// 16-bit integer samples whose encoding and frame counts fit.
pub open spec fn clippable_pcm16(
    decoded: (Seq<i32>, u16, u32, u16),
    start_offset_ms: u64,
    duration_ms: u64,
) -> bool {
    &&& decoded.3 == 16
    &&& pcm16_encodable(decoded.0.len(), decoded.1, decoded.2)
    &&& frames_in(start_offset_ms as nat, decoded.2 as nat) + frames_in(duration_ms as nat, decoded.2 as nat)
        <= u64::MAX
}

/// Cuts a clip out of a WAV file's bytes: a file that hound cannot read is
/// a `ReadSource` error; a 16-bit integer file whose clip can be encoded is
/// cut as `clip_pcm16_segment` cuts its samples; any other file (floating
/// point, another sample width, or a clip that cannot be encoded) is
/// answered `Ok(None)` and left to the caller.
pub fn clip_pcm16_wav(bytes: &[u8], start_offset_ms: u64, duration_ms: u64) -> (r: Result<
    Option<RecordedAudio>,
    AudioClipperError,
>)
    ensures
        match hound_int_samples(bytes@) {
            None => r matches Err(AudioClipperError::ReadSource(_)),
            Some(None) => r == Ok::<Option<RecordedAudio>, AudioClipperError>(None),
            Some(Some(d)) => if clippable_pcm16(d, start_offset_ms, duration_ms) {
                match r {
                    Ok(Some(a)) => is_clip_of(
                        Ok(a),
                        narrowed(d.0),
                        d.1,
                        d.2,
                        start_offset_ms,
                        duration_ms,
                    ),
                    Ok(None) => false,
                    Err(e) => is_clip_of(Err(e), narrowed(d.0), d.1, d.2, start_offset_ms, duration_ms),
                }
            } else {
                r == Ok::<Option<RecordedAudio>, AudioClipperError>(None)
            },
        },
{
    let decoded = match hound_decode_int_samples(bytes) {
        Ok(d) => d,
        Err(message) => {
            return Err(AudioClipperError::ReadSource(message));
        },
    };
    let (samples, channels, sample_rate, bits) = match decoded {
        None => {
            return Ok(None);
        },
        Some(d) => d,
    };
    assert((sample_rate as nat) * 2 * (channels as nat) <= 0xffff_ffff_ffff_ffff) by (nonlinear_arith)
        requires
            sample_rate <= 0xffff_ffff,
            channels <= 0xffff,
    ;
    assert((start_offset_ms as nat) * (sample_rate as nat) <= 0xffff_ffff_ffff_ffff_ffff_ffff_ffff_ffff)
        by (nonlinear_arith)
        requires
            start_offset_ms <= 0xffff_ffff_ffff_ffff,
            sample_rate <= 0xffff_ffff,
    ;
    assert((duration_ms as nat) * (sample_rate as nat) <= 0xffff_ffff_ffff_ffff_ffff_ffff_ffff_ffff)
        by (nonlinear_arith)
        requires
            duration_ms <= 0xffff_ffff_ffff_ffff,
            sample_rate <= 0xffff_ffff,
    ;
    if bits != 16 || sample_rate == 0 || (sample_rate as u64) * 2 * (channels as u64) > 0xffff_ffff
        || (samples.len() as u64) > (0xffff_ffffu64 - 60) / 2 {
        return Ok(None);
    }
    let start_frames = (start_offset_ms as u128) * (sample_rate as u128) / 1000;
    let duration_frames = (duration_ms as u128) * (sample_rate as u128) / 1000;
    if start_frames + duration_frames > 0xffff_ffff_ffff_ffffu128 {
        return Ok(None);
    }
    let ghost wide = samples@;
    let mut narrow: Vec<i16> = Vec::new();
    let mut i: usize = 0;
    while i < samples.len()
        invariant
            i <= samples@.len(),
            samples@ == wide,
            bits == 16,
            forall|k: int| 0 <= k < wide.len() ==> i16::MIN <= #[trigger] wide[k] <= i16::MAX,
            narrow@ == narrowed(wide).take(i as int),
        decreases samples.len() - i,
    {
        narrow.push(samples[i] as i16);
        assert(narrow@ =~= narrowed(wide).take(i + 1));
        i = i + 1;
    }
    assert(narrow@ =~= narrowed(wide));
    match clip_pcm16_segment(narrow, channels, sample_rate, start_offset_ms, duration_ms) {
        Ok(a) => Ok(Some(a)),
        Err(e) => Err(e),
    }
}

} // verus!
