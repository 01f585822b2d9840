use diarize_log::audio::{
    clip_pcm16_segment, clip_pcm16_wav, contains_detectable_audio, decode_interleaved_i16_buffer, downmix_to_mono, encode_wav,
    frames_to_millis, maybe_log_audio_detected, millis_to_frame_count, resolve_sample_range,
    average_planar_channels, AUDIO_DETECTION_SAMPLE_THRESHOLD,
};
use diarize_log::domain::RecordedAudio;
use diarize_log::logging::{format_log_line, LogLevel, LogSource};
use diarize_log::ports::{AudioClipperError, Logger, RecorderError};
use std::cell::RefCell;
use std::io::Cursor;

#[test]
fn detects_audio_only_after_samples_reach_threshold() {
    assert!(!contains_detectable_audio(&[0, 12, -(AUDIO_DETECTION_SAMPLE_THRESHOLD as i16 - 1)]));
    assert!(contains_detectable_audio(&[AUDIO_DETECTION_SAMPLE_THRESHOLD as i16]));
}

#[test]
fn detects_negative_full_scale_audio() {
    assert!(contains_detectable_audio(&[i16::MIN]));
    assert!(contains_detectable_audio(&[-512]));
    assert!(!contains_detectable_audio(&[]));
}

struct LineBuffer {
    source: LogSource,
    component: &'static str,
    contents: RefCell<String>,
}

impl Logger for LineBuffer {
    fn info(&self, message: &str) -> std::io::Result<()> {
        let line = format_log_line(LogLevel::Info, Some(self.source), Some(self.component), message);
        self.contents.borrow_mut().push_str(&line);
        self.contents.borrow_mut().push('\n');
        Ok(())
    }

    fn debug(&self, message: &str) -> std::io::Result<()> {
        let line = format_log_line(LogLevel::Debug, Some(self.source), Some(self.component), message);
        self.contents.borrow_mut().push_str(&line);
        self.contents.borrow_mut().push('\n');
        Ok(())
    }
}

#[test]
fn writes_audio_detection_log_only_once_per_source() {
    let logger = LineBuffer {
        source: LogSource::Microphone,
        component: "recorder",
        contents: RefCell::new(String::new()),
    };
    let mut detected = false;
    let mut logged = false;

    maybe_log_audio_detected(detected, &mut logged, &logger);
    detected = true;
    maybe_log_audio_detected(detected, &mut logged, &logger);
    maybe_log_audio_detected(detected, &mut logged, &logger);

    assert_eq!(*logger.contents.borrow(), "[info] [microphone] [recorder] audio input detected\n");
}

#[test]
fn encodes_pcm_samples_into_wav_bytes() {
    let audio = encode_wav(vec![100, -100, 50, -50], 2, 16_000).unwrap();

    assert_eq!(
        audio,
        RecordedAudio { wav_bytes: audio.wav_bytes.clone(), content_type: "audio/wav" }
    );

    let reader = hound::WavReader::new(Cursor::new(audio.wav_bytes)).unwrap();
    assert_eq!(reader.spec().channels, 2);
    assert_eq!(reader.spec().sample_rate, 16_000);
}

#[test]
fn encoded_wav_holds_the_samples() {
    let audio = encode_wav(vec![1, -2, 3], 1, 8_000).unwrap();
    assert_eq!(audio.wav_bytes.len(), 44 + 6);
    let mut reader = hound::WavReader::new(Cursor::new(audio.wav_bytes)).unwrap();
    let samples = reader.samples::<i16>().collect::<Result<Vec<_>, _>>().unwrap();
    assert_eq!(samples, vec![1, -2, 3]);
}

#[test]
fn downmixes_stereo_frames_by_truncating_mean() {
    assert_eq!(downmix_to_mono(&[1000, 3000, 5000, 7000], 2), vec![2000, 6000]);
    assert_eq!(downmix_to_mono(&[-3, 0, 7], 2), vec![-1]);
    assert_eq!(downmix_to_mono(&[4, 5, 6], 1), vec![4, 5, 6]);
    assert_eq!(downmix_to_mono(&[i16::MIN, i16::MIN], 2), vec![i16::MIN]);
}

#[test]
fn decodes_little_endian_samples() {
    assert_eq!(decode_interleaved_i16_buffer(&[0x01, 0x00, 0xff, 0xff], 1), Ok(vec![1, -1]));
    assert_eq!(decode_interleaved_i16_buffer(&[0x02, 0x00, 0x04, 0x00], 2), Ok(vec![3]));
    assert_eq!(decode_interleaved_i16_buffer(&[0x01, 0x02], 0), Ok(vec![]));
    assert_eq!(
        decode_interleaved_i16_buffer(&[0x01, 0x02, 0x03], 1),
        Err(RecorderError::DecodeCapturedAudio(
            "application audio byte count is not aligned to i16 samples: 3".to_string()
        ))
    );
}

#[test]
fn averages_planar_channels() {
    assert_eq!(average_planar_channels(vec![vec![2, -5], vec![4, 0]]), Ok(vec![3, -2]));
    assert_eq!(average_planar_channels(vec![]), Ok(vec![]));
    assert_eq!(
        average_planar_channels(vec![vec![1], vec![1, 2]]),
        Err(RecorderError::DecodeCapturedAudio(
            "planar application audio buffers have mismatched lengths".to_string()
        ))
    );
}

#[test]
fn converts_between_milliseconds_and_frames() {
    assert_eq!(millis_to_frame_count(1_500, 24_000), 36_000);
    assert_eq!(millis_to_frame_count(1, 44_100), 44);
    assert_eq!(frames_to_millis(36_000, 24_000), 1_500);
    assert_eq!(frames_to_millis(u64::MAX, 1_000), u64::MAX / 1_000);
}

#[test]
fn resolves_clip_sample_range() {
    assert_eq!(resolve_sample_range(8, 1, 4, 1_000, 1_000), Ok((4, 8)));
    assert_eq!(resolve_sample_range(16, 2, 4, 1_000, 1_000), Ok((8, 16)));
    assert_eq!(
        resolve_sample_range(4, 1, 4, 1_000, 1_000),
        Err(AudioClipperError::InvalidRange {
            requested_start_ms: 1_000,
            requested_duration_ms: 1_000,
            available_duration_ms: 1_000,
        })
    );
}

#[test]
fn converts_long_durations_without_intermediate_overflow() {
    assert_eq!(millis_to_frame_count(u64::MAX, 1_000), u64::MAX);
    assert_eq!(millis_to_frame_count(u64::MAX / 48, 48_000), u64::MAX / 48 * 48);
}

#[test]
fn zero_sample_rate_clips_nothing() {
    assert_eq!(resolve_sample_range(8, 1, 0, 1_000, 1_000), Ok((0, 0)));
}

#[test]
fn refuses_samples_that_do_not_make_whole_frames() {
    assert!(matches!(encode_wav(vec![1, 2, 3], 2, 8_000), Err(RecorderError::EncodeWav(_))));
}

#[test]
fn clips_a_pcm16_segment_into_its_own_wav() {
    let samples: Vec<i16> = (0..16).collect();
    let clip = clip_pcm16_segment(samples.clone(), 2, 4, 1_000, 500).unwrap();
    assert_eq!(clip.wav_bytes, encode_wav(samples[8..12].to_vec(), 2, 4).unwrap().wav_bytes);
    assert_eq!(clip.content_type, "audio/wav");
    assert_eq!(
        clip_pcm16_segment(samples, 2, 4, 1_000, 2_000),
        Err(AudioClipperError::InvalidRange {
            requested_start_ms: 1_000,
            requested_duration_ms: 2_000,
            available_duration_ms: 2_000,
        })
    );
}

#[test]
fn clips_a_16_bit_wav_file_from_its_bytes() {
    let samples: Vec<i16> = (0..16).map(|v| v * 100 - 700).collect();
    let source = encode_wav(samples.clone(), 2, 4).unwrap();
    let clip = clip_pcm16_wav(&source.wav_bytes, 1_000, 500).unwrap().unwrap();
    assert_eq!(clip, clip_pcm16_segment(samples, 2, 4, 1_000, 500).unwrap());
    assert!(matches!(clip_pcm16_wav(&[1, 2, 3], 0, 0), Err(AudioClipperError::ReadSource(_))));
    assert_eq!(
        clip_pcm16_wav(&source.wav_bytes, 1_000, 2_000),
        Err(AudioClipperError::InvalidRange {
            requested_start_ms: 1_000,
            requested_duration_ms: 2_000,
            available_duration_ms: 2_000,
        })
    );
}
