use diarize_log::capture::CaptureError;
use diarize_log::cli::CliArgumentError;
use diarize_log::config::{ConfigError, ConfigSource, ConfigValidationError};
use diarize_log::domain::TranscriptSource;
use diarize_log::mixed::{MixedCaptureError, MixedCaptureSourceFailure};
use diarize_log::ports::{
    AudioClipperError, CaptureStoreError, RecorderError, SpeakerStoreError, TranscriberError,
};
use diarize_log::speaker::SpeakerUseCaseError;

#[test]
fn describes_rejected_settings_with_their_source() {
    assert_eq!(
        ConfigValidationError::MissingRequiredValue { name: "OPENAI_API_KEY" }.message(),
        "missing required value: OPENAI_API_KEY"
    );
    assert_eq!(
        ConfigValidationError::EmptyValue { name: "OPENAI_API_KEY", source: ConfigSource::Environment }
            .message(),
        "empty value for OPENAI_API_KEY from environment"
    );
    assert_eq!(
        ConfigValidationError::InvalidBooleanValue {
            name: "DIARIZE_LOG_DEBUG",
            value: "maybe".to_string(),
            source: ConfigSource::DotEnv,
        }
        .message(),
        "invalid boolean value for DIARIZE_LOG_DEBUG from .env: maybe"
    );
    assert_eq!(
        ConfigValidationError::InvalidNegativeDecibelValue {
            name: "DIARIZE_LOG_CAPTURE_SILENCE_THRESHOLD_DBFS",
            value: "3".to_string(),
            source: ConfigSource::Environment,
        }
        .message(),
        "invalid negative dBFS value for DIARIZE_LOG_CAPTURE_SILENCE_THRESHOLD_DBFS from environment: 3"
    );
    assert_eq!(
        ConfigValidationError::RelativePathValue {
            name: "DIARIZE_LOG_STORAGE_ROOT",
            value: "relative/root".to_string(),
            source: ConfigSource::DotEnv,
        }
        .message(),
        "relative path is not allowed for DIARIZE_LOG_STORAGE_ROOT from .env: relative/root"
    );
    assert_eq!(
        ConfigValidationError::MissingPyannoteApiKey {
            pipeline_name: "DIARIZE_LOG_TRANSCRIPTION_PIPELINE",
            api_key_name: "PYANNOTE_API_KEY",
        }
        .message(),
        "PYANNOTE_API_KEY is required when DIARIZE_LOG_TRANSCRIPTION_PIPELINE=separated"
    );
}

#[test]
fn describes_inconsistent_durations_with_both_values() {
    assert_eq!(
        ConfigValidationError::InvalidCaptureOverlap {
            overlap_name: "DIARIZE_LOG_CAPTURE_OVERLAP_SECONDS",
            capture_duration_name: "DIARIZE_LOG_CAPTURE_DURATION_SECONDS",
            overlap_seconds: 10,
            capture_duration_seconds: 10,
            overlap_source: ConfigSource::DotEnv,
        }
        .message(),
        "DIARIZE_LOG_CAPTURE_OVERLAP_SECONDS from .env must be smaller than DIARIZE_LOG_CAPTURE_DURATION_SECONDS: overlap_seconds=10 capture_duration_seconds=10"
    );
    assert_eq!(
        ConfigValidationError::InvalidTailSilenceDuration {
            silence_name: "DIARIZE_LOG_CAPTURE_SILENCE_MIN_DURATION_MS",
            tail_silence_name: "DIARIZE_LOG_CAPTURE_TAIL_SILENCE_MIN_DURATION_MS",
            silence_duration_ms: 500,
            tail_silence_duration_ms: 900,
            tail_silence_source: ConfigSource::Environment,
        }
        .message(),
        "DIARIZE_LOG_CAPTURE_TAIL_SILENCE_MIN_DURATION_MS from environment must be smaller than or equal to DIARIZE_LOG_CAPTURE_SILENCE_MIN_DURATION_MS: tail_silence_duration_ms=900 silence_duration_ms=500"
    );
}

#[test]
fn joins_every_rejected_setting_in_config_error() {
    let error = ConfigError::InvalidConfig(vec![
        ConfigValidationError::MissingRequiredValue { name: "OPENAI_API_KEY" },
        ConfigValidationError::MissingRequiredValue { name: "DIARIZE_LOG_STORAGE_ROOT" },
    ]);
    assert_eq!(
        error.message(),
        "invalid config: missing required value: OPENAI_API_KEY; missing required value: DIARIZE_LOG_STORAGE_ROOT"
    );
    assert_eq!(ConfigError::InvalidConfig(Vec::new()).message(), "invalid config: ");
}

#[test]
fn describes_command_line_problems() {
    assert_eq!(CliArgumentError::Parse { message: "error: bad".to_string() }.message(), "error: bad");
    assert_eq!(
        CliArgumentError::TooManySpeakerSamples { count: 5, max: 4 }.message(),
        "too many speaker samples: 5 provided, maximum is 4"
    );
    assert_eq!(
        CliArgumentError::RelativePathArgument { value: "samples/a.wav".to_string() }.message(),
        "relative path is not allowed: samples/a.wav"
    );
    assert_eq!(
        CliArgumentError::InvalidDiarizationMaxSpeakers { value: 0 }.message(),
        "--diarization-max-speakers must be greater than zero: 0"
    );
    assert_eq!(
        CliArgumentError::MissingMicrophoneOnlySpeaker.message(),
        "--microphone-only-speaker is required for --audio-source mixed"
    );
}

#[test]
fn describes_recording_and_storage_failures() {
    assert_eq!(RecorderError::NoInputDevice.message(), "default input device is not available");
    assert_eq!(
        RecorderError::CaptureOutOfRange { requested_end_ms: 1500, available_end_ms: 1000 }.message(),
        "requested capture exceeds recorded audio: requested_end_ms=1500 available_end_ms=1000"
    );
    assert_eq!(
        CaptureStoreError::WriteMerged("disk full".to_string()).message(),
        "failed to append merged log file: disk full"
    );
    assert_eq!(
        SpeakerStoreError::SpeakerNotFound { speaker_name: "sato".to_string() }.message(),
        "speaker sample was not found: sato"
    );
    assert_eq!(
        AudioClipperError::InvalidRange {
            requested_start_ms: 4000,
            requested_duration_ms: 6000,
            available_duration_ms: 8000,
        }
        .message(),
        "requested clip exceeds source audio: requested_start_ms=4000 requested_duration_ms=6000 available_duration_ms=8000"
    );
}

#[test]
fn prefixes_use_case_failures_with_their_stage() {
    assert_eq!(
        CaptureError::Record(RecorderError::SampleBufferPoisoned).message(),
        "recording failed: sample buffer was poisoned"
    );
    assert_eq!(
        CaptureError::Transcribe(TranscriberError::SendRequest("timeout".to_string())).message(),
        "transcription failed: failed to send transcription request: timeout"
    );
    assert_eq!(
        CaptureError::Store(CaptureStoreError::WriteAudio("denied".to_string())).message(),
        "capture persistence failed: failed to write audio file: denied"
    );
    assert_eq!(
        CaptureError::Write(std::io::Error::other("pipe closed")).message(),
        "logger write failed: pipe closed"
    );
    assert_eq!(
        SpeakerUseCaseError::Store(SpeakerStoreError::SpeakerAlreadyExists { speaker_name: "sato".to_string() })
            .message(),
        "speaker sample persistence failed: speaker sample already exists: sato"
    );
    assert_eq!(
        SpeakerUseCaseError::Clip(AudioClipperError::ReadSource("missing".to_string())).message(),
        "speaker sample clipping failed: failed to read source wav: missing"
    );
}

#[test]
fn lists_each_failed_source_in_mixed_capture_error() {
    let error = MixedCaptureError::AllSourcesFailed {
        failures: vec![
            MixedCaptureSourceFailure { source: TranscriptSource::Microphone, message: "mic down".to_string() },
            MixedCaptureSourceFailure { source: TranscriptSource::Application, message: "app gone".to_string() },
        ],
    };
    assert_eq!(error.message(), "all mixed capture sources failed: Microphone: mic down, Application: app gone");
    assert_eq!(
        MixedCaptureError::Store(CaptureStoreError::OpenMerged("denied".to_string())).message(),
        "mixed capture persistence failed: failed to open merged log file: denied"
    );
}
