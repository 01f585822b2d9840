//! The human-readable descriptions of the library's errors, as the command
//! line prints them.
use crate::capture::CaptureError;
use crate::cli::CliArgumentError;
use crate::config::{ConfigError, ConfigSource, ConfigValidationError};
use crate::domain::TranscriptSource;
use crate::mixed::{MixedCaptureError, MixedCaptureSourceFailure};
use crate::ports::{
    transcriber_error_detail, transcriber_error_prefix, AudioClipperError, CaptureStoreError,
    RecorderError, SpeakerStoreError,
};
use crate::speaker::SpeakerUseCaseError;
use crate::text::{decimal_string, decimal_text};
use vstd::prelude::*;

verus! {

/// `s` followed by `t`.
fn cat(s: String, t: &str) -> (r: String)
    ensures
        r@ == s@ + t@,
{
    let mut s = s;
    s.append(t);
    s
}

/// `s` followed by the decimal digits of `n`.
fn cat_number(s: String, n: u64) -> (r: String)
    ensures
        r@ == s@ + decimal_text(n as nat),
{
    let digits = decimal_string(n);
    cat(s, digits.as_str())
}

/// The parts in order with `sep` between each two.
pub open spec fn join_texts(parts: Seq<Seq<char>>, sep: Seq<char>) -> Seq<char>
    decreases parts.len(),
{
    if parts.len() == 0 {
        Seq::empty()
    } else if parts.len() == 1 {
        parts[0]
    } else {
        join_texts(parts.drop_last(), sep) + sep + parts.last()
    }
}

/// Joins `parts` with `sep` between each two, as `[..].join(sep)` does.
pub fn join_with(parts: &Vec<String>, sep: &str) -> (r: String)
    ensures
        r@ == join_texts(parts@.map_values(|p: String| p@), sep@),
{
    let ghost views = parts@.map_values(|p: String| p@);
    let mut r = String::new();
    let mut i: usize = 0;
    while i < parts.len()
        invariant
            i <= parts@.len(),
            views == parts@.map_values(|p: String| p@),
            r@ == join_texts(views.subrange(0, i as int), sep@),
        decreases parts.len() - i,
    {
        proof {
            assert(views.subrange(0, i + 1).drop_last() =~= views.subrange(0, i as int));
        }
        if i > 0 {
            r = cat(r, sep);
        }
        r = cat(r, parts[i].as_str());
        assert(r@ =~= join_texts(views.subrange(0, i + 1), sep@));
        i = i + 1;
    }
    assert(views.subrange(0, parts@.len() as int) =~= views);
    r
}

/// `.env` or `environment`.
pub open spec fn source_text(source: ConfigSource) -> Seq<char> {
    match source {
        ConfigSource::DotEnv => ".env"@,
        ConfigSource::Environment => "environment"@,
    }
}

/// The description of a rejected setting.
pub open spec fn config_validation_text(e: ConfigValidationError) -> Seq<char> {
    match e {
        ConfigValidationError::MissingRequiredValue { name } => "missing required value: "@ + name@,
        ConfigValidationError::EmptyValue { name, source } => "empty value for "@ + name@
            + " from "@ + source_text(source),
        ConfigValidationError::InvalidBooleanValue { name, value, source } =>
            "invalid boolean value for "@ + name@ + " from "@ + source_text(source) + ": "@
            + value@,
        ConfigValidationError::InvalidPositiveIntegerValue { name, value, source } =>
            "invalid positive integer value for "@ + name@ + " from "@ + source_text(source)
            + ": "@ + value@,
        ConfigValidationError::InvalidUnitIntervalValue { name, value, source } =>
            "invalid unit interval value for "@ + name@ + " from "@ + source_text(source)
            + ": "@ + value@,
        ConfigValidationError::InvalidTranscriptionLanguageModeValue { name, value, source } =>
            "invalid transcription language mode value for "@ + name@ + " from "@
            + source_text(source) + ": "@ + value@,
        ConfigValidationError::InvalidTranscriptionPipelineValue { name, value, source } =>
            "invalid transcription pipeline value for "@ + name@ + " from "@ + source_text(
            source) + ": "@ + value@,
        ConfigValidationError::InvalidNegativeDecibelValue { name, value, source } =>
            "invalid negative dBFS value for "@ + name@ + " from "@ + source_text(source)
            + ": "@ + value@,
        ConfigValidationError::InvalidCaptureOverlap {
            overlap_name,
            capture_duration_name,
            overlap_seconds,
            capture_duration_seconds,
            overlap_source,
        } => overlap_name@ + " from "@ + source_text(overlap_source) + " must be smaller than "@
            + capture_duration_name@ + ": overlap_seconds="@ + decimal_text(
            overlap_seconds as nat) + " capture_duration_seconds="@ + decimal_text(
            capture_duration_seconds as nat),
        ConfigValidationError::InvalidTailSilenceDuration {
            silence_name,
            tail_silence_name,
            silence_duration_ms,
            tail_silence_duration_ms,
            tail_silence_source,
        } => tail_silence_name@ + " from "@ + source_text(tail_silence_source)
            + " must be smaller than or equal to "@ + silence_name@
            + ": tail_silence_duration_ms="@ + decimal_text(tail_silence_duration_ms as nat)
            + " silence_duration_ms="@ + decimal_text(silence_duration_ms as nat),
        ConfigValidationError::RelativePathValue { name, value, source } =>
            "relative path is not allowed for "@ + name@ + " from "@ + source_text(source) + ": "@
            + value@,
        ConfigValidationError::MissingPyannoteApiKey { pipeline_name, api_key_name } =>
            api_key_name@ + " is required when "@ + pipeline_name@ + "=separated"@,
    }
}

/// `name from source: value`, the tail shared by most descriptions.
fn named_value(head: &str, name: &str, source: ConfigSource, value: &str) -> (r: String)
    ensures
        r@ == head@ + name@ + " from "@ + source_text(source) + ": "@ + value@,
{
    let r = cat(cat(cat(cat(cat(head.to_owned(), name), " from "), source.display_text()), ": "), value);
    r
}

impl ConfigValidationError {
    /// The human-readable description of the rejected setting.
    pub fn message(&self) -> (r: String)
        ensures
            r@ == config_validation_text(*self),
    {
        match self {
            ConfigValidationError::MissingRequiredValue { name } => cat(
                "missing required value: ".to_owned(),
                name,
            ),
            ConfigValidationError::EmptyValue { name, source } => cat(
                cat(cat("empty value for ".to_owned(), name), " from "),
                source.display_text(),
            ),
            ConfigValidationError::InvalidBooleanValue { name, value, source } => named_value(
                "invalid boolean value for ",
                name,
                *source,
                value.as_str(),
            ),
            ConfigValidationError::InvalidPositiveIntegerValue { name, value, source } =>
                named_value("invalid positive integer value for ", name, *source, value.as_str()),
            ConfigValidationError::InvalidUnitIntervalValue { name, value, source } => named_value(
                "invalid unit interval value for ",
                name,
                *source,
                value.as_str(),
            ),
            ConfigValidationError::InvalidTranscriptionLanguageModeValue { name, value, source } =>
                named_value(
                "invalid transcription language mode value for ",
                name,
                *source,
                value.as_str(),
            ),
            ConfigValidationError::InvalidTranscriptionPipelineValue { name, value, source } =>
                named_value(
                "invalid transcription pipeline value for ",
                name,
                *source,
                value.as_str(),
            ),
            ConfigValidationError::InvalidNegativeDecibelValue { name, value, source } =>
                named_value("invalid negative dBFS value for ", name, *source, value.as_str()),
            ConfigValidationError::InvalidCaptureOverlap {
                overlap_name,
                capture_duration_name,
                overlap_seconds,
                capture_duration_seconds,
                overlap_source,
            } => {
                let s = cat(
                    cat(cat((*overlap_name).to_owned(), " from "), overlap_source.display_text()),
                    " must be smaller than ",
                );
                let s = cat(cat(s, capture_duration_name), ": overlap_seconds=");
                let s = cat(cat_number(s, *overlap_seconds), " capture_duration_seconds=");
                cat_number(s, *capture_duration_seconds)
            },
            ConfigValidationError::InvalidTailSilenceDuration {
                silence_name,
                tail_silence_name,
                silence_duration_ms,
                tail_silence_duration_ms,
                tail_silence_source,
            } => {
                let s = cat(
                    cat(cat((*tail_silence_name).to_owned(), " from "), tail_silence_source.display_text()),
                    " must be smaller than or equal to ",
                );
                let s = cat(cat(s, silence_name), ": tail_silence_duration_ms=");
                let s = cat(cat_number(s, *tail_silence_duration_ms), " silence_duration_ms=");
                cat_number(s, *silence_duration_ms)
            },
            ConfigValidationError::RelativePathValue { name, value, source } => named_value(
                "relative path is not allowed for ",
                name,
                *source,
                value.as_str(),
            ),
            ConfigValidationError::MissingPyannoteApiKey { pipeline_name, api_key_name } => cat(
                cat(cat((*api_key_name).to_owned(), " is required when "), pipeline_name),
                "=separated",
            ),
        }
    }
}

/// The `Display` text of a `.env` reading error.
///
/// Nothing is claimed of the text: for a failed read it carries the
/// operating system's own message.
#[verifier::external_body]
fn dotenv_error_text(error: &dotenvy::Error) -> String {
    error.to_string()
}

/// The descriptions of the rejected settings, in order.
pub open spec fn validation_texts(errors: Seq<ConfigValidationError>) -> Seq<Seq<char>> {
    errors.map_values(|e: ConfigValidationError| config_validation_text(e))
}

impl ConfigError {
    /// The human-readable description: every rejected setting, separated by
    /// `; `, or the `.env` reading failure.
    pub fn message(&self) -> (r: String)
        ensures
            *self matches ConfigError::InvalidConfig(errors) ==> r@ == "invalid config: "@
                + join_texts(validation_texts(errors@), "; "@),
            self is ReadDotEnv ==> "failed to read .env: "@.is_prefix_of(r@),
    {
        match self {
            ConfigError::ReadDotEnv(error) => {
                let r = cat("failed to read .env: ".to_owned(), dotenv_error_text(error).as_str());
                assert("failed to read .env: "@.is_prefix_of(r@)) by {
                    assert(r@.subrange(0, "failed to read .env: "@.len() as int)
                        =~= "failed to read .env: "@);
                }
                r
            },
            ConfigError::InvalidConfig(errors) => {
                let mut texts: Vec<String> = Vec::new();
                let mut i: usize = 0;
                while i < errors.len()
                    invariant
                        i <= errors@.len(),
                        texts@.len() == i,
                        forall|k: int| 0 <= k < i ==> #[trigger] texts@[k]@ == config_validation_text(
                            errors@[k],
                        ),
                    decreases errors.len() - i,
                {
                    texts.push(errors[i].message());
                    i = i + 1;
                }
                assert(texts@.map_values(|p: String| p@) =~= validation_texts(errors@));
                cat("invalid config: ".to_owned(), join_with(&texts, "; ").as_str())
            },
        }
    }
}

/// The description of a rejected command line.
pub open spec fn cli_error_text(e: CliArgumentError) -> Seq<char> {
    match e {
        CliArgumentError::Parse { message } => message@,
        CliArgumentError::RelativePathArgument { value } => "relative path is not allowed: "@ + value@,
        CliArgumentError::TooManySpeakerSamples { count, max } => "too many speaker samples: "@
            + decimal_text(count as nat) + " provided, maximum is "@ + decimal_text(max as nat),
        CliArgumentError::MissingApplicationBundleId =>
            "--application-bundle-id is required for --audio-source application or mixed"@,
        CliArgumentError::UnexpectedApplicationBundleId =>
            "--application-bundle-id can only be used with --audio-source application or mixed"@,
        CliArgumentError::MissingMicrophoneOnlySpeaker =>
            "--microphone-only-speaker is required for --audio-source mixed"@,
        CliArgumentError::UnexpectedMicrophoneOnlySpeaker =>
            "--microphone-only-speaker can only be used with --audio-source microphone or mixed"@,
        CliArgumentError::UnexpectedApplicationOnlySpeaker =>
            "--application-only-speaker can only be used with --audio-source application or mixed"@,
        CliArgumentError::InvalidDiarizationMaxSpeakers { value } =>
            "--diarization-max-speakers must be greater than zero: "@ + decimal_text(value as nat),
        CliArgumentError::UnexpectedDiarizationMaxSpeakersForLegacy =>
            "--diarization-max-speakers can only be used with --transcription-pipeline separated"@,
    }
}

impl CliArgumentError {
    /// The human-readable description of the problem.
    pub fn message(&self) -> (r: String)
        ensures
            r@ == cli_error_text(*self),
    {
        match self {
            CliArgumentError::Parse { message } => message.as_str().to_owned(),
            CliArgumentError::RelativePathArgument { value } => cat(
                "relative path is not allowed: ".to_owned(),
                value.as_str(),
            ),
            CliArgumentError::TooManySpeakerSamples { count, max } => {
                let s = cat_number("too many speaker samples: ".to_owned(), *count as u64);
                cat_number(cat(s, " provided, maximum is "), *max as u64)
            },
            CliArgumentError::MissingApplicationBundleId =>
                "--application-bundle-id is required for --audio-source application or mixed".to_owned(),
            CliArgumentError::UnexpectedApplicationBundleId =>
                "--application-bundle-id can only be used with --audio-source application or mixed".to_owned(),
            CliArgumentError::MissingMicrophoneOnlySpeaker =>
                "--microphone-only-speaker is required for --audio-source mixed".to_owned(),
            CliArgumentError::UnexpectedMicrophoneOnlySpeaker =>
                "--microphone-only-speaker can only be used with --audio-source microphone or mixed".to_owned(),
            CliArgumentError::UnexpectedApplicationOnlySpeaker =>
                "--application-only-speaker can only be used with --audio-source application or mixed".to_owned(),
            CliArgumentError::InvalidDiarizationMaxSpeakers { value } => cat_number(
                "--diarization-max-speakers must be greater than zero: ".to_owned(),
                *value,
            ),
            CliArgumentError::UnexpectedDiarizationMaxSpeakersForLegacy =>
                "--diarization-max-speakers can only be used with --transcription-pipeline separated".to_owned(),
        }
    }
}

/// The description of a recording failure.
pub open spec fn recorder_error_text(e: RecorderError) -> Seq<char> {
    match e {
        RecorderError::NoInputDevice => "default input device is not available"@,
        RecorderError::ReadInputConfig(s) => "failed to read default input config: "@ + s@,
        RecorderError::ReadShareableContent(s) => "failed to read shareable screen capture content: "@
            + s@,
        RecorderError::ApplicationNotFound { bundle_id } =>
            "capture target application is not running: "@ + bundle_id@,
        RecorderError::ApplicationDisplayNotFound { bundle_id } =>
            "failed to resolve a display for the target application: "@ + bundle_id@,
        RecorderError::BuildStream(s) => "failed to build input stream: "@ + s@,
        RecorderError::PlayStream(s) => "failed to start input stream: "@ + s@,
        RecorderError::AddStreamOutput(s) => "failed to add screen capture stream output: "@ + s@,
        RecorderError::StartCapture(s) => "failed to start screen capture stream: "@ + s@,
        RecorderError::UnsupportedSampleFormat(s) => "unsupported input sample format: "@ + s@,
        RecorderError::CallbackStream(s) => "stream callback failed: "@ + s@,
        RecorderError::SampleBufferPoisoned => "sample buffer was poisoned"@,
        RecorderError::DecodeCapturedAudio(s) => "failed to decode captured audio: "@ + s@,
        RecorderError::EncodeWav(s) => "failed to encode wav: "@ + s@,
        RecorderError::CaptureOutOfRange { requested_end_ms, available_end_ms } =>
            "requested capture exceeds recorded audio: requested_end_ms="@ + decimal_text(
            requested_end_ms as nat) + " available_end_ms="@ + decimal_text(available_end_ms as nat),
    }
}

impl RecorderError {
    /// The human-readable description of the failure.
    pub fn message(&self) -> (r: String)
        ensures
            r@ == recorder_error_text(*self),
    {
        match self {
            RecorderError::NoInputDevice => "default input device is not available".to_owned(),
            RecorderError::ReadInputConfig(s) => cat("failed to read default input config: ".to_owned(), s.as_str()),
            RecorderError::ReadShareableContent(s) => cat(
                "failed to read shareable screen capture content: ".to_owned(),
                s.as_str(),
            ),
            RecorderError::ApplicationNotFound { bundle_id } => cat(
                "capture target application is not running: ".to_owned(),
                bundle_id.as_str(),
            ),
            RecorderError::ApplicationDisplayNotFound { bundle_id } => cat(
                "failed to resolve a display for the target application: ".to_owned(),
                bundle_id.as_str(),
            ),
            RecorderError::BuildStream(s) => cat("failed to build input stream: ".to_owned(), s.as_str()),
            RecorderError::PlayStream(s) => cat("failed to start input stream: ".to_owned(), s.as_str()),
            RecorderError::AddStreamOutput(s) => cat(
                "failed to add screen capture stream output: ".to_owned(),
                s.as_str(),
            ),
            RecorderError::StartCapture(s) => cat("failed to start screen capture stream: ".to_owned(), s.as_str()),
            RecorderError::UnsupportedSampleFormat(s) => cat("unsupported input sample format: ".to_owned(), s.as_str()),
            RecorderError::CallbackStream(s) => cat("stream callback failed: ".to_owned(), s.as_str()),
            RecorderError::SampleBufferPoisoned => "sample buffer was poisoned".to_owned(),
            RecorderError::DecodeCapturedAudio(s) => cat("failed to decode captured audio: ".to_owned(), s.as_str()),
            RecorderError::EncodeWav(s) => cat("failed to encode wav: ".to_owned(), s.as_str()),
            RecorderError::CaptureOutOfRange { requested_end_ms, available_end_ms } => {
                let s = cat_number(
                    "requested capture exceeds recorded audio: requested_end_ms=".to_owned(),
                    *requested_end_ms,
                );
                cat_number(cat(s, " available_end_ms="), *available_end_ms)
            },
        }
    }
}

/// The description of a capture storage failure.
pub open spec fn capture_store_error_text(e: CaptureStoreError) -> Seq<char> {
    match e {
        CaptureStoreError::CreateSession(s) => "failed to create storage directories: "@ + s@,
        CaptureStoreError::ResolveLocalOffset(s) => "failed to resolve local timezone offset: "@ + s@,
        CaptureStoreError::FormatSessionName(s) => "failed to format session directory name: "@ + s@,
        CaptureStoreError::WriteAudio(s) => "failed to write audio file: "@ + s@,
        CaptureStoreError::WriteCapture(s) => "failed to write capture file: "@ + s@,
        CaptureStoreError::SerializeCapture(s) => "failed to serialize capture file: "@ + s@,
        CaptureStoreError::WriteMetadata(s) => "failed to write metadata file: "@ + s@,
        CaptureStoreError::SerializeMetadata(s) => "failed to serialize metadata file: "@ + s@,
        CaptureStoreError::OpenMerged(s) => "failed to open merged log file: "@ + s@,
        CaptureStoreError::WriteMerged(s) => "failed to append merged log file: "@ + s@,
        CaptureStoreError::SerializeMerged(s) => "failed to serialize merged log entry: "@ + s@,
        CaptureStoreError::OpenMergeAudit(s) => "failed to open merge audit file: "@ + s@,
        CaptureStoreError::WriteMergeAudit(s) => "failed to append merge audit file: "@ + s@,
        CaptureStoreError::SerializeMergeAudit(s) => "failed to serialize merge audit entry: "@ + s@,
    }
}

impl CaptureStoreError {
    /// The human-readable description of the failure.
    pub fn message(&self) -> (r: String)
        ensures
            r@ == capture_store_error_text(*self),
    {
        match self {
            CaptureStoreError::CreateSession(s) => cat("failed to create storage directories: ".to_owned(), s.as_str()),
            CaptureStoreError::ResolveLocalOffset(s) => cat(
                "failed to resolve local timezone offset: ".to_owned(),
                s.as_str(),
            ),
            CaptureStoreError::FormatSessionName(s) => cat(
                "failed to format session directory name: ".to_owned(),
                s.as_str(),
            ),
            CaptureStoreError::WriteAudio(s) => cat("failed to write audio file: ".to_owned(), s.as_str()),
            CaptureStoreError::WriteCapture(s) => cat("failed to write capture file: ".to_owned(), s.as_str()),
            CaptureStoreError::SerializeCapture(s) => cat("failed to serialize capture file: ".to_owned(), s.as_str()),
            CaptureStoreError::WriteMetadata(s) => cat("failed to write metadata file: ".to_owned(), s.as_str()),
            CaptureStoreError::SerializeMetadata(s) => cat("failed to serialize metadata file: ".to_owned(), s.as_str()),
            CaptureStoreError::OpenMerged(s) => cat("failed to open merged log file: ".to_owned(), s.as_str()),
            CaptureStoreError::WriteMerged(s) => cat("failed to append merged log file: ".to_owned(), s.as_str()),
            CaptureStoreError::SerializeMerged(s) => cat("failed to serialize merged log entry: ".to_owned(), s.as_str()),
            CaptureStoreError::OpenMergeAudit(s) => cat("failed to open merge audit file: ".to_owned(), s.as_str()),
            CaptureStoreError::WriteMergeAudit(s) => cat("failed to append merge audit file: ".to_owned(), s.as_str()),
            CaptureStoreError::SerializeMergeAudit(s) => cat(
                "failed to serialize merge audit entry: ".to_owned(),
                s.as_str(),
            ),
        }
    }
}

/// The description of a speaker storage failure.
pub open spec fn speaker_store_error_text(e: SpeakerStoreError) -> Seq<char> {
    match e {
        SpeakerStoreError::CreateDirectory(s) => "failed to create speaker storage directory: "@ + s@,
        SpeakerStoreError::InvalidSpeakerName { speaker_name } => "invalid speaker name: "@
            + speaker_name@,
        SpeakerStoreError::SpeakerAlreadyExists { speaker_name } => "speaker sample already exists: "@
            + speaker_name@,
        SpeakerStoreError::SpeakerNotFound { speaker_name } => "speaker sample was not found: "@
            + speaker_name@,
        SpeakerStoreError::WriteSample(s) => "failed to write speaker sample: "@ + s@,
        SpeakerStoreError::ReadSample(s) => "failed to read speaker sample: "@ + s@,
        SpeakerStoreError::DeleteSample(s) => "failed to delete speaker sample: "@ + s@,
        SpeakerStoreError::ListSamples(s) => "failed to list speaker samples: "@ + s@,
    }
}

impl SpeakerStoreError {
    /// The human-readable description of the failure.
    pub fn message(&self) -> (r: String)
        ensures
            r@ == speaker_store_error_text(*self),
    {
        match self {
            SpeakerStoreError::CreateDirectory(s) => cat(
                "failed to create speaker storage directory: ".to_owned(),
                s.as_str(),
            ),
            SpeakerStoreError::InvalidSpeakerName { speaker_name } => cat(
                "invalid speaker name: ".to_owned(),
                speaker_name.as_str(),
            ),
            SpeakerStoreError::SpeakerAlreadyExists { speaker_name } => cat(
                "speaker sample already exists: ".to_owned(),
                speaker_name.as_str(),
            ),
            SpeakerStoreError::SpeakerNotFound { speaker_name } => cat(
                "speaker sample was not found: ".to_owned(),
                speaker_name.as_str(),
            ),
            SpeakerStoreError::WriteSample(s) => cat("failed to write speaker sample: ".to_owned(), s.as_str()),
            SpeakerStoreError::ReadSample(s) => cat("failed to read speaker sample: ".to_owned(), s.as_str()),
            SpeakerStoreError::DeleteSample(s) => cat("failed to delete speaker sample: ".to_owned(), s.as_str()),
            SpeakerStoreError::ListSamples(s) => cat("failed to list speaker samples: ".to_owned(), s.as_str()),
        }
    }
}

/// The description of a clipping failure.
pub open spec fn clipper_error_text(e: AudioClipperError) -> Seq<char> {
    match e {
        AudioClipperError::ReadSource(s) => "failed to read source wav: "@ + s@,
        AudioClipperError::EncodeClip(s) => "failed to encode clipped wav: "@ + s@,
        AudioClipperError::InvalidRange {
            requested_start_ms,
            requested_duration_ms,
            available_duration_ms,
        } => "requested clip exceeds source audio: requested_start_ms="@ + decimal_text(
            requested_start_ms as nat) + " requested_duration_ms="@ + decimal_text(
            requested_duration_ms as nat) + " available_duration_ms="@ + decimal_text(
            available_duration_ms as nat),
    }
}

impl AudioClipperError {
    /// The human-readable description of the failure.
    pub fn message(&self) -> (r: String)
        ensures
            r@ == clipper_error_text(*self),
    {
        match self {
            AudioClipperError::ReadSource(s) => cat("failed to read source wav: ".to_owned(), s.as_str()),
            AudioClipperError::EncodeClip(s) => cat("failed to encode clipped wav: ".to_owned(), s.as_str()),
            AudioClipperError::InvalidRange {
                requested_start_ms,
                requested_duration_ms,
                available_duration_ms,
            } => {
                let s = cat_number(
                    "requested clip exceeds source audio: requested_start_ms=".to_owned(),
                    *requested_start_ms,
                );
                let s = cat_number(cat(s, " requested_duration_ms="), *requested_duration_ms);
                cat_number(cat(s, " available_duration_ms="), *available_duration_ms)
            },
        }
    }
}

/// The `Display` text of an I/O error.
///
/// Nothing is claimed of the text: it is the operating system's message.
#[verifier::external_body]
fn io_error_text(error: &std::io::Error) -> String {
    error.to_string()
}

impl CaptureError {
    /// The human-readable description: which stage failed, then why.
    pub fn message(&self) -> (r: String)
        ensures
            *self matches CaptureError::Record(e) ==> r@ == "recording failed: "@
                + recorder_error_text(e),
            *self matches CaptureError::Transcribe(e) ==> r@ == "transcription failed: "@
                + transcriber_error_prefix(e) + transcriber_error_detail(e),
            *self matches CaptureError::Store(e) ==> r@ == "capture persistence failed: "@
                + capture_store_error_text(e),
            self is Write ==> "logger write failed: "@.is_prefix_of(r@),
    {
        match self {
            CaptureError::Record(e) => cat("recording failed: ".to_owned(), e.message().as_str()),
            CaptureError::Transcribe(e) => {
                let r = cat("transcription failed: ".to_owned(), e.message().as_str());
                assert(r@ =~= "transcription failed: "@ + transcriber_error_prefix(*e)
                    + transcriber_error_detail(*e));
                r
            },
            CaptureError::Store(e) => cat("capture persistence failed: ".to_owned(), e.message().as_str()),
            CaptureError::Write(e) => {
                let r = cat("logger write failed: ".to_owned(), io_error_text(e).as_str());
                assert("logger write failed: "@.is_prefix_of(r@)) by {
                    assert(r@.subrange(0, "logger write failed: "@.len() as int)
                        =~= "logger write failed: "@);
                }
                r
            },
        }
    }
}

impl SpeakerUseCaseError {
    /// The human-readable description: which step failed, then why.
    pub fn message(&self) -> (r: String)
        ensures
            *self matches SpeakerUseCaseError::Clip(e) ==> r@ == "speaker sample clipping failed: "@
                + clipper_error_text(e),
            *self matches SpeakerUseCaseError::Store(e) ==> r@
                == "speaker sample persistence failed: "@ + speaker_store_error_text(e),
    {
        match self {
            SpeakerUseCaseError::Clip(e) => cat("speaker sample clipping failed: ".to_owned(), e.message().as_str()),
            SpeakerUseCaseError::Store(e) => cat(
                "speaker sample persistence failed: ".to_owned(),
                e.message().as_str(),
            ),
        }
    }
}

/// The source's name as `{:?}` prints it.
pub open spec fn source_debug_text(source: TranscriptSource) -> Seq<char> {
    match source {
        TranscriptSource::Microphone => "Microphone"@,
        TranscriptSource::Application => "Application"@,
    }
}

/// `Source: message`.
pub open spec fn source_failure_text(f: MixedCaptureSourceFailure) -> Seq<char> {
    source_debug_text(f.source) + ": "@ + f.message@
}

impl MixedCaptureSourceFailure {
    /// The failed source and its message.
    pub fn describe(&self) -> (r: String)
        ensures
            r@ == source_failure_text(*self),
    {
        let name = match self.source {
            TranscriptSource::Microphone => "Microphone",
            TranscriptSource::Application => "Application",
        };
        cat(cat(name.to_owned(), ": "), self.message.as_str())
    }
}

impl MixedCaptureError {
    /// The human-readable description: the storage failure, or every
    /// source's failure separated by `, `.
    pub fn message(&self) -> (r: String)
        ensures
            *self matches MixedCaptureError::Store(e) ==> r@ == "mixed capture persistence failed: "@
                + capture_store_error_text(e),
            *self matches MixedCaptureError::AllSourcesFailed { failures } ==> r@
                == "all mixed capture sources failed: "@ + join_texts(
                failures@.map_values(|f: MixedCaptureSourceFailure| source_failure_text(f)),
                ", "@,
            ),
    {
        match self {
            MixedCaptureError::Store(e) => cat(
                "mixed capture persistence failed: ".to_owned(),
                e.message().as_str(),
            ),
            MixedCaptureError::AllSourcesFailed { failures } => {
                let mut texts: Vec<String> = Vec::new();
                let mut i: usize = 0;
                while i < failures.len()
                    invariant
                        i <= failures@.len(),
                        texts@.len() == i,
                        forall|k: int| 0 <= k < i ==> #[trigger] texts@[k]@ == source_failure_text(
                            failures@[k],
                        ),
                    decreases failures.len() - i,
                {
                    texts.push(failures[i].describe());
                    i = i + 1;
                }
                assert(texts@.map_values(|p: String| p@) =~= failures@.map_values(
                    |f: MixedCaptureSourceFailure| source_failure_text(f),
                ));
                cat("all mixed capture sources failed: ".to_owned(), join_with(&texts, ", ").as_str())
            },
        }
    }
}

} // verus!
