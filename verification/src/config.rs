//! Runtime settings: raw values gathered from the environment and the `.env`
//! file, the precedence between the two, and their validation into a
//! [`Config`].
use crate::domain::{
    Binary64, RECOMMENDED_MIN_ALIGNMENT_RATIO_BITS, RECOMMENDED_MIN_OVERLAP_CHARS,
    RECOMMENDED_MIN_TRIGRAM_SIMILARITY_BITS, RECOMMENDED_SILENCE_MIN_DURATION_MS,
    RECOMMENDED_SILENCE_THRESHOLD_DBFS_BITS, RECOMMENDED_TAIL_SILENCE_MIN_DURATION_MS,
    LanguageModel, SilenceRequestPolicy, TranscriptMergePolicy, TranscriptionLanguage,
};
use crate::text::{
    copy_string, is_blank, is_white_space, parse_u64, parse_u64_spec, same_text, trim, trim_end_spec,
    trim_spec, trim_start_spec,
};
use vstd::prelude::*;
use vstd::string::*;

verus! {

/// The default `.env` file path.
pub const DEFAULT_DOTENV_PATH: &'static str = ".env";

pub const OPENAI_API_KEY_ENV_VAR: &'static str = "OPENAI_API_KEY";

pub const RECORDING_DURATION_SECONDS_ENV_VAR: &'static str = "DIARIZE_LOG_RECORDING_DURATION_SECONDS";

pub const CAPTURE_DURATION_SECONDS_ENV_VAR: &'static str = "DIARIZE_LOG_CAPTURE_DURATION_SECONDS";

pub const CAPTURE_OVERLAP_SECONDS_ENV_VAR: &'static str = "DIARIZE_LOG_CAPTURE_OVERLAP_SECONDS";

pub const CAPTURE_SILENCE_THRESHOLD_DBFS_ENV_VAR: &'static str =
    "DIARIZE_LOG_CAPTURE_SILENCE_THRESHOLD_DBFS";

pub const CAPTURE_SILENCE_MIN_DURATION_MS_ENV_VAR: &'static str =
    "DIARIZE_LOG_CAPTURE_SILENCE_MIN_DURATION_MS";

pub const CAPTURE_TAIL_SILENCE_MIN_DURATION_MS_ENV_VAR: &'static str =
    "DIARIZE_LOG_CAPTURE_TAIL_SILENCE_MIN_DURATION_MS";

pub const SPEAKER_SAMPLE_DURATION_SECONDS_ENV_VAR: &'static str =
    "DIARIZE_LOG_SPEAKER_SAMPLE_DURATION_SECONDS";

pub const TRANSCRIPTION_LANGUAGE_ENV_VAR: &'static str = "DIARIZE_LOG_TRANSCRIPTION_LANGUAGE";

pub const DEBUG_ENV_VAR: &'static str = "DIARIZE_LOG_DEBUG";

pub const STORAGE_ROOT_ENV_VAR: &'static str = "DIARIZE_LOG_STORAGE_ROOT";

pub const MERGE_MIN_OVERLAP_CHARS_ENV_VAR: &'static str = "DIARIZE_LOG_MERGE_MIN_OVERLAP_CHARS";

pub const MERGE_ALIGNMENT_RATIO_ENV_VAR: &'static str = "DIARIZE_LOG_MERGE_ALIGNMENT_RATIO";

pub const MERGE_TRIGRAM_SIMILARITY_ENV_VAR: &'static str = "DIARIZE_LOG_MERGE_TRIGRAM_SIMILARITY";

pub const TRANSCRIPTION_PIPELINE_ENV_VAR: &'static str = "DIARIZE_LOG_TRANSCRIPTION_PIPELINE";

pub const PYANNOTE_API_KEY_ENV_VAR: &'static str = "PYANNOTE_API_KEY";

pub const DIARIZATION_MAX_SPEAKERS_ENV_VAR: &'static str = "DIARIZE_LOG_DIARIZATION_MAX_SPEAKERS";

/// The language used when none is configured.
pub const DEFAULT_TRANSCRIPTION_LANGUAGE: &'static str = "ja";

/// The transcription pipeline.
#[derive(Debug, Clone, Copy, PartialEq, Eq, Structural)]
pub enum TranscriptionPipeline {
    Legacy,
    Separated,
}

impl TranscriptionPipeline {
    /// `legacy` or `separated`.
    pub fn display_text(&self) -> (r: &'static str)
        ensures
            r@ == (match self {
                TranscriptionPipeline::Legacy => "legacy"@,
                TranscriptionPipeline::Separated => "separated"@,
            }),
    {
        match self {
            TranscriptionPipeline::Legacy => "legacy",
            TranscriptionPipeline::Separated => "separated",
        }
    }
}

/// Where a setting's value came from.
#[derive(Debug, Clone, Copy, PartialEq, Eq, Structural)]
pub enum ConfigSource {
    DotEnv,
    Environment,
}

impl ConfigSource {
    /// `.env` or `environment`.
    pub fn display_text(&self) -> (r: &'static str)
        ensures
            r@ == (match self {
                ConfigSource::DotEnv => ".env"@,
                ConfigSource::Environment => "environment"@,
            }),
    {
        match self {
            ConfigSource::DotEnv => ".env",
            ConfigSource::Environment => "environment",
        }
    }
}

/// A raw setting together with where it was read.
#[derive(Debug, Clone, PartialEq, Eq)]
pub struct ConfigValue<T> {
    pub value: T,
    pub source: ConfigSource,
}

impl<T> ConfigValue<T> {
    pub fn new(value: T, source: ConfigSource) -> (r: Self)
        ensures
            r.value == value,
            r.source == source,
    {
        Self { value, source }
    }
}

/// The text of a real-valued setting and how `str::parse::<f64>` read it
/// (`None` where parsing failed).
#[derive(Debug, Clone, PartialEq, Eq)]
pub struct DecimalText {
    pub text: String,
    pub parsed: Option<Binary64>,
}

/// Settings as read, before validation; `None` means the key was absent.
#[derive(Debug, Clone, PartialEq, Eq)]
pub struct RawConfig {
    pub openai_api_key: Option<ConfigValue<String>>,
    pub pyannote_api_key: Option<ConfigValue<String>>,
    pub recording_duration_seconds: Option<ConfigValue<String>>,
    pub capture_duration_seconds: Option<ConfigValue<String>>,
    pub capture_overlap_seconds: Option<ConfigValue<String>>,
    pub capture_silence_threshold_dbfs: Option<ConfigValue<DecimalText>>,
    pub capture_silence_min_duration_ms: Option<ConfigValue<String>>,
    pub capture_tail_silence_min_duration_ms: Option<ConfigValue<String>>,
    pub speaker_sample_duration_seconds: Option<ConfigValue<String>>,
    pub transcription_language: Option<ConfigValue<String>>,
    pub transcription_pipeline: Option<ConfigValue<String>>,
    pub diarization_max_speakers: Option<ConfigValue<String>>,
    pub merge_min_overlap_chars: Option<ConfigValue<String>>,
    pub merge_alignment_ratio: Option<ConfigValue<DecimalText>>,
    pub merge_trigram_similarity: Option<ConfigValue<DecimalText>>,
    pub debug_enabled: Option<ConfigValue<String>>,
    pub storage_root: Option<ConfigValue<String>>,
}

/// The validated runtime settings.
#[derive(Debug, Clone, PartialEq, Eq)]
pub struct Config {
    pub openai_api_key: String,
    pub openai_api_key_source: ConfigSource,
    pub pyannote_api_key: Option<String>,
    pub recording_duration_secs: u64,
    pub capture_duration_secs: u64,
    pub capture_overlap_secs: u64,
    pub capture_silence_request_policy: SilenceRequestPolicy,
    pub speaker_sample_duration_secs: u64,
    pub transcription_language: TranscriptionLanguage,
    pub transcription_pipeline: TranscriptionPipeline,
    pub diarization_max_speakers: Option<u64>,
    pub transcript_merge_policy: TranscriptMergePolicy,
    pub debug_enabled: bool,
    pub storage_root: String,
}

/// The `.env` reader's error type, carried unopened.
#[verifier::external_type_specification]
#[verifier::external_body]
pub struct ExDotenvError(dotenvy::Error);

/// A failure to read or validate the settings.
#[derive(Debug)]
pub enum ConfigError {
    ReadDotEnv(dotenvy::Error),
    InvalidConfig(Vec<ConfigValidationError>),
}

/// One invalid or missing setting.
#[derive(Debug, Clone, PartialEq, Eq)]
pub enum ConfigValidationError {
    MissingRequiredValue { name: &'static str },
    EmptyValue { name: &'static str, source: ConfigSource },
    InvalidBooleanValue { name: &'static str, value: String, source: ConfigSource },
    InvalidPositiveIntegerValue { name: &'static str, value: String, source: ConfigSource },
    InvalidUnitIntervalValue { name: &'static str, value: String, source: ConfigSource },
    InvalidTranscriptionLanguageModeValue {
        name: &'static str,
        value: String,
        source: ConfigSource,
    },
    InvalidTranscriptionPipelineValue { name: &'static str, value: String, source: ConfigSource },
    InvalidNegativeDecibelValue { name: &'static str, value: String, source: ConfigSource },
    InvalidCaptureOverlap {
        overlap_name: &'static str,
        capture_duration_name: &'static str,
        overlap_seconds: u64,
        capture_duration_seconds: u64,
        overlap_source: ConfigSource,
    },
    InvalidTailSilenceDuration {
        silence_name: &'static str,
        tail_silence_name: &'static str,
        silence_duration_ms: u64,
        tail_silence_duration_ms: u64,
        tail_silence_source: ConfigSource,
    },
    RelativePathValue { name: &'static str, value: String, source: ConfigSource },
    MissingPyannoteApiKey { pipeline_name: &'static str, api_key_name: &'static str },
}

/// A debug flag: `1`, `true`, `TRUE`, `yes`, `YES` or `0`, `false`, `FALSE`,
/// `no`, `NO` (compared exactly, without trimming).
#[verifier::opaque]
pub open spec fn bool_spec(v: ConfigValue<String>, name: &'static str) -> Result<
    bool,
    ConfigValidationError,
> {
    if is_blank(v.value@) {
        Err(ConfigValidationError::EmptyValue { name, source: v.source })
    } else if v.value@ == "1"@ || v.value@ == "true"@ || v.value@ == "TRUE"@ || v.value@
        == "yes"@ || v.value@ == "YES"@ {
        Ok(true)
    } else if v.value@ == "0"@ || v.value@ == "false"@ || v.value@ == "FALSE"@ || v.value@
        == "no"@ || v.value@ == "NO"@ {
        Ok(false)
    } else {
        Err(ConfigValidationError::InvalidBooleanValue { name, value: v.value, source: v.source })
    }
}

/// A whole number greater than zero, in `str::parse::<u64>` syntax.
#[verifier::opaque]
pub open spec fn positive_spec(v: ConfigValue<String>, name: &'static str) -> Result<
    u64,
    ConfigValidationError,
> {
    if is_blank(v.value@) {
        Err(ConfigValidationError::EmptyValue { name, source: v.source })
    } else {
        match parse_u64_spec(v.value@) {
            Some(n) if n > 0 => Ok(n),
            _ => Err(
                ConfigValidationError::InvalidPositiveIntegerValue {
                    name,
                    value: v.value,
                    source: v.source,
                },
            ),
        }
    }
}

/// A number in `0.0..=1.0`.
#[verifier::opaque]
pub open spec fn unit_interval_spec(v: ConfigValue<DecimalText>, name: &'static str) -> Result<
    Binary64,
    ConfigValidationError,
> {
    if is_blank(v.value.text@) {
        Err(ConfigValidationError::EmptyValue { name, source: v.source })
    } else {
        match v.value.parsed {
            Some(b) if b.spec_is_unit_interval() => Ok(b),
            _ => Err(
                ConfigValidationError::InvalidUnitIntervalValue {
                    name,
                    value: v.value.text,
                    source: v.source,
                },
            ),
        }
    }
}

/// A finite number below zero.
#[verifier::opaque]
pub open spec fn negative_decibel_spec(v: ConfigValue<DecimalText>, name: &'static str) -> Result<
    Binary64,
    ConfigValidationError,
> {
    if is_blank(v.value.text@) {
        Err(ConfigValidationError::EmptyValue { name, source: v.source })
    } else {
        match v.value.parsed {
            Some(b) if b.spec_is_finite_negative() => Ok(b),
            _ => Err(
                ConfigValidationError::InvalidNegativeDecibelValue {
                    name,
                    value: v.value.text,
                    source: v.source,
                },
            ),
        }
    }
}

/// `auto`, `ja` or `en`, surrounding whitespace ignored.
#[verifier::opaque]
pub open spec fn language_spec(v: ConfigValue<String>, name: &'static str) -> Result<
    LanguageModel,
    ConfigValidationError,
> {
    let trimmed = trim_spec(v.value@);
    if trimmed.len() == 0 {
        Err(ConfigValidationError::EmptyValue { name, source: v.source })
    } else if trimmed == "auto"@ {
        Ok(LanguageModel::Auto)
    } else if trimmed == "ja"@ || trimmed == "en"@ {
        Ok(LanguageModel::Fixed(trimmed))
    } else {
        Err(
            ConfigValidationError::InvalidTranscriptionLanguageModeValue {
                name,
                value: v.value,
                source: v.source,
            },
        )
    }
}

/// `legacy` or `separated`, surrounding whitespace ignored.
#[verifier::opaque]
pub open spec fn pipeline_spec(v: ConfigValue<String>, name: &'static str) -> Result<
    TranscriptionPipeline,
    ConfigValidationError,
> {
    let trimmed = trim_spec(v.value@);
    if trimmed.len() == 0 {
        Err(ConfigValidationError::EmptyValue { name, source: v.source })
    } else if trimmed == "legacy"@ {
        Ok(TranscriptionPipeline::Legacy)
    } else if trimmed == "separated"@ {
        Ok(TranscriptionPipeline::Separated)
    } else {
        Err(
            ConfigValidationError::InvalidTranscriptionPipelineValue {
                name,
                value: v.value,
                source: v.source,
            },
        )
    }
}

/// An absolute path: one that starts at the root `/`.
#[verifier::opaque]
pub open spec fn absolute_path_spec(v: ConfigValue<String>, name: &'static str) -> Result<
    String,
    ConfigValidationError,
> {
    if is_blank(v.value@) {
        Err(ConfigValidationError::EmptyValue { name, source: v.source })
    } else if v.value@.len() > 0 && v.value@[0] == '/' {
        Ok(v.value)
    } else {
        Err(ConfigValidationError::RelativePathValue { name, value: v.value, source: v.source })
    }
}

/// A required whole number greater than zero.
pub open spec fn required_positive_spec(
    v: Option<ConfigValue<String>>,
    name: &'static str,
) -> Result<u64, ConfigValidationError> {
    match v {
        None => Err(ConfigValidationError::MissingRequiredValue { name }),
        Some(v) => positive_spec(v, name),
    }
}

/// An optional whole number greater than zero, with its default.
pub open spec fn optional_positive_spec(
    v: Option<ConfigValue<String>>,
    name: &'static str,
    default: u64,
) -> Result<u64, ConfigValidationError> {
    match v {
        None => Ok(default),
        Some(v) => positive_spec(v, name),
    }
}

/// A required whole number greater than zero, with where it came from.
pub open spec fn sourced_positive_spec(v: Option<ConfigValue<String>>, name: &'static str) -> Result<
    (u64, ConfigSource),
    ConfigValidationError,
> {
    match v {
        None => Err(ConfigValidationError::MissingRequiredValue { name }),
        Some(v) => match positive_spec(v, name) {
            Ok(n) => Ok((n, v.source)),
            Err(e) => Err(e),
        },
    }
}

/// The errors that a check contributes: none, or its one error.
pub open spec fn error_list<T>(r: Result<T, ConfigValidationError>) -> Seq<ConfigValidationError> {
    match r {
        Ok(_) => Seq::empty(),
        Err(e) => seq![e],
    }
}

/// The errors of the required OpenAI API key.
pub open spec fn openai_errors_of(v: Option<ConfigValue<String>>) -> Seq<ConfigValidationError> {
    match v {
        None => seq![ConfigValidationError::MissingRequiredValue { name: OPENAI_API_KEY_ENV_VAR }],
        Some(v) => if is_blank(v.value@) {
            seq![ConfigValidationError::EmptyValue { name: OPENAI_API_KEY_ENV_VAR, source: v.source }]
        } else {
            Seq::empty()
        },
    }
}

/// The Pyannote API key, dropped when blank.
pub open spec fn pyannote_key_of(v: Option<ConfigValue<String>>) -> Option<String> {
    match v {
        Some(v) => if is_blank(v.value@) {
            None
        } else {
            Some(v.value)
        },
        None => None,
    }
}

/// The errors of the optional Pyannote API key: only a blank one is refused.
pub open spec fn pyannote_errors_of(v: Option<ConfigValue<String>>) -> Seq<ConfigValidationError> {
    match v {
        Some(v) => if is_blank(v.value@) {
            seq![ConfigValidationError::EmptyValue { name: PYANNOTE_API_KEY_ENV_VAR, source: v.source }]
        } else {
            Seq::empty()
        },
        None => Seq::empty(),
    }
}

/// The silence threshold, by default the recommended one.
pub open spec fn threshold_of(v: Option<ConfigValue<DecimalText>>) -> Result<Binary64, ConfigValidationError> {
    match v {
        None => Ok(Binary64 { bits: RECOMMENDED_SILENCE_THRESHOLD_DBFS_BITS }),
        Some(v) => negative_decibel_spec(v, CAPTURE_SILENCE_THRESHOLD_DBFS_ENV_VAR),
    }
}

/// The tail pause length and where it came from; the default counts as
/// coming from the environment.
pub open spec fn tail_of(v: Option<ConfigValue<String>>) -> Result<(u64, ConfigSource), ConfigValidationError> {
    match v {
        None => Ok((RECOMMENDED_TAIL_SILENCE_MIN_DURATION_MS, ConfigSource::Environment)),
        Some(v) => match positive_spec(v, CAPTURE_TAIL_SILENCE_MIN_DURATION_MS_ENV_VAR) {
            Ok(n) => Ok((n, v.source)),
            Err(e) => Err(e),
        },
    }
}

/// The debug flag, off by default.
pub open spec fn debug_of(v: Option<ConfigValue<String>>) -> Result<bool, ConfigValidationError> {
    match v {
        None => Ok(false),
        Some(v) => bool_spec(v, DEBUG_ENV_VAR),
    }
}

/// The language mode, Japanese by default.
pub open spec fn language_of(v: Option<ConfigValue<String>>) -> Result<LanguageModel, ConfigValidationError> {
    match v {
        None => Ok(LanguageModel::Fixed(DEFAULT_TRANSCRIPTION_LANGUAGE@)),
        Some(v) => language_spec(v, TRANSCRIPTION_LANGUAGE_ENV_VAR),
    }
}

/// The pipeline, legacy by default.
pub open spec fn pipeline_of(v: Option<ConfigValue<String>>) -> Result<TranscriptionPipeline, ConfigValidationError> {
    match v {
        None => Ok(TranscriptionPipeline::Legacy),
        Some(v) => pipeline_spec(v, TRANSCRIPTION_PIPELINE_ENV_VAR),
    }
}

/// The speaker limit for diarization, none by default.
pub open spec fn max_speakers_of(v: Option<ConfigValue<String>>) -> Result<Option<u64>, ConfigValidationError> {
    match v {
        None => Ok(None),
        Some(v) => match positive_spec(v, DIARIZATION_MAX_SPEAKERS_ENV_VAR) {
            Ok(n) => Ok(Some(n)),
            Err(e) => Err(e),
        },
    }
}

/// The required absolute storage root.
pub open spec fn storage_root_of(v: Option<ConfigValue<String>>) -> Result<String, ConfigValidationError> {
    match v {
        None => Err(ConfigValidationError::MissingRequiredValue { name: STORAGE_ROOT_ENV_VAR }),
        Some(v) => absolute_path_spec(v, STORAGE_ROOT_ENV_VAR),
    }
}

/// The alignment ratio, by default the recommended one.
pub open spec fn alignment_of(v: Option<ConfigValue<DecimalText>>) -> Result<Binary64, ConfigValidationError> {
    match v {
        None => Ok(Binary64 { bits: RECOMMENDED_MIN_ALIGNMENT_RATIO_BITS }),
        Some(v) => unit_interval_spec(v, MERGE_ALIGNMENT_RATIO_ENV_VAR),
    }
}

/// The trigram similarity, by default the recommended one.
pub open spec fn trigram_of(v: Option<ConfigValue<DecimalText>>) -> Result<Binary64, ConfigValidationError> {
    match v {
        None => Ok(Binary64 { bits: RECOMMENDED_MIN_TRIGRAM_SIMILARITY_BITS }),
        Some(v) => unit_interval_spec(v, MERGE_TRIGRAM_SIMILARITY_ENV_VAR),
    }
}

impl RawConfig {
    pub open spec fn openai_errors(self) -> Seq<ConfigValidationError> {
        openai_errors_of(self.openai_api_key)
    }

    pub open spec fn pyannote_key_spec(self) -> Option<String> {
        pyannote_key_of(self.pyannote_api_key)
    }

    pub open spec fn pyannote_errors(self) -> Seq<ConfigValidationError> {
        pyannote_errors_of(self.pyannote_api_key)
    }

    pub open spec fn recording_spec(self) -> Result<u64, ConfigValidationError> {
        required_positive_spec(self.recording_duration_seconds, RECORDING_DURATION_SECONDS_ENV_VAR)
    }

    pub open spec fn capture_duration_spec(self) -> Result<(u64, ConfigSource), ConfigValidationError> {
        sourced_positive_spec(self.capture_duration_seconds, CAPTURE_DURATION_SECONDS_ENV_VAR)
    }

    pub open spec fn capture_overlap_spec(self) -> Result<(u64, ConfigSource), ConfigValidationError> {
        sourced_positive_spec(self.capture_overlap_seconds, CAPTURE_OVERLAP_SECONDS_ENV_VAR)
    }

    pub open spec fn threshold_spec(self) -> Result<Binary64, ConfigValidationError> {
        threshold_of(self.capture_silence_threshold_dbfs)
    }

    pub open spec fn silence_min_spec(self) -> Result<u64, ConfigValidationError> {
        optional_positive_spec(
            self.capture_silence_min_duration_ms,
            CAPTURE_SILENCE_MIN_DURATION_MS_ENV_VAR,
            RECOMMENDED_SILENCE_MIN_DURATION_MS,
        )
    }

    pub open spec fn tail_spec(self) -> Result<(u64, ConfigSource), ConfigValidationError> {
        tail_of(self.capture_tail_silence_min_duration_ms)
    }

    pub open spec fn debug_spec(self) -> Result<bool, ConfigValidationError> {
        debug_of(self.debug_enabled)
    }

    pub open spec fn speaker_sample_spec(self) -> Result<u64, ConfigValidationError> {
        required_positive_spec(
            self.speaker_sample_duration_seconds,
            SPEAKER_SAMPLE_DURATION_SECONDS_ENV_VAR,
        )
    }

    pub open spec fn language_result(self) -> Result<LanguageModel, ConfigValidationError> {
        language_of(self.transcription_language)
    }

    pub open spec fn pipeline_result(self) -> Result<TranscriptionPipeline, ConfigValidationError> {
        pipeline_of(self.transcription_pipeline)
    }

    pub open spec fn max_speakers_spec(self) -> Result<Option<u64>, ConfigValidationError> {
        max_speakers_of(self.diarization_max_speakers)
    }

    pub open spec fn storage_root_spec(self) -> Result<String, ConfigValidationError> {
        storage_root_of(self.storage_root)
    }

    pub open spec fn min_overlap_chars_spec(self) -> Result<u64, ConfigValidationError> {
        optional_positive_spec(
            self.merge_min_overlap_chars,
            MERGE_MIN_OVERLAP_CHARS_ENV_VAR,
            RECOMMENDED_MIN_OVERLAP_CHARS,
        )
    }

    pub open spec fn alignment_spec(self) -> Result<Binary64, ConfigValidationError> {
        alignment_of(self.merge_alignment_ratio)
    }

    pub open spec fn trigram_spec(self) -> Result<Binary64, ConfigValidationError> {
        trigram_of(self.merge_trigram_similarity)
    }
    /// The overlap must be shorter than a capture.
    pub open spec fn overlap_errors(self) -> Seq<ConfigValidationError> {
        match (self.capture_duration_spec(), self.capture_overlap_spec()) {
            (Ok((seconds, _)), Ok((overlap_seconds, overlap_source))) => if overlap_seconds
                >= seconds {
                seq![
                    ConfigValidationError::InvalidCaptureOverlap {
                        overlap_name: CAPTURE_OVERLAP_SECONDS_ENV_VAR,
                        capture_duration_name: CAPTURE_DURATION_SECONDS_ENV_VAR,
                        overlap_seconds,
                        capture_duration_seconds: seconds,
                        overlap_source,
                    },
                ]
            } else {
                Seq::empty()
            },
            _ => Seq::empty(),
        }
    }

    /// The pause needed near the capture limit must not exceed the usual one.
    pub open spec fn tail_errors(self) -> Seq<ConfigValidationError> {
        match (self.tail_spec(), self.silence_min_spec()) {
            (Ok((tail_ms, tail_source)), Ok(silence_ms)) => if tail_ms > silence_ms {
                seq![
                    ConfigValidationError::InvalidTailSilenceDuration {
                        silence_name: CAPTURE_SILENCE_MIN_DURATION_MS_ENV_VAR,
                        tail_silence_name: CAPTURE_TAIL_SILENCE_MIN_DURATION_MS_ENV_VAR,
                        silence_duration_ms: silence_ms,
                        tail_silence_duration_ms: tail_ms,
                        tail_silence_source: tail_source,
                    },
                ]
            } else {
                Seq::empty()
            },
            _ => Seq::empty(),
        }
    }

    /// Every validation error, in the order the settings are checked.
    pub open spec fn validation_errors(self) -> Seq<ConfigValidationError> {
        self.openai_errors() + self.pyannote_errors() + error_list(self.recording_spec())
            + error_list(self.capture_duration_spec()) + error_list(self.capture_overlap_spec())
            + error_list(self.threshold_spec()) + error_list(self.silence_min_spec()) + error_list(
            self.tail_spec(),
        ) + error_list(self.debug_spec()) + error_list(self.speaker_sample_spec()) + error_list(
            self.language_result(),
        ) + error_list(self.pipeline_result()) + error_list(self.max_speakers_spec())
            + error_list(self.storage_root_spec()) + error_list(self.min_overlap_chars_spec())
            + error_list(self.alignment_spec()) + error_list(self.trigram_spec())
            + self.overlap_errors() + self.tail_errors()
    }

    /// The separated pipeline needs a Pyannote API key.
    pub open spec fn lacks_pyannote_key(self) -> bool {
        self.pipeline_result() == Ok::<TranscriptionPipeline, ConfigValidationError>(
            TranscriptionPipeline::Separated,
        ) && self.pyannote_key_spec().is_none()
    }

    /// `self` with each absent value taken from `fallback`.
    pub open spec fn merged_with(self, fallback: RawConfig) -> RawConfig {
        RawConfig {
            openai_api_key: or_spec(self.openai_api_key, fallback.openai_api_key),
            pyannote_api_key: or_spec(self.pyannote_api_key, fallback.pyannote_api_key),
            recording_duration_seconds: or_spec(
                self.recording_duration_seconds,
                fallback.recording_duration_seconds,
            ),
            capture_duration_seconds: or_spec(
                self.capture_duration_seconds,
                fallback.capture_duration_seconds,
            ),
            capture_overlap_seconds: or_spec(
                self.capture_overlap_seconds,
                fallback.capture_overlap_seconds,
            ),
            capture_silence_threshold_dbfs: or_spec(
                self.capture_silence_threshold_dbfs,
                fallback.capture_silence_threshold_dbfs,
            ),
            capture_silence_min_duration_ms: or_spec(
                self.capture_silence_min_duration_ms,
                fallback.capture_silence_min_duration_ms,
            ),
            capture_tail_silence_min_duration_ms: or_spec(
                self.capture_tail_silence_min_duration_ms,
                fallback.capture_tail_silence_min_duration_ms,
            ),
            speaker_sample_duration_seconds: or_spec(
                self.speaker_sample_duration_seconds,
                fallback.speaker_sample_duration_seconds,
            ),
            transcription_language: or_spec(
                self.transcription_language,
                fallback.transcription_language,
            ),
            transcription_pipeline: or_spec(
                self.transcription_pipeline,
                fallback.transcription_pipeline,
            ),
            diarization_max_speakers: or_spec(
                self.diarization_max_speakers,
                fallback.diarization_max_speakers,
            ),
            merge_min_overlap_chars: or_spec(
                self.merge_min_overlap_chars,
                fallback.merge_min_overlap_chars,
            ),
            merge_alignment_ratio: or_spec(
                self.merge_alignment_ratio,
                fallback.merge_alignment_ratio,
            ),
            merge_trigram_similarity: or_spec(
                self.merge_trigram_similarity,
                fallback.merge_trigram_similarity,
            ),
            debug_enabled: or_spec(self.debug_enabled, fallback.debug_enabled),
            storage_root: or_spec(self.storage_root, fallback.storage_root),
        }
    }
}


/// Whether a value is empty once surrounding whitespace is removed.
pub fn is_blank_text(text: &str) -> (r: bool)
    ensures
        r == is_blank(text@),
{
    let t = trim(text);
    t.as_str().unicode_len() == 0
}

/// Reads a debug flag.
pub fn parse_bool(value: ConfigValue<String>, name: &'static str) -> (r: Result<
    bool,
    ConfigValidationError,
>)
    ensures
        r == bool_spec(value, name),
{
    reveal(bool_spec);
    if is_blank_text(value.value.as_str()) {
        return Err(ConfigValidationError::EmptyValue { name, source: value.source });
    }
    let v = value.value.as_str();
    if same_text(v, "1") || same_text(v, "true") || same_text(v, "TRUE") || same_text(v, "yes")
        || same_text(v, "YES") {
        Ok(true)
    } else if same_text(v, "0") || same_text(v, "false") || same_text(v, "FALSE") || same_text(
        v,
        "no",
    ) || same_text(v, "NO") {
        Ok(false)
    } else {
        Err(
            ConfigValidationError::InvalidBooleanValue {
                name,
                value: value.value,
                source: value.source,
            },
        )
    }
}

/// Reads a whole number greater than zero.
pub fn parse_positive_integer(value: ConfigValue<String>, name: &'static str) -> (r: Result<
    u64,
    ConfigValidationError,
>)
    ensures
        r == positive_spec(value, name),
{
    reveal(positive_spec);
    if is_blank_text(value.value.as_str()) {
        return Err(ConfigValidationError::EmptyValue { name, source: value.source });
    }
    match parse_u64(value.value.as_str()) {
        Some(parsed) if parsed > 0 => Ok(parsed),
        _ => Err(
            ConfigValidationError::InvalidPositiveIntegerValue {
                name,
                value: value.value,
                source: value.source,
            },
        ),
    }
}

/// Reads a number in `0.0..=1.0`.
pub fn parse_unit_interval(value: ConfigValue<DecimalText>, name: &'static str) -> (r: Result<
    Binary64,
    ConfigValidationError,
>)
    ensures
        r == unit_interval_spec(value, name),
{
    reveal(unit_interval_spec);
    if is_blank_text(value.value.text.as_str()) {
        return Err(ConfigValidationError::EmptyValue { name, source: value.source });
    }
    match value.value.parsed {
        Some(b) if b.is_unit_interval() => Ok(b),
        _ => Err(
            ConfigValidationError::InvalidUnitIntervalValue {
                name,
                value: value.value.text,
                source: value.source,
            },
        ),
    }
}

/// Reads a finite negative dBFS level.
pub fn parse_negative_decibel(value: ConfigValue<DecimalText>, name: &'static str) -> (r: Result<
    Binary64,
    ConfigValidationError,
>)
    ensures
        r == negative_decibel_spec(value, name),
{
    reveal(negative_decibel_spec);
    if is_blank_text(value.value.text.as_str()) {
        return Err(ConfigValidationError::EmptyValue { name, source: value.source });
    }
    match value.value.parsed {
        Some(b) if b.is_finite_negative() => Ok(b),
        _ => Err(
            ConfigValidationError::InvalidNegativeDecibelValue {
                name,
                value: value.value.text,
                source: value.source,
            },
        ),
    }
}

/// Reads the transcription language mode.
pub fn parse_transcription_language(value: ConfigValue<String>, name: &'static str) -> (r: Result<
    TranscriptionLanguage,
    ConfigValidationError,
>)
    ensures
        match (r, language_spec(value, name)) {
            (Ok(l), Ok(m)) => l@ == m,
            (Err(e), Err(f)) => e == f,
            _ => false,
        },
{
    reveal(language_spec);
    let trimmed = trim(value.value.as_str());
    if trimmed.as_str().unicode_len() == 0 {
        return Err(ConfigValidationError::EmptyValue { name, source: value.source });
    }
    if same_text(trimmed.as_str(), "auto") {
        Ok(TranscriptionLanguage::Auto)
    } else if same_text(trimmed.as_str(), "ja") || same_text(trimmed.as_str(), "en") {
        Ok(TranscriptionLanguage::Fixed(trimmed))
    } else {
        Err(
            ConfigValidationError::InvalidTranscriptionLanguageModeValue {
                name,
                value: value.value,
                source: value.source,
            },
        )
    }
}

/// Reads the transcription pipeline.
pub fn parse_transcription_pipeline(value: ConfigValue<String>, name: &'static str) -> (r: Result<
    TranscriptionPipeline,
    ConfigValidationError,
>)
    ensures
        r == pipeline_spec(value, name),
{
    reveal(pipeline_spec);
    let trimmed = trim(value.value.as_str());
    if trimmed.as_str().unicode_len() == 0 {
        return Err(ConfigValidationError::EmptyValue { name, source: value.source });
    }
    if same_text(trimmed.as_str(), "legacy") {
        Ok(TranscriptionPipeline::Legacy)
    } else if same_text(trimmed.as_str(), "separated") {
        Ok(TranscriptionPipeline::Separated)
    } else {
        Err(
            ConfigValidationError::InvalidTranscriptionPipelineValue {
                name,
                value: value.value,
                source: value.source,
            },
        )
    }
}

/// Reads an absolute path.
pub fn parse_absolute_path(value: ConfigValue<String>, name: &'static str) -> (r: Result<
    String,
    ConfigValidationError,
>)
    ensures
        r == absolute_path_spec(value, name),
{
    reveal(absolute_path_spec);
    if is_blank_text(value.value.as_str()) {
        return Err(ConfigValidationError::EmptyValue { name, source: value.source });
    }
    let v = value.value.as_str();
    if v.unicode_len() > 0 && v.get_char(0) == '/' {
        Ok(value.value)
    } else {
        Err(ConfigValidationError::RelativePathValue { name, value: value.value, source: value.source })
    }
}


/// Records a check's error, if any, and returns its value, if any.
fn collect<T>(errors: &mut Vec<ConfigValidationError>, r: Result<T, ConfigValidationError>) -> (v:
    Option<T>)
    ensures
        final(errors)@ == old(errors)@ + error_list(r),
        v == (match r {
            Ok(x) => Some(x),
            Err(_) => None::<T>,
        }),
{
    match r {
        Ok(x) => {
            assert(old(errors)@ + error_list(r) =~= old(errors)@);
            Some(x)
        },
        Err(e) => {
            errors.push(e);
            None
        },
    }
}

fn check_required_positive(v: Option<ConfigValue<String>>, name: &'static str) -> (r: Result<
    u64,
    ConfigValidationError,
>)
    ensures
        r == required_positive_spec(v, name),
{
    match v {
        None => Err(ConfigValidationError::MissingRequiredValue { name }),
        Some(v) => parse_positive_integer(v, name),
    }
}

fn check_optional_positive(v: Option<ConfigValue<String>>, name: &'static str, default: u64) -> (r:
    Result<u64, ConfigValidationError>)
    ensures
        r == optional_positive_spec(v, name, default),
{
    match v {
        None => Ok(default),
        Some(v) => parse_positive_integer(v, name),
    }
}

fn check_sourced_positive(v: Option<ConfigValue<String>>, name: &'static str) -> (r: Result<
    (u64, ConfigSource),
    ConfigValidationError,
>)
    ensures
        r == sourced_positive_spec(v, name),
{
    match v {
        None => Err(ConfigValidationError::MissingRequiredValue { name }),
        Some(v) => {
            let source = v.source;
            match parse_positive_integer(v, name) {
                Ok(n) => Ok((n, source)),
                Err(e) => Err(e),
            }
        },
    }
}


/// The outcome of each individual check, before the cross-field checks.
struct FieldChecks {
    openai_api_key: Option<ConfigValue<String>>,
    pyannote_api_key: Option<String>,
    recording: Option<u64>,
    capture_duration: Option<(u64, ConfigSource)>,
    capture_overlap: Option<(u64, ConfigSource)>,
    threshold: Option<Binary64>,
    silence_min: Option<u64>,
    tail: Option<(u64, ConfigSource)>,
    debug: Option<bool>,
    speaker_sample: Option<u64>,
    language: Option<TranscriptionLanguage>,
    pipeline: Option<TranscriptionPipeline>,
    max_speakers: Option<Option<u64>>,
    storage_root: Option<String>,
    min_overlap_chars: Option<u64>,
    alignment: Option<Binary64>,
    trigram: Option<Binary64>,
}

/// The value of a check, or `None` where it failed.
pub open spec fn ok_option<T>(r: Result<T, ConfigValidationError>) -> Option<T> {
    match r {
        Ok(v) => Some(v),
        Err(_) => None,
    }
}

impl RawConfig {
    /// The errors of the individual checks, in order.
    pub open spec fn field_errors(self) -> Seq<ConfigValidationError> {
        self.openai_errors() + self.pyannote_errors() + error_list(self.recording_spec())
            + error_list(self.capture_duration_spec()) + error_list(self.capture_overlap_spec())
            + error_list(self.threshold_spec()) + error_list(self.silence_min_spec()) + error_list(
            self.tail_spec(),
        ) + error_list(self.debug_spec()) + error_list(self.speaker_sample_spec()) + error_list(
            self.language_result(),
        ) + error_list(self.pipeline_result()) + error_list(self.max_speakers_spec())
            + error_list(self.storage_root_spec()) + error_list(self.min_overlap_chars_spec())
            + error_list(self.alignment_spec()) + error_list(self.trigram_spec())
    }
}

impl FieldChecks {
    spec fn agrees_with(self, raw: RawConfig) -> bool {
        &&& self.openai_api_key == raw.openai_api_key
        &&& self.pyannote_api_key == raw.pyannote_key_spec()
        &&& self.recording == ok_option(raw.recording_spec())
        &&& self.capture_duration == ok_option(raw.capture_duration_spec())
        &&& self.capture_overlap == ok_option(raw.capture_overlap_spec())
        &&& self.threshold == ok_option(raw.threshold_spec())
        &&& self.silence_min == ok_option(raw.silence_min_spec())
        &&& self.tail == ok_option(raw.tail_spec())
        &&& self.debug == ok_option(raw.debug_spec())
        &&& self.speaker_sample == ok_option(raw.speaker_sample_spec())
        &&& (self.language is Some <==> raw.language_result() is Ok)
        &&& (self.language is Some ==> self.language.unwrap()@ == ok_of(raw.language_result()))
        &&& self.pipeline == ok_option(raw.pipeline_result())
        &&& self.max_speakers == ok_option(raw.max_speakers_spec())
        &&& self.storage_root == ok_option(raw.storage_root_spec())
        &&& self.min_overlap_chars == ok_option(raw.min_overlap_chars_spec())
        &&& self.alignment == ok_option(raw.alignment_spec())
        &&& self.trigram == ok_option(raw.trigram_spec())
    }
}

fn check_openai(errors: &mut Vec<ConfigValidationError>, v: Option<ConfigValue<String>>) -> (r:
    Option<ConfigValue<String>>)
    ensures
        final(errors)@ == old(errors)@ + openai_errors_of(v),
        r == v,
{
    let ghost before = errors@;
    match v {
        Some(value) => {
            if is_blank_text(value.value.as_str()) {
                errors.push(
                    ConfigValidationError::EmptyValue {
                        name: OPENAI_API_KEY_ENV_VAR,
                        source: value.source,
                    },
                );
            }
            assert(errors@ =~= before + openai_errors_of(v));
            Some(value)
        },
        None => {
            errors.push(ConfigValidationError::MissingRequiredValue { name: OPENAI_API_KEY_ENV_VAR });
            assert(errors@ =~= before + openai_errors_of(v));
            None
        },
    }
}

fn check_pyannote(errors: &mut Vec<ConfigValidationError>, v: Option<ConfigValue<String>>) -> (r:
    Option<String>)
    ensures
        final(errors)@ == old(errors)@ + pyannote_errors_of(v),
        r == pyannote_key_of(v),
{
    let ghost before = errors@;
    match v {
        Some(value) => {
            if is_blank_text(value.value.as_str()) {
                errors.push(
                    ConfigValidationError::EmptyValue {
                        name: PYANNOTE_API_KEY_ENV_VAR,
                        source: value.source,
                    },
                );
                assert(errors@ =~= before + pyannote_errors_of(v));
                None
            } else {
                assert(errors@ =~= before + pyannote_errors_of(v));
                Some(value.value)
            }
        },
        None => {
            assert(errors@ =~= before + pyannote_errors_of(v));
            None
        },
    }
}

impl RawConfig {
    /// Runs the checks of the timing settings.
    fn check_timing(
        errors: &mut Vec<ConfigValidationError>,
        recording: Option<ConfigValue<String>>,
        capture_duration: Option<ConfigValue<String>>,
        capture_overlap: Option<ConfigValue<String>>,
        threshold: Option<ConfigValue<DecimalText>>,
        silence_min: Option<ConfigValue<String>>,
        tail: Option<ConfigValue<String>>,
    ) -> (r: (
        Option<u64>,
        Option<(u64, ConfigSource)>,
        Option<(u64, ConfigSource)>,
        Option<Binary64>,
        Option<u64>,
        Option<(u64, ConfigSource)>,
    ))
        ensures
            ({
                let a = required_positive_spec(recording, RECORDING_DURATION_SECONDS_ENV_VAR);
                let b = sourced_positive_spec(capture_duration, CAPTURE_DURATION_SECONDS_ENV_VAR);
                let c = sourced_positive_spec(capture_overlap, CAPTURE_OVERLAP_SECONDS_ENV_VAR);
                let d = threshold_of(threshold);
                let e = optional_positive_spec(
                    silence_min,
                    CAPTURE_SILENCE_MIN_DURATION_MS_ENV_VAR,
                    RECOMMENDED_SILENCE_MIN_DURATION_MS,
                );
                let f = tail_of(tail);
                &&& final(errors)@ == old(errors)@ + error_list(a) + error_list(b) + error_list(c)
                    + error_list(d) + error_list(e) + error_list(f)
                &&& r.0 == ok_option(a)
                &&& r.1 == ok_option(b)
                &&& r.2 == ok_option(c)
                &&& r.3 == ok_option(d)
                &&& r.4 == ok_option(e)
                &&& r.5 == ok_option(f)
            }),
    {
        let a = collect(
            errors,
            check_required_positive(recording, RECORDING_DURATION_SECONDS_ENV_VAR),
        );
        let b = collect(
            errors,
            check_sourced_positive(capture_duration, CAPTURE_DURATION_SECONDS_ENV_VAR),
        );
        let c = collect(
            errors,
            check_sourced_positive(capture_overlap, CAPTURE_OVERLAP_SECONDS_ENV_VAR),
        );
        let threshold_check = match threshold {
            None => Ok(Binary64 { bits: RECOMMENDED_SILENCE_THRESHOLD_DBFS_BITS }),
            Some(v) => parse_negative_decibel(v, CAPTURE_SILENCE_THRESHOLD_DBFS_ENV_VAR),
        };
        let d = collect(errors, threshold_check);
        let e = collect(
            errors,
            check_optional_positive(
                silence_min,
                CAPTURE_SILENCE_MIN_DURATION_MS_ENV_VAR,
                RECOMMENDED_SILENCE_MIN_DURATION_MS,
            ),
        );
        let tail_check = match tail {
            None => Ok((RECOMMENDED_TAIL_SILENCE_MIN_DURATION_MS, ConfigSource::Environment)),
            Some(v) => {
                let source = v.source;
                match parse_positive_integer(v, CAPTURE_TAIL_SILENCE_MIN_DURATION_MS_ENV_VAR) {
                    Ok(n) => Ok((n, source)),
                    Err(e) => Err(e),
                }
            },
        };
        let f = collect(errors, tail_check);
        (a, b, c, d, e, f)
    }

    /// Runs the checks of the remaining settings.
    fn check_rest(
        errors: &mut Vec<ConfigValidationError>,
        debug: Option<ConfigValue<String>>,
        speaker_sample: Option<ConfigValue<String>>,
        language: Option<ConfigValue<String>>,
        pipeline: Option<ConfigValue<String>>,
        max_speakers: Option<ConfigValue<String>>,
    ) -> (r: (
        Option<bool>,
        Option<u64>,
        Option<TranscriptionLanguage>,
        Option<TranscriptionPipeline>,
        Option<Option<u64>>,
    ))
        ensures
            ({
                let a = debug_of(debug);
                let b = required_positive_spec(speaker_sample, SPEAKER_SAMPLE_DURATION_SECONDS_ENV_VAR);
                let c = language_of(language);
                let d = pipeline_of(pipeline);
                let e = max_speakers_of(max_speakers);
                &&& final(errors)@ == old(errors)@ + error_list(a) + error_list(b) + error_list(c)
                    + error_list(d) + error_list(e)
                &&& r.0 == ok_option(a)
                &&& r.1 == ok_option(b)
                &&& (r.2 is Some <==> c is Ok)
                &&& (r.2 is Some ==> r.2.unwrap()@ == ok_of(c))
                &&& r.3 == ok_option(d)
                &&& r.4 == ok_option(e)
            }),
    {
        let debug_check = match debug {
            None => Ok(false),
            Some(v) => parse_bool(v, DEBUG_ENV_VAR),
        };
        let a = collect(errors, debug_check);
        let b = collect(
            errors,
            check_required_positive(speaker_sample, SPEAKER_SAMPLE_DURATION_SECONDS_ENV_VAR),
        );
        let ghost lang_spec = language_of(language);
        let language_check = match language {
            None => {
                let code = DEFAULT_TRANSCRIPTION_LANGUAGE.to_owned();
                Ok(TranscriptionLanguage::Fixed(code))
            },
            Some(v) => parse_transcription_language(v, TRANSCRIPTION_LANGUAGE_ENV_VAR),
        };
        assert(error_list(language_check) =~= error_list(lang_spec));
        let c = collect(errors, language_check);
        let pipeline_check = match pipeline {
            None => Ok(TranscriptionPipeline::Legacy),
            Some(v) => parse_transcription_pipeline(v, TRANSCRIPTION_PIPELINE_ENV_VAR),
        };
        let d = collect(errors, pipeline_check);
        let max_speakers_check = match max_speakers {
            None => Ok(None),
            Some(v) => match parse_positive_integer(v, DIARIZATION_MAX_SPEAKERS_ENV_VAR) {
                Ok(n) => Ok(Some(n)),
                Err(e) => Err(e),
            },
        };
        let e = collect(errors, max_speakers_check);
        (a, b, c, d, e)
    }

    /// Runs the checks of the storage and merge settings.
    fn check_storage_and_merge(
        errors: &mut Vec<ConfigValidationError>,
        storage_root: Option<ConfigValue<String>>,
        min_overlap_chars: Option<ConfigValue<String>>,
        alignment: Option<ConfigValue<DecimalText>>,
        trigram: Option<ConfigValue<DecimalText>>,
    ) -> (r: (Option<String>, Option<u64>, Option<Binary64>, Option<Binary64>))
        ensures
            ({
                let a = storage_root_of(storage_root);
                let b = optional_positive_spec(
                    min_overlap_chars,
                    MERGE_MIN_OVERLAP_CHARS_ENV_VAR,
                    RECOMMENDED_MIN_OVERLAP_CHARS,
                );
                let c = alignment_of(alignment);
                let d = trigram_of(trigram);
                &&& final(errors)@ == old(errors)@ + error_list(a) + error_list(b) + error_list(c)
                    + error_list(d)
                &&& r.0 == ok_option(a)
                &&& r.1 == ok_option(b)
                &&& r.2 == ok_option(c)
                &&& r.3 == ok_option(d)
            }),
    {
        let storage_check = match storage_root {
            None => Err(ConfigValidationError::MissingRequiredValue { name: STORAGE_ROOT_ENV_VAR }),
            Some(v) => parse_absolute_path(v, STORAGE_ROOT_ENV_VAR),
        };
        let a = collect(errors, storage_check);
        let b = collect(
            errors,
            check_optional_positive(
                min_overlap_chars,
                MERGE_MIN_OVERLAP_CHARS_ENV_VAR,
                RECOMMENDED_MIN_OVERLAP_CHARS,
            ),
        );
        let alignment_check = match alignment {
            None => Ok(Binary64 { bits: RECOMMENDED_MIN_ALIGNMENT_RATIO_BITS }),
            Some(v) => parse_unit_interval(v, MERGE_ALIGNMENT_RATIO_ENV_VAR),
        };
        let c = collect(errors, alignment_check);
        let trigram_check = match trigram {
            None => Ok(Binary64 { bits: RECOMMENDED_MIN_TRIGRAM_SIMILARITY_BITS }),
            Some(v) => parse_unit_interval(v, MERGE_TRIGRAM_SIMILARITY_ENV_VAR),
        };
        let d = collect(errors, trigram_check);
        (a, b, c, d)
    }

    /// Runs every individual check.
    fn check_fields(self) -> (r: (FieldChecks, Vec<ConfigValidationError>))
        ensures
            r.1@ == self.field_errors(),
            r.0.agrees_with(self),
    {
        let ghost raw = self;
        let mut errors: Vec<ConfigValidationError> = Vec::new();
        let openai_api_key = check_openai(&mut errors, self.openai_api_key);
        let pyannote_api_key = check_pyannote(&mut errors, self.pyannote_api_key);
        let timing = Self::check_timing(
            &mut errors,
            self.recording_duration_seconds,
            self.capture_duration_seconds,
            self.capture_overlap_seconds,
            self.capture_silence_threshold_dbfs,
            self.capture_silence_min_duration_ms,
            self.capture_tail_silence_min_duration_ms,
        );
        let rest = Self::check_rest(
            &mut errors,
            self.debug_enabled,
            self.speaker_sample_duration_seconds,
            self.transcription_language,
            self.transcription_pipeline,
            self.diarization_max_speakers,
        );
        let storage = Self::check_storage_and_merge(
            &mut errors,
            self.storage_root,
            self.merge_min_overlap_chars,
            self.merge_alignment_ratio,
            self.merge_trigram_similarity,
        );
        assert(errors@ =~= raw.field_errors());
        let (recording, capture_duration, capture_overlap, threshold, silence_min, tail) = timing;
        let (debug, speaker_sample, language, pipeline, max_speakers) = rest;
        let (storage_root, min_overlap_chars, alignment, trigram) = storage;
        (
            FieldChecks {
                openai_api_key,
                pyannote_api_key,
                recording,
                capture_duration,
                capture_overlap,
                threshold,
                silence_min,
                tail,
                debug,
                speaker_sample,
                language,
                pipeline,
                max_speakers,
                storage_root,
                min_overlap_chars,
                alignment,
                trigram,
            },
            errors,
        )
    }
}

impl RawConfig {
    /// Whether a validated configuration holds exactly the values that
    /// `self` resolves to.
    pub open spec fn resolves_to(self, c: Config) -> bool {
        &&& c.openai_api_key == self.openai_api_key.unwrap().value
        &&& c.openai_api_key_source == self.openai_api_key.unwrap().source
        &&& c.pyannote_api_key == self.pyannote_key_spec()
        &&& c.recording_duration_secs == ok_of(self.recording_spec())
        &&& c.capture_duration_secs == ok_of(self.capture_duration_spec()).0
        &&& c.capture_overlap_secs == ok_of(self.capture_overlap_spec()).0
        &&& c.capture_silence_request_policy == SilenceRequestPolicy {
            silence_threshold_dbfs: ok_of(self.threshold_spec()),
            silence_min_duration_ms: ok_of(self.silence_min_spec()),
            tail_silence_min_duration_ms: ok_of(self.tail_spec()).0,
        }
        &&& c.speaker_sample_duration_secs == ok_of(self.speaker_sample_spec())
        &&& c.transcription_language@ == ok_of(self.language_result())
        &&& c.transcription_pipeline == ok_of(self.pipeline_result())
        &&& c.diarization_max_speakers == ok_of(self.max_speakers_spec())
        &&& c.transcript_merge_policy == TranscriptMergePolicy {
            min_overlap_chars: ok_of(self.min_overlap_chars_spec()),
            min_alignment_ratio: ok_of(self.alignment_spec()),
            min_trigram_similarity: ok_of(self.trigram_spec()),
        }
        &&& c.debug_enabled == ok_of(self.debug_spec())
        &&& c.storage_root == ok_of(self.storage_root_spec())
    }

    /// Validates every setting, reporting all problems at once.
    ///
    /// The result is `Ok` exactly when no setting is missing or invalid and,
    /// for the separated pipeline, a Pyannote API key is present; otherwise
    /// the errors come in the order the settings are checked.
    pub fn validate(self) -> (r: Result<Config, ConfigError>)
        ensures
            (r is Ok) <==> (self.validation_errors().len() == 0 && !self.lacks_pyannote_key()),
            r matches Ok(c) ==> self.resolves_to(c),
            r matches Err(ConfigError::InvalidConfig(errors)) ==> (if self.validation_errors().len()
                > 0 {
                errors@ == self.validation_errors()
            } else {
                errors@ == seq![
                    ConfigValidationError::MissingPyannoteApiKey {
                        pipeline_name: TRANSCRIPTION_PIPELINE_ENV_VAR,
                        api_key_name: PYANNOTE_API_KEY_ENV_VAR,
                    },
                ]
            }),
            !(r matches Err(ConfigError::ReadDotEnv(_))),
    {
        let ghost raw = self;
        let (checks, mut errors) = self.check_fields();
        let ghost before_cross = errors@;
        match (checks.capture_duration, checks.capture_overlap) {
            (Some((seconds, _)), Some((overlap_seconds, overlap_source))) => {
                if overlap_seconds >= seconds {
                    errors.push(
                        ConfigValidationError::InvalidCaptureOverlap {
                            overlap_name: CAPTURE_OVERLAP_SECONDS_ENV_VAR,
                            capture_duration_name: CAPTURE_DURATION_SECONDS_ENV_VAR,
                            overlap_seconds,
                            capture_duration_seconds: seconds,
                            overlap_source,
                        },
                    );
                }
            },
            _ => {},
        }
        assert(errors@ =~= before_cross + raw.overlap_errors());
        let ghost before_tail = errors@;
        match (checks.tail, checks.silence_min) {
            (Some((tail_ms, tail_source)), Some(silence_ms)) => {
                if tail_ms > silence_ms {
                    errors.push(
                        ConfigValidationError::InvalidTailSilenceDuration {
                            silence_name: CAPTURE_SILENCE_MIN_DURATION_MS_ENV_VAR,
                            tail_silence_name: CAPTURE_TAIL_SILENCE_MIN_DURATION_MS_ENV_VAR,
                            silence_duration_ms: silence_ms,
                            tail_silence_duration_ms: tail_ms,
                            tail_silence_source: tail_source,
                        },
                    );
                }
            },
            _ => {},
        }
        assert(errors@ =~= before_tail + raw.tail_errors());
        assert(errors@ =~= raw.validation_errors());
        if errors.len() > 0 {
            return Err(ConfigError::InvalidConfig(errors));
        }
        Self::assemble(Ghost(raw), checks)
    }

    /// Builds the configuration once every individual and cross-field check
    /// has passed.
    fn assemble(Ghost(raw): Ghost<RawConfig>, checks: FieldChecks) -> (r: Result<Config, ConfigError>)
        requires
            checks.agrees_with(raw),
            raw.validation_errors().len() == 0,
        ensures
            (r is Ok) <==> !raw.lacks_pyannote_key(),
            r matches Ok(c) ==> raw.resolves_to(c),
            r matches Err(ConfigError::InvalidConfig(errors)) ==> errors@ == seq![
                ConfigValidationError::MissingPyannoteApiKey {
                    pipeline_name: TRANSCRIPTION_PIPELINE_ENV_VAR,
                    api_key_name: PYANNOTE_API_KEY_ENV_VAR,
                },
            ],
            !(r matches Err(ConfigError::ReadDotEnv(_))),
    {
        assert(raw.field_errors().len() == 0) by {
            assert(raw.validation_errors() =~= raw.field_errors() + raw.overlap_errors()
                + raw.tail_errors());
        }
        assert(raw.openai_errors().len() == 0);
        let pipeline = checks.pipeline.unwrap();
        let pipeline_is_separated = match pipeline {
            TranscriptionPipeline::Separated => true,
            TranscriptionPipeline::Legacy => false,
        };
        if pipeline_is_separated && checks.pyannote_api_key.is_none() {
            let mut only: Vec<ConfigValidationError> = Vec::new();
            only.push(
                ConfigValidationError::MissingPyannoteApiKey {
                    pipeline_name: TRANSCRIPTION_PIPELINE_ENV_VAR,
                    api_key_name: PYANNOTE_API_KEY_ENV_VAR,
                },
            );
            return Err(ConfigError::InvalidConfig(only));
        }
        let openai_api_key = checks.openai_api_key.unwrap();
        Ok(
            Config {
                openai_api_key: openai_api_key.value,
                openai_api_key_source: openai_api_key.source,
                pyannote_api_key: checks.pyannote_api_key,
                recording_duration_secs: checks.recording.unwrap(),
                capture_duration_secs: checks.capture_duration.unwrap().0,
                capture_overlap_secs: checks.capture_overlap.unwrap().0,
                capture_silence_request_policy: SilenceRequestPolicy {
                    silence_threshold_dbfs: checks.threshold.unwrap(),
                    silence_min_duration_ms: checks.silence_min.unwrap(),
                    tail_silence_min_duration_ms: checks.tail.unwrap().0,
                },
                speaker_sample_duration_secs: checks.speaker_sample.unwrap(),
                transcription_language: checks.language.unwrap(),
                transcription_pipeline: pipeline,
                diarization_max_speakers: checks.max_speakers.unwrap(),
                transcript_merge_policy: TranscriptMergePolicy {
                    min_overlap_chars: checks.min_overlap_chars.unwrap(),
                    min_alignment_ratio: checks.alignment.unwrap(),
                    min_trigram_similarity: checks.trigram.unwrap(),
                },
                debug_enabled: checks.debug.unwrap(),
                storage_root: checks.storage_root.unwrap(),
            },
        )
    }
}

/// One `KEY=value` setting as read from the `.env` file or the environment,
/// with `decimal` the reading of `value` by `str::parse::<f64>` (`None`
/// where that fails).
#[derive(Debug, Clone, PartialEq, Eq)]
pub struct SettingEntry {
    pub key: String,
    pub value: String,
    pub decimal: Option<Binary64>,
}

/// A copy of a setting entry.
fn copy_entry(e: &SettingEntry) -> (r: SettingEntry)
    ensures
        r == *e,
{
    SettingEntry { key: copy_string(&e.key), value: copy_string(&e.value), decimal: e.decimal }
}

impl RawConfig {
    /// No setting present.
    pub open spec fn spec_empty() -> RawConfig {
        RawConfig {
            openai_api_key: None,
            pyannote_api_key: None,
            recording_duration_seconds: None,
            capture_duration_seconds: None,
            capture_overlap_seconds: None,
            capture_silence_threshold_dbfs: None,
            capture_silence_min_duration_ms: None,
            capture_tail_silence_min_duration_ms: None,
            speaker_sample_duration_seconds: None,
            transcription_language: None,
            transcription_pipeline: None,
            diarization_max_speakers: None,
            merge_min_overlap_chars: None,
            merge_alignment_ratio: None,
            merge_trigram_similarity: None,
            debug_enabled: None,
            storage_root: None,
        }
    }

    /// `self` with the setting named `e.key` replaced by `e`'s value; a key
    /// that names no setting changes nothing.
    pub open spec fn with_entry(self, e: SettingEntry, source: ConfigSource) -> RawConfig {
        let k = e.key@;
        let text = Some(ConfigValue { value: e.value, source });
        let decimal = Some(
            ConfigValue { value: DecimalText { text: e.value, parsed: e.decimal }, source },
        );
        if k == OPENAI_API_KEY_ENV_VAR@ {
            RawConfig { openai_api_key: text, ..self }
        } else if k == PYANNOTE_API_KEY_ENV_VAR@ {
            RawConfig { pyannote_api_key: text, ..self }
        } else if k == RECORDING_DURATION_SECONDS_ENV_VAR@ {
            RawConfig { recording_duration_seconds: text, ..self }
        } else if k == CAPTURE_DURATION_SECONDS_ENV_VAR@ {
            RawConfig { capture_duration_seconds: text, ..self }
        } else if k == CAPTURE_OVERLAP_SECONDS_ENV_VAR@ {
            RawConfig { capture_overlap_seconds: text, ..self }
        } else if k == CAPTURE_SILENCE_THRESHOLD_DBFS_ENV_VAR@ {
            RawConfig { capture_silence_threshold_dbfs: decimal, ..self }
        } else if k == CAPTURE_SILENCE_MIN_DURATION_MS_ENV_VAR@ {
            RawConfig { capture_silence_min_duration_ms: text, ..self }
        } else if k == CAPTURE_TAIL_SILENCE_MIN_DURATION_MS_ENV_VAR@ {
            RawConfig { capture_tail_silence_min_duration_ms: text, ..self }
        } else if k == SPEAKER_SAMPLE_DURATION_SECONDS_ENV_VAR@ {
            RawConfig { speaker_sample_duration_seconds: text, ..self }
        } else if k == TRANSCRIPTION_LANGUAGE_ENV_VAR@ {
            RawConfig { transcription_language: text, ..self }
        } else if k == TRANSCRIPTION_PIPELINE_ENV_VAR@ {
            RawConfig { transcription_pipeline: text, ..self }
        } else if k == DIARIZATION_MAX_SPEAKERS_ENV_VAR@ {
            RawConfig { diarization_max_speakers: text, ..self }
        } else if k == MERGE_MIN_OVERLAP_CHARS_ENV_VAR@ {
            RawConfig { merge_min_overlap_chars: text, ..self }
        } else if k == MERGE_ALIGNMENT_RATIO_ENV_VAR@ {
            RawConfig { merge_alignment_ratio: decimal, ..self }
        } else if k == MERGE_TRIGRAM_SIMILARITY_ENV_VAR@ {
            RawConfig { merge_trigram_similarity: decimal, ..self }
        } else if k == DEBUG_ENV_VAR@ {
            RawConfig { debug_enabled: text, ..self }
        } else if k == STORAGE_ROOT_ENV_VAR@ {
            RawConfig { storage_root: text, ..self }
        } else {
            self
        }
    }

    /// `self` with each entry applied in turn, so that a later entry for a
    /// key replaces an earlier one.
    pub open spec fn with_entries(self, entries: Seq<SettingEntry>, source: ConfigSource) -> RawConfig
        decreases entries.len(),
    {
        if entries.len() == 0 {
            self
        } else {
            self.with_entries(entries.drop_last(), source).with_entry(entries.last(), source)
        }
    }

    /// No setting present.
    pub fn empty() -> (r: RawConfig)
        ensures
            r == RawConfig::spec_empty(),
    {
        RawConfig {
            openai_api_key: None,
            pyannote_api_key: None,
            recording_duration_seconds: None,
            capture_duration_seconds: None,
            capture_overlap_seconds: None,
            capture_silence_threshold_dbfs: None,
            capture_silence_min_duration_ms: None,
            capture_tail_silence_min_duration_ms: None,
            speaker_sample_duration_seconds: None,
            transcription_language: None,
            transcription_pipeline: None,
            diarization_max_speakers: None,
            merge_min_overlap_chars: None,
            merge_alignment_ratio: None,
            merge_trigram_similarity: None,
            debug_enabled: None,
            storage_root: None,
        }
    }

    /// Replaces the setting that `entry.key` names with `entry`'s value,
    /// recorded as coming from `source`; an unknown key is ignored.
    pub fn set_entry(&mut self, entry: SettingEntry, source: ConfigSource)
        ensures
            *final(self) == old(self).with_entry(entry, source),
    {
        let ghost e = entry;
        let k = entry.key.as_str();
        let decimal_text = DecimalText { text: copy_string(&entry.value), parsed: entry.decimal };
        let decimal = Some(ConfigValue::new(decimal_text, source));
        let text = Some(ConfigValue::new(entry.value, source));
        if same_text(k, OPENAI_API_KEY_ENV_VAR) {
            self.openai_api_key = text;
        } else if same_text(k, PYANNOTE_API_KEY_ENV_VAR) {
            self.pyannote_api_key = text;
        } else if same_text(k, RECORDING_DURATION_SECONDS_ENV_VAR) {
            self.recording_duration_seconds = text;
        } else if same_text(k, CAPTURE_DURATION_SECONDS_ENV_VAR) {
            self.capture_duration_seconds = text;
        } else if same_text(k, CAPTURE_OVERLAP_SECONDS_ENV_VAR) {
            self.capture_overlap_seconds = text;
        } else if same_text(k, CAPTURE_SILENCE_THRESHOLD_DBFS_ENV_VAR) {
            self.capture_silence_threshold_dbfs = decimal;
        } else if same_text(k, CAPTURE_SILENCE_MIN_DURATION_MS_ENV_VAR) {
            self.capture_silence_min_duration_ms = text;
        } else if same_text(k, CAPTURE_TAIL_SILENCE_MIN_DURATION_MS_ENV_VAR) {
            self.capture_tail_silence_min_duration_ms = text;
        } else if same_text(k, SPEAKER_SAMPLE_DURATION_SECONDS_ENV_VAR) {
            self.speaker_sample_duration_seconds = text;
        } else if same_text(k, TRANSCRIPTION_LANGUAGE_ENV_VAR) {
            self.transcription_language = text;
        } else if same_text(k, TRANSCRIPTION_PIPELINE_ENV_VAR) {
            self.transcription_pipeline = text;
        } else if same_text(k, DIARIZATION_MAX_SPEAKERS_ENV_VAR) {
            self.diarization_max_speakers = text;
        } else if same_text(k, MERGE_MIN_OVERLAP_CHARS_ENV_VAR) {
            self.merge_min_overlap_chars = text;
        } else if same_text(k, MERGE_ALIGNMENT_RATIO_ENV_VAR) {
            self.merge_alignment_ratio = decimal;
        } else if same_text(k, MERGE_TRIGRAM_SIMILARITY_ENV_VAR) {
            self.merge_trigram_similarity = decimal;
        } else if same_text(k, DEBUG_ENV_VAR) {
            self.debug_enabled = text;
        } else if same_text(k, STORAGE_ROOT_ENV_VAR) {
            self.storage_root = text;
        }
    }

    /// The settings named by `entries`, all recorded as coming from
    /// `source`; where a key occurs twice the later entry wins.
    pub fn from_entries(entries: Vec<SettingEntry>, source: ConfigSource) -> (r: RawConfig)
        ensures
            r == RawConfig::spec_empty().with_entries(entries@, source),
    {
        let mut raw = RawConfig::empty();
        let mut i: usize = 0;
        while i < entries.len()
            invariant
                i <= entries.len(),
                raw == RawConfig::spec_empty().with_entries(entries@.take(i as int), source),
            decreases entries.len() - i,
        {
            let entry = copy_entry(&entries[i]);
            proof {
                assert(entries@.take(i as int + 1).drop_last() =~= entries@.take(i as int));
            }
            raw.set_entry(entry, source);
            i = i + 1;
        }
        assert(entries@.take(entries@.len() as int) =~= entries@);
        raw
    }

    /// `self` with each absent setting taken from `fallback`: a present
    /// value, even an empty one, is kept.
    pub fn merge_missing(self, fallback: RawConfig) -> (r: RawConfig)
        ensures
            r == self.merged_with(fallback),
    {
        RawConfig {
            openai_api_key: first_present(self.openai_api_key, fallback.openai_api_key),
            pyannote_api_key: first_present(self.pyannote_api_key, fallback.pyannote_api_key),
            recording_duration_seconds: first_present(self.recording_duration_seconds, fallback.recording_duration_seconds),
            capture_duration_seconds: first_present(self.capture_duration_seconds, fallback.capture_duration_seconds),
            capture_overlap_seconds: first_present(self.capture_overlap_seconds, fallback.capture_overlap_seconds),
            capture_silence_threshold_dbfs: first_present(self.capture_silence_threshold_dbfs, fallback.capture_silence_threshold_dbfs),
            capture_silence_min_duration_ms: first_present(self.capture_silence_min_duration_ms, fallback.capture_silence_min_duration_ms),
            capture_tail_silence_min_duration_ms: first_present(self.capture_tail_silence_min_duration_ms, fallback.capture_tail_silence_min_duration_ms),
            speaker_sample_duration_seconds: first_present(self.speaker_sample_duration_seconds, fallback.speaker_sample_duration_seconds),
            transcription_language: first_present(self.transcription_language, fallback.transcription_language),
            transcription_pipeline: first_present(self.transcription_pipeline, fallback.transcription_pipeline),
            diarization_max_speakers: first_present(self.diarization_max_speakers, fallback.diarization_max_speakers),
            merge_min_overlap_chars: first_present(self.merge_min_overlap_chars, fallback.merge_min_overlap_chars),
            merge_alignment_ratio: first_present(self.merge_alignment_ratio, fallback.merge_alignment_ratio),
            merge_trigram_similarity: first_present(self.merge_trigram_similarity, fallback.merge_trigram_similarity),
            debug_enabled: first_present(self.debug_enabled, fallback.debug_enabled),
            storage_root: first_present(self.storage_root, fallback.storage_root),
        }
    }
}

/// Whether `key` names one of the settings.
pub open spec fn is_setting_key(key: Seq<char>) -> bool {
    ||| key == OPENAI_API_KEY_ENV_VAR@
    ||| key == PYANNOTE_API_KEY_ENV_VAR@
    ||| key == RECORDING_DURATION_SECONDS_ENV_VAR@
    ||| key == CAPTURE_DURATION_SECONDS_ENV_VAR@
    ||| key == CAPTURE_OVERLAP_SECONDS_ENV_VAR@
    ||| key == CAPTURE_SILENCE_THRESHOLD_DBFS_ENV_VAR@
    ||| key == CAPTURE_SILENCE_MIN_DURATION_MS_ENV_VAR@
    ||| key == CAPTURE_TAIL_SILENCE_MIN_DURATION_MS_ENV_VAR@
    ||| key == SPEAKER_SAMPLE_DURATION_SECONDS_ENV_VAR@
    ||| key == TRANSCRIPTION_LANGUAGE_ENV_VAR@
    ||| key == TRANSCRIPTION_PIPELINE_ENV_VAR@
    ||| key == DIARIZATION_MAX_SPEAKERS_ENV_VAR@
    ||| key == MERGE_MIN_OVERLAP_CHARS_ENV_VAR@
    ||| key == MERGE_ALIGNMENT_RATIO_ENV_VAR@
    ||| key == MERGE_TRIGRAM_SIMILARITY_ENV_VAR@
    ||| key == DEBUG_ENV_VAR@
    ||| key == STORAGE_ROOT_ENV_VAR@
}

/// An entry whose key names no setting leaves the settings as they were.
pub proof fn unknown_keys_are_ignored(raw: RawConfig, e: SettingEntry, source: ConfigSource)
    requires
        !is_setting_key(e.key@),
    ensures
        raw.with_entry(e, source) == raw,
{
}

/// Of two entries for the OpenAI API key, the later one is kept, whatever
/// came between them.
pub proof fn later_entry_wins(
    raw: RawConfig,
    entries: Seq<SettingEntry>,
    e: SettingEntry,
    source: ConfigSource,
)
    requires
        e.key@ == OPENAI_API_KEY_ENV_VAR@,
    ensures
        raw.with_entries(entries.push(e), source).openai_api_key == Some(
            ConfigValue { value: e.value, source },
        ),
{
    assert(entries.push(e).drop_last() =~= entries);
}

/// A key present in the environment is never filled from the `.env` file,
/// not even when the environment's value is blank: validation then reports
/// the blank value, first of all errors.
pub proof fn blank_environment_value_is_not_replaced(env: RawConfig, dotenv: RawConfig)
    requires
        env.openai_api_key is Some,
        is_blank(env.openai_api_key.unwrap().value@),
    ensures
        env.merged_with(dotenv).openai_api_key == env.openai_api_key,
        env.merged_with(dotenv).validation_errors().len() > 0,
        env.merged_with(dotenv).validation_errors()[0] == (ConfigValidationError::EmptyValue {
            name: OPENAI_API_KEY_ENV_VAR,
            source: env.openai_api_key.unwrap().source,
        }),
{
    let m = env.merged_with(dotenv);
    assert(m.openai_errors().len() == 1);
    assert(m.validation_errors() =~= m.openai_errors() + (m.validation_errors().subrange(1, m.validation_errors().len() as int)));
}

/// `merged` is `primary` where that is present, and `fallback` otherwise.
pub open spec fn prefers<T>(merged: Option<T>, primary: Option<T>, fallback: Option<T>) -> bool {
    if primary is Some {
        merged == primary
    } else {
        merged == fallback
    }
}

/// Every setting that the environment holds is taken from it; every other
/// one from the `.env` file. Merging the same file again changes nothing,
/// and merging with nothing keeps the environment's settings.
pub proof fn environment_wins_over_dotenv(env: RawConfig, dotenv: RawConfig)
    ensures
        ({
            let m = env.merged_with(dotenv);
            &&& prefers(m.openai_api_key, env.openai_api_key, dotenv.openai_api_key)
            &&& prefers(m.pyannote_api_key, env.pyannote_api_key, dotenv.pyannote_api_key)
            &&& prefers(m.recording_duration_seconds, env.recording_duration_seconds, dotenv.recording_duration_seconds)
            &&& prefers(m.capture_duration_seconds, env.capture_duration_seconds, dotenv.capture_duration_seconds)
            &&& prefers(m.capture_overlap_seconds, env.capture_overlap_seconds, dotenv.capture_overlap_seconds)
            &&& prefers(m.capture_silence_threshold_dbfs, env.capture_silence_threshold_dbfs, dotenv.capture_silence_threshold_dbfs)
            &&& prefers(m.capture_silence_min_duration_ms, env.capture_silence_min_duration_ms, dotenv.capture_silence_min_duration_ms)
            &&& prefers(m.capture_tail_silence_min_duration_ms, env.capture_tail_silence_min_duration_ms, dotenv.capture_tail_silence_min_duration_ms)
            &&& prefers(m.speaker_sample_duration_seconds, env.speaker_sample_duration_seconds, dotenv.speaker_sample_duration_seconds)
            &&& prefers(m.transcription_language, env.transcription_language, dotenv.transcription_language)
            &&& prefers(m.transcription_pipeline, env.transcription_pipeline, dotenv.transcription_pipeline)
            &&& prefers(m.diarization_max_speakers, env.diarization_max_speakers, dotenv.diarization_max_speakers)
            &&& prefers(m.merge_min_overlap_chars, env.merge_min_overlap_chars, dotenv.merge_min_overlap_chars)
            &&& prefers(m.merge_alignment_ratio, env.merge_alignment_ratio, dotenv.merge_alignment_ratio)
            &&& prefers(m.merge_trigram_similarity, env.merge_trigram_similarity, dotenv.merge_trigram_similarity)
            &&& prefers(m.debug_enabled, env.debug_enabled, dotenv.debug_enabled)
            &&& prefers(m.storage_root, env.storage_root, dotenv.storage_root)
        }),
        env.merged_with(dotenv).merged_with(dotenv) == env.merged_with(dotenv),
        env.merged_with(RawConfig::spec_empty()) == env,
{
}

/// `a`, or `b` where `a` is absent.
fn first_present<T>(a: Option<T>, b: Option<T>) -> (r: Option<T>)
    ensures
        r == or_spec(a, b),
{
    match a {
        Some(x) => Some(x),
        None => b,
    }
}

impl Config {
    /// Resolves the settings from the environment's values and the `.env`
    /// file's: the environment wins wherever it holds the key.
    pub fn from_raw_sources(environment: RawConfig, dotenv: RawConfig) -> (r: Result<
        Config,
        ConfigError,
    >)
        ensures
            ({
                let merged = environment.merged_with(dotenv);
                &&& (r is Ok) <==> (merged.validation_errors().len() == 0
                    && !merged.lacks_pyannote_key())
                &&& r matches Ok(c) ==> merged.resolves_to(c)
                &&& r matches Err(ConfigError::InvalidConfig(errors)) ==> (if merged.validation_errors().len() > 0 {
                    errors@ == merged.validation_errors()
                } else {
                    errors@ == seq![
                        ConfigValidationError::MissingPyannoteApiKey {
                            pipeline_name: TRANSCRIPTION_PIPELINE_ENV_VAR,
                            api_key_name: PYANNOTE_API_KEY_ENV_VAR,
                        },
                    ]
                })
                &&& !(r matches Err(ConfigError::ReadDotEnv(_)))
            }),
    {
        environment.merge_missing(dotenv).validate()
    }
}

/// `a`, or `b` where `a` is absent.
pub open spec fn or_spec<T>(a: Option<T>, b: Option<T>) -> Option<T> {
    match a {
        Some(x) => Some(x),
        None => b,
    }
}

/// The value of a check that passed.
pub open spec fn ok_of<T>(r: Result<T, ConfigValidationError>) -> T
    recommends
        r is Ok,
{
    match r {
        Ok(v) => v,
        Err(_) => arbitrary(),
    }
}

/// dotenvy's reading of a `.env` file's text (`from_read_iter` over the
/// bytes): each `KEY=value` line in order, or the first error.
///
/// Nothing is stated of the entries: dotenvy substitutes `$NAME`
/// references from the process environment as it reads.
#[verifier::external_body]
fn dotenv_entries(bytes: &[u8]) -> Result<Vec<(String, String)>, dotenvy::Error> {
    dotenvy::from_read_iter(std::io::Cursor::new(bytes)).collect()
}

/// The `KEY=value` entries of the `.env` file whose contents are given,
/// where `None` means that there is no such file: a missing file holds no
/// settings, and a file that dotenvy cannot read is a `ReadDotEnv` error.
pub fn raw_dotenv_entries(contents: Option<&[u8]>) -> (r: Result<Vec<(String, String)>, ConfigError>)
    ensures
        contents is None ==> (r matches Ok(v) && v@.len() == 0),
        r matches Err(e) ==> e is ReadDotEnv,
{
    match contents {
        None => Ok(Vec::new()),
        Some(bytes) => match dotenv_entries(bytes) {
            Ok(entries) => Ok(entries),
            Err(error) => Err(ConfigError::ReadDotEnv(error)),
        },
    }
}

/// The language setting accepts exactly `auto`, `ja` and `en`, surrounding
/// whitespace ignored: `en` and `ja` select that language, `auto` lets the
/// service decide, blank text is reported as empty, and anything else is
/// refused with the text as given.
pub proof fn language_setting_accepts_auto_ja_en(v: ConfigValue<String>, name: &'static str)
    ensures
        trim_spec(v.value@) == "en"@ ==> language_spec(v, name) == Ok::<
            LanguageModel,
            ConfigValidationError,
        >(LanguageModel::Fixed("en"@)),
        trim_spec(v.value@) == "ja"@ ==> language_spec(v, name) == Ok::<
            LanguageModel,
            ConfigValidationError,
        >(LanguageModel::Fixed("ja"@)),
        trim_spec(v.value@) == "auto"@ ==> language_spec(v, name) == Ok::<
            LanguageModel,
            ConfigValidationError,
        >(LanguageModel::Auto),
        trim_spec(v.value@).len() == 0 ==> language_spec(v, name) == Err::<
            LanguageModel,
            ConfigValidationError,
        >(ConfigValidationError::EmptyValue { name, source: v.source }),
        trim_spec(v.value@).len() > 0 && trim_spec(v.value@) != "en"@ && trim_spec(v.value@)
            != "ja"@ && trim_spec(v.value@) != "auto"@ ==> language_spec(v, name) == Err::<
            LanguageModel,
            ConfigValidationError,
        >(
            ConfigValidationError::InvalidTranscriptionLanguageModeValue {
                name,
                value: v.value,
                source: v.source,
            },
        ),
{
    reveal(language_spec);
    reveal_strlit("en");
    reveal_strlit("ja");
    reveal_strlit("auto");
}

/// The debug flag reads `1`, `true`, `TRUE`, `yes` and `YES` as on, and
/// `0`, `false`, `FALSE`, `no` and `NO` as off; any other text that is not
/// blank is refused with the text as given.
pub proof fn debug_flag_spellings(v: ConfigValue<String>, name: &'static str)
    ensures
        v.value@ == "1"@ || v.value@ == "true"@ || v.value@ == "TRUE"@ || v.value@ == "yes"@
            || v.value@ == "YES"@ ==> bool_spec(v, name) == Ok::<bool, ConfigValidationError>(true),
        v.value@ == "0"@ || v.value@ == "false"@ || v.value@ == "FALSE"@ || v.value@ == "no"@
            || v.value@ == "NO"@ ==> bool_spec(v, name) == Ok::<bool, ConfigValidationError>(false),
        bool_spec(v, name) is Ok ==> v.value@ == "1"@ || v.value@ == "true"@ || v.value@ == "TRUE"@
            || v.value@ == "yes"@ || v.value@ == "YES"@ || v.value@ == "0"@ || v.value@ == "false"@
            || v.value@ == "FALSE"@ || v.value@ == "no"@ || v.value@ == "NO"@,
        bool_spec(v, name) is Err && !is_blank(v.value@) ==> bool_spec(v, name) == Err::<
            bool,
            ConfigValidationError,
        >(ConfigValidationError::InvalidBooleanValue { name, value: v.value, source: v.source }),
{
    reveal(bool_spec);
    reveal_strlit("1");
    reveal_strlit("true");
    reveal_strlit("TRUE");
    reveal_strlit("yes");
    reveal_strlit("YES");
    reveal_strlit("0");
    reveal_strlit("false");
    reveal_strlit("FALSE");
    reveal_strlit("no");
    reveal_strlit("NO");
    let t = v.value@;
    if t == "1"@ || t == "true"@ || t == "TRUE"@ || t == "yes"@ || t == "YES"@ || t == "0"@
        || t == "false"@ || t == "FALSE"@ || t == "no"@ || t == "NO"@ {
        assert(t.len() > 0 && !is_white_space(t[0]) && !is_white_space(t.last()));
        assert(trim_start_spec(t) == t);
        assert(trim_end_spec(t) == t);
    }
}

/// The pipeline setting accepts exactly `legacy` and `separated`,
/// surrounding whitespace ignored; blank text is reported as empty, and
/// anything else is refused with the text as given.
pub proof fn pipeline_setting_accepts_legacy_separated(v: ConfigValue<String>, name: &'static str)
    ensures
        trim_spec(v.value@) == "legacy"@ ==> pipeline_spec(v, name) == Ok::<
            TranscriptionPipeline,
            ConfigValidationError,
        >(TranscriptionPipeline::Legacy),
        trim_spec(v.value@) == "separated"@ ==> pipeline_spec(v, name) == Ok::<
            TranscriptionPipeline,
            ConfigValidationError,
        >(TranscriptionPipeline::Separated),
        trim_spec(v.value@).len() == 0 ==> pipeline_spec(v, name) == Err::<
            TranscriptionPipeline,
            ConfigValidationError,
        >(ConfigValidationError::EmptyValue { name, source: v.source }),
        trim_spec(v.value@).len() > 0 && trim_spec(v.value@) != "legacy"@ && trim_spec(v.value@)
            != "separated"@ ==> pipeline_spec(v, name) == Err::<
            TranscriptionPipeline,
            ConfigValidationError,
        >(
            ConfigValidationError::InvalidTranscriptionPipelineValue {
                name,
                value: v.value,
                source: v.source,
            },
        ),
{
    reveal(pipeline_spec);
    reveal_strlit("legacy");
    reveal_strlit("separated");
}

/// A path setting is accepted, unchanged, exactly when it starts at the
/// root `/`; blank text is reported as empty, and any other text is refused
/// as relative.
pub proof fn path_setting_accepts_absolute_paths(v: ConfigValue<String>, name: &'static str)
    ensures
        absolute_path_spec(v, name) matches Ok(p) ==> p == v.value && p@[0] == '/',
        !is_blank(v.value@) && v.value@[0] == '/' ==> absolute_path_spec(v, name) == Ok::<
            String,
            ConfigValidationError,
        >(v.value),
        !is_blank(v.value@) && v.value@[0] != '/' ==> absolute_path_spec(v, name) == Err::<
            String,
            ConfigValidationError,
        >(ConfigValidationError::RelativePathValue { name, value: v.value, source: v.source }),
{
    reveal(absolute_path_spec);
    if !is_blank(v.value@) {
        assert(v.value@.len() > 0) by {
            if v.value@.len() == 0 {
                assert(trim_start_spec(v.value@) == v.value@);
                assert(trim_end_spec(v.value@) == v.value@);
            }
        }
    }
}

/// A whole-number setting is accepted exactly when its text reads as a
/// number above zero, and then as that number; zero is refused with the
/// text as given.
pub proof fn positive_setting_is_above_zero(v: ConfigValue<String>, name: &'static str)
    ensures
        positive_spec(v, name) matches Ok(n) ==> n > 0 && parse_u64_spec(v.value@) == Some(n),
        !is_blank(v.value@) && parse_u64_spec(v.value@) is Some && parse_u64_spec(v.value@)->0 > 0
            ==> positive_spec(
            v,
            name,
        ) == Ok::<u64, ConfigValidationError>(parse_u64_spec(v.value@)->0),
        !is_blank(v.value@) && (parse_u64_spec(v.value@) is None || parse_u64_spec(v.value@)
            == Some(0u64)) ==> positive_spec(v, name) == Err::<u64, ConfigValidationError>(
            ConfigValidationError::InvalidPositiveIntegerValue {
                name,
                value: v.value,
                source: v.source,
            },
        ),
{
    reveal(positive_spec);
}

} // verus!
