use diarize_log::config::{
    raw_dotenv_entries,
    Config, ConfigError, ConfigSource, ConfigValidationError, RawConfig, SettingEntry,
    TranscriptionPipeline,
};
use diarize_log::domain::{Binary64, SilenceRequestPolicy, TranscriptMergePolicy, TranscriptionLanguage};

fn entry(key: &str, value: &str) -> SettingEntry {
    SettingEntry { key: key.to_string(), value: value.to_string(), decimal: value.parse::<f64>().ok().map(|v| Binary64 { bits: v.to_bits() }) }
}

fn raw(entries: &[(&str, &str)], source: ConfigSource) -> RawConfig {
    RawConfig::from_entries(entries.iter().map(|(k, v)| entry(k, v)).collect(), source)
}

fn required(storage_root: &str) -> Vec<(&'static str, String)> {
    vec![
        ("OPENAI_API_KEY", "from-dotenv".to_string()),
        ("DIARIZE_LOG_RECORDING_DURATION_SECONDS", "30".to_string()),
        ("DIARIZE_LOG_CAPTURE_DURATION_SECONDS", "10".to_string()),
        ("DIARIZE_LOG_CAPTURE_OVERLAP_SECONDS", "2".to_string()),
        ("DIARIZE_LOG_SPEAKER_SAMPLE_DURATION_SECONDS", "6".to_string()),
        ("DIARIZE_LOG_STORAGE_ROOT", storage_root.to_string()),
    ]
}

fn dotenv_with(extra: &[(&str, &str)]) -> RawConfig {
    let mut pairs: Vec<(&str, String)> = required("/tmp/diarize-log");
    for (k, v) in extra {
        pairs.push((k, v.to_string()));
    }
    let refs: Vec<(&str, &str)> = pairs.iter().map(|(k, v)| (*k, v.as_str())).collect();
    raw(&refs, ConfigSource::DotEnv)
}

fn invalid(result: Result<Config, ConfigError>) -> Vec<ConfigValidationError> {
    match result {
        Err(ConfigError::InvalidConfig(errors)) => errors,
        other => panic!("expected invalid config, got {other:?}"),
    }
}

#[test]
fn resolves_required_values_from_dotenv() {
    let config = Config::from_raw_sources(RawConfig::empty(), dotenv_with(&[])).unwrap();
    assert_eq!(config.openai_api_key, "from-dotenv");
    assert_eq!(config.openai_api_key_source, ConfigSource::DotEnv);
    assert_eq!(config.recording_duration_secs, 30);
    assert_eq!(config.capture_duration_secs, 10);
    assert_eq!(config.capture_overlap_secs, 2);
    assert_eq!(config.speaker_sample_duration_secs, 6);
    assert_eq!(config.storage_root, "/tmp/diarize-log");
    assert_eq!(config.transcription_pipeline, TranscriptionPipeline::Legacy);
    assert_eq!(config.diarization_max_speakers, None);
}

#[test]
fn resolves_recommended_defaults_for_optional_values() {
    let config = Config::from_raw_sources(RawConfig::empty(), dotenv_with(&[])).unwrap();
    assert_eq!(config.capture_silence_request_policy, SilenceRequestPolicy::recommended());
    assert_eq!(config.transcription_language, TranscriptionLanguage::Fixed("ja".to_string()));
    assert_eq!(config.transcript_merge_policy, TranscriptMergePolicy::recommended());
    assert!(!config.debug_enabled);
}

#[test]
fn prefers_environment_variables_over_dotenv_for_required_values() {
    let env = raw(
        &[("OPENAI_API_KEY", "from-env"), ("DIARIZE_LOG_RECORDING_DURATION_SECONDS", "45")],
        ConfigSource::Environment,
    );
    let config = Config::from_raw_sources(env, dotenv_with(&[])).unwrap();
    assert_eq!(config.openai_api_key, "from-env");
    assert_eq!(config.openai_api_key_source, ConfigSource::Environment);
    assert_eq!(config.recording_duration_secs, 45);
    assert_eq!(config.capture_duration_secs, 10);
}

#[test]
fn prefers_environment_variables_over_dotenv_for_optional_values() {
    let dotenv = dotenv_with(&[
        ("DIARIZE_LOG_CAPTURE_SILENCE_THRESHOLD_DBFS", "-42.0"),
        ("DIARIZE_LOG_CAPTURE_SILENCE_MIN_DURATION_MS", "800"),
        ("DIARIZE_LOG_CAPTURE_TAIL_SILENCE_MIN_DURATION_MS", "400"),
        ("DIARIZE_LOG_TRANSCRIPTION_LANGUAGE", "ja"),
        ("DIARIZE_LOG_MERGE_MIN_OVERLAP_CHARS", "14"),
        ("DIARIZE_LOG_MERGE_ALIGNMENT_RATIO", "0.9"),
        ("DIARIZE_LOG_MERGE_TRIGRAM_SIMILARITY", "0.7"),
        ("DIARIZE_LOG_DEBUG", "false"),
    ]);
    let env = raw(
        &[
            ("DIARIZE_LOG_CAPTURE_SILENCE_THRESHOLD_DBFS", "-30.5"),
            ("DIARIZE_LOG_CAPTURE_SILENCE_MIN_DURATION_MS", "900"),
            ("DIARIZE_LOG_CAPTURE_TAIL_SILENCE_MIN_DURATION_MS", "450"),
            ("DIARIZE_LOG_TRANSCRIPTION_LANGUAGE", "auto"),
            ("DIARIZE_LOG_MERGE_MIN_OVERLAP_CHARS", "11"),
            ("DIARIZE_LOG_MERGE_ALIGNMENT_RATIO", "0.85"),
            ("DIARIZE_LOG_MERGE_TRIGRAM_SIMILARITY", "0.6"),
            ("DIARIZE_LOG_DEBUG", "true"),
        ],
        ConfigSource::Environment,
    );
    let config = Config::from_raw_sources(env, dotenv).unwrap();
    assert_eq!(f64::from_bits(config.capture_silence_request_policy.silence_threshold_dbfs.bits), -30.5);
    assert_eq!(config.capture_silence_request_policy.silence_min_duration_ms, 900);
    assert_eq!(config.capture_silence_request_policy.tail_silence_min_duration_ms, 450);
    assert_eq!(config.transcription_language, TranscriptionLanguage::Auto);
    assert_eq!(config.transcript_merge_policy.min_overlap_chars, 11);
    assert_eq!(f64::from_bits(config.transcript_merge_policy.min_alignment_ratio.bits), 0.85);
    assert_eq!(f64::from_bits(config.transcript_merge_policy.min_trigram_similarity.bits), 0.6);
    assert!(config.debug_enabled);
}

#[test]
fn returns_error_when_required_values_are_missing_everywhere() {
    let errors = invalid(Config::from_raw_sources(RawConfig::empty(), RawConfig::empty()));
    assert_eq!(
        errors,
        vec![
            ConfigValidationError::MissingRequiredValue { name: "OPENAI_API_KEY" },
            ConfigValidationError::MissingRequiredValue { name: "DIARIZE_LOG_RECORDING_DURATION_SECONDS" },
            ConfigValidationError::MissingRequiredValue { name: "DIARIZE_LOG_CAPTURE_DURATION_SECONDS" },
            ConfigValidationError::MissingRequiredValue { name: "DIARIZE_LOG_CAPTURE_OVERLAP_SECONDS" },
            ConfigValidationError::MissingRequiredValue { name: "DIARIZE_LOG_SPEAKER_SAMPLE_DURATION_SECONDS" },
            ConfigValidationError::MissingRequiredValue { name: "DIARIZE_LOG_STORAGE_ROOT" },
        ]
    );
}

#[test]
fn returns_error_when_capture_overlap_is_not_smaller_than_capture_duration() {
    let env = raw(&[("DIARIZE_LOG_CAPTURE_OVERLAP_SECONDS", "10")], ConfigSource::Environment);
    let errors = invalid(Config::from_raw_sources(env, dotenv_with(&[])));
    assert_eq!(
        errors,
        vec![ConfigValidationError::InvalidCaptureOverlap {
            overlap_name: "DIARIZE_LOG_CAPTURE_OVERLAP_SECONDS",
            capture_duration_name: "DIARIZE_LOG_CAPTURE_DURATION_SECONDS",
            overlap_seconds: 10,
            capture_duration_seconds: 10,
            overlap_source: ConfigSource::Environment,
        }]
    );
}

#[test]
fn returns_error_when_tail_silence_duration_exceeds_silence_duration() {
    let dotenv = dotenv_with(&[
        ("DIARIZE_LOG_CAPTURE_SILENCE_MIN_DURATION_MS", "300"),
        ("DIARIZE_LOG_CAPTURE_TAIL_SILENCE_MIN_DURATION_MS", "400"),
    ]);
    let errors = invalid(Config::from_raw_sources(RawConfig::empty(), dotenv));
    assert_eq!(
        errors,
        vec![ConfigValidationError::InvalidTailSilenceDuration {
            silence_name: "DIARIZE_LOG_CAPTURE_SILENCE_MIN_DURATION_MS",
            tail_silence_name: "DIARIZE_LOG_CAPTURE_TAIL_SILENCE_MIN_DURATION_MS",
            silence_duration_ms: 300,
            tail_silence_duration_ms: 400,
            tail_silence_source: ConfigSource::DotEnv,
        }]
    );
}

#[test]
fn returns_error_when_storage_root_is_relative_path() {
    let env = raw(&[("DIARIZE_LOG_STORAGE_ROOT", "relative/storage")], ConfigSource::Environment);
    let errors = invalid(Config::from_raw_sources(env, dotenv_with(&[])));
    assert_eq!(
        errors,
        vec![ConfigValidationError::RelativePathValue {
            name: "DIARIZE_LOG_STORAGE_ROOT",
            value: "relative/storage".to_string(),
            source: ConfigSource::Environment,
        }]
    );
}

#[test]
fn does_not_fall_back_to_dotenv_when_environment_variable_is_empty() {
    let env = raw(&[("OPENAI_API_KEY", "   ")], ConfigSource::Environment);
    let errors = invalid(Config::from_raw_sources(env, dotenv_with(&[])));
    assert_eq!(
        errors,
        vec![ConfigValidationError::EmptyValue { name: "OPENAI_API_KEY", source: ConfigSource::Environment }]
    );
}

#[test]
fn returns_error_for_invalid_boolean_value() {
    let env = raw(&[("DIARIZE_LOG_DEBUG", "maybe")], ConfigSource::Environment);
    let errors = invalid(Config::from_raw_sources(env, dotenv_with(&[])));
    assert_eq!(
        errors,
        vec![ConfigValidationError::InvalidBooleanValue {
            name: "DIARIZE_LOG_DEBUG",
            value: "maybe".to_string(),
            source: ConfigSource::Environment,
        }]
    );
}

#[test]
fn returns_error_for_invalid_positive_integer_value() {
    let env = raw(&[("DIARIZE_LOG_RECORDING_DURATION_SECONDS", "0")], ConfigSource::Environment);
    let errors = invalid(Config::from_raw_sources(env, dotenv_with(&[])));
    assert_eq!(
        errors,
        vec![ConfigValidationError::InvalidPositiveIntegerValue {
            name: "DIARIZE_LOG_RECORDING_DURATION_SECONDS",
            value: "0".to_string(),
            source: ConfigSource::Environment,
        }]
    );
}

#[test]
fn returns_error_for_invalid_unit_interval_value() {
    let env = raw(&[("DIARIZE_LOG_MERGE_TRIGRAM_SIMILARITY", "1.5")], ConfigSource::Environment);
    let errors = invalid(Config::from_raw_sources(env, dotenv_with(&[])));
    assert_eq!(
        errors,
        vec![ConfigValidationError::InvalidUnitIntervalValue {
            name: "DIARIZE_LOG_MERGE_TRIGRAM_SIMILARITY",
            value: "1.5".to_string(),
            source: ConfigSource::Environment,
        }]
    );
}

#[test]
fn returns_error_for_invalid_negative_decibel_value() {
    let env = raw(&[("DIARIZE_LOG_CAPTURE_SILENCE_THRESHOLD_DBFS", "3")], ConfigSource::Environment);
    let errors = invalid(Config::from_raw_sources(env, dotenv_with(&[])));
    assert_eq!(
        errors,
        vec![ConfigValidationError::InvalidNegativeDecibelValue {
            name: "DIARIZE_LOG_CAPTURE_SILENCE_THRESHOLD_DBFS",
            value: "3".to_string(),
            source: ConfigSource::Environment,
        }]
    );
}

#[test]
fn accepts_negative_decibel_threshold() {
    let env = raw(&[("DIARIZE_LOG_CAPTURE_SILENCE_THRESHOLD_DBFS", "-33.5")], ConfigSource::Environment);
    let config = Config::from_raw_sources(env, dotenv_with(&[])).unwrap();
    assert_eq!(config.capture_silence_request_policy.silence_threshold_dbfs, Binary64 { bits: (-33.5f64).to_bits() });
}

#[test]
fn returns_error_when_transcription_language_is_blank() {
    let env = raw(&[("DIARIZE_LOG_TRANSCRIPTION_LANGUAGE", "  ")], ConfigSource::Environment);
    let errors = invalid(Config::from_raw_sources(env, dotenv_with(&[])));
    assert_eq!(
        errors,
        vec![ConfigValidationError::EmptyValue {
            name: "DIARIZE_LOG_TRANSCRIPTION_LANGUAGE",
            source: ConfigSource::Environment,
        }]
    );
}

#[test]
fn returns_error_for_unsupported_transcription_language() {
    let env = raw(&[("DIARIZE_LOG_TRANSCRIPTION_LANGUAGE", "fr")], ConfigSource::Environment);
    let errors = invalid(Config::from_raw_sources(env, dotenv_with(&[])));
    assert_eq!(
        errors,
        vec![ConfigValidationError::InvalidTranscriptionLanguageModeValue {
            name: "DIARIZE_LOG_TRANSCRIPTION_LANGUAGE",
            value: "fr".to_string(),
            source: ConfigSource::Environment,
        }]
    );
}

#[test]
fn resolves_auto_transcription_language_from_dotenv() {
    let config = Config::from_raw_sources(
        RawConfig::empty(),
        dotenv_with(&[("DIARIZE_LOG_TRANSCRIPTION_LANGUAGE", " auto ")]),
    )
    .unwrap();
    assert_eq!(config.transcription_language, TranscriptionLanguage::Auto);
}

#[test]
fn resolves_separated_pipeline_settings_from_dotenv() {
    let config = Config::from_raw_sources(
        RawConfig::empty(),
        dotenv_with(&[
            ("DIARIZE_LOG_TRANSCRIPTION_PIPELINE", "separated"),
            ("PYANNOTE_API_KEY", "pyannote-key"),
            ("DIARIZE_LOG_DIARIZATION_MAX_SPEAKERS", "4"),
        ]),
    )
    .unwrap();
    assert_eq!(config.transcription_pipeline, TranscriptionPipeline::Separated);
    assert_eq!(config.pyannote_api_key, Some("pyannote-key".to_string()));
    assert_eq!(config.diarization_max_speakers, Some(4));
}

#[test]
fn returns_error_when_separated_pipeline_has_no_pyannote_api_key() {
    let errors = invalid(Config::from_raw_sources(
        RawConfig::empty(),
        dotenv_with(&[("DIARIZE_LOG_TRANSCRIPTION_PIPELINE", "separated")]),
    ));
    assert_eq!(
        errors,
        vec![ConfigValidationError::MissingPyannoteApiKey {
            pipeline_name: "DIARIZE_LOG_TRANSCRIPTION_PIPELINE",
            api_key_name: "PYANNOTE_API_KEY",
        }]
    );
}

#[test]
fn keeps_the_last_entry_for_a_key_and_ignores_unknown_keys() {
    let config = raw(
        &[("OPENAI_API_KEY", "first"), ("UNRELATED", "x"), ("OPENAI_API_KEY", "second")],
        ConfigSource::DotEnv,
    );
    let mut expected = RawConfig::empty();
    expected.set_entry(entry("OPENAI_API_KEY", "second"), ConfigSource::DotEnv);
    assert_eq!(config, expected);
}

#[test]
fn merge_keeps_present_values_and_fills_absent_ones() {
    let env = raw(&[("OPENAI_API_KEY", "")], ConfigSource::Environment);
    let dotenv = raw(&[("OPENAI_API_KEY", "k"), ("DIARIZE_LOG_DEBUG", "1")], ConfigSource::DotEnv);
    let merged = env.clone().merge_missing(dotenv.clone());
    assert_eq!(merged.openai_api_key, env.openai_api_key);
    assert_eq!(merged.debug_enabled, dotenv.debug_enabled);
}

#[test]
fn missing_dotenv_file_holds_no_settings() {
    assert!(matches!(raw_dotenv_entries(None), Ok(entries) if entries.is_empty()));
}

#[test]
fn reads_dotenv_entries_in_order() {
    let entries = raw_dotenv_entries(Some(b"OPENAI_API_KEY=from-dotenv\n# comment\nDIARIZE_LOG_DEBUG='true'\n")).unwrap();
    assert_eq!(
        entries,
        vec![
            ("OPENAI_API_KEY".to_string(), "from-dotenv".to_string()),
            ("DIARIZE_LOG_DEBUG".to_string(), "true".to_string()),
        ]
    );
}

#[test]
fn unreadable_dotenv_text_is_a_read_error() {
    assert!(matches!(raw_dotenv_entries(Some(b"OPENAI_API_KEY=\"unterminated\n")), Err(ConfigError::ReadDotEnv(_))));
}
