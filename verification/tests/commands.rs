use diarize_log::commands::{
    build_mixed_capture_metadata, capture_config_from_runtime_config, load_known_speaker_samples,
};
use diarize_log::config::{Config, ConfigSource, TranscriptionPipeline};
use diarize_log::domain::{
    Binary64, KnownSpeakerSample, RecordedAudio, SilenceRequestPolicy, TranscriptMergePolicy,
    TranscriptSource, TranscriptionLanguage,
};
use diarize_log::ports::{SpeakerStore, SpeakerStoreError};
use std::cell::RefCell;
use std::rc::Rc;

fn sample_config() -> Config {
    Config {
        openai_api_key: "key".to_string(),
        openai_api_key_source: ConfigSource::Environment,
        pyannote_api_key: None,
        recording_duration_secs: 90,
        capture_duration_secs: 30,
        capture_overlap_secs: 5,
        capture_silence_request_policy: SilenceRequestPolicy {
            silence_threshold_dbfs: Binary64 { bits: (-33.5f64).to_bits() },
            silence_min_duration_ms: 900,
            tail_silence_min_duration_ms: 400,
        },
        speaker_sample_duration_secs: 6,
        transcription_language: TranscriptionLanguage::Fixed("ja".to_string()),
        transcription_pipeline: TranscriptionPipeline::Legacy,
        diarization_max_speakers: None,
        transcript_merge_policy: TranscriptMergePolicy {
            min_overlap_chars: 12,
            min_alignment_ratio: Binary64 { bits: 0.7f64.to_bits() },
            min_trigram_similarity: Binary64 { bits: 0.5f64.to_bits() },
        },
        debug_enabled: false,
        storage_root: "/tmp/diarize-log".to_string(),
    }
}

struct SpySpeakerStore {
    reads: Rc<RefCell<Vec<String>>>,
    samples: Vec<KnownSpeakerSample>,
}

impl SpeakerStore for SpySpeakerStore {
    fn create_sample(&mut self, _speaker_name: &str, _audio: &RecordedAudio) -> Result<(), SpeakerStoreError> {
        Ok(())
    }

    fn remove_sample(&mut self, _speaker_name: &str) -> Result<(), SpeakerStoreError> {
        Ok(())
    }

    fn list_samples(&self) -> Result<Vec<String>, SpeakerStoreError> {
        Ok(Vec::new())
    }

    fn read_sample(&self, speaker_name: &str) -> Result<KnownSpeakerSample, SpeakerStoreError> {
        self.reads.borrow_mut().push(speaker_name.to_string());
        self.samples
            .iter()
            .find(|sample| sample.speaker_name == speaker_name)
            .cloned()
            .ok_or_else(|| SpeakerStoreError::SpeakerNotFound { speaker_name: speaker_name.to_string() })
    }
}

fn sample_known_speaker(name: &str) -> KnownSpeakerSample {
    KnownSpeakerSample {
        speaker_name: name.to_string(),
        audio: RecordedAudio { wav_bytes: vec![1, 2, 3], content_type: "audio/wav" },
    }
}

#[test]
fn loads_known_speaker_samples_in_cli_order() {
    let speaker_store = SpySpeakerStore {
        reads: Rc::new(RefCell::new(Vec::new())),
        samples: vec![sample_known_speaker("sato"), sample_known_speaker("suzuki")],
    };

    let samples =
        load_known_speaker_samples(&speaker_store, &["suzuki".to_string(), "sato".to_string()]).unwrap();

    assert_eq!(*speaker_store.reads.borrow(), vec!["suzuki".to_string(), "sato".to_string()]);
    assert_eq!(
        samples.iter().map(|sample| sample.speaker_name.as_str()).collect::<Vec<_>>(),
        vec!["suzuki", "sato"]
    );
}

#[test]
fn stops_loading_at_the_first_unknown_speaker() {
    let speaker_store = SpySpeakerStore { reads: Rc::new(RefCell::new(Vec::new())), samples: Vec::new() };
    let error = load_known_speaker_samples(&speaker_store, &["x".to_string(), "y".to_string()]).unwrap_err();
    assert_eq!(error, SpeakerStoreError::SpeakerNotFound { speaker_name: "x".to_string() });
    assert_eq!(*speaker_store.reads.borrow(), vec!["x".to_string()]);
}

#[test]
fn builds_mixed_capture_metadata_from_runtime_config() {
    let metadata = build_mixed_capture_metadata(&sample_config(), "com.apple.Safari", "me");

    assert_eq!(metadata.mode, "mixed");
    assert_eq!(metadata.application_bundle_id, "com.apple.Safari");
    assert_eq!(metadata.microphone_speaker, "me");
    assert_eq!(metadata.source_outcomes, Vec::new());
    assert_eq!(metadata.source_settings.len(), 2);
    assert_eq!(metadata.source_settings[0].source, TranscriptSource::Microphone);
    assert_eq!(metadata.source_settings[0].fixed_speaker, Some("me".to_string()));
    assert_eq!(metadata.source_settings[0].recording_duration_ms, 90_000);
    assert_eq!(metadata.source_settings[0].capture_duration_ms, 30_000);
    assert_eq!(metadata.source_settings[0].capture_overlap_ms, 5_000);
    assert_eq!(f64::from_bits(metadata.source_settings[0].capture_silence_threshold_dbfs.bits), -33.5);
    assert_eq!(metadata.source_settings[0].capture_silence_min_duration_ms, 900);
    assert_eq!(metadata.source_settings[0].capture_tail_silence_min_duration_ms, 400);
    assert_eq!(metadata.source_settings[0].transcription_model, "gpt-4o-transcribe");
    assert_eq!(metadata.source_settings[0].transcription_language, "ja");
    assert_eq!(metadata.source_settings[0].response_format, "diarized_json");
    assert_eq!(metadata.source_settings[0].chunking_strategy, "auto");
    assert_eq!(metadata.source_settings[0].merge_policy, sample_config().transcript_merge_policy);
    assert_eq!(metadata.source_settings[1].source, TranscriptSource::Application);
    assert_eq!(metadata.source_settings[1].fixed_speaker, None);
    assert_eq!(metadata.source_settings[1].transcription_model, "gpt-4o-transcribe-diarize");
    assert_eq!(metadata.source_settings[1].capture_silence_min_duration_ms, 900);
    assert_eq!(metadata.source_settings[1].capture_tail_silence_min_duration_ms, 400);
}

#[test]
fn derives_capture_settings_from_runtime_config() {
    let config = capture_config_from_runtime_config(&sample_config());
    assert_eq!(config.capture_policy.recording_duration_ms, 90_000);
    assert_eq!(config.capture_policy.capture_duration_ms, 30_000);
    assert_eq!(config.capture_policy.capture_overlap_ms, 5_000);
    assert_eq!(config.silence_request_policy.silence_min_duration_ms, 900);
    assert_eq!(config.merge_policy.min_overlap_chars, 12);
}

#[test]
fn loads_no_samples_without_asking_the_store_when_none_are_named() {
    let speaker_store = SpySpeakerStore { reads: Rc::new(RefCell::new(Vec::new())), samples: Vec::new() };
    let samples = load_known_speaker_samples(&speaker_store, &[]).unwrap();
    assert!(samples.is_empty());
    assert!(speaker_store.reads.borrow().is_empty());
}
