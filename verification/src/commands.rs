//! The pure parts of wiring a run from the validated settings: the capture
//! settings, the mixed session's metadata, and the known speakers' samples.
use crate::capture::{CaptureConfig, TRANSCRIPTION_MODEL};
use crate::config::Config;
use crate::domain::{
    CapturePolicy, ChunkingStrategy, KnownSpeakerSample, ResponseFormat, TranscriptSource,
    TranscriptionLanguage,
};
use crate::ports::{
    MixedCaptureSessionMetadata, MixedCaptureSourceSettings, SpeakerStore, SpeakerStoreError,
};
use crate::transcriber::SIMPLE_TRANSCRIPTION_MODEL;
use vstd::prelude::*;

verus! {

/// Whether the configured durations fit in milliseconds.
pub open spec fn durations_fit(config: Config) -> bool {
    &&& config.recording_duration_secs * 1000 <= u64::MAX
    &&& config.capture_duration_secs * 1000 <= u64::MAX
    &&& config.capture_overlap_secs * 1000 <= u64::MAX
}

/// The capture settings of a run: the configured timing, language, pause
/// and merge settings, with diarized JSON and automatic chunking.
pub fn capture_config_from_runtime_config(runtime_config: &Config) -> (r: CaptureConfig)
    requires
        durations_fit(*runtime_config),
    ensures
        r.capture_policy == (CapturePolicy {
            recording_duration_ms: (runtime_config.recording_duration_secs * 1000) as u64,
            capture_duration_ms: (runtime_config.capture_duration_secs * 1000) as u64,
            capture_overlap_ms: (runtime_config.capture_overlap_secs * 1000) as u64,
        }),
        r.silence_request_policy == runtime_config.capture_silence_request_policy,
        r.merge_policy == runtime_config.transcript_merge_policy,
        r.response_format == ResponseFormat::DiarizedJson,
        r.transcription_model == TRANSCRIPTION_MODEL,
        r.transcription_language == runtime_config.transcription_language,
        r.chunking_strategy == ChunkingStrategy::Auto,
{
    let config = CaptureConfig::new(
        runtime_config.recording_duration_secs * 1000,
        runtime_config.capture_duration_secs * 1000,
        runtime_config.capture_overlap_secs * 1000,
        runtime_config.transcription_language.duplicate(),
    );
    CaptureConfig {
        silence_request_policy: runtime_config.capture_silence_request_policy,
        merge_policy: runtime_config.transcript_merge_policy,
        ..config
    }
}

/// The text of a language in session metadata.
pub open spec fn language_text(language: TranscriptionLanguage) -> Seq<char> {
    match language {
        TranscriptionLanguage::Auto => "auto"@,
        TranscriptionLanguage::Fixed(code) => code@,
    }
}

/// Whether `s` records the settings of `source` under `config`.
pub open spec fn records_settings(
    s: MixedCaptureSourceSettings,
    source: TranscriptSource,
    config: Config,
    fixed_speaker: Option<Seq<char>>,
) -> bool {
    &&& s.source == source
    &&& s.recording_duration_ms == config.recording_duration_secs * 1000
    &&& s.capture_duration_ms == config.capture_duration_secs * 1000
    &&& s.capture_overlap_ms == config.capture_overlap_secs * 1000
    &&& s.capture_silence_threshold_dbfs == config.capture_silence_request_policy.silence_threshold_dbfs
    &&& s.capture_silence_min_duration_ms == config.capture_silence_request_policy.silence_min_duration_ms
    &&& s.capture_tail_silence_min_duration_ms
        == config.capture_silence_request_policy.tail_silence_min_duration_ms
    &&& s.transcription_model@ == (if fixed_speaker is Some {
        SIMPLE_TRANSCRIPTION_MODEL@
    } else {
        TRANSCRIPTION_MODEL@
    })
    &&& s.transcription_language@ == language_text(config.transcription_language)
    &&& s.response_format@ == "diarized_json"@
    &&& s.chunking_strategy@ == "auto"@
    &&& s.merge_policy == config.transcript_merge_policy
    &&& match fixed_speaker {
        Some(name) => s.fixed_speaker is Some && s.fixed_speaker->0@ == name,
        None => s.fixed_speaker is None,
    }
}

fn source_settings(
    config: &CaptureConfig,
    source: TranscriptSource,
    fixed_speaker: Option<String>,
) -> (r: MixedCaptureSourceSettings)
    ensures
        r.source == source,
        r.recording_duration_ms == config.capture_policy.recording_duration_ms,
        r.capture_duration_ms == config.capture_policy.capture_duration_ms,
        r.capture_overlap_ms == config.capture_policy.capture_overlap_ms,
        r.capture_silence_threshold_dbfs == config.silence_request_policy.silence_threshold_dbfs,
        r.capture_silence_min_duration_ms == config.silence_request_policy.silence_min_duration_ms,
        r.capture_tail_silence_min_duration_ms
            == config.silence_request_policy.tail_silence_min_duration_ms,
        r.transcription_model@ == (if fixed_speaker is Some {
            SIMPLE_TRANSCRIPTION_MODEL@
        } else {
            config.transcription_model@
        }),
        r.transcription_language@ == language_text(config.transcription_language),
        r.response_format@ == "diarized_json"@,
        r.chunking_strategy@ == "auto"@,
        r.merge_policy == config.merge_policy,
        r.fixed_speaker == fixed_speaker,
{
    MixedCaptureSourceSettings {
        source,
        recording_duration_ms: config.capture_policy.recording_duration_ms,
        capture_duration_ms: config.capture_policy.capture_duration_ms,
        capture_overlap_ms: config.capture_policy.capture_overlap_ms,
        capture_silence_threshold_dbfs: config.silence_request_policy.silence_threshold_dbfs,
        capture_silence_min_duration_ms: config.silence_request_policy.silence_min_duration_ms,
        capture_tail_silence_min_duration_ms: config.silence_request_policy.tail_silence_min_duration_ms,
        transcription_model: if fixed_speaker.is_some() {
            SIMPLE_TRANSCRIPTION_MODEL.to_owned()
        } else {
            config.transcription_model.to_owned()
        },
        transcription_language: config.transcription_language.display_text(),
        response_format: config.response_format.as_api_value().to_owned(),
        chunking_strategy: config.chunking_strategy.as_api_value().to_owned(),
        merge_policy: config.merge_policy,
        fixed_speaker,
    }
}

/// The metadata of a mixed session before it runs: the microphone carries
/// the fixed speaker's name, the application keeps the service's speakers,
/// and no outcome is recorded yet.
pub fn build_mixed_capture_metadata(
    runtime_config: &Config,
    application_bundle_id: &str,
    microphone_speaker: &str,
) -> (r: MixedCaptureSessionMetadata)
    requires
        durations_fit(*runtime_config),
    ensures
        r.mode@ == "mixed"@,
        r.application_bundle_id@ == application_bundle_id@,
        r.microphone_speaker@ == microphone_speaker@,
        r.source_outcomes@.len() == 0,
        r.source_settings@.len() == 2,
        records_settings(
            r.source_settings@[0],
            TranscriptSource::Microphone,
            *runtime_config,
            Some(microphone_speaker@),
        ),
        records_settings(r.source_settings@[1], TranscriptSource::Application, *runtime_config, None),
{
    let capture_config = capture_config_from_runtime_config(runtime_config);
    let mut settings: Vec<MixedCaptureSourceSettings> = Vec::new();
    settings.push(
        source_settings(
            &capture_config,
            TranscriptSource::Microphone,
            Some(microphone_speaker.to_owned()),
        ),
    );
    settings.push(source_settings(&capture_config, TranscriptSource::Application, None));
    MixedCaptureSessionMetadata {
        mode: "mixed".to_owned(),
        application_bundle_id: application_bundle_id.to_owned(),
        microphone_speaker: microphone_speaker.to_owned(),
        source_settings: settings,
        source_outcomes: Vec::new(),
    }
}

/// Files the store's answer for the next named speaker: a sample is
/// appended to those read so far; an error is returned unchanged and
/// leaves them as they were.
pub fn file_read_sample(
    samples: &mut Vec<KnownSpeakerSample>,
    read: Result<KnownSpeakerSample, SpeakerStoreError>,
) -> (r: Result<(), SpeakerStoreError>)
    ensures
        read matches Ok(sample) ==> r is Ok && final(samples)@ == old(samples)@.push(sample),
        read matches Err(e) ==> r == Err::<(), SpeakerStoreError>(e) && final(samples)@ == old(samples)@,
{
    match read {
        Ok(sample) => {
            samples.push(sample);
            Ok(())
        },
        Err(e) => Err(e),
    }
}

/// Reads the named speakers' samples in the order given, filing each
/// answer with `file_read_sample` and stopping at the first error, which
/// is returned unchanged.
pub fn load_known_speaker_samples<S: SpeakerStore>(
    speaker_store: &S,
    speaker_names: &[String],
) -> (r: Result<Vec<KnownSpeakerSample>, SpeakerStoreError>)
    ensures
        match r {
            Ok(samples) => {
                &&& samples@.len() == speaker_names@.len()
                &&& forall|i: int|
                    0 <= i < speaker_names@.len() ==> speaker_store.stored_sample(
                        (#[trigger] speaker_names@[i])@,
                    ) == Ok::<KnownSpeakerSample, SpeakerStoreError>(samples@[i])
            },
            Err(e) => exists|i: int|
                0 <= i < speaker_names@.len() && speaker_store.stored_sample(
                    (#[trigger] speaker_names@[i])@,
                ) == Err::<KnownSpeakerSample, SpeakerStoreError>(e) && forall|k: int|
                    0 <= k < i ==> speaker_store.stored_sample(speaker_names@[k]@) is Ok,
        },
{
    let mut samples: Vec<KnownSpeakerSample> = Vec::new();
    let mut i: usize = 0;
    while i < speaker_names.len()
        invariant
            i <= speaker_names@.len(),
            samples@.len() == i,
            forall|k: int|
                0 <= k < i ==> speaker_store.stored_sample((#[trigger] speaker_names@[k])@)
                    == Ok::<KnownSpeakerSample, SpeakerStoreError>(samples@[k]),
        decreases speaker_names.len() - i,
    {
        let read = speaker_store.read_sample(speaker_names[i].as_str());
        let ghost before = samples@;
        match file_read_sample(&mut samples, read) {
            Ok(()) => {},
            Err(e) => {
                proof {
                    assert(speaker_store.stored_sample(speaker_names@[i as int]@) == Err::<
                        KnownSpeakerSample,
                        SpeakerStoreError,
                    >(e));
                    assert forall|k: int| 0 <= k < i implies speaker_store.stored_sample(
                        speaker_names@[k]@,
                    ) is Ok by {
                        assert(speaker_store.stored_sample(speaker_names@[k]@)
                            == Ok::<KnownSpeakerSample, SpeakerStoreError>(samples@[k]));
                    }
                }
                return Err(e);
            },
        }
        proof {
            assert forall|k: int| 0 <= k < i + 1 implies speaker_store.stored_sample(
                (#[trigger] speaker_names@[k])@,
            ) == Ok::<KnownSpeakerSample, SpeakerStoreError>(samples@[k]) by {
                if k < i {
                    assert(samples@[k] == before[k]);
                }
            }
        }
        i = i + 1;
    }
    Ok(samples)
}

} // verus!
