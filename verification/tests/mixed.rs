use diarize_log::capture::CaptureRunResult;
use diarize_log::domain::{
    Binary64, DiarizedTranscript, MergedTranscriptSegment, SourcedTranscriptSegment, TranscriptMergePolicy,
    TranscriptSegment, TranscriptSource,
};
use diarize_log::mixed::{
    finalize_mixed_capture, merge_source_segments, run_mixed_capture, MixedCaptureError,
    MixedCaptureSourceFailure, MixedSourceRun, SourceMergedSegments,
};
use diarize_log::ports::{
    CaptureStoreError, MixedCaptureSessionMetadata, MixedCaptureSourceOutcome,
    MixedCaptureSourceSettings, MixedCaptureSourceStatus, MixedCaptureStore,
};
use std::cell::RefCell;

#[derive(Debug, Default)]
struct FakeMixedCaptureStore {
    observed_metadata: RefCell<Vec<MixedCaptureSessionMetadata>>,
    observed_final_segments: RefCell<Vec<SourcedTranscriptSegment>>,
}

impl MixedCaptureStore for FakeMixedCaptureStore {
    fn persist_mixed_session_metadata(&mut self, metadata: &MixedCaptureSessionMetadata) -> Result<(), CaptureStoreError> {
        self.observed_metadata.borrow_mut().push(metadata.clone());
        Ok(())
    }

    fn persist_final_segments(&mut self, segments: &[SourcedTranscriptSegment]) -> Result<(), CaptureStoreError> {
        self.observed_final_segments.borrow_mut().extend_from_slice(segments);
        Ok(())
    }
}

fn settings(source: TranscriptSource, fixed_speaker: Option<String>) -> MixedCaptureSourceSettings {
    MixedCaptureSourceSettings {
        source,
        recording_duration_ms: 30_000,
        capture_duration_ms: 15_000,
        capture_overlap_ms: 1_000,
        capture_silence_threshold_dbfs: Binary64 { bits: (-42.0f64).to_bits() },
        capture_silence_min_duration_ms: 700,
        capture_tail_silence_min_duration_ms: 250,
        transcription_model: "model".to_string(),
        transcription_language: "ja".to_string(),
        response_format: "json".to_string(),
        chunking_strategy: "auto".to_string(),
        merge_policy: TranscriptMergePolicy::recommended(),
        fixed_speaker,
    }
}

fn sample_metadata() -> MixedCaptureSessionMetadata {
    MixedCaptureSessionMetadata {
        mode: "mixed".to_string(),
        application_bundle_id: "us.zoom.xos".to_string(),
        microphone_speaker: "me".to_string(),
        source_settings: vec![
            settings(TranscriptSource::Microphone, Some("me".to_string())),
            settings(TranscriptSource::Application, None),
        ],
        source_outcomes: Vec::new(),
    }
}

fn sample_capture_result(
    started_at_unix_ms: u64,
    speaker: &str,
    start_ms: u64,
    end_ms: u64,
    text: &str,
) -> CaptureRunResult {
    CaptureRunResult {
        started_at_unix_ms,
        transcripts: vec![DiarizedTranscript {
            text: text.to_string(),
            segments: vec![TranscriptSegment {
                speaker: speaker.to_string(),
                start_ms,
                end_ms,
                text: text.to_string(),
            }],
        }],
        merged_segments: vec![MergedTranscriptSegment {
            speaker: speaker.to_string(),
            start_ms,
            end_ms,
            text: text.to_string(),
        }],
        transcription_failures: Vec::new(),
    }
}

#[test]
fn merges_source_segments_by_absolute_time() {
    let merged = merge_source_segments(&[
        SourceMergedSegments {
            source: TranscriptSource::Application,
            started_at_unix_ms: 2_000,
            segments: vec![MergedTranscriptSegment {
                speaker: "alice".to_string(),
                start_ms: 100,
                end_ms: 300,
                text: "app".to_string(),
            }],
        },
        SourceMergedSegments {
            source: TranscriptSource::Microphone,
            started_at_unix_ms: 1_000,
            segments: vec![MergedTranscriptSegment {
                speaker: "me".to_string(),
                start_ms: 900,
                end_ms: 1_200,
                text: "mic".to_string(),
            }],
        },
    ]);

    assert_eq!(
        merged,
        vec![
            SourcedTranscriptSegment {
                source: TranscriptSource::Microphone,
                speaker: "me".to_string(),
                start_ms: 1_900,
                end_ms: 2_200,
                text: "mic".to_string(),
            },
            SourcedTranscriptSegment {
                source: TranscriptSource::Application,
                speaker: "alice".to_string(),
                start_ms: 2_100,
                end_ms: 2_300,
                text: "app".to_string(),
            },
        ]
    );
}

#[test]
fn keeps_both_sources_and_uses_deterministic_tie_breaker() {
    let merged = merge_source_segments(&[
        SourceMergedSegments {
            source: TranscriptSource::Application,
            started_at_unix_ms: 1_000,
            segments: vec![MergedTranscriptSegment {
                speaker: "alice".to_string(),
                start_ms: 100,
                end_ms: 200,
                text: "same".to_string(),
            }],
        },
        SourceMergedSegments {
            source: TranscriptSource::Microphone,
            started_at_unix_ms: 1_000,
            segments: vec![MergedTranscriptSegment {
                speaker: "me".to_string(),
                start_ms: 100,
                end_ms: 200,
                text: "same".to_string(),
            }],
        },
    ]);

    assert_eq!(merged.len(), 2);
    assert_eq!(merged[0].source, TranscriptSource::Microphone);
    assert_eq!(merged[1].source, TranscriptSource::Application);
}

#[test]
fn persists_partial_results_when_one_source_fails() {
    let mut store = FakeMixedCaptureStore::default();

    let result = finalize_mixed_capture(
        &mut store,
        sample_metadata(),
        vec![
            MixedSourceRun {
                source: TranscriptSource::Microphone,
                started_at_unix_ms: 1_000,
                result: Ok(sample_capture_result(1_000, "me", 0, 100, "hello")),
            },
            MixedSourceRun {
                source: TranscriptSource::Application,
                started_at_unix_ms: 1_050,
                result: Err("capture failed".to_string()),
            },
        ],
    )
    .unwrap();

    assert_eq!(
        result.source_outcomes,
        vec![
            MixedCaptureSourceOutcome {
                source: TranscriptSource::Microphone,
                started_at_unix_ms: 1_000,
                status: MixedCaptureSourceStatus::Succeeded,
                transcription_failure_count: 0,
                error_message: None,
            },
            MixedCaptureSourceOutcome {
                source: TranscriptSource::Application,
                started_at_unix_ms: 1_050,
                status: MixedCaptureSourceStatus::Failed,
                transcription_failure_count: 0,
                error_message: Some("capture failed".to_string()),
            },
        ]
    );
    assert_eq!(store.observed_metadata.borrow().len(), 1);
    assert_eq!(store.observed_final_segments.borrow().len(), 1);
    assert!(!result.completed_without_failures());
}

#[test]
fn uses_recording_started_time_from_capture_result_for_final_merge() {
    let mut store = FakeMixedCaptureStore::default();

    let result = finalize_mixed_capture(
        &mut store,
        sample_metadata(),
        vec![MixedSourceRun {
            source: TranscriptSource::Microphone,
            started_at_unix_ms: 50,
            result: Ok(CaptureRunResult {
                started_at_unix_ms: 1_000,
                transcripts: Vec::new(),
                merged_segments: vec![MergedTranscriptSegment {
                    speaker: "me".to_string(),
                    start_ms: 10,
                    end_ms: 20,
                    text: "hello".to_string(),
                }],
                transcription_failures: Vec::new(),
            }),
        }],
    )
    .unwrap();

    assert_eq!(result.final_segments[0].start_ms, 1_010);
    assert_eq!(result.source_outcomes[0].started_at_unix_ms, 1_000);
}

#[test]
fn orders_same_time_segments_by_speaker_then_text() {
    let segment = |speaker: &str, text: &str| MergedTranscriptSegment {
        speaker: speaker.to_string(),
        start_ms: 5,
        end_ms: 9,
        text: text.to_string(),
    };
    let merged = merge_source_segments(&[SourceMergedSegments {
        source: TranscriptSource::Application,
        started_at_unix_ms: 0,
        segments: vec![segment("bob", "z"), segment("alice", "b"), segment("alice", "a")],
    }]);
    let keys: Vec<(String, String)> =
        merged.iter().map(|s| (s.speaker.clone(), s.text.clone())).collect();
    assert_eq!(
        keys,
        vec![
            ("alice".to_string(), "a".to_string()),
            ("alice".to_string(), "b".to_string()),
            ("bob".to_string(), "z".to_string()),
        ]
    );
}

#[test]
fn merge_does_not_depend_on_the_order_of_sources() {
    let mic = SourceMergedSegments {
        source: TranscriptSource::Microphone,
        started_at_unix_ms: 100,
        segments: vec![MergedTranscriptSegment {
            speaker: "me".to_string(),
            start_ms: 0,
            end_ms: 50,
            text: "x".to_string(),
        }],
    };
    let app = SourceMergedSegments {
        source: TranscriptSource::Application,
        started_at_unix_ms: 90,
        segments: vec![MergedTranscriptSegment {
            speaker: "spk".to_string(),
            start_ms: 10,
            end_ms: 60,
            text: "y".to_string(),
        }],
    };
    assert_eq!(
        merge_source_segments(&[mic.clone(), app.clone()]),
        merge_source_segments(&[app, mic])
    );
}

#[test]
fn reports_each_source_when_every_source_fails() {
    let mut store = FakeMixedCaptureStore::default();
    let error = run_mixed_capture(
        &mut store,
        sample_metadata(),
        MixedSourceRun {
            source: TranscriptSource::Microphone,
            started_at_unix_ms: 1,
            result: Err("no microphone".to_string()),
        },
        MixedSourceRun {
            source: TranscriptSource::Application,
            started_at_unix_ms: 2,
            result: Err("no application".to_string()),
        },
    )
    .unwrap_err();

    assert_eq!(
        error,
        MixedCaptureError::AllSourcesFailed {
            failures: vec![
                MixedCaptureSourceFailure {
                    source: TranscriptSource::Microphone,
                    message: "no microphone".to_string(),
                },
                MixedCaptureSourceFailure {
                    source: TranscriptSource::Application,
                    message: "no application".to_string(),
                },
            ],
        }
    );
    assert_eq!(store.observed_metadata.borrow().len(), 1);
    assert_eq!(store.observed_metadata.borrow()[0].source_outcomes.len(), 2);
}

#[test]
fn returns_result_when_one_source_finishes() {
    let mut store = FakeMixedCaptureStore::default();
    let result = run_mixed_capture(
        &mut store,
        sample_metadata(),
        MixedSourceRun {
            source: TranscriptSource::Microphone,
            started_at_unix_ms: 1_000,
            result: Ok(sample_capture_result(1_000, "me", 0, 100, "hello")),
        },
        MixedSourceRun {
            source: TranscriptSource::Application,
            started_at_unix_ms: 2,
            result: Err("no application".to_string()),
        },
    )
    .unwrap();
    assert_eq!(result.final_segments.len(), 1);
    assert_eq!(result.debug_transcripts.len(), 1);
    assert_eq!(result.debug_transcripts[0].text, "hello");
}

fn merged(speaker: &str, start_ms: u64, end_ms: u64, text: &str) -> MergedTranscriptSegment {
    MergedTranscriptSegment { speaker: speaker.to_string(), start_ms, end_ms, text: text.to_string() }
}

#[test]
fn merging_in_either_source_order_gives_the_same_timeline() {
    let microphone = SourceMergedSegments {
        source: TranscriptSource::Microphone,
        started_at_unix_ms: 1_000,
        segments: vec![merged("me", 0, 500, "hello"), merged("me", 900, 1_200, "same time")],
    };
    let application = SourceMergedSegments {
        source: TranscriptSource::Application,
        started_at_unix_ms: 1_400,
        segments: vec![merged("spk_0", 500, 800, "same time"), merged("spk_1", 0, 100, "hi")],
    };
    let forward = merge_source_segments(&[microphone.clone(), application.clone()]);
    let backward = merge_source_segments(&[application, microphone]);
    assert_eq!(forward, backward);
    assert_eq!(forward.len(), 4);
    assert_eq!(forward[0].start_ms, 1_000);
    assert_eq!(forward[1].start_ms, 1_400);
    assert_eq!(forward[2].source, TranscriptSource::Microphone);
    assert_eq!(forward[3].source, TranscriptSource::Application);
}

#[test]
fn merging_three_sources_in_any_order_gives_the_same_timeline() {
    let first = SourceMergedSegments {
        source: TranscriptSource::Microphone,
        started_at_unix_ms: 1_000,
        segments: vec![merged("me", 200, 400, "late"), merged("me", 0, 100, "early")],
    };
    let second = SourceMergedSegments {
        source: TranscriptSource::Application,
        started_at_unix_ms: 1_050,
        segments: vec![merged("spk_0", 0, 50, "middle")],
    };
    let third = SourceMergedSegments {
        source: TranscriptSource::Microphone,
        started_at_unix_ms: 1_100,
        segments: vec![merged("me", 0, 100, "overlap")],
    };
    let reference = merge_source_segments(&[first.clone(), second.clone(), third.clone()]);
    let orders = [
        vec![first.clone(), third.clone(), second.clone()],
        vec![second.clone(), first.clone(), third.clone()],
        vec![second.clone(), third.clone(), first.clone()],
        vec![third.clone(), first.clone(), second.clone()],
        vec![third.clone(), second.clone(), first.clone()],
    ];
    for order in orders.iter() {
        assert_eq!(merge_source_segments(order), reference);
    }
    let starts: Vec<u64> = reference.iter().map(|s| s.start_ms).collect();
    assert_eq!(starts, vec![1_000, 1_050, 1_100, 1_200]);
    assert_eq!(reference[2].text, "overlap");
    assert_eq!(reference[3].text, "late");
}
