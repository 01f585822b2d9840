use diarize_log::capture::{
    apply_speaker_label, file_transcription, is_recoverable_transcription_error, model_for,
    plan_capture_step, record_captures, RecordingEnd, TranscriptionStep,
    run_capture, run_capture_with_clock, run_capture_with_interrupt_monitor, CaptureConfig,
    CaptureError, CaptureRunResult, CaptureStep, CaptureTranscriptionFailure, NoInterruption,
    SpeakerLabel, TRANSCRIPTION_MODEL,
};
use diarize_log::merge::{longest_seam, OverlapMerger};
use diarize_log::domain::{
    MergeAuditOutcome, MergeOverlapRangeSnapshot, MergeOverlapTextSource,
    Binary64, CaptureBoundary, CaptureBoundaryReason, CaptureMerger, CapturePolicy, CaptureRange,
    CapturedTranscript, ChunkingStrategy, DiarizedTranscript, KnownSpeakerSample, MergeAuditEntry,
    MergeBatch, MergedTranscriptSegment, RecordedAudio, ResponseFormat, SilenceRequestPolicy,
    TranscriptMergePolicy, TranscriptSegment, TranscriptionLanguage,
};
use diarize_log::ports::{
    CaptureSessionMetadata, CaptureStore, CaptureStoreError, InterruptMonitor, Logger, Recorder,
    RecorderError, RecordingSession, RecordingWaitOutcome, Transcriber, TranscriberError,
    TranscriptionRequest,
};
use std::cell::RefCell;
use std::collections::VecDeque;
use std::io;
use std::rc::Rc;

const TEST_TRANSCRIPTION_LANGUAGE: &str = "ja";

#[derive(Debug, Clone, PartialEq, Eq)]
struct LoggedMessage {
    level: &'static str,
    message: String,
}

#[derive(Clone, Default)]
struct SpyLogger {
    messages: Rc<RefCell<Vec<LoggedMessage>>>,
}

impl SpyLogger {
    fn entries(&self) -> Vec<LoggedMessage> {
        self.messages.borrow().clone()
    }
}

impl Logger for SpyLogger {
    fn info(&self, message: &str) -> io::Result<()> {
        self.messages.borrow_mut().push(LoggedMessage { level: "info", message: message.to_string() });
        Ok(())
    }

    fn debug(&self, message: &str) -> io::Result<()> {
        self.messages.borrow_mut().push(LoggedMessage { level: "debug", message: message.to_string() });
        Ok(())
    }
}

fn info(message: &str) -> LoggedMessage {
    LoggedMessage { level: "info", message: message.to_string() }
}

#[derive(Debug, Clone, PartialEq, Eq)]
struct CapturedRequest {
    wav_bytes: Vec<u8>,
    content_type: &'static str,
    speaker_samples: Vec<KnownSpeakerSample>,
    model: &'static str,
    language: Option<String>,
    response_format: ResponseFormat,
    chunking_strategy: ChunkingStrategy,
}

#[derive(Debug, Default)]
struct RecordingObservation {
    start_call_count: u64,
    waited_until: Vec<u64>,
    captured_windows: Vec<(u64, u64)>,
    dropped_session_count: u64,
}

struct FakeRecordingSession {
    observation: Rc<RefCell<RecordingObservation>>,
    audios: VecDeque<RecordedAudio>,
    wait_outcomes: VecDeque<RecordingWaitOutcome>,
    boundary_outcomes: VecDeque<CaptureBoundary>,
    recorded_duration_ms: u64,
}

impl FakeRecordingSession {
    fn new(observation: Rc<RefCell<RecordingObservation>>, audios: Vec<RecordedAudio>) -> Self {
        Self {
            observation,
            audios: VecDeque::from(audios),
            wait_outcomes: VecDeque::new(),
            boundary_outcomes: VecDeque::new(),
            recorded_duration_ms: 0,
        }
    }

    fn with_wait_outcomes(
        observation: Rc<RefCell<RecordingObservation>>,
        audios: Vec<RecordedAudio>,
        wait_outcomes: Vec<RecordingWaitOutcome>,
        recorded_duration_ms: u64,
    ) -> Self {
        Self {
            observation,
            audios: VecDeque::from(audios),
            wait_outcomes: VecDeque::from(wait_outcomes),
            boundary_outcomes: VecDeque::new(),
            recorded_duration_ms,
        }
    }

    fn with_capture_boundaries(
        observation: Rc<RefCell<RecordingObservation>>,
        audios: Vec<RecordedAudio>,
        boundary_outcomes: Vec<CaptureBoundary>,
    ) -> Self {
        Self {
            observation,
            audios: VecDeque::from(audios),
            wait_outcomes: VecDeque::new(),
            boundary_outcomes: VecDeque::from(boundary_outcomes),
            recorded_duration_ms: 0,
        }
    }
}

impl Drop for FakeRecordingSession {
    fn drop(&mut self) {
        self.observation.borrow_mut().dropped_session_count += 1;
    }
}

impl RecordingSession for FakeRecordingSession {
    fn wait_until(
        &mut self,
        offset_ms: u64,
        _interrupt_monitor: &dyn InterruptMonitor,
    ) -> Result<RecordingWaitOutcome, RecorderError> {
        self.observation.borrow_mut().waited_until.push(offset_ms);
        Ok(self.wait_outcomes.pop_front().unwrap_or(RecordingWaitOutcome::ReachedTarget))
    }

    fn wait_for_capture_boundary(
        &mut self,
        capture_start_offset_ms: u64,
        capture_policy: &CapturePolicy,
        _silence_request_policy: &SilenceRequestPolicy,
        _interrupt_monitor: &dyn InterruptMonitor,
    ) -> Result<CaptureBoundary, RecorderError> {
        let max_capture_duration = (capture_policy.recording_duration_ms - capture_start_offset_ms)
            .min(capture_policy.capture_duration_ms);
        self.observation
            .borrow_mut()
            .waited_until
            .push(capture_start_offset_ms + max_capture_duration);
        if let Some(boundary) = self.boundary_outcomes.pop_front() {
            return Ok(boundary);
        }
        match self.wait_outcomes.pop_front().unwrap_or(RecordingWaitOutcome::ReachedTarget) {
            RecordingWaitOutcome::ReachedTarget => Ok(CaptureBoundary {
                duration_ms: max_capture_duration,
                reason: CaptureBoundaryReason::MaxDuration,
            }),
            RecordingWaitOutcome::Interrupted => Ok(CaptureBoundary {
                duration_ms: self.recorded_duration_ms.saturating_sub(capture_start_offset_ms),
                reason: CaptureBoundaryReason::Interrupted,
            }),
        }
    }

    fn recorded_duration_ms(&mut self) -> Result<u64, RecorderError> {
        Ok(self.recorded_duration_ms)
    }

    fn capture_wav(&mut self, start_offset_ms: u64, duration_ms: u64) -> Result<RecordedAudio, RecorderError> {
        self.observation.borrow_mut().captured_windows.push((start_offset_ms, duration_ms));
        self.audios
            .pop_front()
            .ok_or_else(|| RecorderError::EncodeWav("missing fake audio".to_string()))
    }
}

struct FakeRecorder {
    observation: Rc<RefCell<RecordingObservation>>,
    session: Option<FakeRecordingSession>,
}

impl Recorder for FakeRecorder {
    type Session = FakeRecordingSession;

    fn start_recording(&mut self) -> Result<Self::Session, RecorderError> {
        self.observation.borrow_mut().start_call_count += 1;
        self.session
            .take()
            .ok_or_else(|| RecorderError::BuildStream("missing fake session".to_string()))
    }
}

struct FakeTranscriber {
    observed_requests: RefCell<Vec<CapturedRequest>>,
    observed_drop_counts: RefCell<Vec<u64>>,
    recording_observation: Option<Rc<RefCell<RecordingObservation>>>,
    outcomes: VecDeque<Result<DiarizedTranscript, TranscriberError>>,
}

impl FakeTranscriber {
    fn new(
        recording_observation: Option<Rc<RefCell<RecordingObservation>>>,
        outcomes: Vec<Result<DiarizedTranscript, TranscriberError>>,
    ) -> Self {
        Self {
            observed_requests: RefCell::new(Vec::new()),
            observed_drop_counts: RefCell::new(Vec::new()),
            recording_observation,
            outcomes: VecDeque::from(outcomes),
        }
    }
}

impl Transcriber for FakeTranscriber {
    fn transcribe(&mut self, request: TranscriptionRequest<'_>) -> Result<DiarizedTranscript, TranscriberError> {
        let dropped_count = self
            .recording_observation
            .as_ref()
            .map(|observation| observation.borrow().dropped_session_count)
            .unwrap_or_default();
        self.observed_drop_counts.borrow_mut().push(dropped_count);
        self.observed_requests.borrow_mut().push(CapturedRequest {
            wav_bytes: request.audio.wav_bytes.clone(),
            content_type: request.audio.content_type,
            speaker_samples: request.speaker_samples.to_vec(),
            model: request.model,
            language: request.language.map(ToString::to_string),
            response_format: request.response_format,
            chunking_strategy: request.chunking_strategy,
        });
        match self.outcomes.pop_front() {
            Some(Ok(transcript)) => Ok(transcript),
            Some(Err(error)) => Err(error),
            None => Err(TranscriberError::ParseResponseBody {
                source: "missing fake transcript".to_string(),
                body: String::new(),
            }),
        }
    }
}

struct FakeCaptureStore {
    observed_session_metadata: RefCell<Vec<CaptureSessionMetadata>>,
    observed_audios: RefCell<Vec<(u64, RecordedAudio)>>,
    observed_transcripts: RefCell<Vec<(u64, u64, DiarizedTranscript)>>,
    observed_merge_audit_entries: RefCell<Vec<MergeAuditEntry>>,
    observed_merged_segments: RefCell<Vec<MergedTranscriptSegment>>,
}

impl FakeCaptureStore {
    fn new() -> Self {
        Self {
            observed_session_metadata: RefCell::new(Vec::new()),
            observed_audios: RefCell::new(Vec::new()),
            observed_transcripts: RefCell::new(Vec::new()),
            observed_merge_audit_entries: RefCell::new(Vec::new()),
            observed_merged_segments: RefCell::new(Vec::new()),
        }
    }
}

impl CaptureStore for FakeCaptureStore {
    fn persist_session_metadata(&mut self, metadata: &CaptureSessionMetadata) -> Result<(), CaptureStoreError> {
        self.observed_session_metadata.borrow_mut().push(metadata.clone());
        Ok(())
    }

    fn persist_audio(&mut self, capture_index: u64, audio: &RecordedAudio) -> Result<(), CaptureStoreError> {
        self.observed_audios.borrow_mut().push((capture_index, audio.clone()));
        Ok(())
    }

    fn persist_transcript(
        &mut self,
        capture_index: u64,
        capture_start_ms: u64,
        transcript: &DiarizedTranscript,
    ) -> Result<(), CaptureStoreError> {
        self.observed_transcripts
            .borrow_mut()
            .push((capture_index, capture_start_ms, transcript.clone()));
        Ok(())
    }

    fn persist_merged_segments(&mut self, segments: &[MergedTranscriptSegment]) -> Result<(), CaptureStoreError> {
        self.observed_merged_segments.borrow_mut().extend_from_slice(segments);
        Ok(())
    }

    fn persist_merge_audit_entries(&mut self, entries: &[MergeAuditEntry]) -> Result<(), CaptureStoreError> {
        self.observed_merge_audit_entries.borrow_mut().extend_from_slice(entries);
        Ok(())
    }
}

/// A merger for captures that do not overlap in speech: every capture's
/// segments are final as soon as it arrives.
#[derive(Default)]
struct AppendingMerger {
    pushed: Vec<u64>,
}

impl CaptureMerger for AppendingMerger {
    fn push_capture(&mut self, capture: CapturedTranscript) -> MergeBatch {
        self.pushed.push(capture.capture_index);
        MergeBatch { finalized_segments: capture.segments, audit_entries: Vec::new() }
    }

    fn finish(&mut self) -> Vec<MergedTranscriptSegment> {
        Vec::new()
    }
}

fn sample_audio() -> RecordedAudio {
    RecordedAudio { wav_bytes: vec![0x52, 0x49, 0x46, 0x46], content_type: "audio/wav" }
}

fn sample_known_speaker() -> KnownSpeakerSample {
    KnownSpeakerSample {
        speaker_name: "suzuki".to_string(),
        audio: RecordedAudio { wav_bytes: vec![0x10, 0x20, 0x30], content_type: "audio/wav" },
    }
}

fn sample_transcript() -> DiarizedTranscript {
    DiarizedTranscript {
        text: "こんにちは 今日はよろしくお願いします".to_string(),
        segments: vec![
            TranscriptSegment {
                speaker: "spk_0".to_string(),
                start_ms: 0,
                end_ms: 900,
                text: "こんにちは".to_string(),
            },
            TranscriptSegment {
                speaker: "spk_1".to_string(),
                start_ms: 950,
                end_ms: 2_300,
                text: "今日はよろしくお願いします".to_string(),
            },
        ],
    }
}

fn secs(s: u64) -> u64 {
    s * 1_000
}

fn capture_config(recording_ms: u64, capture_ms: u64, overlap_ms: u64) -> CaptureConfig {
    CaptureConfig::new(
        recording_ms,
        capture_ms,
        overlap_ms,
        TranscriptionLanguage::Fixed(TEST_TRANSCRIPTION_LANGUAGE.to_string()),
    )
}

#[test]
fn returns_recording_started_unix_time_in_result() {
    let config = capture_config(secs(10), secs(10), 0);
    let observation = Rc::new(RefCell::new(RecordingObservation::default()));
    let mut recorder = FakeRecorder {
        observation: Rc::clone(&observation),
        session: Some(FakeRecordingSession::new(observation, vec![sample_audio()])),
    };
    let mut transcriber = FakeTranscriber::new(None, vec![Ok(sample_transcript())]);
    let mut capture_store = FakeCaptureStore::new();
    let mut merger = AppendingMerger::default();
    let logger = SpyLogger::default();

    let result = run_capture_with_clock(
        &config,
        &[],
        &SpeakerLabel::KeepOriginal,
        &logger,
        &mut recorder,
        &mut transcriber,
        &mut capture_store,
        &mut merger,
        &NoInterruption,
        || 1_234_567,
    )
    .unwrap();

    assert_eq!(result.started_at_unix_ms, 1_234_567);
}

#[test]
fn run_records_incremental_captures_with_overlap_and_requests_transcription() {
    let config = capture_config(secs(360), secs(180), secs(15));
    let audio1 = sample_audio();
    let audio2 = RecordedAudio { wav_bytes: vec![0x01, 0x02], content_type: "audio/wav" };
    let audio3 = RecordedAudio { wav_bytes: vec![0x03, 0x04], content_type: "audio/wav" };
    let transcript = sample_transcript();
    let observation = Rc::new(RefCell::new(RecordingObservation::default()));
    let mut recorder = FakeRecorder {
        observation: Rc::clone(&observation),
        session: Some(FakeRecordingSession::new(
            Rc::clone(&observation),
            vec![audio1.clone(), audio2.clone(), audio3.clone()],
        )),
    };
    let mut transcriber = FakeTranscriber::new(
        Some(Rc::clone(&observation)),
        vec![Ok(transcript.clone()), Ok(transcript.clone()), Ok(transcript.clone())],
    );
    let mut capture_store = FakeCaptureStore::new();
    let mut merger = AppendingMerger::default();
    let logger = SpyLogger::default();

    run_capture(
        &config,
        &[],
        &SpeakerLabel::KeepOriginal,
        &logger,
        &mut recorder,
        &mut transcriber,
        &mut capture_store,
        &mut merger,
    )
    .unwrap();
    assert_eq!(observation.borrow().start_call_count, 1);
    assert_eq!(observation.borrow().waited_until, vec![secs(180), secs(345), secs(360)]);
    assert_eq!(
        observation.borrow().captured_windows,
        vec![(secs(0), secs(180)), (secs(165), secs(180)), (secs(330), secs(30))]
    );
    let expected = |audio: RecordedAudio| CapturedRequest {
        wav_bytes: audio.wav_bytes,
        content_type: "audio/wav",
        speaker_samples: Vec::new(),
        model: TRANSCRIPTION_MODEL,
        language: Some(TEST_TRANSCRIPTION_LANGUAGE.to_string()),
        response_format: ResponseFormat::DiarizedJson,
        chunking_strategy: ChunkingStrategy::Auto,
    };
    assert_eq!(
        *transcriber.observed_requests.borrow(),
        vec![expected(audio1), expected(audio2), expected(audio3)]
    );
}

#[test]
fn starts_next_capture_without_overlap_after_silence_boundary() {
    let config = capture_config(secs(330), secs(180), secs(15));
    let observation = Rc::new(RefCell::new(RecordingObservation::default()));
    let mut recorder = FakeRecorder {
        observation: Rc::clone(&observation),
        session: Some(FakeRecordingSession::with_capture_boundaries(
            Rc::clone(&observation),
            vec![sample_audio(), sample_audio(), sample_audio()],
            vec![
                CaptureBoundary { duration_ms: secs(150), reason: CaptureBoundaryReason::Silence },
                CaptureBoundary { duration_ms: secs(180), reason: CaptureBoundaryReason::MaxDuration },
                CaptureBoundary { duration_ms: secs(15), reason: CaptureBoundaryReason::MaxDuration },
            ],
        )),
    };
    let mut transcriber = FakeTranscriber::new(
        Some(Rc::clone(&observation)),
        vec![Ok(sample_transcript()), Ok(sample_transcript()), Ok(sample_transcript())],
    );
    let mut capture_store = FakeCaptureStore::new();
    let mut merger = AppendingMerger::default();
    let logger = SpyLogger::default();

    run_capture(
        &config,
        &[],
        &SpeakerLabel::KeepOriginal,
        &logger,
        &mut recorder,
        &mut transcriber,
        &mut capture_store,
        &mut merger,
    )
    .unwrap();

    assert_eq!(
        observation.borrow().captured_windows,
        vec![(secs(0), secs(150)), (secs(150), secs(180)), (secs(315), secs(15))]
    );
}

#[test]
fn starts_next_capture_with_overlap_after_max_duration_boundary() {
    let config = capture_config(secs(345), secs(180), secs(15));
    let observation = Rc::new(RefCell::new(RecordingObservation::default()));
    let mut recorder = FakeRecorder {
        observation: Rc::clone(&observation),
        session: Some(FakeRecordingSession::with_capture_boundaries(
            Rc::clone(&observation),
            vec![sample_audio(), sample_audio(), sample_audio()],
            vec![
                CaptureBoundary { duration_ms: secs(180), reason: CaptureBoundaryReason::MaxDuration },
                CaptureBoundary { duration_ms: secs(180), reason: CaptureBoundaryReason::MaxDuration },
                CaptureBoundary { duration_ms: secs(15), reason: CaptureBoundaryReason::MaxDuration },
            ],
        )),
    };
    let mut transcriber = FakeTranscriber::new(
        Some(Rc::clone(&observation)),
        vec![Ok(sample_transcript()), Ok(sample_transcript()), Ok(sample_transcript())],
    );
    let mut capture_store = FakeCaptureStore::new();
    let mut merger = AppendingMerger::default();
    let logger = SpyLogger::default();

    run_capture(
        &config,
        &[],
        &SpeakerLabel::KeepOriginal,
        &logger,
        &mut recorder,
        &mut transcriber,
        &mut capture_store,
        &mut merger,
    )
    .unwrap();

    assert_eq!(
        observation.borrow().captured_windows,
        vec![(secs(0), secs(180)), (secs(165), secs(180)), (secs(330), secs(15))]
    );
}

fn two_capture_run(
    config: &CaptureConfig,
    speaker_samples: &[KnownSpeakerSample],
) -> FakeTranscriber {
    let observation = Rc::new(RefCell::new(RecordingObservation::default()));
    let mut recorder = FakeRecorder {
        observation: Rc::clone(&observation),
        session: Some(FakeRecordingSession::new(
            Rc::clone(&observation),
            vec![sample_audio(), sample_audio()],
        )),
    };
    let mut transcriber = FakeTranscriber::new(
        Some(Rc::clone(&observation)),
        vec![Ok(sample_transcript()), Ok(sample_transcript())],
    );
    let mut capture_store = FakeCaptureStore::new();
    let mut merger = AppendingMerger::default();
    let logger = SpyLogger::default();
    run_capture(
        config,
        speaker_samples,
        &SpeakerLabel::KeepOriginal,
        &logger,
        &mut recorder,
        &mut transcriber,
        &mut capture_store,
        &mut merger,
    )
    .unwrap();
    transcriber
}

#[test]
fn run_attaches_known_speaker_samples_to_each_transcription_request() {
    let config = capture_config(secs(40), secs(30), secs(10));
    let speaker_sample = sample_known_speaker();

    let transcriber = two_capture_run(&config, std::slice::from_ref(&speaker_sample));

    assert_eq!(
        transcriber
            .observed_requests
            .borrow()
            .iter()
            .map(|request| request.speaker_samples.clone())
            .collect::<Vec<_>>(),
        vec![vec![speaker_sample.clone()], vec![speaker_sample]]
    );
}

#[test]
fn passes_transcription_language_to_each_request() {
    let mut config = capture_config(secs(40), secs(30), secs(10));
    config.transcription_language = TranscriptionLanguage::Fixed("en".to_string());

    let transcriber = two_capture_run(&config, &[]);

    assert_eq!(
        transcriber
            .observed_requests
            .borrow()
            .iter()
            .map(|request| request.language.clone())
            .collect::<Vec<_>>(),
        vec![Some("en".to_string()), Some("en".to_string())]
    );
}

#[test]
fn omits_transcription_language_from_each_request_in_auto_mode() {
    let mut config = capture_config(secs(40), secs(30), secs(10));
    config.transcription_language = TranscriptionLanguage::Auto;

    let transcriber = two_capture_run(&config, &[]);

    assert_eq!(
        transcriber
            .observed_requests
            .borrow()
            .iter()
            .map(|request| request.language.clone())
            .collect::<Vec<_>>(),
        vec![None, None]
    );
}

#[test]
fn run_returns_transcription_results_to_caller() {
    let config = capture_config(secs(40), secs(30), secs(18));
    let transcript1 = sample_transcript();
    let transcript2 = DiarizedTranscript {
        text: "別の capture".to_string(),
        segments: vec![TranscriptSegment {
            speaker: "spk_0".to_string(),
            start_ms: 0,
            end_ms: 500,
            text: "別の capture".to_string(),
        }],
    };
    let observation = Rc::new(RefCell::new(RecordingObservation::default()));
    let mut recorder = FakeRecorder {
        observation: Rc::clone(&observation),
        session: Some(FakeRecordingSession::new(
            Rc::clone(&observation),
            vec![sample_audio(), sample_audio()],
        )),
    };
    let mut transcriber = FakeTranscriber::new(
        Some(Rc::clone(&observation)),
        vec![Ok(transcript1.clone()), Ok(transcript2.clone())],
    );
    let mut capture_store = FakeCaptureStore::new();
    let mut merger = AppendingMerger::default();
    let logger = SpyLogger::default();

    let returned = run_capture(
        &config,
        &[],
        &SpeakerLabel::KeepOriginal,
        &logger,
        &mut recorder,
        &mut transcriber,
        &mut capture_store,
        &mut merger,
    )
    .unwrap();

    assert_eq!(
        returned,
        CaptureRunResult {
            started_at_unix_ms: returned.started_at_unix_ms,
            transcripts: vec![transcript1, transcript2],
            merged_segments: vec![
                MergedTranscriptSegment {
                    speaker: "spk_0".to_string(),
                    start_ms: 0,
                    end_ms: 900,
                    text: "こんにちは".to_string(),
                },
                MergedTranscriptSegment {
                    speaker: "spk_1".to_string(),
                    start_ms: 950,
                    end_ms: 2_300,
                    text: "今日はよろしくお願いします".to_string(),
                },
                MergedTranscriptSegment {
                    speaker: "spk_0".to_string(),
                    start_ms: 12_000,
                    end_ms: 12_500,
                    text: "別の capture".to_string(),
                },
            ],
            transcription_failures: Vec::new(),
        }
    );
}

#[test]
fn run_persists_each_capture_via_capture_store() {
    let config = capture_config(secs(40), secs(30), secs(10));
    let audio1 = sample_audio();
    let audio2 = RecordedAudio { wav_bytes: vec![0x05, 0x06], content_type: "audio/wav" };
    let transcript1 = sample_transcript();
    let transcript2 = DiarizedTranscript {
        text: "二つ目".to_string(),
        segments: vec![TranscriptSegment {
            speaker: "spk_1".to_string(),
            start_ms: 0,
            end_ms: 600,
            text: "二つ目".to_string(),
        }],
    };
    let observation = Rc::new(RefCell::new(RecordingObservation::default()));
    let mut recorder = FakeRecorder {
        observation: Rc::clone(&observation),
        session: Some(FakeRecordingSession::new(
            Rc::clone(&observation),
            vec![audio1.clone(), audio2.clone()],
        )),
    };
    let mut transcriber = FakeTranscriber::new(
        Some(Rc::clone(&observation)),
        vec![Ok(transcript1.clone()), Ok(transcript2.clone())],
    );
    let mut capture_store = FakeCaptureStore::new();
    let mut merger = AppendingMerger::default();
    let logger = SpyLogger::default();

    run_capture(
        &config,
        &[],
        &SpeakerLabel::KeepOriginal,
        &logger,
        &mut recorder,
        &mut transcriber,
        &mut capture_store,
        &mut merger,
    )
    .unwrap();

    assert_eq!(*capture_store.observed_audios.borrow(), vec![(1, audio1), (2, audio2)]);
    assert_eq!(
        *capture_store.observed_transcripts.borrow(),
        vec![(1, 0, transcript1), (2, 20_000, transcript2)]
    );
}

#[test]
fn continues_after_recoverable_transcription_failure_and_records_it_in_result() {
    let config = capture_config(secs(40), secs(30), secs(10));
    let audio1 = sample_audio();
    let audio2 = RecordedAudio { wav_bytes: vec![0x05, 0x06], content_type: "audio/wav" };
    let success_transcript = sample_transcript();
    let observation = Rc::new(RefCell::new(RecordingObservation::default()));
    let mut recorder = FakeRecorder {
        observation: Rc::clone(&observation),
        session: Some(FakeRecordingSession::new(
            Rc::clone(&observation),
            vec![audio1.clone(), audio2.clone()],
        )),
    };
    let mut transcriber = FakeTranscriber::new(
        Some(Rc::clone(&observation)),
        vec![
            Err(TranscriberError::SendRequest("simulated timeout".to_string())),
            Ok(success_transcript.clone()),
        ],
    );
    let mut capture_store = FakeCaptureStore::new();
    let mut merger = AppendingMerger::default();
    let logger = SpyLogger::default();

    let result = run_capture(
        &config,
        &[],
        &SpeakerLabel::KeepOriginal,
        &logger,
        &mut recorder,
        &mut transcriber,
        &mut capture_store,
        &mut merger,
    )
    .unwrap();

    assert_eq!(*capture_store.observed_audios.borrow(), vec![(1, audio1), (2, audio2)]);
    assert_eq!(
        *capture_store.observed_transcripts.borrow(),
        vec![(2, 20_000, success_transcript.clone())]
    );
    assert_eq!(
        result,
        CaptureRunResult {
            started_at_unix_ms: result.started_at_unix_ms,
            transcripts: vec![success_transcript],
            merged_segments: vec![
                MergedTranscriptSegment {
                    speaker: "spk_0".to_string(),
                    start_ms: 20_000,
                    end_ms: 20_900,
                    text: "こんにちは".to_string(),
                },
                MergedTranscriptSegment {
                    speaker: "spk_1".to_string(),
                    start_ms: 20_950,
                    end_ms: 22_300,
                    text: "今日はよろしくお願いします".to_string(),
                },
            ],
            transcription_failures: vec![CaptureTranscriptionFailure {
                capture_index: 1,
                capture_start_ms: 0,
                message: "failed to send transcription request: simulated timeout".to_string(),
            }],
        }
    );
    assert_eq!(
        logger.entries(),
        vec![
            info("recording started"),
            info("transcription request sent for capture 1"),
            info(
                "transcription failed for capture 1, continuing: failed to send transcription request: simulated timeout"
            ),
            info("recording finished"),
            info("transcription request sent for capture 2"),
            info("transcription response received for capture 2"),
            info("capture run completed with partial transcription failures: succeeded=1 failed=1 total=2"),
        ]
    );
}

#[test]
fn finalizes_recorded_audio_when_interrupted_while_waiting_for_next_capture() {
    let config = capture_config(secs(360), secs(180), secs(15));
    let audio1 = sample_audio();
    let audio2 = RecordedAudio { wav_bytes: vec![0x09, 0x0a], content_type: "audio/wav" };
    let transcript1 = sample_transcript();
    let transcript2 = DiarizedTranscript {
        text: "途中終了".to_string(),
        segments: vec![TranscriptSegment {
            speaker: "spk_0".to_string(),
            start_ms: 0,
            end_ms: 700,
            text: "途中終了".to_string(),
        }],
    };
    let observation = Rc::new(RefCell::new(RecordingObservation::default()));
    let mut recorder = FakeRecorder {
        observation: Rc::clone(&observation),
        session: Some(FakeRecordingSession::with_wait_outcomes(
            Rc::clone(&observation),
            vec![audio1.clone(), audio2.clone()],
            vec![RecordingWaitOutcome::ReachedTarget, RecordingWaitOutcome::Interrupted],
            secs(200),
        )),
    };
    let mut transcriber = FakeTranscriber::new(
        Some(Rc::clone(&observation)),
        vec![Ok(transcript1.clone()), Ok(transcript2.clone())],
    );
    let mut capture_store = FakeCaptureStore::new();
    let mut merger = AppendingMerger::default();
    let logger = SpyLogger::default();

    let result = run_capture_with_interrupt_monitor(
        &config,
        &[],
        &SpeakerLabel::KeepOriginal,
        &logger,
        &mut recorder,
        &mut transcriber,
        &mut capture_store,
        &mut merger,
        &NoInterruption,
    )
    .unwrap();

    assert_eq!(observation.borrow().waited_until, vec![secs(180), secs(345)]);
    assert_eq!(
        observation.borrow().captured_windows,
        vec![(secs(0), secs(180)), (secs(165), secs(35))]
    );
    assert_eq!(*capture_store.observed_audios.borrow(), vec![(1, audio1), (2, audio2)]);
    assert_eq!(
        *capture_store.observed_transcripts.borrow(),
        vec![(1, 0, transcript1.clone()), (2, 165_000, transcript2.clone())]
    );
    assert_eq!(*transcriber.observed_drop_counts.borrow(), vec![0, 1]);
    assert_eq!(
        result,
        CaptureRunResult {
            started_at_unix_ms: result.started_at_unix_ms,
            transcripts: vec![transcript1, transcript2],
            merged_segments: vec![
                MergedTranscriptSegment {
                    speaker: "spk_0".to_string(),
                    start_ms: 0,
                    end_ms: 900,
                    text: "こんにちは".to_string(),
                },
                MergedTranscriptSegment {
                    speaker: "spk_1".to_string(),
                    start_ms: 950,
                    end_ms: 2_300,
                    text: "今日はよろしくお願いします".to_string(),
                },
                MergedTranscriptSegment {
                    speaker: "spk_0".to_string(),
                    start_ms: 165_000,
                    end_ms: 165_700,
                    text: "途中終了".to_string(),
                },
            ],
            transcription_failures: Vec::new(),
        }
    );
    assert_eq!(
        logger.entries(),
        vec![
            info("recording started"),
            info("transcription request sent for capture 1"),
            info("transcription response received for capture 1"),
            info("interrupt received, finalizing recorded audio"),
            info("recording finished"),
            info("transcription request sent for capture 2"),
            info("transcription response received for capture 2"),
        ]
    );
}

#[test]
fn stops_on_nonrecoverable_transcription_failure() {
    let config = capture_config(secs(40), secs(30), secs(10));
    let audio1 = sample_audio();
    let observation = Rc::new(RefCell::new(RecordingObservation::default()));
    let mut recorder = FakeRecorder {
        observation: Rc::clone(&observation),
        session: Some(FakeRecordingSession::new(
            Rc::clone(&observation),
            vec![audio1.clone(), sample_audio()],
        )),
    };
    let mut transcriber = FakeTranscriber::new(
        Some(Rc::clone(&observation)),
        vec![Err(TranscriberError::ParseResponseBody {
            source: "invalid json".to_string(),
            body: "{".to_string(),
        })],
    );
    let mut capture_store = FakeCaptureStore::new();
    let mut merger = AppendingMerger::default();
    let logger = SpyLogger::default();

    let error = run_capture(
        &config,
        &[],
        &SpeakerLabel::KeepOriginal,
        &logger,
        &mut recorder,
        &mut transcriber,
        &mut capture_store,
        &mut merger,
    )
    .unwrap_err();

    assert!(matches!(error, CaptureError::Transcribe(TranscriberError::ParseResponseBody { .. })));
    assert_eq!(*capture_store.observed_audios.borrow(), vec![(1, audio1)]);
    assert!(capture_store.observed_transcripts.borrow().is_empty());
    assert_eq!(
        logger.entries(),
        vec![info("recording started"), info("transcription request sent for capture 1")]
    );
}

#[test]
fn records_normal_operation_logs_in_order() {
    let config = capture_config(secs(40), secs(30), secs(10));
    let observation = Rc::new(RefCell::new(RecordingObservation::default()));
    let mut recorder = FakeRecorder {
        observation: Rc::clone(&observation),
        session: Some(FakeRecordingSession::new(
            Rc::clone(&observation),
            vec![sample_audio(), sample_audio()],
        )),
    };
    let mut transcriber = FakeTranscriber::new(
        Some(Rc::clone(&observation)),
        vec![Ok(sample_transcript()), Ok(sample_transcript())],
    );
    let mut capture_store = FakeCaptureStore::new();
    let mut merger = AppendingMerger::default();
    let logger = SpyLogger::default();

    run_capture(
        &config,
        &[],
        &SpeakerLabel::KeepOriginal,
        &logger,
        &mut recorder,
        &mut transcriber,
        &mut capture_store,
        &mut merger,
    )
    .unwrap();

    assert_eq!(
        logger.entries(),
        vec![
            info("recording started"),
            info("transcription request sent for capture 1"),
            info("transcription response received for capture 1"),
            info("recording finished"),
            info("transcription request sent for capture 2"),
            info("transcription response received for capture 2"),
        ]
    );
}

#[test]
fn run_drops_recording_session_before_transcribing_final_capture() {
    let config = capture_config(secs(40), secs(30), secs(10));

    let transcriber = two_capture_run(&config, &[]);

    assert_eq!(*transcriber.observed_drop_counts.borrow(), vec![0, 1]);
}

#[test]
fn keeps_recording_session_until_tail_capture_is_copied() {
    let config = capture_config(secs(20), secs(10), secs(5));
    let observation = Rc::new(RefCell::new(RecordingObservation::default()));
    let mut recorder = FakeRecorder {
        observation: Rc::clone(&observation),
        session: Some(FakeRecordingSession::new(
            Rc::clone(&observation),
            vec![sample_audio(), sample_audio(), sample_audio(), sample_audio()],
        )),
    };
    let mut transcriber = FakeTranscriber::new(
        Some(Rc::clone(&observation)),
        vec![
            Ok(sample_transcript()),
            Ok(sample_transcript()),
            Ok(sample_transcript()),
            Ok(sample_transcript()),
        ],
    );
    let mut capture_store = FakeCaptureStore::new();
    let mut merger = AppendingMerger::default();
    let logger = SpyLogger::default();

    run_capture(
        &config,
        &[],
        &SpeakerLabel::KeepOriginal,
        &logger,
        &mut recorder,
        &mut transcriber,
        &mut capture_store,
        &mut merger,
    )
    .unwrap();

    assert_eq!(
        observation.borrow().captured_windows,
        vec![(secs(0), secs(10)), (secs(5), secs(10)), (secs(10), secs(10)), (secs(15), secs(5))]
    );
    assert_eq!(*transcriber.observed_drop_counts.borrow(), vec![0, 0, 0, 1]);
}

#[test]
fn replaces_segment_speaker_names_when_fixed_speaker_is_configured() {
    let config = capture_config(secs(180), secs(180), 0);
    let observation = Rc::new(RefCell::new(RecordingObservation::default()));
    let mut recorder = FakeRecorder {
        observation: Rc::clone(&observation),
        session: Some(FakeRecordingSession::new(observation, vec![sample_audio()])),
    };
    let mut transcriber = FakeTranscriber::new(None, vec![Ok(sample_transcript())]);
    let mut capture_store = FakeCaptureStore::new();
    let mut merger = AppendingMerger::default();
    let logger = SpyLogger::default();

    let result = run_capture(
        &config,
        &[],
        &SpeakerLabel::Fixed("me".to_string()),
        &logger,
        &mut recorder,
        &mut transcriber,
        &mut capture_store,
        &mut merger,
    )
    .unwrap();

    assert_eq!(
        result.merged_segments,
        vec![
            MergedTranscriptSegment {
                speaker: "me".to_string(),
                start_ms: 0,
                end_ms: 900,
                text: "こんにちは".to_string(),
            },
            MergedTranscriptSegment {
                speaker: "me".to_string(),
                start_ms: 950,
                end_ms: 2_300,
                text: "今日はよろしくお願いします".to_string(),
            },
        ]
    );
    assert_eq!(
        capture_store.observed_session_metadata.borrow()[0].fixed_speaker,
        Some("me".to_string())
    );
}

#[test]
fn records_session_metadata_before_recording() {
    let config = capture_config(secs(40), secs(30), secs(18));
    let observation = Rc::new(RefCell::new(RecordingObservation::default()));
    let mut recorder = FakeRecorder {
        observation: Rc::clone(&observation),
        session: Some(FakeRecordingSession::new(
            Rc::clone(&observation),
            vec![sample_audio(), sample_audio()],
        )),
    };
    let mut transcriber = FakeTranscriber::new(
        Some(Rc::clone(&observation)),
        vec![Ok(sample_transcript()), Ok(sample_transcript())],
    );
    let mut capture_store = FakeCaptureStore::new();
    let mut merger = AppendingMerger::default();
    let logger = SpyLogger::default();

    run_capture(
        &config,
        &[],
        &SpeakerLabel::KeepOriginal,
        &logger,
        &mut recorder,
        &mut transcriber,
        &mut capture_store,
        &mut merger,
    )
    .unwrap();

    assert_eq!(
        *capture_store.observed_session_metadata.borrow(),
        vec![CaptureSessionMetadata {
            recording_duration_ms: 40_000,
            capture_duration_ms: 30_000,
            capture_overlap_ms: 18_000,
            capture_silence_threshold_dbfs: Binary64 { bits: (-42.0f64).to_bits() },
            capture_silence_min_duration_ms: 700,
            capture_tail_silence_min_duration_ms: 250,
            transcription_model: TRANSCRIPTION_MODEL.to_string(),
            transcription_language: TEST_TRANSCRIPTION_LANGUAGE.to_string(),
            response_format: "diarized_json".to_string(),
            chunking_strategy: "auto".to_string(),
            merge_policy: TranscriptMergePolicy::recommended(),
            fixed_speaker: None,
        }]
    );
    assert_eq!(merger.pushed, vec![1, 2]);
}

#[test]
fn applies_fixed_speaker_label_to_all_segments() {
    let labeled = apply_speaker_label(sample_transcript(), &SpeakerLabel::Fixed("me".to_string()));

    assert_eq!(
        labeled.segments.iter().map(|segment| &segment.speaker).collect::<Vec<_>>(),
        vec![&"me".to_string(), &"me".to_string()]
    );
}

#[test]
fn treats_only_send_request_error_as_recoverable() {
    let config = CaptureConfig::new(
        secs(10),
        secs(10),
        0,
        TranscriptionLanguage::Fixed("ja".to_string()),
    );
    assert!(is_recoverable_transcription_error(&TranscriberError::SendRequest("timeout".to_string())));
    assert!(!is_recoverable_transcription_error(&TranscriberError::ParseResponseBody {
        source: "invalid".to_string(),
        body: "{".to_string(),
    }));
    assert_eq!(config.response_format, ResponseFormat::DiarizedJson);
    assert_eq!(config.chunking_strategy, ChunkingStrategy::Auto);
}

#[test]
fn plans_overlap_tail_after_full_limit_capture_at_recording_end() {
    let policy = CapturePolicy {
        recording_duration_ms: 20_000,
        capture_duration_ms: 10_000,
        capture_overlap_ms: 5_000,
    };
    let step = plan_capture_step(
        &policy,
        3,
        10_000,
        CaptureBoundary { duration_ms: 10_000, reason: CaptureBoundaryReason::MaxDuration },
    );
    assert_eq!(
        step,
        Some(CaptureStep {
            range: CaptureRange { capture_index: 3, start_offset_ms: 10_000, duration_ms: 10_000 },
            finish_recording: false,
            next_start_offset_ms: 15_000,
        })
    );
}

#[test]
fn plans_nothing_for_an_empty_capture() {
    let policy = CapturePolicy {
        recording_duration_ms: 20_000,
        capture_duration_ms: 10_000,
        capture_overlap_ms: 5_000,
    };
    let step = plan_capture_step(
        &policy,
        1,
        4_000,
        CaptureBoundary { duration_ms: 0, reason: CaptureBoundaryReason::Interrupted },
    );
    assert_eq!(step, None);
}

#[test]
fn interruption_ends_recording_with_the_capture_in_hand() {
    let policy = CapturePolicy {
        recording_duration_ms: 360_000,
        capture_duration_ms: 180_000,
        capture_overlap_ms: 15_000,
    };
    let step = plan_capture_step(
        &policy,
        2,
        165_000,
        CaptureBoundary { duration_ms: 35_000, reason: CaptureBoundaryReason::Interrupted },
    )
    .unwrap();
    assert!(step.finish_recording);
    assert_eq!(step.range.duration_ms, 35_000);
}

#[test]
fn never_interrupting_monitor_reports_no_interruption() {
    assert!(!NoInterruption.is_interrupt_requested());
}

#[test]
fn files_each_kind_of_transcription_answer() {
    let range = CaptureRange { capture_index: 3, start_offset_ms: 20_000, duration_ms: 10_000 };
    let transcript = DiarizedTranscript {
        text: "hi".to_string(),
        segments: vec![TranscriptSegment { speaker: "spk_0".to_string(), start_ms: 0, end_ms: 10, text: "hi".to_string() }],
    };
    match file_transcription(&range, Ok(transcript), &SpeakerLabel::Fixed("me".to_string())) {
        TranscriptionStep::Transcribed(t) => assert_eq!(t.segments[0].speaker, "me"),
        other => panic!("unexpected step: {other:?}"),
    }
    match file_transcription(&range, Err(TranscriberError::SendRequest("timeout".to_string())), &SpeakerLabel::KeepOriginal) {
        TranscriptionStep::Skipped(f) => assert_eq!(
            f,
            CaptureTranscriptionFailure {
                capture_index: 3,
                capture_start_ms: 20_000,
                message: "failed to send transcription request: timeout".to_string(),
            }
        ),
        other => panic!("unexpected step: {other:?}"),
    }
    assert!(matches!(
        file_transcription(&range, Err(TranscriberError::ReadResponseBody("eof".to_string())), &SpeakerLabel::KeepOriginal),
        TranscriptionStep::Stopped(TranscriberError::ReadResponseBody(_))
    ));
}

#[test]
fn single_speaker_sources_use_the_plain_model() {
    assert_eq!(model_for(TRANSCRIPTION_MODEL, &SpeakerLabel::Fixed("me".to_string())), "gpt-4o-transcribe");
    assert_eq!(model_for(TRANSCRIPTION_MODEL, &SpeakerLabel::KeepOriginal), "gpt-4o-transcribe-diarize");
}

fn overlapping_transcripts() -> Vec<Result<DiarizedTranscript, TranscriberError>> {
    vec![
        Ok(DiarizedTranscript {
            text: "ABCDEFGHIJKLMNOP".to_string(),
            segments: vec![TranscriptSegment {
                speaker: "spk_0".to_string(),
                start_ms: 10_000,
                end_ms: 18_000,
                text: "ABCDEFGHIJKLMNOP".to_string(),
            }],
        }),
        Ok(DiarizedTranscript {
            text: "EFGHIJKLMNOPQRST".to_string(),
            segments: vec![TranscriptSegment {
                speaker: "spk_0".to_string(),
                start_ms: 0,
                end_ms: 8_000,
                text: "EFGHIJKLMNOPQRST".to_string(),
            }],
        }),
    ]
}

#[test]
fn persists_merged_segments_after_deduplicating_overlap() {
    let config = capture_config(secs(40), secs(30), secs(18));
    let observation = Rc::new(RefCell::new(RecordingObservation::default()));
    let mut recorder = FakeRecorder {
        observation: Rc::clone(&observation),
        session: Some(FakeRecordingSession::new(Rc::clone(&observation), vec![sample_audio(), sample_audio()])),
    };
    let mut transcriber = FakeTranscriber::new(Some(Rc::clone(&observation)), overlapping_transcripts());
    let mut capture_store = FakeCaptureStore::new();
    let mut merger = OverlapMerger::new(config.merge_policy);
    let logger = SpyLogger::default();

    run_capture(
        &config,
        &[],
        &SpeakerLabel::KeepOriginal,
        &logger,
        &mut recorder,
        &mut transcriber,
        &mut capture_store,
        &mut merger,
    )
    .unwrap();

    assert_eq!(
        *capture_store.observed_merged_segments.borrow(),
        vec![
            MergedTranscriptSegment {
                speaker: "spk_0".to_string(),
                start_ms: 10_000,
                end_ms: 12_000,
                text: "ABCD".to_string(),
            },
            MergedTranscriptSegment {
                speaker: "spk_0".to_string(),
                start_ms: 12_000,
                end_ms: 20_000,
                text: "EFGHIJKLMNOPQRST".to_string(),
            },
        ]
    );
}

#[test]
fn persists_session_metadata_and_merge_audit_entries() {
    let config = capture_config(secs(40), secs(30), secs(18));
    let observation = Rc::new(RefCell::new(RecordingObservation::default()));
    let mut recorder = FakeRecorder {
        observation: Rc::clone(&observation),
        session: Some(FakeRecordingSession::new(Rc::clone(&observation), vec![sample_audio(), sample_audio()])),
    };
    let mut transcriber = FakeTranscriber::new(Some(Rc::clone(&observation)), overlapping_transcripts());
    let mut capture_store = FakeCaptureStore::new();
    let mut merger = OverlapMerger::new(config.merge_policy);
    let logger = SpyLogger::default();

    run_capture(
        &config,
        &[],
        &SpeakerLabel::KeepOriginal,
        &logger,
        &mut recorder,
        &mut transcriber,
        &mut capture_store,
        &mut merger,
    )
    .unwrap();

    assert_eq!(
        *capture_store.observed_session_metadata.borrow(),
        vec![CaptureSessionMetadata {
            recording_duration_ms: 40_000,
            capture_duration_ms: 30_000,
            capture_overlap_ms: 18_000,
            capture_silence_threshold_dbfs: Binary64 { bits: (-42.0f64).to_bits() },
            capture_silence_min_duration_ms: 700,
            capture_tail_silence_min_duration_ms: 250,
            transcription_model: TRANSCRIPTION_MODEL.to_string(),
            transcription_language: TEST_TRANSCRIPTION_LANGUAGE.to_string(),
            response_format: "diarized_json".to_string(),
            chunking_strategy: "auto".to_string(),
            merge_policy: TranscriptMergePolicy::recommended(),
            fixed_speaker: None,
        }]
    );
    let overlap = MergeOverlapRangeSnapshot {
        start_ms: 12_000,
        end_ms: 18_000,
        text: "EFGHIJKLMNOP".to_string(),
        normalized_char_count: 12,
    };
    assert_eq!(
        *capture_store.observed_merge_audit_entries.borrow(),
        vec![MergeAuditEntry {
            capture_index: 2,
            previous_overlap_range: overlap.clone(),
            current_overlap_range: overlap,
            outcome: MergeAuditOutcome::Accepted {
                overlap_chars: 12,
                alignment_ratio: Binary64 { bits: 1.0f64.to_bits() },
                trigram_similarity: Binary64 { bits: 1.0f64.to_bits() },
                current_prefix_trim_chars: 0,
                overlap_text_source: MergeOverlapTextSource::CurrentOverlapRange,
            },
        }]
    );
}

#[test]
fn keeps_captures_as_they_are_without_a_shared_seam() {
    let policy = TranscriptMergePolicy::recommended();
    let mut merger = OverlapMerger::new(policy);
    let first = CapturedTranscript {
        capture_index: 1,
        capture_start_ms: 0,
        capture_end_ms: 30_000,
        segments: vec![MergedTranscriptSegment { speaker: "a".to_string(), start_ms: 0, end_ms: 20_000, text: "hello there everyone".to_string() }],
    };
    let second = CapturedTranscript {
        capture_index: 2,
        capture_start_ms: 12_000,
        capture_end_ms: 40_000,
        segments: vec![MergedTranscriptSegment { speaker: "a".to_string(), start_ms: 15_000, end_ms: 25_000, text: "something else entirely".to_string() }],
    };
    assert!(merger.push_capture(first.clone()).finalized_segments.is_empty());
    let batch = merger.push_capture(second.clone());
    assert_eq!(batch.finalized_segments, first.segments);
    assert!(batch.audit_entries.is_empty());
    assert_eq!(merger.finish(), second.segments);
    assert_eq!(longest_seam("abcXYZ", "XYZdef", 3), 3);
    assert_eq!(longest_seam("abcXYZ", "XYZdef", 4), 0);
}

#[test]
fn hands_back_the_capture_that_ends_the_recording_unsent() {
    let observation = Rc::new(RefCell::new(RecordingObservation::default()));
    let first = RecordedAudio { wav_bytes: vec![1], content_type: "audio/wav" };
    let last = RecordedAudio { wav_bytes: vec![2], content_type: "audio/wav" };
    let mut session = FakeRecordingSession::new(observation.clone(), vec![first.clone(), last.clone()]);
    let mut transcriber = FakeTranscriber::new(None, vec![Ok(sample_transcript())]);
    let mut store = FakeCaptureStore::new();
    let mut merger = AppendingMerger::default();
    let logger = SpyLogger::default();
    let config = capture_config(secs(40), secs(30), secs(10));

    let recorded = record_captures(
        &mut session,
        &config,
        &[],
        &SpeakerLabel::KeepOriginal,
        &logger,
        &mut transcriber,
        &mut store,
        &mut merger,
        &NoInterruption,
    )
    .expect("the recording should end normally");

    match recorded.end {
        RecordingEnd::LastCapture { range, audio } => {
            assert_eq!(range, CaptureRange { capture_index: 2, start_offset_ms: secs(20), duration_ms: secs(20) });
            assert_eq!(audio, last);
        }
        other => panic!("unexpected end: {other:?}"),
    }
    assert_eq!(observation.borrow().captured_windows, vec![(0, secs(30)), (secs(20), secs(20))]);
    assert_eq!(observation.borrow().dropped_session_count, 0);
    assert_eq!(store.observed_audios.borrow().clone(), vec![(1, first)]);
    assert_eq!(transcriber.observed_requests.borrow().len(), 1);
    assert_eq!(recorded.transcripts.len(), 1);
    assert_eq!(merger.pushed, vec![1]);
}
