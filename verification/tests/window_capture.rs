use diarize_log::domain::{
    ChunkingStrategy, DiarizedTranscript, KnownSpeakerSample, RecordedAudio, ResponseFormat,
    TranscriptSegment,
};
use diarize_log::ports::{CaptureStoreError, RecorderError, TranscriberError};
use diarize_log::window_capture::{
    build_capture_windows, run_capture, CaptureConfig, CaptureError, CaptureStore, CaptureWindow,
    LineSink, Recorder, RecordingSession, Transcriber, TranscriptionRequest, TRANSCRIPTION_MODEL,
};
use std::cell::RefCell;
use std::collections::VecDeque;
use std::rc::Rc;

#[derive(Debug, Clone, PartialEq, Eq)]
struct CapturedRequest {
    wav_bytes: Vec<u8>,
    content_type: &'static str,
    speaker_samples: Vec<KnownSpeakerSample>,
    model: &'static str,
    response_format: ResponseFormat,
    chunking_strategy: ChunkingStrategy,
}

#[derive(Debug, Default)]
struct RecordingObservation {
    start_call_count: u64,
    waited_until: Vec<u64>,
    captured_windows: Vec<(u64, u64)>,
    dropped_session_count: u64,
}

struct FakeRecordingSession {
    observation: Rc<RefCell<RecordingObservation>>,
    audios: VecDeque<RecordedAudio>,
}

impl Drop for FakeRecordingSession {
    fn drop(&mut self) {
        self.observation.borrow_mut().dropped_session_count += 1;
    }
}

impl RecordingSession for FakeRecordingSession {
    fn wait_until(&mut self, offset_ms: u64) -> Result<(), RecorderError> {
        self.observation.borrow_mut().waited_until.push(offset_ms);
        Ok(())
    }

    fn capture_wav(&mut self, start_offset_ms: u64, duration_ms: u64) -> Result<RecordedAudio, RecorderError> {
        self.observation.borrow_mut().captured_windows.push((start_offset_ms, duration_ms));
        self.audios
            .pop_front()
            .ok_or_else(|| RecorderError::EncodeWav("missing fake audio".to_string()))
    }
}

struct FakeRecorder {
    observation: Rc<RefCell<RecordingObservation>>,
    session: Option<FakeRecordingSession>,
}

impl Recorder for FakeRecorder {
    type Session = FakeRecordingSession;

    fn start_recording(&mut self) -> Result<Self::Session, RecorderError> {
        self.observation.borrow_mut().start_call_count += 1;
        self.session
            .take()
            .ok_or_else(|| RecorderError::BuildStream("missing fake session".to_string()))
    }
}

struct FakeTranscriber {
    observed_requests: RefCell<Vec<CapturedRequest>>,
    observed_drop_counts: RefCell<Vec<u64>>,
    recording_observation: Option<Rc<RefCell<RecordingObservation>>>,
    responses: VecDeque<DiarizedTranscript>,
}

impl Transcriber for FakeTranscriber {
    fn transcribe(&mut self, request: TranscriptionRequest<'_>) -> Result<DiarizedTranscript, TranscriberError> {
        let dropped_count = self
            .recording_observation
            .as_ref()
            .map(|observation| observation.borrow().dropped_session_count)
            .unwrap_or_default();
        self.observed_drop_counts.borrow_mut().push(dropped_count);
        self.observed_requests.borrow_mut().push(CapturedRequest {
            wav_bytes: request.audio.wav_bytes.clone(),
            content_type: request.audio.content_type,
            speaker_samples: request.speaker_samples.to_vec(),
            model: request.model,
            response_format: request.response_format,
            chunking_strategy: request.chunking_strategy,
        });
        self.responses.pop_front().ok_or_else(|| TranscriberError::ParseResponseBody {
            source: "missing fake transcript".to_string(),
            body: String::new(),
        })
    }
}

struct FakeCaptureStore {
    observed_audios: RefCell<Vec<(u64, RecordedAudio)>>,
    observed_transcripts: RefCell<Vec<(u64, u64, DiarizedTranscript)>>,
}

impl FakeCaptureStore {
    fn new() -> Self {
        Self { observed_audios: RefCell::new(Vec::new()), observed_transcripts: RefCell::new(Vec::new()) }
    }
}

impl CaptureStore for FakeCaptureStore {
    fn persist_audio(&mut self, capture_index: u64, audio: &RecordedAudio) -> Result<(), CaptureStoreError> {
        self.observed_audios.borrow_mut().push((capture_index, audio.clone()));
        Ok(())
    }

    fn persist_transcript(
        &mut self,
        capture_index: u64,
        capture_start_ms: u64,
        transcript: &DiarizedTranscript,
    ) -> Result<(), CaptureStoreError> {
        self.observed_transcripts
            .borrow_mut()
            .push((capture_index, capture_start_ms, transcript.clone()));
        Ok(())
    }
}

fn sample_audio() -> RecordedAudio {
    RecordedAudio { wav_bytes: vec![0x52, 0x49, 0x46, 0x46], content_type: "audio/wav" }
}

fn sample_known_speaker() -> KnownSpeakerSample {
    KnownSpeakerSample {
        speaker_name: "suzuki".to_string(),
        audio: RecordedAudio { wav_bytes: vec![0x10, 0x20, 0x30], content_type: "audio/wav" },
    }
}

fn sample_transcript() -> DiarizedTranscript {
    DiarizedTranscript {
        text: "こんにちは 今日はよろしくお願いします".to_string(),
        segments: vec![
            TranscriptSegment {
                speaker: "spk_0".to_string(),
                start_ms: 0,
                end_ms: 900,
                text: "こんにちは".to_string(),
            },
            TranscriptSegment {
                speaker: "spk_1".to_string(),
                start_ms: 950,
                end_ms: 2_300,
                text: "今日はよろしくお願いします".to_string(),
            },
        ],
    }
}

fn secs(s: u64) -> u64 {
    s * 1_000
}

struct Fixture {
    observation: Rc<RefCell<RecordingObservation>>,
    recorder: FakeRecorder,
    transcriber: FakeTranscriber,
    capture_store: FakeCaptureStore,
}

fn fixture(audios: Vec<RecordedAudio>, responses: Vec<DiarizedTranscript>) -> Fixture {
    let observation = Rc::new(RefCell::new(RecordingObservation::default()));
    Fixture {
        observation: Rc::clone(&observation),
        recorder: FakeRecorder {
            observation: Rc::clone(&observation),
            session: Some(FakeRecordingSession {
                observation: Rc::clone(&observation),
                audios: VecDeque::from(audios),
            }),
        },
        transcriber: FakeTranscriber {
            observed_requests: RefCell::new(Vec::new()),
            observed_drop_counts: RefCell::new(Vec::new()),
            recording_observation: Some(Rc::clone(&observation)),
            responses: VecDeque::from(responses),
        },
        capture_store: FakeCaptureStore::new(),
    }
}

#[test]
fn builds_overlapping_capture_windows_until_recording_ends() {
    let windows = build_capture_windows(secs(360), secs(180), secs(15));

    assert_eq!(
        windows,
        vec![
            CaptureWindow { capture_index: 1, start_offset_ms: secs(0), duration_ms: secs(180) },
            CaptureWindow { capture_index: 2, start_offset_ms: secs(165), duration_ms: secs(180) },
            CaptureWindow { capture_index: 3, start_offset_ms: secs(330), duration_ms: secs(30) },
        ]
    );
}

#[test]
fn capture_records_incremental_captures_with_overlap_and_requests_transcription() {
    let config = CaptureConfig::new(secs(360), secs(180), secs(15));
    let audio1 = sample_audio();
    let audio2 = RecordedAudio { wav_bytes: vec![0x01, 0x02], content_type: "audio/wav" };
    let audio3 = RecordedAudio { wav_bytes: vec![0x03, 0x04], content_type: "audio/wav" };
    let transcript = sample_transcript();
    let mut f = fixture(
        vec![audio1.clone(), audio2.clone(), audio3.clone()],
        vec![transcript.clone(), transcript.clone(), transcript.clone()],
    );
    let mut stderr = Vec::new();

    run_capture(&config, &[], &mut f.recorder, &mut f.transcriber, &mut f.capture_store, &mut stderr)
        .unwrap();
    assert_eq!(f.observation.borrow().start_call_count, 1);
    assert_eq!(f.observation.borrow().waited_until, vec![secs(180), secs(345), secs(360)]);
    assert_eq!(
        f.observation.borrow().captured_windows,
        vec![(secs(0), secs(180)), (secs(165), secs(180)), (secs(330), secs(30))]
    );
    let expected = |audio: RecordedAudio| CapturedRequest {
        wav_bytes: audio.wav_bytes,
        content_type: "audio/wav",
        speaker_samples: Vec::new(),
        model: TRANSCRIPTION_MODEL,
        response_format: ResponseFormat::DiarizedJson,
        chunking_strategy: ChunkingStrategy::Auto,
    };
    assert_eq!(
        *f.transcriber.observed_requests.borrow(),
        vec![expected(audio1), expected(audio2), expected(audio3)]
    );
}

#[test]
fn capture_attaches_known_speaker_samples_to_each_transcription_request() {
    let config = CaptureConfig::new(secs(40), secs(30), secs(10));
    let mut f = fixture(vec![sample_audio(), sample_audio()], vec![sample_transcript(), sample_transcript()]);
    let speaker_sample = sample_known_speaker();
    let mut stderr = Vec::new();

    run_capture(
        &config,
        std::slice::from_ref(&speaker_sample),
        &mut f.recorder,
        &mut f.transcriber,
        &mut f.capture_store,
        &mut stderr,
    )
    .unwrap();

    assert_eq!(
        f.transcriber
            .observed_requests
            .borrow()
            .iter()
            .map(|request| request.speaker_samples.clone())
            .collect::<Vec<_>>(),
        vec![vec![speaker_sample.clone()], vec![speaker_sample]]
    );
}

#[test]
fn capture_returns_transcription_results_to_caller() {
    let config = CaptureConfig::new(secs(40), secs(30), secs(10));
    let transcript1 = sample_transcript();
    let transcript2 = DiarizedTranscript {
        text: "別の capture".to_string(),
        segments: vec![TranscriptSegment {
            speaker: "spk_0".to_string(),
            start_ms: 0,
            end_ms: 500,
            text: "別の capture".to_string(),
        }],
    };
    let mut f = fixture(vec![sample_audio(), sample_audio()], vec![transcript1.clone(), transcript2.clone()]);
    let mut stderr = Vec::new();

    let returned =
        run_capture(&config, &[], &mut f.recorder, &mut f.transcriber, &mut f.capture_store, &mut stderr)
            .unwrap();

    assert_eq!(returned, vec![transcript1, transcript2]);
}

#[test]
fn capture_persists_each_capture_via_capture_store() {
    let config = CaptureConfig::new(secs(40), secs(30), secs(10));
    let audio1 = sample_audio();
    let audio2 = RecordedAudio { wav_bytes: vec![0x05, 0x06], content_type: "audio/wav" };
    let transcript1 = sample_transcript();
    let transcript2 = DiarizedTranscript {
        text: "二つ目".to_string(),
        segments: vec![TranscriptSegment {
            speaker: "spk_1".to_string(),
            start_ms: 0,
            end_ms: 600,
            text: "二つ目".to_string(),
        }],
    };
    let mut f = fixture(vec![audio1.clone(), audio2.clone()], vec![transcript1.clone(), transcript2.clone()]);
    let mut stderr = Vec::new();

    run_capture(&config, &[], &mut f.recorder, &mut f.transcriber, &mut f.capture_store, &mut stderr)
        .unwrap();

    assert_eq!(*f.capture_store.observed_audios.borrow(), vec![(1, audio1), (2, audio2)]);
    assert_eq!(
        *f.capture_store.observed_transcripts.borrow(),
        vec![(1, 0, transcript1), (2, 20_000, transcript2)]
    );
}

#[test]
fn persists_audio_before_transcription_succeeds() {
    let config = CaptureConfig::new(secs(40), secs(30), secs(10));
    let audio = sample_audio();
    let mut f = fixture(vec![audio.clone(), sample_audio()], Vec::new());
    let mut stderr = Vec::new();

    let error =
        run_capture(&config, &[], &mut f.recorder, &mut f.transcriber, &mut f.capture_store, &mut stderr)
            .unwrap_err();

    assert!(matches!(error, CaptureError::Transcribe(_)));
    assert_eq!(*f.capture_store.observed_audios.borrow(), vec![(1, audio)]);
    assert!(f.capture_store.observed_transcripts.borrow().is_empty());
}

#[test]
fn writes_normal_operation_logs_to_stderr() {
    let config = CaptureConfig::new(secs(40), secs(30), secs(10));
    let mut f = fixture(vec![sample_audio(), sample_audio()], vec![sample_transcript(), sample_transcript()]);
    let mut stderr = Vec::new();

    run_capture(&config, &[], &mut f.recorder, &mut f.transcriber, &mut f.capture_store, &mut stderr)
        .unwrap();

    let printed_logs = String::from_utf8(stderr).unwrap();
    assert_eq!(
        printed_logs,
        "recording started\ntranscription request sent for capture 1\ntranscription response received for capture 1\nrecording finished\ntranscription request sent for capture 2\ntranscription response received for capture 2\n"
    );
}

#[test]
fn capture_drops_recording_session_before_transcribing_final_capture() {
    let config = CaptureConfig::new(secs(40), secs(30), secs(10));
    let mut f = fixture(vec![sample_audio(), sample_audio()], vec![sample_transcript(), sample_transcript()]);
    let mut stderr = Vec::new();

    run_capture(&config, &[], &mut f.recorder, &mut f.transcriber, &mut f.capture_store, &mut stderr)
        .unwrap();

    assert_eq!(*f.transcriber.observed_drop_counts.borrow(), vec![0, 1]);
}

#[test]
fn windows_end_exactly_at_the_recording_end() {
    let windows = build_capture_windows(secs(40), secs(30), secs(10));
    assert_eq!(
        windows,
        vec![
            CaptureWindow { capture_index: 1, start_offset_ms: 0, duration_ms: secs(30) },
            CaptureWindow { capture_index: 2, start_offset_ms: secs(20), duration_ms: secs(20) },
        ]
    );
    let last = windows.last().unwrap();
    assert_eq!(last.end_offset_ms(), secs(40));
}

#[test]
fn builds_no_windows_for_an_empty_recording() {
    assert!(build_capture_windows(0, secs(30), secs(10)).is_empty());
}

#[test]
fn builds_one_window_when_the_recording_fits_in_a_capture() {
    assert_eq!(
        build_capture_windows(secs(20), secs(30), secs(30)),
        vec![CaptureWindow { capture_index: 1, start_offset_ms: 0, duration_ms: secs(20) }]
    );
}

#[test]
fn byte_sink_appends_each_line_with_a_newline() {
    let mut sink: Vec<u8> = b"a\n".to_vec();
    assert!(sink.write_line("録音 started").is_ok());
    assert_eq!(sink, "a\n録音 started\n".as_bytes().to_vec());
}
