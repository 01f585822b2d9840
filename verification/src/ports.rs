//! The boundaries between the use cases and the outside world: recording,
//! transcription, storage, logging and interruption. Each is a trait that
//! the application implements; the use cases only ever call through them.
//!
//! A trait whose calls the use cases' contracts speak of names them in a
//! spec function: the calls made so far, each with its arguments and its
//! answer, or what a read answers in the implementation's present state.
//! Each method's `ensures` is what an implementation promises about that
//! record. The spec functions' bodies are `arbitrary()`, so that
//! implementations written in plain Rust, which cannot define them, still
//! compile; nothing is proved from those bodies.
use crate::domain::{
    CaptureBoundary, CapturePolicy, ChunkingStrategy, DiarizedTranscript, KnownSpeakerSample,
    KnownSpeakerEmbedding, MergeAuditEntry, MergedTranscriptSegment, RecordedAudio, ResponseFormat,
    SilenceRequestPolicy, SourcedTranscriptSegment, TranscriptMergePolicy, TranscriptSource,
    Binary64,
};
use crate::text::{concat2, concat3, decimal_string};
use vstd::prelude::*;

verus! {

/// The error of a failed write, carried unopened.
#[verifier::external_type_specification]
#[verifier::external_body]
pub struct ExIoError(std::io::Error);

/// The calls recorded in a call log after an earlier state of it.
pub open spec fn added<A>(before: Seq<A>, after: Seq<A>) -> Seq<A> {
    after.skip(before.len() as int)
}

/// Whether a call log only grew between two of its states.
pub open spec fn grown<A>(before: Seq<A>, after: Seq<A>) -> bool {
    before.len() <= after.len() && after.take(before.len() as int) == before
}

/// A log that grew twice grew, and what was added is what each step added.
pub proof fn added_in_turn<A>(a: Seq<A>, b: Seq<A>, c: Seq<A>)
    requires
        grown(a, b),
        grown(b, c),
    ensures
        grown(a, c),
        added(a, c) == added(a, b) + added(b, c),
{
    assert(c.take(a.len() as int) =~= b.take(a.len() as int));
    assert(added(a, c) =~= added(a, b) + added(b, c));
}

/// One more call grows a log by that call.
pub proof fn added_one<A>(a: Seq<A>, b: Seq<A>, x: A)
    requires
        grown(a, b),
    ensures
        grown(a, b.push(x)),
        added(a, b.push(x)) == added(a, b).push(x),
{
    assert(b.push(x).take(a.len() as int) =~= b.take(a.len() as int));
    assert(added(a, b.push(x)) =~= added(a, b).push(x));
}

/// Asks whether someone requested that the run stop early.
pub trait InterruptMonitor {
    fn is_interrupt_requested(&self) -> bool;
}

/// How a wait for the recording ended.
#[derive(Debug, Clone, Copy, PartialEq, Eq, Structural)]
pub enum RecordingWaitOutcome {
    ReachedTarget,
    Interrupted,
}

/// Where the use cases report progress.
pub trait Logger {
    /// A progress message.
    fn info(&self, message: &str) -> Result<(), std::io::Error>;

    /// A diagnostic message.
    fn debug(&self, message: &str) -> Result<(), std::io::Error>;
}

/// Starts a continuous recording.
pub trait Recorder {
    type Session: RecordingSession;

    /// Starts recording; nothing has yet been asked of the new session.
    fn start_recording(&mut self) -> (r: Result<Self::Session, RecorderError>)
        ensures
            r matches Ok(session) ==> session.session_calls() == Seq::<SessionCall>::empty(),
    ;
}

/// One call made on a recording session, with what it answered.
pub enum SessionCall {
    WaitUntil { offset_ms: u64, result: Result<RecordingWaitOutcome, RecorderError> },
    CaptureBoundary {
        capture_start_offset_ms: u64,
        capture_policy: CapturePolicy,
        silence_request_policy: SilenceRequestPolicy,
        result: Result<CaptureBoundary, RecorderError>,
    },
    RecordedDuration { result: Result<u64, RecorderError> },
    CaptureWav { start_offset_ms: u64, duration_ms: u64, result: Result<RecordedAudio, RecorderError> },
}

/// A recording in progress, from which captures are cut (offsets in
/// milliseconds from the start of the recording).
pub trait RecordingSession {
    /// Every call made on this session so far, oldest first.
    closed spec fn session_calls(&self) -> Seq<SessionCall> {
        arbitrary()
    }

    /// Waits until the recording reaches `offset_ms`, or until interrupted.
    fn wait_until(&mut self, offset_ms: u64, interrupt_monitor: &dyn InterruptMonitor) -> (r: Result<
        RecordingWaitOutcome,
        RecorderError,
    >)
        ensures
            final(self).session_calls() == old(self).session_calls().push(
                SessionCall::WaitUntil { offset_ms, result: r },
            ),
    ;

    /// Waits for the point where the capture that started at
    /// `capture_start_offset_ms` should be sent.
    fn wait_for_capture_boundary(
        &mut self,
        capture_start_offset_ms: u64,
        capture_policy: &CapturePolicy,
        silence_request_policy: &SilenceRequestPolicy,
        interrupt_monitor: &dyn InterruptMonitor,
    ) -> (r: Result<CaptureBoundary, RecorderError>)
        ensures
            final(self).session_calls() == old(self).session_calls().push(
                SessionCall::CaptureBoundary {
                    capture_start_offset_ms,
                    capture_policy: *capture_policy,
                    silence_request_policy: *silence_request_policy,
                    result: r,
                },
            ),
    ;

    /// How much audio has been buffered so far.
    fn recorded_duration_ms(&mut self) -> (r: Result<u64, RecorderError>)
        ensures
            final(self).session_calls() == old(self).session_calls().push(
                SessionCall::RecordedDuration { result: r },
            ),
    ;

    /// The audio between `start_offset_ms` and `start_offset_ms + duration_ms`
    /// as WAV.
    fn capture_wav(&mut self, start_offset_ms: u64, duration_ms: u64) -> (r: Result<
        RecordedAudio,
        RecorderError,
    >)
        ensures
            final(self).session_calls() == old(self).session_calls().push(
                SessionCall::CaptureWav { start_offset_ms, duration_ms, result: r },
            ),
    ;
}

/// A recording failure.
#[derive(Debug, Clone, PartialEq, Eq)]
pub enum RecorderError {
    NoInputDevice,
    ReadInputConfig(String),
    ReadShareableContent(String),
    ApplicationNotFound { bundle_id: String },
    ApplicationDisplayNotFound { bundle_id: String },
    BuildStream(String),
    PlayStream(String),
    AddStreamOutput(String),
    StartCapture(String),
    UnsupportedSampleFormat(String),
    CallbackStream(String),
    SampleBufferPoisoned,
    DecodeCapturedAudio(String),
    EncodeWav(String),
    CaptureOutOfRange { requested_end_ms: u64, available_end_ms: u64 },
}

/// What is sent to the transcription service for one capture.
pub struct TranscriptionRequest<'a> {
    pub audio: &'a RecordedAudio,
    pub speaker_samples: &'a [KnownSpeakerSample],
    pub model: &'static str,
    pub language: Option<&'a str>,
    pub response_format: ResponseFormat,
    pub chunking_strategy: ChunkingStrategy,
}

/// One request sent to a transcriber, as plain values, with its answer.
pub struct TranscriberCall {
    pub audio: RecordedAudio,
    pub speaker_samples: Seq<KnownSpeakerSample>,
    pub model: Seq<char>,
    pub language: Option<Seq<char>>,
    pub response_format: ResponseFormat,
    pub chunking_strategy: ChunkingStrategy,
    pub result: Result<DiarizedTranscript, TranscriberError>,
}

/// A request's language as plain text.
pub open spec fn language_view(language: Option<&str>) -> Option<Seq<char>> {
    match language {
        Some(l) => Some(l@),
        None => None,
    }
}

/// Turns captured audio into a diarized transcript.
pub trait Transcriber {
    /// Every request sent to this transcriber so far, oldest first.
    closed spec fn transcriber_calls(&self) -> Seq<TranscriberCall> {
        arbitrary()
    }

    /// Sends `request` and returns the service's transcript.
    fn transcribe(&mut self, request: TranscriptionRequest<'_>) -> (r: Result<
        DiarizedTranscript,
        TranscriberError,
    >)
        ensures
            final(self).transcriber_calls() == old(self).transcriber_calls().push(
                TranscriberCall {
                    audio: *request.audio,
                    speaker_samples: request.speaker_samples@,
                    model: request.model@,
                    language: language_view(request.language),
                    response_format: request.response_format,
                    chunking_strategy: request.chunking_strategy,
                    result: r,
                },
            ),
    ;
}

/// A transcription failure.
#[derive(Debug, Clone, PartialEq, Eq)]
pub enum TranscriberError {
    BuildHttpClient(String),
    InvalidMimeType(String),
    SendRequest(String),
    ReadResponseBody(String),
    ApiError { status_code: u16, body: String },
    ParseResponseBody { source: String, body: String },
}

/// The text that introduces each kind of transcription failure.
pub open spec fn transcriber_error_prefix(e: TranscriberError) -> Seq<char> {
    match e {
        TranscriberError::BuildHttpClient(_) => "failed to build transcription http client: "@,
        TranscriberError::InvalidMimeType(_) => "invalid audio mime type: "@,
        TranscriberError::SendRequest(_) => "failed to send transcription request: "@,
        TranscriberError::ReadResponseBody(_) => "failed to read transcription response body: "@,
        TranscriberError::ApiError { .. } => "transcription api returned status "@,
        TranscriberError::ParseResponseBody { .. } => "failed to parse transcription response: "@,
    }
}

/// The detail that follows the prefix.
pub open spec fn transcriber_error_detail(e: TranscriberError) -> Seq<char> {
    match e {
        TranscriberError::BuildHttpClient(s) => s@,
        TranscriberError::InvalidMimeType(s) => s@,
        TranscriberError::SendRequest(s) => s@,
        TranscriberError::ReadResponseBody(s) => s@,
        TranscriberError::ApiError { status_code, body } => crate::text::decimal_text(
            status_code as nat,
        ) + ": "@ + body@,
        TranscriberError::ParseResponseBody { source, .. } => source@,
    }
}

impl TranscriberError {
    /// The human-readable description of the failure.
    pub fn message(&self) -> (r: String)
        ensures
            r@ == transcriber_error_prefix(*self) + transcriber_error_detail(*self),
    {
        match self {
            TranscriberError::BuildHttpClient(s) => concat2("failed to build transcription http client: ", s.as_str()),
            TranscriberError::InvalidMimeType(s) => concat2("invalid audio mime type: ", s.as_str()),
            TranscriberError::SendRequest(s) => concat2("failed to send transcription request: ", s.as_str()),
            TranscriberError::ReadResponseBody(s) => concat2("failed to read transcription response body: ", s.as_str()),
            TranscriberError::ApiError { status_code, body } => {
                let code = decimal_string(*status_code as u64);
                let head = concat3("transcription api returned status ", code.as_str(), ": ");
                let r = concat2(head.as_str(), body.as_str());
                assert(r@ =~= transcriber_error_prefix(*self) + transcriber_error_detail(*self));
                r
            },
            TranscriberError::ParseResponseBody { source, .. } => concat2("failed to parse transcription response: ", source.as_str()),
        }
    }
}

/// What a capture session records about how it was configured.
#[derive(Debug, Clone, PartialEq, Eq)]
pub struct CaptureSessionMetadata {
    pub recording_duration_ms: u64,
    pub capture_duration_ms: u64,
    pub capture_overlap_ms: u64,
    pub capture_silence_threshold_dbfs: Binary64,
    pub capture_silence_min_duration_ms: u64,
    pub capture_tail_silence_min_duration_ms: u64,
    pub transcription_model: String,
    pub transcription_language: String,
    pub response_format: String,
    pub chunking_strategy: String,
    pub merge_policy: TranscriptMergePolicy,
    pub fixed_speaker: Option<String>,
}

/// One call made on a capture session's store, with what the store
/// answered.
pub enum CaptureStoreCall {
    SessionMetadata { metadata: CaptureSessionMetadata, result: Result<(), CaptureStoreError> },
    Audio { capture_index: u64, audio: RecordedAudio, result: Result<(), CaptureStoreError> },
    Transcript {
        capture_index: u64,
        capture_start_ms: u64,
        transcript: DiarizedTranscript,
        result: Result<(), CaptureStoreError>,
    },
    MergedSegments { segments: Seq<MergedTranscriptSegment>, result: Result<(), CaptureStoreError> },
    MergeAuditEntries { entries: Seq<MergeAuditEntry>, result: Result<(), CaptureStoreError> },
}

/// Where a capture session's files go.
pub trait CaptureStore {
    /// Every call made on this store so far, oldest first.
    closed spec fn capture_calls(&self) -> Seq<CaptureStoreCall> {
        arbitrary()
    }

    /// Records how the session was configured.
    fn persist_session_metadata(&mut self, metadata: &CaptureSessionMetadata) -> (r: Result<
        (),
        CaptureStoreError,
    >)
        ensures
            final(self).capture_calls() == old(self).capture_calls().push(
                CaptureStoreCall::SessionMetadata { metadata: *metadata, result: r },
            ),
    ;

    /// Stores capture `capture_index`'s audio.
    fn persist_audio(&mut self, capture_index: u64, audio: &RecordedAudio) -> (r: Result<
        (),
        CaptureStoreError,
    >)
        ensures
            final(self).capture_calls() == old(self).capture_calls().push(
                CaptureStoreCall::Audio { capture_index, audio: *audio, result: r },
            ),
    ;

    /// Stores capture `capture_index`'s transcript, with the capture's start.
    fn persist_transcript(
        &mut self,
        capture_index: u64,
        capture_start_ms: u64,
        transcript: &DiarizedTranscript,
    ) -> (r: Result<(), CaptureStoreError>)
        ensures
            final(self).capture_calls() == old(self).capture_calls().push(
                CaptureStoreCall::Transcript {
                    capture_index,
                    capture_start_ms,
                    transcript: *transcript,
                    result: r,
                },
            ),
    ;

    /// Appends segments to the merged transcript.
    fn persist_merged_segments(&mut self, segments: &[MergedTranscriptSegment]) -> (r: Result<
        (),
        CaptureStoreError,
    >)
        ensures
            final(self).capture_calls() == old(self).capture_calls().push(
                CaptureStoreCall::MergedSegments { segments: segments@, result: r },
            ),
    ;

    /// Appends entries to the merge audit.
    fn persist_merge_audit_entries(&mut self, entries: &[MergeAuditEntry]) -> (r: Result<
        (),
        CaptureStoreError,
    >)
        ensures
            final(self).capture_calls() == old(self).capture_calls().push(
                CaptureStoreCall::MergeAuditEntries { entries: entries@, result: r },
            ),
    ;
}

/// A storage failure.
#[derive(Debug, Clone, PartialEq, Eq)]
pub enum CaptureStoreError {
    CreateSession(String),
    ResolveLocalOffset(String),
    FormatSessionName(String),
    WriteAudio(String),
    WriteCapture(String),
    SerializeCapture(String),
    WriteMetadata(String),
    SerializeMetadata(String),
    OpenMerged(String),
    WriteMerged(String),
    SerializeMerged(String),
    OpenMergeAudit(String),
    WriteMergeAudit(String),
    SerializeMergeAudit(String),
}

/// How one source of a mixed session ended.
#[derive(Debug, Clone, Copy, PartialEq, Eq, Structural)]
pub enum MixedCaptureSourceStatus {
    Succeeded,
    PartialFailure,
    Failed,
}

/// What a mixed session records about one source's run.
#[derive(Debug, Clone, PartialEq, Eq)]
pub struct MixedCaptureSourceOutcome {
    pub source: TranscriptSource,
    pub started_at_unix_ms: u64,
    pub status: MixedCaptureSourceStatus,
    pub transcription_failure_count: usize,
    pub error_message: Option<String>,
}

/// What a mixed session records about how one source was configured.
#[derive(Debug, Clone, PartialEq, Eq)]
pub struct MixedCaptureSourceSettings {
    pub source: TranscriptSource,
    pub recording_duration_ms: u64,
    pub capture_duration_ms: u64,
    pub capture_overlap_ms: u64,
    pub capture_silence_threshold_dbfs: Binary64,
    pub capture_silence_min_duration_ms: u64,
    pub capture_tail_silence_min_duration_ms: u64,
    pub transcription_model: String,
    pub transcription_language: String,
    pub response_format: String,
    pub chunking_strategy: String,
    pub merge_policy: TranscriptMergePolicy,
    pub fixed_speaker: Option<String>,
}

/// What a mixed session records about itself.
#[derive(Debug, Clone, PartialEq, Eq)]
pub struct MixedCaptureSessionMetadata {
    pub mode: String,
    pub application_bundle_id: String,
    pub microphone_speaker: String,
    pub source_settings: Vec<MixedCaptureSourceSettings>,
    pub source_outcomes: Vec<MixedCaptureSourceOutcome>,
}

/// One call made on a mixed session's store, with what the store answered.
pub enum MixedStoreCall {
    Metadata { metadata: MixedCaptureSessionMetadata, result: Result<(), CaptureStoreError> },
    FinalSegments {
        segments: Seq<SourcedTranscriptSegment>,
        result: Result<(), CaptureStoreError>,
    },
}

/// Where a mixed session's own files go.
pub trait MixedCaptureStore {
    /// Every call made on this store so far, oldest first.
    closed spec fn mixed_calls(&self) -> Seq<MixedStoreCall> {
        arbitrary()
    }

    /// Records the session's metadata.
    fn persist_mixed_session_metadata(&mut self, metadata: &MixedCaptureSessionMetadata) -> (r:
        Result<(), CaptureStoreError>)
        ensures
            final(self).mixed_calls() == old(self).mixed_calls().push(
                MixedStoreCall::Metadata { metadata: *metadata, result: r },
            ),
    ;

    /// Records the session's final timeline.
    fn persist_final_segments(&mut self, segments: &[SourcedTranscriptSegment]) -> (r: Result<
        (),
        CaptureStoreError,
    >)
        ensures
            final(self).mixed_calls() == old(self).mixed_calls().push(
                MixedStoreCall::FinalSegments { segments: segments@, result: r },
            ),
    ;
}

/// One change asked of a speaker store, with what the store answered.
pub enum SpeakerStoreCall {
    Create { speaker_name: Seq<char>, audio: RecordedAudio, result: Result<(), SpeakerStoreError> },
    Remove { speaker_name: Seq<char>, result: Result<(), SpeakerStoreError> },
}

/// Where registered speakers' reference recordings are kept.
pub trait SpeakerStore {
    /// Every change asked of this store so far, oldest first.
    closed spec fn speaker_calls(&self) -> Seq<SpeakerStoreCall> {
        arbitrary()
    }

    /// What a listing of this store answers in its present state.
    closed spec fn listing(&self) -> Result<Seq<String>, SpeakerStoreError> {
        arbitrary()
    }

    /// What reading `speaker_name`'s sample answers in the store's present
    /// state.
    closed spec fn stored_sample(&self, speaker_name: Seq<char>) -> Result<
        KnownSpeakerSample,
        SpeakerStoreError,
    > {
        arbitrary()
    }

    /// Registers `speaker_name` with `audio`.
    fn create_sample(&mut self, speaker_name: &str, audio: &RecordedAudio) -> (r: Result<
        (),
        SpeakerStoreError,
    >)
        ensures
            final(self).speaker_calls() == old(self).speaker_calls().push(
                SpeakerStoreCall::Create { speaker_name: speaker_name@, audio: *audio, result: r },
            ),
    ;

    /// Removes `speaker_name`'s sample.
    fn remove_sample(&mut self, speaker_name: &str) -> (r: Result<(), SpeakerStoreError>)
        ensures
            final(self).speaker_calls() == old(self).speaker_calls().push(
                SpeakerStoreCall::Remove { speaker_name: speaker_name@, result: r },
            ),
    ;

    /// The registered speakers' names.
    fn list_samples(&self) -> (r: Result<Vec<String>, SpeakerStoreError>)
        ensures
            match r {
                Ok(names) => self.listing() == Ok::<Seq<String>, SpeakerStoreError>(names@),
                Err(e) => self.listing() == Err::<Seq<String>, SpeakerStoreError>(e),
            },
    ;

    /// `speaker_name`'s sample.
    fn read_sample(&self, speaker_name: &str) -> (r: Result<KnownSpeakerSample, SpeakerStoreError>)
        ensures
            r == self.stored_sample(speaker_name@),
    ;
}

/// A speaker storage failure.
#[derive(Debug, Clone, PartialEq, Eq)]
pub enum SpeakerStoreError {
    CreateDirectory(String),
    InvalidSpeakerName { speaker_name: String },
    SpeakerAlreadyExists { speaker_name: String },
    SpeakerNotFound { speaker_name: String },
    WriteSample(String),
    ReadSample(String),
    DeleteSample(String),
    ListSamples(String),
}

/// Computes a speaker embedding from a sample of their voice.
pub trait SpeakerEmbedder {
    fn embed_speaker(&self, speaker_name: &str, audio: &RecordedAudio) -> Result<
        KnownSpeakerEmbedding,
        SpeakerEmbedderError,
    >;
}

/// A failure of the embedding worker.
#[derive(Debug, Clone, PartialEq, Eq)]
pub enum SpeakerEmbedderError {
    SpawnProcess(String),
    WriteInput(String),
    ReadOutput(String),
    ProcessFailed { status: String, stderr: String },
    ParseOutput(String),
    InvalidOutput(String),
}

/// The human-readable description of an embedding failure.
pub open spec fn speaker_embedder_error_text(e: SpeakerEmbedderError) -> Seq<char> {
    match e {
        SpeakerEmbedderError::SpawnProcess(s) => "failed to spawn speaker embedder: "@ + s@,
        SpeakerEmbedderError::WriteInput(s) => "failed to write speaker embedder input: "@ + s@,
        SpeakerEmbedderError::ReadOutput(s) => "failed to read speaker embedder output: "@ + s@,
        SpeakerEmbedderError::ProcessFailed { status, stderr } => "speaker embedder failed with "@
            + status@ + ": "@ + stderr@,
        SpeakerEmbedderError::ParseOutput(s) => "failed to parse speaker embedder output: "@ + s@,
        SpeakerEmbedderError::InvalidOutput(s) => "invalid speaker embedder output: "@ + s@,
    }
}

impl SpeakerEmbedderError {
    /// The human-readable description of the failure.
    pub fn message(&self) -> (r: String)
        ensures
            r@ == speaker_embedder_error_text(*self),
    {
        match self {
            SpeakerEmbedderError::SpawnProcess(s) => concat2("failed to spawn speaker embedder: ", s.as_str()),
            SpeakerEmbedderError::WriteInput(s) => concat2("failed to write speaker embedder input: ", s.as_str()),
            SpeakerEmbedderError::ReadOutput(s) => concat2("failed to read speaker embedder output: ", s.as_str()),
            SpeakerEmbedderError::ProcessFailed { status, stderr } => {
                let head = concat3("speaker embedder failed with ", status.as_str(), ": ");
                concat2(head.as_str(), stderr.as_str())
            },
            SpeakerEmbedderError::ParseOutput(s) => concat2("failed to parse speaker embedder output: ", s.as_str()),
            SpeakerEmbedderError::InvalidOutput(s) => concat2("invalid speaker embedder output: ", s.as_str()),
        }
    }
}

/// Cuts a stretch out of a WAV file (offsets in milliseconds).
pub trait AudioClipper {
    /// What the clipper answers for this file and stretch.
    closed spec fn clip(&self, wav_path: Seq<char>, start_offset_ms: u64, duration_ms: u64) -> Result<
        RecordedAudio,
        AudioClipperError,
    > {
        arbitrary()
    }

    /// The stretch from `start_offset_ms`, `duration_ms` long, as WAV.
    fn clip_wav_segment(&self, wav_path: &str, start_offset_ms: u64, duration_ms: u64) -> (r: Result<
        RecordedAudio,
        AudioClipperError,
    >)
        ensures
            r == self.clip(wav_path@, start_offset_ms, duration_ms),
    ;
}

/// A clipping failure.
#[derive(Debug, Clone, PartialEq, Eq)]
pub enum AudioClipperError {
    ReadSource(String),
    EncodeClip(String),
    InvalidRange {
        requested_start_ms: u64,
        requested_duration_ms: u64,
        available_duration_ms: u64,
    },
}

} // verus!
