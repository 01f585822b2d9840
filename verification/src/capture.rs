//! The continuous-capture use case: one recording, cut into captures at
//! pauses or at the capture limit, each capture stored, transcribed and
//! merged into one timeline.
use crate::domain::{
    CaptureBoundary, CaptureBoundaryReason, CaptureMerger, CapturePolicy, CaptureRange,
    CapturedTranscript, ChunkingStrategy, DiarizedTranscript, KnownSpeakerSample, shifted_segment,
    MergedTranscriptSegment, RecordedAudio, ResponseFormat, SilenceRequestPolicy,
    TranscriptMergePolicy, TranscriptSegment, TranscriptionLanguage,
};
use crate::ports::{
    CaptureSessionMetadata, CaptureStore, CaptureStoreCall, CaptureStoreError, InterruptMonitor,
    Logger, Recorder, RecorderError, RecordingSession, SessionCall, Transcriber, TranscriberCall,
    TranscriberError, TranscriptionRequest, added, added_in_turn, added_one, grown,
    transcriber_error_detail, transcriber_error_prefix,
};
use crate::text::{concat2, copy_string, decimal_string, decimal_text};
use crate::transcriber::SIMPLE_TRANSCRIPTION_MODEL;
use vstd::prelude::*;

verus! {

/// The transcription model that every capture is sent to.
pub const TRANSCRIPTION_MODEL: &'static str = "gpt-4o-transcribe-diarize";

/// The settings of a capture run.
#[derive(Debug, Clone, PartialEq, Eq)]
pub struct CaptureConfig {
    pub capture_policy: CapturePolicy,
    pub silence_request_policy: SilenceRequestPolicy,
    pub merge_policy: TranscriptMergePolicy,
    pub response_format: ResponseFormat,
    pub transcription_model: &'static str,
    pub transcription_language: TranscriptionLanguage,
    pub chunking_strategy: ChunkingStrategy,
}

impl CaptureConfig {
    /// A run with the given timing and language, the recommended pause and
    /// merge settings, diarized JSON output and automatic chunking.
    pub fn new(
        recording_duration_ms: u64,
        capture_duration_ms: u64,
        capture_overlap_ms: u64,
        transcription_language: TranscriptionLanguage,
    ) -> (r: Self)
        ensures
            r.capture_policy == (CapturePolicy {
                recording_duration_ms,
                capture_duration_ms,
                capture_overlap_ms,
            }),
            r.silence_request_policy == SilenceRequestPolicy::spec_recommended(),
            r.merge_policy == TranscriptMergePolicy::spec_recommended(),
            r.response_format == ResponseFormat::DiarizedJson,
            r.transcription_model == TRANSCRIPTION_MODEL,
            r.transcription_language == transcription_language,
            r.chunking_strategy == ChunkingStrategy::Auto,
    {
        CaptureConfig {
            capture_policy: CapturePolicy {
                recording_duration_ms,
                capture_duration_ms,
                capture_overlap_ms,
            },
            silence_request_policy: SilenceRequestPolicy::recommended(),
            merge_policy: TranscriptMergePolicy::recommended(),
            response_format: ResponseFormat::DiarizedJson,
            transcription_model: TRANSCRIPTION_MODEL,
            transcription_language,
            chunking_strategy: ChunkingStrategy::Auto,
        }
    }
}

/// Whose name the transcript's utterances carry.
#[derive(Debug, Clone, PartialEq, Eq)]
pub enum SpeakerLabel {
    /// The names the transcription service gave.
    KeepOriginal,
    /// One name for every utterance.
    Fixed(String),
}

/// A capture whose transcription failed and was skipped.
#[derive(Debug, Clone, PartialEq, Eq)]
pub struct CaptureTranscriptionFailure {
    pub capture_index: u64,
    pub capture_start_ms: u64,
    pub message: String,
}

/// The outcome of a capture run that did not stop on an error.
#[derive(Debug, Clone, PartialEq, Eq)]
pub struct CaptureRunResult {
    pub started_at_unix_ms: u64,
    pub transcripts: Vec<DiarizedTranscript>,
    pub merged_segments: Vec<MergedTranscriptSegment>,
    pub transcription_failures: Vec<CaptureTranscriptionFailure>,
}

impl CaptureRunResult {
    /// Whether every capture was transcribed.
    pub fn completed_without_failures(&self) -> (r: bool)
        ensures
            r == (self.transcription_failures@.len() == 0),
    {
        self.transcription_failures.len() == 0
    }
}

/// Why a capture run stopped.
#[derive(Debug)]
pub enum CaptureError {
    Record(RecorderError),
    Transcribe(TranscriberError),
    Store(CaptureStoreError),
    Write(std::io::Error),
}

/// What the run does with one capture once the recorder has reported where
/// it ends.
#[derive(Debug, Clone, Copy, PartialEq, Eq, Structural)]
pub struct CaptureStep {
    /// The stretch of audio to cut and transcribe.
    pub range: CaptureRange,
    /// Whether the recording ends with this capture.
    pub finish_recording: bool,
    /// Where the next capture starts, when there is one.
    pub next_start_offset_ms: u64,
}

/// `a - b`, or zero where `b` exceeds `a`.
pub open spec fn saturating_diff(a: u64, b: u64) -> u64 {
    if a >= b {
        (a - b) as u64
    } else {
        0
    }
}

/// Where a capture that starts at `start_ms` and lasts `duration_ms` ends
/// (held at `u64::MAX`).
pub open spec fn capture_end(start_ms: u64, duration_ms: u64) -> u64 {
    if start_ms + duration_ms <= u64::MAX {
        (start_ms + duration_ms) as u64
    } else {
        u64::MAX
    }
}

/// A capture that the recording limit cut at its full length gets one more
/// capture after it, starting one overlap earlier, so that the words cut at
/// its end are heard again.
pub open spec fn needs_overlap_tail(policy: CapturePolicy, start_ms: u64, boundary: CaptureBoundary) -> bool {
    let end = capture_end(start_ms, boundary.duration_ms);
    let next_overlap_start = saturating_diff(end, policy.capture_overlap_ms);
    &&& boundary.reason == CaptureBoundaryReason::MaxDuration
    &&& end >= policy.recording_duration_ms
    &&& boundary.duration_ms == policy.capture_duration_ms
    &&& policy.capture_overlap_ms > 0
    &&& next_overlap_start > start_ms
    &&& next_overlap_start < policy.recording_duration_ms
}

/// The step that follows a boundary: none for an empty capture; otherwise
/// the capture itself, whether the recording ends with it, and where the
/// next capture starts (at the pause after a silence boundary, one overlap
/// before the end after a limit boundary).
pub open spec fn spec_plan_capture_step(
    policy: CapturePolicy,
    capture_index: u64,
    start_ms: u64,
    boundary: CaptureBoundary,
) -> Option<CaptureStep> {
    if boundary.duration_ms == 0 {
        None
    } else {
        let end = capture_end(start_ms, boundary.duration_ms);
        let reached_end = end >= policy.recording_duration_ms;
        Some(
            CaptureStep {
                range: CaptureRange {
                    capture_index,
                    start_offset_ms: start_ms,
                    duration_ms: boundary.duration_ms,
                },
                finish_recording: boundary.reason == CaptureBoundaryReason::Interrupted || (
                reached_end && !needs_overlap_tail(policy, start_ms, boundary)),
                next_start_offset_ms: match boundary.reason {
                    CaptureBoundaryReason::MaxDuration => saturating_diff(
                        end,
                        policy.capture_overlap_ms,
                    ),
                    _ => end,
                },
            },
        )
    }
}

/// Decides what to do with the capture that started at `start_ms`, given
/// where the recorder ended it.
pub fn plan_capture_step(
    policy: &CapturePolicy,
    capture_index: u64,
    start_ms: u64,
    boundary: CaptureBoundary,
) -> (r: Option<CaptureStep>)
    ensures
        r == spec_plan_capture_step(*policy, capture_index, start_ms, boundary),
{
    if boundary.duration_ms == 0 {
        return None;
    }
    let end = start_ms.saturating_add(boundary.duration_ms);
    let reached_end = end >= policy.recording_duration_ms;
    let next_overlap_start = end.saturating_sub(policy.capture_overlap_ms);
    let is_max = match boundary.reason {
        CaptureBoundaryReason::MaxDuration => true,
        _ => false,
    };
    let is_interrupted = match boundary.reason {
        CaptureBoundaryReason::Interrupted => true,
        _ => false,
    };
    let tail = is_max && reached_end && boundary.duration_ms == policy.capture_duration_ms
        && policy.capture_overlap_ms > 0 && next_overlap_start > start_ms && next_overlap_start
        < policy.recording_duration_ms;
    let next_start = if is_max {
        next_overlap_start
    } else {
        end
    };
    Some(
        CaptureStep {
            range: CaptureRange {
                capture_index,
                start_offset_ms: start_ms,
                duration_ms: boundary.duration_ms,
            },
            finish_recording: is_interrupted || (reached_end && !tail),
            next_start_offset_ms: next_start,
        },
    )
}

/// After a pause, the next capture starts exactly where this one ended: no
/// audio is sent twice.
pub proof fn silence_boundary_starts_next_capture_at_its_end(
    policy: CapturePolicy,
    capture_index: u64,
    start_ms: u64,
    boundary: CaptureBoundary,
)
    requires
        boundary.reason == CaptureBoundaryReason::Silence,
        boundary.duration_ms > 0,
        start_ms + boundary.duration_ms <= u64::MAX,
    ensures
        spec_plan_capture_step(policy, capture_index, start_ms, boundary) matches Some(step)
            && step.next_start_offset_ms == start_ms + boundary.duration_ms
            && step.range.start_offset_ms == start_ms,
{
}

/// After the capture limit, the next capture starts one overlap before this
/// one ended.
pub proof fn limit_boundary_overlaps_next_capture(
    policy: CapturePolicy,
    capture_index: u64,
    start_ms: u64,
    boundary: CaptureBoundary,
)
    requires
        boundary.reason == CaptureBoundaryReason::MaxDuration,
        boundary.duration_ms > 0,
        start_ms + boundary.duration_ms <= u64::MAX,
        start_ms + boundary.duration_ms >= policy.capture_overlap_ms,
    ensures
        spec_plan_capture_step(policy, capture_index, start_ms, boundary) matches Some(step)
            && step.next_start_offset_ms == start_ms + boundary.duration_ms
            - policy.capture_overlap_ms,
{
}

/// An interruption always ends the recording with the capture in hand.
pub proof fn interruption_finishes_recording(
    policy: CapturePolicy,
    capture_index: u64,
    start_ms: u64,
    boundary: CaptureBoundary,
)
    requires
        boundary.reason == CaptureBoundaryReason::Interrupted,
        boundary.duration_ms > 0,
    ensures
        spec_plan_capture_step(policy, capture_index, start_ms, boundary) matches Some(step)
            && step.finish_recording,
{
}

/// A capture that reaches the end of the recording ends it, unless it is a
/// full-length limit capture that leaves an overlap tail to hear again;
/// a capture that ends before the recording does not end it (absent an
/// interruption).
pub proof fn recording_ends_at_its_duration(
    policy: CapturePolicy,
    capture_index: u64,
    start_ms: u64,
    boundary: CaptureBoundary,
)
    requires
        boundary.duration_ms > 0,
        boundary.reason != CaptureBoundaryReason::Interrupted,
    ensures
        spec_plan_capture_step(policy, capture_index, start_ms, boundary) matches Some(step)
            && step.finish_recording == (capture_end(start_ms, boundary.duration_ms)
            >= policy.recording_duration_ms && !needs_overlap_tail(policy, start_ms, boundary)),
{
}

/// When the recorder cuts at the limit it promises (the capture length, or
/// what is left of the recording) and the overlap is shorter than a
/// capture, every capture that does not end the recording moves the next
/// one forward, so the run advances through the recording.
pub proof fn captures_advance_through_the_recording(
    policy: CapturePolicy,
    capture_index: u64,
    start_ms: u64,
    boundary: CaptureBoundary,
)
    requires
        policy.capture_overlap_ms < policy.capture_duration_ms,
        start_ms < policy.recording_duration_ms,
        boundary.reason == CaptureBoundaryReason::MaxDuration ==> boundary.duration_ms == (if policy.recording_duration_ms - start_ms < policy.capture_duration_ms {
            policy.recording_duration_ms - start_ms
        } else {
            policy.capture_duration_ms as int
        }),
        boundary.duration_ms > 0,
    ensures
        spec_plan_capture_step(policy, capture_index, start_ms, boundary) matches Some(step) && (
        !step.finish_recording ==> step.next_start_offset_ms > start_ms),
{
}

/// The model a source's captures are transcribed with: the plain model
/// where the source has a single named speaker, the configured one
/// otherwise.
pub open spec fn spec_model_for(configured: &'static str, label: SpeakerLabel) -> Seq<char> {
    match label {
        SpeakerLabel::Fixed(_) => SIMPLE_TRANSCRIPTION_MODEL@,
        SpeakerLabel::KeepOriginal => configured@,
    }
}

/// The model a source's captures are transcribed with.
pub fn model_for(configured: &'static str, label: &SpeakerLabel) -> (r: &'static str)
    ensures
        r@ == spec_model_for(configured, *label),
{
    match label {
        SpeakerLabel::Fixed(_) => SIMPLE_TRANSCRIPTION_MODEL,
        SpeakerLabel::KeepOriginal => configured,
    }
}

/// The name recorded in the session metadata for a fixed speaker.
pub open spec fn spec_fixed_speaker_name(label: SpeakerLabel) -> Option<String> {
    match label {
        SpeakerLabel::KeepOriginal => None,
        SpeakerLabel::Fixed(name) => Some(name),
    }
}

/// The fixed speaker's name, if there is one.
pub fn fixed_speaker_name(label: &SpeakerLabel) -> (r: Option<String>)
    ensures
        r == spec_fixed_speaker_name(*label),
{
    match label {
        SpeakerLabel::KeepOriginal => None,
        SpeakerLabel::Fixed(name) => Some(name.clone()),
    }
}

/// `segment` with its speaker renamed under `label`.
pub open spec fn labelled_segment(segment: TranscriptSegment, label: SpeakerLabel) -> TranscriptSegment {
    match label {
        SpeakerLabel::KeepOriginal => segment,
        SpeakerLabel::Fixed(name) => TranscriptSegment { speaker: name, ..segment },
    }
}

/// Renames every utterance's speaker to the fixed name, if there is one;
/// the text and the times are kept.
pub fn apply_speaker_label(transcript: DiarizedTranscript, label: &SpeakerLabel) -> (r:
    DiarizedTranscript)
    ensures
        r.text == transcript.text,
        r.segments@.len() == transcript.segments@.len(),
        forall|i: int|
            0 <= i < r.segments@.len() ==> r.segments@[i] == labelled_segment(
                transcript.segments@[i],
                *label,
            ),
{
    match label {
        SpeakerLabel::KeepOriginal => transcript,
        SpeakerLabel::Fixed(name) => {
            let mut segments: Vec<TranscriptSegment> = Vec::new();
            let mut i: usize = 0;
            while i < transcript.segments.len()
                invariant
                    *label == SpeakerLabel::Fixed(*name),
                    i <= transcript.segments.len(),
                    segments@.len() == i,
                    forall|k: int|
                        0 <= k < i ==> segments@[k] == labelled_segment(
                            transcript.segments@[k],
                            *label,
                        ),
                decreases transcript.segments.len() - i,
            {
                let s = &transcript.segments[i];
                segments.push(
                    TranscriptSegment {
                        speaker: copy_string(name),
                        start_ms: s.start_ms,
                        end_ms: s.end_ms,
                        text: copy_string(&s.text),
                    },
                );
                i = i + 1;
            }
            DiarizedTranscript { text: transcript.text, segments }
        },
    }
}

/// Only a failure to send the request is worth skipping the capture for;
/// every other transcription failure stops the run.
pub fn is_recoverable_transcription_error(error: &TranscriberError) -> (r: bool)
    ensures
        r == (*error is SendRequest),
{
    match error {
        TranscriberError::SendRequest(_) => true,
        _ => false,
    }
}

/// The record of a capture whose transcription failed.
pub fn transcription_failure(range: &CaptureRange, error: &TranscriberError) -> (r:
    CaptureTranscriptionFailure)
    ensures
        r.capture_index == range.capture_index,
        r.capture_start_ms == range.start_offset_ms,
        r.message@ == transcriber_error_prefix(*error) + transcriber_error_detail(*error),
{
    CaptureTranscriptionFailure {
        capture_index: range.capture_index,
        capture_start_ms: range.start_offset_ms,
        message: error.message(),
    }
}

/// The metadata recorded for a session with these settings.
pub fn session_metadata(config: &CaptureConfig, label: &SpeakerLabel) -> (r: CaptureSessionMetadata)
    ensures
        r.recording_duration_ms == config.capture_policy.recording_duration_ms,
        r.capture_duration_ms == config.capture_policy.capture_duration_ms,
        r.capture_overlap_ms == config.capture_policy.capture_overlap_ms,
        r.capture_silence_threshold_dbfs == config.silence_request_policy.silence_threshold_dbfs,
        r.capture_silence_min_duration_ms == config.silence_request_policy.silence_min_duration_ms,
        r.capture_tail_silence_min_duration_ms
            == config.silence_request_policy.tail_silence_min_duration_ms,
        r.transcription_model@ == spec_model_for(config.transcription_model, *label),
        r.transcription_language@ == (match config.transcription_language {
            TranscriptionLanguage::Auto => "auto"@,
            TranscriptionLanguage::Fixed(code) => code@,
        }),
        r.response_format@ == "diarized_json"@,
        r.chunking_strategy@ == "auto"@,
        r.merge_policy == config.merge_policy,
        r.fixed_speaker == spec_fixed_speaker_name(*label),
{
    CaptureSessionMetadata {
        recording_duration_ms: config.capture_policy.recording_duration_ms,
        capture_duration_ms: config.capture_policy.capture_duration_ms,
        capture_overlap_ms: config.capture_policy.capture_overlap_ms,
        capture_silence_threshold_dbfs: config.silence_request_policy.silence_threshold_dbfs,
        capture_silence_min_duration_ms: config.silence_request_policy.silence_min_duration_ms,
        capture_tail_silence_min_duration_ms: config.silence_request_policy.tail_silence_min_duration_ms,
        transcription_model: model_for(config.transcription_model, label).to_owned(),
        transcription_language: config.transcription_language.display_text(),
        response_format: config.response_format.as_api_value().to_owned(),
        chunking_strategy: config.chunking_strategy.as_api_value().to_owned(),
        merge_policy: config.merge_policy,
        fixed_speaker: fixed_speaker_name(label),
    }
}

/// `<prefix><n>`.
pub fn numbered_message(prefix: &str, n: u64) -> (r: String)
    ensures
        r@ == prefix@ + decimal_text(n as nat),
{
    let digits = decimal_string(n);
    concat2(prefix, digits.as_str())
}

/// The closing message of a run in which some captures failed.
pub fn partial_failure_summary(succeeded: u64, failed: u64) -> (r: String)
    requires
        succeeded + failed <= u64::MAX,
    ensures
        r@ == "capture run completed with partial transcription failures: succeeded="@
            + decimal_text(succeeded as nat) + " failed="@ + decimal_text(failed as nat)
            + " total="@ + decimal_text((succeeded + failed) as nat),
{
    let a = numbered_message(
        "capture run completed with partial transcription failures: succeeded=",
        succeeded,
    );
    let b = numbered_message(" failed=", failed);
    let c = numbered_message(" total=", succeeded + failed);
    let ab = concat2(a.as_str(), b.as_str());
    let r = concat2(ab.as_str(), c.as_str());
    assert(r@ =~= "capture run completed with partial transcription failures: succeeded="@
        + decimal_text(succeeded as nat) + " failed="@ + decimal_text(failed as nat)
        + " total="@ + decimal_text((succeeded + failed) as nat));
    r
}

/// Writes a progress message.
fn log_info(logger: &dyn Logger, message: &str) -> (r: Result<(), CaptureError>)
    ensures
        r matches Err(e) ==> e is Write,
{
    match logger.info(message) {
        Ok(()) => Ok(()),
        Err(e) => Err(CaptureError::Write(e)),
    }
}

/// Lets the recording session go, which stops the recording.
fn release_session<S>(session: S) {
}

/// Whether `message` reports a failure to send a transcription request.
pub open spec fn is_send_failure_message(message: Seq<char>) -> bool {
    &&& message.len() >= "failed to send transcription request: "@.len()
    &&& message.subrange(0, "failed to send transcription request: "@.len() as int)
        == "failed to send transcription request: "@
}

/// Whether the failures are numbered strictly upwards from 1, all below
/// `bound`, and each reports a failure to send a request.
pub open spec fn failures_well_ordered(failures: Seq<CaptureTranscriptionFailure>, bound: int) -> bool {
    &&& forall|i: int|
        0 <= i < failures.len() ==> 1 <= #[trigger] failures[i].capture_index < bound
    &&& forall|i: int, j: int|
        0 <= i < j < failures.len() ==> failures[i].capture_index < failures[j].capture_index
    &&& forall|i: int|
        0 <= i < failures.len() ==> is_send_failure_message((#[trigger] failures[i]).message@)
}

/// Whether, under a fixed speaker, every utterance of every transcript
/// carries that speaker's name.
pub open spec fn transcripts_labelled(transcripts: Seq<DiarizedTranscript>, label: SpeakerLabel) -> bool {
    forall|i: int, k: int|
        0 <= i < transcripts.len() && 0 <= k < transcripts[i].segments@.len() ==> (
        label matches SpeakerLabel::Fixed(name) ==> (#[trigger] transcripts[i].segments@[k]).speaker
            == name)
}

/// Whether every failed capture started before the recording's end.
pub open spec fn failures_within(failures: Seq<CaptureTranscriptionFailure>, recording_duration_ms: u64) -> bool {
    forall|i: int| 0 <= i < failures.len() ==> (#[trigger] failures[i]).capture_start_ms < recording_duration_ms
}

/// Whether `l` is the transcript `t` with the speaker label applied.
pub open spec fn labelled_as(l: DiarizedTranscript, t: DiarizedTranscript, label: SpeakerLabel) -> bool {
    &&& l.text == t.text
    &&& l.segments@.len() == t.segments@.len()
    &&& forall|i: int|
        0 <= i < l.segments@.len() ==> #[trigger] l.segments@[i] == labelled_segment(
            t.segments@[i],
            label,
        )
}

/// Whether a request sent `audio` with the run's known speakers, model,
/// language, response format and chunking.
pub open spec fn request_for(
    call: TranscriberCall,
    audio: RecordedAudio,
    speaker_samples: Seq<KnownSpeakerSample>,
    config: CaptureConfig,
    label: SpeakerLabel,
) -> bool {
    &&& call.audio == audio
    &&& call.speaker_samples == speaker_samples
    &&& call.model == spec_model_for(config.transcription_model, label)
    &&& call.language == match config.transcription_language {
        TranscriptionLanguage::Auto => None,
        TranscriptionLanguage::Fixed(code) => Some(code@),
    }
    &&& call.response_format == config.response_format
    &&& call.chunking_strategy == config.chunking_strategy
}

/// Whether the service's answer lets the run go on: a transcript, or a
/// request that could not be sent.
pub open spec fn answer_continues(call: TranscriberCall) -> bool {
    call.result is Ok || call.result matches Err(TranscriberError::SendRequest(_))
}

/// The store calls that hold a capture's audio, in order.
pub open spec fn audio_calls(calls: Seq<CaptureStoreCall>) -> Seq<CaptureStoreCall>
    decreases calls.len(),
{
    if calls.len() == 0 {
        Seq::empty()
    } else if calls.last() is Audio {
        audio_calls(calls.drop_last()).push(calls.last())
    } else {
        audio_calls(calls.drop_last())
    }
}

/// The store calls that hold a capture's transcript, in order.
pub open spec fn transcript_calls(calls: Seq<CaptureStoreCall>) -> Seq<CaptureStoreCall>
    decreases calls.len(),
{
    if calls.len() == 0 {
        Seq::empty()
    } else if calls.last() is Transcript {
        transcript_calls(calls.drop_last()).push(calls.last())
    } else {
        transcript_calls(calls.drop_last())
    }
}

/// The segments handed to the store's merged transcript, call after call.
pub open spec fn merged_stored(calls: Seq<CaptureStoreCall>) -> Seq<MergedTranscriptSegment>
    decreases calls.len(),
{
    if calls.len() == 0 {
        Seq::empty()
    } else if calls.last() is MergedSegments {
        merged_stored(calls.drop_last()) + calls.last()->MergedSegments_segments
    } else {
        merged_stored(calls.drop_last())
    }
}

/// How many requests the service answered with a transcript.
pub open spec fn transcribed_count(calls: Seq<TranscriberCall>) -> nat
    decreases calls.len(),
{
    if calls.len() == 0 {
        0
    } else if calls.last().result is Ok {
        transcribed_count(calls.drop_last()) + 1
    } else {
        transcribed_count(calls.drop_last())
    }
}

/// Whether the store call holds the labelled transcript of the `j`-th
/// request's answer, for capture `j + 1`.
pub open spec fn stores_answer(call: CaptureStoreCall, calls: Seq<TranscriberCall>, j: int, label: SpeakerLabel) -> bool {
    &&& 0 <= j < calls.len()
    &&& call matches CaptureStoreCall::Transcript { capture_index, transcript, .. }
    &&& capture_index == j + 1
    &&& calls[j].result is Ok
    &&& labelled_as(call->Transcript_transcript, calls[j].result->Ok_0, label)
}

/// Whether `m` records a session with these settings.
pub open spec fn records_settings(m: CaptureSessionMetadata, config: CaptureConfig, label: SpeakerLabel) -> bool {
    &&& m.recording_duration_ms == config.capture_policy.recording_duration_ms
    &&& m.capture_duration_ms == config.capture_policy.capture_duration_ms
    &&& m.capture_overlap_ms == config.capture_policy.capture_overlap_ms
    &&& m.capture_silence_threshold_dbfs == config.silence_request_policy.silence_threshold_dbfs
    &&& m.capture_silence_min_duration_ms == config.silence_request_policy.silence_min_duration_ms
    &&& m.capture_tail_silence_min_duration_ms
        == config.silence_request_policy.tail_silence_min_duration_ms
    &&& m.transcription_model@ == spec_model_for(config.transcription_model, label)
    &&& m.transcription_language@ == match config.transcription_language {
        TranscriptionLanguage::Auto => "auto"@,
        TranscriptionLanguage::Fixed(code) => code@,
    }
    &&& m.response_format@ == "diarized_json"@
    &&& m.chunking_strategy@ == "auto"@
    &&& m.merge_policy == config.merge_policy
    &&& m.fixed_speaker == spec_fixed_speaker_name(label)
}

/// What a run has asked of its store (`stored`) and of the transcriber
/// (`sent`) about its captures at any point: each capture's audio stored,
/// numbered from 1; each capture's audio sent, in the same order, with the
/// run's speakers, model, language and format; every answer but the latest
/// one a transcript or a failure to send; and the labelled transcript of an
/// answer stored under its capture's number, in order.
pub open spec fn captures_so_far(
    stored: Seq<CaptureStoreCall>,
    sent: Seq<TranscriberCall>,
    speaker_samples: Seq<KnownSpeakerSample>,
    config: CaptureConfig,
    label: SpeakerLabel,
) -> bool {
    &&& forall|j: int|
        0 <= j < audio_calls(stored).len() ==> ((#[trigger] audio_calls(stored)[j]) is Audio
            && audio_calls(stored)[j]->Audio_capture_index == j + 1)
    &&& sent.len() <= audio_calls(stored).len()
    &&& forall|j: int|
        0 <= j < sent.len() ==> request_for(
            #[trigger] sent[j],
            audio_calls(stored)[j]->Audio_audio,
            speaker_samples,
            config,
            label,
        )
    &&& forall|j: int| 0 <= j < sent.len() - 1 ==> answer_continues(#[trigger] sent[j])
    &&& forall|k: int|
        0 <= k < transcript_calls(stored).len() ==> stores_answer(
            #[trigger] transcript_calls(stored)[k],
            sent,
            transcript_calls(stored)[k]->Transcript_capture_index - 1,
            label,
        )
    &&& forall|a: int, b: int|
        0 <= a < b < transcript_calls(stored).len() ==> (#[trigger] transcript_calls(stored)[a])->Transcript_capture_index
            < (#[trigger] transcript_calls(stored)[b])->Transcript_capture_index
}

/// What a run has asked of its store and of the transcriber at any point:
/// the session's settings first, then its captures as `captures_so_far`
/// says.
pub open spec fn calls_so_far(
    stored: Seq<CaptureStoreCall>,
    sent: Seq<TranscriberCall>,
    speaker_samples: Seq<KnownSpeakerSample>,
    config: CaptureConfig,
    label: SpeakerLabel,
) -> bool {
    &&& stored.len() >= 1
    &&& stored[0] is SessionMetadata
    &&& records_settings(stored[0]->SessionMetadata_metadata, config, label)
    &&& captures_so_far(stored, sent, speaker_samples, config, label)
}

/// Whether each failure records the failed answer to its capture's request.
pub open spec fn failures_answered(failures: Seq<CaptureTranscriptionFailure>, sent: Seq<TranscriberCall>) -> bool {
    forall|i: int|
        0 <= i < failures.len() ==> {
            let f = #[trigger] failures[i];
            &&& 1 <= f.capture_index <= sent.len()
            &&& sent[f.capture_index - 1].result is Err
            &&& f.message@ == transcriber_error_prefix(sent[f.capture_index - 1].result->Err_0)
                + transcriber_error_detail(sent[f.capture_index - 1].result->Err_0)
        }
}

/// Whether the transcripts are those stored, in order.
pub open spec fn transcripts_stored(transcripts: Seq<DiarizedTranscript>, stored: Seq<CaptureStoreCall>) -> bool {
    &&& transcripts.len() == transcript_calls(stored).len()
    &&& forall|k: int|
        0 <= k < transcripts.len() ==> #[trigger] transcripts[k] == transcript_calls(
            stored,
        )[k]->Transcript_transcript
}

/// What a run that finished had asked and kept: every capture stored was
/// sent and answered with a transcript or a failure to send; each
/// transcript was stored, and is in the result in that order; each failure
/// is in the result; so the transcripts and the failures together count the
/// captures.
pub open spec fn run_finished(
    res: CaptureRunResult,
    stored: Seq<CaptureStoreCall>,
    sent: Seq<TranscriberCall>,
) -> bool {
    &&& audio_calls(stored).len() == sent.len()
    &&& forall|j: int| 0 <= j < sent.len() ==> answer_continues(#[trigger] sent[j])
    &&& transcript_calls(stored).len() == transcribed_count(sent)
    &&& transcripts_stored(res.transcripts@, stored)
    &&& failures_answered(res.transcription_failures@, sent)
    &&& res.transcripts@.len() + res.transcription_failures@.len() == sent.len()
    &&& res.merged_segments@ == merged_stored(stored)
    &&& stored.len() > 0
    &&& stored.last() is MergedSegments
}

/// A finished run's merged timeline is every list of segments the run
/// handed to the store's merged transcript, in order: the settled batches,
/// then, at its end, what the merger still held when the run finished.
pub proof fn finished_run_keeps_what_it_stored(
    res: CaptureRunResult,
    stored: Seq<CaptureStoreCall>,
    sent: Seq<TranscriberCall>,
)
    requires
        run_finished(res, stored, sent),
    ensures
        res.merged_segments@ == merged_stored(stored.drop_last()) + stored.last()->MergedSegments_segments,
        res.merged_segments@.len() >= stored.last()->MergedSegments_segments.len(),
        res.merged_segments@.subrange(
            res.merged_segments@.len() - stored.last()->MergedSegments_segments.len(),
            res.merged_segments@.len() as int,
        ) == stored.last()->MergedSegments_segments,
{
    let tail = stored.last()->MergedSegments_segments;
    let all = res.merged_segments@;
    assert(all.subrange(all.len() - tail.len(), all.len() as int) =~= tail);
}

/// The call that asks where capture `j + 1` ends, in a capture loop's
/// session calls.
pub open spec fn round_boundary(calls: Seq<SessionCall>, j: int) -> SessionCall {
    calls[2 * j]
}

/// The call that cuts capture `j + 1`.
pub open spec fn round_cut(calls: Seq<SessionCall>, j: int) -> SessionCall {
    calls[2 * j + 1]
}

/// The step planned for capture `j + 1` from the session's answer.
pub open spec fn round_step(calls: Seq<SessionCall>, policy: CapturePolicy, j: int) -> Option<CaptureStep> {
    spec_plan_capture_step(
        policy,
        (j + 1) as u64,
        round_boundary(calls, j)->CaptureBoundary_capture_start_offset_ms,
        round_boundary(calls, j)->CaptureBoundary_result->Ok_0,
    )
}

/// Whether the session was asked as the plan says. For capture `j + 1` it
/// is asked, with the run's policies, where the capture that starts at the
/// capture's offset ends, and then for the planned stretch. The first
/// capture starts at 0; each later one starts where the step before put
/// it, after a step that cut its audio and did not finish the recording.
pub open spec fn follows_plan(calls: Seq<SessionCall>, config: CaptureConfig) -> bool {
    &&& forall|j: int|
        0 <= j && 2 * j < calls.len() ==> {
            &&& (#[trigger] round_boundary(calls, j)) is CaptureBoundary
            &&& round_boundary(calls, j)->CaptureBoundary_capture_policy == config.capture_policy
            &&& round_boundary(calls, j)->CaptureBoundary_silence_request_policy
                == config.silence_request_policy
        }
    &&& calls.len() > 0 ==> round_boundary(calls, 0)->CaptureBoundary_capture_start_offset_ms == 0
    &&& forall|j: int|
        0 <= j && 2 * j + 1 < calls.len() ==> {
            &&& round_boundary(calls, j)->CaptureBoundary_result is Ok
            &&& (#[trigger] round_step(calls, config.capture_policy, j)) is Some
            &&& round_cut(calls, j) is CaptureWav
            &&& round_cut(calls, j)->CaptureWav_start_offset_ms == round_step(
                calls,
                config.capture_policy,
                j,
            )->0.range.start_offset_ms
            &&& round_cut(calls, j)->CaptureWav_duration_ms == round_step(
                calls,
                config.capture_policy,
                j,
            )->0.range.duration_ms
        }
    &&& forall|j: int|
        0 <= j && 2 * j + 2 < calls.len() ==> {
            &&& round_cut(calls, j)->CaptureWav_result is Ok
            &&& !(#[trigger] round_step(calls, config.capture_policy, j))->0.finish_recording
            &&& round_boundary(calls, j + 1)->CaptureBoundary_capture_start_offset_ms == round_step(
                calls,
                config.capture_policy,
                j,
            )->0.next_start_offset_ms
        }
}

/// Whether what the store and the failures hold of each capture is what
/// the session gave: the audio it cut, and the offset the capture started
/// at.
pub open spec fn cuts_stored(
    calls: Seq<SessionCall>,
    stored: Seq<CaptureStoreCall>,
    failures: Seq<CaptureTranscriptionFailure>,
) -> bool {
    &&& forall|j: int|
        0 <= j < audio_calls(stored).len() ==> 2 * j + 1 < calls.len() && (#[trigger] audio_calls(
            stored,
        )[j])->Audio_audio == round_cut(calls, j)->CaptureWav_result->Ok_0
    &&& forall|k: int|
        0 <= k < transcript_calls(stored).len() ==> {
            let j = (#[trigger] transcript_calls(stored)[k])->Transcript_capture_index - 1;
            &&& 0 <= j && 2 * j + 1 < calls.len()
            &&& transcript_calls(stored)[k]->Transcript_capture_start_ms == round_cut(
                calls,
                j,
            )->CaptureWav_start_offset_ms
        }
    &&& forall|i: int|
        0 <= i < failures.len() ==> {
            let j = (#[trigger] failures[i]).capture_index - 1;
            &&& 0 <= j && 2 * j + 1 < calls.len()
            &&& failures[i].capture_start_ms == round_cut(calls, j)->CaptureWav_start_offset_ms
        }
}

/// Where capture `n + 1` starts: at 0 for the first, else where the step
/// before put it.
pub open spec fn next_start(calls: Seq<SessionCall>, policy: CapturePolicy, n: int) -> u64 {
    if n == 0 {
        0
    } else {
        round_step(calls, policy, n - 1)->0.next_start_offset_ms
    }
}

/// Asking where capture `n + 1` ends, where the plan puts it, keeps the
/// session calls as planned.
proof fn boundary_asked(calls: Seq<SessionCall>, call: SessionCall, config: CaptureConfig, n: int)
    requires
        follows_plan(calls, config),
        n >= 0,
        calls.len() == 2 * n,
        n >= 1 ==> round_cut(calls, n - 1)->CaptureWav_result is Ok,
        n >= 1 ==> !round_step(calls, config.capture_policy, n - 1)->0.finish_recording,
        call is CaptureBoundary,
        call->CaptureBoundary_capture_start_offset_ms == next_start(calls, config.capture_policy, n),
        call->CaptureBoundary_capture_policy == config.capture_policy,
        call->CaptureBoundary_silence_request_policy == config.silence_request_policy,
    ensures
        follows_plan(calls.push(call), config),
        round_boundary(calls.push(call), n) == call,
        forall|j: int|
            0 <= j < n ==> #[trigger] round_step(calls.push(call), config.capture_policy, j)
                == round_step(calls, config.capture_policy, j),
        forall|j: int| 0 <= j < n ==> #[trigger] round_cut(calls.push(call), j) == round_cut(calls, j),
{
    let after = calls.push(call);
    assert forall|j: int| 0 <= j && 2 * j < calls.len() implies #[trigger] round_boundary(after, j)
        == round_boundary(calls, j) by {}
    assert forall|j: int| 0 <= j && 2 * j + 1 < calls.len() implies #[trigger] round_cut(after, j)
        == round_cut(calls, j) by {}
    assert forall|j: int| 0 <= j < n implies #[trigger] round_step(after, config.capture_policy, j)
        == round_step(calls, config.capture_policy, j) by {
        assert(round_boundary(after, j) == round_boundary(calls, j));
    }
    assert forall|j: int| 0 <= j && 2 * j < after.len() implies {
        &&& (#[trigger] round_boundary(after, j)) is CaptureBoundary
        &&& round_boundary(after, j)->CaptureBoundary_capture_policy == config.capture_policy
        &&& round_boundary(after, j)->CaptureBoundary_silence_request_policy
            == config.silence_request_policy
    } by {
        if j < n {
            assert(round_boundary(after, j) == round_boundary(calls, j));
            assert(round_boundary(calls, j) is CaptureBoundary);
        }
    }
    assert forall|j: int| 0 <= j && 2 * j + 1 < after.len() implies {
        &&& round_boundary(after, j)->CaptureBoundary_result is Ok
        &&& (#[trigger] round_step(after, config.capture_policy, j)) is Some
        &&& round_cut(after, j) is CaptureWav
        &&& round_cut(after, j)->CaptureWav_start_offset_ms == round_step(
            after,
            config.capture_policy,
            j,
        )->0.range.start_offset_ms
        &&& round_cut(after, j)->CaptureWav_duration_ms == round_step(
            after,
            config.capture_policy,
            j,
        )->0.range.duration_ms
    } by {
        assert(round_boundary(after, j) == round_boundary(calls, j));
        assert(round_cut(after, j) == round_cut(calls, j));
        assert(round_step(calls, config.capture_policy, j) is Some);
    }
    assert forall|j: int| 0 <= j && 2 * j + 2 < after.len() implies {
        &&& round_cut(after, j)->CaptureWav_result is Ok
        &&& !(#[trigger] round_step(after, config.capture_policy, j))->0.finish_recording
        &&& round_boundary(after, j + 1)->CaptureBoundary_capture_start_offset_ms == round_step(
            after,
            config.capture_policy,
            j,
        )->0.next_start_offset_ms
    } by {
        assert(round_cut(after, j) == round_cut(calls, j));
        if j < n - 1 {
            assert(round_boundary(after, j + 1) == round_boundary(calls, j + 1));
            assert(round_step(calls, config.capture_policy, j) is Some);
        }
    }
    if n > 0 {
        assert(round_boundary(after, 0) == round_boundary(calls, 0));
    }
}

/// Cutting the planned stretch of capture `n + 1` keeps the session calls
/// as planned.
proof fn cut_made(calls: Seq<SessionCall>, call: SessionCall, config: CaptureConfig, n: int)
    requires
        follows_plan(calls, config),
        n >= 0,
        calls.len() == 2 * n + 1,
        round_boundary(calls, n)->CaptureBoundary_result is Ok,
        round_step(calls, config.capture_policy, n) is Some,
        call is CaptureWav,
        call->CaptureWav_start_offset_ms == round_step(calls, config.capture_policy, n)->0.range.start_offset_ms,
        call->CaptureWav_duration_ms == round_step(calls, config.capture_policy, n)->0.range.duration_ms,
    ensures
        follows_plan(calls.push(call), config),
        round_cut(calls.push(call), n) == call,
        forall|j: int|
            0 <= j <= n ==> #[trigger] round_step(calls.push(call), config.capture_policy, j)
                == round_step(calls, config.capture_policy, j),
        forall|j: int| 0 <= j < n ==> #[trigger] round_cut(calls.push(call), j) == round_cut(calls, j),
{
    let after = calls.push(call);
    assert forall|j: int| 0 <= j && 2 * j < calls.len() implies #[trigger] round_boundary(after, j)
        == round_boundary(calls, j) by {}
    assert forall|j: int| 0 <= j && 2 * j + 1 < calls.len() implies #[trigger] round_cut(after, j)
        == round_cut(calls, j) by {}
    assert forall|j: int| 0 <= j <= n implies #[trigger] round_step(after, config.capture_policy, j)
        == round_step(calls, config.capture_policy, j) by {
        assert(round_boundary(after, j) == round_boundary(calls, j));
    }
    assert forall|j: int| 0 <= j && 2 * j < after.len() implies {
        &&& (#[trigger] round_boundary(after, j)) is CaptureBoundary
        &&& round_boundary(after, j)->CaptureBoundary_capture_policy == config.capture_policy
        &&& round_boundary(after, j)->CaptureBoundary_silence_request_policy
            == config.silence_request_policy
    } by {
        assert(round_boundary(after, j) == round_boundary(calls, j));
        assert(round_boundary(calls, j) is CaptureBoundary);
    }
    assert forall|j: int| 0 <= j && 2 * j + 1 < after.len() implies {
        &&& round_boundary(after, j)->CaptureBoundary_result is Ok
        &&& (#[trigger] round_step(after, config.capture_policy, j)) is Some
        &&& round_cut(after, j) is CaptureWav
        &&& round_cut(after, j)->CaptureWav_start_offset_ms == round_step(
            after,
            config.capture_policy,
            j,
        )->0.range.start_offset_ms
        &&& round_cut(after, j)->CaptureWav_duration_ms == round_step(
            after,
            config.capture_policy,
            j,
        )->0.range.duration_ms
    } by {
        assert(round_boundary(after, j) == round_boundary(calls, j));
        if j < n {
            assert(round_cut(after, j) == round_cut(calls, j));
            assert(round_step(calls, config.capture_policy, j) is Some);
        }
    }
    assert forall|j: int| 0 <= j && 2 * j + 2 < after.len() implies {
        &&& round_cut(after, j)->CaptureWav_result is Ok
        &&& !(#[trigger] round_step(after, config.capture_policy, j))->0.finish_recording
        &&& round_boundary(after, j + 1)->CaptureBoundary_capture_start_offset_ms == round_step(
            after,
            config.capture_policy,
            j,
        )->0.next_start_offset_ms
    } by {
        assert(round_cut(after, j) == round_cut(calls, j));
        assert(round_boundary(after, j + 1) == round_boundary(calls, j + 1));
        assert(round_step(calls, config.capture_policy, j) is Some);
    }
    if n > 0 {
        assert(round_boundary(after, 0) == round_boundary(calls, 0));
    } else {
        assert(round_boundary(after, 0) == round_boundary(calls, 0));
    }
}

/// More session calls keep what was stored of the cuts already made.
proof fn cuts_kept(
    calls: Seq<SessionCall>,
    more: Seq<SessionCall>,
    stored: Seq<CaptureStoreCall>,
    failures: Seq<CaptureTranscriptionFailure>,
)
    requires
        cuts_stored(calls, stored, failures),
    ensures
        cuts_stored(calls + more, stored, failures),
{
    let after = calls + more;
    assert forall|j: int| 0 <= j && 2 * j + 1 < calls.len() implies #[trigger] round_cut(after, j)
        == round_cut(calls, j) by {}
    assert forall|j: int| 0 <= j < audio_calls(stored).len() implies 2 * j + 1 < after.len() && (
    #[trigger] audio_calls(stored)[j])->Audio_audio == round_cut(after, j)->CaptureWav_result->Ok_0 by {
        assert(round_cut(after, j) == round_cut(calls, j));
    }
    assert forall|k: int| 0 <= k < transcript_calls(stored).len() implies {
        let j = (#[trigger] transcript_calls(stored)[k])->Transcript_capture_index - 1;
        &&& 0 <= j && 2 * j + 1 < after.len()
        &&& transcript_calls(stored)[k]->Transcript_capture_start_ms == round_cut(
            after,
            j,
        )->CaptureWav_start_offset_ms
    } by {
        let j = transcript_calls(stored)[k]->Transcript_capture_index - 1;
        assert(round_cut(after, j) == round_cut(calls, j));
    }
    assert forall|i: int| 0 <= i < failures.len() implies {
        let j = (#[trigger] failures[i]).capture_index - 1;
        &&& 0 <= j && 2 * j + 1 < after.len()
        &&& failures[i].capture_start_ms == round_cut(after, j)->CaptureWav_start_offset_ms
    } by {
        let j = failures[i].capture_index - 1;
        assert(round_cut(after, j) == round_cut(calls, j));
    }
}

/// Filing capture `n + 1` (its cut audio, and its transcript or its
/// failure) keeps what was stored of the cuts.
proof fn capture_filed(
    calls: Seq<SessionCall>,
    stored: Seq<CaptureStoreCall>,
    audio_call: CaptureStoreCall,
    more_stored: Seq<CaptureStoreCall>,
    failures: Seq<CaptureTranscriptionFailure>,
    more_failures: Seq<CaptureTranscriptionFailure>,
    n: int,
)
    requires
        cuts_stored(calls, stored, failures),
        audio_calls(stored).len() == n,
        2 * n + 1 < calls.len(),
        audio_call is Audio,
        audio_call->Audio_capture_index == n + 1,
        audio_call->Audio_audio == round_cut(calls, n)->CaptureWav_result->Ok_0,
        audio_calls(more_stored).len() == 0,
        transcript_calls(more_stored).len() <= 1,
        transcript_calls(more_stored).len() == 1 ==> {
            &&& transcript_calls(more_stored)[0]->Transcript_capture_index == n + 1
            &&& transcript_calls(more_stored)[0]->Transcript_capture_start_ms == round_cut(
                calls,
                n,
            )->CaptureWav_start_offset_ms
        },
        more_failures.len() <= 1,
        more_failures.len() == 1 ==> {
            &&& more_failures[0].capture_index == n + 1
            &&& more_failures[0].capture_start_ms == round_cut(calls, n)->CaptureWav_start_offset_ms
        },
    ensures
        cuts_stored(calls, stored.push(audio_call) + more_stored, failures + more_failures),
{
    let st = stored.push(audio_call);
    let all = st + more_stored;
    let fs = failures + more_failures;
    assert(st.drop_last() =~= stored);
    store_calls_split(st, more_stored);
    assert(audio_calls(st) =~= audio_calls(stored).push(audio_call));
    assert(transcript_calls(st) =~= transcript_calls(stored));
    assert(audio_calls(all) =~= audio_calls(stored).push(audio_call));
    assert forall|j: int| 0 <= j < audio_calls(all).len() implies 2 * j + 1 < calls.len() && (
    #[trigger] audio_calls(all)[j])->Audio_audio == round_cut(calls, j)->CaptureWav_result->Ok_0 by {
        if j < n {
            assert(audio_calls(all)[j] == audio_calls(stored)[j]);
        }
    }
    assert forall|k: int| 0 <= k < transcript_calls(all).len() implies {
        let j = (#[trigger] transcript_calls(all)[k])->Transcript_capture_index - 1;
        &&& 0 <= j && 2 * j + 1 < calls.len()
        &&& transcript_calls(all)[k]->Transcript_capture_start_ms == round_cut(
            calls,
            j,
        )->CaptureWav_start_offset_ms
    } by {
        if k < transcript_calls(stored).len() {
            assert(transcript_calls(all)[k] == transcript_calls(stored)[k]);
        } else {
            assert(transcript_calls(all)[k] == transcript_calls(more_stored)[0]);
        }
    }
    assert forall|i: int| 0 <= i < fs.len() implies {
        let j = (#[trigger] fs[i]).capture_index - 1;
        &&& 0 <= j && 2 * j + 1 < calls.len()
        &&& fs[i].capture_start_ms == round_cut(calls, j)->CaptureWav_start_offset_ms
    } by {
        if i < failures.len() {
            assert(fs[i] == failures[i]);
        } else {
            assert(fs[i] == more_failures[0]);
        }
    }
}

/// The session's settings stored first keep what the run asked of its
/// captures.
proof fn settings_first(
    settings: CaptureStoreCall,
    rest: Seq<CaptureStoreCall>,
    sent: Seq<TranscriberCall>,
    speaker_samples: Seq<KnownSpeakerSample>,
    config: CaptureConfig,
    label: SpeakerLabel,
)
    requires
        settings is SessionMetadata,
        records_settings(settings->SessionMetadata_metadata, config, label),
        captures_so_far(rest, sent, speaker_samples, config, label),
    ensures
        calls_so_far(seq![settings] + rest, sent, speaker_samples, config, label),
        audio_calls(seq![settings] + rest) == audio_calls(rest),
        transcript_calls(seq![settings] + rest) == transcript_calls(rest),
        merged_stored(seq![settings] + rest) == merged_stored(rest),
{
    let one = seq![settings];
    store_calls_split(one, rest);
    assert(one.drop_last() =~= Seq::<CaptureStoreCall>::empty());
    assert(audio_calls(Seq::<CaptureStoreCall>::empty()) =~= Seq::<CaptureStoreCall>::empty());
    assert(transcript_calls(Seq::<CaptureStoreCall>::empty()) =~= Seq::<CaptureStoreCall>::empty());
    assert(audio_calls(one) =~= Seq::<CaptureStoreCall>::empty());
    assert(transcript_calls(one) =~= Seq::<CaptureStoreCall>::empty());
    assert(merged_stored(Seq::<CaptureStoreCall>::empty()) =~= Seq::<MergedTranscriptSegment>::empty());
    assert(merged_stored(one) =~= Seq::<MergedTranscriptSegment>::empty());
    assert(merged_stored(one + rest) =~= merged_stored(rest));
    assert(audio_calls(one + rest) =~= audio_calls(rest));
    assert(transcript_calls(one + rest) =~= transcript_calls(rest));
    assert((one + rest)[0] == settings);
}

/// Whether `capture` places a stored transcript on the recording's time
/// axis: its utterances shifted by its capture's start.
pub open spec fn places(capture: CapturedTranscript, call: CaptureStoreCall) -> bool {
    &&& capture.capture_index == call->Transcript_capture_index
    &&& capture.capture_start_ms == call->Transcript_capture_start_ms
    &&& capture.segments@.len() == call->Transcript_transcript.segments@.len()
    &&& forall|i: int|
        0 <= i < capture.segments@.len() ==> #[trigger] capture.segments@[i] == shifted_segment(
            call->Transcript_transcript.segments@[i],
            call->Transcript_capture_start_ms,
        )
}

/// Whether the merger was handed the stored transcripts, in order, each
/// placed on the recording's time axis.
pub open spec fn merger_given(handed: Seq<CapturedTranscript>, stored: Seq<CaptureStoreCall>) -> bool {
    &&& handed.len() <= transcript_calls(stored).len()
    &&& forall|k: int| 0 <= k < handed.len() ==> places(#[trigger] handed[k], transcript_calls(stored)[k])
}

/// Handing the merger the transcript just stored keeps it given the
/// stored transcripts.
proof fn merge_recorded(
    handed: Seq<CapturedTranscript>,
    more_handed: Seq<CapturedTranscript>,
    stored: Seq<CaptureStoreCall>,
    more_stored: Seq<CaptureStoreCall>,
)
    requires
        merger_given(handed, stored),
        handed.len() == transcript_calls(stored).len(),
        transcript_calls(stored + more_stored) == transcript_calls(stored) + transcript_calls(more_stored),
        more_handed.len() <= transcript_calls(more_stored).len(),
        more_handed.len() <= 1,
        more_handed.len() == 1 ==> places(more_handed[0], transcript_calls(more_stored)[0]),
    ensures
        merger_given(handed + more_handed, stored + more_stored),
{
    let all = handed + more_handed;
    assert forall|k: int| 0 <= k < all.len() implies places(
        #[trigger] all[k],
        transcript_calls(stored + more_stored)[k],
    ) by {
        if k < handed.len() {
            assert(all[k] == handed[k]);
            assert(transcript_calls(stored + more_stored)[k] == transcript_calls(stored)[k]);
        } else {
            assert(all[k] == more_handed[0]);
            assert(transcript_calls(stored + more_stored)[k] == transcript_calls(more_stored)[0]);
        }
    }
}

/// Splitting a log keeps the audio and transcript calls of each part.
proof fn store_calls_split(a: Seq<CaptureStoreCall>, b: Seq<CaptureStoreCall>)
    ensures
        audio_calls(a + b) == audio_calls(a) + audio_calls(b),
        transcript_calls(a + b) == transcript_calls(a) + transcript_calls(b),
        merged_stored(a + b) == merged_stored(a) + merged_stored(b),
    decreases b.len(),
{
    if b.len() == 0 {
        assert(a + b =~= a);
        assert(audio_calls(a) + audio_calls(b) =~= audio_calls(a));
        assert(transcript_calls(a) + transcript_calls(b) =~= transcript_calls(a));
        assert(merged_stored(a) + merged_stored(b) =~= merged_stored(a));
    } else {
        assert(merged_stored(a) + merged_stored(b.drop_last()) + b.last()->MergedSegments_segments
            =~= merged_stored(a) + (merged_stored(b.drop_last()) + b.last()->MergedSegments_segments));
        store_calls_split(a, b.drop_last());
        assert((a + b).drop_last() =~= a + b.drop_last());
        assert((a + b).last() == b.last());
        assert(audio_calls(a) + audio_calls(b.drop_last()).push(b.last()) =~= (audio_calls(a)
            + audio_calls(b.drop_last())).push(b.last()));
        assert(transcript_calls(a) + transcript_calls(b.drop_last()).push(b.last()) =~= (
        transcript_calls(a) + transcript_calls(b.drop_last())).push(b.last()));
    }
}

/// One more capture, stored as `audio_call` and then sent, keeps what the
/// run has asked consistent.
proof fn round_recorded(
    stored: Seq<CaptureStoreCall>,
    sent: Seq<TranscriberCall>,
    audio_call: CaptureStoreCall,
    more_stored: Seq<CaptureStoreCall>,
    more_sent: Seq<TranscriberCall>,
    speaker_samples: Seq<KnownSpeakerSample>,
    config: CaptureConfig,
    label: SpeakerLabel,
)
    requires
        captures_so_far(stored, sent, speaker_samples, config, label),
        audio_calls(stored).len() == sent.len(),
        forall|j: int| 0 <= j < sent.len() ==> answer_continues(#[trigger] sent[j]),
        audio_call is Audio,
        audio_call->Audio_capture_index == sent.len() + 1,
        audio_calls(more_stored).len() == 0,
        more_sent.len() <= 1,
        more_sent.len() == 1 ==> request_for(
            more_sent[0],
            audio_call->Audio_audio,
            speaker_samples,
            config,
            label,
        ),
        transcript_calls(more_stored).len() <= 1,
        transcript_calls(more_stored).len() == 1 ==> {
            &&& more_sent.len() == 1
            &&& transcript_calls(more_stored)[0] is Transcript
            &&& transcript_calls(more_stored)[0]->Transcript_capture_index == sent.len() + 1
            &&& more_sent[0].result is Ok
            &&& labelled_as(
                transcript_calls(more_stored)[0]->Transcript_transcript,
                more_sent[0].result->Ok_0,
                label,
            )
        },
    ensures
        captures_so_far(stored.push(audio_call) + more_stored, sent + more_sent, speaker_samples, config, label),
        audio_calls(stored.push(audio_call) + more_stored) == audio_calls(stored).push(audio_call),
        transcript_calls(stored.push(audio_call) + more_stored) == transcript_calls(stored)
            + transcript_calls(more_stored),
        transcribed_count(sent + more_sent) == transcribed_count(sent) + (if more_sent.len() == 1
            && more_sent[0].result is Ok {
            1nat
        } else {
            0nat
        }),
{
    let st = stored.push(audio_call);
    let all = st + more_stored;
    let tc = sent + more_sent;
    assert(st.drop_last() =~= stored);
    store_calls_split(st, more_stored);
    assert(audio_calls(st) =~= audio_calls(stored).push(audio_call));
    assert(transcript_calls(st) =~= transcript_calls(stored));
    assert(audio_calls(all) =~= audio_calls(stored).push(audio_call));
    if more_sent.len() == 1 {
        assert(tc =~= sent.push(more_sent[0]));
        assert(tc.drop_last() =~= sent);
    } else {
        assert(tc =~= sent);
    }
    let ts = transcript_calls(all);
    assert forall|k: int| 0 <= k < ts.len() implies stores_answer(
        #[trigger] ts[k],
        tc,
        ts[k]->Transcript_capture_index - 1,
        label,
    ) by {
        if k < transcript_calls(stored).len() {
            assert(ts[k] == transcript_calls(stored)[k]);
            let j = ts[k]->Transcript_capture_index - 1;
            assert(stores_answer(transcript_calls(stored)[k], sent, j, label));
            assert(tc[j] == sent[j]);
        } else {
            assert(ts[k] == transcript_calls(more_stored)[0]);
        }
    }
    assert forall|a: int, b: int| 0 <= a < b < ts.len() implies (#[trigger] ts[a])->Transcript_capture_index
        < (#[trigger] ts[b])->Transcript_capture_index by {
        if b < transcript_calls(stored).len() {
            assert(ts[a] == transcript_calls(stored)[a]);
            assert(ts[b] == transcript_calls(stored)[b]);
        } else {
            assert(ts[a] == transcript_calls(stored)[a]);
            assert(stores_answer(
                transcript_calls(stored)[a],
                sent,
                transcript_calls(stored)[a]->Transcript_capture_index - 1,
                label,
            ));
        }
    }
    assert forall|j: int| 0 <= j < tc.len() implies request_for(
        #[trigger] tc[j],
        audio_calls(all)[j]->Audio_audio,
        speaker_samples,
        config,
        label,
    ) by {
        if j < sent.len() {
            assert(audio_calls(all)[j] == audio_calls(stored)[j]);
        }
    }
    assert forall|j: int| 0 <= j < audio_calls(all).len() implies ((#[trigger] audio_calls(all)[j]) is Audio
        && audio_calls(all)[j]->Audio_capture_index == j + 1) by {
        if j < audio_calls(stored).len() {
            assert(audio_calls(all)[j] == audio_calls(stored)[j]);
        }
    }
    assert forall|j: int| 0 <= j < tc.len() - 1 implies answer_continues(#[trigger] tc[j]) by {
        assert(tc[j] == sent[j]);
    }
}

/// Calls that hold neither audio nor a transcript keep what the run has
/// asked consistent.
proof fn other_calls_kept(
    stored: Seq<CaptureStoreCall>,
    more_stored: Seq<CaptureStoreCall>,
    sent: Seq<TranscriberCall>,
    speaker_samples: Seq<KnownSpeakerSample>,
    config: CaptureConfig,
    label: SpeakerLabel,
)
    requires
        captures_so_far(stored, sent, speaker_samples, config, label),
        audio_calls(more_stored).len() == 0,
        transcript_calls(more_stored).len() == 0,
    ensures
        captures_so_far(stored + more_stored, sent, speaker_samples, config, label),
        audio_calls(stored + more_stored) == audio_calls(stored),
        transcript_calls(stored + more_stored) == transcript_calls(stored),
{
    store_calls_split(stored, more_stored);
    assert(audio_calls(stored + more_stored) =~= audio_calls(stored));
    assert(transcript_calls(stored + more_stored) =~= transcript_calls(stored));
}

/// Appending the record of a failed request for capture `index` keeps the
/// failures ordered.
proof fn failure_appended_in_order(
    before: Seq<CaptureTranscriptionFailure>,
    after: Seq<CaptureTranscriptionFailure>,
    index: u64,
)
    requires
        1 <= index,
        failures_well_ordered(before, index as int),
        after.len() == before.len() + 1,
        after.drop_last() == before,
        after.last().capture_index == index,
        is_send_failure_message(after.last().message@),
    ensures
        failures_well_ordered(after, index + 1),
{
    assert forall|i: int| 0 <= i < after.len() - 1 implies after[i] == before[i] by {
        assert(after.drop_last()[i] == after[i]);
    }
}

/// The request that sends one capture's audio: the known speakers'
/// samples, the source's model, the configured language, diarized JSON and
/// automatic chunking.
pub fn transcription_request<'a>(
    audio: &'a RecordedAudio,
    speaker_samples: &'a [KnownSpeakerSample],
    config: &'a CaptureConfig,
    speaker_label: &SpeakerLabel,
) -> (r: TranscriptionRequest<'a>)
    ensures
        *r.audio == *audio,
        r.speaker_samples@ == speaker_samples@,
        r.model@ == spec_model_for(config.transcription_model, *speaker_label),
        match config.transcription_language {
            TranscriptionLanguage::Auto => r.language is None,
            TranscriptionLanguage::Fixed(code) => r.language is Some && r.language->0@ == code@,
        },
        r.response_format == config.response_format,
        r.chunking_strategy == config.chunking_strategy,
{
    TranscriptionRequest {
        audio,
        speaker_samples,
        model: model_for(config.transcription_model, speaker_label),
        language: config.transcription_language.as_api_value(),
        response_format: config.response_format,
        chunking_strategy: config.chunking_strategy,
    }
}

/// What becomes of one capture once the service has answered.
#[derive(Debug)]
pub enum TranscriptionStep {
    /// The transcript, with the fixed speaker's name applied.
    Transcribed(DiarizedTranscript),
    /// The request could not be sent: the capture is skipped and recorded.
    Skipped(CaptureTranscriptionFailure),
    /// Any other failure, which stops the run.
    Stopped(TranscriberError),
}

/// Files the service's answer for the capture `range`: a transcript is
/// labelled; a failure to send is recorded as this capture's failure; any
/// other failure stops the run.
pub fn file_transcription(
    range: &CaptureRange,
    outcome: Result<DiarizedTranscript, TranscriberError>,
    speaker_label: &SpeakerLabel,
) -> (r: TranscriptionStep)
    ensures
        outcome matches Ok(t) ==> (r matches TranscriptionStep::Transcribed(l) && l.text == t.text
            && l.segments@.len() == t.segments@.len() && forall|i: int|
            0 <= i < l.segments@.len() ==> #[trigger] l.segments@[i] == labelled_segment(
                t.segments@[i],
                *speaker_label,
            )),
        outcome matches Err(e) ==> (e is SendRequest ==> (r matches TranscriptionStep::Skipped(f)
            && f.capture_index == range.capture_index && f.capture_start_ms == range.start_offset_ms
            && f.message@ == transcriber_error_prefix(e) + transcriber_error_detail(e))),
        outcome matches Err(e) ==> (!(e is SendRequest) ==> r == TranscriptionStep::Stopped(e)),
{
    match outcome {
        Ok(t) => TranscriptionStep::Transcribed(apply_speaker_label(t, speaker_label)),
        Err(error) => {
            if is_recoverable_transcription_error(&error) {
                TranscriptionStep::Skipped(transcription_failure(range, &error))
            } else {
                TranscriptionStep::Stopped(error)
            }
        },
    }
}

/// Sends one capture for transcription and files the outcome: a transcript
/// is labelled, stored, merged and kept; a failure to send is recorded and
/// skipped; any other failure stops the run.
#[allow(clippy::too_many_arguments)]
fn process_capture_audio<T, S, M>(
    range: CaptureRange,
    audio: RecordedAudio,
    config: &CaptureConfig,
    speaker_samples: &[KnownSpeakerSample],
    speaker_label: &SpeakerLabel,
    logger: &dyn Logger,
    transcriber: &mut T,
    capture_store: &mut S,
    merger: &mut M,
    transcripts: &mut Vec<DiarizedTranscript>,
    merged_segments: &mut Vec<MergedTranscriptSegment>,
    transcription_failures: &mut Vec<CaptureTranscriptionFailure>,
) -> (r: Result<(), CaptureError>) where T: Transcriber + ?Sized, S: CaptureStore, M: CaptureMerger
    requires
        transcripts_labelled(old(transcripts)@, *speaker_label),
    ensures
        transcripts_labelled(final(transcripts)@, *speaker_label),
        final(merged_segments)@.len() >= old(merged_segments)@.len(),
        final(merged_segments)@.subrange(0, old(merged_segments)@.len() as int) == old(merged_segments)@,
        grown(old(transcriber).transcriber_calls(), final(transcriber).transcriber_calls()),
        grown(old(capture_store).capture_calls(), final(capture_store).capture_calls()),
        audio_calls(added(old(capture_store).capture_calls(), final(capture_store).capture_calls())).len() == 0,
        ({
            let sent = added(old(transcriber).transcriber_calls(), final(transcriber).transcriber_calls());
            let stored = transcript_calls(
                added(old(capture_store).capture_calls(), final(capture_store).capture_calls()),
            );
            &&& sent.len() <= 1
            &&& sent.len() == 1 ==> request_for(sent[0], audio, speaker_samples@, *config, *speaker_label)
            &&& (r is Ok || r matches Err(CaptureError::Transcribe(_)) || r matches Err(
                CaptureError::Store(_),
            )) ==> sent.len() == 1
            &&& r is Ok ==> answer_continues(sent[0])
            &&& r matches Err(CaptureError::Transcribe(e)) ==> sent[0].result == Err::<
                DiarizedTranscript,
                TranscriberError,
            >(e) && !(e is SendRequest)
            &&& stored.len() <= 1
            &&& stored.len() == 1 ==> {
                &&& sent.len() == 1
                &&& stored[0] matches CaptureStoreCall::Transcript { capture_index, capture_start_ms, .. }
                &&& stored[0]->Transcript_capture_index == range.capture_index
                &&& stored[0]->Transcript_capture_start_ms == range.start_offset_ms
                &&& sent[0].result is Ok
                &&& labelled_as(stored[0]->Transcript_transcript, sent[0].result->Ok_0, *speaker_label)
            }
            &&& r is Ok && sent[0].result is Ok ==> {
                &&& stored.len() == 1
                &&& final(transcripts)@ == old(transcripts)@.push(stored[0]->Transcript_transcript)
                &&& final(transcription_failures)@ == old(transcription_failures)@
            }
            &&& r is Ok && sent[0].result is Err ==> {
                &&& stored.len() == 0
                &&& final(transcripts)@ == old(transcripts)@
                &&& final(transcription_failures)@.len() == old(transcription_failures)@.len() + 1
                &&& final(transcription_failures)@.drop_last() == old(transcription_failures)@
                &&& final(transcription_failures)@.last().capture_index == range.capture_index
                &&& final(transcription_failures)@.last().capture_start_ms == range.start_offset_ms
                &&& final(transcription_failures)@.last().message@ == transcriber_error_prefix(
                    sent[0].result->Err_0,
                ) + transcriber_error_detail(sent[0].result->Err_0)
                &&& is_send_failure_message(final(transcription_failures)@.last().message@)
            }
            &&& r is Err ==> final(transcripts)@ == old(transcripts)@
            &&& r is Err ==> final(transcription_failures)@ == old(transcription_failures)@
        }),
        r matches Err(CaptureError::Transcribe(e)) ==> !(e is SendRequest),
        grown(old(merger).merged_captures(), final(merger).merged_captures()),
        ({
            let handed = added(old(merger).merged_captures(), final(merger).merged_captures());
            let stored = transcript_calls(
                added(old(capture_store).capture_calls(), final(capture_store).capture_calls()),
            );
            &&& handed.len() <= stored.len()
            &&& handed.len() <= 1
            &&& handed.len() == 1 ==> places(handed[0], stored[0])
            &&& r is Ok ==> handed.len() == stored.len()
        }),
        r is Ok ==> final(merged_segments)@ == old(merged_segments)@ + merged_stored(
            added(old(capture_store).capture_calls(), final(capture_store).capture_calls()),
        ),
{
    let ghost sent0 = transcriber.transcriber_calls();
    let ghost stored0 = capture_store.capture_calls();
    let ghost handed0 = merger.merged_captures();
    proof {
        assert(added(handed0, handed0) =~= Seq::<CapturedTranscript>::empty());
        assert(handed0.take(handed0.len() as int) =~= handed0);
        assert(added(sent0, sent0) =~= Seq::<TranscriberCall>::empty());
        assert(added(stored0, stored0) =~= Seq::<CaptureStoreCall>::empty());
        assert(sent0.take(sent0.len() as int) =~= sent0);
        assert(stored0.take(stored0.len() as int) =~= stored0);
        assert(merged_stored(Seq::<CaptureStoreCall>::empty()) =~= Seq::<MergedTranscriptSegment>::empty());
        assert(old(merged_segments)@ + Seq::<MergedTranscriptSegment>::empty() =~= old(merged_segments)@);
    }
    let sent = numbered_message("transcription request sent for capture ", range.capture_index);
    log_info(logger, sent.as_str())?;
    let capture_start_ms = range.start_offset_ms;
    let capture_end_ms = range.start_offset_ms.saturating_add(range.duration_ms);
    let outcome = transcriber.transcribe(
        transcription_request(&audio, speaker_samples, config, speaker_label),
    );
    proof {
        assert(added(sent0, transcriber.transcriber_calls()) =~= seq![
            transcriber.transcriber_calls().last(),
        ]);
        assert(transcriber.transcriber_calls().take(sent0.len() as int) =~= sent0);
    }
    let transcript = match file_transcription(&range, outcome, speaker_label) {
        TranscriptionStep::Transcribed(t) => t,
        TranscriptionStep::Stopped(error) => {
            return Err(CaptureError::Transcribe(error));
        },
        TranscriptionStep::Skipped(failure) => {
            let head = numbered_message("transcription failed for capture ", range.capture_index);
            let head2 = concat2(head.as_str(), ", continuing: ");
            let line = concat2(head2.as_str(), failure.message.as_str());
            log_info(logger, line.as_str())?;
            proof {
                reveal_strlit("failed to send transcription request: ");
                assert(failure.message@.subrange(0, "failed to send transcription request: "@.len() as int)
                    =~= "failed to send transcription request: "@);
            }
            transcription_failures.push(failure);
            proof {
                assert(transcription_failures@.drop_last() =~= old(transcription_failures)@);
            }
            return Ok(());
        },
    };
    let received = numbered_message(
        "transcription response received for capture ",
        range.capture_index,
    );
    log_info(logger, received.as_str())?;
    let stored_transcript = capture_store.persist_transcript(
        range.capture_index,
        capture_start_ms,
        &transcript,
    );
    let ghost stored1 = capture_store.capture_calls();
    let ghost call1 = stored1.last();
    proof {
        assert(added(stored0, stored1) =~= seq![call1]);
        assert(stored1.take(stored0.len() as int) =~= stored0);
        assert(seq![call1].drop_last() =~= Seq::<CaptureStoreCall>::empty());
        assert(call1 is Transcript);
        assert(transcript_calls(Seq::<CaptureStoreCall>::empty()) =~= Seq::<CaptureStoreCall>::empty());
        assert(audio_calls(Seq::<CaptureStoreCall>::empty()) =~= Seq::<CaptureStoreCall>::empty());
        assert(transcript_calls(seq![call1]) =~= seq![call1]);
        assert(audio_calls(seq![call1]) =~= Seq::<CaptureStoreCall>::empty());
    }
    match stored_transcript {
        Ok(()) => {},
        Err(e) => {
            return Err(CaptureError::Store(e));
        },
    }
    let captured = CapturedTranscript::from_relative(
        range.capture_index,
        capture_start_ms,
        capture_end_ms,
        &transcript,
    );
    let ghost placed = captured;
    let mut batch = merger.push_capture(captured);
    proof {
        assert(added(handed0, merger.merged_captures()) =~= seq![placed]);
        assert(merger.merged_captures().take(handed0.len() as int) =~= handed0);
    }
    let stored_audit = capture_store.persist_merge_audit_entries(batch.audit_entries.as_slice());
    let ghost stored2 = capture_store.capture_calls();
    let ghost call2 = stored2.last();
    proof {
        assert(added(stored0, stored2) =~= seq![call1, call2]);
        assert(stored2.take(stored0.len() as int) =~= stored0);
        assert(seq![call1, call2].drop_last() =~= seq![call1]);
        assert(transcript_calls(seq![call1, call2]) =~= seq![call1]);
        assert(audio_calls(seq![call1, call2]) =~= Seq::<CaptureStoreCall>::empty());
    }
    match stored_audit {
        Ok(()) => {},
        Err(e) => {
            return Err(CaptureError::Store(e));
        },
    }
    let stored_merged = capture_store.persist_merged_segments(batch.finalized_segments.as_slice());
    let ghost stored3 = capture_store.capture_calls();
    let ghost call3 = stored3.last();
    proof {
        assert(added(stored0, stored3) =~= seq![call1, call2, call3]);
        assert(stored3.take(stored0.len() as int) =~= stored0);
        assert(seq![call1, call2, call3].drop_last() =~= seq![call1, call2]);
        assert(transcript_calls(seq![call1, call2, call3]) =~= seq![call1]);
        assert(audio_calls(seq![call1, call2, call3]) =~= Seq::<CaptureStoreCall>::empty());
        assert(merged_stored(seq![call1]) =~= Seq::<MergedTranscriptSegment>::empty());
        assert(merged_stored(seq![call1, call2]) =~= Seq::<MergedTranscriptSegment>::empty());
        assert(merged_stored(seq![call1, call2, call3]) =~= batch.finalized_segments@);
    }
    match stored_merged {
        Ok(()) => {},
        Err(e) => {
            return Err(CaptureError::Store(e));
        },
    }
    let ghost before = merged_segments@;
    let ghost settled = batch.finalized_segments@;
    merged_segments.append(&mut batch.finalized_segments);
    assert(merged_segments@ =~= before + settled);
    assert(merged_segments@.subrange(0, before.len() as int) =~= before);
    let ghost before_transcripts = transcripts@;
    transcripts.push(transcript);
    proof {
        assert forall|i: int, k: int|
            0 <= i < transcripts@.len() && 0 <= k < transcripts@[i].segments@.len() implies (
            *speaker_label matches SpeakerLabel::Fixed(name) ==> (
            #[trigger] transcripts@[i].segments@[k]).speaker == name) by {
            if i < before_transcripts.len() {
                assert(transcripts@[i] == before_transcripts[i]);
            }
        }
    }
    Ok(())
}

/// The current Unix time in milliseconds, read from the system clock.
///
/// Nothing is stated of the value: it is whatever the clock says.
#[verifier::external_body]
fn unix_time_ms() -> u64 {
    match std::time::SystemTime::now().duration_since(std::time::UNIX_EPOCH) {
        Ok(elapsed) => elapsed.as_millis() as u64,
        Err(_) => 0,
    }
}

/// Runs a capture session: records continuously, cuts a capture wherever
/// the recorder reports a boundary, and stores, transcribes and merges each
/// one.
#[allow(clippy::too_many_arguments)]
pub fn run_capture<R, T, S, M>(
    config: &CaptureConfig,
    speaker_samples: &[KnownSpeakerSample],
    speaker_label: &SpeakerLabel,
    logger: &dyn Logger,
    recorder: &mut R,
    transcriber: &mut T,
    capture_store: &mut S,
    merger: &mut M,
) -> (r: Result<CaptureRunResult, CaptureError>) where
    R: Recorder,
    T: Transcriber + ?Sized,
    S: CaptureStore,
    M: CaptureMerger,

    ensures
        grown(old(capture_store).capture_calls(), final(capture_store).capture_calls()),
        grown(old(transcriber).transcriber_calls(), final(transcriber).transcriber_calls()),
        calls_so_far(
            added(old(capture_store).capture_calls(), final(capture_store).capture_calls()),
            added(old(transcriber).transcriber_calls(), final(transcriber).transcriber_calls()),
            speaker_samples@,
            *config,
            *speaker_label,
        ),
        r matches Err(CaptureError::Transcribe(e)) ==> {
            let sent = added(old(transcriber).transcriber_calls(), final(transcriber).transcriber_calls());
            &&& sent.len() >= 1
            &&& sent.last().result == Err::<DiarizedTranscript, TranscriberError>(e)
            &&& !(e is SendRequest)
        },
        r matches Ok(res) ==> run_finished(
            res,
            added(old(capture_store).capture_calls(), final(capture_store).capture_calls()),
            added(old(transcriber).transcriber_calls(), final(transcriber).transcriber_calls()),
        ),
        grown(old(merger).merged_captures(), final(merger).merged_captures()),
        merger_given(
            added(old(merger).merged_captures(), final(merger).merged_captures()),
            added(old(capture_store).capture_calls(), final(capture_store).capture_calls()),
        ),
        r is Ok ==> added(old(merger).merged_captures(), final(merger).merged_captures()).len()
            == transcript_calls(
            added(old(capture_store).capture_calls(), final(capture_store).capture_calls()),
        ).len(),
        r matches Ok(res) ==> failures_well_ordered(res.transcription_failures@, u64::MAX + 1),
        r matches Ok(res) ==> transcripts_labelled(res.transcripts@, *speaker_label),
        r matches Ok(res) ==> failures_within(
            res.transcription_failures@,
            config.capture_policy.recording_duration_ms,
        ),
{
    run_capture_with_interrupt_monitor(
        config,
        speaker_samples,
        speaker_label,
        logger,
        recorder,
        transcriber,
        capture_store,
        merger,
        &NoInterruption,
    )
}

/// An interrupt monitor that never reports an interruption.
pub struct NoInterruption;

impl InterruptMonitor for NoInterruption {
    fn is_interrupt_requested(&self) -> (r: bool)
        ensures
            !r,
    {
        false
    }
}

/// Runs a capture session that stops early, with what was recorded so far,
/// once `interrupt_monitor` reports an interruption.
#[allow(clippy::too_many_arguments)]
pub fn run_capture_with_interrupt_monitor<R, T, S, M>(
    config: &CaptureConfig,
    speaker_samples: &[KnownSpeakerSample],
    speaker_label: &SpeakerLabel,
    logger: &dyn Logger,
    recorder: &mut R,
    transcriber: &mut T,
    capture_store: &mut S,
    merger: &mut M,
    interrupt_monitor: &dyn InterruptMonitor,
) -> (r: Result<CaptureRunResult, CaptureError>) where
    R: Recorder,
    T: Transcriber + ?Sized,
    S: CaptureStore,
    M: CaptureMerger,

    ensures
        grown(old(capture_store).capture_calls(), final(capture_store).capture_calls()),
        grown(old(transcriber).transcriber_calls(), final(transcriber).transcriber_calls()),
        calls_so_far(
            added(old(capture_store).capture_calls(), final(capture_store).capture_calls()),
            added(old(transcriber).transcriber_calls(), final(transcriber).transcriber_calls()),
            speaker_samples@,
            *config,
            *speaker_label,
        ),
        r matches Err(CaptureError::Transcribe(e)) ==> {
            let sent = added(old(transcriber).transcriber_calls(), final(transcriber).transcriber_calls());
            &&& sent.len() >= 1
            &&& sent.last().result == Err::<DiarizedTranscript, TranscriberError>(e)
            &&& !(e is SendRequest)
        },
        r matches Ok(res) ==> run_finished(
            res,
            added(old(capture_store).capture_calls(), final(capture_store).capture_calls()),
            added(old(transcriber).transcriber_calls(), final(transcriber).transcriber_calls()),
        ),
        grown(old(merger).merged_captures(), final(merger).merged_captures()),
        merger_given(
            added(old(merger).merged_captures(), final(merger).merged_captures()),
            added(old(capture_store).capture_calls(), final(capture_store).capture_calls()),
        ),
        r is Ok ==> added(old(merger).merged_captures(), final(merger).merged_captures()).len()
            == transcript_calls(
            added(old(capture_store).capture_calls(), final(capture_store).capture_calls()),
        ).len(),
        r matches Ok(res) ==> failures_well_ordered(res.transcription_failures@, u64::MAX + 1),
        r matches Ok(res) ==> transcripts_labelled(res.transcripts@, *speaker_label),
        r matches Ok(res) ==> failures_within(
            res.transcription_failures@,
            config.capture_policy.recording_duration_ms,
        ),
{
    run_capture_with_clock(
        config,
        speaker_samples,
        speaker_label,
        logger,
        recorder,
        transcriber,
        capture_store,
        merger,
        interrupt_monitor,
        || unix_time_ms(),
    )
}

/// How a recording loop ended.
#[derive(Debug)]
pub enum RecordingEnd {
    /// The recorder reported an empty capture.
    Finished,
    /// The recording ends with this capture, which is cut but not yet
    /// stored or sent.
    LastCapture { range: CaptureRange, audio: RecordedAudio },
    /// The next capture would start at or after the recording's end, or
    /// every capture number was used.
    Exhausted,
}

/// What a recording loop leaves: how it ended, and what its captures gave.
#[derive(Debug)]
pub struct RecordedCaptures {
    pub end: RecordingEnd,
    pub transcripts: Vec<DiarizedTranscript>,
    pub merged_segments: Vec<MergedTranscriptSegment>,
    pub transcription_failures: Vec<CaptureTranscriptionFailure>,
}

/// Whether a loop that filed `n` captures ended as its session calls say.
pub open spec fn ended_as(end: RecordingEnd, calls: Seq<SessionCall>, config: CaptureConfig, n: int) -> bool {
    match end {
        RecordingEnd::Finished => {
            &&& calls.len() == 2 * n + 1
            &&& round_boundary(calls, n)->CaptureBoundary_result is Ok
            &&& round_step(calls, config.capture_policy, n) is None
        },
        RecordingEnd::LastCapture { range, audio } => {
            &&& calls.len() == 2 * n + 2
            &&& round_step(calls, config.capture_policy, n) is Some
            &&& round_step(calls, config.capture_policy, n)->0.finish_recording
            &&& range == round_step(calls, config.capture_policy, n)->0.range
            &&& range.capture_index == n + 1
            &&& range.start_offset_ms < config.capture_policy.recording_duration_ms
            &&& round_cut(calls, n)->CaptureWav_result == Ok::<RecordedAudio, RecorderError>(audio)
        },
        RecordingEnd::Exhausted => {
            &&& calls.len() == 2 * n
            &&& (n == u64::MAX || next_start(calls, config.capture_policy, n)
                >= config.capture_policy.recording_duration_ms)
        },
    }
}

/// What a recording loop that did not stop on an error had asked and kept,
/// `sent` being the requests it sent: every capture stored was sent and
/// answered with a transcript or a failure to send; each transcript was
/// stored and is kept in that order, labelled; each failure is kept, in
/// capture order, with the offset its capture started at.
pub open spec fn loop_finished(
    rc: RecordedCaptures,
    calls: Seq<SessionCall>,
    stored: Seq<CaptureStoreCall>,
    sent: Seq<TranscriberCall>,
    config: CaptureConfig,
    label: SpeakerLabel,
) -> bool {
    &&& audio_calls(stored).len() == sent.len()
    &&& forall|j: int| 0 <= j < sent.len() ==> answer_continues(#[trigger] sent[j])
    &&& transcript_calls(stored).len() == transcribed_count(sent)
    &&& transcripts_stored(rc.transcripts@, stored)
    &&& failures_answered(rc.transcription_failures@, sent)
    &&& rc.transcripts@.len() + rc.transcription_failures@.len() == sent.len()
    &&& failures_well_ordered(rc.transcription_failures@, sent.len() + 1int)
    &&& transcripts_labelled(rc.transcripts@, label)
    &&& failures_within(rc.transcription_failures@, config.capture_policy.recording_duration_ms)
    &&& cuts_stored(calls, stored, rc.transcription_failures@)
    &&& ended_as(rc.end, calls, config, sent.len() as int)
    &&& rc.merged_segments@ == merged_stored(stored)
}

/// Records captures from a running session until the recording ends: for
/// each capture it asks the session where the capture ends, plans the
/// step, cuts the planned stretch, and, unless the recording ends with it,
/// stores, sends and files it. The capture that ends the recording is
/// handed back cut, so that the session can be released before it is sent.
#[allow(clippy::too_many_arguments)]
pub fn record_captures<Sess, T, S, M>(
    session: &mut Sess,
    config: &CaptureConfig,
    speaker_samples: &[KnownSpeakerSample],
    speaker_label: &SpeakerLabel,
    logger: &dyn Logger,
    transcriber: &mut T,
    capture_store: &mut S,
    merger: &mut M,
    interrupt_monitor: &dyn InterruptMonitor,
) -> (r: Result<RecordedCaptures, CaptureError>) where
    Sess: RecordingSession,
    T: Transcriber + ?Sized,
    S: CaptureStore,
    M: CaptureMerger,

    ensures
        grown(old(session).session_calls(), final(session).session_calls()),
        grown(old(capture_store).capture_calls(), final(capture_store).capture_calls()),
        grown(old(transcriber).transcriber_calls(), final(transcriber).transcriber_calls()),
        follows_plan(added(old(session).session_calls(), final(session).session_calls()), *config),
        captures_so_far(
            added(old(capture_store).capture_calls(), final(capture_store).capture_calls()),
            added(old(transcriber).transcriber_calls(), final(transcriber).transcriber_calls()),
            speaker_samples@,
            *config,
            *speaker_label,
        ),
        r matches Err(CaptureError::Transcribe(e)) ==> {
            let sent = added(old(transcriber).transcriber_calls(), final(transcriber).transcriber_calls());
            &&& sent.len() >= 1
            &&& sent.last().result == Err::<DiarizedTranscript, TranscriberError>(e)
            &&& !(e is SendRequest)
        },
        grown(old(merger).merged_captures(), final(merger).merged_captures()),
        merger_given(
            added(old(merger).merged_captures(), final(merger).merged_captures()),
            added(old(capture_store).capture_calls(), final(capture_store).capture_calls()),
        ),
        r is Ok ==> added(old(merger).merged_captures(), final(merger).merged_captures()).len()
            == transcript_calls(
            added(old(capture_store).capture_calls(), final(capture_store).capture_calls()),
        ).len(),
        r matches Ok(rc) ==> loop_finished(
            rc,
            added(old(session).session_calls(), final(session).session_calls()),
            added(old(capture_store).capture_calls(), final(capture_store).capture_calls()),
            added(old(transcriber).transcriber_calls(), final(transcriber).transcriber_calls()),
            *config,
            *speaker_label,
        ),
{
    let ghost calls0 = session.session_calls();
    let ghost stored0 = capture_store.capture_calls();
    let ghost sent0 = transcriber.transcriber_calls();
    let ghost handed0 = merger.merged_captures();
    proof {
        assert(added(handed0, handed0) =~= Seq::<CapturedTranscript>::empty());
        assert(handed0.take(handed0.len() as int) =~= handed0);
        assert(added(calls0, calls0) =~= Seq::<SessionCall>::empty());
        assert(added(stored0, stored0) =~= Seq::<CaptureStoreCall>::empty());
        assert(added(sent0, sent0) =~= Seq::<TranscriberCall>::empty());
        assert(calls0.take(calls0.len() as int) =~= calls0);
        assert(stored0.take(stored0.len() as int) =~= stored0);
        assert(sent0.take(sent0.len() as int) =~= sent0);
        assert(audio_calls(Seq::<CaptureStoreCall>::empty()) =~= Seq::<CaptureStoreCall>::empty());
        assert(transcript_calls(Seq::<CaptureStoreCall>::empty()) =~= Seq::<CaptureStoreCall>::empty());
        assert(merged_stored(Seq::<CaptureStoreCall>::empty()) =~= Seq::<MergedTranscriptSegment>::empty());
    }
    let mut transcripts: Vec<DiarizedTranscript> = Vec::new();
    let mut merged_segments: Vec<MergedTranscriptSegment> = Vec::new();
    let mut transcription_failures: Vec<CaptureTranscriptionFailure> = Vec::new();
    let mut capture_index: u64 = 1;
    let mut capture_start_ms: u64 = 0;
    while capture_start_ms < config.capture_policy.recording_duration_ms
        invariant
            1 <= capture_index,
            calls0 == old(session).session_calls(),
            stored0 == old(capture_store).capture_calls(),
            sent0 == old(transcriber).transcriber_calls(),
            handed0 == old(merger).merged_captures(),
            grown(handed0, merger.merged_captures()),
            merger_given(added(handed0, merger.merged_captures()), added(stored0, capture_store.capture_calls())),
            added(handed0, merger.merged_captures()).len() == transcript_calls(
                added(stored0, capture_store.capture_calls()),
            ).len(),
            grown(calls0, session.session_calls()),
            grown(stored0, capture_store.capture_calls()),
            grown(sent0, transcriber.transcriber_calls()),
            ({
                let calls = added(calls0, session.session_calls());
                let stored = added(stored0, capture_store.capture_calls());
                let sent = added(sent0, transcriber.transcriber_calls());
                &&& sent.len() == capture_index - 1
                &&& calls.len() == 2 * sent.len()
                &&& follows_plan(calls, *config)
                &&& sent.len() >= 1 ==> round_cut(calls, sent.len() - 1)->CaptureWav_result is Ok
                &&& sent.len() >= 1 ==> !round_step(calls, config.capture_policy, sent.len() - 1)->0.finish_recording
                &&& capture_start_ms == next_start(calls, config.capture_policy, sent.len() as int)
                &&& captures_so_far(stored, sent, speaker_samples@, *config, *speaker_label)
                &&& audio_calls(stored).len() == sent.len()
                &&& forall|j: int| 0 <= j < sent.len() ==> answer_continues(#[trigger] sent[j])
                &&& transcript_calls(stored).len() == transcribed_count(sent)
                &&& transcripts_stored(transcripts@, stored)
                &&& failures_answered(transcription_failures@, sent)
                &&& transcripts@.len() + transcription_failures@.len() == sent.len()
                &&& cuts_stored(calls, stored, transcription_failures@)
                &&& merged_segments@ == merged_stored(stored)
            }),
            failures_well_ordered(transcription_failures@, capture_index as int),
            transcripts_labelled(transcripts@, *speaker_label),
            failures_within(transcription_failures@, config.capture_policy.recording_duration_ms),
        decreases u64::MAX - capture_index,
    {
        let ghost calls_before = session.session_calls();
        let ghost stored_before = capture_store.capture_calls();
        let ghost sent_before = transcriber.transcriber_calls();
        let ghost n = added(sent0, sent_before).len() as int;
        let answered = session.wait_for_capture_boundary(
            capture_start_ms,
            &config.capture_policy,
            &config.silence_request_policy,
            interrupt_monitor,
        );
        proof {
            let call = session.session_calls().last();
            added_one(calls0, calls_before, call);
            boundary_asked(added(calls0, calls_before), call, *config, n);
            cuts_kept(
                added(calls0, calls_before),
                seq![call],
                added(stored0, stored_before),
                transcription_failures@,
            );
            assert(added(calls0, calls_before) + seq![call] =~= added(calls0, calls_before).push(call));
        }
        let boundary = match answered {
            Ok(b) => b,
            Err(e) => {
                return Err(CaptureError::Record(e));
            },
        };
        if boundary.reason == CaptureBoundaryReason::Interrupted {
            log_info(logger, "interrupt received, finalizing recorded audio")?;
        }
        let step = match plan_capture_step(
            &config.capture_policy,
            capture_index,
            capture_start_ms,
            boundary,
        ) {
            Some(step) => step,
            None => {
                let rc = RecordedCaptures {
                    end: RecordingEnd::Finished,
                    transcripts,
                    merged_segments,
                    transcription_failures,
                };
                proof {
                    assert(failures_well_ordered(rc.transcription_failures@, n + 1));
                }
                return Ok(rc);
            },
        };
        let ghost calls_mid = session.session_calls();
        let cut = session.capture_wav(step.range.start_offset_ms, step.range.duration_ms);
        proof {
            let call = session.session_calls().last();
            added_one(calls0, calls_mid, call);
            cut_made(added(calls0, calls_mid), call, *config, n);
            cuts_kept(
                added(calls0, calls_mid),
                seq![call],
                added(stored0, stored_before),
                transcription_failures@,
            );
            assert(added(calls0, calls_mid) + seq![call] =~= added(calls0, calls_mid).push(call));
        }
        let audio = match cut {
            Ok(a) => a,
            Err(e) => {
                return Err(CaptureError::Record(e));
            },
        };
        if step.finish_recording {
            let rc = RecordedCaptures {
                end: RecordingEnd::LastCapture { range: step.range, audio },
                transcripts,
                merged_segments,
                transcription_failures,
            };
            proof {
                assert(failures_well_ordered(rc.transcription_failures@, n + 1));
            }
            return Ok(rc);
        }
        let kept_audio = capture_store.persist_audio(step.range.capture_index, &audio);
        let ghost stored_audio = capture_store.capture_calls();
        let ghost audio_call = stored_audio.last();
        proof {
            added_one(stored0, stored_before, audio_call);
            round_recorded(
                added(stored0, stored_before),
                added(sent0, sent_before),
                audio_call,
                Seq::empty(),
                Seq::empty(),
                speaker_samples@,
                *config,
                *speaker_label,
            );
            assert(added(stored0, stored_before).push(audio_call) + Seq::<CaptureStoreCall>::empty()
                =~= added(stored0, stored_audio));
            assert(added(sent0, sent_before) + Seq::<TranscriberCall>::empty() =~= added(
                sent0,
                sent_before,
            ));
            capture_filed(
                added(calls0, session.session_calls()),
                added(stored0, stored_before),
                audio_call,
                Seq::empty(),
                transcription_failures@,
                Seq::empty(),
                n,
            );
            assert(transcription_failures@ + Seq::<CaptureTranscriptionFailure>::empty()
                =~= transcription_failures@);
            store_calls_split(added(stored0, stored_before), seq![audio_call]);
            assert(seq![audio_call].drop_last() =~= Seq::<CaptureStoreCall>::empty());
            assert(merged_stored(Seq::<CaptureStoreCall>::empty()) =~= Seq::<MergedTranscriptSegment>::empty());
            assert(merged_stored(seq![audio_call]) =~= Seq::<MergedTranscriptSegment>::empty());
            assert(added(stored0, stored_before) + seq![audio_call] =~= added(stored0, stored_audio));
            assert(merged_stored(added(stored0, stored_audio)) =~= merged_stored(added(stored0, stored_before)));
        }
        match kept_audio {
            Ok(()) => {},
            Err(e) => {
                return Err(CaptureError::Store(e));
            },
        }
        let ghost failures_before = transcription_failures@;
        let ghost handed_before = merger.merged_captures();
        let filed = process_capture_audio(
            step.range,
            audio,
            config,
            speaker_samples,
            speaker_label,
            logger,
            transcriber,
            capture_store,
            merger,
            &mut transcripts,
            &mut merged_segments,
            &mut transcription_failures,
        );
        proof {
            let more_stored = added(stored_audio, capture_store.capture_calls());
            let more_sent = added(sent_before, transcriber.transcriber_calls());
            added_in_turn(stored0, stored_audio, capture_store.capture_calls());
            added_in_turn(sent0, sent_before, transcriber.transcriber_calls());
            round_recorded(
                added(stored0, stored_before),
                added(sent0, sent_before),
                audio_call,
                more_stored,
                more_sent,
                speaker_samples@,
                *config,
                *speaker_label,
            );
            let more_failures = if transcription_failures@.len() > failures_before.len() {
                seq![transcription_failures@.last()]
            } else {
                Seq::<CaptureTranscriptionFailure>::empty()
            };
            if transcription_failures@.len() > failures_before.len() {
                assert(transcription_failures@ =~= failures_before + more_failures);
            } else {
                assert(transcription_failures@ =~= failures_before + more_failures);
            }
            capture_filed(
                added(calls0, session.session_calls()),
                added(stored0, stored_before),
                audio_call,
                more_stored,
                failures_before,
                more_failures,
                n,
            );
            added_in_turn(handed0, handed_before, merger.merged_captures());
            store_calls_split(added(stored0, stored_audio), more_stored);
            merge_recorded(
                added(handed0, handed_before),
                added(handed_before, merger.merged_captures()),
                added(stored0, stored_audio),
                more_stored,
            );
        }
        match filed {
            Ok(()) => {},
            Err(e) => {
                return Err(e);
            },
        }
        proof {
            let sent = added(sent0, transcriber.transcriber_calls());
            assert(sent.drop_last() =~= added(sent0, sent_before));
            if transcription_failures@.len() > failures_before.len() {
                failure_appended_in_order(failures_before, transcription_failures@, capture_index);
                assert forall|i: int| 0 <= i < transcription_failures@.len() implies (
                #[trigger] transcription_failures@[i]).capture_start_ms
                    < config.capture_policy.recording_duration_ms by {
                    if i < failures_before.len() {
                        assert(transcription_failures@[i] == transcription_failures@.drop_last()[i]);
                    }
                }
            }
        }
        if capture_index == u64::MAX {
            let rc = RecordedCaptures {
                end: RecordingEnd::Exhausted,
                transcripts,
                merged_segments,
                transcription_failures,
            };
            return Ok(rc);
        }
        capture_start_ms = step.next_start_offset_ms;
        capture_index = capture_index + 1;
    }
    Ok(
        RecordedCaptures {
            end: RecordingEnd::Exhausted,
            transcripts,
            merged_segments,
            transcription_failures,
        },
    )
}

/// The capture run, with the clock that stamps the recording's start
/// passed in.
///
/// The store is handed the session's settings first. Then the recording
/// starts, and `record_captures` stores, sends and files each capture; the
/// capture that ends the recording is stored, the recording is released,
/// and then it is sent. Whatever the recorder, the transcriber and the
/// store return, the run's calls are those `calls_so_far` describes; a run
/// stopped by the transcriber stopped on its latest answer, a failure other
/// than sending; and a finished run's start time is a value the clock gave,
/// with what `run_finished` says of its captures.
#[allow(clippy::too_many_arguments)]
pub fn run_capture_with_clock<R, T, S, M, C>(
    config: &CaptureConfig,
    speaker_samples: &[KnownSpeakerSample],
    speaker_label: &SpeakerLabel,
    logger: &dyn Logger,
    recorder: &mut R,
    transcriber: &mut T,
    capture_store: &mut S,
    merger: &mut M,
    interrupt_monitor: &dyn InterruptMonitor,
    current_unix_ms: C,
) -> (r: Result<CaptureRunResult, CaptureError>) where
    R: Recorder,
    T: Transcriber + ?Sized,
    S: CaptureStore,
    M: CaptureMerger,
    C: Fn() -> u64,

    requires
        call_requires(current_unix_ms, ()),
    ensures
        grown(old(capture_store).capture_calls(), final(capture_store).capture_calls()),
        grown(old(transcriber).transcriber_calls(), final(transcriber).transcriber_calls()),
        calls_so_far(
            added(old(capture_store).capture_calls(), final(capture_store).capture_calls()),
            added(old(transcriber).transcriber_calls(), final(transcriber).transcriber_calls()),
            speaker_samples@,
            *config,
            *speaker_label,
        ),
        r matches Err(CaptureError::Transcribe(e)) ==> {
            let sent = added(old(transcriber).transcriber_calls(), final(transcriber).transcriber_calls());
            &&& sent.len() >= 1
            &&& sent.last().result == Err::<DiarizedTranscript, TranscriberError>(e)
            &&& !(e is SendRequest)
        },
        r matches Ok(res) ==> run_finished(
            res,
            added(old(capture_store).capture_calls(), final(capture_store).capture_calls()),
            added(old(transcriber).transcriber_calls(), final(transcriber).transcriber_calls()),
        ),
        grown(old(merger).merged_captures(), final(merger).merged_captures()),
        merger_given(
            added(old(merger).merged_captures(), final(merger).merged_captures()),
            added(old(capture_store).capture_calls(), final(capture_store).capture_calls()),
        ),
        r is Ok ==> added(old(merger).merged_captures(), final(merger).merged_captures()).len()
            == transcript_calls(
            added(old(capture_store).capture_calls(), final(capture_store).capture_calls()),
        ).len(),
        r matches Ok(res) ==> call_ensures(current_unix_ms, (), res.started_at_unix_ms),
        r matches Ok(res) ==> failures_well_ordered(res.transcription_failures@, u64::MAX + 1),
        r matches Err(CaptureError::Transcribe(e)) ==> !(e is SendRequest),
        r matches Ok(res) ==> transcripts_labelled(res.transcripts@, *speaker_label),
        r matches Ok(res) ==> failures_within(
            res.transcription_failures@,
            config.capture_policy.recording_duration_ms,
        ),
{
    let ghost stored0 = capture_store.capture_calls();
    let ghost sent0 = transcriber.transcriber_calls();
    let ghost handed0 = merger.merged_captures();
    proof {
        assert(added(handed0, handed0) =~= Seq::<CapturedTranscript>::empty());
        assert(handed0.take(handed0.len() as int) =~= handed0);
        assert(added(sent0, sent0) =~= Seq::<TranscriberCall>::empty());
        assert(sent0.take(sent0.len() as int) =~= sent0);
        assert(stored0.take(stored0.len() as int) =~= stored0);
        assert(added(stored0, stored0) =~= Seq::<CaptureStoreCall>::empty());
    }
    let metadata = session_metadata(config, speaker_label);
    let kept_settings = capture_store.persist_session_metadata(&metadata);
    let ghost stored_settings = capture_store.capture_calls();
    let ghost settings_call = stored_settings.last();
    proof {
        added_one(stored0, stored0, settings_call);
        assert(added(stored0, stored_settings) =~= seq![settings_call]);
        assert(audio_calls(Seq::<CaptureStoreCall>::empty()) =~= Seq::<CaptureStoreCall>::empty());
        assert(transcript_calls(Seq::<CaptureStoreCall>::empty()) =~= Seq::<CaptureStoreCall>::empty());
        settings_first(
            settings_call,
            Seq::empty(),
            Seq::empty(),
            speaker_samples@,
            *config,
            *speaker_label,
        );
        assert(seq![settings_call] + Seq::<CaptureStoreCall>::empty() =~= seq![settings_call]);
    }
    match kept_settings {
        Ok(()) => {},
        Err(e) => {
            return Err(CaptureError::Store(e));
        },
    }
    log_info(logger, "recording started")?;
    let mut session = match recorder.start_recording() {
        Ok(s) => s,
        Err(e) => {
            return Err(CaptureError::Record(e));
        },
    };
    let started_at_unix_ms = current_unix_ms();
    let recorded = record_captures(
        &mut session,
        config,
        speaker_samples,
        speaker_label,
        logger,
        transcriber,
        capture_store,
        merger,
        interrupt_monitor,
    );
    let ghost stored_loop = capture_store.capture_calls();
    let ghost sent_loop = transcriber.transcriber_calls();
    proof {
        added_in_turn(stored0, stored_settings, stored_loop);
        settings_first(
            settings_call,
            added(stored_settings, stored_loop),
            added(sent0, sent_loop),
            speaker_samples@,
            *config,
            *speaker_label,
        );
    }
    let recorded = match recorded {
        Ok(rc) => rc,
        Err(e) => {
            return Err(e);
        },
    };
    let RecordedCaptures { end, mut transcripts, mut merged_segments, mut transcription_failures } =
        recorded;
    let ghost loop_calls = added(stored_settings, stored_loop);
    let ghost handed_loop = merger.merged_captures();
    match end {
        RecordingEnd::Finished => {
            release_session(session);
            log_info(logger, "recording finished")?;
        },
        RecordingEnd::Exhausted => {
            release_session(session);
        },
        RecordingEnd::LastCapture { range, audio } => {
            let kept_audio = capture_store.persist_audio(range.capture_index, &audio);
            let ghost stored_audio = capture_store.capture_calls();
            let ghost audio_call = stored_audio.last();
            proof {
                added_one(stored_settings, stored_loop, audio_call);
                round_recorded(
                    loop_calls,
                    added(sent0, sent_loop),
                    audio_call,
                    Seq::empty(),
                    Seq::empty(),
                    speaker_samples@,
                    *config,
                    *speaker_label,
                );
                assert(loop_calls.push(audio_call) + Seq::<CaptureStoreCall>::empty() =~= added(
                    stored_settings,
                    stored_audio,
                ));
                store_calls_split(loop_calls, seq![audio_call]);
                assert(seq![audio_call].drop_last() =~= Seq::<CaptureStoreCall>::empty());
                assert(merged_stored(Seq::<CaptureStoreCall>::empty()) =~= Seq::<MergedTranscriptSegment>::empty());
                assert(merged_stored(seq![audio_call]) =~= Seq::<MergedTranscriptSegment>::empty());
                assert(loop_calls + seq![audio_call] =~= added(stored_settings, stored_audio));
                assert(merged_stored(added(stored_settings, stored_audio)) =~= merged_stored(loop_calls));
                assert(added(sent0, sent_loop) + Seq::<TranscriberCall>::empty() =~= added(
                    sent0,
                    sent_loop,
                ));
                added_in_turn(stored0, stored_settings, stored_audio);
                settings_first(
                    settings_call,
                    added(stored_settings, stored_audio),
                    added(sent0, sent_loop),
                    speaker_samples@,
                    *config,
                    *speaker_label,
                );
            }
            match kept_audio {
                Ok(()) => {},
                Err(e) => {
                    return Err(CaptureError::Store(e));
                },
            }
            release_session(session);
            log_info(logger, "recording finished")?;
            let ghost failures_before = transcription_failures@;
            proof {
                assert(transcript_calls(added(stored_settings, stored_audio)) == transcript_calls(
                    loop_calls,
                ));
            }
            let filed = process_capture_audio(
                range,
                audio,
                config,
                speaker_samples,
                speaker_label,
                logger,
                transcriber,
                capture_store,
                merger,
                &mut transcripts,
                &mut merged_segments,
                &mut transcription_failures,
            );
            proof {
                let more_stored = added(stored_audio, capture_store.capture_calls());
                let more_sent = added(sent_loop, transcriber.transcriber_calls());
                added_in_turn(stored_settings, stored_audio, capture_store.capture_calls());
                added_in_turn(sent0, sent_loop, transcriber.transcriber_calls());
                round_recorded(
                    loop_calls,
                    added(sent0, sent_loop),
                    audio_call,
                    more_stored,
                    more_sent,
                    speaker_samples@,
                    *config,
                    *speaker_label,
                );
                added_in_turn(stored0, stored_settings, capture_store.capture_calls());
                settings_first(
                    settings_call,
                    added(stored_settings, capture_store.capture_calls()),
                    added(sent0, transcriber.transcriber_calls()),
                    speaker_samples@,
                    *config,
                    *speaker_label,
                );
                added_in_turn(handed0, handed_loop, merger.merged_captures());
                store_calls_split(added(stored_settings, stored_audio), more_stored);
                merge_recorded(
                    added(handed0, handed_loop),
                    added(handed_loop, merger.merged_captures()),
                    added(stored_settings, stored_audio),
                    more_stored,
                );
            }
            match filed {
                Ok(()) => {},
                Err(e) => {
                    return Err(e);
                },
            }
            proof {
                if transcription_failures@.len() > failures_before.len() {
                    failure_appended_in_order(
                        failures_before,
                        transcription_failures@,
                        range.capture_index,
                    );
                    assert forall|i: int| 0 <= i < transcription_failures@.len() implies (
                    #[trigger] transcription_failures@[i]).capture_start_ms
                        < config.capture_policy.recording_duration_ms by {
                        if i < failures_before.len() {
                            assert(transcription_failures@[i] == transcription_failures@.drop_last()[i]);
                        }
                    }
                }
                let sent = added(sent0, transcriber.transcriber_calls());
                let sent_before = added(sent0, sent_loop);
                assert(sent.drop_last() =~= sent_before);
                assert forall|i: int| 0 <= i < transcription_failures@.len() implies {
                    let f = #[trigger] transcription_failures@[i];
                    &&& 1 <= f.capture_index <= sent.len()
                    &&& sent[f.capture_index - 1].result is Err
                    &&& f.message@ == transcriber_error_prefix(sent[f.capture_index - 1].result->Err_0)
                        + transcriber_error_detail(sent[f.capture_index - 1].result->Err_0)
                } by {
                    if i < failures_before.len() {
                        let f = failures_before[i];
                        assert(transcription_failures@[i] == f);
                        assert(sent[f.capture_index - 1] == sent_before[f.capture_index - 1]);
                    }
                }
            }
        },
    }
    let ghost stored_before_finish = capture_store.capture_calls();
    let captures = transcripts.len() as u64 + transcription_failures.len() as u64;
    let finished = finish_run(
        capture_store,
        merger,
        logger,
        started_at_unix_ms,
        transcripts,
        merged_segments,
        transcription_failures,
        captures,
    );
    proof {
        added_in_turn(stored_settings, stored_before_finish, capture_store.capture_calls());
        store_calls_split(
            added(stored_settings, stored_before_finish),
            added(stored_before_finish, capture_store.capture_calls()),
        );
        assert(added(stored_settings, capture_store.capture_calls()).last() == added(
            stored_before_finish,
            capture_store.capture_calls(),
        )[0]);
        other_calls_kept(
            added(stored_settings, stored_before_finish),
            added(stored_before_finish, capture_store.capture_calls()),
            added(sent0, transcriber.transcriber_calls()),
            speaker_samples@,
            *config,
            *speaker_label,
        );
        added_in_turn(stored0, stored_settings, capture_store.capture_calls());
        settings_first(
            settings_call,
            added(stored_settings, capture_store.capture_calls()),
            added(sent0, transcriber.transcriber_calls()),
            speaker_samples@,
            *config,
            *speaker_label,
        );
    }
    finished
}

/// Stores the segments the merger still held, reports partial failures, and
/// assembles the result.
#[allow(clippy::too_many_arguments)]
fn finish_run<S, M>(
    capture_store: &mut S,
    merger: &mut M,
    logger: &dyn Logger,
    started_at_unix_ms: u64,
    transcripts: Vec<DiarizedTranscript>,
    merged_segments: Vec<MergedTranscriptSegment>,
    transcription_failures: Vec<CaptureTranscriptionFailure>,
    capture_index: u64,
) -> (r: Result<CaptureRunResult, CaptureError>) where S: CaptureStore, M: CaptureMerger
    requires
        failures_well_ordered(transcription_failures@, capture_index + 1),
        transcripts@.len() + transcription_failures@.len() <= capture_index,
    ensures
        r matches Ok(res) ==> res.started_at_unix_ms == started_at_unix_ms
            && res.transcription_failures@ == transcription_failures@ && res.transcripts@
            == transcripts@ && failures_well_ordered(res.transcription_failures@, u64::MAX + 1),
        r matches Err(e) ==> e is Store || e is Write,
        grown(old(capture_store).capture_calls(), final(capture_store).capture_calls()),
        audio_calls(added(old(capture_store).capture_calls(), final(capture_store).capture_calls())).len() == 0,
        transcript_calls(added(old(capture_store).capture_calls(), final(capture_store).capture_calls())).len() == 0,
        final(merger).merged_captures() == old(merger).merged_captures(),
        added(old(capture_store).capture_calls(), final(capture_store).capture_calls()).len() == 1,
        added(old(capture_store).capture_calls(), final(capture_store).capture_calls())[0] is MergedSegments,
        r matches Ok(res) ==> res.merged_segments@ == merged_segments@ + merged_stored(
            added(old(capture_store).capture_calls(), final(capture_store).capture_calls()),
        ),
{
    let ghost stored0 = capture_store.capture_calls();
    let ghost settled = merged_segments@;
    let mut merged_segments = merged_segments;
    let mut tail = merger.finish();
    let stored_tail = capture_store.persist_merged_segments(tail.as_slice());
    proof {
        let call = capture_store.capture_calls().last();
        assert(added(stored0, capture_store.capture_calls()) =~= seq![call]);
        assert(capture_store.capture_calls().take(stored0.len() as int) =~= stored0);
        assert(seq![call].drop_last() =~= Seq::<CaptureStoreCall>::empty());
        assert(audio_calls(Seq::<CaptureStoreCall>::empty()) =~= Seq::<CaptureStoreCall>::empty());
        assert(transcript_calls(Seq::<CaptureStoreCall>::empty()) =~= Seq::<CaptureStoreCall>::empty());
        assert(merged_stored(Seq::<CaptureStoreCall>::empty()) =~= Seq::<MergedTranscriptSegment>::empty());
        assert(merged_stored(seq![call]) =~= tail@);
    }
    match stored_tail {
        Ok(()) => {},
        Err(e) => {
            return Err(CaptureError::Store(e));
        },
    }
    let ghost held = tail@;
    merged_segments.append(&mut tail);
    if transcription_failures.len() > 0 {
        let summary = partial_failure_summary(
            transcripts.len() as u64,
            transcription_failures.len() as u64,
        );
        log_info(logger, summary.as_str())?;
    }
    assert(merged_segments@ =~= settled + held);
    Ok(
        CaptureRunResult {
            started_at_unix_ms,
            transcripts,
            merged_segments,
            transcription_failures,
        },
    )
}

} // verus!
