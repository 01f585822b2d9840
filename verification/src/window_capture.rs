//! Fixed-window capture: the recording is cut into windows planned in
//! advance, each the capture length and overlapping the one before by the
//! configured overlap, the last one shortened to end with the recording.
use crate::domain::{
    ChunkingStrategy, DiarizedTranscript, KnownSpeakerSample, RecordedAudio, ResponseFormat,
};
use crate::ports::{CaptureStoreError, RecorderError, TranscriberError};
use crate::capture::numbered_message;
use vstd::prelude::*;
use vstd::string::StringSliceAdditionalSpecFns;
use vstd::utf8::encode_utf8;
use crate::text::decimal_text;

verus! {

/// The transcription model that every window is sent to.
pub const TRANSCRIPTION_MODEL: &'static str = "gpt-4o-transcribe-diarize";

/// Where progress lines are written, one per call.
pub trait LineSink {
    /// The bytes written so far. Implementations in plain Rust need not
    /// define it; nothing is proved from this body.
    closed spec fn written(&self) -> Seq<u8> {
        arbitrary()
    }

    /// Writes `line` as UTF-8, then a newline.
    fn write_line(&mut self, line: &str) -> (r: Result<(), std::io::Error>)
        ensures
            r is Ok ==> final(self).written() == old(self).written() + line.spec_bytes() + seq![10u8],
    ;
}

impl LineSink for Vec<u8> {
    closed spec fn written(&self) -> Seq<u8> {
        self@
    }

    /// Appends the line's UTF-8 bytes and a newline.
    fn write_line(&mut self, line: &str) -> (r: Result<(), std::io::Error>)
        ensures
            r is Ok,
            final(self)@ == old(self)@ + line.spec_bytes() + seq![10u8],
    {
        let bytes = line.as_bytes();
        self.extend_from_slice(bytes);
        self.push(10u8);
        assert(self@ =~= old(self)@ + line.spec_bytes() + seq![10u8]);
        Ok(())
    }
}

/// Starts a continuous recording.
pub trait Recorder {
    type Session: RecordingSession;

    fn start_recording(&mut self) -> Result<Self::Session, RecorderError>;
}

/// A recording in progress (offsets in milliseconds).
pub trait RecordingSession {
    /// Waits until the recording reaches `offset_ms`.
    fn wait_until(&mut self, offset_ms: u64) -> Result<(), RecorderError>;

    /// The audio of one window as WAV.
    fn capture_wav(&mut self, start_offset_ms: u64, duration_ms: u64) -> Result<
        RecordedAudio,
        RecorderError,
    >;
}

/// What is sent to the transcription service for one window.
pub struct TranscriptionRequest<'a> {
    pub audio: &'a RecordedAudio,
    pub speaker_samples: &'a [KnownSpeakerSample],
    pub model: &'static str,
    pub response_format: ResponseFormat,
    pub chunking_strategy: ChunkingStrategy,
}

/// Turns a window's audio into a diarized transcript.
pub trait Transcriber {
    fn transcribe(&mut self, request: TranscriptionRequest<'_>) -> Result<
        DiarizedTranscript,
        TranscriberError,
    >;
}

/// Where each window's audio and transcript go.
pub trait CaptureStore {
    fn persist_audio(&mut self, capture_index: u64, audio: &RecordedAudio) -> Result<
        (),
        CaptureStoreError,
    >;

    fn persist_transcript(
        &mut self,
        capture_index: u64,
        capture_start_ms: u64,
        transcript: &DiarizedTranscript,
    ) -> Result<(), CaptureStoreError>;
}

/// The settings of a fixed-window run (durations in milliseconds).
#[derive(Debug, Clone, PartialEq, Eq)]
pub struct CaptureConfig {
    pub recording_duration_ms: u64,
    pub capture_duration_ms: u64,
    pub capture_overlap_ms: u64,
    pub response_format: ResponseFormat,
    pub transcription_model: &'static str,
    pub chunking_strategy: ChunkingStrategy,
}

impl CaptureConfig {
    /// A run with the given timing, diarized JSON output and automatic
    /// chunking.
    pub fn new(recording_duration_ms: u64, capture_duration_ms: u64, capture_overlap_ms: u64) -> (r:
        Self)
        ensures
            r.recording_duration_ms == recording_duration_ms,
            r.capture_duration_ms == capture_duration_ms,
            r.capture_overlap_ms == capture_overlap_ms,
            r.response_format == ResponseFormat::DiarizedJson,
            r.transcription_model == TRANSCRIPTION_MODEL,
            r.chunking_strategy == ChunkingStrategy::Auto,
    {
        CaptureConfig {
            recording_duration_ms,
            capture_duration_ms,
            capture_overlap_ms,
            response_format: ResponseFormat::DiarizedJson,
            transcription_model: TRANSCRIPTION_MODEL,
            chunking_strategy: ChunkingStrategy::Auto,
        }
    }
}

/// Why a fixed-window run stopped.
#[derive(Debug)]
pub enum CaptureError {
    Record(RecorderError),
    Transcribe(TranscriberError),
    Store(CaptureStoreError),
    Write(std::io::Error),
}

/// One planned window of the recording.
#[derive(Debug, Clone, Copy, PartialEq, Eq, Structural)]
pub struct CaptureWindow {
    pub capture_index: u64,
    pub start_offset_ms: u64,
    pub duration_ms: u64,
}

impl CaptureWindow {
    pub open spec fn spec_end_offset_ms(self) -> int {
        self.start_offset_ms + self.duration_ms
    }

    /// Where the window ends.
    pub fn end_offset_ms(&self) -> (r: u64)
        requires
            self.start_offset_ms + self.duration_ms <= u64::MAX,
        ensures
            r == self.spec_end_offset_ms(),
    {
        self.start_offset_ms + self.duration_ms
    }
}

/// Whether windows of `capture` milliseconds that overlap by `overlap`
/// can be planned: each window must move the next one forward, unless the
/// whole recording fits in one window.
pub open spec fn windows_plannable(recording: u64, capture: u64, overlap: u64) -> bool {
    overlap < capture || (overlap == capture && recording < capture)
}

/// The windows from `start` on, numbered from `index`: each as long as a
/// capture or as what is left of the recording, the next one starting
/// `stride` later, until a window comes out shorter than a capture or the
/// next one would start past the recording.
pub open spec fn windows_from(recording: nat, capture: nat, stride: nat, start: nat, index: nat) -> Seq<
    CaptureWindow,
>
    decreases recording - start,
{
    if start >= recording {
        Seq::empty()
    } else {
        let duration: nat = if recording - start < capture {
            (recording - start) as nat
        } else {
            capture
        };
        let w = CaptureWindow {
            capture_index: index as u64,
            start_offset_ms: start as u64,
            duration_ms: duration as u64,
        };
        if duration < capture || stride == 0 || start + stride >= recording {
            seq![w]
        } else {
            seq![w] + windows_from(recording, capture, stride, start + stride, index + 1)
        }
    }
}

/// The windows of a whole recording.
pub open spec fn spec_capture_windows(recording: u64, capture: u64, overlap: u64) -> Seq<
    CaptureWindow,
> {
    windows_from(recording as nat, capture as nat, (capture - overlap) as nat, 0, 1)
}

/// The windows of one fixed-window recording.
pub fn build_capture_windows(
    recording_duration_ms: u64,
    capture_duration_ms: u64,
    capture_overlap_ms: u64,
) -> (r: Vec<CaptureWindow>)
    requires
        windows_plannable(recording_duration_ms, capture_duration_ms, capture_overlap_ms),
    ensures
        r@ == spec_capture_windows(recording_duration_ms, capture_duration_ms, capture_overlap_ms),
{
    let stride = capture_duration_ms - capture_overlap_ms;
    let mut windows: Vec<CaptureWindow> = Vec::new();
    let mut capture_index: u64 = 1;
    let mut start_offset: u64 = 0;
    let ghost total = spec_capture_windows(
        recording_duration_ms,
        capture_duration_ms,
        capture_overlap_ms,
    );
    while start_offset < recording_duration_ms
        invariant_except_break
            total == windows@ + windows_from(
                recording_duration_ms as nat,
                capture_duration_ms as nat,
                stride as nat,
                start_offset as nat,
                capture_index as nat,
            ),
        invariant
            stride == capture_duration_ms - capture_overlap_ms,
            windows_plannable(recording_duration_ms, capture_duration_ms, capture_overlap_ms),
            1 <= capture_index,
            capture_index <= start_offset + 1,
            total == spec_capture_windows(
                recording_duration_ms,
                capture_duration_ms,
                capture_overlap_ms,
            ),
        ensures
            total == windows@,
        decreases recording_duration_ms - start_offset,
    {
        let remaining = recording_duration_ms - start_offset;
        let duration = if remaining < capture_duration_ms {
            remaining
        } else {
            capture_duration_ms
        };
        let window = CaptureWindow { capture_index, start_offset_ms: start_offset, duration_ms: duration };
        let ghost rest = windows_from(
            recording_duration_ms as nat,
            capture_duration_ms as nat,
            stride as nat,
            start_offset as nat,
            capture_index as nat,
        );
        windows.push(window);
        if duration < capture_duration_ms || stride == 0 || stride >= recording_duration_ms
            - start_offset {
            assert(rest == seq![window]);
            assert(total =~= windows@);
            break;
        }
        let ghost next = windows_from(
            recording_duration_ms as nat,
            capture_duration_ms as nat,
            stride as nat,
            (start_offset + stride) as nat,
            (capture_index + 1) as nat,
        );
        assert(rest == seq![window] + next);
        assert(total =~= windows@ + next);
        start_offset = start_offset + stride;
        capture_index = capture_index + 1;
    }
    windows
}

/// Planned windows start one stride apart and are numbered consecutively
/// from 1: every window but the last is a full capture, and the next
/// starts `capture - overlap` after it.
pub proof fn windows_follow_one_stride_apart(recording: u64, capture: u64, overlap: u64, i: int)
    requires
        overlap < capture,
        0 <= i,
        i + 1 < spec_capture_windows(recording, capture, overlap).len(),
    ensures
        ({
            let ws = spec_capture_windows(recording, capture, overlap);
            &&& ws[i].duration_ms == capture
            &&& ws[i + 1].start_offset_ms == ws[i].start_offset_ms + (capture - overlap)
            &&& ws[i + 1].capture_index == ws[i].capture_index + 1
        }),
{
    windows_stride_from(recording as nat, capture as nat, (capture - overlap) as nat, 0, 1, i);
}

proof fn windows_stride_from(recording: nat, capture: nat, stride: nat, start: nat, index: nat, i: int)
    requires
        stride > 0,
        recording <= u64::MAX,
        index <= start + 1,
        0 <= i,
        i + 1 < windows_from(recording, capture, stride, start, index).len(),
    ensures
        ({
            let ws = windows_from(recording, capture, stride, start, index);
            &&& ws[i].duration_ms == capture
            &&& ws[i + 1].start_offset_ms == ws[i].start_offset_ms + stride
            &&& ws[i + 1].capture_index == ws[i].capture_index + 1
        }),
    decreases recording - start,
{
    let ws = windows_from(recording, capture, stride, start, index);
    let next = windows_from(recording, capture, stride, start + stride, index + 1);
    assert(ws == seq![ws[0]] + next);
    windows_start_where_asked(recording, capture, stride, start + stride, index + 1);
    if i == 0 {
    } else {
        windows_stride_from(recording, capture, stride, start + stride, index + 1, i - 1);
    }
}

/// The first window of a sequence starts where it was asked to, with the
/// index it was given.
proof fn windows_start_where_asked(recording: nat, capture: nat, stride: nat, start: nat, index: nat)
    requires
        recording <= u64::MAX,
        index <= start + 1,
        windows_from(recording, capture, stride, start, index).len() > 0,
    ensures
        windows_from(recording, capture, stride, start, index)[0].start_offset_ms == start,
        windows_from(recording, capture, stride, start, index)[0].capture_index == index,
{
}

/// The planned windows cover the recording: the first starts at 0 and the
/// last ends exactly where the recording does.
pub proof fn windows_cover_the_recording(recording: u64, capture: u64, overlap: u64)
    requires
        overlap < capture,
        recording > 0,
    ensures
        ({
            let ws = spec_capture_windows(recording, capture, overlap);
            &&& ws.len() > 0
            &&& ws[0].start_offset_ms == 0
            &&& ws.last().spec_end_offset_ms() == recording
        }),
{
    windows_end_at(recording as nat, capture as nat, (capture - overlap) as nat, 0, 1);
}

proof fn windows_end_at(recording: nat, capture: nat, stride: nat, start: nat, index: nat)
    requires
        stride > 0,
        stride <= capture,
        start < recording,
        recording <= u64::MAX,
        index <= start + 1,
    ensures
        ({
            let ws = windows_from(recording, capture, stride, start, index);
            &&& ws.len() > 0
            &&& ws[0].start_offset_ms == start
            &&& ws.last().spec_end_offset_ms() == recording
        }),
    decreases recording - start,
{
    let ws = windows_from(recording, capture, stride, start, index);
    if recording - start < capture || start + stride >= recording {
    } else {
        windows_end_at(recording, capture, stride, start + stride, index + 1);
        let next = windows_from(recording, capture, stride, start + stride, index + 1);
        assert(ws == seq![ws[0]] + next);
        assert(ws.last() == next.last());
    }
}

/// Whether no window but the last ends where the recording does (the
/// session is closed after the window that reaches the end).
pub open spec fn only_last_window_reaches_end(recording: u64, capture: u64, overlap: u64) -> bool {
    let ws = spec_capture_windows(recording, capture, overlap);
    forall|k: int| 0 <= k < ws.len() - 1 ==> #[trigger] ws[k].spec_end_offset_ms() != recording
}

/// The bytes of these lines, each in UTF-8 and followed by a newline.
pub open spec fn line_bytes(lines: Seq<Seq<char>>) -> Seq<u8>
    decreases lines.len(),
{
    if lines.len() == 0 {
        Seq::empty()
    } else {
        line_bytes(lines.drop_last()) + encode_utf8(lines.last()) + seq![10u8]
    }
}

/// The lines of two lists, one after the other, are the bytes of the first
/// list's lines, then the second's.
proof fn line_bytes_split(a: Seq<Seq<char>>, b: Seq<Seq<char>>)
    ensures
        line_bytes(a + b) == line_bytes(a) + line_bytes(b),
    decreases b.len(),
{
    if b.len() == 0 {
        assert(a + b =~= a);
        assert(line_bytes(a) + line_bytes(b) =~= line_bytes(a));
    } else {
        line_bytes_split(a, b.drop_last());
        assert((a + b).drop_last() =~= a + b.drop_last());
        assert((a + b).last() == b.last());
        assert(line_bytes(a) + line_bytes(b) =~= line_bytes(a) + line_bytes(b.drop_last())
            + encode_utf8(b.last()) + seq![10u8]);
    }
}

/// The progress lines written for one window: the end of the recording
/// when the window reaches it, then the request sent and the response
/// received for the window's capture.
pub open spec fn window_lines(w: CaptureWindow, recording_duration_ms: u64) -> Seq<Seq<char>> {
    let sent = "transcription request sent for capture "@ + decimal_text(w.capture_index as nat);
    let received = "transcription response received for capture "@ + decimal_text(
        w.capture_index as nat,
    );
    if w.start_offset_ms + w.duration_ms == recording_duration_ms {
        seq!["recording finished"@, sent, received]
    } else {
        seq![sent, received]
    }
}

/// The progress lines of a run that went through these windows: the start
/// of the recording, then each window's lines.
pub open spec fn run_lines(windows: Seq<CaptureWindow>, recording_duration_ms: u64) -> Seq<Seq<char>>
    decreases windows.len(),
{
    if windows.len() == 0 {
        seq!["recording started"@]
    } else {
        run_lines(windows.drop_last(), recording_duration_ms) + window_lines(
            windows.last(),
            recording_duration_ms,
        )
    }
}

/// Writes one progress line.
fn info_log<L: LineSink>(output: &mut L, message: &str) -> (r: Result<(), CaptureError>)
    ensures
        r matches Err(e) ==> e is Write,
        r is Ok ==> final(output).written() == old(output).written() + encode_utf8(message@) + seq![
            10u8,
        ],
{
    match output.write_line(message) {
        Ok(()) => Ok(()),
        Err(e) => Err(CaptureError::Write(e)),
    }
}

/// Lets the recording session go, which stops the recording.
fn release_session<S>(session: S) {
}

/// Records once, cuts the planned windows as the recording reaches their
/// ends, and stores and transcribes each; the session is closed before the
/// last window is transcribed.
///
/// On success every window was transcribed: one transcript per planned
/// window, in order. A failed transcription stops the run.
pub fn run_capture<R, T, S, L>(
    config: &CaptureConfig,
    speaker_samples: &[KnownSpeakerSample],
    recorder: &mut R,
    transcriber: &mut T,
    capture_store: &mut S,
    stderr: &mut L,
) -> (r: Result<Vec<DiarizedTranscript>, CaptureError>) where
    R: Recorder,
    T: Transcriber,
    S: CaptureStore,
    L: LineSink,

    requires
        windows_plannable(
            config.recording_duration_ms,
            config.capture_duration_ms,
            config.capture_overlap_ms,
        ),
        only_last_window_reaches_end(
            config.recording_duration_ms,
            config.capture_duration_ms,
            config.capture_overlap_ms,
        ),
    ensures
        r matches Ok(ts) ==> ts@.len() == spec_capture_windows(
            config.recording_duration_ms,
            config.capture_duration_ms,
            config.capture_overlap_ms,
        ).len(),
        r is Ok ==> final(stderr).written() == old(stderr).written() + line_bytes(
            run_lines(
                spec_capture_windows(
                    config.recording_duration_ms,
                    config.capture_duration_ms,
                    config.capture_overlap_ms,
                ),
                config.recording_duration_ms,
            ),
        ),
{
    let ghost written0 = stderr.written();
    info_log(stderr, "recording started")?;
    proof {
        let first = seq!["recording started"@];
        assert(first.drop_last() =~= Seq::<Seq<char>>::empty());
        assert(line_bytes(Seq::<Seq<char>>::empty()) =~= Seq::<u8>::empty());
        assert(line_bytes(first) =~= encode_utf8("recording started"@) + seq![10u8]);
        assert(run_lines(Seq::<CaptureWindow>::empty(), config.recording_duration_ms) == first);
        assert(stderr.written() =~= written0 + line_bytes(first));
    }
    let session = match recorder.start_recording() {
        Ok(s) => s,
        Err(e) => {
            return Err(CaptureError::Record(e));
        },
    };
    let windows = build_capture_windows(
        config.recording_duration_ms,
        config.capture_duration_ms,
        config.capture_overlap_ms,
    );
    let ghost ws = windows@;
    let mut slot: Option<R::Session> = Some(session);
    let mut transcripts: Vec<DiarizedTranscript> = Vec::new();
    let mut i: usize = 0;
    while i < windows.len()
        invariant
            windows@ == ws,
            ws == spec_capture_windows(
                config.recording_duration_ms,
                config.capture_duration_ms,
                config.capture_overlap_ms,
            ),
            only_last_window_reaches_end(
                config.recording_duration_ms,
                config.capture_duration_ms,
                config.capture_overlap_ms,
            ),
            i <= windows.len(),
            i < windows.len() ==> slot is Some,
            transcripts@.len() == i,
            stderr.written() == written0 + line_bytes(
                run_lines(ws.take(i as int), config.recording_duration_ms),
            ),
            written0 == old(stderr).written(),
        decreases windows.len() - i,
    {
        let ghost bytes_before = stderr.written();
        let window = windows[i];
        let end = window.start_offset_ms.saturating_add(window.duration_ms);
        let is_last_window = window.start_offset_ms as u128 + window.duration_ms as u128
            == config.recording_duration_ms as u128;
        let mut session = slot.unwrap();
        match session.wait_until(end) {
            Ok(()) => {},
            Err(e) => {
                return Err(CaptureError::Record(e));
            },
        }
        let audio = match session.capture_wav(window.start_offset_ms, window.duration_ms) {
            Ok(a) => a,
            Err(e) => {
                return Err(CaptureError::Record(e));
            },
        };
        match capture_store.persist_audio(window.capture_index, &audio) {
            Ok(()) => {},
            Err(e) => {
                return Err(CaptureError::Store(e));
            },
        }
        if is_last_window {
            release_session(session);
            slot = None;
            info_log(stderr, "recording finished")?;
        } else {
            slot = Some(session);
        }
        let sent = numbered_message("transcription request sent for capture ", window.capture_index);
        info_log(stderr, sent.as_str())?;
        let transcript = match transcriber.transcribe(
            TranscriptionRequest {
                audio: &audio,
                speaker_samples,
                model: config.transcription_model,
                response_format: config.response_format,
                chunking_strategy: config.chunking_strategy,
            },
        ) {
            Ok(t) => t,
            Err(e) => {
                return Err(CaptureError::Transcribe(e));
            },
        };
        let received = numbered_message(
            "transcription response received for capture ",
            window.capture_index,
        );
        info_log(stderr, received.as_str())?;
        match capture_store.persist_transcript(
            window.capture_index,
            window.start_offset_ms,
            &transcript,
        ) {
            Ok(()) => {},
            Err(e) => {
                return Err(CaptureError::Store(e));
            },
        }
        transcripts.push(transcript);
        proof {
            if is_last_window && i + 1 < ws.len() {
                assert(ws[i as int].spec_end_offset_ms() != config.recording_duration_ms);
            }
            let rec = config.recording_duration_ms;
            let wl = window_lines(ws[i as int], rec);
            let sent_line = "transcription request sent for capture "@ + decimal_text(
                window.capture_index as nat,
            );
            let received_line = "transcription response received for capture "@ + decimal_text(
                window.capture_index as nat,
            );
            assert(ws.take(i as int + 1).drop_last() =~= ws.take(i as int));
            assert(ws.take(i as int + 1).last() == ws[i as int]);
            assert(run_lines(ws.take(i as int + 1), rec) == run_lines(ws.take(i as int), rec) + wl);
            line_bytes_split(run_lines(ws.take(i as int), rec), wl);
            assert(line_bytes(Seq::<Seq<char>>::empty()) =~= Seq::<u8>::empty());
            let two = seq![sent_line, received_line];
            assert(two.drop_last() =~= seq![sent_line]);
            assert(seq![sent_line].drop_last() =~= Seq::<Seq<char>>::empty());
            assert(line_bytes(seq![sent_line]) =~= encode_utf8(sent_line) + seq![10u8]);
            assert(line_bytes(two) =~= encode_utf8(sent_line) + seq![10u8] + encode_utf8(received_line)
                + seq![10u8]);
            if is_last_window {
                let three = seq!["recording finished"@, sent_line, received_line];
                assert(three.drop_last() =~= seq!["recording finished"@, sent_line]);
                assert(seq!["recording finished"@, sent_line].drop_last() =~= seq![
                    "recording finished"@,
                ]);
                assert(seq!["recording finished"@].drop_last() =~= Seq::<Seq<char>>::empty());
                assert(line_bytes(seq!["recording finished"@]) =~= encode_utf8("recording finished"@)
                    + seq![10u8]);
                assert(line_bytes(seq!["recording finished"@, sent_line]) =~= encode_utf8(
                    "recording finished"@,
                ) + seq![10u8] + encode_utf8(sent_line) + seq![10u8]);
                assert(line_bytes(three) =~= encode_utf8("recording finished"@) + seq![10u8]
                    + encode_utf8(sent_line) + seq![10u8] + encode_utf8(received_line) + seq![10u8]);
                assert(wl == three);
                assert(stderr.written() =~= bytes_before + line_bytes(three));
            } else {
                assert(wl == two);
                assert(stderr.written() =~= bytes_before + line_bytes(two));
            }
        }
        i = i + 1;
    }
    proof {
        assert(ws.take(ws.len() as int) =~= ws);
    }
    Ok(transcripts)
}

} // verus!
