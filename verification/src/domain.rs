//! The values that recording, transcription and merging pass around.
use vstd::prelude::*;

verus! {

/// A real-valued setting carried as its IEEE-754 binary64 encoding.
///
/// The library never computes with these numbers; it validates, stores and
/// hands them on. Range checks are stated over the encoding itself.
#[derive(Debug, Clone, Copy, PartialEq, Eq, Structural)]
pub struct Binary64 {
    pub bits: u64,
}

/// The encoding of `1.0`.
pub const ONE_BITS: u64 = 0x3ff0_0000_0000_0000u64;

/// The encoding of `-0.0`.
pub const NEGATIVE_ZERO_BITS: u64 = 0x8000_0000_0000_0000u64;

/// The encoding of negative infinity.
pub const NEGATIVE_INFINITY_BITS: u64 = 0xfff0_0000_0000_0000u64;

impl Binary64 {
    /// The value lies in `0.0..=1.0` (`-0.0` included, NaN excluded).
    ///
    /// Non-negative binary64 values are ordered like their encodings, and
    /// `-0.0` compares equal to `0.0`.
    pub open spec fn spec_is_unit_interval(self) -> bool {
        self.bits <= ONE_BITS || self.bits == NEGATIVE_ZERO_BITS
    }

    /// The value is finite and strictly below zero.
    ///
    /// Negative finite values are exactly the encodings strictly between
    /// `-0.0` and negative infinity.
    pub open spec fn spec_is_finite_negative(self) -> bool {
        NEGATIVE_ZERO_BITS < self.bits < NEGATIVE_INFINITY_BITS
    }

    pub fn is_unit_interval(&self) -> (b: bool)
        ensures
            b == self.spec_is_unit_interval(),
    {
        self.bits <= ONE_BITS || self.bits == NEGATIVE_ZERO_BITS
    }

    pub fn is_finite_negative(&self) -> (b: bool)
        ensures
            b == self.spec_is_finite_negative(),
    {
        NEGATIVE_ZERO_BITS < self.bits && self.bits < NEGATIVE_INFINITY_BITS
    }
}

/// One encoded WAV capture.
#[derive(Debug, Clone, PartialEq, Eq)]
pub struct RecordedAudio {
    pub wav_bytes: Vec<u8>,
    pub content_type: &'static str,
}

/// One diarized utterance, with times relative to its capture.
#[derive(Debug, Clone, PartialEq, Eq)]
pub struct TranscriptSegment {
    pub speaker: String,
    pub start_ms: u64,
    pub end_ms: u64,
    pub text: String,
}

/// The transcription of one capture.
#[derive(Debug, Clone, PartialEq, Eq)]
pub struct DiarizedTranscript {
    pub text: String,
    pub segments: Vec<TranscriptSegment>,
}

/// One utterance after merging, with times relative to the recording start.
#[derive(Debug, Clone, PartialEq, Eq)]
pub struct MergedTranscriptSegment {
    pub speaker: String,
    pub start_ms: u64,
    pub end_ms: u64,
    pub text: String,
}

/// A registered speaker's reference recording.
#[derive(Debug, Clone, PartialEq, Eq)]
pub struct KnownSpeakerSample {
    pub speaker_name: String,
    pub audio: RecordedAudio,
}

/// A single-precision component of a speaker embedding, carried as its
/// IEEE-754 binary32 encoding.
#[derive(Debug, Clone, Copy, PartialEq, Eq, Structural)]
pub struct Binary32 {
    pub bits: u32,
}

/// A speaker's voice embedding, computed by the named model.
#[derive(Debug, Clone, PartialEq, Eq)]
pub struct KnownSpeakerEmbedding {
    pub speaker_name: String,
    pub model: String,
    pub vector: Vec<Binary32>,
}

/// Where a mixed-mode utterance was recorded.
#[derive(Debug, Clone, Copy, PartialEq, Eq, Structural)]
pub enum TranscriptSource {
    Microphone,
    Application,
}

impl TranscriptSource {
    /// Rank used to order utterances that start and end together.
    pub open spec fn spec_sort_order(self) -> u8 {
        match self {
            TranscriptSource::Microphone => 0,
            TranscriptSource::Application => 1,
        }
    }

    /// The microphone comes before the application.
    pub fn sort_order(&self) -> (r: u8)
        ensures
            r == self.spec_sort_order(),
    {
        match self {
            TranscriptSource::Microphone => 0,
            TranscriptSource::Application => 1,
        }
    }

    /// The directory that holds this source's files inside a session.
    pub fn as_storage_dir_name(&self) -> (r: &'static str)
        ensures
            r@ == (match self {
                TranscriptSource::Microphone => "microphone"@,
                TranscriptSource::Application => "application"@,
            }),
    {
        match self {
            TranscriptSource::Microphone => "microphone",
            TranscriptSource::Application => "application",
        }
    }
}

/// One utterance of the final mixed transcript, on the Unix time axis.
#[derive(Debug, Clone, PartialEq, Eq)]
pub struct SourcedTranscriptSegment {
    pub source: TranscriptSource,
    pub speaker: String,
    pub start_ms: u64,
    pub end_ms: u64,
    pub text: String,
}

impl SourcedTranscriptSegment {
    /// Places a merged utterance of `source` on the absolute time axis, given
    /// the Unix time at which that source started recording.
    pub fn from_merged_with_offset(
        source: TranscriptSource,
        started_at_unix_ms: u64,
        segment: &MergedTranscriptSegment,
    ) -> (r: Self)
        requires
            started_at_unix_ms + segment.end_ms <= u64::MAX,
            started_at_unix_ms + segment.start_ms <= u64::MAX,
        ensures
            r.source == source,
            r.speaker == segment.speaker,
            r.start_ms == started_at_unix_ms + segment.start_ms,
            r.end_ms == started_at_unix_ms + segment.end_ms,
            r.text == segment.text,
    {
        SourcedTranscriptSegment {
            source,
            speaker: segment.speaker.clone(),
            start_ms: started_at_unix_ms + segment.start_ms,
            end_ms: started_at_unix_ms + segment.end_ms,
            text: segment.text.clone(),
        }
    }
}

/// The transcription language: detected by the service, or fixed.
#[derive(Debug, Clone, PartialEq, Eq)]
pub enum TranscriptionLanguage {
    Auto,
    Fixed(String),
}

/// The transcription language with its code as characters.
pub enum LanguageModel {
    Auto,
    Fixed(Seq<char>),
}

impl View for TranscriptionLanguage {
    type V = LanguageModel;

    open spec fn view(&self) -> LanguageModel {
        match self {
            TranscriptionLanguage::Auto => LanguageModel::Auto,
            TranscriptionLanguage::Fixed(code) => LanguageModel::Fixed(code@),
        }
    }
}

impl TranscriptionLanguage {
    /// The `language` field of a transcription request; absent in auto mode.
    pub fn as_api_value(&self) -> (r: Option<&str>)
        ensures
            match self {
                TranscriptionLanguage::Auto => r.is_none(),
                TranscriptionLanguage::Fixed(code) => r.is_some() && r.unwrap()@ == code@,
            },
    {
        match self {
            TranscriptionLanguage::Auto => None,
            TranscriptionLanguage::Fixed(code) => Some(code.as_str()),
        }
    }

    /// The text recorded in session metadata: `auto`, or the language code.
    pub fn display_text(&self) -> (r: String)
        ensures
            r@ == (match self {
                TranscriptionLanguage::Auto => "auto"@,
                TranscriptionLanguage::Fixed(code) => code@,
            }),
    {
        match self {
            TranscriptionLanguage::Auto => "auto".to_owned(),
            TranscriptionLanguage::Fixed(code) => code.clone(),
        }
    }

    /// A copy with the same contents.
    pub fn duplicate(&self) -> (r: Self)
        ensures
            r == *self,
    {
        match self {
            TranscriptionLanguage::Auto => TranscriptionLanguage::Auto,
            TranscriptionLanguage::Fixed(code) => TranscriptionLanguage::Fixed(code.clone()),
        }
    }
}

/// The response format requested from the transcription service.
#[derive(Debug, Clone, Copy, PartialEq, Eq, Structural)]
pub enum ResponseFormat {
    DiarizedJson,
}

impl ResponseFormat {
    pub fn as_api_value(&self) -> (r: &'static str)
        ensures
            r@ == "diarized_json"@,
    {
        "diarized_json"
    }
}

/// The chunking strategy requested from the transcription service.
#[derive(Debug, Clone, Copy, PartialEq, Eq, Structural)]
pub enum ChunkingStrategy {
    Auto,
}

impl ChunkingStrategy {
    pub fn as_api_value(&self) -> (r: &'static str)
        ensures
            r@ == "auto"@,
    {
        "auto"
    }
}

/// How long to record, how long each capture may be, and how much
/// consecutive hard-limited captures overlap (all in milliseconds).
#[derive(Debug, Clone, Copy, PartialEq, Eq, Structural)]
pub struct CapturePolicy {
    pub recording_duration_ms: u64,
    pub capture_duration_ms: u64,
    pub capture_overlap_ms: u64,
}

/// When a capture may be cut early at a pause in speech.
#[derive(Debug, Clone, Copy, PartialEq, Eq, Structural)]
pub struct SilenceRequestPolicy {
    pub silence_threshold_dbfs: Binary64,
    pub silence_min_duration_ms: u64,
    pub tail_silence_min_duration_ms: u64,
}

/// The encoding of `-42.0`, the recommended silence threshold in dBFS.
pub const RECOMMENDED_SILENCE_THRESHOLD_DBFS_BITS: u64 = 0xc045_0000_0000_0000u64;

/// The recommended pause length that ends a capture.
pub const RECOMMENDED_SILENCE_MIN_DURATION_MS: u64 = 700;

/// The recommended pause length near the capture limit.
pub const RECOMMENDED_TAIL_SILENCE_MIN_DURATION_MS: u64 = 250;

impl SilenceRequestPolicy {
    pub open spec fn spec_recommended() -> Self {
        SilenceRequestPolicy {
            silence_threshold_dbfs: Binary64 { bits: RECOMMENDED_SILENCE_THRESHOLD_DBFS_BITS },
            silence_min_duration_ms: RECOMMENDED_SILENCE_MIN_DURATION_MS,
            tail_silence_min_duration_ms: RECOMMENDED_TAIL_SILENCE_MIN_DURATION_MS,
        }
    }

    /// -42 dBFS, 700 ms of silence, 250 ms near the capture limit.
    pub fn recommended() -> (r: Self)
        ensures
            r == Self::spec_recommended(),
    {
        SilenceRequestPolicy {
            silence_threshold_dbfs: Binary64 { bits: RECOMMENDED_SILENCE_THRESHOLD_DBFS_BITS },
            silence_min_duration_ms: RECOMMENDED_SILENCE_MIN_DURATION_MS,
            tail_silence_min_duration_ms: RECOMMENDED_TAIL_SILENCE_MIN_DURATION_MS,
        }
    }
}

/// How strictly the text of overlapping captures must agree before it is
/// deduplicated.
#[derive(Debug, Clone, Copy, PartialEq, Eq, Structural)]
pub struct TranscriptMergePolicy {
    pub min_overlap_chars: u64,
    pub min_alignment_ratio: Binary64,
    pub min_trigram_similarity: Binary64,
}

/// The recommended minimum overlap in characters.
pub const RECOMMENDED_MIN_OVERLAP_CHARS: u64 = 10;

/// The encoding of `0.8`, the recommended minimum alignment ratio.
pub const RECOMMENDED_MIN_ALIGNMENT_RATIO_BITS: u64 = 0x3fe9_9999_9999_999au64;

/// The encoding of `0.55`, the recommended minimum trigram similarity.
pub const RECOMMENDED_MIN_TRIGRAM_SIMILARITY_BITS: u64 = 0x3fe1_9999_9999_999au64;

impl TranscriptMergePolicy {
    pub open spec fn spec_recommended() -> Self {
        TranscriptMergePolicy {
            min_overlap_chars: RECOMMENDED_MIN_OVERLAP_CHARS,
            min_alignment_ratio: Binary64 { bits: RECOMMENDED_MIN_ALIGNMENT_RATIO_BITS },
            min_trigram_similarity: Binary64 { bits: RECOMMENDED_MIN_TRIGRAM_SIMILARITY_BITS },
        }
    }

    /// 10 characters, alignment ratio 0.8, trigram similarity 0.55.
    pub fn recommended() -> (r: Self)
        ensures
            r == Self::spec_recommended(),
    {
        TranscriptMergePolicy {
            min_overlap_chars: RECOMMENDED_MIN_OVERLAP_CHARS,
            min_alignment_ratio: Binary64 { bits: RECOMMENDED_MIN_ALIGNMENT_RATIO_BITS },
            min_trigram_similarity: Binary64 { bits: RECOMMENDED_MIN_TRIGRAM_SIMILARITY_BITS },
        }
    }
}

/// Why the recorder ended a capture where it did.
#[derive(Debug, Clone, Copy, PartialEq, Eq, Structural)]
pub enum CaptureBoundaryReason {
    Silence,
    MaxDuration,
    Interrupted,
}

/// Where the recorder ended the capture that started at a given offset.
#[derive(Debug, Clone, Copy, PartialEq, Eq, Structural)]
pub struct CaptureBoundary {
    pub duration_ms: u64,
    pub reason: CaptureBoundaryReason,
}

/// One capture's place in the recording.
#[derive(Debug, Clone, Copy, PartialEq, Eq, Structural)]
pub struct CaptureRange {
    pub capture_index: u64,
    pub start_offset_ms: u64,
    pub duration_ms: u64,
}

impl CaptureRange {
    pub open spec fn spec_end_offset_ms(self) -> int {
        self.start_offset_ms + self.duration_ms
    }

    pub fn end_offset_ms(&self) -> (r: u64)
        requires
            self.start_offset_ms + self.duration_ms <= u64::MAX,
        ensures
            r == self.spec_end_offset_ms(),
    {
        self.start_offset_ms + self.duration_ms
    }
}

/// The stretch of text on each side of a capture boundary that the merger
/// compared.
#[derive(Debug, Clone, PartialEq, Eq)]
pub struct MergeOverlapRangeSnapshot {
    pub start_ms: u64,
    pub end_ms: u64,
    pub text: String,
    pub normalized_char_count: u64,
}

/// Which side's text was kept for the overlap.
#[derive(Debug, Clone, Copy, PartialEq, Eq, Structural)]
pub enum MergeOverlapTextSource {
    CurrentOverlapRange,
}

/// Why two captures were not deduplicated.
#[derive(Debug, Clone, Copy, PartialEq, Eq, Structural)]
pub enum MergeSkipReason {
    NoOverlapRange,
}

/// The merger's decision on one capture boundary.
#[derive(Debug, Clone, PartialEq, Eq)]
pub enum MergeAuditOutcome {
    Accepted {
        overlap_chars: u64,
        alignment_ratio: Binary64,
        trigram_similarity: Binary64,
        current_prefix_trim_chars: u64,
        overlap_text_source: MergeOverlapTextSource,
    },
    Skipped {
        reason: MergeSkipReason,
        previous_normalized_chars: u64,
        current_normalized_chars: u64,
        required_min_overlap_chars: u64,
    },
}

/// One record of how a capture was joined to the one before it.
#[derive(Debug, Clone, PartialEq, Eq)]
pub struct MergeAuditEntry {
    pub capture_index: u64,
    pub previous_overlap_range: MergeOverlapRangeSnapshot,
    pub current_overlap_range: MergeOverlapRangeSnapshot,
    pub outcome: MergeAuditOutcome,
}

/// A capture's transcript placed on the recording's time axis.
#[derive(Debug, Clone, PartialEq, Eq)]
pub struct CapturedTranscript {
    pub capture_index: u64,
    pub capture_start_ms: u64,
    pub capture_end_ms: u64,
    pub segments: Vec<MergedTranscriptSegment>,
}

/// `a + b`, held at `u64::MAX` where it would not fit.
pub open spec fn saturating_sum(a: u64, b: u64) -> u64 {
    if a + b <= u64::MAX {
        (a + b) as u64
    } else {
        u64::MAX
    }
}

/// `segment` moved by `offset_ms` onto the recording's time axis (times
/// past the end of the `u64` range are held at its end).
pub open spec fn shifted_segment(segment: TranscriptSegment, offset_ms: u64) -> MergedTranscriptSegment {
    MergedTranscriptSegment {
        speaker: segment.speaker,
        start_ms: saturating_sum(segment.start_ms, offset_ms),
        end_ms: saturating_sum(segment.end_ms, offset_ms),
        text: segment.text,
    }
}

impl CapturedTranscript {
    /// Places a capture's transcript, whose times are relative to the
    /// capture, on the recording's time axis.
    pub fn from_relative(
        capture_index: u64,
        capture_start_ms: u64,
        capture_end_ms: u64,
        transcript: &DiarizedTranscript,
    ) -> (r: Self)
        ensures
            r.capture_index == capture_index,
            r.capture_start_ms == capture_start_ms,
            r.capture_end_ms == capture_end_ms,
            r.segments@.len() == transcript.segments@.len(),
            forall|i: int|
                0 <= i < r.segments@.len() ==> r.segments@[i] == shifted_segment(
                    transcript.segments@[i],
                    capture_start_ms,
                ),
    {
        let mut segments: Vec<MergedTranscriptSegment> = Vec::new();
        let mut i: usize = 0;
        while i < transcript.segments.len()
            invariant
                i <= transcript.segments.len(),
                segments@.len() == i,
                forall|k: int|
                    0 <= k < i ==> segments@[k] == shifted_segment(
                        transcript.segments@[k],
                        capture_start_ms,
                    ),
            decreases transcript.segments.len() - i,
        {
            let s = &transcript.segments[i];
            segments.push(
                MergedTranscriptSegment {
                    speaker: s.speaker.clone(),
                    start_ms: s.start_ms.saturating_add(capture_start_ms),
                    end_ms: s.end_ms.saturating_add(capture_start_ms),
                    text: s.text.clone(),
                },
            );
            i = i + 1;
        }
        CapturedTranscript { capture_index, capture_start_ms, capture_end_ms, segments }
    }
}

/// What the merger settled after one more capture: the segments that can
/// no longer change, and the record of the join.
#[derive(Debug, Clone, PartialEq, Eq)]
pub struct MergeBatch {
    pub finalized_segments: Vec<MergedTranscriptSegment>,
    pub audit_entries: Vec<MergeAuditEntry>,
}

/// Joins consecutive captures into one timeline. Captures overlap in time,
/// so an implementation decides how the text that both heard is reconciled
/// and records each join; the run stores what it settles, in order.
pub trait CaptureMerger {
    /// Every capture handed to this merger so far, oldest first.
    closed spec fn merged_captures(&self) -> Seq<CapturedTranscript> {
        arbitrary()
    }

    /// Takes the next capture and returns what became final.
    fn push_capture(&mut self, capture: CapturedTranscript) -> (r: MergeBatch)
        ensures
            final(self).merged_captures() == old(self).merged_captures().push(capture),
    ;

    /// Returns every segment still held back.
    fn finish(&mut self) -> (r: Vec<MergedTranscriptSegment>)
        ensures
            final(self).merged_captures() == old(self).merged_captures(),
    ;
}

/// A copy of a transcript segment.
pub fn copy_segment(segment: &TranscriptSegment) -> (r: TranscriptSegment)
    ensures
        r == *segment,
{
    TranscriptSegment {
        speaker: segment.speaker.clone(),
        start_ms: segment.start_ms,
        end_ms: segment.end_ms,
        text: segment.text.clone(),
    }
}

/// A copy of a merged segment.
pub fn copy_merged_segment(segment: &MergedTranscriptSegment) -> (r: MergedTranscriptSegment)
    ensures
        r == *segment,
{
    MergedTranscriptSegment {
        speaker: segment.speaker.clone(),
        start_ms: segment.start_ms,
        end_ms: segment.end_ms,
        text: segment.text.clone(),
    }
}

/// A copy of a list of merged segments.
pub fn copy_merged_segments(segments: &Vec<MergedTranscriptSegment>) -> (r: Vec<
    MergedTranscriptSegment,
>)
    ensures
        r@ == segments@,
{
    let mut out: Vec<MergedTranscriptSegment> = Vec::new();
    let mut i: usize = 0;
    while i < segments.len()
        invariant
            i <= segments.len(),
            out@ == segments@.take(i as int),
        decreases segments.len() - i,
    {
        out.push(copy_merged_segment(&segments[i]));
        i = i + 1;
        assert(out@ =~= segments@.take(i as int));
    }
    assert(segments@.take(segments.len() as int) =~= segments@);
    out
}

} // verus!
