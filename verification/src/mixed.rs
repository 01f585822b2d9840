//! Mixed capture: the microphone and an application are captured side by
//! side, and their merged transcripts are joined into one timeline on the
//! Unix time axis.
use crate::capture::CaptureRunResult;
use crate::domain::{
    DiarizedTranscript, MergedTranscriptSegment, SourcedTranscriptSegment, TranscriptSource,
    copy_merged_segments,
};
use crate::ports::{
    CaptureStoreError, MixedCaptureSessionMetadata, MixedCaptureSourceOutcome,
    MixedCaptureSourceStatus, MixedCaptureStore, MixedStoreCall, added, grown,
};
use crate::text::{
    copy_string, text_less, text_lt, text_lt_irreflexive_asymmetric, text_lt_total, text_lt_transitive,
};
use vstd::prelude::*;
use vstd::seq_lib::*;

verus! {

broadcast use vstd::seq_lib::group_to_multiset_ensures;

/// One source's merged segments, with the Unix time its recording started.
#[derive(Debug, Clone, PartialEq, Eq)]
pub struct SourceMergedSegments {
    pub source: TranscriptSource,
    pub started_at_unix_ms: u64,
    pub segments: Vec<MergedTranscriptSegment>,
}

/// How one source's capture run ended, with the Unix time its thread
/// started (used where the run failed before recording).
#[derive(Debug, PartialEq, Eq)]
pub struct MixedSourceRun {
    pub source: TranscriptSource,
    pub started_at_unix_ms: u64,
    pub result: Result<CaptureRunResult, String>,
}

/// The outcome of a mixed session.
#[derive(Debug, Clone, PartialEq, Eq)]
pub struct MixedCaptureRunResult {
    pub final_segments: Vec<SourcedTranscriptSegment>,
    pub source_outcomes: Vec<MixedCaptureSourceOutcome>,
    pub debug_transcripts: Vec<DiarizedTranscript>,
}

impl MixedCaptureRunResult {
    /// Whether every source succeeded without a failed capture.
    pub fn completed_without_failures(&self) -> (r: bool)
        ensures
            r == (forall|i: int|
                0 <= i < self.source_outcomes@.len() ==> #[trigger] self.source_outcomes@[i].status
                    == MixedCaptureSourceStatus::Succeeded),
    {
        let mut i: usize = 0;
        while i < self.source_outcomes.len()
            invariant
                i <= self.source_outcomes@.len(),
                forall|k: int|
                    0 <= k < i ==> #[trigger] self.source_outcomes@[k].status
                        == MixedCaptureSourceStatus::Succeeded,
            decreases self.source_outcomes.len() - i,
        {
            if self.source_outcomes[i].status != MixedCaptureSourceStatus::Succeeded {
                return false;
            }
            i = i + 1;
        }
        true
    }
}

/// One source that failed outright.
#[derive(Debug, Clone, PartialEq, Eq)]
pub struct MixedCaptureSourceFailure {
    pub source: TranscriptSource,
    pub message: String,
}

/// Why a mixed session failed.
#[derive(Debug, Clone, PartialEq, Eq)]
pub enum MixedCaptureError {
    Store(CaptureStoreError),
    AllSourcesFailed { failures: Vec<MixedCaptureSourceFailure> },
}

/// `a` comes before `b` on the final timeline: by start, then end, then the
/// microphone first, then speaker, then text.
pub open spec fn segment_lt(a: SourcedTranscriptSegment, b: SourcedTranscriptSegment) -> bool {
    ||| a.start_ms < b.start_ms
    ||| (a.start_ms == b.start_ms && a.end_ms < b.end_ms)
    ||| (a.start_ms == b.start_ms && a.end_ms == b.end_ms && a.source.spec_sort_order()
        < b.source.spec_sort_order())
    ||| (a.start_ms == b.start_ms && a.end_ms == b.end_ms && a.source == b.source && text_lt(
        a.speaker@,
        b.speaker@,
    ))
    ||| (a.start_ms == b.start_ms && a.end_ms == b.end_ms && a.source == b.source && a.speaker@
        == b.speaker@ && text_lt(a.text@, b.text@))
}

proof fn segment_lt_asymmetric(a: SourcedTranscriptSegment, b: SourcedTranscriptSegment)
    ensures
        !(segment_lt(a, b) && segment_lt(b, a)),
{
    text_lt_irreflexive_asymmetric(a.speaker@, b.speaker@);
    text_lt_irreflexive_asymmetric(a.text@, b.text@);
    text_lt_irreflexive_asymmetric(a.speaker@, a.speaker@);
    text_lt_irreflexive_asymmetric(b.speaker@, b.speaker@);
}

proof fn segment_lt_transitive(
    a: SourcedTranscriptSegment,
    b: SourcedTranscriptSegment,
    c: SourcedTranscriptSegment,
)
    requires
        segment_lt(a, b),
        segment_lt(b, c),
    ensures
        segment_lt(a, c),
{
    if a.start_ms == b.start_ms && b.start_ms == c.start_ms && a.end_ms == b.end_ms && b.end_ms
        == c.end_ms && a.source == b.source && b.source == c.source {
        if text_lt(a.speaker@, b.speaker@) && text_lt(b.speaker@, c.speaker@) {
            text_lt_transitive(a.speaker@, b.speaker@, c.speaker@);
        }
        if a.speaker@ == b.speaker@ && b.speaker@ == c.speaker@ && text_lt(a.text@, b.text@)
            && text_lt(b.text@, c.text@) {
            text_lt_transitive(a.text@, b.text@, c.text@);
        }
    }
}

/// Two segments that neither precedes the other hold the same values.
proof fn segment_lt_total(a: SourcedTranscriptSegment, b: SourcedTranscriptSegment)
    ensures
        segment_lt(a, b) || segment_lt(b, a) || (a.start_ms == b.start_ms && a.end_ms == b.end_ms
            && a.source == b.source && a.speaker@ == b.speaker@ && a.text@ == b.text@),
{
    text_lt_total(a.speaker@, b.speaker@);
    text_lt_total(a.text@, b.text@);
}

/// Whether no segment is followed by one that should precede it.
pub open spec fn sorted_on_timeline(s: Seq<SourcedTranscriptSegment>) -> bool {
    forall|i: int, j: int| 0 <= i < j < s.len() ==> !segment_lt(#[trigger] s[j], #[trigger] s[i])
}

/// A merged segment of `source` placed on the Unix time axis.
pub open spec fn on_timeline(
    source: TranscriptSource,
    started_at_unix_ms: u64,
    segment: MergedTranscriptSegment,
) -> SourcedTranscriptSegment {
    SourcedTranscriptSegment {
        source,
        speaker: segment.speaker,
        start_ms: (started_at_unix_ms + segment.start_ms) as u64,
        end_ms: (started_at_unix_ms + segment.end_ms) as u64,
        text: segment.text,
    }
}

/// The segments of `segments` placed on the Unix time axis.
pub open spec fn placed(
    source: TranscriptSource,
    started_at_unix_ms: u64,
    segments: Seq<MergedTranscriptSegment>,
) -> Seq<SourcedTranscriptSegment> {
    segments.map_values(|s: MergedTranscriptSegment| on_timeline(source, started_at_unix_ms, s))
}

/// Every source's segments, placed on the Unix time axis, source after
/// source.
pub open spec fn all_placed(sources: Seq<SourceMergedSegments>) -> Seq<SourcedTranscriptSegment>
    decreases sources.len(),
{
    if sources.len() == 0 {
        Seq::empty()
    } else {
        all_placed(sources.drop_last()) + placed(
            sources.last().source,
            sources.last().started_at_unix_ms,
            sources.last().segments@,
        )
    }
}

/// Whether every segment of every source stays within the `u64` range once
/// placed on the Unix time axis.
pub open spec fn placeable(sources: Seq<SourceMergedSegments>) -> bool {
    forall|i: int, k: int|
        0 <= i < sources.len() && 0 <= k < sources[i].segments@.len() ==> sources[i].started_at_unix_ms
            + (#[trigger] sources[i].segments@[k]).end_ms <= u64::MAX && sources[i].started_at_unix_ms
            + sources[i].segments@[k].start_ms <= u64::MAX
}

/// Whether `a` should precede `b` on the final timeline.
fn segment_less(a: &SourcedTranscriptSegment, b: &SourcedTranscriptSegment) -> (r: bool)
    ensures
        r == segment_lt(*a, *b),
{
    if a.start_ms != b.start_ms {
        return a.start_ms < b.start_ms;
    }
    if a.end_ms != b.end_ms {
        return a.end_ms < b.end_ms;
    }
    let oa = a.source.sort_order();
    let ob = b.source.sort_order();
    if oa != ob {
        return oa < ob;
    }
    proof {
        assert(a.source == b.source) by {
            match a.source {
                TranscriptSource::Microphone => {},
                TranscriptSource::Application => {},
            }
        }
    }
    if text_less(a.speaker.as_str(), b.speaker.as_str()) {
        return true;
    }
    if text_less(b.speaker.as_str(), a.speaker.as_str()) {
        proof {
            text_lt_irreflexive_asymmetric(a.speaker@, b.speaker@);
        }
        return false;
    }
    proof {
        text_lt_total(a.speaker@, b.speaker@);
    }
    text_less(a.text.as_str(), b.text.as_str())
}

/// Inserts `x` after every segment that does not come after it, keeping
/// the list in timeline order.
fn insert_in_order(out: &mut Vec<SourcedTranscriptSegment>, x: SourcedTranscriptSegment)
    requires
        sorted_on_timeline(old(out)@),
    ensures
        sorted_on_timeline(final(out)@),
        final(out)@.to_multiset() == old(out)@.to_multiset().insert(x),
{
    let mut p: usize = 0;
    while p < out.len()
        invariant
            p <= out@.len(),
            out@ == old(out)@,
            forall|k: int| 0 <= k < p ==> !segment_lt(x, #[trigger] out@[k]),
        ensures
            p <= out@.len(),
            out@ == old(out)@,
            forall|k: int| 0 <= k < p ==> !segment_lt(x, #[trigger] out@[k]),
            p < out@.len() ==> segment_lt(x, out@[p as int]),
        decreases out.len() - p,
    {
        if segment_less(&x, &out[p]) {
            break;
        }
        p = p + 1;
    }
    let ghost before = out@;
    let ghost pos = p as int;
    proof {
        assert forall|k: int| pos <= k < before.len() implies !segment_lt(#[trigger] before[k], x) by {
            if pos < before.len() {
                assert(segment_lt(x, before[pos]));
                if segment_lt(before[k], x) {
                    segment_lt_transitive(before[k], x, before[pos]);
                    if k > pos {
                        assert(!segment_lt(before[k], before[pos]));
                    } else {
                        segment_lt_asymmetric(before[k], before[k]);
                    }
                }
            }
        }
    }
    out.insert(p, x);
    proof {
        let after = out@;
        assert forall|i: int, j: int| 0 <= i < j < after.len() implies !segment_lt(
            #[trigger] after[j],
            #[trigger] after[i],
        ) by {
            if j < pos {
                assert(after[i] == before[i] && after[j] == before[j]);
            } else if j == pos {
                assert(after[i] == before[i]);
            } else if i < pos {
                assert(after[i] == before[i] && after[j] == before[j - 1]);
                if segment_lt(before[j - 1], before[i]) {
                } 
            } else if i == pos {
                assert(after[j] == before[j - 1]);
            } else {
                assert(after[i] == before[i - 1] && after[j] == before[j - 1]);
            }
        }
        to_multiset_insert(before, pos, x);
    }
}

/// Joins the sources' merged segments into one timeline on the Unix time
/// axis: every segment of every source, once, ordered by start, then end,
/// then the microphone first, then speaker, then text.
pub fn merge_source_segments(source_segments: &[SourceMergedSegments]) -> (r: Vec<
    SourcedTranscriptSegment,
>)
    requires
        placeable(source_segments@),
    ensures
        sorted_on_timeline(r@),
        r@.to_multiset() == all_placed(source_segments@).to_multiset(),
{
    let mut out: Vec<SourcedTranscriptSegment> = Vec::new();
    let mut i: usize = 0;
    while i < source_segments.len()
        invariant
            i <= source_segments@.len(),
            placeable(source_segments@),
            sorted_on_timeline(out@),
            out@.to_multiset() == all_placed(source_segments@.take(i as int)).to_multiset(),
        decreases source_segments.len() - i,
    {
        let group = &source_segments[i];
        let ghost placed_before = all_placed(source_segments@.take(i as int));
        let mut k: usize = 0;
        while k < group.segments.len()
            invariant
                i < source_segments@.len(),
                *group == source_segments@[i as int],
                placeable(source_segments@),
                k <= group.segments@.len(),
                sorted_on_timeline(out@),
                out@.to_multiset() == (placed_before + placed(
                    group.source,
                    group.started_at_unix_ms,
                    group.segments@.take(k as int),
                )).to_multiset(),
            decreases group.segments.len() - k,
        {
            let segment = &group.segments[k];
            assert(source_segments@[i as int].segments@[k as int] == *segment);
            let placed_segment = SourcedTranscriptSegment::from_merged_with_offset(
                group.source,
                group.started_at_unix_ms,
                segment,
            );
            let ghost prev = placed(
                group.source,
                group.started_at_unix_ms,
                group.segments@.take(k as int),
            );
            insert_in_order(&mut out, placed_segment);
            proof {
                let next = placed(
                    group.source,
                    group.started_at_unix_ms,
                    group.segments@.take(k as int + 1),
                );
                assert(next =~= prev.push(placed_segment));
                assert(placed_before + next =~= (placed_before + prev).push(placed_segment));
            }
            k = k + 1;
        }
        proof {
            assert(group.segments@.take(group.segments@.len() as int) =~= group.segments@);
            assert(source_segments@.take(i as int + 1).drop_last() =~= source_segments@.take(
                i as int,
            ));
        }
        i = i + 1;
    }
    proof {
        assert(source_segments@.take(source_segments@.len() as int) =~= source_segments@);
    }
    out
}

/// What the session records about a source's run: a run that finished
/// counts its failed captures (succeeded when there are none) and is dated
/// by its recording's start; a run that failed keeps its message and is
/// dated by its thread's start.
pub open spec fn outcome_of(run: MixedSourceRun) -> MixedCaptureSourceOutcome {
    match run.result {
        Ok(res) => if res.transcription_failures@.len() == 0 {
            MixedCaptureSourceOutcome {
                source: run.source,
                started_at_unix_ms: res.started_at_unix_ms,
                status: MixedCaptureSourceStatus::Succeeded,
                transcription_failure_count: 0,
                error_message: None,
            }
        } else {
            MixedCaptureSourceOutcome {
                source: run.source,
                started_at_unix_ms: res.started_at_unix_ms,
                status: MixedCaptureSourceStatus::PartialFailure,
                transcription_failure_count: res.transcription_failures@.len() as usize,
                error_message: None,
            }
        },
        Err(message) => MixedCaptureSourceOutcome {
            source: run.source,
            started_at_unix_ms: run.started_at_unix_ms,
            status: MixedCaptureSourceStatus::Failed,
            transcription_failure_count: 0,
            error_message: Some(message),
        },
    }
}

impl MixedCaptureSourceOutcome {
    /// The outcome recorded for a source's run.
    pub fn from_source_run(run: &MixedSourceRun) -> (r: Self)
        ensures
            r == outcome_of(*run),
    {
        match &run.result {
            Ok(result) => {
                if result.completed_without_failures() {
                    MixedCaptureSourceOutcome {
                        source: run.source,
                        started_at_unix_ms: result.started_at_unix_ms,
                        status: MixedCaptureSourceStatus::Succeeded,
                        transcription_failure_count: 0,
                        error_message: None,
                    }
                } else {
                    MixedCaptureSourceOutcome {
                        source: run.source,
                        started_at_unix_ms: result.started_at_unix_ms,
                        status: MixedCaptureSourceStatus::PartialFailure,
                        transcription_failure_count: result.transcription_failures.len(),
                        error_message: None,
                    }
                }
            },
            Err(message) => MixedCaptureSourceOutcome {
                source: run.source,
                started_at_unix_ms: run.started_at_unix_ms,
                status: MixedCaptureSourceStatus::Failed,
                transcription_failure_count: 0,
                error_message: Some(copy_string(message)),
            },
        }
    }
}

/// A copy of an outcome.
fn copy_outcome(o: &MixedCaptureSourceOutcome) -> (r: MixedCaptureSourceOutcome)
    ensures
        r == *o,
{
    MixedCaptureSourceOutcome {
        source: o.source,
        started_at_unix_ms: o.started_at_unix_ms,
        status: o.status,
        transcription_failure_count: o.transcription_failure_count,
        error_message: match &o.error_message {
            Some(m) => Some(copy_string(m)),
            None => None,
        },
    }
}

/// The segments of every finished run, placed on the Unix time axis by its
/// recording's start, run after run.
pub open spec fn runs_placed(runs: Seq<MixedSourceRun>) -> Seq<SourcedTranscriptSegment>
    decreases runs.len(),
{
    if runs.len() == 0 {
        Seq::empty()
    } else {
        let last = match runs.last().result {
            Ok(res) => placed(runs.last().source, res.started_at_unix_ms, res.merged_segments@),
            Err(_) => Seq::empty(),
        };
        runs_placed(runs.drop_last()) + last
    }
}

/// The transcripts of every finished run, run after run.
pub open spec fn runs_transcripts(runs: Seq<MixedSourceRun>) -> Seq<DiarizedTranscript>
    decreases runs.len(),
{
    if runs.len() == 0 {
        Seq::empty()
    } else {
        let first = match runs[0].result {
            Ok(res) => res.transcripts@,
            Err(_) => Seq::empty(),
        };
        first + runs_transcripts(runs.drop_first())
    }
}

/// Whether every finished run's segments stay within the `u64` range once
/// placed on the Unix time axis.
pub open spec fn runs_placeable(runs: Seq<MixedSourceRun>) -> bool {
    forall|i: int, k: int|
        0 <= i < runs.len() && runs[i].result is Ok && 0 <= k < runs[i].result->Ok_0.merged_segments@.len()
            ==> runs[i].result->Ok_0.started_at_unix_ms
            + (#[trigger] runs[i].result->Ok_0.merged_segments@[k]).end_ms <= u64::MAX
            && runs[i].result->Ok_0.started_at_unix_ms
            + runs[i].result->Ok_0.merged_segments@[k].start_ms <= u64::MAX
}

/// What a finished mixed session holds for these runs.
pub open spec fn finalized_as(res: MixedCaptureRunResult, runs: Seq<MixedSourceRun>) -> bool {
    &&& res.source_outcomes@.len() == runs.len()
    &&& forall|i: int|
        0 <= i < runs.len() ==> #[trigger] res.source_outcomes@[i] == outcome_of(runs[i])
    &&& sorted_on_timeline(res.final_segments@)
    &&& res.final_segments@.to_multiset() == runs_placed(runs).to_multiset()
    &&& res.debug_transcripts@ == runs_transcripts(runs)
}

/// Each run's outcome, in order.
pub fn source_outcomes(source_runs: &Vec<MixedSourceRun>) -> (r: Vec<MixedCaptureSourceOutcome>)
    ensures
        r@.len() == source_runs@.len(),
        forall|k: int| 0 <= k < source_runs@.len() ==> #[trigger] r@[k] == outcome_of(source_runs@[k]),
{
    let mut outcomes: Vec<MixedCaptureSourceOutcome> = Vec::new();
    let mut i: usize = 0;
    while i < source_runs.len()
        invariant
            i <= source_runs@.len(),
            outcomes@.len() == i,
            forall|k: int| 0 <= k < i ==> #[trigger] outcomes@[k] == outcome_of(source_runs@[k]),
        decreases source_runs.len() - i,
    {
        outcomes.push(MixedCaptureSourceOutcome::from_source_run(&source_runs[i]));
        i = i + 1;
    }
    outcomes
}

/// The session's metadata with each run's outcome recorded, in order, as
/// it is handed to the store.
pub fn metadata_with_outcomes(
    metadata: MixedCaptureSessionMetadata,
    outcomes: &Vec<MixedCaptureSourceOutcome>,
) -> (r: MixedCaptureSessionMetadata)
    ensures
        r.mode == metadata.mode,
        r.application_bundle_id == metadata.application_bundle_id,
        r.microphone_speaker == metadata.microphone_speaker,
        r.source_settings == metadata.source_settings,
        r.source_outcomes@ == outcomes@,
{
    let mut recorded: Vec<MixedCaptureSourceOutcome> = Vec::new();
    let mut i: usize = 0;
    while i < outcomes.len()
        invariant
            i <= outcomes@.len(),
            recorded@ == outcomes@.take(i as int),
        decreases outcomes.len() - i,
    {
        recorded.push(copy_outcome(&outcomes[i]));
        assert(recorded@ =~= outcomes@.take(i + 1));
        i = i + 1;
    }
    assert(recorded@ =~= outcomes@);
    let mut metadata = metadata;
    metadata.source_outcomes = recorded;
    metadata
}

/// The finished runs' merged segments, each with its recording's start, in
/// run order: the sources whose segments make the final timeline.
pub fn finished_sources(source_runs: &Vec<MixedSourceRun>) -> (r: Vec<SourceMergedSegments>)
    requires
        runs_placeable(source_runs@),
    ensures
        all_placed(r@) == runs_placed(source_runs@),
        placeable(r@),
{
    let ghost runs = source_runs@;
    let mut successful: Vec<SourceMergedSegments> = Vec::new();
    let mut j: usize = 0;
    while j < source_runs.len()
        invariant
            j <= source_runs@.len(),
            runs_placeable(source_runs@),
            all_placed(successful@) == runs_placed(source_runs@.take(j as int)),
            forall|a: int, k: int|
                0 <= a < successful@.len() && 0 <= k < successful@[a].segments@.len()
                    ==> successful@[a].started_at_unix_ms
                    + (#[trigger] successful@[a].segments@[k]).end_ms <= u64::MAX
                    && successful@[a].started_at_unix_ms + successful@[a].segments@[k].start_ms
                    <= u64::MAX,
        decreases source_runs.len() - j,
    {
        let run = &source_runs[j];
        proof {
            assert(source_runs@.take(j as int + 1).drop_last() =~= source_runs@.take(j as int));
        }
        match &run.result {
            Ok(result) => {
                let ghost before = successful@;
                let group = SourceMergedSegments {
                    source: run.source,
                    started_at_unix_ms: result.started_at_unix_ms,
                    segments: copy_merged_segments(&result.merged_segments),
                };
                successful.push(group);
                proof {
                    assert(successful@.drop_last() =~= before);
                    assert forall|a: int, k: int|
                        0 <= a < successful@.len() && 0 <= k < successful@[a].segments@.len()
                            implies successful@[a].started_at_unix_ms
                            + (#[trigger] successful@[a].segments@[k]).end_ms <= u64::MAX
                            && successful@[a].started_at_unix_ms
                            + successful@[a].segments@[k].start_ms <= u64::MAX by {
                        if a == before.len() {
                            assert(successful@[a].segments@[k] == result.merged_segments@[k]);
                            assert(source_runs@[j as int].result->Ok_0.merged_segments@[k]
                                == result.merged_segments@[k]);
                        } else {
                            assert(successful@[a] == before[a]);
                        }
                    }
                }
            },
            Err(_) => {},
        }
        j = j + 1;
    }
    proof {
        assert(source_runs@.take(source_runs@.len() as int) =~= source_runs@);
    }
    proof {
        assert(source_runs@.take(source_runs@.len() as int) =~= source_runs@);
    }
    successful
}

/// Every finished run's transcripts, in run order.
pub fn finished_transcripts(source_runs: Vec<MixedSourceRun>) -> (r: Vec<DiarizedTranscript>)
    ensures
        r@ == runs_transcripts(source_runs@),
{
    let ghost runs = source_runs@;
    let mut remaining = source_runs;
    let mut debug_transcripts: Vec<DiarizedTranscript> = Vec::new();
    while remaining.len() > 0
        invariant
            debug_transcripts@ + runs_transcripts(remaining@) == runs_transcripts(runs),
        decreases remaining.len(),
    {
        let ghost before = remaining@;
        let run = remaining.remove(0);
        proof {
            assert(remaining@ =~= before.drop_first());
        }
        match run.result {
            Ok(mut result) => {
                let ghost d = debug_transcripts@;
                let ghost t = result.transcripts@;
                debug_transcripts.append(&mut result.transcripts);
                assert(d + (t + runs_transcripts(remaining@)) =~= (d + t) + runs_transcripts(
                    remaining@,
                ));
            },
            Err(_) => {},
        }
    }
    assert(debug_transcripts@ =~= runs_transcripts(runs));
    assert(debug_transcripts@ =~= runs_transcripts(runs));
    debug_transcripts
}

/// Whether `m` is `metadata` with each run's outcome recorded, in run order.
pub open spec fn records_outcomes(
    m: MixedCaptureSessionMetadata,
    metadata: MixedCaptureSessionMetadata,
    runs: Seq<MixedSourceRun>,
) -> bool {
    &&& m.mode == metadata.mode
    &&& m.application_bundle_id == metadata.application_bundle_id
    &&& m.microphone_speaker == metadata.microphone_speaker
    &&& m.source_settings == metadata.source_settings
    &&& m.source_outcomes@.len() == runs.len()
    &&& forall|i: int| 0 <= i < runs.len() ==> #[trigger] m.source_outcomes@[i] == outcome_of(runs[i])
}

/// Whether `segments` is the final timeline of these runs: the segments of
/// every finished run, placed on the Unix time axis and sorted.
pub open spec fn final_timeline(segments: Seq<SourcedTranscriptSegment>, runs: Seq<MixedSourceRun>) -> bool {
    sorted_on_timeline(segments) && segments.to_multiset() == runs_placed(runs).to_multiset()
}

/// What the store answered to a call.
pub open spec fn call_result(call: MixedStoreCall) -> Result<(), CaptureStoreError> {
    match call {
        MixedStoreCall::Metadata { result, .. } => result,
        MixedStoreCall::FinalSegments { result, .. } => result,
    }
}

/// The calls that finishing a session makes on its store: the metadata
/// with the runs' outcomes first, then, unless the store refused it, the
/// final timeline.
pub open spec fn finishing_calls(
    calls: Seq<MixedStoreCall>,
    metadata: MixedCaptureSessionMetadata,
    runs: Seq<MixedSourceRun>,
) -> bool {
    &&& calls.len() >= 1
    &&& calls[0] matches MixedStoreCall::Metadata { metadata: m, .. }
    &&& records_outcomes(calls[0]->Metadata_metadata, metadata, runs)
    &&& if call_result(calls[0]) is Err {
        calls.len() == 1
    } else {
        &&& calls.len() == 2
        &&& calls[1] matches MixedStoreCall::FinalSegments { .. }
        &&& final_timeline(calls[1]->FinalSegments_segments, runs)
    }
}

/// The first error the store answered in these calls, if any.
pub open spec fn first_store_error(calls: Seq<MixedStoreCall>) -> Option<CaptureStoreError> {
    if calls.len() >= 1 && call_result(calls[0]) is Err {
        Some(call_result(calls[0])->Err_0)
    } else if calls.len() >= 2 && call_result(calls[1]) is Err {
        Some(call_result(calls[1])->Err_0)
    } else {
        None
    }
}

/// Records the session's outcome per source, joins the finished sources'
/// segments into the final timeline (each placed by its own recording's
/// start), stores both, and collects every finished run's transcripts.
///
/// The store is handed the metadata with the runs' outcomes first, then
/// the final timeline; an error from either is returned at once and
/// unchanged.
pub fn finalize_mixed_capture<S: MixedCaptureStore>(
    store: &mut S,
    metadata: MixedCaptureSessionMetadata,
    source_runs: Vec<MixedSourceRun>,
) -> (r: Result<MixedCaptureRunResult, CaptureStoreError>)
    requires
        runs_placeable(source_runs@),
    ensures
        grown(old(store).mixed_calls(), final(store).mixed_calls()),
        finishing_calls(
            added(old(store).mixed_calls(), final(store).mixed_calls()),
            metadata,
            source_runs@,
        ),
        match r {
            Ok(res) => {
                &&& first_store_error(
                    added(old(store).mixed_calls(), final(store).mixed_calls()),
                ) is None
                &&& finalized_as(res, source_runs@)
                &&& res.final_segments@ == added(
                    old(store).mixed_calls(),
                    final(store).mixed_calls(),
                )[1]->FinalSegments_segments
            },
            Err(e) => first_store_error(
                added(old(store).mixed_calls(), final(store).mixed_calls()),
            ) == Some(e),
        },
{
    let ghost before = store.mixed_calls();
    let ghost given = metadata;
    let outcomes = source_outcomes(&source_runs);
    let recorded = metadata_with_outcomes(metadata, &outcomes);
    let first = store.persist_mixed_session_metadata(&recorded);
    let ghost c0 = MixedStoreCall::Metadata { metadata: recorded, result: first };
    proof {
        assert(added(before, store.mixed_calls()) =~= seq![c0]);
        assert(store.mixed_calls().take(before.len() as int) =~= before);
        assert(records_outcomes(recorded, given, source_runs@));
    }
    match first {
        Ok(()) => {},
        Err(e) => {
            return Err(e);
        },
    }
    let successful = finished_sources(&source_runs);
    let final_segments = merge_source_segments(successful.as_slice());
    let second = store.persist_final_segments(final_segments.as_slice());
    let ghost c1 = MixedStoreCall::FinalSegments { segments: final_segments@, result: second };
    proof {
        assert(added(before, store.mixed_calls()) =~= seq![c0, c1]);
        assert(store.mixed_calls().take(before.len() as int) =~= before);
    }
    match second {
        Ok(()) => {},
        Err(e) => {
            return Err(e);
        },
    }
    let debug_transcripts = finished_transcripts(source_runs);
    Ok(MixedCaptureRunResult { final_segments, source_outcomes: outcomes, debug_transcripts })
}

/// The failure reported for a source: its message, or a generic one.
pub open spec fn failure_of(outcome: MixedCaptureSourceOutcome) -> (TranscriptSource, Seq<char>) {
    (
        outcome.source,
        match outcome.error_message {
            Some(m) => m@,
            None => "unknown source failure"@,
        },
    )
}

/// Finishes a mixed session from the two sources' runs. The session is
/// stored first, whatever the runs' results (metadata with the outcomes,
/// then the final timeline), and a store error is returned at once; then
/// the result is returned when at least one source finished, and each
/// source's failure is reported when both failed.
pub fn run_mixed_capture<S: MixedCaptureStore>(
    store: &mut S,
    metadata: MixedCaptureSessionMetadata,
    microphone_run: MixedSourceRun,
    application_run: MixedSourceRun,
) -> (r: Result<MixedCaptureRunResult, MixedCaptureError>)
    requires
        runs_placeable(seq![microphone_run, application_run]),
    ensures
        grown(old(store).mixed_calls(), final(store).mixed_calls()),
        finishing_calls(
            added(old(store).mixed_calls(), final(store).mixed_calls()),
            metadata,
            seq![microphone_run, application_run],
        ),
        first_store_error(added(old(store).mixed_calls(), final(store).mixed_calls()))
            matches Some(e) ==> r == Err::<MixedCaptureRunResult, MixedCaptureError>(
            MixedCaptureError::Store(e),
        ),
        first_store_error(added(old(store).mixed_calls(), final(store).mixed_calls()))
            is None && (microphone_run.result is Ok || application_run.result is Ok) ==> {
            &&& r matches Ok(res)
            &&& finalized_as(r->Ok_0, seq![microphone_run, application_run])
            &&& r->Ok_0.final_segments@ == added(
                old(store).mixed_calls(),
                final(store).mixed_calls(),
            )[1]->FinalSegments_segments
        },
        first_store_error(added(old(store).mixed_calls(), final(store).mixed_calls()))
            is None && microphone_run.result is Err && application_run.result is Err ==> {
            &&& r matches Err(MixedCaptureError::AllSourcesFailed { failures })
            &&& r->Err_0->AllSourcesFailed_failures@.len() == 2
            &&& r->Err_0->AllSourcesFailed_failures@[0].source == microphone_run.source
            &&& r->Err_0->AllSourcesFailed_failures@[0].message@
                == microphone_run.result->Err_0@
            &&& r->Err_0->AllSourcesFailed_failures@[1].source == application_run.source
            &&& r->Err_0->AllSourcesFailed_failures@[1].message@
                == application_run.result->Err_0@
        },
{
    let has_success = microphone_run.result.is_ok() || application_run.result.is_ok();
    let ghost runs = seq![microphone_run, application_run];
    let mut source_runs: Vec<MixedSourceRun> = Vec::new();
    source_runs.push(microphone_run);
    source_runs.push(application_run);
    assert(source_runs@ =~= runs);
    let result = match finalize_mixed_capture(store, metadata, source_runs) {
        Ok(res) => res,
        Err(e) => {
            return Err(MixedCaptureError::Store(e));
        },
    };
    if has_success {
        return Ok(result);
    }
    let mut failures: Vec<MixedCaptureSourceFailure> = Vec::new();
    let mut i: usize = 0;
    while i < result.source_outcomes.len()
        invariant
            i <= result.source_outcomes@.len(),
            failures@.len() == i,
            forall|k: int|
                0 <= k < i ==> (#[trigger] failures@[k]).source == result.source_outcomes@[k].source
                    && failures@[k].message@ == failure_of(result.source_outcomes@[k]).1,
        decreases result.source_outcomes.len() - i,
    {
        let outcome = &result.source_outcomes[i];
        let message = match &outcome.error_message {
            Some(m) => copy_string(m),
            None => "unknown source failure".to_owned(),
        };
        failures.push(MixedCaptureSourceFailure { source: outcome.source, message });
        i = i + 1;
    }
    proof {
        assert(result.source_outcomes@[0] == outcome_of(runs[0]));
        assert(result.source_outcomes@[1] == outcome_of(runs[1]));
    }
    Err(MixedCaptureError::AllSourcesFailed { failures })
}

/// Whether two timeline segments hold the same values: source, times,
/// speaker and text.
pub open spec fn same_values(a: SourcedTranscriptSegment, b: SourcedTranscriptSegment) -> bool {
    &&& a.source == b.source
    &&& a.start_ms == b.start_ms
    &&& a.end_ms == b.end_ms
    &&& a.speaker@ == b.speaker@
    &&& a.text@ == b.text@
}

/// Whether two timelines agree segment by segment.
pub open spec fn same_timeline(a: Seq<SourcedTranscriptSegment>, b: Seq<SourcedTranscriptSegment>) -> bool {
    &&& a.len() == b.len()
    &&& forall|k: int| 0 <= k < a.len() ==> same_values(#[trigger] a[k], b[k])
}

/// The timeline order only looks at a segment's values.
proof fn segment_lt_by_values(
    a: SourcedTranscriptSegment,
    a2: SourcedTranscriptSegment,
    b: SourcedTranscriptSegment,
)
    requires
        same_values(a, a2),
    ensures
        segment_lt(a, b) == segment_lt(a2, b),
        segment_lt(b, a) == segment_lt(b, a2),
{
}

/// Two timelines sorted on the timeline that hold the same segments agree
/// segment by segment: the order is decided by the segments alone.
pub proof fn sorted_timeline_is_unique(a: Seq<SourcedTranscriptSegment>, b: Seq<SourcedTranscriptSegment>)
    requires
        sorted_on_timeline(a),
        sorted_on_timeline(b),
        a.to_multiset() == b.to_multiset(),
    ensures
        same_timeline(a, b),
    decreases a.len(),
{
    vstd::seq_lib::to_multiset_len(a);
    vstd::seq_lib::to_multiset_len(b);
    if a.len() == 0 {
        return;
    }
    vstd::seq_lib::to_multiset_contains(b, a[0]);
    vstd::seq_lib::to_multiset_contains(a, a[0]);
    assert(a.contains(a[0]));
    let j = choose|j: int| 0 <= j < b.len() && b[j] == a[0];
    vstd::seq_lib::to_multiset_contains(a, b[0]);
    vstd::seq_lib::to_multiset_contains(b, b[0]);
    assert(b.contains(b[0]));
    let i = choose|i: int| 0 <= i < a.len() && a[i] == b[0];
    // The first segments of both hold the same values.
    segment_lt_total(a[0], b[0]);
    segment_lt_asymmetric(a[0], a[0]);
    segment_lt_asymmetric(b[0], b[0]);
    if segment_lt(a[0], b[0]) {
        assert(j > 0 ==> !segment_lt(b[j], b[0]));
        assert(false);
    }
    if segment_lt(b[0], a[0]) {
        assert(i > 0 ==> !segment_lt(a[i], a[0]));
        assert(false);
    }
    assert(same_values(a[0], b[0]));
    // So do all of `b` up to the match of `a[0]`.
    assert forall|k: int| 0 <= k <= j implies same_values(#[trigger] b[k], b[0]) by {
        if k > 0 {
            assert(!segment_lt(b[k], b[0]));
            if k < j {
                assert(!segment_lt(b[j], b[k]));
                segment_lt_by_values(b[j], b[0], b[k]);
            }
            segment_lt_total(b[k], b[0]);
        }
    }
    let a1 = a.remove(0);
    let b1 = b.remove(j);
    vstd::seq_lib::to_multiset_remove(a, 0);
    vstd::seq_lib::to_multiset_remove(b, j);
    assert forall|x: int, y: int| 0 <= x < y < a1.len() implies !segment_lt(
        #[trigger] a1[y],
        #[trigger] a1[x],
    ) by {
        assert(a1[x] == a[x + 1] && a1[y] == a[y + 1]);
    }
    assert forall|x: int, y: int| 0 <= x < y < b1.len() implies !segment_lt(
        #[trigger] b1[y],
        #[trigger] b1[x],
    ) by {
        let bx = if x < j { x } else { x + 1 };
        let by_ = if y < j { y } else { y + 1 };
        assert(b1[x] == b[bx] && b1[y] == b[by_]);
    }
    sorted_timeline_is_unique(a1, b1);
    assert forall|k: int| 0 <= k < a.len() implies same_values(#[trigger] a[k], b[k]) by {
        if k > 0 {
            assert(a[k] == a1[k - 1]);
            assert(same_values(a1[k - 1], b1[k - 1]));
            if k - 1 < j {
                assert(b1[k - 1] == b[k - 1]);
                assert(same_values(b[k - 1], b[0]));
                assert(same_values(b[k], b[0]));
            } else {
                assert(b1[k - 1] == b[k]);
            }
        }
    }
}

/// Merging the microphone's and the application's segments gives the same
/// timeline whichever of the two is listed first.
pub proof fn source_order_does_not_matter(
    first: SourceMergedSegments,
    second: SourceMergedSegments,
    merged: Seq<SourcedTranscriptSegment>,
    swapped: Seq<SourcedTranscriptSegment>,
)
    requires
        sorted_on_timeline(merged),
        merged.to_multiset() == all_placed(seq![first, second]).to_multiset(),
        sorted_on_timeline(swapped),
        swapped.to_multiset() == all_placed(seq![second, first]).to_multiset(),
    ensures
        same_timeline(merged, swapped),
{
    let p = placed(first.source, first.started_at_unix_ms, first.segments@);
    let q = placed(second.source, second.started_at_unix_ms, second.segments@);
    assert(seq![first, second].drop_last() =~= seq![first]);
    assert(seq![first].drop_last() =~= Seq::<SourceMergedSegments>::empty());
    assert(seq![second, first].drop_last() =~= seq![second]);
    assert(seq![second].drop_last() =~= Seq::<SourceMergedSegments>::empty());
    assert(all_placed(Seq::<SourceMergedSegments>::empty()) =~= Seq::<SourcedTranscriptSegment>::empty());
    assert(seq![first].last() == first);
    assert(seq![second].last() == second);
    assert(all_placed(seq![first]) =~= p);
    assert(all_placed(seq![second]) =~= q);
    assert(seq![first, second].last() == second);
    assert(seq![second, first].last() == first);
    assert(all_placed(seq![first, second]) =~= p + q);
    assert(all_placed(seq![second, first]) =~= q + p);
    vstd::seq_lib::lemma_seq_union_to_multiset_commutative(p, q);
    sorted_timeline_is_unique(merged, swapped);
}

/// The segments placed from two lists of sources, one after the other, are
/// those of the first list, then those of the second.
proof fn all_placed_split(u: Seq<SourceMergedSegments>, v: Seq<SourceMergedSegments>)
    ensures
        all_placed(u + v) == all_placed(u) + all_placed(v),
    decreases v.len(),
{
    if v.len() == 0 {
        assert(u + v =~= u);
        assert(all_placed(u) + all_placed(v) =~= all_placed(u));
    } else {
        all_placed_split(u, v.drop_last());
        assert((u + v).drop_last() =~= u + v.drop_last());
        assert((u + v).last() == v.last());
        let last = placed(v.last().source, v.last().started_at_unix_ms, v.last().segments@);
        assert(all_placed(u) + all_placed(v) =~= all_placed(u) + all_placed(v.drop_last()) + last);
    }
}

/// Sources listed in any other order place the same segments.
pub proof fn rearranged_sources_place_the_same(
    sources: Seq<SourceMergedSegments>,
    rearranged: Seq<SourceMergedSegments>,
)
    requires
        sources.to_multiset() == rearranged.to_multiset(),
    ensures
        all_placed(sources).to_multiset() == all_placed(rearranged).to_multiset(),
    decreases sources.len(),
{
    broadcast use vstd::multiset::group_multiset_axioms;

    if sources.len() == 0 {
        assert(rearranged.to_multiset().len() == 0);
        assert(rearranged =~= Seq::<SourceMergedSegments>::empty());
    } else {
        let x = sources.last();
        assert(sources.contains(x)) by {
            assert(sources[sources.len() - 1] == x);
        }
        assert(rearranged.to_multiset().count(x) > 0);
        assert(rearranged.contains(x));
        let i = choose|i: int| 0 <= i < rearranged.len() && rearranged[i] == x;
        let front = rearranged.subrange(0, i);
        let back = rearranged.subrange(i + 1, rearranged.len() as int);
        let rest = front + back;
        assert(rearranged.remove(i) =~= rest);
        assert(sources.drop_last().push(x) =~= sources);
        assert(rest.to_multiset() =~= sources.drop_last().to_multiset());
        rearranged_sources_place_the_same(sources.drop_last(), rest);
        assert(rearranged =~= front + (seq![x] + back));
        all_placed_split(front, seq![x] + back);
        all_placed_split(seq![x], back);
        all_placed_split(front, back);
        assert(seq![x].drop_last() =~= Seq::<SourceMergedSegments>::empty());
        let px = placed(x.source, x.started_at_unix_ms, x.segments@);
        assert(seq![x].last() == x);
        assert(all_placed(Seq::<SourceMergedSegments>::empty()) =~= Seq::<SourcedTranscriptSegment>::empty());
        assert(all_placed(seq![x]) =~= px);
        vstd::seq_lib::lemma_multiset_commutative(all_placed(front), px + all_placed(back));
        vstd::seq_lib::lemma_multiset_commutative(px, all_placed(back));
        vstd::seq_lib::lemma_multiset_commutative(all_placed(front), all_placed(back));
        vstd::seq_lib::lemma_multiset_commutative(all_placed(sources.drop_last()), px);
        assert(all_placed(rearranged).to_multiset() =~= all_placed(rest).to_multiset().add(
            px.to_multiset(),
        ));
    }
}

/// Merging sources gives the same timeline whatever order the sources, and
/// the segments within each, are listed in, as long as the same segments
/// are placed.
pub proof fn listing_order_does_not_matter(
    sources: Seq<SourceMergedSegments>,
    rearranged: Seq<SourceMergedSegments>,
    merged: Seq<SourcedTranscriptSegment>,
    merged_rearranged: Seq<SourcedTranscriptSegment>,
)
    requires
        all_placed(sources).to_multiset() == all_placed(rearranged).to_multiset(),
        sorted_on_timeline(merged),
        merged.to_multiset() == all_placed(sources).to_multiset(),
        sorted_on_timeline(merged_rearranged),
        merged_rearranged.to_multiset() == all_placed(rearranged).to_multiset(),
    ensures
        same_timeline(merged, merged_rearranged),
{
    sorted_timeline_is_unique(merged, merged_rearranged);
}

/// Merging sources gives the same timeline whatever order the sources are
/// listed in.
pub proof fn any_source_order_gives_the_same_timeline(
    sources: Seq<SourceMergedSegments>,
    rearranged: Seq<SourceMergedSegments>,
    merged: Seq<SourcedTranscriptSegment>,
    merged_rearranged: Seq<SourcedTranscriptSegment>,
)
    requires
        sources.to_multiset() == rearranged.to_multiset(),
        sorted_on_timeline(merged),
        merged.to_multiset() == all_placed(sources).to_multiset(),
        sorted_on_timeline(merged_rearranged),
        merged_rearranged.to_multiset() == all_placed(rearranged).to_multiset(),
    ensures
        same_timeline(merged, merged_rearranged),
{
    rearranged_sources_place_the_same(sources, rearranged);
    sorted_timeline_is_unique(merged, merged_rearranged);
}

/// A source's recorded outcome tells what became of its run: a run that
/// failed is `Failed` with its message; a finished run is `Succeeded` if
/// and only if none of its captures failed, and otherwise
/// `PartialFailure` with the number of captures that failed.
pub proof fn outcome_tells_lost_captures(run: MixedSourceRun)
    ensures
        run.result is Err ==> outcome_of(run).status == MixedCaptureSourceStatus::Failed
            && outcome_of(run).error_message == Some(run.result->Err_0),
        run.result matches Ok(res) ==> (outcome_of(run).status == MixedCaptureSourceStatus::Succeeded
            <==> res.transcription_failures@.len() == 0),
        run.result is Ok && run.result->Ok_0.transcription_failures@.len() > 0 ==> outcome_of(run).status
            == MixedCaptureSourceStatus::PartialFailure && outcome_of(run).transcription_failure_count
            == run.result->Ok_0.transcription_failures.len(),
        run.result is Ok ==> outcome_of(run).error_message is None,
        run.result is Ok ==> outcome_of(run).transcription_failure_count
            == run.result->Ok_0.transcription_failures.len(),
        run.result is Ok ==> outcome_of(run).started_at_unix_ms == run.result->Ok_0.started_at_unix_ms,
        run.result is Err ==> outcome_of(run).started_at_unix_ms == run.started_at_unix_ms
            && outcome_of(run).transcription_failure_count == 0,
        outcome_of(run).source == run.source,
{
}

/// A finished session completed without failures if and only if every
/// source's run finished and none of its captures failed.
pub proof fn session_completes_only_without_failures(res: MixedCaptureRunResult, runs: Seq<MixedSourceRun>)
    requires
        finalized_as(res, runs),
    ensures
        (forall|i: int|
            0 <= i < res.source_outcomes@.len() ==> #[trigger] res.source_outcomes@[i].status
                == MixedCaptureSourceStatus::Succeeded) <==> (forall|i: int|
            0 <= i < runs.len() ==> (#[trigger] runs[i]).result is Ok
                && runs[i].result->Ok_0.transcription_failures@.len() == 0),
{
    if forall|i: int|
        0 <= i < res.source_outcomes@.len() ==> #[trigger] res.source_outcomes@[i].status
            == MixedCaptureSourceStatus::Succeeded {
        assert forall|i: int| 0 <= i < runs.len() implies (#[trigger] runs[i]).result is Ok
            && runs[i].result->Ok_0.transcription_failures@.len() == 0 by {
            assert(res.source_outcomes@[i] == outcome_of(runs[i]));
            outcome_tells_lost_captures(runs[i]);
        }
    }
    if forall|i: int|
        0 <= i < runs.len() ==> (#[trigger] runs[i]).result is Ok
            && runs[i].result->Ok_0.transcription_failures@.len() == 0 {
        assert forall|i: int| 0 <= i < res.source_outcomes@.len() implies #[trigger] res.source_outcomes@[i].status
            == MixedCaptureSourceStatus::Succeeded by {
            assert(res.source_outcomes@[i] == outcome_of(runs[i]));
            outcome_tells_lost_captures(runs[i]);
        }
    }
}

} // verus!
