//! Joining consecutive captures: the words that both captures heard at the
//! seam, found as the longest run of characters that ends the previous
//! capture's last utterance and begins the next capture's first, are kept
//! once, in the later capture.
use crate::domain::{
    Binary64, CaptureMerger, CapturedTranscript, MergeAuditEntry, MergeAuditOutcome, MergeBatch,
    MergeOverlapRangeSnapshot, MergeOverlapTextSource, MergedTranscriptSegment,
    TranscriptMergePolicy, ONE_BITS,
};
use crate::text::same_text;
use vstd::prelude::*;

verus! {

/// Whether the last `k` characters of `a` are the first `k` of `b`.
pub open spec fn joins_at(a: Seq<char>, b: Seq<char>, k: int) -> bool {
    &&& 0 <= k <= a.len()
    &&& k <= b.len()
    &&& a.subrange(a.len() - k, a.len() as int) == b.subrange(0, k)
}

/// Whether `k` is the longest seam of at least `min` characters (and at
/// least one) between `a` and `b`, or 0 where there is none.
pub open spec fn is_longest_seam(a: Seq<char>, b: Seq<char>, min: u64, k: int) -> bool {
    &&& (k == 0 || (k >= min && k >= 1 && joins_at(a, b, k)))
    &&& forall|j: int| k < j && j >= min && j >= 1 && #[trigger] joins_at(a, b, j) ==> false
}

/// The longest seam of at least `min` characters between `a` and `b`, or 0.
pub fn longest_seam(a: &str, b: &str, min: u64) -> (k: usize)
    ensures
        is_longest_seam(a@, b@, min, k as int),
{
    let n = a.unicode_len();
    let m = b.unicode_len();
    let mut k: usize = if n < m { n } else { m };
    while k > 0
        invariant
            n == a@.len(),
            m == b@.len(),
            k <= n,
            k <= m,
            forall|j: int| k < j && j >= min && j >= 1 && #[trigger] joins_at(a@, b@, j) ==> false,
        decreases k,
    {
        if (k as u64) < min {
            return 0;
        }
        let tail = a.substring_char(n - k, n);
        let head = b.substring_char(0, k);
        if same_text(tail, head) {
            return k;
        }
        k = k - 1;
    }
    0
}

/// The previous capture's last utterance without the `k` characters that
/// the next capture heard again, ending where the next capture's first
/// utterance starts (or where it began, if that is earlier).
pub open spec fn trimmed_before(
    p: MergedTranscriptSegment,
    c: MergedTranscriptSegment,
    k: int,
) -> (u64, Seq<char>) {
    (
        if c.start_ms >= p.start_ms {
            c.start_ms
        } else {
            p.start_ms
        },
        p.text@.subrange(0, p.text@.len() - k),
    )
}

/// Whether the previous capture's last utterance and the next capture's
/// first overlap in time.
pub open spec fn overlap_in_time(p: MergedTranscriptSegment, c: MergedTranscriptSegment) -> bool {
    c.start_ms < p.end_ms
}

/// Whether the previous capture's last utterance and the next capture's
/// first overlap in time and share a seam of at least `min` characters.
pub open spec fn seam_found(
    previous: Seq<MergedTranscriptSegment>,
    current: Seq<MergedTranscriptSegment>,
    min: u64,
) -> bool {
    &&& previous.len() > 0
    &&& current.len() > 0
    &&& overlap_in_time(previous.last(), current[0])
    &&& exists|k: int| k >= 1 && k >= min && #[trigger] joins_at(previous.last().text@, current[0].text@, k)
}

/// Whether `settled` and `entry` are the join of `previous` to `current`
/// at the seam of `k` characters.
pub open spec fn joined_at_seam(
    previous: Seq<MergedTranscriptSegment>,
    current: CapturedTranscript,
    k: int,
    settled: Seq<MergedTranscriptSegment>,
    entry: Option<MergeAuditEntry>,
) -> bool {
    let p = previous.last();
    let c = current.segments@[0];
    let end = trimmed_before(p, c, k).0;
    let text = trimmed_before(p, c, k).1;
    &&& settled.len() >= previous.len() - 1
    &&& settled.subrange(0, previous.len() - 1) == previous.drop_last()
    &&& (text.len() == 0 ==> settled.len() == previous.len() - 1)
    &&& (text.len() > 0 ==> settled.len() == previous.len() && settled.last().speaker == p.speaker
        && settled.last().start_ms == p.start_ms && settled.last().end_ms == end
        && settled.last().text@ == text)
    &&& entry is Some
    &&& entry->0.capture_index == current.capture_index
    &&& entry->0.previous_overlap_range.start_ms == c.start_ms
    &&& entry->0.previous_overlap_range.end_ms == p.end_ms
    &&& entry->0.previous_overlap_range.text@ == c.text@.subrange(0, k)
    &&& entry->0.previous_overlap_range.normalized_char_count == k
    &&& entry->0.current_overlap_range.start_ms == c.start_ms
    &&& entry->0.current_overlap_range.end_ms == p.end_ms
    &&& entry->0.current_overlap_range.text@ == c.text@.subrange(0, k)
    &&& entry->0.current_overlap_range.normalized_char_count == k
    &&& entry->0.outcome == (MergeAuditOutcome::Accepted {
        overlap_chars: k as u64,
        alignment_ratio: Binary64 { bits: ONE_BITS },
        trigram_similarity: Binary64 { bits: ONE_BITS },
        current_prefix_trim_chars: 0,
        overlap_text_source: MergeOverlapTextSource::CurrentOverlapRange,
    })
}

/// Whether `settled` and `entries` are the join of the held `previous`
/// segments to `current` under a seam minimum of `min`: unchanged and
/// unrecorded where no seam is found; otherwise joined at the longest seam,
/// with the join recorded once.
pub open spec fn joined(
    previous: Seq<MergedTranscriptSegment>,
    current: CapturedTranscript,
    min: u64,
    settled: Seq<MergedTranscriptSegment>,
    entries: Seq<MergeAuditEntry>,
) -> bool {
    &&& !seam_found(previous, current.segments@, min) ==> settled == previous && entries.len() == 0
    &&& seam_found(previous, current.segments@, min) ==> {
        &&& entries.len() == 1
        &&& exists|k: int|
            is_longest_seam(previous.last().text@, current.segments@[0].text@, min, k) && k >= 1
                && #[trigger] joined_at_seam(previous, current, k, settled, Some(entries[0]))
    }
}

/// Joins the previous capture's held segments to the next capture.
///
/// Where the previous capture's last utterance and the next capture's first
/// overlap in time and share a seam of at least the policy's minimum of
/// characters, the longest such seam is removed from the earlier utterance,
/// which then ends where the later one starts (an utterance left empty is
/// dropped), and the join is recorded. Otherwise the held segments are
/// settled as they are and nothing is recorded.
pub fn join_captures(
    previous: Vec<MergedTranscriptSegment>,
    current: &CapturedTranscript,
    policy: &TranscriptMergePolicy,
) -> (r: (Vec<MergedTranscriptSegment>, Option<MergeAuditEntry>))
    ensures
        !seam_found(previous@, current.segments@, policy.min_overlap_chars) ==> r.0@ == previous@
            && r.1 is None,
        seam_found(previous@, current.segments@, policy.min_overlap_chars) ==> exists|k: int|
            is_longest_seam(
                previous@.last().text@,
                current.segments@[0].text@,
                policy.min_overlap_chars,
                k,
            ) && k >= 1 && #[trigger] joined_at_seam(previous@, *current, k, r.0@, r.1),
{
    if previous.len() == 0 || current.segments.len() == 0 {
        return (previous, None);
    }
    let last_index = previous.len() - 1;
    let c = &current.segments[0];
    if !(c.start_ms < previous[last_index].end_ms) {
        return (previous, None);
    }
    let k = longest_seam(previous[last_index].text.as_str(), c.text.as_str(), policy.min_overlap_chars);
    if k == 0 {
        return (previous, None);
    }
    let ghost old_previous = previous@;
    let mut settled = previous;
    let p = settled.pop().unwrap();
    proof {
        assert(settled@ =~= old_previous.drop_last());
        assert(joins_at(p.text@, c.text@, k as int));
        assert(p.text@.subrange(p.text@.len() - k, p.text@.len() as int) =~= c.text@.subrange(0, k as int));
    }
    let n = p.text.unicode_len();
    let kept = p.text.as_str().substring_char(0, n - k).to_owned();
    let end_ms = if c.start_ms >= p.start_ms {
        c.start_ms
    } else {
        p.start_ms
    };
    let seam = c.text.as_str().substring_char(0, k).to_owned();
    let snapshot = MergeOverlapRangeSnapshot {
        start_ms: c.start_ms,
        end_ms: p.end_ms,
        text: seam,
        normalized_char_count: k as u64,
    };
    let current_snapshot = MergeOverlapRangeSnapshot {
        start_ms: c.start_ms,
        end_ms: p.end_ms,
        text: c.text.as_str().substring_char(0, k).to_owned(),
        normalized_char_count: k as u64,
    };
    let entry = MergeAuditEntry {
        capture_index: current.capture_index,
        previous_overlap_range: snapshot,
        current_overlap_range: current_snapshot,
        outcome: MergeAuditOutcome::Accepted {
            overlap_chars: k as u64,
            alignment_ratio: Binary64 { bits: ONE_BITS },
            trigram_similarity: Binary64 { bits: ONE_BITS },
            current_prefix_trim_chars: 0,
            overlap_text_source: MergeOverlapTextSource::CurrentOverlapRange,
        },
    };
    if kept.unicode_len() > 0 {
        settled.push(MergedTranscriptSegment { speaker: p.speaker, start_ms: p.start_ms, end_ms, text: kept });
        assert(settled@.subrange(0, old_previous.len() - 1) =~= old_previous.drop_last());
    } else {
        assert(settled@.subrange(0, old_previous.len() - 1) =~= old_previous.drop_last());
    }
    let r = Some(entry);
    assert(joined_at_seam(old_previous, *current, k as int, settled@, r));
    let out = (settled, r);
    assert(is_longest_seam(old_previous.last().text@, current.segments@[0].text@, policy.min_overlap_chars, k as int)
        && joined_at_seam(old_previous, *current, k as int, out.0@, out.1));
    out
}

/// Where the seam is removed, the two utterances together say what both
/// captures heard, with the seam once: the earlier text without the seam,
/// then the later text, is the earlier text followed by the rest of the
/// later one.
pub proof fn seam_is_kept_once(earlier: Seq<char>, later: Seq<char>, k: int)
    requires
        joins_at(earlier, later, k),
    ensures
        earlier.subrange(0, earlier.len() - k) + later == earlier + later.subrange(k, later.len() as int),
{
    assert(earlier =~= earlier.subrange(0, earlier.len() - k) + earlier.subrange(earlier.len() - k, earlier.len() as int));
    assert(later =~= later.subrange(0, k) + later.subrange(k, later.len() as int));
    assert(earlier.subrange(0, earlier.len() - k) + later =~= earlier.subrange(0, earlier.len() - k)
        + earlier.subrange(earlier.len() - k, earlier.len() as int) + later.subrange(k, later.len() as int));
}

/// A merger that removes the seam between consecutive captures and holds
/// each capture's segments back until the next one is joined to it.
pub struct OverlapMerger {
    policy: TranscriptMergePolicy,
    pending: Vec<MergedTranscriptSegment>,
    pushed: Ghost<Seq<CapturedTranscript>>,
}

impl OverlapMerger {
    /// The segments held back, which the next capture may still change.
    pub closed spec fn spec_pending(&self) -> Seq<MergedTranscriptSegment> {
        self.pending@
    }

    /// The policy the merger was made with.
    pub closed spec fn spec_policy(&self) -> TranscriptMergePolicy {
        self.policy
    }

    /// A merger with nothing held back.
    pub fn new(policy: TranscriptMergePolicy) -> (r: Self)
        ensures
            r.spec_pending().len() == 0,
            r.spec_policy() == policy,
    {
        OverlapMerger { policy, pending: Vec::new(), pushed: Ghost(Seq::empty()) }
    }
}

impl CaptureMerger for OverlapMerger {
    closed spec fn merged_captures(&self) -> Seq<CapturedTranscript> {
        self.pushed@
    }

    /// Settles the held segments as `join_captures` joins them to `capture`,
    /// and holds `capture`'s segments back in their place.
    fn push_capture(&mut self, capture: CapturedTranscript) -> (r: MergeBatch)
        ensures
            final(self).spec_pending() == capture.segments@,
            final(self).spec_policy() == old(self).spec_policy(),
            joined(
                old(self).spec_pending(),
                capture,
                old(self).spec_policy().min_overlap_chars,
                r.finalized_segments@,
                r.audit_entries@,
            ),
    {
        self.pushed = Ghost(self.pushed@.push(capture));
        let mut previous: Vec<MergedTranscriptSegment> = Vec::new();
        std::mem::swap(&mut previous, &mut self.pending);
        let (finalized, entry) = join_captures(previous, &capture, &self.policy);
        let mut audit_entries: Vec<MergeAuditEntry> = Vec::new();
        let ghost recorded = entry;
        match entry {
            Some(e) => audit_entries.push(e),
            None => {},
        }
        proof {
            if recorded is Some {
                assert(audit_entries@[0] == recorded->0);
                assert(Some(audit_entries@[0]) == recorded);
            }
        }
        self.pending = capture.segments;
        MergeBatch { finalized_segments: finalized, audit_entries }
    }

    /// Settles every segment still held back.
    fn finish(&mut self) -> (r: Vec<MergedTranscriptSegment>)
        ensures
            r@ == old(self).spec_pending(),
            final(self).spec_pending().len() == 0,
            final(self).spec_policy() == old(self).spec_policy(),
    {
        let mut held: Vec<MergedTranscriptSegment> = Vec::new();
        std::mem::swap(&mut held, &mut self.pending);
        held
    }
}

/// Where a seam is found, a join keeps the words both captures heard once:
/// the earlier utterances stay as they were but for the last, which loses
/// the seam (and is dropped if nothing is left), so that what remains of it
/// followed by the later capture's first utterance says the earlier text
/// followed by the rest of the later one; and the join is recorded once,
/// with the seam's length.
pub proof fn join_keeps_the_seam_once(
    previous: Seq<MergedTranscriptSegment>,
    current: CapturedTranscript,
    min: u64,
    settled: Seq<MergedTranscriptSegment>,
    entries: Seq<MergeAuditEntry>,
)
    requires
        joined(previous, current, min, settled, entries),
        seam_found(previous, current.segments@, min),
    ensures
        entries.len() == 1,
        settled.len() >= previous.len() - 1,
        settled.subrange(0, previous.len() - 1) == previous.drop_last(),
        exists|k: int|
            #![trigger current.segments@[0].text@.subrange(k, current.segments@[0].text@.len() as int)]
            {
                &&& k >= 1
                &&& k >= min
                &&& entries[0].outcome matches MergeAuditOutcome::Accepted { overlap_chars, .. }
                    && overlap_chars == k
                &&& settled.len() == previous.len() ==> settled.last().text@
                    + current.segments@[0].text@ == previous.last().text@
                    + current.segments@[0].text@.subrange(k, current.segments@[0].text@.len() as int)
                &&& settled.len() == previous.len() - 1 ==> previous.last().text@ == current.segments@[0].text@.subrange(0, k)
            },
{
    let k = choose|k: int|
        is_longest_seam(previous.last().text@, current.segments@[0].text@, min, k) && k >= 1
            && #[trigger] joined_at_seam(previous, current, k, settled, Some(entries[0]));
    let earlier = previous.last().text@;
    let later = current.segments@[0].text@;
    seam_is_kept_once(earlier, later, k);
    assert(earlier.subrange(earlier.len() - k, earlier.len() as int) =~= later.subrange(0, k));
    if settled.len() == previous.len() - 1 {
        assert(earlier.subrange(0, earlier.len() - k).len() == 0);
        assert(earlier =~= earlier.subrange(earlier.len() - k, earlier.len() as int));
    }
    assert(later.subrange(k, later.len() as int) == later.subrange(k, later.len() as int));
}

} // verus!
