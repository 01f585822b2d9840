//! The layout of the storage root: where a session's captures, metadata and
//! merged transcripts go, and how registered speakers' samples are named.
use crate::domain::TranscriptSource;
use crate::ports::SpeakerStoreError;
use crate::text::{
    concat2, concat3, contains_char, decimal_text, same_text, text_less, text_lt,
    text_lt_irreflexive_asymmetric, text_lt_transitive, zero_padded, zero_padded_decimal,
};
use vstd::seq_lib::{to_multiset_build, to_multiset_insert, to_multiset_len};
use vstd::prelude::*;

verus! {

/// The directory, under the storage root, that holds the sessions.
pub const RUNS_DIR_NAME: &'static str = "runs";

/// The directory, under the storage root, that holds speakers' samples.
pub const SPEAKERS_DIR_NAME: &'static str = "speakers";

/// The files of one capture session (or of one source of a mixed session),
/// relative to the session's directory.
#[derive(Debug, Clone, PartialEq, Eq)]
pub struct SessionPaths {
    pub audios_dir: String,
    pub captures_dir: String,
    pub metadata_path: String,
    pub merged_path: String,
    pub merge_audit_path: String,
}

/// The directory of a session's files: the session itself, or
/// `sources/<source>` for one source of a mixed session.
pub open spec fn session_base(source: Option<TranscriptSource>) -> Seq<char> {
    match source {
        None => Seq::empty(),
        Some(TranscriptSource::Microphone) => "sources/microphone/"@,
        Some(TranscriptSource::Application) => "sources/application/"@,
    }
}

impl SessionPaths {
    /// Whether the paths are those of the session directory `base`.
    pub open spec fn under(self, base: Seq<char>) -> bool {
        &&& self.audios_dir@ == base + "audios"@
        &&& self.captures_dir@ == base + "captures"@
        &&& self.metadata_path@ == base + "metadata.json"@
        &&& self.merged_path@ == base + "merged.jsonl"@
        &&& self.merge_audit_path@ == base + "merge-audit.jsonl"@
    }

    fn with_base(base: &str) -> (r: Self)
        ensures
            r.under(base@),
    {
        SessionPaths {
            audios_dir: concat2(base, "audios"),
            captures_dir: concat2(base, "captures"),
            metadata_path: concat2(base, "metadata.json"),
            merged_path: concat2(base, "merged.jsonl"),
            merge_audit_path: concat2(base, "merge-audit.jsonl"),
        }
    }

    /// The files of a single-source session, directly in its directory.
    pub fn at_session_root() -> (r: Self)
        ensures
            r.under(session_base(None)),
    {
        let r = Self::with_base("");
        proof {
            reveal_strlit("");
            assert(""@ =~= Seq::<char>::empty());
        }
        r
    }

    /// The files of one source of a mixed session, under
    /// `sources/<source>/`.
    pub fn for_source(source: TranscriptSource) -> (r: Self)
        ensures
            r.under(session_base(Some(source))),
    {
        match source {
            TranscriptSource::Microphone => Self::with_base("sources/microphone/"),
            TranscriptSource::Application => Self::with_base("sources/application/"),
        }
    }

    /// The WAV file of capture `capture_index`, numbered with six digits.
    pub fn audio_path(&self, capture_index: u64) -> (r: String)
        ensures
            r@ == self.audios_dir@ + "/capture-"@ + zero_padded(decimal_text(capture_index as nat), 6)
                + ".wav"@,
    {
        let digits = zero_padded_decimal(capture_index, 6);
        let name = concat3("/capture-", digits.as_str(), ".wav");
        let r = concat2(self.audios_dir.as_str(), name.as_str());
        assert(r@ =~= self.audios_dir@ + "/capture-"@ + zero_padded(decimal_text(capture_index as nat), 6)
            + ".wav"@);
        r
    }

    /// The transcript file of capture `capture_index`, numbered with six
    /// digits.
    pub fn capture_path(&self, capture_index: u64) -> (r: String)
        ensures
            r@ == self.captures_dir@ + "/capture-"@ + zero_padded(decimal_text(capture_index as nat), 6)
                + ".json"@,
    {
        let digits = zero_padded_decimal(capture_index, 6);
        let name = concat3("/capture-", digits.as_str(), ".json");
        let r = concat2(self.captures_dir.as_str(), name.as_str());
        assert(r@ =~= self.captures_dir@ + "/capture-"@ + zero_padded(decimal_text(capture_index as nat), 6)
            + ".json"@);
        r
    }
}

/// A speaker name can name a file: it is not empty, not `.` or `..`, and
/// holds no path separator.
pub open spec fn valid_speaker_name(name: Seq<char>) -> bool {
    &&& name.len() > 0
    &&& name != "."@
    &&& name != ".."@
    &&& !name.contains('/')
}

/// Refuses a speaker name that cannot name a file of its own.
pub fn validate_speaker_name(speaker_name: &str) -> (r: Result<(), SpeakerStoreError>)
    ensures
        r is Ok <==> valid_speaker_name(speaker_name@),
        r matches Err(e) ==> e matches SpeakerStoreError::InvalidSpeakerName { speaker_name: n }
            && n@ == speaker_name@,
{
    if speaker_name.unicode_len() == 0 || same_text(speaker_name, ".") || same_text(
        speaker_name,
        "..",
    ) || contains_char(speaker_name, '/') {
        return Err(SpeakerStoreError::InvalidSpeakerName { speaker_name: speaker_name.to_owned() });
    }
    Ok(())
}

/// The sample file of a speaker, `<name>.wav` under the speakers directory.
pub fn speaker_sample_path(speakers_dir: &str, speaker_name: &str) -> (r: Result<
    String,
    SpeakerStoreError,
>)
    ensures
        r is Ok <==> valid_speaker_name(speaker_name@),
        r matches Ok(p) ==> p@ == speakers_dir@ + "/"@ + speaker_name@ + ".wav"@,
        r matches Err(e) ==> e is InvalidSpeakerName,
{
    validate_speaker_name(speaker_name)?;
    let file = concat2(speaker_name, ".wav");
    let r = concat3(speakers_dir, "/", file.as_str());
    assert(r@ =~= speakers_dir@ + "/"@ + speaker_name@ + ".wav"@);
    Ok(r)
}

/// The embedding file of a speaker, `<name>.embedding.json` under the
/// speakers directory.
pub fn speaker_embedding_path(speakers_dir: &str, speaker_name: &str) -> (r: Result<
    String,
    SpeakerStoreError,
>)
    ensures
        r is Ok <==> valid_speaker_name(speaker_name@),
        r matches Ok(p) ==> p@ == speakers_dir@ + "/"@ + speaker_name@ + ".embedding.json"@,
        r matches Err(e) ==> e is InvalidSpeakerName,
{
    validate_speaker_name(speaker_name)?;
    let file = concat2(speaker_name, ".embedding.json");
    let r = concat3(speakers_dir, "/", file.as_str());
    assert(r@ =~= speakers_dir@ + "/"@ + speaker_name@ + ".embedding.json"@);
    Ok(r)
}

/// The speaker whose sample a file in the speakers' directory holds: the
/// name before a final `.wav`, for a file name that has one after a
/// non-empty stem (as `Path::file_stem` and `Path::extension` split it);
/// other files hold no sample.
pub open spec fn spec_sample_file_speaker(file_name: Seq<char>) -> Option<Seq<char>> {
    if file_name.len() > 4 && file_name.subrange(file_name.len() - 4, file_name.len() as int)
        == ".wav"@ {
        Some(file_name.subrange(0, file_name.len() - 4))
    } else {
        None
    }
}

/// The speaker whose sample the file `file_name` holds, if it is one.
pub fn sample_file_speaker(file_name: &str) -> (r: Option<String>)
    ensures
        match spec_sample_file_speaker(file_name@) {
            Some(name) => r is Some && r->0@ == name,
            None => r is None,
        },
{
    proof {
        reveal_strlit(".wav");
    }
    let n = file_name.unicode_len();
    if n <= 4 {
        return None;
    }
    let tail = file_name.substring_char(n - 4, n);
    if !same_text(tail, ".wav") {
        return None;
    }
    Some(file_name.substring_char(0, n - 4).to_owned())
}

/// Whether the names are in the order of `str`'s comparison.
pub open spec fn names_sorted(names: Seq<String>) -> bool {
    forall|i: int, j: int| 0 <= i < j < names.len() ==> !text_lt(#[trigger] names[j]@, #[trigger] names[i]@)
}

/// Inserts `name` after every name that does not come after it.
fn insert_name(out: &mut Vec<String>, name: String)
    requires
        names_sorted(old(out)@),
    ensures
        names_sorted(final(out)@),
        final(out)@.to_multiset() == old(out)@.to_multiset().insert(name),
{
    let mut p: usize = 0;
    while p < out.len()
        invariant
            p <= out@.len(),
            out@ == old(out)@,
            forall|k: int| 0 <= k < p ==> !text_lt(name@, #[trigger] out@[k]@),
        ensures
            p <= out@.len(),
            out@ == old(out)@,
            forall|k: int| 0 <= k < p ==> !text_lt(name@, #[trigger] out@[k]@),
            p < out@.len() ==> text_lt(name@, out@[p as int]@),
        decreases out.len() - p,
    {
        if text_less(name.as_str(), out[p].as_str()) {
            break;
        }
        p = p + 1;
    }
    let ghost before = out@;
    let ghost pos = p as int;
    proof {
        assert forall|k: int| pos <= k < before.len() implies !text_lt(#[trigger] before[k]@, name@) by {
            if pos < before.len() && text_lt(before[k]@, name@) {
                text_lt_transitive(before[k]@, name@, before[pos]@);
                if k > pos {
                    assert(!text_lt(before[k]@, before[pos]@));
                } else {
                    text_lt_irreflexive_asymmetric(before[k]@, before[k]@);
                }
            }
        }
    }
    out.insert(p, name);
    proof {
        let after = out@;
        assert forall|i: int, j: int| 0 <= i < j < after.len() implies !text_lt(
            #[trigger] after[j]@,
            #[trigger] after[i]@,
        ) by {
            if j < pos {
                assert(after[i] == before[i] && after[j] == before[j]);
            } else if j == pos {
                assert(after[i] == before[i]);
            } else if i < pos {
                assert(after[i] == before[i] && after[j] == before[j - 1]);
            } else if i == pos {
                assert(after[j] == before[j - 1]);
            } else {
                assert(after[i] == before[i - 1] && after[j] == before[j - 1]);
            }
        }
        to_multiset_insert(before, pos, name);
    }
}

/// The registered speakers' names in the order of `str`'s comparison, each
/// as often as it was given.
pub fn sort_speaker_names(names: Vec<String>) -> (r: Vec<String>)
    ensures
        names_sorted(r@),
        r@.to_multiset() == names@.to_multiset(),
{
    broadcast use vstd::multiset::group_multiset_axioms, vstd::seq_lib::group_to_multiset_ensures;

    let ghost all = names@;
    let mut rest = names;
    let mut out: Vec<String> = Vec::new();
    assert(out@.to_multiset() =~= vstd::multiset::Multiset::<String>::empty()) by {
        to_multiset_len(out@);
    }
    while rest.len() > 0
        invariant
            names_sorted(out@),
            out@.to_multiset().add(rest@.to_multiset()) =~= all.to_multiset(),
        decreases rest.len(),
    {
        let ghost before = rest@;
        let name = match rest.pop() {
            Some(name) => name,
            None => {
                return out;
            },
        };
        proof {
            assert(before =~= rest@.push(name));
            to_multiset_build(rest@, name);
        }
        insert_name(&mut out, name);
    }
    proof {
        to_multiset_len(rest@);
        assert(rest@.to_multiset() =~= vstd::multiset::Multiset::<String>::empty());
    }
    out
}

} // verus!
