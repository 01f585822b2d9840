//! Managing registered speakers' reference samples.
use crate::domain::RecordedAudio;
use crate::ports::{AudioClipper, AudioClipperError, SpeakerStore, SpeakerStoreCall, SpeakerStoreError};
use vstd::prelude::*;

verus! {

/// A speaker management request.
#[derive(Debug, Clone, PartialEq, Eq)]
pub enum SpeakerCommand {
    /// Register `speaker_name` with a sample cut from `wav_path`, starting
    /// `start_second` seconds in.
    Add { speaker_name: String, wav_path: String, start_second: u64 },
    /// List the registered speakers.
    List,
    /// Remove a registered speaker.
    Remove { speaker_name: String },
}

/// Why a speaker command failed.
#[derive(Debug, Clone, PartialEq, Eq)]
pub enum SpeakerUseCaseError {
    Clip(AudioClipperError),
    Store(SpeakerStoreError),
}

/// The outcome of a speaker command.
#[derive(Debug, Clone, PartialEq, Eq)]
pub enum SpeakerCommandResult {
    Updated,
    ListedSpeakers(Vec<String>),
}

/// What the clipper is asked for when a speaker is added.
#[derive(Debug, Clone, PartialEq, Eq)]
pub struct ClipRequest {
    pub wav_path: String,
    pub start_offset_ms: u64,
    pub duration_ms: u64,
}

/// The clip for `Add`: the given file, from `start_second` seconds in, for
/// `sample_duration_ms`.
pub fn clip_request(wav_path: &str, start_second: u64, sample_duration_ms: u64) -> (r: ClipRequest)
    requires
        start_second * 1000 <= u64::MAX,
    ensures
        r.wav_path@ == wav_path@,
        r.start_offset_ms == start_second * 1000,
        r.duration_ms == sample_duration_ms,
{
    ClipRequest { wav_path: wav_path.to_owned(), start_offset_ms: start_second * 1000, duration_ms: sample_duration_ms }
}

/// The outcome of a command that changes the registry, from the store's
/// answer: `Updated`, or the store's error unchanged.
pub fn update_outcome(stored: Result<(), SpeakerStoreError>) -> (r: Result<SpeakerCommandResult, SpeakerUseCaseError>)
    ensures
        stored is Ok ==> r == Ok::<SpeakerCommandResult, SpeakerUseCaseError>(SpeakerCommandResult::Updated),
        stored matches Err(e) ==> r == Err::<SpeakerCommandResult, SpeakerUseCaseError>(SpeakerUseCaseError::Store(e)),
{
    match stored {
        Ok(()) => Ok(SpeakerCommandResult::Updated),
        Err(e) => Err(SpeakerUseCaseError::Store(e)),
    }
}

/// The outcome of `List`, from the store's answer: the names as the store
/// gave them, or its error unchanged.
pub fn list_outcome(listed: Result<Vec<String>, SpeakerStoreError>) -> (r: Result<SpeakerCommandResult, SpeakerUseCaseError>)
    ensures
        listed matches Ok(names) ==> r == Ok::<SpeakerCommandResult, SpeakerUseCaseError>(SpeakerCommandResult::ListedSpeakers(names)),
        listed matches Err(e) ==> r == Err::<SpeakerCommandResult, SpeakerUseCaseError>(SpeakerUseCaseError::Store(e)),
{
    match listed {
        Ok(names) => Ok(SpeakerCommandResult::ListedSpeakers(names)),
        Err(e) => Err(SpeakerUseCaseError::Store(e)),
    }
}

/// The result of a command that changes the registry, from the store's
/// answer: `Updated`, or the store's error.
pub open spec fn updated_result(stored: Result<(), SpeakerStoreError>) -> Result<
    SpeakerCommandResult,
    SpeakerUseCaseError,
> {
    match stored {
        Ok(()) => Ok(SpeakerCommandResult::Updated),
        Err(e) => Err(SpeakerUseCaseError::Store(e)),
    }
}

/// Whether `after` is `before` with one more change at its end.
pub open spec fn one_more_change(
    before: Seq<SpeakerStoreCall>,
    after: Seq<SpeakerStoreCall>,
) -> bool {
    after.len() == before.len() + 1 && after.drop_last() == before
}

/// Runs a speaker command: `Add` asks the clipper for the `clip_request`
/// and stores the clip under the speaker's name; `List` asks the store for
/// the names; `Remove` asks it to delete the named sample. The answers are
/// turned into the result by `update_outcome` and `list_outcome`; a clipper
/// error is returned as `Clip`, unchanged, before the store is asked.
pub fn run_speaker_command<C: AudioClipper, S: SpeakerStore>(
    command: &SpeakerCommand,
    sample_duration_ms: u64,
    clipper: &C,
    speaker_store: &mut S,
) -> (r: Result<SpeakerCommandResult, SpeakerUseCaseError>)
    requires
        command matches SpeakerCommand::Add { start_second, .. } ==> start_second * 1000
            <= u64::MAX,
    ensures
        match *command {
            SpeakerCommand::Add { speaker_name, wav_path, start_second } => match clipper.clip(
                wav_path@,
                (start_second * 1000) as u64,
                sample_duration_ms,
            ) {
                Err(e) => {
                    &&& r == Err::<SpeakerCommandResult, SpeakerUseCaseError>(
                        SpeakerUseCaseError::Clip(e),
                    )
                    &&& final(speaker_store).speaker_calls() == old(speaker_store).speaker_calls()
                },
                Ok(audio) => {
                    &&& one_more_change(
                        old(speaker_store).speaker_calls(),
                        final(speaker_store).speaker_calls(),
                    )
                    &&& final(speaker_store).speaker_calls().last() matches SpeakerStoreCall::Create {
                        speaker_name: name,
                        audio: stored,
                        result,
                    }
                    &&& final(speaker_store).speaker_calls().last()->Create_speaker_name == speaker_name@
                    &&& final(speaker_store).speaker_calls().last()->Create_audio == audio
                    &&& r == updated_result(final(speaker_store).speaker_calls().last()->Create_result)
                },
            },
            SpeakerCommand::List => {
                &&& final(speaker_store).speaker_calls() == old(speaker_store).speaker_calls()
                &&& match old(speaker_store).listing() {
                    Ok(names) => r matches Ok(SpeakerCommandResult::ListedSpeakers(listed))
                        && listed@ == names,
                    Err(e) => r == Err::<SpeakerCommandResult, SpeakerUseCaseError>(
                        SpeakerUseCaseError::Store(e),
                    ),
                }
            },
            SpeakerCommand::Remove { speaker_name } => {
                &&& one_more_change(
                    old(speaker_store).speaker_calls(),
                    final(speaker_store).speaker_calls(),
                )
                &&& final(speaker_store).speaker_calls().last() matches SpeakerStoreCall::Remove {
                    speaker_name: name,
                    result,
                }
                &&& final(speaker_store).speaker_calls().last()->Remove_speaker_name == speaker_name@
                &&& r == updated_result(final(speaker_store).speaker_calls().last()->Remove_result)
            },
        },
{
    let ghost before = speaker_store.speaker_calls();
    match command {
        SpeakerCommand::Add { speaker_name, wav_path, start_second } => {
            let request = clip_request(wav_path.as_str(), *start_second, sample_duration_ms);
            proof {
                assert(request.wav_path@ =~= wav_path@);
            }
            let clipped: RecordedAudio = match clipper.clip_wav_segment(
                request.wav_path.as_str(),
                request.start_offset_ms,
                request.duration_ms,
            ) {
                Ok(audio) => audio,
                Err(e) => {
                    return Err(SpeakerUseCaseError::Clip(e));
                },
            };
            let stored = speaker_store.create_sample(speaker_name.as_str(), &clipped);
            proof {
                assert(speaker_store.speaker_calls().drop_last() =~= before);
            }
            update_outcome(stored)
        },
        SpeakerCommand::List => list_outcome(speaker_store.list_samples()),
        SpeakerCommand::Remove { speaker_name } => {
            let removed = speaker_store.remove_sample(speaker_name.as_str());
            proof {
                assert(speaker_store.speaker_calls().drop_last() =~= before);
            }
            update_outcome(removed)
        },
    }
}

} // verus!
