//! Command-line options after parsing: the checks between options and the
//! action they select.
use vstd::prelude::*;

verus! {

/// The most speaker samples one run may attach.
pub const MAX_SPEAKER_SAMPLES: usize = 4;

/// What the program was asked to do.
#[derive(Debug, Clone, PartialEq, Eq)]
pub enum CliAction {
    Run {
        speaker_samples: Vec<String>,
        audio_source: AudioSource,
        transcription_pipeline: Option<CliTranscriptionPipeline>,
        diarization_max_speakers: Option<u64>,
    },
    Doctor {
        speaker_samples: Vec<String>,
        audio_source: AudioSource,
        transcription_pipeline: Option<CliTranscriptionPipeline>,
        diarization_max_speakers: Option<u64>,
        fix: bool,
    },
    Speaker(SpeakerCliCommand),
    PrintOutput(String),
}

/// The transcription pipeline chosen on the command line.
#[derive(Debug, Clone, Copy, PartialEq, Eq, Structural)]
pub enum CliTranscriptionPipeline {
    Legacy,
    Separated,
}

/// The audio to capture.
#[derive(Debug, Clone, PartialEq, Eq)]
pub enum AudioSource {
    Microphone { only_speaker: Option<String> },
    Application { bundle_id: String, only_speaker: Option<String> },
    Mixed {
        bundle_id: String,
        microphone_only_speaker: String,
        application_only_speaker: Option<String>,
    },
}

/// A speaker subcommand, checked.
#[derive(Debug, Clone, PartialEq, Eq)]
pub enum SpeakerCliCommand {
    Add { speaker_name: String, wav_path: String, start_second: u64 },
    List,
    Remove { speaker_name: String },
}

/// The `--audio-source` choice.
#[derive(Debug, Clone, Copy, PartialEq, Eq, Structural)]
pub enum AudioSourceKind {
    Microphone,
    Application,
    Mixed,
}

/// Options that do not fit together, or that could not be parsed.
#[derive(Debug, Clone, PartialEq, Eq)]
pub enum CliArgumentError {
    Parse { message: String },
    RelativePathArgument { value: String },
    TooManySpeakerSamples { count: usize, max: usize },
    MissingApplicationBundleId,
    UnexpectedApplicationBundleId,
    MissingMicrophoneOnlySpeaker,
    UnexpectedMicrophoneOnlySpeaker,
    UnexpectedApplicationOnlySpeaker,
    InvalidDiarizationMaxSpeakers { value: u64 },
    UnexpectedDiarizationMaxSpeakersForLegacy,
}

/// A speaker subcommand as parsed.
#[derive(Debug, Clone, PartialEq, Eq)]
pub enum SpeakerCommandArgs {
    Add { speaker_name: String, wav_path: String, start_second: u64 },
    List,
    Remove { speaker_name: String },
}

/// The `speaker` subcommand as parsed.
#[derive(Debug, Clone, PartialEq, Eq)]
pub struct SpeakerSubcommandArgs {
    pub command: SpeakerCommandArgs,
}

/// A subcommand as parsed.
#[derive(Debug, Clone, PartialEq, Eq)]
pub enum CliSubcommandArgs {
    Doctor { fix: bool },
    Speaker(SpeakerSubcommandArgs),
}

/// The options as parsed, before they are checked against each other.
#[derive(Debug, Clone, PartialEq, Eq)]
pub struct CliArgs {
    pub speaker_samples: Vec<String>,
    pub audio_source: AudioSourceKind,
    pub application_bundle_id: Option<String>,
    pub microphone_only_speaker: Option<String>,
    pub application_only_speaker: Option<String>,
    pub transcription_pipeline: Option<CliTranscriptionPipeline>,
    pub diarization_max_speakers: Option<u64>,
    pub command: Option<CliSubcommandArgs>,
}

/// Whether a path starts at the root.
pub open spec fn is_absolute_path(path: Seq<char>) -> bool {
    path.len() > 0 && path[0] == '/'
}

impl SpeakerSubcommandArgs {
    /// The checked speaker command: a sample must come from an absolute path.
    pub open spec fn spec_into_action(self) -> Result<CliAction, CliArgumentError> {
        match self.command {
            SpeakerCommandArgs::Add { speaker_name, wav_path, start_second } => if is_absolute_path(
                wav_path@,
            ) {
                Ok(CliAction::Speaker(SpeakerCliCommand::Add { speaker_name, wav_path, start_second }))
            } else {
                Err(CliArgumentError::RelativePathArgument { value: wav_path })
            },
            SpeakerCommandArgs::List => Ok(CliAction::Speaker(SpeakerCliCommand::List)),
            SpeakerCommandArgs::Remove { speaker_name } => Ok(
                CliAction::Speaker(SpeakerCliCommand::Remove { speaker_name }),
            ),
        }
    }

    /// Checks a speaker subcommand.
    pub fn into_action(self) -> (r: Result<CliAction, CliArgumentError>)
        ensures
            r == self.spec_into_action(),
    {
        let command = match self.command {
            SpeakerCommandArgs::Add { speaker_name, wav_path, start_second } => {
                let absolute = wav_path.as_str().unicode_len() > 0 && wav_path.as_str().get_char(0)
                    == '/';
                if !absolute {
                    return Err(CliArgumentError::RelativePathArgument { value: wav_path });
                }
                SpeakerCliCommand::Add { speaker_name, wav_path, start_second }
            },
            SpeakerCommandArgs::List => SpeakerCliCommand::List,
            SpeakerCommandArgs::Remove { speaker_name } => SpeakerCliCommand::Remove { speaker_name },
        };
        Ok(CliAction::Speaker(command))
    }
}

impl CliArgs {
    /// The audio source that the source options select, or why they do not
    /// fit together.
    pub open spec fn spec_audio_source(self) -> Result<AudioSource, CliArgumentError> {
        match self.audio_source {
            AudioSourceKind::Microphone => if self.application_bundle_id is Some {
                Err(CliArgumentError::UnexpectedApplicationBundleId)
            } else if self.application_only_speaker is Some {
                Err(CliArgumentError::UnexpectedApplicationOnlySpeaker)
            } else {
                Ok(AudioSource::Microphone { only_speaker: self.microphone_only_speaker })
            },
            AudioSourceKind::Application => if self.microphone_only_speaker is Some {
                Err(CliArgumentError::UnexpectedMicrophoneOnlySpeaker)
            } else if self.application_bundle_id is None {
                Err(CliArgumentError::MissingApplicationBundleId)
            } else {
                Ok(
                    AudioSource::Application {
                        bundle_id: self.application_bundle_id.unwrap(),
                        only_speaker: self.application_only_speaker,
                    },
                )
            },
            AudioSourceKind::Mixed => if self.microphone_only_speaker is None {
                Err(CliArgumentError::MissingMicrophoneOnlySpeaker)
            } else if self.application_bundle_id is None {
                Err(CliArgumentError::MissingApplicationBundleId)
            } else {
                Ok(
                    AudioSource::Mixed {
                        bundle_id: self.application_bundle_id.unwrap(),
                        microphone_only_speaker: self.microphone_only_speaker.unwrap(),
                        application_only_speaker: self.application_only_speaker,
                    },
                )
            },
        }
    }

    /// The action the options select: first the count of speaker samples,
    /// then the speaker limit (positive, and only for the separated
    /// pipeline), then the source options, then the subcommand.
    pub open spec fn spec_into_action(self) -> Result<CliAction, CliArgumentError> {
        if self.speaker_samples@.len() > MAX_SPEAKER_SAMPLES {
            Err(
                CliArgumentError::TooManySpeakerSamples {
                    count: self.speaker_samples@.len() as usize,
                    max: MAX_SPEAKER_SAMPLES,
                },
            )
        } else if self.diarization_max_speakers == Some(0u64) {
            Err(CliArgumentError::InvalidDiarizationMaxSpeakers { value: 0 })
        } else if self.transcription_pipeline == Some(CliTranscriptionPipeline::Legacy)
            && self.diarization_max_speakers is Some {
            Err(CliArgumentError::UnexpectedDiarizationMaxSpeakersForLegacy)
        } else {
            match self.spec_audio_source() {
                Err(e) => Err(e),
                Ok(audio_source) => match self.command {
                    None => Ok(
                        CliAction::Run {
                            speaker_samples: self.speaker_samples,
                            audio_source,
                            transcription_pipeline: self.transcription_pipeline,
                            diarization_max_speakers: self.diarization_max_speakers,
                        },
                    ),
                    Some(CliSubcommandArgs::Doctor { fix }) => Ok(
                        CliAction::Doctor {
                            speaker_samples: self.speaker_samples,
                            audio_source,
                            transcription_pipeline: self.transcription_pipeline,
                            diarization_max_speakers: self.diarization_max_speakers,
                            fix,
                        },
                    ),
                    Some(CliSubcommandArgs::Speaker(args)) => args.spec_into_action(),
                },
            }
        }
    }

    /// Checks the options against each other and returns the action they
    /// select.
    pub fn into_action(self) -> (r: Result<CliAction, CliArgumentError>)
        ensures
            r == self.spec_into_action(),
    {
        if self.speaker_samples.len() > MAX_SPEAKER_SAMPLES {
            return Err(
                CliArgumentError::TooManySpeakerSamples {
                    count: self.speaker_samples.len(),
                    max: MAX_SPEAKER_SAMPLES,
                },
            );
        }
        let zero_limit = match self.diarization_max_speakers {
            Some(0) => true,
            _ => false,
        };
        if zero_limit {
            return Err(CliArgumentError::InvalidDiarizationMaxSpeakers { value: 0 });
        }
        let legacy = match self.transcription_pipeline {
            Some(CliTranscriptionPipeline::Legacy) => true,
            _ => false,
        };
        if legacy && self.diarization_max_speakers.is_some() {
            return Err(CliArgumentError::UnexpectedDiarizationMaxSpeakersForLegacy);
        }
        let ghost args = self;
        let audio_source = match self.audio_source {
            AudioSourceKind::Microphone => {
                if self.application_bundle_id.is_some() {
                    return Err(CliArgumentError::UnexpectedApplicationBundleId);
                }
                if self.application_only_speaker.is_some() {
                    return Err(CliArgumentError::UnexpectedApplicationOnlySpeaker);
                }
                AudioSource::Microphone { only_speaker: self.microphone_only_speaker }
            },
            AudioSourceKind::Application => {
                if self.microphone_only_speaker.is_some() {
                    return Err(CliArgumentError::UnexpectedMicrophoneOnlySpeaker);
                }
                match self.application_bundle_id {
                    None => {
                        return Err(CliArgumentError::MissingApplicationBundleId);
                    },
                    Some(bundle_id) => AudioSource::Application {
                        bundle_id,
                        only_speaker: self.application_only_speaker,
                    },
                }
            },
            AudioSourceKind::Mixed => {
                match self.microphone_only_speaker {
                    None => {
                        return Err(CliArgumentError::MissingMicrophoneOnlySpeaker);
                    },
                    Some(microphone_only_speaker) => match self.application_bundle_id {
                        None => {
                            return Err(CliArgumentError::MissingApplicationBundleId);
                        },
                        Some(bundle_id) => AudioSource::Mixed {
                            bundle_id,
                            microphone_only_speaker,
                            application_only_speaker: self.application_only_speaker,
                        },
                    },
                }
            },
        };
        assert(args.spec_audio_source() == Ok::<AudioSource, CliArgumentError>(audio_source));
        match self.command {
            None => Ok(
                CliAction::Run {
                    speaker_samples: self.speaker_samples,
                    audio_source,
                    transcription_pipeline: self.transcription_pipeline,
                    diarization_max_speakers: self.diarization_max_speakers,
                },
            ),
            Some(CliSubcommandArgs::Doctor { fix }) => Ok(
                CliAction::Doctor {
                    speaker_samples: self.speaker_samples,
                    audio_source,
                    transcription_pipeline: self.transcription_pipeline,
                    diarization_max_speakers: self.diarization_max_speakers,
                    fix,
                },
            ),
            Some(CliSubcommandArgs::Speaker(speaker_args)) => speaker_args.into_action(),
        }
    }
}

/// Whether `source` is the kind of source the options chose, with the
/// bundle id and speakers given, each unchanged.
pub open spec fn carries_options(args: CliArgs, source: AudioSource) -> bool {
    match source {
        AudioSource::Microphone { only_speaker } => {
            &&& args.audio_source == AudioSourceKind::Microphone
            &&& only_speaker == args.microphone_only_speaker
            &&& args.application_bundle_id is None
            &&& args.application_only_speaker is None
        },
        AudioSource::Application { bundle_id, only_speaker } => {
            &&& args.audio_source == AudioSourceKind::Application
            &&& args.application_bundle_id == Some(bundle_id)
            &&& only_speaker == args.application_only_speaker
            &&& args.microphone_only_speaker is None
        },
        AudioSource::Mixed { bundle_id, microphone_only_speaker, application_only_speaker } => {
            &&& args.audio_source == AudioSourceKind::Mixed
            &&& args.application_bundle_id == Some(bundle_id)
            &&& args.microphone_only_speaker == Some(microphone_only_speaker)
            &&& application_only_speaker == args.application_only_speaker
        },
    }
}

/// Whether the options other than the source fit: few enough speaker
/// samples, and a positive speaker limit, given only outside the legacy
/// pipeline.
pub open spec fn other_options_fit(args: CliArgs) -> bool {
    &&& args.speaker_samples@.len() <= MAX_SPEAKER_SAMPLES
    &&& args.diarization_max_speakers != Some(0u64)
    &&& !(args.transcription_pipeline == Some(CliTranscriptionPipeline::Legacy)
        && args.diarization_max_speakers is Some)
}

/// A run or doctor action carries every option value given, unchanged:
/// its source is the kind chosen, with the bundle id and speakers given,
/// and its samples, pipeline and speaker limit are those given. And when
/// the options fit, they select that action: an application source with a
/// bundle id and no microphone-only speaker keeps its application-only
/// speaker, and likewise for the other kinds.
pub proof fn action_carries_the_given_options(args: CliArgs)
    ensures
        args.spec_into_action() matches Ok(CliAction::Run { speaker_samples, audio_source, transcription_pipeline, diarization_max_speakers })
            ==> {
            &&& carries_options(args, audio_source)
            &&& speaker_samples == args.speaker_samples
            &&& transcription_pipeline == args.transcription_pipeline
            &&& diarization_max_speakers == args.diarization_max_speakers
            &&& args.command is None
        },
        args.spec_into_action() matches Ok(CliAction::Doctor { speaker_samples, audio_source, transcription_pipeline, diarization_max_speakers, fix })
            ==> {
            &&& carries_options(args, audio_source)
            &&& speaker_samples == args.speaker_samples
            &&& transcription_pipeline == args.transcription_pipeline
            &&& diarization_max_speakers == args.diarization_max_speakers
            &&& args.command == Some(CliSubcommandArgs::Doctor { fix })
        },
        other_options_fit(args) && args.command is None && args.audio_source
            == AudioSourceKind::Application && args.application_bundle_id is Some
            && args.microphone_only_speaker is None ==> args.spec_into_action() == Ok::<
            CliAction,
            CliArgumentError,
        >(
            CliAction::Run {
                speaker_samples: args.speaker_samples,
                audio_source: AudioSource::Application {
                    bundle_id: args.application_bundle_id->0,
                    only_speaker: args.application_only_speaker,
                },
                transcription_pipeline: args.transcription_pipeline,
                diarization_max_speakers: args.diarization_max_speakers,
            },
        ),
        other_options_fit(args) && args.command is None && args.audio_source
            == AudioSourceKind::Microphone && args.application_bundle_id is None
            && args.application_only_speaker is None ==> args.spec_into_action() == Ok::<
            CliAction,
            CliArgumentError,
        >(
            CliAction::Run {
                speaker_samples: args.speaker_samples,
                audio_source: AudioSource::Microphone { only_speaker: args.microphone_only_speaker },
                transcription_pipeline: args.transcription_pipeline,
                diarization_max_speakers: args.diarization_max_speakers,
            },
        ),
        other_options_fit(args) && args.command is None && args.audio_source == AudioSourceKind::Mixed
            && args.application_bundle_id is Some && args.microphone_only_speaker is Some
            ==> args.spec_into_action() == Ok::<CliAction, CliArgumentError>(
            CliAction::Run {
                speaker_samples: args.speaker_samples,
                audio_source: AudioSource::Mixed {
                    bundle_id: args.application_bundle_id->0,
                    microphone_only_speaker: args.microphone_only_speaker->0,
                    application_only_speaker: args.application_only_speaker,
                },
                transcription_pipeline: args.transcription_pipeline,
                diarization_max_speakers: args.diarization_max_speakers,
            },
        ),
{
    match args.command {
        Some(CliSubcommandArgs::Speaker(sub)) => {
            assert(!(sub.spec_into_action() matches Ok(CliAction::Run { .. })));
            assert(!(sub.spec_into_action() matches Ok(CliAction::Doctor { .. })));
        },
        _ => {},
    }
}

/// A speaker subcommand is accepted exactly when a sample to add comes from
/// an absolute path; then it carries the name, path and start given.
pub proof fn speaker_command_needs_an_absolute_path(args: SpeakerSubcommandArgs)
    ensures
        args.command matches SpeakerCommandArgs::Add { speaker_name, wav_path, start_second } ==> (
        if wav_path@.len() > 0 && wav_path@[0] == '/' {
            args.spec_into_action() == Ok::<CliAction, CliArgumentError>(
                CliAction::Speaker(SpeakerCliCommand::Add { speaker_name, wav_path, start_second }),
            )
        } else {
            args.spec_into_action() == Err::<CliAction, CliArgumentError>(
                CliArgumentError::RelativePathArgument { value: wav_path },
            )
        }),
        args.command is List ==> args.spec_into_action() == Ok::<CliAction, CliArgumentError>(
            CliAction::Speaker(SpeakerCliCommand::List),
        ),
        args.command matches SpeakerCommandArgs::Remove { speaker_name } ==> args.spec_into_action()
            == Ok::<CliAction, CliArgumentError>(
            CliAction::Speaker(SpeakerCliCommand::Remove { speaker_name }),
        ),
{
}

} // verus!
