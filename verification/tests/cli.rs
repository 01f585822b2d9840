use diarize_log::cli::{
    AudioSource, AudioSourceKind, CliAction, CliArgs, CliArgumentError, CliSubcommandArgs,
    CliTranscriptionPipeline, SpeakerCliCommand, SpeakerCommandArgs, SpeakerSubcommandArgs,
};

fn args() -> CliArgs {
    CliArgs {
        speaker_samples: Vec::new(),
        audio_source: AudioSourceKind::Microphone,
        application_bundle_id: None,
        microphone_only_speaker: None,
        application_only_speaker: None,
        transcription_pipeline: None,
        diarization_max_speakers: None,
        command: None,
    }
}

#[test]
fn returns_run_action_when_no_flags_are_given() {
    assert_eq!(
        args().into_action(),
        Ok(CliAction::Run {
            speaker_samples: Vec::new(),
            audio_source: AudioSource::Microphone { only_speaker: None },
            transcription_pipeline: None,
            diarization_max_speakers: None,
        })
    );
}

#[test]
fn rejects_more_than_four_speaker_samples() {
    let mut a = args();
    a.speaker_samples = vec!["a".into(), "b".into(), "c".into(), "d".into(), "e".into()];
    assert_eq!(a.into_action(), Err(CliArgumentError::TooManySpeakerSamples { count: 5, max: 4 }));
}

#[test]
fn rejects_diarization_max_speakers_for_legacy_pipeline() {
    let mut a = args();
    a.transcription_pipeline = Some(CliTranscriptionPipeline::Legacy);
    a.diarization_max_speakers = Some(2);
    assert_eq!(a.into_action(), Err(CliArgumentError::UnexpectedDiarizationMaxSpeakersForLegacy));
}

#[test]
fn rejects_zero_diarization_max_speakers() {
    let mut a = args();
    a.diarization_max_speakers = Some(0);
    assert_eq!(a.into_action(), Err(CliArgumentError::InvalidDiarizationMaxSpeakers { value: 0 }));
}

#[test]
fn parses_mixed_audio_source_with_microphone_only_speaker() {
    let mut a = args();
    a.audio_source = AudioSourceKind::Mixed;
    a.application_bundle_id = Some("us.zoom.xos".into());
    a.microphone_only_speaker = Some("me".into());
    assert_eq!(
        a.into_action(),
        Ok(CliAction::Run {
            speaker_samples: Vec::new(),
            audio_source: AudioSource::Mixed {
                bundle_id: "us.zoom.xos".into(),
                microphone_only_speaker: "me".into(),
                application_only_speaker: None,
            },
            transcription_pipeline: None,
            diarization_max_speakers: None,
        })
    );
}

#[test]
fn rejects_application_audio_source_without_bundle_id() {
    let mut a = args();
    a.audio_source = AudioSourceKind::Application;
    assert_eq!(a.into_action(), Err(CliArgumentError::MissingApplicationBundleId));
}

#[test]
fn rejects_mixed_audio_source_without_microphone_only_speaker() {
    let mut a = args();
    a.audio_source = AudioSourceKind::Mixed;
    a.application_bundle_id = Some("us.zoom.xos".into());
    assert_eq!(a.into_action(), Err(CliArgumentError::MissingMicrophoneOnlySpeaker));
}

#[test]
fn rejects_application_bundle_id_for_microphone_audio_source() {
    let mut a = args();
    a.application_bundle_id = Some("us.zoom.xos".into());
    assert_eq!(a.into_action(), Err(CliArgumentError::UnexpectedApplicationBundleId));
}

#[test]
fn rejects_microphone_only_speaker_for_application_audio_source() {
    let mut a = args();
    a.audio_source = AudioSourceKind::Application;
    a.application_bundle_id = Some("us.zoom.xos".into());
    a.microphone_only_speaker = Some("me".into());
    assert_eq!(a.into_action(), Err(CliArgumentError::UnexpectedMicrophoneOnlySpeaker));
}

#[test]
fn parses_doctor_fix_command() {
    let mut a = args();
    a.command = Some(CliSubcommandArgs::Doctor { fix: true });
    a.transcription_pipeline = Some(CliTranscriptionPipeline::Separated);
    a.diarization_max_speakers = Some(3);
    assert_eq!(
        a.into_action(),
        Ok(CliAction::Doctor {
            speaker_samples: Vec::new(),
            audio_source: AudioSource::Microphone { only_speaker: None },
            transcription_pipeline: Some(CliTranscriptionPipeline::Separated),
            diarization_max_speakers: Some(3),
            fix: true,
        })
    );
}

#[test]
fn parses_speaker_add_command() {
    let mut a = args();
    a.command = Some(CliSubcommandArgs::Speaker(SpeakerSubcommandArgs {
        command: SpeakerCommandArgs::Add {
            speaker_name: "suzuki".into(),
            wav_path: "/tmp/source.wav".into(),
            start_second: 4,
        },
    }));
    assert_eq!(
        a.into_action(),
        Ok(CliAction::Speaker(SpeakerCliCommand::Add {
            speaker_name: "suzuki".into(),
            wav_path: "/tmp/source.wav".into(),
            start_second: 4,
        }))
    );
}

#[test]
fn rejects_relative_wav_path_for_speaker_add() {
    let a = SpeakerSubcommandArgs {
        command: SpeakerCommandArgs::Add {
            speaker_name: "suzuki".into(),
            wav_path: "source.wav".into(),
            start_second: 4,
        },
    };
    assert_eq!(
        a.into_action(),
        Err(CliArgumentError::RelativePathArgument { value: "source.wav".into() })
    );
}
