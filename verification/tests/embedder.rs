use diarize_log::domain::{Binary32, KnownSpeakerEmbedding, RecordedAudio};
use diarize_log::embedder::{embedder_input, embedding_from_output, PythonSpeakerEmbedder};
use diarize_log::ports::SpeakerEmbedderError;

#[test]
fn default_embedder_runs_the_bundled_worker_with_python3() {
    let embedder = PythonSpeakerEmbedder::default();
    assert_eq!(embedder.command(), "python3");
    assert_eq!(embedder.script_path(), "scripts/speaker_embedder.py");
}

#[test]
fn custom_embedder_keeps_its_command_and_script() {
    let embedder = PythonSpeakerEmbedder::new("/usr/bin/python3.12".to_string(), "/opt/embed.py".to_string());
    assert_eq!(embedder.command(), "/usr/bin/python3.12");
    assert_eq!(embedder.script_path(), "/opt/embed.py");
}

#[test]
fn embedder_input_carries_name_type_and_base64_audio() {
    let audio = RecordedAudio { wav_bytes: vec![0x52, 0x49, 0x46, 0x46], content_type: "audio/wav" };
    let input = embedder_input("suzuki", &audio);
    assert_eq!(input.speaker_name, "suzuki");
    assert_eq!(input.content_type, "audio/wav");
    assert_eq!(input.wav_base64, "UklGRg==");
}

#[test]
fn empty_embedding_vector_is_invalid_output() {
    let result = embedding_from_output("suzuki".to_string(), "ecapa".to_string(), Vec::new());
    assert_eq!(result, Err(SpeakerEmbedderError::InvalidOutput("embedding vector is empty".to_string())));
}

#[test]
fn non_empty_embedding_is_taken_as_it_is() {
    let vector = vec![Binary32 { bits: 0.5f32.to_bits() }, Binary32 { bits: (-0.25f32).to_bits() }];
    let result = embedding_from_output("suzuki".to_string(), "ecapa".to_string(), vector.clone());
    assert_eq!(
        result,
        Ok(KnownSpeakerEmbedding { speaker_name: "suzuki".to_string(), model: "ecapa".to_string(), vector })
    );
}

#[test]
fn embedder_errors_describe_each_failure() {
    assert_eq!(
        SpeakerEmbedderError::SpawnProcess("no such file".to_string()).message(),
        "failed to spawn speaker embedder: no such file"
    );
    assert_eq!(
        SpeakerEmbedderError::WriteInput("broken pipe".to_string()).message(),
        "failed to write speaker embedder input: broken pipe"
    );
    assert_eq!(
        SpeakerEmbedderError::ReadOutput("eof".to_string()).message(),
        "failed to read speaker embedder output: eof"
    );
    assert_eq!(
        SpeakerEmbedderError::ProcessFailed { status: "exit status: 1".to_string(), stderr: "boom".to_string() }
            .message(),
        "speaker embedder failed with exit status: 1: boom"
    );
    assert_eq!(
        SpeakerEmbedderError::ParseOutput("expected value".to_string()).message(),
        "failed to parse speaker embedder output: expected value"
    );
    assert_eq!(
        SpeakerEmbedderError::InvalidOutput("embedding vector is empty".to_string()).message(),
        "invalid speaker embedder output: embedding vector is empty"
    );
}
