//! The speaker-embedding worker: which program runs it, the request it is
//! sent, and how its reply becomes an embedding.
use crate::domain::{Binary32, KnownSpeakerEmbedding, RecordedAudio};
use crate::ports::SpeakerEmbedderError;
use crate::transcriber::{base64_encode, base64_standard};
use vstd::prelude::*;

verus! {

/// The interpreter that runs the worker by default.
pub const DEFAULT_EMBEDDER_COMMAND: &'static str = "python3";

/// The worker script run by default.
pub const DEFAULT_EMBEDDER_SCRIPT: &'static str = "scripts/speaker_embedder.py";

/// Why a reply with no components is refused.
pub const EMPTY_VECTOR_MESSAGE: &'static str = "embedding vector is empty";

/// A worker that computes speaker embeddings: `command` runs `script_path`.
#[derive(Debug, Clone, PartialEq, Eq)]
pub struct PythonSpeakerEmbedder {
    command: String,
    script_path: String,
}

impl PythonSpeakerEmbedder {
    /// The program that runs the worker.
    pub closed spec fn spec_command(&self) -> Seq<char> {
        self.command@
    }

    /// The worker script.
    pub closed spec fn spec_script_path(&self) -> Seq<char> {
        self.script_path@
    }

    /// A worker run by `command` from `script_path`.
    pub fn new(command: String, script_path: String) -> (r: Self)
        ensures
            r.spec_command() == command@,
            r.spec_script_path() == script_path@,
    {
        PythonSpeakerEmbedder { command, script_path }
    }

    /// The program that runs the worker.
    pub fn command(&self) -> (r: &str)
        ensures
            r@ == self.spec_command(),
    {
        self.command.as_str()
    }

    /// The worker script.
    pub fn script_path(&self) -> (r: &str)
        ensures
            r@ == self.spec_script_path(),
    {
        self.script_path.as_str()
    }
}

impl Default for PythonSpeakerEmbedder {
    /// `python3` running `scripts/speaker_embedder.py`.
    fn default() -> (r: Self)
        ensures
            r.spec_command() == DEFAULT_EMBEDDER_COMMAND@,
            r.spec_script_path() == DEFAULT_EMBEDDER_SCRIPT@,
    {
        PythonSpeakerEmbedder {
            command: DEFAULT_EMBEDDER_COMMAND.to_owned(),
            script_path: DEFAULT_EMBEDDER_SCRIPT.to_owned(),
        }
    }
}

/// What the worker is sent for one sample.
#[derive(Debug, Clone, PartialEq, Eq)]
pub struct EmbedderInput {
    pub speaker_name: String,
    pub content_type: String,
    pub wav_base64: String,
}

/// The request for `audio` spoken by `speaker_name`: the name, the audio's
/// media type, and the WAV bytes in padded standard base64.
pub fn embedder_input(speaker_name: &str, audio: &RecordedAudio) -> (r: EmbedderInput)
    requires
        audio.wav_bytes@.len() / 3 * 4 + 4 <= usize::MAX,
    ensures
        r.speaker_name@ == speaker_name@,
        r.content_type@ == audio.content_type@,
        r.wav_base64@ == base64_standard(audio.wav_bytes@),
{
    EmbedderInput {
        speaker_name: speaker_name.to_owned(),
        content_type: audio.content_type.to_owned(),
        wav_base64: base64_encode(audio.wav_bytes.as_slice()),
    }
}

/// The embedding in the worker's reply. A reply without components is
/// refused as invalid output; any other is taken as it is.
pub fn embedding_from_output(speaker_name: String, model: String, vector: Vec<Binary32>) -> (r:
    Result<KnownSpeakerEmbedding, SpeakerEmbedderError>)
    ensures
        vector@.len() == 0 ==> (r matches Err(SpeakerEmbedderError::InvalidOutput(m))
            && m@ == EMPTY_VECTOR_MESSAGE@),
        vector@.len() > 0 ==> r == Ok::<KnownSpeakerEmbedding, SpeakerEmbedderError>(
            KnownSpeakerEmbedding { speaker_name, model, vector },
        ),
{
    if vector.len() == 0 {
        return Err(SpeakerEmbedderError::InvalidOutput(EMPTY_VECTOR_MESSAGE.to_owned()));
    }
    Ok(KnownSpeakerEmbedding { speaker_name, model, vector })
}

} // verus!
