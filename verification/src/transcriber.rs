//! What the transcription clients compute without the network: the
//! diagnostic summary of a failed request, the error chain, the data URL of
//! a known speaker's sample, and the transcript made of undiarized text.
use crate::domain::{DiarizedTranscript, RecordedAudio, TranscriptSegment};
use crate::ports::TranscriberError;
use crate::text::{concat2, concat3, trim, trim_spec};
use vstd::prelude::*;

verus! {

/// The transcription endpoint.
pub const TRANSCRIPTIONS_ENDPOINT: &'static str = "https://api.openai.com/v1/audio/transcriptions";

/// What went wrong with a request, as the HTTP client classified it.
#[derive(Debug, Clone, PartialEq, Eq)]
pub struct RequestErrorDetails {
    pub is_builder: bool,
    pub is_connect: bool,
    pub is_request: bool,
    pub is_body: bool,
    pub is_decode: bool,
    pub is_redirect: bool,
    pub is_status: bool,
    pub is_timeout: bool,
    pub url: Option<String>,
    pub source_chain: String,
}

/// `true` or `false`.
pub open spec fn bool_text(b: bool) -> Seq<char> {
    if b {
        "true"@
    } else {
        "false"@
    }
}

fn bool_str(b: bool) -> (r: &'static str)
    ensures
        r@ == bool_text(b),
{
    if b {
        "true"
    } else {
        "false"
    }
}

impl RequestErrorDetails {
    /// The one-line summary written to the debug log.
    pub open spec fn spec_summary(self) -> Seq<char> {
        "kind={builder:"@ + bool_text(self.is_builder) + " connect:"@ + bool_text(self.is_connect)
            + " request:"@ + bool_text(self.is_request) + " body:"@ + bool_text(self.is_body)
            + " decode:"@ + bool_text(self.is_decode) + " redirect:"@ + bool_text(self.is_redirect)
            + " status:"@ + bool_text(self.is_status) + " timeout:"@ + bool_text(self.is_timeout)
            + "} url="@ + match self.url {
            Some(u) => u@,
            None => "<unknown>"@,
        } + " source_chain="@ + self.source_chain@
    }

    /// The flags, the URL (or `<unknown>`) and the source chain on one line.
    pub fn summary(&self) -> (r: String)
        ensures
            r@ == self.spec_summary(),
    {
        let mut s = concat2("kind={builder:", bool_str(self.is_builder));
        s = concat3(s.as_str(), " connect:", bool_str(self.is_connect));
        s = concat3(s.as_str(), " request:", bool_str(self.is_request));
        s = concat3(s.as_str(), " body:", bool_str(self.is_body));
        s = concat3(s.as_str(), " decode:", bool_str(self.is_decode));
        s = concat3(s.as_str(), " redirect:", bool_str(self.is_redirect));
        s = concat3(s.as_str(), " status:", bool_str(self.is_status));
        s = concat3(s.as_str(), " timeout:", bool_str(self.is_timeout));
        let url: &str = match &self.url {
            Some(u) => u.as_str(),
            None => "<unknown>",
        };
        s = concat3(s.as_str(), "} url=", url);
        s = concat3(s.as_str(), " source_chain=", self.source_chain.as_str());
        assert(s@ =~= self.spec_summary());
        s
    }
}

/// The messages joined with ` -> `, outermost first.
pub open spec fn joined_chain(messages: Seq<String>) -> Seq<char>
    decreases messages.len(),
{
    if messages.len() == 0 {
        Seq::empty()
    } else if messages.len() == 1 {
        messages[0]@
    } else {
        joined_chain(messages.drop_last()) + " -> "@ + messages.last()@
    }
}

/// Joins an error's message and those of its sources, in order.
pub fn format_error_chain(messages: &[String]) -> (r: String)
    ensures
        r@ == joined_chain(messages@),
{
    let mut out = String::new();
    let mut i: usize = 0;
    while i < messages.len()
        invariant
            i <= messages@.len(),
            out@ == joined_chain(messages@.take(i as int)),
        decreases messages.len() - i,
    {
        if i == 0 {
            out = concat2("", messages[i].as_str());
            proof {
                reveal_strlit("");
                assert(messages@.take(1) =~= seq![messages@[0]]);
                assert(out@ =~= messages@[0]@);
            }
        } else {
            out = concat3(out.as_str(), " -> ", messages[i].as_str());
            proof {
                assert(messages@.take(i as int + 1).drop_last() =~= messages@.take(i as int));
            }
        }
        i = i + 1;
    }
    proof {
        assert(messages@.take(messages@.len() as int) =~= messages@);
    }
    out
}

/// The base64 alphabet of RFC 4648.
pub open spec fn base64_char(v: int) -> char {
    if v < 26 {
        (65 + v) as char
    } else if v < 52 {
        (97 + v - 26) as char
    } else if v < 62 {
        (48 + v - 52) as char
    } else if v == 62 {
        '+'
    } else {
        '/'
    }
}

/// Standard base64 with padding: each three bytes become four characters,
/// and a last group of one or two bytes is padded with `=`.
pub open spec fn base64_standard(b: Seq<u8>) -> Seq<char>
    decreases b.len(),
{
    if b.len() == 0 {
        Seq::empty()
    } else if b.len() == 1 {
        seq![base64_char(b[0] as int / 4), base64_char((b[0] % 4) * 16), '=', '=']
    } else if b.len() == 2 {
        seq![
            base64_char(b[0] as int / 4),
            base64_char((b[0] % 4) * 16 + b[1] / 16),
            base64_char((b[1] % 16) * 4),
            '=',
        ]
    } else {
        seq![
            base64_char(b[0] as int / 4),
            base64_char((b[0] % 4) * 16 + b[1] / 16),
            base64_char((b[1] % 16) * 4 + b[2] / 64),
            base64_char(b[2] as int % 64),
        ] + base64_standard(b.skip(3))
    }
}

/// Encodes bytes with the base64 crate's standard engine
/// (`general_purpose::STANDARD.encode`).
///
/// Claimed: the result is the padded standard base64 of the input, as the
/// crate's documentation of the standard engine describes. The crate
/// panics when the encoded length would not fit in `usize`, which the
/// precondition rules out.
#[verifier::external_body]
pub(crate) fn base64_encode(bytes: &[u8]) -> (r: String)
    requires
        bytes@.len() / 3 * 4 + 4 <= usize::MAX,
    ensures
        r@ == base64_standard(bytes@),
{
    base64::Engine::encode(&base64::engine::general_purpose::STANDARD, bytes)
}

/// The `data:` URL of a recorded sample: its content type and its bytes in
/// base64.
pub fn audio_data_url(audio: &RecordedAudio) -> (r: String)
    requires
        audio.wav_bytes@.len() / 3 * 4 + 4 <= usize::MAX,
    ensures
        r@ == "data:"@ + audio.content_type@ + ";base64,"@ + base64_standard(audio.wav_bytes@),
{
    let encoded = base64_encode(audio.wav_bytes.as_slice());
    let head = concat3("data:", audio.content_type, ";base64,");
    let r = concat2(head.as_str(), encoded.as_str());
    assert(r@ =~= "data:"@ + audio.content_type@ + ";base64,"@ + base64_standard(audio.wav_bytes@));
    r
}

/// The language shown in debug logs: the code, or `<auto>`.
pub fn language_debug_label(language: Option<&str>) -> (r: &str)
    ensures
        match language {
            Some(l) => r@ == l@,
            None => r@ == "<auto>"@,
        },
{
    match language {
        Some(l) => l,
        None => "<auto>",
    }
}

/// The model asked where a source has a single known speaker.
pub const SIMPLE_TRANSCRIPTION_MODEL: &'static str = "gpt-4o-transcribe";

/// The speaker given to undiarized text.
pub const UNLABELED_SPEAKER: &'static str = "UNLABELED";

/// The frame count and sample rate that hound reads from a WAV file
/// (`WavReader::new` over the bytes, then `duration()` and
/// `spec().sample_rate`), or `None` where hound refuses the bytes.
pub uninterp spec fn hound_wav_length(bytes: Seq<u8>) -> Option<(u32, u32)>;

/// Reads a WAV file's frame count and sample rate with hound.
///
/// Claimed: hound reads the pair named by `hound_wav_length` from exactly
/// these bytes, and fails exactly where that name is `None`. The error is
/// hound's message, whose text is not stated.
#[verifier::external_body]
fn hound_read_wav_length(bytes: &[u8]) -> (r: Result<(u32, u32), String>)
    ensures
        r is Ok <==> hound_wav_length(bytes@) is Some,
        r matches Ok(p) ==> hound_wav_length(bytes@) == Some(p),
{
    let reader = hound::WavReader::new(std::io::Cursor::new(bytes)).map_err(|e| e.to_string())?;
    Ok((reader.duration(), reader.spec().sample_rate))
}

/// The whole milliseconds that `frames` last at `sample_rate`.
pub fn wav_duration_ms(frames: u32, sample_rate: u32) -> (r: u64)
    requires
        sample_rate > 0,
    ensures
        r == frames as nat * 1000 / sample_rate as nat,
{
    frames as u64 * 1000 / sample_rate as u64
}

/// Whether `t` is the transcript of undiarized `text` over a capture of
/// `duration_ms`: the text without surrounding whitespace, and, unless
/// that is empty, one unlabeled segment spanning the whole capture.
pub open spec fn is_simple_transcript(t: DiarizedTranscript, text: Seq<char>, duration_ms: u64) -> bool {
    &&& t.text@ == trim_spec(text)
    &&& trim_spec(text).len() == 0 ==> t.segments@.len() == 0
    &&& trim_spec(text).len() > 0 ==> {
        &&& t.segments@.len() == 1
        &&& t.segments@[0].speaker@ == UNLABELED_SPEAKER@
        &&& t.segments@[0].start_ms == 0
        &&& t.segments@[0].end_ms == duration_ms
        &&& t.segments@[0].text@ == trim_spec(text)
    }
}

/// The transcript of undiarized `text` over a capture that lasts
/// `frames` at `sample_rate`.
pub fn simple_transcript(text: &str, frames: u32, sample_rate: u32) -> (r: DiarizedTranscript)
    requires
        sample_rate > 0,
    ensures
        is_simple_transcript(r, text@, (frames as nat * 1000 / sample_rate as nat) as u64),
{
    let trimmed = trim(text);
    if trimmed.unicode_len() == 0 {
        return DiarizedTranscript { text: trimmed, segments: Vec::new() };
    }
    let end_ms = wav_duration_ms(frames, sample_rate);
    let segment = TranscriptSegment {
        speaker: UNLABELED_SPEAKER.to_owned(),
        start_ms: 0,
        end_ms,
        text: trim(text),
    };
    let mut segments: Vec<TranscriptSegment> = Vec::new();
    segments.push(segment);
    DiarizedTranscript { text: trimmed, segments }
}

/// The transcript for the service's undiarized reply `text` about `audio`.
///
/// Blank text gives an empty transcript without reading the audio.
/// Otherwise the segment spans the WAV's length as hound reads it; audio
/// that hound refuses is a request error whose message begins
/// `failed to read wav: `, and a header whose sample rate is zero, which
/// gives no length, is answered `Ok(None)`.
pub fn simple_transcript_for_audio(text: &str, audio: &RecordedAudio) -> (r: Result<
    Option<DiarizedTranscript>,
    TranscriberError,
>)
    ensures
        trim_spec(text@).len() == 0 ==> (r matches Ok(Some(t)) && is_simple_transcript(t, text@, 0)),
        trim_spec(text@).len() > 0 ==> match hound_wav_length(audio.wav_bytes@) {
            None => (r matches Err(TranscriberError::SendRequest(m)) && "failed to read wav: "@.is_prefix_of(m@)),
            Some((frames, rate)) => if rate == 0 {
                r == Ok::<Option<DiarizedTranscript>, TranscriberError>(None)
            } else {
                (r matches Ok(Some(t)) && is_simple_transcript(
                    t,
                    text@,
                    (frames as nat * 1000 / rate as nat) as u64,
                ))
            },
        },
{
    let trimmed = trim(text);
    if trimmed.unicode_len() == 0 {
        return Ok(Some(DiarizedTranscript { text: trimmed, segments: Vec::new() }));
    }
    match hound_read_wav_length(audio.wav_bytes.as_slice()) {
        Err(message) => {
            let m = concat2("failed to read wav: ", message.as_str());
            assert("failed to read wav: "@.is_prefix_of(m@)) by {
                assert(m@.subrange(0, "failed to read wav: "@.len() as int) =~= "failed to read wav: "@);
            }
            Err(TranscriberError::SendRequest(m))
        },
        Ok((frames, sample_rate)) => {
            if sample_rate == 0 {
                Ok(None)
            } else {
                Ok(Some(simple_transcript(text, frames, sample_rate)))
            }
        },
    }
}

} // verus!
