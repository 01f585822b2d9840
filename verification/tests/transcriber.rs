use diarize_log::capture::{transcription_failure, CaptureTranscriptionFailure};
use diarize_log::domain::{CaptureRange, RecordedAudio};
use diarize_log::ports::TranscriberError;
use diarize_log::transcriber::{
    audio_data_url, format_error_chain, language_debug_label, RequestErrorDetails,
    TRANSCRIPTIONS_ENDPOINT,
};
use std::error::Error;
use std::fmt;

#[test]
fn summarizes_request_error_details_for_debug_logging() {
    let details = RequestErrorDetails {
        is_builder: false,
        is_connect: true,
        is_request: true,
        is_body: false,
        is_decode: false,
        is_redirect: false,
        is_status: false,
        is_timeout: true,
        url: Some(TRANSCRIPTIONS_ENDPOINT.to_string()),
        source_chain: "operation timed out -> dns failed".to_string(),
    };

    assert_eq!(
        details.summary(),
        "kind={builder:false connect:true request:true body:false decode:false redirect:false status:false timeout:true} url=https://api.openai.com/v1/audio/transcriptions source_chain=operation timed out -> dns failed"
    );
}

#[test]
fn summarizes_unknown_url() {
    let details = RequestErrorDetails {
        is_builder: true,
        is_connect: false,
        is_request: false,
        is_body: false,
        is_decode: false,
        is_redirect: false,
        is_status: false,
        is_timeout: false,
        url: None,
        source_chain: "bad".to_string(),
    };
    assert_eq!(
        details.summary(),
        "kind={builder:true connect:false request:false body:false decode:false redirect:false status:false timeout:false} url=<unknown> source_chain=bad"
    );
}

#[derive(Debug)]
struct TestError {
    message: &'static str,
    source: Option<Box<TestError>>,
}

impl TestError {
    fn new(message: &'static str) -> Self {
        Self { message, source: None }
    }

    fn with_source(message: &'static str, source: TestError) -> Self {
        Self { message, source: Some(Box::new(source)) }
    }
}

impl fmt::Display for TestError {
    fn fmt(&self, f: &mut fmt::Formatter<'_>) -> fmt::Result {
        f.write_str(self.message)
    }
}

impl Error for TestError {
    fn source(&self) -> Option<&(dyn Error + 'static)> {
        self.source.as_deref().map(|source| source as &(dyn Error + 'static))
    }
}

fn chain_messages(error: &(dyn Error + 'static)) -> Vec<String> {
    let mut source = Some(error);
    let mut messages = Vec::new();
    while let Some(current) = source {
        messages.push(current.to_string());
        source = current.source();
    }
    messages
}

#[test]
fn formats_error_source_chain_in_order() {
    let error = TestError::with_source(
        "outer failure",
        TestError::with_source("middle failure", TestError::new("inner failure")),
    );

    assert_eq!(
        format_error_chain(&chain_messages(&error)),
        "outer failure -> middle failure -> inner failure"
    );
}

#[test]
fn formats_a_single_error_without_arrows() {
    assert_eq!(format_error_chain(&["only".to_string()]), "only");
    assert_eq!(format_error_chain(&[]), "");
}

#[test]
fn encodes_known_speaker_reference_as_data_url() {
    let audio = RecordedAudio { wav_bytes: vec![0x52, 0x49, 0x46, 0x46], content_type: "audio/wav" };

    assert_eq!(audio_data_url(&audio), "data:audio/wav;base64,UklGRg==");
}

#[test]
fn encodes_full_base64_groups_without_padding() {
    let audio = RecordedAudio { wav_bytes: b"Man".to_vec(), content_type: "audio/wav" };
    assert_eq!(audio_data_url(&audio), "data:audio/wav;base64,TWFu");
    let audio = RecordedAudio { wav_bytes: b"Ma".to_vec(), content_type: "x" };
    assert_eq!(audio_data_url(&audio), "data:x;base64,TWE=");
}

#[test]
fn labels_auto_language_for_debug_logs() {
    assert_eq!(language_debug_label(None), "<auto>");
    assert_eq!(language_debug_label(Some("ja")), "ja");
}

#[test]
fn describes_each_transcription_failure() {
    let range = CaptureRange { capture_index: 3, start_offset_ms: 20_000, duration_ms: 10_000 };
    assert_eq!(
        transcription_failure(&range, &TranscriberError::SendRequest("timeout".to_string())),
        CaptureTranscriptionFailure {
            capture_index: 3,
            capture_start_ms: 20_000,
            message: "failed to send transcription request: timeout".to_string(),
        }
    );
    assert_eq!(
        TranscriberError::ApiError { status_code: 429, body: "slow down".to_string() }.message(),
        "transcription api returned status 429: slow down"
    );
}
