use speaky_stt::error::TranscriptionError;
use speaky_stt::response::{
    classify_status, classify_transport_failure, finish_transcription, parse_transcript,
    transcript_from_field, HttpOutcome,
};
use speaky_stt::wav::EncodeError;

#[test]
fn timeout_is_its_own_category() {
    let e = classify_transport_failure("OpenAI", true, true, "timed out".to_string());
    assert_eq!(e, TranscriptionError::Timeout);
    assert_eq!(e.message(), "STT request timed out. Try a shorter recording.");
    assert!(e.message().contains("shorter recording"));
}

#[test]
fn connect_failure_names_provider() {
    let e = classify_transport_failure("OpenAI", false, true, "refused".to_string());
    assert_eq!(e, TranscriptionError::Connectivity { provider: "OpenAI".to_string() });
    assert_eq!(
        e.message(),
        "Could not connect to STT provider (OpenAI). Check your internet connection."
    );
}

#[test]
fn other_transport_failure_keeps_detail() {
    let e = classify_transport_failure("OpenAI", false, false, "broken pipe".to_string());
    assert_eq!(e, TranscriptionError::Request { detail: "broken pipe".to_string() });
    assert_eq!(e.message(), "STT request failed: broken pipe");
}

#[test]
fn status_401_is_invalid_credential() {
    let e = classify_status("Groq", 401, Some("nope".to_string())).unwrap();
    assert_eq!(e, TranscriptionError::InvalidCredential { provider: "Groq".to_string() });
    assert_eq!(e.message(), "Invalid API key for Groq.");
}

#[test]
fn status_429_is_rate_limited() {
    let e = classify_status("Groq", 429, None).unwrap();
    assert_eq!(e, TranscriptionError::RateLimited { provider: "Groq".to_string() });
    assert_eq!(e.message(), "Rate limited by Groq. Please wait and try again.");
}

#[test]
fn status_413_is_payload_too_large() {
    let e = classify_status("Groq", 413, Some("big".to_string())).unwrap();
    assert_eq!(e, TranscriptionError::PayloadTooLarge);
    assert!(e.message().contains("shorter recording"));
}

#[test]
fn status_500_is_generic_api_error() {
    let e = classify_status("Groq", 500, Some("internal failure".to_string())).unwrap();
    assert_eq!(e, TranscriptionError::Api { status: 500, body: "internal failure".to_string() });
    assert_eq!(e.message(), "STT API error (500): internal failure");
}

#[test]
fn unreadable_error_body_gets_placeholder() {
    let e = classify_status("Groq", 503, None).unwrap();
    assert_eq!(e, TranscriptionError::Api { status: 503, body: "Unknown error".to_string() });
    assert_eq!(
        classify_status("Groq", 7, None).unwrap().message(),
        "STT API error (7): Unknown error"
    );
}

#[test]
fn success_statuses_are_not_errors() {
    assert_eq!(classify_status("Groq", 200, None), None);
    assert_eq!(classify_status("Groq", 299, None), None);
    assert!(classify_status("Groq", 199, None).is_some());
    assert!(classify_status("Groq", 300, None).is_some());
}

#[test]
fn text_field_is_the_transcript() {
    assert_eq!(parse_transcript("{\"text\":\"hello world\"}"), Ok("hello world".to_string()));
    assert_eq!(
        parse_transcript("{\"text\": \"bonjour\", \"duration\": 1.5}"),
        Ok("bonjour".to_string())
    );
}

#[test]
fn missing_text_field_is_parse_error() {
    assert_eq!(parse_transcript("{\"transcript\":\"hello\"}"), Err(TranscriptionError::ResponseParse));
    assert_eq!(parse_transcript("{\"text\":5}"), Err(TranscriptionError::ResponseParse));
    assert_eq!(parse_transcript("not json"), Err(TranscriptionError::ResponseParse));
    assert_eq!(parse_transcript(""), Err(TranscriptionError::ResponseParse));
}

#[test]
fn transcript_from_field_is_exact() {
    assert_eq!(transcript_from_field(Some("abc".to_string())), Ok("abc".to_string()));
    assert_eq!(transcript_from_field(None), Err(TranscriptionError::ResponseParse));
}

#[test]
fn finish_routes_each_outcome() {
    let ok = HttpOutcome::Response { status: 200, body: Some("{\"text\":\"hello world\"}".to_string()) };
    assert_eq!(finish_transcription("P", ok), Ok("hello world".to_string()));
    let missing = HttpOutcome::Response { status: 200, body: Some("{}".to_string()) };
    assert_eq!(finish_transcription("P", missing), Err(TranscriptionError::ResponseParse));
    let unreadable = HttpOutcome::Response { status: 201, body: None };
    assert_eq!(finish_transcription("P", unreadable), Err(TranscriptionError::ResponseParse));
    let denied = HttpOutcome::Response { status: 401, body: None };
    assert_eq!(
        finish_transcription("P", denied),
        Err(TranscriptionError::InvalidCredential { provider: "P".to_string() })
    );
    let slow = HttpOutcome::Transport { is_timeout: true, is_connect: false, detail: String::new() };
    assert_eq!(finish_transcription("P", slow), Err(TranscriptionError::Timeout));
}

#[test]
fn remaining_messages() {
    assert_eq!(
        TranscriptionError::Encode(EncodeError::Writer("disk".to_string())).message(),
        "Failed to encode WAV: disk"
    );
    assert_eq!(
        TranscriptionError::Encode(EncodeError::TooLong).message(),
        "Failed to encode WAV: too many samples"
    );
    assert_eq!(TranscriptionError::InvalidHeader.message(), "Invalid authorization header value");
    assert_eq!(
        TranscriptionError::Client { detail: "tls".to_string() }.message(),
        "Failed to build HTTP request: tls"
    );
    assert_eq!(
        TranscriptionError::Api { status: 65535, body: String::new() }.message(),
        "STT API error (65535): "
    );
}
