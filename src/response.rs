//! Classification of what came back from the provider: a transcript, or one
//! of the failures of `TranscriptionError`.
use vstd::prelude::*;
use crate::error::TranscriptionError;

verus! {

/// The string value of the top-level `text` field of `body` read as JSON,
/// if `body` is a JSON object with such a field.
pub uninterp spec fn json_text_field(body: Seq<char>) -> Option<Seq<char>>;

/// Relies on `serde_json::from_str` into a `serde_json::Value`, then
/// `Value::get("text")` and `Value::as_str`: the result depends on the body
/// alone.
#[verifier::external_body]
fn text_field_of_json(body: &str) -> (r: Option<String>)
    ensures
        r is Some <==> json_text_field(body@) is Some,
        r matches Some(t) ==> json_text_field(body@) == Some(t@),
{
    match serde_json::from_str::<serde_json::Value>(body) {
        Ok(v) => v.get("text").and_then(serde_json::Value::as_str).map(String::from),
        Err(_) => None,
    }
}

/// How one request ended, as the transport reported it.
#[derive(Debug, Clone, PartialEq, Eq)]
pub enum HttpOutcome {
    /// No response arrived: the request timed out, could not connect, or
    /// failed otherwise (with a description).
    Transport { is_timeout: bool, is_connect: bool, detail: String },
    /// A response arrived with this status and body; `None` where the body
    /// could not be read.
    Response { status: u16, body: Option<String> },
}

/// Whether `status` is a success status (2xx).
pub open spec fn is_success(status: u16) -> bool {
    200 <= status <= 299
}

/// The diagnostic text of a failed response: its body, or a placeholder
/// where the body could not be read.
pub open spec fn diagnostic_text(body: Option<String>) -> Seq<char> {
    match body {
        Some(b) => b@,
        None => "Unknown error"@,
    }
}

/// Whether `e` is the error for a transport failure: a timeout first, then a
/// connection failure naming the provider, else a generic request failure.
pub open spec fn transport_error_is(
    e: TranscriptionError,
    label: Seq<char>,
    is_timeout: bool,
    is_connect: bool,
    detail: Seq<char>,
) -> bool {
    if is_timeout {
        e == TranscriptionError::Timeout
    } else if is_connect {
        e matches TranscriptionError::Connectivity { provider } && provider@ == label
    } else {
        e matches TranscriptionError::Request { detail: d } && d@ == detail
    }
}

/// Whether `e` is the error for a non-success `status` from the provider
/// named `label`, whose body is `body`.
pub open spec fn status_error_is(
    e: TranscriptionError,
    label: Seq<char>,
    status: u16,
    body: Option<String>,
) -> bool {
    if status == 401 {
        e matches TranscriptionError::InvalidCredential { provider } && provider@ == label
    } else if status == 429 {
        e matches TranscriptionError::RateLimited { provider } && provider@ == label
    } else if status == 413 {
        e == TranscriptionError::PayloadTooLarge
    } else {
        e matches TranscriptionError::Api { status: s, body: b } && s == status && b@
            == diagnostic_text(body)
    }
}

/// The error for a failed transport: timeout and connection failures are
/// told apart before the generic case.
pub fn classify_transport_failure(
    label: &str,
    is_timeout: bool,
    is_connect: bool,
    detail: String,
) -> (r: TranscriptionError)
    ensures
        transport_error_is(r, label@, is_timeout, is_connect, detail@),
{
    if is_timeout {
        TranscriptionError::Timeout
    } else if is_connect {
        TranscriptionError::Connectivity { provider: String::from_str(label) }
    } else {
        TranscriptionError::Request { detail }
    }
}

/// The error for an HTTP status, or `None` for a success status.
pub fn classify_status(label: &str, status: u16, body: Option<String>) -> (r: Option<
    TranscriptionError,
>)
    ensures
        r is None <==> is_success(status),
        r matches Some(e) ==> status_error_is(e, label@, status, body),
{
    if 200 <= status && status <= 299 {
        None
    } else if status == 401 {
        Some(TranscriptionError::InvalidCredential { provider: String::from_str(label) })
    } else if status == 429 {
        Some(TranscriptionError::RateLimited { provider: String::from_str(label) })
    } else if status == 413 {
        Some(TranscriptionError::PayloadTooLarge)
    } else {
        let text = match body {
            Some(b) => b,
            None => String::from_str("Unknown error"),
        };
        Some(TranscriptionError::Api { status, body: text })
    }
}

/// The transcript carried by a success response, given its `text` field.
pub fn transcript_from_field(field: Option<String>) -> (r: Result<String, TranscriptionError>)
    ensures
        field matches Some(t) ==> r == Ok::<String, TranscriptionError>(t),
        field is None ==> r == Err::<String, TranscriptionError>(TranscriptionError::ResponseParse),
{
    match field {
        Some(t) => Ok(t),
        None => Err(TranscriptionError::ResponseParse),
    }
}

/// The transcript in a success response body: the string `text` field of a
/// JSON object, or `ResponseParse` where there is none.
pub fn parse_transcript(body: &str) -> (r: Result<String, TranscriptionError>)
    ensures
        json_text_field(body@) matches Some(t) ==> r matches Ok(s) && s@ == t,
        json_text_field(body@) is None ==> r == Err::<String, TranscriptionError>(
            TranscriptionError::ResponseParse,
        ),
{
    transcript_from_field(text_field_of_json(body))
}

/// The outcome of one request, from how it ended: a transport failure or a
/// non-success status is classified, and a success body is parsed.
pub fn finish_transcription(label: &str, outcome: HttpOutcome) -> (r: Result<
    String,
    TranscriptionError,
>)
    ensures
        match outcome {
            HttpOutcome::Transport { is_timeout, is_connect, detail } => r matches Err(e)
                && transport_error_is(e, label@, is_timeout, is_connect, detail@),
            HttpOutcome::Response { status, body } => if !is_success(status) {
                r matches Err(e) && status_error_is(e, label@, status, body)
            } else {
                match body {
                    Some(b) => match json_text_field(b@) {
                        Some(t) => r matches Ok(s) && s@ == t,
                        None => r == Err::<String, TranscriptionError>(
                            TranscriptionError::ResponseParse,
                        ),
                    },
                    None => r == Err::<String, TranscriptionError>(
                        TranscriptionError::ResponseParse,
                    ),
                }
            },
        },
{
    match outcome {
        HttpOutcome::Transport { is_timeout, is_connect, detail } => Err(
            classify_transport_failure(label, is_timeout, is_connect, detail),
        ),
        HttpOutcome::Response { status, body } => {
            if 200 <= status && status <= 299 {
                match body {
                    Some(b) => parse_transcript(b.as_str()),
                    None => Err(TranscriptionError::ResponseParse),
                }
            } else {
                match classify_status(label, status, body) {
                    Some(e) => Err(e),
                    None => Err(TranscriptionError::ResponseParse),
                }
            }
        },
    }
}

} // verus!
