//! The closed set of failures a transcription request can end in, and the
//! human-readable text shown for each.
use vstd::prelude::*;
use crate::wav::EncodeError;

verus! {

/// Every way a transcription request can fail.
#[derive(Debug, Clone, PartialEq, Eq)]
pub enum TranscriptionError {
    /// The audio could not be encoded; fatal and local.
    Encode(EncodeError),
    /// The API key cannot be carried in an HTTP header value.
    InvalidHeader,
    /// The HTTP client or the request body could not be built.
    Client { detail: String },
    /// The request exceeded its time budget.
    Timeout,
    /// No connection could be made to the named provider.
    Connectivity { provider: String },
    /// Any other transport failure, with its description.
    Request { detail: String },
    /// The provider rejected the credentials (HTTP 401).
    InvalidCredential { provider: String },
    /// The provider throttled the request (HTTP 429).
    RateLimited { provider: String },
    /// The audio is too large for the provider (HTTP 413).
    PayloadTooLarge,
    /// Any other non-success status, with the body the provider sent.
    Api { status: u16, body: String },
    /// A success status whose body holds no string `text` field.
    ResponseParse,
}

/// Decimal digit `d` as a character.
pub open spec fn digit_char(d: nat) -> char {
    ((48 + d) as u8) as char
}

/// Decimal notation of `n`, without leading zeros.
pub open spec fn decimal(n: nat) -> Seq<char>
    decreases n,
{
    if n < 10 {
        seq![digit_char(n)]
    } else {
        decimal(n / 10).push(digit_char(n % 10))
    }
}

/// The text shown to a user for `e`.
pub open spec fn message_text(e: TranscriptionError) -> Seq<char> {
    match e {
        TranscriptionError::Encode(EncodeError::TooLong) => "Failed to encode WAV: too many samples"@,
        TranscriptionError::Encode(EncodeError::Writer(m)) => "Failed to encode WAV: "@ + m@,
        TranscriptionError::InvalidHeader => "Invalid authorization header value"@,
        TranscriptionError::Client { detail } => "Failed to build HTTP request: "@ + detail@,
        TranscriptionError::Timeout => "STT request timed out. Try a shorter recording."@,
        TranscriptionError::Connectivity { provider } => "Could not connect to STT provider ("@
            + provider@ + "). Check your internet connection."@,
        TranscriptionError::Request { detail } => "STT request failed: "@ + detail@,
        TranscriptionError::InvalidCredential { provider } => "Invalid API key for "@ + provider@
            + "."@,
        TranscriptionError::RateLimited { provider } => "Rate limited by "@ + provider@
            + ". Please wait and try again."@,
        TranscriptionError::PayloadTooLarge => "Audio too long for API. Try a shorter recording."@,
        TranscriptionError::Api { status, body } => "STT API error ("@ + decimal(status as nat)
            + "): "@ + body@,
        TranscriptionError::ResponseParse => "Failed to parse STT response: no string \"text\" field"@,
    }
}

fn digit_str(d: u16) -> (r: &'static str)
    requires
        d < 10,
    ensures
        r@ == seq![digit_char(d as nat)],
{
    proof {
        reveal_strlit("0");
        reveal_strlit("1");
        reveal_strlit("2");
        reveal_strlit("3");
        reveal_strlit("4");
        reveal_strlit("5");
        reveal_strlit("6");
        reveal_strlit("7");
        reveal_strlit("8");
        reveal_strlit("9");
    }
    let r = if d == 0 {
        "0"
    } else if d == 1 {
        "1"
    } else if d == 2 {
        "2"
    } else if d == 3 {
        "3"
    } else if d == 4 {
        "4"
    } else if d == 5 {
        "5"
    } else if d == 6 {
        "6"
    } else if d == 7 {
        "7"
    } else if d == 8 {
        "8"
    } else {
        "9"
    };
    assert(r@ =~= seq![digit_char(d as nat)]);
    r
}

/// Appends the decimal notation of `n` to `s`.
fn append_decimal(s: &mut String, n: u16)
    ensures
        final(s)@ == old(s)@ + decimal(n as nat),
    decreases n,
{
    if n >= 10 {
        append_decimal(s, n / 10);
    }
    s.append(digit_str(n % 10));
    assert(old(s)@ + decimal(n as nat) =~= final(s)@) by {
        if n >= 10 {
            assert(decimal(n as nat) == decimal((n / 10) as nat).push(digit_char((n % 10) as nat)));
        }
    }
}

fn joined(a: &str, b: &str, c: &str) -> (r: String)
    ensures
        r@ == a@ + b@ + c@,
{
    let mut r = String::from_str(a);
    r.append(b);
    r.append(c);
    r
}

impl TranscriptionError {
    /// The human-readable description of this failure.
    pub fn message(&self) -> (r: String)
        ensures
            r@ == message_text(*self),
    {
        proof {
            reveal_strlit("");
        }
        match self {
            TranscriptionError::Encode(e) => match e {
                EncodeError::TooLong => String::from_str("Failed to encode WAV: too many samples"),
                EncodeError::Writer(m) => joined("Failed to encode WAV: ", m.as_str(), ""),
            },
            TranscriptionError::InvalidHeader => String::from_str("Invalid authorization header value"),
            TranscriptionError::Client { detail } => joined(
                "Failed to build HTTP request: ",
                detail.as_str(),
                "",
            ),
            TranscriptionError::Timeout => String::from_str(
                "STT request timed out. Try a shorter recording.",
            ),
            TranscriptionError::Connectivity { provider } => joined(
                "Could not connect to STT provider (",
                provider.as_str(),
                "). Check your internet connection.",
            ),
            TranscriptionError::Request { detail } => joined(
                "STT request failed: ",
                detail.as_str(),
                "",
            ),
            TranscriptionError::InvalidCredential { provider } => joined(
                "Invalid API key for ",
                provider.as_str(),
                ".",
            ),
            TranscriptionError::RateLimited { provider } => joined(
                "Rate limited by ",
                provider.as_str(),
                ". Please wait and try again.",
            ),
            TranscriptionError::PayloadTooLarge => String::from_str(
                "Audio too long for API. Try a shorter recording.",
            ),
            TranscriptionError::Api { status, body } => {
                let mut r = String::from_str("STT API error (");
                append_decimal(&mut r, *status);
                r.append("): ");
                r.append(body.as_str());
                r
            },
            TranscriptionError::ResponseParse => String::from_str(
                "Failed to parse STT response: no string \"text\" field",
            ),
        }
    }
}

} // verus!
