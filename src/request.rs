//! Construction of the multipart transcription request: endpoint URL,
//! headers, text parts and the encoded audio file part.
use vstd::prelude::*;
use crate::error::TranscriptionError;
use crate::wav::{encode_wav_in_memory, encoded, EncodeError, MAX_SAMPLES};

verus! {

/// A remote speech-to-text provider: where to send requests, and the name
/// shown to users in error messages.
#[derive(Debug, Clone, PartialEq, Eq)]
pub struct SttProvider {
    pub base_url: String,
    pub label: String,
}

/// Path appended to a provider's base URL.
pub const TRANSCRIPTIONS_PATH: &'static str = "/audio/transcriptions";

/// Value of the product-identifying `User-Agent` header.
pub const USER_AGENT: &'static str = "Speaky/1.0";

/// Name of the file part that carries the audio.
pub const AUDIO_FILE_NAME: &'static str = "audio.wav";

/// Position of the file part in the multipart body: after `model` and
/// `response_format`, before any `language` part.
pub const AUDIO_PART_POSITION: usize = 2;

/// MIME type of the file part that carries the audio.
pub const AUDIO_MIME_TYPE: &'static str = "audio/wav";

/// End-to-end time budget of one request, in seconds.
pub const REQUEST_TIMEOUT_SECS: u64 = 60;

/// `s` without any trailing `/` characters.
pub open spec fn trim_trailing_slashes(s: Seq<char>) -> Seq<char>
    decreases s.len(),
{
    if s.len() > 0 && s.last() == '/' {
        trim_trailing_slashes(s.drop_last())
    } else {
        s
    }
}

/// The endpoint for a provider whose base URL is `base`.
pub open spec fn url_for(base: Seq<char>) -> Seq<char> {
    trim_trailing_slashes(base) + TRANSCRIPTIONS_PATH@
}

/// Whether http accepts `c` in a header value: a visible ASCII character, a
/// space, a tab, or any non-ASCII character (whose UTF-8 bytes are all 0x80
/// or above).
pub open spec fn header_char_ok(c: char) -> bool {
    (c as u32 >= 32 && c as u32 != 127) || c == '\t'
}

/// Whether every character of `s` may stand in a header value.
pub open spec fn header_text_ok(s: Seq<char>) -> bool {
    forall|i: int| 0 <= i < s.len() ==> header_char_ok(#[trigger] s[i])
}

/// The `Authorization` header value for an API key: none for an empty key,
/// `Bearer <key>` otherwise.
pub open spec fn authorization_for(api_key: Seq<char>) -> Option<Seq<char>> {
    if api_key.len() == 0 {
        None
    } else {
        Some("Bearer "@ + api_key)
    }
}

/// Whether the headers for `api_key` can be built.
pub open spec fn headers_ok(api_key: Seq<char>) -> bool {
    authorization_for(api_key) matches Some(v) ==> header_text_ok(v)
}

/// The characters of an optional language hint.
pub open spec fn hint_view(language: Option<&str>) -> Option<Seq<char>> {
    match language {
        Some(l) => Some(l@),
        None => None,
    }
}

/// Whether a language hint asks for a `language` part: it is present, not
/// empty, and not the auto-detect sentinel `auto`.
pub open spec fn wants_language(language: Option<Seq<char>>) -> bool {
    language matches Some(l) && l.len() > 0 && l != "auto"@
}

/// The headers sent with every request.
#[derive(Debug, Clone, PartialEq, Eq)]
pub struct SttHeaders {
    pub user_agent: String,
    pub authorization: Option<String>,
}

/// One text part of the multipart body.
#[derive(Debug, Clone, PartialEq, Eq)]
pub struct FormText {
    pub name: String,
    pub value: String,
}

/// Everything needed to issue one transcription request.
#[derive(Debug, Clone, PartialEq, Eq)]
pub struct SttRequest {
    pub url: String,
    pub headers: SttHeaders,
    pub text_parts: Vec<FormText>,
    /// The number of text parts that precede the file part.
    pub file_position: usize,
    pub file_name: String,
    pub mime_type: String,
    pub audio: Vec<u8>,
    pub timeout_secs: u64,
}

/// Whether `parts` are the text parts for `model` and `language`: `model`,
/// then `response_format=json`, then `language` only where it is wanted.
pub open spec fn text_parts_for(
    parts: Seq<FormText>,
    model: Seq<char>,
    language: Option<Seq<char>>,
) -> bool {
    &&& parts.len() == if wants_language(language) { 3int } else { 2int }
    &&& parts[0].name@ == "model"@ && parts[0].value@ == model
    &&& parts[1].name@ == "response_format"@ && parts[1].value@ == "json"@
    &&& wants_language(language) ==> parts[2].name@ == "language"@ && parts[2].value@
        == language->0
}

proof fn lemma_trim_trailing_slashes(s: Seq<char>)
    ensures
        trim_trailing_slashes(s).len() <= s.len(),
        trim_trailing_slashes(s) == s.subrange(0, trim_trailing_slashes(s).len() as int),
        trim_trailing_slashes(s).len() == 0 || trim_trailing_slashes(s).last() != '/',
        forall|i: int|
            trim_trailing_slashes(s).len() <= i < s.len() ==> #[trigger] s[i] == '/',
    decreases s.len(),
{
    if s.len() > 0 && s.last() == '/' {
        lemma_trim_trailing_slashes(s.drop_last());
        let t = trim_trailing_slashes(s.drop_last());
        assert(t =~= s.subrange(0, t.len() as int));
        assert forall|i: int| t.len() <= i < s.len() implies #[trigger] s[i] == '/' by {
            if i < s.len() - 1 {
                assert(s.drop_last()[i] == s[i]);
            }
        }
    } else {
        assert(s =~= s.subrange(0, s.len() as int));
    }
}

/// The endpoint is the base URL cut just before its run of trailing `/`,
/// joined to `/audio/transcriptions`: the kept part does not end in `/`, so
/// the join never doubles the separator, and only `/` characters are cut.
pub proof fn lemma_url_single_separator(base: Seq<char>)
    ensures
        exists|k: int|
            0 <= k <= base.len() && #[trigger] url_for(base) == base.subrange(0, k)
                + TRANSCRIPTIONS_PATH@ && (k == 0 || base[k - 1] != '/') && forall|i: int|
                k <= i < base.len() ==> #[trigger] base[i] == '/',
{
    lemma_trim_trailing_slashes(base);
    let k = trim_trailing_slashes(base).len() as int;
    assert(k == 0 || base[k - 1] == trim_trailing_slashes(base).last());
    assert(url_for(base) == base.subrange(0, k) + TRANSCRIPTIONS_PATH@);
}

/// The endpoint URL: the base URL without trailing `/`, followed by
/// `/audio/transcriptions`.
pub fn request_url(base_url: &str) -> (r: String)
    ensures
        r@ == url_for(base_url@),
{
    let mut end: usize = base_url.unicode_len();
    assert(base_url@.subrange(0, end as int) =~= base_url@);
    loop
        invariant
            end <= base_url@.len(),
            trim_trailing_slashes(base_url@) == trim_trailing_slashes(
                base_url@.subrange(0, end as int),
            ),
        ensures
            end <= base_url@.len(),
            trim_trailing_slashes(base_url@) == base_url@.subrange(0, end as int),
        decreases end,
    {
        if end == 0 {
            assert(trim_trailing_slashes(base_url@.subrange(0, 0)) == base_url@.subrange(0, 0));
            break;
        }
        if base_url.get_char(end - 1) != '/' {
            assert(base_url@.subrange(0, end as int).last() == base_url@[end - 1]);
            break;
        }
        assert(base_url@.subrange(0, end as int).drop_last() =~= base_url@.subrange(
            0,
            end - 1,
        ));
        end -= 1;
    }
    let mut r = String::from_str(base_url.substring_char(0, end));
    r.append(TRANSCRIPTIONS_PATH);
    r
}

/// The `Authorization` header value for `api_key`: none when the key is
/// empty (unauthenticated providers), `Bearer <key>` otherwise.
pub fn authorization_value(api_key: &str) -> (r: Option<String>)
    ensures
        r is None <==> api_key@.len() == 0,
        r matches Some(v) ==> authorization_for(api_key@) == Some(v@),
{
    if api_key.unicode_len() == 0 {
        None
    } else {
        let mut v = String::from_str("Bearer ");
        v.append(api_key);
        Some(v)
    }
}

/// Relies on `reqwest::header::HeaderValue::from_str` (http's): it accepts a
/// string exactly when each byte is a tab, or at least 32 and not 127.
#[verifier::external_body]
fn header_value_accepts(s: &str) -> (r: bool)
    ensures
        r == header_text_ok(s@),
{
    reqwest::header::HeaderValue::from_str(s).is_ok()
}

/// The request headers: always the client's `User-Agent`, and a bearer
/// `Authorization` only for a non-empty API key. Fails only when that key
/// cannot stand in a header value.
pub fn build_stt_headers(api_key: &str) -> (r: Result<SttHeaders, TranscriptionError>)
    ensures
        r is Ok <==> headers_ok(api_key@),
        r matches Err(e) ==> e == TranscriptionError::InvalidHeader,
        r matches Ok(h) ==> h.user_agent@ == USER_AGENT@ && (h.authorization matches Some(a)
            ==> authorization_for(api_key@) == Some(a@)) && (h.authorization is None
            <==> authorization_for(api_key@) is None),
{
    let auth = authorization_value(api_key);
    match auth {
        Some(v) => {
            if !header_value_accepts(v.as_str()) {
                return Err(TranscriptionError::InvalidHeader);
            }
            Ok(SttHeaders { user_agent: String::from_str(USER_AGENT), authorization: Some(v) })
        },
        None => Ok(SttHeaders { user_agent: String::from_str(USER_AGENT), authorization: None }),
    }
}

fn is_auto(l: &str) -> (r: bool)
    ensures
        r == (l@ == "auto"@),
{
    proof {
        reveal_strlit("auto");
    }
    if l.unicode_len() != 4 {
        return false;
    }
    let r = l.get_char(0) == 'a' && l.get_char(1) == 'u' && l.get_char(2) == 't' && l.get_char(3)
        == 'o';
    assert(r ==> l@ =~= "auto"@);
    r
}

fn text_part(name: &str, value: &str) -> (r: FormText)
    ensures
        r.name@ == name@,
        r.value@ == value@,
{
    FormText { name: String::from_str(name), value: String::from_str(value) }
}

/// The text parts of the multipart body: the model, the JSON response
/// format, and a language hint unless it is absent, empty or `auto`.
pub fn form_text_parts(model: &str, language: Option<&str>) -> (r: Vec<FormText>)
    ensures
        text_parts_for(r@, model@, hint_view(language)),
{
    let mut parts: Vec<FormText> = Vec::new();
    parts.push(text_part("model", model));
    parts.push(text_part("response_format", "json"));
    match language {
        Some(l) => {
            if l.unicode_len() > 0 && !is_auto(l) {
                parts.push(text_part("language", l));
            }
        },
        None => {},
    }
    parts
}

/// Prepares one transcription request: encodes the audio, then derives the
/// URL, the text parts and the headers. Fails only where there are more
/// samples than a WAV container can describe, or where the API key cannot
/// stand in a header value.
pub fn prepare_request(
    provider: &SttProvider,
    api_key: &str,
    model: &str,
    samples: &Vec<i32>,
    language: Option<&str>,
) -> (r: Result<SttRequest, TranscriptionError>)
    ensures
        samples@.len() > MAX_SAMPLES ==> r == Err::<SttRequest, TranscriptionError>(
            TranscriptionError::Encode(EncodeError::TooLong),
        ),
        samples@.len() <= MAX_SAMPLES && !headers_ok(api_key@) ==> r
            == Err::<SttRequest, TranscriptionError>(TranscriptionError::InvalidHeader),
        samples@.len() <= MAX_SAMPLES && headers_ok(api_key@) ==> r is Ok,
        r matches Err(e) ==> e is Encode || (e == TranscriptionError::InvalidHeader && !headers_ok(
            api_key@,
        )),
        r matches Ok(q) ==> {
            &&& q.url@ == url_for(provider.base_url@)
            &&& q.headers.user_agent@ == USER_AGENT@
            &&& q.headers.authorization matches Some(a) ==> authorization_for(api_key@) == Some(
                a@,
            )
            &&& q.headers.authorization is None <==> api_key@.len() == 0
            &&& text_parts_for(q.text_parts@, model@, hint_view(language))
            &&& q.file_position == AUDIO_PART_POSITION
            &&& q.file_name@ == AUDIO_FILE_NAME@
            &&& q.mime_type@ == AUDIO_MIME_TYPE@
            &&& q.audio@ == encoded(samples@)
            &&& q.timeout_secs == REQUEST_TIMEOUT_SECS
        },
{
    let audio = match encode_wav_in_memory(samples) {
        Ok(b) => b,
        Err(e) => return Err(TranscriptionError::Encode(e)),
    };
    let url = request_url(provider.base_url.as_str());
    let text_parts = form_text_parts(model, language);
    let headers = match build_stt_headers(api_key) {
        Ok(h) => h,
        Err(e) => return Err(e),
    };
    Ok(
        SttRequest {
            url,
            headers,
            text_parts,
            file_position: AUDIO_PART_POSITION,
            file_name: String::from_str(AUDIO_FILE_NAME),
            mime_type: String::from_str(AUDIO_MIME_TYPE),
            audio,
            timeout_secs: REQUEST_TIMEOUT_SECS,
        },
    )
}

} // verus!
