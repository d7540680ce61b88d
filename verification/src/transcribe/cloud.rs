//! Cloud transcription for Groq and OpenAI. Both speak the OpenAI
//! `/audio/transcriptions` multipart API, so one request shape covers them;
//! only the endpoint, the model id and the key differ.

use crate::keystore;
use crate::text::{trim, trimmed};
use crate::transcribe::TranscribeError;
use vstd::prelude::*;

verus! {

#[verifier::external_type_specification]
#[verifier::external_body]
pub struct ExJsonError(serde_json::Error);

/// A cloud transcription service.
#[derive(Debug, Clone, Copy, PartialEq, Eq, Structural)]
pub enum Provider {
    Groq,
    OpenAI,
}

impl Provider {
    /// The transcription endpoint of the service.
    pub fn endpoint(self) -> (r: &'static str)
        ensures
            self == Provider::Groq ==> r@ == "https://api.groq.com/openai/v1/audio/transcriptions"@,
            self == Provider::OpenAI ==> r@ == "https://api.openai.com/v1/audio/transcriptions"@,
    {
        match self {
            Provider::Groq => "https://api.groq.com/openai/v1/audio/transcriptions",
            Provider::OpenAI => "https://api.openai.com/v1/audio/transcriptions",
        }
    }

    /// The model id sent with each request.
    pub fn model(self) -> (r: &'static str)
        ensures
            self == Provider::Groq ==> r@ == "whisper-large-v3-turbo"@,
            self == Provider::OpenAI ==> r@ == "gpt-4o-transcribe"@,
    {
        match self {
            Provider::Groq => "whisper-large-v3-turbo",
            Provider::OpenAI => "gpt-4o-transcribe",
        }
    }

    /// The credential-store account that holds the service's API key.
    pub fn key_account(self) -> (r: &'static str)
        ensures
            self == Provider::Groq ==> r@ == keystore::GROQ@,
            self == Provider::OpenAI ==> r@ == keystore::OPENAI@,
    {
        match self {
            Provider::Groq => keystore::GROQ,
            Provider::OpenAI => keystore::OPENAI,
        }
    }
}

/// Name of the request's audio part.
pub const AUDIO_FILE_NAME: &'static str = "audio.wav";
/// Media type of the request's audio part.
pub const AUDIO_MIME: &'static str = "audio/wav";
/// Format asked of the service's answer.
pub const RESPONSE_FORMAT: &'static str = "json";

/// The language hint of a request: the first configured language, if any.
pub fn language_hint(languages: &Vec<String>) -> (r: Option<String>)
    ensures
        languages@.len() == 0 ==> r is None,
        languages@.len() > 0 ==> (r matches Some(l) && l@ == languages@[0]@),
{
    if languages.len() > 0 {
        Some(languages[0].clone())
    } else {
        None
    }
}

/// Whether the JSON text `doc` parses (as `serde_json::from_str` decides).
pub uninterp spec fn json_well_formed(doc: Seq<char>) -> bool;

/// For a well-formed JSON text `doc`: the string value of member `key` of
/// the top-level object, or `None` when the document is not an object, has no
/// such member, or the member is not a string.
pub uninterp spec fn json_string_member(doc: Seq<char>, key: Seq<char>) -> Option<Seq<char>>;

/// `serde_json::from_str::<serde_json::Value>`, then `Value::get(key)` and
/// `Value::as_str`: parses `doc` and reads member `key` as a string. The
/// contract names both results: whether the text parses, and which string the
/// member holds; it claims nothing more of either.
#[verifier::external_body]
fn json_member_str(doc: &str, key: &str) -> (r: Result<Option<String>, serde_json::Error>)
    ensures
        r is Ok <==> json_well_formed(doc@),
        r matches Ok(m) ==> match m {
            Some(s) => json_string_member(doc@, key@) == Some(s@),
            None => json_string_member(doc@, key@) is None,
        },
{
    match serde_json::from_str::<serde_json::Value>(doc) {
        Ok(v) => Ok(v.get(key).and_then(serde_json::Value::as_str).map(str::to_owned)),
        Err(e) => Err(e),
    }
}

/// The transcript carried by a `text` member: the member's text without
/// surrounding white space, or the empty text when there is no such member.
pub fn transcript_from_member(member: Option<String>) -> (t: String)
    ensures
        member matches Some(m) ==> t@ == trimmed(m@),
        member is None ==> t@.len() == 0,
{
    match member {
        Some(m) => trim(m.as_str()).to_owned(),
        None => String::new(),
    }
}

/// The transcript of a completed HTTP exchange with the service: an error
/// for a non-success status (carrying status and body), an error when the
/// body is not JSON, and otherwise the trimmed `text` member (empty when it
/// is missing or not a string).
pub fn transcript_from_response(success: bool, status: u16, body: &str) -> (r: Result<String, TranscribeError>)
    ensures
        !success ==> (r matches Err(TranscribeError::Http { status: s, body: b }) && s == status && b@ == body@),
        success && !json_well_formed(body@) ==> r matches Err(TranscribeError::InvalidJson(_)),
        success && json_well_formed(body@) ==> (r matches Ok(t) && t@ == match json_string_member(body@, "text"@) {
            Some(m) => trimmed(m),
            None => Seq::empty(),
        }),
{
    if !success {
        return Err(TranscribeError::Http { status, body: body.to_owned() });
    }
    match json_member_str(body, "text") {
        Ok(member) => Ok(transcript_from_member(member)),
        Err(e) => Err(TranscribeError::InvalidJson(e)),
    }
}

} // verus!
