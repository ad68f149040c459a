//! The response decoder.
//!
//! A successfully transmitted body is decoded once per logical call, in two
//! prioritized steps: first as the caller's expected type — the only success
//! path — and, only when that fails, as the service's known error envelope
//! (`<errors><error><message>…</message></error></errors>`), which the
//! service may send with a success status in place of the requested data.
//! When both fail, the original target-type diagnostic is surfaced, never
//! the envelope's own parse failure, since that one is strictly less
//! informative.

use vstd::prelude::*;

use crate::error::Error;

verus! {

/// What the error envelope carries for a given body: the business-failure
/// message when the body parses as the envelope, nothing otherwise. The
/// parse is a function of the body text alone.
pub uninterp spec fn envelope_message_of(body: Seq<char>) -> Option<Seq<char>>;

/// Relies on serde_xml_rs::from_str: decodes the known error-envelope
/// shape, an `error` element carrying a `message` element; whether the
/// body parses as it, and the message found, depend on the body alone.
#[verifier::external_body]
fn parse_error_envelope(body: &str) -> (r: Option<String>)
    ensures
        r matches Some(m) ==> envelope_message_of(body@) matches Some(s) && s == m@,
        r is None <==> envelope_message_of(body@) is None,
{
    let parsed: Result<
        std::collections::BTreeMap<String, std::collections::BTreeMap<String, String>>,
        serde_xml_rs::Error,
    > = serde_xml_rs::from_str(body);
    match parsed {
        Ok(mut errors) => errors.remove("error").and_then(|mut e| e.remove("message")),
        Err(_) => None,
    }
}

/// Relies on serde_xml_rs::from_str: decodes the body as the caller's
/// expected type, carrying serde's diagnostic on failure. What it returns
/// is decided by the caller's `Deserialize` implementation, so nothing is
/// assumed of it here.
#[verifier::external_body]
fn parse_target<T: serde::de::DeserializeOwned>(body: &str) -> (r: Result<T, String>) {
    match serde_xml_rs::from_str::<T>(body) {
        Ok(v) => Ok(v),
        Err(e) => Err(e.to_string()),
    }
}

/// Classify a failed target-type decode. The envelope's message, when the
/// body carried one, takes priority as the more specific diagnosis; the
/// original target-type diagnostic is surfaced otherwise — never the
/// envelope's own parse failure.
pub fn classify_failed_decode(diagnostic: String, envelope: Option<String>) -> (e: Error)
    ensures
        envelope matches Some(m) ==> e == Error::ApiError(m),
        envelope is None ==> e == Error::UnexpectedResponseError(diagnostic),
{
    match envelope {
        Some(m) => Error::ApiError(m),
        None => Error::UnexpectedResponseError(diagnostic),
    }
}

/// Decode a response body into the caller's expected type — the only
/// success path. On failure the body is read once more, as the error
/// envelope: its message becomes the business error, and a body matching
/// neither shape surfaces the target-type diagnostic as an unexpected
/// response. Decoding never yields a transport or retry error.
pub fn decode_response<T: serde::de::DeserializeOwned>(body: &str) -> (r: Result<T, Error>)
    ensures
        r matches Err(e) ==> match envelope_message_of(body@) {
            Some(m) => e matches Error::ApiError(msg) && msg@ == m,
            None => e is UnexpectedResponseError,
        },
{
    match parse_target::<T>(body) {
        Ok(v) => Ok(v),
        Err(diagnostic) => Err(classify_failed_decode(diagnostic, parse_error_envelope(body))),
    }
}

} // verus!
