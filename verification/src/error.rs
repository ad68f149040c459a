//! Error taxonomy of the client.
//!
//! Every failed logical call yields exactly one of these classified values;
//! nothing is swallowed or turned into an opaque failure.

use vstd::prelude::*;

verus! {

/// The two shapes a transport-level failure can take: the request never
/// completed, or it completed with an HTTP status that denotes an error.
#[derive(Debug, PartialEq)]
pub enum HttpFailure {
    /// A network or protocol failure (connection error, timeout, DNS, TLS);
    /// carries the underlying description.
    Transport(String),
    /// The service answered with a client- or server-error status.
    Status(u16),
}

/// A classified, terminal failure of one logical call.
#[derive(Debug, PartialEq)]
pub enum Error {
    /// Transport failure or non-success HTTP status; never retried.
    HttpError(HttpFailure),
    /// The "accepted, not ready yet" status persisted through every
    /// permitted attempt; carries the number of retries performed.
    MaxRetryError(u32),
    /// The body matched neither the expected type nor the error envelope;
    /// carries the diagnostic of the failed target-type decode.
    UnexpectedResponseError(String),
    /// The service reported a business-level failure inside a successful
    /// response; carries the message of the envelope.
    ApiError(String),
}

} // verus!
