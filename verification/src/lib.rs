//! Client core for a board-game data service that answers HTTP GET requests
//! with XML payloads and an asynchronous "accepted, retry later" protocol.
//!
//! The library holds the verified heart of the client: the retry state
//! machine that absorbs the service's "not ready yet" status with bounded
//! exponential backoff, and the response decoder that tells a typed result
//! apart from an in-band error envelope. The surrounding I/O (issuing the
//! HTTP requests, sleeping between attempts) is driven by the application
//! through the state machine's decisions.

pub mod decode;
pub mod error;
pub mod request;
pub mod transport;

use vstd::prelude::*;


verus! {

/// The untyped result of one successful transmission attempt.
#[derive(Debug, PartialEq)]
pub struct RawResponse {
    /// HTTP status code of the attempt.
    pub status: u16,
    /// Full body text of the attempt.
    pub body: String,
}

impl Clone for RawResponse {
    /// An exact copy: status and body are kept.
    fn clone(&self) -> (r: Self)
        ensures
            r == *self,
    {
        RawResponse { status: self.status, body: self.body.clone() }
    }
}

} // verus!
