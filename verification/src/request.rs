//! The request descriptor.
//!
//! An immutable, re-issuable description of one HTTP GET: the endpoint
//! path and an ordered list of key/value query parameters. Retransmission
//! re-issues an identical request, so the descriptor is a plain value that
//! is never mutated, only copied.

use vstd::prelude::*;
use vstd::string::StringExecFns;

verus! {

/// One HTTP GET, as a plain value: endpoint path plus ordered query
/// parameters. Constructed once per logical call and re-issued unchanged
/// for every retry attempt.
#[derive(Debug, PartialEq)]
pub struct RequestDescriptor {
    /// Path of the endpoint under the service's base URL.
    pub endpoint: String,
    /// Ordered key/value query parameters.
    pub query: Vec<(String, String)>,
}

impl Clone for RequestDescriptor {
    /// An exact copy: the re-issued request is identical to the original.
    fn clone(&self) -> (d: Self)
        ensures
            d.endpoint@ == self.endpoint@,
            d.query@.len() == self.query@.len(),
            forall|i: int|
                0 <= i < self.query@.len() ==> #[trigger] d.query@[i] == self.query@[i],
    {
        let mut pairs: Vec<(String, String)> = Vec::new();
        let mut i: usize = 0;
        while i < self.query.len()
            invariant
                i <= self.query@.len(),
                pairs@.len() == i,
                forall|j: int| 0 <= j < i ==> #[trigger] pairs@[j] == self.query@[j],
            decreases self.query@.len() - i,
        {
            let key = self.query[i].0.clone();
            let value = self.query[i].1.clone();
            pairs.push((key, value));
            i = i + 1;
        }
        RequestDescriptor { endpoint: self.endpoint.clone(), query: pairs }
    }
}

impl RequestDescriptor {
    /// Pure construction helper: copy the endpoint path and the query
    /// pairs, in their order.
    pub fn build(endpoint: &str, query: &[(&str, String)]) -> (d: Self)
        ensures
            d.endpoint@ == endpoint@,
            d.query@.len() == query@.len(),
            forall|i: int|
                0 <= i < query@.len() ==> (#[trigger] d.query@[i]).0@ == query@[i].0@
                    && d.query@[i].1@ == query@[i].1@,
    {
        let mut pairs: Vec<(String, String)> = Vec::new();
        let mut i: usize = 0;
        while i < query.len()
            invariant
                i <= query@.len(),
                pairs@.len() == i,
                forall|j: int|
                    0 <= j < i ==> (#[trigger] pairs@[j]).0@ == query@[j].0@ && pairs@[j].1@
                        == query@[j].1@,
            decreases query@.len() - i,
        {
            let key = String::from_str(query[i].0);
            let value = query[i].1.clone();
            pairs.push((key, value));
            i = i + 1;
        }
        RequestDescriptor { endpoint: String::from_str(endpoint), query: pairs }
    }

    /// The URL of one attempt: base URL, separator, endpoint path. The
    /// query pairs travel beside it and are encoded by the HTTP layer.
    pub fn request_url(&self, base_url: &str) -> (url: String)
        ensures
            url@ == base_url@ + seq!['/'] + self.endpoint@,
    {
        let mut url = String::from_str(base_url);
        url.append("/");
        url.append(self.endpoint.as_str());
        proof {
            reveal_strlit("/");
            assert(url@ =~= base_url@ + seq!['/'] + self.endpoint@);
        }
        url
    }
}

} // verus!
