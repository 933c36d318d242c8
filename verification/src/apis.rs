//! Response shapes of the service's API, as plain values. Handlers outside
//! the library serialize them; the library pins their contents.

use vstd::prelude::*;

use crate::tokens::TokenMetadata;
use crate::utils::{dec_of, latency_text};

verus! {

/// The body of a successful echo response.
#[derive(Debug, Clone, PartialEq, Eq)]
pub struct EchoResponse {
    pub status: String,
    pub latency: String,
    pub host_id: String,
}

/// The body of a successful echo response (historical duplicate shape, kept
/// for the second call site).
#[derive(Debug, Clone, PartialEq, Eq)]
pub struct ApiEchoResponse {
    pub status: String,
    pub latency: String,
    pub host_id: String,
}

/// A token value paired with the identifier it was issued for.
#[derive(Debug, Clone, PartialEq, Eq)]
pub struct Token {
    pub host_id: String,
    pub value: String,
}

/// The body of a successful registry listing: the records and their count.
#[derive(Debug, Clone, PartialEq, Eq)]
pub struct AgentResponse {
    pub count: u16,
    pub agents: Vec<TokenMetadata>,
}

impl EchoResponse {
    /// The successful echo body: status `"Success"`, the measured latency in
    /// milliseconds as `"<n>ms"`, and the caller's identifier.
    pub fn success(host_id: String, latency_ms: u64) -> (r: EchoResponse)
        ensures
            r.status@ == "Success"@,
            r.latency@ == dec_of(latency_ms as nat) + "ms"@,
            r.host_id@ == host_id@,
    {
        EchoResponse {
            status: String::from_str("Success"),
            latency: latency_text(latency_ms),
            host_id,
        }
    }
}

impl ApiEchoResponse {
    /// The successful echo body in the duplicate shape.
    pub fn success(host_id: String, latency_ms: u64) -> (r: ApiEchoResponse)
        ensures
            r.status@ == "Success"@,
            r.latency@ == dec_of(latency_ms as nat) + "ms"@,
            r.host_id@ == host_id@,
    {
        ApiEchoResponse {
            status: String::from_str("Success"),
            latency: latency_text(latency_ms),
            host_id,
        }
    }
}

impl AgentResponse {
    /// The listing body over the given records: `count` is the number of
    /// records, saturating at the field's capacity.
    pub fn over(agents: Vec<TokenMetadata>) -> (r: AgentResponse)
        ensures
            r.agents@ == agents@,
            agents@.len() <= u16::MAX ==> r.count == agents@.len(),
            agents@.len() > u16::MAX ==> r.count == u16::MAX,
    {
        let n = agents.len();
        let count: u16 = if n > u16::MAX as usize {
            u16::MAX
        } else {
            n as u16
        };
        AgentResponse { count, agents }
    }
}

} // verus!
