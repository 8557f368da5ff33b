//! Finding the teacher server on the local network: the answer it gives
//! to a broadcast, and the address taken from it.
use vstd::prelude::*;
use vstd::string::StringExecFns;
use crate::text::{decimal, str_eq, u64_to_decimal};

verus! {

/// The UDP port discovery broadcasts go to.
pub const DISCOVERY_PORT: u16 = 9999;

/// A server's answer to a discovery broadcast.
#[derive(Debug)]
pub struct DiscoveryResponse {
    pub host: String,
    pub port: u16,
    pub service_type: String,
    pub version: String,
}

/// The teacher server address an answer gives, if it comes from a teacher server.
pub fn discovered_url(resp: &DiscoveryResponse) -> (r: Option<String>)
    ensures
        resp.service_type@ == "campuslink-teacher"@ ==> (r matches Some(u) && u@ == "http://"@
            + resp.host@ + ":"@ + decimal(resp.port as nat)),
        resp.service_type@ != "campuslink-teacher"@ ==> r is None,
{
    if !str_eq(resp.service_type.as_str(), "campuslink-teacher") {
        return None;
    }
    let mut u = String::from_str("http://");
    u.append(resp.host.as_str());
    u.append(":");
    let p = u64_to_decimal(resp.port as u64);
    u.append(p.as_str());
    Some(u)
}

/// Whether to wait before the next attempt: after every attempt but the last.
pub fn wait_after_attempt(attempt: u32, max_retries: u32) -> (r: bool)
    ensures
        r == (attempt < max_retries),
{
    attempt < max_retries
}

/// The error when no teacher server answered.
pub fn discovery_failed_message(max_retries: u32) -> (r: String)
    ensures
        r@ == "No teacher server discovered after "@ + decimal(max_retries as nat) + " attempts"@,
{
    let mut m = String::from_str("No teacher server discovered after ");
    let n = u64_to_decimal(max_retries as u64);
    m.append(n.as_str());
    m.append(" attempts");
    m
}

} // verus!
