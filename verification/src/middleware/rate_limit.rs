//! Per-address request rate limits: a strict one for the authentication
//! endpoints (brute force, credential stuffing) and a loose one for the rest
//! of the API.
use vstd::prelude::*;

use crate::middleware::client_ip::{unknown_address, unspecified, IpAddress};

verus! {

/// A token-bucket quota: cells replenished per minute and the largest burst.
#[derive(Debug, Clone, Copy, PartialEq, Eq)]
pub struct RateQuota {
    pub per_minute: u32,
    pub burst: u32,
}

/// The authentication endpoints: 5 requests a minute per address, in bursts
/// of up to 5 (one new request about every 12 seconds after that).
pub fn auth_quota() -> (r: RateQuota)
    ensures
        r == (RateQuota { per_minute: 5, burst: 5 }),
{
    RateQuota { per_minute: 5, burst: 5 }
}

/// The rest of the API: 120 requests a minute per address, in bursts of up
/// to 20.
pub fn api_quota() -> (r: RateQuota)
    ensures
        r == (RateQuota { per_minute: 120, burst: 20 }),
{
    RateQuota { per_minute: 120, burst: 20 }
}

/// What the limiter does with a request.
#[derive(Debug, Clone, Copy, PartialEq, Eq)]
pub enum RateDecision {
    /// The request goes on to the handler.
    Proceed,
    /// The request is answered at once.
    Reject { status: u16, retry_after_secs: &'static str, message: &'static str },
}

/// The address a request is counted against: its TCP peer, or `0.0.0.0`
/// when the connection's address is not known.
pub fn limiter_key(peer: Option<IpAddress>) -> (r: IpAddress)
    ensures
        peer matches Some(p) ==> r == p,
        peer is None ==> r == unspecified(),
{
    match peer {
        Some(p) => p,
        None => unknown_address(),
    }
}

/// A request within the quota goes on; one over it gets 429 with
/// `Retry-After: 60`.
pub fn decide(allowed: bool) -> (r: RateDecision)
    ensures
        allowed ==> r == RateDecision::Proceed,
        !allowed ==> r == (RateDecision::Reject {
            status: 429,
            retry_after_secs: "60",
            message: "Juda ko'p so'rov. Biroz kuting.",
        }),
{
    if allowed {
        RateDecision::Proceed
    } else {
        RateDecision::Reject { status: 429, retry_after_secs: "60", message: "Juda ko'p so'rov. Biroz kuting." }
    }
}

} // verus!
