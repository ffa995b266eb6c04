//! HTTP probe decisions. A probe is a GET (never HEAD — servers may 405/501
//! it); any HTTP response — including 4xx/5xx — counts as reachable and only
//! transport errors fail. Readiness is stricter: a reverse proxy answering
//! 502/503/504 while its upstream boots is reachable but not ready.
//! The round-trip itself is performed by the caller; these functions decide
//! from its outcome.
use vstd::prelude::*;
use crate::text::{chars_of, owned, push_str};

verus! {

/// How one probe round-trip ended.
#[derive(Clone, Copy, Debug, PartialEq, Eq, Structural)]
pub enum ProbeOutcome {
    /// A success status (2xx/3xx) came back.
    Success,
    /// The round-trip completed with an error status code (4xx/5xx).
    Status(u16),
    /// No HTTP response: DNS, connect, TLS or timeout failure.
    Transport,
}

/// The upstream-unavailable gateway statuses.
pub open spec fn is_gateway_status(code: u16) -> bool {
    502 <= code && code <= 504
}

/// Readiness of a completed round-trip's status code: only the gateway
/// codes 502–504 are not ready; every other status is the server being present.
pub fn ready_from_status(code: u16) -> (ready: bool)
    ensures
        ready == !is_gateway_status(code),
{
    !(502 <= code && code <= 504)
}

/// `http_reachable`'s decision: any HTTP response counts.
pub open spec fn spec_reachable(o: ProbeOutcome) -> bool {
    !(o is Transport)
}

/// `http_ready`'s decision: any HTTP response except a gateway error.
pub open spec fn spec_ready(o: ProbeOutcome) -> bool {
    match o {
        ProbeOutcome::Success => true,
        ProbeOutcome::Status(code) => !is_gateway_status(code),
        ProbeOutcome::Transport => false,
    }
}

/// Whether a probe that ended with `o` reached the server.
pub fn reachable_from_outcome(o: ProbeOutcome) -> (up: bool)
    ensures
        up == spec_reachable(o),
{
    match o {
        ProbeOutcome::Success => true,
        ProbeOutcome::Status(_) => true,
        ProbeOutcome::Transport => false,
    }
}

/// Whether a probe that ended with `o` found the server ready to serve.
pub fn ready_from_outcome(o: ProbeOutcome) -> (ready: bool)
    ensures
        ready == spec_ready(o),
{
    match o {
        ProbeOutcome::Success => true,
        ProbeOutcome::Status(code) => ready_from_status(code),
        ProbeOutcome::Transport => false,
    }
}

/// Readiness is the stricter gate: whatever is ready is reachable, and a
/// reachable server is not ready exactly when it answered with 502–504.
pub proof fn law_ready_is_stricter(o: ProbeOutcome)
    ensures
        spec_ready(o) ==> spec_reachable(o),
        spec_reachable(o) && !spec_ready(o) <==> (o matches ProbeOutcome::Status(c) && is_gateway_status(c)),
{
}

/// The `/health` endpoint under `target`, joined with exactly one slash.
pub open spec fn spec_health_url(target: Seq<char>) -> Seq<char> {
    if target.len() > 0 && target.last() == '/' {
        target + "health"@
    } else {
        target + "/health"@
    }
}

/// The `/health` URL of a target base URL.
pub fn health_url(target: &str) -> (url: String)
    ensures
        url@ == spec_health_url(target@),
{
    let v = chars_of(target);
    let mut out = owned(target);
    if v.len() > 0 && v[v.len() - 1] == '/' {
        push_str(&mut out, "health");
    } else {
        push_str(&mut out, "/health");
    }
    out
}

/// A trailing slash on the target never changes the health URL.
pub proof fn law_health_url_slash_insensitive(target: Seq<char>)
    requires
        !(target.len() > 0 && target.last() == '/'),
    ensures
        spec_health_url(target.push('/')) == spec_health_url(target),
{
    let t2 = target.push('/');
    assert(t2.last() == '/');
    assert(t2 + "health"@ =~= target + ("/"@ + "health"@)) by {
        reveal_strlit("/");
        reveal_strlit("health");
        reveal_strlit("/health");
    }
    assert("/"@ + "health"@ =~= "/health"@) by {
        reveal_strlit("/");
        reveal_strlit("health");
        reveal_strlit("/health");
    }
}

} // verus!
