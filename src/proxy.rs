//! The reverse proxy's rules: retrying a refused upstream connection during
//! the startup window, splicing upgraded connections, the 502 reply, and the
//! life of one client connection.
use vstd::prelude::*;

verus! {

pub const SWITCHING_PROTOCOLS: u16 = 101;

pub const BAD_GATEWAY: u16 = 502;

/// How long after process start, and how often, a refused upstream
/// connection is retried, and the delay between tries.
#[derive(Clone, Copy, Debug, PartialEq, Eq)]
pub struct RetryPolicy {
    pub window_ms: u64,
    pub max_retries: u32,
    pub delay_ms: u64,
}

/// Why connecting to the backend failed.
#[derive(Clone, Copy, Debug, PartialEq, Eq)]
pub enum ConnectFailure {
    Refused,
    Other,
}

#[derive(Clone, Copy, Debug, PartialEq, Eq)]
pub enum ConnectDecision {
    RetryAfter(u64),
    /// Reply to the client with a 502.
    GiveUp,
}

pub open spec fn may_retry(failure: ConnectFailure, attempts: u32, since_start_ms: u64, policy: RetryPolicy) -> bool {
    failure == ConnectFailure::Refused && attempts < policy.max_retries && since_start_ms
        < policy.window_ms
}

/// After a failed connection attempt: retry a refused connection while
/// both the retry count and the startup window allow it; give up otherwise.
pub fn on_connect_failure(failure: ConnectFailure, attempts: u32, since_start_ms: u64, policy: RetryPolicy) -> (r: ConnectDecision)
    ensures
        r == (if may_retry(failure, attempts, since_start_ms, policy) {
            ConnectDecision::RetryAfter(policy.delay_ms)
        } else {
            ConnectDecision::GiveUp
        }),
{
    match failure {
        ConnectFailure::Refused => if attempts < policy.max_retries && since_start_ms < policy.window_ms {
            ConnectDecision::RetryAfter(policy.delay_ms)
        } else {
            ConnectDecision::GiveUp
        },
        ConnectFailure::Other => ConnectDecision::GiveUp,
    }
}

/// Retries are bounded: past the retry count or the startup window, or for
/// any failure but a refusal, the proxy gives up.
pub proof fn lemma_retries_bounded(failure: ConnectFailure, attempts: u32, since_start_ms: u64, policy: RetryPolicy)
    requires
        attempts >= policy.max_retries || since_start_ms >= policy.window_ms || failure
            != ConnectFailure::Refused,
    ensures
        !may_retry(failure, attempts, since_start_ms, policy),
{
}

/// Whether the client and backend connections are spliced: the client asked
/// for an upgrade and the backend switched protocols.
pub fn splice_upgrade(upgrade_requested: bool, status: u16) -> (r: bool)
    ensures
        r == (upgrade_requested && status == SWITCHING_PROTOCOLS),
{
    upgrade_requested && status == SWITCHING_PROTOCOLS
}

/// The request target sent upstream: the path and query, or `/`.
pub fn upstream_target(path_and_query: Option<&str>) -> (r: &str)
    ensures
        r@ == match path_and_query {
            Some(p) => p@,
            None => "/"@,
        },
{
    match path_and_query {
        Some(p) => p,
        None => "/",
    }
}

/// The diagnostic body of a 502 reply.
pub fn bad_gateway_body(detail: &str) -> (r: String)
    ensures
        r@ == "proxy error: "@ + detail@,
{
    let prefix = String::from_str("proxy error: ");
    prefix.concat(detail)
}

/// The life of one client connection.
#[derive(Clone, Copy, Debug, PartialEq, Eq)]
pub enum ConnState {
    Idle,
    Forwarding { upgrade: bool },
    Responding,
    UpgradeNegotiating,
    Piping,
    /// Closed, after replying with the given status if any.
    Closed(Option<u16>),
}

#[derive(Clone, Copy, Debug, PartialEq, Eq)]
pub enum ConnEvent {
    /// A request was read; `upgrade` tells whether it asks for an upgrade.
    RequestRead { upgrade: bool },
    UpstreamResponse(u16),
    /// The backend could not be reached.
    UpstreamFailed,
    ResponseSent,
    /// Both sides' upgraded streams are at hand.
    UpgradeReady,
    UpgradeFailed,
    /// Either side of the piped streams closed.
    PipeClosed,
    ClientClosed,
}

pub open spec fn conn_next_spec(s: ConnState, e: ConnEvent) -> ConnState {
    match (s, e) {
        (ConnState::Closed(c), _) => ConnState::Closed(c),
        (ConnState::Piping, ConnEvent::PipeClosed) => ConnState::Closed(None),
        (ConnState::Piping, _) => ConnState::Piping,
        (_, ConnEvent::ClientClosed) => ConnState::Closed(None),
        (ConnState::Idle, ConnEvent::RequestRead { upgrade }) => ConnState::Forwarding { upgrade },
        (ConnState::Forwarding { upgrade }, ConnEvent::UpstreamResponse(status)) => if upgrade
            && status == SWITCHING_PROTOCOLS {
            ConnState::UpgradeNegotiating
        } else {
            ConnState::Responding
        },
        (ConnState::Forwarding { .. }, ConnEvent::UpstreamFailed) => ConnState::Closed(Some(BAD_GATEWAY)),
        (ConnState::Responding, ConnEvent::ResponseSent) => ConnState::Idle,
        (ConnState::UpgradeNegotiating, ConnEvent::UpgradeReady) => ConnState::Piping,
        (ConnState::UpgradeNegotiating, ConnEvent::UpgradeFailed) => ConnState::Closed(None),
        (s, _) => s,
    }
}

/// One transition of a connection. A closed connection stays closed; a
/// piped one ignores everything but the end of the pipe; an unreachable
/// backend closes the connection with a 502; an answered request returns
/// the connection to idle for the next request. Events that do not apply
/// to the state leave it as it is.
pub fn conn_next(s: ConnState, e: ConnEvent) -> (r: ConnState)
    ensures
        r == conn_next_spec(s, e),
{
    match (s, e) {
        (ConnState::Closed(c), _) => ConnState::Closed(c),
        (ConnState::Piping, ConnEvent::PipeClosed) => ConnState::Closed(None),
        (ConnState::Piping, _) => ConnState::Piping,
        (_, ConnEvent::ClientClosed) => ConnState::Closed(None),
        (ConnState::Idle, ConnEvent::RequestRead { upgrade }) => ConnState::Forwarding { upgrade },
        (ConnState::Forwarding { upgrade }, ConnEvent::UpstreamResponse(status)) => if upgrade
            && status == SWITCHING_PROTOCOLS {
            ConnState::UpgradeNegotiating
        } else {
            ConnState::Responding
        },
        (ConnState::Forwarding { .. }, ConnEvent::UpstreamFailed) => ConnState::Closed(Some(BAD_GATEWAY)),
        (ConnState::Responding, ConnEvent::ResponseSent) => ConnState::Idle,
        (ConnState::UpgradeNegotiating, ConnEvent::UpgradeReady) => ConnState::Piping,
        (ConnState::UpgradeNegotiating, ConnEvent::UpgradeFailed) => ConnState::Closed(None),
        (s, _) => s,
    }
}

/// A connection is piped only after the backend switched protocols for a
/// request that asked for an upgrade and both upgraded streams were had.
pub proof fn lemma_piping_needs_upgrade(s: ConnState, e: ConnEvent)
    requires
        s != ConnState::Piping,
        conn_next_spec(s, e) == ConnState::Piping,
    ensures
        s == ConnState::UpgradeNegotiating && e == ConnEvent::UpgradeReady,
{
}

/// Negotiating an upgrade follows only a switching-protocols answer to a
/// request that asked for one.
pub proof fn lemma_negotiation_needs_switch(s: ConnState, e: ConnEvent)
    requires
        s != ConnState::UpgradeNegotiating,
        conn_next_spec(s, e) == ConnState::UpgradeNegotiating,
    ensures
        s == (ConnState::Forwarding { upgrade: true }),
        e == ConnEvent::UpstreamResponse(SWITCHING_PROTOCOLS),
{
}

/// Closed is final, and a 502 closing comes only from a failed forward.
pub proof fn lemma_closed_is_final(s: ConnState, e: ConnEvent)
    ensures
        s is Closed ==> conn_next_spec(s, e) == s,
        (!(s is Closed) && conn_next_spec(s, e) == ConnState::Closed(Some(BAD_GATEWAY))) ==> (
        s is Forwarding && e == ConnEvent::UpstreamFailed),
{
}

impl RetryPolicy {
    /// Up to five retries, 200 ms apart, within eight seconds of start.
    pub fn standard() -> (r: RetryPolicy)
        ensures
            r.window_ms == 8000,
            r.max_retries == 5,
            r.delay_ms == 200,
    {
        RetryPolicy { window_ms: 8000, max_retries: 5, delay_ms: 200 }
    }
}

} // verus!
