use nightshift_daemon::proxy::{
    bad_gateway_body, conn_next, on_connect_failure, splice_upgrade, upstream_target,
    ConnEvent, ConnState, ConnectDecision, ConnectFailure, RetryPolicy,
};

const POLICY: RetryPolicy = RetryPolicy { window_ms: 8000, max_retries: 5, delay_ms: 200 };

#[test]
fn refused_connection_is_retried_in_startup_window() {
    assert_eq!(on_connect_failure(ConnectFailure::Refused, 0, 100, POLICY), ConnectDecision::RetryAfter(200));
    assert_eq!(on_connect_failure(ConnectFailure::Refused, 4, 7999, POLICY), ConnectDecision::RetryAfter(200));
}

#[test]
fn retries_stop_past_window_count_or_other_failure() {
    assert_eq!(on_connect_failure(ConnectFailure::Refused, 5, 100, POLICY), ConnectDecision::GiveUp);
    assert_eq!(on_connect_failure(ConnectFailure::Refused, 0, 8000, POLICY), ConnectDecision::GiveUp);
    assert_eq!(on_connect_failure(ConnectFailure::Other, 0, 0, POLICY), ConnectDecision::GiveUp);
}

#[test]
fn upgrade_is_spliced_only_on_switching_protocols() {
    assert!(splice_upgrade(true, 101));
    assert!(!splice_upgrade(true, 200));
    assert!(!splice_upgrade(false, 101));
}

#[test]
fn upstream_target_defaults_to_root() {
    assert_eq!(upstream_target(Some("/session?x=1")), "/session?x=1");
    assert_eq!(upstream_target(None), "/");
}

#[test]
fn bad_gateway_body_names_the_error() {
    assert_eq!(bad_gateway_body("connection refused"), "proxy error: connection refused");
}

#[test]
fn connection_serves_requests_then_pipes_an_upgrade() {
    let mut s = ConnState::Idle;
    s = conn_next(s, ConnEvent::RequestRead { upgrade: false });
    assert_eq!(s, ConnState::Forwarding { upgrade: false });
    s = conn_next(s, ConnEvent::UpstreamResponse(200));
    assert_eq!(s, ConnState::Responding);
    s = conn_next(s, ConnEvent::ResponseSent);
    assert_eq!(s, ConnState::Idle);
    s = conn_next(s, ConnEvent::RequestRead { upgrade: true });
    s = conn_next(s, ConnEvent::UpstreamResponse(101));
    assert_eq!(s, ConnState::UpgradeNegotiating);
    s = conn_next(s, ConnEvent::UpgradeReady);
    assert_eq!(s, ConnState::Piping);
    s = conn_next(s, ConnEvent::RequestRead { upgrade: false });
    assert_eq!(s, ConnState::Piping);
    s = conn_next(s, ConnEvent::PipeClosed);
    assert_eq!(s, ConnState::Closed(None));
}

#[test]
fn unreachable_backend_closes_with_bad_gateway() {
    let s = conn_next(ConnState::Forwarding { upgrade: false }, ConnEvent::UpstreamFailed);
    assert_eq!(s, ConnState::Closed(Some(502)));
    assert_eq!(conn_next(s, ConnEvent::RequestRead { upgrade: false }), s);
}

#[test]
fn independent_connections_do_not_interfere() {
    // Two connections driven in interleaved order end where each would alone.
    let mut a = ConnState::Idle;
    let mut b = ConnState::Idle;
    for _ in 0..3 {
        a = conn_next(a, ConnEvent::RequestRead { upgrade: false });
        b = conn_next(b, ConnEvent::RequestRead { upgrade: true });
        a = conn_next(a, ConnEvent::UpstreamResponse(200));
        b = conn_next(b, ConnEvent::UpstreamFailed);
        a = conn_next(a, ConnEvent::ResponseSent);
    }
    assert_eq!(a, ConnState::Idle);
    assert_eq!(b, ConnState::Closed(Some(502)));
}
