//! Device-client request building, response classification, backoff and the
//! reconnection state machine, and the discovery table.

use camfleet::BackoffDecision;
use camfleet::BackoffPolicy;
use camfleet::CameraEndpoint;
use camfleet::CameraOp;
use camfleet::DiscoveredCamera;
use camfleet::DiscoveryTable;
use camfleet::ErrorResponse;
use camfleet::FleetError;
use camfleet::FrameAction;
use camfleet::LoopDirective;
use camfleet::ReconnectLoop;
use camfleet::WsFrame;
use camfleet::WsPhase;

fn endpoint(token: &str) -> CameraEndpoint {
    CameraEndpoint::new("192.168.1.10".to_string(), 8080, token.to_string())
}

#[test]
fn device_id_and_urls_are_exact() {
    let ep = endpoint("");
    assert_eq!(ep.id(), "192.168.1.10:8080");
    assert_eq!(ep.base_url(), "http://192.168.1.10:8080");
    assert_eq!(ep.ws_url(), "ws://192.168.1.10:8080/ws");
}

#[test]
fn device_id_renders_port_extremes_in_decimal() {
    let low = CameraEndpoint::new("10.0.0.1".to_string(), 0, String::new());
    assert_eq!(low.id(), "10.0.0.1:0");
    let high = CameraEndpoint::new("10.0.0.1".to_string(), 65535, String::new());
    assert_eq!(high.id(), "10.0.0.1:65535");
}

#[test]
fn auth_header_only_for_nonempty_token() {
    assert!(endpoint("").auth_header().is_none());
    assert_eq!(
        endpoint("abc123").auth_header().as_deref(),
        Some("Bearer abc123")
    );
}

#[test]
fn request_plans_use_fixed_paths_and_methods() {
    let ep = endpoint("tok");
    let plan = ep.plan(&CameraOp::GetStatus);
    assert!(plan.is_get);
    assert_eq!(plan.url, "http://192.168.1.10:8080/api/v1/status");
    assert_eq!(plan.auth_header.as_deref(), Some("Bearer tok"));

    let plan = ep.plan(&CameraOp::GetCapabilities);
    assert!(plan.is_get);
    assert_eq!(plan.url, "http://192.168.1.10:8080/api/v1/capabilities");

    let plan = ep.plan(&CameraOp::StopStream);
    assert!(!plan.is_get);
    assert_eq!(plan.url, "http://192.168.1.10:8080/api/v1/stream/stop");

    let plan = ep.plan(&CameraOp::MeasureWhiteBalance);
    assert!(!plan.is_get);
    assert_eq!(plan.url, "http://192.168.1.10:8080/api/v1/camera/wb/measure");
}

#[test]
fn response_outcome_classifies_status_and_error_body() {
    assert!(camfleet::response_outcome(200, None).is_ok());
    assert!(camfleet::response_outcome(204, None).is_ok());

    let r = camfleet::response_outcome(
        409,
        Some(ErrorResponse {
            code: "E_BUSY".to_string(),
            message: "stream already running".to_string(),
        }),
    );
    match r {
        Err(FleetError::ServerError { code, message }) => {
            assert_eq!(code, "E_BUSY");
            assert_eq!(message, "stream already running");
        }
        other => panic!("expected ServerError, got {:?}", other),
    }

    // A non-success response whose body did not parse is itself a failure.
    let r = camfleet::response_outcome(500, None);
    assert!(matches!(r, Err(FleetError::DecodeFailed { .. })));
}

#[test]
fn error_messages_are_exact() {
    let e = FleetError::NotFound {
        what: "10.0.0.1:80".to_string(),
    };
    assert_eq!(e.message(), "Not found: 10.0.0.1:80");
    let e = FleetError::ServerError {
        code: "E_BUSY".to_string(),
        message: "try later".to_string(),
    };
    assert_eq!(e.message(), "E_BUSY: try later");
    let e = FleetError::ConnectFailed {
        detail: "refused".to_string(),
    };
    assert_eq!(e.message(), "Connect failed: refused");
    let e = FleetError::RequestFailed {
        detail: "timeout".to_string(),
    };
    assert_eq!(e.message(), "Request failed: timeout");
    let e = FleetError::DecodeFailed {
        detail: "status body".to_string(),
    };
    assert_eq!(e.message(), "Decode failed: status body");
    let e = FleetError::PersistenceFailed {
        detail: "disk full".to_string(),
    };
    assert_eq!(e.message(), "Persistence failed: disk full");
}

#[test]
fn backoff_delays_follow_the_capped_doubling_formula() {
    let p = BackoffPolicy::new(2000, 30000, 1000);
    // min(2000 * 2^min(n, 5), 30000)
    assert_eq!(p.delay_ms(0), 2000);
    assert_eq!(p.delay_ms(1), 4000);
    assert_eq!(p.delay_ms(2), 8000);
    assert_eq!(p.delay_ms(3), 16000);
    assert_eq!(p.delay_ms(4), 30000);
    assert_eq!(p.delay_ms(5), 30000);
    assert_eq!(p.delay_ms(6), 30000);
    assert_eq!(p.delay_ms(1000), 30000);

    let uncapped = BackoffPolicy::new(100, 1_000_000, 10);
    assert_eq!(uncapped.delay_ms(5), 3200);
    assert_eq!(uncapped.delay_ms(9), 3200);
}

#[test]
fn backoff_sequence_is_nondecreasing() {
    let p = BackoffPolicy::default();
    let mut last = 0u64;
    for attempts in 0..12u32 {
        let d = p.delay_ms(attempts);
        assert!(d >= last);
        assert!(d <= p.max_delay_ms);
        last = d;
    }
}

#[test]
fn reconnect_loop_resets_backoff_on_successful_handshake() {
    let mut lp = ReconnectLoop::new(BackoffPolicy::new(2000, 30000, 1000));
    assert!(!lp.is_connected());

    // Two failed handshakes raise the next delay.
    assert!(!lp.on_session_error());
    assert_eq!(lp.next_delay_ms(), 4000);
    assert_eq!(lp.after_sleep(false), LoopDirective::Retry);
    assert!(!lp.on_session_error());
    assert_eq!(lp.next_delay_ms(), 8000);
    assert_eq!(lp.after_sleep(false), LoopDirective::Retry);

    // A clean handshake connects and resets the counter: the next delay is
    // back to the base delay.
    lp.on_established();
    assert!(lp.is_connected());
    assert_eq!(lp.phase, WsPhase::Connected);
    assert_eq!(lp.next_delay_ms(), 2000);

    // The session later ends cleanly: no longer connected, no penalty.
    lp.on_session_closed();
    assert!(!lp.is_connected());
    assert_eq!(lp.next_delay_ms(), 2000);
}

#[test]
fn reconnect_loop_gives_up_at_the_attempt_ceiling() {
    let mut lp = ReconnectLoop::new(BackoffPolicy::new(10, 1000, 3));
    assert!(!lp.on_session_error());
    assert_eq!(lp.after_sleep(false), LoopDirective::Retry);
    assert!(!lp.on_session_error());
    assert_eq!(lp.after_sleep(false), LoopDirective::Retry);
    // Third consecutive failure reaches the ceiling: the loop stops for good
    // with the connected flag down.
    assert!(lp.on_session_error());
    assert_eq!(lp.phase, WsPhase::Stopped);
    assert!(!lp.is_connected());
}

#[test]
fn stop_signal_ends_loop_before_or_after_the_sleep() {
    let mut lp = ReconnectLoop::new(BackoffPolicy::new(2000, 30000, 1000));
    assert!(!lp.on_session_error());
    match lp.backoff_or_stop(false) {
        BackoffDecision::Sleep { delay_ms } => assert_eq!(delay_ms, 4000),
        BackoffDecision::Stop => panic!("no stop was requested"),
    }
    assert_eq!(lp.after_sleep(true), LoopDirective::Stop);
    assert_eq!(lp.phase, WsPhase::Stopped);

    let mut lp = ReconnectLoop::new(BackoffPolicy::new(2000, 30000, 1000));
    assert!(!lp.on_session_error());
    assert_eq!(lp.backoff_or_stop(true), BackoffDecision::Stop);
    assert_eq!(lp.phase, WsPhase::Stopped);
    assert!(!lp.is_connected());
}

#[test]
fn disconnect_is_idempotent() {
    let mut lp = ReconnectLoop::new(BackoffPolicy::default());
    lp.on_established();
    lp.on_disconnect();
    assert_eq!(lp.phase, WsPhase::Stopped);
    assert!(!lp.is_connected());
    lp.on_disconnect();
    assert_eq!(lp.phase, WsPhase::Stopped);
    assert!(!lp.is_connected());
}

#[test]
fn one_bad_frame_is_swallowed_but_close_and_errors_end_the_session() {
    // A text frame that failed to parse is ignored: the session continues.
    assert!(matches!(
        camfleet::frame_action(&WsFrame::Text { telemetry: None }),
        FrameAction::Ignore
    ));
    assert!(matches!(
        camfleet::frame_action(&WsFrame::Ping),
        FrameAction::Ignore
    ));
    assert!(matches!(
        camfleet::frame_action(&WsFrame::Close),
        FrameAction::EndClean
    ));
    assert!(matches!(
        camfleet::frame_action(&WsFrame::SocketError),
        FrameAction::EndError
    ));
}

#[test]
fn service_alias_strips_service_type_and_trailing_dots() {
    assert_eq!(
        camfleet::service_alias("Cam1._avolocam._tcp.local."),
        "Cam1"
    );
    assert_eq!(camfleet::service_alias("Cam1"), "Cam1");
    assert_eq!(camfleet::service_alias("Cam1..."), "Cam1");
    assert_eq!(camfleet::service_alias("_avolocam._tcp.local."), "");
}

fn discovered(alias: &str, ip: &str) -> DiscoveredCamera {
    DiscoveredCamera {
        alias: alias.to_string(),
        ip: ip.to_string(),
        port: 8080,
        txt_records: Vec::new(),
    }
}

#[test]
fn discovery_table_upserts_by_alias_and_retracts() {
    let mut t = DiscoveryTable::new();
    t.upsert(discovered("Cam1", "10.0.0.1"));
    t.upsert(discovered("Cam2", "10.0.0.2"));
    t.upsert(discovered("Cam1", "10.0.0.9"));

    let seen = t.get_discovered();
    assert_eq!(seen.len(), 2);
    assert_eq!(seen[0].alias, "Cam1");
    assert_eq!(seen[0].ip, "10.0.0.9");
    assert_eq!(seen[1].alias, "Cam2");

    t.remove(&"Cam1".to_string());
    let seen = t.get_discovered();
    assert_eq!(seen.len(), 1);
    assert_eq!(seen[0].alias, "Cam2");

    // Retracting an unknown alias is a no-op.
    t.remove(&"Nobody".to_string());
    assert_eq!(t.get_discovered().len(), 1);
}
