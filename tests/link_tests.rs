use termgate::advice::{
    generate_performance_recommendations, generate_security_recommendations, mobile_session, ErrorContext, MobileDeviceTraits,
    MobileOptimizations, PerformanceSummary,
};
use termgate::messages::{connected_response, error_response, oversized_response, terminal_data_response, WebSocketResponse};
use termgate::errors::{AppError, ErrorSeverity};
use termgate::link::{event_kind, pty_size, pump_step, ClientLink, EventKind, Frame, LinkAction, PumpAction};
use termgate::security::SecurityStats;

#[test]
fn oversized_frame_is_rejected_and_link_stays_open() {
    let mut link = ClientLink::new("c1".to_string(), 0);
    assert_eq!(link.on_frame(Frame::Text(2 * 1024 * 1024), 1), LinkAction::RejectOversized);
    assert_eq!(link.protocol_errors, 1);
    assert_eq!(link.on_frame(Frame::Text(64), 2), LinkAction::Dispatch);
    assert_eq!(link.message_count, 2);
}

#[test]
fn too_many_errors_end_the_link() {
    let mut link = ClientLink::new("c1".to_string(), 0);
    for _ in 0..10 {
        assert!(link.on_handled(false));
    }
    assert!(!link.on_handled(false));
    let mut link = ClientLink::new("c2".to_string(), 0);
    for _ in 0..5 {
        assert_eq!(link.on_frame(Frame::TransportError(false), 0), LinkAction::Ignore);
    }
    assert_eq!(link.on_frame(Frame::TransportError(false), 0), LinkAction::End);
    assert_eq!(link.on_frame(Frame::TransportError(true), 0), LinkAction::End);
}

#[test]
fn pings_are_echoed_and_binary_ignored() {
    let mut link = ClientLink::new("c".to_string(), 0);
    assert_eq!(link.on_frame(Frame::Ping, 7), LinkAction::Pong);
    assert_eq!(link.last_ping, Some(7));
    assert_eq!(link.on_frame(Frame::Binary, 8), LinkAction::Ignore);
    assert_eq!(link.on_frame(Frame::Close, 9), LinkAction::End);
    link.bind_session("s1".to_string());
    assert_eq!(link.session_id.as_deref(), Some("s1"));
    link.unbind_session();
    assert!(link.session_id.is_none());
}

#[test]
fn event_names_and_defaults() {
    assert_eq!(event_kind("ssh_connect").unwrap(), EventKind::SshConnect);
    assert_eq!(event_kind("terminal_resize").unwrap(), EventKind::TerminalResize);
    let err = event_kind("bogus").unwrap_err();
    assert_eq!(err.error_code(), "WEBSOCKET_ERROR");
    assert_eq!(err.to_string(), "WebSocket error: Unknown event: bogus");
    assert_eq!(pty_size(None, None), (80, 24));
    assert_eq!(pty_size(Some(120), Some(40)), (120, 40));
}

#[test]
fn pump_decisions() {
    assert_eq!(pump_step(&Ok(Some("x".to_string()))), PumpAction::Publish);
    assert_eq!(pump_step(&Ok(None)), PumpAction::Wait);
    assert_eq!(pump_step(&Err(AppError::SessionNotFound("s".to_string()))), PumpAction::Exit);
    assert_eq!(pump_step(&Err(AppError::SSHConnectionFailed("io".to_string()))), PumpAction::ReportAndExit);
}

#[test]
fn error_taxonomy() {
    let e = AppError::SSHAuthenticationFailed("bad".to_string());
    assert_eq!(e.error_code(), "AUTH_FAILED");
    assert_eq!(e.severity(), ErrorSeverity::High);
    assert!(!e.is_retryable());
    let e = AppError::InternalError("x".to_string());
    assert_eq!(e.severity(), ErrorSeverity::Critical);
    assert_eq!(e.error_code(), "INTERNAL_ERROR");
    let e = AppError::TimeoutError("x".to_string());
    assert!(e.is_retryable());
    assert_eq!(AppError::NotFound("r".to_string()).severity(), ErrorSeverity::Low);
    assert_eq!(AppError::TransferError("t".to_string()).error_code(), "TRANSFER_ERROR");
    assert_eq!(AppError::ValidationError("v".to_string()).error_code(), "VALIDATION_ERROR");
    assert_eq!(AppError::FileOperationFailed("f".to_string()).error_code(), "FILE_OPERATION_FAILED");
}

#[test]
fn recommendations() {
    let quiet = PerformanceSummary { active_connections: 0, active_tasks: 0, memory_usage_bytes: 1 };
    assert_eq!(generate_performance_recommendations(&quiet), vec!["System performance is optimal.".to_string()]);
    let busy = PerformanceSummary { active_connections: 41, active_tasks: 16, memory_usage_bytes: 401 * 1024 * 1024 };
    assert_eq!(generate_performance_recommendations(&busy).len(), 3);
    let stats = SecurityStats {
        total_events: 0,
        events_last_hour: 0,
        events_last_day: 0,
        active_rate_limits: 0,
        locked_accounts: 2,
        active_connections: 0,
        critical_events_last_day: 0,
    };
    assert_eq!(
        generate_security_recommendations(&stats),
        vec!["2 accounts are currently locked due to failed login attempts.".to_string()]
    );
    let calm = SecurityStats { locked_accounts: 0, ..stats };
    assert_eq!(
        generate_security_recommendations(&calm),
        vec!["Security status is normal. No immediate action required.".to_string()]
    );
}

#[test]
fn error_context_replaces_keys() {
    let ctx = ErrorContext::new("test context").with_metadata("host", "a").with_metadata("host", "b");
    assert_eq!(ctx.context, "test context");
    assert_eq!(ctx.metadata.len(), 1);
    assert_eq!(ctx.metadata[0].1, "b");
}

#[test]
fn mobile_session_tunes_to_device() {
    let none = MobileOptimizations {
        reduce_animations: false,
        optimize_scrolling: false,
        increase_touch_targets: false,
        reduce_network_usage: false,
        battery_optimization: false,
    };
    let phone = MobileDeviceTraits {
        platform: "ios".to_string(),
        screen_width: 390,
        screen_height: 844,
        is_tablet: false,
        high_dpi: true,
        supports_touch: true,
    };
    let r = mobile_session(Some("s1".to_string()), &phone, none);
    assert!(r.success);
    assert_eq!(r.session_id.as_deref(), Some("s1"));
    assert!(r.applied_optimizations.increase_touch_targets);
    assert!(r.applied_optimizations.battery_optimization);
    assert!(r.applied_optimizations.reduce_network_usage);
    assert!(r.applied_optimizations.reduce_animations);
    assert!(!r.applied_optimizations.optimize_scrolling);
    assert_eq!(r.recommendations.len(), 5);
    assert_eq!(r.recommendations[0], "Consider using compact terminal layout for small screens");
    let desk = MobileDeviceTraits {
        platform: "linux".to_string(),
        screen_width: 1920,
        screen_height: 1080,
        is_tablet: false,
        high_dpi: false,
        supports_touch: false,
    };
    let r = mobile_session(None, &desk, none);
    assert_eq!(r.applied_optimizations, none);
    assert_eq!(r.recommendations, vec!["Non-touch device: optimizing for keyboard navigation".to_string()]);
}

#[test]
fn response_frames() {
    match connected_response("s1".to_string()) {
        WebSocketResponse::SSHConnected(c) => {
            assert_eq!(c.session_id, "s1");
            assert_eq!(c.status, "connected");
        }
        _ => panic!("wrong frame"),
    }
    match terminal_data_response("s1".to_string(), "hello\n".to_string(), 42) {
        WebSocketResponse::TerminalData(d) => {
            assert_eq!(d.data, "hello\n");
            assert_eq!(d.timestamp, Some(42));
            assert_eq!(d.batched, Some(false));
        }
        _ => panic!("wrong frame"),
    }
    match oversized_response(None, 2 * 1024 * 1024) {
        WebSocketResponse::SSHError(e) => {
            assert_eq!(e.code.as_deref(), Some("MESSAGE_TOO_LARGE"));
            assert_eq!(e.details.as_deref(), Some("Message size: 2097152 bytes, limit: 1MB"));
        }
        _ => panic!("wrong frame"),
    }
    let err = AppError::SessionNotFound("s1".to_string());
    match error_response(Some("s1".to_string()), &err, None) {
        WebSocketResponse::SSHError(e) => {
            assert_eq!(e.code.as_deref(), Some("SESSION_NOT_FOUND"));
            assert_eq!(e.message, "Session not found: s1");
        }
        _ => panic!("wrong frame"),
    }
}
