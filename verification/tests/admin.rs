use gnirehtet_vd::admin::{
    admin_command, admin_message_length, admin_readiness, admin_socket_action, constant_time_eq,
    frame_admin_message, load_or_create_admin_token, pipe_action, stop_timeout, AdminAction, AdminQuery,
    AdminReadiness, AdminRequest, AdminResponse, AdminServer, AdminStep, PipeAction, PipeOutcome, SocketAction,
    SocketProbe,
    MAX_ADMIN_CONNECTIONS, MAX_ADMIN_MESSAGE,
};
use gnirehtet_vd::monitor::AdbHealthMonitor;
use gnirehtet_vd::runtime::RuntimeError;
use gnirehtet_vd::state::{HostState, SessionId, StateSnapshot, TRANSPORT_RECOVERY_REASON};
use gnirehtet_vd::time::{Duration, Instant};

fn request(token: &str, command: &str) -> AdminStep {
    AdminStep::Received(AdminRequest { token: token.to_owned(), command: command.to_owned() })
}

fn snapshot(state: HostState) -> StateSnapshot {
    StateSnapshot { state, session_id: None, missed_heartbeats: 0, reason: None }
}

fn response(action: AdminAction) -> (AdminResponse, bool) {
    match action {
        AdminAction::Respond { response, shutdown } => (response, shutdown),
        _ => panic!("an answer was expected"),
    }
}

#[test]
fn token_comparison_handles_length_and_content_mismatches() {
    assert!(constant_time_eq(b"same", b"same"));
    assert!(!constant_time_eq(b"same", b"samf"));
    assert!(!constant_time_eq(b"same", b"same-longer"));
}

#[test]
fn trailing_zero_bytes_are_a_difference() {
    assert!(!constant_time_eq(b"same", b"same\0"));
    assert!(!constant_time_eq(b"", b"\0"));
    assert!(constant_time_eq(b"", b""));
}

#[test]
fn admin_endpoint_requires_token_and_returns_live_status() {
    let server = AdminServer::new("correct".to_owned());
    let mut monitor = AdbHealthMonitor::default();
    let (refused, _) = response(server.handle(&mut monitor, request("wrong", "status")));
    assert!(!refused.ok);
    assert!(!refused.repairs_suppressed);
    assert_eq!(refused.error.as_deref(), Some("authentication failed"));

    let action = server.handle(&mut monitor, request("correct", "status"));
    let query = match action {
        AdminAction::QueryLifecycle(query) => query,
        _ => panic!("the lifecycle was to be asked for"),
    };
    let (served, shutdown) = response(server.handle(
        &mut monitor,
        AdminStep::LifecycleKnown { query, status: snapshot(HostState::Preparing) },
    ));
    assert!(served.ok);
    assert!(!shutdown);
    assert_eq!(served.status.unwrap().state, HostState::Preparing);
}

#[test]
fn graceful_shutdown_notifies_only_after_stopped_state() {
    let server = AdminServer::new("token".to_owned());
    let mut monitor = AdbHealthMonitor::default();
    assert!(matches!(
        server.handle(&mut monitor, request("token", "shutdown")),
        AdminAction::QueryLifecycle(AdminQuery::Shutdown)
    ));
    let (rejected, shutdown) = response(server.handle(
        &mut monitor,
        AdminStep::LifecycleKnown {
            query: AdminQuery::Shutdown,
            status: snapshot(HostState::Preparing),
        },
    ));
    assert!(!rejected.ok);
    assert_eq!(
        rejected.error.as_deref(),
        Some("daemon shutdown requires stopped state")
    );
    assert!(!shutdown);

    monitor.begin_suppress_repairs();
    let (accepted, shutdown) = response(server.handle(
        &mut monitor,
        AdminStep::LifecycleKnown {
            query: AdminQuery::Shutdown,
            status: snapshot(HostState::Stopped),
        },
    ));
    assert!(accepted.ok);
    assert!(accepted.repairs_suppressed);
    assert!(shutdown);
}

#[test]
fn admin_stop_reaches_android_before_delayed_repair_drain() {
    let server = AdminServer::new("token".to_owned());
    let mut monitor = AdbHealthMonitor::default();
    let action = server.handle(&mut monitor, request("token", "stop"));
    assert!(matches!(action, AdminAction::RequestStop));
    assert!(monitor.snapshot().repair_suppressed);
    let action = server.handle(&mut monitor, AdminStep::StopRequested(None));
    let error = match action {
        AdminAction::DrainRepairs(error) => error,
        _ => panic!("repairs were to be drained after the stop"),
    };
    let (stopped, shutdown) = response(server.handle(
        &mut monitor,
        AdminStep::RepairsDrained { error, status: snapshot(HostState::Stopped) },
    ));
    assert!(stopped.ok);
    assert!(stopped.repairs_suppressed);
    assert!(!shutdown);
}

#[test]
fn a_stop_that_failed_says_why() {
    let server = AdminServer::new("token".to_owned());
    let mut monitor = AdbHealthMonitor::default();
    let (failed, _) = response(server.handle(
        &mut monitor,
        AdminStep::RepairsDrained {
            error: Some("no peer".to_owned()),
            status: snapshot(HostState::Stopping),
        },
    ));
    assert!(!failed.ok);
    assert!(failed.repairs_suppressed);
    assert_eq!(failed.error.as_deref(), Some("no peer"));
    assert_eq!(stop_timeout(), Duration::from_secs(6));
}

#[test]
fn a_resume_matters_to_an_active_lifecycle_only() {
    let server = AdminServer::new("token".to_owned());
    let mut monitor = AdbHealthMonitor::default();
    assert!(matches!(
        server.handle(&mut monitor, request("token", "host_resume")),
        AdminAction::QueryLifecycle(AdminQuery::HostResume)
    ));
    let (ignored, _) = response(server.handle(
        &mut monitor,
        AdminStep::LifecycleKnown {
            query: AdminQuery::HostResume,
            status: snapshot(HostState::Stopped),
        },
    ));
    assert!(ignored.ok);
    assert_eq!(monitor.transport_recovery_snapshot().generation, 0);
    let action = server.handle(
        &mut monitor,
        AdminStep::LifecycleKnown {
            query: AdminQuery::HostResume,
            status: snapshot(HostState::Degraded),
        },
    );
    match action {
        AdminAction::ResetTransport(reason) => assert_eq!(reason, TRANSPORT_RECOVERY_REASON),
        _ => panic!("the transport was to be reset"),
    }
    assert_eq!(monitor.transport_recovery_snapshot().generation, 1);
    let (served, _) = response(server.handle(
        &mut monitor,
        AdminStep::TransportReset(snapshot(HostState::Degraded)),
    ));
    assert!(served.ok);
}

#[test]
fn an_unknown_command_is_refused() {
    let server = AdminServer::new("token".to_owned());
    let mut monitor = AdbHealthMonitor::default();
    let (refused, _) = response(server.handle(&mut monitor, request("token", "reboot")));
    assert!(!refused.ok);
    assert_eq!(refused.error.as_deref(), Some("unknown command"));
    assert!(refused.status.is_none());
}

#[test]
fn limits_of_the_endpoint() {
    let server = AdminServer::new("token".to_owned());
    assert_eq!(server.max_connections, MAX_ADMIN_CONNECTIONS);
    assert_eq!(server.max_connections, 8);
    assert_eq!(server.io_timeout, Duration::from_secs(3));
    let server = server.with_limits(1, Duration::from_millis(100));
    assert_eq!(server.max_connections, 1);
    assert_eq!(server.io_timeout, Duration::from_millis(100));
    assert_eq!(server.token, "token");
}

#[test]
fn invalid_persisted_admin_token_is_replaced() {
    let fresh = SessionId([0x21; 16]);
    let token = load_or_create_admin_token(Some("predictable"), fresh);
    assert_ne!(token.token, "predictable");
    assert!(token.is_new);
    assert!(SessionId::parse(&token.token).is_some_and(|session| session != SessionId::zero()));
}

#[test]
fn a_usable_token_is_kept_without_its_white_space() {
    let fresh = SessionId([0x21; 16]);
    let stored = SessionId([0x69; 16]).to_text();
    let token = load_or_create_admin_token(Some(&format!(" {stored}\n")), fresh);
    assert_eq!(token.token, stored);
    assert!(!token.is_new);
    let zero = SessionId::zero().to_text();
    let token = load_or_create_admin_token(Some(&zero), fresh);
    assert_eq!(token.token, fresh.to_text());
    let token = load_or_create_admin_token(None, fresh);
    assert_eq!(token.token, fresh.to_text());
    assert!(token.is_new);
}

#[test]
fn a_framed_message_reads_back() {
    let message = vec![7u8; 300];
    let frame = frame_admin_message(&message).unwrap();
    assert_eq!(frame[..4], [0, 0, 1, 44]);
    let header = [frame[0], frame[1], frame[2], frame[3]];
    assert_eq!(admin_message_length(header).unwrap(), 300);
    assert_eq!(frame[4..], message[..]);
    assert_eq!(frame_admin_message(b"").unwrap(), [0, 0, 0, 0]);
}

#[test]
fn a_message_beyond_the_bound_is_refused() {
    assert_eq!(MAX_ADMIN_MESSAGE, 4096);
    assert_eq!(admin_message_length([0, 0, 0x10, 0]).unwrap(), 4096);
    assert!(matches!(
        admin_message_length([0, 0, 0x10, 1]),
        Err(RuntimeError::AdminMessageTooLarge(4097))
    ));
    assert!(matches!(
        admin_message_length([1, 0, 0, 0]),
        Err(RuntimeError::AdminMessageTooLarge(16_777_216))
    ));
    assert!(frame_admin_message(&vec![0u8; 4096]).is_ok());
    assert!(matches!(
        frame_admin_message(&vec![0u8; 4097]),
        Err(RuntimeError::AdminMessageTooLarge(4097))
    ));
}

#[test]
fn only_an_abandoned_socket_is_removed() {
    assert_eq!(admin_socket_action(SocketProbe::Absent), SocketAction::Bind);
    assert_eq!(admin_socket_action(SocketProbe::Serving), SocketAction::RefuseServing);
    assert_eq!(admin_socket_action(SocketProbe::Abandoned), SocketAction::RemoveAndBind);
    assert_eq!(admin_socket_action(SocketProbe::Failed), SocketAction::Fail);
}

#[test]
fn the_endpoint_has_three_seconds_to_come_up() {
    let started = Instant { since_start: Duration::from_secs(5) };
    let late = started.plus(Duration::from_secs(3));
    let soon = started.plus(Duration::from_millis(2_999));
    assert_eq!(admin_readiness(started, soon, false), AdminReadiness::AskAgain);
    assert_eq!(admin_readiness(started, late, false), AdminReadiness::TimedOut);
    assert_eq!(admin_readiness(started, late, true), AdminReadiness::Ready);
}

#[test]
fn a_full_endpoint_turns_connections_away() {
    let server = AdminServer::new("token".to_owned());
    assert!(server.admits(0));
    assert!(server.admits(7));
    assert!(!server.admits(8));
    assert!(!server.with_limits(1, Duration::from_secs(1)).admits(1));
}

#[test]
fn a_busy_pipe_is_waited_for() {
    assert_eq!(pipe_action(PipeOutcome::Ready), PipeAction::Use);
    assert_eq!(pipe_action(PipeOutcome::Busy), PipeAction::TryAgain);
    assert_eq!(pipe_action(PipeOutcome::Failed), PipeAction::Fail);
}

#[test]
fn a_client_sends_the_token_without_its_white_space() {
    let request = admin_command("secret\r\n", "status");
    assert_eq!(request.token, "secret");
    assert_eq!(request.command, "status");
    let server = AdminServer::new("secret".to_owned());
    let mut monitor = AdbHealthMonitor::default();
    assert!(matches!(
        server.handle(&mut monitor, AdminStep::Received(request)),
        AdminAction::QueryLifecycle(AdminQuery::Status)
    ));
}
