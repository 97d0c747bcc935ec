use gnirehtet_vd::monitor::AdbHealthMonitor;
use gnirehtet_vd::reconcile::{
    reconcile_android_sleep, CarrierFailure, LossReport, ProbeOutcome, ReconcileAction,
    ReconcileStep, ReverseMapping, TrackFailureAction, TrackFailureStep,
};
use gnirehtet_vd::recovery::{RecoveryAttempt, TransportRecoveryState, TransportRecoveryTrigger};
use gnirehtet_vd::relay::{update_relay_gate, RelayGate, RelayGateController};
use gnirehtet_vd::state::{AndroidVpnStatus, HostState, SessionId, StateSnapshot};
use gnirehtet_vd::time::{Duration, Instant};
use gnirehtet_vd::transport::{
    rearm_timer, recovery_strategy, recovery_superseded, transport_recovery_control_timeout,
    transport_recovery_retry_delay, virtual_desktop_connection_timeout, CompletionAction,
    CompletionStep, ConnectionWait, RecoverAction, RecoverStep, RecoveryFailure, WorkOutcome,
};

const REVERSE_MAPPINGS: [ReverseMapping; 3] = [
    ReverseMapping { remote: 31_416, local: 31_416 },
    ReverseMapping { remote: 31_417, local: 31_417 },
    ReverseMapping { remote: 31_418, local: 31_418 },
];

struct MockAdb {
    calls: Vec<String>,
    device_available: bool,
    mapping_adds: usize,
    screen_suspended: bool,
    failing: Vec<&'static str>,
    stop_after_adds: usize,
}

impl Default for MockAdb {
    fn default() -> Self {
        MockAdb {
            calls: Vec::new(),
            device_available: true,
            mapping_adds: 0,
            screen_suspended: false,
            failing: Vec::new(),
            stop_after_adds: usize::MAX,
        }
    }
}

impl MockAdb {
    fn call(&mut self, name: &str) -> bool {
        self.calls.push(name.to_owned());
        !self.failing.iter().any(|failing| *failing == name)
    }

    fn count(&self, name: &str) -> usize {
        self.calls.iter().filter(|call| call.as_str() == name).count()
    }

    fn position(&self, name: &str) -> usize {
        self.calls.iter().position(|call| call.as_str() == name).unwrap()
    }

    fn probe(&mut self) -> ProbeOutcome {
        if !self.call("--list") {
            ProbeOutcome::Failed
        } else if self.mapping_adds >= REVERSE_MAPPINGS.len() {
            ProbeOutcome::Healthy
        } else {
            ProbeOutcome::Missing(REVERSE_MAPPINGS.to_vec())
        }
    }

    fn reinstall(&mut self) -> WorkOutcome {
        for _ in REVERSE_MAPPINGS {
            self.call("--remove");
            self.mapping_adds = self.mapping_adds.saturating_sub(1);
        }
        let mut added = true;
        for _ in REVERSE_MAPPINGS {
            added = self.call("reverse") && added;
            self.mapping_adds += 1;
        }
        outcome(added)
    }
}

fn outcome(succeeded: bool) -> WorkOutcome {
    if succeeded {
        WorkOutcome::Succeeded
    } else {
        WorkOutcome::Failed
    }
}

struct Host {
    monitor: AdbHealthMonitor,
    relay: RelayGateController,
    adb: MockAdb,
    lifecycle: HostState,
    resets: usize,
    reports: Vec<LossReport>,
}

impl Host {
    fn connected() -> Host {
        let mut relay = RelayGateController::new(RelayGate::default());
        relay.control_connected();
        Host {
            monitor: AdbHealthMonitor::default(),
            relay,
            adb: MockAdb::default(),
            lifecycle: HostState::Connected,
            resets: 0,
            reports: Vec::new(),
        }
    }

    fn report(&mut self, report: LossReport) {
        self.reports.push(report);
        self.lifecycle = HostState::Degraded;
    }

    fn probe_sleep(&mut self) {
        if let Some(epoch) = self.monitor.begin_sleep_probe(&self.relay) {
            self.adb.call("activity");
            let status = AndroidVpnStatus {
                vpn_fd_open: Some(true),
                state: Some(
                    if self.adb.screen_suspended { "degraded" } else { "connected" }.to_owned(),
                ),
                screen_suspended: Some(self.adb.screen_suspended),
            };
            reconcile_android_sleep(&mut self.relay, epoch, &Some(status));
        }
    }

    fn reconcile(&mut self, device_available: bool) {
        let mut step = ReconcileStep::Begin { device_available };
        loop {
            match self.monitor.reconcile(&mut self.relay, step) {
                ReconcileAction::Done => return,
                ReconcileAction::Repaired { generation } => {
                    assert_eq!(generation, self.monitor.reconnect_generation);
                    return;
                }
                ReconcileAction::QueryLifecycle { device_available } => {
                    step = ReconcileStep::LifecycleKnown { device_available, state: self.lifecycle };
                }
                ReconcileAction::AcquireOperation { state } => {
                    step = ReconcileStep::OperationAcquired { state };
                }
                ReconcileAction::ProbeMappings { state } => {
                    step = ReconcileStep::Probed {
                        state,
                        took: Duration::from_millis(3),
                        outcome: self.adb.probe(),
                    };
                }
                ReconcileAction::AddMapping { mapping, plan } => {
                    assert_eq!(mapping, REVERSE_MAPPINGS[plan.taken - 1]);
                    let added = self.adb.call(&format!("tcp:{}", mapping.remote));
                    self.adb.mapping_adds += 1;
                    if self.adb.mapping_adds == self.adb.stop_after_adds {
                        self.monitor.begin_suppress_repairs();
                    }
                    step = ReconcileStep::MappingAdded { plan, added };
                }
                ReconcileAction::VerifyMappings => {
                    let healthy = matches!(self.adb.probe(), ProbeOutcome::Healthy);
                    step = ReconcileStep::Verified { healthy };
                }
                ReconcileAction::ReportLoss(report) => {
                    self.report(report);
                    return;
                }
                ReconcileAction::ProbeSleep => {
                    self.probe_sleep();
                    return;
                }
            }
        }
    }

    fn recover(&mut self, device_available: bool) -> (bool, Option<RecoveryAttempt>) {
        let mut step = RecoverStep::Begin { device_available };
        loop {
            match self.monitor.recover_transport(&mut self.relay, step) {
                RecoverAction::NotNeeded => return (false, None),
                RecoverAction::Done => return (true, None),
                RecoverAction::AcquireOperation(attempt) => {
                    step = RecoverStep::OperationAcquired(attempt);
                }
                RecoverAction::RestartAndroid(attempt) => {
                    let outcome = outcome(self.adb.call("start"));
                    step = RecoverStep::Rebuilt { attempt, outcome };
                }
                RecoverAction::ReinstallMappings(attempt) => {
                    let outcome = self.adb.reinstall();
                    step = RecoverStep::Rebuilt { attempt, outcome };
                }
                RecoverAction::ResetTransport(attempt) => {
                    self.resets += 1;
                    self.lifecycle = HostState::Degraded;
                    step = RecoverStep::TransportReset(attempt);
                }
                RecoverAction::AwaitControl { attempt, .. } => return (true, Some(attempt)),
                RecoverAction::Retry { attempt, .. } => return (true, Some(attempt)),
                RecoverAction::GiveUp { attempt, .. } => return (true, Some(attempt)),
                RecoverAction::ControlTimedOut { attempt, .. } => return (true, Some(attempt)),
            }
        }
    }

    fn complete(&mut self) -> bool {
        let mut step = CompletionStep::Begin;
        loop {
            match self.monitor.complete_transport_recovery(step) {
                CompletionAction::NotCompleting => return false,
                CompletionAction::AcquireOperation(attempt) => {
                    step = CompletionStep::OperationAcquired(attempt);
                }
                CompletionAction::StopVirtualDesktop(relaunch) => {
                    let outcome = outcome(self.adb.call("force-stop"));
                    step = CompletionStep::Stopped { relaunch, outcome };
                }
                CompletionAction::RestartService(relaunch) => {
                    let outcome = outcome(self.adb.call("service"));
                    step = CompletionStep::ServiceRestarted { relaunch, outcome };
                }
                CompletionAction::RestartVirtualDesktop(relaunch) => {
                    let outcome = outcome(self.adb.call("launch"));
                    step = CompletionStep::Restarted { relaunch, outcome };
                }
                CompletionAction::AwaitConnection(relaunch) => {
                    step = CompletionStep::ConnectionAwaited { relaunch, result: Ok(()) };
                }
                CompletionAction::Done
                | CompletionAction::Completed(_)
                | CompletionAction::Retry(_)
                | CompletionAction::GiveUp { .. } => return true,
            }
        }
    }

    fn track_failed(&mut self, failure: CarrierFailure) {
        let mut step = TrackFailureStep::Begin(failure);
        loop {
            match self.monitor.track_failed(step) {
                TrackFailureAction::ProbeDevice { mappings_kept } => {
                    self.adb.call("get-state");
                    step = TrackFailureStep::DeviceProbed {
                        mappings_kept,
                        device_state: Some(
                            if self.adb.device_available { "device" } else { "offline" }.to_owned(),
                        ),
                    };
                }
                TrackFailureAction::QueryLifecycle(failure) => {
                    step = TrackFailureStep::LifecycleKnown { failure, state: self.lifecycle };
                }
                TrackFailureAction::ReportLoss(report) => {
                    self.report(report);
                    step = TrackFailureStep::LossReported(report.failure);
                }
                TrackFailureAction::Done { device_confirmed: _ } => return,
            }
        }
    }
}

#[test]
fn host_resume_rebuilds_mappings_before_waiting_for_fresh_control() {
    let mut host = Host::connected();
    host.adb.mapping_adds = REVERSE_MAPPINGS.len();
    assert!(host.relay.gate.is_enabled());

    host.monitor.notify_host_resume();
    assert!(host.recover(true).0);

    let snapshot = host.monitor.snapshot();
    assert_eq!(snapshot.reconnect_generation, 1);
    assert!(snapshot.mappings_healthy);
    assert_eq!(
        snapshot.transport_recovery.state,
        TransportRecoveryState::AwaitingControl
    );
    assert!(!host.relay.gate.is_enabled());
    assert_eq!(host.resets, 1);
    assert_eq!(host.adb.count("--remove"), REVERSE_MAPPINGS.len());
    assert_eq!(host.adb.count("force-stop"), 0);

    host.relay.control_connected();
    host.monitor.notify_authenticated_connection();
    assert!(host.complete());
    assert_eq!(
        host.monitor.snapshot().transport_recovery.state,
        TransportRecoveryState::Recovered
    );
    assert_eq!(host.adb.count("force-stop"), 1);
    assert!(host.relay.gate.is_enabled());
}

#[test]
fn usb_reconnect_preserves_android_session_and_restarts_vd_after_fresh_control() {
    let mut host = Host::connected();
    host.adb.mapping_adds = REVERSE_MAPPINGS.len();

    host.monitor.note_usb_disconnected();
    assert!(host.monitor.notify_usb_reconnected_if_needed());
    assert!(host.recover(true).0);

    let snapshot = host.monitor.snapshot();
    assert_eq!(
        snapshot.transport_recovery.trigger,
        Some(TransportRecoveryTrigger::UsbReconnect)
    );
    assert_eq!(
        snapshot.transport_recovery.state,
        TransportRecoveryState::AwaitingControl
    );
    assert!(!host.relay.gate.is_enabled());
    assert_eq!(host.adb.count("start"), 0);
    assert_eq!(host.adb.count("force-stop"), 0);
    assert_eq!(host.adb.count("--remove"), REVERSE_MAPPINGS.len());
    assert_eq!(host.adb.count("reverse"), REVERSE_MAPPINGS.len());

    host.relay.control_connected();
    host.monitor.notify_authenticated_connection();
    assert!(host.complete());
    assert_eq!(
        host.monitor.snapshot().transport_recovery.state,
        TransportRecoveryState::Recovered
    );
    let vd_stop = host.adb.position("force-stop");
    let vd_start = host.adb.position("launch");
    assert!(vd_stop < vd_start);
    assert!(host.relay.gate.is_enabled());
}

#[test]
fn stale_degraded_reconcile_cannot_probe_reconnected_generation() {
    let mut host = Host::connected();
    host.adb.screen_suspended = true;

    host.relay.control_connected();
    host.relay.control_degraded();
    host.relay.control_connected();
    let wake_generation = host.relay.gate.generation();
    host.probe_sleep();

    assert!(host.relay.gate.is_enabled());
    assert_eq!(host.relay.gate.generation(), wake_generation);
    assert_eq!(host.adb.count("activity"), 0);
}

#[test]
fn confirmed_android_sleep_closes_flows_when_control_is_degraded() {
    let mut host = Host::connected();
    host.lifecycle = HostState::Degraded;
    host.adb.mapping_adds = REVERSE_MAPPINGS.len();
    host.adb.screen_suspended = true;
    host.relay.control_degraded();

    host.reconcile(true);

    assert!(!host.relay.gate.is_enabled());
    host.reconcile(true);
    assert_eq!(host.adb.count("activity"), 1);
}

#[test]
fn unconfirmed_control_degradation_keeps_flows_alive_during_grace() {
    let mut host = Host::connected();
    host.lifecycle = HostState::Degraded;
    host.adb.mapping_adds = REVERSE_MAPPINGS.len();
    host.relay.control_degraded();
    let connected_generation = host.relay.gate.generation();

    host.reconcile(true);

    assert_eq!(host.adb.count("activity"), 1);
    assert!(host.relay.gate.is_enabled());
    assert_eq!(host.relay.gate.generation(), connected_generation);
}

#[test]
fn adb_monitor_repairs_all_three_lanes_and_counts_generation() {
    let mut host = Host::connected();
    host.reconcile(true);

    assert_eq!(host.monitor.snapshot().reconnect_generation, 1);
    assert!(host.monitor.snapshot().mappings_healthy);
    assert!(host.relay.gate.is_enabled());
    for mapping in REVERSE_MAPPINGS {
        assert_eq!(host.adb.count(&format!("tcp:{}", mapping.remote)), 1);
    }
    assert_eq!(host.adb.count("get-state"), 0);
}

#[test]
fn a_repair_adds_the_missing_mappings_in_order() {
    let mut host = Host::connected();
    host.reconcile(true);
    let added: Vec<&String> =
        host.adb.calls.iter().filter(|call| call.starts_with("tcp:")).collect();
    assert_eq!(added, ["tcp:31416", "tcp:31417", "tcp:31418"]);
}

#[test]
fn adb_monitor_never_repairs_after_explicit_suppression() {
    let mut host = Host::connected();
    host.monitor.begin_suppress_repairs();
    host.reconcile(true);

    assert!(host.adb.calls.is_empty());
    assert!(host.monitor.snapshot().repair_suppressed);
}

#[test]
fn explicit_stop_preempts_multi_mapping_repair_between_commands() {
    let mut host = Host::connected();
    host.adb.stop_after_adds = 1;
    host.reconcile(true);

    assert_eq!(host.adb.mapping_adds, 1);
    assert!(host.monitor.snapshot().repair_suppressed);
    assert!(host.relay.gate.is_enabled());
}

#[test]
fn confirmed_device_loss_invalidates_active_relay_flows() {
    let session = SessionId([0x7c; 16]);
    let mut host = Host::connected();
    let connected_generation = host.relay.gate.generation();

    host.reconcile(false);

    assert!(!host.relay.gate.is_enabled());
    assert!(host.relay.gate.generation() > connected_generation);
    assert_eq!(host.lifecycle, HostState::Degraded);
    assert_eq!(
        host.monitor.snapshot().last_error.as_deref(),
        Some("device_unavailable")
    );
    update_relay_gate(
        &mut host.relay,
        &StateSnapshot {
            state: HostState::Connected,
            session_id: Some(session.to_text()),
            missed_heartbeats: 0,
            reason: None,
        },
    );
    assert!(!host.relay.gate.is_enabled());
    host.relay.carrier_healthy();
    assert!(host.relay.gate.is_enabled());
}

#[test]
fn tracker_decode_failure_preserves_a_confirmed_carrier() {
    let mut host = Host::connected();
    let connected_generation = host.relay.gate.generation();
    host.monitor.update_status(true, true, true, None);
    host.track_failed(CarrierFailure::TrackDecodeFailed);

    let snapshot = host.monitor.snapshot();
    assert!(!snapshot.active);
    assert!(snapshot.device_available);
    assert!(snapshot.mappings_healthy);
    assert!(host.relay.gate.is_enabled());
    assert_eq!(host.relay.gate.generation(), connected_generation);
    assert_eq!(host.lifecycle, HostState::Connected);
    assert!(!host.monitor.usb_reconnect_pending);
}

#[test]
fn tracker_decode_failure_clears_an_unconfirmed_carrier() {
    let mut host = Host::connected();
    host.adb.device_available = false;
    host.monitor.update_status(true, true, true, None);
    host.track_failed(CarrierFailure::TrackDecodeFailed);

    let snapshot = host.monitor.snapshot();
    assert!(!snapshot.active);
    assert!(!snapshot.device_available);
    assert!(!snapshot.mappings_healthy);
    assert_eq!(host.lifecycle, HostState::Degraded);
    assert!(host.monitor.usb_reconnect_pending);
}

#[test]
fn tracker_transport_failure_remains_fail_closed() {
    let mut host = Host::connected();
    host.monitor.update_status(true, true, true, None);
    host.track_failed(CarrierFailure::TrackReadFailed);

    let snapshot = host.monitor.snapshot();
    assert!(!snapshot.active);
    assert!(!snapshot.device_available);
    assert!(!snapshot.mappings_healthy);
    assert_eq!(host.lifecycle, HostState::Degraded);
    assert!(host.monitor.usb_reconnect_pending);
}

#[test]
fn a_failed_repair_reports_the_loss_once() {
    let mut host = Host::connected();
    host.adb.failing = vec!["tcp:31417"];
    host.reconcile(true);
    assert!(!host.relay.gate.is_enabled());
    assert_eq!(host.reports.len(), 1);
    assert_eq!(host.reports[0].failure, CarrierFailure::MappingRepairFailed);
    assert!(host.reports[0].device_available);
    assert_eq!(
        host.reports[0].reason(),
        "ADB carrier unavailable (mapping_repair_failed)"
    );
    assert_eq!(host.reports[0].category(), "mapping");
    assert_eq!(host.adb.count("tcp:31418"), 0);
    assert_eq!(host.monitor.reconnect_generation, 0);
}

#[test]
fn a_failed_probe_is_no_word_on_the_relay() {
    let mut host = Host::connected();
    host.adb.failing = vec!["--list"];
    host.reconcile(true);
    assert!(host.relay.gate.is_enabled());
    assert_eq!(host.reports.len(), 1);
    assert_eq!(host.reports[0].category(), "device");
    assert_eq!(
        host.monitor.snapshot().last_error.as_deref(),
        Some("mapping_probe_failed")
    );
    host.lifecycle = HostState::Stopped;
    host.reconcile(true);
    assert_eq!(host.monitor.snapshot().last_error, None);
    assert!(host.monitor.snapshot().device_available);
}

#[test]
fn names_of_carrier_failures() {
    let names = [
        (CarrierFailure::DeviceUnavailable, "device_unavailable"),
        (CarrierFailure::MappingRepairFailed, "mapping_repair_failed"),
        (CarrierFailure::MappingProbeFailed, "mapping_probe_failed"),
        (CarrierFailure::MappingProbeWorkerFailed, "mapping_probe_worker_failed"),
        (CarrierFailure::TrackSpawnFailed, "track_spawn_failed"),
        (CarrierFailure::TrackStdoutUnavailable, "track_stdout_unavailable"),
        (CarrierFailure::TrackExited, "track_exited"),
        (CarrierFailure::TrackDecodeFailed, "track_decode_failed"),
        (CarrierFailure::TrackReadFailed, "track_read_failed"),
    ];
    for (failure, name) in names {
        assert_eq!(failure.as_str(), name);
    }
}

#[test]
fn a_recovery_waits_for_a_device_with_the_relay_closed() {
    let mut host = Host::connected();
    assert!(!host.recover(true).0);
    host.monitor.notify_host_resume();
    assert!(host.recover(false).0);
    assert!(!host.relay.gate.is_enabled());
    let snapshot = host.monitor.snapshot();
    assert_eq!(
        snapshot.transport_recovery.state,
        TransportRecoveryState::WaitingForDevice
    );
    assert_eq!(
        snapshot.last_error.as_deref(),
        Some("transport_recovery_waiting_for_device")
    );
    assert!(host.adb.calls.is_empty());
}

#[test]
fn a_second_reconnect_attempt_restarts_the_device_service() {
    let mut host = Host::connected();
    host.adb.failing = vec!["reverse", "start"];
    host.monitor.note_usb_disconnected();
    host.monitor.notify_usb_reconnected_if_needed();
    let (_, first) = host.recover(true);
    assert_eq!(recovery_strategy(first.unwrap()), "mapping_reinstall");
    assert_eq!(
        host.monitor.snapshot().last_error.as_deref(),
        Some("transport_recovery_retry")
    );
    let (_, second) = host.recover(true);
    assert_eq!(recovery_strategy(second.unwrap()), "android_restart");
    assert_eq!(host.adb.count("start"), 1);
    assert_eq!(
        host.monitor.snapshot().last_error.as_deref(),
        Some("transport_recovery_failed")
    );
    assert!(host.monitor.transport_rearm_scheduled.contains(&1));
    assert!(host.recover(true).0);
    assert_eq!(host.adb.count("start"), 1);
}

#[test]
fn superseded_work_is_dropped() {
    let mut host = Host::connected();
    host.monitor.notify_host_resume();
    let action =
        host.monitor.recover_transport(&mut host.relay, RecoverStep::Begin { device_available: true });
    let attempt = match action {
        RecoverAction::AcquireOperation(attempt) => attempt,
        _ => panic!("an attempt was to begin"),
    };
    host.monitor.notify_host_resume();
    let action = host.monitor.recover_transport(
        &mut host.relay,
        RecoverStep::Rebuilt { attempt, outcome: WorkOutcome::Succeeded },
    );
    assert!(matches!(action, RecoverAction::Done));
    assert!(recovery_superseded(&host.monitor, attempt.generation));
    assert!(!recovery_superseded(&host.monitor, attempt.generation + 1));
}

#[test]
fn a_missing_control_connection_is_retried_and_then_given_up() {
    let mut host = Host::connected();
    host.monitor.notify_host_resume();
    let (_, attempt) = host.recover(true);
    let action = host
        .monitor
        .recover_transport(&mut host.relay, RecoverStep::ControlTimeout(attempt.unwrap()));
    assert!(matches!(
        action,
        RecoverAction::ControlTimedOut { will_retry: true, rearm: false, .. }
    ));
    let (_, attempt) = host.recover(true);
    let action = host
        .monitor
        .recover_transport(&mut host.relay, RecoverStep::ControlTimeout(attempt.unwrap()));
    assert!(matches!(
        action,
        RecoverAction::ControlTimedOut { will_retry: false, rearm: true, .. }
    ));
    let action = host
        .monitor
        .recover_transport(&mut host.relay, RecoverStep::ControlTimeout(attempt.unwrap()));
    assert!(matches!(action, RecoverAction::Done));
}

#[test]
fn virtual_desktop_is_launched_three_times_at_most() {
    let mut host = Host::connected();
    host.adb.failing = vec!["launch"];
    host.monitor.notify_host_resume();
    host.recover(true);
    assert!(host.complete());
    assert_eq!(host.adb.count("force-stop"), 3);
    assert_eq!(host.adb.count("service"), 3);
    assert_eq!(host.adb.count("launch"), 3);
    assert_eq!(
        host.monitor.snapshot().last_error.as_deref(),
        Some("transport_recovery_virtual_desktop_retry")
    );
    assert!(!host.complete());
}

#[test]
fn each_failure_of_a_launch_has_its_name() {
    let cases = [
        ("force-stop", "virtual_desktop_stop"),
        ("service", "virtual_desktop_service_recovery"),
        ("launch", "virtual_desktop_restart"),
    ];
    for (failing, name) in cases {
        let mut host = Host::connected();
        host.adb.failing = vec![failing];
        host.monitor.notify_host_resume();
        host.recover(true);
        let mut step = CompletionStep::Begin;
        let last = loop {
            match host.monitor.complete_transport_recovery(step) {
                CompletionAction::AcquireOperation(attempt) => {
                    step = CompletionStep::OperationAcquired(attempt);
                }
                CompletionAction::StopVirtualDesktop(relaunch) => {
                    let outcome = outcome(host.adb.call("force-stop"));
                    step = CompletionStep::Stopped { relaunch, outcome };
                }
                CompletionAction::RestartService(relaunch) => {
                    let outcome = outcome(host.adb.call("service"));
                    step = CompletionStep::ServiceRestarted { relaunch, outcome };
                }
                CompletionAction::RestartVirtualDesktop(relaunch) => {
                    let outcome = outcome(host.adb.call("launch"));
                    step = CompletionStep::Restarted { relaunch, outcome };
                }
                CompletionAction::Retry(relaunch) => break relaunch,
                _ => panic!("every launch fails"),
            }
        };
        assert_eq!(last.failure.as_str(), name);
        assert_eq!(last.number, 3);
    }
}

#[test]
fn a_failed_wait_for_the_connection_starts_the_next_launch() {
    let mut host = Host::connected();
    host.monitor.notify_host_resume();
    host.recover(true);
    let attempt = match host.monitor.complete_transport_recovery(CompletionStep::Begin) {
        CompletionAction::AcquireOperation(attempt) => attempt,
        _ => panic!("the recovery waits for its completion"),
    };
    let relaunch = match host
        .monitor
        .complete_transport_recovery(CompletionStep::OperationAcquired(attempt))
    {
        CompletionAction::StopVirtualDesktop(relaunch) => relaunch,
        _ => panic!("Virtual Desktop is stopped first"),
    };
    let action = host.monitor.complete_transport_recovery(CompletionStep::ConnectionAwaited {
        relaunch,
        result: Err(RecoveryFailure::VirtualDesktopConnectionTimeout),
    });
    match action {
        CompletionAction::StopVirtualDesktop(next) => {
            assert_eq!(next.number, 2);
            assert_eq!(next.failure.as_str(), "virtual_desktop_connection_timeout");
        }
        _ => panic!("a second launch follows"),
    }
    for outcome in [WorkOutcome::Failed, WorkOutcome::TaskFailed] {
        let action = host
            .monitor
            .complete_transport_recovery(CompletionStep::Stopped { relaunch, outcome });
        assert!(matches!(action, CompletionAction::StopVirtualDesktop(_)));
    }
}

fn at(millis: u64) -> Instant {
    Instant { since_start: Duration::from_millis(millis) }
}

#[test]
fn a_connection_counts_once_it_has_lasted() {
    let mut wait = ConnectionWait::new(at(0), Duration::from_secs(45));
    assert_eq!(wait.poll(at(0), false, false), None);
    assert_eq!(wait.poll(at(1_000), false, true), None);
    assert_eq!(wait.poll(at(5_000), false, false), None);
    assert_eq!(wait.poll(at(6_000), false, true), None);
    assert_eq!(wait.poll(at(15_999), false, true), None);
    assert_eq!(wait.poll(at(16_000), false, true), Some(Ok(())));
}

#[test]
fn a_wait_for_a_connection_ends_in_time_or_when_superseded() {
    let mut wait = ConnectionWait::new(at(1_000), Duration::from_secs(45));
    assert_eq!(wait.poll(at(45_999), false, false), None);
    assert_eq!(
        wait.poll(at(46_000), false, false),
        Some(Err(RecoveryFailure::VirtualDesktopConnectionTimeout))
    );
    assert_eq!(
        wait.poll(at(2_000), true, true),
        Some(Err(RecoveryFailure::RecoverySuperseded))
    );
}

#[test]
fn names_of_recovery_failures() {
    let names = [
        (RecoveryFailure::AndroidRestart, "android_restart"),
        (RecoveryFailure::MappingRebuild, "mapping_rebuild"),
        (RecoveryFailure::RecoveryTask, "recovery_task"),
        (RecoveryFailure::RecoverySuperseded, "recovery_superseded"),
        (RecoveryFailure::VirtualDesktopStop, "virtual_desktop_stop"),
        (RecoveryFailure::VirtualDesktopStopTask, "virtual_desktop_stop_task"),
        (
            RecoveryFailure::VirtualDesktopServiceRecovery,
            "virtual_desktop_service_recovery",
        ),
        (
            RecoveryFailure::VirtualDesktopServiceRecoveryTask,
            "virtual_desktop_service_recovery_task",
        ),
        (RecoveryFailure::VirtualDesktopRestart, "virtual_desktop_restart"),
        (RecoveryFailure::VirtualDesktopRestartTask, "virtual_desktop_restart_task"),
        (
            RecoveryFailure::VirtualDesktopConnectionTimeout,
            "virtual_desktop_connection_timeout",
        ),
    ];
    for (failure, name) in names {
        assert_eq!(failure.as_str(), name);
    }
}

#[test]
fn spans_of_a_recovery() {
    assert_eq!(transport_recovery_retry_delay(), Duration::from_secs(1));
    assert_eq!(transport_recovery_control_timeout(), Duration::from_secs(3));
    assert_eq!(virtual_desktop_connection_timeout(), Duration::from_secs(45));
    let timer = rearm_timer(RecoveryAttempt {
        generation: 4,
        attempt: 2,
        trigger: TransportRecoveryTrigger::UsbReconnect,
    });
    assert_eq!(timer.generation, 4);
    assert_eq!(timer.trigger, TransportRecoveryTrigger::UsbReconnect);
    assert_eq!(timer.delay, Duration::from_secs(30));
}

/// Completes a recovery in which a stop comes during a stage of the given launch. That stage ends
/// in `succeeded`; the stages before it succeed, and the launches before it do not connect.
fn completed_with_a_stop(
    launch: u32,
    stopped_during: &str,
    succeeded: bool,
) -> (Vec<&'static str>, CompletionAction, TransportRecoveryState) {
    let mut host = Host::connected();
    host.monitor.notify_host_resume();
    host.recover(true);
    let mut step = CompletionStep::Begin;
    let mut commands = Vec::new();
    loop {
        let action = host.monitor.complete_transport_recovery(step);
        let (name, number) = match &action {
            CompletionAction::AcquireOperation(_) => ("", 0),
            CompletionAction::StopVirtualDesktop(relaunch) => ("force-stop", relaunch.number),
            CompletionAction::RestartService(relaunch) => ("service", relaunch.number),
            CompletionAction::RestartVirtualDesktop(relaunch) => ("launch", relaunch.number),
            CompletionAction::AwaitConnection(relaunch) => ("connection", relaunch.number),
            _ => {
                let state = host.monitor.transport_recovery_snapshot().state;
                return (commands, action, state);
            }
        };
        if number == launch {
            commands.push(name);
        }
        let mut work = WorkOutcome::Succeeded;
        let mut result = Err(RecoveryFailure::VirtualDesktopConnectionTimeout);
        if number == launch && name == stopped_during {
            host.monitor.begin_suppress_repairs();
            work = outcome(succeeded);
            if succeeded {
                result = Ok(());
            }
        }
        step = match action {
            CompletionAction::AcquireOperation(attempt) => {
                CompletionStep::OperationAcquired(attempt)
            }
            CompletionAction::StopVirtualDesktop(relaunch) => {
                CompletionStep::Stopped { relaunch, outcome: work }
            }
            CompletionAction::RestartService(relaunch) => {
                CompletionStep::ServiceRestarted { relaunch, outcome: work }
            }
            CompletionAction::RestartVirtualDesktop(relaunch) => {
                CompletionStep::Restarted { relaunch, outcome: work }
            }
            CompletionAction::AwaitConnection(relaunch) => {
                CompletionStep::ConnectionAwaited { relaunch, result }
            }
            _ => unreachable!(),
        };
    }
}

#[test]
fn a_stop_ends_a_completion_where_a_command_would_follow() {
    let restarting = TransportRecoveryState::RestartingVirtualDesktop;
    for launch in [1, 2] {
        for (stopped_during, succeeded, expected) in [
            ("force-stop", true, vec!["force-stop"]),
            ("force-stop", false, vec!["force-stop"]),
            ("service", true, vec!["force-stop", "service"]),
            ("service", false, vec!["force-stop", "service"]),
            ("launch", true, vec!["force-stop", "service", "launch", "connection"]),
            ("launch", false, vec!["force-stop", "service", "launch"]),
            ("connection", false, vec!["force-stop", "service", "launch", "connection"]),
        ] {
            let (commands, end, state) = completed_with_a_stop(launch, stopped_during, succeeded);
            assert_eq!(commands, expected);
            assert!(matches!(end, CompletionAction::Done));
            assert_eq!(state, restarting);
        }
    }
}

#[test]
fn a_stop_keeps_the_end_of_a_completion() {
    // A connection that is up completes the recovery, stop or not.
    for launch in [1, 2, 3] {
        let (_, end, state) = completed_with_a_stop(launch, "connection", true);
        assert!(matches!(end, CompletionAction::Completed(_)));
        assert_eq!(state, TransportRecoveryState::Recovered);
    }
    // The last launch has no other after it: its failure ends the attempt.
    for stopped_during in ["force-stop", "service", "launch", "connection"] {
        let (_, end, state) = completed_with_a_stop(3, stopped_during, false);
        assert!(matches!(end, CompletionAction::Retry(_)));
        assert_eq!(state, TransportRecoveryState::Pending);
    }
}
