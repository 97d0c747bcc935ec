use gnirehtet_vd::monitor::AdbHealthMonitor;
use gnirehtet_vd::paths::{AppPaths, Environment};
use gnirehtet_vd::relay::{RelayGate, RelayGateController};
use gnirehtet_vd::runtime::{
    flatten_runtime_task, lost_persistence_metrics, observe_state, observe_wake,
    persistence_metrics, process_generation, sample_interval, sample_timing, saturated_micros,
    DiagnosticWriteMetrics, HostRuntime, IpAddr, Ports, RunAction, RunStage, RunStep,
    RuntimeConfig, RuntimeError, SocketAddr,
};
use gnirehtet_vd::state::{
    HostState, SessionId, StateSnapshot, CONTROL_TRANSPORT_LOST_REASON,
};
use gnirehtet_vd::time::{Duration, Instant};

fn config() -> RuntimeConfig {
    let environment = Environment {
        gnirehtet_vd_home: None,
        local_app_data: None,
        xdg_state_home: None,
        home: None,
        temp_dir: "/tmp".to_owned(),
    };
    RuntimeConfig::new(
        SessionId([0x11; 16]),
        true,
        AppPaths::discover(None, environment, false),
        Ports { control: 1, socks: 2, udp_stream: 3 },
        "adb".to_owned(),
    )
}

#[test]
fn the_usual_configuration_listens_on_this_host() {
    let config = config();
    assert_eq!(config.control_bind, SocketAddr { ip: IpAddr::V4(127, 0, 0, 1), port: 1 });
    assert_eq!(config.socks_bind.port, 2);
    assert_eq!(config.udp_bind.port, 3);
    assert!(config.all_traffic);
    let runtime = HostRuntime::new(config).unwrap();
    let lifecycle = runtime.initial_lifecycle();
    assert_eq!(lifecycle.state, HostState::Preparing);
    assert_eq!(
        lifecycle.session_id.as_deref(),
        Some("11111111111111111111111111111111")
    );
}

#[test]
fn a_listener_that_others_reach_is_refused() {
    let exposed = SocketAddr { ip: IpAddr::V4(0, 0, 0, 0), port: 9 };
    let mut first = config();
    first.control_bind = exposed;
    first.udp_bind = SocketAddr { ip: IpAddr::V6(0), port: 8 };
    assert!(matches!(HostRuntime::new(first), Err(RuntimeError::NonLoopback(addr)) if addr == exposed));
    let mut second = config();
    second.socks_bind = exposed;
    assert!(matches!(HostRuntime::new(second), Err(RuntimeError::NonLoopback(addr)) if addr == exposed));
    let mut third = config();
    third.udp_bind = exposed;
    assert!(matches!(HostRuntime::new(third), Err(RuntimeError::NonLoopback(addr)) if addr == exposed));
}

#[test]
fn loopback_addresses() {
    assert!(IpAddr::V4(127, 255, 0, 9).is_loopback());
    assert!(!IpAddr::V4(128, 0, 0, 1).is_loopback());
    assert!(IpAddr::V6(1).is_loopback());
    assert!(!IpAddr::V6(2).is_loopback());
}

fn snapshot(state: HostState, reason: Option<&str>) -> StateSnapshot {
    StateSnapshot {
        state,
        session_id: None,
        missed_heartbeats: 0,
        reason: reason.map(|reason| reason.to_owned()),
    }
}

#[test]
fn the_relay_and_the_monitor_follow_the_lifecycle() {
    let mut relay = RelayGateController::new(RelayGate::default());
    let mut monitor = AdbHealthMonitor::default();
    observe_state(&mut relay, &mut monitor, &snapshot(HostState::Connected, None));
    assert!(relay.gate.is_enabled());
    assert!(monitor.take_authenticated_reconcile());
    assert!(monitor.take_wake_requests().one);
    let epoch = observe_state(
        &mut relay,
        &mut monitor,
        &snapshot(HostState::Degraded, Some(CONTROL_TRANSPORT_LOST_REASON)),
    );
    assert_eq!(epoch, Some(relay.eligibility.control_epoch));
    assert!(!monitor.take_authenticated_reconcile());
    assert!(monitor.take_wake_requests().one);
    observe_wake(&mut relay, &mut monitor);
    assert!(!relay.gate.is_enabled());
    assert!(monitor.take_authenticated_reconcile());
}

#[test]
fn the_process_generation_saturates() {
    assert_eq!(process_generation(1_700_000_000_000, 42), 1_700_000_000_000_042);
    assert_eq!(process_generation(u128::MAX, 42), u128::MAX);
    assert_eq!(process_generation(u128::MAX / 1_000, u32::MAX), u128::MAX);
}

#[test]
fn samples_are_timed() {
    let start = Instant { since_start: Duration::from_secs(10) };
    let first = sample_timing(None, start);
    assert_eq!(first.sample_interval_us, 1_000_000);
    assert_eq!(first.scheduler_lag_us, 0);
    let late = sample_timing(Some(start), start.plus(Duration::from_millis(1_250)));
    assert_eq!(late.sample_interval_us, 1_250_000);
    assert_eq!(late.scheduler_lag_us, 250_000);
    let early = sample_timing(Some(start), start.plus(Duration::from_millis(900)));
    assert_eq!(early.sample_interval_us, 900_000);
    assert_eq!(early.scheduler_lag_us, 0);
    let back = sample_timing(Some(start.plus(Duration::from_secs(1))), start);
    assert_eq!(back.sample_interval_us, 0);
    assert_eq!(sample_interval(), Duration::from_secs(1));
    assert_eq!(saturated_micros(Duration::from_secs(u64::MAX)), u64::MAX);
}

#[test]
fn persistence_is_measured() {
    let written = DiagnosticWriteMetrics { duration_us: 9, rotated: true };
    let metrics = persistence_metrics(Some(written), Duration::from_millis(2), true);
    assert_eq!(metrics.diagnostics, written);
    assert_eq!(metrics.status_write_us, 2_000);
    assert!(!metrics.failed);
    assert!(persistence_metrics(None, Duration::from_millis(2), true).failed);
    assert!(persistence_metrics(Some(written), Duration::from_millis(2), false).failed);
    assert!(lost_persistence_metrics().failed);
}

#[test]
fn a_task_that_was_lost_counts_as_failed() {
    assert!(flatten_runtime_task(Ok(Ok(()))).is_ok());
    assert!(matches!(
        flatten_runtime_task(Ok(Err(RuntimeError::AdminTimeout))),
        Err(RuntimeError::AdminTimeout)
    ));
    assert!(matches!(
        flatten_runtime_task(Err("cancelled".to_owned())),
        Err(RuntimeError::Io(message)) if message == "cancelled"
    ));
}

#[test]
fn a_run_goes_through_its_stages_in_order() {
    let mut monitor = AdbHealthMonitor::default();
    let stages = [
        RunStage::KillJob,
        RunStage::RuntimeLock,
        RunStage::Diagnostics,
        RunStage::Identity,
        RunStage::NotReady,
        RunStage::Servers,
        RunStage::Listeners,
        RunStage::Tasks,
        RunStage::AdminReady,
        RunStage::Ready,
        RunStage::Serving,
    ];
    let mut step = RunStep::Begin;
    for stage in stages {
        match HostRuntime::run(&mut monitor, step) {
            RunAction::Perform(next) => assert_eq!(next, stage),
            _ => panic!("a stage was to be performed"),
        }
        step = RunStep::Completed(stage);
    }
    assert!(!monitor.stopping);
    assert!(matches!(
        HostRuntime::run(&mut monitor, RunStep::Ended(Err(RuntimeError::AdminTransportClosed))),
        RunAction::DrainRepairs(Err(RuntimeError::AdminTransportClosed))
    ));
    assert!(monitor.stopping);
    assert!(matches!(
        HostRuntime::run(
            &mut monitor,
            RunStep::RepairsDrained(Err(RuntimeError::AdminTransportClosed)),
        ),
        RunAction::Finish(Err(RuntimeError::AdminTransportClosed))
    ));
}

#[test]
fn a_run_that_fails_to_start_is_abandoned() {
    let mut monitor = AdbHealthMonitor::default();
    assert!(matches!(
        HostRuntime::run(&mut monitor, RunStep::Failed(RuntimeError::AdminTransportUnsupported)),
        RunAction::Abandon(RuntimeError::AdminTransportUnsupported)
    ));
    assert!(!monitor.stopping);
}
