use gnirehtet_vd::monitor::AdbHealthMonitor;
use gnirehtet_vd::state::HostState;
use gnirehtet_vd::time::{Duration, Instant};
use gnirehtet_vd::transport::{virtual_desktop_connection_stable, RecoveryFailure, WorkOutcome};
use gnirehtet_vd::watchdog::{
    virtual_desktop_watchdog_loss_grace, VirtualDesktopWatchdogState, WatchdogAction, WatchdogStep,
};

fn start() -> Instant {
    Instant { since_start: Duration::from_secs(1_000) }
}

#[test]
fn virtual_desktop_watchdog_arms_only_after_a_stable_connection() {
    let mut watchdog = VirtualDesktopWatchdogState::default();
    let started = start();

    assert!(!watchdog.observe(started, false, true));
    assert!(!watchdog.observe(started.plus(Duration::from_secs(30)), false, true));
    assert!(!watchdog.observe(started.plus(Duration::from_secs(31)), true, true));
    assert!(!watchdog.observe(
        started.plus(Duration::from_secs(31)).plus(virtual_desktop_connection_stable()),
        true,
        true,
    ));
    assert!(watchdog.armed);
}

#[test]
fn virtual_desktop_watchdog_waits_for_loss_grace_and_recovery_eligibility() {
    let mut watchdog = VirtualDesktopWatchdogState::default();
    let started = start();
    watchdog.observe(started, true, true);
    watchdog.observe(started.plus(virtual_desktop_connection_stable()), true, true);
    let lost = started.plus(virtual_desktop_connection_stable()).plus(Duration::from_secs(1));

    assert!(!watchdog.observe(lost, false, true));
    assert!(!watchdog.observe(lost.plus(virtual_desktop_watchdog_loss_grace()), false, false));
    assert!(watchdog.observe(
        lost.plus(virtual_desktop_watchdog_loss_grace()).plus(Duration::from_millis(1)),
        false,
        true,
    ));
}

#[test]
fn calls_for_recovery_are_spaced() {
    let mut watchdog = VirtualDesktopWatchdogState::default();
    let started = start();
    watchdog.observe(started, true, true);
    watchdog.observe(started.plus(Duration::from_secs(10)), true, true);
    assert!(!watchdog.observe(started.plus(Duration::from_secs(11)), false, true));
    assert!(watchdog.observe(started.plus(Duration::from_secs(19)), false, true));
    assert!(!watchdog.observe(started.plus(Duration::from_secs(26)), false, true));
    assert!(watchdog.observe(started.plus(Duration::from_secs(27)), false, true));
    assert!(!watchdog.observe(started.plus(Duration::from_secs(28)), true, true));
    assert!(!watchdog.observe(started.plus(Duration::from_secs(29)), false, true));
    assert!(!watchdog.observe(started.plus(Duration::from_secs(36)), false, true));
    assert!(watchdog.observe(started.plus(Duration::from_secs(37)), false, true));
}

#[test]
fn a_sustained_loss_leads_to_a_call() {
    let mut watchdog = VirtualDesktopWatchdogState::default();
    let started = start();
    for second in 0..=10 {
        watchdog.observe(started.plus(Duration::from_secs(second)), true, true);
    }
    let mut calls = Vec::new();
    for second in 11..=40 {
        if watchdog.observe(started.plus(Duration::from_secs(second)), false, second >= 20) {
            calls.push(second);
        }
    }
    assert_eq!(calls, [20, 28, 36]);
}

fn armed() -> VirtualDesktopWatchdogState {
    VirtualDesktopWatchdogState {
        armed: true,
        connected_since: None,
        disconnected_since: Some(start()),
    }
}

fn sample(lifecycle: HostState) -> WatchdogStep {
    WatchdogStep::Sampled {
        now: start().plus(Duration::from_secs(8)),
        lifecycle,
        connected: false,
    }
}

#[test]
fn a_round_stops_restarts_and_launches_in_order() {
    let monitor = AdbHealthMonitor::default();
    let mut watchdog = armed();
    assert_eq!(
        watchdog.step(&monitor, sample(HostState::Connected)),
        WatchdogAction::AcquireOperation
    );
    assert_eq!(
        watchdog.step(&monitor, WatchdogStep::OperationAcquired { connected: false }),
        WatchdogAction::StopVirtualDesktop
    );
    assert_eq!(
        watchdog.step(&monitor, WatchdogStep::Stopped(WorkOutcome::Succeeded)),
        WatchdogAction::RestartService
    );
    assert_eq!(
        watchdog.step(&monitor, WatchdogStep::ServiceRestarted(WorkOutcome::Succeeded)),
        WatchdogAction::RestartVirtualDesktop
    );
    assert_eq!(
        watchdog.step(&monitor, WatchdogStep::Restarted(WorkOutcome::Succeeded)),
        WatchdogAction::AwaitConnection
    );
}

#[test]
fn a_round_fails_with_the_name_of_what_failed() {
    let monitor = AdbHealthMonitor::default();
    let mut watchdog = armed();
    assert_eq!(
        watchdog.step(&monitor, WatchdogStep::OperationAcquired { connected: true }),
        WatchdogAction::Failed(RecoveryFailure::RecoverySuperseded)
    );
    assert_eq!(
        watchdog.step(&monitor, WatchdogStep::Stopped(WorkOutcome::TaskFailed)),
        WatchdogAction::Failed(RecoveryFailure::VirtualDesktopStop)
    );
    assert_eq!(
        watchdog.step(&monitor, WatchdogStep::ServiceRestarted(WorkOutcome::Failed)),
        WatchdogAction::Failed(RecoveryFailure::VirtualDesktopServiceRecovery)
    );
    assert_eq!(
        watchdog.step(&monitor, WatchdogStep::Restarted(WorkOutcome::Failed)),
        WatchdogAction::Failed(RecoveryFailure::VirtualDesktopRestart)
    );
    assert_eq!(
        watchdog.step(&monitor, WatchdogStep::Restarted(WorkOutcome::TaskFailed)),
        WatchdogAction::Failed(RecoveryFailure::VirtualDesktopRestartTask)
    );
}

#[test]
fn the_watchdog_leaves_a_recovering_or_stopping_monitor_alone() {
    let mut monitor = AdbHealthMonitor::default();
    let mut watchdog = armed();
    assert_eq!(
        watchdog.step(&monitor, sample(HostState::Degraded)),
        WatchdogAction::Wait
    );
    monitor.notify_host_resume();
    assert_eq!(
        watchdog.step(&monitor, sample(HostState::Connected)),
        WatchdogAction::Wait
    );
    assert_eq!(
        watchdog.step(&monitor, WatchdogStep::Stopped(WorkOutcome::Succeeded)),
        WatchdogAction::Failed(RecoveryFailure::RecoverySuperseded)
    );
    monitor.begin_suppress_repairs();
    assert_eq!(
        watchdog.step(&monitor, sample(HostState::Connected)),
        WatchdogAction::Return
    );
}
