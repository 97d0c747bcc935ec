use gnirehtet_vd::monitor::AdbHealthMonitor;
use gnirehtet_vd::recovery::{
    should_reset_virtual_desktop_service, RecoveryAttempt, TransportRecoveryState,
    TransportRecoveryTrigger,
};
use gnirehtet_vd::time::Duration;

fn attempt(
    generation: u64,
    attempt: u32,
    trigger: TransportRecoveryTrigger,
) -> Option<RecoveryAttempt> {
    Some(RecoveryAttempt { generation, attempt, trigger })
}

#[test]
fn host_resume_recovery_is_bounded_to_two_attempts() {
    let mut monitor = AdbHealthMonitor::default();
    let generation = monitor.notify_host_resume();
    assert_eq!(generation, 1);
    assert_eq!(
        monitor.begin_transport_recovery_attempt(),
        attempt(1, 1, TransportRecoveryTrigger::HostResume)
    );
    assert!(monitor.finish_transport_recovery_attempt(1, false));
    assert_eq!(
        monitor.begin_transport_recovery_attempt(),
        attempt(1, 2, TransportRecoveryTrigger::HostResume)
    );
    assert!(!monitor.finish_transport_recovery_attempt(1, false));
    assert_eq!(monitor.begin_transport_recovery_attempt(), None);
    assert_eq!(
        monitor.snapshot().transport_recovery.state,
        TransportRecoveryState::Failed
    );
}

#[test]
fn terminal_recovery_rearms_exactly_once_per_external_generation() {
    let mut monitor = AdbHealthMonitor::default();
    let generation = monitor.notify_host_resume();
    assert_eq!(
        monitor.begin_transport_recovery_attempt(),
        attempt(generation, 1, TransportRecoveryTrigger::HostResume)
    );
    assert!(monitor.finish_transport_recovery_attempt(generation, false));
    assert_eq!(
        monitor.begin_transport_recovery_attempt(),
        attempt(generation, 2, TransportRecoveryTrigger::HostResume)
    );
    assert!(!monitor.finish_transport_recovery_attempt(generation, false));

    let fallback_generation = monitor
        .rearm_failed_transport(generation, TransportRecoveryTrigger::HostResume)
        .unwrap();
    let snapshot = monitor.snapshot();
    assert_eq!(snapshot.transport_recovery.generation, fallback_generation);
    assert_eq!(snapshot.transport_recovery.attempt, 0);
    assert_eq!(
        snapshot.transport_recovery.state,
        TransportRecoveryState::Pending
    );
    assert_eq!(
        snapshot.last_error.as_deref(),
        Some("transport_recovery_rearmed")
    );

    assert_eq!(
        monitor.begin_transport_recovery_attempt(),
        attempt(fallback_generation, 1, TransportRecoveryTrigger::HostResume)
    );
    assert!(monitor.finish_transport_recovery_attempt(fallback_generation, false));
    assert_eq!(
        monitor.begin_transport_recovery_attempt(),
        attempt(fallback_generation, 2, TransportRecoveryTrigger::HostResume)
    );
    assert!(!monitor.finish_transport_recovery_attempt(fallback_generation, false));
    assert_eq!(
        monitor.rearm_failed_transport(fallback_generation, TransportRecoveryTrigger::HostResume),
        None
    );

    let next_external_generation = monitor.notify_host_resume();
    assert!(next_external_generation > fallback_generation);
    assert_eq!(
        monitor.begin_transport_recovery_attempt(),
        attempt(next_external_generation, 1, TransportRecoveryTrigger::HostResume)
    );
}

#[test]
fn terminal_recovery_scheduler_rearms_once_after_its_delay() {
    let mut monitor = AdbHealthMonitor::default();
    let generation = monitor.notify_host_resume();
    monitor.begin_transport_recovery_attempt().unwrap();
    assert!(monitor.finish_transport_recovery_attempt(generation, false));
    monitor.begin_transport_recovery_attempt().unwrap();
    assert!(!monitor.finish_transport_recovery_attempt(generation, false));

    let mut timers = Vec::new();
    for _ in 0..2 {
        if let Some(timer) = monitor.schedule_transport_recovery_rearm_after(
            generation,
            TransportRecoveryTrigger::HostResume,
            Duration::from_millis(10),
        ) {
            timers.push(timer);
        }
    }
    assert_eq!(timers.len(), 1);
    assert_eq!(timers[0].delay, Duration::from_millis(10));
    for timer in &timers {
        assert_eq!(monitor.transport_rearm_due(timer), Some(generation + 1));
    }

    let fallback = monitor.snapshot().transport_recovery;
    assert_eq!(fallback.generation, generation + 1);
    assert_eq!(fallback.attempt, 0);
    assert_eq!(fallback.state, TransportRecoveryState::Pending);
    assert!(monitor.transport_rearm_scheduled.is_empty());

    monitor.begin_transport_recovery_attempt().unwrap();
    assert!(monitor.finish_transport_recovery_attempt(fallback.generation, false));
    monitor.begin_transport_recovery_attempt().unwrap();
    assert!(!monitor.finish_transport_recovery_attempt(fallback.generation, false));
    assert!(monitor
        .schedule_transport_recovery_rearm_after(
            fallback.generation,
            TransportRecoveryTrigger::HostResume,
            Duration::from_millis(10),
        )
        .is_none());
    assert_eq!(
        monitor.snapshot().transport_recovery.state,
        TransportRecoveryState::Failed
    );
}

#[test]
fn transport_recovery_resets_the_virtual_desktop_service_before_the_first_relaunch() {
    assert!(should_reset_virtual_desktop_service(
        TransportRecoveryTrigger::HostResume,
        1,
    ));
    assert!(should_reset_virtual_desktop_service(
        TransportRecoveryTrigger::UsbReconnect,
        1,
    ));
    assert!(should_reset_virtual_desktop_service(
        TransportRecoveryTrigger::UsbReconnect,
        2,
    ));
}

#[test]
fn usb_reconnect_control_timeout_retries_once_then_fails() {
    let mut monitor = AdbHealthMonitor::default();
    monitor.note_usb_disconnected();
    assert!(monitor.notify_usb_reconnected_if_needed());
    assert_eq!(
        monitor.begin_transport_recovery_attempt(),
        attempt(1, 1, TransportRecoveryTrigger::UsbReconnect)
    );
    assert!(!monitor.finish_transport_recovery_attempt(1, true));
    assert_eq!(monitor.expire_transport_recovery_control(1, 1), Some(true));
    assert_eq!(
        monitor.begin_transport_recovery_attempt(),
        attempt(1, 2, TransportRecoveryTrigger::UsbReconnect)
    );
    assert!(!monitor.finish_transport_recovery_attempt(1, true));
    assert_eq!(monitor.expire_transport_recovery_control(1, 2), Some(false));
    assert_eq!(
        monitor.snapshot().transport_recovery.state,
        TransportRecoveryState::Failed
    );
}

#[test]
fn reports_of_an_earlier_generation_are_ignored() {
    let mut monitor = AdbHealthMonitor::default();
    let stale = monitor.notify_host_resume();
    monitor.begin_transport_recovery_attempt().unwrap();
    let current = monitor.notify_host_resume();
    assert_eq!(current, stale + 1);
    assert!(!monitor.finish_transport_recovery_attempt(stale, true));
    assert_eq!(monitor.expire_transport_recovery_control(stale, 1), None);
    assert_eq!(monitor.finish_virtual_desktop_restart(stale, 1, true), None);
    assert_eq!(
        monitor.transport_recovery_snapshot().state,
        TransportRecoveryState::Pending
    );
}

#[test]
fn a_resume_absorbs_a_pending_reconnect() {
    let mut monitor = AdbHealthMonitor::default();
    monitor.note_usb_disconnected();
    monitor.notify_host_resume();
    assert!(!monitor.notify_usb_reconnected_if_needed());
    monitor.note_usb_disconnected();
    assert!(!monitor.usb_reconnect_pending);
    assert_eq!(
        monitor.transport_recovery_snapshot().trigger,
        Some(TransportRecoveryTrigger::HostResume)
    );
}

#[test]
fn a_recovery_without_a_device_starts_over_once_there_is_one() {
    let mut monitor = AdbHealthMonitor::default();
    monitor.notify_host_resume();
    monitor.begin_transport_recovery_attempt().unwrap();
    monitor.finish_transport_recovery_attempt(1, false);
    monitor.wait_for_recovery_device();
    assert_eq!(
        monitor.transport_recovery_snapshot().state,
        TransportRecoveryState::WaitingForDevice
    );
    assert!(monitor.transport_requires_recovery());
    assert_eq!(
        monitor.begin_transport_recovery_attempt(),
        attempt(1, 1, TransportRecoveryTrigger::HostResume)
    );
}

#[test]
fn a_restart_follows_the_rebuilding_of_the_mappings_only() {
    let mut monitor = AdbHealthMonitor::default();
    assert_eq!(monitor.begin_virtual_desktop_restart(), None);
    monitor.notify_host_resume();
    assert_eq!(monitor.begin_virtual_desktop_restart(), None);
    monitor.begin_transport_recovery_attempt().unwrap();
    monitor.finish_transport_recovery_attempt(1, true);
    assert_eq!(
        monitor.begin_virtual_desktop_restart(),
        attempt(1, 1, TransportRecoveryTrigger::HostResume)
    );
    assert_eq!(monitor.finish_virtual_desktop_restart(1, 1, false), Some(true));
    assert_eq!(
        monitor.snapshot().last_error.as_deref(),
        Some("transport_recovery_virtual_desktop_retry")
    );
}

#[test]
fn rearming_waits_for_half_a_minute_and_not_while_stopping() {
    let mut monitor = AdbHealthMonitor::default();
    let generation = monitor.notify_host_resume();
    for _ in 0..2 {
        monitor.begin_transport_recovery_attempt().unwrap();
        monitor.finish_transport_recovery_attempt(generation, false);
    }
    let timer = monitor
        .schedule_transport_recovery_rearm(generation, TransportRecoveryTrigger::HostResume)
        .unwrap();
    assert_eq!(timer.delay, Duration::from_secs(30));
    monitor.begin_suppress_repairs();
    assert_eq!(monitor.transport_rearm_due(&timer), None);
}

#[test]
fn probes_are_counted_and_the_longest_is_kept() {
    let mut monitor = AdbHealthMonitor::default();
    monitor.record_mapping_probe(Duration::from_millis(5));
    monitor.record_mapping_probe(Duration::from_millis(2));
    let snapshot = monitor.snapshot();
    assert_eq!(snapshot.mapping_probe_count, 2);
    assert_eq!(snapshot.mapping_probe_last_us, 2_000);
    assert_eq!(snapshot.mapping_probe_max_us, 5_000);
    monitor.record_mapping_probe(Duration::from_secs(u64::MAX));
    assert_eq!(monitor.snapshot().mapping_probe_max_us, u64::MAX);
}

#[test]
fn wakes_are_asked_for_and_taken_once() {
    let mut monitor = AdbHealthMonitor::default();
    assert!(!monitor.take_wake_requests().one);
    monitor.notify_state_change();
    assert!(monitor.take_wake_requests().one);
    assert!(!monitor.take_wake_requests().one);
    monitor.notify_authenticated_connection();
    assert!(monitor.take_authenticated_reconcile());
    assert!(!monitor.take_authenticated_reconcile());
    assert_eq!(
        monitor.retry_authenticated_reconcile_if_needed(),
        Some(Duration::from_millis(100))
    );
    monitor.begin_suppress_repairs();
    assert!(monitor.take_wake_requests().all);
    assert_eq!(monitor.retry_authenticated_reconcile_if_needed(), None);
}

#[test]
fn the_number_of_a_repair_saturates_while_its_counter_wraps() {
    let mut monitor = AdbHealthMonitor::default();
    assert_eq!(monitor.count_reconnect(), 1);
    monitor.reconnect_generation = u64::MAX;
    assert_eq!(monitor.count_reconnect(), u64::MAX);
    assert_eq!(monitor.reconnect_generation, 0);
}
