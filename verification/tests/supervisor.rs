use gnirehtet_vd::monitor::AdbHealthMonitor;
use gnirehtet_vd::reconcile::CarrierFailure;
use gnirehtet_vd::supervisor::{
    healthy_interval, initial_backoff, max_backoff, monitor_adb_timeout,
    should_reconcile_on_healthy_tick, DeviceTracking, Pass, PassSource, TrackingAction,
    TrackingStep, Turn,
};
use gnirehtet_vd::time::{next_backoff, Duration};

#[test]
fn adb_health_backoff_caps_at_five_seconds() {
    let maximum = Duration::from_secs(5);
    let first = next_backoff(Duration::from_millis(250), maximum);
    let second = next_backoff(first, maximum);
    let third = next_backoff(second, maximum);
    let fourth = next_backoff(third, maximum);
    let fifth = next_backoff(fourth, maximum);
    assert_eq!(first, Duration::from_millis(500));
    assert_eq!(second, Duration::from_secs(1));
    assert_eq!(third, Duration::from_secs(2));
    assert_eq!(fourth, Duration::from_secs(4));
    assert_eq!(fifth, maximum);
}

#[test]
fn healthy_timer_avoids_repeated_adb_transport_probes() {
    assert!(!should_reconcile_on_healthy_tick(false, Some(true), true));
    assert!(!should_reconcile_on_healthy_tick(false, Some(false), false));
    assert!(!should_reconcile_on_healthy_tick(false, None, false));
    assert!(should_reconcile_on_healthy_tick(false, Some(true), false));
    assert!(should_reconcile_on_healthy_tick(true, Some(true), true));
}

fn plain(action: TrackingAction) -> Turn {
    Turn { action, wake_again: false }
}

fn update(available: bool, forced: bool) -> Pass {
    Pass { source: PassSource::Update(available), forced }
}

fn started() -> (DeviceTracking, AdbHealthMonitor) {
    let mut tracking = DeviceTracking::new();
    let mut monitor = AdbHealthMonitor::default();
    assert_eq!(
        tracking.step(&mut monitor, TrackingStep::Start),
        plain(TrackingAction::SpawnTracker)
    );
    assert_eq!(
        tracking.step(&mut monitor, TrackingStep::TrackerSpawned),
        plain(TrackingAction::AwaitEvent)
    );
    assert!(monitor.status.active);
    (tracking, monitor)
}

#[test]
fn spans_of_the_loop() {
    assert_eq!(healthy_interval(), Duration::from_secs(2));
    assert_eq!(monitor_adb_timeout(), Duration::from_millis(500));
    assert_eq!(initial_backoff(), Duration::from_millis(250));
    assert_eq!(max_backoff(), Duration::from_secs(5));
}

#[test]
fn each_update_is_recovered_and_reconciled_in_turn() {
    let (mut tracking, mut monitor) = started();
    let stream = b"0016private-serial\tdevice\n0000".to_vec();
    assert_eq!(
        tracking.step(&mut monitor, TrackingStep::Read(stream)),
        plain(TrackingAction::RecoverTransport {
            pass: update(true, false),
            device_available: true,
        })
    );
    assert_eq!(
        tracking.step(
            &mut monitor,
            TrackingStep::RecoveryTried { pass: update(true, false), handled: false },
        ),
        plain(TrackingAction::Reconcile { pass: update(true, false), device_available: true })
    );
    assert_eq!(
        tracking.step(&mut monitor, TrackingStep::Reconciled(update(true, false))),
        plain(TrackingAction::RecoverTransport {
            pass: update(false, false),
            device_available: false,
        })
    );
    assert_eq!(
        tracking.step(
            &mut monitor,
            TrackingStep::RecoveryTried { pass: update(false, false), handled: false },
        ),
        plain(TrackingAction::Reconcile { pass: update(false, false), device_available: false })
    );
    assert_eq!(
        tracking.step(&mut monitor, TrackingStep::Reconciled(update(false, false))),
        plain(TrackingAction::AwaitEvent)
    );
    assert_eq!(tracking.device_available, Some(false));
    assert_eq!(
        tracking.step(&mut monitor, TrackingStep::HealthyTick),
        plain(TrackingAction::AwaitEvent)
    );
    assert_eq!(
        tracking.step(&mut monitor, TrackingStep::Changed),
        plain(TrackingAction::AwaitEvent)
    );
}

#[test]
fn a_returning_device_sets_a_recovery_off() {
    let (mut tracking, mut monitor) = started();
    monitor.note_usb_disconnected();
    let turn = tracking.step(
        &mut monitor,
        TrackingStep::Read(b"0016private-serial\tdevice\n".to_vec()),
    );
    assert!(matches!(turn.action, TrackingAction::RecoverTransport { .. }));
    assert!(monitor.transport_requires_recovery());
    assert_eq!(
        tracking.step(
            &mut monitor,
            TrackingStep::RecoveryTried { pass: update(true, false), handled: true },
        ),
        plain(TrackingAction::AwaitEvent)
    );
    assert_eq!(
        tracking.step(&mut monitor, TrackingStep::HealthyTick),
        plain(TrackingAction::RecoverTransport {
            pass: Pass { source: PassSource::HealthyTick, forced: false },
            device_available: true,
        })
    );
}

#[test]
fn an_authenticated_connection_forces_a_pass_and_renews_it() {
    let (mut tracking, mut monitor) = started();
    monitor.notify_authenticated_connection();
    let pass = Pass { source: PassSource::Changed, forced: true };
    assert_eq!(
        tracking.step(&mut monitor, TrackingStep::Changed),
        plain(TrackingAction::CompleteRecovery(pass))
    );
    assert_eq!(
        tracking.step(
            &mut monitor,
            TrackingStep::CompletionTried { pass, completed: false },
        ),
        plain(TrackingAction::Reconcile { pass, device_available: true })
    );
    assert_eq!(
        tracking.step(&mut monitor, TrackingStep::Reconciled(pass)),
        Turn { action: TrackingAction::AwaitEvent, wake_again: true }
    );
    assert!(monitor.authenticated_reconcile);
    assert_eq!(
        tracking.step(&mut monitor, TrackingStep::CompletionTried { pass, completed: true }),
        plain(TrackingAction::AwaitEvent)
    );
}

#[test]
fn each_end_of_the_tracker_has_its_failure() {
    let (mut tracking, mut monitor) = started();
    let cases = [
        (TrackingStep::Read(Vec::new()), CarrierFailure::TrackExited),
        (TrackingStep::ReadFailed, CarrierFailure::TrackReadFailed),
        (TrackingStep::Read(b"ffff".to_vec()), CarrierFailure::TrackDecodeFailed),
    ];
    for (step, failure) in cases {
        assert_eq!(
            tracking.step(&mut monitor, step),
            plain(TrackingAction::StopTracker(Some(failure)))
        );
        assert_eq!(
            tracking.step(&mut monitor, TrackingStep::TrackerStopped(Some(failure))),
            plain(TrackingAction::HandleFailure(failure))
        );
    }
    assert_eq!(
        tracking.step(&mut monitor, TrackingStep::TrackerSpawnFailed),
        plain(TrackingAction::HandleFailure(CarrierFailure::TrackSpawnFailed))
    );
    assert_eq!(
        tracking.step(&mut monitor, TrackingStep::TrackerStdoutUnavailable),
        plain(TrackingAction::HandleFailure(CarrierFailure::TrackStdoutUnavailable))
    );
    assert_eq!(
        tracking.step(&mut monitor, TrackingStep::FailureHandled),
        plain(TrackingAction::Sleep)
    );
}

#[test]
fn the_wait_doubles_until_a_tracker_lives_through_an_interval() {
    let (mut tracking, mut monitor) = started();
    for millis in [500, 1_000, 2_000, 4_000, 5_000, 5_000] {
        assert_eq!(
            tracking.step(&mut monitor, TrackingStep::Slept),
            plain(TrackingAction::SpawnTracker)
        );
        assert_eq!(tracking.backoff, Duration::from_millis(millis));
    }
    tracking.step(&mut monitor, TrackingStep::TrackerSpawned);
    assert_eq!(tracking.backoff, Duration::from_secs(5));
    tracking.step(&mut monitor, TrackingStep::HealthyTick);
    assert_eq!(tracking.backoff, Duration::from_millis(250));
}

#[test]
fn stopping_ends_the_loop_at_every_turn() {
    let (mut tracking, mut monitor) = started();
    monitor.begin_suppress_repairs();
    assert_eq!(
        tracking.step(&mut monitor, TrackingStep::Changed),
        plain(TrackingAction::StopTracker(None))
    );
    assert_eq!(
        tracking.step(&mut monitor, TrackingStep::HealthyTick),
        plain(TrackingAction::StopTracker(None))
    );
    assert_eq!(
        tracking.step(
            &mut monitor,
            TrackingStep::TrackerStopped(Some(CarrierFailure::TrackExited)),
        ),
        plain(TrackingAction::Return)
    );
    assert_eq!(
        tracking.step(&mut monitor, TrackingStep::Slept),
        plain(TrackingAction::Return)
    );
    assert_eq!(
        tracking.step(&mut monitor, TrackingStep::Start),
        plain(TrackingAction::Return)
    );
}
