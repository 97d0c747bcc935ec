use gnirehtet_vd::relay::{update_relay_gate, RelayGate, RelayGateController};
use gnirehtet_vd::state::{
    HostState, SessionId, StateSnapshot, CONTROL_TRANSPORT_LOST_REASON, TRANSPORT_RECOVERY_REASON,
};
use gnirehtet_vd::supervisor::cached_device_is_available;
use gnirehtet_vd::time::Duration;

fn lifecycle(state: HostState, session: &str) -> StateSnapshot {
    StateSnapshot {
        state,
        session_id: Some(session.to_owned()),
        missed_heartbeats: 0,
        reason: if state == HostState::Degraded {
            Some(CONTROL_TRANSPORT_LOST_REASON.to_owned())
        } else {
            None
        },
    }
}

#[test]
fn stale_unavailable_cache_does_not_erase_fresh_wake_authentication() {
    for cached in [None, Some(false)] {
        let mut relay_controller = RelayGateController::new(RelayGate::default());

        relay_controller.carrier_lost();
        relay_controller.authenticated_wake();
        relay_controller.control_connected();
        relay_controller.carrier_healthy();
        assert!(relay_controller.gate.is_enabled());

        // This is the predicate used by both timer and lifecycle wakeups.
        // Entering it for a stale false would erase the fresh control auth.
        if cached_device_is_available(cached) {
            relay_controller.carrier_lost();
        }

        assert!(
            relay_controller.gate.is_enabled(),
            "stale cache was replayed: {cached:?}"
        );
    }
    assert!(cached_device_is_available(Some(true)));
}

#[test]
fn authenticated_wake_rotates_stale_flows_before_immediate_reenable() {
    let mut relay_controller = RelayGateController::new(RelayGate::default());

    relay_controller.control_connected();
    let connected_generation = relay_controller.gate.generation();
    assert!(relay_controller.gate.is_enabled());

    relay_controller.authenticated_wake();
    assert!(!relay_controller.gate.is_enabled());
    assert!(relay_controller.gate.generation() > connected_generation);
    let suspended_generation = relay_controller.gate.generation();

    relay_controller.control_connected();
    assert!(relay_controller.gate.is_enabled());
    assert!(relay_controller.gate.generation() > suspended_generation);
}

#[test]
fn transient_degradation_keeps_the_relay_generation_alive() {
    let mut relay_controller = RelayGateController::with_control_loss_grace(
        RelayGate::default(),
        Duration::from_millis(30),
    );
    let session = SessionId([0x79; 16]).to_text();

    update_relay_gate(&mut relay_controller, &lifecycle(HostState::Connected, &session));
    let connected_generation = relay_controller.gate.generation();
    assert!(relay_controller.gate.is_enabled());

    let epoch = update_relay_gate(&mut relay_controller, &lifecycle(HostState::Degraded, &session));
    assert!(relay_controller.gate.is_enabled());
    assert_eq!(relay_controller.gate.generation(), connected_generation);

    update_relay_gate(&mut relay_controller, &lifecycle(HostState::Connected, &session));
    relay_controller.expire_control_loss(epoch.unwrap());
    assert!(relay_controller.gate.is_enabled());
    assert_eq!(relay_controller.gate.generation(), connected_generation);

    update_relay_gate(&mut relay_controller, &lifecycle(HostState::Stopping, &session));
    assert!(!relay_controller.gate.is_enabled());
    assert!(relay_controller.gate.generation() > connected_generation);
}

#[test]
fn heartbeat_only_degradation_never_resets_healthy_flows() {
    let mut relay_controller = RelayGateController::with_control_loss_grace(
        RelayGate::default(),
        Duration::from_millis(20),
    );
    let session = SessionId([0x7a; 16]).to_text();
    update_relay_gate(&mut relay_controller, &lifecycle(HostState::Connected, &session));
    let connected_generation = relay_controller.gate.generation();
    let epoch = update_relay_gate(
        &mut relay_controller,
        &StateSnapshot {
            state: HostState::Degraded,
            session_id: Some(session),
            missed_heartbeats: 3,
            reason: Some("three heartbeat intervals missed; VPN remains active".to_owned()),
        },
    );

    assert_eq!(epoch, None);
    assert!(relay_controller.gate.is_enabled());
    assert_eq!(relay_controller.gate.generation(), connected_generation);
}

#[test]
fn sustained_control_loss_invalidates_flows_until_fresh_started() {
    let mut relay_controller = RelayGateController::with_control_loss_grace(
        RelayGate::default(),
        Duration::from_millis(20),
    );
    let session = SessionId([0x7b; 16]).to_text();

    update_relay_gate(&mut relay_controller, &lifecycle(HostState::Connected, &session));
    let connected_generation = relay_controller.gate.generation();
    let epoch = update_relay_gate(&mut relay_controller, &lifecycle(HostState::Degraded, &session));
    assert!(relay_controller.gate.is_enabled());

    relay_controller.expire_control_loss(epoch.unwrap());
    assert!(!relay_controller.gate.is_enabled());
    assert!(relay_controller.gate.generation() > connected_generation);

    update_relay_gate(&mut relay_controller, &lifecycle(HostState::Connected, &session));
    assert!(relay_controller.gate.is_enabled());
}

#[test]
fn wake_token_cancels_stale_timer_and_sleep_probe() {
    let mut relay_controller = RelayGateController::with_control_loss_grace(
        RelayGate::default(),
        Duration::from_millis(30),
    );

    relay_controller.control_connected();
    let timer_epoch = relay_controller.control_degraded();
    let stale_epoch = relay_controller.pending_control_epoch().unwrap();
    assert_eq!(timer_epoch, Some(stale_epoch));
    relay_controller.control_connected();
    let wake_generation = relay_controller.gate.generation();

    assert_eq!(relay_controller.pending_control_epoch(), None);
    assert!(!relay_controller.control_inactive_if_epoch(stale_epoch));
    relay_controller.expire_control_loss(stale_epoch);
    assert!(relay_controller.gate.is_enabled());
    assert_eq!(relay_controller.gate.generation(), wake_generation);
}

#[test]
fn repeated_degradation_does_not_extend_the_cleanup_deadline() {
    let mut relay_controller = RelayGateController::with_control_loss_grace(
        RelayGate::default(),
        Duration::from_millis(60),
    );

    relay_controller.control_connected();
    let first = relay_controller.control_degraded();
    let second = relay_controller.control_degraded();
    assert_eq!(second, None);
    relay_controller.expire_control_loss(first.unwrap());

    assert!(!relay_controller.gate.is_enabled());
}

#[test]
fn a_rebuilt_transport_closes_the_relay_until_the_carrier_is_back() {
    let mut relay_controller = RelayGateController::new(RelayGate::default());
    assert_eq!(relay_controller.control_loss_grace, Duration::from_secs(3));
    relay_controller.control_connected();
    let mut snapshot = lifecycle(HostState::Degraded, "session");
    snapshot.reason = Some(TRANSPORT_RECOVERY_REASON.to_owned());
    assert_eq!(update_relay_gate(&mut relay_controller, &snapshot), None);
    assert!(!relay_controller.gate.is_enabled());
    update_relay_gate(&mut relay_controller, &lifecycle(HostState::Connected, "session"));
    assert!(!relay_controller.gate.is_enabled());
    relay_controller.carrier_healthy();
    assert!(relay_controller.gate.is_enabled());
    update_relay_gate(&mut relay_controller, &lifecycle(HostState::Preparing, "session"));
    assert!(relay_controller.gate.is_enabled());
    update_relay_gate(&mut relay_controller, &lifecycle(HostState::Error, "session"));
    assert!(!relay_controller.gate.is_enabled());
}

#[test]
fn generations_and_epochs_wrap_around() {
    let mut gate = RelayGate { enabled: false, generation: u64::MAX };
    gate.set_enabled(false);
    assert_eq!(gate.generation(), u64::MAX);
    gate.set_enabled(true);
    assert_eq!(gate.generation(), 0);
    let mut relay_controller = RelayGateController::new(RelayGate::default());
    relay_controller.eligibility.control_epoch = u64::MAX;
    relay_controller.control_connected();
    assert_eq!(relay_controller.eligibility.control_epoch, 0);
    assert!(relay_controller.gate.is_enabled());
}
