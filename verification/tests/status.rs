use gnirehtet_vd::monitor::AdbHealthMonitor;
use gnirehtet_vd::state::{HostState, SessionId, StateSnapshot};
use gnirehtet_vd::status::{
    Document, PersistedStatus, RuntimeTelemetry, SocksStatsSnapshot, StateStore,
};

fn snapshot(state: HostState) -> StateSnapshot {
    StateSnapshot { state, session_id: None, missed_heartbeats: 0, reason: None }
}

fn document(json: &str) -> Document {
    Document { json: json.to_owned() }
}

fn stats(base: u64) -> SocksStatsSnapshot {
    SocksStatsSnapshot {
        accepted_connections: base,
        rejected_connections: base + 1,
        active_connections: base + 2,
        tcp_tx_bytes: base + 3,
        tcp_rx_bytes: u64::MAX - 5,
        virtual_desktop: document(&format!("flows-{base}")),
        udp: document(&format!("udp-{base}")),
    }
}

fn telemetry() -> RuntimeTelemetry {
    RuntimeTelemetry {
        control: document("control"),
        android: Some(document("android")),
        relay: stats(1),
        adb: AdbHealthMonitor::default().snapshot(),
        process: document("process"),
    }
}

#[test]
fn status_store_round_trip() {
    let mut store = StateStore::new("status.json".to_owned());
    let snapshot = StateSnapshot {
        state: HostState::Degraded,
        session_id: Some("0011".to_owned()),
        missed_heartbeats: 3,
        reason: Some("test".to_owned()),
    };
    store.write(&snapshot, None, 1);
    assert_eq!(store.read().unwrap().lifecycle.state, HostState::Degraded);
}

#[test]
fn new_daemon_cannot_inherit_stale_runtime_readiness() {
    let mut store = StateStore::new("status.json".to_owned());
    let snapshot = StateSnapshot {
        state: HostState::Preparing,
        session_id: Some("new-session".to_owned()),
        missed_heartbeats: 0,
        reason: None,
    };
    store.write_runtime_ready(&snapshot, 41, 1);
    assert!(store.read().unwrap().runtime_ready);

    store.write_runtime_not_ready(&snapshot, 42, 2);
    let status = store.read().unwrap();
    assert_eq!(status.daemon_pid, Some(42));
    assert!(!status.runtime_ready);
    store.write(&snapshot, Some(42), 3);
    assert!(!store.read().unwrap().runtime_ready);
    store.write_runtime_ready(&snapshot, 42, 4);
    assert!(store.read().unwrap().runtime_ready);
}

#[test]
fn a_missing_document_reads_as_stopped() {
    let store = StateStore::new("status.json".to_owned());
    assert!(store.read().is_none());
    let status = store.read_or_stopped(77);
    assert_eq!(status.lifecycle.state, HostState::Stopped);
    assert_eq!(status.daemon_pid, None);
    assert!(!status.daemon_running);
    assert!(!status.runtime_ready);
    assert_eq!(status.updated_unix_ms, 77);
    assert!(status.telemetry.is_none());
    let stopped = PersistedStatus::stopped(78);
    assert_eq!(stopped.updated_unix_ms, 78);
    assert_eq!(stopped.lifecycle.missed_heartbeats, 0);
}

#[test]
fn a_written_lifecycle_keeps_the_telemetry_and_a_started_daemon_drops_it() {
    let mut store = StateStore::new("status.json".to_owned());
    store.write_runtime_ready(&snapshot(HostState::Preparing), 7, 1);
    store.write_with_telemetry(&snapshot(HostState::Connected), Some(7), 2, telemetry());
    assert!(store.read().unwrap().runtime_ready);
    store.write(&snapshot(HostState::Degraded), Some(7), 3);
    let status = store.read().unwrap();
    assert_eq!(status.telemetry.unwrap().control.json, "control");
    assert_eq!(status.updated_unix_ms, 3);
    assert!(status.runtime_ready);
    store.write_runtime_not_ready(&snapshot(HostState::Preparing), 7, 4);
    assert!(store.read().unwrap().telemetry.is_none());
    store.write(&snapshot(HostState::Stopped), None, 5);
    let status = store.read().unwrap();
    assert!(!status.daemon_running);
    assert!(!status.runtime_ready);
}

#[test]
fn a_loaded_document_is_what_later_writes_build_on() {
    let mut store = StateStore::new("status.json".to_owned());
    let mut found = PersistedStatus::stopped(1);
    found.daemon_pid = Some(9);
    found.daemon_running = true;
    found.runtime_ready = true;
    store.load(Some(found));
    store.write(&snapshot(HostState::Connected), Some(9), 2);
    assert!(store.read().unwrap().runtime_ready);
    store.write(&snapshot(HostState::Connected), Some(10), 3);
    assert!(!store.read().unwrap().runtime_ready);
    store.load(None);
    assert!(store.read().is_none());
}

#[test]
fn relay_counters_are_summed_and_saturate() {
    let relay = SocksStatsSnapshot::merged(stats(1), stats(10));
    assert_eq!(relay.accepted_connections, 11);
    assert_eq!(relay.rejected_connections, 13);
    assert_eq!(relay.active_connections, 15);
    assert_eq!(relay.tcp_tx_bytes, 17);
    assert_eq!(relay.tcp_rx_bytes, u64::MAX);
    assert_eq!(relay.virtual_desktop.json, "flows-10");
    assert_eq!(relay.udp.json, "udp-1");
}

#[test]
fn session_text_reads_back() {
    let id = SessionId([0x0f; 16]);
    assert_eq!(id.to_text(), "0f0f0f0f0f0f0f0f0f0f0f0f0f0f0f0f");
    assert_eq!(SessionId::parse("0F0f0f0f0f0f0f0f0f0f0f0f0f0f0f0f"), Some(id));
    assert_eq!(SessionId::parse("0f"), None);
    assert_eq!(SessionId::parse("zf0f0f0f0f0f0f0f0f0f0f0f0f0f0f0f"), None);
    assert!(id.is_some_session());
    assert!(!SessionId::zero().is_some_session());
}
