use gnirehtet_vd::doctor::{
    doctor, probe_virtual_desktop_streamer, tunnel_layers_available, DoctorReport, StreamerProbe,
};
use gnirehtet_vd::state::{AndroidVpnStatus, HostState};
use gnirehtet_vd::status::PersistedStatus;

#[test]
fn tunnel_health_ignores_streamer_listener_but_requires_host_control() {
    let streamer = StreamerProbe::RunningNotListening;
    assert!(tunnel_layers_available(
        true, true, true, true, true, &streamer
    ));
    assert!(!tunnel_layers_available(
        false, true, true, true, true, &streamer
    ));
    assert!(!tunnel_layers_available(
        true, false, true, true, true, &streamer
    ));
}

fn ready_status() -> PersistedStatus {
    let mut status = PersistedStatus::stopped(1);
    status.lifecycle.state = HostState::Connected;
    status.daemon_pid = Some(5);
    status.daemon_running = true;
    status.runtime_ready = true;
    status
}

fn android(state: &str) -> Result<AndroidVpnStatus, String> {
    Ok(AndroidVpnStatus {
        vpn_fd_open: Some(true),
        state: Some(state.to_owned()),
        screen_suspended: Some(false),
    })
}

fn report(
    process_running: bool,
    status: Option<&PersistedStatus>,
    adb_state: &str,
    mappings: Result<bool, String>,
    vpn: Result<AndroidVpnStatus, String>,
) -> DoctorReport {
    doctor(
        Some(5),
        process_running,
        status,
        Ok(adb_state.to_owned()),
        mappings,
        StreamerProbe::NotRunning,
        vpn,
    )
}

#[test]
fn every_layer_up_makes_the_tunnel_available() {
    let status = ready_status();
    let found = report(true, Some(&status), "device", Ok(true), android("connected"));
    assert!(found.host_runtime_ready);
    assert!(found.control_connected);
    assert!(found.reverse_mappings_healthy);
    assert_eq!(found.reverse_mapping_error, None);
    assert!(found.tunnel_available);
    assert_eq!(found.virtual_desktop_streamer, StreamerProbe::NotRunning);
    let found = report(true, Some(&status), "device", Ok(true), android("degraded"));
    assert!(found.tunnel_available);
}

#[test]
fn any_layer_down_takes_the_tunnel_down() {
    let status = ready_status();
    let cases = [
        report(false, Some(&status), "device", Ok(true), android("connected")),
        report(true, None, "device", Ok(true), android("connected")),
        report(true, Some(&status), "offline", Ok(true), android("connected")),
        report(true, Some(&status), "device", Ok(false), android("connected")),
        report(true, Some(&status), "device", Err("x".to_owned()), android("connected")),
        report(true, Some(&status), "device", Ok(true), android("stopped")),
        report(true, Some(&status), "device", Ok(true), Err("gone".to_owned())),
    ];
    for found in &cases {
        assert!(!found.tunnel_available);
    }
    assert!(!cases[0].host_runtime_ready);
    assert!(!cases[1].control_connected);
    assert_eq!(cases[4].reverse_mapping_error.as_deref(), Some("x"));
}

#[test]
fn a_status_of_another_daemon_or_with_missed_heartbeats_does_not_count() {
    let mut status = ready_status();
    status.daemon_pid = Some(6);
    let found = report(true, Some(&status), "device", Ok(true), android("connected"));
    assert!(!found.host_runtime_ready);
    let mut status = ready_status();
    status.lifecycle.missed_heartbeats = 1;
    let found = report(true, Some(&status), "device", Ok(true), android("connected"));
    assert!(found.host_runtime_ready);
    assert!(!found.control_connected);
}

#[test]
fn the_streamer_check_is_read() {
    let cases = [
        (None, StreamerProbe::CheckFailed),
        (Some("NOT_RUNNING\r\n"), StreamerProbe::NotRunning),
        (Some(" NOT_LISTENING "), StreamerProbe::RunningNotListening),
        (Some("CHECK_FAILED"), StreamerProbe::CheckFailed),
        (
            Some("LISTENING 3 12\n"),
            StreamerProbe::Listening { tcp_listener_count: 3, udp_endpoint_count: 12 },
        ),
        (
            Some("LISTENING  1\t0 extra"),
            StreamerProbe::Listening { tcp_listener_count: 1, udp_endpoint_count: 0 },
        ),
        (Some("LISTENING 3"), StreamerProbe::Unknown),
        (Some("LISTENING x 1"), StreamerProbe::Unknown),
        (Some("LISTENING"), StreamerProbe::Unknown),
        (Some(""), StreamerProbe::Unknown),
    ];
    for (output, probe) in cases {
        assert_eq!(probe_virtual_desktop_streamer(output), probe);
    }
}
