//! The health report: which layers of the tunnel are up.
use crate::state::{reads, AndroidVpnStatus, HostState};
use crate::status::PersistedStatus;
use crate::text::{
    after_first_word, chars_of, decimal_digits, first_word, leading_word, parse_unsigned, range_is,
    same_text, skip_whitespace, text_of, trim, trimmed, unsigned_value, whitespace_end, word_end,
};
use vstd::prelude::*;

verus! {

/// What a look at the streamer on the host found.
#[derive(Clone, Copy, Debug, PartialEq, Eq, Structural)]
pub enum StreamerProbe {
    Unsupported,
    CheckFailed,
    Unknown,
    NotRunning,
    RunningNotListening,
    Listening { tcp_listener_count: usize, udp_endpoint_count: usize },
}

/// The report.
#[derive(Debug)]
pub struct DoctorReport {
    pub host_runtime_ready: bool,
    pub control_connected: bool,
    pub adb_state: Result<String, String>,
    pub reverse_mappings_healthy: bool,
    pub reverse_mapping_error: Option<String>,
    pub virtual_desktop_streamer: StreamerProbe,
    pub android_vpn: Result<AndroidVpnStatus, String>,
    pub tunnel_available: bool,
}

/// The counts that a text holds in its first two words.
pub open spec fn counts_in(text: Seq<char>) -> StreamerProbe {
    let tcp = unsigned_value(first_word(text), usize::MAX as nat);
    let udp = unsigned_value(first_word(after_first_word(text)), usize::MAX as nat);
    if tcp is Some && udp is Some {
        StreamerProbe::Listening {
            tcp_listener_count: tcp->0 as usize,
            udp_endpoint_count: udp->0 as usize,
        }
    } else {
        StreamerProbe::Unknown
    }
}

/// `text` begins with `prefix`.
pub open spec fn starts_with(text: Seq<char>, prefix: Seq<char>) -> bool {
    text.len() >= prefix.len() && text.take(prefix.len() as int) == prefix
}

/// What the output of the streamer check says.
pub open spec fn streamer_found(output: Seq<char>) -> StreamerProbe {
    let text = trim(output);
    if text == "NOT_RUNNING"@ {
        StreamerProbe::NotRunning
    } else if text == "NOT_LISTENING"@ {
        StreamerProbe::RunningNotListening
    } else if text == "CHECK_FAILED"@ {
        StreamerProbe::CheckFailed
    } else if starts_with(text, "LISTENING "@) {
        counts_in(text.skip("LISTENING "@.len() as int))
    } else {
        StreamerProbe::Unknown
    }
}

fn read_counts(chars: &Vec<char>, from: usize) -> (probe: StreamerProbe)
    requires
        from <= chars@.len(),
    ensures
        probe == counts_in(chars@.skip(from as int)),
{
    let ghost text = chars@.skip(from as int);
    let first_start = whitespace_end(chars, from);
    let first_end = word_end(chars, first_start);
    assert(first_word(text) == chars@.subrange(first_start as int, first_end as int));
    assert(after_first_word(text) == chars@.skip(first_end as int));
    let second_start = whitespace_end(chars, first_end);
    let second_end = word_end(chars, second_start);
    assert(first_word(after_first_word(text)) == chars@.subrange(
        second_start as int,
        second_end as int,
    ));
    let tcp = parse_unsigned(text_of(chars, first_start, first_end).as_str(), usize::MAX as u64);
    let udp = parse_unsigned(text_of(chars, second_start, second_end).as_str(), usize::MAX as u64);
    match (tcp, udp) {
        (Some(tcp), Some(udp)) => StreamerProbe::Listening {
            tcp_listener_count: tcp as usize,
            udp_endpoint_count: udp as usize,
        },
        _ => StreamerProbe::Unknown,
    }
}

/// Reads the output of the streamer check. There is none when the check could not be made.
pub fn probe_virtual_desktop_streamer(output: Option<&str>) -> (probe: StreamerProbe)
    ensures
        probe == match output {
            Some(output) => streamer_found(output@),
            None => StreamerProbe::CheckFailed,
        },
{
    let output = match output {
        Some(output) => output,
        None => {
            return StreamerProbe::CheckFailed;
        },
    };
    let text = trimmed(output);
    if same_text(text.as_str(), "NOT_RUNNING") {
        StreamerProbe::NotRunning
    } else if same_text(text.as_str(), "NOT_LISTENING") {
        StreamerProbe::RunningNotListening
    } else if same_text(text.as_str(), "CHECK_FAILED") {
        StreamerProbe::CheckFailed
    } else {
        let chars = chars_of(text.as_str());
        proof {
            reveal_strlit("LISTENING ");
        }
        if chars.len() >= 10 && range_is(&chars, 0, 10, "LISTENING ") {
            read_counts(&chars, 10)
        } else {
            StreamerProbe::Unknown
        }
    }
}

/// Whether every layer of the tunnel is up. The streamer is not one of them.
pub fn tunnel_layers_available(
    host_runtime_ready: bool,
    control_connected: bool,
    adb_ready: bool,
    mappings_ready: bool,
    android_ready: bool,
    _streamer: &StreamerProbe,
) -> (available: bool)
    ensures
        available == (host_runtime_ready && control_connected && adb_ready && mappings_ready
            && android_ready),
{
    host_runtime_ready && control_connected && adb_ready && mappings_ready && android_ready
}

/// The daemon is up: its process runs, and the status that it wrote says that it is ready.
pub open spec fn runtime_is_ready(
    live_daemon: Option<u32>,
    persisted: Option<PersistedStatus>,
) -> bool {
    &&& persisted matches Some(status)
    &&& live_daemon is Some
    &&& status.daemon_pid == live_daemon
    &&& status.daemon_running
    &&& status.runtime_ready
}

/// The control connection is up and has not missed a heartbeat.
pub open spec fn control_is_connected(persisted: Option<PersistedStatus>) -> bool {
    &&& persisted matches Some(status)
    &&& status.lifecycle.state == HostState::Connected
    &&& status.lifecycle.missed_heartbeats == 0
}

/// The service on the device is up: it has its descriptor, and is connected or degraded.
pub open spec fn android_is_ready(android: Result<AndroidVpnStatus, String>) -> bool {
    &&& android matches Ok(status)
    &&& status.vpn_fd_open == Some(true)
    &&& reads(status.state, "connected"@) || reads(status.state, "degraded"@)
}

fn is_android_ready(android: &Result<AndroidVpnStatus, String>) -> (ready: bool)
    ensures
        ready == android_is_ready(*android),
{
    match android {
        Ok(status) => {
            let open = match status.vpn_fd_open {
                Some(open) => open,
                None => false,
            };
            let running = match &status.state {
                Some(state) => same_text(state.as_str(), "connected") || same_text(
                    state.as_str(),
                    "degraded",
                ),
                None => false,
            };
            open && running
        },
        Err(_) => false,
    }
}

/// What the report is made from.
pub struct DoctorFindings {
    pub daemon_pid: Option<u32>,
    pub process_running: bool,
    pub persisted: Option<PersistedStatus>,
    pub adb_state: Result<String, String>,
    pub mappings: Result<bool, String>,
    pub virtual_desktop_streamer: StreamerProbe,
    pub android_vpn: Result<AndroidVpnStatus, String>,
}

/// `report` is the report on these findings.
pub open spec fn reports(findings: DoctorFindings, report: DoctorReport) -> bool {
    let live_daemon = if findings.process_running {
        findings.daemon_pid
    } else {
        None
    };
    let ready = runtime_is_ready(live_daemon, findings.persisted);
    let connected = control_is_connected(findings.persisted);
    &&& report.host_runtime_ready == ready
    &&& report.control_connected == (ready && connected)
    &&& report.adb_state == findings.adb_state
    &&& report.reverse_mappings_healthy == (findings.mappings == Ok::<bool, String>(true))
    &&& report.reverse_mapping_error == match findings.mappings {
        Ok(_) => None,
        Err(error) => Some(error),
    }
    &&& report.virtual_desktop_streamer == findings.virtual_desktop_streamer
    &&& report.android_vpn == findings.android_vpn
    &&& report.tunnel_available == (ready && connected && (findings.adb_state matches Ok(state)
        && state@ == "device"@) && findings.mappings == Ok::<bool, String>(true)
        && android_is_ready(findings.android_vpn))
}

/// Puts the report together. `daemon_pid` is the process that the daemon left its name of, and
/// `process_running` says whether that process runs.
pub fn doctor(
    daemon_pid: Option<u32>,
    process_running: bool,
    persisted: Option<&PersistedStatus>,
    adb_state: Result<String, String>,
    mappings: Result<bool, String>,
    virtual_desktop_streamer: StreamerProbe,
    android_vpn: Result<AndroidVpnStatus, String>,
) -> (report: DoctorReport)
    ensures
        reports(
            DoctorFindings {
                daemon_pid,
                process_running,
                persisted: match persisted {
                    Some(status) => Some(*status),
                    None => None,
                },
                adb_state,
                mappings,
                virtual_desktop_streamer,
                android_vpn,
            },
            report,
        ),
{
    let live_daemon = if process_running {
        daemon_pid
    } else {
        None
    };
    let (host_runtime_ready, control_connected) = match (persisted, live_daemon) {
        (Some(status), Some(live)) => {
            let same_process = match status.daemon_pid {
                Some(pid) => pid == live,
                None => false,
            };
            let ready = same_process && status.daemon_running && status.runtime_ready;
            (
                ready,
                ready && status.lifecycle.state == HostState::Connected
                    && status.lifecycle.missed_heartbeats == 0,
            )
        },
        _ => (false, false),
    };
    let (reverse_mappings_healthy, reverse_mapping_error) = match mappings {
        Ok(healthy) => (healthy, None),
        Err(error) => (false, Some(error)),
    };
    let adb_ready = match &adb_state {
        Ok(state) => same_text(state.as_str(), "device"),
        Err(_) => false,
    };
    let android_ready = is_android_ready(&android_vpn);
    let tunnel_available = tunnel_layers_available(
        host_runtime_ready,
        control_connected,
        adb_ready,
        reverse_mappings_healthy,
        android_ready,
        &virtual_desktop_streamer,
    );
    DoctorReport {
        host_runtime_ready,
        control_connected,
        adb_state,
        reverse_mappings_healthy,
        reverse_mapping_error,
        virtual_desktop_streamer,
        android_vpn,
        tunnel_available,
    }
}

/// The runtime counts as ready exactly when its process runs, the status was written by that very
/// process, and the status says that it runs and is ready.
pub proof fn ready_runtime_wrote_its_status(findings: DoctorFindings, report: DoctorReport)
    requires
        reports(findings, report),
    ensures
        report.host_runtime_ready <==> (findings.process_running && (findings.daemon_pid matches Some(
            pid,
        ) && (findings.persisted matches Some(status) && status.daemon_pid == Some(pid)
            && status.daemon_running && status.runtime_ready))),
{
}

/// The control connection counts as up only with a ready runtime whose lifecycle is connected and
/// has not missed a heartbeat. In every other state of the lifecycle it is not, and the tunnel is
/// not available either.
pub proof fn control_needs_a_connected_lifecycle(findings: DoctorFindings, report: DoctorReport)
    requires
        reports(findings, report),
    ensures
        report.control_connected <==> (report.host_runtime_ready && (
        findings.persisted matches Some(status) && status.lifecycle.state == HostState::Connected
            && status.lifecycle.missed_heartbeats == 0)),
        findings.persisted matches Some(status) && (status.lifecycle.state == HostState::Preparing
            || status.lifecycle.state == HostState::Degraded || status.lifecycle.state
            == HostState::Stopping || status.lifecycle.state == HostState::Error
            || status.lifecycle.state == HostState::Stopped) ==> !report.control_connected
            && !report.tunnel_available,
{
}

/// The tunnel is available exactly when every layer of it is: the runtime, the control connection,
/// the device, its mappings and its service. What the streamer does makes no difference.
pub proof fn tunnel_needs_every_layer(findings: DoctorFindings, report: DoctorReport)
    requires
        reports(findings, report),
    ensures
        report.tunnel_available <==> (report.host_runtime_ready && report.control_connected
            && report.reverse_mappings_healthy && (report.adb_state matches Ok(state) && state@
            == "device"@) && (report.android_vpn matches Ok(vpn) && vpn.vpn_fd_open == Some(true)
            && (vpn.state matches Some(state) && (state@ == "connected"@ || state@
            == "degraded"@)))),
        report.reverse_mappings_healthy <==> (findings.mappings matches Ok(healthy) && healthy),
        report.reverse_mapping_error is Some <==> findings.mappings is Err,
        findings.mappings matches Err(error) ==> report.reverse_mapping_error == Some(error),
        report.adb_state == findings.adb_state,
        report.android_vpn == findings.android_vpn,
        report.virtual_desktop_streamer == findings.virtual_desktop_streamer,
{
}

/// Whatever else it finds, the report on two findings that differ in the streamer alone differs in
/// the streamer alone.
pub proof fn streamer_is_no_layer_of_the_tunnel(
    findings: DoctorFindings,
    other: StreamerProbe,
    report: DoctorReport,
    second: DoctorReport,
)
    requires
        reports(findings, report),
        reports(DoctorFindings { virtual_desktop_streamer: other, ..findings }, second),
    ensures
        second == (DoctorReport { virtual_desktop_streamer: other, ..report }),
{
}

proof fn lemma_answers_differ()
    ensures
        "NOT_RUNNING"@ != "NOT_LISTENING"@,
        "NOT_RUNNING"@ != "CHECK_FAILED"@,
        "NOT_LISTENING"@ != "CHECK_FAILED"@,
        !starts_with("NOT_RUNNING"@, "LISTENING "@),
        !starts_with("NOT_LISTENING"@, "LISTENING "@),
        !starts_with("CHECK_FAILED"@, "LISTENING "@),
{
    reveal_strlit("NOT_RUNNING");
    reveal_strlit("NOT_LISTENING");
    reveal_strlit("CHECK_FAILED");
    reveal_strlit("LISTENING ");
    assert("NOT_RUNNING"@.len() == 11 && "NOT_LISTENING"@.len() == 13 && "CHECK_FAILED"@.len()
        == 12);
    assert("NOT_RUNNING"@.take(10)[0] == 'N' && "NOT_LISTENING"@.take(10)[0] == 'N'
        && "CHECK_FAILED"@.take(10)[0] == 'C' && "LISTENING "@[0] == 'L');
}

/// What the fixed answers of the streamer check mean, with whitespace around them at most. Any other
/// answer that does not begin with the word for listening means nothing.
pub proof fn answers_of_the_streamer_check(output: Seq<char>)
    ensures
        streamer_found(output) == StreamerProbe::NotRunning <==> trim(output) == "NOT_RUNNING"@,
        streamer_found(output) == StreamerProbe::RunningNotListening <==> trim(output)
            == "NOT_LISTENING"@,
        streamer_found(output) == StreamerProbe::CheckFailed <==> trim(output) == "CHECK_FAILED"@,
        streamer_found(output) is Listening ==> starts_with(trim(output), "LISTENING "@),
        streamer_found(output) != StreamerProbe::Unsupported,
{
    lemma_answers_differ();
}

/// A streamer that listens is told with its two counts, the first for TCP and the second for UDP.
pub proof fn listening_streamer_is_counted(tcp: usize, udp: usize)
    ensures
        streamer_found(
            "LISTENING "@ + decimal_digits(tcp as nat) + " "@ + decimal_digits(udp as nat),
        ) == (StreamerProbe::Listening { tcp_listener_count: tcp, udp_endpoint_count: udp }),
{
    let (first, second) = (decimal_digits(tcp as nat), decimal_digits(udp as nat));
    reveal_strlit("LISTENING ");
    reveal_strlit(" ");
    let prefix = "LISTENING "@;
    let text = prefix + first + " "@ + second;
    crate::text::decimal_is_solid(tcp as nat);
    crate::text::decimal_is_solid(udp as nat);
    assert(text[0] == 'L');
    assert(text.last() == second.last());
    assert(!crate::text::whitespace(second[second.len() - 1]));
    crate::text::trim_takes_whitespace_off_both_ends(Seq::empty(), text, Seq::empty());
    assert(Seq::<char>::empty() + text + Seq::<char>::empty() =~= text);
    lemma_answers_differ();
    assert(text.take(10) =~= prefix);
    assert(starts_with(text, prefix));
    let rest = text.skip(10);
    assert(rest =~= Seq::<char>::empty() + first + (" "@ + second));
    crate::text::first_word_stands_between_whitespace(Seq::empty(), first, " "@ + second);
    assert(" "@ + second =~= " "@ + second + Seq::<char>::empty());
    crate::text::first_word_stands_between_whitespace(" "@, second, Seq::empty());
    crate::text::decimal_round_trip(tcp as nat, usize::MAX as nat);
    crate::text::decimal_round_trip(udp as nat, usize::MAX as nat);
}

} // verus!
