//! The persisted status document and the rules by which it is replaced.
use crate::monitor::AdbMonitorSnapshot;
use crate::state::{HostState, StateSnapshot};
use vstd::prelude::*;

verus! {

/// A JSON document that another layer wrote and that is carried along verbatim.
#[derive(Debug)]
pub struct Document {
    pub json: String,
}

impl Clone for Document {
    fn clone(&self) -> (copy: Self)
        ensures
            copy == *self,
    {
        Document { json: self.json.clone() }
    }
}

/// Counters of the SOCKS relay.
#[derive(Debug)]
pub struct SocksStatsSnapshot {
    pub accepted_connections: u64,
    pub rejected_connections: u64,
    pub active_connections: u64,
    pub tcp_tx_bytes: u64,
    pub tcp_rx_bytes: u64,
    /// The Virtual Desktop flows that the relay carries.
    pub virtual_desktop: Document,
    /// The counters that only the UDP relay keeps.
    pub udp: Document,
}

impl Clone for SocksStatsSnapshot {
    fn clone(&self) -> (copy: Self)
        ensures
            copy == *self,
    {
        SocksStatsSnapshot {
            accepted_connections: self.accepted_connections,
            rejected_connections: self.rejected_connections,
            active_connections: self.active_connections,
            tcp_tx_bytes: self.tcp_tx_bytes,
            tcp_rx_bytes: self.tcp_rx_bytes,
            virtual_desktop: self.virtual_desktop.clone(),
            udp: self.udp.clone(),
        }
    }
}

/// `a + b`, or the largest counter value when that does not fit.
pub open spec fn saturated(a: u64, b: u64) -> u64 {
    if a + b > u64::MAX {
        u64::MAX
    } else {
        (a + b) as u64
    }
}

/// The counters of both relays together.
pub open spec fn merged_counters(
    udp: SocksStatsSnapshot,
    tcp: SocksStatsSnapshot,
) -> SocksStatsSnapshot {
    SocksStatsSnapshot {
        accepted_connections: saturated(udp.accepted_connections, tcp.accepted_connections),
        rejected_connections: saturated(udp.rejected_connections, tcp.rejected_connections),
        active_connections: saturated(udp.active_connections, tcp.active_connections),
        tcp_tx_bytes: saturated(udp.tcp_tx_bytes, tcp.tcp_tx_bytes),
        tcp_rx_bytes: saturated(udp.tcp_rx_bytes, tcp.tcp_rx_bytes),
        virtual_desktop: tcp.virtual_desktop,
        udp: udp.udp,
    }
}

impl SocksStatsSnapshot {
    /// The counters of both relays together: connection and TCP byte counts are summed, the flows
    /// are those of the TCP relay, and what is left is that of the UDP relay.
    pub fn merged(udp: SocksStatsSnapshot, tcp: SocksStatsSnapshot) -> (relay: SocksStatsSnapshot)
        ensures
            relay == merged_counters(udp, tcp),
    {
        SocksStatsSnapshot {
            accepted_connections: udp.accepted_connections.saturating_add(tcp.accepted_connections),
            rejected_connections: udp.rejected_connections.saturating_add(tcp.rejected_connections),
            active_connections: udp.active_connections.saturating_add(tcp.active_connections),
            tcp_tx_bytes: udp.tcp_tx_bytes.saturating_add(tcp.tcp_tx_bytes),
            tcp_rx_bytes: udp.tcp_rx_bytes.saturating_add(tcp.tcp_rx_bytes),
            virtual_desktop: tcp.virtual_desktop,
            udp: udp.udp,
        }
    }
}

/// One sample of what the runtime is doing.
#[derive(Debug)]
pub struct RuntimeTelemetry {
    pub control: Document,
    pub android: Option<Document>,
    pub relay: SocksStatsSnapshot,
    pub adb: AdbMonitorSnapshot,
    pub process: Document,
}

impl Clone for RuntimeTelemetry {
    fn clone(&self) -> (copy: Self)
        ensures
            copy == *self,
    {
        RuntimeTelemetry {
            control: self.control.clone(),
            android: match &self.android {
                Some(android) => Some(android.clone()),
                None => None,
            },
            relay: self.relay.clone(),
            adb: self.adb.clone(),
            process: self.process.clone(),
        }
    }
}

/// A copy of an optional sample.
fn clone_telemetry(telemetry: &Option<RuntimeTelemetry>) -> (copy: Option<RuntimeTelemetry>)
    ensures
        copy == *telemetry,
{
    match telemetry {
        Some(telemetry) => Some(telemetry.clone()),
        None => None,
    }
}

/// The status document that other processes read.
#[derive(Debug)]
pub struct PersistedStatus {
    pub lifecycle: StateSnapshot,
    pub daemon_pid: Option<u32>,
    pub daemon_running: bool,
    pub runtime_ready: bool,
    pub updated_unix_ms: u128,
    pub telemetry: Option<RuntimeTelemetry>,
}

impl Clone for PersistedStatus {
    fn clone(&self) -> (copy: Self)
        ensures
            copy == *self,
    {
        PersistedStatus {
            lifecycle: self.lifecycle.clone(),
            daemon_pid: self.daemon_pid,
            daemon_running: self.daemon_running,
            runtime_ready: self.runtime_ready,
            updated_unix_ms: self.updated_unix_ms,
            telemetry: clone_telemetry(&self.telemetry),
        }
    }
}

impl PersistedStatus {
    /// What the document says of the daemon is consistent: it runs exactly when it has a process,
    /// and only a daemon with a process is ready.
    pub open spec fn consistent(self) -> bool {
        &&& self.daemon_running == self.daemon_pid is Some
        &&& self.runtime_ready ==> self.daemon_pid is Some
    }

    /// The document of a host that does not run.
    pub fn stopped(updated_unix_ms: u128) -> (status: Self)
        ensures
            status == (PersistedStatus {
                lifecycle: StateSnapshot {
                    state: HostState::Stopped,
                    session_id: None,
                    missed_heartbeats: 0,
                    reason: None,
                },
                daemon_pid: None,
                daemon_running: false,
                runtime_ready: false,
                updated_unix_ms,
                telemetry: None,
            }),
    {
        PersistedStatus {
            lifecycle: StateSnapshot {
                state: HostState::Stopped,
                session_id: None,
                missed_heartbeats: 0,
                reason: None,
            },
            daemon_pid: None,
            daemon_running: false,
            runtime_ready: false,
            updated_unix_ms,
            telemetry: None,
        }
    }
}

/// The document says that the daemon with this process is ready.
pub open spec fn ready_for(document: Option<PersistedStatus>, daemon_pid: Option<u32>) -> bool {
    &&& daemon_pid is Some
    &&& document matches Some(status) && status.daemon_pid == daemon_pid && status.runtime_ready
}

/// The telemetry that a document holds.
pub open spec fn telemetry_of(document: Option<PersistedStatus>) -> Option<RuntimeTelemetry> {
    match document {
        Some(status) => status.telemetry,
        None => None,
    }
}

/// A document about `lifecycle` as the daemon with process `daemon_pid` writes it.
pub open spec fn document_of(
    lifecycle: StateSnapshot,
    daemon_pid: Option<u32>,
    runtime_ready: bool,
    updated_unix_ms: u128,
    telemetry: Option<RuntimeTelemetry>,
) -> PersistedStatus {
    PersistedStatus {
        lifecycle,
        daemon_pid,
        daemon_running: daemon_pid is Some,
        runtime_ready: daemon_pid is Some && runtime_ready,
        updated_unix_ms,
        telemetry,
    }
}

/// The document once the lifecycle was replaced.
pub open spec fn lifecycle_replaced(
    before: Option<PersistedStatus>,
    lifecycle: StateSnapshot,
    daemon_pid: Option<u32>,
    updated_unix_ms: u128,
) -> PersistedStatus {
    document_of(
        lifecycle,
        daemon_pid,
        ready_for(before, daemon_pid),
        updated_unix_ms,
        telemetry_of(before),
    )
}

/// The document once the lifecycle and the telemetry were replaced.
pub open spec fn telemetry_replaced(
    before: Option<PersistedStatus>,
    lifecycle: StateSnapshot,
    daemon_pid: Option<u32>,
    updated_unix_ms: u128,
    telemetry: RuntimeTelemetry,
) -> PersistedStatus {
    document_of(
        lifecycle,
        daemon_pid,
        ready_for(before, daemon_pid),
        updated_unix_ms,
        Some(telemetry),
    )
}

/// The document of a daemon that has just started.
pub open spec fn daemon_started(
    lifecycle: StateSnapshot,
    daemon_pid: u32,
    updated_unix_ms: u128,
) -> PersistedStatus {
    document_of(lifecycle, Some(daemon_pid), false, updated_unix_ms, None)
}

/// The document once the daemon was declared ready.
pub open spec fn daemon_declared_ready(
    before: Option<PersistedStatus>,
    lifecycle: StateSnapshot,
    daemon_pid: u32,
    updated_unix_ms: u128,
) -> PersistedStatus {
    document_of(lifecycle, Some(daemon_pid), true, updated_unix_ms, telemetry_of(before))
}

/// The status document at a path, as it was last read or written. There is none while the file
/// is missing or cannot be read as a document.
pub struct StateStore {
    pub path: String,
    pub document: Option<PersistedStatus>,
}

impl StateStore {
    /// A store at `path` that nothing was read from yet.
    pub fn new(path: String) -> (store: Self)
        ensures
            store == (StateStore { path, document: None }),
    {
        StateStore { path, document: None }
    }

    /// Takes up what was read from the path.
    pub fn load(&mut self, document: Option<PersistedStatus>)
        ensures
            *final(self) == (StateStore { path: old(self).path, document }),
    {
        self.document = document;
    }

    /// Replaces the lifecycle. Telemetry is kept, and readiness as well as long as the document
    /// before was written for the same daemon.
    pub fn write(
        &mut self,
        snapshot: &StateSnapshot,
        daemon_pid: Option<u32>,
        updated_unix_ms: u128,
    )
        ensures
            final(self).path == old(self).path,
            final(self).document == Some(
                lifecycle_replaced(old(self).document, *snapshot, daemon_pid, updated_unix_ms),
            ),
    {
        let telemetry = self.telemetry();
        let runtime_ready = self.is_ready_for(daemon_pid);
        self.write_document(snapshot, daemon_pid, runtime_ready, updated_unix_ms, telemetry);
    }

    /// Replaces the lifecycle and the telemetry. Readiness is kept as [`StateStore::write`] does.
    pub fn write_with_telemetry(
        &mut self,
        snapshot: &StateSnapshot,
        daemon_pid: Option<u32>,
        updated_unix_ms: u128,
        telemetry: RuntimeTelemetry,
    )
        ensures
            final(self).path == old(self).path,
            final(self).document == Some(
                telemetry_replaced(
                    old(self).document,
                    *snapshot,
                    daemon_pid,
                    updated_unix_ms,
                    telemetry,
                ),
            ),
    {
        let runtime_ready = self.is_ready_for(daemon_pid);
        self.write_document(snapshot, daemon_pid, runtime_ready, updated_unix_ms, Some(telemetry));
    }

    /// Starts the document of a daemon that is not ready yet, without telemetry.
    pub fn write_runtime_not_ready(
        &mut self,
        snapshot: &StateSnapshot,
        daemon_pid: u32,
        updated_unix_ms: u128,
    )
        ensures
            final(self).path == old(self).path,
            final(self).document == Some(
                daemon_started(*snapshot, daemon_pid, updated_unix_ms),
            ),
    {
        self.write_document(snapshot, Some(daemon_pid), false, updated_unix_ms, None);
    }

    /// Declares the daemon ready and keeps the telemetry.
    pub fn write_runtime_ready(
        &mut self,
        snapshot: &StateSnapshot,
        daemon_pid: u32,
        updated_unix_ms: u128,
    )
        ensures
            final(self).path == old(self).path,
            final(self).document == Some(
                daemon_declared_ready(
                    old(self).document,
                    *snapshot,
                    daemon_pid,
                    updated_unix_ms,
                ),
            ),
    {
        let telemetry = self.telemetry();
        self.write_document(snapshot, Some(daemon_pid), true, updated_unix_ms, telemetry);
    }

    fn write_document(
        &mut self,
        snapshot: &StateSnapshot,
        daemon_pid: Option<u32>,
        runtime_ready: bool,
        updated_unix_ms: u128,
        telemetry: Option<RuntimeTelemetry>,
    )
        ensures
            final(self).path == old(self).path,
            final(self).document == Some(
                document_of(*snapshot, daemon_pid, runtime_ready, updated_unix_ms, telemetry),
            ),
    {
        self.document = Some(
            PersistedStatus {
                lifecycle: snapshot.clone(),
                daemon_pid,
                // The writer owns this process identity already; only readers need to probe it.
                daemon_running: daemon_pid.is_some(),
                runtime_ready: daemon_pid.is_some() && runtime_ready,
                updated_unix_ms,
                telemetry,
            },
        );
    }

    fn telemetry(&self) -> (telemetry: Option<RuntimeTelemetry>)
        ensures
            telemetry == telemetry_of(self.document),
    {
        match &self.document {
            Some(status) => clone_telemetry(&status.telemetry),
            None => None,
        }
    }

    fn is_ready_for(&self, daemon_pid: Option<u32>) -> (ready: bool)
        ensures
            ready == ready_for(self.document, daemon_pid),
    {
        match (&self.document, daemon_pid) {
            (Some(status), Some(pid)) => status.daemon_pid == Some(pid) && status.runtime_ready,
            _ => false,
        }
    }

    /// The document, if there is one.
    pub fn read(&self) -> (status: Option<PersistedStatus>)
        ensures
            status == self.document,
    {
        match &self.document {
            Some(status) => Some(status.clone()),
            None => None,
        }
    }

    /// The document, or that of a host that does not run when there is none.
    pub fn read_or_stopped(&self, now_unix_ms: u128) -> (status: PersistedStatus)
        ensures
            match self.document {
                Some(document) => status == document,
                None => status == (PersistedStatus {
                    lifecycle: StateSnapshot {
                        state: HostState::Stopped,
                        session_id: None,
                        missed_heartbeats: 0,
                        reason: None,
                    },
                    daemon_pid: None,
                    daemon_running: false,
                    runtime_ready: false,
                    updated_unix_ms: now_unix_ms,
                    telemetry: None,
                }),
            },
    {
        match self.read() {
            Some(status) => status,
            None => PersistedStatus::stopped(now_unix_ms),
        }
    }
}

/// Every document that is written is consistent.
pub proof fn written_documents_are_consistent(
    lifecycle: StateSnapshot,
    daemon_pid: Option<u32>,
    runtime_ready: bool,
    updated_unix_ms: u128,
    telemetry: Option<RuntimeTelemetry>,
)
    ensures
        document_of(
            lifecycle,
            daemon_pid,
            runtime_ready,
            updated_unix_ms,
            telemetry,
        ).consistent(),
{
}

/// A daemon cannot inherit readiness: replacing the lifecycle or the telemetry, for whichever
/// daemon, leaves a daemon that was not ready not ready.
pub proof fn readiness_is_not_inherited(
    before: Option<PersistedStatus>,
    lifecycle: StateSnapshot,
    writer: Option<u32>,
    updated_unix_ms: u128,
    telemetry: Option<RuntimeTelemetry>,
    daemon: Option<u32>,
)
    requires
        !ready_for(before, daemon),
    ensures
        !ready_for(
            Some(
                document_of(
                    lifecycle,
                    writer,
                    ready_for(before, writer),
                    updated_unix_ms,
                    telemetry,
                ),
            ),
            daemon,
        ),
{
}

/// A daemon that starts its document is not ready, whatever the document said before, and no
/// other daemon is ready either.
pub proof fn a_started_document_is_not_ready(
    lifecycle: StateSnapshot,
    daemon_pid: u32,
    updated_unix_ms: u128,
    daemon: Option<u32>,
)
    ensures
        !ready_for(
            Some(document_of(lifecycle, Some(daemon_pid), false, updated_unix_ms, None)),
            daemon,
        ),
{
}

/// A document says of the daemon what its writer knew: which process it is, that it runs exactly if
/// there is one, and that it is ready only if it was said to be and there is one. The rest is what
/// was handed in.
pub proof fn document_says_what_was_handed_in(
    lifecycle: StateSnapshot,
    daemon_pid: Option<u32>,
    runtime_ready: bool,
    updated_unix_ms: u128,
    telemetry: Option<RuntimeTelemetry>,
)
    ensures
        ({
            let document = document_of(
                lifecycle,
                daemon_pid,
                runtime_ready,
                updated_unix_ms,
                telemetry,
            );
            &&& document.lifecycle == lifecycle
            &&& document.daemon_pid == daemon_pid
            &&& document.daemon_running <==> daemon_pid is Some
            &&& document.runtime_ready <==> daemon_pid is Some && runtime_ready
            &&& document.updated_unix_ms == updated_unix_ms
            &&& document.telemetry == telemetry
            &&& telemetry_of(Some(document)) == telemetry
            &&& ready_for(Some(document), daemon_pid) <==> daemon_pid is Some && runtime_ready
        }),
{
}

/// A daemon that is ready stays so when its lifecycle or telemetry is replaced, and no other daemon
/// is ready by its document.
pub proof fn readiness_is_kept(
    before: Option<PersistedStatus>,
    daemon: u32,
    other: Option<u32>,
    lifecycle: StateSnapshot,
    updated_unix_ms: u128,
    telemetry: Option<RuntimeTelemetry>,
)
    requires
        other != Some(daemon),
    ensures
        ({
            let ready = ready_for(before, Some(daemon));
            let after = Some(
                document_of(lifecycle, Some(daemon), ready, updated_unix_ms, telemetry),
            );
            &&& ready <==> (before matches Some(status) && status.daemon_pid == Some(daemon)
                && status.runtime_ready)
            &&& ready_for(after, Some(daemon)) == ready
            &&& !ready_for(after, other)
            &&& !ready_for(None, Some(daemon)) && !ready_for(before, None)
            &&& telemetry_of(None) is None
        }),
{
}

/// Counters are summed as long as the sum fits, in either order, and never go back.
pub proof fn counters_are_summed(a: u64, b: u64)
    ensures
        a + b <= u64::MAX ==> saturated(a, b) == a + b,
        a + b > u64::MAX ==> saturated(a, b) == u64::MAX,
        saturated(a, b) == saturated(b, a),
        saturated(a, b) >= a && saturated(a, b) >= b,
{
}

/// What each way of writing the document keeps and replaces. The lifecycle and the time are always
/// new. Telemetry is kept until it is replaced, and goes when a daemon starts. Readiness is kept for
/// the daemon that has it, is given by its declaration alone, and goes when a daemon starts.
pub proof fn writing_keeps_what_it_does_not_replace(
    before: Option<PersistedStatus>,
    lifecycle: StateSnapshot,
    daemon_pid: u32,
    now: u128,
    telemetry: RuntimeTelemetry,
)
    ensures
        ({
            let known = match before {
                Some(status) => status.telemetry,
                None => None,
            };
            let was_ready = before matches Some(status) && status.daemon_pid == Some(daemon_pid)
                && status.runtime_ready;
            let written = lifecycle_replaced(before, lifecycle, Some(daemon_pid), now);
            let sampled = telemetry_replaced(before, lifecycle, Some(daemon_pid), now, telemetry);
            let started = daemon_started(lifecycle, daemon_pid, now);
            let ready = daemon_declared_ready(before, lifecycle, daemon_pid, now);
            let orphan = lifecycle_replaced(before, lifecycle, None, now);
            &&& written.telemetry == known && ready.telemetry == known && orphan.telemetry == known
            &&& sampled.telemetry == Some(telemetry) && started.telemetry is None
            &&& written.runtime_ready == was_ready && sampled.runtime_ready == was_ready
            &&& ready.runtime_ready && !started.runtime_ready && !orphan.runtime_ready
            &&& written.lifecycle == lifecycle && sampled.lifecycle == lifecycle
            &&& started.lifecycle == lifecycle && ready.lifecycle == lifecycle
            &&& written.updated_unix_ms == now && sampled.updated_unix_ms == now
            &&& started.updated_unix_ms == now && ready.updated_unix_ms == now
            &&& written.daemon_pid == Some(daemon_pid) && sampled.daemon_pid == Some(daemon_pid)
            &&& started.daemon_pid == Some(daemon_pid) && ready.daemon_pid == Some(daemon_pid)
            &&& written.daemon_running && sampled.daemon_running && started.daemon_running
                && ready.daemon_running
            &&& orphan.daemon_pid is None && !orphan.daemon_running
        }),
{
}

/// Both relays are counted together, each counter with its like. What only one of them knows is
/// taken from that one.
pub proof fn relays_are_counted_together(udp: SocksStatsSnapshot, tcp: SocksStatsSnapshot)
    requires
        udp.accepted_connections + tcp.accepted_connections <= u64::MAX,
        udp.rejected_connections + tcp.rejected_connections <= u64::MAX,
        udp.active_connections + tcp.active_connections <= u64::MAX,
        udp.tcp_tx_bytes + tcp.tcp_tx_bytes <= u64::MAX,
        udp.tcp_rx_bytes + tcp.tcp_rx_bytes <= u64::MAX,
    ensures
        ({
            let both = merged_counters(udp, tcp);
            &&& both.accepted_connections == udp.accepted_connections + tcp.accepted_connections
            &&& both.rejected_connections == udp.rejected_connections + tcp.rejected_connections
            &&& both.active_connections == udp.active_connections + tcp.active_connections
            &&& both.tcp_tx_bytes == udp.tcp_tx_bytes + tcp.tcp_tx_bytes
            &&& both.tcp_rx_bytes == udp.tcp_rx_bytes + tcp.tcp_rx_bytes
            &&& both.virtual_desktop == tcp.virtual_desktop
            &&& both.udp == udp.udp
        }),
{
}

} // verus!
