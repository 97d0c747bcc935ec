//! The host runtime: its configuration, its start and its end, and how it observes itself.
use crate::monitor::{AdbHealthMonitor, MonitorModel};
use crate::paths::AppPaths;
use crate::relay::{update_relay_gate, GateEvent, RelayGateController};
use crate::state::{HostState, SessionId, StateSnapshot};
use crate::time::{Duration, Instant};
use vstd::prelude::*;

verus! {

/// An address of a host.
#[derive(Clone, Copy, Debug, PartialEq, Eq, Structural)]
pub enum IpAddr {
    V4(u8, u8, u8, u8),
    /// The eight groups of an IPv6 address, as one number.
    V6(u128),
}

/// An address of a host with a port.
#[derive(Clone, Copy, Debug, PartialEq, Eq, Structural)]
pub struct SocketAddr {
    pub ip: IpAddr,
    pub port: u16,
}

impl IpAddr {
    /// The address of the host itself: 127.x.y.z or ::1.
    pub open spec fn loopback(self) -> bool {
        match self {
            IpAddr::V4(a, _, _, _) => a == 127,
            IpAddr::V6(groups) => groups == 1,
        }
    }

    pub fn is_loopback(&self) -> (result: bool)
        ensures
            result == self.loopback(),
    {
        match *self {
            IpAddr::V4(a, _, _, _) => a == 127,
            IpAddr::V6(groups) => groups == 1,
        }
    }
}

impl SocketAddr {
    /// The port on 127.0.0.1.
    pub fn local(port: u16) -> (addr: SocketAddr)
        ensures
            addr == (SocketAddr { ip: IpAddr::V4(127, 0, 0, 1), port }),
    {
        SocketAddr { ip: IpAddr::V4(127, 0, 0, 1), port }
    }
}

/// What can go wrong with the runtime. Failures of the layers below are carried by their message.
#[derive(Debug)]
pub enum RuntimeError {
    NonLoopback(SocketAddr),
    Control(String),
    Socks(String),
    Io(String),
    AdminMessageTooLarge(usize),
    AdminTimeout,
    AdminTransportUnsupported,
    AdminTransportClosed,
    Json(String),
}

/// The ports that the runtime listens on.
#[derive(Clone, Copy, Debug, PartialEq, Eq, Structural)]
pub struct Ports {
    pub control: u16,
    pub socks: u16,
    pub udp_stream: u16,
}

/// The configuration of the runtime.
#[derive(Debug)]
pub struct RuntimeConfig {
    pub control_bind: SocketAddr,
    pub socks_bind: SocketAddr,
    pub udp_bind: SocketAddr,
    pub session_id: SessionId,
    pub all_traffic: bool,
    pub paths: AppPaths,
    pub adb_program: String,
}

impl RuntimeConfig {
    /// The configuration that listens on this host only.
    pub fn new(
        session_id: SessionId,
        all_traffic: bool,
        paths: AppPaths,
        ports: Ports,
        adb_program: String,
    ) -> (config: RuntimeConfig)
        ensures
            config == (RuntimeConfig {
                control_bind: SocketAddr { ip: IpAddr::V4(127, 0, 0, 1), port: ports.control },
                socks_bind: SocketAddr { ip: IpAddr::V4(127, 0, 0, 1), port: ports.socks },
                udp_bind: SocketAddr { ip: IpAddr::V4(127, 0, 0, 1), port: ports.udp_stream },
                session_id,
                all_traffic,
                paths,
                adb_program,
            }),
    {
        RuntimeConfig {
            control_bind: SocketAddr::local(ports.control),
            socks_bind: SocketAddr::local(ports.socks),
            udp_bind: SocketAddr::local(ports.udp_stream),
            session_id,
            all_traffic,
            paths,
            adb_program,
        }
    }

    /// The first listener that other hosts could reach, if there is one.
    pub open spec fn exposed_listener(self) -> Option<SocketAddr> {
        if !self.control_bind.ip.loopback() {
            Some(self.control_bind)
        } else if !self.socks_bind.ip.loopback() {
            Some(self.socks_bind)
        } else if !self.udp_bind.ip.loopback() {
            Some(self.udp_bind)
        } else {
            None
        }
    }
}

/// The runtime of the host.
#[derive(Debug)]
pub struct HostRuntime {
    pub config: RuntimeConfig,
}

impl HostRuntime {
    /// Takes a configuration whose listeners only this host can reach.
    pub fn new(config: RuntimeConfig) -> (runtime: Result<HostRuntime, RuntimeError>)
        ensures
            runtime == match config.exposed_listener() {
                Some(listener) => Err::<HostRuntime, RuntimeError>(
                    RuntimeError::NonLoopback(listener),
                ),
                None => Ok::<HostRuntime, RuntimeError>(HostRuntime { config }),
            },
    {
        if !config.control_bind.ip.is_loopback() {
            return Err(RuntimeError::NonLoopback(config.control_bind));
        }
        if !config.socks_bind.ip.is_loopback() {
            return Err(RuntimeError::NonLoopback(config.socks_bind));
        }
        if !config.udp_bind.ip.is_loopback() {
            return Err(RuntimeError::NonLoopback(config.udp_bind));
        }
        Ok(HostRuntime { config })
    }

    /// The lifecycle with which a runtime starts.
    pub fn initial_lifecycle(&self) -> (snapshot: StateSnapshot)
        ensures
            snapshot.state == HostState::Preparing,
            snapshot.session_id matches Some(session) && session@ == crate::state::hex_text(
                self.config.session_id.0@,
            ),
            snapshot.missed_heartbeats == 0,
            snapshot.reason is None,
    {
        StateSnapshot {
            state: HostState::Preparing,
            session_id: Some(self.config.session_id.to_text()),
            missed_heartbeats: 0,
            reason: None,
        }
    }
}

/// The relay gate and the monitor after a change of the lifecycle, and the epoch of a grace period
/// that began with it.
pub open spec fn state_observed(
    gate: RelayGateController,
    monitor: MonitorModel,
    snapshot: StateSnapshot,
) -> (RelayGateController, MonitorModel, Option<u64>) {
    let event = crate::relay::gate_event(snapshot);
    let next = match event {
        Some(event) => gate.after(event),
        None => gate,
    };
    (
        next,
        if snapshot.state == HostState::Connected {
            monitor.authenticated()
        } else {
            monitor.waking_one()
        },
        if event == Some(GateEvent::ControlDegraded) && gate.loss_starts_grace() {
            Some(next.eligibility.control_epoch)
        } else {
            None
        },
    )
}

/// The lifecycle changed: the relay gate follows it, and the monitor is notified, with an order to
/// reconcile if the connection is there. Returns the epoch of a grace period that has to be timed.
pub fn observe_state(
    relay_gate: &mut RelayGateController,
    monitor: &mut AdbHealthMonitor,
    snapshot: &StateSnapshot,
) -> (epoch: Option<u64>)
    ensures
        (*final(relay_gate), final(monitor)@, epoch) == state_observed(
            *old(relay_gate),
            old(monitor)@,
            *snapshot,
        ),
{
    let epoch = update_relay_gate(relay_gate, snapshot);
    if snapshot.state == HostState::Connected {
        monitor.notify_authenticated_connection();
    } else {
        monitor.notify_state_change();
    }
    epoch
}

/// The device woke up over an authenticated connection: flows start over, and the carrier is to
/// be reconciled.
pub fn observe_wake(relay_gate: &mut RelayGateController, monitor: &mut AdbHealthMonitor)
    ensures
        *final(relay_gate) == old(relay_gate).after(GateEvent::AuthenticatedWake),
        final(monitor)@ == old(monitor)@.authenticated(),
{
    relay_gate.authenticated_wake();
    monitor.notify_authenticated_connection();
}

/// A number that tells the processes of the host apart: the time of the start in microseconds,
/// moved by the process id.
pub fn process_generation(unix_millis: u128, pid: u32) -> (generation: u128)
    ensures
        generation == crate::time::lesser(
            crate::time::lesser(unix_millis * 1_000, u128::MAX as int) + pid,
            u128::MAX as int,
        ),
{
    let scaled = if unix_millis > u128::MAX / 1_000 {
        u128::MAX
    } else {
        unix_millis * 1_000
    };
    if scaled > u128::MAX - pid as u128 {
        u128::MAX
    } else {
        scaled + pid as u128
    }
}

/// How often the runtime takes a sample of itself.
pub fn sample_interval() -> (span: Duration)
    ensures
        span@ == 1_000_000_000,
{
    Duration::from_secs(1)
}

/// The timing of one sample.
#[derive(Clone, Copy, Debug, PartialEq, Eq, Structural)]
pub struct SampleTiming {
    pub sample_interval_us: u64,
    pub scheduler_lag_us: u64,
}

/// The microseconds from `previous` to `now`, as far as a counter holds them.
pub open spec fn micros_between(previous: Instant, now: Instant) -> u64 {
    if now@ >= previous@ {
        crate::monitor::clamped_micros((now@ - previous@) / 1000)
    } else {
        0
    }
}

/// Measures the time since the previous sample, and by how much it exceeds the interval. The first
/// sample counts as being on time.
pub fn sample_timing(previous: Option<Instant>, now: Instant) -> (timing: SampleTiming)
    ensures
        timing.sample_interval_us == match previous {
            Some(previous) => micros_between(previous, now),
            None => 1_000_000,
        },
        timing.scheduler_lag_us == if timing.sample_interval_us > 1_000_000 {
            timing.sample_interval_us - 1_000_000
        } else {
            0
        },
{
    let sample_interval_us = match previous {
        Some(previous) => saturated_micros(now.duration_since(previous)),
        None => 1_000_000,
    };
    let scheduler_lag_us = if sample_interval_us > 1_000_000 {
        sample_interval_us - 1_000_000
    } else {
        0
    };
    SampleTiming { sample_interval_us, scheduler_lag_us }
}

/// The microseconds of a span, as far as a counter holds them.
pub fn saturated_micros(span: Duration) -> (micros: u64)
    ensures
        micros == crate::monitor::clamped_micros(span@ / 1000),
{
    let micros = span.as_micros();
    if micros > u64::MAX as u128 {
        u64::MAX
    } else {
        micros as u64
    }
}

/// What writing a line of diagnostics took.
#[derive(Clone, Copy, Debug, PartialEq, Eq, Structural)]
pub struct DiagnosticWriteMetrics {
    pub duration_us: u64,
    pub rotated: bool,
}

/// What writing a sample took.
#[derive(Clone, Copy, Debug, PartialEq, Eq, Structural)]
pub struct RuntimePersistenceMetrics {
    pub diagnostics: DiagnosticWriteMetrics,
    pub status_write_us: u64,
    pub failed: bool,
}

/// The metrics of a sample: those of the diagnostics if they were written, the time that the
/// status took, and whether either failed.
pub fn persistence_metrics(
    diagnostics: Option<DiagnosticWriteMetrics>,
    status_took: Duration,
    status_written: bool,
) -> (metrics: RuntimePersistenceMetrics)
    ensures
        metrics == (RuntimePersistenceMetrics {
            diagnostics: match diagnostics {
                Some(diagnostics) => diagnostics,
                None => DiagnosticWriteMetrics { duration_us: 0, rotated: false },
            },
            status_write_us: crate::monitor::clamped_micros(status_took@ / 1000),
            failed: diagnostics is None || !status_written,
        }),
{
    let failed = diagnostics.is_none() || !status_written;
    let diagnostics = match diagnostics {
        Some(diagnostics) => diagnostics,
        None => DiagnosticWriteMetrics { duration_us: 0, rotated: false },
    };
    RuntimePersistenceMetrics {
        diagnostics,
        status_write_us: saturated_micros(status_took),
        failed,
    }
}

/// The metrics of a sample whose writing did not come to its end.
pub fn lost_persistence_metrics() -> (metrics: RuntimePersistenceMetrics)
    ensures
        metrics == (RuntimePersistenceMetrics {
            diagnostics: DiagnosticWriteMetrics { duration_us: 0, rotated: false },
            status_write_us: 0,
            failed: true,
        }),
{
    RuntimePersistenceMetrics {
        diagnostics: DiagnosticWriteMetrics { duration_us: 0, rotated: false },
        status_write_us: 0,
        failed: true,
    }
}

/// The result of a task of the runtime. A task that did not come to its end counts as failed I/O.
pub fn flatten_runtime_task(result: Result<Result<(), RuntimeError>, String>) -> (flat: Result<
    (),
    RuntimeError,
>)
    ensures
        flat == match result {
            Ok(result) => result,
            Err(message) => Err::<(), RuntimeError>(RuntimeError::Io(message)),
        },
{
    match result {
        Ok(result) => result,
        Err(message) => Err(RuntimeError::Io(message)),
    }
}

/// The stages of a run of the runtime, in order.
#[derive(Clone, Copy, Debug, PartialEq, Eq, Structural)]
pub enum RunStage {
    /// Tie child processes to this one.
    KillJob,
    /// Take the lock of the runtime.
    RuntimeLock,
    /// Open the diagnostics.
    Diagnostics,
    /// Write down which process this is.
    Identity,
    /// Write the status of a runtime that is not ready.
    NotReady,
    /// Load the token of the admin endpoint and set the servers up.
    Servers,
    /// Bind the listeners.
    Listeners,
    /// Start the tasks.
    Tasks,
    /// Wait for the admin endpoint to answer.
    AdminReady,
    /// Write the status of a runtime that is ready.
    Ready,
    /// Wait for a task to end, for a shutdown or for a signal.
    Serving,
}

/// Where a run stands.
pub enum RunStep {
    Begin,
    Completed(RunStage),
    Failed(RuntimeError),
    /// The runtime is to end, with this result.
    Ended(Result<(), RuntimeError>),
    /// The command to the device that was running has ended.
    RepairsDrained(Result<(), RuntimeError>),
}

/// What a run has to do next.
pub enum RunAction {
    Perform(RunStage),
    /// Wait for the command to the device that may be running to end.
    DrainRepairs(Result<(), RuntimeError>),
    /// End the tasks, remove the identity of this process and return.
    Finish(Result<(), RuntimeError>),
    /// Return.
    Abandon(RuntimeError),
}

impl RunStage {
    /// The place of the stage in the order.
    pub open spec fn place(self) -> int {
        match self {
            RunStage::KillJob => 0,
            RunStage::RuntimeLock => 1,
            RunStage::Diagnostics => 2,
            RunStage::Identity => 3,
            RunStage::NotReady => 4,
            RunStage::Servers => 5,
            RunStage::Listeners => 6,
            RunStage::Tasks => 7,
            RunStage::AdminReady => 8,
            RunStage::Ready => 9,
            RunStage::Serving => 10,
        }
    }
}

/// What follows the completion of a stage.
pub open spec fn follows(stage: RunStage, action: RunAction) -> bool {
    if stage == RunStage::Serving {
        action == RunAction::DrainRepairs(Ok(()))
    } else {
        action matches RunAction::Perform(next) && next.place() == stage.place() + 1
    }
}

/// A run takes the step: the monitor becomes `next`, and `action` follows.
pub open spec fn run_takes(
    monitor: MonitorModel,
    step: RunStep,
    next: MonitorModel,
    action: RunAction,
) -> bool {
    &&& match step {
        RunStep::Begin => action == RunAction::Perform(RunStage::KillJob),
        RunStep::Completed(stage) => follows(stage, action),
        RunStep::Failed(error) => action == RunAction::Abandon(error),
        RunStep::Ended(result) => action == RunAction::DrainRepairs(result),
        RunStep::RepairsDrained(result) => action == RunAction::Finish(result),
    }
    &&& next == if step is Ended || step == RunStep::Completed(RunStage::Serving) {
        monitor.suppressed()
    } else {
        monitor
    }
}

impl HostRuntime {
    /// Takes one step of a run: the stages in order, then the end. Repairs are suppressed before
    /// any task is ended.
    pub fn run(monitor: &mut AdbHealthMonitor, step: RunStep) -> (action: RunAction)
        ensures
            run_takes(old(monitor)@, step, final(monitor)@, action),
    {
        match step {
            RunStep::Begin => RunAction::Perform(RunStage::KillJob),
            RunStep::Completed(stage) => {
                match stage {
                    RunStage::KillJob => RunAction::Perform(RunStage::RuntimeLock),
                    RunStage::RuntimeLock => RunAction::Perform(RunStage::Diagnostics),
                    RunStage::Diagnostics => RunAction::Perform(RunStage::Identity),
                    RunStage::Identity => RunAction::Perform(RunStage::NotReady),
                    RunStage::NotReady => RunAction::Perform(RunStage::Servers),
                    RunStage::Servers => RunAction::Perform(RunStage::Listeners),
                    RunStage::Listeners => RunAction::Perform(RunStage::Tasks),
                    RunStage::Tasks => RunAction::Perform(RunStage::AdminReady),
                    RunStage::AdminReady => RunAction::Perform(RunStage::Ready),
                    RunStage::Ready => RunAction::Perform(RunStage::Serving),
                    RunStage::Serving => {
                        monitor.begin_suppress_repairs();
                        RunAction::DrainRepairs(Ok(()))
                    },
                }
            },
            RunStep::Failed(error) => RunAction::Abandon(error),
            RunStep::Ended(result) => {
                monitor.begin_suppress_repairs();
                RunAction::DrainRepairs(result)
            },
            RunStep::RepairsDrained(result) => RunAction::Finish(result),
        }
    }
}

/// The runtime says that it is ready only once its admin endpoint has answered, and it starts to
/// serve only once it has said so.
pub proof fn readiness_follows_the_admin_endpoint(stage: RunStage)
    ensures
        follows(stage, RunAction::Perform(RunStage::Ready)) ==> stage == RunStage::AdminReady,
        follows(stage, RunAction::Perform(RunStage::Serving)) ==> stage == RunStage::Ready,
{
}

/// A configuration that was made for this host is accepted, whatever its ports.
pub proof fn usual_configuration_is_accepted(config: RuntimeConfig)
    requires
        config.control_bind.ip == IpAddr::V4(127, 0, 0, 1),
        config.socks_bind.ip == IpAddr::V4(127, 0, 0, 1),
        config.udp_bind.ip == IpAddr::V4(127, 0, 0, 1),
    ensures
        config.exposed_listener() is None,
{
}

/// Only this host reaches an address that begins with 127, or ::1.
pub proof fn loopback_addresses(a: u8, b: u8, c: u8, d: u8, groups: u128)
    ensures
        IpAddr::V4(a, b, c, d).loopback() <==> a == 127,
        IpAddr::V6(groups).loopback() <==> groups == 1,
{
}

/// A configuration is accepted exactly when every listener is for this host only, and is refused for
/// the first one that is not.
pub proof fn every_listener_is_for_this_host(config: RuntimeConfig)
    ensures
        config.exposed_listener() is None <==> (config.control_bind.ip.loopback()
            && config.socks_bind.ip.loopback() && config.udp_bind.ip.loopback()),
        config.exposed_listener() matches Some(listener) ==> !listener.ip.loopback() && (listener
            == config.control_bind || listener == config.socks_bind || listener == config.udp_bind),
        !config.control_bind.ip.loopback() ==> config.exposed_listener() == Some(
            config.control_bind,
        ),
        config.control_bind.ip.loopback() && !config.socks_bind.ip.loopback()
            ==> config.exposed_listener() == Some(config.socks_bind),
{
}

/// The stages of a run follow each other in this order, and serving is followed by the end.
pub proof fn stages_follow_each_other(stage: RunStage, next: RunStage)
    ensures
        follows(stage, RunAction::Perform(next)) <==> match stage {
            RunStage::KillJob => next == RunStage::RuntimeLock,
            RunStage::RuntimeLock => next == RunStage::Diagnostics,
            RunStage::Diagnostics => next == RunStage::Identity,
            RunStage::Identity => next == RunStage::NotReady,
            RunStage::NotReady => next == RunStage::Servers,
            RunStage::Servers => next == RunStage::Listeners,
            RunStage::Listeners => next == RunStage::Tasks,
            RunStage::Tasks => next == RunStage::AdminReady,
            RunStage::AdminReady => next == RunStage::Ready,
            RunStage::Ready => next == RunStage::Serving,
            RunStage::Serving => false,
        },
        follows(stage, RunAction::DrainRepairs(Ok(()))) <==> stage == RunStage::Serving,
{
}

/// The time between two samples is counted in whole microseconds, as far as a counter holds them,
/// and is zero when the clock went back.
pub proof fn samples_are_timed_in_microseconds(previous: Instant, now: Instant)
    ensures
        now@ < previous@ ==> micros_between(previous, now) == 0,
        now@ >= previous@ && now@ - previous@ < 0x1_0000_0000_0000_0000 * 1000 ==> micros_between(
            previous,
            now,
        ) * 1000 <= now@ - previous@ < (micros_between(previous, now) + 1) * 1000,
        now@ - previous@ >= 0x1_0000_0000_0000_0000 * 1000 ==> micros_between(previous, now)
            == u64::MAX,
{
}

/// A connected lifecycle orders the carrier to be reconciled, any other change only wakes the
/// monitor. A grace period has to be timed exactly when the control connection was lost while it was
/// authenticated and no grace period ran.
pub proof fn lifecycle_is_passed_on(
    gate: RelayGateController,
    monitor: MonitorModel,
    snapshot: StateSnapshot,
)
    ensures
        ({
            let (next, told, epoch) = state_observed(gate, monitor, snapshot);
            let connected = snapshot.state == HostState::Connected;
            let lost = snapshot.state == HostState::Degraded && (
            snapshot.reason matches Some(reason) && reason@ == "control transport lost"@);
            &&& told.wake.one
            &&& told.authenticated_reconcile == (connected || monitor.authenticated_reconcile)
            &&& told.stopping == monitor.stopping && told.status == monitor.status
            &&& told.transport_recovery == monitor.transport_recovery
            &&& epoch is Some <==> lost && gate.eligibility.control_authenticated
                && !gate.eligibility.control_loss_pending
            &&& epoch matches Some(epoch) ==> epoch == next.eligibility.control_epoch
                && next.eligibility.control_loss_pending
            &&& connected ==> next.eligibility.control_authenticated
            &&& gate_agrees(gate, snapshot, next)
        }),
{
    crate::relay::lifecycle_moves_the_gate(snapshot);
}

/// The relay gate moved as the lifecycle says.
pub open spec fn gate_agrees(
    gate: RelayGateController,
    snapshot: StateSnapshot,
    next: RelayGateController,
) -> bool {
    &&& snapshot.state == HostState::Preparing ==> next == gate
    &&& snapshot.state == HostState::Stopped || snapshot.state == HostState::Stopping
        || snapshot.state == HostState::Error ==> !next.gate.enabled
        && !next.eligibility.control_authenticated
    &&& snapshot.state == HostState::Connected ==> next.gate.enabled
        == gate.eligibility.carrier_healthy
}

/// A run ends in order: whatever ended it, repairs are suppressed first, then the last command to
/// the device is waited for, and then the run finishes with the result that ended it. A stage that
/// fails abandons the run. Nothing else touches the monitor.
pub proof fn run_ends_in_order(
    monitor: MonitorModel,
    result: Result<(), RuntimeError>,
    error: RuntimeError,
    step: RunStep,
    next: MonitorModel,
    action: RunAction,
)
    requires
        run_takes(monitor, step, next, action),
    ensures
        step == RunStep::Begin ==> action == RunAction::Perform(RunStage::KillJob),
        step == RunStep::Ended(result) ==> action == RunAction::DrainRepairs(result)
            && next.stopping,
        step == RunStep::Completed(RunStage::Serving) ==> action == RunAction::DrainRepairs(Ok(()))
            && next.stopping,
        step == RunStep::RepairsDrained(result) ==> action == RunAction::Finish(result),
        step == RunStep::Failed(error) ==> action == RunAction::Abandon(error),
        step !is Ended && step != RunStep::Completed(RunStage::Serving) ==> next == monitor,
        action is DrainRepairs ==> next.stopping && next.status.repair_suppressed,
        action is Finish ==> step is RepairsDrained,
{
}

} // verus!
