//! Reconciling the carrier: probing the reverse mappings, repairing them, and what follows from
//! the loss of the carrier.
//!
//! Each procedure is a function from a step to the action that is to be taken next. The caller
//! performs the action and comes back with the step that it leads to.
use crate::monitor::{
    internal, lemma_no_event, lemma_one_event, lemma_two_events, suppression_is_permanent,
    AdbHealthMonitor, MonitorEvent, MonitorModel,
};
use crate::recovery::TransportRecoveryTrigger;
use crate::relay::{GateEvent, RelayGateController};
use crate::state::{reads, AndroidVpnStatus, HostState};
use crate::text::{joined, same_text};
use crate::time::Duration;
use vstd::prelude::*;

verus! {

/// Why the carrier counts as lost.
#[derive(Clone, Copy, Debug, PartialEq, Eq, Structural)]
pub enum CarrierFailure {
    DeviceUnavailable,
    MappingRepairFailed,
    MappingProbeFailed,
    MappingProbeWorkerFailed,
    TrackSpawnFailed,
    TrackStdoutUnavailable,
    TrackExited,
    TrackDecodeFailed,
    TrackReadFailed,
}

impl CarrierFailure {
    /// The name under which the failure is reported.
    pub open spec fn name(self) -> Seq<char> {
        match self {
            CarrierFailure::DeviceUnavailable => "device_unavailable"@,
            CarrierFailure::MappingRepairFailed => "mapping_repair_failed"@,
            CarrierFailure::MappingProbeFailed => "mapping_probe_failed"@,
            CarrierFailure::MappingProbeWorkerFailed => "mapping_probe_worker_failed"@,
            CarrierFailure::TrackSpawnFailed => "track_spawn_failed"@,
            CarrierFailure::TrackStdoutUnavailable => "track_stdout_unavailable"@,
            CarrierFailure::TrackExited => "track_exited"@,
            CarrierFailure::TrackDecodeFailed => "track_decode_failed"@,
            CarrierFailure::TrackReadFailed => "track_read_failed"@,
        }
    }

    pub fn as_str(self) -> (name: &'static str)
        ensures
            name@ == self.name(),
    {
        match self {
            CarrierFailure::DeviceUnavailable => "device_unavailable",
            CarrierFailure::MappingRepairFailed => "mapping_repair_failed",
            CarrierFailure::MappingProbeFailed => "mapping_probe_failed",
            CarrierFailure::MappingProbeWorkerFailed => "mapping_probe_worker_failed",
            CarrierFailure::TrackSpawnFailed => "track_spawn_failed",
            CarrierFailure::TrackStdoutUnavailable => "track_stdout_unavailable",
            CarrierFailure::TrackExited => "track_exited",
            CarrierFailure::TrackDecodeFailed => "track_decode_failed",
            CarrierFailure::TrackReadFailed => "track_read_failed",
        }
    }
}

/// A loss of the carrier that the lifecycle has to hear of.
#[derive(Clone, Copy, Debug, PartialEq, Eq, Structural)]
pub struct LossReport {
    pub device_available: bool,
    pub failure: CarrierFailure,
}

impl LossReport {
    /// The reason that the lifecycle gives for being degraded.
    pub fn reason(&self) -> (reason: String)
        ensures
            reason@ == "ADB carrier unavailable ("@ + self.failure.name() + ")"@,
    {
        joined("ADB carrier unavailable (", self.failure.as_str(), ")")
    }

    /// What was lost: the mappings while the device is there, the device otherwise.
    pub fn category(&self) -> (category: &'static str)
        ensures
            category@ == if self.device_available {
                "mapping"@
            } else {
                "device"@
            },
    {
        if self.device_available {
            "mapping"
        } else {
            "device"
        }
    }
}

/// A reverse mapping from a port of the device to a port of the host.
#[derive(Clone, Copy, Debug, PartialEq, Eq, Structural)]
pub struct ReverseMapping {
    pub remote: u16,
    pub local: u16,
}

/// What a probe of the mappings found.
pub enum ProbeOutcome {
    Healthy,
    /// The mappings that have to be added.
    Missing(Vec<ReverseMapping>),
    /// The probe failed.
    Failed,
    /// The probe did not come to its end.
    WorkerFailed,
}

/// The mappings that a repair adds, and how many of them it has come to.
pub struct RepairPlan {
    pub missing: Vec<ReverseMapping>,
    pub taken: usize,
}

/// Where a reconciliation stands.
pub enum ReconcileStep {
    Begin { device_available: bool },
    LifecycleKnown { device_available: bool, state: HostState },
    OperationAcquired { state: HostState },
    Probed { state: HostState, took: Duration, outcome: ProbeOutcome },
    MappingAdded { plan: RepairPlan, added: bool },
    Verified { healthy: bool },
}

/// What a reconciliation has to do next.
pub enum ReconcileAction {
    /// Nothing.
    Done,
    /// Find out the state of the lifecycle.
    QueryLifecycle { device_available: bool },
    /// Wait for other work on the carrier to end.
    AcquireOperation { state: HostState },
    /// Probe the mappings.
    ProbeMappings { state: HostState },
    /// Add the mapping that the plan has just taken.
    AddMapping { mapping: ReverseMapping, plan: RepairPlan },
    /// Probe the mappings again.
    VerifyMappings,
    /// Tell the lifecycle of the loss. Nothing follows.
    ReportLoss(LossReport),
    /// Find out whether the device sleeps. Nothing follows.
    ProbeSleep,
    /// The mappings were repaired, for this time. Nothing follows.
    Repaired { generation: u64 },
}

impl ReconcileAction {
    /// The action is a command to the device.
    pub open spec fn is_command(self) -> bool {
        self is ProbeMappings || self is AddMapping || self is VerifyMappings
    }
}

impl MonitorModel {
    /// The carrier was found lost.
    pub open spec fn lost(self, device_available: bool, failure: CarrierFailure) -> MonitorModel {
        self.with_status(true, device_available, false, Some(failure.name()))
    }

    /// The loss is news: the status was another one.
    pub open spec fn loss_is_news(self, device_available: bool, failure: CarrierFailure) -> bool {
        self.lost(device_available, failure).status != self.status
    }

    /// What to do about a loss: report it if it is news.
    pub open spec fn loss_action(
        self,
        device_available: bool,
        failure: CarrierFailure,
    ) -> ReconcileAction {
        if self.loss_is_news(device_available, failure) {
            ReconcileAction::ReportLoss(LossReport { device_available, failure })
        } else {
            ReconcileAction::Done
        }
    }

    /// The carrier was found healthy.
    pub open spec fn healthy(self) -> MonitorModel {
        self.with_status(true, true, true, None)
    }

    /// The carrier was repaired.
    pub open spec fn repaired(self) -> MonitorModel {
        self.reconnect_counted().healthy()
    }
}

/// The number of a repair, when `repairs` came before it.
pub open spec fn repair_number(repairs: u64) -> u64 {
    if repairs == u64::MAX {
        u64::MAX
    } else {
        (repairs + 1) as u64
    }
}

/// The next action of a repair: none once stopping, the next mapping while there is one, and a
/// last probe when all were added.
pub open spec fn repair_action(stopping: bool, plan: RepairPlan) -> ReconcileAction {
    if stopping {
        ReconcileAction::Done
    } else if plan.taken < plan.missing@.len() {
        ReconcileAction::AddMapping {
            mapping: plan.missing@[plan.taken as int],
            plan: RepairPlan { missing: plan.missing, taken: (plan.taken + 1) as usize },
        }
    } else {
        ReconcileAction::VerifyMappings
    }
}

/// The monitor, the relay gate and the action that a step of a reconciliation leads to.
pub open spec fn reconcile_next(
    monitor: MonitorModel,
    gate: RelayGateController,
    step: ReconcileStep,
) -> (MonitorModel, RelayGateController, ReconcileAction) {
    match step {
        ReconcileStep::Begin { device_available } => (
            monitor,
            gate,
            if monitor.stopping {
                ReconcileAction::Done
            } else {
                ReconcileAction::QueryLifecycle { device_available }
            },
        ),
        ReconcileStep::LifecycleKnown { device_available, state } => if !device_available {
            let noted = if state.active() {
                monitor.usb_disconnected()
            } else {
                monitor
            };
            (
                noted.lost(false, CarrierFailure::DeviceUnavailable),
                gate.after(GateEvent::CarrierLost),
                if state.active() {
                    noted.loss_action(false, CarrierFailure::DeviceUnavailable)
                } else {
                    ReconcileAction::Done
                },
            )
        } else if state.active() {
            (monitor, gate, ReconcileAction::AcquireOperation { state })
        } else {
            (monitor.with_status(true, true, false, None), gate, ReconcileAction::Done)
        },
        ReconcileStep::OperationAcquired { state } => (
            monitor,
            gate,
            if monitor.stopping {
                ReconcileAction::Done
            } else {
                ReconcileAction::ProbeMappings { state }
            },
        ),
        ReconcileStep::Probed { state, took, outcome } => {
            let probed = monitor.probed(took@ / 1000);
            match outcome {
                ProbeOutcome::Healthy => (
                    probed.healthy(),
                    gate.after(GateEvent::CarrierHealthy),
                    if state == HostState::Degraded {
                        ReconcileAction::ProbeSleep
                    } else {
                        ReconcileAction::Done
                    },
                ),
                ProbeOutcome::Missing(missing) => (
                    probed,
                    gate,
                    repair_action(probed.stopping, RepairPlan { missing, taken: 0 }),
                ),
                ProbeOutcome::Failed => (
                    probed.lost(false, CarrierFailure::MappingProbeFailed),
                    gate,
                    probed.loss_action(false, CarrierFailure::MappingProbeFailed),
                ),
                ProbeOutcome::WorkerFailed => (
                    probed.lost(false, CarrierFailure::MappingProbeWorkerFailed),
                    gate,
                    probed.loss_action(false, CarrierFailure::MappingProbeWorkerFailed),
                ),
            }
        },
        ReconcileStep::MappingAdded { plan, added } => if monitor.stopping {
            (monitor, gate, ReconcileAction::Done)
        } else if added {
            (monitor, gate, repair_action(false, plan))
        } else {
            repair_failed_next(monitor, gate)
        },
        ReconcileStep::Verified { healthy } => if healthy {
            (
                monitor.repaired(),
                gate.after(GateEvent::CarrierHealthy),
                ReconcileAction::Repaired {
                    generation: repair_number(monitor.reconnect_generation),
                },
            )
        } else {
            repair_failed_next(monitor, gate)
        },
    }
}

/// What a repair that failed leads to: the carrier is lost although the device is there.
pub open spec fn repair_failed_next(monitor: MonitorModel, gate: RelayGateController) -> (
    MonitorModel,
    RelayGateController,
    ReconcileAction,
) {
    (
        monitor.lost(true, CarrierFailure::MappingRepairFailed),
        gate.after(GateEvent::CarrierLost),
        monitor.loss_action(true, CarrierFailure::MappingRepairFailed),
    )
}

impl AdbHealthMonitor {
    /// Notes the loss of the carrier. Returns a report when the loss is news.
    pub fn record_loss(&mut self, device_available: bool, failure: CarrierFailure) -> (report:
        Option<LossReport>)
        ensures
            final(self)@ == old(self)@.lost(device_available, failure),
            report == if old(self)@.loss_is_news(device_available, failure) {
                Some(LossReport { device_available, failure })
            } else {
                None
            },
    {
        if self.update_status(true, device_available, false, Some(failure.as_str())) {
            Some(LossReport { device_available, failure })
        } else {
            None
        }
    }

    fn lose_carrier(&mut self, device_available: bool, failure: CarrierFailure) -> (action:
        ReconcileAction)
        ensures
            final(self)@ == old(self)@.lost(device_available, failure),
            action == old(self)@.loss_action(device_available, failure),
    {
        match self.record_loss(device_available, failure) {
            Some(report) => ReconcileAction::ReportLoss(report),
            None => ReconcileAction::Done,
        }
    }

    fn continue_repair(&self, plan: RepairPlan) -> (action: ReconcileAction)
        ensures
            action == repair_action(self@.stopping, plan),
    {
        if self.stopping {
            return ReconcileAction::Done;
        }
        if plan.taken < plan.missing.len() {
            let mapping = plan.missing[plan.taken];
            ReconcileAction::AddMapping {
                mapping,
                plan: RepairPlan { missing: plan.missing, taken: plan.taken + 1 },
            }
        } else {
            ReconcileAction::VerifyMappings
        }
    }

    /// Takes one step of bringing the carrier in line with the device and the lifecycle.
    pub fn reconcile(
        &mut self,
        relay_gate: &mut RelayGateController,
        step: ReconcileStep,
    ) -> (action: ReconcileAction)
        ensures
            (final(self)@, *final(relay_gate), action) == reconcile_next(
                old(self)@,
                *old(relay_gate),
                step,
            ),
    {
        match step {
            ReconcileStep::Begin { device_available } => {
                if self.stopping {
                    ReconcileAction::Done
                } else {
                    ReconcileAction::QueryLifecycle { device_available }
                }
            },
            ReconcileStep::LifecycleKnown { device_available, state } => {
                if !device_available {
                    relay_gate.carrier_lost();
                    if state.is_active() {
                        self.note_usb_disconnected();
                        self.lose_carrier(false, CarrierFailure::DeviceUnavailable)
                    } else {
                        let _ = self.record_loss(false, CarrierFailure::DeviceUnavailable);
                        ReconcileAction::Done
                    }
                } else if state.is_active() {
                    ReconcileAction::AcquireOperation { state }
                } else {
                    let _ = self.update_status(true, true, false, None);
                    ReconcileAction::Done
                }
            },
            ReconcileStep::OperationAcquired { state } => {
                if self.stopping {
                    ReconcileAction::Done
                } else {
                    ReconcileAction::ProbeMappings { state }
                }
            },
            ReconcileStep::Probed { state, took, outcome } => {
                self.record_mapping_probe(took);
                match outcome {
                    ProbeOutcome::Healthy => {
                        let _ = self.update_status(true, true, true, None);
                        relay_gate.carrier_healthy();
                        if state == HostState::Degraded {
                            ReconcileAction::ProbeSleep
                        } else {
                            ReconcileAction::Done
                        }
                    },
                    ProbeOutcome::Missing(missing) => self.continue_repair(
                        RepairPlan { missing, taken: 0 },
                    ),
                    ProbeOutcome::Failed => self.lose_carrier(
                        false,
                        CarrierFailure::MappingProbeFailed,
                    ),
                    ProbeOutcome::WorkerFailed => self.lose_carrier(
                        false,
                        CarrierFailure::MappingProbeWorkerFailed,
                    ),
                }
            },
            // A stop sets its flag before it waits for the repair, so the flag is looked at
            // between any two commands: the stop waits for one command at most.
            ReconcileStep::MappingAdded { plan, added } => {
                if self.stopping {
                    ReconcileAction::Done
                } else if added {
                    self.continue_repair(plan)
                } else {
                    relay_gate.carrier_lost();
                    self.lose_carrier(true, CarrierFailure::MappingRepairFailed)
                }
            },
            ReconcileStep::Verified { healthy } => {
                if healthy {
                    let generation = self.count_reconnect();
                    let _ = self.update_status(true, true, true, None);
                    relay_gate.carrier_healthy();
                    ReconcileAction::Repaired { generation }
                } else {
                    relay_gate.carrier_lost();
                    self.lose_carrier(true, CarrierFailure::MappingRepairFailed)
                }
            },
        }
    }

    /// The epoch of the grace period in which the device is to be asked whether it sleeps: the
    /// one that runs, unless the monitor is stopping.
    pub fn begin_sleep_probe(&self, relay_gate: &RelayGateController) -> (epoch: Option<u64>)
        ensures
            epoch == sleep_probe_epoch(self@, *relay_gate),
    {
        if self.stopping {
            return None;
        }
        relay_gate.pending_control_epoch()
    }
}

/// The device confirms that it sleeps: its screen is suspended and its service is degraded.
pub open spec fn confirms_sleep(status: Option<AndroidVpnStatus>) -> bool {
    match status {
        Some(status) => status.screen_suspended == Some(true) && reads(status.state, "degraded"@),
        None => false,
    }
}

/// The epoch of the grace period in which the device is asked whether it sleeps, if it is.
pub open spec fn sleep_probe_epoch(
    monitor: MonitorModel,
    gate: RelayGateController,
) -> Option<u64> {
    if !monitor.stopping && gate.eligibility.control_authenticated
        && gate.eligibility.control_loss_pending {
        Some(gate.eligibility.control_epoch)
    } else {
        None
    }
}

/// The relay gate after the answer of the device that was asked in the grace period of `epoch`, and
/// whether the answer closed it.
pub open spec fn sleep_reconciled(
    gate: RelayGateController,
    epoch: u64,
    status: Option<AndroidVpnStatus>,
) -> (RelayGateController, bool) {
    (
        if confirms_sleep(status) {
            gate.after(GateEvent::ControlLossConfirmed(epoch))
        } else {
            gate
        },
        confirms_sleep(status) && gate.loss_confirmed_by(epoch),
    )
}

/// Closes the relay gate when the device confirmed that it sleeps and the grace period that was
/// asked for still runs. Returns whether it did.
pub fn reconcile_android_sleep(
    relay_gate: &mut RelayGateController,
    epoch: u64,
    status: &Option<AndroidVpnStatus>,
) -> (closed: bool)
    ensures
        (*final(relay_gate), closed) == sleep_reconciled(*old(relay_gate), epoch, *status),
{
    let asleep = match status {
        Some(status) => {
            let suspended = match status.screen_suspended {
                Some(suspended) => suspended,
                None => false,
            };
            let degraded = match &status.state {
                Some(state) => same_text(state.as_str(), "degraded"),
                None => false,
            };
            suspended && degraded
        },
        None => false,
    };
    asleep && relay_gate.control_inactive_if_epoch(epoch)
}

/// Where the handling of a failed device tracker stands.
pub enum TrackFailureStep {
    Begin(CarrierFailure),
    /// The device was asked for its state after undecodable output, and said so if it could be
    /// asked. `mappings_kept` says whether the carrier was healthy before.
    DeviceProbed { mappings_kept: bool, device_state: Option<String> },
    LifecycleKnown { failure: CarrierFailure, state: HostState },
    LossReported(CarrierFailure),
}

/// What the handling of a failed device tracker has to do next.
pub enum TrackFailureAction {
    /// Ask the device for its state.
    ProbeDevice { mappings_kept: bool },
    /// Find out the state of the lifecycle.
    QueryLifecycle(CarrierFailure),
    /// Tell the lifecycle of the loss.
    ReportLoss(LossReport),
    /// Nothing.
    Done { device_confirmed: bool },
}

/// The event by which the loss of the carrier is noted.
pub open spec fn loss_event(device_available: bool, failure: CarrierFailure) -> MonitorEvent {
    MonitorEvent::StatusSet(true, device_available, false, Some(failure.name()))
}

/// The event by which the failure of the tracker is noted.
pub open spec fn untracked_event(failure: CarrierFailure) -> MonitorEvent {
    MonitorEvent::StatusSet(false, false, false, Some(failure.name()))
}

impl MonitorModel {
    /// The tracker failed and nothing is known of the carrier.
    pub open spec fn untracked(self, failure: CarrierFailure) -> MonitorModel {
        self.with_status(false, false, false, Some(failure.name()))
    }
}

/// The monitor and the action that a step of the handling of a failed tracker leads to.
pub open spec fn track_failed_next(monitor: MonitorModel, step: TrackFailureStep) -> (
    MonitorModel,
    TrackFailureAction,
) {
    match step {
        TrackFailureStep::Begin(failure) => if failure == CarrierFailure::TrackDecodeFailed {
            (
                monitor,
                TrackFailureAction::ProbeDevice {
                    mappings_kept: monitor.status.device_available
                        && monitor.status.mappings_healthy,
                },
            )
        } else {
            (monitor.untracked(failure), TrackFailureAction::QueryLifecycle(failure))
        },
        TrackFailureStep::DeviceProbed { mappings_kept, device_state } => if reads(
            device_state,
            "device"@,
        ) {
            (
                monitor.with_status(
                    false,
                    true,
                    mappings_kept,
                    Some(CarrierFailure::TrackDecodeFailed.name()),
                ),
                TrackFailureAction::Done { device_confirmed: true },
            )
        } else {
            (
                monitor.untracked(CarrierFailure::TrackDecodeFailed),
                TrackFailureAction::QueryLifecycle(CarrierFailure::TrackDecodeFailed),
            )
        },
        TrackFailureStep::LifecycleKnown { failure, state } => if state.active() {
            let noted = monitor.usb_disconnected();
            if noted.loss_is_news(false, failure) {
                (
                    noted.lost(false, failure),
                    TrackFailureAction::ReportLoss(LossReport { device_available: false, failure }),
                )
            } else {
                (noted.untracked(failure), TrackFailureAction::Done { device_confirmed: false })
            }
        } else {
            (monitor.untracked(failure), TrackFailureAction::Done { device_confirmed: false })
        },
        TrackFailureStep::LossReported(failure) => (
            monitor.untracked(failure),
            TrackFailureAction::Done { device_confirmed: false },
        ),
    }
}

impl AdbHealthMonitor {
    fn set_untracked(&mut self, failure: CarrierFailure)
        ensures
            final(self)@ == old(self)@.untracked(failure),
    {
        let _ = self.update_status(false, false, false, Some(failure.as_str()));
    }

    /// Takes one step of handling a failed device tracker. Undecodable output says nothing about
    /// the device, so the device itself is asked; any other failure counts as the loss of the
    /// carrier.
    pub fn track_failed(&mut self, step: TrackFailureStep) -> (action: TrackFailureAction)
        ensures
            (final(self)@, action) == track_failed_next(old(self)@, step),
    {
        match step {
            TrackFailureStep::Begin(failure) => {
                if failure == CarrierFailure::TrackDecodeFailed {
                    TrackFailureAction::ProbeDevice {
                        mappings_kept: self.status.device_available && self.status.mappings_healthy,
                    }
                } else {
                    self.set_untracked(failure);
                    TrackFailureAction::QueryLifecycle(failure)
                }
            },
            TrackFailureStep::DeviceProbed { mappings_kept, device_state } => {
                let failure = CarrierFailure::TrackDecodeFailed;
                let confirmed = match &device_state {
                    Some(state) => same_text(state.as_str(), "device"),
                    None => false,
                };
                if confirmed {
                    let _ = self.update_status(false, true, mappings_kept, Some(failure.as_str()));
                    TrackFailureAction::Done { device_confirmed: true }
                } else {
                    self.set_untracked(failure);
                    TrackFailureAction::QueryLifecycle(failure)
                }
            },
            TrackFailureStep::LifecycleKnown { failure, state } => {
                if state.is_active() {
                    self.note_usb_disconnected();
                    if let Some(report) = self.record_loss(false, failure) {
                        return TrackFailureAction::ReportLoss(report);
                    }
                }
                self.set_untracked(failure);
                TrackFailureAction::Done { device_confirmed: false }
            },
            // A loss is reported as by a live monitor. The tracker is gone, so the status must
            // not present the monitor as active until the tracker is back.
            TrackFailureStep::LossReported(failure) => {
                self.set_untracked(failure);
                TrackFailureAction::Done { device_confirmed: false }
            },
        }
    }
}

/// Each step of a reconciliation changes the monitor by a run of the monitor's own events. It keeps
/// a suppression and sets no recovery off.
#[verifier::spinoff_prover]
#[verifier::rlimit(30)]
pub proof fn reconcile_steps_are_monitor_events(
    monitor: MonitorModel,
    gate: RelayGateController,
    step: ReconcileStep,
) -> (events: Seq<MonitorEvent>)
    ensures
        reconcile_next(monitor, gate, step).0 == monitor.after_all(events),
        internal(events),
        monitor.stopping ==> reconcile_next(monitor, gate, step).0.stopping,
{
    let next = reconcile_next(monitor, gate, step).0;
    let healthy = MonitorEvent::StatusSet(true, true, true, None);
    let repair_failed = loss_event(true, CarrierFailure::MappingRepairFailed);
    let events = match step {
        ReconcileStep::LifecycleKnown { device_available, state } => if !device_available {
            let lost = loss_event(false, CarrierFailure::DeviceUnavailable);
            if state.active() {
                lemma_two_events(monitor, MonitorEvent::UsbDisconnected, lost, next)
            } else {
                lemma_one_event(monitor, lost, next)
            }
        } else if state.active() {
            lemma_no_event(monitor, next)
        } else {
            lemma_one_event(monitor, MonitorEvent::StatusSet(true, true, false, None), next)
        },
        ReconcileStep::Probed { state: _, took, outcome } => {
            let probed = MonitorEvent::Probed(took@ / 1000);
            match outcome {
                ProbeOutcome::Healthy => lemma_two_events(monitor, probed, healthy, next),
                ProbeOutcome::Missing(_) => lemma_one_event(monitor, probed, next),
                ProbeOutcome::Failed => lemma_two_events(
                    monitor,
                    probed,
                    loss_event(false, CarrierFailure::MappingProbeFailed),
                    next,
                ),
                ProbeOutcome::WorkerFailed => lemma_two_events(
                    monitor,
                    probed,
                    loss_event(false, CarrierFailure::MappingProbeWorkerFailed),
                    next,
                ),
            }
        },
        ReconcileStep::MappingAdded { plan: _, added } => if monitor.stopping || added {
            lemma_no_event(monitor, next)
        } else {
            lemma_one_event(monitor, repair_failed, next)
        },
        ReconcileStep::Verified { healthy: verified } => if verified {
            lemma_two_events(monitor, MonitorEvent::ReconnectCounted, healthy, next)
        } else {
            lemma_one_event(monitor, repair_failed, next)
        },
        _ => lemma_no_event(monitor, next),
    };
    if monitor.stopping {
        suppression_is_permanent(monitor, events);
    }
    events
}

/// Each step of the handling of a failed tracker changes the monitor by a run of the monitor's own
/// events. It keeps a suppression and sets no recovery off.
#[verifier::spinoff_prover]
#[verifier::rlimit(30)]
pub proof fn track_failure_steps_are_monitor_events(
    monitor: MonitorModel,
    step: TrackFailureStep,
) -> (events: Seq<MonitorEvent>)
    ensures
        track_failed_next(monitor, step).0 == monitor.after_all(events),
        internal(events),
        monitor.stopping ==> track_failed_next(monitor, step).0.stopping,
{
    let next = track_failed_next(monitor, step).0;
    let events = match step {
        TrackFailureStep::Begin(failure) => if failure == CarrierFailure::TrackDecodeFailed {
            lemma_no_event(monitor, next)
        } else {
            lemma_one_event(monitor, untracked_event(failure), next)
        },
        TrackFailureStep::DeviceProbed { mappings_kept, device_state } => {
            let failure = CarrierFailure::TrackDecodeFailed;
            if reads(device_state, "device"@) {
                lemma_one_event(
                    monitor,
                    MonitorEvent::StatusSet(false, true, mappings_kept, Some(failure.name())),
                    next,
                )
            } else {
                lemma_one_event(monitor, untracked_event(failure), next)
            }
        },
        TrackFailureStep::LifecycleKnown { failure, state } => if !state.active() {
            lemma_one_event(monitor, untracked_event(failure), next)
        } else if monitor.usb_disconnected().loss_is_news(false, failure) {
            lemma_two_events(
                monitor,
                MonitorEvent::UsbDisconnected,
                loss_event(false, failure),
                next,
            )
        } else {
            lemma_two_events(
                monitor,
                MonitorEvent::UsbDisconnected,
                untracked_event(failure),
                next,
            )
        },
        TrackFailureStep::LossReported(failure) => lemma_one_event(
            monitor,
            untracked_event(failure),
            next,
        ),
    };
    if monitor.stopping {
        suppression_is_permanent(monitor, events);
    }
    events
}

/// Once repairs are suppressed, no step of a reconciliation gives a command to the device.
pub proof fn suppressed_monitor_gives_no_command(
    monitor: MonitorModel,
    gate: RelayGateController,
    step: ReconcileStep,
)
    requires
        monitor.stopping,
    ensures
        !reconcile_next(monitor, gate, step).2.is_command(),
{
}

/// A step of a reconciliation gives at most the next command of a repair, so a stop between two
/// steps leaves the mappings that follow untouched.
pub proof fn stop_preempts_repair(
    monitor: MonitorModel,
    gate: RelayGateController,
    plan: RepairPlan,
    added: bool,
)
    ensures
        reconcile_next(
            monitor.suppressed(),
            gate,
            ReconcileStep::MappingAdded { plan, added },
        ) == (monitor.suppressed(), gate, ReconcileAction::Done),
{
}

/// The mappings that a repair still adds when none of its commands fails and nobody stops it.
pub open spec fn additions(plan: RepairPlan) -> Seq<ReverseMapping>
    decreases plan.missing@.len() - plan.taken,
{
    if plan.taken < plan.missing@.len() {
        match repair_action(false, plan) {
            ReconcileAction::AddMapping { mapping, plan: next } => if next.taken > plan.taken
                && next.missing == plan.missing {
                seq![mapping] + additions(next)
            } else {
                Seq::empty()
            },
            _ => Seq::empty(),
        }
    } else {
        Seq::empty()
    }
}

/// A repair adds every mapping that was missing, in order and once each, before it probes again.
pub proof fn repair_adds_every_missing_mapping(plan: RepairPlan)
    requires
        plan.taken <= plan.missing.len(),
    ensures
        additions(plan) == plan.missing@.skip(plan.taken as int),
        repair_action(false, plan) == ReconcileAction::VerifyMappings <==> plan.taken
            == plan.missing@.len(),
    decreases plan.missing@.len() - plan.taken,
{
    if plan.taken < plan.missing.len() {
        let next = RepairPlan { missing: plan.missing, taken: (plan.taken + 1) as usize };
        assert(next.taken == plan.taken + 1);
        repair_adds_every_missing_mapping(next);
        assert(plan.missing@.skip(plan.taken as int) =~= seq![plan.missing@[plan.taken as int]]
            + plan.missing@.skip(next.taken as int));
    }
}

/// The loss of the device closes the relay gate and marks the carrier unhealthy, so a connection
/// alone does not open it again.
pub proof fn device_loss_closes_the_gate(
    monitor: MonitorModel,
    gate: RelayGateController,
    state: HostState,
)
    requires
        gate.consistent(),
    ensures
        ({
            let (after, closed, _) = reconcile_next(
                monitor,
                gate,
                ReconcileStep::LifecycleKnown { device_available: false, state },
            );
            &&& !closed.gate.enabled
            &&& !closed.after(GateEvent::ControlConnected).gate.enabled
            &&& closed.after(GateEvent::ControlConnected).after(
                GateEvent::CarrierHealthy,
            ).gate.enabled
            &&& after.status.last_error == Some(CarrierFailure::DeviceUnavailable.name())
            &&& !after.status.device_available && !after.status.mappings_healthy
        }),
{
}

/// A reconciliation keeps the relay gate in line with what decides over it.
pub proof fn reconcile_keeps_the_gate_consistent(
    monitor: MonitorModel,
    gate: RelayGateController,
    step: ReconcileStep,
)
    requires
        gate.consistent(),
    ensures
        reconcile_next(monitor, gate, step).1.consistent(),
{
}

/// A tracker whose output cannot be decoded leaves a carrier that the device confirms as it was,
/// and no reconnect becomes pending.
pub proof fn confirmed_carrier_survives_undecodable_output(
    monitor: MonitorModel,
    device_state: Option<String>,
)
    requires
        reads(device_state, "device"@),
        monitor.status.device_available,
        monitor.status.mappings_healthy,
    ensures
        ({
            let (probing, action) = track_failed_next(
                monitor,
                TrackFailureStep::Begin(CarrierFailure::TrackDecodeFailed),
            );
            let (kept, done) = track_failed_next(
                probing,
                TrackFailureStep::DeviceProbed {
                    mappings_kept: action->mappings_kept,
                    device_state,
                },
            );
            &&& action is ProbeDevice
            &&& done == TrackFailureAction::Done { device_confirmed: true }
            &&& !kept.status.active
            &&& kept.status.device_available && kept.status.mappings_healthy
            &&& kept.usb_reconnect_pending == monitor.usb_reconnect_pending
        }),
{
}

/// However the handling of a failed tracker ends, the monitor is not presented as active; unless
/// the device was confirmed, neither are the device and the mappings.
pub proof fn failed_tracker_fails_closed(monitor: MonitorModel, step: TrackFailureStep)
    requires
        track_failed_next(monitor, step).1 is Done,
    ensures
        !track_failed_next(monitor, step).0.status.active,
        track_failed_next(monitor, step).1 == (TrackFailureAction::Done { device_confirmed: false })
            ==> !track_failed_next(monitor, step).0.status.device_available
            && !track_failed_next(monitor, step).0.status.mappings_healthy,
{
}

/// Mappings that a probe found missing are all added, whatever the state of the lifecycle: each one
/// once and in order, with a probe at the end. The plan is carried along as it is.
pub proof fn every_missing_mapping_is_added(
    monitor: MonitorModel,
    gate: RelayGateController,
    state: HostState,
    took: Duration,
    missing: Vec<ReverseMapping>,
    taken: usize,
)
    requires
        !monitor.stopping,
        taken <= missing@.len(),
    ensures
        ({
            let (probed, kept, first) = reconcile_next(
                monitor,
                gate,
                ReconcileStep::Probed { state, took, outcome: ProbeOutcome::Missing(missing) },
            );
            let (unchanged, _, next) = reconcile_next(
                monitor,
                gate,
                ReconcileStep::MappingAdded { plan: RepairPlan { missing, taken }, added: true },
            );
            &&& kept == gate && unchanged == monitor
            &&& probed.status == monitor.status
            &&& probed.transport_recovery == monitor.transport_recovery
            &&& missing@.len() == 0 ==> first is VerifyMappings
            &&& missing@.len() > 0 ==> (first matches ReconcileAction::AddMapping { mapping, plan }
                && mapping == missing@[0] && plan.missing == missing && plan.taken == 1)
            &&& taken == missing@.len() ==> next is VerifyMappings
            &&& taken < missing@.len() ==> (next matches ReconcileAction::AddMapping { mapping, plan }
                && mapping == missing@[taken as int] && plan.missing == missing && plan.taken == taken
                + 1)
        }),
{
    assert(missing.len() == missing@.len());
}

/// Repairing needs a device and a lifecycle with a peer: then, and only then, the mappings are
/// probed. The probe is made whatever was known of the carrier.
pub proof fn mappings_are_probed_for_an_active_lifecycle(
    monitor: MonitorModel,
    gate: RelayGateController,
    device_available: bool,
    state: HostState,
)
    requires
        !monitor.stopping,
    ensures
        reconcile_next(monitor, gate, ReconcileStep::Begin { device_available }) == (
            monitor,
            gate,
            ReconcileAction::QueryLifecycle { device_available },
        ),
        reconcile_next(monitor, gate, ReconcileStep::LifecycleKnown { device_available, state }).2
            == (ReconcileAction::AcquireOperation { state }) <==> (device_available && (state
            == HostState::Connected || state == HostState::Degraded)),
        device_available && (state == HostState::Connected || state == HostState::Degraded)
            ==> reconcile_next(
            monitor,
            gate,
            ReconcileStep::LifecycleKnown { device_available, state },
        ).0 == monitor,
        reconcile_next(monitor, gate, ReconcileStep::OperationAcquired { state }) == (
            monitor,
            gate,
            ReconcileAction::ProbeMappings { state },
        ),
{
}

/// Without a peer there is nothing to repair: the device is noted as there, the mappings are not
/// taken for healthy, and that is no error.
pub proof fn idle_lifecycle_needs_no_mappings(
    monitor: MonitorModel,
    gate: RelayGateController,
    state: HostState,
)
    requires
        state != HostState::Connected && state != HostState::Degraded,
    ensures
        ({
            let (next, kept, action) = reconcile_next(
                monitor,
                gate,
                ReconcileStep::LifecycleKnown { device_available: true, state },
            );
            &&& action is Done && kept == gate
            &&& next.status.active && next.status.device_available && !next.status.mappings_healthy
            &&& next.status.last_error is None
            &&& next.usb_reconnect_pending == monitor.usb_reconnect_pending
            &&& next.transport_recovery == monitor.transport_recovery
        }),
{
}

/// A device that is gone closes the relay gate and is noted. To a lifecycle with a peer it is the
/// start of a reconnect, unless the mappings are to be rebuilt after a resume anyway, and a loss
/// that has to be reported; to any other it is not.
pub proof fn lost_device_is_noted(
    monitor: MonitorModel,
    gate: RelayGateController,
    state: HostState,
)
    ensures
        ({
            let (next, closed, action) = reconcile_next(
                monitor,
                gate,
                ReconcileStep::LifecycleKnown { device_available: false, state },
            );
            let recovery = monitor.transport_recovery;
            let has_peer = state == HostState::Connected || state == HostState::Degraded;
            let resuming = recovery.trigger == Some(TransportRecoveryTrigger::HostResume)
                && crate::supervisor::mappings_to_rebuild(recovery.state);
            &&& !closed.gate.enabled
            &&& !closed.eligibility.carrier_healthy && !closed.eligibility.control_authenticated
            &&& next.status.active
            &&& !next.status.device_available && !next.status.mappings_healthy
            &&& next.status.last_error == Some("device_unavailable"@)
            &&& next.usb_reconnect_pending == (monitor.usb_reconnect_pending || has_peer
                && !resuming)
            &&& next.transport_recovery == recovery
            &&& !has_peer ==> action is Done
            &&& has_peer && (monitor.status.device_available || monitor.status.mappings_healthy
                || !monitor.status.active) ==> action == ReconcileAction::ReportLoss(
                LossReport {
                    device_available: false,
                    failure: CarrierFailure::DeviceUnavailable,
                },
            )
            &&& action is Done || action is ReportLoss
        }),
{
}

/// Mappings that are in place make the carrier healthy, and let flows pass that have an
/// authenticated connection. A degraded lifecycle is then asked about the device's sleep.
pub proof fn mappings_in_place_are_healthy(
    monitor: MonitorModel,
    gate: RelayGateController,
    state: HostState,
    took: Duration,
)
    ensures
        ({
            let (next, open, action) = reconcile_next(
                monitor,
                gate,
                ReconcileStep::Probed { state, took, outcome: ProbeOutcome::Healthy },
            );
            &&& next.status.active && next.status.device_available && next.status.mappings_healthy
            &&& next.status.last_error is None
            &&& open.eligibility.carrier_healthy
            &&& open.gate.enabled == gate.eligibility.control_authenticated
            &&& open.eligibility.control_authenticated == gate.eligibility.control_authenticated
            &&& action is ProbeSleep <==> state == HostState::Degraded
            &&& action is Done <==> state != HostState::Degraded
            &&& next.reconnect_generation == monitor.reconnect_generation
            &&& next.transport_recovery == monitor.transport_recovery
        }),
{
}

/// Every probe is counted and timed, whatever it finds, and the report tells of it at the next
/// status.
pub proof fn probe_is_counted(
    monitor: MonitorModel,
    gate: RelayGateController,
    state: HostState,
    took: Duration,
    outcome: ProbeOutcome,
)
    requires
        monitor.mapping_probe_count < u64::MAX,
        0 <= took@ / 1000 <= u64::MAX,
    ensures
        ({
            let next = reconcile_next(
                monitor,
                gate,
                ReconcileStep::Probed { state, took, outcome },
            ).0;
            &&& next.mapping_probe_count == monitor.mapping_probe_count + 1
            &&& next.mapping_probe_last_us == took@ / 1000
            &&& next.mapping_probe_max_us >= next.mapping_probe_last_us
            &&& next.mapping_probe_max_us >= monitor.mapping_probe_max_us
            &&& next.mapping_probe_max_us == next.mapping_probe_last_us || next.mapping_probe_max_us
                == monitor.mapping_probe_max_us
            &&& outcome !is Missing ==> next.status.mapping_probe_count == next.mapping_probe_count
        }),
{
}

/// A probe that failed leaves the relay gate alone but makes the carrier count as lost, the device
/// included.
pub proof fn failed_probe_loses_the_carrier(
    monitor: MonitorModel,
    gate: RelayGateController,
    state: HostState,
    took: Duration,
    outcome: ProbeOutcome,
)
    requires
        outcome is Failed || outcome is WorkerFailed,
    ensures
        ({
            let (next, kept, action) = reconcile_next(
                monitor,
                gate,
                ReconcileStep::Probed { state, took, outcome },
            );
            let failure = if outcome is Failed {
                CarrierFailure::MappingProbeFailed
            } else {
                CarrierFailure::MappingProbeWorkerFailed
            };
            &&& kept == gate
            &&& next.status.active
            &&& !next.status.device_available && !next.status.mappings_healthy
            &&& next.status.last_error == Some(
                if outcome is Failed {
                    "mapping_probe_failed"@
                } else {
                    "mapping_probe_worker_failed"@
                },
            )
            &&& monitor.status.mappings_healthy ==> action == ReconcileAction::ReportLoss(
                LossReport { device_available: false, failure },
            )
            &&& action is Done || action == ReconcileAction::ReportLoss(
                LossReport { device_available: false, failure },
            )
            &&& next.usb_reconnect_pending == monitor.usb_reconnect_pending
        }),
{
}

/// A repair that failed, at a mapping or at the last probe, closes the relay gate and loses the
/// carrier although the device is there.
pub proof fn failed_repair_loses_the_carrier(
    monitor: MonitorModel,
    gate: RelayGateController,
    plan: RepairPlan,
    step: ReconcileStep,
)
    requires
        !monitor.stopping,
        step == (ReconcileStep::MappingAdded { plan, added: false }) || step
            == (ReconcileStep::Verified { healthy: false }),
    ensures
        ({
            let (next, closed, action) = reconcile_next(monitor, gate, step);
            let report = ReconcileAction::ReportLoss(
                LossReport {
                    device_available: true,
                    failure: CarrierFailure::MappingRepairFailed,
                },
            );
            &&& !closed.gate.enabled
            &&& !closed.eligibility.carrier_healthy && !closed.eligibility.control_authenticated
            &&& next.status.active && next.status.device_available && !next.status.mappings_healthy
            &&& next.status.last_error == Some("mapping_repair_failed"@)
            &&& monitor.status.mappings_healthy || !monitor.status.device_available ==> action
                == report
            &&& action is Done || action == report
        }),
{
}

/// A repair that worked is counted and makes the carrier healthy.
pub proof fn repaired_carrier_is_healthy(monitor: MonitorModel, gate: RelayGateController)
    requires
        monitor.reconnect_generation < u64::MAX,
    ensures
        ({
            let (next, open, action) = reconcile_next(
                monitor,
                gate,
                ReconcileStep::Verified { healthy: true },
            );
            &&& action matches ReconcileAction::Repaired { generation } && generation
                == monitor.reconnect_generation + 1 && next.reconnect_generation == generation
                && next.status.reconnect_generation == generation
            &&& next.status.active && next.status.device_available && next.status.mappings_healthy
            &&& next.status.last_error is None
            &&& open.eligibility.carrier_healthy
            &&& open.gate.enabled == gate.eligibility.control_authenticated
            &&& next.transport_recovery == monitor.transport_recovery
        }),
{
}

/// A loss is news to whoever knew of another status, and is not told twice.
pub proof fn loss_is_told_once(
    monitor: MonitorModel,
    device_available: bool,
    failure: CarrierFailure,
)
    ensures
        !monitor.lost(device_available, failure).loss_is_news(device_available, failure),
        monitor.status.mappings_healthy ==> monitor.loss_is_news(device_available, failure),
        monitor.status.device_available != device_available ==> monitor.loss_is_news(
            device_available,
            failure,
        ),
        monitor.status.last_error != Some(failure.name()) ==> monitor.loss_is_news(
            device_available,
            failure,
        ),
{
    if monitor.lost(device_available, failure).status == monitor.status {
        assert(monitor.status.last_error == Some(failure.name()));
    }
}

/// The device is taken to sleep only when it says both: its screen is suspended, and its service is
/// degraded.
pub proof fn sleep_needs_both_signs(status: AndroidVpnStatus)
    ensures
        !confirms_sleep(None),
        status.screen_suspended != Some(true) ==> !confirms_sleep(Some(status)),
        status.state is None ==> !confirms_sleep(Some(status)),
        status.state matches Some(state) ==> (confirms_sleep(Some(status)) <==> (
        status.screen_suspended == Some(true) && state@ == "degraded"@)),
{
}

/// Output of the tracker that cannot be understood says nothing of the device, which is asked
/// itself; whether the carrier was healthy is remembered for that. Every other failure of the
/// tracker makes nothing known of the carrier.
pub proof fn undecodable_output_asks_the_device(monitor: MonitorModel, failure: CarrierFailure)
    ensures
        ({
            let (next, action) = track_failed_next(monitor, TrackFailureStep::Begin(failure));
            let undecodable = failure == CarrierFailure::TrackDecodeFailed;
            &&& undecodable ==> next == monitor && action == (TrackFailureAction::ProbeDevice {
                mappings_kept: monitor.status.device_available && monitor.status.mappings_healthy,
            })
            &&& !undecodable ==> action == TrackFailureAction::QueryLifecycle(failure)
                && !next.status.active && !next.status.device_available
                && !next.status.mappings_healthy && next.status.last_error == Some(failure.name())
        }),
{
}

/// A device that says that it is there keeps the carrier as it was, although the tracker is gone; a
/// device that says anything else, or nothing, does not.
pub proof fn device_speaks_for_itself(
    monitor: MonitorModel,
    mappings_kept: bool,
    device_state: Option<String>,
)
    ensures
        ({
            let (next, action) = track_failed_next(
                monitor,
                TrackFailureStep::DeviceProbed { mappings_kept, device_state },
            );
            let there = device_state matches Some(state) && state@ == "device"@;
            &&& action == if there {
                TrackFailureAction::Done { device_confirmed: true }
            } else {
                TrackFailureAction::QueryLifecycle(CarrierFailure::TrackDecodeFailed)
            }
            &&& !next.status.active
            &&& next.status.device_available == there
            &&& next.status.mappings_healthy == (there && mappings_kept)
            &&& next.status.last_error == Some("track_decode_failed"@)
        }),
{
}

/// To a lifecycle with a peer, the failure of the tracker is the start of a reconnect and a loss to
/// report. In the end the monitor never counts as active, until the tracker is back.
pub proof fn failed_tracker_is_a_loss_to_a_peer(
    monitor: MonitorModel,
    failure: CarrierFailure,
    state: HostState,
)
    ensures
        ({
            let (next, action) = track_failed_next(
                monitor,
                TrackFailureStep::LifecycleKnown { failure, state },
            );
            let (reported, done) = track_failed_next(next, TrackFailureStep::LossReported(failure));
            let has_peer = state == HostState::Connected || state == HostState::Degraded;
            let recovery = monitor.transport_recovery;
            let resuming = recovery.trigger == Some(TransportRecoveryTrigger::HostResume)
                && crate::supervisor::mappings_to_rebuild(recovery.state);
            &&& next.usb_reconnect_pending == (monitor.usb_reconnect_pending || has_peer
                && !resuming)
            &&& !has_peer ==> action == (TrackFailureAction::Done { device_confirmed: false })
            &&& has_peer && !monitor.status.active ==> action == TrackFailureAction::ReportLoss(
                LossReport { device_available: false, failure },
            )
            &&& action is Done || action is ReportLoss
            &&& action is Done ==> !next.status.active
            &&& !next.status.device_available && !next.status.mappings_healthy
            &&& next.status.last_error == Some(failure.name())
            &&& done == (TrackFailureAction::Done { device_confirmed: false })
            &&& !reported.status.active && !reported.status.device_available
            &&& !reported.status.mappings_healthy
            &&& reported.status.last_error == Some(failure.name())
        }),
{
}

/// The names under which failures are reported.
pub proof fn failures_have_their_names()
    ensures
        CarrierFailure::DeviceUnavailable.name() == "device_unavailable"@,
        CarrierFailure::MappingRepairFailed.name() == "mapping_repair_failed"@,
        CarrierFailure::MappingProbeFailed.name() == "mapping_probe_failed"@,
        CarrierFailure::MappingProbeWorkerFailed.name() == "mapping_probe_worker_failed"@,
        CarrierFailure::TrackSpawnFailed.name() == "track_spawn_failed"@,
        CarrierFailure::TrackStdoutUnavailable.name() == "track_stdout_unavailable"@,
        CarrierFailure::TrackExited.name() == "track_exited"@,
        CarrierFailure::TrackDecodeFailed.name() == "track_decode_failed"@,
        CarrierFailure::TrackReadFailed.name() == "track_read_failed"@,
{
}

/// The device is asked whether it sleeps within a grace period, and not once the monitor is
/// stopping. A device that sleeps ends the grace period that it was asked in, if that still runs; any
/// other answer, or one for an earlier period, changes nothing.
pub proof fn sleep_ends_the_grace_period(
    monitor: MonitorModel,
    gate: RelayGateController,
    epoch: u64,
    status: AndroidVpnStatus,
)
    requires
        gate.consistent(),
    ensures
        ({
            let sleeps = status.screen_suspended == Some(true) && (status.state matches Some(state)
                && state@ == "degraded"@);
            let current = gate.eligibility.control_authenticated && gate.eligibility.control_epoch
                == epoch;
            let (after, closed) = sleep_reconciled(gate, epoch, Some(status));
            &&& sleep_probe_epoch(monitor, gate) is Some <==> (!monitor.stopping
                && gate.eligibility.control_loss_pending)
            &&& sleep_probe_epoch(monitor, gate) matches Some(asked) ==> asked
                == gate.eligibility.control_epoch
            &&& closed <==> sleeps && current
            &&& closed ==> !after.gate.enabled && !after.eligibility.control_authenticated
                && after.eligibility.carrier_healthy == gate.eligibility.carrier_healthy
            &&& !closed ==> after == gate
            &&& sleep_reconciled(gate, epoch, None) == (gate, false)
        }),
{
}

/// Once the monitor is stopping, the mappings are neither probed nor added nor verified, and a
/// reconciliation that stands before one of these ends without a change.
pub proof fn stop_leaves_the_mappings_alone(
    monitor: MonitorModel,
    gate: RelayGateController,
    step: ReconcileStep,
    device_available: bool,
    state: HostState,
    plan: RepairPlan,
    added: bool,
)
    requires
        monitor.stopping,
    ensures
        ({
            let action = reconcile_next(monitor, gate, step).2;
            let ended = (monitor, gate, ReconcileAction::Done);
            &&& action !is ProbeMappings && action !is AddMapping && action !is VerifyMappings
            &&& reconcile_next(monitor, gate, ReconcileStep::Begin { device_available }) == ended
            &&& reconcile_next(monitor, gate, ReconcileStep::OperationAcquired { state }) == ended
            &&& reconcile_next(monitor, gate, ReconcileStep::MappingAdded { plan, added }) == ended
        }),
{
}

} // verus!
