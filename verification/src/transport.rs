//! Recovering the wired transport after a resume of the host or a reconnect of the device.
//!
//! A recovery rebuilds the mappings first and restarts Virtual Desktop once the control
//! connection is back. Each of the two procedures is a function from a step to the action that is
//! to be taken next. The caller performs the action and comes back with the step that it leads
//! to.
use crate::monitor::{
    internal, lemma_no_event, lemma_one_event, lemma_three_events, lemma_two_events,
    suppression_is_permanent, AdbHealthMonitor, MonitorEvent, MonitorModel, RearmTimer,
};
use crate::recovery::{
    should_reset_virtual_desktop_service, RecoveryAttempt, TransportRecoveryState,
    TransportRecoveryTrigger,
};
use crate::reconcile::repair_number;
use crate::relay::{GateEvent, RelayGateController};
use crate::time::{Duration, Instant};
use vstd::prelude::*;

verus! {

/// How often Virtual Desktop is launched within one attempt.
pub const VIRTUAL_DESKTOP_RELAUNCHES: u32 = 3;

/// How long to wait before an attempt is repeated.
pub fn transport_recovery_retry_delay() -> (span: Duration)
    ensures
        span@ == 1_000_000_000,
{
    Duration::from_secs(1)
}

/// How long a rebuilt transport waits for an authenticated control connection.
pub fn transport_recovery_control_timeout() -> (span: Duration)
    ensures
        span@ == 3_000_000_000,
{
    Duration::from_secs(3)
}

/// How long Virtual Desktop has to stay connected to count as connected.
pub fn virtual_desktop_connection_stable() -> (span: Duration)
    ensures
        span@ == 10_000_000_000,
{
    Duration::from_secs(10)
}

/// How long to wait for Virtual Desktop to connect.
pub fn virtual_desktop_connection_timeout() -> (span: Duration)
    ensures
        span@ == 45_000_000_000,
{
    Duration::from_secs(45)
}

/// Why a recovery failed.
#[derive(Clone, Copy, Debug, PartialEq, Eq, Structural)]
pub enum RecoveryFailure {
    AndroidRestart,
    MappingRebuild,
    RecoveryTask,
    RecoverySuperseded,
    VirtualDesktopStop,
    VirtualDesktopStopTask,
    VirtualDesktopServiceRecovery,
    VirtualDesktopServiceRecoveryTask,
    VirtualDesktopRestart,
    VirtualDesktopRestartTask,
    VirtualDesktopConnectionTimeout,
}

impl RecoveryFailure {
    /// The name under which the failure is reported.
    pub open spec fn name(self) -> Seq<char> {
        match self {
            RecoveryFailure::AndroidRestart => "android_restart"@,
            RecoveryFailure::MappingRebuild => "mapping_rebuild"@,
            RecoveryFailure::RecoveryTask => "recovery_task"@,
            RecoveryFailure::RecoverySuperseded => "recovery_superseded"@,
            RecoveryFailure::VirtualDesktopStop => "virtual_desktop_stop"@,
            RecoveryFailure::VirtualDesktopStopTask => "virtual_desktop_stop_task"@,
            RecoveryFailure::VirtualDesktopServiceRecovery => "virtual_desktop_service_recovery"@,
            RecoveryFailure::VirtualDesktopServiceRecoveryTask =>
                "virtual_desktop_service_recovery_task"@,
            RecoveryFailure::VirtualDesktopRestart => "virtual_desktop_restart"@,
            RecoveryFailure::VirtualDesktopRestartTask => "virtual_desktop_restart_task"@,
            RecoveryFailure::VirtualDesktopConnectionTimeout =>
                "virtual_desktop_connection_timeout"@,
        }
    }

    pub fn as_str(self) -> (name: &'static str)
        ensures
            name@ == self.name(),
    {
        match self {
            RecoveryFailure::AndroidRestart => "android_restart",
            RecoveryFailure::MappingRebuild => "mapping_rebuild",
            RecoveryFailure::RecoveryTask => "recovery_task",
            RecoveryFailure::RecoverySuperseded => "recovery_superseded",
            RecoveryFailure::VirtualDesktopStop => "virtual_desktop_stop",
            RecoveryFailure::VirtualDesktopStopTask => "virtual_desktop_stop_task",
            RecoveryFailure::VirtualDesktopServiceRecovery => "virtual_desktop_service_recovery",
            RecoveryFailure::VirtualDesktopServiceRecoveryTask =>
                "virtual_desktop_service_recovery_task",
            RecoveryFailure::VirtualDesktopRestart => "virtual_desktop_restart",
            RecoveryFailure::VirtualDesktopRestartTask => "virtual_desktop_restart_task",
            RecoveryFailure::VirtualDesktopConnectionTimeout =>
                "virtual_desktop_connection_timeout",
        }
    }
}

/// How a piece of work ended.
#[derive(Clone, Copy, Debug, PartialEq, Eq, Structural)]
pub enum WorkOutcome {
    Succeeded,
    /// The work failed.
    Failed,
    /// The work did not come to its end.
    TaskFailed,
}

/// Whether an attempt restarts the service on the device. The first attempt only reinstalls the
/// mappings; a second one after a reconnect restarts the service too.
pub open spec fn restarts_android(attempt: RecoveryAttempt) -> bool {
    attempt.trigger == TransportRecoveryTrigger::UsbReconnect && attempt.attempt > 1
}

/// The name of what an attempt does.
pub fn recovery_strategy(attempt: RecoveryAttempt) -> (strategy: &'static str)
    ensures
        restarts_android(attempt) <==> attempt.trigger == TransportRecoveryTrigger::UsbReconnect
            && attempt.attempt > 1,
        strategy@ == if restarts_android(attempt) {
            "android_restart"@
        } else {
            "mapping_reinstall"@
        },
{
    if attempt.trigger == TransportRecoveryTrigger::UsbReconnect && attempt.attempt > 1 {
        "android_restart"
    } else {
        "mapping_reinstall"
    }
}

/// The timer that sets a recovery off again that was given up.
pub fn rearm_timer(attempt: RecoveryAttempt) -> (timer: RearmTimer)
    ensures
        timer.generation == attempt.generation,
        timer.trigger == attempt.trigger,
        timer.delay@ == 30_000_000_000,
{
    RearmTimer {
        generation: attempt.generation,
        trigger: attempt.trigger,
        delay: Duration::from_secs(30),
    }
}

/// Where the rebuilding of the transport stands.
pub enum RecoverStep {
    Begin { device_available: bool },
    OperationAcquired(RecoveryAttempt),
    Rebuilt { attempt: RecoveryAttempt, outcome: WorkOutcome },
    TransportReset(RecoveryAttempt),
    /// The wait for the control connection is over.
    ControlTimeout(RecoveryAttempt),
}

/// What the rebuilding of the transport has to do next.
pub enum RecoverAction {
    /// Nothing: there is nothing to recover.
    NotNeeded,
    /// Nothing.
    Done,
    /// Wait for other work on the carrier to end.
    AcquireOperation(RecoveryAttempt),
    /// Start the service on the device again, mappings included.
    RestartAndroid(RecoveryAttempt),
    /// Install the mappings again.
    ReinstallMappings(RecoveryAttempt),
    /// Drop the control connection, for a transport that was rebuilt.
    ResetTransport(RecoveryAttempt),
    /// Come back with [`RecoverStep::ControlTimeout`] after the control timeout.
    AwaitControl { attempt: RecoveryAttempt, reconnect_generation: u64 },
    /// Wake the monitor after the retry delay.
    Retry { attempt: RecoveryAttempt, failure: RecoveryFailure },
    /// The recovery failed for good. A timer is to set it off again if `rearm` says so.
    GiveUp { attempt: RecoveryAttempt, failure: RecoveryFailure, rearm: bool },
    /// The control connection did not come back. A timer is to set the recovery off again if
    /// `rearm` says so; otherwise an attempt follows if `will_retry` says so.
    ControlTimedOut { attempt: RecoveryAttempt, will_retry: bool, rearm: bool },
}

impl RecoverAction {
    /// The action is a command to the device.
    pub open spec fn is_command(self) -> bool {
        self is RestartAndroid || self is ReinstallMappings
    }
}

/// Why an attempt failed whose work ended in `outcome`.
pub open spec fn rebuild_failure(
    attempt: RecoveryAttempt,
    outcome: WorkOutcome,
) -> RecoveryFailure {
    if outcome == WorkOutcome::TaskFailed {
        RecoveryFailure::RecoveryTask
    } else if restarts_android(attempt) {
        RecoveryFailure::AndroidRestart
    } else {
        RecoveryFailure::MappingRebuild
    }
}

/// The monitor, the relay gate and the action that a step of the rebuilding leads to.
pub open spec fn recover_next(
    monitor: MonitorModel,
    gate: RelayGateController,
    step: RecoverStep,
) -> (MonitorModel, RelayGateController, RecoverAction) {
    match step {
        RecoverStep::Begin { device_available } => {
            let closed = gate.after(GateEvent::CarrierLost);
            let begun = monitor.attempt_begun();
            if !monitor.transport_recovery.state.requires_recovery() {
                (monitor, gate, RecoverAction::NotNeeded)
            } else if monitor.stopping {
                (monitor, closed, RecoverAction::Done)
            } else if !device_available {
                (
                    monitor.awaiting_device().with_status(
                        true,
                        false,
                        false,
                        Some("transport_recovery_waiting_for_device"@),
                    ),
                    closed,
                    RecoverAction::Done,
                )
            } else if !monitor.transport_recovery.can_begin() {
                (begun, closed, RecoverAction::Done)
            } else {
                match begun.transport_recovery.current_attempt() {
                    Some(attempt) => (
                        begun.with_status(
                            true,
                            true,
                            false,
                            Some("transport_recovery_rebuilding"@),
                        ),
                        closed,
                        RecoverAction::AcquireOperation(attempt),
                    ),
                    None => (begun, closed, RecoverAction::Done),
                }
            }
        },
        RecoverStep::OperationAcquired(attempt) => (
            monitor,
            gate,
            if monitor.stopping {
                RecoverAction::Done
            } else if restarts_android(attempt) {
                RecoverAction::RestartAndroid(attempt)
            } else {
                RecoverAction::ReinstallMappings(attempt)
            },
        ),
        RecoverStep::Rebuilt { attempt, outcome } => if monitor.transport_recovery.generation
            != attempt.generation {
            (monitor, gate, RecoverAction::Done)
        } else if outcome == WorkOutcome::Succeeded {
            (
                monitor,
                gate.after(GateEvent::ControlInactive),
                RecoverAction::ResetTransport(attempt),
            )
        } else {
            let failure = rebuild_failure(attempt, outcome);
            let finished = monitor.attempt_finished(attempt.generation, false);
            if monitor.transport_recovery.can_retry() {
                (
                    finished.with_status(true, true, false, Some("transport_recovery_retry"@)),
                    gate,
                    RecoverAction::Retry { attempt, failure },
                )
            } else {
                let failed = finished.with_status(
                    true,
                    true,
                    false,
                    Some("transport_recovery_failed"@),
                );
                (
                    failed.rearm_scheduled(attempt.generation),
                    gate,
                    RecoverAction::GiveUp {
                        attempt,
                        failure,
                        rearm: failed.can_schedule_rearm(attempt.generation),
                    },
                )
            }
        },
        RecoverStep::TransportReset(attempt) => (
            monitor.reconnect_counted().attempt_finished(attempt.generation, true).healthy(),
            gate.after(GateEvent::CarrierHealthy),
            RecoverAction::AwaitControl {
                attempt,
                reconnect_generation: repair_number(monitor.reconnect_generation),
            },
        ),
        RecoverStep::ControlTimeout(attempt) => {
            let expired = monitor.control_expired(attempt.generation, attempt.attempt);
            if !monitor.transport_recovery.awaits_control(attempt.generation, attempt.attempt) {
                (monitor, gate, RecoverAction::Done)
            } else if monitor.transport_recovery.can_retry() {
                (
                    expired,
                    gate,
                    RecoverAction::ControlTimedOut { attempt, will_retry: true, rearm: false },
                )
            } else {
                (
                    expired.rearm_scheduled(attempt.generation),
                    gate,
                    RecoverAction::ControlTimedOut {
                        attempt,
                        will_retry: false,
                        rearm: expired.can_schedule_rearm(attempt.generation),
                    },
                )
            }
        },
    }
}

impl AdbHealthMonitor {
    fn schedule_rearm(&mut self, attempt: RecoveryAttempt) -> (rearm: bool)
        ensures
            final(self)@ == old(self)@.rearm_scheduled(attempt.generation),
            rearm == old(self)@.can_schedule_rearm(attempt.generation),
    {
        self.schedule_transport_recovery_rearm(attempt.generation, attempt.trigger).is_some()
    }

    /// Takes one step of rebuilding the transport.
    pub fn recover_transport(
        &mut self,
        relay_gate: &mut RelayGateController,
        step: RecoverStep,
    ) -> (action: RecoverAction)
        ensures
            (final(self)@, *final(relay_gate), action) == recover_next(
                old(self)@,
                *old(relay_gate),
                step,
            ),
    {
        match step {
            RecoverStep::Begin { device_available } => {
                if !self.transport_requires_recovery() {
                    return RecoverAction::NotNeeded;
                }
                relay_gate.carrier_lost();
                if self.stopping {
                    return RecoverAction::Done;
                }
                if !device_available {
                    self.wait_for_recovery_device();
                    let _ = self.update_status(
                        true,
                        false,
                        false,
                        Some("transport_recovery_waiting_for_device"),
                    );
                    return RecoverAction::Done;
                }
                match self.begin_transport_recovery_attempt() {
                    Some(attempt) => {
                        let _ = self.update_status(
                            true,
                            true,
                            false,
                            Some("transport_recovery_rebuilding"),
                        );
                        RecoverAction::AcquireOperation(attempt)
                    },
                    None => RecoverAction::Done,
                }
            },
            RecoverStep::OperationAcquired(attempt) => {
                if self.stopping {
                    RecoverAction::Done
                } else if attempt.trigger == TransportRecoveryTrigger::UsbReconnect
                    && attempt.attempt > 1 {
                    RecoverAction::RestartAndroid(attempt)
                } else {
                    RecoverAction::ReinstallMappings(attempt)
                }
            },
            RecoverStep::Rebuilt { attempt, outcome } => {
                if self.transport_recovery.generation != attempt.generation {
                    return RecoverAction::Done;
                }
                let failure = match outcome {
                    WorkOutcome::Succeeded => {
                        // A control connection can race the rebuilding of the mappings. It is
                        // dropped once the new listeners are in place, so that only a connection
                        // made over them opens the relay again.
                        relay_gate.control_inactive();
                        return RecoverAction::ResetTransport(attempt);
                    },
                    WorkOutcome::Failed => {
                        if attempt.trigger == TransportRecoveryTrigger::UsbReconnect
                            && attempt.attempt > 1 {
                            RecoveryFailure::AndroidRestart
                        } else {
                            RecoveryFailure::MappingRebuild
                        }
                    },
                    WorkOutcome::TaskFailed => RecoveryFailure::RecoveryTask,
                };
                if self.finish_transport_recovery_attempt(attempt.generation, false) {
                    let _ = self.update_status(true, true, false, Some("transport_recovery_retry"));
                    RecoverAction::Retry { attempt, failure }
                } else {
                    let _ = self.update_status(
                        true,
                        true,
                        false,
                        Some("transport_recovery_failed"),
                    );
                    let rearm = self.schedule_rearm(attempt);
                    RecoverAction::GiveUp { attempt, failure, rearm }
                }
            },
            RecoverStep::TransportReset(attempt) => {
                let reconnect_generation = self.count_reconnect();
                let _ = self.finish_transport_recovery_attempt(attempt.generation, true);
                let _ = self.update_status(true, true, true, None);
                relay_gate.carrier_healthy();
                RecoverAction::AwaitControl { attempt, reconnect_generation }
            },
            RecoverStep::ControlTimeout(attempt) => {
                match self.expire_transport_recovery_control(attempt.generation, attempt.attempt) {
                    None => RecoverAction::Done,
                    Some(true) => RecoverAction::ControlTimedOut {
                        attempt,
                        will_retry: true,
                        rearm: false,
                    },
                    Some(false) => {
                        let rearm = self.schedule_rearm(attempt);
                        RecoverAction::ControlTimedOut { attempt, will_retry: false, rearm }
                    },
                }
            },
        }
    }
}

/// The launches of Virtual Desktop within an attempt: the number of the current one, and why the
/// last one failed.
#[derive(Clone, Copy, Debug, PartialEq, Eq, Structural)]
pub struct Relaunch {
    pub attempt: RecoveryAttempt,
    pub number: u32,
    pub failure: RecoveryFailure,
}

/// Where the completion of a recovery stands.
pub enum CompletionStep {
    Begin,
    OperationAcquired(RecoveryAttempt),
    Stopped { relaunch: Relaunch, outcome: WorkOutcome },
    ServiceRestarted { relaunch: Relaunch, outcome: WorkOutcome },
    Restarted { relaunch: Relaunch, outcome: WorkOutcome },
    ConnectionAwaited { relaunch: Relaunch, result: Result<(), RecoveryFailure> },
}

/// What the completion of a recovery has to do next.
pub enum CompletionAction {
    /// Nothing: no recovery waits for its completion.
    NotCompleting,
    /// Nothing.
    Done,
    /// Wait for other work on the carrier to end.
    AcquireOperation(RecoveryAttempt),
    /// Stop Virtual Desktop on the device.
    StopVirtualDesktop(Relaunch),
    /// Restart the Virtual Desktop service on the host.
    RestartService(Relaunch),
    /// Start Virtual Desktop on the device.
    RestartVirtualDesktop(Relaunch),
    /// Wait for Virtual Desktop to connect.
    AwaitConnection(Relaunch),
    /// Nothing: the recovery is complete.
    Completed(Relaunch),
    /// Wake the monitor after the retry delay.
    Retry(Relaunch),
    /// The recovery failed for good. A timer is to set it off again if `rearm` says so.
    GiveUp { relaunch: Relaunch, rearm: bool },
}

impl CompletionAction {
    /// The action is a command to the device or to the host's service.
    pub open spec fn is_command(self) -> bool {
        self is StopVirtualDesktop || self is RestartService || self is RestartVirtualDesktop
    }

    /// The launch that the action belongs to.
    pub open spec fn relaunch(self) -> Option<Relaunch> {
        match self {
            CompletionAction::StopVirtualDesktop(relaunch) => Some(relaunch),
            CompletionAction::RestartService(relaunch) => Some(relaunch),
            CompletionAction::RestartVirtualDesktop(relaunch) => Some(relaunch),
            CompletionAction::AwaitConnection(relaunch) => Some(relaunch),
            _ => None,
        }
    }
}

/// What follows a launch that failed: the next one, or the end of the attempt.
pub open spec fn relaunch_failed_next(
    monitor: MonitorModel,
    relaunch: Relaunch,
    failure: RecoveryFailure,
) -> (MonitorModel, CompletionAction) {
    let last = Relaunch { failure, ..relaunch };
    if relaunch.number < VIRTUAL_DESKTOP_RELAUNCHES {
        (
            monitor,
            CompletionAction::StopVirtualDesktop(
                Relaunch { number: (relaunch.number + 1) as u32, ..last },
            ),
        )
    } else {
        let attempt = relaunch.attempt;
        let finished = monitor.restart_finished(attempt.generation, attempt.attempt, false);
        if monitor.transport_recovery.restarts(attempt.generation, attempt.attempt)
            && monitor.transport_recovery.can_retry() {
            (finished, CompletionAction::Retry(last))
        } else {
            (
                finished.rearm_scheduled(attempt.generation),
                CompletionAction::GiveUp {
                    relaunch: last,
                    rearm: finished.can_schedule_rearm(attempt.generation),
                },
            )
        }
    }
}

/// The monitor and the action that a step of the completion leads to while nobody stops it.
pub open spec fn undisturbed_completion_next(monitor: MonitorModel, step: CompletionStep) -> (
    MonitorModel,
    CompletionAction,
) {
    let generation = monitor.transport_recovery.generation;
    match step {
        CompletionStep::Begin => {
            let begun = monitor.restart_begun();
            if monitor.transport_recovery.state != TransportRecoveryState::AwaitingControl {
                (begun, CompletionAction::NotCompleting)
            } else {
                match begun.transport_recovery.current_attempt() {
                    Some(attempt) => (begun, CompletionAction::AcquireOperation(attempt)),
                    None => (begun, CompletionAction::NotCompleting),
                }
            }
        },
        CompletionStep::OperationAcquired(attempt) => (
            monitor,
            CompletionAction::StopVirtualDesktop(
                Relaunch {
                    attempt,
                    number: 1,
                    failure: RecoveryFailure::VirtualDesktopConnectionTimeout,
                },
            ),
        ),
        CompletionStep::Stopped { relaunch, outcome } => if generation
            != relaunch.attempt.generation {
            (monitor, CompletionAction::Done)
        } else {
            match outcome {
                WorkOutcome::Succeeded => (monitor, CompletionAction::RestartService(relaunch)),
                WorkOutcome::Failed => relaunch_failed_next(
                    monitor,
                    relaunch,
                    RecoveryFailure::VirtualDesktopStop,
                ),
                WorkOutcome::TaskFailed => relaunch_failed_next(
                    monitor,
                    relaunch,
                    RecoveryFailure::VirtualDesktopStopTask,
                ),
            }
        },
        CompletionStep::ServiceRestarted { relaunch, outcome } => if generation
            != relaunch.attempt.generation {
            (monitor, CompletionAction::Done)
        } else {
            match outcome {
                WorkOutcome::Succeeded => (
                    monitor,
                    CompletionAction::RestartVirtualDesktop(relaunch),
                ),
                WorkOutcome::Failed => relaunch_failed_next(
                    monitor,
                    relaunch,
                    RecoveryFailure::VirtualDesktopServiceRecovery,
                ),
                WorkOutcome::TaskFailed => relaunch_failed_next(
                    monitor,
                    relaunch,
                    RecoveryFailure::VirtualDesktopServiceRecoveryTask,
                ),
            }
        },
        CompletionStep::Restarted { relaunch, outcome } => if generation
            != relaunch.attempt.generation {
            (monitor, CompletionAction::Done)
        } else {
            match outcome {
                WorkOutcome::Succeeded => (monitor, CompletionAction::AwaitConnection(relaunch)),
                WorkOutcome::Failed => relaunch_failed_next(
                    monitor,
                    relaunch,
                    RecoveryFailure::VirtualDesktopRestart,
                ),
                WorkOutcome::TaskFailed => relaunch_failed_next(
                    monitor,
                    relaunch,
                    RecoveryFailure::RecoveryTask,
                ),
            }
        },
        CompletionStep::ConnectionAwaited { relaunch, result } => match result {
            Ok(_) => (
                monitor.restart_finished(
                    relaunch.attempt.generation,
                    relaunch.attempt.attempt,
                    true,
                ),
                CompletionAction::Completed(relaunch),
            ),
            Err(failure) => relaunch_failed_next(monitor, relaunch, failure),
        },
    }
}

/// The monitor and the action that a step of the completion leads to. Once the monitor is stopping,
/// the completion ends where a command would follow, and is finished otherwise.
pub open spec fn completion_next(monitor: MonitorModel, step: CompletionStep) -> (
    MonitorModel,
    CompletionAction,
) {
    let (next, action) = undisturbed_completion_next(monitor, step);
    (
        next,
        if monitor.stopping && action.is_command() {
            CompletionAction::Done
        } else {
            action
        },
    )
}

impl AdbHealthMonitor {
    fn begin_relaunch(&self, relaunch: Relaunch) -> (action: CompletionAction)
        ensures
            action == CompletionAction::StopVirtualDesktop(relaunch),
    {
        // The service is reset before the first launch already: its process can go on running
        // without a connection of its own.
        if should_reset_virtual_desktop_service(relaunch.attempt.trigger, relaunch.number) {
            CompletionAction::StopVirtualDesktop(relaunch)
        } else {
            CompletionAction::RestartVirtualDesktop(relaunch)
        }
    }

    fn fail_relaunch(&mut self, relaunch: Relaunch, failure: RecoveryFailure) -> (action:
        CompletionAction)
        ensures
            (final(self)@, action) == relaunch_failed_next(old(self)@, relaunch, failure),
    {
        let attempt = relaunch.attempt;
        let last = Relaunch { attempt, number: relaunch.number, failure };
        if relaunch.number < VIRTUAL_DESKTOP_RELAUNCHES {
            return self.begin_relaunch(
                Relaunch { attempt, number: relaunch.number + 1, failure },
            );
        }
        let retry = match self.finish_virtual_desktop_restart(
            attempt.generation,
            attempt.attempt,
            false,
        ) {
            Some(retry) => retry,
            None => false,
        };
        if retry {
            CompletionAction::Retry(last)
        } else {
            let rearm = self.schedule_rearm(attempt);
            CompletionAction::GiveUp { relaunch: last, rearm }
        }
    }

    /// Takes one step of completing a recovery, once the control connection is back: Virtual
    /// Desktop and its service are restarted, a few times if need be. A stop ends the completion
    /// between any two commands, so that it waits for one command at most.
    pub fn complete_transport_recovery(&mut self, step: CompletionStep) -> (action:
        CompletionAction)
        ensures
            (final(self)@, action) == completion_next(old(self)@, step),
    {
        let action = self.complete_undisturbed(step);
        let is_command = matches!(
            action,
            CompletionAction::StopVirtualDesktop(_)
            | CompletionAction::RestartService(_)
            | CompletionAction::RestartVirtualDesktop(_)
        );
        if self.stopping && is_command {
            CompletionAction::Done
        } else {
            action
        }
    }

    fn complete_undisturbed(&mut self, step: CompletionStep) -> (action: CompletionAction)
        ensures
            (final(self)@, action) == undisturbed_completion_next(old(self)@, step),
            final(self)@.stopping == old(self)@.stopping,
    {
        match step {
            CompletionStep::Begin => {
                match self.begin_virtual_desktop_restart() {
                    Some(attempt) => CompletionAction::AcquireOperation(attempt),
                    None => CompletionAction::NotCompleting,
                }
            },
            CompletionStep::OperationAcquired(attempt) => self.begin_relaunch(
                Relaunch {
                    attempt,
                    number: 1,
                    failure: RecoveryFailure::VirtualDesktopConnectionTimeout,
                },
            ),
            CompletionStep::Stopped { relaunch, outcome } => {
                if self.transport_recovery.generation != relaunch.attempt.generation {
                    return CompletionAction::Done;
                }
                match outcome {
                    WorkOutcome::Succeeded => CompletionAction::RestartService(relaunch),
                    WorkOutcome::Failed => self.fail_relaunch(
                        relaunch,
                        RecoveryFailure::VirtualDesktopStop,
                    ),
                    WorkOutcome::TaskFailed => self.fail_relaunch(
                        relaunch,
                        RecoveryFailure::VirtualDesktopStopTask,
                    ),
                }
            },
            CompletionStep::ServiceRestarted { relaunch, outcome } => {
                if self.transport_recovery.generation != relaunch.attempt.generation {
                    return CompletionAction::Done;
                }
                match outcome {
                    WorkOutcome::Succeeded => CompletionAction::RestartVirtualDesktop(relaunch),
                    WorkOutcome::Failed => self.fail_relaunch(
                        relaunch,
                        RecoveryFailure::VirtualDesktopServiceRecovery,
                    ),
                    WorkOutcome::TaskFailed => self.fail_relaunch(
                        relaunch,
                        RecoveryFailure::VirtualDesktopServiceRecoveryTask,
                    ),
                }
            },
            CompletionStep::Restarted { relaunch, outcome } => {
                if self.transport_recovery.generation != relaunch.attempt.generation {
                    return CompletionAction::Done;
                }
                match outcome {
                    WorkOutcome::Succeeded => CompletionAction::AwaitConnection(relaunch),
                    WorkOutcome::Failed => self.fail_relaunch(
                        relaunch,
                        RecoveryFailure::VirtualDesktopRestart,
                    ),
                    WorkOutcome::TaskFailed => self.fail_relaunch(
                        relaunch,
                        RecoveryFailure::RecoveryTask,
                    ),
                }
            },
            CompletionStep::ConnectionAwaited { relaunch, result } => {
                match result {
                    Ok(_) => {
                        let _ = self.finish_virtual_desktop_restart(
                            relaunch.attempt.generation,
                            relaunch.attempt.attempt,
                            true,
                        );
                        CompletionAction::Completed(relaunch)
                    },
                    Err(failure) => self.fail_relaunch(relaunch, failure),
                }
            },
        }
    }
}

/// The wait for Virtual Desktop to connect and to stay connected.
#[derive(Clone, Copy, Debug, PartialEq, Eq, Structural)]
pub struct ConnectionWait {
    pub started: Instant,
    pub timeout: Duration,
    pub connected_since: Option<Instant>,
}

impl ConnectionWait {
    pub fn new(now: Instant, timeout: Duration) -> (wait: ConnectionWait)
        ensures
            wait == (ConnectionWait { started: now, timeout, connected_since: None }),
    {
        ConnectionWait { started: now, timeout, connected_since: None }
    }

    /// Since when the connection is there, after it was looked at.
    pub open spec fn since(self, now: Instant, connected: bool) -> Option<Instant> {
        if !connected {
            None
        } else if self.connected_since is Some {
            self.connected_since
        } else {
            Some(now)
        }
    }

    /// Whether the connection has lasted long enough.
    pub open spec fn lasted(self, now: Instant, connected: bool) -> bool {
        self.since(now, connected) matches Some(since) && now@ - since@ >= 10_000_000_000
    }

    /// Whether the wait has taken as long as it may.
    pub open spec fn is_over(self, now: Instant) -> bool {
        now@ >= self.started@ && now@ - self.started@ >= self.timeout@
    }

    /// The wait after a look at the connection, and how it ended, if it did.
    pub open spec fn polled(self, now: Instant, superseded: bool, connected: bool) -> (
        ConnectionWait,
        Option<Result<(), RecoveryFailure>>,
    ) {
        if superseded {
            (self, Some(Err(RecoveryFailure::RecoverySuperseded)))
        } else {
            (
                ConnectionWait { connected_since: self.since(now, connected), ..self },
                if self.lasted(now, connected) {
                    Some(Ok(()))
                } else if self.is_over(now) {
                    Some(Err(RecoveryFailure::VirtualDesktopConnectionTimeout))
                } else {
                    None
                },
            )
        }
    }

    /// Looks at the connection, which the caller does every tenth of a second. Returns the end of
    /// the wait, or nothing while it goes on.
    pub fn poll(&mut self, now: Instant, superseded: bool, connected: bool) -> (end: Option<
        Result<(), RecoveryFailure>,
    >)
        ensures
            (*final(self), end) == old(self).polled(now, superseded, connected),
    {
        if superseded {
            return Some(Err(RecoveryFailure::RecoverySuperseded));
        }
        if connected {
            let since = match self.connected_since {
                Some(since) => since,
                None => now,
            };
            self.connected_since = Some(since);
            if now.duration_since(since).at_least(virtual_desktop_connection_stable()) {
                return Some(Ok(()));
            }
        } else {
            self.connected_since = None;
        }
        if now.since_start.at_least(self.started.since_start) && now.duration_since(
            self.started,
        ).at_least(self.timeout) {
            return Some(Err(RecoveryFailure::VirtualDesktopConnectionTimeout));
        }
        None
    }
}

/// Whether the wait for Virtual Desktop within the recovery of `generation` has become pointless:
/// the monitor is stopping, or another recovery was set off.
pub fn recovery_superseded(monitor: &AdbHealthMonitor, generation: u64) -> (superseded: bool)
    ensures
        superseded == (monitor@.stopping || monitor@.transport_recovery.generation != generation),
{
    monitor.stopping || monitor.transport_recovery.generation != generation
}

#[verifier::spinoff_prover]
#[verifier::rlimit(30)]
proof fn lemma_begin_events(
    monitor: MonitorModel,
    gate: RelayGateController,
    step: RecoverStep,
) -> (events: Seq<MonitorEvent>)
    requires
        step is Begin,
    ensures
        recover_next(monitor, gate, step).0 == monitor.after_all(events),
        internal(events),
{
    let (next, _, action) = recover_next(monitor, gate, step);
    if monitor.stopping || action is NotNeeded {
        lemma_no_event(monitor, next)
    } else if !step->device_available {
        let awaited = Some("transport_recovery_waiting_for_device"@);
        lemma_two_events(
            monitor,
            MonitorEvent::DeviceAwaited,
            MonitorEvent::StatusSet(true, false, false, awaited),
            next,
        )
    } else if action is AcquireOperation {
        let rebuilding = Some("transport_recovery_rebuilding"@);
        lemma_two_events(
            monitor,
            MonitorEvent::AttemptBegun,
            MonitorEvent::StatusSet(true, true, false, rebuilding),
            next,
        )
    } else {
        lemma_one_event(monitor, MonitorEvent::AttemptBegun, next)
    }
}

#[verifier::spinoff_prover]
#[verifier::rlimit(30)]
proof fn lemma_rebuilt_events(
    monitor: MonitorModel,
    gate: RelayGateController,
    step: RecoverStep,
) -> (events: Seq<MonitorEvent>)
    requires
        step is Rebuilt,
    ensures
        recover_next(monitor, gate, step).0 == monitor.after_all(events),
        internal(events),
{
    let (next, _, action) = recover_next(monitor, gate, step);
    let generation = step->attempt.generation;
    let finished = MonitorEvent::AttemptFinished(generation, false);
    if action is Retry {
        let retry = Some("transport_recovery_retry"@);
        lemma_two_events(monitor, finished, MonitorEvent::StatusSet(true, true, false, retry), next)
    } else if action is GiveUp {
        let failed = Some("transport_recovery_failed"@);
        lemma_three_events(
            monitor,
            finished,
            MonitorEvent::StatusSet(true, true, false, failed),
            MonitorEvent::RearmScheduled(generation),
            next,
        )
    } else {
        lemma_no_event(monitor, next)
    }
}

#[verifier::spinoff_prover]
#[verifier::rlimit(30)]
proof fn lemma_timeout_events(
    monitor: MonitorModel,
    gate: RelayGateController,
    step: RecoverStep,
) -> (events: Seq<MonitorEvent>)
    requires
        step is ControlTimeout,
    ensures
        recover_next(monitor, gate, step).0 == monitor.after_all(events),
        internal(events),
{
    let (next, _, action) = recover_next(monitor, gate, step);
    let attempt = step->ControlTimeout_0;
    let expired = MonitorEvent::ControlExpired(attempt.generation, attempt.attempt);
    if action is Done {
        lemma_no_event(monitor, next)
    } else if monitor.transport_recovery.can_retry() {
        lemma_one_event(monitor, expired, next)
    } else {
        lemma_two_events(monitor, expired, MonitorEvent::RearmScheduled(attempt.generation), next)
    }
}

/// Each step of the rebuilding changes the monitor by a run of the monitor's own events. It keeps a
/// suppression and sets no recovery off.
#[verifier::spinoff_prover]
#[verifier::rlimit(30)]
pub proof fn recover_steps_are_monitor_events(
    monitor: MonitorModel,
    gate: RelayGateController,
    step: RecoverStep,
) -> (events: Seq<MonitorEvent>)
    ensures
        recover_next(monitor, gate, step).0 == monitor.after_all(events),
        internal(events),
        monitor.stopping ==> recover_next(monitor, gate, step).0.stopping,
{
    let events = match step {
        RecoverStep::Begin { device_available: _ } => lemma_begin_events(monitor, gate, step),
        RecoverStep::OperationAcquired(_) => lemma_no_event(monitor, monitor),
        RecoverStep::Rebuilt { attempt: _, outcome: _ } => lemma_rebuilt_events(
            monitor,
            gate,
            step,
        ),
        RecoverStep::TransportReset(attempt) => lemma_three_events(
            monitor,
            MonitorEvent::ReconnectCounted,
            MonitorEvent::AttemptFinished(attempt.generation, true),
            MonitorEvent::StatusSet(true, true, true, None),
            recover_next(monitor, gate, step).0,
        ),
        RecoverStep::ControlTimeout(_) => lemma_timeout_events(monitor, gate, step),
    };
    if monitor.stopping {
        suppression_is_permanent(monitor, events);
    }
    events
}

#[verifier::spinoff_prover]
#[verifier::rlimit(30)]
proof fn lemma_failed_relaunch_events(
    monitor: MonitorModel,
    relaunch: Relaunch,
    failure: RecoveryFailure,
) -> (events: Seq<MonitorEvent>)
    ensures
        relaunch_failed_next(monitor, relaunch, failure).0 == monitor.after_all(events),
        internal(events),
{
    let (next, action) = relaunch_failed_next(monitor, relaunch, failure);
    let (generation, attempt) = (relaunch.attempt.generation, relaunch.attempt.attempt);
    let finished = MonitorEvent::RestartFinished(generation, attempt, false);
    match action {
        CompletionAction::Retry(_) => lemma_one_event(monitor, finished, next),
        CompletionAction::GiveUp { relaunch: _, rearm: _ } => lemma_two_events(
            monitor,
            finished,
            MonitorEvent::RearmScheduled(generation),
            next,
        ),
        _ => lemma_no_event(monitor, next),
    }
}

/// Each step of the completion changes the monitor by a run of the monitor's own events. It keeps a
/// suppression and sets no recovery off.
#[verifier::spinoff_prover]
#[verifier::rlimit(30)]
pub proof fn completion_steps_are_monitor_events(
    monitor: MonitorModel,
    step: CompletionStep,
) -> (events: Seq<MonitorEvent>)
    ensures
        completion_next(monitor, step).0 == monitor.after_all(events),
        internal(events),
        monitor.stopping ==> completion_next(monitor, step).0.stopping,
{
    let (next, action) = completion_next(monitor, step);
    let events = match launch_of(step) {
        None => if step is Begin {
            lemma_one_event(monitor, MonitorEvent::RestartBegun, next)
        } else {
            lemma_no_event(monitor, next)
        },
        Some(relaunch) => match action {
            CompletionAction::Completed(_) => lemma_one_event(
                monitor,
                MonitorEvent::RestartFinished(
                    relaunch.attempt.generation,
                    relaunch.attempt.attempt,
                    true,
                ),
                next,
            ),
            CompletionAction::Retry(last) => lemma_failed_relaunch_events(
                monitor,
                relaunch,
                last.failure,
            ),
            CompletionAction::GiveUp { relaunch: last, rearm: _ } => lemma_failed_relaunch_events(
                monitor,
                relaunch,
                last.failure,
            ),
            _ => lemma_no_event(monitor, next),
        },
    };
    if monitor.stopping {
        suppression_is_permanent(monitor, events);
    }
    events
}

/// Once repairs are suppressed, no step of the rebuilding and no step of the completion gives a
/// command.
pub proof fn suppressed_recovery_gives_no_command(
    monitor: MonitorModel,
    gate: RelayGateController,
    step: RecoverStep,
    completion: CompletionStep,
)
    requires
        monitor.stopping,
    ensures
        !recover_next(monitor, gate, step).2.is_command(),
        !completion_next(monitor, completion).1.is_command(),
{
}

/// A stop takes nothing but commands from a completion: where a command would follow, the monitor
/// stays as it is, and a launch that connected or was the last one is finished as without a stop.
pub proof fn stop_keeps_the_end_of_a_completion(
    monitor: MonitorModel,
    completion: CompletionStep,
    relaunch: Relaunch,
    failure: RecoveryFailure,
)
    requires
        monitor.stopping,
    ensures
        undisturbed_completion_next(monitor, completion).1.is_command() ==> completion_next(
            monitor,
            completion,
        ) == (monitor, CompletionAction::Done),
        !undisturbed_completion_next(monitor, completion).1.is_command() ==> completion_next(
            monitor,
            completion,
        ) == undisturbed_completion_next(monitor, completion),
        completion_next(
            monitor,
            CompletionStep::ConnectionAwaited { relaunch, result: Ok(()) },
        ) == (
            monitor.restart_finished(relaunch.attempt.generation, relaunch.attempt.attempt, true),
            CompletionAction::Completed(relaunch),
        ),
        relaunch.number >= VIRTUAL_DESKTOP_RELAUNCHES ==> completion_next(
            monitor,
            CompletionStep::ConnectionAwaited { relaunch, result: Err(failure) },
        ) == relaunch_failed_next(monitor, relaunch, failure),
{
}

/// The relay gate is closed while the mappings are rebuilt, and a control connection from before is
/// not enough to open it: after the mappings are back it stays closed until a new connection.
pub proof fn rebuilt_transport_awaits_fresh_control(
    monitor: MonitorModel,
    gate: RelayGateController,
    attempt: RecoveryAttempt,
)
    requires
        gate.consistent(),
        monitor.transport_recovery.generation == attempt.generation,
    ensures
        ({
            let (rebuilt, reset, action) = recover_next(
                monitor,
                gate,
                RecoverStep::Rebuilt { attempt, outcome: WorkOutcome::Succeeded },
            );
            let (_, ready, _) = recover_next(rebuilt, reset, RecoverStep::TransportReset(attempt));
            &&& action == RecoverAction::ResetTransport(attempt)
            &&& !reset.gate.enabled
            &&& !ready.gate.enabled
            &&& ready.after(GateEvent::ControlConnected).gate.enabled
        }),
{
}

/// Beginning to recover closes the relay gate, whether or not there is a device.
pub proof fn recovery_closes_the_gate(
    monitor: MonitorModel,
    gate: RelayGateController,
    device_available: bool,
)
    requires
        gate.consistent(),
        monitor.transport_recovery.state.requires_recovery(),
    ensures
        !recover_next(monitor, gate, RecoverStep::Begin { device_available }).1.gate.enabled,
{
}

/// A recovery keeps the relay gate in line with what decides over it.
pub proof fn recovery_keeps_the_gate_consistent(
    monitor: MonitorModel,
    gate: RelayGateController,
    step: RecoverStep,
)
    requires
        gate.consistent(),
    ensures
        recover_next(monitor, gate, step).1.consistent(),
{
}

/// Work whose recovery was superseded meanwhile changes nothing.
pub proof fn superseded_work_changes_nothing(
    monitor: MonitorModel,
    gate: RelayGateController,
    attempt: RecoveryAttempt,
    relaunch: Relaunch,
    outcome: WorkOutcome,
)
    requires
        monitor.transport_recovery.generation != attempt.generation,
        relaunch.attempt == attempt,
    ensures
        recover_next(monitor, gate, RecoverStep::Rebuilt { attempt, outcome }) == (
            monitor,
            gate,
            RecoverAction::Done,
        ),
        recover_next(monitor, gate, RecoverStep::ControlTimeout(attempt)) == (
            monitor,
            gate,
            RecoverAction::Done,
        ),
        completion_next(monitor, CompletionStep::Stopped { relaunch, outcome }) == (
            monitor,
            CompletionAction::Done,
        ),
        completion_next(monitor, CompletionStep::ServiceRestarted { relaunch, outcome }) == (
            monitor,
            CompletionAction::Done,
        ),
        completion_next(monitor, CompletionStep::Restarted { relaunch, outcome }) == (
            monitor,
            CompletionAction::Done,
        ),
{
}

/// Virtual Desktop is started only after it was stopped and its service was restarted, both with
/// success and in the same launch.
pub proof fn virtual_desktop_is_stopped_before_it_is_started(
    monitor: MonitorModel,
    step: CompletionStep,
    relaunch: Relaunch,
)
    ensures
        completion_next(monitor, step).1 == CompletionAction::RestartVirtualDesktop(relaunch)
            ==> step == (CompletionStep::ServiceRestarted {
            relaunch,
            outcome: WorkOutcome::Succeeded,
        }),
        completion_next(monitor, step).1 == CompletionAction::RestartService(relaunch) ==> step == (
        CompletionStep::Stopped { relaunch, outcome: WorkOutcome::Succeeded }),
{
}

/// The launch that a step of the completion belongs to.
pub open spec fn launch_of(step: CompletionStep) -> Option<Relaunch> {
    match step {
        CompletionStep::Begin => None,
        CompletionStep::OperationAcquired(_) => None,
        CompletionStep::Stopped { relaunch, outcome: _ } => Some(relaunch),
        CompletionStep::ServiceRestarted { relaunch, outcome: _ } => Some(relaunch),
        CompletionStep::Restarted { relaunch, outcome: _ } => Some(relaunch),
        CompletionStep::ConnectionAwaited { relaunch, result: _ } => Some(relaunch),
    }
}

/// Launches are counted from one, each goes one beyond the last, and there are no more than the
/// limit.
pub proof fn launches_are_bounded(monitor: MonitorModel, step: CompletionStep, next: Relaunch)
    requires
        launch_of(step) matches Some(launch) ==> 1 <= launch.number <= VIRTUAL_DESKTOP_RELAUNCHES,
        completion_next(monitor, step).1.relaunch() == Some(next),
    ensures
        1 <= next.number <= VIRTUAL_DESKTOP_RELAUNCHES,
        completion_next(monitor, step).1 is StopVirtualDesktop ==> next.number == (
        match launch_of(step) {
            Some(launch) => launch.number + 1,
            None => 1,
        }),
        completion_next(monitor, step).1 !is StopVirtualDesktop ==> launch_of(step) == Some(next),
{
}

/// A look at the connection of Virtual Desktop.
pub struct Look {
    pub now: Instant,
    pub connected: bool,
}

impl ConnectionWait {
    /// The wait after `looks` that did not end it.
    pub open spec fn after_looks(self, looks: Seq<Look>) -> ConnectionWait
        decreases looks.len(),
    {
        if looks.len() == 0 {
            self
        } else {
            let before = self.after_looks(looks.drop_last());
            let look = looks.last();
            ConnectionWait { connected_since: before.since(look.now, look.connected), ..before }
        }
    }
}

/// The connection was there at every look from `start` on.
pub open spec fn connected_from(looks: Seq<Look>, start: int) -> bool {
    &&& 0 <= start < looks.len()
    &&& forall|i: int| start <= i < looks.len() ==> (#[trigger] looks[i]).connected
}

proof fn lemma_connected_since(wait: ConnectionWait, looks: Seq<Look>) -> (start: int)
    requires
        wait.connected_since is None,
        wait.after_looks(looks).connected_since is Some,
    ensures
        connected_from(looks, start),
        wait.after_looks(looks).connected_since == Some(looks[start].now),
    decreases looks.len(),
{
    let before = wait.after_looks(looks.drop_last());
    if before.connected_since is Some {
        let start = lemma_connected_since(wait, looks.drop_last());
        assert forall|i: int| start <= i < looks.len() implies (#[trigger] looks[i]).connected by {
            if i < looks.len() - 1 {
                assert(looks.drop_last()[i].connected);
            }
        }
        start
    } else {
        looks.len() - 1
    }
}

/// The wait for a connection ends well only when the connection was there at every look over at
/// least ten seconds.
pub proof fn connection_counts_once_it_lasted(
    wait: ConnectionWait,
    looks: Seq<Look>,
) -> (start: int)
    requires
        wait.connected_since is None,
        looks.len() > 0,
        wait.after_looks(looks.drop_last()).lasted(looks.last().now, looks.last().connected),
    ensures
        connected_from(looks, start),
        looks.last().now@ - looks[start].now@ >= 10_000_000_000,
{
    lemma_connected_since(wait, looks)
}

/// An attempt starts the service on the device anew exactly when it repeats a recovery from a
/// reconnect. The first attempt does not, and no attempt after a resume of the host does, whatever
/// its number: they reinstall the mappings and leave the running session alone.
pub proof fn only_a_repeated_reconnect_restarts_the_service(
    monitor: MonitorModel,
    gate: RelayGateController,
    attempt: RecoveryAttempt,
)
    requires
        !monitor.stopping,
    ensures
        ({
            let (next, kept, action) = recover_next(
                monitor,
                gate,
                RecoverStep::OperationAcquired(attempt),
            );
            &&& next == monitor && kept == gate
            &&& action == RecoverAction::RestartAndroid(attempt) <==> (attempt.trigger
                == TransportRecoveryTrigger::UsbReconnect && attempt.attempt > 1)
            &&& action == RecoverAction::ReinstallMappings(attempt) <==> (attempt.trigger
                == TransportRecoveryTrigger::HostResume || attempt.attempt <= 1)
        }),
{
}

/// A failed attempt is reported by the work that it was given: a restart of the service, or the
/// rebuilding of the mappings; and as a failed task when the work did not come to its end.
pub proof fn failed_attempt_is_named_after_its_work(
    monitor: MonitorModel,
    gate: RelayGateController,
    attempt: RecoveryAttempt,
    outcome: WorkOutcome,
    failure: RecoveryFailure,
    rearm: bool,
)
    requires
        !monitor.stopping,
        ({
            let action = recover_next(monitor, gate, RecoverStep::Rebuilt { attempt, outcome }).2;
            action == (RecoverAction::Retry { attempt, failure }) || action
                == (RecoverAction::GiveUp { attempt, failure, rearm })
        }),
    ensures
        outcome != WorkOutcome::Succeeded,
        outcome == WorkOutcome::TaskFailed <==> failure == RecoveryFailure::RecoveryTask,
        outcome == WorkOutcome::Failed ==> (failure == RecoveryFailure::AndroidRestart
            <==> recover_next(monitor, gate, RecoverStep::OperationAcquired(attempt)).2
            == RecoverAction::RestartAndroid(attempt)),
        outcome == WorkOutcome::Failed ==> (failure == RecoveryFailure::MappingRebuild
            <==> recover_next(monitor, gate, RecoverStep::OperationAcquired(attempt)).2
            == RecoverAction::ReinstallMappings(attempt)),
{
}

/// A recovery is needed unless there was none, it has got as far as the control connection, or it
/// is through. Where none is needed, nothing changes.
pub proof fn recovery_is_needed_until_the_mappings_are_back(
    monitor: MonitorModel,
    gate: RelayGateController,
    device_available: bool,
)
    ensures
        ({
            let state = monitor.transport_recovery.state;
            let begun = recover_next(monitor, gate, RecoverStep::Begin { device_available });
            let not_needed = begun == (monitor, gate, RecoverAction::NotNeeded);
            &&& not_needed <==> (state == TransportRecoveryState::Idle || state
                == TransportRecoveryState::AwaitingControl || state
                == TransportRecoveryState::RestartingVirtualDesktop || state
                == TransportRecoveryState::Recovered)
            &&& not_needed <==> begun.2 is NotNeeded
            &&& monitor.stopping && !not_needed ==> begun.0 == monitor && begun.2 is Done
        }),
{
}

/// An attempt begins exactly when the recovery is pending or waited for the device, the device is
/// there, one of its two attempts is left, and nobody stops the monitor. It is the next one of the
/// same recovery, and the report says so.
#[verifier::spinoff_prover]
#[verifier::rlimit(30)]
pub proof fn attempt_begins_with_a_device_and_an_attempt_left(
    monitor: MonitorModel,
    gate: RelayGateController,
    device_available: bool,
)
    ensures
        ({
            let before = monitor.transport_recovery;
            let (next, _, action) = recover_next(
                monitor,
                gate,
                RecoverStep::Begin { device_available },
            );
            let after = next.transport_recovery;
            &&& action is AcquireOperation <==> (!monitor.stopping && device_available && (
            before.state == TransportRecoveryState::Pending || before.state
                == TransportRecoveryState::WaitingForDevice) && before.attempt < 2 && before.trigger
                is Some)
            &&& action matches RecoverAction::AcquireOperation(attempt) ==> {
                &&& attempt.generation == before.generation && after.generation == before.generation
                &&& attempt.attempt == before.attempt + 1 && after.attempt == attempt.attempt
                &&& Some(attempt.trigger) == before.trigger && after.trigger == before.trigger
                &&& after.state == TransportRecoveryState::RebuildingMappings
                &&& next.status.transport_recovery == after
                &&& next.status.active && next.status.device_available
                &&& !next.status.mappings_healthy
                &&& next.status.last_error == Some("transport_recovery_rebuilding"@)
            }
        }),
{
}

/// Without a device a recovery waits for one, and has both of its attempts again then.
#[verifier::spinoff_prover]
pub proof fn recovery_waits_for_the_device(monitor: MonitorModel, gate: RelayGateController)
    requires
        !monitor.stopping,
        monitor.transport_recovery.state == TransportRecoveryState::Pending
            || monitor.transport_recovery.state == TransportRecoveryState::WaitingForDevice
            || monitor.transport_recovery.state == TransportRecoveryState::RebuildingMappings
            || monitor.transport_recovery.state == TransportRecoveryState::Failed,
    ensures
        ({
            let (next, _, action) = recover_next(
                monitor,
                gate,
                RecoverStep::Begin { device_available: false },
            );
            &&& action is Done
            &&& next.transport_recovery.state == TransportRecoveryState::WaitingForDevice
            &&& next.transport_recovery.attempt == 0
            &&& next.transport_recovery.generation == monitor.transport_recovery.generation
            &&& next.transport_recovery.trigger == monitor.transport_recovery.trigger
            &&& next.status.active
            &&& !next.status.device_available && !next.status.mappings_healthy
            &&& next.status.last_error == Some("transport_recovery_waiting_for_device"@)
            &&& next.status.transport_recovery == next.transport_recovery
        }),
{
}

/// Rebuilding that failed is repeated while an attempt is left, and is given up otherwise. A
/// recovery that is given up gets a timer, once, unless it was itself set off by one.
#[verifier::spinoff_prover]
#[verifier::rlimit(30)]
pub proof fn failed_rebuilding_is_repeated_once(
    monitor: MonitorModel,
    gate: RelayGateController,
    attempt: RecoveryAttempt,
    outcome: WorkOutcome,
)
    requires
        monitor.transport_recovery.generation == attempt.generation,
        outcome != WorkOutcome::Succeeded,
    ensures
        ({
            let (next, kept, action) = recover_next(
                monitor,
                gate,
                RecoverStep::Rebuilt { attempt, outcome },
            );
            let left = monitor.transport_recovery.attempt < 2;
            let timed = monitor.transport_auto_rearm_generation != attempt.generation
                && !monitor.transport_rearm_scheduled.contains(attempt.generation);
            &&& kept == gate
            &&& left <==> action is Retry
            &&& !left <==> action is GiveUp
            &&& action matches RecoverAction::GiveUp { attempt: of, failure: _, rearm }
                ==> of == attempt && rearm == timed
            &&& action matches RecoverAction::Retry { attempt: of, failure: _ } ==> of == attempt
            &&& next.transport_recovery == (crate::recovery::TransportRecoverySnapshot {
                state: if left {
                    TransportRecoveryState::Pending
                } else {
                    TransportRecoveryState::Failed
                },
                ..monitor.transport_recovery
            })
            &&& next.transport_rearm_scheduled == if !left && timed {
                monitor.transport_rearm_scheduled.insert(attempt.generation)
            } else {
                monitor.transport_rearm_scheduled
            }
            &&& next.status.active && next.status.device_available
            &&& !next.status.mappings_healthy
            &&& next.status.last_error == Some(
                if left {
                    "transport_recovery_retry"@
                } else {
                    "transport_recovery_failed"@
                },
            )
            &&& next.stopping == monitor.stopping
            &&& next.authenticated_reconcile == monitor.authenticated_reconcile
            &&& next.usb_reconnect_pending == monitor.usb_reconnect_pending
        }),
{
}

/// Once the control connection over the new mappings was asked for, the repair is counted, the
/// carrier is healthy again, and the recovery waits for that connection.
#[verifier::spinoff_prover]
#[verifier::rlimit(30)]
pub proof fn rebuilt_transport_is_healthy(
    monitor: MonitorModel,
    gate: RelayGateController,
    attempt: RecoveryAttempt,
)
    ensures
        ({
            let (next, open, action) = recover_next(
                monitor,
                gate,
                RecoverStep::TransportReset(attempt),
            );
            let before = monitor.transport_recovery;
            &&& action matches RecoverAction::AwaitControl { attempt: of, reconnect_generation }
                && of == attempt && (monitor.reconnect_generation < u64::MAX
                ==> reconnect_generation == monitor.reconnect_generation + 1
                && next.reconnect_generation == reconnect_generation)
            &&& next.transport_recovery.state == if before.generation == attempt.generation {
                TransportRecoveryState::AwaitingControl
            } else {
                before.state
            }
            &&& next.transport_recovery.generation == before.generation
            &&& next.transport_recovery.attempt == before.attempt
            &&& next.transport_recovery.trigger == before.trigger
            &&& next.status.active && next.status.device_available && next.status.mappings_healthy
            &&& next.status.last_error is None
            &&& next.status.transport_recovery == next.transport_recovery
            &&& open.eligibility.carrier_healthy
            &&& open.gate.enabled == gate.eligibility.control_authenticated
        }),
{
}

/// The wait for the control connection matters only while the very attempt that began it still
/// waits. It is repeated while an attempt is left, at once, and given up otherwise.
#[verifier::spinoff_prover]
#[verifier::rlimit(30)]
pub proof fn missing_control_connection_is_a_failed_attempt(
    monitor: MonitorModel,
    gate: RelayGateController,
    attempt: RecoveryAttempt,
)
    ensures
        ({
            let before = monitor.transport_recovery;
            let (next, kept, action) = recover_next(
                monitor,
                gate,
                RecoverStep::ControlTimeout(attempt),
            );
            let waits = before.state == TransportRecoveryState::AwaitingControl
                && before.generation == attempt.generation && before.attempt == attempt.attempt;
            let timed = monitor.transport_auto_rearm_generation != attempt.generation
                && !monitor.transport_rearm_scheduled.contains(attempt.generation);
            &&& kept == gate
            &&& !waits ==> next == monitor && action is Done
            &&& waits ==> action == (RecoverAction::ControlTimedOut {
                attempt,
                will_retry: before.attempt < 2,
                rearm: before.attempt >= 2 && timed,
            })
            &&& waits && before.attempt < 2 ==> {
                &&& next.transport_recovery.state == TransportRecoveryState::Pending
                &&& next.wake.one
                &&& next.status.last_error == Some("transport_recovery_control_retry"@)
            }
            &&& waits && before.attempt >= 2 ==> {
                &&& next.transport_recovery.state == TransportRecoveryState::Failed
                &&& next.status.last_error == Some("transport_recovery_control_failed"@)
                &&& next.transport_rearm_scheduled.contains(attempt.generation) == (timed
                    || monitor.transport_rearm_scheduled.contains(attempt.generation))
            }
            &&& waits ==> !next.status.mappings_healthy && next.status.transport_recovery
                == next.transport_recovery
            &&& next.transport_recovery.generation == before.generation
            &&& next.transport_recovery.attempt == before.attempt
            &&& next.transport_recovery.trigger == before.trigger
        }),
{
}

/// A completion begins exactly when the recovery waits for the control connection, for the attempt
/// that is under way.
#[verifier::spinoff_prover]
pub proof fn completion_begins_once_control_is_back(monitor: MonitorModel)
    ensures
        ({
            let before = monitor.transport_recovery;
            let (next, action) = completion_next(monitor, CompletionStep::Begin);
            &&& action is AcquireOperation <==> (before.state
                == TransportRecoveryState::AwaitingControl && before.trigger is Some)
            &&& action !is AcquireOperation <==> action is NotCompleting
            &&& before.state != TransportRecoveryState::AwaitingControl ==> next == monitor
            &&& before.state == TransportRecoveryState::AwaitingControl
                ==> next.transport_recovery.state
                == TransportRecoveryState::RestartingVirtualDesktop
            &&& action matches CompletionAction::AcquireOperation(attempt) ==> {
                &&& attempt.generation == before.generation && attempt.attempt == before.attempt
                &&& Some(attempt.trigger) == before.trigger
                &&& next.status.last_error == Some(
                    "transport_recovery_restarting_virtual_desktop"@,
                )
                &&& next.status.transport_recovery == next.transport_recovery
            }
        }),
{
}

/// While nobody stops it and no other recovery was set off, a launch goes through its stages in
/// order: Virtual Desktop is stopped, its service is restarted, it is started, and its connection
/// is waited for. None of them changes the monitor.
#[verifier::spinoff_prover]
pub proof fn launch_goes_through_its_stages(
    monitor: MonitorModel,
    attempt: RecoveryAttempt,
    relaunch: Relaunch,
)
    requires
        !monitor.stopping,
        monitor.transport_recovery.generation == relaunch.attempt.generation,
    ensures
        ({
            let outcome = WorkOutcome::Succeeded;
            let (first, begun) = completion_next(
                monitor,
                CompletionStep::OperationAcquired(attempt),
            );
            &&& first == monitor
            &&& begun matches CompletionAction::StopVirtualDesktop(launch) && launch.attempt
                == attempt && launch.number == 1
            &&& completion_next(monitor, CompletionStep::Stopped { relaunch, outcome }) == (
                monitor,
                CompletionAction::RestartService(relaunch),
            )
            &&& completion_next(monitor, CompletionStep::ServiceRestarted { relaunch, outcome }) == (
                monitor,
                CompletionAction::RestartVirtualDesktop(relaunch),
            )
            &&& completion_next(monitor, CompletionStep::Restarted { relaunch, outcome }) == (
                monitor,
                CompletionAction::AwaitConnection(relaunch),
            )
        }),
{
}

/// The failure of the stage that a launch did not get through.
pub open spec fn fails_with(step: CompletionStep, failure: RecoveryFailure) -> bool {
    match step {
        CompletionStep::Stopped { relaunch: _, outcome } => {
            ||| outcome == WorkOutcome::Failed && failure == RecoveryFailure::VirtualDesktopStop
            ||| outcome == WorkOutcome::TaskFailed && failure
                == RecoveryFailure::VirtualDesktopStopTask
        },
        CompletionStep::ServiceRestarted { relaunch: _, outcome } => {
            ||| outcome == WorkOutcome::Failed && failure
                == RecoveryFailure::VirtualDesktopServiceRecovery
            ||| outcome == WorkOutcome::TaskFailed && failure
                == RecoveryFailure::VirtualDesktopServiceRecoveryTask
        },
        CompletionStep::Restarted { relaunch: _, outcome } => {
            ||| outcome == WorkOutcome::Failed && failure == RecoveryFailure::VirtualDesktopRestart
            ||| outcome == WorkOutcome::TaskFailed && failure == RecoveryFailure::RecoveryTask
        },
        CompletionStep::ConnectionAwaited { relaunch: _, result } => result == Err::<
            (),
            RecoveryFailure,
        >(failure),
        _ => false,
    }
}

/// A launch that failed in whichever stage is followed by the next one, from its first stage on,
/// until there were three; the failure is kept. The third ends the attempt: the recovery is pending
/// again while an attempt is left, and has failed otherwise.
#[verifier::spinoff_prover]
#[verifier::rlimit(50)]
pub proof fn failed_launch_is_repeated_twice(
    monitor: MonitorModel,
    step: CompletionStep,
    relaunch: Relaunch,
    failure: RecoveryFailure,
)
    requires
        !monitor.stopping,
        launch_of(step) == Some(relaunch),
        fails_with(step, failure),
        monitor.transport_recovery.generation == relaunch.attempt.generation,
        monitor.transport_recovery.attempt == relaunch.attempt.attempt,
        monitor.transport_recovery.state == TransportRecoveryState::RestartingVirtualDesktop,
        relaunch.number <= 3,
    ensures
        ({
            let (next, action) = completion_next(monitor, step);
            let last = Relaunch { failure, ..relaunch };
            let left = monitor.transport_recovery.attempt < 2;
            let timed = monitor.transport_auto_rearm_generation
                != monitor.transport_recovery.generation
                && !monitor.transport_rearm_scheduled.contains(
                monitor.transport_recovery.generation,
            );
            &&& relaunch.number < 3 ==> next == monitor && (action matches
                CompletionAction::StopVirtualDesktop(again) && again.attempt == relaunch.attempt
                && again.number == relaunch.number + 1 && again.failure == failure)
            &&& relaunch.number == 3 && left ==> {
                &&& action == CompletionAction::Retry(last)
                &&& next.transport_recovery.state == TransportRecoveryState::Pending
                &&& next.status.last_error == Some("transport_recovery_virtual_desktop_retry"@)
            }
            &&& relaunch.number == 3 && !left ==> {
                &&& action == (CompletionAction::GiveUp { relaunch: last, rearm: timed })
                &&& next.transport_recovery.state == TransportRecoveryState::Failed
                &&& next.status.last_error == Some("transport_recovery_virtual_desktop_failed"@)
            }
            &&& relaunch.number == 3 ==> !next.status.mappings_healthy
            &&& next.transport_recovery.generation == monitor.transport_recovery.generation
            &&& next.transport_recovery.attempt == monitor.transport_recovery.attempt
            &&& next.transport_recovery.trigger == monitor.transport_recovery.trigger
        }),
{
}

/// A connection that lasted ends the recovery it was made for, and only that one.
#[verifier::spinoff_prover]
pub proof fn lasting_connection_ends_the_recovery(monitor: MonitorModel, relaunch: Relaunch)
    ensures
        ({
            let before = monitor.transport_recovery;
            let (next, action) = completion_next(
                monitor,
                CompletionStep::ConnectionAwaited { relaunch, result: Ok(()) },
            );
            let own = before.state == TransportRecoveryState::RestartingVirtualDesktop
                && before.generation == relaunch.attempt.generation && before.attempt
                == relaunch.attempt.attempt;
            &&& action == CompletionAction::Completed(relaunch)
            &&& !own ==> next == monitor
            &&& own ==> next.transport_recovery.state == TransportRecoveryState::Recovered
            &&& own ==> next.status.last_error is None && next.status.transport_recovery
                == next.transport_recovery
            &&& next.transport_recovery.generation == before.generation
            &&& next.transport_recovery.attempt == before.attempt
            &&& next.transport_recovery.trigger == before.trigger
            &&& next.status.mappings_healthy == monitor.status.mappings_healthy
        }),
{
}

/// A look at the connection: the time since when it is there without a break counts from the first
/// look at which it was, ten seconds of it make the wait end well, and apart from that only the
/// timeout ends it.
pub proof fn connection_is_measured_without_a_break(wait: ConnectionWait, now: Instant)
    ensures
        wait.since(now, false) is None,
        wait.since(now, true) == Some(
            match wait.connected_since {
                Some(since) => since,
                None => now,
            },
        ),
        !wait.lasted(now, false),
        wait.lasted(now, true) <==> (wait.connected_since matches Some(since) && since@
            + 10_000_000_000 <= now@),
        now@ >= wait.started@ ==> (wait.is_over(now) <==> wait.started@ + wait.timeout@ <= now@),
        now@ < wait.started@ ==> !wait.is_over(now),
{
}

/// A connection that was there at every look over ten seconds ends the wait.
pub proof fn lasting_connection_ends_the_wait(wait: ConnectionWait, looks: Seq<Look>, start: int)
    requires
        wait.connected_since is None,
        connected_from(looks, start),
        forall|i: int, j: int| 0 <= i <= j < looks.len() ==> looks[i].now@ <= looks[j].now@,
        looks.last().now@ - looks[start].now@ >= 10_000_000_000,
    ensures
        wait.after_looks(looks.drop_last()).lasted(looks.last().now, looks.last().connected),
{
    lemma_connected_since_start(wait, looks, start);
    assert(looks[looks.len() - 1].connected);
    assert(looks[start].now@ <= looks[looks.len() - 1].now@);
    let earlier = looks.drop_last();
    assert(earlier[start] == looks[start]);
    assert forall|i: int| start <= i < earlier.len() implies (#[trigger] earlier[i]).connected by {
        assert(looks[i].connected);
    }
    assert forall|i: int, j: int| 0 <= i <= j < earlier.len() implies earlier[i].now@
        <= earlier[j].now@ by {
        assert(looks[i].now@ <= looks[j].now@);
    }
    lemma_connected_since_start(wait, earlier, start);
}

proof fn lemma_connected_since_start(wait: ConnectionWait, looks: Seq<Look>, start: int)
    requires
        wait.connected_since is None,
        connected_from(looks, start),
        forall|i: int, j: int| 0 <= i <= j < looks.len() ==> looks[i].now@ <= looks[j].now@,
    ensures
        wait.after_looks(looks).connected_since matches Some(since) && since@ <= looks[start].now@,
    decreases looks.len(),
{
    let earlier = looks.drop_last();
    assert(looks[looks.len() - 1].connected);
    if start < looks.len() - 1 {
        assert forall|i: int| start <= i < earlier.len() implies (
        #[trigger] earlier[i]).connected by {
            assert(looks[i].connected);
        }
        assert forall|i: int, j: int| 0 <= i <= j < earlier.len() implies earlier[i].now@
            <= earlier[j].now@ by {
            assert(looks[i].now@ <= looks[j].now@);
        }
        lemma_connected_since_start(wait, earlier, start);
        assert(earlier[start] == looks[start]);
    } else if wait.after_looks(earlier).connected_since is Some {
        let first = lemma_connected_since(wait, earlier);
        assert(earlier[first] == looks[first]);
        assert(looks[first].now@ <= looks[start].now@);
    }
}

/// How the wait for a connection ends: at once when it was superseded, well when the connection was
/// there for ten seconds, even at the very end of the time, and with a timeout when the time is over
/// without that. Until then it goes on, for the same time from the same start.
pub proof fn wait_ends_for_one_of_three_reasons(
    wait: ConnectionWait,
    now: Instant,
    superseded: bool,
    connected: bool,
)
    requires
        wait.started@ <= now@,
    ensures
        ({
            let (next, end) = wait.polled(now, superseded, connected);
            let stable = connected && (wait.connected_since matches Some(since) && since@
                + 10_000_000_000 <= now@);
            let late = wait.started@ + wait.timeout@ <= now@;
            &&& end == Some(Err::<(), RecoveryFailure>(RecoveryFailure::RecoverySuperseded))
                <==> superseded
            &&& end == Some(Ok::<(), RecoveryFailure>(())) <==> !superseded && stable
            &&& end == Some(
                Err::<(), RecoveryFailure>(RecoveryFailure::VirtualDesktopConnectionTimeout),
            ) <==> !superseded && !stable && late
            &&& end is None <==> !superseded && !stable && !late
            &&& next.started == wait.started && next.timeout == wait.timeout
            &&& !superseded && !connected ==> next.connected_since is None
            &&& !superseded && connected && wait.connected_since is None ==> next.connected_since
                == Some(now)
            &&& connected && wait.connected_since is Some ==> next.connected_since
                == wait.connected_since
        }),
{
}

/// The names under which failures are reported.
pub proof fn failures_have_their_names()
    ensures
        RecoveryFailure::AndroidRestart.name() == "android_restart"@,
        RecoveryFailure::MappingRebuild.name() == "mapping_rebuild"@,
        RecoveryFailure::RecoveryTask.name() == "recovery_task"@,
        RecoveryFailure::RecoverySuperseded.name() == "recovery_superseded"@,
        RecoveryFailure::VirtualDesktopStop.name() == "virtual_desktop_stop"@,
        RecoveryFailure::VirtualDesktopStopTask.name() == "virtual_desktop_stop_task"@,
        RecoveryFailure::VirtualDesktopServiceRecovery.name()
            == "virtual_desktop_service_recovery"@,
        RecoveryFailure::VirtualDesktopServiceRecoveryTask.name()
            == "virtual_desktop_service_recovery_task"@,
        RecoveryFailure::VirtualDesktopRestart.name() == "virtual_desktop_restart"@,
        RecoveryFailure::VirtualDesktopRestartTask.name() == "virtual_desktop_restart_task"@,
        RecoveryFailure::VirtualDesktopConnectionTimeout.name()
            == "virtual_desktop_connection_timeout"@,
{
}

/// Once the monitor is stopping, nothing is told to the device or to the host's service any more:
/// neither the service nor the mappings are brought back, and Virtual Desktop is neither stopped nor
/// started, nor its service restarted. A launch under way ends where the next command would follow.
#[verifier::spinoff_prover]
#[verifier::rlimit(30)]
pub proof fn stop_leaves_commands_out(
    monitor: MonitorModel,
    gate: RelayGateController,
    step: RecoverStep,
    completion: CompletionStep,
    attempt: RecoveryAttempt,
    relaunch: Relaunch,
)
    requires
        monitor.stopping,
    ensures
        ({
            let rebuilding = recover_next(monitor, gate, step).2;
            let completing = completion_next(monitor, completion).1;
            let outcome = WorkOutcome::Succeeded;
            let done = (monitor, CompletionAction::Done);
            &&& rebuilding !is RestartAndroid && rebuilding !is ReinstallMappings
            &&& completing !is StopVirtualDesktop && completing !is RestartService && completing
                !is RestartVirtualDesktop
            &&& recover_next(monitor, gate, RecoverStep::OperationAcquired(attempt)) == (
                monitor,
                gate,
                RecoverAction::Done,
            )
            &&& completion_next(monitor, CompletionStep::OperationAcquired(attempt)) == done
            &&& completion_next(monitor, CompletionStep::Stopped { relaunch, outcome }) == done
            &&& completion_next(monitor, CompletionStep::ServiceRestarted { relaunch, outcome })
                == done
        }),
{
}

} // verus!
