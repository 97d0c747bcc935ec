//! The monitor of the ADB carrier: what it knows, and how each occurrence changes that.
use crate::recovery::{
    RecoveryAttempt, RecoveryEvent, TransportRecoverySnapshot, TransportRecoveryState,
    TransportRecoveryTrigger, TRANSPORT_RECOVERY_MAX_ATTEMPTS,
};
use crate::relay::successor;
use crate::state::clone_text;
use crate::time::Duration;
use std::collections::HashSet;
use vstd::prelude::*;

verus! {

broadcast use vstd::std_specs::hash::group_hash_axioms;

/// What the monitor of the ADB carrier reports.
#[derive(Debug)]
pub struct AdbMonitorSnapshot {
    pub active: bool,
    pub repair_suppressed: bool,
    pub device_available: bool,
    pub mappings_healthy: bool,
    pub reconnect_generation: u64,
    pub mapping_probe_count: u64,
    pub mapping_probe_last_us: u64,
    pub mapping_probe_max_us: u64,
    pub transport_recovery: TransportRecoverySnapshot,
    pub last_error: Option<String>,
}

impl Clone for AdbMonitorSnapshot {
    fn clone(&self) -> (copy: Self)
        ensures
            copy == *self,
    {
        AdbMonitorSnapshot {
            active: self.active,
            repair_suppressed: self.repair_suppressed,
            device_available: self.device_available,
            mappings_healthy: self.mappings_healthy,
            reconnect_generation: self.reconnect_generation,
            mapping_probe_count: self.mapping_probe_count,
            mapping_probe_last_us: self.mapping_probe_last_us,
            mapping_probe_max_us: self.mapping_probe_max_us,
            transport_recovery: self.transport_recovery,
            last_error: clone_text(&self.last_error),
        }
    }
}

/// The mathematical model of an [`AdbMonitorSnapshot`].
#[verifier::ext_equal]
pub struct StatusModel {
    pub active: bool,
    pub repair_suppressed: bool,
    pub device_available: bool,
    pub mappings_healthy: bool,
    pub reconnect_generation: u64,
    pub mapping_probe_count: u64,
    pub mapping_probe_last_us: u64,
    pub mapping_probe_max_us: u64,
    pub transport_recovery: TransportRecoverySnapshot,
    pub last_error: Option<Seq<char>>,
}

/// The characters of an optional text.
pub open spec fn text_model(text: Option<String>) -> Option<Seq<char>> {
    match text {
        Some(text) => Some(text@),
        None => None,
    }
}

/// The characters of an optional text.
pub open spec fn str_model(text: Option<&str>) -> Option<Seq<char>> {
    match text {
        Some(text) => Some(text@),
        None => None,
    }
}

impl View for AdbMonitorSnapshot {
    type V = StatusModel;

    open spec fn view(&self) -> StatusModel {
        StatusModel {
            active: self.active,
            repair_suppressed: self.repair_suppressed,
            device_available: self.device_available,
            mappings_healthy: self.mappings_healthy,
            reconnect_generation: self.reconnect_generation,
            mapping_probe_count: self.mapping_probe_count,
            mapping_probe_last_us: self.mapping_probe_last_us,
            mapping_probe_max_us: self.mapping_probe_max_us,
            transport_recovery: self.transport_recovery,
            last_error: text_model(self.last_error),
        }
    }
}

impl AdbMonitorSnapshot {
    /// Whether two reports say the same.
    pub fn same_as(&self, other: &AdbMonitorSnapshot) -> (same: bool)
        ensures
            same == (self@ == other@),
    {
        let same_error = match (&self.last_error, &other.last_error) {
            (Some(left), Some(right)) => *left == *right,
            (None, None) => true,
            _ => false,
        };
        same_error && self.active == other.active && self.repair_suppressed
            == other.repair_suppressed && self.device_available == other.device_available
            && self.mappings_healthy == other.mappings_healthy && self.reconnect_generation
            == other.reconnect_generation && self.mapping_probe_count == other.mapping_probe_count
            && self.mapping_probe_last_us == other.mapping_probe_last_us
            && self.mapping_probe_max_us == other.mapping_probe_max_us && self.transport_recovery
            == other.transport_recovery
    }
}

/// Who is to be told that the monitor changed.
#[derive(Clone, Copy, Debug, PartialEq, Eq, Structural)]
pub struct WakeRequests {
    /// One waiting task, or the next one that waits.
    pub one: bool,
    /// Every task that waits now.
    pub all: bool,
}

/// A recovery that failed is to be set off again once `delay` has passed.
#[derive(Clone, Copy, Debug, PartialEq, Eq, Structural)]
pub struct RearmTimer {
    pub generation: u64,
    pub trigger: TransportRecoveryTrigger,
    pub delay: Duration,
}

/// The monitor of the ADB carrier.
pub struct AdbHealthMonitor {
    pub stopping: bool,
    pub authenticated_reconcile: bool,
    pub reconnect_generation: u64,
    pub mapping_probe_count: u64,
    pub mapping_probe_last_us: u64,
    pub mapping_probe_max_us: u64,
    pub transport_recovery: TransportRecoverySnapshot,
    /// The generation that was set off by re-arming, zero when there is none.
    pub transport_auto_rearm_generation: u64,
    /// The generations that a [`RearmTimer`] runs for.
    pub transport_rearm_scheduled: HashSet<u64>,
    pub usb_reconnect_pending: bool,
    pub status: AdbMonitorSnapshot,
    pub wake: WakeRequests,
}

/// The mathematical model of an [`AdbHealthMonitor`].
#[verifier::ext_equal]
pub struct MonitorModel {
    pub stopping: bool,
    pub authenticated_reconcile: bool,
    pub reconnect_generation: u64,
    pub mapping_probe_count: u64,
    pub mapping_probe_last_us: u64,
    pub mapping_probe_max_us: u64,
    pub transport_recovery: TransportRecoverySnapshot,
    pub transport_auto_rearm_generation: u64,
    pub transport_rearm_scheduled: Set<u64>,
    pub usb_reconnect_pending: bool,
    pub status: StatusModel,
    pub wake: WakeRequests,
}

impl View for AdbHealthMonitor {
    type V = MonitorModel;

    open spec fn view(&self) -> MonitorModel {
        MonitorModel {
            stopping: self.stopping,
            authenticated_reconcile: self.authenticated_reconcile,
            reconnect_generation: self.reconnect_generation,
            mapping_probe_count: self.mapping_probe_count,
            mapping_probe_last_us: self.mapping_probe_last_us,
            mapping_probe_max_us: self.mapping_probe_max_us,
            transport_recovery: self.transport_recovery,
            transport_auto_rearm_generation: self.transport_auto_rearm_generation,
            transport_rearm_scheduled: self.transport_rearm_scheduled@,
            usb_reconnect_pending: self.usb_reconnect_pending,
            status: self.status@,
            wake: self.wake,
        }
    }
}

/// `micros` as far as a counter holds it.
pub open spec fn clamped_micros(micros: int) -> u64 {
    if micros > u64::MAX {
        u64::MAX
    } else {
        micros as u64
    }
}

impl MonitorModel {
    /// The monitor before anything happened.
    pub open spec fn fresh() -> MonitorModel {
        let recovery = TransportRecoverySnapshot {
            generation: 0,
            attempt: 0,
            state: TransportRecoveryState::Idle,
            trigger: None,
        };
        MonitorModel {
            stopping: false,
            authenticated_reconcile: false,
            reconnect_generation: 0,
            mapping_probe_count: 0,
            mapping_probe_last_us: 0,
            mapping_probe_max_us: 0,
            transport_recovery: recovery,
            transport_auto_rearm_generation: 0,
            transport_rearm_scheduled: Set::empty(),
            usb_reconnect_pending: false,
            status: StatusModel {
                active: false,
                repair_suppressed: false,
                device_available: false,
                mappings_healthy: false,
                reconnect_generation: 0,
                mapping_probe_count: 0,
                mapping_probe_last_us: 0,
                mapping_probe_max_us: 0,
                transport_recovery: recovery,
                last_error: None,
            },
            wake: WakeRequests { one: false, all: false },
        }
    }

    /// What the monitor reports: its status with the current counters.
    pub open spec fn report(self) -> StatusModel {
        StatusModel {
            repair_suppressed: self.stopping,
            reconnect_generation: self.reconnect_generation,
            mapping_probe_count: self.mapping_probe_count,
            mapping_probe_last_us: self.mapping_probe_last_us,
            mapping_probe_max_us: self.mapping_probe_max_us,
            transport_recovery: self.transport_recovery,
            ..self.status
        }
    }

    /// The monitor with one task to be woken.
    pub open spec fn waking_one(self) -> MonitorModel {
        MonitorModel { wake: WakeRequests { one: true, ..self.wake }, ..self }
    }

    /// The monitor with its recovery after `event`.
    pub open spec fn recovering(self, event: RecoveryEvent) -> MonitorModel {
        MonitorModel { transport_recovery: self.transport_recovery.after(event), ..self }
    }

    /// The monitor with its status brought up to the recovery. Mappings are not healthy while
    /// they have to be rebuilt.
    pub open spec fn synced(self, last_error: Option<Seq<char>>) -> MonitorModel {
        MonitorModel {
            status: StatusModel {
                transport_recovery: self.transport_recovery,
                last_error,
                mappings_healthy: self.status.mappings_healthy
                    && !self.transport_recovery.state.requires_recovery(),
                ..self.status
            },
            ..self
        }
    }

    /// A recovery was set off from outside.
    pub open spec fn triggered(self, trigger: TransportRecoveryTrigger) -> MonitorModel {
        MonitorModel { transport_auto_rearm_generation: 0, ..self }.recovering(
            RecoveryEvent::Triggered(trigger),
        ).synced(Some("transport_recovery_pending"@)).waking_one()
    }

    /// The host resumed: that takes the place of a reconnect that was still pending.
    pub open spec fn host_resumed(self) -> MonitorModel {
        MonitorModel { usb_reconnect_pending: false, ..self }.triggered(
            TransportRecoveryTrigger::HostResume,
        )
    }

    /// The failed recovery of `generation` may be set off again: once, and not while stopping.
    pub open spec fn can_rearm(self, generation: u64) -> bool {
        &&& !self.stopping
        &&& self.transport_auto_rearm_generation != generation
        &&& self.transport_recovery.generation == generation
        &&& self.transport_recovery.state == TransportRecoveryState::Failed
    }

    /// The failed recovery of `generation` was set off again, if it may be.
    pub open spec fn rearmed(
        self,
        generation: u64,
        trigger: TransportRecoveryTrigger,
    ) -> MonitorModel {
        if self.can_rearm(generation) {
            let again = self.recovering(RecoveryEvent::Triggered(trigger));
            MonitorModel {
                transport_auto_rearm_generation: again.transport_recovery.generation,
                ..again
            }.synced(Some("transport_recovery_rearmed"@)).waking_one()
        } else {
            self
        }
    }

    /// A timer may start for setting the recovery of `generation` off again.
    pub open spec fn can_schedule_rearm(self, generation: u64) -> bool {
        self.transport_auto_rearm_generation != generation
            && !self.transport_rearm_scheduled.contains(generation)
    }

    /// A timer was asked for.
    pub open spec fn rearm_scheduled(self, generation: u64) -> MonitorModel {
        if self.can_schedule_rearm(generation) {
            MonitorModel {
                transport_rearm_scheduled: self.transport_rearm_scheduled.insert(generation),
                ..self
            }
        } else {
            self
        }
    }

    /// The timer of `generation` ran out.
    pub open spec fn rearm_due(
        self,
        generation: u64,
        trigger: TransportRecoveryTrigger,
    ) -> MonitorModel {
        MonitorModel {
            transport_rearm_scheduled: self.transport_rearm_scheduled.remove(generation),
            ..self
        }.rearmed(generation, trigger)
    }

    /// There is no device to recover with.
    pub open spec fn awaiting_device(self) -> MonitorModel {
        self.recovering(RecoveryEvent::DeviceAwaited).synced(
            Some("transport_recovery_waiting_for_device"@),
        )
    }

    /// An attempt was to begin.
    pub open spec fn attempt_begun(self) -> MonitorModel {
        let begun = self.recovering(RecoveryEvent::AttemptBegun);
        if self.transport_recovery.can_begin() && self.transport_recovery.trigger is Some {
            begun.synced(Some("transport_recovery_rebuilding"@))
        } else {
            begun
        }
    }

    /// The mappings of `generation` were rebuilt, or not.
    pub open spec fn attempt_finished(self, generation: u64, succeeded: bool) -> MonitorModel {
        if self.transport_recovery.generation != generation {
            self
        } else {
            self.recovering(RecoveryEvent::AttemptFinished(generation, succeeded)).synced(
                if succeeded {
                    None
                } else if self.transport_recovery.can_retry() {
                    Some("transport_recovery_retry"@)
                } else {
                    Some("transport_recovery_failed"@)
                },
            )
        }
    }

    /// Virtual Desktop was to be restarted.
    pub open spec fn restart_begun(self) -> MonitorModel {
        let begun = self.recovering(RecoveryEvent::RestartBegun);
        if self.transport_recovery.state == TransportRecoveryState::AwaitingControl
            && self.transport_recovery.trigger is Some {
            begun.synced(Some("transport_recovery_restarting_virtual_desktop"@))
        } else {
            begun
        }
    }

    /// The restart of Virtual Desktop succeeded, or not.
    pub open spec fn restart_finished(
        self,
        generation: u64,
        attempt: u32,
        succeeded: bool,
    ) -> MonitorModel {
        if !self.transport_recovery.restarts(generation, attempt) {
            self
        } else {
            self.recovering(
                RecoveryEvent::RestartFinished(generation, attempt, succeeded),
            ).synced(
                if succeeded {
                    None
                } else if self.transport_recovery.can_retry() {
                    Some("transport_recovery_virtual_desktop_retry"@)
                } else {
                    Some("transport_recovery_virtual_desktop_failed"@)
                },
            )
        }
    }

    /// The wait for the control connection is over.
    pub open spec fn control_expired(self, generation: u64, attempt: u32) -> MonitorModel {
        if !self.transport_recovery.awaits_control(generation, attempt) {
            self
        } else {
            let expired = self.recovering(RecoveryEvent::ControlExpired(generation, attempt));
            if self.transport_recovery.can_retry() {
                expired.synced(Some("transport_recovery_control_retry"@)).waking_one()
            } else {
                expired.synced(Some("transport_recovery_control_failed"@))
            }
        }
    }

    /// The loss of the device counts as the start of a reconnect, unless the recovery from a
    /// resume is still to rebuild the mappings anyway.
    pub open spec fn usb_disconnected(self) -> MonitorModel {
        if self.transport_recovery.trigger == Some(TransportRecoveryTrigger::HostResume)
            && self.transport_recovery.state.requires_recovery() {
            self
        } else {
            MonitorModel { usb_reconnect_pending: true, ..self }
        }
    }

    /// The device is there: a pending reconnect sets a recovery off.
    pub open spec fn usb_reconnected(self) -> MonitorModel {
        if self.usb_reconnect_pending {
            MonitorModel { usb_reconnect_pending: false, ..self }.triggered(
                TransportRecoveryTrigger::UsbReconnect,
            )
        } else {
            self
        }
    }

    /// A probe of the mappings took `micros` microseconds.
    pub open spec fn probed(self, micros: int) -> MonitorModel {
        let micros = clamped_micros(micros);
        MonitorModel {
            mapping_probe_count: successor(self.mapping_probe_count),
            mapping_probe_last_us: micros,
            mapping_probe_max_us: if micros > self.mapping_probe_max_us {
                micros
            } else {
                self.mapping_probe_max_us
            },
            ..self
        }
    }

    /// A repair of the carrier was counted.
    pub open spec fn reconnect_counted(self) -> MonitorModel {
        MonitorModel { reconnect_generation: successor(self.reconnect_generation), ..self }
    }

    /// The control connection was authenticated: there is an order to reconcile in any case.
    pub open spec fn authenticated(self) -> MonitorModel {
        MonitorModel { authenticated_reconcile: true, ..self }.waking_one()
    }

    /// The order to reconcile in any case was taken.
    pub open spec fn order_taken(self) -> MonitorModel {
        MonitorModel { authenticated_reconcile: false, ..self }
    }

    /// The order to reconcile was carried out without success and is to be renewed.
    pub open spec fn renews_order(self) -> bool {
        !self.stopping && !self.status.mappings_healthy
    }

    /// The order to reconcile was renewed, if it is to be.
    pub open spec fn order_renewed(self) -> MonitorModel {
        MonitorModel {
            authenticated_reconcile: self.renews_order() || self.authenticated_reconcile,
            ..self
        }
    }

    /// The requests to wake tasks were taken.
    pub open spec fn wakes_taken(self) -> MonitorModel {
        MonitorModel { wake: WakeRequests { one: false, all: false }, ..self }
    }

    /// Repairs are not wanted any more.
    pub open spec fn suppressed(self) -> MonitorModel {
        MonitorModel {
            stopping: true,
            status: StatusModel { active: false, repair_suppressed: true, ..self.status },
            wake: WakeRequests { all: true, ..self.wake },
            ..self
        }
    }

    /// The status was set, with the current counters.
    pub open spec fn with_status(
        self,
        active: bool,
        device_available: bool,
        mappings_healthy: bool,
        last_error: Option<Seq<char>>,
    ) -> MonitorModel {
        MonitorModel {
            status: StatusModel {
                active,
                device_available,
                mappings_healthy,
                last_error,
                ..self.report()
            },
            ..self
        }
    }
}

/// A copy of an optional text.
fn own_text(text: Option<&str>) -> (copy: Option<String>)
    ensures
        text_model(copy) == str_model(text),
{
    match text {
        Some(text) => Some(text.to_owned()),
        None => None,
    }
}

impl Default for AdbHealthMonitor {
    fn default() -> (monitor: Self)
        ensures
            monitor@ == MonitorModel::fresh(),
    {
        AdbHealthMonitor {
            stopping: false,
            authenticated_reconcile: false,
            reconnect_generation: 0,
            mapping_probe_count: 0,
            mapping_probe_last_us: 0,
            mapping_probe_max_us: 0,
            transport_recovery: TransportRecoverySnapshot::default(),
            transport_auto_rearm_generation: 0,
            transport_rearm_scheduled: HashSet::new(),
            usb_reconnect_pending: false,
            status: AdbMonitorSnapshot::default(),
            wake: WakeRequests { one: false, all: false },
        }
    }
}

impl Default for AdbMonitorSnapshot {
    fn default() -> (snapshot: Self)
        ensures
            snapshot@ == MonitorModel::fresh().status,
    {
        AdbMonitorSnapshot {
            active: false,
            repair_suppressed: false,
            device_available: false,
            mappings_healthy: false,
            reconnect_generation: 0,
            mapping_probe_count: 0,
            mapping_probe_last_us: 0,
            mapping_probe_max_us: 0,
            transport_recovery: TransportRecoverySnapshot::default(),
            last_error: None,
        }
    }
}

impl AdbHealthMonitor {
    /// What the monitor reports.
    pub fn snapshot(&self) -> (snapshot: AdbMonitorSnapshot)
        ensures
            snapshot@ == self@.report(),
    {
        AdbMonitorSnapshot {
            active: self.status.active,
            repair_suppressed: self.stopping,
            device_available: self.status.device_available,
            mappings_healthy: self.status.mappings_healthy,
            reconnect_generation: self.reconnect_generation,
            mapping_probe_count: self.mapping_probe_count,
            mapping_probe_last_us: self.mapping_probe_last_us,
            mapping_probe_max_us: self.mapping_probe_max_us,
            transport_recovery: self.transport_recovery,
            last_error: clone_text(&self.status.last_error),
        }
    }

    pub fn transport_recovery_snapshot(&self) -> (recovery: TransportRecoverySnapshot)
        ensures
            recovery == self@.transport_recovery,
    {
        self.transport_recovery
    }

    fn sync_transport_recovery_status(&mut self, last_error: Option<&str>)
        ensures
            final(self)@ == old(self)@.synced(str_model(last_error)),
    {
        self.status.transport_recovery = self.transport_recovery;
        self.status.last_error = own_text(last_error);
        if self.transport_recovery.state.is_recovery_required() {
            self.status.mappings_healthy = false;
        }
    }

    /// Takes the requests to wake tasks that have come up since the last call.
    pub fn take_wake_requests(&mut self) -> (requests: WakeRequests)
        ensures
            requests == old(self)@.wake,
            final(self)@ == old(self)@.wakes_taken(),
    {
        let requests = self.wake;
        self.wake = WakeRequests { one: false, all: false };
        requests
    }

    /// The host resumed from sleep. Returns the generation of the recovery that this sets off.
    pub fn notify_host_resume(&mut self) -> (generation: u64)
        ensures
            final(self)@ == old(self)@.host_resumed(),
            generation == final(self)@.transport_recovery.generation,
    {
        self.usb_reconnect_pending = false;
        self.notify_transport_recovery(TransportRecoveryTrigger::HostResume)
    }

    /// Sets a recovery off and returns its generation.
    pub fn notify_transport_recovery(&mut self, trigger: TransportRecoveryTrigger) -> (generation:
        u64)
        ensures
            final(self)@ == old(self)@.triggered(trigger),
            generation == final(self)@.transport_recovery.generation,
    {
        self.transport_auto_rearm_generation = 0;
        self.transport_recovery = TransportRecoverySnapshot {
            generation: self.transport_recovery.generation.wrapping_add(1),
            attempt: 0,
            state: TransportRecoveryState::Pending,
            trigger: Some(trigger),
        };
        self.sync_transport_recovery_status(Some("transport_recovery_pending"));
        self.wake.one = true;
        self.transport_recovery.generation
    }

    /// Sets the failed recovery of `generation` off again, unless that was done once already, it
    /// has moved on, or the monitor is stopping. Returns the new generation.
    pub fn rearm_failed_transport(
        &mut self,
        generation: u64,
        trigger: TransportRecoveryTrigger,
    ) -> (next_generation: Option<u64>)
        ensures
            final(self)@ == old(self)@.rearmed(generation, trigger),
            next_generation == if old(self)@.can_rearm(generation) {
                Some(successor(generation))
            } else {
                None
            },
    {
        if self.stopping || self.transport_auto_rearm_generation == generation {
            return None;
        }
        if self.transport_recovery.generation != generation || self.transport_recovery.state
            != TransportRecoveryState::Failed {
            return None;
        }
        self.transport_recovery = TransportRecoverySnapshot {
            generation: self.transport_recovery.generation.wrapping_add(1),
            attempt: 0,
            state: TransportRecoveryState::Pending,
            trigger: Some(trigger),
        };
        self.transport_auto_rearm_generation = self.transport_recovery.generation;
        self.sync_transport_recovery_status(Some("transport_recovery_rearmed"));
        self.wake.one = true;
        Some(self.transport_recovery.generation)
    }

    /// Asks for a timer of half a minute that sets the failed recovery off again.
    pub fn schedule_transport_recovery_rearm(
        &mut self,
        generation: u64,
        trigger: TransportRecoveryTrigger,
    ) -> (timer: Option<RearmTimer>)
        ensures
            final(self)@ == old(self)@.rearm_scheduled(generation),
            timer is Some == old(self)@.can_schedule_rearm(generation),
            timer matches Some(timer) ==> timer.generation == generation && timer.trigger
                == trigger && timer.delay@ == 30_000_000_000,
    {
        self.schedule_transport_recovery_rearm_after(generation, trigger, Duration::from_secs(30))
    }

    /// Asks for a timer that sets the failed recovery off again. There is none when one runs
    /// already, or when this generation was itself set off again.
    pub fn schedule_transport_recovery_rearm_after(
        &mut self,
        generation: u64,
        trigger: TransportRecoveryTrigger,
        delay: Duration,
    ) -> (timer: Option<RearmTimer>)
        ensures
            final(self)@ == old(self)@.rearm_scheduled(generation),
            timer == if old(self)@.can_schedule_rearm(generation) {
                Some(RearmTimer { generation, trigger, delay })
            } else {
                None
            },
    {
        if self.transport_auto_rearm_generation == generation {
            return None;
        }
        if !self.transport_rearm_scheduled.insert(generation) {
            assert(self@ =~= old(self)@);
            return None;
        }
        Some(RearmTimer { generation, trigger, delay })
    }

    /// The timer ran out. Returns the new generation when the recovery was set off again.
    pub fn transport_rearm_due(&mut self, timer: &RearmTimer) -> (next_generation: Option<u64>)
        ensures
            final(self)@ == old(self)@.rearm_due(timer.generation, timer.trigger),
            next_generation == if old(self)@.can_rearm(timer.generation) {
                Some(successor(timer.generation))
            } else {
                None
            },
    {
        let _ = self.transport_rearm_scheduled.remove(&timer.generation);
        self.rearm_failed_transport(timer.generation, timer.trigger)
    }

    pub fn transport_requires_recovery(&self) -> (result: bool)
        ensures
            result == self@.transport_recovery.state.requires_recovery(),
    {
        self.transport_recovery.state.is_recovery_required()
    }

    /// The recovery has to wait for a device and starts over once there is one.
    pub fn wait_for_recovery_device(&mut self)
        ensures
            final(self)@ == old(self)@.awaiting_device(),
    {
        self.transport_recovery.attempt = 0;
        self.transport_recovery.state = TransportRecoveryState::WaitingForDevice;
        self.sync_transport_recovery_status(Some("transport_recovery_waiting_for_device"));
    }

    /// Begins an attempt, if one may begin.
    pub fn begin_transport_recovery_attempt(&mut self) -> (attempt: Option<RecoveryAttempt>)
        ensures
            final(self)@ == old(self)@.attempt_begun(),
            attempt == if old(self)@.transport_recovery.can_begin() {
                final(self)@.transport_recovery.current_attempt()
            } else {
                None
            },
    {
        if !matches!(
            self.transport_recovery.state,
            TransportRecoveryState::Pending | TransportRecoveryState::WaitingForDevice
        ) || self.transport_recovery.attempt >= TRANSPORT_RECOVERY_MAX_ATTEMPTS {
            return None;
        }
        self.transport_recovery.attempt = self.transport_recovery.attempt + 1;
        self.transport_recovery.state = TransportRecoveryState::RebuildingMappings;
        let attempt = self.transport_recovery.attempt_under_way();
        if attempt.is_some() {
            self.sync_transport_recovery_status(Some("transport_recovery_rebuilding"));
        }
        attempt
    }

    /// Ends the rebuilding of the mappings. Returns whether there is to be another attempt.
    pub fn finish_transport_recovery_attempt(&mut self, generation: u64, succeeded: bool) -> (retry:
        bool)
        ensures
            final(self)@ == old(self)@.attempt_finished(generation, succeeded),
            retry == (old(self)@.transport_recovery.generation == generation && !succeeded && old(
                self,
            )@.transport_recovery.can_retry()),
    {
        if self.transport_recovery.generation != generation {
            return false;
        }
        if succeeded {
            self.transport_recovery.state = TransportRecoveryState::AwaitingControl;
            self.sync_transport_recovery_status(None);
            false
        } else if self.transport_recovery.attempt < TRANSPORT_RECOVERY_MAX_ATTEMPTS {
            self.transport_recovery.state = TransportRecoveryState::Pending;
            self.sync_transport_recovery_status(Some("transport_recovery_retry"));
            true
        } else {
            self.transport_recovery.state = TransportRecoveryState::Failed;
            self.sync_transport_recovery_status(Some("transport_recovery_failed"));
            false
        }
    }

    /// Begins the restart of Virtual Desktop, if the recovery waits for the control connection.
    pub fn begin_virtual_desktop_restart(&mut self) -> (attempt: Option<RecoveryAttempt>)
        ensures
            final(self)@ == old(self)@.restart_begun(),
            attempt == if old(self)@.transport_recovery.state
                == TransportRecoveryState::AwaitingControl {
                final(self)@.transport_recovery.current_attempt()
            } else {
                None
            },
    {
        if self.transport_recovery.state != TransportRecoveryState::AwaitingControl {
            return None;
        }
        self.transport_recovery.state = TransportRecoveryState::RestartingVirtualDesktop;
        let attempt = self.transport_recovery.attempt_under_way();
        if attempt.is_some() {
            self.sync_transport_recovery_status(
                Some("transport_recovery_restarting_virtual_desktop"),
            );
        }
        attempt
    }

    /// Ends the restart of Virtual Desktop. Returns whether there is to be another attempt, and
    /// nothing when the restart was not, or no longer, under way.
    pub fn finish_virtual_desktop_restart(
        &mut self,
        generation: u64,
        attempt: u32,
        succeeded: bool,
    ) -> (retry: Option<bool>)
        ensures
            final(self)@ == old(self)@.restart_finished(generation, attempt, succeeded),
            retry == if old(self)@.transport_recovery.restarts(generation, attempt) {
                Some(!succeeded && old(self)@.transport_recovery.can_retry())
            } else {
                None
            },
    {
        if self.transport_recovery.generation != generation || self.transport_recovery.attempt
            != attempt || self.transport_recovery.state
            != TransportRecoveryState::RestartingVirtualDesktop {
            return None;
        }
        if succeeded {
            self.transport_recovery.state = TransportRecoveryState::Recovered;
            self.sync_transport_recovery_status(None);
            Some(false)
        } else if self.transport_recovery.attempt < TRANSPORT_RECOVERY_MAX_ATTEMPTS {
            self.transport_recovery.state = TransportRecoveryState::Pending;
            self.sync_transport_recovery_status(Some("transport_recovery_virtual_desktop_retry"));
            Some(true)
        } else {
            self.transport_recovery.state = TransportRecoveryState::Failed;
            self.sync_transport_recovery_status(Some("transport_recovery_virtual_desktop_failed"));
            Some(false)
        }
    }

    /// The control connection did not come in time. Returns whether there is to be another
    /// attempt, and nothing when it was not, or no longer, waited for.
    pub fn expire_transport_recovery_control(&mut self, generation: u64, attempt: u32) -> (retry:
        Option<bool>)
        ensures
            final(self)@ == old(self)@.control_expired(generation, attempt),
            retry == if old(self)@.transport_recovery.awaits_control(generation, attempt) {
                Some(old(self)@.transport_recovery.can_retry())
            } else {
                None
            },
    {
        if self.transport_recovery.generation != generation || self.transport_recovery.attempt
            != attempt || self.transport_recovery.state != TransportRecoveryState::AwaitingControl {
            return None;
        }
        if self.transport_recovery.attempt < TRANSPORT_RECOVERY_MAX_ATTEMPTS {
            self.transport_recovery.state = TransportRecoveryState::Pending;
            self.sync_transport_recovery_status(Some("transport_recovery_control_retry"));
            self.wake.one = true;
            Some(true)
        } else {
            self.transport_recovery.state = TransportRecoveryState::Failed;
            self.sync_transport_recovery_status(Some("transport_recovery_control_failed"));
            Some(false)
        }
    }

    pub fn note_usb_disconnected(&mut self)
        ensures
            final(self)@ == old(self)@.usb_disconnected(),
    {
        let resuming = match self.transport_recovery.trigger {
            Some(TransportRecoveryTrigger::HostResume) => true,
            _ => false,
        };
        if !resuming || !self.transport_requires_recovery() {
            self.usb_reconnect_pending = true;
        }
    }

    /// The device is there. Returns whether that sets a recovery off.
    pub fn notify_usb_reconnected_if_needed(&mut self) -> (notified: bool)
        ensures
            final(self)@ == old(self)@.usb_reconnected(),
            notified == old(self)@.usb_reconnect_pending,
    {
        if !self.usb_reconnect_pending {
            return false;
        }
        self.usb_reconnect_pending = false;
        let _ = self.notify_transport_recovery(TransportRecoveryTrigger::UsbReconnect);
        true
    }

    /// Counts a probe of the mappings.
    pub fn record_mapping_probe(&mut self, duration: Duration)
        ensures
            final(self)@ == old(self)@.probed(duration@ / 1000),
    {
        let micros = duration.as_micros();
        let duration_us: u64 = if micros > u64::MAX as u128 {
            u64::MAX
        } else {
            micros as u64
        };
        self.mapping_probe_count = self.mapping_probe_count.wrapping_add(1);
        self.mapping_probe_last_us = duration_us;
        if duration_us > self.mapping_probe_max_us {
            self.mapping_probe_max_us = duration_us;
        }
    }

    /// Counts a repair of the carrier and returns its number.
    pub fn count_reconnect(&mut self) -> (generation: u64)
        ensures
            final(self)@ == old(self)@.reconnect_counted(),
            generation == if old(self)@.reconnect_generation == u64::MAX {
                u64::MAX
            } else {
                (old(self)@.reconnect_generation + 1) as u64
            },
    {
        let generation = self.reconnect_generation.saturating_add(1);
        self.reconnect_generation = self.reconnect_generation.wrapping_add(1);
        generation
    }

    /// First phase of an explicit stop: no new repair starts from here on.
    pub fn begin_suppress_repairs(&mut self)
        ensures
            final(self)@ == old(self)@.suppressed(),
    {
        self.stopping = true;
        self.wake.all = true;
        self.status.active = false;
        self.status.repair_suppressed = true;
    }

    pub fn notify_state_change(&mut self)
        ensures
            final(self)@ == old(self)@.waking_one(),
    {
        self.wake.one = true;
    }

    /// The control connection was authenticated: the carrier is to be reconciled in any case.
    pub fn notify_authenticated_connection(&mut self)
        ensures
            final(self)@ == old(self)@.authenticated(),
    {
        self.authenticated_reconcile = true;
        self.wake.one = true;
    }

    /// Takes the order to reconcile in any case, if there is one.
    pub fn take_authenticated_reconcile(&mut self) -> (forced: bool)
        ensures
            forced == old(self)@.authenticated_reconcile,
            final(self)@ == old(self)@.order_taken(),
    {
        let forced = self.authenticated_reconcile;
        self.authenticated_reconcile = false;
        forced
    }

    /// Renews the order to reconcile after it was carried out without success. Returns after
    /// which time a task is to be woken for it.
    pub fn retry_authenticated_reconcile_if_needed(&mut self) -> (wake_after: Option<Duration>)
        ensures
            final(self)@ == old(self)@.order_renewed(),
            wake_after is Some == old(self)@.renews_order(),
            wake_after matches Some(span) ==> span@ == 100_000_000,
    {
        if self.stopping || self.status.mappings_healthy {
            return None;
        }
        self.authenticated_reconcile = true;
        Some(Duration::from_millis(100))
    }

    /// Sets the status. Returns whether it changed.
    pub fn update_status(
        &mut self,
        active: bool,
        device_available: bool,
        mappings_healthy: bool,
        last_error: Option<&str>,
    ) -> (changed: bool)
        ensures
            final(self)@ == old(self)@.with_status(
                active,
                device_available,
                mappings_healthy,
                str_model(last_error),
            ),
            changed == (final(self)@.status != old(self)@.status),
    {
        let next = AdbMonitorSnapshot {
            active,
            repair_suppressed: self.stopping,
            device_available,
            mappings_healthy,
            reconnect_generation: self.reconnect_generation,
            mapping_probe_count: self.mapping_probe_count,
            mapping_probe_last_us: self.mapping_probe_last_us,
            mapping_probe_max_us: self.mapping_probe_max_us,
            transport_recovery: self.transport_recovery,
            last_error: own_text(last_error),
        };
        let changed = !self.status.same_as(&next);
        self.status = next;
        changed
    }

    /// Whether the watchdog may recover Virtual Desktop: nothing else is recovering.
    pub fn virtual_desktop_watchdog_recovery_allowed(&self) -> (allowed: bool)
        ensures
            allowed == (!self@.stopping && self@.transport_recovery.state.settled()),
    {
        !self.stopping && self.transport_recovery.state.is_settled()
    }
}

/// Something that changes the monitor: one for each of its methods that can.
pub enum MonitorEvent {
    Triggered(TransportRecoveryTrigger),
    HostResumed,
    UsbDisconnected,
    UsbReconnected,
    Rearmed(u64, TransportRecoveryTrigger),
    RearmScheduled(u64),
    RearmDue(u64, TransportRecoveryTrigger),
    DeviceAwaited,
    AttemptBegun,
    AttemptFinished(u64, bool),
    RestartBegun,
    RestartFinished(u64, u32, bool),
    ControlExpired(u64, u32),
    Probed(int),
    ReconnectCounted,
    Authenticated,
    OrderTaken,
    OrderRenewed,
    WakesTaken,
    Suppressed,
    Woken,
    StatusSet(bool, bool, bool, Option<Seq<char>>),
}

impl MonitorModel {
    /// The monitor after `event`.
    pub open spec fn after(self, event: MonitorEvent) -> MonitorModel {
        match event {
            MonitorEvent::Triggered(trigger) => self.triggered(trigger),
            MonitorEvent::HostResumed => self.host_resumed(),
            MonitorEvent::UsbDisconnected => self.usb_disconnected(),
            MonitorEvent::UsbReconnected => self.usb_reconnected(),
            MonitorEvent::Rearmed(generation, trigger) => self.rearmed(generation, trigger),
            MonitorEvent::RearmScheduled(generation) => self.rearm_scheduled(generation),
            MonitorEvent::RearmDue(generation, trigger) => self.rearm_due(generation, trigger),
            MonitorEvent::DeviceAwaited => self.awaiting_device(),
            MonitorEvent::AttemptBegun => self.attempt_begun(),
            MonitorEvent::AttemptFinished(generation, succeeded) => self.attempt_finished(
                generation,
                succeeded,
            ),
            MonitorEvent::RestartBegun => self.restart_begun(),
            MonitorEvent::RestartFinished(generation, attempt, succeeded) => self.restart_finished(
                generation,
                attempt,
                succeeded,
            ),
            MonitorEvent::ControlExpired(generation, attempt) => self.control_expired(
                generation,
                attempt,
            ),
            MonitorEvent::Probed(micros) => self.probed(micros),
            MonitorEvent::ReconnectCounted => self.reconnect_counted(),
            MonitorEvent::Authenticated => self.authenticated(),
            MonitorEvent::OrderTaken => self.order_taken(),
            MonitorEvent::OrderRenewed => self.order_renewed(),
            MonitorEvent::WakesTaken => self.wakes_taken(),
            MonitorEvent::Suppressed => self.suppressed(),
            MonitorEvent::Woken => self.waking_one(),
            MonitorEvent::StatusSet(active, device, mappings, error) => self.with_status(
                active,
                device,
                mappings,
                error,
            ),
        }
    }

    /// The monitor after `events`, in order.
    #[verifier::opaque]
    pub open spec fn after_all(self, events: Seq<MonitorEvent>) -> MonitorModel
        decreases events.len(),
    {
        if events.len() == 0 {
            self
        } else {
            self.after_all(events.drop_last()).after(events.last())
        }
    }

    /// `event` sets the recovery off from outside.
    pub open spec fn is_external_trigger(self, event: MonitorEvent) -> bool {
        event is Triggered || event is HostResumed || (event is UsbReconnected
            && self.usb_reconnect_pending)
    }

    /// `event` sets a failed recovery off again.
    pub open spec fn is_rearm(self, event: MonitorEvent) -> bool {
        match event {
            MonitorEvent::Rearmed(generation, _) => self.can_rearm(generation),
            MonitorEvent::RearmDue(generation, _) => self.can_rearm(generation),
            _ => false,
        }
    }

    /// The recovery under way was itself set off again.
    pub open spec fn rearm_spent(self) -> bool {
        self.transport_auto_rearm_generation == self.transport_recovery.generation
    }

    /// None of `events` sets the recovery off from outside.
    pub open spec fn without_trigger(self, events: Seq<MonitorEvent>) -> bool {
        forall|i: int|
            0 <= i < events.len() ==> !self.after_all(events.take(i)).is_external_trigger(
                #[trigger] events[i],
            )
    }

    /// How many of `events` set a failed recovery off again.
    pub open spec fn rearms(self, events: Seq<MonitorEvent>) -> nat
        decreases events.len(),
    {
        if events.len() == 0 {
            0
        } else {
            let rearm: nat = if self.after_all(events.drop_last()).is_rearm(events.last()) {
                1
            } else {
                0
            };
            self.rearms(events.drop_last()) + rearm
        }
    }
}

impl MonitorEvent {
    /// The event cannot set a recovery off from outside, whatever the monitor is like.
    pub open spec fn is_internal(self) -> bool {
        self !is Triggered && self !is HostResumed && self !is UsbReconnected
    }
}

/// None of the events can set a recovery off from outside.
pub open spec fn internal(events: Seq<MonitorEvent>) -> bool {
    forall|i: int| 0 <= i < events.len() ==> (#[trigger] events[i]).is_internal()
}

/// No event is a run of events.
pub(crate) proof fn lemma_no_event(monitor: MonitorModel, next: MonitorModel) -> (events: Seq<
    MonitorEvent,
>)
    requires
        next == monitor,
    ensures
        next == monitor.after_all(events),
        internal(events),
{
    reveal(MonitorModel::after_all);
    Seq::empty()
}

/// One event is a run of events.
pub(crate) proof fn lemma_one_event(
    monitor: MonitorModel,
    event: MonitorEvent,
    next: MonitorModel,
) -> (events: Seq<MonitorEvent>)
    requires
        next == monitor.after(event),
    ensures
        next == monitor.after_all(events),
        event.is_internal() ==> internal(events),
{
    reveal_with_fuel(MonitorModel::after_all, 2);
    let events = seq![event];
    assert(events.drop_last() =~= Seq::empty());
    events
}

/// Two events are a run of events.
pub(crate) proof fn lemma_two_events(
    monitor: MonitorModel,
    first: MonitorEvent,
    second: MonitorEvent,
    next: MonitorModel,
) -> (events: Seq<MonitorEvent>)
    requires
        next == monitor.after(first).after(second),
    ensures
        next == monitor.after_all(events),
        first.is_internal() && second.is_internal() ==> internal(events),
{
    let before = monitor.after(first);
    let one = lemma_one_event(monitor, first, before);
    let other = lemma_one_event(before, second, next);
    events_follow_each_other(monitor, one, other);
    one + other
}

/// Three events are a run of events.
pub(crate) proof fn lemma_three_events(
    monitor: MonitorModel,
    first: MonitorEvent,
    second: MonitorEvent,
    third: MonitorEvent,
    next: MonitorModel,
) -> (events: Seq<MonitorEvent>)
    requires
        next == monitor.after(first).after(second).after(third),
    ensures
        next == monitor.after_all(events),
        first.is_internal() && second.is_internal() && third.is_internal() ==> internal(events),
{
    let before = monitor.after(first).after(second);
    let two = lemma_two_events(monitor, first, second, before);
    let other = lemma_one_event(before, third, next);
    events_follow_each_other(monitor, two, other);
    two + other
}

/// Some events after others are both in one run.
pub proof fn events_follow_each_other(
    monitor: MonitorModel,
    first: Seq<MonitorEvent>,
    second: Seq<MonitorEvent>,
)
    ensures
        monitor.after_all(first + second) == monitor.after_all(first).after_all(second),
    decreases second.len(),
{
    reveal(MonitorModel::after_all);
    if second.len() == 0 {
        assert(first + second =~= first);
    } else {
        assert((first + second).drop_last() =~= first + second.drop_last());
        events_follow_each_other(monitor, first, second.drop_last());
    }
}

#[verifier::spinoff_prover]
#[verifier::rlimit(30)]
proof fn lemma_rearm_step(monitor: MonitorModel, event: MonitorEvent)
    requires
        !monitor.is_external_trigger(event),
    ensures
        monitor.rearm_spent() ==> !monitor.is_rearm(event) && monitor.after(event).rearm_spent(),
        monitor.is_rearm(event) ==> monitor.after(event).rearm_spent(),
{
}

#[verifier::spinoff_prover]
#[verifier::rlimit(30)]
proof fn lemma_rearm_is_spent(monitor: MonitorModel, events: Seq<MonitorEvent>)
    requires
        monitor.without_trigger(events),
    ensures
        monitor.rearms(events) == 0 || (monitor.rearms(events) == 1 && monitor.after_all(
            events,
        ).rearm_spent()),
    decreases events.len(),
{
    reveal(MonitorModel::after_all);
    if events.len() > 0 {
        let shorter = events.drop_last();
        assert forall|i: int| 0 <= i < shorter.len() implies !monitor.after_all(
            shorter.take(i),
        ).is_external_trigger(#[trigger] shorter[i]) by {
            assert(shorter.take(i) == events.take(i));
            assert(shorter[i] == events[i]);
        }
        lemma_rearm_is_spent(monitor, shorter);
        assert(events.take(events.len() - 1) == shorter);
        assert(!monitor.after_all(shorter).is_external_trigger(events[events.len() - 1]));
        lemma_rearm_step(monitor.after_all(shorter), events.last());
    }
}

/// However a recovery goes on, it is set off again at most once after it failed, until something
/// outside sets a recovery off.
pub proof fn recovery_rearms_once_per_external_trigger(
    monitor: MonitorModel,
    events: Seq<MonitorEvent>,
)
    requires
        monitor.without_trigger(events),
    ensures
        monitor.rearms(events) <= 1,
{
    lemma_rearm_is_spent(monitor, events);
}

/// What the monitor does by itself sets a failed recovery off again at most once.
pub proof fn internal_events_rearm_once(monitor: MonitorModel, events: Seq<MonitorEvent>)
    requires
        internal(events),
    ensures
        monitor.without_trigger(events),
        monitor.rearms(events) <= 1,
{
    lemma_rearm_is_spent(monitor, events);
}

/// A recovery that was set off again gets no further timer.
pub proof fn rearmed_recovery_schedules_no_timer(
    monitor: MonitorModel,
    generation: u64,
    trigger: TransportRecoveryTrigger,
)
    requires
        monitor.can_rearm(generation),
    ensures
        ({
            let again = monitor.rearmed(generation, trigger);
            !again.can_schedule_rearm(again.transport_recovery.generation)
        }),
{
}

/// Asking for a timer again while it runs has no effect.
pub proof fn rearm_timer_is_started_once(monitor: MonitorModel, generation: u64)
    ensures
        !monitor.rearm_scheduled(generation).can_schedule_rearm(generation),
        monitor.rearm_scheduled(generation).rearm_scheduled(generation)
            == monitor.rearm_scheduled(generation),
{
}

/// Once repairs are suppressed they stay suppressed, whatever happens, the report says so, and no
/// failed recovery is set off again.
pub proof fn suppression_is_permanent(monitor: MonitorModel, events: Seq<MonitorEvent>)
    requires
        monitor.stopping,
    ensures
        monitor.after_all(events).stopping,
        monitor.after_all(events).report().repair_suppressed,
        forall|generation: u64| !monitor.after_all(events).can_rearm(generation),
    decreases events.len(),
{
    reveal(MonitorModel::after_all);
    if events.len() > 0 {
        suppression_is_permanent(monitor, events.drop_last());
    }
}

/// A recovery from a resume absorbs a reconnect that comes with it: the pending reconnect is
/// forgotten, and losing the device while the mappings are to be rebuilt starts no new one.
pub proof fn resume_absorbs_reconnect(monitor: MonitorModel)
    ensures
        monitor.host_resumed().usb_reconnected() == monitor.host_resumed(),
        monitor.host_resumed().usb_disconnected() == monitor.host_resumed(),
{
}

/// A reconnect sets a recovery off once.
pub proof fn reconnect_is_consumed(monitor: MonitorModel)
    ensures
        monitor.usb_reconnected().usb_reconnected() == monitor.usb_reconnected(),
        monitor.usb_reconnect_pending ==> monitor.usb_reconnected().transport_recovery.trigger
            == Some(TransportRecoveryTrigger::UsbReconnect),
{
}

/// The longest probe on record is at least as long as the last one.
pub proof fn longest_probe_covers_the_last(monitor: MonitorModel, events: Seq<MonitorEvent>)
    requires
        monitor.mapping_probe_last_us <= monitor.mapping_probe_max_us,
    ensures
        monitor.after_all(events).mapping_probe_last_us <= monitor.after_all(
            events,
        ).mapping_probe_max_us,
        monitor.mapping_probe_max_us <= monitor.after_all(events).mapping_probe_max_us,
    decreases events.len(),
{
    reveal(MonitorModel::after_all);
    if events.len() > 0 {
        longest_probe_covers_the_last(monitor, events.drop_last());
    }
}

/// What the monitor reports is its own: whether repairs are suppressed, its counters and its
/// recovery are as they are now, and the rest is what the status last said.
pub proof fn report_is_current(monitor: MonitorModel)
    ensures
        monitor.report().repair_suppressed == monitor.stopping,
        monitor.report().reconnect_generation == monitor.reconnect_generation,
        monitor.report().mapping_probe_count == monitor.mapping_probe_count,
        monitor.report().mapping_probe_last_us == monitor.mapping_probe_last_us,
        monitor.report().mapping_probe_max_us == monitor.mapping_probe_max_us,
        monitor.report().transport_recovery == monitor.transport_recovery,
        monitor.report().active == monitor.status.active,
        monitor.report().device_available == monitor.status.device_available,
        monitor.report().mappings_healthy == monitor.status.mappings_healthy,
        monitor.report().last_error == monitor.status.last_error,
{
}

/// A status says what it was set to, with everything else as it is now, and setting it changes
/// nothing but the status.
pub proof fn status_says_what_it_was_set_to(
    monitor: MonitorModel,
    active: bool,
    device_available: bool,
    mappings_healthy: bool,
    last_error: Option<Seq<char>>,
)
    ensures
        ({
            let next = monitor.after(
                MonitorEvent::StatusSet(active, device_available, mappings_healthy, last_error),
            );
            &&& next.status.active == active
            &&& next.status.device_available == device_available
            &&& next.status.mappings_healthy == mappings_healthy
            &&& next.status.last_error == last_error
            &&& next.report() == next.status
            &&& next == (MonitorModel { status: next.status, ..monitor })
        }),
{
}

/// A recovery that is set off from outside starts over in a new generation, is announced, wakes the
/// monitor, and may be set off again by a timer should it fail. The mappings count as unhealthy.
pub proof fn trigger_is_announced(monitor: MonitorModel, trigger: TransportRecoveryTrigger)
    ensures
        ({
            let next = monitor.after(MonitorEvent::Triggered(trigger));
            let recovery = next.transport_recovery;
            &&& recovery.state == TransportRecoveryState::Pending
            &&& recovery.trigger == Some(trigger)
            &&& recovery.attempt == 0
            &&& recovery.generation == if monitor.transport_recovery.generation == u64::MAX {
                0
            } else {
                monitor.transport_recovery.generation + 1
            }
            &&& next.transport_auto_rearm_generation == 0
            &&& next.wake.one && next.wake.all == monitor.wake.all
            &&& !next.status.mappings_healthy
            &&& next.status.last_error == Some("transport_recovery_pending"@)
            &&& next.status.transport_recovery == recovery
            &&& next.status.device_available == monitor.status.device_available
            &&& next.status.active == monitor.status.active
            &&& next.usb_reconnect_pending == monitor.usb_reconnect_pending
            &&& next.stopping == monitor.stopping
            &&& next.authenticated_reconcile == monitor.authenticated_reconcile
            &&& next.transport_rearm_scheduled == monitor.transport_rearm_scheduled
        }),
{
}

/// A resume of the host sets a recovery off in any case; a device that is back sets one off exactly
/// when its loss was noted before. Either way the loss is not pending any more.
pub proof fn resume_and_reconnect_set_a_recovery_off(monitor: MonitorModel)
    ensures
        ({
            let settled = MonitorModel { usb_reconnect_pending: false, ..monitor };
            let resumed = monitor.after(MonitorEvent::HostResumed);
            let back = monitor.after(MonitorEvent::UsbReconnected);
            &&& resumed == settled.after(
                MonitorEvent::Triggered(TransportRecoveryTrigger::HostResume),
            )
            &&& monitor.usb_reconnect_pending ==> back == settled.after(
                MonitorEvent::Triggered(TransportRecoveryTrigger::UsbReconnect),
            )
            &&& !monitor.usb_reconnect_pending ==> back == monitor
        }),
{
}

/// The loss of the device is noted as the start of a reconnect, except while the mappings are to be
/// rebuilt after a resume anyway. It changes nothing else.
pub proof fn loss_of_the_device_starts_a_reconnect(monitor: MonitorModel)
    ensures
        ({
            let next = monitor.after(MonitorEvent::UsbDisconnected);
            let state = monitor.transport_recovery.state;
            let resuming = monitor.transport_recovery.trigger == Some(
                TransportRecoveryTrigger::HostResume,
            ) && (state == TransportRecoveryState::Pending || state
                == TransportRecoveryState::WaitingForDevice || state
                == TransportRecoveryState::RebuildingMappings || state
                == TransportRecoveryState::Failed);
            &&& next.usb_reconnect_pending == (monitor.usb_reconnect_pending || !resuming)
            &&& next == (MonitorModel {
                usb_reconnect_pending: next.usb_reconnect_pending,
                ..monitor
            })
        }),
{
}

/// A timer sets a recovery off again exactly when that recovery is the current one, has failed, was
/// not itself set off by a timer, and nobody stops the monitor. It then starts over for the same
/// trigger, and no timer sets it off once more.
pub proof fn timer_sets_a_failed_recovery_off_again(
    monitor: MonitorModel,
    generation: u64,
    trigger: TransportRecoveryTrigger,
)
    ensures
        ({
            let due = monitor.after(MonitorEvent::RearmDue(generation, trigger));
            let direct = monitor.after(MonitorEvent::Rearmed(generation, trigger));
            let before = monitor.transport_recovery;
            let may = before.generation == generation && before.state
                == TransportRecoveryState::Failed && monitor.transport_auto_rearm_generation
                != generation && !monitor.stopping;
            let after = direct.transport_recovery;
            &&& !may ==> direct == monitor
            &&& may ==> {
                &&& after.state == TransportRecoveryState::Pending && after.attempt == 0
                &&& after.trigger == Some(trigger)
                &&& after.generation == if generation == u64::MAX {
                    0
                } else {
                    generation + 1
                }
                &&& direct.transport_auto_rearm_generation == after.generation
                &&& direct.wake.one
                &&& !direct.status.mappings_healthy
                &&& direct.status.last_error == Some("transport_recovery_rearmed"@)
                &&& direct.status.transport_recovery == after
            }
            &&& due == (MonitorModel {
                transport_rearm_scheduled: monitor.transport_rearm_scheduled.remove(generation),
                ..direct
            })
        }),
{
}

/// A timer is started for a recovery exactly when none runs for it and it was not set off by one.
pub proof fn timer_runs_once(monitor: MonitorModel, generation: u64)
    ensures
        ({
            let next = monitor.after(MonitorEvent::RearmScheduled(generation));
            let starts = monitor.transport_auto_rearm_generation != generation
                && !monitor.transport_rearm_scheduled.contains(generation);
            &&& monitor.can_schedule_rearm(generation) == starts
            &&& next.transport_rearm_scheduled == if starts {
                monitor.transport_rearm_scheduled.insert(generation)
            } else {
                monitor.transport_rearm_scheduled
            }
            &&& next == (MonitorModel {
                transport_rearm_scheduled: next.transport_rearm_scheduled,
                ..monitor
            })
        }),
{
}

/// The recovery inside the monitor moves as a recovery by itself does, and the report follows it:
/// it names the recovery, and mappings that have to be rebuilt are not healthy.
#[verifier::spinoff_prover]
#[verifier::rlimit(30)]
pub proof fn report_follows_the_recovery(
    monitor: MonitorModel,
    generation: u64,
    attempt: u32,
    succeeded: bool,
)
    ensures
        ({
            let recovery = monitor.transport_recovery;
            let finished = monitor.after(MonitorEvent::AttemptFinished(generation, succeeded));
            let restarted = monitor.after(
                MonitorEvent::RestartFinished(generation, attempt, succeeded),
            );
            let expired = monitor.after(MonitorEvent::ControlExpired(generation, attempt));
            let awaited = monitor.after(MonitorEvent::DeviceAwaited);
            let begun = monitor.after(MonitorEvent::AttemptBegun);
            let restarting = monitor.after(MonitorEvent::RestartBegun);
            let own = recovery.generation == generation;
            let restarts = own && recovery.attempt == attempt && recovery.state
                == TransportRecoveryState::RestartingVirtualDesktop;
            let left = recovery.attempt < 2;
            &&& finished.transport_recovery == recovery.after(
                RecoveryEvent::AttemptFinished(generation, succeeded),
            )
            &&& restarted.transport_recovery == recovery.after(
                RecoveryEvent::RestartFinished(generation, attempt, succeeded),
            )
            &&& expired.transport_recovery == recovery.after(
                RecoveryEvent::ControlExpired(generation, attempt),
            )
            &&& awaited.transport_recovery == recovery.after(RecoveryEvent::DeviceAwaited)
            &&& begun.transport_recovery == recovery.after(RecoveryEvent::AttemptBegun)
            &&& restarting.transport_recovery == recovery.after(RecoveryEvent::RestartBegun)
            &&& own ==> finished.status.transport_recovery == finished.transport_recovery
            &&& own && succeeded ==> finished.status.last_error is None
                && finished.status.mappings_healthy == monitor.status.mappings_healthy
            &&& own && !succeeded ==> !finished.status.mappings_healthy
                && finished.status.last_error == Some(
                if left {
                    "transport_recovery_retry"@
                } else {
                    "transport_recovery_failed"@
                },
            )
            &&& restarts ==> restarted.status.transport_recovery == restarted.transport_recovery
            &&& restarts && succeeded ==> restarted.status.last_error is None
            &&& restarts && !succeeded ==> !restarted.status.mappings_healthy
                && restarted.status.last_error == Some(
                if left {
                    "transport_recovery_virtual_desktop_retry"@
                } else {
                    "transport_recovery_virtual_desktop_failed"@
                },
            )
            &&& !own ==> finished == monitor && restarted == monitor && expired == monitor
            &&& !awaited.status.mappings_healthy && awaited.status.last_error == Some(
                "transport_recovery_waiting_for_device"@,
            )
        }),
{
}

/// What each occurrence leaves alone. Nothing but a stop makes the monitor stop; only a probe
/// changes what is known of probes, and only a repair the count of repairs; an order comes from an
/// authenticated connection or from its renewal, and goes when it is taken.
#[verifier::spinoff_prover]
#[verifier::rlimit(30)]
pub proof fn occurrences_keep_to_themselves(monitor: MonitorModel, event: MonitorEvent)
    ensures
        ({
            let next = monitor.after(event);
            &&& next.stopping == (monitor.stopping || event is Suppressed)
            &&& event !is Probed ==> next.mapping_probe_count == monitor.mapping_probe_count
                && next.mapping_probe_last_us == monitor.mapping_probe_last_us
                && next.mapping_probe_max_us == monitor.mapping_probe_max_us
            &&& event !is ReconnectCounted ==> next.reconnect_generation
                == monitor.reconnect_generation
            &&& next.authenticated_reconcile == match event {
                MonitorEvent::Authenticated => true,
                MonitorEvent::OrderTaken => false,
                MonitorEvent::OrderRenewed => monitor.authenticated_reconcile || (!monitor.stopping
                    && !monitor.status.mappings_healthy),
                _ => monitor.authenticated_reconcile,
            }
            &&& event !is UsbDisconnected && event !is UsbReconnected && event !is HostResumed
                ==> next.usb_reconnect_pending == monitor.usb_reconnect_pending
            &&& event !is RearmScheduled && event !is RearmDue ==> next.transport_rearm_scheduled
                == monitor.transport_rearm_scheduled
            &&& event is Probed || event is ReconnectCounted || event is Authenticated || event
                is OrderTaken || event is OrderRenewed || event is WakesTaken || event is Suppressed
                || event is Woken || event is StatusSet || event is UsbDisconnected || event
                is RearmScheduled ==> next.transport_recovery == monitor.transport_recovery
                && next.transport_auto_rearm_generation == monitor.transport_auto_rearm_generation
            &&& event !is StatusSet && event !is Suppressed ==> next.status.active
                == monitor.status.active
            &&& event !is StatusSet ==> next.status.device_available
                == monitor.status.device_available
            &&& event !is StatusSet && next.status.mappings_healthy
                ==> monitor.status.mappings_healthy
        }),
{
}

/// Who is woken: a task for every notification, order and recovery that is set off, every waiting
/// task for a stop; and nobody twice for the same request.
pub proof fn wakes_are_asked_for(monitor: MonitorModel)
    ensures
        monitor.after(MonitorEvent::Woken).wake.one,
        monitor.after(MonitorEvent::Authenticated).wake.one,
        monitor.after(MonitorEvent::HostResumed).wake.one,
        monitor.after(MonitorEvent::Suppressed).wake.all,
        monitor.after(MonitorEvent::Suppressed).status.repair_suppressed,
        !monitor.after(MonitorEvent::Suppressed).status.active,
        !monitor.after(MonitorEvent::WakesTaken).wake.one,
        !monitor.after(MonitorEvent::WakesTaken).wake.all,
        monitor.after(MonitorEvent::Woken) == (MonitorModel {
            wake: WakeRequests { one: true, all: monitor.wake.all },
            ..monitor
        }),
{
}

/// A probe is counted, and its time is kept as the last one and, if it is the longest, as that. A
/// repair is counted. Neither counts further than its counter holds.
pub proof fn counters_count(monitor: MonitorModel, micros: int)
    requires
        micros >= 0,
    ensures
        ({
            let probed = monitor.after(MonitorEvent::Probed(micros));
            let repaired = monitor.after(MonitorEvent::ReconnectCounted);
            &&& monitor.mapping_probe_count < u64::MAX ==> probed.mapping_probe_count
                == monitor.mapping_probe_count + 1
            &&& micros <= u64::MAX ==> probed.mapping_probe_last_us == micros
            &&& micros > u64::MAX ==> probed.mapping_probe_last_us == u64::MAX
            &&& probed.mapping_probe_max_us >= probed.mapping_probe_last_us
            &&& probed.mapping_probe_max_us >= monitor.mapping_probe_max_us
            &&& probed.mapping_probe_max_us == probed.mapping_probe_last_us
                || probed.mapping_probe_max_us == monitor.mapping_probe_max_us
            &&& monitor.reconnect_generation < u64::MAX ==> repaired.reconnect_generation
                == monitor.reconnect_generation + 1
            &&& probed.status == monitor.status && repaired.status == monitor.status
        }),
{
}

/// What begins is announced, and nothing begins out of turn: an attempt only while the recovery is
/// pending or waited for the device and has one left, a restart of Virtual Desktop only while the
/// control connection is waited for. Otherwise the monitor stays as it is.
#[verifier::spinoff_prover]
#[verifier::rlimit(30)]
pub proof fn nothing_begins_out_of_turn(monitor: MonitorModel)
    ensures
        ({
            let recovery = monitor.transport_recovery;
            let begun = monitor.after(MonitorEvent::AttemptBegun);
            let restarting = monitor.after(MonitorEvent::RestartBegun);
            let awaited = monitor.after(MonitorEvent::DeviceAwaited);
            let may_begin = recovery.attempt < 2 && (recovery.state
                == TransportRecoveryState::Pending || recovery.state
                == TransportRecoveryState::WaitingForDevice);
            let waits = recovery.state == TransportRecoveryState::AwaitingControl;
            &&& !may_begin ==> begun == monitor
            &&& may_begin && recovery.trigger is Some ==> begun.status.last_error == Some(
                "transport_recovery_rebuilding"@,
            ) && begun.status.transport_recovery == begun.transport_recovery
                && !begun.status.mappings_healthy
            &&& !waits ==> restarting == monitor
            &&& waits && recovery.trigger is Some ==> restarting.status.last_error == Some(
                "transport_recovery_restarting_virtual_desktop"@,
            ) && restarting.status.transport_recovery == restarting.transport_recovery
                && restarting.status.mappings_healthy == monitor.status.mappings_healthy
            &&& recovery.trigger is None ==> begun.status == monitor.status && restarting.status
                == monitor.status
            &&& awaited.status.transport_recovery == awaited.transport_recovery
            &&& begun.wake == monitor.wake && restarting.wake == monitor.wake && awaited.wake
                == monitor.wake
        }),
{
}

/// A wait for the control connection that is over counts for the attempt that waits, and for no
/// other. While an attempt is left the monitor is woken for it at once.
#[verifier::spinoff_prover]
#[verifier::rlimit(30)]
pub proof fn expired_wait_wakes_the_monitor(monitor: MonitorModel, generation: u64, attempt: u32)
    ensures
        ({
            let recovery = monitor.transport_recovery;
            let expired = monitor.after(MonitorEvent::ControlExpired(generation, attempt));
            let waits = recovery.state == TransportRecoveryState::AwaitingControl
                && recovery.generation == generation && recovery.attempt == attempt;
            let left = recovery.attempt < 2;
            &&& !waits ==> expired == monitor
            &&& waits ==> expired.wake.one == (left || monitor.wake.one)
            &&& waits ==> expired.wake.all == monitor.wake.all
            &&& waits ==> !expired.status.mappings_healthy
            &&& waits ==> expired.status.transport_recovery == expired.transport_recovery
            &&& waits ==> expired.status.last_error == Some(
                if left {
                    "transport_recovery_control_retry"@
                } else {
                    "transport_recovery_control_failed"@
                },
            )
        }),
{
}

} // verus!
