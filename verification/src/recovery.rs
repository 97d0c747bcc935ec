//! Recovery of the wired transport: the states that it goes through and the rules between them.
//!
//! A recovery has a generation, which each trigger advances. Within a generation it gets two
//! attempts. An attempt rebuilds the mappings, waits for an authenticated control connection and
//! restarts Virtual Desktop; whatever is reported for an earlier generation is ignored.
use crate::relay::successor;
use vstd::prelude::*;

verus! {

/// How many attempts a generation gets.
pub const TRANSPORT_RECOVERY_MAX_ATTEMPTS: u32 = 2;

/// How far the recovery of the transport has come.
#[derive(Clone, Copy, Debug, PartialEq, Eq, Structural)]
pub enum TransportRecoveryState {
    Idle,
    Pending,
    WaitingForDevice,
    RebuildingMappings,
    AwaitingControl,
    RestartingVirtualDesktop,
    Recovered,
    Failed,
}

/// What set the recovery of the transport off.
#[derive(Clone, Copy, Debug, PartialEq, Eq, Structural)]
pub enum TransportRecoveryTrigger {
    HostResume,
    UsbReconnect,
}

/// The recovery of the transport at one moment.
#[derive(Clone, Copy, Debug, PartialEq, Eq, Structural)]
pub struct TransportRecoverySnapshot {
    pub generation: u64,
    pub attempt: u32,
    pub state: TransportRecoveryState,
    pub trigger: Option<TransportRecoveryTrigger>,
}

/// One attempt of a recovery.
#[derive(Clone, Copy, Debug, PartialEq, Eq, Structural)]
pub struct RecoveryAttempt {
    pub generation: u64,
    pub attempt: u32,
    pub trigger: TransportRecoveryTrigger,
}

/// Whether the Virtual Desktop service is reset before Virtual Desktop is launched again: for
/// either trigger, and before the first launch already.
pub fn should_reset_virtual_desktop_service(
    trigger: TransportRecoveryTrigger,
    _relaunch_attempt: u32,
) -> (reset: bool)
    ensures
        reset,
{
    matches!(
        trigger,
        TransportRecoveryTrigger::HostResume | TransportRecoveryTrigger::UsbReconnect
    )
}

impl TransportRecoveryState {
    /// The mappings have to be rebuilt before anything else.
    pub open spec fn requires_recovery(self) -> bool {
        self == TransportRecoveryState::Pending || self == TransportRecoveryState::WaitingForDevice
            || self == TransportRecoveryState::RebuildingMappings || self
            == TransportRecoveryState::Failed
    }

    pub fn is_recovery_required(self) -> (result: bool)
        ensures
            result == self.requires_recovery(),
    {
        matches!(
            self,
            TransportRecoveryState::Pending
            | TransportRecoveryState::WaitingForDevice
            | TransportRecoveryState::RebuildingMappings
            | TransportRecoveryState::Failed
        )
    }

    /// No recovery is under way.
    pub open spec fn settled(self) -> bool {
        self == TransportRecoveryState::Idle || self == TransportRecoveryState::Recovered
    }

    pub fn is_settled(self) -> (result: bool)
        ensures
            result == self.settled(),
    {
        matches!(self, TransportRecoveryState::Idle | TransportRecoveryState::Recovered)
    }
}

/// Something that bears on the recovery.
pub enum RecoveryEvent {
    /// The recovery was set off, anew or again after it failed.
    Triggered(TransportRecoveryTrigger),
    /// There is no device to recover with.
    DeviceAwaited,
    /// An attempt is to begin.
    AttemptBegun,
    /// The mappings of this generation were rebuilt, or not.
    AttemptFinished(u64, bool),
    /// Virtual Desktop is to be restarted.
    RestartBegun,
    /// The restart in this generation and attempt succeeded, or not.
    RestartFinished(u64, u32, bool),
    /// The wait of this generation and attempt for the control connection is over.
    ControlExpired(u64, u32),
}

impl TransportRecoverySnapshot {
    /// An attempt can begin.
    pub open spec fn can_begin(self) -> bool {
        &&& self.state == TransportRecoveryState::Pending || self.state
            == TransportRecoveryState::WaitingForDevice
        &&& self.attempt < TRANSPORT_RECOVERY_MAX_ATTEMPTS
    }

    /// The recovery waits for the control connection, in this generation and attempt.
    pub open spec fn awaits_control(self, generation: u64, attempt: u32) -> bool {
        &&& self.generation == generation
        &&& self.attempt == attempt
        &&& self.state == TransportRecoveryState::AwaitingControl
    }

    /// Virtual Desktop is being restarted, in this generation and attempt.
    pub open spec fn restarts(self, generation: u64, attempt: u32) -> bool {
        &&& self.generation == generation
        &&& self.attempt == attempt
        &&& self.state == TransportRecoveryState::RestartingVirtualDesktop
    }

    /// There is an attempt left in this generation.
    pub open spec fn can_retry(self) -> bool {
        self.attempt < TRANSPORT_RECOVERY_MAX_ATTEMPTS
    }

    /// The attempt failed: the recovery is pending while an attempt is left, and has failed
    /// otherwise.
    pub open spec fn with_failed_attempt(self) -> TransportRecoverySnapshot {
        TransportRecoverySnapshot {
            state: if self.can_retry() {
                TransportRecoveryState::Pending
            } else {
                TransportRecoveryState::Failed
            },
            ..self
        }
    }

    /// The recovery after `event`.
    pub open spec fn after(self, event: RecoveryEvent) -> TransportRecoverySnapshot {
        match event {
            RecoveryEvent::Triggered(trigger) => TransportRecoverySnapshot {
                generation: successor(self.generation),
                attempt: 0,
                state: TransportRecoveryState::Pending,
                trigger: Some(trigger),
            },
            RecoveryEvent::DeviceAwaited => TransportRecoverySnapshot {
                attempt: 0,
                state: TransportRecoveryState::WaitingForDevice,
                ..self
            },
            RecoveryEvent::AttemptBegun => if self.can_begin() {
                TransportRecoverySnapshot {
                    attempt: (self.attempt + 1) as u32,
                    state: TransportRecoveryState::RebuildingMappings,
                    ..self
                }
            } else {
                self
            },
            RecoveryEvent::AttemptFinished(generation, succeeded) => if self.generation
                != generation {
                self
            } else if succeeded {
                TransportRecoverySnapshot { state: TransportRecoveryState::AwaitingControl, ..self }
            } else {
                self.with_failed_attempt()
            },
            RecoveryEvent::RestartBegun => if self.state
                == TransportRecoveryState::AwaitingControl {
                TransportRecoverySnapshot {
                    state: TransportRecoveryState::RestartingVirtualDesktop,
                    ..self
                }
            } else {
                self
            },
            RecoveryEvent::RestartFinished(generation, attempt, succeeded) => if !self.restarts(
                generation,
                attempt,
            ) {
                self
            } else if succeeded {
                TransportRecoverySnapshot { state: TransportRecoveryState::Recovered, ..self }
            } else {
                self.with_failed_attempt()
            },
            RecoveryEvent::ControlExpired(generation, attempt) => if !self.awaits_control(
                generation,
                attempt,
            ) {
                self
            } else {
                self.with_failed_attempt()
            },
        }
    }

    /// The recovery after `events`, in order.
    pub open spec fn after_all(self, events: Seq<RecoveryEvent>) -> TransportRecoverySnapshot
        decreases events.len(),
    {
        if events.len() == 0 {
            self
        } else {
            self.after_all(events.drop_last()).after(events.last())
        }
    }

    /// The attempt that is under way, named by the trigger of the recovery.
    pub open spec fn current_attempt(self) -> Option<RecoveryAttempt> {
        match self.trigger {
            Some(trigger) => Some(
                RecoveryAttempt { generation: self.generation, attempt: self.attempt, trigger },
            ),
            None => None,
        }
    }

    pub fn attempt_under_way(&self) -> (attempt: Option<RecoveryAttempt>)
        ensures
            attempt == self.current_attempt(),
    {
        match self.trigger {
            Some(trigger) => Some(
                RecoveryAttempt { generation: self.generation, attempt: self.attempt, trigger },
            ),
            None => None,
        }
    }
}

impl Default for TransportRecoverySnapshot {
    /// No recovery was ever set off.
    fn default() -> (recovery: Self)
        ensures
            recovery == (TransportRecoverySnapshot {
                generation: 0,
                attempt: 0,
                state: TransportRecoveryState::Idle,
                trigger: None,
            }),
    {
        TransportRecoverySnapshot {
            generation: 0,
            attempt: 0,
            state: TransportRecoveryState::Idle,
            trigger: None,
        }
    }
}

/// How many of `events` begin an attempt.
pub open spec fn attempts_begun(
    recovery: TransportRecoverySnapshot,
    events: Seq<RecoveryEvent>,
) -> nat
    decreases events.len(),
{
    if events.len() == 0 {
        0
    } else {
        let begun: nat = if events.last() is AttemptBegun && recovery.after_all(
            events.drop_last(),
        ).can_begin() {
            1
        } else {
            0
        };
        attempts_begun(recovery, events.drop_last()) + begun
    }
}

/// Whatever happens, a generation never counts more than two attempts.
pub proof fn attempt_count_is_bounded(
    recovery: TransportRecoverySnapshot,
    events: Seq<RecoveryEvent>,
)
    requires
        recovery.attempt <= TRANSPORT_RECOVERY_MAX_ATTEMPTS,
    ensures
        recovery.after_all(events).attempt <= TRANSPORT_RECOVERY_MAX_ATTEMPTS,
    decreases events.len(),
{
    if events.len() > 0 {
        attempt_count_is_bounded(recovery, events.drop_last());
    }
}

/// Once a recovery was set off, at most two attempts begin until it is set off again, as long as
/// the device stays there.
pub proof fn recovery_is_bounded_to_two_attempts(
    recovery: TransportRecoverySnapshot,
    trigger: TransportRecoveryTrigger,
    events: Seq<RecoveryEvent>,
)
    requires
        forall|i: int|
            0 <= i < events.len() ==> !(#[trigger] events[i] is Triggered)
                && !(events[i] is DeviceAwaited),
    ensures
        attempts_begun(recovery.after(RecoveryEvent::Triggered(trigger)), events)
            <= TRANSPORT_RECOVERY_MAX_ATTEMPTS,
{
    lemma_attempts_counted(recovery.after(RecoveryEvent::Triggered(trigger)), events);
}

proof fn lemma_attempts_counted(recovery: TransportRecoverySnapshot, events: Seq<RecoveryEvent>)
    requires
        recovery.attempt <= TRANSPORT_RECOVERY_MAX_ATTEMPTS,
        forall|i: int|
            0 <= i < events.len() ==> !(#[trigger] events[i] is Triggered)
                && !(events[i] is DeviceAwaited),
    ensures
        recovery.after_all(events).attempt == recovery.attempt + attempts_begun(recovery, events),
        recovery.after_all(events).attempt <= TRANSPORT_RECOVERY_MAX_ATTEMPTS,
    decreases events.len(),
{
    if events.len() > 0 {
        lemma_attempts_counted(recovery, events.drop_last());
        assert(!(events[events.len() - 1] is Triggered) && !(events[events.len() - 1] is
            DeviceAwaited));
    }
}

/// Reports about another generation than the current one are ignored.
pub proof fn stale_reports_are_ignored(
    recovery: TransportRecoverySnapshot,
    generation: u64,
    attempt: u32,
    succeeded: bool,
)
    requires
        generation != recovery.generation,
    ensures
        recovery.after(RecoveryEvent::AttemptFinished(generation, succeeded)) == recovery,
        recovery.after(RecoveryEvent::RestartFinished(generation, attempt, succeeded)) == recovery,
        recovery.after(RecoveryEvent::ControlExpired(generation, attempt)) == recovery,
{
}

/// A recovery that has failed begins nothing: no attempt, no restart and no further wait.
pub proof fn failed_recovery_begins_nothing(
    recovery: TransportRecoverySnapshot,
    generation: u64,
    attempt: u32,
    succeeded: bool,
)
    requires
        recovery.state == TransportRecoveryState::Failed,
    ensures
        recovery.after(RecoveryEvent::AttemptBegun) == recovery,
        recovery.after(RecoveryEvent::RestartBegun) == recovery,
        recovery.after(RecoveryEvent::RestartFinished(generation, attempt, succeeded)) == recovery,
        recovery.after(RecoveryEvent::ControlExpired(generation, attempt)) == recovery,
{
}

/// Virtual Desktop is restarted only once the mappings of the generation were rebuilt and the
/// recovery waited for the control connection.
pub proof fn restart_follows_rebuilding(
    recovery: TransportRecoverySnapshot,
    event: RecoveryEvent,
)
    requires
        recovery.state != TransportRecoveryState::RestartingVirtualDesktop,
        recovery.after(event).state == TransportRecoveryState::RestartingVirtualDesktop,
    ensures
        event is RestartBegun,
        recovery.state == TransportRecoveryState::AwaitingControl,
{
}

/// Which states still need the mappings rebuilt, and which are none of a recovery under way: the
/// two never go together, and while the control connection is waited for or Virtual Desktop is
/// restarted, neither holds.
pub proof fn states_of_a_recovery(state: TransportRecoveryState)
    ensures
        !(state.requires_recovery() && state.settled()),
        !state.requires_recovery() && !state.settled() <==> (state
            == TransportRecoveryState::AwaitingControl || state
            == TransportRecoveryState::RestartingVirtualDesktop),
        state.settled() <==> (state == TransportRecoveryState::Idle || state
            == TransportRecoveryState::Recovered),
{
}

/// Being set off starts a recovery over, in a generation of its own: with both attempts left, and
/// ready to begin the first.
pub proof fn trigger_starts_over(
    recovery: TransportRecoverySnapshot,
    trigger: TransportRecoveryTrigger,
)
    ensures
        ({
            let set_off = recovery.after(RecoveryEvent::Triggered(trigger));
            let begun = set_off.after(RecoveryEvent::AttemptBegun);
            &&& set_off.generation != recovery.generation
            &&& recovery.generation < u64::MAX ==> set_off.generation == recovery.generation + 1
            &&& recovery.generation == u64::MAX ==> set_off.generation == 0
            &&& set_off.state == TransportRecoveryState::Pending
            &&& set_off.attempt == 0
            &&& set_off.trigger == Some(trigger)
            &&& begun.state == TransportRecoveryState::RebuildingMappings
            &&& begun.attempt == 1
            &&& begun.current_attempt() == Some(
                RecoveryAttempt { generation: set_off.generation, attempt: 1, trigger },
            )
        }),
{
}

/// Only being set off changes the generation or the trigger of a recovery, and only that, a new
/// attempt or the wait for the device changes the number of the attempt.
pub proof fn recovery_keeps_its_identity(recovery: TransportRecoverySnapshot, event: RecoveryEvent)
    requires
        event !is Triggered,
    ensures
        recovery.after(event).generation == recovery.generation,
        recovery.after(event).trigger == recovery.trigger,
        event !is AttemptBegun && event !is DeviceAwaited ==> recovery.after(event).attempt
            == recovery.attempt,
        event is DeviceAwaited ==> recovery.after(event).attempt == 0 && recovery.after(event).state
            == TransportRecoveryState::WaitingForDevice,
{
}

/// An attempt begins from a recovery that is pending or waited for the device and has an attempt
/// left; it counts one more and rebuilds the mappings. Otherwise nothing changes.
pub proof fn attempt_counts_one_more(recovery: TransportRecoverySnapshot)
    ensures
        ({
            let begun = recovery.after(RecoveryEvent::AttemptBegun);
            let may_begin = recovery.attempt < 2 && (recovery.state
                == TransportRecoveryState::Pending || recovery.state
                == TransportRecoveryState::WaitingForDevice);
            &&& may_begin ==> begun.attempt == recovery.attempt + 1 && begun.state
                == TransportRecoveryState::RebuildingMappings
            &&& !may_begin ==> begun == recovery
        }),
{
}

/// How each stage of an attempt ends. Success leads on: from the mappings to the control connection,
/// from there to Virtual Desktop, and from there to a transport that is recovered. Failure leaves
/// the recovery pending after the first attempt, and failed after the second.
pub proof fn stages_of_an_attempt(recovery: TransportRecoverySnapshot, succeeded: bool)
    requires
        recovery.attempt <= 2,
    ensures
        ({
            let (generation, attempt) = (recovery.generation, recovery.attempt);
            let failed = if recovery.attempt == 2 {
                TransportRecoveryState::Failed
            } else {
                TransportRecoveryState::Pending
            };
            let restarting = recovery.state == TransportRecoveryState::RestartingVirtualDesktop;
            let waiting = recovery.state == TransportRecoveryState::AwaitingControl;
            &&& recovery.after(RecoveryEvent::AttemptFinished(generation, succeeded)).state
                == if succeeded {
                TransportRecoveryState::AwaitingControl
            } else {
                failed
            }
            &&& waiting ==> recovery.after(RecoveryEvent::RestartBegun).state
                == TransportRecoveryState::RestartingVirtualDesktop
            &&& waiting ==> recovery.after(RecoveryEvent::ControlExpired(generation, attempt)).state
                == failed
            &&& restarting ==> recovery.after(
                RecoveryEvent::RestartFinished(generation, attempt, succeeded),
            ).state == if succeeded {
                TransportRecoveryState::Recovered
            } else {
                failed
            }
        }),
{
}

/// A report counts only in the stage that it belongs to, and only for the attempt that is under
/// way.
pub proof fn reports_count_in_their_stage(
    recovery: TransportRecoverySnapshot,
    generation: u64,
    attempt: u32,
    succeeded: bool,
)
    ensures
        recovery.state != TransportRecoveryState::AwaitingControl ==> recovery.after(
            RecoveryEvent::RestartBegun,
        ) == recovery,
        recovery.state != TransportRecoveryState::AwaitingControl || recovery.attempt != attempt
            ==> recovery.after(RecoveryEvent::ControlExpired(generation, attempt)) == recovery,
        recovery.state != TransportRecoveryState::RestartingVirtualDesktop || recovery.attempt
            != attempt ==> recovery.after(
            RecoveryEvent::RestartFinished(generation, attempt, succeeded),
        ) == recovery,
{
}

} // verus!
