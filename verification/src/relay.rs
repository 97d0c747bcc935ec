//! The relay gate, and the rules by which it opens and closes.
//!
//! Flows pass while the carrier is healthy and the control connection is authenticated. Losing
//! the control connection closes the relay gate only after a grace period, so a short interruption
//! leaves the flows alone. Each period of grace has an epoch; a timer that fires for an earlier
//! epoch has no effect.
use crate::state::{
    HostState, StateSnapshot, CONTROL_TRANSPORT_LOST_REASON, TRANSPORT_RECOVERY_REASON,
};
use crate::text::same_text;
use crate::time::Duration;
use vstd::prelude::*;

verus! {

/// What the relay consults before it passes a flow on. The generation changes with each opening
/// and each closing, and flows of another generation are dropped.
#[derive(Clone, Copy, Debug, PartialEq, Eq, Structural)]
pub struct RelayGate {
    pub enabled: bool,
    pub generation: u64,
}

/// The number after `n`, zero after the last one.
pub open spec fn successor(n: u64) -> u64 {
    if n == u64::MAX {
        0
    } else {
        (n + 1) as u64
    }
}

impl RelayGate {
    /// The relay gate once it was told to be open or closed.
    pub open spec fn set(self, enabled: bool) -> RelayGate {
        if self.enabled == enabled {
            self
        } else {
            RelayGate { enabled, generation: successor(self.generation) }
        }
    }

    pub fn set_enabled(&mut self, enabled: bool)
        ensures
            *final(self) == old(self).set(enabled),
    {
        if self.enabled != enabled {
            self.enabled = enabled;
            self.generation = self.generation.wrapping_add(1);
        }
    }

    pub fn is_enabled(&self) -> (enabled: bool)
        ensures
            enabled == self.enabled,
    {
        self.enabled
    }

    pub fn generation(&self) -> (generation: u64)
        ensures
            generation == self.generation,
    {
        self.generation
    }
}

impl Default for RelayGate {
    /// A closed gate.
    fn default() -> (gate: Self)
        ensures
            gate == (RelayGate { enabled: false, generation: 0 }),
    {
        RelayGate { enabled: false, generation: 0 }
    }
}

/// What decides whether flows may pass.
#[derive(Clone, Copy, Debug, PartialEq, Eq, Structural)]
pub struct RelayEligibility {
    pub carrier_healthy: bool,
    pub control_authenticated: bool,
    pub control_loss_pending: bool,
    pub control_epoch: u64,
}

/// The relay gate together with what decides over it.
#[derive(Clone, Copy, Debug, PartialEq, Eq, Structural)]
pub struct RelayGateController {
    pub gate: RelayGate,
    pub eligibility: RelayEligibility,
    pub control_loss_grace: Duration,
}

/// Something that bears on the relay gate.
pub enum GateEvent {
    /// The control connection was authenticated.
    ControlConnected,
    /// The device woke and authenticated anew.
    AuthenticatedWake,
    /// The control connection was lost.
    ControlDegraded,
    /// The grace period of this epoch ended, or the device was found asleep in it.
    ControlLossConfirmed(u64),
    /// The control connection is over.
    ControlInactive,
    /// The carrier was lost.
    CarrierLost,
    /// The carrier works.
    CarrierHealthy,
}

impl RelayGateController {
    /// The relay gate stands open exactly while flows may pass, and only an authenticated
    /// connection can be in its grace period.
    pub open spec fn consistent(self) -> bool {
        &&& self.gate.enabled == (self.eligibility.carrier_healthy
            && self.eligibility.control_authenticated)
        &&& self.eligibility.control_loss_pending ==> self.eligibility.control_authenticated
    }

    /// The control connection ended: a new epoch without authentication, and a closed gate.
    pub open spec fn unauthenticated(self) -> RelayGateController {
        RelayGateController {
            gate: self.gate.set(false),
            eligibility: RelayEligibility {
                control_epoch: successor(self.eligibility.control_epoch),
                control_loss_pending: false,
                control_authenticated: false,
                ..self.eligibility
            },
            ..self
        }
    }

    /// A loss of the control connection would start a grace period.
    pub open spec fn loss_starts_grace(self) -> bool {
        self.eligibility.control_authenticated && !self.eligibility.control_loss_pending
    }

    /// The end of the grace period of `epoch` would close the relay gate.
    pub open spec fn loss_confirmed_by(self, epoch: u64) -> bool {
        self.eligibility.control_epoch == epoch && self.eligibility.control_authenticated
    }

    /// The controller after `event`.
    pub open spec fn after(self, event: GateEvent) -> RelayGateController {
        match event {
            GateEvent::ControlConnected => RelayGateController {
                gate: self.gate.set(self.eligibility.carrier_healthy),
                eligibility: RelayEligibility {
                    control_epoch: successor(self.eligibility.control_epoch),
                    control_loss_pending: false,
                    control_authenticated: true,
                    ..self.eligibility
                },
                ..self
            },
            GateEvent::AuthenticatedWake => self.unauthenticated(),
            GateEvent::ControlDegraded => if self.loss_starts_grace() {
                RelayGateController {
                    eligibility: RelayEligibility {
                        control_epoch: successor(self.eligibility.control_epoch),
                        control_loss_pending: true,
                        ..self.eligibility
                    },
                    ..self
                }
            } else {
                self
            },
            GateEvent::ControlLossConfirmed(epoch) => if self.loss_confirmed_by(epoch) {
                self.unauthenticated()
            } else {
                self
            },
            GateEvent::ControlInactive => self.unauthenticated(),
            GateEvent::CarrierLost => RelayGateController {
                eligibility: RelayEligibility {
                    carrier_healthy: false,
                    ..self.unauthenticated().eligibility
                },
                ..self.unauthenticated()
            },
            GateEvent::CarrierHealthy => RelayGateController {
                gate: self.gate.set(self.eligibility.control_authenticated),
                eligibility: RelayEligibility { carrier_healthy: true, ..self.eligibility },
                ..self
            },
        }
    }

    /// The controller after `events`, in order.
    pub open spec fn after_all(self, events: Seq<GateEvent>) -> RelayGateController
        decreases events.len(),
    {
        if events.len() == 0 {
            self
        } else {
            self.after_all(events.drop_last()).after(events.last())
        }
    }

    /// A controller with the usual grace period of three seconds.
    pub fn new(gate: RelayGate) -> (controller: Self)
        ensures
            controller.gate == gate,
            controller.eligibility == (RelayEligibility {
                carrier_healthy: true,
                control_authenticated: false,
                control_loss_pending: false,
                control_epoch: 0,
            }),
            controller.control_loss_grace@ == 3_000_000_000,
            !gate.enabled ==> controller.consistent(),
    {
        Self::with_control_loss_grace(gate, Duration::from_secs(3))
    }

    /// A controller with its own grace period.
    pub fn with_control_loss_grace(gate: RelayGate, control_loss_grace: Duration) -> (controller:
        Self)
        ensures
            controller == (RelayGateController {
                gate,
                eligibility: RelayEligibility {
                    carrier_healthy: true,
                    control_authenticated: false,
                    control_loss_pending: false,
                    control_epoch: 0,
                },
                control_loss_grace,
            }),
            !gate.enabled ==> controller.consistent(),
    {
        RelayGateController {
            gate,
            eligibility: RelayEligibility {
                carrier_healthy: true,
                control_authenticated: false,
                control_loss_pending: false,
                control_epoch: 0,
            },
            control_loss_grace,
        }
    }

    pub fn control_connected(&mut self)
        ensures
            *final(self) == old(self).after(GateEvent::ControlConnected),
    {
        self.eligibility.control_epoch = self.eligibility.control_epoch.wrapping_add(1);
        self.eligibility.control_loss_pending = false;
        self.eligibility.control_authenticated = true;
        self.gate.set_enabled(self.eligibility.carrier_healthy);
    }

    pub fn authenticated_wake(&mut self)
        ensures
            *final(self) == old(self).after(GateEvent::AuthenticatedWake),
    {
        self.control_inactive();
    }

    /// Starts a grace period, unless one runs already or there is nothing to lose, and returns
    /// its epoch: once [`RelayGateController::control_loss_grace`] has passed,
    /// [`RelayGateController::expire_control_loss`] is due for it.
    pub fn control_degraded(&mut self) -> (epoch: Option<u64>)
        ensures
            *final(self) == old(self).after(GateEvent::ControlDegraded),
            epoch == if old(self).loss_starts_grace() {
                Some(final(self).eligibility.control_epoch)
            } else {
                None
            },
    {
        if !self.eligibility.control_authenticated || self.eligibility.control_loss_pending {
            return None;
        }
        self.eligibility.control_epoch = self.eligibility.control_epoch.wrapping_add(1);
        self.eligibility.control_loss_pending = true;
        Some(self.eligibility.control_epoch)
    }

    /// The grace period of `epoch` ended.
    pub fn expire_control_loss(&mut self, epoch: u64)
        ensures
            *final(self) == old(self).after(GateEvent::ControlLossConfirmed(epoch)),
    {
        let _ = self.control_inactive_if_epoch(epoch);
    }

    /// The epoch of the grace period that runs, if one does.
    pub fn pending_control_epoch(&self) -> (epoch: Option<u64>)
        ensures
            epoch == if self.eligibility.control_authenticated
                && self.eligibility.control_loss_pending {
                Some(self.eligibility.control_epoch)
            } else {
                None
            },
    {
        if self.eligibility.control_authenticated && self.eligibility.control_loss_pending {
            Some(self.eligibility.control_epoch)
        } else {
            None
        }
    }

    /// Ends the control connection if `epoch` is still the current one, and says whether it did.
    pub fn control_inactive_if_epoch(&mut self, epoch: u64) -> (ended: bool)
        ensures
            *final(self) == old(self).after(GateEvent::ControlLossConfirmed(epoch)),
            ended == old(self).loss_confirmed_by(epoch),
    {
        if self.eligibility.control_epoch != epoch || !self.eligibility.control_authenticated {
            return false;
        }
        self.control_inactive();
        true
    }

    pub fn control_inactive(&mut self)
        ensures
            *final(self) == old(self).after(GateEvent::ControlInactive),
    {
        self.eligibility.control_epoch = self.eligibility.control_epoch.wrapping_add(1);
        self.eligibility.control_loss_pending = false;
        self.eligibility.control_authenticated = false;
        self.gate.set_enabled(false);
    }

    pub fn carrier_lost(&mut self)
        ensures
            *final(self) == old(self).after(GateEvent::CarrierLost),
    {
        self.control_inactive();
        self.eligibility.carrier_healthy = false;
    }

    pub fn carrier_healthy(&mut self)
        ensures
            *final(self) == old(self).after(GateEvent::CarrierHealthy),
    {
        self.eligibility.carrier_healthy = true;
        self.gate.set_enabled(self.eligibility.control_authenticated);
    }
}

/// What a change of the lifecycle means for the relay gate: nothing while the host prepares, nor
/// when it is degraded for a reason that leaves the transport alone.
pub open spec fn gate_event(snapshot: StateSnapshot) -> Option<GateEvent> {
    match snapshot.state {
        HostState::Connected => Some(GateEvent::ControlConnected),
        HostState::Degraded => match snapshot.reason {
            Some(reason) => if reason@ == TRANSPORT_RECOVERY_REASON@ {
                Some(GateEvent::CarrierLost)
            } else if reason@ == CONTROL_TRANSPORT_LOST_REASON@ {
                Some(GateEvent::ControlDegraded)
            } else {
                None
            },
            None => None,
        },
        HostState::Stopped | HostState::Stopping | HostState::Error => Some(
            GateEvent::ControlInactive,
        ),
        HostState::Preparing => None,
    }
}

/// Adapts the relay gate to the lifecycle. A result is the epoch of a grace period that started, as
/// in [`RelayGateController::control_degraded`].
pub fn update_relay_gate(relay_gate: &mut RelayGateController, snapshot: &StateSnapshot) -> (epoch:
    Option<u64>)
    ensures
        *final(relay_gate) == match gate_event(*snapshot) {
            Some(event) => old(relay_gate).after(event),
            None => *old(relay_gate),
        },
        epoch == if gate_event(*snapshot) == Some(GateEvent::ControlDegraded) && old(
            relay_gate,
        ).loss_starts_grace() {
            Some(final(relay_gate).eligibility.control_epoch)
        } else {
            None
        },
{
    match snapshot.state {
        HostState::Connected => {
            relay_gate.control_connected();
            None
        },
        HostState::Degraded => match &snapshot.reason {
            Some(reason) => {
                if same_text(reason.as_str(), TRANSPORT_RECOVERY_REASON) {
                    relay_gate.carrier_lost();
                    None
                } else if same_text(reason.as_str(), CONTROL_TRANSPORT_LOST_REASON) {
                    relay_gate.control_degraded()
                } else {
                    None
                }
            },
            None => None,
        },
        HostState::Stopped | HostState::Stopping | HostState::Error => {
            relay_gate.control_inactive();
            None
        },
        HostState::Preparing => None,
    }
}

/// Whatever happens, the relay gate stands open exactly while the carrier is healthy and the
/// control connection is authenticated.
pub proof fn gate_follows_eligibility(controller: RelayGateController, events: Seq<GateEvent>)
    requires
        controller.consistent(),
    ensures
        controller.after_all(events).consistent(),
    decreases events.len(),
{
    if events.len() > 0 {
        gate_follows_eligibility(controller, events.drop_last());
    }
}

/// The generation of the relay gate advances when it opens or closes, and only then.
pub proof fn generation_marks_each_change(controller: RelayGateController, event: GateEvent)
    ensures
        controller.after(event).gate.generation == if controller.after(event).gate.enabled
            == controller.gate.enabled {
            controller.gate.generation
        } else {
            successor(controller.gate.generation)
        },
{
}

/// A control connection that is lost and comes back leaves the relay gate as it was: the same
/// generation, with nothing dropped.
pub proof fn transient_loss_keeps_flows(controller: RelayGateController)
    requires
        controller.consistent(),
        controller.eligibility.control_authenticated,
    ensures
        controller.after(GateEvent::ControlDegraded).gate == controller.gate,
        controller.after(GateEvent::ControlDegraded).after(GateEvent::ControlConnected).gate
            == controller.gate,
{
}

/// Losing the control connection again during the grace period changes nothing, so the period is
/// not extended.
pub proof fn repeated_loss_does_not_extend_grace(controller: RelayGateController)
    ensures
        controller.after(GateEvent::ControlDegraded).after(GateEvent::ControlDegraded)
            == controller.after(GateEvent::ControlDegraded),
        !controller.after(GateEvent::ControlDegraded).loss_starts_grace(),
{
}

/// A grace period that ends without a new connection closes an open gate.
pub proof fn sustained_loss_closes_the_gate(controller: RelayGateController)
    requires
        controller.consistent(),
        controller.gate.enabled,
    ensures
        ({
            let degraded = controller.after(GateEvent::ControlDegraded);
            let expired = degraded.after(
                GateEvent::ControlLossConfirmed(degraded.eligibility.control_epoch),
            );
            !expired.gate.enabled && expired.gate.generation == successor(
                controller.gate.generation,
            )
        }),
{
}

/// While no connection is authenticated, nothing but a new connection opens the relay gate.
pub proof fn only_a_connection_reopens(controller: RelayGateController, events: Seq<GateEvent>)
    requires
        controller.consistent(),
        !controller.eligibility.control_authenticated,
        forall|i: int| 0 <= i < events.len() ==> !(#[trigger] events[i] is ControlConnected),
    ensures
        !controller.after_all(events).eligibility.control_authenticated,
        !controller.after_all(events).gate.enabled,
    decreases events.len(),
{
    if events.len() > 0 {
        only_a_connection_reopens(controller, events.drop_last());
        assert(!(events[events.len() - 1] is ControlConnected));
        gate_follows_eligibility(controller, events.drop_last());
    }
}

/// While the carrier is lost, nothing but a healthy carrier opens the relay gate.
pub proof fn only_a_healthy_carrier_reopens(
    controller: RelayGateController,
    events: Seq<GateEvent>,
)
    requires
        controller.consistent(),
        !controller.eligibility.carrier_healthy,
        forall|i: int| 0 <= i < events.len() ==> !(#[trigger] events[i] is CarrierHealthy),
    ensures
        !controller.after_all(events).eligibility.carrier_healthy,
        !controller.after_all(events).gate.enabled,
    decreases events.len(),
{
    if events.len() > 0 {
        only_a_healthy_carrier_reopens(controller, events.drop_last());
        assert(!(events[events.len() - 1] is CarrierHealthy));
        gate_follows_eligibility(controller, events.drop_last());
    }
}

/// How many of `events` start a new epoch.
pub open spec fn epochs_started(controller: RelayGateController, events: Seq<GateEvent>) -> nat
    decreases events.len(),
{
    if events.len() == 0 {
        0
    } else {
        let before = controller.after_all(events.drop_last());
        let started: nat = if before.after(events.last()).eligibility.control_epoch
            == before.eligibility.control_epoch {
            0
        } else {
            1
        };
        epochs_started(controller, events.drop_last()) + started
    }
}

proof fn lemma_epoch_counts(controller: RelayGateController, events: Seq<GateEvent>)
    ensures
        controller.after_all(events).eligibility.control_epoch
            == (controller.eligibility.control_epoch + epochs_started(controller, events))
            % 0x1_0000_0000_0000_0000,
    decreases events.len(),
{
    if events.len() > 0 {
        lemma_epoch_counts(controller, events.drop_last());
    }
}

/// A timer or probe that was started for an earlier epoch does nothing, as long as fewer than
/// 2^64 epochs were started since.
pub proof fn superseded_loss_is_ignored(controller: RelayGateController, events: Seq<GateEvent>)
    requires
        0 < epochs_started(controller, events) < 0x1_0000_0000_0000_0000,
    ensures
        controller.after_all(events).after(
            GateEvent::ControlLossConfirmed(controller.eligibility.control_epoch),
        ) == controller.after_all(events),
        !controller.after_all(events).loss_confirmed_by(controller.eligibility.control_epoch),
{
    lemma_epoch_counts(controller, events);
}

/// A new connection, a wake, the end of the connection and the loss of the carrier all start a
/// new epoch.
pub proof fn decisive_events_start_an_epoch(controller: RelayGateController, event: GateEvent)
    requires
        event is ControlConnected || event is AuthenticatedWake || event is ControlInactive
            || event is CarrierLost,
    ensures
        epochs_started(controller, seq![event]) == 1,
{
    assert(seq![event].drop_last() == Seq::<GateEvent>::empty());
    assert(controller.after_all(Seq::empty()) == controller);
    assert(epochs_started(controller, Seq::<GateEvent>::empty()) == 0);
}

/// A wake closes an open gate and the connection that follows opens it again, each in a new
/// generation, so flows from before the wake are dropped.
pub proof fn wake_rotates_flows(controller: RelayGateController)
    requires
        controller.consistent(),
        controller.gate.enabled,
    ensures
        ({
            let woken = controller.after(GateEvent::AuthenticatedWake);
            let back = woken.after(GateEvent::ControlConnected);
            &&& !woken.gate.enabled
            &&& woken.gate.generation == successor(controller.gate.generation)
            &&& back.gate.enabled
            &&& back.gate.generation == successor(woken.gate.generation)
        }),
{
}

/// What each change means for the relay gate, in terms of the carrier and the connection alone: a
/// new connection is authenticated, a wake, the end of the connection and the loss of the carrier
/// end that, and the carrier is what it was last found to be.
pub proof fn eligibility_follows_what_happens(controller: RelayGateController, event: GateEvent)
    ensures
        ({
            let before = controller.eligibility;
            let after = controller.after(event).eligibility;
            &&& event is ControlConnected ==> after.control_authenticated
                && !after.control_loss_pending
            &&& event is AuthenticatedWake || event is ControlInactive || event is CarrierLost
                ==> !after.control_authenticated && !after.control_loss_pending
            &&& event is CarrierLost ==> !after.carrier_healthy
            &&& event is CarrierHealthy ==> after.carrier_healthy
            &&& event !is CarrierLost && event !is CarrierHealthy ==> after.carrier_healthy
                == before.carrier_healthy
            &&& event is CarrierHealthy ==> after == (RelayEligibility {
                carrier_healthy: true,
                ..before
            })
            &&& controller.after(event).control_loss_grace == controller.control_loss_grace
        }),
{
}

/// A lost connection keeps its authentication for the grace period, which is its own epoch; without
/// authentication, or within a grace period, there is nothing to lose.
pub proof fn lost_connection_gets_a_grace_period(controller: RelayGateController)
    ensures
        ({
            let before = controller.eligibility;
            let degraded = controller.after(GateEvent::ControlDegraded);
            let starts = before.control_authenticated && !before.control_loss_pending;
            &&& controller.loss_starts_grace() == starts
            &&& starts ==> degraded.eligibility.control_loss_pending
                && degraded.eligibility.control_authenticated
                && degraded.eligibility.control_epoch != before.control_epoch && degraded.gate
                == controller.gate && degraded.eligibility.carrier_healthy == before.carrier_healthy
            &&& !starts ==> degraded == controller
        }),
{
}

/// The end of a grace period ends the connection exactly when its epoch is the current one and the
/// connection is still authenticated, in the way that its end does.
pub proof fn grace_period_ends_its_own_connection(controller: RelayGateController, epoch: u64)
    ensures
        ({
            let confirmed = controller.after(GateEvent::ControlLossConfirmed(epoch));
            let own = controller.eligibility.control_epoch == epoch
                && controller.eligibility.control_authenticated;
            &&& controller.loss_confirmed_by(epoch) == own
            &&& own ==> confirmed == controller.after(GateEvent::ControlInactive)
            &&& !own ==> confirmed == controller
        }),
{
}

/// What a state of the lifecycle means for the relay gate. A connection opens the way; the end, the
/// ending and an error close it; preparing means nothing. A degraded lifecycle means what its reason
/// says: the carrier is lost while the transport is rebuilt, a grace period starts when the control
/// connection is lost, and any other reason, or none, means nothing.
pub proof fn lifecycle_moves_the_gate(snapshot: StateSnapshot)
    ensures
        snapshot.state == HostState::Connected ==> gate_event(snapshot) == Some(
            GateEvent::ControlConnected,
        ),
        snapshot.state == HostState::Preparing ==> gate_event(snapshot) is None,
        snapshot.state == HostState::Stopped || snapshot.state == HostState::Stopping
            || snapshot.state == HostState::Error ==> gate_event(snapshot) == Some(
            GateEvent::ControlInactive,
        ),
        snapshot.state == HostState::Degraded && snapshot.reason is None ==> gate_event(snapshot)
            is None,
        snapshot.state == HostState::Degraded ==> (snapshot.reason matches Some(reason) ==> {
            &&& gate_event(snapshot) == Some(GateEvent::CarrierLost) <==> reason@
                == "rebuilding the wired transport generation"@
            &&& gate_event(snapshot) == Some(GateEvent::ControlDegraded) <==> reason@
                == "control transport lost"@
            &&& gate_event(snapshot) is None <==> reason@
                != "rebuilding the wired transport generation"@ && reason@
                != "control transport lost"@
        }),
{
    reveal_strlit("rebuilding the wired transport generation");
    reveal_strlit("control transport lost");
    assert("rebuilding the wired transport generation"@.len() != "control transport lost"@.len());
}

} // verus!
