//! The loop of the carrier monitor: it follows the device tracker and decides what to do about
//! each update, each tick of its timer and each notification.
//!
//! The loop is a function from a step to the action that is to be taken next. The caller performs
//! the action and comes back with the step that it leads to.
use crate::monitor::{
    events_follow_each_other, internal, lemma_no_event, lemma_one_event, lemma_two_events,
    suppression_is_permanent, AdbHealthMonitor, MonitorEvent, MonitorModel,
};
use crate::reconcile::CarrierFailure;
use crate::recovery::{TransportRecoveryState, TransportRecoveryTrigger};
use crate::time::{next_backoff, Duration};
use crate::track::{DecoderModel, TrackDevicesDecoder, TrackDevicesMode};
use vstd::prelude::*;

verus! {

/// How often the loop looks after an unhealthy carrier by itself.
pub fn healthy_interval() -> (span: Duration)
    ensures
        span@ == 2_000_000_000,
{
    Duration::from_secs(2)
}

/// How long a command to the device may take within the loop.
pub fn monitor_adb_timeout() -> (span: Duration)
    ensures
        span@ == 500_000_000,
{
    Duration::from_millis(500)
}

/// How long to wait before a failed device tracker is started again, at first.
pub fn initial_backoff() -> (span: Duration)
    ensures
        span@ == 250_000_000,
{
    Duration::from_millis(250)
}

/// How long to wait before a failed device tracker is started again, at most.
pub fn max_backoff() -> (span: Duration)
    ensures
        span@ == 5_000_000_000,
{
    Duration::from_secs(5)
}

/// Whether the device was there when the tracker last said so. An old word that it is not there
/// does not count: it was acted on when it came, and repeating it could undo an authentication
/// that came since.
pub fn cached_device_is_available(device_available: Option<bool>) -> (result: bool)
    ensures
        result == (device_available == Some(true)),
{
    match device_available {
        Some(available) => available,
        None => false,
    }
}

/// Whether a tick of the timer reconciles: if that was ordered, or if the device is there and the
/// mappings are not healthy. A healthy carrier is left alone, since a probe shares it with the
/// traffic.
pub open spec fn reconciles_on_tick(
    forced: bool,
    device_available: Option<bool>,
    mappings_healthy: bool,
) -> bool {
    forced || device_available == Some(true) && !mappings_healthy
}

pub fn should_reconcile_on_healthy_tick(
    forced: bool,
    device_available: Option<bool>,
    mappings_healthy: bool,
) -> (result: bool)
    ensures
        result == reconciles_on_tick(forced, device_available, mappings_healthy),
{
    forced || (cached_device_is_available(device_available) && !mappings_healthy)
}

/// What made the loop look after the carrier.
#[derive(Clone, Copy, Debug, PartialEq, Eq, Structural)]
pub enum PassSource {
    /// The tracker said that the device is there, or that it is not.
    Update(bool),
    /// The timer.
    HealthyTick,
    /// The monitor was notified of a change.
    Changed,
}

/// One pass over the carrier. It is forced when an authenticated connection ordered it.
#[derive(Clone, Copy, Debug, PartialEq, Eq, Structural)]
pub struct Pass {
    pub source: PassSource,
    pub forced: bool,
}

/// Where the loop stands.
pub enum TrackingStep {
    Start,
    TrackerSpawnFailed,
    TrackerStdoutUnavailable,
    TrackerSpawned,
    /// The tracker wrote these bytes; none when it has ended.
    Read(Vec<u8>),
    ReadFailed,
    HealthyTick,
    Changed,
    /// The completion of a recovery was tried. It was one that waited if `completed` says so.
    CompletionTried { pass: Pass, completed: bool },
    /// A recovery was tried. There was one to be made if `handled` says so.
    RecoveryTried { pass: Pass, handled: bool },
    Reconciled(Pass),
    TrackerStopped(Option<CarrierFailure>),
    FailureHandled,
    /// The wait before the next start of the tracker is over, or the monitor was notified.
    Slept,
}

/// What the loop has to do next.
#[derive(Clone, Copy, Debug, PartialEq, Eq, Structural)]
pub enum TrackingAction {
    /// End: the monitor is stopping.
    Return,
    /// Start the device tracker.
    SpawnTracker,
    /// Wait for output of the tracker, the timer or a notification.
    AwaitEvent,
    /// Complete a recovery that waits for it.
    CompleteRecovery(Pass),
    /// Recover the transport.
    RecoverTransport { pass: Pass, device_available: bool },
    /// Reconcile the carrier.
    Reconcile { pass: Pass, device_available: bool },
    /// Stop the tracker.
    StopTracker(Option<CarrierFailure>),
    /// Act on the failure of the tracker.
    HandleFailure(CarrierFailure),
    /// Wait for the backoff or a notification.
    Sleep,
}

/// An action of the loop. With `wake_again` the monitor is to be woken a tenth of a second later
/// besides.
#[derive(Clone, Copy, Debug, PartialEq, Eq, Structural)]
pub struct Turn {
    pub action: TrackingAction,
    pub wake_again: bool,
}

/// What the loop keeps from one step to the next.
pub struct DeviceTracking {
    pub backoff: Duration,
    pub decoder: TrackDevicesDecoder,
    /// What the tracker last said of the device.
    pub device_available: Option<bool>,
    /// What the tracker said that was not acted on yet.
    pub pending: Vec<bool>,
}

/// The mathematical model of a [`DeviceTracking`].
#[verifier::ext_equal]
pub struct TrackingModel {
    pub backoff: int,
    pub decoder: DecoderModel,
    pub device_available: Option<bool>,
    pub pending: Seq<bool>,
}

impl View for DeviceTracking {
    type V = TrackingModel;

    open spec fn view(&self) -> TrackingModel {
        TrackingModel {
            backoff: self.backoff@,
            decoder: self.decoder@,
            device_available: self.device_available,
            pending: self.pending@,
        }
    }
}

/// The loop with the monitor that it runs for.
#[verifier::ext_equal]
pub struct Supervision {
    pub tracking: TrackingModel,
    pub monitor: MonitorModel,
}

/// A turn without a wake.
pub open spec fn turn(action: TrackingAction) -> Turn {
    Turn { action, wake_again: false }
}

impl TrackingModel {
    /// The loop before its first step.
    pub open spec fn fresh() -> TrackingModel {
        TrackingModel {
            backoff: 250_000_000,
            decoder: TrackDevicesDecoder::start(),
            device_available: None,
            pending: Seq::empty(),
        }
    }
}

impl Supervision {
    /// Takes the order to reconcile in any case.
    pub open spec fn order_taken(self) -> Supervision {
        Supervision {
            monitor: self.monitor.order_taken(),
            ..self
        }
    }

    /// The pass over an update begins: a recovery that waits is completed first if that was
    /// ordered, and the transport is recovered otherwise.
    pub open spec fn update_begun(self, available: bool) -> (Supervision, TrackingAction) {
        let noted = Supervision {
            tracking: TrackingModel {
                device_available: Some(available),
                pending: self.tracking.pending.drop_first(),
                ..self.tracking
            },
            monitor: if available {
                self.monitor.usb_reconnected()
            } else {
                self.monitor
            },
        };
        let pass = Pass {
            source: PassSource::Update(available),
            forced: noted.monitor.authenticated_reconcile,
        };
        (
            noted.order_taken(),
            if pass.forced {
                TrackingAction::CompleteRecovery(pass)
            } else {
                TrackingAction::RecoverTransport { pass, device_available: available }
            },
        )
    }

    /// A pass is over: the next update follows, or the wait for an event.
    pub open spec fn pass_ended(self) -> (Supervision, TrackingAction) {
        if self.tracking.pending.len() > 0 {
            self.update_begun(self.tracking.pending.first())
        } else if self.monitor.stopping {
            (self, TrackingAction::StopTracker(None))
        } else {
            (self, TrackingAction::AwaitEvent)
        }
    }

    /// What follows when no recovery waited for its completion. An update always goes through a
    /// recovery; otherwise there is one only if it is required, and the carrier is reconciled if
    /// not.
    pub open spec fn without_completion(self, pass: Pass) -> (Supervision, TrackingAction) {
        let cached = self.tracking.device_available == Some(true);
        let requires_recovery = self.monitor.transport_recovery.state.requires_recovery();
        match pass.source {
            PassSource::Update(available) => (
                self,
                TrackingAction::RecoverTransport { pass, device_available: available },
            ),
            PassSource::HealthyTick => if requires_recovery {
                (self, TrackingAction::RecoverTransport { pass, device_available: cached })
            } else if reconciles_on_tick(
                pass.forced,
                self.tracking.device_available,
                self.monitor.status.mappings_healthy,
            ) {
                (self, TrackingAction::Reconcile { pass, device_available: true })
            } else {
                self.pass_ended()
            },
            PassSource::Changed => if requires_recovery {
                (self, TrackingAction::RecoverTransport { pass, device_available: cached })
            } else if pass.forced || cached {
                (self, TrackingAction::Reconcile { pass, device_available: true })
            } else {
                self.pass_ended()
            },
        }
    }

    /// A pass begins because of the timer or a notification.
    pub open spec fn pass_begun(self, source: PassSource) -> (Supervision, TrackingAction) {
        let pass = Pass { source, forced: self.monitor.authenticated_reconcile };
        if pass.forced {
            (self.order_taken(), TrackingAction::CompleteRecovery(pass))
        } else {
            self.order_taken().without_completion(pass)
        }
    }

    /// The order to reconcile is renewed after a pass that was forced and left the mappings
    /// unhealthy.
    pub open spec fn renews_order(self, pass: Pass) -> bool {
        pass.forced && self.monitor.renews_order()
    }
}

/// The loop, the monitor and the turn that a step leads to.
pub open spec fn tracking_next(state: Supervision, step: TrackingStep) -> (Supervision, Turn) {
    let stopping = state.monitor.stopping;
    match step {
        TrackingStep::Start => (
            state,
            turn(
                if stopping {
                    TrackingAction::Return
                } else {
                    TrackingAction::SpawnTracker
                },
            ),
        ),
        TrackingStep::TrackerSpawnFailed => (
            state,
            turn(TrackingAction::HandleFailure(CarrierFailure::TrackSpawnFailed)),
        ),
        TrackingStep::TrackerStdoutUnavailable => (
            state,
            turn(TrackingAction::HandleFailure(CarrierFailure::TrackStdoutUnavailable)),
        ),
        TrackingStep::TrackerSpawned => (
            Supervision {
                tracking: TrackingModel {
                    backoff: state.tracking.backoff,
                    ..TrackingModel::fresh()
                },
                monitor: state.monitor.with_status(
                    true,
                    state.monitor.status.device_available,
                    state.monitor.status.mappings_healthy,
                    None,
                ),
            },
            turn(TrackingAction::AwaitEvent),
        ),
        TrackingStep::Read(bytes) => if bytes@.len() == 0 {
            (state, turn(TrackingAction::StopTracker(Some(CarrierFailure::TrackExited))))
        } else {
            let decoded = state.tracking.decoder.with_bytes(bytes@).decode();
            let read = Supervision {
                tracking: TrackingModel { decoder: decoded.decoder, ..state.tracking },
                ..state
            };
            if decoded.error is Some {
                (read, turn(TrackingAction::StopTracker(Some(CarrierFailure::TrackDecodeFailed))))
            } else {
                let (next, action) = Supervision {
                    tracking: TrackingModel { pending: decoded.updates, ..read.tracking },
                    ..read
                }.pass_ended();
                (next, turn(action))
            }
        },
        TrackingStep::ReadFailed => (
            state,
            turn(TrackingAction::StopTracker(Some(CarrierFailure::TrackReadFailed))),
        ),
        TrackingStep::HealthyTick => {
            let (next, action) = Supervision {
                tracking: TrackingModel { backoff: 250_000_000, ..state.tracking },
                ..state
            }.pass_begun(PassSource::HealthyTick);
            (next, turn(action))
        },
        TrackingStep::Changed => if stopping {
            (state, turn(TrackingAction::StopTracker(None)))
        } else {
            let (next, action) = state.pass_begun(PassSource::Changed);
            (next, turn(action))
        },
        TrackingStep::CompletionTried { pass, completed } => {
            let (next, action) = if completed {
                state.pass_ended()
            } else {
                state.without_completion(pass)
            };
            (next, turn(action))
        },
        TrackingStep::RecoveryTried { pass, handled } => match pass.source {
            PassSource::Update(available) if !handled => (
                state,
                turn(
                    TrackingAction::Reconcile { pass, device_available: available || pass.forced },
                ),
            ),
            _ => {
                let (next, action) = state.pass_ended();
                (next, turn(action))
            },
        },
        TrackingStep::Reconciled(pass) => {
            let renews = state.renews_order(pass);
            let (next, action) = Supervision {
                monitor: if pass.forced {
                    state.monitor.order_renewed()
                } else {
                    state.monitor
                },
                ..state
            }.pass_ended();
            (next, Turn { action, wake_again: renews })
        },
        TrackingStep::TrackerStopped(failure) => (
            state,
            turn(
                if stopping {
                    TrackingAction::Return
                } else {
                    match failure {
                        Some(failure) => TrackingAction::HandleFailure(failure),
                        None => TrackingAction::SpawnTracker,
                    }
                },
            ),
        ),
        TrackingStep::FailureHandled => (state, turn(TrackingAction::Sleep)),
        TrackingStep::Slept => if stopping {
            (state, turn(TrackingAction::Return))
        } else {
            (
                Supervision {
                    tracking: TrackingModel {
                        backoff: crate::time::lesser(state.tracking.backoff * 2, 5_000_000_000),
                        ..state.tracking
                    },
                    ..state
                },
                turn(TrackingAction::SpawnTracker),
            )
        },
    }
}

impl DeviceTracking {
    pub fn new() -> (tracking: DeviceTracking)
        ensures
            tracking@ == TrackingModel::fresh(),
    {
        DeviceTracking {
            backoff: initial_backoff(),
            decoder: TrackDevicesDecoder::default(),
            device_available: None,
            pending: Vec::new(),
        }
    }

    /// The loop and the monitor, as one.
    pub open spec fn with(self, monitor: AdbHealthMonitor) -> Supervision {
        Supervision { tracking: self@, monitor: monitor@ }
    }

    fn begin_update(&mut self, monitor: &mut AdbHealthMonitor) -> (action: TrackingAction)
        requires
            old(self).pending@.len() > 0,
        ensures
            (final(self).with(*final(monitor)), action) == old(self).with(
                *old(monitor),
            ).update_begun(old(self).pending@.first()),
    {
        let available = self.pending.remove(0);
        assert(self.pending@ == old(self).pending@.drop_first());
        self.device_available = Some(available);
        if available {
            let _ = monitor.notify_usb_reconnected_if_needed();
        }
        let forced = monitor.take_authenticated_reconcile();
        let pass = Pass { source: PassSource::Update(available), forced };
        if forced {
            TrackingAction::CompleteRecovery(pass)
        } else {
            TrackingAction::RecoverTransport { pass, device_available: available }
        }
    }

    fn end_pass(&mut self, monitor: &mut AdbHealthMonitor) -> (action: TrackingAction)
        ensures
            (final(self).with(*final(monitor)), action) == old(self).with(
                *old(monitor),
            ).pass_ended(),
    {
        if self.pending.len() > 0 {
            return self.begin_update(monitor);
        }
        if monitor.stopping {
            TrackingAction::StopTracker(None)
        } else {
            TrackingAction::AwaitEvent
        }
    }

    fn continue_pass(&mut self, monitor: &mut AdbHealthMonitor, pass: Pass) -> (action:
        TrackingAction)
        ensures
            (final(self).with(*final(monitor)), action) == old(self).with(
                *old(monitor),
            ).without_completion(pass),
    {
        let cached = cached_device_is_available(self.device_available);
        let requires_recovery = monitor.transport_requires_recovery();
        match pass.source {
            PassSource::Update(available) => TrackingAction::RecoverTransport {
                pass,
                device_available: available,
            },
            PassSource::HealthyTick => {
                if requires_recovery {
                    TrackingAction::RecoverTransport { pass, device_available: cached }
                } else if should_reconcile_on_healthy_tick(
                    pass.forced,
                    self.device_available,
                    monitor.status.mappings_healthy,
                ) {
                    TrackingAction::Reconcile { pass, device_available: true }
                } else {
                    self.end_pass(monitor)
                }
            },
            PassSource::Changed => {
                if requires_recovery {
                    TrackingAction::RecoverTransport { pass, device_available: cached }
                } else if pass.forced || cached {
                    TrackingAction::Reconcile { pass, device_available: true }
                } else {
                    self.end_pass(monitor)
                }
            },
        }
    }

    fn begin_pass(&mut self, monitor: &mut AdbHealthMonitor, source: PassSource) -> (action:
        TrackingAction)
        ensures
            (final(self).with(*final(monitor)), action) == old(self).with(
                *old(monitor),
            ).pass_begun(source),
    {
        let forced = monitor.take_authenticated_reconcile();
        let pass = Pass { source, forced };
        if forced {
            TrackingAction::CompleteRecovery(pass)
        } else {
            self.continue_pass(monitor, pass)
        }
    }

    /// Takes one step of the loop.
    pub fn step(&mut self, monitor: &mut AdbHealthMonitor, step: TrackingStep) -> (next: Turn)
        ensures
            (final(self).with(*final(monitor)), next) == tracking_next(
                old(self).with(*old(monitor)),
                step,
            ),
    {
        let mut wake_again = false;
        let action = match step {
            TrackingStep::Start => {
                if monitor.stopping {
                    TrackingAction::Return
                } else {
                    TrackingAction::SpawnTracker
                }
            },
            TrackingStep::TrackerSpawnFailed => TrackingAction::HandleFailure(
                CarrierFailure::TrackSpawnFailed,
            ),
            TrackingStep::TrackerStdoutUnavailable => TrackingAction::HandleFailure(
                CarrierFailure::TrackStdoutUnavailable,
            ),
            TrackingStep::TrackerSpawned => {
                let device_available = monitor.status.device_available;
                let mappings_healthy = monitor.status.mappings_healthy;
                let _ = monitor.update_status(true, device_available, mappings_healthy, None);
                self.decoder = TrackDevicesDecoder::default();
                self.device_available = None;
                self.pending = Vec::new();
                TrackingAction::AwaitEvent
            },
            TrackingStep::Read(bytes) => {
                if bytes.len() == 0 {
                    TrackingAction::StopTracker(Some(CarrierFailure::TrackExited))
                } else {
                    match self.decoder.push(bytes.as_slice()) {
                        Ok(updates) => {
                            self.pending = updates;
                            self.end_pass(monitor)
                        },
                        Err(_) => TrackingAction::StopTracker(
                            Some(CarrierFailure::TrackDecodeFailed),
                        ),
                    }
                }
            },
            TrackingStep::ReadFailed => TrackingAction::StopTracker(
                Some(CarrierFailure::TrackReadFailed),
            ),
            TrackingStep::HealthyTick => {
                // A tracker that has lived through a whole interval is stable enough to reset the
                // backoff. One that keeps failing goes on towards the maximum.
                self.backoff = initial_backoff();
                self.begin_pass(monitor, PassSource::HealthyTick)
            },
            TrackingStep::Changed => {
                if monitor.stopping {
                    TrackingAction::StopTracker(None)
                } else {
                    self.begin_pass(monitor, PassSource::Changed)
                }
            },
            TrackingStep::CompletionTried { pass, completed } => {
                if completed {
                    self.end_pass(monitor)
                } else {
                    self.continue_pass(monitor, pass)
                }
            },
            TrackingStep::RecoveryTried { pass, handled } => {
                match pass.source {
                    PassSource::Update(available) => {
                        if handled {
                            self.end_pass(monitor)
                        } else {
                            TrackingAction::Reconcile {
                                pass,
                                device_available: available || pass.forced,
                            }
                        }
                    },
                    _ => self.end_pass(monitor),
                }
            },
            TrackingStep::Reconciled(pass) => {
                if pass.forced {
                    wake_again = monitor.retry_authenticated_reconcile_if_needed().is_some();
                }
                self.end_pass(monitor)
            },
            TrackingStep::TrackerStopped(failure) => {
                if monitor.stopping {
                    TrackingAction::Return
                } else {
                    match failure {
                        Some(failure) => TrackingAction::HandleFailure(failure),
                        None => TrackingAction::SpawnTracker,
                    }
                }
            },
            TrackingStep::FailureHandled => TrackingAction::Sleep,
            TrackingStep::Slept => {
                if monitor.stopping {
                    TrackingAction::Return
                } else {
                    self.backoff = next_backoff(self.backoff, max_backoff());
                    TrackingAction::SpawnTracker
                }
            },
        };
        Turn { action, wake_again }
    }
}

impl Supervision {
    proof fn update_events(self, available: bool) -> (events: Seq<MonitorEvent>)
        ensures
            self.update_begun(available).0.monitor == self.monitor.after_all(events),
            !available ==> internal(events),
    {
        let next = self.update_begun(available).0.monitor;
        if available {
            lemma_two_events(
                self.monitor,
                MonitorEvent::UsbReconnected,
                MonitorEvent::OrderTaken,
                next,
            )
        } else {
            lemma_one_event(self.monitor, MonitorEvent::OrderTaken, next)
        }
    }

    proof fn end_events(self) -> (events: Seq<MonitorEvent>)
        ensures
            self.pass_ended().0.monitor == self.monitor.after_all(events),
            self.tracking.pending.len() == 0 ==> internal(events),
    {
        if self.tracking.pending.len() > 0 {
            self.update_events(self.tracking.pending.first())
        } else {
            lemma_no_event(self.monitor, self.monitor)
        }
    }

    proof fn continue_events(self, pass: Pass) -> (events: Seq<MonitorEvent>)
        ensures
            self.without_completion(pass).0.monitor == self.monitor.after_all(events),
            self.tracking.pending.len() == 0 ==> internal(events),
    {
        if self.without_completion(pass).0 == self {
            lemma_no_event(self.monitor, self.monitor)
        } else {
            self.end_events()
        }
    }

    proof fn begin_events(self, source: PassSource) -> (events: Seq<MonitorEvent>)
        ensures
            self.pass_begun(source).0.monitor == self.monitor.after_all(events),
            self.tracking.pending.len() == 0 ==> internal(events),
    {
        let taken = lemma_one_event(
            self.monitor,
            MonitorEvent::OrderTaken,
            self.monitor.order_taken(),
        );
        let pass = Pass { source, forced: self.monitor.authenticated_reconcile };
        if pass.forced {
            taken
        } else {
            let rest = self.order_taken().continue_events(pass);
            events_follow_each_other(self.monitor, taken, rest);
            taken + rest
        }
    }

    proof fn read_events(self, step: TrackingStep) -> (events: Seq<MonitorEvent>)
        requires
            step is Read,
        ensures
            tracking_next(self, step).0.monitor == self.monitor.after_all(events),
    {
        let bytes = step->Read_0;
        let decoded = self.tracking.decoder.with_bytes(bytes@).decode();
        if bytes@.len() > 0 && decoded.error is None {
            let read = TrackingModel { decoder: decoded.decoder, ..self.tracking };
            Supervision {
                tracking: TrackingModel { pending: decoded.updates, ..read },
                ..self
            }.end_events()
        } else {
            lemma_no_event(self.monitor, self.monitor)
        }
    }
}

/// Each step of the loop changes the monitor by a run of the monitor's events. It keeps a
/// suppression. A step that has no update of the tracker before it sets no recovery off.
#[verifier::spinoff_prover]
#[verifier::rlimit(30)]
pub proof fn loop_steps_are_monitor_events(state: Supervision, step: TrackingStep) -> (events: Seq<
    MonitorEvent,
>)
    ensures
        tracking_next(state, step).0.monitor == state.monitor.after_all(events),
        step !is Read && state.tracking.pending.len() == 0 ==> internal(events),
        state.monitor.stopping ==> tracking_next(state, step).0.monitor.stopping,
{
    let none = lemma_no_event(state.monitor, state.monitor);
    let events = match step {
        TrackingStep::TrackerSpawned => lemma_one_event(
            state.monitor,
            MonitorEvent::StatusSet(
                true,
                state.monitor.status.device_available,
                state.monitor.status.mappings_healthy,
                None,
            ),
            tracking_next(state, step).0.monitor,
        ),
        TrackingStep::Read(_) => state.read_events(step),
        TrackingStep::HealthyTick => Supervision {
            tracking: TrackingModel { backoff: 250_000_000, ..state.tracking },
            ..state
        }.begin_events(PassSource::HealthyTick),
        TrackingStep::Changed => if state.monitor.stopping {
            none
        } else {
            state.begin_events(PassSource::Changed)
        },
        TrackingStep::CompletionTried { pass, completed } => if completed {
            state.end_events()
        } else {
            state.continue_events(pass)
        },
        TrackingStep::RecoveryTried { pass, handled } => if tracking_next(state, step).0 == state {
            none
        } else {
            state.end_events()
        },
        TrackingStep::Reconciled(pass) => if pass.forced {
            let after = state.monitor.order_renewed();
            let renewed = lemma_one_event(state.monitor, MonitorEvent::OrderRenewed, after);
            let rest = Supervision { monitor: after, ..state }.end_events();
            events_follow_each_other(state.monitor, renewed, rest);
            renewed + rest
        } else {
            state.end_events()
        },
        _ => none,
    };
    if state.monitor.stopping {
        suppression_is_permanent(state.monitor, events);
    }
    events
}

/// That the device is not there is acted on only when the tracker says so: neither the timer nor
/// a notification reconciles on its absence, and a forced pass does not either.
pub proof fn stale_absence_is_not_replayed(
    state: Supervision,
    step: TrackingStep,
    pass: Pass,
    device_available: bool,
)
    ensures
        tracking_next(state, step).1.action == (TrackingAction::Reconcile {
            pass,
            device_available,
        }) && !device_available ==> step == (TrackingStep::RecoveryTried { pass, handled: false })
            && pass == (Pass { source: PassSource::Update(false), forced: false }),
{
}

/// The timer leaves a healthy carrier alone.
pub proof fn healthy_carrier_is_left_alone(state: Supervision)
    requires
        state.monitor.status.mappings_healthy,
        !state.monitor.authenticated_reconcile,
        !state.monitor.transport_recovery.state.requires_recovery(),
        !state.monitor.stopping,
        state.tracking.pending.len() == 0,
    ensures
        tracking_next(state, TrackingStep::HealthyTick).1 == turn(TrackingAction::AwaitEvent),
        tracking_next(state, TrackingStep::HealthyTick).0.monitor == state.monitor,
{
}

/// An authenticated connection reconciles the carrier on the next tick even though it is healthy,
/// after a recovery that waits for it has been completed.
pub proof fn authenticated_connection_forces_a_pass(state: Supervision)
    requires
        state.monitor.authenticated_reconcile,
    ensures
        ({
            let pass = Pass { source: PassSource::HealthyTick, forced: true };
            let (forced, first) = tracking_next(state, TrackingStep::HealthyTick);
            let (_, second) = tracking_next(
                forced,
                TrackingStep::CompletionTried { pass, completed: false },
            );
            &&& first == turn(TrackingAction::CompleteRecovery(pass))
            &&& !forced.monitor.authenticated_reconcile
            &&& !state.monitor.transport_recovery.state.requires_recovery() ==> second == turn(
                TrackingAction::Reconcile { pass, device_available: true },
            )
        }),
{
}

/// Once the monitor is stopping the loop does not start a tracker, and it ends as soon as the
/// tracker is gone.
pub proof fn stopping_ends_the_loop(
    state: Supervision,
    step: TrackingStep,
    failure: Option<CarrierFailure>,
)
    requires
        state.monitor.stopping,
    ensures
        tracking_next(state, step).1.action != TrackingAction::SpawnTracker,
        tracking_next(state, TrackingStep::TrackerStopped(failure)).1 == turn(
            TrackingAction::Return,
        ),
        tracking_next(state, TrackingStep::Slept).1 == turn(TrackingAction::Return),
        state.tracking.pending.len() == 0 ==> tracking_next(state, TrackingStep::Changed).1
            == turn(TrackingAction::StopTracker(None)),
{
}

/// Waiting times between starts of the tracker stay between the first and the longest one.
pub proof fn backoff_stays_bounded(state: Supervision, step: TrackingStep)
    requires
        250_000_000 <= state.tracking.backoff <= 5_000_000_000,
    ensures
        250_000_000 <= tracking_next(state, step).0.tracking.backoff <= 5_000_000_000,
{
}

/// Only a tracker that lives through an interval of the timer resets the wait; whatever else
/// happens leaves it or makes it longer.
pub proof fn backoff_is_reset_by_the_timer_only(state: Supervision, step: TrackingStep)
    requires
        250_000_000 <= state.tracking.backoff <= 5_000_000_000,
        step !is HealthyTick,
    ensures
        tracking_next(state, step).0.tracking.backoff >= state.tracking.backoff,
{
}

/// Whether `state` is one in which the mappings have to be rebuilt before anything else.
pub open spec fn mappings_to_rebuild(state: TransportRecoveryState) -> bool {
    match state {
        TransportRecoveryState::Pending => true,
        TransportRecoveryState::WaitingForDevice => true,
        TransportRecoveryState::RebuildingMappings => true,
        TransportRecoveryState::Failed => true,
        TransportRecoveryState::Idle => false,
        TransportRecoveryState::AwaitingControl => false,
        TransportRecoveryState::RestartingVirtualDesktop => false,
        TransportRecoveryState::Recovered => false,
    }
}

/// An unhealthy carrier is looked after again at every tick of the timer while the device is there,
/// so that a repair that failed is retried.
pub proof fn unhealthy_carrier_is_retried(state: Supervision)
    requires
        state.tracking.device_available == Some(true),
        !state.monitor.status.mappings_healthy,
        !mappings_to_rebuild(state.monitor.transport_recovery.state),
        !state.monitor.authenticated_reconcile,
    ensures
        ({
            let (next, taken) = tracking_next(state, TrackingStep::HealthyTick);
            let pass = Pass { source: PassSource::HealthyTick, forced: false };
            &&& taken == (Turn {
                action: TrackingAction::Reconcile { pass, device_available: true },
                wake_again: false,
            })
            &&& next.monitor == state.monitor
            &&& next.tracking.pending == state.tracking.pending
            &&& next.tracking.device_available == Some(true)
        }),
{
}

/// Without an order, a tick reconciles exactly when the device was last said to be there, the
/// mappings are not healthy and no recovery comes first.
pub proof fn tick_reconciles_an_unhealthy_carrier_only(state: Supervision)
    requires
        !state.monitor.authenticated_reconcile,
        state.tracking.pending.len() == 0,
    ensures
        tracking_next(state, TrackingStep::HealthyTick).1.action is Reconcile <==> (
        state.tracking.device_available == Some(true) && !state.monitor.status.mappings_healthy
            && !mappings_to_rebuild(state.monitor.transport_recovery.state)),
        tracking_next(state, TrackingStep::HealthyTick).1.action is RecoverTransport
            <==> mappings_to_rebuild(state.monitor.transport_recovery.state),
{
}

/// A notification reconciles while the device is there, whether or not the carrier is healthy, and
/// while there was no word of the device it does not.
pub proof fn change_reconciles_with_a_device(state: Supervision)
    requires
        !state.monitor.stopping,
        !state.monitor.authenticated_reconcile,
        !mappings_to_rebuild(state.monitor.transport_recovery.state),
        state.tracking.pending.len() == 0,
    ensures
        ({
            let (next, taken) = tracking_next(state, TrackingStep::Changed);
            let pass = Pass { source: PassSource::Changed, forced: false };
            &&& state.tracking.device_available == Some(true) ==> taken.action
                == (TrackingAction::Reconcile { pass, device_available: true })
            &&& state.tracking.device_available != Some(true) ==> taken.action
                == TrackingAction::AwaitEvent
            &&& !taken.wake_again
            &&& next.monitor == state.monitor
        }),
{
}

/// A recovery that is due comes before any reconciliation, at a tick and at a notification; it is
/// tried with the device exactly when the tracker last said that the device is there.
pub proof fn due_recovery_comes_first(state: Supervision)
    requires
        mappings_to_rebuild(state.monitor.transport_recovery.state),
        !state.monitor.authenticated_reconcile,
    ensures
        tracking_next(state, TrackingStep::HealthyTick).1.action == (
        TrackingAction::RecoverTransport {
            pass: Pass { source: PassSource::HealthyTick, forced: false },
            device_available: state.tracking.device_available == Some(true),
        }),
        !state.monitor.stopping ==> tracking_next(state, TrackingStep::Changed).1.action == (
        TrackingAction::RecoverTransport {
            pass: Pass { source: PassSource::Changed, forced: false },
            device_available: state.tracking.device_available == Some(true),
        }),
{
}

/// An order to reconcile is carried out at the next occasion, whichever it is: a recovery that
/// waits is completed first, and unless there was one, or another recovery is due, the carrier is
/// reconciled with the device, whatever was known of it. The order counts once.
pub proof fn order_is_carried_out(state: Supervision, source: PassSource)
    requires
        state.monitor.authenticated_reconcile,
        !state.monitor.stopping,
        source == PassSource::HealthyTick || source == PassSource::Changed,
    ensures
        ({
            let step = if source == PassSource::HealthyTick {
                TrackingStep::HealthyTick
            } else {
                TrackingStep::Changed
            };
            let pass = Pass { source, forced: true };
            let (begun, first) = tracking_next(state, step);
            let (_, second) = tracking_next(
                begun,
                TrackingStep::CompletionTried { pass, completed: false },
            );
            &&& first.action == TrackingAction::CompleteRecovery(pass)
            &&& !begun.monitor.authenticated_reconcile
            &&& begun.tracking.pending == state.tracking.pending
            &&& second.action == if mappings_to_rebuild(state.monitor.transport_recovery.state) {
                TrackingAction::RecoverTransport {
                    pass,
                    device_available: state.tracking.device_available == Some(true),
                }
            } else {
                TrackingAction::Reconcile { pass, device_available: true }
            }
        }),
{
}

/// What the tracker said is acted on in its order. When a pass is over, the next word is taken: it
/// is noted, a device that is back sets a pending recovery off, and the pass over it completes a
/// recovery if that was ordered, and goes through a recovery otherwise.
pub proof fn updates_are_acted_on_in_order(state: Supervision, pass: Pass)
    requires
        state.tracking.pending.len() > 0,
    ensures
        ({
            let available = state.tracking.pending[0];
            let (next, taken) = tracking_next(
                state,
                TrackingStep::CompletionTried { pass, completed: true },
            );
            let forced = state.monitor.authenticated_reconcile;
            let own = Pass { source: PassSource::Update(available), forced };
            let sets_off = available && state.monitor.usb_reconnect_pending;
            &&& next.tracking.device_available == Some(available)
            &&& next.tracking.pending.len() == state.tracking.pending.len() - 1
            &&& forall|i: int|
                0 <= i < next.tracking.pending.len() ==> #[trigger] next.tracking.pending[i]
                    == state.tracking.pending[i + 1]
            &&& taken.action == if forced {
                TrackingAction::CompleteRecovery(own)
            } else {
                TrackingAction::RecoverTransport { pass: own, device_available: available }
            }
            &&& !next.monitor.authenticated_reconcile
            &&& next.monitor.usb_reconnect_pending == (state.monitor.usb_reconnect_pending
                && !available)
            &&& sets_off ==> next.monitor.transport_recovery.state
                == TransportRecoveryState::Pending && next.monitor.transport_recovery.trigger
                == Some(TransportRecoveryTrigger::UsbReconnect)
            &&& !sets_off ==> next.monitor.transport_recovery == state.monitor.transport_recovery
            &&& next.monitor.stopping == state.monitor.stopping
        }),
{
}

/// The pass over a word of the tracker ends in a reconciliation with what the tracker said, unless a
/// recovery was made instead; an order reconciles with the device in any case.
pub proof fn update_ends_in_a_reconciliation(state: Supervision, available: bool, forced: bool)
    ensures
        ({
            let pass = Pass { source: PassSource::Update(available), forced };
            let (kept, tried) = tracking_next(
                state,
                TrackingStep::CompletionTried { pass, completed: false },
            );
            let (unchanged, reconciled) = tracking_next(
                state,
                TrackingStep::RecoveryTried { pass, handled: false },
            );
            &&& kept == state && unchanged == state
            &&& tried.action == (TrackingAction::RecoverTransport {
                pass,
                device_available: available,
            })
            &&& reconciled.action == (TrackingAction::Reconcile {
                pass,
                device_available: available || forced,
            })
        }),
{
}

/// A pass is over once a recovery was made or completed, or the carrier was reconciled; and at a
/// tick or a notification a recovery is the last thing that is tried. With nothing left to act on,
/// the loop waits, or stops the tracker when the monitor is stopping.
pub proof fn pass_is_over(state: Supervision, pass: Pass, step: TrackingStep, handled: bool)
    requires
        state.tracking.pending.len() == 0,
        step == (TrackingStep::CompletionTried { pass, completed: true }) || step
            == TrackingStep::Reconciled(pass) || (step == (TrackingStep::RecoveryTried {
            pass,
            handled,
        }) && (handled || pass.source == PassSource::HealthyTick || pass.source
            == PassSource::Changed)),
    ensures
        tracking_next(state, step).1.action == if state.monitor.stopping {
            TrackingAction::StopTracker(None)
        } else {
            TrackingAction::AwaitEvent
        },
        tracking_next(state, step).0.tracking == state.tracking,
{
}

/// An order that left the mappings unhealthy is renewed and the loop is woken for it, unless the
/// monitor is stopping. A pass without an order renews nothing.
pub proof fn failed_order_is_renewed(state: Supervision, pass: Pass)
    requires
        state.tracking.pending.len() == 0,
    ensures
        ({
            let (next, taken) = tracking_next(state, TrackingStep::Reconciled(pass));
            let renewed = pass.forced && !state.monitor.status.mappings_healthy
                && !state.monitor.stopping;
            &&& taken.wake_again == renewed
            &&& next.monitor.authenticated_reconcile == (renewed
                || state.monitor.authenticated_reconcile)
            &&& next.monitor.stopping == state.monitor.stopping
            &&& next.monitor.status == state.monitor.status
            &&& next.monitor.transport_recovery == state.monitor.transport_recovery
        }),
{
}

/// A new tracker starts from nothing: no word of the device, nothing to act on, and a stream to be
/// decoded from its start. The report says that the monitor is active, without an error, and keeps
/// what it said of the device and the mappings. The wait between restarts goes on.
pub proof fn tracker_starts_from_nothing(state: Supervision)
    ensures
        ({
            let (next, taken) = tracking_next(state, TrackingStep::TrackerSpawned);
            &&& taken.action == TrackingAction::AwaitEvent && !taken.wake_again
            &&& next.tracking.device_available is None
            &&& next.tracking.pending.len() == 0
            &&& next.tracking.decoder.buffer.len() == 0
            &&& next.tracking.decoder.last_update is None
            &&& next.tracking.decoder.mode == TrackDevicesMode::Unknown
            &&& next.tracking.backoff == state.tracking.backoff
            &&& next.monitor.status.active && next.monitor.status.last_error is None
            &&& next.monitor.status.device_available == state.monitor.status.device_available
            &&& next.monitor.status.mappings_healthy == state.monitor.status.mappings_healthy
            &&& next.monitor.transport_recovery == state.monitor.transport_recovery
        }),
{
}

/// A tracker that ends, cannot be read or cannot be understood is stopped, for that reason. One
/// that cannot be started or has no output is acted on at once. Nothing else changes but what was
/// read.
pub proof fn broken_tracker_is_given_up(state: Supervision, bytes: Vec<u8>)
    ensures
        tracking_next(state, TrackingStep::TrackerSpawnFailed) == (
            state,
            turn(TrackingAction::HandleFailure(CarrierFailure::TrackSpawnFailed)),
        ),
        tracking_next(state, TrackingStep::TrackerStdoutUnavailable) == (
            state,
            turn(TrackingAction::HandleFailure(CarrierFailure::TrackStdoutUnavailable)),
        ),
        tracking_next(state, TrackingStep::ReadFailed) == (
            state,
            turn(TrackingAction::StopTracker(Some(CarrierFailure::TrackReadFailed))),
        ),
        bytes@.len() == 0 ==> tracking_next(state, TrackingStep::Read(bytes)) == (
            state,
            turn(TrackingAction::StopTracker(Some(CarrierFailure::TrackExited))),
        ),
        bytes@.len() > 0 && state.tracking.decoder.with_bytes(bytes@).decode().error is Some
            ==> tracking_next(state, TrackingStep::Read(bytes)).1 == turn(
            TrackingAction::StopTracker(Some(CarrierFailure::TrackDecodeFailed)),
        ) && tracking_next(state, TrackingStep::Read(bytes)).0.monitor == state.monitor,
{
}

/// What was read is acted on at once: its first word is taken, and the others are left for after
/// it. Without a word the loop goes on waiting.
pub proof fn words_of_the_tracker_are_taken(state: Supervision, bytes: Vec<u8>)
    requires
        bytes@.len() > 0,
        state.tracking.decoder.with_bytes(bytes@).decode().error is None,
    ensures
        ({
            let words = state.tracking.decoder.with_bytes(bytes@).decode().updates;
            let (next, taken) = tracking_next(state, TrackingStep::Read(bytes));
            &&& next.tracking.decoder == state.tracking.decoder.with_bytes(bytes@).decode().decoder
            &&& words.len() > 0 ==> next.tracking.device_available == Some(words[0])
                && next.tracking.pending == words.skip(1)
            &&& words.len() > 0 && !state.monitor.authenticated_reconcile ==> taken.action == (
            TrackingAction::RecoverTransport {
                pass: Pass { source: PassSource::Update(words[0]), forced: false },
                device_available: words[0],
            })
            &&& words.len() == 0 ==> next.monitor == state.monitor
                && next.tracking.device_available == state.tracking.device_available
            &&& words.len() == 0 && !state.monitor.stopping ==> taken.action
                == TrackingAction::AwaitEvent
        }),
{
    let words = state.tracking.decoder.with_bytes(bytes@).decode().updates;
    if words.len() > 0 {
        assert(words.drop_first() =~= words.skip(1));
    }
}

/// While nobody stops the monitor, the tracker is kept up: it is started at first and after its end
/// was dealt with, with a wait in between that doubles up to five seconds and begins at a quarter of
/// a second again after a tick.
pub proof fn tracker_is_kept_up(state: Supervision, failure: CarrierFailure)
    requires
        !state.monitor.stopping,
    ensures
        tracking_next(state, TrackingStep::Start) == (state, turn(TrackingAction::SpawnTracker)),
        tracking_next(state, TrackingStep::TrackerStopped(Some(failure))) == (
            state,
            turn(TrackingAction::HandleFailure(failure)),
        ),
        tracking_next(state, TrackingStep::TrackerStopped(None)) == (
            state,
            turn(TrackingAction::SpawnTracker),
        ),
        tracking_next(state, TrackingStep::FailureHandled) == (state, turn(TrackingAction::Sleep)),
        ({
            let (next, taken) = tracking_next(state, TrackingStep::Slept);
            &&& taken == turn(TrackingAction::SpawnTracker)
            &&& next.monitor == state.monitor
            &&& state.tracking.backoff * 2 <= 5_000_000_000 ==> next.tracking.backoff
                == state.tracking.backoff * 2
            &&& state.tracking.backoff * 2 > 5_000_000_000 ==> next.tracking.backoff
                == 5_000_000_000
        }),
        state.tracking.pending.len() == 0 ==> tracking_next(
            state,
            TrackingStep::HealthyTick,
        ).0.tracking.backoff == 250_000_000,
{
}

} // verus!
