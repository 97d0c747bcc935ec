//! The watchdog of Virtual Desktop: it restarts Virtual Desktop when a connection that was stable
//! goes away for too long.
use crate::monitor::AdbHealthMonitor;
use crate::state::HostState;
use crate::time::{Duration, Instant};
use crate::transport::{virtual_desktop_connection_stable, RecoveryFailure, WorkOutcome};
use vstd::prelude::*;

verus! {

/// How long a lost connection is given to come back by itself.
pub fn virtual_desktop_watchdog_loss_grace() -> (span: Duration)
    ensures
        span@ == 8_000_000_000,
{
    Duration::from_secs(8)
}

/// What the watchdog has seen of the connection.
#[derive(Clone, Copy, Debug, PartialEq, Eq, Structural)]
pub struct VirtualDesktopWatchdogState {
    /// There was a stable connection.
    pub armed: bool,
    pub connected_since: Option<Instant>,
    pub disconnected_since: Option<Instant>,
}

impl Default for VirtualDesktopWatchdogState {
    fn default() -> (state: Self)
        ensures
            state == VirtualDesktopWatchdogState::unarmed(),
    {
        VirtualDesktopWatchdogState {
            armed: false,
            connected_since: None,
            disconnected_since: None,
        }
    }
}

/// The time since `since`, zero when that is in the future.
pub open spec fn lapse(since: Instant, now: Instant) -> int {
    if now@ >= since@ {
        now@ - since@
    } else {
        0
    }
}

/// The earlier reading when there is one, and `now` otherwise.
pub open spec fn since_or(since: Option<Instant>, now: Instant) -> Instant {
    match since {
        Some(since) => since,
        None => now,
    }
}

impl VirtualDesktopWatchdogState {
    /// The watchdog that has not seen anything.
    pub open spec fn unarmed() -> VirtualDesktopWatchdogState {
        VirtualDesktopWatchdogState {
            armed: false,
            connected_since: None,
            disconnected_since: None,
        }
    }

    /// Whether a look at the connection calls for a recovery: it is away although it was stable
    /// before, a recovery is allowed, and it has been away for the whole grace period.
    pub open spec fn calls_for_recovery(
        self,
        now: Instant,
        connected: bool,
        allowed: bool,
    ) -> bool {
        &&& !connected
        &&& self.armed
        &&& allowed
        &&& lapse(since_or(self.disconnected_since, now), now) >= 8_000_000_000
    }

    /// The watchdog after a look at the connection. After a call for recovery the grace period
    /// starts over.
    pub open spec fn after(self, now: Instant, connected: bool, allowed: bool) -> Self {
        if connected {
            let since = since_or(self.connected_since, now);
            VirtualDesktopWatchdogState {
                armed: self.armed || lapse(since, now) >= 10_000_000_000,
                connected_since: Some(since),
                disconnected_since: None,
            }
        } else {
            VirtualDesktopWatchdogState {
                armed: self.armed,
                connected_since: None,
                disconnected_since: if !self.armed {
                    None
                } else if self.calls_for_recovery(now, connected, allowed) {
                    Some(now)
                } else {
                    Some(since_or(self.disconnected_since, now))
                },
            }
        }
    }

    /// Looks at the connection. Returns whether Virtual Desktop is to be recovered.
    pub fn observe(&mut self, now: Instant, connected: bool, recovery_allowed: bool) -> (recover:
        bool)
        ensures
            *final(self) == old(self).after(now, connected, recovery_allowed),
            recover == old(self).calls_for_recovery(now, connected, recovery_allowed),
    {
        if connected {
            self.disconnected_since = None;
            let connected_since = match self.connected_since {
                Some(since) => since,
                None => now,
            };
            self.connected_since = Some(connected_since);
            if now.duration_since(connected_since).at_least(virtual_desktop_connection_stable()) {
                self.armed = true;
            }
            return false;
        }
        self.connected_since = None;
        if !self.armed {
            self.disconnected_since = None;
            return false;
        }
        let disconnected_since = match self.disconnected_since {
            Some(since) => since,
            None => now,
        };
        self.disconnected_since = Some(disconnected_since);
        if recovery_allowed && now.duration_since(disconnected_since).at_least(
            virtual_desktop_watchdog_loss_grace(),
        ) {
            self.disconnected_since = Some(now);
            return true;
        }
        false
    }
}

/// Where a round of the watchdog stands.
pub enum WatchdogStep {
    /// It is time to look at the connection.
    Sampled { now: Instant, lifecycle: HostState, connected: bool },
    OperationAcquired { connected: bool },
    Stopped(WorkOutcome),
    ServiceRestarted(WorkOutcome),
    Restarted(WorkOutcome),
}

/// What a round of the watchdog has to do next.
#[derive(Clone, Copy, Debug, PartialEq, Eq, Structural)]
pub enum WatchdogAction {
    /// End: the monitor is stopping.
    Return,
    /// Nothing until the next look.
    Wait,
    /// Wait for other work on the carrier to end.
    AcquireOperation,
    /// Stop Virtual Desktop on the device.
    StopVirtualDesktop,
    /// Restart the Virtual Desktop service on the host.
    RestartService,
    /// Start Virtual Desktop on the device.
    RestartVirtualDesktop,
    /// Wait for Virtual Desktop to connect.
    AwaitConnection,
    /// The recovery failed. Nothing until the next look.
    Failed(RecoveryFailure),
}

impl WatchdogAction {
    /// The action is a command to the device or to the host's service.
    pub open spec fn is_command(self) -> bool {
        self is StopVirtualDesktop || self is RestartService || self is RestartVirtualDesktop
    }
}

/// The action after a recovery step: `next` after success unless a recovery is not allowed any
/// more, and `failure` otherwise.
pub open spec fn after_work(
    allowed: bool,
    outcome: WorkOutcome,
    next: WatchdogAction,
    failure: RecoveryFailure,
) -> WatchdogAction {
    if outcome != WorkOutcome::Succeeded {
        WatchdogAction::Failed(failure)
    } else if !allowed {
        WatchdogAction::Failed(RecoveryFailure::RecoverySuperseded)
    } else {
        next
    }
}

/// The watchdog and the action that a step of a round leads to. `stopping` says whether the
/// monitor is stopping, `allowed` whether it leaves recoveries to the watchdog.
pub open spec fn watchdog_next(
    watchdog: VirtualDesktopWatchdogState,
    stopping: bool,
    allowed: bool,
    step: WatchdogStep,
) -> (VirtualDesktopWatchdogState, WatchdogAction) {
    match step {
        WatchdogStep::Sampled { now, lifecycle, connected } => if stopping {
            (watchdog, WatchdogAction::Return)
        } else {
            let may_recover = lifecycle == HostState::Connected && allowed;
            (
                watchdog.after(now, connected, may_recover),
                if watchdog.calls_for_recovery(now, connected, may_recover) {
                    WatchdogAction::AcquireOperation
                } else {
                    WatchdogAction::Wait
                },
            )
        },
        WatchdogStep::OperationAcquired { connected } => (
            watchdog,
            if !allowed || connected {
                WatchdogAction::Failed(RecoveryFailure::RecoverySuperseded)
            } else {
                WatchdogAction::StopVirtualDesktop
            },
        ),
        WatchdogStep::Stopped(outcome) => (
            watchdog,
            after_work(
                allowed,
                outcome,
                WatchdogAction::RestartService,
                RecoveryFailure::VirtualDesktopStop,
            ),
        ),
        WatchdogStep::ServiceRestarted(outcome) => (
            watchdog,
            after_work(
                allowed,
                outcome,
                WatchdogAction::RestartVirtualDesktop,
                RecoveryFailure::VirtualDesktopServiceRecovery,
            ),
        ),
        WatchdogStep::Restarted(outcome) => (
            watchdog,
            match outcome {
                WorkOutcome::Succeeded => WatchdogAction::AwaitConnection,
                WorkOutcome::Failed => WatchdogAction::Failed(
                    RecoveryFailure::VirtualDesktopRestart,
                ),
                WorkOutcome::TaskFailed => WatchdogAction::Failed(
                    RecoveryFailure::VirtualDesktopRestartTask,
                ),
            },
        ),
    }
}

impl VirtualDesktopWatchdogState {
    /// Takes one step of a round of the watchdog.
    pub fn step(&mut self, monitor: &AdbHealthMonitor, step: WatchdogStep) -> (action:
        WatchdogAction)
        ensures
            (*final(self), action) == watchdog_next(
                *old(self),
                monitor@.stopping,
                !monitor@.stopping && monitor@.transport_recovery.state.settled(),
                step,
            ),
    {
        let allowed = monitor.virtual_desktop_watchdog_recovery_allowed();
        match step {
            WatchdogStep::Sampled { now, lifecycle, connected } => {
                if monitor.stopping {
                    return WatchdogAction::Return;
                }
                let recovery_allowed = lifecycle == HostState::Connected && allowed;
                if self.observe(now, connected, recovery_allowed) {
                    WatchdogAction::AcquireOperation
                } else {
                    WatchdogAction::Wait
                }
            },
            WatchdogStep::OperationAcquired { connected } => {
                if !allowed || connected {
                    WatchdogAction::Failed(RecoveryFailure::RecoverySuperseded)
                } else {
                    WatchdogAction::StopVirtualDesktop
                }
            },
            WatchdogStep::Stopped(outcome) => {
                if outcome != WorkOutcome::Succeeded {
                    WatchdogAction::Failed(RecoveryFailure::VirtualDesktopStop)
                } else if !allowed {
                    WatchdogAction::Failed(RecoveryFailure::RecoverySuperseded)
                } else {
                    WatchdogAction::RestartService
                }
            },
            WatchdogStep::ServiceRestarted(outcome) => {
                if outcome != WorkOutcome::Succeeded {
                    WatchdogAction::Failed(RecoveryFailure::VirtualDesktopServiceRecovery)
                } else if !allowed {
                    WatchdogAction::Failed(RecoveryFailure::RecoverySuperseded)
                } else {
                    WatchdogAction::RestartVirtualDesktop
                }
            },
            WatchdogStep::Restarted(outcome) => {
                match outcome {
                    WorkOutcome::Succeeded => WatchdogAction::AwaitConnection,
                    WorkOutcome::Failed => WatchdogAction::Failed(
                        RecoveryFailure::VirtualDesktopRestart,
                    ),
                    WorkOutcome::TaskFailed => WatchdogAction::Failed(
                        RecoveryFailure::VirtualDesktopRestartTask,
                    ),
                }
            },
        }
    }
}

/// A look of the watchdog at the connection.
pub struct Observation {
    pub now: Instant,
    pub connected: bool,
    pub allowed: bool,
}

impl VirtualDesktopWatchdogState {
    /// The watchdog after `seen`, in order.
    pub open spec fn after_all(self, seen: Seq<Observation>) -> VirtualDesktopWatchdogState
        decreases seen.len(),
    {
        if seen.len() == 0 {
            self
        } else {
            let last = seen.last();
            self.after_all(seen.drop_last()).after(last.now, last.connected, last.allowed)
        }
    }

    /// Whether the observation at `i` of `seen` calls for a recovery.
    pub open spec fn calls_at(self, seen: Seq<Observation>, i: int) -> bool {
        let look = seen[i];
        &&& 0 <= i < seen.len()
        &&& self.after_all(seen.take(i)).calls_for_recovery(look.now, look.connected, look.allowed)
    }
}

/// Observations are made in the order of time.
pub open spec fn in_order(seen: Seq<Observation>) -> bool {
    forall|i: int, j: int| 0 <= i <= j < seen.len() ==> seen[i].now@ <= seen[j].now@
}

/// From `start` to `end`, both included, the connection was always there, or always away.
pub open spec fn steady(seen: Seq<Observation>, start: int, end: int, connected: bool) -> bool {
    &&& 0 <= start <= end < seen.len()
    &&& forall|i: int| start <= i <= end ==> (#[trigger] seen[i]).connected == connected
}

/// There was a stable connection within `seen`.
pub open spec fn was_stable(seen: Seq<Observation>) -> bool {
    exists|start: int, end: int| #[trigger]
        steady(seen, start, end, true) && seen[end].now@ - seen[start].now@ >= 10_000_000_000
}

/// What the state of the watchdog says about what it has seen.
spec fn explained(watchdog: VirtualDesktopWatchdogState, seen: Seq<Observation>) -> bool {
    let last = seen.len() - 1;
    &&& watchdog.armed ==> was_stable(seen)
    &&& watchdog.connected_since matches Some(since) ==> exists|start: int| #[trigger]
        steady(seen, start, last, true) && seen[start].now == since
    &&& watchdog.disconnected_since matches Some(since) ==> exists|start: int| #[trigger]
        steady(seen, start, last, false) && seen[start].now == since
}

proof fn lemma_steady_grows(seen: Seq<Observation>, start: int, connected: bool)
    requires
        seen.len() > 1,
        steady(seen.drop_last(), start, seen.len() - 2, connected),
        seen.last().connected == connected,
    ensures
        steady(seen, start, seen.len() - 1, connected),
        seen[start] == seen.drop_last()[start],
{
    assert forall|i: int| start <= i <= seen.len() - 1 implies (#[trigger] seen[i]).connected
        == connected by {
        if i < seen.len() - 1 {
            assert(seen.drop_last()[i].connected == connected);
        }
    }
}

proof fn lemma_state_is_explained(seen: Seq<Observation>)
    requires
        in_order(seen),
    ensures
        explained(VirtualDesktopWatchdogState::unarmed().after_all(seen), seen),
    decreases seen.len(),
{
    let fresh = VirtualDesktopWatchdogState::unarmed();
    if seen.len() > 0 {
        let earlier = seen.drop_last();
        let before = fresh.after_all(earlier);
        let after = fresh.after_all(seen);
        let last = seen.len() - 1;
        assert forall|i: int, j: int| 0 <= i <= j < earlier.len() implies earlier[i].now@
            <= earlier[j].now@ by {
            assert(seen[i].now@ <= seen[j].now@);
        }
        lemma_state_is_explained(earlier);
        if was_stable(earlier) {
            let (start, end) = choose|start: int, end: int| #[trigger]
                steady(earlier, start, end, true) && earlier[end].now@ - earlier[start].now@
                    >= 10_000_000_000;
            assert forall|i: int| start <= i <= end implies (#[trigger] seen[i]).connected by {
                assert(earlier[i].connected);
            }
            assert(steady(seen, start, end, true));
        }
        if seen.last().connected {
            if before.connected_since is Some {
                let start = choose|start: int| #[trigger]
                    steady(earlier, start, last - 1, true) && earlier[start].now
                        == before.connected_since->0;
                lemma_steady_grows(seen, start, true);
            } else {
                assert(steady(seen, last, last, true));
            }
        } else if before.armed {
            if before.disconnected_since is Some && after.disconnected_since
                == before.disconnected_since {
                let start = choose|start: int| #[trigger]
                    steady(earlier, start, last - 1, false) && earlier[start].now
                        == before.disconnected_since->0;
                lemma_steady_grows(seen, start, false);
            } else {
                assert(steady(seen, last, last, false));
            }
        }
    }
}

/// The watchdog calls for a recovery only if a recovery is allowed, the connection was stable
/// once, and it has been away at every look for at least eight seconds.
pub proof fn recovery_follows_a_sustained_loss(seen: Seq<Observation>, i: int) -> (start: int)
    requires
        in_order(seen),
        VirtualDesktopWatchdogState::unarmed().calls_at(seen, i),
    ensures
        seen[i].allowed,
        was_stable(seen.take(i)),
        steady(seen, start, i, false),
        seen[i].now@ - seen[start].now@ >= 8_000_000_000,
{
    let earlier = seen.take(i);
    let before = VirtualDesktopWatchdogState::unarmed().after_all(earlier);
    assert forall|a: int, b: int| 0 <= a <= b < earlier.len() implies earlier[a].now@
        <= earlier[b].now@ by {
        assert(seen[a].now@ <= seen[b].now@);
    }
    lemma_state_is_explained(earlier);
    let start = choose|start: int| #[trigger]
        steady(earlier, start, i - 1, false) && earlier[start].now == before.disconnected_since->0;
    assert forall|k: int| start <= k <= i implies !(#[trigger] seen[k]).connected by {
        if k < i {
            assert(!earlier[k].connected);
        }
    }
    assert(seen[start].now@ <= seen[i].now@);
    start
}

proof fn lemma_grace_since(
    watchdog: VirtualDesktopWatchdogState,
    seen: Seq<Observation>,
    call: Instant,
)
    requires
        watchdog.disconnected_since matches Some(since) ==> since@ >= call@,
        in_order(seen),
        forall|i: int| 0 <= i < seen.len() ==> (#[trigger] seen[i]).now@ >= call@,
    ensures
        watchdog.after_all(seen).disconnected_since matches Some(since) ==> since@ >= call@,
    decreases seen.len(),
{
    if seen.len() > 0 {
        let earlier = seen.drop_last();
        assert forall|a: int, b: int| 0 <= a <= b < earlier.len() implies earlier[a].now@
            <= earlier[b].now@ by {
            assert(seen[a].now@ <= seen[b].now@);
        }
        assert forall|i: int| 0 <= i < earlier.len() implies (#[trigger] earlier[i]).now@
            >= call@ by {
            assert(seen[i].now@ >= call@);
        }
        lemma_grace_since(watchdog, earlier, call);
        assert(seen[seen.len() - 1].now@ >= call@);
    }
}

proof fn lemma_after_all_splits(
    watchdog: VirtualDesktopWatchdogState,
    first: Seq<Observation>,
    second: Seq<Observation>,
)
    ensures
        watchdog.after_all(first + second) == watchdog.after_all(first).after_all(second),
    decreases second.len(),
{
    if second.len() == 0 {
        assert(first + second =~= first);
    } else {
        assert((first + second).drop_last() =~= first + second.drop_last());
        lemma_after_all_splits(watchdog, first, second.drop_last());
    }
}

/// Two calls for recovery are at least eight seconds apart.
pub proof fn recoveries_are_spaced(
    watchdog: VirtualDesktopWatchdogState,
    seen: Seq<Observation>,
    i: int,
    j: int,
)
    requires
        in_order(seen),
        i < j,
        watchdog.calls_at(seen, i),
        watchdog.calls_at(seen, j),
    ensures
        seen[j].now@ - seen[i].now@ >= 8_000_000_000,
{
    let between = seen.subrange(i + 1, j);
    let called = watchdog.after_all(seen.take(i + 1));
    assert(seen.take(i + 1).drop_last() =~= seen.take(i));
    assert(called.disconnected_since == Some(seen[i].now));
    assert(seen.take(i + 1) + between =~= seen.take(j));
    lemma_after_all_splits(watchdog, seen.take(i + 1), between);
    assert forall|a: int, b: int| 0 <= a <= b < between.len() implies between[a].now@
        <= between[b].now@ by {
        assert(seen[a + i + 1].now@ <= seen[b + i + 1].now@);
    }
    assert forall|k: int| 0 <= k < between.len() implies (#[trigger] between[k]).now@
        >= seen[i].now@ by {
        assert(seen[i].now@ <= seen[k + i + 1].now@);
    }
    lemma_grace_since(called, between, seen[i].now);
    assert(seen[i].now@ <= seen[j].now@);
}

proof fn lemma_take_in_order(seen: Seq<Observation>, n: int)
    requires
        in_order(seen),
        0 <= n <= seen.len(),
    ensures
        in_order(seen.take(n)),
{
    assert forall|a: int, b: int| 0 <= a <= b < n implies seen.take(n)[a].now@ <= seen.take(
        n,
    )[b].now@ by {
        assert(seen[a].now@ <= seen[b].now@);
    }
}

proof fn lemma_stays_armed(watchdog: VirtualDesktopWatchdogState, seen: Seq<Observation>)
    requires
        watchdog.armed,
    ensures
        watchdog.after_all(seen).armed,
    decreases seen.len(),
{
    if seen.len() > 0 {
        lemma_stays_armed(watchdog, seen.drop_last());
    }
}

proof fn lemma_connected_since_start(seen: Seq<Observation>, start: int, end: int)
    requires
        in_order(seen),
        steady(seen, start, end, true),
    ensures
        VirtualDesktopWatchdogState::unarmed().after_all(
            seen.take(end + 1),
        ).connected_since matches Some(since) && since@ <= seen[start].now@,
        seen[end].now@ - seen[start].now@ >= 10_000_000_000
            ==> VirtualDesktopWatchdogState::unarmed().after_all(seen.take(end + 1)).armed,
    decreases end - start,
{
    let before = VirtualDesktopWatchdogState::unarmed().after_all(seen.take(end));
    assert(seen.take(end + 1).drop_last() =~= seen.take(end));
    assert(seen[end].connected);
    assert(seen[start].now@ <= seen[end].now@);
    if start < end {
        assert forall|i: int| start <= i <= end - 1 implies (#[trigger] seen[i]).connected by {}
        lemma_connected_since_start(seen, start, end - 1);
    } else if before.connected_since is Some {
        let earlier = seen.take(end);
        lemma_take_in_order(seen, end);
        lemma_state_is_explained(earlier);
        let since = choose|since: int| #[trigger]
            steady(earlier, since, end - 1, true) && earlier[since].now
                == before.connected_since->0;
        assert(earlier[since] == seen[since]);
        assert(seen[since].now@ <= seen[start].now@);
    }
}

proof fn lemma_stability_arms(seen: Seq<Observation>, n: int)
    requires
        in_order(seen),
        0 <= n <= seen.len(),
        was_stable(seen.take(n)),
    ensures
        VirtualDesktopWatchdogState::unarmed().after_all(seen.take(n)).armed,
{
    let fresh = VirtualDesktopWatchdogState::unarmed();
    let earlier = seen.take(n);
    let (start, end) = choose|start: int, end: int| #[trigger]
        steady(earlier, start, end, true) && earlier[end].now@ - earlier[start].now@
            >= 10_000_000_000;
    lemma_take_in_order(seen, n);
    lemma_connected_since_start(earlier, start, end);
    let rest = earlier.skip(end + 1);
    assert(earlier.take(end + 1) + rest =~= earlier);
    lemma_after_all_splits(fresh, earlier.take(end + 1), rest);
    lemma_stays_armed(fresh.after_all(earlier.take(end + 1)), rest);
}

/// The grace period that runs after the looks before `k` began at the loss, or at a call for
/// recovery since.
proof fn lemma_grace_began(seen: Seq<Observation>, start: int, k: int) -> (call: Option<int>)
    requires
        in_order(seen),
        0 <= start < k <= seen.len(),
        steady(seen, start, k - 1, false),
        VirtualDesktopWatchdogState::unarmed().after_all(seen.take(start)).armed,
    ensures
        VirtualDesktopWatchdogState::unarmed().after_all(seen.take(k)).armed,
        VirtualDesktopWatchdogState::unarmed().after_all(
            seen.take(k),
        ).disconnected_since matches Some(since) && match call {
            Some(call) => start <= call < k && VirtualDesktopWatchdogState::unarmed().calls_at(
                seen,
                call,
            ) && since == seen[call].now,
            None => since@ <= seen[start].now@,
        },
    decreases k - start,
{
    let fresh = VirtualDesktopWatchdogState::unarmed();
    let last = k - 1;
    let before = fresh.after_all(seen.take(last));
    assert(seen.take(k).drop_last() =~= seen.take(last));
    assert(!seen[last].connected);
    if start < last {
        assert forall|i: int| start <= i <= last - 1 implies !(#[trigger] seen[i]).connected by {}
        let earlier_call = lemma_grace_began(seen, start, last);
        if fresh.calls_at(seen, last) {
            Some(last)
        } else {
            earlier_call
        }
    } else {
        if before.disconnected_since is Some {
            let earlier = seen.take(last);
            lemma_take_in_order(seen, last);
            lemma_state_is_explained(earlier);
            let since = choose|since: int| #[trigger]
                steady(earlier, since, last - 1, false) && earlier[since].now
                    == before.disconnected_since->0;
            assert(earlier[since] == seen[since]);
            assert(seen[since].now@ <= seen[start].now@);
        }
        if fresh.calls_at(seen, last) {
            Some(last)
        } else {
            None
        }
    }
}

/// A sustained loss leads to a call for recovery: when the connection was stable once and has been
/// away at every look for at least eight seconds, and a recovery is allowed, the watchdog calls for
/// one at that look, or has called for one during this loss less than eight seconds before.
pub proof fn sustained_loss_calls_for_recovery(
    seen: Seq<Observation>,
    start: int,
    i: int,
) -> (call: int)
    requires
        in_order(seen),
        was_stable(seen.take(start)),
        steady(seen, start, i, false),
        seen[i].now@ - seen[start].now@ >= 8_000_000_000,
        seen[i].allowed,
    ensures
        start <= call <= i,
        VirtualDesktopWatchdogState::unarmed().calls_at(seen, call),
        seen[i].now@ - seen[call].now@ < 8_000_000_000,
{
    let fresh = VirtualDesktopWatchdogState::unarmed();
    lemma_stability_arms(seen, start);
    assert(!seen[i].connected);
    assert forall|k: int| start <= k <= i - 1 implies !(#[trigger] seen[k]).connected by {}
    let earlier_call = lemma_grace_began(seen, start, i);
    if fresh.calls_at(seen, i) {
        i
    } else {
        earlier_call->0
    }
}

/// While the monitor is stopping or recovering itself, the watchdog gives no command.
pub proof fn disallowed_watchdog_gives_no_command(
    watchdog: VirtualDesktopWatchdogState,
    stopping: bool,
    step: WatchdogStep,
)
    ensures
        !watchdog_next(watchdog, stopping, false, step).1.is_command(),
        watchdog_next(watchdog, stopping, false, step).1 != WatchdogAction::AcquireOperation,
{
}

/// The watchdog starts Virtual Desktop only after it has stopped it and restarted its service.
pub proof fn watchdog_stops_before_it_starts(
    watchdog: VirtualDesktopWatchdogState,
    stopping: bool,
    allowed: bool,
    step: WatchdogStep,
)
    ensures
        watchdog_next(watchdog, stopping, allowed, step).1 == WatchdogAction::RestartVirtualDesktop
            ==> step == WatchdogStep::ServiceRestarted(WorkOutcome::Succeeded),
        watchdog_next(watchdog, stopping, allowed, step).1 == WatchdogAction::RestartService
            ==> step == WatchdogStep::Stopped(WorkOutcome::Succeeded),
{
}

/// The watchdog looks at the connection in every round until the monitor is stopping, and takes a
/// loss for its own only while the lifecycle is connected and it is allowed to recover. Only a call
/// for recovery leads to anything but the next look.
pub proof fn watchdog_acts_on_a_connected_lifecycle(
    watchdog: VirtualDesktopWatchdogState,
    allowed: bool,
    now: Instant,
    lifecycle: HostState,
    connected: bool,
)
    ensures
        ({
            let step = WatchdogStep::Sampled { now, lifecycle, connected };
            let (kept, end) = watchdog_next(watchdog, true, allowed, step);
            let (next, action) = watchdog_next(watchdog, false, allowed, step);
            let long_away = watchdog.disconnected_since matches Some(since) && since@
                + 8_000_000_000 <= now@;
            &&& kept == watchdog && end == WatchdogAction::Return
            &&& action == WatchdogAction::AcquireOperation <==> (lifecycle == HostState::Connected
                && allowed && watchdog.armed && !connected && long_away)
            &&& action != WatchdogAction::AcquireOperation <==> action == WatchdogAction::Wait
            &&& connected ==> next.disconnected_since is None && next.connected_since is Some
            &&& !connected ==> next.connected_since is None
            &&& !connected && watchdog.armed ==> next.disconnected_since is Some
            &&& watchdog.armed ==> next.armed
        }),
{
}

/// A round that recovers goes through its stages in order: Virtual Desktop is stopped unless it is
/// connected again, its service is restarted, it is started, and its connection is waited for. A
/// stage that fails ends the round, and so does the loss of the permission to recover.
pub proof fn watchdog_goes_through_its_stages(
    watchdog: VirtualDesktopWatchdogState,
    stopping: bool,
    allowed: bool,
    connected: bool,
    outcome: WorkOutcome,
)
    ensures
        ({
            let begun = watchdog_next(
                watchdog,
                stopping,
                allowed,
                WatchdogStep::OperationAcquired { connected },
            );
            let stopped = watchdog_next(
                watchdog,
                stopping,
                allowed,
                WatchdogStep::Stopped(outcome),
            );
            let served = watchdog_next(
                watchdog,
                stopping,
                allowed,
                WatchdogStep::ServiceRestarted(outcome),
            );
            let started = watchdog_next(
                watchdog,
                stopping,
                allowed,
                WatchdogStep::Restarted(outcome),
            );
            let worked = outcome == WorkOutcome::Succeeded;
            let superseded = WatchdogAction::Failed(RecoveryFailure::RecoverySuperseded);
            &&& begun.0 == watchdog && stopped.0 == watchdog && served.0 == watchdog && started.0
                == watchdog
            &&& begun.1 == WatchdogAction::StopVirtualDesktop <==> allowed && !connected
            &&& begun.1 == superseded <==> !allowed || connected
            &&& stopped.1 == WatchdogAction::RestartService <==> worked && allowed
            &&& served.1 == WatchdogAction::RestartVirtualDesktop <==> worked && allowed
            &&& started.1 == WatchdogAction::AwaitConnection <==> worked
            &&& worked && !allowed ==> stopped.1 == superseded && served.1 == superseded
            &&& !worked ==> stopped.1 == WatchdogAction::Failed(RecoveryFailure::VirtualDesktopStop)
            &&& !worked ==> served.1 == WatchdogAction::Failed(
                RecoveryFailure::VirtualDesktopServiceRecovery,
            )
            &&& outcome == WorkOutcome::Failed ==> started.1 == WatchdogAction::Failed(
                RecoveryFailure::VirtualDesktopRestart,
            )
            &&& outcome == WorkOutcome::TaskFailed ==> started.1 == WatchdogAction::Failed(
                RecoveryFailure::VirtualDesktopRestartTask,
            )
        }),
{
}

/// Without the permission to recover, the watchdog neither stops nor starts Virtual Desktop nor
/// restarts its service, and does not get ready to.
pub proof fn permission_comes_before_every_command(
    watchdog: VirtualDesktopWatchdogState,
    stopping: bool,
    step: WatchdogStep,
)
    ensures
        ({
            let action = watchdog_next(watchdog, stopping, false, step).1;
            &&& action != WatchdogAction::StopVirtualDesktop
            &&& action != WatchdogAction::RestartService
            &&& action != WatchdogAction::RestartVirtualDesktop
            &&& action != WatchdogAction::AcquireOperation
        }),
{
}

} // verus!
