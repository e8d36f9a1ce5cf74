//! Waiting for a change of the bundle and then for the restart lock.
use crate::duration::Duration;
use crate::lock::{acquire_lock, validate_ttl, AcquireRestartLockRequest, PendingLock};
use crate::restart::RestartError;
use vstd::prelude::*;

verus! {

/// How far a wait has come.
#[derive(Clone, Copy, Debug, PartialEq, Eq, Structural)]
pub enum WaitPhase {
    /// No change was seen yet.
    FirstChange,
    /// A change was seen, and further ones are absorbed until none came for
    /// the debounce time.
    Debouncing,
    /// The lock is being acquired, or the wait failed.
    Done,
}

/// What happens to a wait.
#[derive(Clone, Copy, Debug, PartialEq, Eq, Structural)]
pub enum WaitEvent {
    /// The bundle changed.
    Changed,
    /// The watch stopped.
    WatchEnded,
    /// The debounce timer fired.
    TimerFired,
    /// The caller cancelled.
    Cancelled,
}

/// What to do for a wait.
pub enum WaitAction {
    /// Wait for a change.
    AwaitChange,
    /// Set the debounce timer to fire after this time, and wait for it, a
    /// change or the caller to cancel.
    ArmTimer(Duration),
    /// Open the lock stream, send this request and wait for the lock.
    Acquire(AcquireRestartLockRequest, PendingLock),
    /// Give up with this error.
    Fail(RestartError),
    /// The wait is over already.
    Nothing,
}

/// A wait for a restart.
pub struct RestartWait {
    namespace: String,
    service: String,
    ttl: Duration,
    debounce: Duration,
    phase: WaitPhase,
}

/// The state of a [`RestartWait`].
pub ghost struct WaitView {
    pub namespace: Seq<char>,
    pub service: Seq<char>,
    pub ttl: Duration,
    /// The debounce time, in nanoseconds.
    pub debounce: nat,
    pub phase: WaitPhase,
}

impl View for RestartWait {
    type V = WaitView;

    closed spec fn view(&self) -> WaitView {
        WaitView {
            namespace: self.namespace@,
            service: self.service@,
            ttl: self.ttl,
            debounce: self.debounce@,
            phase: self.phase,
        }
    }
}

impl RestartWait {
    /// A lock can have the TTL of a wait.
    #[verifier::type_invariant]
    spec fn inv(self) -> bool {
        is_lock_ttl(self.ttl@)
    }
}

/// Whether a lock can have a TTL of `ttl` nanoseconds.
pub open spec fn is_lock_ttl(ttl: nat) -> bool {
    ttl > 0 && crate::lock::ttl_seconds(ttl) <= i32::MAX
}

/// Begins a wait: for the next change of the bundle of `namespace`/`service`,
/// debounced by `debounce`, where zero means to act on the first change at
/// once, and then for the restart lock with a TTL of `ttl`.
///
/// A TTL that no lock can have is rejected here, before the watch for changes
/// is begun.
///
/// The updated bundle is not fetched: the process that comes after the restart
/// fetches it during its own startup.
pub fn wait_for_restart(
    namespace: String,
    service: String,
    ttl: Duration,
    debounce: Duration,
) -> (wait: Result<RestartWait, RestartError>)
    ensures
        wait is Ok <==> ttl@ > 0 && crate::lock::ttl_seconds(ttl@) <= i32::MAX,
        wait is Ok <==> 0 < ttl@ < 2_147_483_648_000_000_000,
        wait matches Err(error) ==> error == RestartError::InvalidTtl(ttl),
        wait matches Ok(wait) ==> wait@ == (WaitView {
            namespace: namespace@,
            service: service@,
            ttl,
            debounce: debounce@,
            phase: WaitPhase::FirstChange,
        }),
{
    match validate_ttl(ttl) {
        Ok(_) => Ok(
            RestartWait { namespace, service, ttl, debounce, phase: WaitPhase::FirstChange },
        ),
        Err(error) => Err(error),
    }
}

/// How far a wait with this debounce time has come after an event.
pub open spec fn phase_after(debounce: nat, phase: WaitPhase, event: WaitEvent) -> WaitPhase {
    match (phase, event) {
        (WaitPhase::FirstChange, WaitEvent::Changed) => if debounce == 0 {
            WaitPhase::Done
        } else {
            WaitPhase::Debouncing
        },
        (WaitPhase::FirstChange, WaitEvent::WatchEnded) => WaitPhase::Done,
        (WaitPhase::FirstChange, _) => WaitPhase::FirstChange,
        (WaitPhase::Debouncing, WaitEvent::Changed) => WaitPhase::Debouncing,
        (WaitPhase::Debouncing, _) => WaitPhase::Done,
        (WaitPhase::Done, _) => WaitPhase::Done,
    }
}

/// How far a wait has come after events, in order.
pub open spec fn phase_after_all(debounce: nat, events: Seq<WaitEvent>) -> WaitPhase
    decreases events.len(),
{
    if events.len() == 0 {
        WaitPhase::FirstChange
    } else {
        phase_after(debounce, phase_after_all(debounce, events.drop_last()), events.last())
    }
}

/// Whether an event makes a wait go on to acquire the lock: the first change
/// where there is no debounce time, or else the debounce timer behind it.
pub open spec fn turns_to_the_lock(debounce: nat, phase: WaitPhase, event: WaitEvent) -> bool {
    ||| phase == WaitPhase::FirstChange && event == WaitEvent::Changed && debounce == 0
    ||| phase == WaitPhase::Debouncing && event == WaitEvent::TimerFired
}

/// Whether `action` begins to acquire the lock that a wait is for.
pub open spec fn begins_lock(wait: WaitView, action: WaitAction) -> bool {
    let secs = crate::lock::ttl_seconds(wait.ttl@);
    action matches WaitAction::Acquire(request, pending) && request.namespace@ == wait.namespace
        && request.service@ == wait.service && request.ttl_seconds == secs && !request.heartbeat
        && pending@ == secs
}

/// Whether `action` is what an event asks for of a wait.
pub open spec fn is_wait_action(wait: WaitView, event: WaitEvent, action: WaitAction) -> bool {
    if turns_to_the_lock(wait.debounce, wait.phase, event) {
        begins_lock(wait, action)
    } else {
        match (wait.phase, event) {
            (WaitPhase::Done, _) => action is Nothing,
            (_, WaitEvent::Changed) => action matches WaitAction::ArmTimer(time) && time@
                == wait.debounce,
            (_, WaitEvent::WatchEnded) => action == WaitAction::Fail(RestartError::WatchStopped),
            (WaitPhase::Debouncing, _) => action == WaitAction::Fail(RestartError::Cancelled),
            (WaitPhase::FirstChange, _) => action is AwaitChange,
        }
    }
}

impl RestartWait {
    fn begin_lock(&self) -> (action: WaitAction)
        ensures
            begins_lock(self@, action),
    {
        proof {
            use_type_invariant(self);
        }
        match acquire_lock(self.namespace.clone(), self.service.clone(), self.ttl) {
            Ok((request, pending)) => WaitAction::Acquire(request, pending),
            Err(error) => WaitAction::Fail(error),
        }
    }

    /// Takes in an event of the watch, the debounce timer or the caller, and
    /// says what to do.
    pub fn on_event(&mut self, event: WaitEvent) -> (action: WaitAction)
        ensures
            final(self)@ == (WaitView {
                phase: phase_after(old(self)@.debounce, old(self)@.phase, event),
                ..old(self)@
            }),
            is_wait_action(old(self)@, event, action),
            final(self)@.phase == match (old(self)@.phase, event) {
                (WaitPhase::FirstChange, WaitEvent::Changed) => if old(self)@.debounce == 0 {
                    WaitPhase::Done
                } else {
                    WaitPhase::Debouncing
                },
                (WaitPhase::FirstChange, WaitEvent::TimerFired) => WaitPhase::FirstChange,
                (WaitPhase::FirstChange, WaitEvent::Cancelled) => WaitPhase::FirstChange,
                (WaitPhase::Debouncing, WaitEvent::Changed) => WaitPhase::Debouncing,
                _ => WaitPhase::Done,
            },
            match (old(self)@.phase, event) {
                (WaitPhase::Done, _) => action is Nothing,
                (_, WaitEvent::WatchEnded) => action matches WaitAction::Fail(error) && error
                    is WatchStopped,
                (WaitPhase::Debouncing, WaitEvent::Cancelled) => action matches WaitAction::Fail(
                    error,
                ) && error is Cancelled,
                (WaitPhase::FirstChange, WaitEvent::TimerFired) => action is AwaitChange,
                (WaitPhase::FirstChange, WaitEvent::Cancelled) => action is AwaitChange,
                (WaitPhase::Debouncing, WaitEvent::Changed) => action matches WaitAction::ArmTimer(
                    time,
                ) && time@ == old(self)@.debounce,
                (WaitPhase::FirstChange, WaitEvent::Changed) => if old(self)@.debounce > 0 {
                    action matches WaitAction::ArmTimer(time) && time@ == old(self)@.debounce
                } else {
                    action is Acquire
                },
                (WaitPhase::Debouncing, WaitEvent::TimerFired) => action is Acquire,
            },
            action matches WaitAction::Acquire(request, pending) ==> {
                &&& request.namespace@ == old(self)@.namespace
                &&& request.service@ == old(self)@.service
                &&& !request.heartbeat
                &&& pending@ == request.ttl_seconds
                &&& if old(self)@.ttl@ < 1_000_000_000 {
                    request.ttl_seconds == 1
                } else {
                    request.ttl_seconds * 1_000_000_000 <= old(self)@.ttl@ < (request.ttl_seconds
                        + 1) * 1_000_000_000
                }
            },
    {
        proof {
            use_type_invariant(&*self);
        }
        match self.phase {
            WaitPhase::FirstChange => match event {
                WaitEvent::Changed => {
                    if self.debounce.is_zero() {
                        let action = self.begin_lock();
                        self.phase = WaitPhase::Done;
                        action
                    } else {
                        self.phase = WaitPhase::Debouncing;
                        WaitAction::ArmTimer(self.debounce)
                    }
                },
                WaitEvent::WatchEnded => {
                    self.phase = WaitPhase::Done;
                    WaitAction::Fail(RestartError::WatchStopped)
                },
                _ => WaitAction::AwaitChange,
            },
            WaitPhase::Debouncing => match event {
                WaitEvent::Changed => WaitAction::ArmTimer(self.debounce),
                WaitEvent::WatchEnded => {
                    self.phase = WaitPhase::Done;
                    WaitAction::Fail(RestartError::WatchStopped)
                },
                WaitEvent::TimerFired => {
                    let action = self.begin_lock();
                    self.phase = WaitPhase::Done;
                    action
                },
                WaitEvent::Cancelled => {
                    self.phase = WaitPhase::Done;
                    WaitAction::Fail(RestartError::Cancelled)
                },
            },
            WaitPhase::Done => WaitAction::Nothing,
        }
    }
}

/// Without a debounce time the first change, and nothing else, turns a wait to
/// the lock.
pub proof fn law_no_debounce_acts_on_the_first_change(events: Seq<WaitEvent>, event: WaitEvent)
    requires
        forall|i: int| 0 <= i < events.len() ==> #[trigger] events[i] != WaitEvent::Changed
            && events[i] != WaitEvent::WatchEnded,
    ensures
        phase_after_all(0, events) == WaitPhase::FirstChange,
        turns_to_the_lock(0, phase_after_all(0, events), event) <==> event == WaitEvent::Changed,
    decreases events.len(),
{
    if events.len() > 0 {
        assert(events[events.len() - 1] == events.last());
        let before = events.drop_last();
        assert forall|i: int| 0 <= i < before.len() implies #[trigger] before[i]
            != WaitEvent::Changed && before[i] != WaitEvent::WatchEnded by {
            assert(events[i] == before[i]);
        }
        law_no_debounce_acts_on_the_first_change(before, event);
    }
}

/// With a debounce time, a wait turns to the lock only when the timer fires,
/// and only where the event right before was a change, which set the timer
/// anew: a whole debounce time has then passed without a change.
pub proof fn law_debounce_waits_for_quiet(debounce: nat, events: Seq<WaitEvent>, event: WaitEvent)
    requires
        debounce > 0,
        turns_to_the_lock(debounce, phase_after_all(debounce, events), event),
    ensures
        event == WaitEvent::TimerFired,
        events.len() > 0,
        events.last() == WaitEvent::Changed,
{
}

/// A run of changes, however long, is absorbed: the wait stays in its debounce
/// time, and the timer that fires behind it turns it to the lock.
pub proof fn law_changes_are_absorbed(debounce: nat, changes: Seq<WaitEvent>)
    requires
        debounce > 0,
        changes.len() > 0,
        forall|i: int| 0 <= i < changes.len() ==> #[trigger] changes[i] == WaitEvent::Changed,
    ensures
        phase_after_all(debounce, changes) == WaitPhase::Debouncing,
        turns_to_the_lock(debounce, phase_after_all(debounce, changes), WaitEvent::TimerFired),
    decreases changes.len(),
{
    assert(changes[changes.len() - 1] == changes.last());
    if changes.len() > 1 {
        let before = changes.drop_last();
        assert forall|i: int| 0 <= i < before.len() implies #[trigger] before[i]
            == WaitEvent::Changed by {
            assert(changes[i] == before[i]);
        }
        law_changes_are_absorbed(debounce, before);
    } else {
        assert(changes.drop_last().len() == 0);
    }
}

/// A wait comes to at most one end: once it has turned to the lock or failed,
/// no event makes it do anything.
pub proof fn law_wait_ends_once(debounce: nat, events: Seq<WaitEvent>, later: Seq<WaitEvent>)
    requires
        phase_after_all(debounce, events) == WaitPhase::Done,
    ensures
        phase_after_all(debounce, events + later) == WaitPhase::Done,
        forall|event: WaitEvent|
            !#[trigger] turns_to_the_lock(
                debounce,
                phase_after_all(debounce, events + later),
                event,
            ),
    decreases later.len(),
{
    if later.len() == 0 {
        assert(events + later =~= events);
    } else {
        law_wait_ends_once(debounce, events, later.drop_last());
        assert((events + later).drop_last() =~= events + later.drop_last());
    }
}

/// A wait acquires the lock that it was asked for: of its namespace and service,
/// with the whole seconds of its TTL.
pub proof fn law_wait_asks_for_its_lock(wait: WaitView, action: WaitAction)
    requires
        begins_lock(wait, action),
    ensures
        action matches WaitAction::Acquire(request, pending) && request.namespace@ == wait.namespace
            && request.service@ == wait.service && !request.heartbeat && pending@
            == request.ttl_seconds && if wait.ttl@ < 1_000_000_000 {
            request.ttl_seconds == 1
        } else {
            request.ttl_seconds * 1_000_000_000 <= wait.ttl@ < (request.ttl_seconds + 1)
                * 1_000_000_000
        },
{
    crate::lock::law_ttl_is_its_whole_seconds(wait.ttl@);
}

/// What makes a wait turn to the lock, fail, or go on. It turns to the lock on
/// the first change without a debounce time, or when the timer fires behind a
/// change; it fails when the watch stops, or when it is cancelled in its
/// debounce time; each change before that sets the timer to the whole debounce
/// time.
pub proof fn law_wait_actions(wait: WaitView, event: WaitEvent, action: WaitAction)
    requires
        is_wait_action(wait, event, action),
    ensures
        action is Acquire <==> (wait.phase == WaitPhase::FirstChange && event == WaitEvent::Changed
            && wait.debounce == 0) || (wait.phase == WaitPhase::Debouncing && event
            == WaitEvent::TimerFired),
        action is ArmTimer <==> event == WaitEvent::Changed && (wait.phase == WaitPhase::Debouncing
            || (wait.phase == WaitPhase::FirstChange && wait.debounce > 0)),
        action matches WaitAction::ArmTimer(time) ==> time@ == wait.debounce,
        action is Fail <==> (event == WaitEvent::WatchEnded && wait.phase != WaitPhase::Done) || (
        event == WaitEvent::Cancelled && wait.phase == WaitPhase::Debouncing),
        action matches WaitAction::Fail(error) ==> if event == WaitEvent::WatchEnded {
            error is WatchStopped
        } else {
            error is Cancelled
        },
        action is Nothing <==> wait.phase == WaitPhase::Done,
{
}

/// A wait is over exactly where it turned to the lock or failed, and debounces
/// from its first change on.
pub proof fn law_wait_phases(wait: WaitView, event: WaitEvent, action: WaitAction)
    requires
        is_wait_action(wait, event, action),
    ensures
        phase_after(wait.debounce, wait.phase, event) == WaitPhase::Done <==> action is Acquire
            || action is Fail || action is Nothing,
        phase_after(wait.debounce, wait.phase, event) == WaitPhase::Debouncing <==> action
            is ArmTimer,
{
}

}
