//! The restart lock: waiting for it, holding it with heartbeats, and letting
//! it go.
//!
//! The lock lives on a bidirectional stream. This module decides what is sent
//! on the stream and what each thing that happens on it means; whoever owns
//! the stream performs the actions and hands the events back.
use crate::duration::Duration;
use crate::restart::RestartError;
use vstd::prelude::*;

verus! {

/// A moment: seconds since the Unix epoch and the nanoseconds beyond them.
#[derive(Clone, Copy, Debug, PartialEq, Eq, Structural)]
pub struct Timestamp {
    pub seconds: i64,
    pub nanos: i32,
}

/// A message to the server on the `AcquireRestartLock` stream: the request
/// for the lock, which comes first, or a heartbeat.
#[derive(Clone, Debug, PartialEq, Eq)]
pub struct AcquireRestartLockRequest {
    pub namespace: String,
    pub service: String,
    pub ttl_seconds: i32,
    pub heartbeat: bool,
}

/// What a message from the server on the `AcquireRestartLock` stream is about.
#[derive(Clone, Copy, Debug, PartialEq, Eq, Structural)]
pub enum MessageType {
    /// The place in the queue behind the current holder.
    QueuePosition,
    /// The lock is held from now on.
    Acquired,
    /// A heartbeat was acknowledged and the expiry moved.
    TtlExtended,
    /// Anything else.
    Other,
}

/// A message from the server on the `AcquireRestartLock` stream.
#[derive(Clone, Debug)]
pub struct AcquireRestartLockResponse {
    pub message_type: MessageType,
    pub position: i32,
    pub token: String,
    pub expires_at: Option<Timestamp>,
}

/// What a read of the stream gives.
#[derive(Clone, Debug)]
pub enum Received {
    /// A message.
    Message(AcquireRestartLockResponse),
    /// The server closed the stream.
    Closed,
    /// The stream failed.
    Failed(RestartError),
}

/// The whole seconds that a TTL becomes on the wire: a TTL below a second
/// counts as one, and the rest of a second is dropped.
pub open spec fn ttl_seconds(ttl: nat) -> nat {
    let secs = ttl / 1_000_000_000;
    if secs == 0 {
        1
    } else {
        secs
    }
}

/// Rejects an empty `ttl`, and one with more seconds than a request can hold,
/// and converts the others to the whole seconds that the wire protocol
/// requires.
pub fn validate_ttl(ttl: Duration) -> (secs: Result<i32, RestartError>)
    ensures
        secs is Ok <==> ttl@ > 0 && ttl_seconds(ttl@) <= i32::MAX,
        secs matches Ok(secs) ==> secs == ttl_seconds(ttl@),
        secs is Ok <==> 0 < ttl@ < 2_147_483_648_000_000_000,
        secs matches Ok(secs) ==> if ttl@ < 1_000_000_000 {
            secs == 1
        } else {
            secs * 1_000_000_000 <= ttl@ < (secs + 1) * 1_000_000_000
        },
        secs matches Err(error) ==> error == RestartError::InvalidTtl(ttl),
{
    if ttl.is_zero() {
        return Err(RestartError::InvalidTtl(ttl));
    }
    let whole: u64 = ttl.as_secs();
    let secs: u64 = if whole == 0 { 1 } else { whole };
    if secs <= i32::MAX as u64 {
        Ok(secs as i32)
    } else {
        Err(RestartError::InvalidTtl(ttl))
    }
}

/// A quarter of a TTL, in nanoseconds. A TTL below a second counts as one.
pub open spec fn quarter_of_ttl(ttl_secs: int) -> int {
    let ttl = if ttl_secs < 1 {
        1
    } else {
        ttl_secs
    };
    ttl * 1_000_000_000 / 4
}

/// The time between two heartbeats: a quarter of the TTL, which counts as a
/// second where it is less.
pub fn heartbeat_interval(ttl_secs: i32) -> (interval: Duration)
    ensures
        interval@ == quarter_of_ttl(ttl_secs as int),
        ttl_secs >= 1 ==> 4 * interval@ == ttl_secs * 1_000_000_000,
        ttl_secs < 1 ==> interval@ == 250_000_000,
{
    let secs: u64 = if ttl_secs < 1 { 1 } else { ttl_secs as u64 };
    let interval = Duration::from_secs(secs).divided_by(4);
    if interval.is_zero() {
        Duration::from_millis(1)
    } else {
        interval
    }
}

/// Whether a request is a heartbeat: the flag alone, with nothing else filled
/// in.
pub open spec fn is_heartbeat(request: AcquireRestartLockRequest) -> bool {
    request.namespace@.len() == 0 && request.service@.len() == 0 && request.ttl_seconds == 0
        && request.heartbeat
}

/// A request for the lock that the server has not answered yet.
pub struct PendingLock {
    ttl_secs: i32,
}

impl View for PendingLock {
    type V = i32;

    closed spec fn view(&self) -> i32 {
        self.ttl_secs
    }
}

/// Begins to acquire the restart lock of `namespace`/`service`: gives the
/// request that opens the exchange and the state that waits for the answer.
///
/// `ttl` must cover the full time between acquiring the lock and releasing it.
/// A TTL that [`validate_ttl`] rejects is rejected here, before there is
/// anything to send.
pub fn acquire_lock(namespace: String, service: String, ttl: Duration) -> (begun: Result<
    (AcquireRestartLockRequest, PendingLock),
    RestartError,
>)
    ensures
        begun is Ok <==> ttl@ > 0 && ttl_seconds(ttl@) <= i32::MAX,
        begun matches Ok((request, pending)) ==> {
            &&& request.namespace@ == namespace@
            &&& request.service@ == service@
            &&& request.ttl_seconds == ttl_seconds(ttl@)
            &&& !request.heartbeat
            &&& pending@ == ttl_seconds(ttl@)
        },
        begun is Ok <==> 0 < ttl@ < 2_147_483_648_000_000_000,
        begun matches Ok((request, pending)) ==> pending@ == request.ttl_seconds && if ttl@
            < 1_000_000_000 {
            request.ttl_seconds == 1
        } else {
            request.ttl_seconds * 1_000_000_000 <= ttl@ < (request.ttl_seconds + 1) * 1_000_000_000
        },
        begun matches Err(error) ==> error == RestartError::InvalidTtl(ttl),
{
    match validate_ttl(ttl) {
        Ok(ttl_secs) => Ok(acquire_lock_with(namespace, service, ttl_secs)),
        Err(error) => Err(error),
    }
}

/// Begins to acquire the restart lock with a TTL in whole seconds; see
/// [`acquire_lock`].
pub fn acquire_lock_with(namespace: String, service: String, ttl_secs: i32) -> (begun: (
    AcquireRestartLockRequest,
    PendingLock,
))
    ensures
        begun.0.namespace@ == namespace@,
        begun.0.service@ == service@,
        begun.0.ttl_seconds == ttl_secs,
        !begun.0.heartbeat,
        begun.1@ == ttl_secs,
{
    (
        AcquireRestartLockRequest { namespace, service, ttl_seconds: ttl_secs, heartbeat: false },
        PendingLock { ttl_secs },
    )
}

/// What comes of waiting for the lock.
pub enum AcquireStep {
    /// Read on.
    Wait,
    /// The lock is held.
    Acquired(Lock),
    /// The lock was not acquired.
    Failed(RestartError),
}

/// An [`AcquireStep`] over the views of its parts.
pub ghost enum AcquireStepView {
    Wait,
    Acquired(LockView),
    Failed(crate::restart::RestartErrorView),
}

impl View for AcquireStep {
    type V = AcquireStepView;

    open spec fn view(&self) -> AcquireStepView {
        match self {
            AcquireStep::Wait => AcquireStepView::Wait,
            AcquireStep::Acquired(lock) => AcquireStepView::Acquired(lock@),
            AcquireStep::Failed(error) => AcquireStepView::Failed(error@),
        }
    }
}

/// What a read of the stream means to a replica that waits for the lock with
/// a TTL of `ttl_secs` seconds.
pub open spec fn acquire_step(ttl_secs: i32, received: Received) -> AcquireStepView {
    match received {
        Received::Message(response) => if response.message_type == MessageType::Acquired {
            AcquireStepView::Acquired(
                LockView {
                    token: response.token@,
                    expires_at: response.expires_at,
                    ttl_secs,
                    lost: None,
                    released: false,
                    holding: true,
                },
            )
        } else {
            AcquireStepView::Wait
        },
        Received::Closed => AcquireStepView::Failed(
            crate::restart::RestartErrorView::ClosedBeforeAcquired,
        ),
        Received::Failed(error) => AcquireStepView::Failed(error@),
    }
}

impl PendingLock {
    /// Takes in what a read of the stream gave. An `ACQUIRED` message makes
    /// the lock, every other message is passed over, and the end of the
    /// stream is an error.
    pub fn on_received(&self, received: Received) -> (step: AcquireStep)
        ensures
            step@ == acquire_step(self@, received),
            match received {
                Received::Message(response) => if response.message_type == MessageType::Acquired {
                    step matches AcquireStep::Acquired(lock) && lock@.token == response.token@
                        && lock@.expires_at == response.expires_at && lock@.ttl_secs == self@
                        && lock@.lost is None && !lock@.released && lock@.holding
                } else {
                    step is Wait
                },
                Received::Closed => step matches AcquireStep::Failed(error) && error
                    is ClosedBeforeAcquired,
                Received::Failed(cause) => step matches AcquireStep::Failed(error) && error
                    == cause,
            },
    {
        match received {
            Received::Message(response) => {
                if response.message_type == MessageType::Acquired {
                    AcquireStep::Acquired(
                        Lock {
                            token: response.token,
                            expires_at: response.expires_at,
                            ttl_secs: self.ttl_secs,
                            lost: None,
                            released: false,
                            holding: true,
                        },
                    )
                } else {
                    AcquireStep::Wait
                }
            },
            Received::Closed => AcquireStep::Failed(RestartError::ClosedBeforeAcquired),
            Received::Failed(error) => AcquireStep::Failed(error),
        }
    }
}

/// A held restart lock.
///
/// Release it once the graceful shutdown is complete, immediately before
/// exiting. Releasing is idempotent: a shutdown path may race a signal
/// handler, and the second call does nothing.
pub struct Lock {
    token: String,
    expires_at: Option<Timestamp>,
    ttl_secs: i32,
    lost: Option<RestartError>,
    released: bool,
    holding: bool,
}

/// The state of a [`Lock`].
#[verifier::ext_equal]
pub ghost struct LockView {
    /// Identifies the acquisition.
    pub token: Seq<char>,
    /// When the lock expires unless a heartbeat moves it.
    pub expires_at: Option<Timestamp>,
    /// The TTL in seconds.
    pub ttl_secs: i32,
    /// How the lock was lost, where it was.
    pub lost: Option<crate::restart::RestartErrorView>,
    /// Whether the holder asked for the release.
    pub released: bool,
    /// Whether the stream of the lock is still attended to.
    pub holding: bool,
}

/// The view of an optional error.
pub open spec fn error_view(error: Option<RestartError>) -> Option<
    crate::restart::RestartErrorView,
> {
    match error {
        Some(error) => Some(error@),
        None => None,
    }
}

impl View for Lock {
    type V = LockView;

    closed spec fn view(&self) -> LockView {
        LockView {
            token: self.token@,
            expires_at: self.expires_at,
            ttl_secs: self.ttl_secs,
            lost: error_view(self.lost),
            released: self.released,
            holding: self.holding,
        }
    }
}

/// What happens to a held lock.
#[derive(Clone, Debug)]
pub enum HoldEvent {
    /// The signal of [`Lock::release`] arrived.
    ReleaseRequested,
    /// The heartbeat interval passed.
    HeartbeatDue,
    /// A heartbeat could not be sent.
    HeartbeatFailed(RestartError),
    /// A read of the stream gave something.
    Received(Received),
}

/// What to do for a held lock.
#[derive(Clone, Debug)]
pub enum HoldAction {
    /// Close the sending side of the stream and stop attending to it.
    CloseSend,
    /// Send this heartbeat.
    SendHeartbeat(AcquireRestartLockRequest),
    /// Wait for the next event.
    Continue,
    /// Stop attending to the stream.
    Stop,
}

/// The lock after it was lost for `cause`: a loss counts only where the holder
/// had not asked for the release.
pub open spec fn after_loss(lock: LockView, cause: Seq<char>) -> LockView {
    LockView {
        lost: if lock.released {
            lock.lost
        } else {
            Some(crate::restart::RestartErrorView::LockLost(cause))
        },
        holding: false,
        ..lock
    }
}

/// The lock after an event. The stream is closed only for a release that was
/// asked for.
pub open spec fn after_event(lock: LockView, event: HoldEvent) -> LockView {
    if !lock.holding {
        lock
    } else {
        match event {
            HoldEvent::ReleaseRequested => LockView { holding: !lock.released, ..lock },
            HoldEvent::HeartbeatDue => lock,
            HoldEvent::HeartbeatFailed(error) => after_loss(lock, error.message()),
            HoldEvent::Received(Received::Message(response)) => if response.message_type
                == MessageType::TtlExtended {
                LockView { expires_at: response.expires_at, ..lock }
            } else {
                lock
            },
            HoldEvent::Received(Received::Closed) => after_loss(
                lock,
                "stream closed by server"@,
            ),
            HoldEvent::Received(Received::Failed(error)) => after_loss(lock, error.message()),
        }
    }
}

/// The lock after events, in order.
pub open spec fn after_events(lock: LockView, events: Seq<HoldEvent>) -> LockView
    decreases events.len(),
{
    if events.len() == 0 {
        lock
    } else {
        after_event(after_events(lock, events.drop_last()), events.last())
    }
}

/// The lock after the holder asked for its release.
pub open spec fn after_release(lock: LockView) -> LockView {
    LockView { released: true, ..lock }
}

/// Whether an event ends the attention to the stream of a held lock, given
/// whether its release was asked for.
pub open spec fn ends_hold(released: bool, event: HoldEvent) -> bool {
    match event {
        HoldEvent::ReleaseRequested => released,
        HoldEvent::HeartbeatDue => false,
        HoldEvent::HeartbeatFailed(_) => true,
        HoldEvent::Received(received) => !(received is Message),
    }
}

impl Lock {
    /// Identifies this lock acquisition, for audit and logging.
    pub fn token(&self) -> (token: String)
        ensures
            token@ == self@.token,
    {
        self.token.clone()
    }

    /// When the lock expires, as the latest acknowledged heartbeat says.
    pub fn expires_at(&self) -> (expires_at: Option<Timestamp>)
        ensures
            expires_at == self@.expires_at,
    {
        self.expires_at
    }

    /// How the lock was lost, where that happened before it was released.
    ///
    /// After a loss another replica may acquire the lock and restart
    /// concurrently: there is nothing to undo, only to log.
    pub fn lost(&self) -> (lost: Option<&RestartError>)
        ensures
            match lost {
                Some(error) => self@.lost == Some(error@),
                None => self@.lost is None,
            },
    {
        match &self.lost {
            Some(error) => Some(error),
            None => None,
        }
    }

    /// Whether the stream of the lock is still attended to.
    pub fn is_held(&self) -> (held: bool)
        ensures
            held == self@.holding,
    {
        self.holding
    }

    /// Whether the release of the lock was asked for.
    pub fn is_released(&self) -> (released: bool)
        ensures
            released == self@.released,
    {
        self.released
    }

    /// The time between two heartbeats.
    pub fn heartbeat_interval(&self) -> (interval: Duration)
        ensures
            interval@ == quarter_of_ttl(self@.ttl_secs as int),
            self@.ttl_secs >= 1 ==> 4 * interval@ == self@.ttl_secs * 1_000_000_000,
            self@.ttl_secs < 1 ==> interval@ == 250_000_000,
    {
        heartbeat_interval(self.ttl_secs)
    }

    /// Asks for the release of the lock. Says whether this is the first call,
    /// on which the owner of the stream is to be signalled and waited for.
    pub fn release(&mut self) -> (first: bool)
        ensures
            final(self)@ == after_release(old(self)@),
            final(self)@ == (LockView { released: true, ..old(self)@ }),
            first == !old(self)@.released,
    {
        let first: bool = !self.released;
        self.released = true;
        first
    }

    fn report_lost(&mut self, cause: String)
        ensures
            final(self)@ == after_loss(old(self)@, cause@),
    {
        self.holding = false;
        if !self.released {
            self.lost = Some(RestartError::LockLost(cause));
        }
    }

    /// Takes in an event of the stream, the heartbeat timer or the release
    /// signal, and says what to do. A release signal without a release that
    /// was asked for changes nothing.
    pub fn on_event(&mut self, event: HoldEvent) -> (action: HoldAction)
        ensures
            final(self)@ == after_event(old(self)@, event),
            action is CloseSend <==> old(self)@.holding && old(self)@.released && event
                is ReleaseRequested,
            action is SendHeartbeat <==> old(self)@.holding && event is HeartbeatDue,
            action is Stop <==> !old(self)@.holding || (ends_hold(old(self)@.released, event)
                && !(event is ReleaseRequested)),
            action matches HoldAction::SendHeartbeat(request) ==> is_heartbeat(request),
            action matches HoldAction::SendHeartbeat(request) ==> request.heartbeat
                && request.namespace@.len() == 0 && request.service@.len() == 0
                && request.ttl_seconds == 0,
            !old(self)@.holding ==> action is Stop && final(self)@ == old(self)@,
            old(self)@.holding ==> match event {
                HoldEvent::ReleaseRequested => if old(self)@.released {
                    action is CloseSend && !final(self)@.holding
                } else {
                    action is Continue && final(self)@.holding
                },
                HoldEvent::HeartbeatDue => action is SendHeartbeat && final(self)@ == old(self)@,
                HoldEvent::HeartbeatFailed(_) => action is Stop && !final(self)@.holding,
                HoldEvent::Received(Received::Message(_)) => action is Continue
                    && final(self)@.holding,
                HoldEvent::Received(Received::Closed) => action is Stop && !final(self)@.holding,
                HoldEvent::Received(Received::Failed(_)) => action is Stop && !final(self)@.holding,
            },
            final(self)@.token == old(self)@.token,
            final(self)@.ttl_secs == old(self)@.ttl_secs,
            final(self)@.released == old(self)@.released,
            final(self)@.expires_at == if old(self)@.holding && (event matches HoldEvent::Received(
                Received::Message(response),
            ) && response.message_type == MessageType::TtlExtended) {
                event->Received_0->Message_0.expires_at
            } else {
                old(self)@.expires_at
            },
            final(self)@.lost == if !old(self)@.holding || old(self)@.released {
                old(self)@.lost
            } else {
                match event {
                    HoldEvent::HeartbeatFailed(error) => Some(
                        crate::restart::RestartErrorView::LockLost(error.message()),
                    ),
                    HoldEvent::Received(Received::Failed(error)) => Some(
                        crate::restart::RestartErrorView::LockLost(error.message()),
                    ),
                    HoldEvent::Received(Received::Closed) => Some(
                        crate::restart::RestartErrorView::LockLost("stream closed by server"@),
                    ),
                    _ => old(self)@.lost,
                }
            },
    {
        if !self.holding {
            return HoldAction::Stop;
        }
        match event {
            HoldEvent::ReleaseRequested => {
                if self.released {
                    self.holding = false;
                    HoldAction::CloseSend
                } else {
                    HoldAction::Continue
                }
            },
            HoldEvent::HeartbeatDue => HoldAction::SendHeartbeat(
                AcquireRestartLockRequest {
                    namespace: String::new(),
                    service: String::new(),
                    ttl_seconds: 0,
                    heartbeat: true,
                },
            ),
            HoldEvent::HeartbeatFailed(error) => {
                self.report_lost(error.to_string());
                HoldAction::Stop
            },
            HoldEvent::Received(Received::Message(response)) => {
                if response.message_type == MessageType::TtlExtended {
                    self.expires_at = response.expires_at;
                }
                HoldAction::Continue
            },
            HoldEvent::Received(Received::Closed) => {
                self.report_lost("stream closed by server".to_string());
                HoldAction::Stop
            },
            HoldEvent::Received(Received::Failed(error)) => {
                self.report_lost(error.to_string());
                HoldAction::Stop
            },
        }
    }
}

/// Four heartbeat intervals make up the TTL: as many consecutive heartbeats
/// as that have to be missed before the lock expires.
pub proof fn law_four_heartbeats_make_a_ttl(ttl_secs: int)
    requires
        ttl_secs >= 1,
    ensures
        4 * quarter_of_ttl(ttl_secs) == ttl_secs * 1_000_000_000,
        quarter_of_ttl(ttl_secs) > 0,
{
}

/// What comes of waiting for the lock, after reads of the stream in order: the
/// first that is no passed-over message decides, and nothing is read behind
/// it.
pub open spec fn acquire_outcome(ttl_secs: i32, received: Seq<Received>) -> AcquireStepView
    decreases received.len(),
{
    if received.len() == 0 {
        AcquireStepView::Wait
    } else {
        match acquire_outcome(ttl_secs, received.drop_last()) {
            AcquireStepView::Wait => acquire_step(ttl_secs, received.last()),
            decided => decided,
        }
    }
}

/// However many messages other than `ACQUIRED` come first, the replica waits
/// through them, and what is read next decides: an `ACQUIRED` message gives a
/// lock with its token and expiry, the end of the stream gives an error.
pub proof fn law_queue_is_waited_through(ttl_secs: i32, queue: Seq<Received>, next: Received)
    requires
        forall|i: int|
            0 <= i < queue.len() ==> (#[trigger] queue[i] matches Received::Message(response)
                && response.message_type != MessageType::Acquired),
    ensures
        acquire_outcome(ttl_secs, queue) == AcquireStepView::Wait,
        acquire_outcome(ttl_secs, queue.push(next)) == acquire_step(ttl_secs, next),
    decreases queue.len(),
{
    if queue.len() > 0 {
        law_queue_is_waited_through(ttl_secs, queue.drop_last(), queue.last());
        assert(queue.drop_last().push(queue.last()) =~= queue);
    }
    assert(queue.push(next).drop_last() =~= queue);
}

/// Once it is decided whether the lock is acquired, nothing that is read
/// later changes it.
pub proof fn law_acquisition_is_decided_once(
    ttl_secs: i32,
    received: Seq<Received>,
    later: Seq<Received>,
)
    requires
        !(acquire_outcome(ttl_secs, received) is Wait),
    ensures
        acquire_outcome(ttl_secs, received + later) == acquire_outcome(ttl_secs, received),
    decreases later.len(),
{
    if later.len() == 0 {
        assert(received + later =~= received);
    } else {
        law_acquisition_is_decided_once(ttl_secs, received, later.drop_last());
        assert((received + later).drop_last() =~= received + later.drop_last());
    }
}

/// A lock that was just acquired is held, and neither lost nor released.
pub proof fn law_acquired_lock_is_whole(ttl_secs: i32, received: Received)
    ensures
        acquire_step(ttl_secs, received) matches AcquireStepView::Acquired(lock) ==> lock.holding
            && !lock.released && lock.lost is None && lock.ttl_secs == ttl_secs,
{
}

/// Events only ever move the expiry and end the hold: the token and the TTL
/// stay, and no event asks for a release.
pub proof fn law_events_keep_the_token(lock: LockView, events: Seq<HoldEvent>)
    ensures
        ({
            let later = after_events(lock, events);
            &&& later.token == lock.token
            &&& later.ttl_secs == lock.ttl_secs
            &&& later.released == lock.released
            &&& later.holding ==> lock.holding
        }),
    decreases events.len(),
{
    if events.len() > 0 {
        law_events_keep_the_token(lock, events.drop_last());
    }
}

/// The lock is attended to exactly until an event that ends the hold.
pub proof fn law_hold_lasts_until_it_ends(lock: LockView, events: Seq<HoldEvent>)
    requires
        lock.holding,
    ensures
        after_events(lock, events).holding <==> forall|i: int|
            0 <= i < events.len() ==> !ends_hold(lock.released, #[trigger] events[i]),
    decreases events.len(),
{
    if events.len() > 0 {
        let before = events.drop_last();
        law_hold_lasts_until_it_ends(lock, before);
        law_events_keep_the_token(lock, before);
        if after_events(lock, events).holding {
            assert forall|i: int| 0 <= i < events.len() implies !ends_hold(
                lock.released,
                #[trigger] events[i],
            ) by {
                if i < before.len() {
                    assert(events[i] == before[i]);
                }
            }
        }
        if forall|i: int| 0 <= i < events.len() ==> !ends_hold(lock.released, #[trigger] events[i]) {
            assert forall|i: int| 0 <= i < before.len() implies !ends_hold(
                lock.released,
                #[trigger] before[i],
            ) by {
                assert(events[i] == before[i]);
            }
            assert(!ends_hold(lock.released, events[events.len() - 1]));
        }
    }
}

/// Whether an event acknowledges a heartbeat.
pub open spec fn is_extension(event: HoldEvent) -> bool {
    event matches HoldEvent::Received(Received::Message(response)) && response.message_type
        == MessageType::TtlExtended
}

/// While the lock is held its expiry is the one that it was acquired with, or
/// that of the latest acknowledged heartbeat.
pub proof fn law_expiry_is_the_latest_extension(lock: LockView, events: Seq<HoldEvent>)
    requires
        lock.holding,
        after_events(lock, events).holding,
    ensures
        (forall|i: int| 0 <= i < events.len() ==> !is_extension(#[trigger] events[i]))
            ==> after_events(lock, events).expires_at == lock.expires_at,
        forall|i: int|
            #![trigger events[i]]
            0 <= i < events.len() && is_extension(events[i]) && (forall|j: int|
                i < j < events.len() ==> !is_extension(#[trigger] events[j])) ==> after_events(
                lock,
                events,
            ).expires_at == events[i]->Received_0->Message_0.expires_at,
    decreases events.len(),
{
    if events.len() > 0 {
        let before = events.drop_last();
        law_expiry_is_the_latest_extension(lock, before);
        let last = events.len() - 1;
        if forall|i: int| 0 <= i < events.len() ==> !is_extension(#[trigger] events[i]) {
            assert forall|i: int| 0 <= i < before.len() implies !is_extension(
                #[trigger] before[i],
            ) by {
                assert(events[i] == before[i]);
            }
            assert(!is_extension(events[last]));
        }
        assert forall|i: int|
            #![trigger events[i]]
            0 <= i < events.len() && is_extension(events[i]) && (forall|j: int|
                i < j < events.len() ==> !is_extension(
                    #[trigger] events[j],
                )) implies after_events(lock, events).expires_at
            == events[i]->Received_0->Message_0.expires_at by {
            if i < last {
                assert(before[i] == events[i]);
                assert forall|j: int| i < j < before.len() implies !is_extension(
                    #[trigger] before[j],
                ) by {
                    assert(events[j] == before[j]);
                }
                assert(!is_extension(events[last]));
            }
        }
    }
}

/// A loss is reported at most once: once the stream is no longer attended to,
/// neither events nor a release change what the lock says of a loss, or
/// anything else but that it was released.
pub proof fn law_nothing_changes_after_the_hold(lock: LockView, events: Seq<HoldEvent>)
    requires
        !lock.holding,
    ensures
        after_events(lock, events) == lock,
        after_events(after_release(lock), events) == after_release(lock),
    decreases events.len(),
{
    if events.len() > 0 {
        law_nothing_changes_after_the_hold(lock, events.drop_last());
    }
}

/// An intentional release never shows as a loss, whatever happens on the
/// stream while the release is under way.
pub proof fn law_release_is_no_loss(lock: LockView, events: Seq<HoldEvent>)
    ensures
        after_events(after_release(lock), events).lost == lock.lost,
    decreases events.len(),
{
    if events.len() > 0 {
        law_release_is_no_loss(lock, events.drop_last());
        law_events_keep_the_token(after_release(lock), events.drop_last());
    }
}

/// A held lock whose release was not asked for is lost exactly when the stream
/// ends or fails, or a heartbeat cannot be sent, and the loss says why. A stray
/// release signal changes nothing.
pub proof fn law_unexpected_end_is_a_loss(lock: LockView, event: HoldEvent)
    requires
        lock.holding,
        !lock.released,
        lock.lost is None,
    ensures
        after_event(lock, event).lost is Some <==> ends_hold(false, event),
        after_event(lock, event).lost matches Some(error) ==> error is LockLost,
        event matches HoldEvent::HeartbeatFailed(error) ==> after_event(lock, event).lost == Some(
            crate::restart::RestartErrorView::LockLost(error.message()),
        ),
        event matches HoldEvent::Received(Received::Failed(error)) ==> after_event(lock, event).lost
            == Some(crate::restart::RestartErrorView::LockLost(error.message())),
        event matches HoldEvent::Received(Received::Closed) ==> after_event(lock, event).lost
            == Some(crate::restart::RestartErrorView::LockLost("stream closed by server"@)),
        event is ReleaseRequested ==> after_event(lock, event) == lock,
{
}

/// Asking for the release twice is asking once.
pub proof fn law_release_is_idempotent(lock: LockView)
    ensures
        after_release(after_release(lock)) == after_release(lock),
{
}

/// A TTL is asked for in whole seconds: those that fit into it, the rest of a
/// second dropped, and one where it is shorter than a second. What is asked for
/// is never more than the TTL of a second or longer, and less by under a second.
pub proof fn law_ttl_is_its_whole_seconds(ttl: nat)
    ensures
        ttl >= 1_000_000_000 ==> ttl_seconds(ttl) * 1_000_000_000 <= ttl < (ttl_seconds(ttl) + 1)
            * 1_000_000_000,
        ttl < 1_000_000_000 ==> ttl_seconds(ttl) == 1,
{
}

/// A longer TTL never asks for fewer seconds, and a second more of it asks for
/// one more.
pub proof fn law_ttl_grows_with_its_seconds(ttl: nat, longer: nat)
    requires
        ttl <= longer,
    ensures
        ttl_seconds(ttl) <= ttl_seconds(longer),
        ttl >= 1_000_000_000 ==> ttl_seconds(ttl + 1_000_000_000) == ttl_seconds(ttl) + 1,
{
}

/// Heartbeats of a lock with a TTL below a second go out every quarter of a
/// second.
pub proof fn law_short_ttl_beats_every_quarter_second(ttl_secs: int)
    requires
        ttl_secs < 1,
    ensures
        quarter_of_ttl(ttl_secs) == 250_000_000,
{
}

/// Only an `ACQUIRED` message gives the lock, with its token and its expiry;
/// only the end or a failure of the stream is an error; every other message is
/// waited through.
pub proof fn law_only_acquired_gives_the_lock(ttl_secs: i32, received: Received)
    ensures
        acquire_step(ttl_secs, received) is Acquired <==> (received matches Received::Message(
            response,
        ) && response.message_type == MessageType::Acquired),
        acquire_step(ttl_secs, received) is Wait <==> (received matches Received::Message(response)
            && response.message_type != MessageType::Acquired),
        acquire_step(ttl_secs, received) matches AcquireStepView::Acquired(lock) ==> lock.token
            == received->Message_0.token@ && lock.expires_at == received->Message_0.expires_at,
        received is Closed ==> acquire_step(ttl_secs, received) == AcquireStepView::Failed(
            crate::restart::RestartErrorView::ClosedBeforeAcquired,
        ),
        received matches Received::Failed(error) ==> acquire_step(ttl_secs, received)
            == AcquireStepView::Failed(error@),
{
}

/// The views of steps and losses keep what they hold.
pub proof fn law_step_views_are_faithful(lock: Lock, error: RestartError)
    ensures
        AcquireStep::Wait@ == AcquireStepView::Wait,
        AcquireStep::Acquired(lock)@ == AcquireStepView::Acquired(lock@),
        AcquireStep::Failed(error)@ == AcquireStepView::Failed(error@),
        error_view(Some(error)) == Some(error@),
        error_view(None) == None::<crate::restart::RestartErrorView>,
{
}

/// A held lock is held on through heartbeats, messages and stray release
/// signals, and through nothing else.
pub proof fn law_what_ends_a_hold(lock: LockView, event: HoldEvent)
    requires
        lock.holding,
    ensures
        after_event(lock, event).holding <==> (event is HeartbeatDue || (
        event matches HoldEvent::Received(received) && received is Message) || (
        event is ReleaseRequested && !lock.released)),
        ends_hold(lock.released, event) <==> !after_event(lock, event).holding,
{
}

}
