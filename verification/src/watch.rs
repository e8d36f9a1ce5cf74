//! Watching for changes of a service's bundle.
//!
//! The watch lives on a stream that is opened again, after a growing pause,
//! whenever it breaks. This module decides when to open, to pause and to stop;
//! whoever owns the stream performs the actions and hands the events back.
use crate::duration::Duration;
use vstd::prelude::*;

verus! {

/// The first pause before the stream is opened again, in seconds.
pub const WATCH_BACKOFF_MIN_SECS: u64 = 1;

/// The longest pause before the stream is opened again, in seconds.
pub const WATCH_BACKOFF_MAX_SECS: u64 = 30;

/// The request that opens the `WatchServiceBundle` stream.
#[derive(Clone, Debug, PartialEq, Eq)]
pub struct WatchServiceBundleRequest {
    pub namespace: String,
    pub service: String,
}

/// What a message on the `WatchServiceBundle` stream is about.
#[derive(Clone, Copy, Debug, PartialEq, Eq, Structural)]
pub enum EventType {
    /// The bundle changed.
    Changed,
    /// Anything else.
    Other,
}

/// The first pause, in nanoseconds.
pub open spec fn shortest_pause() -> nat {
    (WATCH_BACKOFF_MIN_SECS * 1_000_000_000) as nat
}

/// The longest pause, in nanoseconds.
pub open spec fn longest_pause() -> nat {
    (WATCH_BACKOFF_MAX_SECS * 1_000_000_000) as nat
}

/// The pause that follows a pause of `current` nanoseconds: twice as long, up
/// to the longest.
pub open spec fn doubled_pause(current: nat) -> nat {
    if 2 * current > longest_pause() {
        longest_pause()
    } else {
        2 * current
    }
}

/// The pause that follows a pause of `current`: twice as long, up to the
/// longest.
pub fn next_backoff(current: Duration) -> (next: Duration)
    ensures
        next@ == doubled_pause(current@),
        2 * current@ <= 30_000_000_000 ==> next@ == 2 * current@,
        2 * current@ > 30_000_000_000 ==> next@ == 30_000_000_000,
{
    let longest = Duration::from_secs(WATCH_BACKOFF_MAX_SECS);
    let doubled = current.saturating_mul(2);
    if doubled.exceeds(&longest) {
        longest
    } else {
        doubled
    }
}

/// What happens to a watch.
#[derive(Clone, Copy, Debug, PartialEq, Eq, Structural)]
pub enum WatchEvent {
    /// The watch begins. Says whether it is cancelled already.
    Started { cancelled: bool },
    /// The stream is open.
    Opened,
    /// The stream could not be opened.
    OpenFailed,
    /// A message arrived.
    Message(EventType),
    /// The stream ended or failed. Says whether the watch is cancelled.
    StreamEnded { cancelled: bool },
    /// The pause is over. Says whether the watch is cancelled.
    Slept { cancelled: bool },
    /// The watch was cancelled while it read the stream or paused.
    Cancelled,
}

/// What to do for a watch.
#[derive(Clone, Copy, Debug, PartialEq, Eq, Structural)]
pub enum WatchAction {
    /// Open the stream.
    Open,
    /// Read the stream, until the watch is cancelled.
    Receive,
    /// Signal a change, and read the stream, until the watch is cancelled.
    NotifyAndReceive,
    /// Pause this long, until the watch is cancelled.
    Sleep(Duration),
    /// Stop.
    Stop,
}

/// The state of a watch.
pub struct WatchLoop {
    backoff: Duration,
    stopped: bool,
}

/// The state of a [`WatchLoop`].
pub ghost struct WatchView {
    /// The pause, in nanoseconds, that comes next.
    pub backoff: nat,
    /// Whether the watch has stopped.
    pub stopped: bool,
}

impl View for WatchLoop {
    type V = WatchView;

    closed spec fn view(&self) -> WatchView {
        WatchView { backoff: self.backoff@, stopped: self.stopped }
    }
}

/// The state of a watch that begins.
pub open spec fn new_watch() -> WatchView {
    WatchView { backoff: shortest_pause(), stopped: false }
}

/// Whether an event stops a watch.
pub open spec fn stops_watch(event: WatchEvent) -> bool {
    match event {
        WatchEvent::Started { cancelled } => cancelled,
        WatchEvent::StreamEnded { cancelled } => cancelled,
        WatchEvent::Slept { cancelled } => cancelled,
        WatchEvent::Cancelled => true,
        _ => false,
    }
}

/// The watch after an event. A message makes the next pause the shortest
/// again; a pause that is over makes the next one longer.
pub open spec fn watch_after(watch: WatchView, event: WatchEvent) -> WatchView {
    if watch.stopped {
        watch
    } else {
        WatchView {
            backoff: match event {
                WatchEvent::Message(_) => shortest_pause(),
                WatchEvent::Slept { .. } => doubled_pause(watch.backoff),
                _ => watch.backoff,
            },
            stopped: stops_watch(event),
        }
    }
}

/// The watch after events, in order.
pub open spec fn watch_after_all(watch: WatchView, events: Seq<WatchEvent>) -> WatchView
    decreases events.len(),
{
    if events.len() == 0 {
        watch
    } else {
        watch_after(watch_after_all(watch, events.drop_last()), events.last())
    }
}

/// Whether `action` is what an event asks for of a watch.
pub open spec fn is_watch_action(
    watch: WatchView,
    event: WatchEvent,
    action: WatchAction,
) -> bool {
    if watch.stopped || stops_watch(event) {
        action is Stop
    } else {
        match event {
            WatchEvent::Started { .. } => action is Open,
            WatchEvent::Opened => action is Receive,
            WatchEvent::OpenFailed => action matches WatchAction::Sleep(pause) && pause@
                == watch.backoff,
            WatchEvent::Message(EventType::Changed) => action is NotifyAndReceive,
            WatchEvent::Message(EventType::Other) => action is Receive,
            WatchEvent::StreamEnded { .. } => action matches WatchAction::Sleep(pause) && pause@
                == watch.backoff,
            WatchEvent::Slept { .. } => action is Open,
            WatchEvent::Cancelled => action is Stop,
        }
    }
}

/// Begins to watch for changes of the bundle of `namespace`/`service`: gives
/// the request that opens the stream, each time, and the state of the watch.
pub fn watch_bundle(namespace: String, service: String) -> (begun: (
    WatchServiceBundleRequest,
    WatchLoop,
))
    ensures
        begun.0.namespace@ == namespace@,
        begun.0.service@ == service@,
        begun.1@ == new_watch(),
        begun.1@ == (WatchView { backoff: 1_000_000_000, stopped: false }),
{
    (
        WatchServiceBundleRequest { namespace, service },
        WatchLoop { backoff: Duration::from_secs(WATCH_BACKOFF_MIN_SECS), stopped: false },
    )
}

impl WatchLoop {
    /// Takes in an event of the stream, the pause or the caller, and says what
    /// to do.
    pub fn on_event(&mut self, event: WatchEvent) -> (action: WatchAction)
        ensures
            final(self)@ == watch_after(old(self)@, event),
            is_watch_action(old(self)@, event, action),
            action is NotifyAndReceive <==> !old(self)@.stopped && event == WatchEvent::Message(
                EventType::Changed,
            ),
            old(self)@.stopped ==> action is Stop && final(self)@ == old(self)@,
            !old(self)@.stopped ==> match event {
                WatchEvent::Started { cancelled } => action == (if cancelled {
                    WatchAction::Stop
                } else {
                    WatchAction::Open
                }) && final(self)@ == (WatchView { stopped: cancelled, ..old(self)@ }),
                WatchEvent::Opened => action is Receive && final(self)@ == old(self)@,
                WatchEvent::OpenFailed => (action matches WatchAction::Sleep(pause) && pause@
                    == old(self)@.backoff) && final(self)@ == old(self)@,
                WatchEvent::Message(event_type) => (action is NotifyAndReceive || (action is Receive
                    && event_type == EventType::Other)) && final(self)@ == (WatchView {
                    backoff: 1_000_000_000,
                    stopped: false,
                }),
                WatchEvent::StreamEnded { cancelled } => (if cancelled {
                    action is Stop
                } else {
                    action matches WatchAction::Sleep(pause) && pause@ == old(self)@.backoff
                }) && final(self)@ == (WatchView { stopped: cancelled, ..old(self)@ }),
                WatchEvent::Slept { cancelled } => action == (if cancelled {
                    WatchAction::Stop
                } else {
                    WatchAction::Open
                }) && final(self)@.stopped == cancelled && final(self)@.backoff == (if 2
                    * old(self)@.backoff > 30_000_000_000 {
                    30_000_000_000nat
                } else {
                    2 * old(self)@.backoff
                }),
                WatchEvent::Cancelled => action is Stop && final(self)@ == (WatchView {
                    stopped: true,
                    ..old(self)@
                }),
            },
    {
        if self.stopped {
            return WatchAction::Stop;
        }
        match event {
            WatchEvent::Started { cancelled } => {
                if cancelled {
                    self.stopped = true;
                    WatchAction::Stop
                } else {
                    WatchAction::Open
                }
            },
            WatchEvent::Opened => WatchAction::Receive,
            WatchEvent::OpenFailed => WatchAction::Sleep(self.backoff),
            WatchEvent::Message(event_type) => {
                self.backoff = Duration::from_secs(WATCH_BACKOFF_MIN_SECS);
                match event_type {
                    EventType::Changed => WatchAction::NotifyAndReceive,
                    EventType::Other => WatchAction::Receive,
                }
            },
            WatchEvent::StreamEnded { cancelled } => {
                if cancelled {
                    self.stopped = true;
                    WatchAction::Stop
                } else {
                    WatchAction::Sleep(self.backoff)
                }
            },
            WatchEvent::Slept { cancelled } => {
                self.backoff = next_backoff(self.backoff);
                if cancelled {
                    self.stopped = true;
                    WatchAction::Stop
                } else {
                    WatchAction::Open
                }
            },
            WatchEvent::Cancelled => {
                self.stopped = true;
                WatchAction::Stop
            },
        }
    }
}

/// What a look at the place for a signal finds.
#[derive(Clone, Copy, Debug, PartialEq, Eq, Structural)]
pub enum Taken {
    /// At least one change happened since the last look.
    Change,
    /// No change happened yet.
    Nothing,
    /// No change happened, and none will be signalled any more.
    Closed,
}

/// The place for one signal between a watch and its consumer. It says "at
/// least one change happened since you last looked", never a count.
pub struct ChangeSlot {
    pending: bool,
    closed: bool,
}

/// The state of a [`ChangeSlot`].
pub ghost struct SlotView {
    /// Whether a signal waits for the consumer.
    pub pending: bool,
    /// Whether the watch has stopped.
    pub closed: bool,
}

impl View for ChangeSlot {
    type V = SlotView;

    closed spec fn view(&self) -> SlotView {
        SlotView { pending: self.pending, closed: self.closed }
    }
}

/// The place after the watch signals a change: a signal that waits already
/// stands for this change too.
pub open spec fn slot_after_offer(slot: SlotView) -> SlotView {
    if slot.closed {
        slot
    } else {
        SlotView { pending: true, ..slot }
    }
}

/// The place after `n` signals.
pub open spec fn slot_after_offers(slot: SlotView, n: nat) -> SlotView
    decreases n,
{
    if n == 0 {
        slot
    } else {
        slot_after_offer(slot_after_offers(slot, (n - 1) as nat))
    }
}

/// What the consumer finds, and the place after it looked.
pub open spec fn slot_taken(slot: SlotView) -> (Taken, SlotView) {
    if slot.pending {
        (Taken::Change, SlotView { pending: false, ..slot })
    } else if slot.closed {
        (Taken::Closed, slot)
    } else {
        (Taken::Nothing, slot)
    }
}

impl ChangeSlot {
    /// An empty place.
    pub fn new() -> (slot: ChangeSlot)
        ensures
            slot@ == (SlotView { pending: false, closed: false }),
    {
        ChangeSlot { pending: false, closed: false }
    }

    /// Signals a change, unless a signal waits already.
    pub fn offer(&mut self)
        ensures
            final(self)@ == slot_after_offer(old(self)@),
            final(self)@.closed == old(self)@.closed,
            final(self)@.pending <==> old(self)@.pending || !old(self)@.closed,
    {
        if !self.closed {
            self.pending = true;
        }
    }

    /// Says that no further change will be signalled.
    pub fn close(&mut self)
        ensures
            final(self)@ == (SlotView { closed: true, ..old(self)@ }),
    {
        self.closed = true;
    }

    /// Takes the signal that waits, where there is one.
    pub fn take(&mut self) -> (taken: Taken)
        ensures
            (taken, final(self)@) == slot_taken(old(self)@),
            taken == Taken::Change <==> old(self)@.pending,
            taken == Taken::Closed <==> !old(self)@.pending && old(self)@.closed,
            final(self)@ == (SlotView { pending: false, ..old(self)@ }),
    {
        if self.pending {
            self.pending = false;
            Taken::Change
        } else if self.closed {
            Taken::Closed
        } else {
            Taken::Nothing
        }
    }
}

/// 2 to the power of `k`, or the cap where that is less: the seconds of the
/// pause after `k` pauses without a message between them.
pub open spec fn pause_schedule(k: nat) -> nat
    decreases k,
{
    if k == 0 {
        1
    } else if 2 * pause_schedule((k - 1) as nat) > 30 {
        30
    } else {
        2 * pause_schedule((k - 1) as nat)
    }
}

/// Without a message, the pauses grow as 1, 2, 4, 8, 16 and then 30 seconds.
pub proof fn law_pauses_double_up_to_the_cap(watch: WatchView, events: Seq<WatchEvent>, k: nat)
    requires
        watch.backoff == shortest_pause(),
        forall|i: int| 0 <= i < events.len() ==> !(#[trigger] events[i] is Message),
        !watch_after_all(watch, events).stopped,
        k == events.filter(|event: WatchEvent| event is Slept).len(),
    ensures
        watch_after_all(watch, events).backoff == pause_schedule(k) * 1_000_000_000,
    decreases events.len(),
{
    reveal(Seq::filter);
    if events.len() > 0 {
        let before = events.drop_last();
        let slept = |event: WatchEvent| event is Slept;
        assert forall|i: int| 0 <= i < before.len() implies !(#[trigger] before[i] is Message) by {
            assert(events[i] == before[i]);
        }
        assert(!(events[events.len() - 1] is Message));
        law_pauses_double_up_to_the_cap(watch, before, before.filter(slept).len());
    }
}

/// Any message, whatever came before it, makes the next pause the shortest.
pub proof fn law_message_resets_the_pause(watch: WatchView, message: EventType)
    requires
        !watch.stopped,
    ensures
        watch_after(watch, WatchEvent::Message(message)).backoff == shortest_pause(),
{
}

/// No pause of a watch is shorter than the first or longer than the cap.
pub proof fn law_pauses_stay_in_range(events: Seq<WatchEvent>)
    ensures
        shortest_pause() <= watch_after_all(new_watch(), events).backoff <= longest_pause(),
    decreases events.len(),
{
    if events.len() > 0 {
        law_pauses_stay_in_range(events.drop_last());
    }
}

/// A watch that was cancelled stops, and a stopped watch does nothing any
/// more.
pub proof fn law_cancelled_watch_stays_stopped(
    watch: WatchView,
    before: Seq<WatchEvent>,
    cancel: WatchEvent,
    later: Seq<WatchEvent>,
)
    requires
        stops_watch(cancel),
    ensures
        watch_after_all(watch, before.push(cancel) + later).stopped,
        forall|event: WatchEvent, action: WatchAction| #[trigger]
            is_watch_action(watch_after_all(watch, before.push(cancel) + later), event, action)
                ==> action is Stop,
    decreases later.len(),
{
    let so_far = before.push(cancel);
    if later.len() == 0 {
        assert(so_far + later =~= so_far);
        assert(so_far.drop_last() =~= before);
    } else {
        law_cancelled_watch_stays_stopped(watch, before, cancel, later.drop_last());
        assert((so_far + later).drop_last() =~= so_far + later.drop_last());
    }
}

/// Changes that come before the consumer looks are one signal: after any
/// number of them the consumer finds one change, and then nothing.
pub proof fn law_rapid_changes_coalesce(slot: SlotView, n: nat)
    requires
        n > 0,
        !slot.closed,
    ensures
        slot_taken(slot_after_offers(slot, n)).0 == Taken::Change,
        slot_taken(slot_taken(slot_after_offers(slot, n)).1).0 == Taken::Nothing,
    decreases n,
{
    if n > 1 {
        law_rapid_changes_coalesce(slot, (n - 1) as nat);
    }
    reveal_with_fuel(slot_after_offers, 2);
    lemma_offers_keep_open(slot, (n - 1) as nat);
}

proof fn lemma_offers_keep_open(slot: SlotView, n: nat)
    ensures
        slot_after_offers(slot, n).closed == slot.closed,
    decreases n,
{
    if n > 0 {
        lemma_offers_keep_open(slot, (n - 1) as nat);
    }
}

/// A change that waits is not lost when the watch stops: the consumer finds it
/// first, and only then that the watch has stopped.
pub proof fn law_pending_change_outlives_the_watch(slot: SlotView)
    requires
        slot.pending,
    ensures
        ({
            let closed = SlotView { closed: true, ..slot };
            &&& slot_taken(closed).0 == Taken::Change
            &&& slot_taken(slot_taken(closed).1).0 == Taken::Closed
        }),
{
}

/// No change is missed: in every state of a watch that is not stopped, whatever
/// came before, a `CHANGED` message asks for the signal, and nothing else does;
/// and the signal leaves a change for the consumer to find.
pub proof fn law_every_change_is_signalled(
    watch: WatchView,
    event: WatchEvent,
    action: WatchAction,
    slot: SlotView,
)
    requires
        is_watch_action(watch, event, action),
    ensures
        action is NotifyAndReceive <==> !watch.stopped && event == WatchEvent::Message(
            EventType::Changed,
        ),
        !slot.closed ==> slot_taken(slot_after_offer(slot)).0 == Taken::Change,
{
}

/// A watch that is not stopped goes on: it opens its stream at the start and
/// after a pause, reads on when it is open and after a message, and pauses for
/// the time that is due when it cannot be opened or ends.
pub proof fn law_watch_goes_on(watch: WatchView, event: WatchEvent, action: WatchAction)
    requires
        is_watch_action(watch, event, action),
    ensures
        action is Stop <==> watch.stopped || event == WatchEvent::Cancelled || event
            == (WatchEvent::Started { cancelled: true }) || event == (WatchEvent::StreamEnded {
            cancelled: true,
        }) || event == (WatchEvent::Slept { cancelled: true }),
        !watch.stopped ==> (action is Open <==> event == (WatchEvent::Started { cancelled: false })
            || event == (WatchEvent::Slept { cancelled: false })),
        !watch.stopped ==> (action is Sleep <==> event == WatchEvent::OpenFailed || event == (
        WatchEvent::StreamEnded { cancelled: false })),
        !watch.stopped ==> (action is Receive <==> event == WatchEvent::Opened || event
            == WatchEvent::Message(EventType::Other)),
        action matches WatchAction::Sleep(pause) ==> pause@ == watch.backoff,
{
}

/// The next pause is the first again after a message, twice as long up to half a
/// minute after a pause, and stays as it is otherwise; and a watch stops exactly
/// when it is asked to.
pub proof fn law_watch_state_follows_events(watch: WatchView, event: WatchEvent)
    ensures
        new_watch().backoff == 1_000_000_000,
        !new_watch().stopped,
        watch.stopped ==> watch_after(watch, event) == watch,
        !watch.stopped && event is Message ==> watch_after(watch, event).backoff == 1_000_000_000,
        !watch.stopped && event is Slept && 2 * watch.backoff <= 30_000_000_000 ==> watch_after(
            watch,
            event,
        ).backoff == 2 * watch.backoff,
        !watch.stopped && event is Slept && 2 * watch.backoff > 30_000_000_000 ==> watch_after(
            watch,
            event,
        ).backoff == 30_000_000_000,
        !(event is Message) && !(event is Slept) ==> watch_after(watch, event).backoff
            == watch.backoff,
        watch_after(watch, event).stopped <==> watch.stopped || event == WatchEvent::Cancelled
            || event == (WatchEvent::Started { cancelled: true }) || event == (
        WatchEvent::StreamEnded { cancelled: true }) || event == (WatchEvent::Slept {
            cancelled: true,
        }),
{
}

/// The place for a signal holds a change from when it is signalled to when it is
/// taken; nothing is signalled once it is closed, and taking never opens or
/// closes it.
pub proof fn law_slot_holds_one_change(slot: SlotView)
    ensures
        slot_after_offer(slot).pending <==> slot.pending || !slot.closed,
        slot_after_offer(slot).closed == slot.closed,
        slot_taken(slot).0 == Taken::Change <==> slot.pending,
        slot_taken(slot).0 == Taken::Closed <==> !slot.pending && slot.closed,
        !slot_taken(slot).1.pending,
        slot_taken(slot).1.closed == slot.closed,
{
}

}
