//! Event dispatch.
//!
//! The audio backend pushes typed events; each one is to be handed to the
//! single registered handler's method of the same name, as an independent
//! unit of work on the application's own scheduler. A handler without the
//! method, or a handler whose method fails, is a recoverable condition: the
//! outcome is recorded and the next event is delivered regardless. Events
//! are delivered in submission order, so events of one guild reach the
//! handler in the order the backend emitted them.

use vstd::prelude::*;
use vstd::seq_lib::*;
use crate::model::PlayerDestroyed;
use crate::model::PlayerUpdate;
use crate::model::Stats;
use crate::model::TrackException;
use crate::model::TrackFinish;
use crate::model::TrackStart;
use crate::model::TrackStuck;
use crate::model::WebSocketClosed;

verus! {

/// A typed event the audio backend pushed.
pub enum Event {
    Stats(Stats),
    PlayerUpdate(PlayerUpdate),
    TrackStart(TrackStart),
    TrackFinish(TrackFinish),
    TrackException(TrackException),
    TrackStuck(TrackStuck),
    WebSocketClosed(WebSocketClosed),
    PlayerDestroyed(PlayerDestroyed),
}

/// The guild an event belongs to; the periodic statistics report belongs to
/// none.
pub open spec fn event_guild(e: Event) -> Option<u64> {
    match e {
        Event::Stats(_) => None,
        Event::PlayerUpdate(p) => Some(p.guild_id),
        Event::TrackStart(p) => Some(p.guild_id),
        Event::TrackFinish(p) => Some(p.guild_id),
        Event::TrackException(p) => Some(p.guild_id),
        Event::TrackStuck(p) => Some(p.guild_id),
        Event::WebSocketClosed(p) => Some(p.guild_id),
        Event::PlayerDestroyed(p) => Some(p.guild_id),
    }
}

impl Event {
    /// The name of the handler method the event is dispatched to.
    pub fn method_name(&self) -> (r: &'static str)
        ensures
            (match self {
                Event::Stats(_) => r@ == "stats"@,
                Event::PlayerUpdate(_) => r@ == "player_update"@,
                Event::TrackStart(_) => r@ == "track_start"@,
                Event::TrackFinish(_) => r@ == "track_finish"@,
                Event::TrackException(_) => r@ == "track_exception"@,
                Event::TrackStuck(_) => r@ == "track_stuck"@,
                Event::WebSocketClosed(_) => r@ == "websocket_closed"@,
                Event::PlayerDestroyed(_) => r@ == "player_destroyed"@,
            }),
    {
        match self {
            Event::Stats(_) => "stats",
            Event::PlayerUpdate(_) => "player_update",
            Event::TrackStart(_) => "track_start",
            Event::TrackFinish(_) => "track_finish",
            Event::TrackException(_) => "track_exception",
            Event::TrackStuck(_) => "track_stuck",
            Event::WebSocketClosed(_) => "websocket_closed",
            Event::PlayerDestroyed(_) => "player_destroyed",
        }
    }
}

/// The registered event handler, described by which of the optional methods
/// the application defined. A handler with none of them is valid.
#[derive(Clone, Copy)]
pub struct LavalinkEventHandler {
    pub has_stats: bool,
    pub has_player_update: bool,
    pub has_track_start: bool,
    pub has_track_finish: bool,
    pub has_track_exception: bool,
    pub has_track_stuck: bool,
    pub has_websocket_closed: bool,
    pub has_player_destroyed: bool,
}

impl LavalinkEventHandler {
    /// Whether the handler defines the method an event is dispatched to.
    pub open spec fn spec_handles(&self, e: Event) -> bool {
        match e {
            Event::Stats(_) => self.has_stats,
            Event::PlayerUpdate(_) => self.has_player_update,
            Event::TrackStart(_) => self.has_track_start,
            Event::TrackFinish(_) => self.has_track_finish,
            Event::TrackException(_) => self.has_track_exception,
            Event::TrackStuck(_) => self.has_track_stuck,
            Event::WebSocketClosed(_) => self.has_websocket_closed,
            Event::PlayerDestroyed(_) => self.has_player_destroyed,
        }
    }

    /// The no-op handler, defining no method at all.
    pub fn empty() -> (r: Self)
        ensures
            forall|e: Event| !r.spec_handles(e),
    {
        LavalinkEventHandler {
            has_stats: false,
            has_player_update: false,
            has_track_start: false,
            has_track_finish: false,
            has_track_exception: false,
            has_track_stuck: false,
            has_websocket_closed: false,
            has_player_destroyed: false,
        }
    }

    /// Whether the handler defines the method an event is dispatched to.
    pub fn handles(&self, e: &Event) -> (r: bool)
        ensures
            r == self.spec_handles(*e),
    {
        match e {
            Event::Stats(_) => self.has_stats,
            Event::PlayerUpdate(_) => self.has_player_update,
            Event::TrackStart(_) => self.has_track_start,
            Event::TrackFinish(_) => self.has_track_finish,
            Event::TrackException(_) => self.has_track_exception,
            Event::TrackStuck(_) => self.has_track_stuck,
            Event::WebSocketClosed(_) => self.has_websocket_closed,
            Event::PlayerDestroyed(_) => self.has_player_destroyed,
        }
    }
}

/// What the dispatcher decides for one event and one handler.
pub enum DispatchDecision {
    /// The handler defines the method: submit the callback as a unit of work.
    Invoke,
    /// The handler does not define the method. Recoverable: the event is
    /// logged and dispatch goes on.
    Undefined,
}

/// Decide how one event is dispatched: invoke the handler's method when it
/// exists, otherwise record the event as undefined. Never an error.
pub fn dispatch_decision(handler: &LavalinkEventHandler, e: &Event) -> (r: DispatchDecision)
    ensures
        r is Invoke <==> handler.spec_handles(*e),
        r is Undefined <==> !handler.spec_handles(*e),
{
    if handler.handles(e) {
        DispatchDecision::Invoke
    } else {
        DispatchDecision::Undefined
    }
}

/// How one dispatched unit of work ended. The dispatcher records it and
/// carries on: no outcome propagates to the backend or delays later events.
#[derive(Clone, Copy, Debug, PartialEq)]
pub enum HandlerOutcome {
    /// The callback ran to completion.
    Completed,
    /// The handler had no method for the event; it was logged.
    Undefined,
    /// The callback failed; the diagnostic went to the embedding
    /// environment's error channel.
    Failed,
}

/// One delivery step over the pending queue: the first pending event is
/// delivered, and the outcome of the previous unit of work -- completed,
/// undefined or failed -- plays no part at all.
pub open spec fn spec_deliver(pending: Seq<Event>, previous: HandlerOutcome) -> (
    Seq<Event>,
    Option<Event>,
) {
    if pending.len() == 0 {
        (pending, None)
    } else {
        (pending.drop_first(), Some(pending[0]))
    }
}

/// A slow, absent or failing handler cannot block the queue: the delivery
/// step returns the same next event and leaves the same pending queue
/// whatever the previous unit of work came to.
pub proof fn lemma_outcome_isolated(
    pending: Seq<Event>,
    o1: HandlerOutcome,
    o2: HandlerOutcome,
)
    ensures
        spec_deliver(pending, o1) == spec_deliver(pending, o2),
{
}

/// The dispatch queue: events the backend submitted and not yet delivered,
/// together with the history of what was submitted and delivered.
pub struct Dispatcher {
    pending: Vec<Event>,
    submitted: Ghost<Seq<Event>>,
    delivered: Ghost<Seq<Event>>,
}

impl Dispatcher {
    /// The events submitted and not yet delivered, oldest first.
    pub closed spec fn pending_events(&self) -> Seq<Event> {
        self.pending@
    }

    /// Every event ever submitted, in submission order.
    pub closed spec fn submitted_events(&self) -> Seq<Event> {
        self.submitted@
    }

    /// Every event delivered so far, in delivery order.
    pub closed spec fn delivered_events(&self) -> Seq<Event> {
        self.delivered@
    }

    /// What was delivered, followed by what still waits, is exactly what was
    /// submitted.
    pub closed spec fn wf(&self) -> bool {
        self.delivered@ + self.pending@ == self.submitted@
    }

    /// An empty dispatch queue.
    pub fn new() -> (r: Self)
        ensures
            r.wf(),
            r.pending_events() == Seq::<Event>::empty(),
            r.submitted_events() == Seq::<Event>::empty(),
            r.delivered_events() == Seq::<Event>::empty(),
    {
        let r = Dispatcher {
            pending: Vec::new(),
            submitted: Ghost(Seq::empty()),
            delivered: Ghost(Seq::empty()),
        };
        proof {
            assert(r.delivered@ + r.pending@ =~= r.submitted@);
        }
        r
    }

    /// Take one event from the backend into the queue.
    pub fn submit(&mut self, e: Event)
        requires
            old(self).wf(),
        ensures
            final(self).wf(),
            final(self).pending_events() == old(self).pending_events().push(e),
            final(self).submitted_events() == old(self).submitted_events().push(e),
            final(self).delivered_events() == old(self).delivered_events(),
    {
        let ghost ev = e;
        self.pending.push(e);
        proof {
            self.submitted@ = self.submitted@.push(ev);
            assert(self.delivered@ + self.pending@ =~= self.submitted@);
        }
    }

    /// Deliver the next event, whatever the previous unit of work came to:
    /// an undefined method or a failed callback holds nothing back.
    pub fn next_event(&mut self, previous: HandlerOutcome) -> (r: Option<Event>)
        requires
            old(self).wf(),
        ensures
            final(self).wf(),
            final(self).pending_events() == spec_deliver(
                old(self).pending_events(),
                previous,
            ).0,
            r == spec_deliver(old(self).pending_events(), previous).1,
            final(self).submitted_events() == old(self).submitted_events(),
            final(self).delivered_events() == (match r {
                Some(e) => old(self).delivered_events().push(e),
                None => old(self).delivered_events(),
            }),
    {
        if self.pending.len() == 0 {
            None
        } else {
            let ghost p0 = self.pending@;
            let e = self.pending.remove(0);
            proof {
                assert(p0.remove(0) =~= p0.drop_first());
                self.delivered@ = self.delivered@.push(e);
                assert(self.delivered@ + self.pending@ =~= self.submitted@);
            }
            Some(e)
        }
    }
}

/// The events of one guild, in the order they stand in `s`.
pub open spec fn events_for(s: Seq<Event>, guild_id: u64) -> Seq<Event> {
    s.filter(|e: Event| event_guild(e) == Some(guild_id))
}

/// Per-guild ordering: for every guild, what the dispatcher delivered,
/// followed by what still waits, is exactly that guild's submitted events in
/// submission order. Delivery neither drops, reorders nor duplicates a
/// guild's events.
pub proof fn lemma_per_guild_order(d: &Dispatcher, guild_id: u64)
    requires
        d.wf(),
    ensures
        events_for(d.delivered_events(), guild_id) + events_for(d.pending_events(), guild_id)
            == events_for(d.submitted_events(), guild_id),
{
    Seq::filter_distributes_over_add(
        d.delivered_events(),
        d.pending_events(),
        |e: Event| event_guild(e) == Some(guild_id),
    );
}

} // verus!
