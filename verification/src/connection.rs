//! Assembly of a guild's voice connection descriptor.
//!
//! A usable descriptor is built from two independently arriving gateway
//! notifications: a voice-state event carries the session identifier and the
//! channel, a voice-server event carries the endpoint and the token. The
//! events may arrive in either order, or never; waiting on a descriptor is
//! therefore bounded by a count of relevant events rather than by a clock.

use vstd::prelude::*;
use crate::error::ConnectionField;

verus! {

/// The descriptor needed to establish a voice session with the audio
/// backend. Fields other than the guild are populated one event at a time.
pub struct ConnectionInfo {
    pub guild_id: u64,
    pub channel_id: Option<u64>,
    pub endpoint: Option<String>,
    pub token: Option<String>,
    pub session_id: Option<String>,
}

impl Clone for ConnectionInfo {
    fn clone(&self) -> (r: Self)
        ensures
            r == *self,
    {
        ConnectionInfo {
            guild_id: self.guild_id,
            channel_id: self.channel_id,
            endpoint: match &self.endpoint {
                Some(s) => Some(s.clone()),
                None => None,
            },
            token: match &self.token {
                Some(s) => Some(s.clone()),
                None => None,
            },
            session_id: match &self.session_id {
                Some(s) => Some(s.clone()),
                None => None,
            },
        }
    }
}

/// The descriptor of a guild no event has reached yet: only the guild is
/// known.
pub open spec fn spec_empty_connection(guild_id: u64) -> ConnectionInfo {
    ConnectionInfo { guild_id, channel_id: None, endpoint: None, token: None, session_id: None }
}

impl ConnectionInfo {
    /// A voice-state event for the guild has been ingested since the
    /// descriptor was created: it is what populates the session identifier.
    pub open spec fn has_voice_state(&self) -> bool {
        self.session_id is Some
    }

    /// A voice-server event for the guild has been ingested since the
    /// descriptor was created: it is what populates the endpoint.
    pub open spec fn has_voice_server(&self) -> bool {
        self.endpoint is Some
    }

    /// The descriptor is complete when every field a session needs is
    /// populated.
    pub open spec fn is_complete(&self) -> bool {
        &&& self.channel_id is Some
        &&& self.endpoint is Some
        &&& self.token is Some
        &&& self.session_id is Some
    }

    /// The two fields of each source arrive together: the session identifier
    /// with the channel, the endpoint with the token. Every descriptor the
    /// coordinator builds keeps the pairs populated in lockstep.
    pub open spec fn sources_paired(&self) -> bool {
        &&& (self.session_id is Some <==> self.channel_id is Some)
        &&& (self.endpoint is Some <==> self.token is Some)
    }

    /// The descriptor a guild's first event starts from.
    pub fn empty(guild_id: u64) -> (r: Self)
        ensures
            r == spec_empty_connection(guild_id),
            r.sources_paired(),
    {
        ConnectionInfo {
            guild_id,
            channel_id: None,
            endpoint: None,
            token: None,
            session_id: None,
        }
    }

    /// Record a voice-state event: the session identifier and the channel.
    pub fn apply_voice_state(&mut self, session_id: String, channel_id: u64)
        ensures
            *final(self) == (ConnectionInfo {
                session_id: Some(session_id),
                channel_id: Some(channel_id),
                ..*old(self)
            }),
            old(self).sources_paired() ==> final(self).sources_paired(),
    {
        self.session_id = Some(session_id);
        self.channel_id = Some(channel_id);
    }

    /// Record a voice-server event: the endpoint and the token.
    pub fn apply_voice_server(&mut self, endpoint: String, token: String)
        ensures
            *final(self) == (ConnectionInfo {
                endpoint: Some(endpoint),
                token: Some(token),
                ..*old(self)
            }),
            old(self).sources_paired() ==> final(self).sources_paired(),
    {
        self.endpoint = Some(endpoint);
        self.token = Some(token);
    }

    /// The first field still missing, or `None` when the descriptor is
    /// complete. Fields are reported in a fixed order: endpoint, token,
    /// session identifier, channel.
    pub fn first_missing_field(&self) -> (r: Option<ConnectionField>)
        ensures
            r is None <==> self.is_complete(),
            (match r {
                Some(f) => !self.is_complete() && (match f {
                    ConnectionField::Endpoint => self.endpoint is None,
                    ConnectionField::Token => self.token is None,
                    ConnectionField::SessionId => self.session_id is None,
                    ConnectionField::ChannelId => self.channel_id is None,
                }),
                None => true,
            }),
    {
        if self.endpoint.is_none() {
            Some(ConnectionField::Endpoint)
        } else if self.token.is_none() {
            Some(ConnectionField::Token)
        } else if self.session_id.is_none() {
            Some(ConnectionField::SessionId)
        } else if self.channel_id.is_none() {
            Some(ConnectionField::ChannelId)
        } else {
            None
        }
    }
}

/// A descriptor whose source pairs arrive in lockstep is complete exactly
/// when both a voice-state event (with a channel) and a voice-server event
/// have been ingested since it was created or last removed.
pub proof fn lemma_complete_iff_both_sources(ci: ConnectionInfo)
    requires
        ci.sources_paired(),
    ensures
        ci.is_complete() <==> (ci.has_voice_state() && ci.has_voice_server()),
{
}

/// Outcome of one countdown step of an event-bounded wait.
pub enum WaitStep {
    Done,
    Pending,
    TimedOut,
}

/// One step of the event-count bound shared by every wait operation: if the
/// awaited condition holds the wait is done; otherwise the step consumes one
/// of the remaining events, and the wait times out when none is left after
/// it.
pub open spec fn spec_countdown(remaining: usize, done: bool) -> (usize, WaitStep) {
    if done {
        (remaining, WaitStep::Done)
    } else if remaining <= 1 {
        (0usize, WaitStep::TimedOut)
    } else {
        ((remaining - 1) as usize, WaitStep::Pending)
    }
}

/// A countdown that answers `Pending` to every event in `dones`.
pub open spec fn countdown_all_pending(remaining: usize, dones: Seq<bool>) -> bool
    decreases dones.len(),
{
    if dones.len() == 0 {
        true
    } else {
        let (next, step) = spec_countdown(remaining, dones[0]);
        step is Pending && countdown_all_pending(next, dones.drop_first())
    }
}

/// An event-bounded wait answers within its event budget: it cannot stay
/// pending through as many relevant events as it was allowed.
pub proof fn lemma_countdown_bounded(remaining: usize, dones: Seq<bool>)
    requires
        dones.len() > 0,
        dones.len() >= remaining,
    ensures
        !countdown_all_pending(remaining, dones),
    decreases dones.len(),
{
    let (next, step) = spec_countdown(remaining, dones[0]);
    if step is Pending {
        lemma_countdown_bounded(next, dones.drop_first());
    }
}

/// How many relevant events a wait consumes before timing out, when the
/// caller does not choose a bound.
pub const DEFAULT_WAIT_EVENTS: usize = 10;

/// What starting a wait for a complete descriptor found.
pub enum WaitStart {
    /// The descriptor was already complete: the wait returns at once with an
    /// independent copy of it.
    Complete(ConnectionInfo),
    /// Not complete yet: the returned waiter is fed each further relevant
    /// event.
    Wait(ConnectionWaiter),
    /// The caller allowed no events at all and the descriptor is not
    /// complete.
    TimedOut,
}

/// What starting a wait for a descriptor's removal found.
pub enum RemovalStart {
    /// No descriptor is present: the wait returns at once.
    AlreadyRemoved,
    /// Still present: the returned waiter is fed each further relevant
    /// event.
    Wait(RemovalWaiter),
    /// The caller allowed no events at all and the descriptor is present.
    TimedOut,
}

/// A wait for a complete descriptor answers within its event budget: fed
/// the guild's descriptor once per relevant ingestion, it cannot stay
/// pending through as many ingestions as it was allowed.
pub proof fn lemma_wait_for_complete_bounded(
    w: ConnectionWaiter,
    states: Seq<Option<ConnectionInfo>>,
)
    requires
        states.len() > 0,
        states.len() >= w.remaining,
    ensures
        !countdown_all_pending(
            w.remaining,
            states.map_values(|c: Option<ConnectionInfo>| complete_now(c)),
        ),
{
    lemma_countdown_bounded(
        w.remaining,
        states.map_values(|c: Option<ConnectionInfo>| complete_now(c)),
    );
}

/// A wait for a descriptor's removal answers within its event budget in the
/// same way.
pub proof fn lemma_wait_for_removal_bounded(
    w: RemovalWaiter,
    states: Seq<Option<ConnectionInfo>>,
)
    requires
        states.len() > 0,
        states.len() >= w.remaining,
    ensures
        !countdown_all_pending(
            w.remaining,
            states.map_values(|c: Option<ConnectionInfo>| c is None),
        ),
{
    lemma_countdown_bounded(
        w.remaining,
        states.map_values(|c: Option<ConnectionInfo>| c is None),
    );
}

/// Result of feeding one relevant event to a wait for a complete descriptor.
pub enum WaitPoll {
    /// The descriptor is complete; the payload is an independent copy of it.
    Ready(ConnectionInfo),
    /// Not complete yet; the wait keeps going.
    Pending,
    /// The event budget is exhausted without completion.
    TimedOut,
}

/// The current descriptor of a guild, as a value.
pub open spec fn current_view(current: Option<&ConnectionInfo>) -> Option<ConnectionInfo> {
    match current {
        Some(ci) => Some(*ci),
        None => None,
    }
}

/// The descriptor at hand is complete.
pub open spec fn complete_now(current: Option<ConnectionInfo>) -> bool {
    match current {
        Some(ci) => ci.is_complete(),
        None => false,
    }
}

/// A suspended wait for a guild's descriptor to become complete, bounded by
/// a count of relevant events.
pub struct ConnectionWaiter {
    pub guild_id: u64,
    pub remaining: usize,
}

impl ConnectionWaiter {
    /// Feed the wait the guild's descriptor after one more relevant event
    /// was ingested.
    pub fn note_event(&mut self, current: Option<&ConnectionInfo>) -> (r: WaitPoll)
        ensures
            final(self).guild_id == old(self).guild_id,
            final(self).remaining == spec_countdown(
                old(self).remaining,
                complete_now(current_view(current)),
            ).0,
            (match r {
                WaitPoll::Ready(ci) => complete_now(current_view(current))
                    && current_view(current) == Some(ci),
                WaitPoll::Pending => spec_countdown(
                    old(self).remaining,
                    complete_now(current_view(current)),
                ).1 is Pending,
                WaitPoll::TimedOut => spec_countdown(
                    old(self).remaining,
                    complete_now(current_view(current)),
                ).1 is TimedOut,
            }),
    {
        match current {
            Some(ci) => {
                if ci.first_missing_field().is_none() {
                    return WaitPoll::Ready(ci.clone());
                }
            }
            None => {}
        }
        if self.remaining <= 1 {
            self.remaining = 0;
            WaitPoll::TimedOut
        } else {
            self.remaining = self.remaining - 1;
            WaitPoll::Pending
        }
    }
}

/// Result of feeding one relevant event to a wait for a descriptor's
/// removal.
pub enum RemovalPoll {
    /// The descriptor is gone.
    Removed,
    /// Still present; the wait keeps going.
    Pending,
    /// The event budget is exhausted and the descriptor is still present.
    TimedOut,
}

/// A suspended wait for a guild's descriptor to be removed, bounded by a
/// count of relevant events.
pub struct RemovalWaiter {
    pub guild_id: u64,
    pub remaining: usize,
}

impl RemovalWaiter {
    /// Feed the wait the guild's descriptor after one more relevant event
    /// was ingested.
    pub fn note_event(&mut self, current: Option<&ConnectionInfo>) -> (r: RemovalPoll)
        ensures
            final(self).guild_id == old(self).guild_id,
            final(self).remaining == spec_countdown(
                old(self).remaining,
                current_view(current) is None,
            ).0,
            (match r {
                RemovalPoll::Removed => current_view(current) is None,
                RemovalPoll::Pending => spec_countdown(
                    old(self).remaining,
                    current_view(current) is None,
                ).1 is Pending,
                RemovalPoll::TimedOut => spec_countdown(
                    old(self).remaining,
                    current_view(current) is None,
                ).1 is TimedOut,
            }),
    {
        if current.is_none() {
            return RemovalPoll::Removed;
        }
        if self.remaining <= 1 {
            self.remaining = 0;
            RemovalPoll::TimedOut
        } else {
            self.remaining = self.remaining - 1;
            RemovalPoll::Pending
        }
    }
}

} // verus!
