//! Guild voice session coordinator for a chat-platform music bot.
//!
//! The crate tracks each guild's voice-gateway handshake, assembles a usable
//! connection descriptor from two independently arriving events, keeps a
//! per-guild playback node (queue, now playing, volume, pause flag,
//! equalizer), runs the queue-advance state machine, and decides how
//! backend-pushed events are dispatched to application callbacks.
//!
//! The coordinator itself performs no I/O: every operation that the audio
//! backend must carry out is returned as a [`model::Command`] value, and every
//! notification the backend or the voice gateway delivers enters through a
//! plain function call. An embedding runtime owns the sockets and schedulers
//! and drives this state machine with those values.

pub mod builders;
pub mod connection;
pub mod data;
pub mod error;
pub mod events;
pub mod model;
pub mod queue_loop;

use vstd::prelude::*;
use vstd::map::*;
use std::collections::HashMap;
use std::collections::HashSet;
use crate::connection::ConnectionInfo;
use crate::connection::ConnectionWaiter;
use crate::connection::RemovalStart;
use crate::connection::RemovalWaiter;
use crate::connection::WaitStart;
use crate::connection::DEFAULT_WAIT_EVENTS;
use crate::builders::PlayBuilder;
use crate::error::LavalinkError;
use crate::events::Event;
use crate::model::Band;
use crate::model::Command;
use crate::model::Info;
use crate::model::Node;
use crate::model::NodeView;
use crate::model::Track;
use crate::model::TrackQueue;
use crate::model::BAND_COUNT;
use crate::model::MAX_VOLUME;
use crate::queue_loop::spec_queue_track;
use crate::queue_loop::spec_skip;
use crate::queue_loop::spec_track_finish;

verus! {

broadcast use vstd::std_specs::hash::group_hash_axioms;

/// The per-guild nodes, each seen through its mathematical model.
pub open spec fn nodes_as_views(m: Map<u64, Node>) -> Map<u64, NodeView> {
    Map::new(|g: u64| m.contains_key(g), |g: u64| m[g]@)
}

proof fn lemma_views_insert(m: Map<u64, Node>, k: u64, v: Node)
    ensures
        nodes_as_views(m.insert(k, v)) == nodes_as_views(m).insert(k, v@),
{
    assert_maps_equal!(nodes_as_views(m.insert(k, v)), nodes_as_views(m).insert(k, v@));
}

proof fn lemma_views_remove(m: Map<u64, Node>, k: u64)
    ensures
        nodes_as_views(m.remove(k)) == nodes_as_views(m).remove(k),
{
    assert_maps_equal!(nodes_as_views(m.remove(k)), nodes_as_views(m).remove(k));
}

proof fn lemma_wf_same(pre: Lavalink, post: Lavalink)
    requires
        pre.wf(),
        post.node_map() == pre.node_map(),
        post.connection_map() == pre.connection_map(),
    ensures
        post.wf(),
{
    assert forall|k: u64| post.node_map().contains_key(k) implies (
    #[trigger] post.node_map()[k]).wf() by {
        assert(pre.node_map().contains_key(k));
        assert(post.node_map()[k] == pre.node_map()[k]);
    }
    assert forall|k: u64| post.connection_map().contains_key(k) implies ((
    #[trigger] post.connection_map()[k]).guild_id == k
        && post.connection_map()[k].sources_paired()) by {
        assert(pre.connection_map().contains_key(k));
        assert(post.connection_map()[k] == pre.connection_map()[k]);
    }
}

proof fn lemma_wf_node_insert(pre: Lavalink, post: Lavalink, g: u64, v: NodeView)
    requires
        pre.wf(),
        v.wf(),
        post.node_map() == pre.node_map().insert(g, v),
        post.connection_map() == pre.connection_map(),
    ensures
        post.wf(),
{
    assert forall|k: u64| post.node_map().contains_key(k) implies (
    #[trigger] post.node_map()[k]).wf() by {
        if k != g {
            assert(pre.node_map().contains_key(k));
            assert(post.node_map()[k] == pre.node_map()[k]);
        } else {
            assert(post.node_map()[k] == v);
        }
    }
    assert forall|k: u64| post.connection_map().contains_key(k) implies ((
    #[trigger] post.connection_map()[k]).guild_id == k
        && post.connection_map()[k].sources_paired()) by {
        assert(pre.connection_map().contains_key(k));
        assert(post.connection_map()[k] == pre.connection_map()[k]);
    }
}

proof fn lemma_wf_node_remove(pre: Lavalink, post: Lavalink, g: u64)
    requires
        pre.wf(),
        post.node_map() == pre.node_map().remove(g),
        post.connection_map() == pre.connection_map(),
    ensures
        post.wf(),
{
    assert forall|k: u64| post.node_map().contains_key(k) implies (
    #[trigger] post.node_map()[k]).wf() by {
        assert(pre.node_map().contains_key(k));
        assert(post.node_map()[k] == pre.node_map()[k]);
    }
    assert forall|k: u64| post.connection_map().contains_key(k) implies ((
    #[trigger] post.connection_map()[k]).guild_id == k
        && post.connection_map()[k].sources_paired()) by {
        assert(pre.connection_map().contains_key(k));
        assert(post.connection_map()[k] == pre.connection_map()[k]);
    }
}

proof fn lemma_wf_conn_insert(pre: Lavalink, post: Lavalink, g: u64, ci: ConnectionInfo)
    requires
        pre.wf(),
        ci.guild_id == g,
        ci.sources_paired(),
        post.node_map() == pre.node_map(),
        post.connection_map() == pre.connection_map().insert(g, ci),
    ensures
        post.wf(),
{
    assert forall|k: u64| post.node_map().contains_key(k) implies (
    #[trigger] post.node_map()[k]).wf() by {
        assert(pre.node_map().contains_key(k));
        assert(post.node_map()[k] == pre.node_map()[k]);
    }
    assert forall|k: u64| post.connection_map().contains_key(k) implies ((
    #[trigger] post.connection_map()[k]).guild_id == k
        && post.connection_map()[k].sources_paired()) by {
        if k != g {
            assert(pre.connection_map().contains_key(k));
            assert(post.connection_map()[k] == pre.connection_map()[k]);
        } else {
            assert(post.connection_map()[k] == ci);
        }
    }
}

proof fn lemma_wf_conn_remove(pre: Lavalink, post: Lavalink, g: u64)
    requires
        pre.wf(),
        post.node_map() == pre.node_map(),
        post.connection_map() == pre.connection_map().remove(g),
    ensures
        post.wf(),
{
    assert forall|k: u64| post.node_map().contains_key(k) implies (
    #[trigger] post.node_map()[k]).wf() by {
        assert(pre.node_map().contains_key(k));
        assert(post.node_map()[k] == pre.node_map()[k]);
    }
    assert forall|k: u64| post.connection_map().contains_key(k) implies ((
    #[trigger] post.connection_map()[k]).guild_id == k
        && post.connection_map()[k].sources_paired()) by {
        assert(pre.connection_map().contains_key(k));
        assert(post.connection_map()[k] == pre.connection_map()[k]);
    }
}

/// How a voice-state notification was taken.
pub enum VoiceStateOutcome {
    /// The event carried a channel: the guild's descriptor was updated.
    Updated,
    /// The event carried no channel: a voluntary disconnect. The guild's
    /// descriptor was removed and the caller should treat the handshake as
    /// abandoned.
    Disconnected,
}

/// The session coordinator: the per-guild node registry, the set of guilds
/// with a running queue-advance loop, and the in-progress connection
/// descriptors.
pub struct Lavalink {
    nodes: HashMap<u64, Node>,
    loops: HashSet<u64>,
    connections: HashMap<u64, ConnectionInfo>,
}

impl Lavalink {
    /// The node registry: each guild's playback state, as its model.
    pub closed spec fn node_map(&self) -> Map<u64, NodeView> {
        nodes_as_views(self.nodes@)
    }

    /// The guilds whose queue-advance loop is running.
    pub closed spec fn loop_set(&self) -> Set<u64> {
        self.loops@
    }

    /// The in-progress connection descriptors, one per guild.
    pub closed spec fn connection_map(&self) -> Map<u64, ConnectionInfo> {
        self.connections@
    }

    /// Internal consistency: every node carries its full equalizer and is
    /// registered under its own guild; every descriptor is keyed by its own
    /// guild and keeps its source pairs populated in lockstep.
    pub closed spec fn wf(&self) -> bool {
        &&& forall|g: u64|
            self.node_map().contains_key(g) ==> (#[trigger] self.node_map()[g]).wf()
        &&& forall|g: u64|
            self.connection_map().contains_key(g) ==> {
                &&& (#[trigger] self.connection_map()[g]).guild_id == g
                &&& self.connection_map()[g].sources_paired()
            }
    }

    /// A coordinator with no sessions, no loops and no descriptors.
    pub fn new() -> (r: Self)
        ensures
            r.wf(),
            r.node_map() == Map::<u64, NodeView>::empty(),
            r.loop_set() == Set::<u64>::empty(),
            r.connection_map() == Map::<u64, ConnectionInfo>::empty(),
    {
        let r = Lavalink {
            nodes: HashMap::new(),
            loops: HashSet::new(),
            connections: HashMap::new(),
        };
        proof {
            assert(nodes_as_views(r.nodes@) =~= Map::<u64, NodeView>::empty());
        }
        r
    }

    /// An independent snapshot of the guild's node, or `None` when no
    /// session was created for the guild. Mutating the snapshot changes
    /// nothing until it is written back with `set_guild_node`.
    pub fn get_guild_node(&self, guild_id: u64) -> (r: Option<Node>)
        ensures
            r is Some <==> self.node_map().contains_key(guild_id),
            (match r {
                Some(n) => n@ == self.node_map()[guild_id] && (self.wf() ==> n@.wf()),
                None => true,
            }),
    {
        match self.nodes.get(&guild_id) {
            Some(n) => Some(n.clone()),
            None => None,
        }
    }

    /// Replace the guild's node with a new one.
    pub fn set_guild_node(&mut self, guild_id: u64, node: Node)
        requires
            old(self).wf(),
            node@.wf(),
        ensures
            final(self).wf(),
            final(self).node_map() == old(self).node_map().insert(guild_id, node@),
            final(self).loop_set() == old(self).loop_set(),
            final(self).connection_map() == old(self).connection_map(),
    {
        let ghost v = node@;
        let ghost m = self.nodes@;
        self.nodes.insert(guild_id, node);
        proof {
            lemma_views_insert(m, guild_id, self.nodes@[guild_id]);
            lemma_wf_node_insert(*old(self), *self, guild_id, v);
        }
    }

    /// Remove the guild's node. The guild's queue-loop registration is left
    /// as it is: the two lifecycles are independent.
    pub fn remove_guild_node(&mut self, guild_id: u64)
        requires
            old(self).wf(),
        ensures
            final(self).wf(),
            final(self).node_map() == old(self).node_map().remove(guild_id),
            final(self).loop_set() == old(self).loop_set(),
            final(self).connection_map() == old(self).connection_map(),
    {
        let ghost m = self.nodes@;
        self.nodes.remove(&guild_id);
        proof {
            lemma_views_remove(m, guild_id);
            lemma_wf_node_remove(*old(self), *self, guild_id);
        }
    }

    /// Remove the guild from the queue loops: the loop stops advancing, the
    /// playing track keeps playing, and the guild's node is left as it is.
    pub fn remove_guild_from_loops(&mut self, guild_id: u64)
        requires
            old(self).wf(),
        ensures
            final(self).wf(),
            final(self).node_map() == old(self).node_map(),
            final(self).loop_set() == old(self).loop_set().remove(guild_id),
            final(self).connection_map() == old(self).connection_map(),
    {
        self.loops.remove(&guild_id);
        proof {
            lemma_wf_same(*old(self), *self);
        }
    }

    /// Whether the guild's queue-advance loop is running.
    pub fn guild_on_loops(&self, guild_id: u64) -> (r: bool)
        ensures
            r == self.loop_set().contains(guild_id),
    {
        self.loops.contains(&guild_id)
    }

    /// Create a session for the guild the descriptor belongs to. With a
    /// complete descriptor this installs a fresh node for the guild -- the
    /// guild is not added to the queue loops until a track is queued -- and
    /// returns the voice update the backend must receive. An incomplete
    /// descriptor is rejected, naming a missing field, and nothing changes.
    pub fn create_session(&mut self, connection_info: &ConnectionInfo) -> (r: Result<
        Command,
        LavalinkError,
    >)
        requires
            old(self).wf(),
        ensures
            final(self).wf(),
            r is Ok <==> connection_info.is_complete(),
            (match r {
                Ok(c) => {
                    &&& final(self).node_map() == old(self).node_map().insert(
                        connection_info.guild_id,
                        NodeView::fresh(connection_info.guild_id),
                    )
                    &&& c == (Command::VoiceUpdate {
                        guild_id: connection_info.guild_id,
                        session_id: connection_info.session_id->0,
                        endpoint: connection_info.endpoint->0,
                        token: connection_info.token->0,
                    })
                },
                Err(e) => {
                    &&& final(self).node_map() == old(self).node_map()
                    &&& e matches LavalinkError::MissingField(_)
                },
            }),
            final(self).loop_set() == old(self).loop_set(),
            final(self).connection_map() == old(self).connection_map(),
    {
        match connection_info.first_missing_field() {
            Some(f) => Err(LavalinkError::MissingField(f)),
            None => {
                let guild_id = connection_info.guild_id;
                let session_id = match &connection_info.session_id {
                    Some(s) => s.clone(),
                    None => String::new(),
                };
                let endpoint = match &connection_info.endpoint {
                    Some(s) => s.clone(),
                    None => String::new(),
                };
                let token = match &connection_info.token {
                    Some(s) => s.clone(),
                    None => String::new(),
                };
                let node = Node::new(guild_id);
                let ghost v = node@;
                let ghost m = self.nodes@;
                self.nodes.insert(guild_id, node);
                proof {
                    lemma_views_insert(m, guild_id, self.nodes@[guild_id]);
                    lemma_wf_node_insert(*old(self), *self, guild_id, v);
                }
                Ok(Command::VoiceUpdate { guild_id, session_id, endpoint, token })
            }
        }
    }

    /// Ask the backend to tear the guild's player down. The node forgets
    /// what was playing but is otherwise kept, and the guild stays in the
    /// queue loops: a later session can reconnect without losing data.
    pub fn destroy(&mut self, guild_id: u64) -> (r: Command)
        requires
            old(self).wf(),
        ensures
            final(self).wf(),
            r == (Command::Destroy { guild_id }),
            final(self).node_map() == (if old(self).node_map().contains_key(guild_id) {
                old(self).node_map().insert(
                    guild_id,
                    NodeView { now_playing: None, ..old(self).node_map()[guild_id] },
                )
            } else {
                old(self).node_map()
            }),
            final(self).loop_set() == old(self).loop_set(),
            final(self).connection_map() == old(self).connection_map(),
    {
        let existing = match self.nodes.get(&guild_id) {
            Some(n) => Some(n.clone()),
            None => None,
        };
        match existing {
            Some(mut n) => {
                n.now_playing = None;
                let ghost m = self.nodes@;
                self.nodes.insert(guild_id, n);
                proof {
                    lemma_views_insert(m, guild_id, self.nodes@[guild_id]);
                }
            }
            None => {}
        }
        Command::Destroy { guild_id }
    }

    /// Ask the backend to stop the guild's player. The node is not touched.
    pub fn stop(&self, guild_id: u64) -> (r: Command)
        ensures
            r == (Command::Stop { guild_id }),
    {
        Command::Stop { guild_id }
    }

    /// Stage a play request for a track: the returned builder is fired with
    /// `start` or enqueued with `queue`.
    pub fn play(&self, guild_id: u64, track: Track) -> (r: PlayBuilder)
        ensures
            r == (PlayBuilder {
                track,
                guild_id,
                replace: false,
                start: 0u64,
                finish: 0u64,
                requester: None,
            }),
    {
        PlayBuilder { track, guild_id, replace: false, start: 0, finish: 0, requester: None }
    }

    /// Set the paused state: the node records it and the backend is told.
    pub fn set_pause(&mut self, guild_id: u64, pause: bool) -> (r: Command)
        requires
            old(self).wf(),
        ensures
            final(self).wf(),
            r == (Command::Pause { guild_id, pause }),
            final(self).node_map() == (if old(self).node_map().contains_key(guild_id) {
                old(self).node_map().insert(
                    guild_id,
                    NodeView { is_paused: pause, ..old(self).node_map()[guild_id] },
                )
            } else {
                old(self).node_map()
            }),
            final(self).loop_set() == old(self).loop_set(),
            final(self).connection_map() == old(self).connection_map(),
    {
        let existing = match self.nodes.get(&guild_id) {
            Some(n) => Some(n.clone()),
            None => None,
        };
        match existing {
            Some(mut n) => {
                n.is_paused = pause;
                let ghost m = self.nodes@;
                self.nodes.insert(guild_id, n);
                proof {
                    lemma_views_insert(m, guild_id, self.nodes@[guild_id]);
                }
            }
            None => {}
        }
        Command::Pause { guild_id, pause }
    }

    /// Pause the guild's player.
    pub fn pause(&mut self, guild_id: u64) -> (r: Command)
        requires
            old(self).wf(),
        ensures
            final(self).wf(),
            r == (Command::Pause { guild_id, pause: true }),
            final(self).node_map() == (if old(self).node_map().contains_key(guild_id) {
                old(self).node_map().insert(
                    guild_id,
                    NodeView { is_paused: true, ..old(self).node_map()[guild_id] },
                )
            } else {
                old(self).node_map()
            }),
            final(self).loop_set() == old(self).loop_set(),
            final(self).connection_map() == old(self).connection_map(),
    {
        self.set_pause(guild_id, true)
    }

    /// Resume the guild's player.
    pub fn resume(&mut self, guild_id: u64) -> (r: Command)
        requires
            old(self).wf(),
        ensures
            final(self).wf(),
            r == (Command::Pause { guild_id, pause: false }),
            final(self).node_map() == (if old(self).node_map().contains_key(guild_id) {
                old(self).node_map().insert(
                    guild_id,
                    NodeView { is_paused: false, ..old(self).node_map()[guild_id] },
                )
            } else {
                old(self).node_map()
            }),
            final(self).loop_set() == old(self).loop_set(),
            final(self).connection_map() == old(self).connection_map(),
    {
        self.set_pause(guild_id, false)
    }

    /// Jump to a time in the playing track, in seconds.
    pub fn seek_secs(&self, guild_id: u64, time: u64) -> (r: Command)
        requires
            time * 1000 <= u64::MAX,
        ensures
            r == (Command::Seek { guild_id, position: (time * 1000) as u64 }),
    {
        Command::Seek { guild_id, position: time * 1000 }
    }

    /// Alias of `seek_secs`.
    pub fn jump_to_time_secs(&self, guild_id: u64, time: u64) -> (r: Command)
        requires
            time * 1000 <= u64::MAX,
        ensures
            r == (Command::Seek { guild_id, position: (time * 1000) as u64 }),
    {
        self.seek_secs(guild_id, time)
    }

    /// Alias of `seek_secs`.
    pub fn scrub_secs(&self, guild_id: u64, time: u64) -> (r: Command)
        requires
            time * 1000 <= u64::MAX,
        ensures
            r == (Command::Seek { guild_id, position: (time * 1000) as u64 }),
    {
        self.seek_secs(guild_id, time)
    }

    /// Jump to a time in the playing track, in milliseconds.
    pub fn seek_millis(&self, guild_id: u64, time: u64) -> (r: Command)
        ensures
            r == (Command::Seek { guild_id, position: time }),
    {
        Command::Seek { guild_id, position: time }
    }

    /// Alias of `seek_millis`.
    pub fn jump_to_time_millis(&self, guild_id: u64, time: u64) -> (r: Command)
        ensures
            r == (Command::Seek { guild_id, position: time }),
    {
        self.seek_millis(guild_id, time)
    }

    /// Alias of `seek_millis`.
    pub fn scrub_millis(&self, guild_id: u64, time: u64) -> (r: Command)
        ensures
            r == (Command::Seek { guild_id, position: time }),
    {
        self.seek_millis(guild_id, time)
    }

    /// Set the player volume. Values above the maximum are clamped to it;
    /// the node records the clamped value and the backend is told.
    pub fn volume(&mut self, guild_id: u64, volume: u16) -> (r: Command)
        requires
            old(self).wf(),
        ensures
            final(self).wf(),
            r == (Command::Volume {
                guild_id,
                volume: (if volume > MAX_VOLUME { MAX_VOLUME } else { volume }),
            }),
            final(self).node_map() == (if old(self).node_map().contains_key(guild_id) {
                old(self).node_map().insert(
                    guild_id,
                    NodeView {
                        volume: (if volume > MAX_VOLUME { MAX_VOLUME } else { volume }),
                        ..old(self).node_map()[guild_id]
                    },
                )
            } else {
                old(self).node_map()
            }),
            final(self).loop_set() == old(self).loop_set(),
            final(self).connection_map() == old(self).connection_map(),
    {
        let good_volume: u16 = if volume > MAX_VOLUME {
            MAX_VOLUME
        } else {
            volume
        };
        let existing = match self.nodes.get(&guild_id) {
            Some(n) => Some(n.clone()),
            None => None,
        };
        match existing {
            Some(mut n) => {
                n.volume = good_volume;
                let ghost m = self.nodes@;
                self.nodes.insert(guild_id, n);
                proof {
                    lemma_views_insert(m, guild_id, self.nodes@[guild_id]);
                }
            }
            None => {}
        }
        Command::Volume { guild_id, volume: good_volume }
    }

    /// Queue a track for the guild. Without a session this is rejected and
    /// nothing changes. Otherwise the entry joins the back of the queue, the
    /// guild's queue loop starts if it was absent, and -- when nothing is
    /// playing -- the first waiting entry is dequeued, becomes the playing
    /// one, and its play command is returned for the backend.
    pub fn queue_track(&mut self, guild_id: u64, track: TrackQueue) -> (r: Result<
        Option<Command>,
        LavalinkError,
    >)
        requires
            old(self).wf(),
        ensures
            final(self).wf(),
            ({
                let stepped = spec_queue_track(
                    old(self).node_map(),
                    old(self).loop_set(),
                    guild_id,
                    track,
                );
                &&& final(self).node_map() == stepped.0
                &&& final(self).loop_set() == stepped.1
                &&& (match r {
                    Ok(c) => stepped.3 && c == stepped.2,
                    Err(e) => !stepped.3 && e == LavalinkError::NoSessionPresent,
                })
            }),
            final(self).connection_map() == old(self).connection_map(),
    {
        let existing = match self.nodes.get(&guild_id) {
            Some(n) => Some(n.clone()),
            None => None,
        };
        match existing {
            None => Err(LavalinkError::NoSessionPresent),
            Some(mut n) => {
                n.queue.push(track);
                if !self.loops.contains(&guild_id) {
                    self.loops.insert(guild_id);
                    n.is_on_loops = true;
                }
                let cmd = if n.now_playing.is_none() && n.queue.len() > 0 {
                    let ghost q1 = n.queue@;
                    let t = n.queue.remove(0);
                    proof {
                        assert(q1.remove(0) =~= q1.drop_first());
                    }
                    let c = Command::Play {
                        guild_id,
                        track: t.track.track.clone(),
                        no_replace: false,
                        start_time: t.start_time,
                        end_time: t.end_time,
                    };
                    n.now_playing = Some(t);
                    Some(c)
                } else {
                    None
                };
                let ghost v = n@;
                let ghost m = self.nodes@;
                self.nodes.insert(guild_id, n);
                proof {
                    lemma_views_insert(m, guild_id, self.nodes@[guild_id]);
                    lemma_wf_node_insert(*old(self), *self, guild_id, v);
                }
                Ok(cmd)
            }
        }
    }

    /// Skip to the next queued entry. With an empty queue (or no session)
    /// `None` is returned and the playing track is left exactly as it is --
    /// a caller who wants silence then stops the player explicitly.
    /// Otherwise the dequeued entry becomes the playing one and is returned
    /// together with exactly one play command for the backend.
    pub fn skip(&mut self, guild_id: u64) -> (r: Option<(TrackQueue, Command)>)
        requires
            old(self).wf(),
        ensures
            final(self).wf(),
            ({
                let stepped = spec_skip(old(self).node_map(), guild_id);
                &&& final(self).node_map() == stepped.0
                &&& (match r {
                    Some((t, c)) => stepped.1 == Some(t) && stepped.2 == Some(c),
                    None => stepped.1 is None && stepped.2 is None,
                })
            }),
            final(self).loop_set() == old(self).loop_set(),
            final(self).connection_map() == old(self).connection_map(),
    {
        let existing = match self.nodes.get(&guild_id) {
            Some(n) => Some(n.clone()),
            None => None,
        };
        match existing {
            None => None,
            Some(mut n) => {
                if n.queue.len() == 0 {
                    None
                } else {
                    let ghost q0 = n.queue@;
                    let t = n.queue.remove(0);
                    proof {
                        assert(q0.remove(0) =~= q0.drop_first());
                    }
                    let c = Command::Play {
                        guild_id,
                        track: t.track.track.clone(),
                        no_replace: false,
                        start_time: t.start_time,
                        end_time: t.end_time,
                    };
                    n.now_playing = Some(t.clone());
                    let ghost v = n@;
                    let ghost m = self.nodes@;
                    self.nodes.insert(guild_id, n);
                    proof {
                        lemma_views_insert(m, guild_id, self.nodes@[guild_id]);
                        lemma_wf_node_insert(*old(self), *self, guild_id, v);
                    }
                    Some((t, c))
                }
            }
        }
    }

    /// Take the backend's track-finish report for a guild. Only a natural
    /// finish (`finished`) acts on the state: the playing entry is
    /// forgotten; while the guild's loop runs, the next waiting entry is
    /// dequeued and its play command returned, and when none waits the loop
    /// becomes absent. Without a node nothing changes -- the loop
    /// registration outlives the node.
    pub fn process_track_finish(&mut self, guild_id: u64, finished: bool) -> (r: Option<Command>)
        requires
            old(self).wf(),
        ensures
            final(self).wf(),
            ({
                let stepped = spec_track_finish(
                    old(self).node_map(),
                    old(self).loop_set(),
                    guild_id,
                    finished,
                );
                &&& final(self).node_map() == stepped.0
                &&& final(self).loop_set() == stepped.1
                &&& r == stepped.2
            }),
            final(self).connection_map() == old(self).connection_map(),
    {
        if !finished {
            return None;
        }
        let existing = match self.nodes.get(&guild_id) {
            Some(n) => Some(n.clone()),
            None => None,
        };
        match existing {
            None => None,
            Some(mut n) => {
                proof {
                    assert(old(self).node_map()[guild_id].wf());
                }
                n.now_playing = None;
                if !self.loops.contains(&guild_id) {
                    let ghost v = n@;
                    let ghost m = self.nodes@;
                    self.nodes.insert(guild_id, n);
                    proof {
                        lemma_views_insert(m, guild_id, self.nodes@[guild_id]);
                        lemma_wf_node_insert(*old(self), *self, guild_id, v);
                    }
                    None
                } else if n.queue.len() > 0 {
                    let ghost q0 = n.queue@;
                    let t = n.queue.remove(0);
                    proof {
                        assert(q0.remove(0) =~= q0.drop_first());
                    }
                    let c = Command::Play {
                        guild_id,
                        track: t.track.track.clone(),
                        no_replace: false,
                        start_time: t.start_time,
                        end_time: t.end_time,
                    };
                    n.now_playing = Some(t);
                    let ghost v = n@;
                    let ghost m = self.nodes@;
                    self.nodes.insert(guild_id, n);
                    proof {
                        lemma_views_insert(m, guild_id, self.nodes@[guild_id]);
                        lemma_wf_node_insert(*old(self), *self, guild_id, v);
                    }
                    Some(c)
                } else {
                    n.is_on_loops = false;
                    self.loops.remove(&guild_id);
                    let ghost v = n@;
                    let ghost m = self.nodes@;
                    self.nodes.insert(guild_id, n);
                    proof {
                        lemma_views_insert(m, guild_id, self.nodes@[guild_id]);
                        lemma_wf_node_insert(*old(self), *self, guild_id, v);
                    }
                    None
                }
            }
        }
    }

    /// Take the backend's periodic player-update report: the position of
    /// the playing track's metadata is brought up to date, where a playing
    /// track with metadata exists.
    pub fn process_player_update(&mut self, guild_id: u64, position: u64)
        requires
            old(self).wf(),
        ensures
            final(self).wf(),
            final(self).node_map() == spec_player_update(
                old(self).node_map(),
                guild_id,
                position,
            ),
            final(self).loop_set() == old(self).loop_set(),
            final(self).connection_map() == old(self).connection_map(),
    {
        let existing = match self.nodes.get(&guild_id) {
            Some(n) => Some(n.clone()),
            None => None,
        };
        match existing {
            None => {}
            Some(mut n) => {
                let has_info = match &n.now_playing {
                    Some(tq) => tq.track.info.is_some(),
                    None => false,
                };
                if has_info {
                    match n.now_playing {
                        Some(mut tq) => {
                            match tq.track.info {
                                Some(mut info) => {
                                    info.position = position;
                                    tq.track.info = Some(info);
                                }
                                None => {}
                            }
                            n.now_playing = Some(tq);
                        }
                        None => {}
                    }
                    let ghost v = n@;
                    let ghost m = self.nodes@;
                    self.nodes.insert(guild_id, n);
                    proof {
                        lemma_views_insert(m, guild_id, self.nodes@[guild_id]);
                        lemma_wf_node_insert(*old(self), *self, guild_id, v);
                    }
                }
            }
        }
    }

    /// Take one backend event's effect on the coordinator state. Only two
    /// events act on it: a player update brings the playing track's position
    /// up to date, and a track finish that ran to its natural end advances
    /// the queue loop, possibly returning the next entry's play command.
    /// Every other event leaves the state as it is; dispatching events to
    /// the handler is the dispatcher's business, not this function's.
    pub fn process_event(&mut self, event: &Event) -> (r: Option<Command>)
        requires
            old(self).wf(),
        ensures
            final(self).wf(),
            (match event {
                Event::PlayerUpdate(pu) => {
                    &&& final(self).node_map() == spec_player_update(
                        old(self).node_map(),
                        pu.guild_id,
                        pu.state_position as u64,
                    )
                    &&& final(self).loop_set() == old(self).loop_set()
                    &&& r is None
                },
                Event::TrackFinish(tf) => {
                    let stepped = spec_track_finish(
                        old(self).node_map(),
                        old(self).loop_set(),
                        tf.guild_id,
                        tf.reason@ == "FINISHED"@,
                    );
                    &&& final(self).node_map() == stepped.0
                    &&& final(self).loop_set() == stepped.1
                    &&& r == stepped.2
                },
                _ => {
                    &&& final(self).node_map() == old(self).node_map()
                    &&& final(self).loop_set() == old(self).loop_set()
                    &&& r is None
                },
            }),
            final(self).connection_map() == old(self).connection_map(),
    {
        match event {
            Event::PlayerUpdate(pu) => {
                #[verifier::truncate]
                let position = pu.state_position as u64;
                self.process_player_update(pu.guild_id, position);
                None
            }
            Event::TrackFinish(tf) => {
                let finished = tf.reason == String::from_str("FINISHED");
                self.process_track_finish(tf.guild_id, finished)
            }
            _ => None,
        }
    }

    /// The guild's in-progress connection descriptor, when one exists.
    pub open spec fn current_connection(&self, guild_id: u64) -> Option<ConnectionInfo> {
        if self.connection_map().contains_key(guild_id) {
            Some(self.connection_map()[guild_id])
        } else {
            None
        }
    }

    /// The descriptor an ingestion for the guild starts from: the stored one,
    /// or an empty one when the guild has none.
    pub open spec fn connection_base(&self, guild_id: u64) -> ConnectionInfo {
        match self.current_connection(guild_id) {
            Some(ci) => ci,
            None => crate::connection::spec_empty_connection(guild_id),
        }
    }

    /// Ingest a raw voice-server notification: the guild's descriptor takes
    /// the endpoint and the token, and is created first if the guild had
    /// none.
    pub fn raw_handle_event_voice_server_update(
        &mut self,
        guild_id: u64,
        endpoint: String,
        token: String,
    )
        requires
            old(self).wf(),
        ensures
            final(self).wf(),
            final(self).connection_map() == old(self).connection_map().insert(
                guild_id,
                ConnectionInfo {
                    endpoint: Some(endpoint),
                    token: Some(token),
                    ..old(self).connection_base(guild_id)
                },
            ),
            final(self).node_map() == old(self).node_map(),
            final(self).loop_set() == old(self).loop_set(),
    {
        let mut ci = match self.connections.get(&guild_id) {
            Some(existing) => existing.clone(),
            None => ConnectionInfo::empty(guild_id),
        };
        ci.apply_voice_server(endpoint, token);
        let ghost v = ci;
        self.connections.insert(guild_id, ci);
        proof {
            lemma_wf_conn_insert(*old(self), *self, guild_id, v);
        }
    }

    /// Ingest a raw voice-state notification. With a channel present the
    /// guild's descriptor takes the session identifier and the channel
    /// (created first if the guild had none). Without one the user left
    /// voluntarily: the descriptor is removed and the caller should treat
    /// the handshake as abandoned. The user identifier is carried by the
    /// raw event but plays no part in the descriptor.
    #[allow(unused_variables)]
    pub fn raw_handle_event_voice_state_update(
        &mut self,
        guild_id: u64,
        user_id: u64,
        session_id: String,
        channel_id: Option<u64>,
    ) -> (r: VoiceStateOutcome)
        requires
            old(self).wf(),
        ensures
            final(self).wf(),
            (r is Updated <==> channel_id is Some),
            (r is Disconnected <==> channel_id is None),
            (match channel_id {
                Some(ch) => final(self).connection_map() == old(self).connection_map().insert(
                    guild_id,
                    ConnectionInfo {
                        session_id: Some(session_id),
                        channel_id: Some(ch),
                        ..old(self).connection_base(guild_id)
                    },
                ),
                None => final(self).connection_map() == old(self).connection_map().remove(
                    guild_id,
                ),
            }),
            final(self).node_map() == old(self).node_map(),
            final(self).loop_set() == old(self).loop_set(),
    {
        match channel_id {
            Some(ch) => {
                let mut ci = match self.connections.get(&guild_id) {
                    Some(existing) => existing.clone(),
                    None => ConnectionInfo::empty(guild_id),
                };
                ci.apply_voice_state(session_id, ch);
                let ghost v = ci;
                self.connections.insert(guild_id, ci);
                proof {
                    lemma_wf_conn_insert(*old(self), *self, guild_id, v);
                }
                VoiceStateOutcome::Updated
            }
            None => {
                self.connections.remove(&guild_id);
                proof {
                    lemma_wf_conn_remove(*old(self), *self, guild_id);
                }
                VoiceStateOutcome::Disconnected
            }
        }
    }

    /// An independent copy of the guild's in-progress connection descriptor.
    pub fn get_guild_gateway_connection_info(&self, guild_id: u64) -> (r: Option<ConnectionInfo>)
        requires
            self.wf(),
        ensures
            r == self.current_connection(guild_id),
            (match r {
                Some(ci) => ci.guild_id == guild_id && ci.sources_paired(),
                None => true,
            }),
    {
        match self.connections.get(&guild_id) {
            Some(ci) => Some(ci.clone()),
            None => None,
        }
    }

    /// A borrowed look at the guild's descriptor, in the shape the waiters
    /// are fed with.
    pub fn current_connection_info(&self, guild_id: u64) -> (r: Option<&ConnectionInfo>)
        ensures
            crate::connection::current_view(r) == self.current_connection(guild_id),
    {
        self.connections.get(&guild_id)
    }

    /// Delete the guild's connection descriptor. Idempotent.
    pub fn remove_guild_gateway_connection_info(&mut self, guild_id: u64)
        requires
            old(self).wf(),
        ensures
            final(self).wf(),
            final(self).connection_map() == old(self).connection_map().remove(guild_id),
            final(self).node_map() == old(self).node_map(),
            final(self).loop_set() == old(self).loop_set(),
    {
        self.connections.remove(&guild_id);
        proof {
            lemma_wf_conn_remove(*old(self), *self, guild_id);
        }
    }

    /// Begin waiting until the guild's descriptor is complete. A complete
    /// descriptor is returned at once; otherwise the wait is bounded by
    /// `event_count` further relevant events (ten when unspecified), and a
    /// bound of zero times out at once.
    pub fn wait_for_full_connection_info_insert(
        &self,
        guild_id: u64,
        event_count: Option<usize>,
    ) -> (r: WaitStart)
        ensures
            (match r {
                WaitStart::Complete(ci) => self.current_connection(guild_id) == Some(ci)
                    && ci.is_complete(),
                WaitStart::Wait(w) => !crate::connection::complete_now(
                    self.current_connection(guild_id),
                ) && w.guild_id == guild_id && w.remaining == spec_wait_budget(event_count)
                    && w.remaining > 0,
                WaitStart::TimedOut => !crate::connection::complete_now(
                    self.current_connection(guild_id),
                ) && spec_wait_budget(event_count) == 0,
            }),
    {
        let max_events = match event_count {
            Some(n) => n,
            None => DEFAULT_WAIT_EVENTS,
        };
        match self.connections.get(&guild_id) {
            Some(ci) => {
                if ci.first_missing_field().is_none() {
                    return WaitStart::Complete(ci.clone());
                }
            }
            None => {}
        }
        if max_events == 0 {
            WaitStart::TimedOut
        } else {
            WaitStart::Wait(ConnectionWaiter { guild_id, remaining: max_events })
        }
    }

    /// Begin waiting until the guild's descriptor is removed. An absent
    /// descriptor returns at once; otherwise the wait is bounded by
    /// `event_count` further relevant events (ten when unspecified), and a
    /// bound of zero times out at once.
    pub fn wait_for_connection_info_remove(
        &self,
        guild_id: u64,
        event_count: Option<usize>,
    ) -> (r: RemovalStart)
        ensures
            (match r {
                RemovalStart::AlreadyRemoved => self.current_connection(guild_id) is None,
                RemovalStart::Wait(w) => self.current_connection(guild_id) is Some && w.guild_id
                    == guild_id && w.remaining == spec_wait_budget(event_count) && w.remaining > 0,
                RemovalStart::TimedOut => self.current_connection(guild_id) is Some
                    && spec_wait_budget(event_count) == 0,
            }),
    {
        let max_events = match event_count {
            Some(n) => n,
            None => DEFAULT_WAIT_EVENTS,
        };
        if self.connections.get(&guild_id).is_none() {
            RemovalStart::AlreadyRemoved
        } else if max_events == 0 {
            RemovalStart::TimedOut
        } else {
            RemovalStart::Wait(RemovalWaiter { guild_id, remaining: max_events })
        }
    }

    /// Set every equalizer band of the guild's player: the node records the
    /// gains and the backend is told all fifteen.
    pub fn equalize_all(&mut self, guild_id: u64, bands: [i32; 15]) -> (r: Command)
        requires
            old(self).wf(),
        ensures
            final(self).wf(),
            (match r {
                Command::Equalize { guild_id: g2, bands: bs } => {
                    &&& g2 == guild_id
                    &&& bs@.len() == BAND_COUNT
                    &&& forall|i: int|
                        0 <= i < BAND_COUNT ==> bs@[i] == (Band {
                            band: i as u8,
                            gain: bands@[i],
                        })
                },
                _ => false,
            }),
            final(self).node_map() == (if old(self).node_map().contains_key(guild_id) {
                old(self).node_map().insert(
                    guild_id,
                    NodeView { equalizer: bands@, ..old(self).node_map()[guild_id] },
                )
            } else {
                old(self).node_map()
            }),
            final(self).loop_set() == old(self).loop_set(),
            final(self).connection_map() == old(self).connection_map(),
    {
        let mut eq: Vec<i32> = Vec::new();
        let mut cmd_bands: Vec<Band> = Vec::new();
        let mut i: usize = 0;
        while i < BAND_COUNT
            invariant
                i <= BAND_COUNT,
                eq@.len() == i,
                cmd_bands@.len() == i,
                forall|j: int| 0 <= j < i ==> eq@[j] == bands@[j],
                forall|j: int|
                    0 <= j < i ==> cmd_bands@[j] == (Band { band: j as u8, gain: bands@[j] }),
            decreases BAND_COUNT - i,
        {
            eq.push(bands[i]);
            cmd_bands.push(Band { band: i as u8, gain: bands[i] });
            i += 1;
        }
        let existing = match self.nodes.get(&guild_id) {
            Some(n) => Some(n.clone()),
            None => None,
        };
        match existing {
            Some(mut n) => {
                n.equalizer = eq;
                proof {
                    assert(n@.equalizer =~= bands@);
                }
                let ghost v = n@;
                let ghost m = self.nodes@;
                self.nodes.insert(guild_id, n);
                proof {
                    lemma_views_insert(m, guild_id, self.nodes@[guild_id]);
                    lemma_wf_node_insert(*old(self), *self, guild_id, v);
                }
            }
            None => {}
        }
        Command::Equalize { guild_id, bands: cmd_bands }
    }

    /// Set the gains of a chosen set of bands; unmentioned bands keep their
    /// gain. The node records the change and the backend is told the named
    /// bands.
    pub fn equalize_dynamic(&mut self, guild_id: u64, bands: Vec<Band>) -> (r: Command)
        requires
            old(self).wf(),
        ensures
            final(self).wf(),
            r == (Command::Equalize { guild_id, bands }),
            final(self).node_map() == (if old(self).node_map().contains_key(guild_id) {
                old(self).node_map().insert(
                    guild_id,
                    NodeView {
                        equalizer: crate::model::apply_bands(
                            old(self).node_map()[guild_id].equalizer,
                            bands@,
                        ),
                        ..old(self).node_map()[guild_id]
                    },
                )
            } else {
                old(self).node_map()
            }),
            final(self).loop_set() == old(self).loop_set(),
            final(self).connection_map() == old(self).connection_map(),
    {
        let existing = match self.nodes.get(&guild_id) {
            Some(n) => Some(n.clone()),
            None => None,
        };
        match existing {
            Some(mut n) => {
                let ghost v0 = n@;
                let mut i: usize = 0;
                while i < bands.len()
                    invariant
                        i <= bands.len(),
                        n@ == (NodeView {
                            equalizer: crate::model::apply_bands(
                                v0.equalizer,
                                bands@.take(i as int),
                            ),
                            ..v0
                        }),
                    decreases bands.len() - i,
                {
                    let b = bands[i];
                    proof {
                        crate::model::lemma_apply_bands_len(v0.equalizer, bands@.take(i as int));
                    }
                    if (b.band as usize) < n.equalizer.len() {
                        let idx: usize = b.band as usize;
                        n.equalizer[idx] = b.gain;
                    }
                    proof {
                        assert(bands@.take(i + 1) =~= bands@.take(i as int).push(b));
                        crate::model::lemma_apply_bands_push(
                            v0.equalizer,
                            bands@.take(i as int),
                            b,
                        );
                    }
                    i += 1;
                }
                proof {
                    assert(bands@.take(bands@.len() as int) =~= bands@);
                    crate::model::lemma_apply_bands_len(v0.equalizer, bands@);
                }
                let ghost v = n@;
                let ghost m = self.nodes@;
                self.nodes.insert(guild_id, n);
                proof {
                    lemma_views_insert(m, guild_id, self.nodes@[guild_id]);
                    lemma_wf_node_insert(*old(self), *self, guild_id, v);
                }
            }
            None => {}
        }
        Command::Equalize { guild_id, bands }
    }

    /// Set the gain of one band; the other bands keep theirs.
    pub fn equalize_band(&mut self, guild_id: u64, band: Band) -> (r: Command)
        requires
            old(self).wf(),
        ensures
            final(self).wf(),
            (match r {
                Command::Equalize { guild_id: g2, bands: bs } => g2 == guild_id && bs@ == seq![
                    band,
                ],
                _ => false,
            }),
            final(self).node_map() == (if old(self).node_map().contains_key(guild_id) {
                old(self).node_map().insert(
                    guild_id,
                    NodeView {
                        equalizer: crate::model::apply_band(
                            old(self).node_map()[guild_id].equalizer,
                            band,
                        ),
                        ..old(self).node_map()[guild_id]
                    },
                )
            } else {
                old(self).node_map()
            }),
            final(self).loop_set() == old(self).loop_set(),
            final(self).connection_map() == old(self).connection_map(),
    {
        let existing = match self.nodes.get(&guild_id) {
            Some(n) => Some(n.clone()),
            None => None,
        };
        match existing {
            Some(mut n) => {
                if (band.band as usize) < n.equalizer.len() {
                    let idx: usize = band.band as usize;
                    n.equalizer[idx] = band.gain;
                }
                let ghost v = n@;
                let ghost m = self.nodes@;
                self.nodes.insert(guild_id, n);
                proof {
                    lemma_views_insert(m, guild_id, self.nodes@[guild_id]);
                    lemma_wf_node_insert(*old(self), *self, guild_id, v);
                }
            }
            None => {}
        }
        let mut bs: Vec<Band> = Vec::new();
        bs.push(band);
        proof {
            assert(bs@ =~= seq![band]);
        }
        Command::Equalize { guild_id, bands: bs }
    }

    /// Reset every band to a gain of zero.
    pub fn equalize_reset(&mut self, guild_id: u64) -> (r: Command)
        requires
            old(self).wf(),
        ensures
            final(self).wf(),
            (match r {
                Command::Equalize { guild_id: g2, bands: bs } => {
                    &&& g2 == guild_id
                    &&& bs@.len() == BAND_COUNT
                    &&& forall|i: int|
                        0 <= i < BAND_COUNT ==> bs@[i] == (Band { band: i as u8, gain: 0i32 })
                },
                _ => false,
            }),
            final(self).node_map() == (if old(self).node_map().contains_key(guild_id) {
                old(self).node_map().insert(
                    guild_id,
                    NodeView {
                        equalizer: Seq::new(BAND_COUNT as nat, |i: int| 0i32),
                        ..old(self).node_map()[guild_id]
                    },
                )
            } else {
                old(self).node_map()
            }),
            final(self).loop_set() == old(self).loop_set(),
            final(self).connection_map() == old(self).connection_map(),
    {
        let mut eq: Vec<i32> = Vec::new();
        let mut cmd_bands: Vec<Band> = Vec::new();
        let mut i: usize = 0;
        while i < BAND_COUNT
            invariant
                i <= BAND_COUNT,
                eq@.len() == i,
                cmd_bands@.len() == i,
                forall|j: int| 0 <= j < i ==> eq@[j] == 0i32,
                forall|j: int| 0 <= j < i ==> cmd_bands@[j] == (Band { band: j as u8, gain: 0i32 }),
            decreases BAND_COUNT - i,
        {
            eq.push(0);
            cmd_bands.push(Band { band: i as u8, gain: 0 });
            i += 1;
        }
        let existing = match self.nodes.get(&guild_id) {
            Some(n) => Some(n.clone()),
            None => None,
        };
        match existing {
            Some(mut n) => {
                n.equalizer = eq;
                proof {
                    assert(n@.equalizer =~= Seq::new(BAND_COUNT as nat, |j: int| 0i32));
                }
                let ghost v = n@;
                let ghost m = self.nodes@;
                self.nodes.insert(guild_id, n);
                proof {
                    lemma_views_insert(m, guild_id, self.nodes@[guild_id]);
                    lemma_wf_node_insert(*old(self), *self, guild_id, v);
                }
            }
            None => {}
        }
        Command::Equalize { guild_id, bands: cmd_bands }
    }
}

/// A player-update report applied to the node registry: where the guild has
/// a playing track with metadata, that metadata's position is replaced.
pub open spec fn spec_player_update(
    nodes: Map<u64, NodeView>,
    guild_id: u64,
    position: u64,
) -> Map<u64, NodeView> {
    if nodes.contains_key(guild_id) && nodes[guild_id].now_playing is Some
        && nodes[guild_id].now_playing->0.track.info is Some {
        let tq = nodes[guild_id].now_playing->0;
        nodes.insert(
            guild_id,
            NodeView {
                now_playing: Some(
                    TrackQueue {
                        track: Track {
                            track: tq.track.track,
                            info: Some(Info { position, ..tq.track.info->0 }),
                        },
                        ..tq
                    },
                ),
                ..nodes[guild_id]
            },
        )
    } else {
        nodes
    }
}

/// The event budget a wait runs with: the caller's choice, or the default.
pub open spec fn spec_wait_budget(event_count: Option<usize>) -> usize {
    match event_count {
        Some(n) => n,
        None => DEFAULT_WAIT_EVENTS,
    }
}

} // verus!
