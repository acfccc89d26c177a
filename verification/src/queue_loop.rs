//! The queue-loop state machine.
//!
//! Per guild the loop is either absent or running. It becomes running the
//! first time a track is queued for a guild with a session, advances to the
//! next queued entry whenever the backend reports the playing track
//! finished, and becomes absent again exactly when such a report finds the
//! queue empty -- or when a caller removes the guild from the loops
//! explicitly. The functions here are the mathematical transitions; the
//! methods on [`crate::Lavalink`] are proved against them.

use vstd::prelude::*;
use crate::model::Command;
use crate::model::NodeView;
use crate::model::TrackQueue;
use crate::model::play_command;

verus! {

/// If nothing is playing and the queue holds an entry, pop the first entry,
/// make it the playing one, and emit its play command.
pub open spec fn spec_advance_idle(n: NodeView, guild_id: u64) -> (NodeView, Option<Command>) {
    if n.now_playing is None && n.queue.len() > 0 {
        (
            NodeView { queue: n.queue.drop_first(), now_playing: Some(n.queue[0]), ..n },
            Some(play_command(guild_id, n.queue[0])),
        )
    } else {
        (n, None)
    }
}

/// Queue a track for a guild: rejected without a session (the final `bool`
/// is false and nothing changes); otherwise the entry joins the back of the
/// queue, the guild's loop starts if it was absent, and an idle player
/// starts on the first waiting entry.
pub open spec fn spec_queue_track(
    nodes: Map<u64, NodeView>,
    loops: Set<u64>,
    guild_id: u64,
    track: TrackQueue,
) -> (Map<u64, NodeView>, Set<u64>, Option<Command>, bool) {
    if !nodes.contains_key(guild_id) {
        (nodes, loops, None, false)
    } else {
        let started = !loops.contains(guild_id);
        let n0 = nodes[guild_id];
        let n1 = NodeView {
            queue: n0.queue.push(track),
            is_on_loops: if started {
                true
            } else {
                n0.is_on_loops
            },
            ..n0
        };
        let loops1 = if started {
            loops.insert(guild_id)
        } else {
            loops
        };
        let stepped = spec_advance_idle(n1, guild_id);
        (nodes.insert(guild_id, stepped.0), loops1, stepped.1, true)
    }
}

/// Skip to the next queued entry: with an empty queue (or no session)
/// nothing changes and nothing is returned; otherwise the first entry is
/// dequeued, becomes the playing one, its play command is emitted at once,
/// and it is returned.
pub open spec fn spec_skip(nodes: Map<u64, NodeView>, guild_id: u64) -> (
    Map<u64, NodeView>,
    Option<TrackQueue>,
    Option<Command>,
) {
    if !nodes.contains_key(guild_id) {
        (nodes, None, None)
    } else {
        let n = nodes[guild_id];
        if n.queue.len() == 0 {
            (nodes, None, None)
        } else {
            let t = n.queue[0];
            (
                nodes.insert(
                    guild_id,
                    NodeView { queue: n.queue.drop_first(), now_playing: Some(t), ..n },
                ),
                Some(t),
                Some(play_command(guild_id, t)),
            )
        }
    }
}

/// Take a track-finish report. Only a natural finish (`finished`) acts. The
/// playing entry is forgotten; while the guild's loop is running the next
/// entry is popped and played, and when none is waiting the loop becomes
/// absent. Without a node the report changes nothing -- in particular the
/// loop registration survives the node's removal.
pub open spec fn spec_track_finish(
    nodes: Map<u64, NodeView>,
    loops: Set<u64>,
    guild_id: u64,
    finished: bool,
) -> (Map<u64, NodeView>, Set<u64>, Option<Command>) {
    if !finished || !nodes.contains_key(guild_id) {
        (nodes, loops, None)
    } else {
        let n1 = NodeView { now_playing: None, ..nodes[guild_id] };
        if !loops.contains(guild_id) {
            (nodes.insert(guild_id, n1), loops, None)
        } else if n1.queue.len() > 0 {
            let t = n1.queue[0];
            (
                nodes.insert(
                    guild_id,
                    NodeView { queue: n1.queue.drop_first(), now_playing: Some(t), ..n1 },
                ),
                loops,
                Some(play_command(guild_id, t)),
            )
        } else {
            (nodes.insert(guild_id, NodeView { is_on_loops: false, ..n1 }), loops.remove(guild_id), None)
        }
    }
}

/// Removing a guild's node touches the loop registrations not at all.
pub open spec fn spec_remove_node(nodes: Map<u64, NodeView>, loops: Set<u64>, guild_id: u64) -> (
    Map<u64, NodeView>,
    Set<u64>,
) {
    (nodes.remove(guild_id), loops)
}

/// Removing a guild from the loops touches the node registry not at all.
pub open spec fn spec_remove_from_loops(
    nodes: Map<u64, NodeView>,
    loops: Set<u64>,
    guild_id: u64,
) -> (Map<u64, NodeView>, Set<u64>) {
    (nodes, loops.remove(guild_id))
}

/// The node registry and the loop registrations have independent lifecycles:
/// removing either leaves the other exactly as it was, and the two removals
/// commute.
pub proof fn lemma_independent_lifecycles(
    nodes: Map<u64, NodeView>,
    loops: Set<u64>,
    guild_id: u64,
)
    ensures
        spec_remove_node(nodes, loops, guild_id).1 == loops,
        spec_remove_from_loops(nodes, loops, guild_id).0 == nodes,
        spec_remove_from_loops(
            spec_remove_node(nodes, loops, guild_id).0,
            spec_remove_node(nodes, loops, guild_id).1,
            guild_id,
        ) == spec_remove_node(
            spec_remove_from_loops(nodes, loops, guild_id).0,
            spec_remove_from_loops(nodes, loops, guild_id).1,
            guild_id,
        ),
{
}

/// A guild's loop starts exactly once: the first queued track of a guild
/// with a session moves the loop from absent to running, and a later queue
/// call finds it running and leaves the registration as it is. A queue call
/// without a session changes nothing.
pub proof fn lemma_loop_starts_once(
    nodes: Map<u64, NodeView>,
    loops: Set<u64>,
    guild_id: u64,
    track: TrackQueue,
)
    ensures
        loops.contains(guild_id) ==> spec_queue_track(nodes, loops, guild_id, track).1 == loops,
        (!loops.contains(guild_id) && nodes.contains_key(guild_id)) ==> spec_queue_track(
            nodes,
            loops,
            guild_id,
            track,
        ).1 == loops.insert(guild_id),
        !nodes.contains_key(guild_id) ==> spec_queue_track(nodes, loops, guild_id, track)
            == (nodes, loops, Option::<Command>::None, false),
{
}

/// A guild's loop stops exactly when a finish report finds its queue empty:
/// not on skips, not on finish reports that still find waiting entries, and
/// not for guilds whose loop is not running.
pub proof fn lemma_loop_stops_exactly_on_drain(
    nodes: Map<u64, NodeView>,
    loops: Set<u64>,
    guild_id: u64,
    finished: bool,
)
    ensures
        spec_track_finish(nodes, loops, guild_id, finished).1 == (if finished
            && nodes.contains_key(guild_id) && loops.contains(guild_id)
            && nodes[guild_id].queue.len() == 0 {
            loops.remove(guild_id)
        } else {
            loops
        }),
        spec_skip(nodes, guild_id).0.contains_key(guild_id) ==> nodes.contains_key(guild_id),
{
}

/// What a skip does, in both cases: an empty queue returns nothing and
/// leaves every node -- the playing track among them -- unchanged; a
/// non-empty queue hands back the dequeued entry together with exactly one
/// play command for it, and that entry becomes the playing one.
pub proof fn lemma_skip_contract(nodes: Map<u64, NodeView>, guild_id: u64)
    ensures
        ({
            let (nodes1, skipped, cmd) = spec_skip(nodes, guild_id);
            &&& (skipped is None <==> cmd is None)
            &&& (skipped is None ==> nodes1 == nodes)
            &&& (skipped matches Some(t) ==> {
                &&& nodes.contains_key(guild_id)
                &&& nodes[guild_id].queue.len() > 0
                &&& t == nodes[guild_id].queue[0]
                &&& cmd == Some(play_command(guild_id, t))
                &&& nodes1 == nodes.insert(
                    guild_id,
                    NodeView {
                        queue: nodes[guild_id].queue.drop_first(),
                        now_playing: Some(t),
                        ..nodes[guild_id]
                    },
                )
            })
        }),
{
}

} // verus!
