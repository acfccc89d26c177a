//! Data model of the session coordinator: tracks, queue entries, per-guild
//! playback nodes, and the payloads of the events the audio backend emits.

use vstd::prelude::*;

verus! {

/// Number of fixed equalizer bands a player has.
pub const BAND_COUNT: usize = 15;

/// Lowest valid band gain, in thousandths (a gain of -0.25 mutes the band).
pub const GAIN_MIN_MILLI: i32 = -250;

/// Highest valid band gain, in thousandths (a gain of 1.0 doubles the band).
pub const GAIN_MAX_MILLI: i32 = 1000;

/// Volume a freshly created node starts with.
pub const DEFAULT_VOLUME: u16 = 100;

/// Highest volume a player accepts.
pub const MAX_VOLUME: u16 = 1000;

/// Metadata of a decoded track.
pub struct Info {
    pub is_seekable: bool,
    pub is_stream: bool,
    pub identifier: String,
    pub author: String,
    pub length: u64,
    pub position: u64,
    pub title: String,
    pub uri: String,
}

impl Clone for Info {
    fn clone(&self) -> (r: Self)
        ensures
            r == *self,
    {
        Info {
            is_seekable: self.is_seekable,
            is_stream: self.is_stream,
            identifier: self.identifier.clone(),
            author: self.author.clone(),
            length: self.length,
            position: self.position,
            title: self.title.clone(),
            uri: self.uri.clone(),
        }
    }
}

/// A playable track: the opaque encoded handle the audio backend mints,
/// together with its metadata when known.
pub struct Track {
    pub track: String,
    pub info: Option<Info>,
}

impl Clone for Track {
    fn clone(&self) -> (r: Self)
        ensures
            r == *self,
    {
        Track {
            track: self.track.clone(),
            info: match &self.info {
                Some(i) => Some(i.clone()),
                None => None,
            },
        }
    }
}

/// An entry of a guild's playback queue. Immutable once enqueued.
///
/// `end_time` of `None` means the track plays to its natural end.
pub struct TrackQueue {
    pub track: Track,
    pub start_time: u64,
    pub end_time: Option<u64>,
    pub requester: Option<u64>,
}

impl Clone for TrackQueue {
    fn clone(&self) -> (r: Self)
        ensures
            r == *self,
    {
        TrackQueue {
            track: self.track.clone(),
            start_time: self.start_time,
            end_time: self.end_time,
            requester: self.requester,
        }
    }
}

/// Information about a playlist a track search returned.
pub struct PlaylistInfo {
    pub selected_track: Option<i64>,
    pub name: Option<String>,
}

impl Clone for PlaylistInfo {
    fn clone(&self) -> (r: Self)
        ensures
            r == *self,
    {
        PlaylistInfo {
            selected_track: self.selected_track,
            name: match &self.name {
                Some(n) => Some(n.clone()),
                None => None,
            },
        }
    }
}

/// Result of a track search or URL load.
pub struct Tracks {
    pub load_type: String,
    pub playlist_info: Option<PlaylistInfo>,
    pub tracks: Vec<Track>,
}

/// A single equalizer band: the band index (0 to 14) and its gain in
/// thousandths, between `GAIN_MIN_MILLI` and `GAIN_MAX_MILLI`.
#[derive(Clone, Copy, Debug, PartialEq)]
pub struct Band {
    pub band: u8,
    pub gain: i32,
}

impl Band {
    /// A band is valid when its index names one of the fixed bands and its
    /// gain lies in the accepted range.
    pub open spec fn valid(&self) -> bool {
        self.band < BAND_COUNT && GAIN_MIN_MILLI <= self.gain <= GAIN_MAX_MILLI
    }

    pub fn new(band: u8, gain: i32) -> (r: Self)
        ensures
            r.band == band,
            r.gain == gain,
    {
        Band { band, gain }
    }
}

/// An operation the audio backend must carry out. The coordinator returns
/// these as values; the embedding runtime owns the transport and sends them.
#[derive(Debug, PartialEq)]
pub enum Command {
    /// Establish a voice session from a complete connection descriptor.
    VoiceUpdate { guild_id: u64, session_id: String, endpoint: String, token: String },
    /// Tear the guild's player down.
    Destroy { guild_id: u64 },
    /// Stop the guild's player.
    Stop { guild_id: u64 },
    /// Start playing a track.
    Play { guild_id: u64, track: String, no_replace: bool, start_time: u64, end_time: Option<u64> },
    /// Set the paused state of the player.
    Pause { guild_id: u64, pause: bool },
    /// Jump to a position, in milliseconds, in the playing track.
    Seek { guild_id: u64, position: u64 },
    /// Set the player volume.
    Volume { guild_id: u64, volume: u16 },
    /// Set the gains of the named equalizer bands.
    Equalize { guild_id: u64, bands: Vec<Band> },
}

/// The play command a queue entry gives rise to when the queue advances.
pub open spec fn play_command(guild_id: u64, t: TrackQueue) -> Command {
    Command::Play {
        guild_id,
        track: t.track.track,
        no_replace: false,
        start_time: t.start_time,
        end_time: t.end_time,
    }
}

/// The backend's periodic statistics report. The two load figures are
/// fractions of one, carried in thousandths.
pub struct Stats {
    pub op: String,
    pub players: i64,
    pub playing_players: i64,
    pub uptime: i64,
    pub memory_reservable: i64,
    pub memory_used: i64,
    pub memory_free: i64,
    pub memory_allocated: i64,
    pub cpu_cores: i64,
    pub cpu_system_load_milli: i64,
    pub cpu_lavalink_load_milli: i64,
    pub frame_stats_sent: Option<i64>,
    pub frame_stats_deficit: Option<i64>,
    pub frame_stats_nulled: Option<i64>,
}

/// The backend's report of a player's position in the playing track.
pub struct PlayerUpdate {
    pub op: String,
    pub guild_id: u64,
    pub state_position: i64,
    pub state_time: i64,
}

/// A track started playing.
pub struct TrackStart {
    pub op: String,
    pub track_start_type: String,
    pub track: String,
    pub guild_id: u64,
}

/// A track stopped playing; `reason` tells whether it ran to its natural
/// end ("FINISHED"), was replaced, stopped, or failed.
pub struct TrackFinish {
    pub op: String,
    pub reason: String,
    pub track_finish_type: String,
    pub track: String,
    pub guild_id: u64,
}

/// A track raised an error on the backend.
pub struct TrackException {
    pub op: String,
    pub track_exception_type: String,
    pub track: String,
    pub guild_id: u64,
    pub error: String,
    pub exception_severity: String,
    pub exception_cause: String,
    pub exception_message: String,
}

/// A track got stuck while playing.
pub struct TrackStuck {
    pub op: String,
    pub track_stuck_type: String,
    pub track: String,
    pub guild_id: u64,
    pub threshold_ms: u64,
}

/// The websocket of a guild's voice connection closed.
pub struct WebSocketClosed {
    pub op: String,
    pub websocket_closed_type: String,
    pub user_id: u64,
    pub guild_id: u64,
    pub code: u64,
    pub by_remote: bool,
}

/// A guild's player was destroyed on the backend.
pub struct PlayerDestroyed {
    pub op: String,
    pub player_destroyed_type: String,
    pub cleanup: bool,
    pub guild_id: u64,
    pub user_id: u64,
}

/// One band applied to an equalizer: the named band takes the new gain,
/// every other band keeps its own, and a band index past the fixed set
/// changes nothing.
pub open spec fn apply_band(eq: Seq<i32>, b: Band) -> Seq<i32> {
    if (b.band as int) < eq.len() {
        eq.update(b.band as int, b.gain)
    } else {
        eq
    }
}

/// A list of bands applied to an equalizer in order.
pub open spec fn apply_bands(eq: Seq<i32>, bands: Seq<Band>) -> Seq<i32>
    decreases bands.len(),
{
    if bands.len() == 0 {
        eq
    } else {
        apply_bands(apply_band(eq, bands[0]), bands.drop_first())
    }
}

/// Applying bands never changes how many bands the equalizer has.
pub proof fn lemma_apply_bands_len(eq: Seq<i32>, bands: Seq<Band>)
    ensures
        apply_bands(eq, bands).len() == eq.len(),
    decreases bands.len(),
{
    if bands.len() > 0 {
        lemma_apply_bands_len(apply_band(eq, bands[0]), bands.drop_first());
    }
}

/// Appending one band to a list applies it after the rest.
pub proof fn lemma_apply_bands_push(eq: Seq<i32>, bands: Seq<Band>, b: Band)
    ensures
        apply_bands(eq, bands.push(b)) == apply_band(apply_bands(eq, bands), b),
    decreases bands.len(),
{
    if bands.len() == 0 {
        assert(bands.push(b).drop_first() =~= Seq::<Band>::empty());
        assert(bands.push(b)[0] == b);
        assert(apply_bands(eq, bands.push(b)) == apply_bands(
            apply_band(eq, b),
            Seq::<Band>::empty(),
        ));
        assert(apply_bands(apply_band(eq, b), Seq::<Band>::empty()) == apply_band(eq, b));
        assert(apply_bands(eq, bands) == eq);
    } else {
        assert(bands.push(b).drop_first() =~= bands.drop_first().push(b));
        assert(bands.push(b)[0] == bands[0]);
        assert(apply_bands(eq, bands.push(b)) == apply_bands(
            apply_band(eq, bands[0]),
            bands.drop_first().push(b),
        ));
        lemma_apply_bands_push(apply_band(eq, bands[0]), bands.drop_first(), b);
    }
}

/// Mathematical model of a `Node`.
pub ghost struct NodeView {
    pub guild: u64,
    pub now_playing: Option<TrackQueue>,
    pub is_paused: bool,
    pub volume: u16,
    pub queue: Seq<TrackQueue>,
    pub is_on_loops: bool,
    pub equalizer: Seq<i32>,
}

/// Per-guild playback state: the queue of upcoming entries (FIFO), the entry
/// now playing, the volume, the paused flag, the equalizer gains, and whether
/// a queue-advance loop is registered for the guild.
pub struct Node {
    pub guild: u64,
    pub now_playing: Option<TrackQueue>,
    pub is_paused: bool,
    pub volume: u16,
    pub queue: Vec<TrackQueue>,
    pub is_on_loops: bool,
    pub equalizer: Vec<i32>,
}

impl View for Node {
    type V = NodeView;

    open spec fn view(&self) -> NodeView {
        NodeView {
            guild: self.guild,
            now_playing: self.now_playing,
            is_paused: self.is_paused,
            volume: self.volume,
            queue: self.queue@,
            is_on_loops: self.is_on_loops,
            equalizer: self.equalizer@,
        }
    }
}

impl NodeView {
    /// Every node carries the full set of equalizer bands.
    pub open spec fn wf(&self) -> bool {
        self.equalizer.len() == BAND_COUNT
    }

    /// The state a node for `guild` starts in.
    pub open spec fn fresh(guild: u64) -> NodeView {
        NodeView {
            guild,
            now_playing: None,
            is_paused: false,
            volume: DEFAULT_VOLUME,
            queue: Seq::empty(),
            is_on_loops: false,
            equalizer: Seq::new(BAND_COUNT as nat, |i: int| 0i32),
        }
    }
}

impl Node {
    /// The node a fresh session starts with: empty queue, nothing playing,
    /// default volume, not paused, flat equalizer.
    pub fn new(guild: u64) -> (r: Self)
        ensures
            r@ == NodeView::fresh(guild),
            r@.wf(),
    {
        let mut equalizer: Vec<i32> = Vec::new();
        let mut i: usize = 0;
        while i < BAND_COUNT
            invariant
                i <= BAND_COUNT,
                equalizer@.len() == i,
                forall|j: int| 0 <= j < i ==> equalizer@[j] == 0i32,
            decreases BAND_COUNT - i,
        {
            equalizer.push(0);
            i += 1;
        }
        let r = Node {
            guild,
            now_playing: None,
            is_paused: false,
            volume: DEFAULT_VOLUME,
            queue: Vec::new(),
            is_on_loops: false,
            equalizer,
        };
        proof {
            assert(r@.equalizer =~= NodeView::fresh(guild).equalizer);
            assert(r@.queue =~= NodeView::fresh(guild).queue);
            assert(r@ =~= NodeView::fresh(guild));
        }
        r
    }
}

impl Clone for Node {
    /// An independent snapshot: the copy models the same state as the node
    /// it was taken from.
    fn clone(&self) -> (r: Self)
        ensures
            r@ == self@,
    {
        let mut queue: Vec<TrackQueue> = Vec::new();
        let mut i: usize = 0;
        while i < self.queue.len()
            invariant
                i <= self.queue.len(),
                queue@.len() == i,
                forall|j: int| 0 <= j < i ==> queue@[j] == self.queue@[j],
            decreases self.queue.len() - i,
        {
            queue.push(self.queue[i].clone());
            i += 1;
        }
        let mut equalizer: Vec<i32> = Vec::new();
        let mut k: usize = 0;
        while k < self.equalizer.len()
            invariant
                k <= self.equalizer.len(),
                equalizer@.len() == k,
                forall|j: int| 0 <= j < k ==> equalizer@[j] == self.equalizer@[j],
            decreases self.equalizer.len() - k,
        {
            equalizer.push(self.equalizer[k]);
            k += 1;
        }
        let r = Node {
            guild: self.guild,
            now_playing: match &self.now_playing {
                Some(t) => Some(t.clone()),
                None => None,
            },
            is_paused: self.is_paused,
            volume: self.volume,
            queue,
            is_on_loops: self.is_on_loops,
            equalizer,
        };
        proof {
            assert(r@.queue =~= self@.queue);
            assert(r@.equalizer =~= self@.equalizer);
            assert(r@ =~= self@);
        }
        r
    }
}

} // verus!
