//! Builders: the connection configuration a client starts from, and the
//! staged parameters of one play request.

use vstd::prelude::*;
use crate::error::LavalinkError;
use crate::model::Command;
use crate::model::Track;
use crate::model::TrackQueue;
use crate::queue_loop::spec_queue_track;
use crate::Lavalink;

verus! {

/// Configuration of a client connection, accumulated by chained setters.
/// The embedding runtime reads it to open the websocket and the gateway;
/// `build` hands back the coordinator the connection is driven with.
pub struct LavalinkBuilder {
    pub host: String,
    pub port: u16,
    pub password: String,
    pub shard_count: u64,
    pub bot_id: u64,
    pub bot_token: String,
    pub is_ssl: bool,
    pub start_gateway: bool,
    pub gateway_start_wait_time_millis: u64,
}

impl LavalinkBuilder {
    /// A configuration with the customary defaults: host 127.0.0.1, port
    /// 2333, password "youshallnotpass", one shard, no TLS, the gateway
    /// started after six seconds.
    pub fn new(bot_id: u64, bot_token: String) -> (r: Self)
        ensures
            r.host@ == "127.0.0.1"@,
            r.port == 2333u16,
            r.password@ == "youshallnotpass"@,
            r.shard_count == 1u64,
            r.bot_id == bot_id,
            r.bot_token == bot_token,
            r.is_ssl == false,
            r.start_gateway == true,
            r.gateway_start_wait_time_millis == 6000u64,
    {
        LavalinkBuilder {
            host: String::from_str("127.0.0.1"),
            port: 2333,
            password: String::from_str("youshallnotpass"),
            shard_count: 1,
            bot_id,
            bot_token,
            is_ssl: false,
            start_gateway: true,
            gateway_start_wait_time_millis: 6000,
        }
    }

    /// Use the configuration to stand up a coordinator: no sessions, no
    /// loops, no descriptors. The embedding runtime opens the connections
    /// the configuration describes and drives the coordinator with them.
    pub fn build(&self) -> (r: Lavalink)
        ensures
            r.wf(),
            r.node_map() == Map::<u64, crate::model::NodeView>::empty(),
            r.loop_set() == Set::<u64>::empty(),
            r.connection_map() == Map::<u64, crate::connection::ConnectionInfo>::empty(),
    {
        Lavalink::new()
    }

    /// Set the host.
    pub fn set_host(self, host: String) -> (r: Self)
        ensures
            r == (LavalinkBuilder { host, ..self }),
    {
        LavalinkBuilder { host, ..self }
    }

    /// Set the port.
    pub fn set_port(self, port: u16) -> (r: Self)
        ensures
            r == (LavalinkBuilder { port, ..self }),
    {
        LavalinkBuilder { port, ..self }
    }

    /// Set the host and port together, as from a parsed socket address.
    pub fn set_addr(self, host: String, port: u16) -> (r: Self)
        ensures
            r == (LavalinkBuilder { host, port, ..self }),
    {
        LavalinkBuilder { host, port, ..self }
    }

    /// Set the password.
    pub fn set_password(self, password: String) -> (r: Self)
        ensures
            r == (LavalinkBuilder { password, ..self }),
    {
        LavalinkBuilder { password, ..self }
    }

    /// Set the number of shards.
    pub fn set_shard_count(self, shard_count: u64) -> (r: Self)
        ensures
            r == (LavalinkBuilder { shard_count, ..self }),
    {
        LavalinkBuilder { shard_count, ..self }
    }

    /// Set the bot's user identifier.
    pub fn set_bot_id(self, bot_id: u64) -> (r: Self)
        ensures
            r == (LavalinkBuilder { bot_id, ..self }),
    {
        LavalinkBuilder { bot_id, ..self }
    }

    /// Set the bot's token.
    pub fn set_bot_token(self, bot_token: String) -> (r: Self)
        ensures
            r == (LavalinkBuilder { bot_token, ..self }),
    {
        LavalinkBuilder { bot_token, ..self }
    }

    /// Set whether the server is reached over TLS.
    pub fn set_is_ssl(self, is_ssl: bool) -> (r: Self)
        ensures
            r == (LavalinkBuilder { is_ssl, ..self }),
    {
        LavalinkBuilder { is_ssl, ..self }
    }

    /// Set whether the gateway is started at all.
    pub fn set_start_gateway(self, start_gateway: bool) -> (r: Self)
        ensures
            r == (LavalinkBuilder { start_gateway, ..self }),
    {
        LavalinkBuilder { start_gateway, ..self }
    }

    /// Set the delay before the gateway's first connection, in seconds.
    pub fn set_gateway_start_wait_time_secs(self, time: u64) -> (r: Self)
        requires
            time * 1000 <= u64::MAX,
        ensures
            r == (LavalinkBuilder { gateway_start_wait_time_millis: (time * 1000) as u64, ..self }),
    {
        LavalinkBuilder { gateway_start_wait_time_millis: time * 1000, ..self }
    }

    /// Set the delay before the gateway's first connection, in milliseconds.
    pub fn set_gateway_start_wait_time_millis(self, time: u64) -> (r: Self)
        ensures
            r == (LavalinkBuilder { gateway_start_wait_time_millis: time, ..self }),
    {
        LavalinkBuilder { gateway_start_wait_time_millis: time, ..self }
    }
}

/// The staged parameters of one play request: fire them at once with
/// `start`, or enqueue them with `queue`. Not retained afterwards.
pub struct PlayBuilder {
    pub track: Track,
    pub guild_id: u64,
    pub replace: bool,
    pub start: u64,
    pub finish: u64,
    pub requester: Option<u64>,
}

/// The queue entry the staged parameters describe: a `finish` of zero means
/// the track plays to its natural end.
pub open spec fn spec_track_queue(b: PlayBuilder) -> TrackQueue {
    TrackQueue {
        track: b.track,
        start_time: b.start,
        end_time: if b.finish == 0 {
            None
        } else {
            Some(b.finish)
        },
        requester: b.requester,
    }
}

impl PlayBuilder {
    /// Set who requested the track.
    pub fn requester(self, requester: u64) -> (r: Self)
        ensures
            r == (PlayBuilder { requester: Some(requester), ..self }),
    {
        PlayBuilder { requester: Some(requester), ..self }
    }

    /// Set whether the playing track is replaced by this one.
    pub fn replace(self, replace: bool) -> (r: Self)
        ensures
            r == (PlayBuilder { replace, ..self }),
    {
        PlayBuilder { replace, ..self }
    }

    /// Set where the track starts, in seconds.
    pub fn start_time_secs(self, start: u64) -> (r: Self)
        requires
            start * 1000 <= u64::MAX,
        ensures
            r == (PlayBuilder { start: (start * 1000) as u64, ..self }),
    {
        PlayBuilder { start: start * 1000, ..self }
    }

    /// Set where the track finishes, in seconds. Zero means its natural end.
    pub fn finish_time_secs(self, finish: u64) -> (r: Self)
        requires
            finish * 1000 <= u64::MAX,
        ensures
            r == (PlayBuilder { finish: (finish * 1000) as u64, ..self }),
    {
        PlayBuilder { finish: finish * 1000, ..self }
    }

    /// Set where the track starts, in milliseconds.
    pub fn start_time_millis(self, start: u64) -> (r: Self)
        ensures
            r == (PlayBuilder { start, ..self }),
    {
        PlayBuilder { start, ..self }
    }

    /// Set where the track finishes, in milliseconds. Zero means its natural
    /// end.
    pub fn finish_time_millis(self, finish: u64) -> (r: Self)
        ensures
            r == (PlayBuilder { finish, ..self }),
    {
        PlayBuilder { finish, ..self }
    }

    /// The queue entry the staged parameters describe: a `finish` of zero
    /// yields no end time, any other value yields that end time.
    pub fn to_track_queue(&self) -> (r: TrackQueue)
        ensures
            r == spec_track_queue(*self),
    {
        TrackQueue {
            track: self.track.clone(),
            start_time: self.start,
            end_time: if self.finish == 0 {
                None
            } else {
                Some(self.finish)
            },
            requester: self.requester,
        }
    }

    /// Play the track at once, without touching the queue: the command for
    /// the backend.
    pub fn start(&self) -> (r: Command)
        ensures
            r == (Command::Play {
                guild_id: self.guild_id,
                track: self.track.track,
                no_replace: !self.replace,
                start_time: self.start,
                end_time: if self.finish == 0 {
                    None
                } else {
                    Some(self.finish)
                },
            }),
    {
        Command::Play {
            guild_id: self.guild_id,
            track: self.track.track.clone(),
            no_replace: !self.replace,
            start_time: self.start,
            end_time: if self.finish == 0 {
                None
            } else {
                Some(self.finish)
            },
        }
    }

    /// Enqueue the track on the guild's node. Needs a session; starts the
    /// guild's queue loop if it was absent, and returns the play command for
    /// the backend when an idle player starts on the first waiting entry.
    pub fn queue(&self, client: &mut Lavalink) -> (r: Result<Option<Command>, LavalinkError>)
        requires
            old(client).wf(),
        ensures
            final(client).wf(),
            ({
                let stepped = spec_queue_track(
                    old(client).node_map(),
                    old(client).loop_set(),
                    self.guild_id,
                    spec_track_queue(*self),
                );
                &&& final(client).node_map() == stepped.0
                &&& final(client).loop_set() == stepped.1
                &&& (match r {
                    Ok(c) => stepped.3 && c == stepped.2,
                    Err(e) => !stepped.3 && e == LavalinkError::NoSessionPresent,
                })
            }),
            final(client).connection_map() == old(client).connection_map(),
    {
        client.queue_track(self.guild_id, self.to_track_queue())
    }
}

} // verus!
