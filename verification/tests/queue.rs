use lavasnek_rs::Lavalink;
use lavasnek_rs::connection::ConnectionInfo;
use lavasnek_rs::error::LavalinkError;
use lavasnek_rs::model::Command;
use lavasnek_rs::model::Track;

fn complete_info(guild_id: u64) -> ConnectionInfo {
    ConnectionInfo {
        guild_id,
        channel_id: Some(5),
        endpoint: Some(String::from("e")),
        token: Some(String::from("t")),
        session_id: Some(String::from("s")),
    }
}

fn track(handle: &str) -> Track {
    Track { track: String::from(handle), info: None }
}

fn session(client: &mut Lavalink, guild_id: u64) {
    let cmd = client.create_session(&complete_info(guild_id)).unwrap();
    match cmd {
        Command::VoiceUpdate { guild_id: g, session_id, endpoint, token } => {
            assert_eq!(g, guild_id);
            assert_eq!(session_id, String::from("s"));
            assert_eq!(endpoint, String::from("e"));
            assert_eq!(token, String::from("t"));
        }
        _ => panic!("create_session asks the backend for a voice update"),
    }
}

fn play_target(cmd: &Command) -> String {
    match cmd {
        Command::Play { track, .. } => track.clone(),
        _ => panic!("expected a play command"),
    }
}

#[test]
fn queue_without_session_is_rejected() {
    let mut client = Lavalink::new();
    let builder = client.play(1, track("a"));
    assert_eq!(builder.queue(&mut client), Err(LavalinkError::NoSessionPresent));
    assert!(!client.guild_on_loops(1));
}

#[test]
fn first_queue_starts_loop_and_plays() {
    let mut client = Lavalink::new();
    session(&mut client, 1);
    assert!(!client.guild_on_loops(1));

    let q1 = client.play(1, track("a")).queue(&mut client).unwrap();
    assert_eq!(play_target(&q1.expect("an idle player starts at once")), String::from("a"));
    assert!(client.guild_on_loops(1));

    // A second queued track waits: no play command, the loop stays running.
    let q2 = client.play(1, track("b")).queue(&mut client).unwrap();
    assert!(q2.is_none());
    assert!(client.guild_on_loops(1));

    let node = client.get_guild_node(1).unwrap();
    assert!(node.is_on_loops);
    assert_eq!(node.queue.len(), 1);
    assert_eq!(node.queue[0].track.track, String::from("b"));
    assert_eq!(node.now_playing.as_ref().unwrap().track.track, String::from("a"));
}

#[test]
fn finish_advances_and_drains() {
    // While the loop runs, each natural finish pops the next entry and
    // plays it; the finish that finds the queue empty stops the loop.
    let mut client = Lavalink::new();
    session(&mut client, 1);
    client.play(1, track("a")).queue(&mut client).unwrap();
    client.play(1, track("b")).queue(&mut client).unwrap();

    let advanced = client.process_track_finish(1, true);
    assert_eq!(play_target(&advanced.expect("the queue advances")), String::from("b"));
    assert!(client.guild_on_loops(1));
    let node = client.get_guild_node(1).unwrap();
    assert_eq!(node.now_playing.as_ref().unwrap().track.track, String::from("b"));
    assert_eq!(node.queue.len(), 0);

    let drained = client.process_track_finish(1, true);
    assert!(drained.is_none());
    assert!(!client.guild_on_loops(1));
    let node = client.get_guild_node(1).unwrap();
    assert!(node.now_playing.is_none());
    assert!(!node.is_on_loops);
}

#[test]
fn unnatural_finish_changes_nothing() {
    // Only a natural finish acts: a replaced or stopped track leaves the
    // queue, the playing entry and the loop as they are.
    let mut client = Lavalink::new();
    session(&mut client, 1);
    client.play(1, track("a")).queue(&mut client).unwrap();
    let untouched = client.process_track_finish(1, false);
    assert!(untouched.is_none());
    assert!(client.guild_on_loops(1));
    let node = client.get_guild_node(1).unwrap();
    assert_eq!(node.now_playing.as_ref().unwrap().track.track, String::from("a"));
}

#[test]
fn skip_on_empty_queue_returns_nothing() {
    // Skip on an empty queue returns an absent value and leaves the playing
    // track unchanged.
    let mut client = Lavalink::new();
    session(&mut client, 1);
    client.play(1, track("a")).queue(&mut client).unwrap();
    assert!(client.skip(1).is_none());
    let node = client.get_guild_node(1).unwrap();
    assert_eq!(node.now_playing.as_ref().unwrap().track.track, String::from("a"));
    // Skip without a session returns nothing as well.
    let mut bare = Lavalink::new();
    assert!(bare.skip(9).is_none());
}

#[test]
fn skip_dequeues_and_issues_one_play() {
    // Skip on a non-empty queue returns the dequeued entry and exactly one
    // play command for it.
    let mut client = Lavalink::new();
    session(&mut client, 1);
    client.play(1, track("a")).queue(&mut client).unwrap();
    client.play(1, track("b")).queue(&mut client).unwrap();
    let (entry, cmd) = client.skip(1).expect("the queue holds an entry");
    assert_eq!(entry.track.track, String::from("b"));
    assert_eq!(play_target(&cmd), String::from("b"));
    let node = client.get_guild_node(1).unwrap();
    assert_eq!(node.now_playing.unwrap().track.track, String::from("b"));
    assert_eq!(node.queue.len(), 0);
    // Skipping to an empty queue does not stop the loop.
    assert!(client.guild_on_loops(1));
}

#[test]
fn node_and_loop_lifecycles_are_independent() {
    // Create a session, queue two tracks, remove the node: the loop is
    // still registered. With a node put back, a finish advances again.
    let mut client = Lavalink::new();
    session(&mut client, 1);
    client.play(1, track("a")).queue(&mut client).unwrap();
    client.play(1, track("b")).queue(&mut client).unwrap();

    client.remove_guild_node(1);
    assert!(client.get_guild_node(1).is_none());
    assert!(client.guild_on_loops(1));

    // A finish with no node changes nothing and keeps the registration.
    assert!(client.process_track_finish(1, true).is_none());
    assert!(client.guild_on_loops(1));

    // Reconnect: a fresh session and a queued track advance on finish again.
    session(&mut client, 1);
    client.play(1, track("c")).queue(&mut client).unwrap();
    client.play(1, track("d")).queue(&mut client).unwrap();
    let advanced = client.process_track_finish(1, true);
    assert_eq!(play_target(&advanced.unwrap()), String::from("d"));

    // And the other way round: leaving the loops keeps the node.
    client.remove_guild_from_loops(1);
    assert!(!client.guild_on_loops(1));
    assert!(client.get_guild_node(1).is_some());
}

#[test]
fn removing_loop_stops_advancement() {
    // After an administrative removal the playing track keeps playing but
    // nothing advances: a finish only clears the playing entry.
    let mut client = Lavalink::new();
    session(&mut client, 1);
    client.play(1, track("a")).queue(&mut client).unwrap();
    client.play(1, track("b")).queue(&mut client).unwrap();
    client.remove_guild_from_loops(1);

    assert!(client.process_track_finish(1, true).is_none());
    let node = client.get_guild_node(1).unwrap();
    assert!(node.now_playing.is_none());
    assert_eq!(node.queue.len(), 1);
}

#[test]
fn loops_restart_after_removal() {
    // The loop is restartable: a queue call after the removal registers it
    // again.
    let mut client = Lavalink::new();
    session(&mut client, 1);
    client.play(1, track("a")).queue(&mut client).unwrap();
    client.remove_guild_from_loops(1);
    assert!(!client.guild_on_loops(1));
    let q = client.play(1, track("b")).queue(&mut client).unwrap();
    assert!(client.guild_on_loops(1));
    // The player still holds track "a", so nothing new starts.
    assert!(q.is_none());
}

#[test]
fn destroy_forgets_playing_track_but_keeps_data() {
    let mut client = Lavalink::new();
    session(&mut client, 1);
    client.play(1, track("a")).queue(&mut client).unwrap();
    client.play(1, track("b")).queue(&mut client).unwrap();
    let cmd = client.destroy(1);
    assert!(matches!(cmd, Command::Destroy { guild_id: 1 }));
    // The node survives with its queue; only the playing entry is gone.
    let node = client.get_guild_node(1).unwrap();
    assert!(node.now_playing.is_none());
    assert_eq!(node.queue.len(), 1);
    assert!(client.guild_on_loops(1));
}

#[test]
fn destroy_without_node_only_commands() {
    let mut client = Lavalink::new();
    let cmd = client.destroy(4);
    assert!(matches!(cmd, Command::Destroy { guild_id: 4 }));
    assert!(client.get_guild_node(4).is_none());
}

#[test]
fn queue_advances_when_player_idle() {
    // With the loop running but nothing playing (after a destroy), the next
    // queued track starts at once.
    let mut client = Lavalink::new();
    session(&mut client, 1);
    client.play(1, track("a")).queue(&mut client).unwrap();
    client.destroy(1);
    let q = client.play(1, track("b")).queue(&mut client).unwrap();
    assert_eq!(play_target(&q.unwrap()), String::from("b"));
}
