use lavasnek_rs::Lavalink;
use lavasnek_rs::builders::LavalinkBuilder;
use lavasnek_rs::error::LavalinkError;
use lavasnek_rs::model::Command;
use lavasnek_rs::model::Track;

fn track(handle: &str) -> Track {
    Track { track: String::from(handle), info: None }
}

#[test]
fn builder_defaults() {
    let b = LavalinkBuilder::new(99, String::from("token"));
    assert_eq!(b.host, String::from("127.0.0.1"));
    assert_eq!(b.port, 2333);
    assert_eq!(b.password, String::from("youshallnotpass"));
    assert_eq!(b.shard_count, 1);
    assert_eq!(b.bot_id, 99);
    assert_eq!(b.bot_token, String::from("token"));
    assert!(!b.is_ssl);
    assert!(b.start_gateway);
    assert_eq!(b.gateway_start_wait_time_millis, 6000);
}

#[test]
fn builder_setters_chain() {
    let b = LavalinkBuilder::new(1, String::from("t"))
        .set_host(String::from("example.test"))
        .set_port(8080)
        .set_password(String::from("pw"))
        .set_shard_count(4)
        .set_bot_id(2)
        .set_bot_token(String::from("t2"))
        .set_is_ssl(true)
        .set_start_gateway(false)
        .set_gateway_start_wait_time_secs(2);
    assert_eq!(b.host, String::from("example.test"));
    assert_eq!(b.port, 8080);
    assert_eq!(b.password, String::from("pw"));
    assert_eq!(b.shard_count, 4);
    assert_eq!(b.bot_id, 2);
    assert_eq!(b.bot_token, String::from("t2"));
    assert!(b.is_ssl);
    assert!(!b.start_gateway);
    assert_eq!(b.gateway_start_wait_time_millis, 2000);

    let b = b.set_gateway_start_wait_time_millis(250).set_addr(String::from("10.0.0.1"), 2334);
    assert_eq!(b.gateway_start_wait_time_millis, 250);
    assert_eq!(b.host, String::from("10.0.0.1"));
    assert_eq!(b.port, 2334);
}

#[test]
fn build_yields_empty_coordinator() {
    let client = LavalinkBuilder::new(1, String::from("t")).build();
    assert!(client.get_guild_node(1).is_none());
    assert!(!client.guild_on_loops(1));
    assert!(client.get_guild_gateway_connection_info(1).is_none());
}

#[test]
fn finish_zero_yields_no_end_time() {
    // Building a queue entry with finish = 0 yields no end time; any other
    // finish yields that end time.
    let client = Lavalink::new();
    let entry = client.play(1, track("a")).to_track_queue();
    assert_eq!(entry.end_time, None);
    assert_eq!(entry.start_time, 0);
    assert_eq!(entry.requester, None);
    assert_eq!(entry.track.track, String::from("a"));

    let entry = client.play(1, track("a")).finish_time_millis(90000).to_track_queue();
    assert_eq!(entry.end_time, Some(90000));

    let entry = client.play(1, track("a")).finish_time_secs(90).to_track_queue();
    assert_eq!(entry.end_time, Some(90000));

    let entry = client.play(1, track("a")).finish_time_millis(0).to_track_queue();
    assert_eq!(entry.end_time, None);
}

#[test]
fn play_parameters_flow_into_entry() {
    let client = Lavalink::new();
    let entry = client
        .play(1, track("a"))
        .requester(42)
        .start_time_secs(3)
        .finish_time_millis(5500)
        .to_track_queue();
    assert_eq!(entry.requester, Some(42));
    assert_eq!(entry.start_time, 3000);
    assert_eq!(entry.end_time, Some(5500));
}

#[test]
fn start_issues_play_command() {
    let client = Lavalink::new();
    let cmd = client.play(7, track("h")).start_time_millis(10).replace(true).start();
    match cmd {
        Command::Play { guild_id, track, no_replace, start_time, end_time } => {
            assert_eq!(guild_id, 7);
            assert_eq!(track, String::from("h"));
            assert!(!no_replace);
            assert_eq!(start_time, 10);
            assert_eq!(end_time, None);
        }
        _ => panic!("expected a play command"),
    }
    // By default the playing track is not replaced.
    let cmd = client.play(7, track("h")).start();
    assert!(matches!(cmd, Command::Play { no_replace: true, .. }));
}

#[test]
fn start_needs_no_session() {
    // Unlike queueing, firing a play command directly does not need a node.
    let mut client = Lavalink::new();
    let b = client.play(1, track("a"));
    let cmd = b.start();
    assert!(matches!(cmd, Command::Play { .. }));
    assert_eq!(b.queue(&mut client), Err(LavalinkError::NoSessionPresent));
}

#[test]
fn error_descriptions() {
    assert_eq!(
        LavalinkError::Timeout.describe(),
        "timed out waiting on the connection info"
    );
    assert_eq!(
        LavalinkError::NoSessionPresent.describe(),
        "no session is present; call create_session first"
    );
    assert_eq!(
        LavalinkError::NetworkError.describe(),
        "the request to the audio backend failed"
    );
    assert_eq!(
        LavalinkError::MissingField(lavasnek_rs::error::ConnectionField::Token).describe(),
        "a connection info field is missing"
    );
}
