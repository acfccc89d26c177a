use lavasnek_rs::Lavalink;
use lavasnek_rs::VoiceStateOutcome;
use lavasnek_rs::connection::ConnectionInfo;
use lavasnek_rs::connection::RemovalPoll;
use lavasnek_rs::connection::RemovalStart;
use lavasnek_rs::connection::WaitPoll;
use lavasnek_rs::connection::WaitStart;
use lavasnek_rs::error::ConnectionField;
use lavasnek_rs::error::LavalinkError;

fn complete_info(guild_id: u64) -> ConnectionInfo {
    ConnectionInfo {
        guild_id,
        channel_id: Some(5),
        endpoint: Some(String::from("e")),
        token: Some(String::from("t")),
        session_id: Some(String::from("s")),
    }
}

#[test]
fn server_then_state_completes_descriptor() {
    // Ingest voice_server_update(guild=1, endpoint="e", token="t"), then
    // voice_state_update(guild=1, user=9, session="s", channel=5): the wait
    // returns the full descriptor at once.
    let mut client = Lavalink::new();
    client.raw_handle_event_voice_server_update(1, String::from("e"), String::from("t"));
    let outcome =
        client.raw_handle_event_voice_state_update(1, 9, String::from("s"), Some(5));
    assert!(matches!(outcome, VoiceStateOutcome::Updated));

    match client.wait_for_full_connection_info_insert(1, Some(10)) {
        WaitStart::Complete(ci) => {
            assert_eq!(ci.guild_id, 1);
            assert_eq!(ci.channel_id, Some(5));
            assert_eq!(ci.endpoint, Some(String::from("e")));
            assert_eq!(ci.token, Some(String::from("t")));
            assert_eq!(ci.session_id, Some(String::from("s")));
        }
        _ => panic!("descriptor should be complete"),
    }
}

#[test]
fn state_then_server_completes_descriptor() {
    // The two sources may arrive in either order.
    let mut client = Lavalink::new();
    client.raw_handle_event_voice_state_update(7, 9, String::from("sess"), Some(42));
    client.raw_handle_event_voice_server_update(7, String::from("host"), String::from("tok"));
    match client.wait_for_full_connection_info_insert(7, None) {
        WaitStart::Complete(ci) => {
            assert_eq!(ci.channel_id, Some(42));
            assert_eq!(ci.session_id, Some(String::from("sess")));
        }
        _ => panic!("descriptor should be complete"),
    }
}

#[test]
fn one_source_is_not_complete() {
    // A descriptor with only the voice-server half is not complete.
    let mut client = Lavalink::new();
    client.raw_handle_event_voice_server_update(1, String::from("e"), String::from("t"));
    match client.wait_for_full_connection_info_insert(1, Some(10)) {
        WaitStart::Wait(w) => {
            assert_eq!(w.guild_id, 1);
            assert_eq!(w.remaining, 10);
        }
        _ => panic!("descriptor should not be complete"),
    }
    // The voice-state half alone is not complete either.
    let mut other = Lavalink::new();
    other.raw_handle_event_voice_state_update(1, 9, String::from("s"), Some(5));
    assert!(matches!(
        other.wait_for_full_connection_info_insert(1, Some(10)),
        WaitStart::Wait(_)
    ));
}

#[test]
fn wait_times_out_after_event_budget() {
    // With a budget of three relevant events and a descriptor that never
    // completes, the third poll reports the timeout.
    let mut client = Lavalink::new();
    client.raw_handle_event_voice_server_update(1, String::from("e"), String::from("t"));
    let mut waiter = match client.wait_for_full_connection_info_insert(1, Some(3)) {
        WaitStart::Wait(w) => w,
        _ => panic!("descriptor should not be complete"),
    };
    client.raw_handle_event_voice_server_update(1, String::from("e2"), String::from("t2"));
    assert!(matches!(
        waiter.note_event(client.current_connection_info(1)),
        WaitPoll::Pending
    ));
    client.raw_handle_event_voice_server_update(1, String::from("e3"), String::from("t3"));
    assert!(matches!(
        waiter.note_event(client.current_connection_info(1)),
        WaitPoll::Pending
    ));
    client.raw_handle_event_voice_server_update(1, String::from("e4"), String::from("t4"));
    assert!(matches!(
        waiter.note_event(client.current_connection_info(1)),
        WaitPoll::TimedOut
    ));
}

#[test]
fn wait_sees_completion_midway() {
    // The wait returns as soon as the missing half arrives.
    let mut client = Lavalink::new();
    client.raw_handle_event_voice_server_update(1, String::from("e"), String::from("t"));
    let mut waiter = match client.wait_for_full_connection_info_insert(1, Some(10)) {
        WaitStart::Wait(w) => w,
        _ => panic!("descriptor should not be complete"),
    };
    client.raw_handle_event_voice_state_update(1, 9, String::from("s"), Some(5));
    match waiter.note_event(client.current_connection_info(1)) {
        WaitPoll::Ready(ci) => assert_eq!(ci.channel_id, Some(5)),
        _ => panic!("the descriptor completed"),
    }
}

#[test]
fn default_event_budget_is_ten() {
    let mut client = Lavalink::new();
    client.raw_handle_event_voice_server_update(1, String::from("e"), String::from("t"));
    match client.wait_for_full_connection_info_insert(1, None) {
        WaitStart::Wait(w) => assert_eq!(w.remaining, 10),
        _ => panic!("descriptor should not be complete"),
    }
    match client.wait_for_connection_info_remove(1, None) {
        RemovalStart::Wait(w) => assert_eq!(w.remaining, 10),
        _ => panic!("descriptor exists"),
    }
}

#[test]
fn zero_event_budget_times_out_at_once() {
    let mut client = Lavalink::new();
    client.raw_handle_event_voice_server_update(1, String::from("e"), String::from("t"));
    assert!(matches!(
        client.wait_for_full_connection_info_insert(1, Some(0)),
        WaitStart::TimedOut
    ));
}

#[test]
fn disconnect_removes_descriptor() {
    // A voice-state event without a channel is a voluntary disconnect: the
    // descriptor is removed, and completion starts over.
    let mut client = Lavalink::new();
    client.raw_handle_event_voice_server_update(1, String::from("e"), String::from("t"));
    client.raw_handle_event_voice_state_update(1, 9, String::from("s"), Some(5));
    let outcome = client.raw_handle_event_voice_state_update(1, 9, String::from("s"), None);
    assert!(matches!(outcome, VoiceStateOutcome::Disconnected));
    assert!(client.get_guild_gateway_connection_info(1).is_none());
    assert!(matches!(
        client.wait_for_full_connection_info_insert(1, Some(10)),
        WaitStart::Wait(_)
    ));
}

#[test]
fn wait_for_removal_returns_when_gone() {
    let mut client = Lavalink::new();
    client.raw_handle_event_voice_server_update(1, String::from("e"), String::from("t"));
    let mut waiter = match client.wait_for_connection_info_remove(1, Some(5)) {
        RemovalStart::Wait(w) => w,
        _ => panic!("descriptor exists"),
    };
    client.raw_handle_event_voice_server_update(1, String::from("e2"), String::from("t2"));
    assert!(matches!(
        waiter.note_event(client.current_connection_info(1)),
        RemovalPoll::Pending
    ));
    client.remove_guild_gateway_connection_info(1);
    assert!(matches!(
        waiter.note_event(client.current_connection_info(1)),
        RemovalPoll::Removed
    ));
    // Once removed, a new wait returns at once.
    assert!(matches!(
        client.wait_for_connection_info_remove(1, Some(5)),
        RemovalStart::AlreadyRemoved
    ));
}

#[test]
fn wait_for_removal_times_out() {
    let mut client = Lavalink::new();
    client.raw_handle_event_voice_server_update(1, String::from("e"), String::from("t"));
    let mut waiter = match client.wait_for_connection_info_remove(1, Some(1)) {
        RemovalStart::Wait(w) => w,
        _ => panic!("descriptor exists"),
    };
    client.raw_handle_event_voice_server_update(1, String::from("e2"), String::from("t2"));
    assert!(matches!(
        waiter.note_event(client.current_connection_info(1)),
        RemovalPoll::TimedOut
    ));
}

#[test]
fn removal_is_idempotent() {
    let mut client = Lavalink::new();
    client.remove_guild_gateway_connection_info(1);
    client.raw_handle_event_voice_server_update(1, String::from("e"), String::from("t"));
    client.remove_guild_gateway_connection_info(1);
    client.remove_guild_gateway_connection_info(1);
    assert!(client.get_guild_gateway_connection_info(1).is_none());
}

#[test]
fn incomplete_session_names_missing_field() {
    // Session creation with an incomplete descriptor fails and names a
    // missing field; the fields are reported in a fixed order.
    let mut client = Lavalink::new();
    let mut ci = complete_info(1);
    ci.endpoint = None;
    match client.create_session(&ci) {
        Err(LavalinkError::MissingField(f)) => assert_eq!(f, ConnectionField::Endpoint),
        _ => panic!("an incomplete descriptor is rejected"),
    }
    let mut ci2 = complete_info(1);
    ci2.session_id = None;
    match client.create_session(&ci2) {
        Err(LavalinkError::MissingField(f)) => assert_eq!(f, ConnectionField::SessionId),
        _ => panic!("an incomplete descriptor is rejected"),
    }
    let mut ci3 = complete_info(1);
    ci3.channel_id = None;
    match client.create_session(&ci3) {
        Err(LavalinkError::MissingField(f)) => assert_eq!(f, ConnectionField::ChannelId),
        _ => panic!("an incomplete descriptor is rejected"),
    }
    let mut ci4 = complete_info(1);
    ci4.token = None;
    match client.create_session(&ci4) {
        Err(LavalinkError::MissingField(f)) => assert_eq!(f, ConnectionField::Token),
        _ => panic!("an incomplete descriptor is rejected"),
    }
    // And nothing was installed by the failed attempts.
    assert!(client.get_guild_node(1).is_none());
}

#[test]
fn descriptors_are_per_guild() {
    let mut client = Lavalink::new();
    client.raw_handle_event_voice_server_update(1, String::from("e1"), String::from("t1"));
    client.raw_handle_event_voice_server_update(2, String::from("e2"), String::from("t2"));
    let one = client.get_guild_gateway_connection_info(1).unwrap();
    let two = client.get_guild_gateway_connection_info(2).unwrap();
    assert_eq!(one.endpoint, Some(String::from("e1")));
    assert_eq!(two.endpoint, Some(String::from("e2")));
}
