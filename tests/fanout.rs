use chat_fanout::channel::{Broadcaster, Received};
use chat_fanout::clock::{rfc3339_from_unix, timestamp_now};
use chat_fanout::message::Message;
use chat_fanout::service::{rocket, stamped_message, ChatCore, DEFAULT_CAPACITY};
use chat_fanout::session::{SessionStep, StreamSession};

fn msg(room: &str, user: &str, body: &str) -> Message {
    Message::new(room.to_string(), user.to_string(), body.to_string())
}

fn emitted(step: SessionStep) -> String {
    match step {
        SessionStep::Emit(s) => s,
        SessionStep::Idle => panic!("expected an event, got Idle"),
        SessionStep::Finished => panic!("expected an event, got Finished"),
    }
}

fn timestamp_of(event: &str) -> String {
    let key = "\"timestamp\":\"";
    let start = event.find(key).expect("timestamp key") + key.len();
    let rest = &event[start..];
    let end = rest.find('"').expect("closing quote");
    rest[..end].to_string()
}

#[test]
fn lobby_two_messages_in_order() {
    let mut core = rocket();
    let mut session = core.open_stream();
    assert!(core.ingest_message("lobby".to_string(), "ann".to_string(), "hi".to_string()).is_some());
    assert!(core.ingest_message("lobby".to_string(), "bob".to_string(), "yo".to_string()).is_some());
    let first = emitted(session.poll(&mut core.channel, false));
    let second = emitted(session.poll(&mut core.channel, false));
    assert!(first.starts_with("{\"room\":\"lobby\",\"username\":\"ann\",\"message\":\"hi\",\"timestamp\":\""));
    assert!(second.starts_with("{\"room\":\"lobby\",\"username\":\"bob\",\"message\":\"yo\",\"timestamp\":\""));
    assert!(!timestamp_of(&first).is_empty());
    assert!(!timestamp_of(&second).is_empty());
    assert!(matches!(session.poll(&mut core.channel, false), SessionStep::Idle));
}

#[test]
fn ingested_message_delivered_once_with_rfc3339_timestamp() {
    let mut core = rocket();
    let mut session = core.open_stream();
    let delivered = core.ingest_message("dev".to_string(), "cy".to_string(), "build green".to_string());
    assert_eq!(delivered, Some(true));
    let event = emitted(session.poll(&mut core.channel, false));
    let ts = timestamp_of(&event);
    assert!(chrono::DateTime::parse_from_rfc3339(&ts).is_ok(), "not RFC 3339: {}", ts);
    assert!(ts.ends_with("+00:00"));
    assert!(matches!(session.poll(&mut core.channel, false), SessionStep::Idle));
    assert!(matches!(session.poll(&mut core.channel, false), SessionStep::Idle));
}

#[test]
fn late_subscriber_gets_no_backlog() {
    let mut core = rocket();
    assert!(core.ingest_message("lobby".to_string(), "ann".to_string(), "early".to_string()).is_some());
    let mut session = core.open_stream();
    assert!(matches!(session.poll(&mut core.channel, false), SessionStep::Idle));
    assert!(core.ingest_message("lobby".to_string(), "ann".to_string(), "late".to_string()).is_some());
    let event = emitted(session.poll(&mut core.channel, false));
    assert!(event.contains("\"message\":\"late\""));
    assert!(matches!(session.poll(&mut core.channel, false), SessionStep::Idle));
}

#[test]
fn publish_without_subscribers_is_not_an_error() {
    let mut core = rocket();
    assert_eq!(core.ingest_message("lobby".to_string(), "ann".to_string(), "anyone?".to_string()), Some(false));
    assert_eq!(core.channel.sent_count(), 1);
    assert_eq!(core.rooms.history_len(&"lobby".to_string()), 1);
}

#[test]
fn slow_receiver_observes_lag_then_oldest_retained() {
    let mut bc = Broadcaster::new(4);
    let mut rx = bc.subscribe();
    for i in 0..10 {
        bc.publish(msg("r", "u", &format!("m{}", i)));
    }
    match bc.recv(&mut rx) {
        Received::Lagged(n) => assert_eq!(n, 6),
        _ => panic!("expected a lag report"),
    }
    assert_eq!(rx.position(), 6);
    match bc.recv(&mut rx) {
        Received::Message(m) => assert_eq!(m.message, "m6"),
        _ => panic!("expected a message"),
    }
    for i in 7..10 {
        match bc.recv(&mut rx) {
            Received::Message(m) => assert_eq!(m.message, format!("m{}", i)),
            _ => panic!("expected a message"),
        }
    }
    assert!(matches!(bc.recv(&mut rx), Received::Empty));
}

#[test]
fn session_skips_lag_at_default_capacity() {
    let mut core = rocket();
    assert_eq!(core.channel.capacity(), DEFAULT_CAPACITY);
    let mut session = core.open_stream();
    for i in 0..(DEFAULT_CAPACITY + 6) {
        assert!(core.ingest_message("flood".to_string(), "bot".to_string(), format!("n{}", i)).is_some());
    }
    let event = emitted(session.poll(&mut core.channel, false));
    assert!(event.contains("\"message\":\"n6\""), "{}", event);
    let next = emitted(session.poll(&mut core.channel, false));
    assert!(next.contains("\"message\":\"n7\""));
    assert!(session.is_active());
}

#[test]
fn delete_room_reports_found_and_recreates_fresh() {
    let mut core = rocket();
    let lobby = "lobby".to_string();
    assert!(!core.delete_room(&lobby));
    assert!(core.ingest_message("lobby".to_string(), "ann".to_string(), "one".to_string()).is_some());
    assert!(core.ingest_message("lobby".to_string(), "ann".to_string(), "two".to_string()).is_some());
    assert_eq!(core.rooms.history_len(&lobby), 2);
    assert!(core.delete_room(&lobby));
    assert!(!core.rooms.contains_room(&lobby));
    assert!(!core.delete_room(&lobby));
    assert!(core.ingest_message("lobby".to_string(), "bob".to_string(), "three".to_string()).is_some());
    assert_eq!(core.rooms.history_len(&lobby), 1);
}

#[test]
fn delete_room_keeps_inflight_messages() {
    let mut core = rocket();
    let mut session = core.open_stream();
    assert!(core.ingest_message("gone".to_string(), "ann".to_string(), "still here".to_string()).is_some());
    assert!(core.delete_room(&"gone".to_string()));
    let event = emitted(session.poll(&mut core.channel, false));
    assert!(event.contains("\"message\":\"still here\""));
}

#[test]
fn cancelled_session_emits_nothing_more() {
    let mut core = rocket();
    let mut session = core.open_stream();
    assert_eq!(core.channel.subscriber_count(), 1);
    assert!(core.ingest_message("lobby".to_string(), "ann".to_string(), "pending".to_string()).is_some());
    assert!(matches!(session.poll(&mut core.channel, true), SessionStep::Finished));
    assert!(!session.is_active());
    assert_eq!(core.channel.subscriber_count(), 0);
    assert!(core.ingest_message("lobby".to_string(), "ann".to_string(), "later".to_string()).is_some());
    assert!(matches!(session.poll(&mut core.channel, false), SessionStep::Finished));
}

#[test]
fn rooms_keep_their_own_histories() {
    let mut core = rocket();
    for i in 0..5 {
        assert!(core.ingest_message("a".to_string(), "x".to_string(), format!("a{}", i)).is_some());
        assert!(core.ingest_message("b".to_string(), "y".to_string(), format!("b{}", i)).is_some());
    }
    assert!(core.ingest_message("a".to_string(), "x".to_string(), "extra".to_string()).is_some());
    assert_eq!(core.rooms.history_len(&"a".to_string()), 6);
    assert_eq!(core.rooms.history_len(&"b".to_string()), 5);
    assert_eq!(core.rooms.history_len(&"c".to_string()), 0);
}

#[test]
fn closed_channel_drains_then_reports_closed() {
    let mut bc = Broadcaster::new(8);
    let mut s = StreamSession::open(&mut bc);
    bc.publish(msg("r", "u", "last"));
    bc.close();
    assert!(bc.is_closed());
    assert!(!bc.publish(msg("r", "u", "dropped")));
    let event = emitted(s.poll(&mut bc, false));
    assert!(event.contains("\"message\":\"last\""));
    assert!(matches!(s.poll(&mut bc, false), SessionStep::Finished));
    assert!(!s.is_active());
    assert_eq!(bc.subscriber_count(), 0);
}

#[test]
fn event_json_escapes_exactly() {
    let mut m = msg("q\"r", "back\\slash", "line\nbreak\ttab\r\u{1}\u{1f}\u{8}\u{c}é");
    assert_eq!(
        m.to_event_json(),
        "{\"room\":\"q\\\"r\",\"username\":\"back\\\\slash\",\"message\":\"line\\nbreak\\ttab\\r\\u0001\\u001f\\b\\fé\",\"timestamp\":null}"
    );
    m.timestamp = Some("2024-01-02T03:04:05+00:00".to_string());
    assert_eq!(
        m.to_event_json(),
        "{\"room\":\"q\\\"r\",\"username\":\"back\\\\slash\",\"message\":\"line\\nbreak\\ttab\\r\\u0001\\u001f\\b\\fé\",\"timestamp\":\"2024-01-02T03:04:05+00:00\"}"
    );
}

#[test]
fn accept_overwrites_client_timestamp() {
    let mut core = ChatCore::with_capacity(2);
    let mut session = core.open_stream();
    let mut m = msg("lobby", "ann", "hi");
    m.timestamp = Some("client".to_string());
    assert!(core.accept(m, "2024-05-06T07:08:09+00:00".to_string()));
    let event = emitted(session.poll(&mut core.channel, false));
    assert_eq!(
        event,
        "{\"room\":\"lobby\",\"username\":\"ann\",\"message\":\"hi\",\"timestamp\":\"2024-05-06T07:08:09+00:00\"}"
    );
}

#[test]
fn name_length_limits() {
    assert!(msg(&"r".repeat(29), &"u".repeat(19), "").has_valid_names());
    assert!(!msg(&"r".repeat(30), "u", "").has_valid_names());
    assert!(!msg("r", &"u".repeat(20), "").has_valid_names());
    assert!(msg("", "", "").has_valid_names());
}

#[test]
fn duplicate_is_identical() {
    let mut m = msg("lobby", "ann", "hi");
    m.timestamp = Some("t".to_string());
    let d = m.duplicate();
    assert_eq!(d.room, "lobby");
    assert_eq!(d.username, "ann");
    assert_eq!(d.message, "hi");
    assert_eq!(d.timestamp, Some("t".to_string()));
}

#[test]
fn timestamp_now_has_rfc3339_utc_form() {
    let ts = timestamp_now().expect("system clock after 1970");
    assert!(chrono::DateTime::parse_from_rfc3339(&ts).is_ok(), "not RFC 3339: {}", ts);
    let b: Vec<char> = ts.chars().collect();
    assert!([25, 29, 32, 35].contains(&b.len()), "{}", ts);
    assert_eq!((b[4], b[7], b[10], b[13], b[16]), ('-', '-', 'T', ':', ':'));
    assert!(ts.ends_with("+00:00"));
    let year: i32 = ts[..4].parse().unwrap();
    assert!(year >= 2020);
}

#[test]
fn rfc3339_from_unix_exact_texts() {
    assert_eq!(rfc3339_from_unix(0, 0), Some("1970-01-01T00:00:00+00:00".to_string()));
    assert_eq!(rfc3339_from_unix(1431648000, 123_000_000), Some("2015-05-15T00:00:00.123+00:00".to_string()));
    assert_eq!(rfc3339_from_unix(1431648000, 123_456_000), Some("2015-05-15T00:00:00.123456+00:00".to_string()));
    assert_eq!(rfc3339_from_unix(1431648001, 1), Some("2015-05-15T00:00:01.000000001+00:00".to_string()));
    assert_eq!(rfc3339_from_unix(253402300799, 0), Some("9999-12-31T23:59:59+00:00".to_string()));
    assert_eq!(rfc3339_from_unix(253402300800, 0), None);
    assert_eq!(rfc3339_from_unix(u64::MAX, 0), None);
}

#[test]
fn stamped_message_replaces_timestamp() {
    let mut m = msg("lobby", "ann", "hi");
    m.timestamp = Some("client".to_string());
    let s = stamped_message(m, "1970-01-01T00:00:00+00:00".to_string());
    assert_eq!(s.room, "lobby");
    assert_eq!(s.username, "ann");
    assert_eq!(s.message, "hi");
    assert_eq!(s.timestamp, Some("1970-01-01T00:00:00+00:00".to_string()));
}
