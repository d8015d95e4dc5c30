use wasmchat::Msg;
use wasmchat::services::{
    HereNowParameters, Presence, PubnubService, TransportCommand, decode_message_event,
    decode_presence_event, encode_publish_payload, translate_message_event,
    translate_presence_event, uuid_metadata_map,
};

#[test]
fn connect_subscribes_once_with_presence() {
    let mut s = PubnubService::new();
    let empty: Vec<String> = Vec::new();
    let cmds = s.connect("room1", "alice", &empty);
    assert_eq!(cmds.len(), 3);
    assert_eq!(cmds[0], TransportCommand::SetUuid("alice".to_owned()));
    match &cmds[1] {
        TransportCommand::Subscribe(c) => {
            assert_eq!(c.channels, vec!["room1".to_owned()]);
            assert!(c.with_presence);
        }
        other => panic!("expected a subscribe, got {:?}", other),
    }
    assert_eq!(cmds[2], TransportCommand::AddListener);
}

#[test]
fn connect_already_subscribed_registers_nothing() {
    let mut s = PubnubService::new();
    let empty: Vec<String> = Vec::new();
    let first = s.connect("room1", "alice", &empty);
    let subscribes = first
        .iter()
        .filter(|c| matches!(c, TransportCommand::Subscribe(_)))
        .count();
    let listeners = first
        .iter()
        .filter(|c| matches!(c, TransportCommand::AddListener))
        .count();
    assert_eq!(subscribes, 1);
    assert_eq!(listeners, 1);
    let now = vec!["room1".to_owned()];
    let second = s.connect("room1", "alice", &now);
    assert_eq!(second, vec![TransportCommand::SetUuid("alice".to_owned())]);
}

#[test]
fn send_publishes_framed_payload() {
    let mut s = PubnubService::new();
    let empty: Vec<String> = Vec::new();
    s.connect("room1", "alice", &empty);
    let cmd = s.send_message("hi there");
    assert_eq!(
        cmd,
        Some(TransportCommand::Publish(
            "{\"channel\":\"room1\",\"message\":\"hi there\"}".to_owned()
        ))
    );
}

#[test]
fn send_without_subscription_is_noop() {
    let s = PubnubService::new();
    assert_eq!(s.send_message("hi"), None);
}

#[test]
fn send_empty_text_is_noop() {
    let mut s = PubnubService::new();
    let empty: Vec<String> = Vec::new();
    s.connect("room1", "alice", &empty);
    assert_eq!(s.send_message(""), None);
}

#[test]
fn encode_publish_payload_exact_text() {
    assert_eq!(
        encode_publish_payload("room", "hi"),
        "{\"channel\":\"room\",\"message\":\"hi\"}"
    );
    assert_eq!(encode_publish_payload("", ""), "{\"channel\":\"\",\"message\":\"\"}");
}

#[test]
fn disconnect_clears_and_unsubscribes() {
    let mut s = PubnubService::new();
    let empty: Vec<String> = Vec::new();
    s.connect("room1", "alice", &empty);
    let cmd = s.disconnect();
    match cmd {
        Some(TransportCommand::Unsubscribe(u)) => {
            assert_eq!(u.channels, vec!["room1".to_owned()]);
        }
        other => panic!("expected an unsubscribe, got {:?}", other),
    }
    assert_eq!(s.send_message("hi"), None);
}

#[test]
fn disconnect_without_subscription_is_noop() {
    let mut s = PubnubService::new();
    assert_eq!(s.disconnect(), None);
}

#[test]
fn here_now_command_carries_parameters() {
    let s = PubnubService::new();
    let params = HereNowParameters {
        channels: vec!["room1".to_owned()],
        include_uuids: true,
        include_state: false,
    };
    let cmd = s.fetch_here_now(params);
    match cmd {
        TransportCommand::HereNow(p) => {
            assert_eq!(p.channels, vec!["room1".to_owned()]);
            assert!(p.include_uuids);
            assert!(!p.include_state);
        }
        other => panic!("expected an occupancy query, got {:?}", other),
    }
}

#[test]
fn uuid_metadata_command() {
    let s = PubnubService::new();
    assert_eq!(s.fetch_uuid_metadata(), TransportCommand::GetAllUuidMetadata);
}

#[test]
fn message_event_translates_fields() {
    let msg = translate_message_event(
        Some("room1".to_owned()),
        Some("bob".to_owned()),
        Some("yo".to_owned()),
    )
    .expect("a complete event decodes");
    assert_eq!(msg.text, "yo");
    assert_eq!(msg.from, "bob");
}

#[test]
fn message_event_missing_field_is_dropped() {
    assert!(translate_message_event(Some("room1".to_owned()), Some("bob".to_owned()), None)
        .is_none());
    assert!(translate_message_event(Some("room1".to_owned()), None, Some("yo".to_owned()))
        .is_none());
    assert!(translate_message_event(None, Some("bob".to_owned()), Some("yo".to_owned()))
        .is_none());
}

#[test]
fn decode_message_event_keeps_wire_fields() {
    let pm = decode_message_event(
        Some("room1".to_owned()),
        Some("bob".to_owned()),
        Some("yo".to_owned()),
    )
    .expect("a complete event decodes");
    assert_eq!(pm.channel, "room1");
    assert_eq!(pm.publisher, "bob");
    assert_eq!(pm.message, "yo");
}

#[test]
fn presence_join_goes_online() {
    let msg = translate_presence_event(Some("carol".to_owned()), Some("join".to_owned()))
        .expect("a join translates");
    assert_eq!(msg, Msg::UserOnline("carol".to_owned()));
}

#[test]
fn presence_leave_and_timeout_go_offline() {
    let leave = translate_presence_event(Some("carol".to_owned()), Some("leave".to_owned()))
        .expect("a leave translates");
    assert_eq!(leave, Msg::UserOffline("carol".to_owned()));
    let timeout = translate_presence_event(Some("carol".to_owned()), Some("timeout".to_owned()))
        .expect("a timeout translates");
    assert_eq!(timeout, Msg::UserOffline("carol".to_owned()));
}

#[test]
fn presence_unknown_or_malformed_is_dropped() {
    assert!(translate_presence_event(Some("carol".to_owned()), Some("interval".to_owned()))
        .is_none());
    assert!(translate_presence_event(Some("carol".to_owned()), None).is_none());
    assert!(translate_presence_event(None, Some("join".to_owned())).is_none());
    assert!(decode_presence_event(None).is_none());
}

#[test]
fn metadata_map_deduplicates_identifiers() {
    let data = vec![
        Presence { uuid: "bob".to_owned() },
        Presence { uuid: "ann".to_owned() },
        Presence { uuid: "bob".to_owned() },
    ];
    let entries = uuid_metadata_map(&data);
    assert_eq!(entries.len(), 2);
    for (k, v) in &entries {
        assert_eq!(k, v);
    }
    let keys: Vec<&str> = entries.iter().map(|(k, _)| k.as_str()).collect();
    assert!(keys.contains(&"bob"));
    assert!(keys.contains(&"ann"));
}
