use wasmchat::{Message, Model, Msg};
use wasmchat::services::{
    ChannelOccupancy, ChatError, HereNowResponse, Occupants, TransportCommand,
};

fn no_subs() -> Vec<String> {
    Vec::new()
}

fn occupancy_with(topic: &str, uuids: &[&str]) -> HereNowResponse {
    HereNowResponse {
        total_channels: Some(1),
        total_occupancy: Some(uuids.len() as u32),
        channels: Some(vec![ChannelOccupancy {
            name: topic.to_owned(),
            occupancy: Some(uuids.len() as u32),
            occupants: Some(
                uuids
                    .iter()
                    .map(|u| Occupants { uuid: (*u).to_owned(), state: None })
                    .collect(),
            ),
        }]),
    }
}

#[test]
fn scenario_connect_then_occupancy() {
    let mut m = Model::new("room1".to_owned());
    assert!(!m.is_connected());
    let cmds = m.update(Msg::EnterName("alice".to_owned()), &no_subs());
    assert!(cmds.is_empty());
    let cmds = m.update(Msg::Connect, &no_subs());
    assert!(m.is_connected());
    assert_eq!(cmds.len(), 4);
    assert_eq!(cmds[0], TransportCommand::SetUuid("alice".to_owned()));
    match &cmds[1] {
        TransportCommand::Subscribe(c) => {
            assert_eq!(c.channels, vec!["room1".to_owned()]);
            assert!(c.with_presence);
        }
        other => panic!("expected a subscribe, got {:?}", other),
    }
    assert_eq!(cmds[2], TransportCommand::AddListener);
    match &cmds[3] {
        TransportCommand::HereNow(p) => {
            assert_eq!(p.channels, vec!["room1".to_owned()]);
            assert!(p.include_uuids);
            assert!(!p.include_state);
        }
        other => panic!("expected an occupancy query, got {:?}", other),
    }
    assert!(m.users.is_empty());
    let cmds = m.update(
        Msg::HereNowFetched(Ok(occupancy_with("room1", &["alice"]))),
        &no_subs(),
    );
    assert!(cmds.is_empty());
    assert_eq!(m.users, vec!["alice".to_owned()]);
}

#[test]
fn scenario_draft_send_receive() {
    let mut m = Model::new("room1".to_owned());
    m.update(Msg::EnterName("alice".to_owned()), &no_subs());
    m.update(Msg::Connect, &no_subs());
    m.update(Msg::UpdatePendingText("hi".to_owned()), &no_subs());
    let cmds = m.update(Msg::SendChat, &no_subs());
    assert_eq!(m.pending_text, "");
    assert_eq!(cmds.len(), 1);
    assert_eq!(
        cmds[0],
        TransportCommand::Publish("{\"channel\":\"room1\",\"message\":\"hi\"}".to_owned())
    );
    let cmds = m.update(
        Msg::AddMessage(Message { text: "hi".to_owned(), from: "alice".to_owned() }),
        &no_subs(),
    );
    assert!(cmds.is_empty());
    assert_eq!(m.messages.len(), 1);
    assert_eq!(m.messages[0].text, "hi");
    assert_eq!(m.messages[0].from, "alice");
}

#[test]
fn scenario_presence_leave_is_safe() {
    let mut m = Model::new("room1".to_owned());
    m.update(Msg::UserOnline("carol".to_owned()), &no_subs());
    assert_eq!(m.users, vec!["carol".to_owned()]);
    m.update(Msg::UserOffline("carol".to_owned()), &no_subs());
    assert!(m.users.is_empty());
    m.update(Msg::UserOffline("carol".to_owned()), &no_subs());
    assert!(m.users.is_empty());
}

#[test]
fn online_users_never_duplicated() {
    let mut m = Model::new("room1".to_owned());
    m.update(Msg::UserOnline("bob".to_owned()), &no_subs());
    m.update(Msg::UserOnline("bob".to_owned()), &no_subs());
    assert_eq!(m.users, vec!["bob".to_owned()]);
    m.update(Msg::UserOnline("ann".to_owned()), &no_subs());
    m.update(Msg::UserOffline("zed".to_owned()), &no_subs());
    assert_eq!(m.users, vec!["bob".to_owned(), "ann".to_owned()]);
}

#[test]
fn reconciliation_counts_user_once() {
    let mut m = Model::new("room1".to_owned());
    m.update(Msg::UserOnline("bob".to_owned()), &no_subs());
    m.update(
        Msg::HereNowFetched(Ok(occupancy_with("room1", &["bob", "ann"]))),
        &no_subs(),
    );
    let bobs = m.users.iter().filter(|u| u.as_str() == "bob").count();
    assert_eq!(bobs, 1);
    assert_eq!(m.users, vec!["bob".to_owned(), "ann".to_owned()]);
}

#[test]
fn message_log_keeps_arrival_order() {
    let mut m = Model::new("room1".to_owned());
    for (text, from) in [("one", "a"), ("two", "b"), ("three", "a")] {
        m.update(
            Msg::AddMessage(Message { text: text.to_owned(), from: from.to_owned() }),
            &no_subs(),
        );
    }
    let texts: Vec<&str> = m.messages.iter().map(|msg| msg.text.as_str()).collect();
    assert_eq!(texts, vec!["one", "two", "three"]);
}

#[test]
fn occupancy_failure_changes_nothing() {
    for err in [
        ChatError::SerializationError,
        ChatError::TransportError,
        ChatError::PreconditionViolation,
    ] {
        let mut m = Model::new("room1".to_owned());
        m.update(Msg::UserOnline("bob".to_owned()), &no_subs());
        let cmds = m.update(Msg::HereNowFetched(Err(err)), &no_subs());
        assert!(cmds.is_empty());
        assert_eq!(m.users, vec!["bob".to_owned()]);
    }
}

#[test]
fn occupancy_for_other_topic_is_ignored() {
    let mut m = Model::new("room1".to_owned());
    let cmds = m.update(
        Msg::HereNowFetched(Ok(occupancy_with("lobby", &["eve"]))),
        &no_subs(),
    );
    assert!(cmds.is_empty());
    assert!(m.users.is_empty());
}

#[test]
fn occupancy_without_channels_is_ignored() {
    let mut m = Model::new("room1".to_owned());
    let resp = HereNowResponse { total_channels: None, total_occupancy: None, channels: None };
    m.update(Msg::HereNowFetched(Ok(resp)), &no_subs());
    assert!(m.users.is_empty());
}

#[test]
fn connect_with_empty_identity_is_noop() {
    let mut m = Model::new("room1".to_owned());
    let cmds = m.update(Msg::Connect, &no_subs());
    assert!(cmds.is_empty());
    assert!(!m.is_connected());
}

#[test]
fn connect_twice_is_noop_at_controller() {
    let mut m = Model::new("room1".to_owned());
    m.update(Msg::EnterName("alice".to_owned()), &no_subs());
    let first = m.update(Msg::Connect, &no_subs());
    assert_eq!(first.len(), 4);
    let now = vec!["room1".to_owned()];
    let second = m.update(Msg::Connect, &now);
    assert!(second.is_empty());
}

#[test]
fn identity_locked_after_connect() {
    let mut m = Model::new("room1".to_owned());
    m.update(Msg::EnterName("alice".to_owned()), &no_subs());
    m.update(Msg::Connect, &no_subs());
    m.update(Msg::EnterName("mallory".to_owned()), &no_subs());
    assert_eq!(m.alias, "alice");
    assert_eq!(m.this_user, "alice");
}

#[test]
fn send_with_empty_draft_is_noop() {
    let mut m = Model::new("room1".to_owned());
    m.update(Msg::EnterName("alice".to_owned()), &no_subs());
    m.update(Msg::Connect, &no_subs());
    let cmds = m.update(Msg::SendChat, &no_subs());
    assert!(cmds.is_empty());
}

#[test]
fn send_before_connect_keeps_draft() {
    let mut m = Model::new("room1".to_owned());
    m.update(Msg::UpdatePendingText("hello".to_owned()), &no_subs());
    let cmds = m.update(Msg::SendChat, &no_subs());
    assert!(cmds.is_empty());
    assert_eq!(m.pending_text, "hello");
}

#[test]
fn teardown_unsubscribes_once() {
    let mut m = Model::new("room1".to_owned());
    m.update(Msg::EnterName("alice".to_owned()), &no_subs());
    m.update(Msg::Connect, &no_subs());
    let cmds = m.update(Msg::Teardown, &no_subs());
    assert_eq!(cmds.len(), 1);
    match &cmds[0] {
        TransportCommand::Unsubscribe(u) => {
            assert_eq!(u.channels, vec!["room1".to_owned()]);
        }
        other => panic!("expected an unsubscribe, got {:?}", other),
    }
    let cmds = m.update(Msg::Teardown, &no_subs());
    assert!(cmds.is_empty());
}

#[test]
fn noop_intent_changes_nothing() {
    let mut m = Model::new("room1".to_owned());
    m.update(Msg::UserOnline("bob".to_owned()), &no_subs());
    let cmds = m.update(Msg::NoOp, &no_subs());
    assert!(cmds.is_empty());
    assert_eq!(m.users, vec!["bob".to_owned()]);
    assert_eq!(m.messages.len(), 0);
}

#[test]
fn fetch_here_now_intent_issues_query() {
    let mut m = Model::new("room1".to_owned());
    let cmds = m.update(Msg::FetchHereNow, &no_subs());
    assert_eq!(cmds.len(), 1);
    match &cmds[0] {
        TransportCommand::HereNow(p) => {
            assert_eq!(p.channels, vec!["room1".to_owned()]);
            assert!(p.include_uuids);
            assert!(!p.include_state);
        }
        other => panic!("expected an occupancy query, got {:?}", other),
    }
}
