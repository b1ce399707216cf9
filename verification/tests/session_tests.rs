use chatcore::events::{history_snapshot, ClientEvent, ServerEvent, HISTORY_LIMIT};
use chatcore::registry::RoomRegistry;
use chatcore::room::MessageResponse;
use chatcore::session::{InboundDecision, Session, SessionAction, SessionState, TaskSide};
use chatcore::topic::MessageType;

fn streaming_session(reg: &mut RoomRegistry, room: &str, user: &str, name: &str) -> Session {
    let mut s = Session::new(room.to_string(), user.to_string());
    assert!(s.resolve_identity(Some(name.to_string())));
    s.attach(reg);
    assert_eq!(s.state(), SessionState::Streaming);
    s
}

#[test]
fn failed_identity_lookup_aborts_before_any_topic_exists() {
    let mut s = Session::new("room-1".to_string(), "user-1".to_string());
    let ok = s.resolve_identity(None);
    assert!(!ok);
    assert_eq!(s.state(), SessionState::Closed);
    assert_eq!(s.topic_handle(), None);
    assert_eq!(s.subscription_handle(), None);
}

#[test]
fn whitespace_only_chat_send_is_dropped_entirely() {
    let mut reg = RoomRegistry::new(100);
    let mut s = streaming_session(&mut reg, "room-1", "user-1", "ann");
    let watcher = {
        let h = s.topic_handle().unwrap();
        reg.subscribe(h)
    };

    let d = s.handle_client_event(&mut reg, ClientEvent::ChatSend { content: "   ".to_string() });

    // No store write is requested and no event reaches any subscriber.
    assert_eq!(d, InboundDecision::DroppedInvalid);
    let h = s.topic_handle().unwrap();
    assert!(reg.recv(h, watcher).is_none());
    assert_eq!(s.state(), SessionState::Streaming);
}

#[test]
fn chat_send_publishes_exactly_one_event_to_its_room() {
    let mut reg = RoomRegistry::new(100);
    let mut sender = streaming_session(&mut reg, "room-r", "user-u", "ann");
    let peer = streaming_session(&mut reg, "room-r", "user-v", "bob");
    let outsider = streaming_session(&mut reg, "room-other", "user-w", "cat");

    let d = sender.handle_client_event(
        &mut reg,
        ClientEvent::ChatSend { content: "hello".to_string() },
    );
    let dto = match d {
        InboundDecision::PersistChat(dto) => dto,
        other => panic!("expected a persist request, got {other:?}"),
    };
    assert_eq!(dto.room_id, "room-r");
    assert_eq!(dto.content, "hello");

    // The store acknowledges the single write; the session publishes once.
    sender.chat_persisted(
        &mut reg,
        MessageResponse {
            id: "msg-1".to_string(),
            user_name: "ann".to_string(),
            content: dto.content,
            created_at: "2024-01-01T00:00:00Z".to_string(),
        },
    );

    for session in [&sender, &peer] {
        let h = session.topic_handle().unwrap();
        let sub = session.subscription_handle().unwrap();
        let m = reg.recv(h, sub).unwrap();
        assert_eq!(m.message_type, MessageType::User);
        assert_eq!(m.id.as_deref(), Some("msg-1"));
        assert_eq!(m.user, "ann");
        assert_eq!(m.message, "hello");
        assert!(reg.recv(h, sub).is_none(), "exactly one event expected");
    }

    let h = outsider.topic_handle().unwrap();
    let sub = outsider.subscription_handle().unwrap();
    assert!(reg.recv(h, sub).is_none(), "other rooms must see nothing");
}

#[test]
fn leading_and_trailing_blanks_are_trimmed_before_persisting() {
    let mut reg = RoomRegistry::new(100);
    let mut s = streaming_session(&mut reg, "room-1", "user-1", "ann");
    let d = s.handle_client_event(
        &mut reg,
        ClientEvent::ChatSend { content: "  hello there \n".to_string() },
    );
    match d {
        InboundDecision::PersistChat(dto) => assert_eq!(dto.content, "hello there"),
        other => panic!("expected a persist request, got {other:?}"),
    }
}

#[test]
fn ping_publishes_a_pong_and_persists_nothing() {
    let mut reg = RoomRegistry::new(100);
    let mut s = streaming_session(&mut reg, "room-1", "user-1", "ann");
    let watcher = {
        let h = s.topic_handle().unwrap();
        reg.subscribe(h)
    };

    let d = s.handle_client_event(&mut reg, ClientEvent::Ping);
    assert_eq!(d, InboundDecision::PongPublished);

    let h = s.topic_handle().unwrap();
    let m = reg.recv(h, watcher).unwrap();
    assert_eq!(m.message_type, MessageType::System);
    assert_eq!(m.message, "pong");
    assert_eq!(m.user, "System");
    assert_eq!(m.id, None);
    assert_eq!(m.created_at, None);
}

#[test]
fn first_finished_task_cancels_the_other_then_shutdown_completes() {
    let mut reg = RoomRegistry::new(100);
    let mut s = streaming_session(&mut reg, "room-1", "user-1", "ann");

    // Transport closed on the outbound side: the inbound task must go.
    let a = s.task_finished(TaskSide::Outbound);
    assert_eq!(a, SessionAction::CancelInbound);
    assert_eq!(s.state(), SessionState::Closing);

    // The cancelled inbound task acknowledges.
    let b = s.task_finished(TaskSide::Inbound);
    assert_eq!(b, SessionAction::ShutdownComplete);

    s.finish(&mut reg);
    assert_eq!(s.state(), SessionState::Closed);
}

#[test]
fn inbound_close_cancels_the_outbound_task_too() {
    let mut reg = RoomRegistry::new(100);
    let mut s = streaming_session(&mut reg, "room-1", "user-1", "ann");
    let a = s.task_finished(TaskSide::Inbound);
    assert_eq!(a, SessionAction::CancelOutbound);
    let b = s.task_finished(TaskSide::Outbound);
    assert_eq!(b, SessionAction::ShutdownComplete);
}

fn record(i: usize) -> MessageResponse {
    MessageResponse {
        id: format!("id-{i}"),
        user_name: "ann".to_string(),
        content: format!("message {i}"),
        created_at: format!("t{i}"),
    }
}

#[test]
fn history_is_capped_at_the_configured_limit() {
    let many: Vec<MessageResponse> = (0..75).map(record).collect();
    match history_snapshot(many) {
        ServerEvent::History(kept) => {
            assert_eq!(kept.len(), HISTORY_LIMIT);
            // Newest-first order from the store is preserved.
            assert_eq!(kept[0].id, "id-0");
            assert_eq!(kept[HISTORY_LIMIT - 1].id, format!("id-{}", HISTORY_LIMIT - 1));
        }
        other => panic!("expected a history event, got {other:?}"),
    }
}

#[test]
fn short_history_is_passed_through_whole() {
    let few: Vec<MessageResponse> = (0..3).map(record).collect();
    match history_snapshot(few) {
        ServerEvent::History(kept) => {
            assert_eq!(kept.len(), 3);
            assert_eq!(kept[2].id, "id-2");
        }
        other => panic!("expected a history event, got {other:?}"),
    }
}

#[test]
fn a_session_subscribes_before_history_so_no_live_gap() {
    let mut reg = RoomRegistry::new(100);
    let mut early = streaming_session(&mut reg, "room-1", "user-1", "ann");

    // A message lands between this session's subscribe and its history
    // fetch: the subscription still delivers it live.
    let d = early.handle_client_event(
        &mut reg,
        ClientEvent::ChatSend { content: "in the gap".to_string() },
    );
    let dto = match d {
        InboundDecision::PersistChat(dto) => dto,
        other => panic!("expected a persist request, got {other:?}"),
    };
    early.chat_persisted(
        &mut reg,
        MessageResponse {
            id: "gap-1".to_string(),
            user_name: "ann".to_string(),
            content: dto.content,
            created_at: "t".to_string(),
        },
    );
    let h = early.topic_handle().unwrap();
    let sub = early.subscription_handle().unwrap();
    assert_eq!(reg.recv(h, sub).unwrap().message, "in the gap");
}
