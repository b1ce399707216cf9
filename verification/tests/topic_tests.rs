use chatcore::topic::{ChatMessage, MessageType, Topic};

fn user_msg(id: &str, user: &str, text: &str, at: &str) -> ChatMessage {
    ChatMessage {
        message_type: MessageType::User,
        id: Some(id.to_string()),
        user: user.to_string(),
        message: text.to_string(),
        created_at: Some(at.to_string()),
    }
}

#[test]
fn publish_order_is_seen_by_every_early_subscriber() {
    let mut t = Topic::new("room-1".to_string(), 100);
    let a = t.subscribe();
    let b = t.subscribe();

    t.publish(user_msg("1", "ann", "first", "t1"));
    t.publish(user_msg("2", "bob", "second", "t2"));
    t.publish(user_msg("3", "ann", "third", "t3"));

    for sub in [a, b] {
        let m1 = t.recv(sub).unwrap();
        let m2 = t.recv(sub).unwrap();
        let m3 = t.recv(sub).unwrap();
        assert_eq!(m1.message, "first");
        assert_eq!(m2.message, "second");
        assert_eq!(m3.message, "third");
        assert!(t.recv(sub).is_none());
    }
}

#[test]
fn late_subscription_never_observes_earlier_events() {
    let mut t = Topic::new("room-1".to_string(), 100);
    t.publish(user_msg("1", "ann", "before-a", "t1"));
    t.publish(user_msg("2", "ann", "before-b", "t2"));

    let s = t.subscribe();
    assert!(t.recv(s).is_none());

    t.publish(user_msg("3", "bob", "after", "t3"));
    let m = t.recv(s).unwrap();
    assert_eq!(m.message, "after");
    assert!(t.recv(s).is_none());
}

#[test]
fn publish_with_zero_subscribers_returns_normally() {
    let mut t = Topic::new("lonely-room".to_string(), 100);
    t.publish(user_msg("1", "ann", "anyone here?", "t1"));
    t.publish(user_msg("2", "ann", "hello?", "t2"));
    assert_eq!(t.open_subscriptions(), 0);
}

#[test]
fn slow_subscriber_drops_oldest_and_continues() {
    let mut t = Topic::new("room-1".to_string(), 2);
    let s = t.subscribe();

    for i in 0..5 {
        t.publish(user_msg(&i.to_string(), "ann", &format!("m{i}"), "t"));
    }

    // Five events, buffer of two: the subscriber is skipped ahead to the
    // oldest retained event and receives the last two in order.
    let m1 = t.recv(s).unwrap();
    let m2 = t.recv(s).unwrap();
    assert_eq!(m1.message, "m3");
    assert_eq!(m2.message, "m4");
    assert!(t.recv(s).is_none());
}

#[test]
fn fast_subscriber_misses_nothing_at_capacity_boundary() {
    let mut t = Topic::new("room-1".to_string(), 3);
    let s = t.subscribe();
    for i in 0..3 {
        t.publish(user_msg(&i.to_string(), "ann", &format!("m{i}"), "t"));
    }
    for i in 0..3 {
        assert_eq!(t.recv(s).unwrap().message, format!("m{i}"));
    }
}

#[test]
fn unsubscribe_lowers_the_open_count() {
    let mut t = Topic::new("room-1".to_string(), 100);
    let a = t.subscribe();
    let _b = t.subscribe();
    assert_eq!(t.open_subscriptions(), 2);
    t.unsubscribe(a);
    assert_eq!(t.open_subscriptions(), 1);
}

#[test]
fn system_notices_flow_like_any_event() {
    let mut t = Topic::new("room-1".to_string(), 100);
    let s = t.subscribe();
    t.publish(ChatMessage {
        message_type: MessageType::System,
        id: None,
        user: "System".to_string(),
        message: "pong".to_string(),
        created_at: None,
    });
    let m = t.recv(s).unwrap();
    assert_eq!(m.message_type, MessageType::System);
    assert_eq!(m.message, "pong");
    assert_eq!(m.id, None);
}
