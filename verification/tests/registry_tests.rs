use chatcore::registry::RoomRegistry;
use chatcore::topic::{ChatMessage, MessageType};

fn msg(text: &str) -> ChatMessage {
    ChatMessage {
        message_type: MessageType::User,
        id: Some("id-1".to_string()),
        user: "ann".to_string(),
        message: text.to_string(),
        created_at: Some("t1".to_string()),
    }
}

#[test]
fn first_accesses_for_one_room_share_a_single_topic() {
    let mut reg = RoomRegistry::new(100);
    let room = "room-7".to_string();

    // Two sessions racing through the registry lock: whichever is
    // serialized first creates the topic, the other finds it.
    let h1 = reg.get_or_create_topic(&room);
    let h2 = reg.get_or_create_topic(&room);
    assert_eq!(h1, h2);

    // A subscriber reached through one access sees what the other access
    // publishes: it is the same underlying topic.
    let s = reg.subscribe(h1);
    reg.publish(h2, msg("hello"));
    assert_eq!(reg.recv(h1, s).unwrap().message, "hello");
}

#[test]
fn distinct_rooms_get_distinct_topics() {
    let mut reg = RoomRegistry::new(100);
    let h1 = reg.get_or_create_topic(&"room-a".to_string());
    let h2 = reg.get_or_create_topic(&"room-b".to_string());
    assert_ne!(h1, h2);
}

#[test]
fn a_publish_stays_in_its_room() {
    let mut reg = RoomRegistry::new(100);
    let ha = reg.get_or_create_topic(&"room-a".to_string());
    let hb = reg.get_or_create_topic(&"room-b".to_string());
    let sa = reg.subscribe(ha);
    let sb = reg.subscribe(hb);

    reg.publish(ha, msg("only for room a"));

    assert_eq!(reg.recv(ha, sa).unwrap().message, "only for room a");
    assert!(reg.recv(hb, sb).is_none());
}

#[test]
fn topics_outlive_their_last_subscriber() {
    let mut reg = RoomRegistry::new(100);
    let room = "room-a".to_string();
    let h = reg.get_or_create_topic(&room);
    let s = reg.subscribe(h);
    reg.unsubscribe(h, s);

    // The registry entry persists: a later access finds the same topic.
    let h2 = reg.get_or_create_topic(&room);
    assert_eq!(h, h2);
}
