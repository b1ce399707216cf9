use chatcore::codec::encode_server_event;
use chatcore::decode::decode_client_frame;
use chatcore::events::{ClientEvent, ServerEvent};
use chatcore::room::MessageResponse;
use chatcore::topic::{ChatMessage, MessageType};

fn chat_event(id: &str, user: &str, text: &str, at: &str) -> ChatMessage {
    ChatMessage {
        message_type: MessageType::User,
        id: Some(id.to_string()),
        user: user.to_string(),
        message: text.to_string(),
        created_at: Some(at.to_string()),
    }
}

#[test]
fn pong_encodes_to_its_fixed_frame() {
    assert_eq!(encode_server_event(&ServerEvent::Pong), "{\"type\":\"pong\"}");
}

#[test]
fn system_notices_encode_as_pong_frames() {
    let notice = ChatMessage {
        message_type: MessageType::System,
        id: None,
        user: "System".to_string(),
        message: "pong".to_string(),
        created_at: None,
    };
    assert_eq!(
        encode_server_event(&ServerEvent::ChatMessage(notice)),
        "{\"type\":\"pong\"}"
    );
}

#[test]
fn chat_message_encodes_every_field() {
    let e = ServerEvent::ChatMessage(chat_event("m1", "ann", "hello", "2024-01-01T00:00:00Z"));
    assert_eq!(
        encode_server_event(&e),
        "{\"type\":\"chat_message\",\"id\":\"m1\",\"user\":\"ann\",\"message\":\"hello\",\"created_at\":\"2024-01-01T00:00:00Z\"}"
    );
}

#[test]
fn string_values_are_escaped() {
    let e = ServerEvent::ChatMessage(chat_event("m1", "ann", "say \"hi\"\\\n\u{1}", "t"));
    assert_eq!(
        encode_server_event(&e),
        "{\"type\":\"chat_message\",\"id\":\"m1\",\"user\":\"ann\",\"message\":\"say \\\"hi\\\"\\\\\\n\\u0001\",\"created_at\":\"t\"}"
    );
}

#[test]
fn empty_history_encodes_as_an_empty_list() {
    assert_eq!(
        encode_server_event(&ServerEvent::History(Vec::new())),
        "{\"type\":\"history\",\"messages\":[]}"
    );
}

#[test]
fn history_entries_are_comma_separated_in_order() {
    let h = ServerEvent::History(vec![
        MessageResponse {
            id: "m2".to_string(),
            user_name: "bob".to_string(),
            content: "newest".to_string(),
            created_at: "t2".to_string(),
        },
        MessageResponse {
            id: "m1".to_string(),
            user_name: "ann".to_string(),
            content: "older".to_string(),
            created_at: "t1".to_string(),
        },
    ]);
    assert_eq!(
        encode_server_event(&h),
        "{\"type\":\"history\",\"messages\":[{\"id\":\"m2\",\"user\":\"bob\",\"message\":\"newest\",\"created_at\":\"t2\"},{\"id\":\"m1\",\"user\":\"ann\",\"message\":\"older\",\"created_at\":\"t1\"}]}"
    );
}

#[test]
fn encoded_frames_are_valid_json_for_a_real_parser() {
    let e = ServerEvent::ChatMessage(chat_event("m1", "an\"n", "line\nbreak \u{2} end", "t"));
    let text = encode_server_event(&e);
    let v: serde_json::Value = serde_json::from_str(&text).expect("encoder must emit valid JSON");
    assert_eq!(v["type"], "chat_message");
    assert_eq!(v["user"], "an\"n");
    assert_eq!(v["message"], "line\nbreak \u{2} end");
}

#[test]
fn ping_frame_decodes() {
    assert_eq!(
        decode_client_frame("{\"type\":\"ping\"}"),
        Some(ClientEvent::Ping)
    );
}

#[test]
fn chat_send_frame_decodes_with_plain_content() {
    assert_eq!(
        decode_client_frame("{\"type\":\"chat_send\",\"content\":\"hello\"}"),
        Some(ClientEvent::ChatSend { content: "hello".to_string() })
    );
}

#[test]
fn chat_send_frame_decodes_escapes() {
    assert_eq!(
        decode_client_frame(
            "{\"type\":\"chat_send\",\"content\":\"say \\\"hi\\\" \\\\ \\n \\t \\u0041 \\u00e9\"}"
        ),
        Some(ClientEvent::ChatSend { content: "say \"hi\" \\ \n \t A \u{e9}".to_string() })
    );
}

#[test]
fn chat_send_content_may_be_empty_at_the_codec_level() {
    // The codec accepts an empty string; the validator further in drops it.
    assert_eq!(
        decode_client_frame("{\"type\":\"chat_send\",\"content\":\"\"}"),
        Some(ClientEvent::ChatSend { content: String::new() })
    );
}

#[test]
fn malformed_frames_are_decode_errors() {
    for bad in [
        "",
        "ping",
        "{\"type\":\"shout\",\"content\":\"hi\"}",
        "{\"type\":\"chat_send\",\"content\":\"unterminated}",
        "{\"type\":\"chat_send\",\"content\":\"bad \\x escape\"}",
        "{\"type\":\"chat_send\",\"content\":\"lone surrogate \\ud800\"}",
        "{\"type\":\"chat_send\",\"content\":\"hi\"} trailing",
        "{\"type\":\"chat_send\",\"content\":\"raw\ncontrol\"}",
        "{\"type\":\"ping\"} ",
    ] {
        assert_eq!(decode_client_frame(bad), None, "should refuse {bad:?}");
    }
}

#[test]
fn control_character_escapes_decode() {
    assert_eq!(
        decode_client_frame("{\"type\":\"chat_send\",\"content\":\"a\\u0001b\\b\\f\"}"),
        Some(ClientEvent::ChatSend { content: "a\u{1}b\u{8}\u{c}".to_string() })
    );
}

#[test]
fn decoding_inverts_the_encoders_escaping() {
    // Encode a server event whose text needs every kind of escape, lift the
    // escaped value into a chat-send frame, and decode it back.
    let text = "mix: \" \\ \n \t \u{3} plain";
    let encoded = encode_server_event(&ServerEvent::ChatMessage(chat_event("m", "u", text, "t")));
    let start = encoded.find("\"message\":\"").unwrap() + "\"message\":\"".len();
    let end = encoded[start..].find("\",\"created_at\"").unwrap() + start;
    let escaped = &encoded[start..end];

    let frame = format!("{{\"type\":\"chat_send\",\"content\":\"{escaped}\"}}");
    assert_eq!(
        decode_client_frame(&frame),
        Some(ClientEvent::ChatSend { content: text.to_string() })
    );
}

#[test]
fn decoder_agrees_with_a_real_parser_on_accepted_frames() {
    let frame = "{\"type\":\"chat_send\",\"content\":\"caf\\u00e9 \\\"quoted\\\"\"}";
    let decoded = decode_client_frame(frame).unwrap();
    let v: serde_json::Value = serde_json::from_str(frame).unwrap();
    match decoded {
        ClientEvent::ChatSend { content } => {
            assert_eq!(content, v["content"].as_str().unwrap());
        }
        other => panic!("expected a chat send, got {other:?}"),
    }
}
