use relay::channels::{Message, RelayError};
use relay::json::{decimal_string, envelope_message, MessageKind, Object};

fn text_of(message: &Message) -> String {
    message.to_str().expect("websocket message &str").to_string()
}

#[test]
fn message_kind_connected_users() {
    let test_message_kind_connected_users = MessageKind::ConnectedUsers.build();

    assert_eq!(test_message_kind_connected_users.as_str(), "connected_users",);
}

#[test]
fn message_kind_message() {
    let test_message_kind_message = MessageKind::Message.build();

    assert_eq!(test_message_kind_message.as_str(), "message");
}

#[test]
fn message_kind_uuid() {
    let test_message_kind_uuid = MessageKind::Uuid.build();

    assert_eq!(test_message_kind_uuid.as_str(), "uuid");
}

#[test]
fn object_build() {
    let test_message_kind = MessageKind::Message;
    let test_contents = String::from("test_contents");
    let test_object = Object::build(test_message_kind, test_contents);

    assert_eq!(test_object.kind.as_str(), "message");
    assert_eq!(test_object.contents.as_str(), "test_contents");
}

#[test]
fn object_to_message() {
    let test_message_kind = MessageKind::Message;
    let test_contents = String::from("test_contents");
    let test_object = Object::build(test_message_kind, test_contents);

    assert_eq!(
        test_object
            .to_message()
            .expect("envelope")
            .to_str()
            .expect("websocket message &str"),
        r#"{"kind":"message","contents":"test_contents"}"#,
    );
}

#[test]
fn object_build_passes_contents_through() {
    let contents = String::from(" \"quoted\"\n\ttabbed \\ back ");
    let object = Object::build(MessageKind::Uuid, contents.clone());

    assert_eq!(object.kind, "uuid");
    assert_eq!(object.contents, contents);
}

#[test]
fn to_message_escapes_what_json_asks_for() {
    let object = Object::build(MessageKind::Message, String::from("say \"hi\"\n\\o/"));
    let message = object.to_message().expect("envelope");

    assert_eq!(
        text_of(&message),
        r#"{"kind":"message","contents":"say \"hi\"\n\\o/"}"#,
    );
}

#[test]
fn to_message_agrees_with_serde_json() {
    let contents = "tab\there \u{1} caf\u{e9} \u{1F600} \"end\"";
    let message = envelope_message(MessageKind::Message, String::from(contents)).expect("envelope");
    let parsed: serde_json::Value = serde_json::from_str(&text_of(&message)).expect("valid JSON");
    let fields = parsed.as_object().expect("a JSON object");

    assert_eq!(fields.len(), 2);
    assert_eq!(fields["kind"].as_str(), Some("message"));
    assert_eq!(fields["contents"].as_str(), Some(contents));
    assert_eq!(
        text_of(&message),
        format!(
            "{{\"kind\":{},\"contents\":{}}}",
            serde_json::to_string("message").unwrap(),
            serde_json::to_string(contents).unwrap(),
        ),
    );
}

#[test]
fn to_message_of_any_kind_string() {
    let object = Object { kind: String::from("a\"b"), contents: String::new() };

    assert_eq!(
        text_of(&object.to_message().expect("envelope")),
        r#"{"kind":"a\"b","contents":""}"#,
    );
}

#[test]
fn frame_puts_encoded_fields_together() {
    let kind = serde_json::to_string("uuid");
    let contents = serde_json::to_string("0123");
    let message = Object::frame(kind, contents).expect("both fields are encoded");

    assert!(message.is_text());
    assert_eq!(text_of(&message), r#"{"kind":"uuid","contents":"0123"}"#);
}

#[test]
fn frame_fails_where_a_field_was_not_encoded() {
    let failure = || serde_json::from_str::<String>("not json").map(|_| String::new());

    assert!(failure().is_err());
    assert_eq!(
        Object::frame(failure(), serde_json::to_string("x")).err(),
        Some(RelayError::Encoding),
    );
    assert_eq!(
        Object::frame(serde_json::to_string("x"), failure()).err(),
        Some(RelayError::Encoding),
    );
    assert_eq!(Object::frame(failure(), failure()).err(), Some(RelayError::Encoding));
}

#[test]
fn parse_reads_each_tag_back() {
    for kind in [MessageKind::Uuid, MessageKind::Message, MessageKind::ConnectedUsers] {
        assert_eq!(MessageKind::parse(kind.build().as_str()), Some(kind));
    }
}

#[test]
fn parse_rejects_unknown_kinds() {
    assert_eq!(MessageKind::parse(""), None);
    assert_eq!(MessageKind::parse("Message"), None);
    assert_eq!(MessageKind::parse("messages"), None);
    assert_eq!(MessageKind::parse("connected-users"), None);
    assert_eq!(MessageKind::parse("uuid "), None);
}

#[test]
fn decimal_string_of_counts() {
    assert_eq!(decimal_string(0), "0");
    assert_eq!(decimal_string(1), "1");
    assert_eq!(decimal_string(9), "9");
    assert_eq!(decimal_string(10), "10");
    assert_eq!(decimal_string(16), "16");
    assert_eq!(decimal_string(100), "100");
    assert_eq!(decimal_string(1806), "1806");
    assert_eq!(decimal_string(90_071), "90071");
    assert_eq!(decimal_string(usize::MAX), usize::MAX.to_string());
}

#[test]
fn connected_users_envelope_carries_the_count_as_a_string() {
    let message =
        envelope_message(MessageKind::ConnectedUsers, decimal_string(3)).expect("envelope");

    assert_eq!(text_of(&message), r#"{"kind":"connected_users","contents":"3"}"#);
}

#[test]
fn every_character_is_escaped_as_json_asks() {
    let escaped = |character: char| -> String {
        match character {
            '"' => String::from("\\\""),
            '\\' => String::from("\\\\"),
            '\u{8}' => String::from("\\b"),
            '\t' => String::from("\\t"),
            '\n' => String::from("\\n"),
            '\u{c}' => String::from("\\f"),
            '\r' => String::from("\\r"),
            control if (control as u32) < 0x20 => format!("\\u00{:02x}", control as u32),
            plain => plain.to_string(),
        }
    };
    let mut characters: Vec<char> = (0..0x100u32).filter_map(char::from_u32).collect();

    characters.extend(['\u{7ff}', '\u{800}', '\u{2028}', '\u{ffff}', '\u{10000}', '\u{10ffff}']);

    for character in characters {
        let contents = format!("a{}b", character);
        let message = envelope_message(MessageKind::Message, contents).expect("envelope");

        assert_eq!(
            text_of(&message),
            format!("{{\"kind\":\"message\",\"contents\":\"a{}b\"}}", escaped(character)),
        );
    }
}
