use chat_client::chat::{avatar_for, compose, profile_of, submit, Chat, Msg};
use chat_client::wire::{
    decode, decode_message, encode, outbound_payload, register_envelope, DecodeError, MsgTypes,
    WebSocketMessage,
};

#[test]
fn scenario_users_frame_sets_roster() {
    let mut chat = Chat::new();
    let changed = chat.handle_frame(r#"{"messageType":"users","dataArray":["alice","bob"]}"#);
    assert!(changed);
    assert_eq!(chat.users.len(), 2);
    assert_eq!(chat.users[0].name, "alice");
    assert_eq!(
        chat.users[0].avatar,
        "https://avatars.dicebear.com/api/adventurer-neutral/alice.svg"
    );
    assert_eq!(chat.users[1].name, "bob");
    assert_eq!(
        chat.users[1].avatar,
        "https://avatars.dicebear.com/api/adventurer-neutral/bob.svg"
    );
    assert!(chat.messages.is_empty());
}

#[test]
fn scenario_message_frame_appends() {
    let mut chat = Chat::new();
    let frame = r#"{"messageType":"message","data":"{\"from\":\"alice\",\"message\":\"hi\",\"timestamp\":\"10:00\"}"}"#;
    assert!(chat.handle_frame(frame));
    assert_eq!(chat.messages.len(), 1);
    assert_eq!(chat.messages[0].from, "alice");
    assert_eq!(chat.messages[0].message, "hi");
    assert_eq!(chat.messages[0].timestamp, Some("10:00".to_string()));
}

#[test]
fn scenario_malformed_message_payload_is_dropped() {
    let mut chat = Chat::new();
    assert!(!chat.handle_frame(r#"{"messageType":"message","data":"not-json"}"#));
    assert!(chat.messages.is_empty());
    assert!(chat.users.is_empty());
}

#[test]
fn scenario_submit_hello() {
    let mut chat = Chat::new();
    let fx = chat.update(Msg::SubmitMessage { input: "hello".to_string(), time: "10:00".to_string() });
    assert!(fx.clear_input);
    assert!(!fx.rerender);
    let frame = fx.outbound.expect("a frame");
    assert_eq!(
        frame,
        r#"{"messageType":"message","dataArray":null,"data":"{\"message\":\"hello\",\"timestamp\":\"10:00\"}"}"#
    );
    let env = decode(&frame).expect("an envelope");
    assert_eq!(env.message_type, MsgTypes::Message);
    assert!(env.data_array.is_none());
    assert_eq!(env.data.as_deref(), Some(r#"{"message":"hello","timestamp":"10:00"}"#));
    assert!(chat.messages.is_empty());
}

#[test]
fn scenario_submit_empty() {
    let mut chat = Chat::new();
    let fx = chat.update(Msg::SubmitMessage { input: String::new(), time: "10:00".to_string() });
    assert!(fx.outbound.is_none());
    assert!(!fx.clear_input);
    assert!(chat.messages.is_empty());
}

#[test]
fn whitespace_submit_sends_nothing() {
    let fx = submit("  \t \n", "10:00");
    assert!(fx.outbound.is_none());
    assert!(!fx.clear_input);
    assert!(compose("   ", "10:00").is_none());
    assert!(compose(" x ", "10:00").is_some());
}

#[test]
fn non_empty_submit_clears_input() {
    let fx = submit("  hi  ", "09:15");
    assert!(fx.clear_input);
    assert!(fx.outbound.is_some());
}

#[test]
fn text_round_trip_of_envelopes() {
    let cases = vec![
        WebSocketMessage {
            message_type: MsgTypes::Users,
            data_array: Some(vec!["alice".to_string(), "b\"o\\b".to_string(), String::new()]),
            data: None,
        },
        WebSocketMessage { message_type: MsgTypes::Register, data_array: None, data: Some("carol".to_string()) },
        WebSocketMessage {
            message_type: MsgTypes::Message,
            data_array: Some(vec![]),
            data: Some("{\"x\":1}\n".to_string()),
        },
    ];
    for e in cases {
        let back = decode(&encode(&e)).expect("decodes");
        assert_eq!(back.message_type, e.message_type);
        assert_eq!(back.data_array, e.data_array);
        assert_eq!(back.data, e.data);
    }
}

#[test]
fn encoded_field_names() {
    let text = encode(&register_envelope("dave"));
    assert_eq!(text, r#"{"messageType":"register","dataArray":null,"data":"dave"}"#);
}

#[test]
fn decode_errors() {
    assert_eq!(decode("not json").err(), Some(DecodeError::Syntax));
    assert_eq!(decode("[1,2]").err(), Some(DecodeError::Syntax));
    assert_eq!(decode(r#"{"messageType":null}"#).err(), Some(DecodeError::Shape));
    assert_eq!(decode(r#"{"dataArray":null}"#).err(), Some(DecodeError::Shape));
    assert_eq!(decode(r#"{"messageType":3}"#).err(), Some(DecodeError::Shape));
    assert_eq!(decode(r#"{"messageType":"typing"}"#).err(), Some(DecodeError::UnknownKind));
    assert_eq!(decode(r#"{"messageType":"Users"}"#).err(), Some(DecodeError::UnknownKind));
    assert_eq!(decode(r#"{"messageType":"users","dataArray":["a",1]}"#).err(), Some(DecodeError::Shape));
    assert_eq!(decode(r#"{"messageType":"users","dataArray":"a"}"#).err(), Some(DecodeError::Shape));
    assert_eq!(decode(r#"{"messageType":"message","data":["a"]}"#).err(), Some(DecodeError::Shape));
}

#[test]
fn decode_defaults_and_extra_fields() {
    let e = decode(r#"{"messageType":"users","extra":{"a":[1,2.5,true]}}"#).expect("ok");
    assert_eq!(e.message_type, MsgTypes::Users);
    assert!(e.data_array.is_none());
    assert!(e.data.is_none());
    let e = decode(r#"{"messageType":"register","dataArray":null,"data":"x"}"#).expect("ok");
    assert_eq!(e.message_type, MsgTypes::Register);
    assert_eq!(e.data, Some("x".to_string()));
}

#[test]
fn message_payload_decoding() {
    let m = decode_message(r#"{"from":"a","message":"b"}"#).expect("ok");
    assert_eq!(m.timestamp, None);
    let m = decode_message(r#"{"from":"a","message":"b","timestamp":null}"#).expect("ok");
    assert_eq!(m.timestamp, None);
    assert_eq!(decode_message(r#"{"message":"b"}"#).err(), Some(DecodeError::Shape));
    assert_eq!(decode_message(r#"{"from":"a","message":2}"#).err(), Some(DecodeError::Shape));
    assert_eq!(decode_message(r#"{"from":"a","message":"b","timestamp":5}"#).err(), Some(DecodeError::Shape));
    assert_eq!(decode_message("{").err(), Some(DecodeError::Syntax));
    let m = decode_message(r#"{"from":"z","message":"y","timestamp":"t"}"#).expect("ok");
    assert_eq!((m.from.as_str(), m.message.as_str()), ("z", "y"));
    assert_eq!(m.timestamp.as_deref(), Some("t"));
    assert_eq!(decode_message(r#"{"from":null,"message":"b"}"#).err(), Some(DecodeError::Shape));
}

#[test]
fn roster_snapshot_twice_is_the_same() {
    let mut chat = Chat::new();
    let frame = r#"{"messageType":"users","dataArray":["alice","bob"]}"#;
    chat.handle_frame(frame);
    chat.handle_frame(frame);
    assert_eq!(chat.users.len(), 2);
    assert_eq!(chat.users[0].name, "alice");
    assert_eq!(chat.users[1].name, "bob");
    chat.handle_frame(r#"{"messageType":"users"}"#);
    assert!(chat.users.is_empty());
}

#[test]
fn messages_keep_arrival_order() {
    let mut chat = Chat::new();
    chat.handle_frame(r#"{"messageType":"message","data":"{\"from\":\"a\",\"message\":\"one\"}"}"#);
    chat.handle_frame(r#"{"messageType":"message","data":"{\"from\":\"b\",\"message\":\"two\"}"}"#);
    assert_eq!(chat.messages.len(), 2);
    assert_eq!(chat.messages[0].message, "one");
    assert_eq!(chat.messages[1].message, "two");
}

#[test]
fn other_frames_change_nothing() {
    let mut chat = Chat::new();
    chat.handle_frame(r#"{"messageType":"users","dataArray":["alice"]}"#);
    assert!(!chat.handle_frame(r#"{"messageType":"register","data":"eve"}"#));
    assert!(!chat.handle_frame(r#"{"messageType":"message"}"#));
    assert!(!chat.handle_frame("garbage"));
    assert_eq!(chat.users.len(), 1);
    assert!(chat.messages.is_empty());
}

#[test]
fn sender_profile_is_the_same_either_way() {
    let mut chat = Chat::new();
    chat.handle_frame(r#"{"messageType":"users","dataArray":["alice"]}"#);
    let known = chat.sender_profile("alice");
    let derived = profile_of("alice");
    assert_eq!(known.avatar, derived.avatar);
    assert_eq!(known.avatar, avatar_for("alice"));
    let stranger = chat.sender_profile("mallory");
    assert_eq!(stranger.name, "mallory");
    assert_eq!(
        stranger.avatar,
        "https://avatars.dicebear.com/api/adventurer-neutral/mallory.svg"
    );
    assert_eq!(chat.users.len(), 1);
}

#[test]
fn create_registers_the_user() {
    let (chat, frame) = Chat::create("alice");
    assert!(chat.users.is_empty() && chat.messages.is_empty());
    let env = decode(&frame).expect("ok");
    assert_eq!(env.message_type, MsgTypes::Register);
    assert_eq!(env.data, Some("alice".to_string()));
    assert!(env.data_array.is_none());
}

#[test]
fn payload_text_is_exact() {
    let p = outbound_payload("hey", "11:30");
    assert_eq!(p, r#"{"message":"hey","timestamp":"11:30"}"#);
    let escaped = outbound_payload("q\"\\\u{1}\u{7f}é", "");
    assert_eq!(escaped, "{\"message\":\"q\\\"\\\\\\u0001\u{7f}é\",\"timestamp\":\"\"}");
}

#[test]
fn encoded_text_is_exact() {
    let e = WebSocketMessage {
        message_type: MsgTypes::Users,
        data_array: Some(vec!["a\"b".to_string(), "c\n".to_string()]),
        data: None,
    };
    assert_eq!(encode(&e), r#"{"messageType":"users","dataArray":["a\"b","c\n"],"data":null}"#);
    let e = WebSocketMessage { message_type: MsgTypes::Message, data_array: Some(vec![]), data: None };
    assert_eq!(encode(&e), r#"{"messageType":"message","dataArray":[],"data":null}"#);
}


#[test]
fn sender_profile_takes_first_roster_entry() {
    let mut chat = Chat::new();
    chat.users.push(chat_client::chat::UserProfile { name: "x".to_string(), avatar: "first".to_string() });
    chat.users.push(chat_client::chat::UserProfile { name: "x".to_string(), avatar: "second".to_string() });
    assert_eq!(chat.sender_profile("x").avatar, "first");
}

#[test]
fn unreadable_message_data_keeps_log() {
    let mut chat = Chat::new();
    chat.handle_frame(r#"{"messageType":"message","data":"{\"from\":\"a\",\"message\":\"one\"}"}"#);
    let fx = chat.update(Msg::HandleMsg(r#"{"messageType":"message","data":"{\"from\":1}"}"#.to_string()));
    assert!(!fx.rerender);
    assert_eq!(chat.messages.len(), 1);
}
