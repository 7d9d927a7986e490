//! Lobby wire protocol tests: line parsing, wire form, password
//! hashing, payload decoding, and the push-event payloads.

use game_manager::mediator::lobby_event_payload;
use game_manager::protocol::{
    decode_login_response, decode_say, decode_welcome, encode_login_command, hash_password,
    LobbyMessage, LoginCommand, MessageData,
};
use game_manager::state::LobbyEvent;

#[test]
fn test_message_parsing() {
    let msg = LobbyMessage::from_line(r#"Say {"User":"test","Text":"hello","Place":0}"#).unwrap();
    assert_eq!(msg.command, "Say");
    let data = match &msg.data {
        MessageData::Json(s) => decode_say(s).unwrap(),
        MessageData::Text(_) => panic!("payload should be JSON"),
    };
    assert_eq!(data.user, "test");
    assert_eq!(data.text, "hello");
}

#[test]
fn test_message_no_data() {
    let msg = LobbyMessage::from_line("Ping").unwrap();
    assert_eq!(msg.command, "Ping");
    match &msg.data {
        MessageData::Json(s) => assert_eq!(s, "{}"),
        MessageData::Text(_) => panic!("payload should be JSON"),
    }
}

#[test]
fn test_wire_format() {
    let msg = LobbyMessage::new("Ping", MessageData::Json("{}".to_string()));
    assert_eq!(msg.to_wire(), "Ping {}\n");
}

#[test]
fn test_password_hash() {
    let hash = hash_password("test");
    assert!(!hash.is_empty());
    // MD5 of "test" is 098f6bcd4621d373cade4e832627b4f6
    // base64 of those bytes
    assert_eq!(hash, "CY9rzUYh03PK3k6DJie09g==");
}

#[test]
fn test_login_command_serialization() {
    let cmd = LoginCommand {
        name: "bot".into(),
        password_hash: "abc123==".into(),
        user_id: 0,
        install_id: 0,
        lobby_version: 0,
        steam_auth_token: String::new(),
        dlc: String::new(),
    };
    let json = encode_login_command(&cmd);
    let v: serde_json::Value = serde_json::from_str(&json).unwrap();
    assert_eq!(v["Name"], "bot");
    assert_eq!(v["PasswordHash"], "abc123==");
}

#[test]
fn wire_round_trip_preserves_message() {
    let msg = LobbyMessage::new(
        "Login",
        MessageData::Json(r#"{"Name":"bot","PasswordHash":"abc=="}"#.to_string()),
    );
    let wire = msg.to_wire();
    let back = LobbyMessage::from_line(&wire).unwrap();
    assert_eq!(back.command, "Login");
    match &back.data {
        MessageData::Json(s) => assert_eq!(s, r#"{"Name":"bot","PasswordHash":"abc=="}"#),
        MessageData::Text(_) => panic!("round trip lost the JSON payload"),
    }
}

#[test]
fn non_json_tail_is_kept_as_text() {
    let msg = LobbyMessage::from_line("Motd welcome to the server").unwrap();
    assert_eq!(msg.command, "Motd");
    match &msg.data {
        MessageData::Text(s) => assert_eq!(s, "welcome to the server"),
        MessageData::Json(_) => panic!("tail is not valid JSON"),
    }
}

#[test]
fn empty_line_is_nothing() {
    assert!(LobbyMessage::from_line("   \n").is_none());
}

#[test]
fn decode_welcome_fields_and_defaults() {
    let d = decode_welcome(r#"{"Engine":"105.1","Game":"Zero-K v1.12.1.0","UserCount":250}"#)
        .unwrap();
    assert_eq!(d.engine, "105.1");
    assert_eq!(d.game, "Zero-K v1.12.1.0");
    assert_eq!(d.user_count, 250);
    assert_eq!(d.version, "");
    assert!(decode_welcome("[1,2,3]").is_none());
}

#[test]
fn decode_login_response_requires_result_code() {
    let d = decode_login_response(r#"{"ResultCode":2,"Message":"bad"}"#).unwrap();
    assert_eq!(d.result_code, 2);
    assert_eq!(d.message, "bad");
    assert!(decode_login_response(r#"{"Message":"bad"}"#).is_none());
}

#[test]
fn login_failure_payload_names_the_code() {
    let e = LobbyEvent::LoginFailed { code: 2, message: "bad".to_string() };
    let (id, text) = lobby_event_payload(&e).unwrap();
    assert_eq!(id, "lobby.login_failed");
    assert_eq!(text, "Login failed (code 2): bad");
    assert!(text.contains("code 2"));
}

#[test]
fn high_frequency_events_are_suppressed() {
    let e = LobbyEvent::UserLeft { name: "a".to_string(), reason: "quit".to_string() };
    assert!(lobby_event_payload(&e).is_none());
}
