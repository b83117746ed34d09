//! Tests for the change-feed decoder.

use chat::decode::Notification;
use chat::domain::{Chat, ChatType, Msg};
use chat::error::AppError;
use chat::notif::AppEvent;

fn room_chat() -> Chat {
    Chat {
        id: 8,
        ws_id: 1,
        name: Some("room".to_string()),
        chat_type: ChatType::PublicChannel,
        members: vec![1, 4],
        status: 1,
        created_at: "2024-11-17T01:01:32.372249+00:00".to_string(),
    }
}

const ROOM_JSON: &str = r#"{"id":8,"ws_id":1,"name":"room","chat_type":"public_channel","members":[1,4],"status":1,"created_at":"2024-11-17T01:01:32.372249+00:00"}"#;

fn sorted(mut v: Vec<u64>) -> Vec<u64> {
    v.sort();
    v
}

#[test]
fn insert_yields_new_chat_affecting_new_members() {
    let payload = format!(r#"{{"op":"INSERT","old":null,"new":{}}}"#, ROOM_JSON);
    let n = Notification::try_load("chat_updated", &payload).unwrap();
    assert_eq!(sorted(n.user_ids.clone()), vec![1, 4]);
    assert_eq!(*n.event, AppEvent::NewChat(room_chat()));
}

#[test]
fn insert_tolerates_feed_whitespace() {
    let payload = format!(
        r#"{{"op" : "INSERT", "old" : null, "new" : {} }}"#,
        ROOM_JSON
    );
    let n = Notification::try_load("chat_updated", &payload).unwrap();
    assert_eq!(sorted(n.user_ids.clone()), vec![1, 4]);
    assert_eq!(*n.event, AppEvent::NewChat(room_chat()));
}

#[test]
fn update_affects_union_of_old_and_new_members() {
    let old = r#"{"id":8,"ws_id":1,"name":"room","chat_type":"group","members":[1,2],"status":1,"created_at":"2024-11-17T01:01:32+00:00"}"#;
    let new = r#"{"id":8,"ws_id":1,"name":"room","chat_type":"group","members":[2,3],"status":1,"created_at":"2024-11-17T01:01:32+00:00"}"#;
    let payload = format!(r#"{{"op":"UPDATE","old":{},"new":{}}}"#, old, new);
    let n = Notification::try_load("chat_updated", &payload).unwrap();
    assert_eq!(sorted(n.user_ids.clone()), vec![1, 2, 3]);
    match &*n.event {
        AppEvent::AddToChat(c) => assert_eq!(c.members, vec![2, 3]),
        other => panic!("unexpected event {:?}", other),
    }
}

#[test]
fn delete_yields_remove_from_chat_with_old_snapshot() {
    let payload = format!(r#"{{"op":"DELETE","old":{},"new":null}}"#, ROOM_JSON);
    let n = Notification::try_load("chat_updated", &payload).unwrap();
    assert_eq!(sorted(n.user_ids.clone()), vec![1, 4]);
    assert_eq!(*n.event, AppEvent::RemoveFromChat(room_chat()));
}

#[test]
fn unknown_op_is_rejected_with_the_op() {
    let payload = format!(r#"{{"op":"TRUNCATE","old":null,"new":{}}}"#, ROOM_JSON);
    let r = Notification::try_load("chat_updated", &payload);
    assert_eq!(r.unwrap_err(), AppError::InvalidError("TRUNCATE".to_string()));
}

#[test]
fn unknown_channel_is_rejected_with_the_channel() {
    let r = Notification::try_load("user_updated", "{}");
    assert_eq!(r.unwrap_err(), AppError::InvalidError("user_updated".to_string()));
}

#[test]
fn malformed_json_is_a_decode_error() {
    let r = Notification::try_load("chat_updated", r#"{"op":"INSERT","old":null"#);
    assert_eq!(
        r.unwrap_err(),
        AppError::DecodeError("malformed chat mutation payload".to_string())
    );
    let r = Notification::try_load("chat_message_created", "not json");
    assert_eq!(
        r.unwrap_err(),
        AppError::DecodeError("malformed message payload".to_string())
    );
}

#[test]
fn insert_without_new_snapshot_is_a_decode_error() {
    let payload = r#"{"op":"INSERT","old":null,"new":null}"#;
    let r = Notification::try_load("chat_updated", payload);
    assert_eq!(
        r.unwrap_err(),
        AppError::DecodeError("missing new chat snapshot".to_string())
    );
}

#[test]
fn delete_without_old_snapshot_is_a_decode_error() {
    let payload = format!(r#"{{"op":"DELETE","old":null,"new":{}}}"#, ROOM_JSON);
    let r = Notification::try_load("chat_updated", &payload);
    assert_eq!(
        r.unwrap_err(),
        AppError::DecodeError("missing old chat snapshot".to_string())
    );
}

#[test]
fn message_payload_affects_the_listed_members() {
    let payload = r#"{"message":{"id":7,"chat_id":1,"sender_id":1,"content":"hi","created_at":"2024-11-17T00:57:45.398913+00:00"},"members":[1,2]}"#;
    let n = Notification::try_load("chat_message_created", payload).unwrap();
    assert_eq!(sorted(n.user_ids.clone()), vec![1, 2]);
    let expected = Msg {
        id: 7,
        chat_id: 1,
        sender_id: 1,
        content: "hi".to_string(),
        created_at: "2024-11-17T00:57:45.398913+00:00".to_string(),
    };
    assert_eq!(*n.event, AppEvent::NewMessage(expected));
}

#[test]
fn message_payload_with_feed_whitespace() {
    let payload = r#"{"message" : {"id":7,"chat_id":1,"sender_id":1,"content":"this is a test message","created_at":"2024-11-17T00:57:45.398913+00:00"}, "members" : [1,2]}"#;
    let n = Notification::try_load("chat_message_created", payload).unwrap();
    assert_eq!(sorted(n.user_ids.clone()), vec![1, 2]);
}

#[test]
fn affected_ids_have_no_duplicates() {
    let old = r#"{"id":3,"ws_id":1,"name":null,"chat_type":"group","members":[1,2,2],"status":1,"created_at":"t"}"#;
    let new = r#"{"id":3,"ws_id":1,"name":null,"chat_type":"group","members":[2,1],"status":1,"created_at":"t"}"#;
    let payload = format!(r#"{{"op":"UPDATE","old":{},"new":{}}}"#, old, new);
    let n = Notification::try_load("chat_updated", &payload).unwrap();
    assert_eq!(sorted(n.user_ids.clone()), vec![1, 2]);
}

#[test]
fn string_escapes_are_decoded() {
    let chat = r#"{"id":1,"ws_id":1,"name":"a\"b\\c\nd","chat_type":"single","members":[1],"status":1,"created_at":"t"}"#;
    let payload = format!(r#"{{"op":"INSERT","old":null,"new":{}}}"#, chat);
    let n = Notification::try_load("chat_updated", &payload).unwrap();
    match &*n.event {
        AppEvent::NewChat(c) => assert_eq!(c.name.as_deref(), Some("a\"b\\c\nd")),
        other => panic!("unexpected event {:?}", other),
    }
}

#[test]
fn negative_ids_and_null_name_parse() {
    let chat = r#"{"id":-5,"ws_id":-1,"name":null,"chat_type":"single","members":[-3],"status":-2,"created_at":"t"}"#;
    let payload = format!(r#"{{"op":"INSERT","old":null,"new":{}}}"#, chat);
    let n = Notification::try_load("chat_updated", &payload).unwrap();
    match &*n.event {
        AppEvent::NewChat(c) => {
            assert_eq!(c.id, -5);
            assert_eq!(c.ws_id, -1);
            assert_eq!(c.name, None);
            assert_eq!(c.members, vec![-3]);
            assert_eq!(c.status, -2);
            // -3 as a user id wraps, as the feed's producer intends
            assert_eq!(n.user_ids, vec![(-3i64) as u64]);
        },
        other => panic!("unexpected event {:?}", other),
    }
}

#[test]
fn parse_int_exact_values() {
    let s: Vec<char> = "123,".chars().collect();
    assert_eq!(chat::json::parse_int(&s, 0), Some((123, 3)));
    let s: Vec<char> = "-42".chars().collect();
    assert_eq!(chat::json::parse_int(&s, 0), Some((-42, 3)));
    let s: Vec<char> = "999999999999999999".chars().collect();
    assert_eq!(chat::json::parse_int(&s, 0), Some((999999999999999999, 18)));
    let s: Vec<char> = "1000000000000000000".chars().collect();
    assert_eq!(chat::json::parse_int(&s, 0), None);
    let s: Vec<char> = "-".chars().collect();
    assert_eq!(chat::json::parse_int(&s, 0), None);
    let s: Vec<char> = "x1".chars().collect();
    assert_eq!(chat::json::parse_int(&s, 0), None);
}

#[test]
fn parse_int_array_exact_values() {
    let s: Vec<char> = "[ 1 , 2 ,3]".chars().collect();
    assert_eq!(chat::json::parse_int_array(&s, 0), Some((vec![1, 2, 3], 11)));
    let s: Vec<char> = "[]".chars().collect();
    assert_eq!(chat::json::parse_int_array(&s, 0), Some((vec![], 2)));
    let s: Vec<char> = "[1,]".chars().collect();
    assert_eq!(chat::json::parse_int_array(&s, 0), None);
}

#[test]
fn fields_outside_the_feeds_order_are_rejected() {
    let payload = format!(r#"{{"old":null,"op":"INSERT","new":{}}}"#, ROOM_JSON);
    assert_eq!(
        Notification::try_load("chat_updated", &payload).unwrap_err(),
        AppError::DecodeError("malformed chat mutation payload".to_string())
    );
}

#[test]
fn unicode_escapes_and_fractions_are_rejected() {
    let chat = r#"{"id":1,"ws_id":1,"name":"\u0041","chat_type":"single","members":[1],"status":1,"created_at":"t"}"#;
    let payload = format!(r#"{{"op":"INSERT","old":null,"new":{}}}"#, chat);
    assert!(Notification::try_load("chat_updated", &payload).is_err());
    let chat = r#"{"id":1.5,"ws_id":1,"name":null,"chat_type":"single","members":[1],"status":1,"created_at":"t"}"#;
    let payload = format!(r#"{{"op":"INSERT","old":null,"new":{}}}"#, chat);
    assert!(Notification::try_load("chat_updated", &payload).is_err());
}

#[test]
fn non_ascii_text_is_decoded() {
    let chat = "{\"id\":1,\"ws_id\":1,\"name\":\"caf\u{e9} \u{1f980}\",\"chat_type\":\"single\",\"members\":[1],\"status\":1,\"created_at\":\"t\"}";
    let payload = format!(r#"{{"op":"INSERT","old":null,"new":{}}}"#, chat);
    let n = Notification::try_load("chat_updated", &payload).unwrap();
    match &*n.event {
        AppEvent::NewChat(c) => assert_eq!(c.name.as_deref(), Some("caf\u{e9} \u{1f980}")),
        other => panic!("unexpected event {:?}", other),
    }
}

#[test]
fn trailing_garbage_is_rejected() {
    let payload = format!(r#"{{"op":"DELETE","old":{},"new":null}} x"#, ROOM_JSON);
    assert!(Notification::try_load("chat_updated", &payload).is_err());
}
