//! Tests for the subscriber registry and the dispatch step.

use std::sync::Arc;

use chat::domain::{Chat, ChatType, Msg};
use chat::error::AppError;
use chat::notif::{AppEvent, NotifService, BACKLOG_CAPACITY};
use tokio::sync::broadcast::error::TryRecvError;

fn sample_event(id: i64) -> Arc<AppEvent> {
    Arc::new(AppEvent::NewMessage(Msg {
        id,
        chat_id: 1,
        sender_id: 1,
        content: "hi".to_string(),
        created_at: "t".to_string(),
    }))
}

#[test]
fn register_twice_both_handles_receive() {
    let svc = NotifService::new();
    let mut rx1 = svc.register(7);
    let mut rx2 = svc.register(7);
    let ev = sample_event(1);
    assert!(svc.publish(7, &ev));
    assert_eq!(*rx1.try_recv().unwrap(), *ev);
    assert_eq!(*rx2.try_recv().unwrap(), *ev);
}

#[test]
fn publish_to_unregistered_user_is_a_noop() {
    let svc = NotifService::new();
    let ev = sample_event(2);
    // no error, nothing delivered, nothing queued for a later subscription
    assert!(!svc.publish(9, &ev));
    let mut rx = svc.register(9);
    assert!(matches!(rx.try_recv(), Err(TryRecvError::Empty)));
}

#[test]
fn lagging_handle_sees_a_gap_other_user_unaffected() {
    let svc = NotifService::new();
    let mut slow = svc.register(1);
    let mut active = svc.register(2);
    let overflow = 6;
    for k in 0..(BACKLOG_CAPACITY + overflow) {
        let ev = sample_event(k as i64);
        svc.publish(1, &ev);
        svc.publish(2, &ev);
        // user 2 keeps up and sees every event, in order
        assert_eq!(*active.try_recv().unwrap(), *ev);
    }
    // user 1 never read: its oldest events were dropped, and the loss is
    // itemized on the next read
    match slow.try_recv() {
        Err(TryRecvError::Lagged(n)) => assert_eq!(n as usize, overflow),
        other => panic!("expected a lag, got {:?}", other),
    }
    // after the gap, the remaining events arrive in order
    assert_eq!(
        *slow.try_recv().unwrap(),
        *sample_event(overflow as i64)
    );
}

#[test]
fn dispatch_delivers_to_affected_subscribers_only() {
    let svc = NotifService::new();
    let mut rx1 = svc.register(1);
    let mut rx4 = svc.register(4);
    let mut rx5 = svc.register(5);
    let payload = r#"{"op" : "INSERT", "old" : null, "new" : {"id":8,"ws_id":1,"name":"room","chat_type":"public_channel","members":[1,4],"status":1,"created_at":"2024-11-17T01:01:32.372249+00:00"}}"#;
    let n = svc.dispatch("chat_updated", payload).unwrap();
    let expected = AppEvent::NewChat(Chat {
        id: 8,
        ws_id: 1,
        name: Some("room".to_string()),
        chat_type: ChatType::PublicChannel,
        members: vec![1, 4],
        status: 1,
        created_at: "2024-11-17T01:01:32.372249+00:00".to_string(),
    });
    assert_eq!(expected.get_name(), "new_chat");
    assert_eq!(*n.event, expected);
    assert_eq!(*rx1.try_recv().unwrap(), expected);
    assert_eq!(*rx4.try_recv().unwrap(), expected);
    assert!(matches!(rx1.try_recv(), Err(TryRecvError::Empty)));
    assert!(matches!(rx4.try_recv(), Err(TryRecvError::Empty)));
    assert!(matches!(rx5.try_recv(), Err(TryRecvError::Empty)));
}

#[test]
fn dispatch_delivers_messages_and_skips_third_user() {
    let svc = NotifService::new();
    let mut rx1 = svc.register(1);
    let mut rx2 = svc.register(2);
    let mut rx3 = svc.register(3);
    let payload = r#"{"message":{"id":7,"chat_id":1,"sender_id":1,"content":"hi","created_at":"2024-11-17T00:57:45.398913+00:00"},"members":[1,2]}"#;
    svc.dispatch("chat_message_created", payload).unwrap();
    let expected = AppEvent::NewMessage(Msg {
        id: 7,
        chat_id: 1,
        sender_id: 1,
        content: "hi".to_string(),
        created_at: "2024-11-17T00:57:45.398913+00:00".to_string(),
    });
    assert_eq!(expected.get_name(), "new_message");
    assert_eq!(*rx1.try_recv().unwrap(), expected);
    assert_eq!(*rx2.try_recv().unwrap(), expected);
    assert!(matches!(rx3.try_recv(), Err(TryRecvError::Empty)));
}

#[test]
fn dispatch_survives_bad_payloads_and_goes_on() {
    let svc = NotifService::new();
    let mut rx1 = svc.register(1);
    // an unrecognized op, an unrecognized channel and malformed JSON all
    // come back as errors instead of stopping anything
    let bad_op = r#"{"op":"TRUNCATE","old":null,"new":null}"#;
    assert_eq!(
        svc.dispatch("chat_updated", bad_op).unwrap_err(),
        AppError::InvalidError("TRUNCATE".to_string())
    );
    assert!(svc.dispatch("unknown_channel", "{}").is_err());
    assert!(svc.dispatch("chat_updated", "{oops").is_err());
    // the next well-formed notification is still delivered
    let payload = r#"{"message":{"id":1,"chat_id":1,"sender_id":2,"content":"ok","created_at":"t"},"members":[1]}"#;
    svc.dispatch("chat_message_created", payload).unwrap();
    assert!(rx1.try_recv().is_ok());
}

#[test]
fn event_names_are_the_wire_tags() {
    let c = Chat {
        id: 1,
        ws_id: 1,
        name: None,
        chat_type: ChatType::Single,
        members: vec![1],
        status: 1,
        created_at: "t".to_string(),
    };
    let m = Msg {
        id: 1,
        chat_id: 1,
        sender_id: 1,
        content: "x".to_string(),
        created_at: "t".to_string(),
    };
    assert_eq!(AppEvent::NewChat(c.clone()).get_name(), "new_chat");
    assert_eq!(AppEvent::AddToChat(c.clone()).get_name(), "add_to_chat");
    assert_eq!(AppEvent::RemoveFromChat(c).get_name(), "remove_from_chat");
    assert_eq!(AppEvent::NewMessage(m).get_name(), "new_message");
}
