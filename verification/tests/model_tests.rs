//! Tests for the domain model, the transfer types and the configuration.

use chat::config::{AppConfig, AuthConfig, ServerConfig};
use chat::domain::{Chat, ChatType, Msg, User};
use chat::error::ErrorOutput;
use chat::service::{choose_token, ChatUserDto, ClaimUser, CreateChatDto, FileService};

#[test]
fn new_chat_is_unsaved_and_active() {
    let c = Chat::new(
        3,
        Some("room".to_string()),
        ChatType::Group,
        vec![1, 2, 3],
    );
    assert_eq!(c.id, -1);
    assert_eq!(c.ws_id, 3);
    assert_eq!(c.name.as_deref(), Some("room"));
    assert_eq!(c.chat_type, ChatType::Group);
    assert_eq!(c.members, vec![1, 2, 3]);
    assert_eq!(c.status, 1);
}

#[test]
fn new_msg_is_unsaved() {
    let m = Msg::new(5, 9, "hello".to_string());
    assert_eq!(m.id, -1);
    assert_eq!(m.chat_id, 5);
    assert_eq!(m.sender_id, 9);
    assert_eq!(m.content, "hello");
}

#[test]
fn default_chat_type_is_single() {
    assert_eq!(ChatType::default(), ChatType::Single);
}

#[test]
fn local_addr_renders_host_and_port() {
    let cfg = AppConfig {
        server: ServerConfig {
            host: "127.0.0.1".to_string(),
            port: 8080,
            db_url: "postgres://localhost/chat".to_string(),
            upload_base_dir: "/tmp/uploads".to_string(),
        },
        auth: AuthConfig { sk: "SECRET-REDACTED".to_string(), pk: "pk".to_string() },
    };
    assert_eq!(cfg.server.local_addr(), "127.0.0.1:8080");
    let zero = ServerConfig { port: 0, ..cfg.server };
    assert_eq!(zero.local_addr(), "127.0.0.1:0");
}

#[test]
fn error_output_carries_the_message() {
    let out = ErrorOutput::new("boom".to_string());
    assert_eq!(out.error, "boom");
}

#[test]
fn file_service_keeps_the_base_dir() {
    let svc = FileService::new("/var/uploads");
    assert_eq!(svc.base_dir, "/var/uploads");
}

#[test]
fn claim_user_and_chat_user_from_user() {
    let u = User {
        id: 11,
        ws_id: 4,
        fullname: "Sam Doe".to_string(),
        email: "sam@example.com".to_string(),
        password_hash: "SECRET-REDACTED".to_string(),
        created_at: "t".to_string(),
    };
    let claim = ClaimUser::from(u.clone());
    assert_eq!(claim, ClaimUser { id: 11, ws_id: 4 });
    let dto = ChatUserDto::from(u);
    assert_eq!(dto.id, 11);
    assert_eq!(dto.display, "Sam Doe");
}

#[test]
fn chat_access_needs_active_chat_same_workspace_and_membership() {
    let chat = Chat {
        id: 2,
        ws_id: 4,
        name: None,
        chat_type: ChatType::Group,
        members: vec![10, 11],
        status: 1,
        created_at: "t".to_string(),
    };
    let member = ClaimUser { id: 10, ws_id: 4 };
    let outsider = ClaimUser { id: 12, ws_id: 4 };
    let other_ws = ClaimUser { id: 10, ws_id: 5 };
    assert!(member.can_access_chat(&chat));
    assert!(!outsider.can_access_chat(&chat));
    assert!(!other_ws.can_access_chat(&chat));
    let deleted = Chat { status: 0, ..chat };
    assert!(!member.can_access_chat(&deleted));
}

#[test]
fn bearer_token_wins_over_query_token() {
    assert_eq!(
        choose_token(Some("b".to_string()), Some("q".to_string())),
        Some("b".to_string())
    );
    assert_eq!(choose_token(None, Some("q".to_string())), Some("q".to_string()));
    assert_eq!(choose_token(None, None), None);
}

#[test]
fn create_chat_dto_from_chat_casts_members() {
    let c = Chat {
        id: 2,
        ws_id: 1,
        name: Some("general".to_string()),
        chat_type: ChatType::PublicChannel,
        members: vec![10, 20],
        status: 1,
        created_at: "t".to_string(),
    };
    let dto = CreateChatDto::from_chat(c);
    assert_eq!(dto.name.as_deref(), Some("general"));
    assert_eq!(dto.chat_type, ChatType::PublicChannel);
    assert_eq!(dto.members, vec![10u64, 20u64]);
}
