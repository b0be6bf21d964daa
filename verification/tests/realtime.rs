use chat_governor::events::influencer_summary;
use chat_governor::events::ChatEvent;
use chat_governor::events::InfluencerSummary;
use chat_governor::inbox::InboxRegistry;
use chat_governor::model::AIInfluencer;
use chat_governor::model::InfluencerStatus;
use chat_governor::model::MessageRole;
use chat_governor::model::MessageType;
use chat_governor::notify::push_configured;
use chat_governor::notify::push_payload;
use chat_governor::responses::MessageResponse;
use tokio::sync::mpsc;
use tokio::sync::mpsc::UnboundedReceiver;

fn sample_response(id: &str) -> MessageResponse {
    MessageResponse {
        id: id.to_string(),
        role: MessageRole::Assistant,
        content: Some("hello".to_string()),
        message_type: MessageType::Text,
        media_urls: vec!["a.jpg".to_string()],
        audio_url: None,
        audio_duration_seconds: None,
        token_count: Some(3),
        created_at: 1700000000,
        status: "sent".to_string(),
        is_read: false,
    }
}

fn summary() -> InfluencerSummary {
    InfluencerSummary {
        id: "inf-1".to_string(),
        display_name: "Luna".to_string(),
        avatar_url: None,
        is_online: true,
    }
}

fn drain(rx: &mut UnboundedReceiver<String>) -> Vec<String> {
    let mut out = Vec::new();
    while let Ok(msg) = rx.try_recv() {
        out.push(msg);
    }
    out
}

#[test]
fn test_publish_delivers_to_both_connections() {
    let mut registry = InboxRegistry::new();
    let (tx1, mut rx1) = mpsc::unbounded_channel();
    let (tx2, mut rx2) = mpsc::unbounded_channel();
    let id1 = registry.connect("user-1", tx1);
    let id2 = registry.connect("user-1", tx2);
    assert_ne!(id1, id2);

    let event = ChatEvent::TypingStatus {
        conversation_id: "conv-1".to_string(),
        influencer_id: "inf-1".to_string(),
        is_typing: true,
    };
    let delivered = registry.publish("user-1", &event);
    assert_eq!(delivered, vec![id1, id2]);
    assert_eq!(drain(&mut rx1).len(), 1);
    assert_eq!(drain(&mut rx2).len(), 1);

    // Close one connection and publish again: only the other receives.
    registry.disconnect("user-1", id1);
    let delivered2 = registry.publish("user-1", &event);
    assert_eq!(delivered2, vec![id2]);
    assert_eq!(drain(&mut rx1).len(), 0);
    assert_eq!(drain(&mut rx2).len(), 1);
}

#[test]
fn test_disconnect_then_publish_misses_removed_connection() {
    let mut registry = InboxRegistry::new();
    let (tx1, mut rx1) = mpsc::unbounded_channel();
    let (tx2, mut rx2) = mpsc::unbounded_channel();
    let id1 = registry.connect("user-1", tx1);
    let id2 = registry.connect("user-1", tx2);

    registry.disconnect("user-1", id1);
    let event = ChatEvent::ConversationRead {
        conversation_id: "conv-1".to_string(),
        read_at: "2024-01-01 00:00:00".to_string(),
    };
    let delivered = registry.publish("user-1", &event);
    assert!(!delivered.contains(&id1));
    assert_eq!(delivered, vec![id2]);
    assert!(drain(&mut rx1).is_empty());
    assert_eq!(drain(&mut rx2).len(), 1);
}

#[test]
fn test_publish_to_absent_user_is_noop() {
    let mut registry = InboxRegistry::new();
    let delivered = registry.publish(
        "nobody",
        &ChatEvent::TypingStatus {
            conversation_id: "c".to_string(),
            influencer_id: "i".to_string(),
            is_typing: false,
        },
    );
    assert!(delivered.is_empty());
}

#[test]
fn test_publish_prunes_dead_connections() {
    let mut registry = InboxRegistry::new();
    let (tx1, rx1) = mpsc::unbounded_channel();
    let (tx2, mut rx2) = mpsc::unbounded_channel();
    let id1 = registry.connect("user-1", tx1);
    let id2 = registry.connect("user-1", tx2);
    drop(rx1);

    let event = ChatEvent::TypingStatus {
        conversation_id: "conv-1".to_string(),
        influencer_id: "inf-1".to_string(),
        is_typing: true,
    };
    let delivered = registry.publish("user-1", &event);
    assert_eq!(delivered, vec![id2]);
    assert_eq!(drain(&mut rx2).len(), 1);
    let _ = id1;
}

#[test]
fn test_disconnect_last_connection_removes_user() {
    let mut registry = InboxRegistry::new();
    let (tx1, _rx1) = mpsc::unbounded_channel();
    let id1 = registry.connect("user-1", tx1);
    assert_eq!(registry.users.len(), 1);
    registry.disconnect("user-1", id1);
    assert!(registry.users.is_empty());
    // Disconnecting an unknown user or id is harmless.
    registry.disconnect("user-1", id1);
    registry.disconnect("ghost", 99);
}

#[test]
fn test_typing_event_wire_shape() {
    let event = ChatEvent::TypingStatus {
        conversation_id: "conv-1".to_string(),
        influencer_id: "inf-1".to_string(),
        is_typing: true,
    };
    assert_eq!(
        event.encode(),
        "{\"event\":\"typing_status\",\"data\":{\"conversation_id\":\"conv-1\",\"influencer_id\":\"inf-1\",\"is_typing\":true}}"
    );
}

#[test]
fn test_conversation_read_wire_shape() {
    let event = ChatEvent::ConversationRead {
        conversation_id: "conv-1".to_string(),
        read_at: "2024-01-01 00:00:00".to_string(),
    };
    let text = event.encode();
    let parsed: serde_json::Value = serde_json::from_str(&text).unwrap();
    assert_eq!(parsed["event"].as_str().unwrap(), "conversation_read");
    assert_eq!(parsed["data"]["conversation_id"].as_str().unwrap(), "conv-1");
    assert_eq!(parsed["data"]["unread_count"].as_i64().unwrap(), 0);
    assert_eq!(parsed["data"]["read_at"].as_str().unwrap(), "2024-01-01 00:00:00");
}

#[test]
fn test_new_message_event_wire_shape() {
    let event = ChatEvent::NewMessage {
        conversation_id: "conv-1".to_string(),
        message: sample_response("m-9"),
        influencer: summary(),
        unread_count: 4,
    };
    let text = event.encode();
    let parsed: serde_json::Value = serde_json::from_str(&text).unwrap();
    assert_eq!(parsed["event"].as_str().unwrap(), "new_message");
    let data = &parsed["data"];
    assert_eq!(data["conversation_id"].as_str().unwrap(), "conv-1");
    assert_eq!(data["unread_count"].as_i64().unwrap(), 4);
    let message = &data["message"];
    assert_eq!(message["id"].as_str().unwrap(), "m-9");
    assert_eq!(message["role"].as_str().unwrap(), "assistant");
    assert_eq!(message["content"].as_str().unwrap(), "hello");
    assert_eq!(message["message_type"].as_str().unwrap(), "text");
    assert_eq!(message["media_urls"][0].as_str().unwrap(), "a.jpg");
    assert!(message["audio_url"].is_null());
    assert_eq!(message["token_count"].as_i64().unwrap(), 3);
    assert_eq!(message["created_at"].as_i64().unwrap(), 1700000000);
    assert_eq!(message["is_read"].as_bool().unwrap(), false);
    let influencer = &data["influencer"];
    assert_eq!(influencer["id"].as_str().unwrap(), "inf-1");
    assert_eq!(influencer["display_name"].as_str().unwrap(), "Luna");
    assert!(influencer["avatar_url"].is_null());
    assert_eq!(influencer["is_online"].as_bool().unwrap(), true);
}

#[test]
fn test_event_encoding_escapes_content() {
    let mut message = sample_response("m-1");
    message.content = Some("line1\nline2 \"quoted\" \\slash\u{1}".to_string());
    let event = ChatEvent::NewMessage {
        conversation_id: "conv-1".to_string(),
        message,
        influencer: summary(),
        unread_count: 0,
    };
    let text = event.encode();
    let parsed: serde_json::Value = serde_json::from_str(&text).unwrap();
    assert_eq!(
        parsed["data"]["message"]["content"].as_str().unwrap(),
        "line1\nline2 \"quoted\" \\slash\u{1}"
    );
}

#[test]
fn test_broadcast_helpers_deliver() {
    let mut registry = InboxRegistry::new();
    let (tx, mut rx) = mpsc::unbounded_channel();
    let _ = registry.connect("user-1", tx);
    registry.broadcast_typing_status("user-1", "conv-1".to_string(), "inf-1".to_string(), false);
    registry.broadcast_conversation_read(
        "user-1",
        "conv-1".to_string(),
        "2024-01-01 00:00:00".to_string(),
    );
    registry.broadcast_new_message(
        "user-1",
        "conv-1".to_string(),
        sample_response("m-1"),
        summary(),
        1,
    );
    let frames = drain(&mut rx);
    assert_eq!(frames.len(), 3);
    assert!(frames[0].contains("typing_status"));
    assert!(frames[1].contains("conversation_read"));
    assert!(frames[2].contains("new_message"));
}

#[test]
fn test_influencer_summary_from_entity() {
    let influencer = AIInfluencer {
        id: "inf-1".to_string(),
        name: "luna".to_string(),
        display_name: "Luna".to_string(),
        avatar_url: Some("uploads/l.png".to_string()),
        system_instructions: String::new(),
        suggested_messages: Vec::new(),
        is_active: InfluencerStatus::Active,
        is_nsfw: false,
    };
    let s = influencer_summary(&influencer);
    assert_eq!(s.id, "inf-1");
    assert_eq!(s.display_name, "Luna");
    assert_eq!(s.avatar_url, Some("uploads/l.png".to_string()));
    assert!(s.is_online);
}

#[test]
fn test_push_payload_shape() {
    let payload = push_payload("Luna", "hey you", "conv-1", "inf-1");
    let parsed: serde_json::Value = serde_json::from_str(&payload).unwrap();
    assert_eq!(parsed["data"]["title"].as_str().unwrap(), "Luna");
    assert_eq!(parsed["data"]["body"].as_str().unwrap(), "hey you");
    assert_eq!(parsed["data"]["conversation_id"].as_str().unwrap(), "conv-1");
    assert_eq!(parsed["data"]["influencer_id"].as_str().unwrap(), "inf-1");
    assert_eq!(parsed["data"]["type"].as_str().unwrap(), "new_message");
}

#[test]
fn test_push_configured() {
    assert!(push_configured(&Some("token".to_string())));
    assert!(!push_configured(&Some(String::new())));
    assert!(!push_configured(&None));
}

#[test]
fn test_connection_ids_are_monotonic() {
    let mut registry = InboxRegistry::new();
    let mut last = None;
    for _ in 0..5 {
        let (tx, _rx) = mpsc::unbounded_channel();
        let id = registry.connect("user-1", tx);
        if let Some(prev) = last {
            assert!(id > prev);
        }
        last = Some(id);
    }
}
