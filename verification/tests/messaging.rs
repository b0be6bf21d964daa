use chat_governor::auth::bearer_token;
use chat_governor::auth::session_gate;
use chat_governor::auth::validate_claims;
use chat_governor::auth::JwtPayload;
use chat_governor::auth::SessionRejection;
use chat_governor::context::build_context;
use chat_governor::context::collect_presign_keys;
use chat_governor::context::enhanced_instructions;
use chat_governor::context::lookup_url;
use chat_governor::context::resolve_message_refs;
use chat_governor::media::file_extension;
use chat_governor::media::mime_from_extension;
use chat_governor::memory::extract_json_object;
use chat_governor::memory::interpret_memory_response;
use chat_governor::memory::merge_memories;
use chat_governor::model::AIInfluencer;
use chat_governor::model::Conversation;
use chat_governor::model::Environment;
use chat_governor::model::InfluencerStatus;
use chat_governor::model::Message;
use chat_governor::model::MessageRole;
use chat_governor::model::MessageType;
use chat_governor::moderation::strip_guardrails;
use chat_governor::moderation::with_guardrails;
use chat_governor::orchestrator::assistant_message_draft;
use chat_governor::orchestrator::audio_content;
use chat_governor::orchestrator::gate_send;
use chat_governor::orchestrator::generation_input;
use chat_governor::orchestrator::notification_preview;
use chat_governor::orchestrator::resolve_generation;
use chat_governor::orchestrator::response_status;
use chat_governor::orchestrator::select_backend;
use chat_governor::orchestrator::transcription_plan;
use chat_governor::orchestrator::user_message_draft;
use chat_governor::orchestrator::GenerationBackend;
use chat_governor::orchestrator::SendError;
use chat_governor::orchestrator::SendGate;
use chat_governor::requests::ListConversationsParams;
use chat_governor::requests::ListMessagesParams;
use chat_governor::requests::PaginationParams;
use chat_governor::requests::SendMessageRequest;

fn text_request(content: &str) -> SendMessageRequest {
    SendMessageRequest {
        message_type: "text".to_string(),
        content: Some(content.to_string()),
        media_urls: None,
        audio_url: None,
        audio_duration_seconds: None,
        client_message_id: None,
    }
}

fn sample_message(id: &str, role: MessageRole, content: &str) -> Message {
    Message {
        id: id.to_string(),
        conversation_id: "conv-1".to_string(),
        role,
        content: Some(content.to_string()),
        message_type: MessageType::Text,
        media_urls: Vec::new(),
        audio_url: None,
        audio_duration_seconds: None,
        token_count: None,
        client_message_id: None,
        created_at: 1000,
        status: "sent".to_string(),
        is_read: false,
    }
}

fn sample_conversation(owner: &str) -> Conversation {
    Conversation {
        id: "conv-1".to_string(),
        user_id: owner.to_string(),
        influencer_id: "inf-1".to_string(),
        memories: Vec::new(),
    }
}

fn sample_influencer(status: InfluencerStatus) -> AIInfluencer {
    AIInfluencer {
        id: "inf-1".to_string(),
        name: "luna".to_string(),
        display_name: "Luna".to_string(),
        avatar_url: None,
        system_instructions: "You are Luna.".to_string(),
        suggested_messages: Vec::new(),
        is_active: status,
        is_nsfw: false,
    }
}

// ── request validation ──

#[test]
fn test_send_message_validation_error_empty_content() {
    let req = text_request("   ");
    let err = req.validate_content().unwrap_err();
    assert_eq!(err, "content is required for text messages");
    // The admission check rejects before anything is fetched or written.
    let gate = gate_send(&req, "user-1", &None, None, None, &None);
    match gate {
        SendGate::Reject(SendError::Validation(m)) => {
            assert_eq!(m, "content is required for text messages")
        }
        _ => panic!("expected a validation rejection"),
    }
}

#[test]
fn test_send_message_validation_error_invalid_type() {
    let mut req = text_request("hi");
    req.message_type = "video".to_string();
    assert_eq!(req.parsed_message_type(), None);
    assert_eq!(req.validate_content().unwrap_err(), "Invalid message type");
}

#[test]
fn test_send_message_accepts_uppercase_text_type() {
    let mut req = text_request("hello");
    req.message_type = "TEXT".to_string();
    assert_eq!(req.parsed_message_type(), Some(MessageType::Text));
    assert!(req.validate_content().is_ok());
}

#[test]
fn test_send_image_message_missing_media_urls() {
    let mut req = text_request("");
    req.message_type = "image".to_string();
    req.content = None;
    assert_eq!(
        req.validate_content().unwrap_err(),
        "media_urls is required for image messages"
    );
    req.media_urls = Some(vec!["k".to_string(); 11]);
    assert_eq!(req.validate_content().unwrap_err(), "Too many media URLs (max 10)");
    req.media_urls = Some(vec!["k".to_string(); 10]);
    assert!(req.validate_content().is_ok());
}

#[test]
fn test_send_multimodal_message_missing_media_urls() {
    let mut req = text_request("caption");
    req.message_type = "multimodal".to_string();
    assert_eq!(
        req.validate_content().unwrap_err(),
        "media_urls is required for multimodal messages"
    );
}

#[test]
fn test_send_audio_message_missing_audio_url() {
    let mut req = text_request("");
    req.message_type = "audio".to_string();
    req.content = None;
    assert_eq!(
        req.validate_content().unwrap_err(),
        "audio_url is required for audio messages"
    );
    req.audio_url = Some("uploads/a.m4a".to_string());
    assert!(req.validate_content().is_ok());
}

// ── the admission check ──

#[test]
fn test_send_message_forbidden() {
    let req = text_request("hi");
    let conv = Some(sample_conversation("someone-else"));
    let gate = gate_send(&req, "user-1", &conv, None, None, &None);
    match gate {
        SendGate::Reject(e @ SendError::Authorization(_)) => {
            assert_eq!(e.status_code(), 403);
            assert_eq!(e.error_code(), "forbidden");
            assert_eq!(e.message(), "Not your conversation");
        }
        _ => panic!("expected an authorization rejection"),
    }
}

#[test]
fn test_send_message_to_nonexistent_conversation() {
    let req = text_request("hi");
    let gate = gate_send(&req, "user-1", &None, None, None, &None);
    match gate {
        SendGate::Reject(e @ SendError::NotFound(_)) => {
            assert_eq!(e.status_code(), 404);
            assert_eq!(e.message(), "Conversation not found");
        }
        _ => panic!("expected a not-found rejection"),
    }
}

#[test]
fn test_send_message_discontinued_influencer() {
    let req = text_request("hi");
    let conv = Some(sample_conversation("user-1"));
    let influencer = Some(sample_influencer(InfluencerStatus::Discontinued));
    let gate = gate_send(&req, "user-1", &conv, None, None, &influencer);
    match gate {
        SendGate::Reject(e @ SendError::Unavailable(_)) => {
            assert_eq!(e.status_code(), 403);
            assert_eq!(
                e.message(),
                "This bot has been deleted and can no longer receive messages."
            );
        }
        _ => panic!("expected an availability rejection"),
    }
}

#[test]
fn test_message_content_not_duplicated() {
    // A retried send with the same dedup key replays the stored pair
    // byte for byte and plans no further work.
    let mut req = text_request("hi again");
    req.client_message_id = Some("client-7".to_string());
    let conv = Some(sample_conversation("user-1"));
    let influencer = Some(sample_influencer(InfluencerStatus::Active));
    let stored_user = sample_message("m-1", MessageRole::User, "hi again");
    let stored_reply = sample_message("m-2", MessageRole::Assistant, "hello!");
    let gate = gate_send(
        &req,
        "user-1",
        &conv,
        Some(stored_user.clone()),
        Some(stored_reply.clone()),
        &influencer,
    );
    match gate {
        SendGate::Replay(u, a) => {
            assert_eq!(u, stored_user);
            assert_eq!(a, stored_reply);
            assert_eq!(u.id, "m-1");
            assert_eq!(a.id, "m-2");
        }
        _ => panic!("expected a replay"),
    }
    // Without a stored assistant reply the flow proceeds instead.
    let gate2 = gate_send(&req, "user-1", &conv, Some(stored_user), None, &influencer);
    assert!(matches!(gate2, SendGate::Proceed(MessageType::Text)));
}

// ── later decisions ──

#[test]
fn test_transcription_plan_only_for_audio_with_reference() {
    assert_eq!(
        transcription_plan(&MessageType::Audio, &Some("uploads/a.m4a".to_string())),
        Some("uploads/a.m4a".to_string())
    );
    assert_eq!(transcription_plan(&MessageType::Audio, &None), None);
    assert_eq!(
        transcription_plan(&MessageType::Text, &Some("uploads/a.m4a".to_string())),
        None
    );
}

#[test]
fn test_audio_content_frames_transcript_and_degrades() {
    assert_eq!(
        audio_content(Some("see you at noon".to_string())),
        "[Transcribed: see you at noon]"
    );
    assert_eq!(audio_content(None), "[Audio message - transcription unavailable]");
}

#[test]
fn test_message_drafts() {
    let mut req = text_request("hello");
    req.client_message_id = Some("c-1".to_string());
    let draft = user_message_draft("conv-1", &req, Some("hello".to_string()), MessageType::Text);
    assert_eq!(draft.conversation_id, "conv-1");
    assert_eq!(draft.role, MessageRole::User);
    assert_eq!(draft.content, Some("hello".to_string()));
    assert_eq!(draft.client_message_id, Some("c-1".to_string()));
    assert_eq!(draft.token_count, None);

    let reply = assistant_message_draft("conv-1", "hey there".to_string(), 12);
    assert_eq!(reply.role, MessageRole::Assistant);
    assert_eq!(reply.content, Some("hey there".to_string()));
    assert_eq!(reply.message_type, MessageType::Text);
    assert_eq!(reply.token_count, Some(12));
    assert_eq!(reply.client_message_id, None);
}

#[test]
fn test_generation_failure_yields_fallback() {
    let degraded = resolve_generation(None);
    assert_eq!(
        degraded.text,
        "I'm having trouble generating a response right now. Please try again."
    );
    assert_eq!(degraded.token_count, 0);
    assert!(degraded.degraded);
    assert_eq!(response_status(degraded.degraded), 503);

    let fine = resolve_generation(Some(("all good".to_string(), 9)));
    assert_eq!(fine.text, "all good");
    assert_eq!(fine.token_count, 9);
    assert!(!fine.degraded);
    assert_eq!(response_status(fine.degraded), 200);
}

#[test]
fn test_backend_selection() {
    assert_eq!(select_backend(true, true), GenerationBackend::Alternate);
    assert_eq!(select_backend(true, false), GenerationBackend::Default);
    assert_eq!(select_backend(false, true), GenerationBackend::Default);
    assert_eq!(select_backend(false, false), GenerationBackend::Default);
}

#[test]
fn test_generation_input_fallback_chain() {
    assert_eq!(
        generation_input(&Some("stored".to_string()), &Some("raw".to_string())),
        "stored"
    );
    assert_eq!(generation_input(&None, &Some("raw".to_string())), "raw");
    assert_eq!(generation_input(&None, &None), "What do you think?");
}

#[test]
fn test_notification_preview_truncation() {
    assert_eq!(notification_preview("short"), "short");
    let long: String = "x".repeat(150);
    let preview = notification_preview(&long);
    assert_eq!(preview.len(), 103);
    assert!(preview.ends_with("..."));
    assert!(preview.starts_with("xxxx"));
    let exact: String = "y".repeat(100);
    assert_eq!(notification_preview(&exact), exact);
}

// ── context building ──

#[test]
fn test_build_context_excludes_current_and_keeps_last_ten() {
    let mut all = Vec::new();
    for i in 0..11 {
        all.push(sample_message(&format!("m-{i}"), MessageRole::User, "x"));
    }
    all.push(sample_message("just-written", MessageRole::User, "x"));
    let history = build_context(all, "just-written");
    assert_eq!(history.len(), 10);
    assert_eq!(history[0].id, "m-1");
    assert_eq!(history[9].id, "m-10");
}

#[test]
fn test_build_context_short_history() {
    let all = vec![
        sample_message("a", MessageRole::User, "x"),
        sample_message("current", MessageRole::User, "x"),
    ];
    let history = build_context(all, "current");
    assert_eq!(history.len(), 1);
    assert_eq!(history[0].id, "a");
}

#[test]
fn test_collect_and_resolve_storage_refs() {
    let mut m = sample_message("m-1", MessageRole::User, "x");
    m.media_urls = vec![
        "uploads/pic.jpg".to_string(),
        "https://cdn.example/pic2.jpg".to_string(),
    ];
    m.audio_url = Some("uploads/voice.m4a".to_string());
    let history = vec![m.clone()];
    let keys = collect_presign_keys(&history);
    assert_eq!(keys, vec!["uploads/pic.jpg".to_string(), "uploads/voice.m4a".to_string()]);

    let url_map = vec![
        ("uploads/pic.jpg".to_string(), "https://signed/pic.jpg".to_string()),
        ("uploads/voice.m4a".to_string(), "https://signed/voice.m4a".to_string()),
    ];
    assert_eq!(
        lookup_url(&url_map, "uploads/pic.jpg"),
        Some("https://signed/pic.jpg".to_string())
    );
    assert_eq!(lookup_url(&url_map, "unknown"), None);

    let resolved = resolve_message_refs(m, &url_map);
    assert_eq!(resolved.media_urls[0], "https://signed/pic.jpg");
    assert_eq!(resolved.media_urls[1], "https://cdn.example/pic2.jpg");
    assert_eq!(resolved.audio_url, Some("https://signed/voice.m4a".to_string()));
    assert_eq!(resolved.id, "m-1");
}

#[test]
fn test_enhanced_instructions_with_memories() {
    let none = enhanced_instructions("You are Luna.", &Vec::new());
    assert_eq!(none, "You are Luna.");
    let memories = vec![
        ("name".to_string(), "Sam".to_string()),
        ("city".to_string(), "Pune".to_string()),
    ];
    let enriched = enhanced_instructions("You are Luna.", &memories);
    assert_eq!(
        enriched,
        "You are Luna.\n\n**MEMORIES:**\n- name: Sam\n- city: Pune\n"
    );
}

// ── memory extraction ──

#[test]
fn test_extract_json_object_slicing() {
    assert_eq!(
        extract_json_object("sure! {\"name\":\"Sam\"} hope that helps"),
        Some("{\"name\":\"Sam\"}".to_string())
    );
    assert_eq!(extract_json_object("no braces here"), None);
    assert_eq!(extract_json_object("} backwards {"), None);
}

#[test]
fn test_interpret_memory_response_merges() {
    let existing = vec![
        ("name".to_string(), "Sam".to_string()),
        ("city".to_string(), "Pune".to_string()),
    ];
    let merged = interpret_memory_response(
        "Extracted: {\"city\":\"Goa\",\"pet\":\"cat\"}",
        &existing,
    );
    assert_eq!(
        merged,
        vec![
            ("name".to_string(), "Sam".to_string()),
            ("city".to_string(), "Goa".to_string()),
            ("pet".to_string(), "cat".to_string()),
        ]
    );
}

#[test]
fn test_interpret_memory_response_failures_keep_existing() {
    let existing = vec![("name".to_string(), "Sam".to_string())];
    assert_eq!(interpret_memory_response("no json at all", &existing), existing);
    assert_eq!(interpret_memory_response("{not valid json}", &existing), existing);
    assert_eq!(interpret_memory_response("{}", &existing), existing);
    assert_eq!(
        interpret_memory_response("{\"nested\":{\"x\":1}}", &existing),
        existing
    );
}

#[test]
fn test_merge_memories_overrides_and_appends() {
    let existing = vec![("a".to_string(), "1".to_string())];
    let fresh = vec![
        ("a".to_string(), "2".to_string()),
        ("b".to_string(), "3".to_string()),
    ];
    assert_eq!(
        merge_memories(&existing, &fresh),
        vec![("a".to_string(), "2".to_string()), ("b".to_string(), "3".to_string())]
    );
}

// ── moderation ──

#[test]
fn test_guardrails_round_trip() {
    let instructions = "You are a pirate.";
    let wrapped = with_guardrails(instructions);
    assert!(wrapped.starts_with("You are a pirate.\nIMPORTANT:"));
    assert!(wrapped.contains("Key Rules:"));
    let stripped = strip_guardrails(&wrapped);
    assert_eq!(stripped, instructions);
}

#[test]
fn test_strip_guardrails_plain_text() {
    assert_eq!(strip_guardrails("  plain persona  "), "plain persona");
}

// ── media helpers ──

#[test]
fn test_file_extension() {
    assert_eq!(file_extension("photo.JPG"), ".JPG");
    assert_eq!(file_extension("archive.tar.gz"), ".gz");
    assert_eq!(file_extension("no_extension"), "");
}

#[test]
fn test_mime_from_extension() {
    assert_eq!(mime_from_extension(".jpg"), "image/jpeg");
    assert_eq!(mime_from_extension(".JPEG"), "image/jpeg");
    assert_eq!(mime_from_extension(".png"), "image/png");
    assert_eq!(mime_from_extension(".m4a"), "audio/mp4");
    assert_eq!(mime_from_extension(".xyz"), "application/octet-stream");
}

// ── enums ──

#[test]
fn test_enum_round_trips() {
    assert_eq!(MessageType::from_str("audio"), Some(MessageType::Audio));
    assert_eq!(MessageType::Audio.as_str(), "audio");
    assert_eq!(MessageRole::from_str("ASSISTANT"), Some(MessageRole::Assistant));
    assert_eq!(MessageRole::Assistant.as_str(), "assistant");
    assert_eq!(MessageRole::from_str("bot"), None);
    assert_eq!(InfluencerStatus::from_str("discontinued"), InfluencerStatus::Discontinued);
    assert_eq!(InfluencerStatus::from_str("DISCONTINUED"), InfluencerStatus::Active);
    assert_eq!(InfluencerStatus::from_str("whatever"), InfluencerStatus::Active);
    assert_eq!(InfluencerStatus::ComingSoon.as_str(), "coming_soon");
    assert_eq!(Environment::from_str("Production"), Environment::Production);
    assert_eq!(Environment::from_str("staging"), Environment::Staging);
    assert_eq!(Environment::from_str("local"), Environment::Development);
    assert_eq!(Environment::Development.as_str(), "development");
}

// ── pagination ──

#[test]
fn test_pagination_params() {
    let p = PaginationParams { limit: Some(500), offset: Some(-3) };
    assert_eq!(p.limit(50, 100), 100);
    assert_eq!(p.offset(), 0);
    let q = PaginationParams { limit: None, offset: None };
    assert_eq!(q.limit(50, 100), 50);
    assert_eq!(q.offset(), 0);
    let r = PaginationParams { limit: Some(0), offset: Some(9) };
    assert_eq!(r.limit(50, 100), 1);
    assert_eq!(r.offset(), 9);
}

#[test]
fn test_list_params() {
    let c = ListConversationsParams { limit: None, offset: None, influencer_id: None };
    assert_eq!(c.limit(), 20);
    assert_eq!(c.offset(), 0);
    let m = ListMessagesParams { limit: Some(999), offset: Some(5), order: Some("asc".to_string()) };
    assert_eq!(m.limit(), 200);
    assert_eq!(m.offset(), 5);
    assert_eq!(m.order(), "asc");
    let d = ListMessagesParams { limit: None, offset: None, order: Some("ASC".to_string()) };
    assert_eq!(d.limit(), 50);
    assert_eq!(d.order(), "desc");
    let e = ListMessagesParams { limit: None, offset: None, order: None };
    assert_eq!(e.order(), "desc");
}

// ── auth ──

#[test]
fn test_bearer_token_extraction() {
    assert_eq!(bearer_token(Some("Bearer abc.def")), Ok("abc.def".to_string()));
    assert_eq!(bearer_token(Some("bearer xyz")), Ok("xyz".to_string()));
    assert_eq!(
        bearer_token(Some("Token abc")),
        Err("Invalid authorization header format. Expected: Bearer <token>".to_string())
    );
    assert_eq!(bearer_token(None), Err("Missing authorization header".to_string()));
}

#[test]
fn test_validate_claims() {
    let claims = JwtPayload {
        sub: "user-1".to_string(),
        iss: "https://auth.yral.com".to_string(),
        exp: 2000,
        iat: None,
        aud: None,
        jti: None,
    };
    assert!(validate_claims(&claims, 1000).is_ok());
    assert_eq!(
        validate_claims(&claims, 2000).unwrap_err(),
        "Invalid token: expired"
    );
    let mut wrong_issuer = claims.clone();
    wrong_issuer.iss = "https://evil.example".to_string();
    assert_eq!(
        validate_claims(&wrong_issuer, 1000).unwrap_err(),
        "Invalid token: unknown issuer"
    );
    let mut empty_sub = claims.clone();
    empty_sub.sub = String::new();
    assert_eq!(
        validate_claims(&empty_sub, 1000).unwrap_err(),
        "Invalid token: missing sub"
    );
}

#[test]
fn test_websocket_session_gate() {
    let claims = JwtPayload {
        sub: "user-1".to_string(),
        iss: "https://auth.yral.com".to_string(),
        exp: 2000,
        iat: None,
        aud: None,
        jti: None,
    };
    let token = "tok".to_string();
    assert!(session_gate(Some(&token), Some(&claims), "user-1").is_ok());
    match session_gate(None, None, "user-1") {
        Err(SessionRejection::Unauthenticated(code, reason)) => {
            assert_eq!(code, 4001);
            assert_eq!(reason, "Missing authentication token");
        }
        _ => panic!("expected unauthenticated"),
    }
    let empty = String::new();
    assert!(matches!(
        session_gate(Some(&empty), None, "user-1"),
        Err(SessionRejection::Unauthenticated(4001, _))
    ));
    match session_gate(Some(&token), None, "user-1") {
        Err(SessionRejection::Unauthenticated(code, reason)) => {
            assert_eq!(code, 4001);
            assert_eq!(reason, "Invalid or expired token");
        }
        _ => panic!("expected unauthenticated"),
    }
    match session_gate(Some(&token), Some(&claims), "user-2") {
        Err(SessionRejection::CrossUser(code, reason)) => {
            assert_eq!(code, 4003);
            assert_eq!(reason, "Forbidden");
        }
        _ => panic!("expected cross-user rejection"),
    }
}

// ── migration splitting ──

#[test]
fn test_split_sql_statements_basic() {
    let sql = "CREATE TABLE a (x INT);\nCREATE TABLE b (y INT);\n";
    let statements = chat_governor::migrate::split_sql_statements(sql);
    assert_eq!(
        statements,
        vec![
            "CREATE TABLE a (x INT);\n".to_string(),
            "CREATE TABLE b (y INT);\n".to_string(),
        ]
    );
}

#[test]
fn test_split_sql_statements_trigger_block() {
    let sql = "CREATE TRIGGER t AFTER INSERT ON a\nBEGIN\n  UPDATE a SET x = 1;\nEND;\nCREATE TABLE c (z INT);\n";
    let statements = chat_governor::migrate::split_sql_statements(sql);
    assert_eq!(statements.len(), 2);
    assert_eq!(
        statements[0],
        "CREATE TRIGGER t AFTER INSERT ON a\nBEGIN\n  UPDATE a SET x = 1;\nEND;\n"
    );
    assert_eq!(statements[1], "CREATE TABLE c (z INT);\n");
}

#[test]
fn test_split_sql_statements_multiline_and_tail() {
    let sql = "CREATE TABLE a (\n  x INT\n);\nPRAGMA journal_mode = WAL";
    let statements = chat_governor::migrate::split_sql_statements(sql);
    assert_eq!(statements.len(), 2);
    assert_eq!(statements[0], "CREATE TABLE a (\n  x INT\n);\n");
    assert_eq!(statements[1], "PRAGMA journal_mode = WAL\n");
    assert!(chat_governor::migrate::split_sql_statements("  \n \n").is_empty());
}

#[test]
fn test_split_sql_statements_strips_carriage_returns() {
    let sql = "CREATE TABLE a (x INT);\r\nCREATE TABLE b (y INT);\r\n";
    let statements = chat_governor::migrate::split_sql_statements(sql);
    assert_eq!(
        statements,
        vec![
            "CREATE TABLE a (x INT);\n".to_string(),
            "CREATE TABLE b (y INT);\n".to_string(),
        ]
    );
}

#[test]
fn test_memory_prompt_shape() {
    let prompt = chat_governor::memory::memory_prompt(
        "I am 30",
        "Nice!",
        &vec![("name".to_string(), "Sam".to_string())],
    );
    assert!(prompt.starts_with("Extract any factual information"));
    assert!(prompt.contains("User: I am 30\nAssistant: Nice!"));
    assert!(prompt.contains("Current memories:\n- name: Sam\n"));
    let empty = chat_governor::memory::memory_prompt("hi", "hey", &Vec::new());
    assert!(empty.contains("Current memories:\n(none)\n"));
}
