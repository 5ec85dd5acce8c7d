use personal_context_core::llm::anthropic::{join_text_blocks, max_tokens_for, model_id_for, request_model_id, ApiModel, ContentBlock};
use personal_context_core::llm::{DummyCloudAdapter, DummyLocalAdapter, ModelRegistry};
use personal_context_core::models::message::{Message, MessageRole};
use personal_context_core::models::routing::ModelOption;
use personal_context_core::services::chat_service::{adapter_for_turn, assistant_message, context_keywords, keywords, route_turn, turn_response};
use personal_context_core::services::memory_service::retrieval_query;
use personal_context_core::services::routing_service::RoutingService;
use personal_context_core::state::{AppSettings, JobQueue};
use personal_context_core::text::{decimal_string, join_strings, replace_all_str, split_pieces, split_words, str_contains, Separator};

#[test]
fn stub_adapters_echo_their_prompts() {
    let local = DummyLocalAdapter { model_name: "local_general".to_string() };
    let r = local.respond("sys", "hello there");
    assert_eq!(r.model, "local_general");
    assert_eq!(r.content, "[LOCAL:local_general] stub response\n--- system ---\nsys\n--- user ---\nhello there");
    assert_eq!(r.input_tokens, 3);
    assert_eq!(r.output_tokens, 32);
    let cloud = DummyCloudAdapter { model_name: "cloud_fast".to_string() };
    let r = cloud.respond("", "");
    assert_eq!(r.content, "[CLOUD:cloud_fast] stub response\n--- system ---\n\n--- user ---\n");
    assert_eq!(r.input_tokens, 0);
}

#[test]
fn anthropic_request_pieces() {
    assert_eq!(model_id_for("cloud_fast"), ApiModel::Fast);
    assert_eq!(model_id_for("cloud_reasoning"), ApiModel::Reasoning);
    assert_eq!(model_id_for("other"), ApiModel::Fast);
    assert_eq!(request_model_id("cloud_fast", "fast-id", "reasoning-id"), "fast-id");
    assert_eq!(request_model_id("cloud_reasoning", "fast-id", "reasoning-id"), "reasoning-id");
    assert_eq!(request_model_id("local_general", "fast-id", "reasoning-id"), "fast-id");
    assert_eq!(max_tokens_for(None), 1024);
    assert_eq!(max_tokens_for(Some(64)), 64);
    let blocks = vec![
        ContentBlock { kind: "text".to_string(), text: Some("Hello".to_string()) },
        ContentBlock { kind: "tool_use".to_string(), text: Some("ignored".to_string()) },
        ContentBlock { kind: "text".to_string(), text: None },
        ContentBlock { kind: "text".to_string(), text: Some(", world".to_string()) },
    ];
    assert_eq!(join_text_blocks(&blocks), "Hello, world");
}

#[test]
fn keywords_are_long_words_in_order() {
    assert_eq!(keywords("  hello   world, this is great\tstuff ", 8), vec!["hello", "world,", "great", "stuff"]);
    assert_eq!(keywords("alpha bravo charlie delta", 2), vec!["alpha", "bravo"]);
    assert!(keywords("", 8).is_empty());
    let messages = vec![
        Message::new("c".to_string(), MessageRole::User, "first message".to_string()),
        Message::new("c".to_string(), MessageRole::Assistant, "second answer".to_string()),
    ];
    assert_eq!(context_keywords(&messages), vec!["first", "message", "second", "answer"]);
}

#[test]
fn send_chat_turn_sweden_question() {
    // The turn's decisions, with the stub cloud model standing in for the API.
    let question = "What is the capital of Sweden?";
    let router = RoutingService::new();
    let user = Message::new("conv".to_string(), MessageRole::User, question.to_string());
    let d = route_turn(&router, "conv", &user.id, question);
    assert_eq!(d.conversation_id.as_deref(), Some("conv"));
    assert_eq!(d.message_id.as_deref(), Some(user.id.as_str()));
    assert_eq!(d.model_chosen, ModelOption::CloudFast);
    let reply = DummyCloudAdapter { model_name: d.model_chosen.as_str().to_string() }.respond("system", question);
    let m = assistant_message("conv", reply.content, d.model_chosen);
    assert_eq!(m.role, MessageRole::Assistant);
    assert_eq!(m.model_used.as_deref(), Some("cloud_fast"));
    let resp = turn_response(m, d);
    assert!(!resp.assistant_message.content.is_empty(), "response should not be empty");
    assert_eq!(resp.model_used, resp.route_decision.model_chosen.as_str(), "model_used should match route decision");
}

#[test]
fn retrieval_query_escapes_quotes() {
    assert!(retrieval_query(&vec![], 5).is_none());
    let q = retrieval_query(&vec!["user's".to_string(), "bank".to_string()], 5).unwrap();
    assert_eq!(
        q,
        "SELECT id, kind, scope, sensitivity, content, salience_score, source_kind, source_id, entity_id, created_at, updated_at, expires_at FROM memories WHERE content LIKE '%user''s%' OR content LIKE '%bank%' ORDER BY salience_score DESC LIMIT 5"
    );
}

#[test]
fn settings_and_queue() {
    let s = AppSettings::default();
    assert_eq!(s.default_local_model, "local_general");
    assert_eq!(s.default_cloud_model, "cloud_fast");
    let _q = JobQueue::new();
    let _d = JobQueue::default();
}

#[test]
fn text_primitives() {
    assert_eq!(decimal_string(0), "0");
    assert_eq!(decimal_string(1234567890), "1234567890");
    assert_eq!(join_strings(&vec!["a".to_string(), "b".to_string(), "c".to_string()], ", "), "a, b, c");
    assert_eq!(join_strings(&vec![], ", "), "");
    assert_eq!(replace_all_str("aaa", "aa", "b"), "ba");
    let escaped = replace_all_str("it's 'quoted'", "'", "''");
    assert_eq!(escaped, "it''s ''quoted''");
    assert_eq!(replace_all_str(&escaped, "''", "'"), "it's 'quoted'");
    assert_eq!(split_pieces("a,,b", Separator::NonAlphanumeric), vec!["a", "", "b"]);
    assert_eq!(split_pieces("", Separator::NonAlphanumeric), vec![""]);
    assert_eq!(split_words(" a  b "), vec!["a", "b"]);
    assert!(str_contains("hello", ""));
    assert!(str_contains("hello", "llo"));
    assert!(!str_contains("hel", "hello"));
}

#[test]
fn registry_keeps_the_last_adapter_per_name() {
    let mut r: ModelRegistry<u32> = ModelRegistry::new();
    assert!(r.get("cloud_fast").is_none());
    assert_eq!(r.require("cloud_fast").unwrap_err(), "model 'cloud_fast' not found in registry");
    r.register("cloud_fast".to_string(), 1);
    r.register("local_general".to_string(), 2);
    r.register("cloud_fast".to_string(), 3);
    assert_eq!(r.get("cloud_fast"), Some(&3));
    assert_eq!(r.require("local_general"), Ok(&2));
    let d: ModelRegistry<u32> = ModelRegistry::default();
    assert!(d.get("local_general").is_none());
}

#[test]
fn private_turns_use_the_local_adapter() {
    let mut r: ModelRegistry<&str> = ModelRegistry::new();
    r.register("local_general".to_string(), "local");
    r.register("cloud_fast".to_string(), "fast");
    let router = RoutingService::new();
    let d = router.route("What is my BANK balance?");
    assert_eq!(adapter_for_turn(&r, &d), Ok(&"local"));
    let d = router.route("hello there");
    assert_eq!(adapter_for_turn(&r, &d), Ok(&"fast"));
    let d = router.route("please compare these");
    assert_eq!(adapter_for_turn(&r, &d).unwrap_err(), "model 'cloud_reasoning' not found in registry");
}
