use personal_context_core::models::routing::{ModelOption, PrivacyLevel, RouteReason};
use personal_context_core::services::routing_service::{RoutingService, LONG_QUERY_THRESHOLD};

#[test]
fn routing_privacy_keyword_wins() {
    // "private" is a privacy keyword; "analyse" is a reasoning keyword and loses.
    let d = RoutingService::new().route("Analyse my private financial situation and help me plan");
    assert_eq!(d.model_chosen, ModelOption::LocalGeneral);
    assert_eq!(d.reason, RouteReason::PrivacyKeywordDetected);
    assert_eq!(d.privacy_level, PrivacyLevel::Sensitive);
    assert_eq!(
        d.explanation,
        "Privacy keyword 'private' detected — routing to local model to keep data on-device."
    );
    assert!(d.conversation_id.is_none() && d.message_id.is_none());
}

#[test]
fn routing_complexity_no_keyword_match() {
    let d = RoutingService::new().route("Write a detailed technical architecture for a distributed system");
    assert_eq!(d.model_chosen, ModelOption::CloudFast);
    assert_eq!(d.reason, RouteReason::SimpleQuery);
    assert_eq!(d.privacy_level, PrivacyLevel::Public);
    assert_eq!(d.explanation, "Short, non-sensitive query — routing to cloud_fast for low latency.");
}

#[test]
fn privacy_keywords_are_found_in_any_case_and_in_list_order() {
    let d = RoutingService::new().route("My PASSWORD and my bank");
    assert_eq!(d.model_chosen, ModelOption::LocalGeneral);
    assert_eq!(d.explanation, "Privacy keyword 'password' detected — routing to local model to keep data on-device.");
    // "bank" precedes "medical" in the keyword list even though it comes later in the text.
    let d = RoutingService::new().route("medical bills from the bank");
    assert_eq!(d.explanation, "Privacy keyword 'bank' detected — routing to local model to keep data on-device.");
}

#[test]
fn long_queries_go_to_reasoning() {
    assert_eq!(LONG_QUERY_THRESHOLD, 600);
    let q = "a".repeat(601);
    let d = RoutingService::new().route(&q);
    assert_eq!(d.model_chosen, ModelOption::CloudReasoning);
    assert_eq!(d.reason, RouteReason::QueryTooLong);
    assert_eq!(d.privacy_level, PrivacyLevel::Public);
    assert_eq!(d.explanation, "Query length 601 chars exceeds threshold 600 — routing to cloud_reasoning.");
    // Exactly at the threshold is not long.
    let d = RoutingService::new().route(&"a".repeat(600));
    assert_eq!(d.reason, RouteReason::SimpleQuery);
    // The length is counted in characters: 301 two-byte characters are short.
    let d = RoutingService::new().route(&"é".repeat(301));
    assert_eq!(d.model_chosen, ModelOption::CloudFast);
    assert_eq!(d.reason, RouteReason::SimpleQuery);
    assert_eq!(d.privacy_level, PrivacyLevel::Public);
    let d = RoutingService::new().route(&"é".repeat(601));
    assert_eq!(d.explanation, "Query length 601 chars exceeds threshold 600 — routing to cloud_reasoning.");
    // A privacy keyword wins over length.
    let d = RoutingService::new().route(&format!("{} secret", "b".repeat(700)));
    assert_eq!(d.reason, RouteReason::PrivacyKeywordDetected);
}

#[test]
fn reasoning_keywords_go_to_reasoning() {
    let d = RoutingService::new().route("Please COMPARE these two plans step by step");
    assert_eq!(d.model_chosen, ModelOption::CloudReasoning);
    assert_eq!(d.reason, RouteReason::ComplexReasoning);
    assert_eq!(d.privacy_level, PrivacyLevel::Public);
    assert_eq!(d.explanation, "Reasoning keyword 'compare' detected — routing to cloud_reasoning.");
    // A keyword is found inside a longer word.
    let d = RoutingService::new().route("What is the reasoning here?");
    assert_eq!(d.explanation, "Reasoning keyword 'reason' detected — routing to cloud_reasoning.");
}

#[test]
fn empty_query_is_simple() {
    let d = RoutingService::new().route("");
    assert_eq!(d.model_chosen, ModelOption::CloudFast);
    assert_eq!(d.reason, RouteReason::SimpleQuery);
}
