use personal_context_core::jobs::extraction_worker::{
    ExtractionError, ExtractionJob, ExtractionWorker, MemoryCandidateRaw, RejectReason, SourceRef,
};
use personal_context_core::json::read_json;
use personal_context_core::models::message::{Message, MessageRole};

fn candidate(statement: &str, summary: &str, memory_type: &str, sensitivity: &str, with_source: bool) -> MemoryCandidateRaw {
    MemoryCandidateRaw {
        candidate_type: "fact".to_string(),
        memory_type: memory_type.to_string(),
        statement: statement.to_string(),
        summary: summary.to_string(),
        temporal_scope: "long_term".to_string(),
        sensitivity: sensitivity.to_string(),
        related_entity_names: vec![],
        source_refs: if with_source {
            vec![SourceRef { message_id: "m1".to_string(), excerpt: None }]
        } else {
            vec![]
        },
        rationale: "stated".to_string(),
    }
}

fn message(role: MessageRole, content: &str) -> Message {
    Message::new("c1".to_string(), role, content.to_string())
}

#[test]
fn salient_tokens_split_lowercase_and_drop_stop_words() {
    let tokens = ExtractionWorker::salient_tokens("The user's favourite Rust-project, and THIS Café");
    assert_eq!(tokens, vec!["favourite", "rust", "project", "café"]);
    assert!(ExtractionWorker::salient_tokens("the and for").is_empty());
    // "abc" has three bytes and is not salient; "abcd" has four and is.
    assert_eq!(ExtractionWorker::salient_tokens("abc abcd"), vec!["abcd"]);
}

#[test]
fn overlap_threshold() {
    assert!(ExtractionWorker::overlap_reaches_threshold("rust tooling matters", "Rust tooling matters!"));
    assert!(!ExtractionWorker::overlap_reaches_threshold("rust tooling", "python scripts"));
    assert!(!ExtractionWorker::overlap_reaches_threshold("", "rust"));
    // 3 shared of 4 distinct: 75% reaches the threshold; 2 of 3 (67%) does not.
    assert!(ExtractionWorker::overlap_reaches_threshold("alpha beta gamma delta", "alpha beta gamma"));
    assert!(!ExtractionWorker::overlap_reaches_threshold("alpha beta gamma", "alpha beta"));
    // Repeated tokens count once.
    assert!(ExtractionWorker::overlap_reaches_threshold("alpha alpha beta", "beta alpha"));
}

#[test]
fn explicit_statements_come_from_user_messages_only() {
    let c = candidate("Loves hiking", "", "preference", "public", true);
    let from_user = vec![message(MessageRole::User, "I really LOVES HIKING in spring")];
    assert!(ExtractionWorker::explicit_user_statement(&from_user, &c));
    let from_assistant = vec![message(MessageRole::Assistant, "loves hiking")];
    assert!(!ExtractionWorker::explicit_user_statement(&from_assistant, &c));
    let by_summary = candidate("Something else entirely", "coffee", "fact", "public", true);
    assert!(ExtractionWorker::explicit_user_statement(&vec![message(MessageRole::User, "more coffee please")], &by_summary));
}

#[test]
fn repeated_signals_count_messages_with_two_tokens() {
    let c = candidate("Building personal context project", "", "fact", "public", true);
    let messages = vec![
        message(MessageRole::User, "I am building a project"),
        message(MessageRole::Assistant, "Your personal project sounds fun"),
        message(MessageRole::User, "only building"),
    ];
    assert_eq!(ExtractionWorker::repeated_signal_count(&messages, &c), 2);
    let no_tokens = candidate("the and", "", "fact", "public", true);
    assert_eq!(ExtractionWorker::repeated_signal_count(&messages, &no_tokens), 0);
}

#[test]
fn named_entity_shapes() {
    assert!(ExtractionWorker::contains_named_entity_shape("I work at Acme Corp now"));
    assert!(!ExtractionWorker::contains_named_entity_shape("i work at acme corp"));
    assert!(ExtractionWorker::contains_named_entity_shape("Only Single"));
    assert!(!ExtractionWorker::contains_named_entity_shape("Only single"));
}

#[test]
fn actionable_and_sensitive() {
    assert!(ExtractionWorker::is_actionable(&candidate("x", "", "workflow_rule", "public", true)));
    assert!(ExtractionWorker::is_actionable(&candidate("She PREFERS green", "", "fact", "public", true)));
    assert!(ExtractionWorker::is_actionable(&candidate("Has a dog", "a goal of hers", "fact", "public", true)));
    assert!(!ExtractionWorker::is_actionable(&candidate("Has a dog", "pet", "fact", "public", true)));
    assert!(ExtractionWorker::is_sensitive(&candidate("x", "", "fact", "private", true)));
    assert!(ExtractionWorker::is_sensitive(&candidate("x", "", "fact", "highly_private", true)));
    assert!(!ExtractionWorker::is_sensitive(&candidate("x", "", "fact", "Private", true)));
}

#[test]
fn signals_and_rejection() {
    let messages = vec![message(MessageRole::User, "I prefer working with Rust Analyzer")];
    let c = candidate("Prefers working with Rust Analyzer", "", "preference", "private", true);
    let all = ExtractionWorker::score_candidates(&messages, &vec![c.clone(), candidate("x", "", "fact", "public", false)]);
    assert_eq!(all.len(), 2);
    let s = all[0];
    // "prefer" is not "prefers": 3 of 5 distinct tokens are shared, under 72%.
    assert!(!s.explicit_user_statement);
    assert_eq!(s.repeated_signal_count, 1);
    assert!(s.has_named_entities);
    assert!(s.is_actionable);
    assert!(s.is_sensitive);
    assert!(s.has_source_refs);
    assert_eq!(ExtractionWorker::auto_reject_reason(&s, false), None);
    assert_eq!(ExtractionWorker::auto_reject_reason(&s, true), Some(RejectReason::ConfidenceBelowThreshold));
    assert_eq!(ExtractionWorker::auto_reject_reason(&all[1], false), Some(RejectReason::NoSourceRefs));
    assert_eq!(RejectReason::NoSourceRefs.as_str(), "no_source_refs");
    assert_eq!(RejectReason::ConfidenceBelowThreshold.as_str(), "confidence_below_threshold");
    let job = ExtractionJob { conversation_id: "c1".to_string(), message_ids: vec!["m1".to_string()] };
    assert_eq!(job.message_ids.len(), 1);
}

#[test]
fn json_is_read_whole_or_from_the_braces() {
    let v = ExtractionWorker::extract_json_object("{\"a\": 1}").unwrap();
    assert_eq!(v.value()["a"], 1);
    assert_eq!(v.text(), "{\"a\": 1}");
    let v = ExtractionWorker::extract_json_object("Here you go:\n{\"a\": {\"b\": 2}}\nThanks!").unwrap();
    assert_eq!(v.value()["a"]["b"], 2);
    assert_eq!(v.text(), "{\"a\": {\"b\": 2}}");
    let v = ExtractionWorker::extract_json_object("[1, 2]").unwrap();
    assert_eq!(v.value()[1], 2);
    // A reply that is JSON as a whole is read whole, not from its braces.
    let v = ExtractionWorker::extract_json_object("[{\"a\":1}]").unwrap();
    assert_eq!(v.text(), "[{\"a\":1}]");
    assert!(v.value().is_array());
    let v = ExtractionWorker::extract_json_object("Sure! {\"a\": 1} Done.").unwrap();
    assert_eq!(v.text(), "{\"a\": 1}");
    let expected: serde_json::Value = serde_json::from_str("{\"a\": 1}").unwrap();
    assert_eq!(v.into_value(), expected);
    match ExtractionWorker::extract_json_object("no json here") {
        Err(e) => assert_eq!(e.message(), "no opening brace found"),
        Ok(_) => panic!("accepted"),
    }
    match ExtractionWorker::extract_json_object("oops { unfinished") {
        Err(e) => assert_eq!(e.message(), "no closing brace found"),
        Ok(_) => panic!("accepted"),
    }
    match ExtractionWorker::extract_json_object("a {b} c") {
        Err(ExtractionError::UnparsableSlice(s)) => assert_eq!(s, "{b}"),
        other => panic!("unexpected {:?}", other.map(|_| ())),
    }
    assert!(ExtractionWorker::try_extract_json_object("} then {").is_none());
    assert!(ExtractionWorker::try_extract_json_object("\"} {\"").unwrap().is_ok());
    assert!(ExtractionWorker::try_extract_json_object("x {\"k\": true} y").unwrap().is_ok());
}

#[test]
fn schema_validation() {
    let value = read_json("{\"b\": 1}").unwrap();
    match ExtractionWorker::validate_against_schema("not json", &value) {
        Err(e) => assert_eq!(e.message(), "failed to parse extraction schema JSON"),
        Ok(()) => panic!("accepted"),
    }
    match ExtractionWorker::validate_against_schema("{\"type\": 5}", &value) {
        Err(ExtractionError::SchemaUncompilable(_)) => {},
        other => panic!("unexpected {:?}", other),
    }
    let schema = "{\"type\": \"object\", \"required\": [\"a\"]}";
    match ExtractionWorker::validate_against_schema(schema, &value) {
        Err(ExtractionError::SchemaViolations(m)) => assert!(m.contains("\"a\"")),
        other => panic!("unexpected {:?}", other),
    }
    let good = read_json("{\"a\": 1}").unwrap();
    assert!(ExtractionWorker::validate_against_schema(schema, &good).is_ok());
}

#[test]
fn validator_messages_are_joined() {
    assert!(ExtractionWorker::validation_result(&vec![]).is_ok());
    match ExtractionWorker::validation_result(&vec!["a is required".to_string(), "b is wrong".to_string()]) {
        Err(e) => assert_eq!(e.message(), "extractor JSON failed schema validation: a is required; b is wrong"),
        Ok(()) => panic!("accepted"),
    }
}

#[test]
fn extractor_prompts() {
    let p = ExtractionWorker::build_extractor_user_prompt("[]");
    assert_eq!(p, "Analyze the recent conversation and return only JSON.\n\nRecent messages:\n[]");
    let p = ExtractionWorker::build_extractor_system_prompt(
        "E={{ACTIVE_ENTITIES_JSON}} M={{RECENT_MEMORIES_JSON}} X={{MESSAGES_JSON}} again {{MESSAGES_JSON}}",
        "[e]",
        "[m]",
        "[x]",
    );
    assert_eq!(p, "E=[e] M=[m] X=[x] again [x]");
}
