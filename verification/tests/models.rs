use personal_context_core::models::conversation::{Conversation, ConversationRow};
use personal_context_core::models::entity::{
    entity_from_active_row, Entity, EntityRow, EntityStatus, EntityType, Relationship, FULL_CONFIDENCE_BITS,
};
use personal_context_core::models::memory::{
    CandidateRow, CandidateStatus, CandidateType, Memory, MemoryCandidate, MemoryRow, MemoryType, Sensitivity,
    SourceKind, TemporalScope,
};
use personal_context_core::models::message::{Message, MessageRole, MessageRow};
use personal_context_core::models::routing::{ModelOption, PrivacyLevel, RouteDecision, RouteReason};
use personal_context_core::models::RowError;

#[test]
fn memory_type_names_round_trip() {
    let all = [
        (MemoryType::Fact, "fact"),
        (MemoryType::Preference, "preference"),
        (MemoryType::Goal, "goal"),
        (MemoryType::Belief, "belief"),
        (MemoryType::Skill, "skill"),
        (MemoryType::Experience, "experience"),
        (MemoryType::Relationship, "relationship"),
        (MemoryType::Routine, "routine"),
    ];
    for (v, s) in all {
        assert_eq!(v.as_str(), s);
        assert_eq!(MemoryType::parse(s).unwrap(), v);
    }
    let err = MemoryType::parse("Fact").unwrap_err();
    assert_eq!(err.message(), "unknown memory type: Fact");
}

#[test]
fn temporal_scope_sensitivity_source_kind_names_round_trip() {
    for (v, s) in [
        (TemporalScope::Permanent, "permanent"),
        (TemporalScope::LongTerm, "long_term"),
        (TemporalScope::ShortTerm, "short_term"),
        (TemporalScope::Session, "session"),
    ] {
        assert_eq!(v.as_str(), s);
        assert_eq!(TemporalScope::parse(s).unwrap(), v);
    }
    for (v, s) in [
        (Sensitivity::Public, "public"),
        (Sensitivity::Internal, "internal"),
        (Sensitivity::Private, "private"),
        (Sensitivity::Secret, "secret"),
    ] {
        assert_eq!(v.as_str(), s);
        assert_eq!(Sensitivity::parse(s).unwrap(), v);
    }
    for (v, s) in [
        (SourceKind::UserMessage, "user_message"),
        (SourceKind::AssistantInference, "assistant_inference"),
        (SourceKind::UserEdit, "user_edit"),
        (SourceKind::Import, "import"),
        (SourceKind::Conversation, "conversation"),
    ] {
        assert_eq!(v.as_str(), s);
        assert_eq!(SourceKind::parse(s).unwrap(), v);
    }
    assert_eq!(TemporalScope::parse("forever").unwrap_err().message(), "unknown temporal scope: forever");
    assert_eq!(Sensitivity::parse("").unwrap_err().message(), "unknown sensitivity: ");
    assert_eq!(SourceKind::parse("web").unwrap_err().message(), "unknown source kind: web");
}

#[test]
fn candidate_names_round_trip() {
    for (v, s) in [
        (CandidateType::Fact, "fact"),
        (CandidateType::Preference, "preference"),
        (CandidateType::Goal, "goal"),
        (CandidateType::Relationship, "relationship"),
        (CandidateType::Other, "other"),
    ] {
        assert_eq!(v.as_str(), s);
        assert_eq!(CandidateType::parse(s).unwrap(), v);
    }
    for (v, s) in [
        (CandidateStatus::Pending, "pending"),
        (CandidateStatus::Approved, "approved"),
        (CandidateStatus::Rejected, "rejected"),
        (CandidateStatus::Deferred, "deferred"),
    ] {
        assert_eq!(v.as_str(), s);
        assert_eq!(CandidateStatus::parse(s).unwrap(), v);
    }
    assert_eq!(CandidateStatus::parse("done").unwrap_err().message(), "unknown candidate status: done");
    assert_eq!(CandidateType::parse("idea").unwrap_err().message(), "unknown candidate type: idea");
}

#[test]
fn entity_names_round_trip() {
    for (v, s) in [
        (EntityType::Person, "person"),
        (EntityType::Place, "place"),
        (EntityType::Project, "project"),
        (EntityType::Organization, "organization"),
        (EntityType::Concept, "concept"),
        (EntityType::Tool, "tool"),
        (EntityType::Event, "event"),
        (EntityType::Other, "other"),
    ] {
        assert_eq!(v.as_str(), s);
        assert_eq!(EntityType::parse(s).unwrap(), v);
    }
    for (v, s) in [
        (EntityStatus::Active, "active"),
        (EntityStatus::Archived, "archived"),
        (EntityStatus::Merged, "merged"),
        (EntityStatus::Deleted, "deleted"),
    ] {
        assert_eq!(v.as_str(), s);
        assert_eq!(EntityStatus::parse(s).unwrap(), v);
    }
    assert_eq!(EntityType::parse("animal").unwrap_err().message(), "unknown entity type: animal");
    assert_eq!(EntityStatus::parse("gone").unwrap_err().message(), "unknown entity status: gone");
}

#[test]
fn routing_names_round_trip() {
    for (v, s) in [
        (PrivacyLevel::Public, "public"),
        (PrivacyLevel::Sensitive, "sensitive"),
        (PrivacyLevel::Restricted, "restricted"),
    ] {
        assert_eq!(v.as_str(), s);
        assert_eq!(PrivacyLevel::parse(s).unwrap(), v);
    }
    for (v, s) in [
        (ModelOption::LocalGeneral, "local_general"),
        (ModelOption::CloudFast, "cloud_fast"),
        (ModelOption::CloudReasoning, "cloud_reasoning"),
    ] {
        assert_eq!(v.as_str(), s);
        assert_eq!(ModelOption::parse(s).unwrap(), v);
    }
    assert_eq!(RouteReason::PrivacyKeywordDetected.as_str(), "privacy_keyword_detected");
    assert_eq!(RouteReason::QueryTooLong.as_str(), "query_too_long");
    assert_eq!(RouteReason::SimpleQuery.as_str(), "simple_query");
    assert_eq!(RouteReason::ComplexReasoning.as_str(), "complex_reasoning");
    assert_eq!(RouteReason::UserForced.as_str(), "user_forced");
    assert_eq!(RouteReason::PolicyOverride.as_str(), "policy_override");
    assert_eq!(ModelOption::parse("gpt").unwrap_err().message(), "unknown model option: gpt");
    assert_eq!(PrivacyLevel::parse("open").unwrap_err().message(), "unknown privacy level: open");
}

#[test]
fn message_role_names_round_trip() {
    for (v, s) in [(MessageRole::User, "user"), (MessageRole::Assistant, "assistant"), (MessageRole::System, "system")] {
        assert_eq!(v.as_str(), s);
        assert_eq!(MessageRole::parse(s).unwrap(), v);
    }
    assert_eq!(MessageRole::parse("bot").unwrap_err().message(), "unknown message role: bot");
}

#[test]
fn new_records_have_fresh_ids_and_readable_timestamps() {
    let c = Conversation::new(Some("Trip".to_string()));
    assert_eq!(c.id.len(), 36);
    assert_uuid_v4(&c.id);
    assert_eq!(c.title.as_deref(), Some("Trip"));
    assert_eq!(c.created_at, c.updated_at);
    assert!(c.created_at.parse::<chrono::DateTime<chrono::Utc>>().is_ok());
    let other = Conversation::new(None);
    assert_ne!(c.id, other.id);

    let m = Message::new(c.id.clone(), MessageRole::User, "hi".to_string());
    assert_eq!(m.conversation_id, c.id);
    assert_eq!(m.role, MessageRole::User);
    assert_eq!(m.content, "hi");
    assert!(m.model_used.is_none());

    let mem = Memory::new(MemoryType::Goal, TemporalScope::LongTerm, "run a marathon".to_string(), SourceKind::UserEdit);
    assert_eq!(mem.sensitivity, Sensitivity::Internal);
    assert_eq!(mem.salience_score, "0.50");
    assert!(mem.expires_at.is_none() && mem.source_id.is_none() && mem.entity_id.is_none());
    assert_eq!(mem.created_at, mem.updated_at);

    let d = RouteDecision::new(ModelOption::CloudFast, RouteReason::UserForced, PrivacyLevel::Public, "forced".to_string());
    assert_eq!(d.model_chosen, ModelOption::CloudFast);
    assert!(d.conversation_id.is_none() && d.message_id.is_none());
    assert_eq!(d.explanation, "forced");
    assert_uuid_v4(&d.id);
    assert_uuid_v4(&m.id);
    assert_uuid_v4(&mem.id);
}

/// The hyphenated lower-case text of a version 4 UUID.
fn assert_uuid_v4(id: &str) {
    let cs: Vec<char> = id.chars().collect();
    assert_eq!(cs.len(), 36);
    for (i, c) in cs.iter().enumerate() {
        if i == 8 || i == 13 || i == 18 || i == 23 {
            assert_eq!(*c, '-');
        } else {
            assert!(c.is_ascii_hexdigit() && !c.is_ascii_uppercase(), "{}", id);
        }
    }
    assert_eq!(cs[14], '4');
    assert!(matches!(cs[19], '8' | '9' | 'a' | 'b'));
}

#[test]
fn new_entities_relations_and_candidates() {
    let e = Entity::new(EntityType::Person, "Ada".to_string());
    assert_eq!(e.kind, EntityType::Person);
    assert_eq!(e.name, "Ada");
    assert!(e.aliases.is_empty() && e.source_id.is_none());
    assert_eq!(e.status, EntityStatus::Active);
    assert_eq!(f64::from_bits(e.confidence_bits), 1.0);
    assert_eq!(FULL_CONFIDENCE_BITS, 1.0f64.to_bits());
    assert_eq!(e.created_at, e.updated_at);
    assert!(e.created_at.parse::<chrono::DateTime<chrono::Utc>>().is_ok());
    assert_uuid_v4(&e.id);

    let r = Relationship::new("a".to_string(), "b".to_string(), "knows".to_string());
    assert_eq!((r.from_entity.as_str(), r.to_entity.as_str(), r.relation_type.as_str()), ("a", "b", "knows"));
    assert_eq!(f64::from_bits(r.weight_bits), 1.0);
    assert_uuid_v4(&r.id);

    let c = MemoryCandidate::new(CandidateType::Goal, "learn Rust".to_string(), 0.75f64.to_bits());
    assert_eq!(c.kind, CandidateType::Goal);
    assert_eq!(c.content, "learn Rust");
    assert_eq!(f64::from_bits(c.confidence_bits), 0.75);
    assert_eq!(c.status, CandidateStatus::Pending);
    assert!(c.reviewed_at.is_none() && c.source_id.is_none());
    assert!(c.created_at.parse::<chrono::DateTime<chrono::Utc>>().is_ok());
    assert_uuid_v4(&c.id);
}

fn entity_row() -> EntityRow {
    EntityRow {
        id: "e1".to_string(),
        kind: "project".to_string(),
        name: "Apollo".to_string(),
        aliases: Some("[\"A\", \"Ap\"]".to_string()),
        status: "archived".to_string(),
        confidence_bits: 0.5f64.to_bits(),
        source_id: Some("s1".to_string()),
        created_at: "2024-01-01T00:00:00Z".to_string(),
        updated_at: "2024-01-02T00:00:00+00:00".to_string(),
    }
}

#[test]
fn active_entity_rows_fall_back_on_unknown_names() {
    let e = entity_from_active_row(entity_row()).unwrap();
    assert_eq!(e.kind, EntityType::Project);
    assert_eq!(e.status, EntityStatus::Archived);
    assert_eq!(e.aliases, vec!["A".to_string(), "Ap".to_string()]);
    assert_eq!(e.confidence_bits, 0.5f64.to_bits());
    assert_eq!(e.source_id.as_deref(), Some("s1"));
    assert_eq!(e.updated_at, "2024-01-02T00:00:00+00:00");

    let mut row = entity_row();
    row.kind = "planet".to_string();
    row.status = "gone".to_string();
    row.aliases = Some("not a list".to_string());
    let e = entity_from_active_row(row).unwrap();
    assert_eq!(e.kind, EntityType::Other);
    assert_eq!(e.status, EntityStatus::Active);
    assert!(e.aliases.is_empty());

    let mut row = entity_row();
    row.aliases = None;
    assert!(entity_from_active_row(row).unwrap().aliases.is_empty());
    let mut row = entity_row();
    row.aliases = Some("[1, 2]".to_string());
    assert!(entity_from_active_row(row).unwrap().aliases.is_empty());

    let mut row = entity_row();
    row.created_at = "yesterday".to_string();
    row.updated_at = "today".to_string();
    assert_eq!(entity_from_active_row(row).unwrap_err().message(), "invalid timestamp: yesterday");
    let mut row = entity_row();
    row.updated_at = "today".to_string();
    assert_eq!(entity_from_active_row(row).unwrap_err().message(), "invalid timestamp: today");
}

fn memory_row() -> MemoryRow {
    MemoryRow {
        id: "m1".to_string(),
        kind: "preference".to_string(),
        scope: "long_term".to_string(),
        sensitivity: "private".to_string(),
        content: "likes tea".to_string(),
        salience_score: "0.80".to_string(),
        source_kind: "user_message".to_string(),
        source_id: None,
        entity_id: None,
        created_at: "2024-01-01T00:00:00Z".to_string(),
        updated_at: "2024-01-02T00:00:00Z".to_string(),
        expires_at: Some("2025-01-01T00:00:00Z".to_string()),
    }
}

#[test]
fn recent_memory_rows_fall_back_on_unknown_names() {
    let m = memory_row().into_recent_memory().unwrap();
    assert_eq!(m.kind, MemoryType::Preference);
    assert_eq!(m.scope, TemporalScope::LongTerm);
    assert_eq!(m.sensitivity, Sensitivity::Private);
    assert_eq!(m.source_kind, SourceKind::UserMessage);
    assert_eq!(m.expires_at.as_deref(), Some("2025-01-01T00:00:00Z"));

    let mut row = memory_row();
    row.kind = "whim".to_string();
    row.scope = "eternal".to_string();
    row.sensitivity = "loud".to_string();
    row.source_kind = "rumour".to_string();
    let m = row.into_recent_memory().unwrap();
    assert_eq!(m.kind, MemoryType::Fact);
    assert_eq!(m.scope, TemporalScope::LongTerm);
    assert_eq!(m.sensitivity, Sensitivity::Internal);
    assert_eq!(m.source_kind, SourceKind::AssistantInference);
    assert_eq!(m.content, "likes tea");

    let mut row = memory_row();
    row.updated_at = "later".to_string();
    row.expires_at = Some("never".to_string());
    assert_eq!(row.into_recent_memory().unwrap_err().message(), "invalid timestamp: later");
    let mut row = memory_row();
    row.expires_at = Some("never".to_string());
    assert_eq!(row.into_recent_memory().unwrap_err().message(), "invalid timestamp: never");
}

fn candidate_row() -> CandidateRow {
    CandidateRow {
        id: "c1".to_string(),
        kind: "fact".to_string(),
        content: "owns a bike".to_string(),
        source_id: Some("msg-1".to_string()),
        confidence_bits: 0.9f64.to_bits(),
        status: "approved".to_string(),
        reviewed_at: Some("2024-02-01T00:00:00Z".to_string()),
        created_at: "2024-01-01T00:00:00Z".to_string(),
    }
}

#[test]
fn candidate_rows_read_back_or_name_the_first_bad_column() {
    let c = candidate_row().into_candidate().unwrap();
    assert_eq!(c.kind, CandidateType::Fact);
    assert_eq!(c.status, CandidateStatus::Approved);
    assert_eq!(f64::from_bits(c.confidence_bits), 0.9);
    assert_eq!(c.reviewed_at.as_deref(), Some("2024-02-01T00:00:00Z"));

    let mut row = candidate_row();
    row.kind = "hunch".to_string();
    row.status = "maybe".to_string();
    assert_eq!(row.into_candidate().unwrap_err().message(), "unknown candidate type: hunch");
    let mut row = candidate_row();
    row.status = "maybe".to_string();
    assert_eq!(row.into_candidate().unwrap_err().message(), "unknown candidate status: maybe");
    let mut row = candidate_row();
    row.reviewed_at = Some("soon".to_string());
    row.created_at = "then".to_string();
    assert_eq!(row.into_candidate().unwrap_err().message(), "invalid timestamp: soon");
    let mut row = candidate_row();
    row.reviewed_at = None;
    row.created_at = "then".to_string();
    assert_eq!(row.into_candidate().unwrap_err().message(), "invalid timestamp: then");
}

#[test]
fn message_rows_read_back() {
    let m = Message::new("conv".to_string(), MessageRole::Assistant, "answer".to_string());
    let row = MessageRow {
        id: m.id.clone(),
        conversation_id: m.conversation_id.clone(),
        role: m.role.as_str().to_string(),
        content: m.content.clone(),
        model_used: Some("cloud_fast".to_string()),
        created_at: m.created_at.clone(),
    };
    let back = row.into_message().unwrap();
    assert_eq!(back.id, m.id);
    assert_eq!(back.role, MessageRole::Assistant);
    assert_eq!(back.model_used.as_deref(), Some("cloud_fast"));

    let bad_role = MessageRow {
        id: "1".to_string(),
        conversation_id: "c".to_string(),
        role: "robot".to_string(),
        content: String::new(),
        model_used: None,
        created_at: "not a time".to_string(),
    };
    match bad_role.into_message() {
        Err(RowError::UnknownValue(e)) => assert_eq!(e.message(), "unknown message role: robot"),
        other => panic!("unexpected {:?}", other),
    }
    let bad_time = MessageRow {
        id: "1".to_string(),
        conversation_id: "c".to_string(),
        role: "user".to_string(),
        content: String::new(),
        model_used: None,
        created_at: "yesterday".to_string(),
    };
    match bad_time.into_message() {
        Err(e) => assert_eq!(e.message(), "invalid timestamp: yesterday"),
        Ok(_) => panic!("a bad timestamp was accepted"),
    }
}

#[test]
fn conversation_rows_read_back() {
    let ok = ConversationRow {
        id: "c1".to_string(),
        title: None,
        created_at: "2012-12-12T12:12:12Z".to_string(),
        updated_at: "2012-12-12 12:12:12+00:00".to_string(),
    };
    let c = ok.into_conversation().unwrap();
    assert_eq!(c.id, "c1");
    assert_eq!(c.updated_at, "2012-12-12 12:12:12+00:00");
    let bad = ConversationRow {
        id: "c2".to_string(),
        title: None,
        created_at: "2012-12-12T12:12:12Z".to_string(),
        updated_at: "2012-13-45".to_string(),
    };
    match bad.into_conversation() {
        Err(RowError::BadTimestamp(t)) => assert_eq!(t, "2012-13-45"),
        other => panic!("unexpected {:?}", other),
    }
}

#[test]
fn memory_rows_read_back_or_name_the_first_bad_column() {
    let row = MemoryRow {
        id: "m1".to_string(),
        kind: "preference".to_string(),
        scope: "long_term".to_string(),
        sensitivity: "private".to_string(),
        content: "likes tea".to_string(),
        salience_score: "0.80".to_string(),
        source_kind: "user_message".to_string(),
        source_id: None,
        entity_id: None,
        created_at: "2024-01-01T00:00:00Z".to_string(),
        updated_at: "2024-01-02T00:00:00Z".to_string(),
        expires_at: None,
    };
    let m = row.clone().into_memory().unwrap();
    assert_eq!(m.kind, MemoryType::Preference);
    assert_eq!(m.scope, TemporalScope::LongTerm);
    assert_eq!(m.sensitivity, Sensitivity::Private);
    assert_eq!(m.source_kind, SourceKind::UserMessage);
    assert_eq!(m.salience_score, "0.80");

    let mut bad = row.clone();
    bad.scope = "eternal".to_string();
    bad.sensitivity = "loud".to_string();
    assert_eq!(bad.into_memory().unwrap_err().message(), "unknown temporal scope: eternal");

    let mut bad = row.clone();
    bad.expires_at = Some("soon".to_string());
    assert_eq!(bad.into_memory().unwrap_err().message(), "invalid timestamp: soon");
}
