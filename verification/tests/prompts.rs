use personal_context_core::models::memory::{Memory, MemoryType, SourceKind, TemporalScope};
use personal_context_core::models::prompt::{Policy, PromptContext, RetrievedChunk};
use personal_context_core::services::prompt_builder::PromptBuilder;

const CORE: &str = "You are Personal Context Core, a local-first personal AI assistant.\nPrinciple: Local by default, cloud by exception, user visible always.\nYou have access to the user's personal memory and context stored on their device.\nRespect privacy. Never speculate about sensitive data. Be concise and honest.";

fn policy(name: &str, description: Option<&str>, enabled: bool) -> Policy {
    Policy {
        id: format!("p-{name}"),
        name: name.to_string(),
        description: description.map(|d| d.to_string()),
        rule_json: "{}".to_string(),
        enabled,
    }
}

#[test]
fn empty_context_gives_the_core_principle_alone() {
    let ctx = PromptContext::new("c1".to_string());
    assert_eq!(ctx.conversation_id, "c1");
    assert!(ctx.memories.is_empty() && ctx.chunks.is_empty() && ctx.active_policies.is_empty() && ctx.entity_names.is_empty());
    assert_eq!(PromptBuilder::new().build_system_prompt(&ctx), CORE);
}

#[test]
fn disabled_policies_add_no_section() {
    let mut ctx = PromptContext::new("c1".to_string());
    ctx.active_policies.push(policy("quiet", Some("never mind"), false));
    assert_eq!(PromptBuilder::new().build_system_prompt(&ctx), CORE);
}

#[test]
fn every_section_in_order() {
    let mut ctx = PromptContext::new("c1".to_string());
    ctx.active_policies.push(policy("Local only", Some("Keep health data local"), true));
    ctx.active_policies.push(policy("Muted", None, false));
    ctx.active_policies.push(policy("Brief", None, true));
    ctx.entity_names.push("Alice".to_string());
    ctx.entity_names.push("Rust".to_string());
    let mut m = Memory::new(MemoryType::Preference, TemporalScope::LongTerm, "Prefers tea".to_string(), SourceKind::UserMessage);
    m.salience_score = "0.90".to_string();
    ctx.memories.push(m);
    ctx.chunks.push(RetrievedChunk {
        chunk_id: "k1".to_string(),
        source_type: "note".to_string(),
        content: "Tea list".to_string(),
        score: "0.42".to_string(),
    });
    let expected = format!(
        "{CORE}\n\n## Active Policies\n- **Local only**: Keep health data local\n- **Brief**: (no description)\n\n\n## Known Entities\n- Alice\n- Rust\n\n\n## Relevant Memories\n- [preference] (salience 0.90) Prefers tea\n\n\n## Relevant Context\n### Source: note (score 0.42)\nTea list\n"
    );
    let prompt = PromptBuilder::new().build_system_prompt(&ctx);
    assert_eq!(prompt, expected);
    assert!(prompt.starts_with(CORE));
}

#[test]
fn prompt_ignores_fields_it_does_not_show() {
    let mut a = PromptContext::new("c1".to_string());
    a.active_policies.push(policy("Brief", Some("Short answers"), true));
    a.entity_names.push("Alice".to_string());
    let m = Memory::new(MemoryType::Goal, TemporalScope::ShortTerm, "Run".to_string(), SourceKind::UserEdit);
    a.memories.push(m.clone());
    a.chunks.push(RetrievedChunk {
        chunk_id: "k1".to_string(),
        source_type: "note".to_string(),
        content: "Plan".to_string(),
        score: "0.10".to_string(),
    });
    let mut b = a.clone();
    b.conversation_id = "c2".to_string();
    b.active_policies[0].id = "other".to_string();
    b.active_policies[0].rule_json = "{\"x\": 1}".to_string();
    b.memories[0].id = "m-other".to_string();
    b.memories[0].scope = TemporalScope::Permanent;
    b.memories[0].source_id = Some("s".to_string());
    b.memories[0].created_at = "2020-01-01T00:00:00Z".to_string();
    b.chunks[0].chunk_id = "k2".to_string();
    let builder = PromptBuilder::new();
    assert_eq!(builder.build_system_prompt(&a), builder.build_system_prompt(&b));
    // A shown field does change it.
    b.memories[0].content = "Swim".to_string();
    assert_ne!(builder.build_system_prompt(&a), builder.build_system_prompt(&b));
}

#[test]
fn section_headers_appear_with_their_contents() {
    let mut ctx = PromptContext::new("c1".to_string());
    let builder = PromptBuilder::new();
    assert!(!builder.build_system_prompt(&ctx).contains("## "));
    ctx.entity_names.push("Bob".to_string());
    let p = builder.build_system_prompt(&ctx);
    assert!(p.contains("## Known Entities\n"));
    assert!(!p.contains("## Active Policies") && !p.contains("## Relevant Memories") && !p.contains("## Relevant Context"));
    ctx.active_policies.push(policy("On", None, true));
    assert!(builder.build_system_prompt(&ctx).contains("## Active Policies\n"));
}
