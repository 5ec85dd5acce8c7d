use vstd::prelude::*;

use crate::models::memory::Memory;

verus! {

/// A passage retrieved for the prompt. The score is the two-decimal text in
/// which prompts show it (such as `0.87`).
#[derive(Debug, Clone)]
pub struct RetrievedChunk {
    pub chunk_id: String,
    pub source_type: String,
    pub content: String,
    pub score: String,
}

/// A rule the user set for the assistant.
#[derive(Debug, Clone)]
pub struct Policy {
    pub id: String,
    pub name: String,
    pub description: Option<String>,
    pub rule_json: String,
    pub enabled: bool,
}

/// What the system prompt of a turn is built from.
#[derive(Debug, Clone)]
pub struct PromptContext {
    pub conversation_id: String,
    pub memories: Vec<Memory>,
    pub chunks: Vec<RetrievedChunk>,
    pub active_policies: Vec<Policy>,
    /// Raw entity names surfaced for the prompt
    pub entity_names: Vec<String>,
}

impl PromptContext {
    /// A context for the conversation with nothing in it yet.
    pub fn new(conversation_id: String) -> (c: PromptContext)
        ensures
            c.conversation_id == conversation_id,
            c.memories@.len() == 0,
            c.chunks@.len() == 0,
            c.active_policies@.len() == 0,
            c.entity_names@.len() == 0,
    {
        PromptContext {
            conversation_id,
            memories: Vec::new(),
            chunks: Vec::new(),
            active_policies: Vec::new(),
            entity_names: Vec::new(),
        }
    }
}

} // verus!
