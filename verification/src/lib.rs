//! Personal Context Core: a local-first assistant that routes each query to a
//! local or cloud model, builds its prompts from the user's memories and
//! policies, and proposes new memories from conversations for review.
pub mod jobs;
pub mod json;
pub mod llm;
pub mod models;
pub mod services;
pub mod stamp;
pub mod state;
pub mod text;
