//! The assistant's decisions: where a query goes, what the model is told, and
//! what is looked up for it.
pub mod chat_service;
pub mod memory_service;
pub mod prompt_builder;
pub mod routing_service;
pub mod prompt_headers;
