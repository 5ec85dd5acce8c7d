//! Background work that runs after a chat turn.
pub mod extraction_worker;
