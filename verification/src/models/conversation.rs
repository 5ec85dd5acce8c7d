use vstd::prelude::*;

use crate::models::RowError;
use crate::stamp::{is_utc_timestamp, new_id, reads_as_utc_timestamp, utc_now, uuid_v4_text};

verus! {

/// A conversation between the user and the assistant. Timestamps are RFC 3339
/// text, as the database stores them.
#[derive(Debug, Clone)]
pub struct Conversation {
    pub id: String,
    pub title: Option<String>,
    pub created_at: String,
    pub updated_at: String,
}

impl Conversation {
    /// A new conversation with a fresh identifier, created and updated now.
    pub fn new(title: Option<String>) -> (c: Conversation)
        ensures
            c.title == title,
            uuid_v4_text(c.id@),
            c.created_at@ == c.updated_at@,
            reads_as_utc_timestamp(c.created_at@),
    {
        let now = utc_now();
        let id = new_id();
        Conversation { id, title, created_at: now.clone(), updated_at: now }
    }
}

/// A conversation as the database returns it.
#[derive(Debug, Clone)]
pub struct ConversationRow {
    pub id: String,
    pub title: Option<String>,
    pub created_at: String,
    pub updated_at: String,
}

impl ConversationRow {
    /// The conversation this row stores; refused where a timestamp does not
    /// read as one.
    pub fn into_conversation(self) -> (r: Result<Conversation, RowError>)
        ensures
            match r {
                Ok(c) => reads_as_utc_timestamp(self.created_at@) && reads_as_utc_timestamp(self.updated_at@)
                    && c.id == self.id && c.title == self.title && c.created_at == self.created_at
                    && c.updated_at == self.updated_at,
                Err(RowError::BadTimestamp(t)) => if !reads_as_utc_timestamp(self.created_at@) {
                    t == self.created_at
                } else {
                    !reads_as_utc_timestamp(self.updated_at@) && t == self.updated_at
                },
                Err(RowError::UnknownValue(_)) => false,
            },
    {
        if !is_utc_timestamp(self.created_at.as_str()) {
            return Err(RowError::BadTimestamp(self.created_at));
        }
        if !is_utc_timestamp(self.updated_at.as_str()) {
            return Err(RowError::BadTimestamp(self.updated_at));
        }
        Ok(Conversation { id: self.id, title: self.title, created_at: self.created_at, updated_at: self.updated_at })
    }
}

} // verus!
