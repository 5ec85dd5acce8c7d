use vstd::prelude::*;

use crate::models::UnknownValue;
use crate::text::str_eq;
use crate::models::RowError;
use crate::stamp::{is_utc_timestamp, new_id, reads_as_utc_timestamp, utc_now, uuid_v4_text};

verus! {

/// Who wrote a message.
#[derive(Debug, Clone, Copy, PartialEq, Eq, Structural)]
pub enum MessageRole {
    User,
    Assistant,
    System,
}

impl MessageRole {
    /// The name under which a message role is stored and shown.
    pub open spec fn name(self) -> Seq<char> {
        match self {
            MessageRole::User => "user"@,
            MessageRole::Assistant => "assistant"@,
            MessageRole::System => "system"@,
        }
    }

    /// The message role with the given name, if there is one.
    pub open spec fn from_name(s: Seq<char>) -> Option<MessageRole> {
        if s == "user"@ {
            Some(MessageRole::User)
        } else if s == "assistant"@ {
            Some(MessageRole::Assistant)
        } else if s == "system"@ {
            Some(MessageRole::System)
        } else {
            None
        }
    }

    /// The name of this message role.
    pub fn as_str(&self) -> (s: &'static str)
        ensures
            s@ == self.name(),
    {
        match self {
            MessageRole::User => "user",
            MessageRole::Assistant => "assistant",
            MessageRole::System => "system",
        }
    }

    /// The message role named `s`; any other text is refused.
    pub fn parse(s: &str) -> (r: Result<MessageRole, UnknownValue>)
        ensures
            match r {
                Ok(v) => MessageRole::from_name(s@) == Some(v),
                Err(e) => MessageRole::from_name(s@) is None && e.expected@ == "message role"@ && e.value@ == s@,
            },
    {
        if str_eq(s, "user") {
            Ok(MessageRole::User)
        } else if str_eq(s, "assistant") {
            Ok(MessageRole::Assistant)
        } else if str_eq(s, "system") {
            Ok(MessageRole::System)
        } else {
            Err(UnknownValue::new("message role", s))
        }
    }
}

/// Reading back the name of a message role gives that message role, and a name is
/// read as a message role only when it is that message role's name.
pub proof fn lemma_message_role_names_round_trip(v: MessageRole, s: Seq<char>)
    ensures
        MessageRole::from_name(v.name()) == Some(v),
        MessageRole::from_name(s) == Some(v) <==> s == v.name(),
{
    reveal_strlit("user");
    assert("user"@ =~= seq!['u', 's', 'e', 'r']);
    reveal_strlit("assistant");
    assert("assistant"@ =~= seq!['a', 's', 's', 'i', 's', 't', 'a', 'n', 't']);
    reveal_strlit("system");
    assert("system"@ =~= seq!['s', 'y', 's', 't', 'e', 'm']);
}
/// A message of a conversation. `created_at` is RFC 3339 text.
#[derive(Debug, Clone)]
pub struct Message {
    pub id: String,
    pub conversation_id: String,
    pub role: MessageRole,
    pub content: String,
    /// The model slot that wrote an assistant message.
    pub model_used: Option<String>,
    pub created_at: String,
}

impl Message {
    /// A new message with a fresh identifier, written now, by no model.
    pub fn new(conversation_id: String, role: MessageRole, content: String) -> (m: Message)
        ensures
            m.conversation_id == conversation_id,
            m.role == role,
            m.content == content,
            m.model_used is None,
            uuid_v4_text(m.id@),
            reads_as_utc_timestamp(m.created_at@),
    {
        let id = new_id();
        let created_at = utc_now();
        Message { id, conversation_id, role, content, model_used: None, created_at }
    }
}

/// A message as the database returns it.
#[derive(Debug, Clone)]
pub struct MessageRow {
    pub id: String,
    pub conversation_id: String,
    pub role: String,
    pub content: String,
    pub model_used: Option<String>,
    pub created_at: String,
}

impl MessageRow {
    /// The message this row stores; refused where the role is not a role's
    /// name or the timestamp does not read as one (the role is checked first).
    pub fn into_message(self) -> (r: Result<Message, RowError>)
        ensures
            match r {
                Ok(m) => MessageRole::from_name(self.role@) == Some(m.role)
                    && reads_as_utc_timestamp(self.created_at@) && m.id == self.id
                    && m.conversation_id == self.conversation_id && m.content == self.content
                    && m.model_used == self.model_used && m.created_at == self.created_at,
                Err(RowError::UnknownValue(e)) => MessageRole::from_name(self.role@) is None
                    && e.expected@ == "message role"@ && e.value@ == self.role@,
                Err(RowError::BadTimestamp(t)) => MessageRole::from_name(self.role@) is Some
                    && !reads_as_utc_timestamp(self.created_at@) && t == self.created_at,
            },
    {
        let role = match MessageRole::parse(self.role.as_str()) {
            Ok(role) => role,
            Err(e) => return Err(RowError::UnknownValue(e)),
        };
        if !is_utc_timestamp(self.created_at.as_str()) {
            return Err(RowError::BadTimestamp(self.created_at));
        }
        Ok(Message {
            id: self.id,
            conversation_id: self.conversation_id,
            role,
            content: self.content,
            model_used: self.model_used,
            created_at: self.created_at,
        })
    }
}

/// A message stored as a row, its role by name, is read back as that
/// message: the row's role reads as the message's role and its timestamp
/// reads (so `into_message` gives back every field).
pub proof fn lemma_message_row_round_trip(m: Message, row: MessageRow)
    requires
        row.role@ == m.role.name(),
        row.created_at == m.created_at,
        reads_as_utc_timestamp(m.created_at@),
    ensures
        MessageRole::from_name(row.role@) == Some(m.role),
        reads_as_utc_timestamp(row.created_at@),
{
    lemma_message_role_names_round_trip(m.role, row.role@);
}

} // verus!
