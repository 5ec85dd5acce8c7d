use vstd::prelude::*;

use crate::models::UnknownValue;
use crate::text::str_eq;
use crate::models::{row_error_view, RowError};
use crate::stamp::{is_utc_timestamp, new_id, reads_as_utc_timestamp, utc_now, uuid_v4_text};

verus! {

/// The kind of knowledge a memory holds.
#[derive(Debug, Clone, Copy, PartialEq, Eq, Structural)]
pub enum MemoryType {
    Fact,
    Preference,
    Goal,
    Belief,
    Skill,
    Experience,
    Relationship,
    Routine,
}

impl MemoryType {
    /// The name under which a memory type is stored and shown.
    pub open spec fn name(self) -> Seq<char> {
        match self {
            MemoryType::Fact => "fact"@,
            MemoryType::Preference => "preference"@,
            MemoryType::Goal => "goal"@,
            MemoryType::Belief => "belief"@,
            MemoryType::Skill => "skill"@,
            MemoryType::Experience => "experience"@,
            MemoryType::Relationship => "relationship"@,
            MemoryType::Routine => "routine"@,
        }
    }

    /// The memory type with the given name, if there is one.
    pub open spec fn from_name(s: Seq<char>) -> Option<MemoryType> {
        if s == "fact"@ {
            Some(MemoryType::Fact)
        } else if s == "preference"@ {
            Some(MemoryType::Preference)
        } else if s == "goal"@ {
            Some(MemoryType::Goal)
        } else if s == "belief"@ {
            Some(MemoryType::Belief)
        } else if s == "skill"@ {
            Some(MemoryType::Skill)
        } else if s == "experience"@ {
            Some(MemoryType::Experience)
        } else if s == "relationship"@ {
            Some(MemoryType::Relationship)
        } else if s == "routine"@ {
            Some(MemoryType::Routine)
        } else {
            None
        }
    }

    /// The name of this memory type.
    pub fn as_str(&self) -> (s: &'static str)
        ensures
            s@ == self.name(),
    {
        match self {
            MemoryType::Fact => "fact",
            MemoryType::Preference => "preference",
            MemoryType::Goal => "goal",
            MemoryType::Belief => "belief",
            MemoryType::Skill => "skill",
            MemoryType::Experience => "experience",
            MemoryType::Relationship => "relationship",
            MemoryType::Routine => "routine",
        }
    }

    /// The memory type named `s`; any other text is refused.
    pub fn parse(s: &str) -> (r: Result<MemoryType, UnknownValue>)
        ensures
            match r {
                Ok(v) => MemoryType::from_name(s@) == Some(v),
                Err(e) => MemoryType::from_name(s@) is None && e.expected@ == "memory type"@ && e.value@ == s@,
            },
    {
        if str_eq(s, "fact") {
            Ok(MemoryType::Fact)
        } else if str_eq(s, "preference") {
            Ok(MemoryType::Preference)
        } else if str_eq(s, "goal") {
            Ok(MemoryType::Goal)
        } else if str_eq(s, "belief") {
            Ok(MemoryType::Belief)
        } else if str_eq(s, "skill") {
            Ok(MemoryType::Skill)
        } else if str_eq(s, "experience") {
            Ok(MemoryType::Experience)
        } else if str_eq(s, "relationship") {
            Ok(MemoryType::Relationship)
        } else if str_eq(s, "routine") {
            Ok(MemoryType::Routine)
        } else {
            Err(UnknownValue::new("memory type", s))
        }
    }
}

/// Reading back the name of a memory type gives that memory type, and a name is
/// read as a memory type only when it is that memory type's name.
pub proof fn lemma_memory_type_names_round_trip(v: MemoryType, s: Seq<char>)
    ensures
        MemoryType::from_name(v.name()) == Some(v),
        MemoryType::from_name(s) == Some(v) <==> s == v.name(),
{
    reveal_strlit("fact");
    assert("fact"@ =~= seq!['f', 'a', 'c', 't']);
    reveal_strlit("preference");
    assert("preference"@ =~= seq!['p', 'r', 'e', 'f', 'e', 'r', 'e', 'n', 'c', 'e']);
    reveal_strlit("goal");
    assert("goal"@ =~= seq!['g', 'o', 'a', 'l']);
    reveal_strlit("belief");
    assert("belief"@ =~= seq!['b', 'e', 'l', 'i', 'e', 'f']);
    reveal_strlit("skill");
    assert("skill"@ =~= seq!['s', 'k', 'i', 'l', 'l']);
    reveal_strlit("experience");
    assert("experience"@ =~= seq!['e', 'x', 'p', 'e', 'r', 'i', 'e', 'n', 'c', 'e']);
    reveal_strlit("relationship");
    assert("relationship"@ =~= seq!['r', 'e', 'l', 'a', 't', 'i', 'o', 'n', 's', 'h', 'i', 'p']);
    reveal_strlit("routine");
    assert("routine"@ =~= seq!['r', 'o', 'u', 't', 'i', 'n', 'e']);
}
/// How long a memory is expected to stay true.
#[derive(Debug, Clone, Copy, PartialEq, Eq, Structural)]
pub enum TemporalScope {
    Permanent,
    LongTerm,
    ShortTerm,
    Session,
}

impl TemporalScope {
    /// The name under which a temporal scope is stored and shown.
    pub open spec fn name(self) -> Seq<char> {
        match self {
            TemporalScope::Permanent => "permanent"@,
            TemporalScope::LongTerm => "long_term"@,
            TemporalScope::ShortTerm => "short_term"@,
            TemporalScope::Session => "session"@,
        }
    }

    /// The temporal scope with the given name, if there is one.
    pub open spec fn from_name(s: Seq<char>) -> Option<TemporalScope> {
        if s == "permanent"@ {
            Some(TemporalScope::Permanent)
        } else if s == "long_term"@ {
            Some(TemporalScope::LongTerm)
        } else if s == "short_term"@ {
            Some(TemporalScope::ShortTerm)
        } else if s == "session"@ {
            Some(TemporalScope::Session)
        } else {
            None
        }
    }

    /// The name of this temporal scope.
    pub fn as_str(&self) -> (s: &'static str)
        ensures
            s@ == self.name(),
    {
        match self {
            TemporalScope::Permanent => "permanent",
            TemporalScope::LongTerm => "long_term",
            TemporalScope::ShortTerm => "short_term",
            TemporalScope::Session => "session",
        }
    }

    /// The temporal scope named `s`; any other text is refused.
    pub fn parse(s: &str) -> (r: Result<TemporalScope, UnknownValue>)
        ensures
            match r {
                Ok(v) => TemporalScope::from_name(s@) == Some(v),
                Err(e) => TemporalScope::from_name(s@) is None && e.expected@ == "temporal scope"@ && e.value@ == s@,
            },
    {
        if str_eq(s, "permanent") {
            Ok(TemporalScope::Permanent)
        } else if str_eq(s, "long_term") {
            Ok(TemporalScope::LongTerm)
        } else if str_eq(s, "short_term") {
            Ok(TemporalScope::ShortTerm)
        } else if str_eq(s, "session") {
            Ok(TemporalScope::Session)
        } else {
            Err(UnknownValue::new("temporal scope", s))
        }
    }
}

/// Reading back the name of a temporal scope gives that temporal scope, and a name is
/// read as a temporal scope only when it is that temporal scope's name.
pub proof fn lemma_temporal_scope_names_round_trip(v: TemporalScope, s: Seq<char>)
    ensures
        TemporalScope::from_name(v.name()) == Some(v),
        TemporalScope::from_name(s) == Some(v) <==> s == v.name(),
{
    reveal_strlit("permanent");
    assert("permanent"@ =~= seq!['p', 'e', 'r', 'm', 'a', 'n', 'e', 'n', 't']);
    reveal_strlit("long_term");
    assert("long_term"@ =~= seq!['l', 'o', 'n', 'g', '_', 't', 'e', 'r', 'm']);
    reveal_strlit("short_term");
    assert("short_term"@ =~= seq!['s', 'h', 'o', 'r', 't', '_', 't', 'e', 'r', 'm']);
    reveal_strlit("session");
    assert("session"@ =~= seq!['s', 'e', 's', 's', 'i', 'o', 'n']);
}
/// How carefully a memory must be handled.
#[derive(Debug, Clone, Copy, PartialEq, Eq, Structural)]
pub enum Sensitivity {
    Public,
    Internal,
    Private,
    Secret,
}

impl Sensitivity {
    /// The name under which a sensitivity is stored and shown.
    pub open spec fn name(self) -> Seq<char> {
        match self {
            Sensitivity::Public => "public"@,
            Sensitivity::Internal => "internal"@,
            Sensitivity::Private => "private"@,
            Sensitivity::Secret => "secret"@,
        }
    }

    /// The sensitivity with the given name, if there is one.
    pub open spec fn from_name(s: Seq<char>) -> Option<Sensitivity> {
        if s == "public"@ {
            Some(Sensitivity::Public)
        } else if s == "internal"@ {
            Some(Sensitivity::Internal)
        } else if s == "private"@ {
            Some(Sensitivity::Private)
        } else if s == "secret"@ {
            Some(Sensitivity::Secret)
        } else {
            None
        }
    }

    /// The name of this sensitivity.
    pub fn as_str(&self) -> (s: &'static str)
        ensures
            s@ == self.name(),
    {
        match self {
            Sensitivity::Public => "public",
            Sensitivity::Internal => "internal",
            Sensitivity::Private => "private",
            Sensitivity::Secret => "secret",
        }
    }

    /// The sensitivity named `s`; any other text is refused.
    pub fn parse(s: &str) -> (r: Result<Sensitivity, UnknownValue>)
        ensures
            match r {
                Ok(v) => Sensitivity::from_name(s@) == Some(v),
                Err(e) => Sensitivity::from_name(s@) is None && e.expected@ == "sensitivity"@ && e.value@ == s@,
            },
    {
        if str_eq(s, "public") {
            Ok(Sensitivity::Public)
        } else if str_eq(s, "internal") {
            Ok(Sensitivity::Internal)
        } else if str_eq(s, "private") {
            Ok(Sensitivity::Private)
        } else if str_eq(s, "secret") {
            Ok(Sensitivity::Secret)
        } else {
            Err(UnknownValue::new("sensitivity", s))
        }
    }
}

/// Reading back the name of a sensitivity gives that sensitivity, and a name is
/// read as a sensitivity only when it is that sensitivity's name.
pub proof fn lemma_sensitivity_names_round_trip(v: Sensitivity, s: Seq<char>)
    ensures
        Sensitivity::from_name(v.name()) == Some(v),
        Sensitivity::from_name(s) == Some(v) <==> s == v.name(),
{
    reveal_strlit("public");
    assert("public"@ =~= seq!['p', 'u', 'b', 'l', 'i', 'c']);
    reveal_strlit("internal");
    assert("internal"@ =~= seq!['i', 'n', 't', 'e', 'r', 'n', 'a', 'l']);
    reveal_strlit("private");
    assert("private"@ =~= seq!['p', 'r', 'i', 'v', 'a', 't', 'e']);
    reveal_strlit("secret");
    assert("secret"@ =~= seq!['s', 'e', 'c', 'r', 'e', 't']);
}
/// Where a memory came from.
#[derive(Debug, Clone, Copy, PartialEq, Eq, Structural)]
pub enum SourceKind {
    UserMessage,
    AssistantInference,
    UserEdit,
    Import,
    /// Memory materialized from an approved candidate extracted from a conversation.
    Conversation,
}

impl SourceKind {
    /// The name under which a source kind is stored and shown.
    pub open spec fn name(self) -> Seq<char> {
        match self {
            SourceKind::UserMessage => "user_message"@,
            SourceKind::AssistantInference => "assistant_inference"@,
            SourceKind::UserEdit => "user_edit"@,
            SourceKind::Import => "import"@,
            SourceKind::Conversation => "conversation"@,
        }
    }

    /// The source kind with the given name, if there is one.
    pub open spec fn from_name(s: Seq<char>) -> Option<SourceKind> {
        if s == "user_message"@ {
            Some(SourceKind::UserMessage)
        } else if s == "assistant_inference"@ {
            Some(SourceKind::AssistantInference)
        } else if s == "user_edit"@ {
            Some(SourceKind::UserEdit)
        } else if s == "import"@ {
            Some(SourceKind::Import)
        } else if s == "conversation"@ {
            Some(SourceKind::Conversation)
        } else {
            None
        }
    }

    /// The name of this source kind.
    pub fn as_str(&self) -> (s: &'static str)
        ensures
            s@ == self.name(),
    {
        match self {
            SourceKind::UserMessage => "user_message",
            SourceKind::AssistantInference => "assistant_inference",
            SourceKind::UserEdit => "user_edit",
            SourceKind::Import => "import",
            SourceKind::Conversation => "conversation",
        }
    }

    /// The source kind named `s`; any other text is refused.
    pub fn parse(s: &str) -> (r: Result<SourceKind, UnknownValue>)
        ensures
            match r {
                Ok(v) => SourceKind::from_name(s@) == Some(v),
                Err(e) => SourceKind::from_name(s@) is None && e.expected@ == "source kind"@ && e.value@ == s@,
            },
    {
        if str_eq(s, "user_message") {
            Ok(SourceKind::UserMessage)
        } else if str_eq(s, "assistant_inference") {
            Ok(SourceKind::AssistantInference)
        } else if str_eq(s, "user_edit") {
            Ok(SourceKind::UserEdit)
        } else if str_eq(s, "import") {
            Ok(SourceKind::Import)
        } else if str_eq(s, "conversation") {
            Ok(SourceKind::Conversation)
        } else {
            Err(UnknownValue::new("source kind", s))
        }
    }
}

/// Reading back the name of a source kind gives that source kind, and a name is
/// read as a source kind only when it is that source kind's name.
pub proof fn lemma_source_kind_names_round_trip(v: SourceKind, s: Seq<char>)
    ensures
        SourceKind::from_name(v.name()) == Some(v),
        SourceKind::from_name(s) == Some(v) <==> s == v.name(),
{
    reveal_strlit("user_message");
    assert("user_message"@ =~= seq!['u', 's', 'e', 'r', '_', 'm', 'e', 's', 's', 'a', 'g', 'e']);
    reveal_strlit("assistant_inference");
    assert("assistant_inference"@ =~= seq!['a', 's', 's', 'i', 's', 't', 'a', 'n', 't', '_', 'i', 'n', 'f', 'e', 'r', 'e', 'n', 'c', 'e']);
    reveal_strlit("user_edit");
    assert("user_edit"@ =~= seq!['u', 's', 'e', 'r', '_', 'e', 'd', 'i', 't']);
    reveal_strlit("import");
    assert("import"@ =~= seq!['i', 'm', 'p', 'o', 'r', 't']);
    reveal_strlit("conversation");
    assert("conversation"@ =~= seq!['c', 'o', 'n', 'v', 'e', 'r', 's', 'a', 't', 'i', 'o', 'n']);
}
/// The kind of a proposed memory.
#[derive(Debug, Clone, Copy, PartialEq, Eq, Structural)]
pub enum CandidateType {
    Fact,
    Preference,
    Goal,
    Relationship,
    Other,
}

impl CandidateType {
    /// The name under which a candidate type is stored and shown.
    pub open spec fn name(self) -> Seq<char> {
        match self {
            CandidateType::Fact => "fact"@,
            CandidateType::Preference => "preference"@,
            CandidateType::Goal => "goal"@,
            CandidateType::Relationship => "relationship"@,
            CandidateType::Other => "other"@,
        }
    }

    /// The candidate type with the given name, if there is one.
    pub open spec fn from_name(s: Seq<char>) -> Option<CandidateType> {
        if s == "fact"@ {
            Some(CandidateType::Fact)
        } else if s == "preference"@ {
            Some(CandidateType::Preference)
        } else if s == "goal"@ {
            Some(CandidateType::Goal)
        } else if s == "relationship"@ {
            Some(CandidateType::Relationship)
        } else if s == "other"@ {
            Some(CandidateType::Other)
        } else {
            None
        }
    }

    /// The name of this candidate type.
    pub fn as_str(&self) -> (s: &'static str)
        ensures
            s@ == self.name(),
    {
        match self {
            CandidateType::Fact => "fact",
            CandidateType::Preference => "preference",
            CandidateType::Goal => "goal",
            CandidateType::Relationship => "relationship",
            CandidateType::Other => "other",
        }
    }

    /// The candidate type named `s`; any other text is refused.
    pub fn parse(s: &str) -> (r: Result<CandidateType, UnknownValue>)
        ensures
            match r {
                Ok(v) => CandidateType::from_name(s@) == Some(v),
                Err(e) => CandidateType::from_name(s@) is None && e.expected@ == "candidate type"@ && e.value@ == s@,
            },
    {
        if str_eq(s, "fact") {
            Ok(CandidateType::Fact)
        } else if str_eq(s, "preference") {
            Ok(CandidateType::Preference)
        } else if str_eq(s, "goal") {
            Ok(CandidateType::Goal)
        } else if str_eq(s, "relationship") {
            Ok(CandidateType::Relationship)
        } else if str_eq(s, "other") {
            Ok(CandidateType::Other)
        } else {
            Err(UnknownValue::new("candidate type", s))
        }
    }
}

/// Reading back the name of a candidate type gives that candidate type, and a name is
/// read as a candidate type only when it is that candidate type's name.
pub proof fn lemma_candidate_type_names_round_trip(v: CandidateType, s: Seq<char>)
    ensures
        CandidateType::from_name(v.name()) == Some(v),
        CandidateType::from_name(s) == Some(v) <==> s == v.name(),
{
    reveal_strlit("fact");
    assert("fact"@ =~= seq!['f', 'a', 'c', 't']);
    reveal_strlit("preference");
    assert("preference"@ =~= seq!['p', 'r', 'e', 'f', 'e', 'r', 'e', 'n', 'c', 'e']);
    reveal_strlit("goal");
    assert("goal"@ =~= seq!['g', 'o', 'a', 'l']);
    reveal_strlit("relationship");
    assert("relationship"@ =~= seq!['r', 'e', 'l', 'a', 't', 'i', 'o', 'n', 's', 'h', 'i', 'p']);
    reveal_strlit("other");
    assert("other"@ =~= seq!['o', 't', 'h', 'e', 'r']);
}
/// Where a proposed memory stands in review.
#[derive(Debug, Clone, Copy, PartialEq, Eq, Structural)]
pub enum CandidateStatus {
    Pending,
    Approved,
    Rejected,
    Deferred,
}

impl CandidateStatus {
    /// The name under which a candidate status is stored and shown.
    pub open spec fn name(self) -> Seq<char> {
        match self {
            CandidateStatus::Pending => "pending"@,
            CandidateStatus::Approved => "approved"@,
            CandidateStatus::Rejected => "rejected"@,
            CandidateStatus::Deferred => "deferred"@,
        }
    }

    /// The candidate status with the given name, if there is one.
    pub open spec fn from_name(s: Seq<char>) -> Option<CandidateStatus> {
        if s == "pending"@ {
            Some(CandidateStatus::Pending)
        } else if s == "approved"@ {
            Some(CandidateStatus::Approved)
        } else if s == "rejected"@ {
            Some(CandidateStatus::Rejected)
        } else if s == "deferred"@ {
            Some(CandidateStatus::Deferred)
        } else {
            None
        }
    }

    /// The name of this candidate status.
    pub fn as_str(&self) -> (s: &'static str)
        ensures
            s@ == self.name(),
    {
        match self {
            CandidateStatus::Pending => "pending",
            CandidateStatus::Approved => "approved",
            CandidateStatus::Rejected => "rejected",
            CandidateStatus::Deferred => "deferred",
        }
    }

    /// The candidate status named `s`; any other text is refused.
    pub fn parse(s: &str) -> (r: Result<CandidateStatus, UnknownValue>)
        ensures
            match r {
                Ok(v) => CandidateStatus::from_name(s@) == Some(v),
                Err(e) => CandidateStatus::from_name(s@) is None && e.expected@ == "candidate status"@ && e.value@ == s@,
            },
    {
        if str_eq(s, "pending") {
            Ok(CandidateStatus::Pending)
        } else if str_eq(s, "approved") {
            Ok(CandidateStatus::Approved)
        } else if str_eq(s, "rejected") {
            Ok(CandidateStatus::Rejected)
        } else if str_eq(s, "deferred") {
            Ok(CandidateStatus::Deferred)
        } else {
            Err(UnknownValue::new("candidate status", s))
        }
    }
}

/// Reading back the name of a candidate status gives that candidate status, and a name is
/// read as a candidate status only when it is that candidate status's name.
pub proof fn lemma_candidate_status_names_round_trip(v: CandidateStatus, s: Seq<char>)
    ensures
        CandidateStatus::from_name(v.name()) == Some(v),
        CandidateStatus::from_name(s) == Some(v) <==> s == v.name(),
{
    reveal_strlit("pending");
    assert("pending"@ =~= seq!['p', 'e', 'n', 'd', 'i', 'n', 'g']);
    reveal_strlit("approved");
    assert("approved"@ =~= seq!['a', 'p', 'p', 'r', 'o', 'v', 'e', 'd']);
    reveal_strlit("rejected");
    assert("rejected"@ =~= seq!['r', 'e', 'j', 'e', 'c', 't', 'e', 'd']);
    reveal_strlit("deferred");
    assert("deferred"@ =~= seq!['d', 'e', 'f', 'e', 'r', 'r', 'e', 'd']);
}
/// A memory the assistant keeps about the user. Timestamps are RFC 3339
/// text, and the salience score is the two-decimal text in which prompts
/// show it (such as `0.50`).
#[derive(Debug, Clone)]
pub struct Memory {
    pub id: String,
    pub kind: MemoryType,
    pub scope: TemporalScope,
    pub sensitivity: Sensitivity,
    pub content: String,
    pub salience_score: String,
    pub source_kind: SourceKind,
    pub source_id: Option<String>,
    pub entity_id: Option<String>,
    pub created_at: String,
    pub updated_at: String,
    pub expires_at: Option<String>,
}

impl Memory {
    /// A new internal memory with a fresh identifier and the middle salience
    /// `0.50`, written now, tied to no source or entity, never expiring.
    pub fn new(kind: MemoryType, scope: TemporalScope, content: String, source_kind: SourceKind) -> (m: Memory)
        ensures
            m.kind == kind,
            m.scope == scope,
            m.content == content,
            m.source_kind == source_kind,
            m.sensitivity == Sensitivity::Internal,
            m.salience_score@ == "0.50"@,
            m.source_id is None,
            m.entity_id is None,
            m.expires_at is None,
            uuid_v4_text(m.id@),
            m.created_at@ == m.updated_at@,
            reads_as_utc_timestamp(m.created_at@),
    {
        let id = new_id();
        let now = utc_now();
        Memory {
            id,
            kind,
            scope,
            sensitivity: Sensitivity::Internal,
            content,
            salience_score: "0.50".to_owned(),
            source_kind,
            source_id: None,
            entity_id: None,
            created_at: now.clone(),
            updated_at: now,
            expires_at: None,
        }
    }
}

/// A memory as the database returns it; the salience score already rendered.
#[derive(Debug, Clone)]
pub struct MemoryRow {
    pub id: String,
    pub kind: String,
    pub scope: String,
    pub sensitivity: String,
    pub content: String,
    pub salience_score: String,
    pub source_kind: String,
    pub source_id: Option<String>,
    pub entity_id: Option<String>,
    pub created_at: String,
    pub updated_at: String,
    pub expires_at: Option<String>,
}

/// The first column of a memory row that does not read, in the order kind,
/// scope, sensitivity, source kind, created, updated, expires: as
/// `row_error_view` shows the error.
pub open spec fn memory_row_failure(row: MemoryRow) -> Option<(bool, Seq<char>, Seq<char>)> {
    if MemoryType::from_name(row.kind@) is None {
        Some((false, "memory type"@, row.kind@))
    } else if TemporalScope::from_name(row.scope@) is None {
        Some((false, "temporal scope"@, row.scope@))
    } else if Sensitivity::from_name(row.sensitivity@) is None {
        Some((false, "sensitivity"@, row.sensitivity@))
    } else if SourceKind::from_name(row.source_kind@) is None {
        Some((false, "source kind"@, row.source_kind@))
    } else if !reads_as_utc_timestamp(row.created_at@) {
        Some((true, Seq::empty(), row.created_at@))
    } else if !reads_as_utc_timestamp(row.updated_at@) {
        Some((true, Seq::empty(), row.updated_at@))
    } else if row.expires_at is Some && !reads_as_utc_timestamp(row.expires_at->0@) {
        Some((true, Seq::empty(), row.expires_at->0@))
    } else {
        None
    }
}

impl MemoryRow {
    /// The memory this row stores; refused at the first column that does not
    /// read (see `memory_row_failure`).
    pub fn into_memory(self) -> (r: Result<Memory, RowError>)
        ensures
            match r {
                Ok(m) => memory_row_failure(self) is None
                    && Some(m.kind) == MemoryType::from_name(self.kind@)
                    && Some(m.scope) == TemporalScope::from_name(self.scope@)
                    && Some(m.sensitivity) == Sensitivity::from_name(self.sensitivity@)
                    && Some(m.source_kind) == SourceKind::from_name(self.source_kind@)
                    && m.id == self.id && m.content == self.content && m.salience_score == self.salience_score
                    && m.source_id == self.source_id && m.entity_id == self.entity_id
                    && m.created_at == self.created_at && m.updated_at == self.updated_at
                    && m.expires_at == self.expires_at,
                Err(e) => memory_row_failure(self) == Some(row_error_view(e)),
            },
    {
        let kind = match MemoryType::parse(self.kind.as_str()) {
            Ok(v) => v,
            Err(e) => return Err(RowError::UnknownValue(e)),
        };
        let scope = match TemporalScope::parse(self.scope.as_str()) {
            Ok(v) => v,
            Err(e) => return Err(RowError::UnknownValue(e)),
        };
        let sensitivity = match Sensitivity::parse(self.sensitivity.as_str()) {
            Ok(v) => v,
            Err(e) => return Err(RowError::UnknownValue(e)),
        };
        let source_kind = match SourceKind::parse(self.source_kind.as_str()) {
            Ok(v) => v,
            Err(e) => return Err(RowError::UnknownValue(e)),
        };
        if !is_utc_timestamp(self.created_at.as_str()) {
            return Err(RowError::BadTimestamp(self.created_at));
        }
        if !is_utc_timestamp(self.updated_at.as_str()) {
            return Err(RowError::BadTimestamp(self.updated_at));
        }
        if let Some(t) = &self.expires_at {
            if !is_utc_timestamp(t.as_str()) {
                return Err(RowError::BadTimestamp(t.clone()));
            }
        }
        Ok(Memory {
            id: self.id,
            kind,
            scope,
            sensitivity,
            content: self.content,
            salience_score: self.salience_score,
            source_kind,
            source_id: self.source_id,
            entity_id: self.entity_id,
            created_at: self.created_at,
            updated_at: self.updated_at,
            expires_at: self.expires_at,
        })
    }
}

/// A memory stored as a row, its kinds by name and its timestamps as they
/// are, is read back as that memory: no column fails, and each kind reads
/// as the memory's own.
pub proof fn lemma_memory_row_round_trip(m: Memory, row: MemoryRow)
    requires
        row.kind@ == m.kind.name(),
        row.scope@ == m.scope.name(),
        row.sensitivity@ == m.sensitivity.name(),
        row.source_kind@ == m.source_kind.name(),
        row.created_at == m.created_at,
        row.updated_at == m.updated_at,
        row.expires_at == m.expires_at,
        reads_as_utc_timestamp(m.created_at@),
        reads_as_utc_timestamp(m.updated_at@),
        m.expires_at matches Some(t) ==> reads_as_utc_timestamp(t@),
    ensures
        memory_row_failure(row) is None,
        MemoryType::from_name(row.kind@) == Some(m.kind),
        TemporalScope::from_name(row.scope@) == Some(m.scope),
        Sensitivity::from_name(row.sensitivity@) == Some(m.sensitivity),
        SourceKind::from_name(row.source_kind@) == Some(m.source_kind),
{
    lemma_memory_type_names_round_trip(m.kind, row.kind@);
    lemma_temporal_scope_names_round_trip(m.scope, row.scope@);
    lemma_sensitivity_names_round_trip(m.sensitivity, row.sensitivity@);
    lemma_source_kind_names_round_trip(m.source_kind, row.source_kind@);
}

/// The first timestamp of a memory row that does not read as one, in the
/// order created, updated, expires.
pub open spec fn unreadable_memory_timestamp(row: MemoryRow) -> Option<Seq<char>> {
    if !reads_as_utc_timestamp(row.created_at@) {
        Some(row.created_at@)
    } else if !reads_as_utc_timestamp(row.updated_at@) {
        Some(row.updated_at@)
    } else if row.expires_at is Some && !reads_as_utc_timestamp(row.expires_at->0@) {
        Some(row.expires_at->0@)
    } else {
        None
    }
}

/// The memory type a stored name reads as, `Fact` where it names none.
pub open spec fn memory_type_or_fact(s: Seq<char>) -> MemoryType {
    match MemoryType::from_name(s) {
        Some(k) => k,
        None => MemoryType::Fact,
    }
}

/// The temporal scope a stored name reads as, `LongTerm` where it names none.
pub open spec fn temporal_scope_or_long_term(s: Seq<char>) -> TemporalScope {
    match TemporalScope::from_name(s) {
        Some(k) => k,
        None => TemporalScope::LongTerm,
    }
}

/// The sensitivity a stored name reads as, `Internal` where it names none.
pub open spec fn sensitivity_or_internal(s: Seq<char>) -> Sensitivity {
    match Sensitivity::from_name(s) {
        Some(k) => k,
        None => Sensitivity::Internal,
    }
}

/// The source kind a stored name reads as, `AssistantInference` where it
/// names none.
pub open spec fn source_kind_or_inference(s: Seq<char>) -> SourceKind {
    match SourceKind::from_name(s) {
        Some(k) => k,
        None => SourceKind::AssistantInference,
    }
}

impl MemoryRow {
    /// Reads a row of the recently approved memories that the extraction job
    /// shows the model. Unknown kinds fall back to `Fact`, `LongTerm`,
    /// `Internal` and `AssistantInference`; only a timestamp that does not
    /// read refuses the row (see `unreadable_memory_timestamp`).
    pub fn into_recent_memory(self) -> (r: Result<Memory, RowError>)
        ensures
            match r {
                Ok(m) => unreadable_memory_timestamp(self) is None
                    && m.kind == memory_type_or_fact(self.kind@)
                    && m.scope == temporal_scope_or_long_term(self.scope@)
                    && m.sensitivity == sensitivity_or_internal(self.sensitivity@)
                    && m.source_kind == source_kind_or_inference(self.source_kind@)
                    && m.id == self.id && m.content == self.content && m.salience_score == self.salience_score
                    && m.source_id == self.source_id && m.entity_id == self.entity_id
                    && m.created_at == self.created_at && m.updated_at == self.updated_at
                    && m.expires_at == self.expires_at,
                Err(RowError::BadTimestamp(t)) => unreadable_memory_timestamp(self) == Some(t@),
                Err(RowError::UnknownValue(_)) => false,
            },
    {
        let kind = match MemoryType::parse(self.kind.as_str()) {
            Ok(v) => v,
            Err(_) => MemoryType::Fact,
        };
        let scope = match TemporalScope::parse(self.scope.as_str()) {
            Ok(v) => v,
            Err(_) => TemporalScope::LongTerm,
        };
        let sensitivity = match Sensitivity::parse(self.sensitivity.as_str()) {
            Ok(v) => v,
            Err(_) => Sensitivity::Internal,
        };
        let source_kind = match SourceKind::parse(self.source_kind.as_str()) {
            Ok(v) => v,
            Err(_) => SourceKind::AssistantInference,
        };
        if !is_utc_timestamp(self.created_at.as_str()) {
            return Err(RowError::BadTimestamp(self.created_at));
        }
        if !is_utc_timestamp(self.updated_at.as_str()) {
            return Err(RowError::BadTimestamp(self.updated_at));
        }
        if let Some(t) = &self.expires_at {
            if !is_utc_timestamp(t.as_str()) {
                return Err(RowError::BadTimestamp(t.clone()));
            }
        }
        Ok(Memory {
            id: self.id,
            kind,
            scope,
            sensitivity,
            content: self.content,
            salience_score: self.salience_score,
            source_kind,
            source_id: self.source_id,
            entity_id: self.entity_id,
            created_at: self.created_at,
            updated_at: self.updated_at,
            expires_at: self.expires_at,
        })
    }
}

/// A proposed memory awaiting review. Its confidence is a float, kept here by
/// its IEEE 754 bits (`f64::to_bits`); timestamps are RFC 3339 text.
#[derive(Debug, Clone)]
pub struct MemoryCandidate {
    pub id: String,
    pub kind: CandidateType,
    pub content: String,
    pub source_id: Option<String>,
    pub confidence_bits: u64,
    pub status: CandidateStatus,
    pub reviewed_at: Option<String>,
    pub created_at: String,
}

impl MemoryCandidate {
    /// A new pending candidate with a fresh identifier, proposed now, not yet
    /// reviewed and tied to no source.
    pub fn new(kind: CandidateType, content: String, confidence_bits: u64) -> (c: MemoryCandidate)
        ensures
            c.kind == kind,
            c.content == content,
            c.confidence_bits == confidence_bits,
            c.source_id is None,
            c.status == CandidateStatus::Pending,
            c.reviewed_at is None,
            uuid_v4_text(c.id@),
            reads_as_utc_timestamp(c.created_at@),
    {
        MemoryCandidate {
            id: new_id(),
            kind,
            content,
            source_id: None,
            confidence_bits,
            status: CandidateStatus::Pending,
            reviewed_at: None,
            created_at: utc_now(),
        }
    }
}

/// A memory candidate as the database returns it: kinds by name, the
/// confidence by its bits.
#[derive(Debug, Clone)]
pub struct CandidateRow {
    pub id: String,
    pub kind: String,
    pub content: String,
    pub source_id: Option<String>,
    pub confidence_bits: u64,
    pub status: String,
    pub reviewed_at: Option<String>,
    pub created_at: String,
}

/// The first column of a candidate row that does not read, in the order
/// kind, status, reviewed, created: as `row_error_view` shows the error.
pub open spec fn candidate_row_failure(row: CandidateRow) -> Option<(bool, Seq<char>, Seq<char>)> {
    if CandidateType::from_name(row.kind@) is None {
        Some((false, "candidate type"@, row.kind@))
    } else if CandidateStatus::from_name(row.status@) is None {
        Some((false, "candidate status"@, row.status@))
    } else if row.reviewed_at is Some && !reads_as_utc_timestamp(row.reviewed_at->0@) {
        Some((true, Seq::empty(), row.reviewed_at->0@))
    } else if !reads_as_utc_timestamp(row.created_at@) {
        Some((true, Seq::empty(), row.created_at@))
    } else {
        None
    }
}

impl CandidateRow {
    /// The candidate this row stores; refused at the first column that does
    /// not read (see `candidate_row_failure`).
    pub fn into_candidate(self) -> (r: Result<MemoryCandidate, RowError>)
        ensures
            match r {
                Ok(c) => candidate_row_failure(self) is None
                    && Some(c.kind) == CandidateType::from_name(self.kind@)
                    && Some(c.status) == CandidateStatus::from_name(self.status@)
                    && c.id == self.id && c.content == self.content && c.source_id == self.source_id
                    && c.confidence_bits == self.confidence_bits && c.reviewed_at == self.reviewed_at
                    && c.created_at == self.created_at,
                Err(e) => candidate_row_failure(self) == Some(row_error_view(e)),
            },
    {
        let kind = match CandidateType::parse(self.kind.as_str()) {
            Ok(v) => v,
            Err(e) => return Err(RowError::UnknownValue(e)),
        };
        let status = match CandidateStatus::parse(self.status.as_str()) {
            Ok(v) => v,
            Err(e) => return Err(RowError::UnknownValue(e)),
        };
        if let Some(t) = &self.reviewed_at {
            if !is_utc_timestamp(t.as_str()) {
                return Err(RowError::BadTimestamp(t.clone()));
            }
        }
        if !is_utc_timestamp(self.created_at.as_str()) {
            return Err(RowError::BadTimestamp(self.created_at));
        }
        Ok(MemoryCandidate {
            id: self.id,
            kind,
            content: self.content,
            source_id: self.source_id,
            confidence_bits: self.confidence_bits,
            status,
            reviewed_at: self.reviewed_at,
            created_at: self.created_at,
        })
    }
}
} // verus!
