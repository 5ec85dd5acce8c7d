use vstd::prelude::*;

use crate::json::{parse_string_list, string_list};
use crate::models::{RowError, UnknownValue};
use crate::stamp::{is_utc_timestamp, new_id, reads_as_utc_timestamp, utc_now, uuid_v4_text};
use crate::text::{str_eq, views};

verus! {

/// The kind of a known entity.
#[derive(Debug, Clone, Copy, PartialEq, Eq, Structural)]
pub enum EntityType {
    Person,
    Place,
    Project,
    Organization,
    Concept,
    Tool,
    Event,
    Other,
}

impl EntityType {
    /// The name under which a entity type is stored and shown.
    pub open spec fn name(self) -> Seq<char> {
        match self {
            EntityType::Person => "person"@,
            EntityType::Place => "place"@,
            EntityType::Project => "project"@,
            EntityType::Organization => "organization"@,
            EntityType::Concept => "concept"@,
            EntityType::Tool => "tool"@,
            EntityType::Event => "event"@,
            EntityType::Other => "other"@,
        }
    }

    /// The entity type with the given name, if there is one.
    pub open spec fn from_name(s: Seq<char>) -> Option<EntityType> {
        if s == "person"@ {
            Some(EntityType::Person)
        } else if s == "place"@ {
            Some(EntityType::Place)
        } else if s == "project"@ {
            Some(EntityType::Project)
        } else if s == "organization"@ {
            Some(EntityType::Organization)
        } else if s == "concept"@ {
            Some(EntityType::Concept)
        } else if s == "tool"@ {
            Some(EntityType::Tool)
        } else if s == "event"@ {
            Some(EntityType::Event)
        } else if s == "other"@ {
            Some(EntityType::Other)
        } else {
            None
        }
    }

    /// The name of this entity type.
    pub fn as_str(&self) -> (s: &'static str)
        ensures
            s@ == self.name(),
    {
        match self {
            EntityType::Person => "person",
            EntityType::Place => "place",
            EntityType::Project => "project",
            EntityType::Organization => "organization",
            EntityType::Concept => "concept",
            EntityType::Tool => "tool",
            EntityType::Event => "event",
            EntityType::Other => "other",
        }
    }

    /// The entity type named `s`; any other text is refused.
    pub fn parse(s: &str) -> (r: Result<EntityType, UnknownValue>)
        ensures
            match r {
                Ok(v) => EntityType::from_name(s@) == Some(v),
                Err(e) => EntityType::from_name(s@) is None && e.expected@ == "entity type"@ && e.value@ == s@,
            },
    {
        if str_eq(s, "person") {
            Ok(EntityType::Person)
        } else if str_eq(s, "place") {
            Ok(EntityType::Place)
        } else if str_eq(s, "project") {
            Ok(EntityType::Project)
        } else if str_eq(s, "organization") {
            Ok(EntityType::Organization)
        } else if str_eq(s, "concept") {
            Ok(EntityType::Concept)
        } else if str_eq(s, "tool") {
            Ok(EntityType::Tool)
        } else if str_eq(s, "event") {
            Ok(EntityType::Event)
        } else if str_eq(s, "other") {
            Ok(EntityType::Other)
        } else {
            Err(UnknownValue::new("entity type", s))
        }
    }
}

/// Reading back the name of a entity type gives that entity type, and a name is
/// read as a entity type only when it is that entity type's name.
pub proof fn lemma_entity_type_names_round_trip(v: EntityType, s: Seq<char>)
    ensures
        EntityType::from_name(v.name()) == Some(v),
        EntityType::from_name(s) == Some(v) <==> s == v.name(),
{
    reveal_strlit("person");
    assert("person"@ =~= seq!['p', 'e', 'r', 's', 'o', 'n']);
    reveal_strlit("place");
    assert("place"@ =~= seq!['p', 'l', 'a', 'c', 'e']);
    reveal_strlit("project");
    assert("project"@ =~= seq!['p', 'r', 'o', 'j', 'e', 'c', 't']);
    reveal_strlit("organization");
    assert("organization"@ =~= seq!['o', 'r', 'g', 'a', 'n', 'i', 'z', 'a', 't', 'i', 'o', 'n']);
    reveal_strlit("concept");
    assert("concept"@ =~= seq!['c', 'o', 'n', 'c', 'e', 'p', 't']);
    reveal_strlit("tool");
    assert("tool"@ =~= seq!['t', 'o', 'o', 'l']);
    reveal_strlit("event");
    assert("event"@ =~= seq!['e', 'v', 'e', 'n', 't']);
    reveal_strlit("other");
    assert("other"@ =~= seq!['o', 't', 'h', 'e', 'r']);
}
/// Where a known entity stands.
#[derive(Debug, Clone, Copy, PartialEq, Eq, Structural)]
pub enum EntityStatus {
    Active,
    Archived,
    Merged,
    Deleted,
}

impl EntityStatus {
    /// The name under which a entity status is stored and shown.
    pub open spec fn name(self) -> Seq<char> {
        match self {
            EntityStatus::Active => "active"@,
            EntityStatus::Archived => "archived"@,
            EntityStatus::Merged => "merged"@,
            EntityStatus::Deleted => "deleted"@,
        }
    }

    /// The entity status with the given name, if there is one.
    pub open spec fn from_name(s: Seq<char>) -> Option<EntityStatus> {
        if s == "active"@ {
            Some(EntityStatus::Active)
        } else if s == "archived"@ {
            Some(EntityStatus::Archived)
        } else if s == "merged"@ {
            Some(EntityStatus::Merged)
        } else if s == "deleted"@ {
            Some(EntityStatus::Deleted)
        } else {
            None
        }
    }

    /// The name of this entity status.
    pub fn as_str(&self) -> (s: &'static str)
        ensures
            s@ == self.name(),
    {
        match self {
            EntityStatus::Active => "active",
            EntityStatus::Archived => "archived",
            EntityStatus::Merged => "merged",
            EntityStatus::Deleted => "deleted",
        }
    }

    /// The entity status named `s`; any other text is refused.
    pub fn parse(s: &str) -> (r: Result<EntityStatus, UnknownValue>)
        ensures
            match r {
                Ok(v) => EntityStatus::from_name(s@) == Some(v),
                Err(e) => EntityStatus::from_name(s@) is None && e.expected@ == "entity status"@ && e.value@ == s@,
            },
    {
        if str_eq(s, "active") {
            Ok(EntityStatus::Active)
        } else if str_eq(s, "archived") {
            Ok(EntityStatus::Archived)
        } else if str_eq(s, "merged") {
            Ok(EntityStatus::Merged)
        } else if str_eq(s, "deleted") {
            Ok(EntityStatus::Deleted)
        } else {
            Err(UnknownValue::new("entity status", s))
        }
    }
}

/// Reading back the name of a entity status gives that entity status, and a name is
/// read as a entity status only when it is that entity status's name.
pub proof fn lemma_entity_status_names_round_trip(v: EntityStatus, s: Seq<char>)
    ensures
        EntityStatus::from_name(v.name()) == Some(v),
        EntityStatus::from_name(s) == Some(v) <==> s == v.name(),
{
    reveal_strlit("active");
    assert("active"@ =~= seq!['a', 'c', 't', 'i', 'v', 'e']);
    reveal_strlit("archived");
    assert("archived"@ =~= seq!['a', 'r', 'c', 'h', 'i', 'v', 'e', 'd']);
    reveal_strlit("merged");
    assert("merged"@ =~= seq!['m', 'e', 'r', 'g', 'e', 'd']);
    reveal_strlit("deleted");
    assert("deleted"@ =~= seq!['d', 'e', 'l', 'e', 't', 'e', 'd']);
}
/// The bits of the `f64` value 1.0, the confidence of an entity the user named.
pub const FULL_CONFIDENCE_BITS: u64 = 0x3FF0_0000_0000_0000;

/// A person, place, project or other thing the assistant knows of. Its
/// confidence is a float, kept here by its IEEE 754 bits (`f64::to_bits`);
/// timestamps are RFC 3339 text.
#[derive(Debug, Clone)]
pub struct Entity {
    pub id: String,
    pub kind: EntityType,
    pub name: String,
    pub aliases: Vec<String>,
    pub status: EntityStatus,
    pub confidence_bits: u64,
    pub source_id: Option<String>,
    pub created_at: String,
    pub updated_at: String,
}

impl Entity {
    /// A new active entity of full confidence with a fresh identifier and no
    /// aliases or source, written now.
    pub fn new(kind: EntityType, name: String) -> (e: Entity)
        ensures
            e.kind == kind,
            e.name == name,
            e.aliases@.len() == 0,
            e.status == EntityStatus::Active,
            e.confidence_bits == FULL_CONFIDENCE_BITS,
            e.source_id is None,
            uuid_v4_text(e.id@),
            e.created_at@ == e.updated_at@,
            reads_as_utc_timestamp(e.created_at@),
    {
        let now = utc_now();
        Entity {
            id: new_id(),
            kind,
            name,
            aliases: Vec::new(),
            status: EntityStatus::Active,
            confidence_bits: FULL_CONFIDENCE_BITS,
            source_id: None,
            created_at: now.clone(),
            updated_at: now,
        }
    }
}

/// A relation between two entities. Its weight is a float, kept here by its
/// IEEE 754 bits (`f64::to_bits`).
#[derive(Debug, Clone)]
pub struct Relationship {
    pub id: String,
    pub from_entity: String,
    pub to_entity: String,
    pub relation_type: String,
    pub weight_bits: u64,
    pub created_at: String,
}

impl Relationship {
    /// A new relation of full weight with a fresh identifier, written now.
    pub fn new(from_entity: String, to_entity: String, relation_type: String) -> (r: Relationship)
        ensures
            r.from_entity == from_entity,
            r.to_entity == to_entity,
            r.relation_type == relation_type,
            r.weight_bits == FULL_CONFIDENCE_BITS,
            uuid_v4_text(r.id@),
            reads_as_utc_timestamp(r.created_at@),
    {
        Relationship {
            id: new_id(),
            from_entity,
            to_entity,
            relation_type,
            weight_bits: FULL_CONFIDENCE_BITS,
            created_at: utc_now(),
        }
    }
}

/// An entity as the database returns it: kinds by name, aliases as the JSON
/// text of a list of strings (or nothing), the confidence by its bits.
#[derive(Debug, Clone)]
pub struct EntityRow {
    pub id: String,
    pub kind: String,
    pub name: String,
    pub aliases: Option<String>,
    pub status: String,
    pub confidence_bits: u64,
    pub source_id: Option<String>,
    pub created_at: String,
    pub updated_at: String,
}

/// The entity type a stored name reads as, `Other` where it names none.
pub open spec fn entity_type_or_other(s: Seq<char>) -> EntityType {
    match EntityType::from_name(s) {
        Some(k) => k,
        None => EntityType::Other,
    }
}

/// The entity status a stored name reads as, `Active` where it names none.
pub open spec fn entity_status_or_active(s: Seq<char>) -> EntityStatus {
    match EntityStatus::from_name(s) {
        Some(k) => k,
        None => EntityStatus::Active,
    }
}

/// The aliases a stored column holds: the strings of the JSON list it holds,
/// and none where the column is empty or is not such a list.
pub open spec fn stored_aliases(column: Option<String>) -> Seq<Seq<char>> {
    match column {
        Some(t) => match string_list(t@) {
            Some(l) => l,
            None => Seq::empty(),
        },
        None => Seq::empty(),
    }
}

/// Reads a row of the active entities that the extraction job shows the
/// model. Unknown kinds and statuses fall back to `Other` and `Active`, and
/// unreadable aliases to none; only a timestamp that does not read refuses
/// the row, the creation time first.
pub fn entity_from_active_row(row: EntityRow) -> (r: Result<Entity, RowError>)
    ensures
        match r {
            Ok(e) => reads_as_utc_timestamp(row.created_at@) && reads_as_utc_timestamp(row.updated_at@)
                && e.id == row.id && e.kind == entity_type_or_other(row.kind@) && e.name == row.name
                && views(e.aliases@) == stored_aliases(row.aliases)
                && e.status == entity_status_or_active(row.status@) && e.confidence_bits == row.confidence_bits
                && e.source_id == row.source_id && e.created_at == row.created_at && e.updated_at == row.updated_at,
            Err(RowError::BadTimestamp(t)) => if !reads_as_utc_timestamp(row.created_at@) {
                t == row.created_at
            } else {
                !reads_as_utc_timestamp(row.updated_at@) && t == row.updated_at
            },
            Err(RowError::UnknownValue(_)) => false,
        },
{
    let aliases = match &row.aliases {
        Some(t) => match parse_string_list(t.as_str()) {
            Some(l) => l,
            None => Vec::new(),
        },
        None => Vec::new(),
    };
    assert(views(aliases@) == stored_aliases(row.aliases));
    let kind = match EntityType::parse(row.kind.as_str()) {
        Ok(k) => k,
        Err(_) => EntityType::Other,
    };
    let status = match EntityStatus::parse(row.status.as_str()) {
        Ok(s) => s,
        Err(_) => EntityStatus::Active,
    };
    if !is_utc_timestamp(row.created_at.as_str()) {
        return Err(RowError::BadTimestamp(row.created_at));
    }
    if !is_utc_timestamp(row.updated_at.as_str()) {
        return Err(RowError::BadTimestamp(row.updated_at));
    }
    Ok(Entity {
        id: row.id,
        kind,
        name: row.name,
        aliases,
        status,
        confidence_bits: row.confidence_bits,
        source_id: row.source_id,
        created_at: row.created_at,
        updated_at: row.updated_at,
    })
}
} // verus!
