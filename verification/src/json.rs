//! JSON documents, which `serde_json` reads and `jsonschema` checks.
use vstd::prelude::*;

use serde_json::Value;

use crate::text::views;

verus! {

#[verifier::external_type_specification]
#[verifier::external_body]
pub struct ExJsonValue(serde_json::Value);

#[verifier::external_type_specification]
#[verifier::external_body]
pub struct ExJsonSchema(jsonschema::JSONSchema);

/// Whether `serde_json` reads the text as one JSON value.
pub uninterp spec fn is_json(text: Seq<char>) -> bool;

/// What `jsonschema` says of a schema, given as the text it was read from:
/// `None` where it compiles, else the message of the error that refused it.
pub uninterp spec fn schema_refusal(schema: Seq<char>) -> Option<Seq<char>>;

/// The messages of the errors that `jsonschema` finds in an instance against
/// a schema that compiles, both given as the texts they were read from, in
/// the order the validator reports them.
pub uninterp spec fn schema_violations(schema: Seq<char>, instance: Seq<char>) -> Seq<Seq<char>>;

/// The strings of the JSON text where `serde_json` reads it as a list of
/// strings (`Vec<String>`), else `None`.
pub uninterp spec fn string_list(text: Seq<char>) -> Option<Seq<Seq<char>>>;

/// A JSON document: a text that `serde_json` reads, with the value it read.
/// Only `read_json` makes one, so the value is always the one read from the
/// text.
pub struct JsonDoc {
    text: String,
    value: Value,
}

impl JsonDoc {
    /// The text the document was read from.
    pub closed spec fn source(&self) -> Seq<char> {
        self.text@
    }

    /// The text the document was read from.
    pub fn text(&self) -> (t: &str)
        ensures
            t@ == self.source(),
    {
        self.text.as_str()
    }

    /// The value read from the text.
    pub fn value(&self) -> &Value {
        &self.value
    }

    /// The value read from the text, taken out of the document.
    pub fn into_value(self) -> Value {
        self.value
    }
}

/// A schema that `jsonschema` compiled, with the text it was read from.
/// Only `compile` makes one.
pub struct Schema {
    source: Ghost<Seq<char>>,
    compiled: jsonschema::JSONSchema,
}

impl Schema {
    /// The text the schema was read from.
    pub closed spec fn source(&self) -> Seq<char> {
        self.source@
    }
}

/// Calls `serde_json::from_str::<Value>`: it succeeds exactly on the texts
/// named by `is_json`. The value read is carried, not inspected.
#[verifier::external_body]
fn parse_json(text: &str) -> (v: Option<Value>)
    ensures
        v is Some <==> is_json(text@),
{
    serde_json::from_str::<Value>(text).ok()
}

/// Calls `serde_json::from_str::<Vec<String>>`: the strings of a JSON list of
/// strings, as named by `string_list`, and `None` for any other text.
#[verifier::external_body]
pub(crate) fn parse_string_list(text: &str) -> (r: Option<Vec<String>>)
    ensures
        match r {
            Some(v) => string_list(text@) == Some(views(v@)),
            None => string_list(text@) is None,
        },
{
    serde_json::from_str::<Vec<String>>(text).ok()
}

/// Reads a JSON document: `None` exactly where the text is not JSON.
pub fn read_json(text: &str) -> (r: Option<JsonDoc>)
    ensures
        r is Some <==> is_json(text@),
        r matches Some(d) ==> d.source() == text@,
{
    match parse_json(text) {
        Some(value) => Some(JsonDoc { text: text.to_owned(), value }),
        None => None,
    }
}

/// Calls `jsonschema::JSONSchema::compile` on the document's value; where the
/// schema is refused, the error's message is handed back. The crate is built
/// without its `resolve-http` and `resolve-file` features, so no remote or
/// file reference is fetched and the outcome depends on the schema alone: it
/// is named by `schema_refusal`.
#[verifier::external_body]
fn compile_schema(schema: &JsonDoc) -> (r: Result<jsonschema::JSONSchema, String>)
    ensures
        match r {
            Ok(_) => schema_refusal(schema.source()) is None,
            Err(m) => schema_refusal(schema.source()) == Some(m@),
        },
{
    jsonschema::JSONSchema::compile(&schema.value).map_err(|e| e.to_string())
}

/// Compiles a schema document: `Err` with the refusal's message exactly where
/// `jsonschema` refuses it.
pub fn compile(schema: &JsonDoc) -> (r: Result<Schema, String>)
    ensures
        match r {
            Ok(s) => schema_refusal(schema.source()) is None && s.source() == schema.source(),
            Err(m) => schema_refusal(schema.source()) == Some(m@),
        },
{
    match compile_schema(schema) {
        Ok(compiled) => Ok(Schema { source: Ghost(schema.source()), compiled }),
        Err(m) => Err(m),
    }
}

/// Calls `JSONSchema::validate` and hands back the message of each error,
/// in the order the validator reports them (none where the value is valid):
/// the messages named by `schema_violations` for the two texts.
#[verifier::external_body]
pub(crate) fn schema_errors(schema: &Schema, instance: &JsonDoc) -> (errors: Vec<String>)
    ensures
        views(errors@) == schema_violations(schema.source(), instance.source()),
{
    match schema.compiled.validate(&instance.value) {
        Ok(()) => Vec::new(),
        Err(errors) => errors.map(|e| e.to_string()).collect(),
    }
}

} // verus!
