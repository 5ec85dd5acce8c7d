use vstd::prelude::*;


use crate::json::{compile, is_json, read_json, schema_errors, schema_refusal, schema_violations, JsonDoc};
use crate::models::message::{Message, MessageRole};
use crate::text::{
    append, chars_of, contains, contains_chars, join, join_strings, lowercase, pieces,
    replace_all, replace_all_str, split_pieces, str_eq, to_lowercase, utf8_len, views, Separator,
};

verus! {

/// What the extraction worker is asked to look at.
#[derive(Debug, Clone)]
pub struct ExtractionJob {
    pub conversation_id: String,
    pub message_ids: Vec<String>,
}

/// Where in the conversation a proposed memory was seen.
#[derive(Debug, Clone)]
pub struct SourceRef {
    pub message_id: String,
    pub excerpt: Option<String>,
}

/// A memory proposed by the extraction model, as far as the worker reads it
/// (the model's confidence and salience figures are handled alongside).
#[derive(Debug, Clone)]
pub struct MemoryCandidateRaw {
    pub candidate_type: String,
    pub memory_type: String,
    pub statement: String,
    pub summary: String,
    pub temporal_scope: String,
    pub sensitivity: String,
    pub related_entity_names: Vec<String>,
    pub source_refs: Vec<SourceRef>,
    pub rationale: String,
}

/// Runs the extraction of memory candidates from a conversation.
pub struct ExtractionWorker;

// ---------------------------------------------------------------------------
// Salient tokens
// ---------------------------------------------------------------------------

/// Common words that say nothing about the user.
pub open spec fn stop_words() -> Seq<Seq<char>> {
    seq![
        "the"@, "and"@, "for"@, "with"@, "that"@, "this"@, "from"@, "have"@, "has"@, "user"@,
        "will"@, "would"@, "their"@, "they"@, "them"@, "into"@, "about"@, "your"@, "ours"@,
        "core"@, "statement"@, "summary"@,
    ]
}

/// A token is salient when it is longer than three bytes and not a stop word.
pub open spec fn salient() -> spec_fn(Seq<char>) -> bool {
    |t: Seq<char>| utf8_len(t) > 3 && !stop_words().contains(t)
}

/// The salient tokens of a text: its lower-cased form split at every
/// character that is not alphanumeric, keeping the salient pieces in order.
pub open spec fn salient_tokens_of(s: Seq<char>) -> Seq<Seq<char>> {
    pieces(lowercase(s), Separator::NonAlphanumeric).filter(salient())
}

fn stop_word_list() -> (v: Vec<&'static str>)
    ensures
        v@.map_values(|w: &str| w@) == stop_words(),
{
    let v = vec![
        "the", "and", "for", "with", "that", "this", "from", "have", "has", "user",
        "will", "would", "their", "they", "them", "into", "about", "your", "ours",
        "core", "statement", "summary",
    ];
    assert(v@.map_values(|w: &str| w@) =~= stop_words());
    v
}

fn is_stop_word(t: &str) -> (r: bool)
    ensures
        r == stop_words().contains(t@),
{
    let words = stop_word_list();
    let ghost ws = words@.map_values(|w: &str| w@);
    let mut i: usize = 0;
    while i < words.len()
        invariant
            i <= words.len(),
            ws == words@.map_values(|w: &str| w@),
            ws == stop_words(),
            forall|j: int| 0 <= j < i ==> ws[j] != t@,
        decreases words.len() - i,
    {
        if str_eq(words[i], t) {
            assert(ws[i as int] == t@);
            return true;
        }
        i = i + 1;
    }
    false
}

// ---------------------------------------------------------------------------
// Token sets
// ---------------------------------------------------------------------------

/// The tokens, each once, in order of first appearance.
fn distinct(tokens: &Vec<String>) -> (out: Vec<String>)
    ensures
        views(out@).no_duplicates(),
        views(out@).to_set() == views(tokens@).to_set(),
{
    let mut out: Vec<String> = Vec::new();
    let mut i: usize = 0;
    while i < tokens.len()
        invariant
            i <= tokens.len(),
            views(out@).no_duplicates(),
            views(out@).to_set() == views(tokens@).take(i as int).to_set(),
        decreases tokens.len() - i,
    {
        let t = tokens[i].as_str();
        let mut seen = false;
        let mut k: usize = 0;
        while k < out.len()
            invariant
                k <= out.len(),
                !seen ==> forall|j: int| 0 <= j < k ==> views(out@)[j] != t@,
                seen ==> views(out@).contains(t@),
            decreases out.len() - k,
        {
            if str_eq(out[k].as_str(), t) {
                assert(views(out@)[k as int] == t@);
                seen = true;
            }
            k = k + 1;
        }
        let ghost before = views(out@);
        assert(views(tokens@).take(i + 1) =~= views(tokens@).take(i as int).push(t@));
        if !seen {
            out.push(tokens[i].clone());
            assert(views(out@) =~= before.push(t@));
            proof {
                before.lemma_push_to_set_commute(t@);
            }
            assert(views(out@).no_duplicates());
        } else {
            assert(before.to_set().insert(t@) =~= before.to_set());
        }
        proof {
            views(tokens@).take(i as int).lemma_push_to_set_commute(t@);
        }
        i = i + 1;
    }
    assert(views(tokens@).take(tokens.len() as int) =~= views(tokens@));
    out
}

/// In a sequence without repeats, the elements that lie in `b` are as many as
/// the sequence's set has in common with `b`.
proof fn lemma_filter_in_set_len(s: Seq<Seq<char>>, b: Set<Seq<char>>)
    requires
        s.no_duplicates(),
    ensures
        s.filter(|t: Seq<char>| b.contains(t)).len() == s.to_set().intersect(b).len(),
        s.to_set().finite(),
    decreases s.len(),
{
    let p = |t: Seq<char>| b.contains(t);
    if s.len() == 0 {
        reveal(Seq::filter);
        assert(s.to_set() =~= Set::empty());
        assert(s.to_set().intersect(b) =~= Set::empty());
    } else {
        let r = s.drop_last();
        let x = s.last();
        assert(r.no_duplicates());
        lemma_filter_in_set_len(r, b);
        assert(s =~= r.push(x));
        r.lemma_filter_push(x, p);
        assert(s.to_set() =~= r.to_set().insert(x));
        assert(!r.to_set().contains(x)) by {
            if r.to_set().contains(x) {
                let j = choose|j: int| 0 <= j < r.len() && r[j] == x;
                assert(s[j] == s[s.len() - 1]);
            }
        }
        if b.contains(x) {
            assert(s.to_set().intersect(b) =~= r.to_set().intersect(b).insert(x));
        } else {
            assert(s.to_set().intersect(b) =~= r.to_set().intersect(b));
        }
    }
}

/// The set of salient tokens of a text.
pub open spec fn token_set(s: Seq<char>) -> Set<Seq<char>> {
    salient_tokens_of(s).to_set()
}

/// The overlap of the salient tokens of two texts reaches 72%: both have
/// salient tokens, and the tokens they share are at least 18/25 of all their
/// tokens (intersection over union, each token counted once). This is the
/// ratio test `|A ∩ B| / |A ∪ B| >= 0.72` in exact rational form; carried out
/// in `f32`, the test gives the same answer while the union holds fewer than
/// 671,088 tokens, since no other ratio of such counts rounds to the same
/// `f32` as 0.72.
pub open spec fn overlap_reaches(a: Seq<char>, b: Seq<char>) -> bool {
    let x = token_set(a);
    let y = token_set(b);
    x.len() > 0 && y.len() > 0 && 25 * x.intersect(y).len() >= 18 * (x + y).len()
}

// ---------------------------------------------------------------------------
// Candidate signals
// ---------------------------------------------------------------------------

/// The candidate is stated by a user message: the message (lower-cased)
/// holds the statement or the non-empty summary (lower-cased), or shares
/// enough salient tokens with the statement.
pub open spec fn stated_in(message: Seq<char>, c: MemoryCandidateRaw) -> bool {
    let lc = lowercase(message);
    let statement = lowercase(c.statement@);
    let summary = lowercase(c.summary@);
    contains(lc, statement) || (summary.len() > 0 && contains(lc, summary)) || overlap_reaches(lc, statement)
}

/// Some user message states the candidate.
pub open spec fn explicitly_stated(messages: Seq<Message>, c: MemoryCandidateRaw) -> bool {
    exists|i: int| 0 <= i < messages.len() && messages[i].role == MessageRole::User
        && #[trigger] stated_in(messages[i].content@, c)
}

/// How many of the tokens (with repeats) occur in the text.
pub open spec fn hits(tokens: Seq<Seq<char>>, text: Seq<char>) -> nat {
    tokens.filter(|t: Seq<char>| contains(text, t)).len()
}

/// The messages (of any author) that hold at least two of the statement's
/// salient tokens; none where the statement has no salient token.
pub open spec fn repeated_signals(messages: Seq<Message>, c: MemoryCandidateRaw) -> nat {
    let tokens = salient_tokens_of(c.statement@);
    if tokens.len() == 0 {
        0
    } else {
        messages.filter(|m: Message| hits(tokens, lowercase(m.content@)) >= 2).len()
    }
}

/// Two or more words, each an upper-case ASCII letter followed by one or more
/// ASCII letters or digits, separated by white space, between word boundaries.
pub open spec fn named_entity_pattern() -> Seq<char> {
    "\\b[A-Z][a-zA-Z0-9]+(?:\\s+[A-Z][a-zA-Z0-9]+)+\\b"@
}

/// Whether the `regex` crate accepts the pattern.
pub uninterp spec fn regex_compiles(pattern: Seq<char>) -> bool;

/// Whether the compiled pattern matches somewhere in the text, as
/// `regex::Regex::is_match` decides.
pub uninterp spec fn regex_matches(pattern: Seq<char>, text: Seq<char>) -> bool;

/// Calls `regex::Regex::new` on the pattern and, where it compiles,
/// `Regex::is_match` on the text. Both results are named; the matching
/// algorithm is not written out.
#[verifier::external_body]
fn regex_is_match(pattern: &str, text: &str) -> (r: Option<bool>)
    ensures
        r is Some <==> regex_compiles(pattern@),
        r matches Some(b) ==> b == regex_matches(pattern@, text@),
{
    match regex::Regex::new(pattern) {
        Ok(re) => Some(re.is_match(text)),
        Err(_) => None,
    }
}

/// The text names something the way a proper name is written.
pub open spec fn has_named_entity_shape(s: Seq<char>) -> bool {
    regex_compiles(named_entity_pattern()) && regex_matches(named_entity_pattern(), s)
}

/// Memory types that are about what the user does or wants.
pub open spec fn actionable_memory_types() -> Seq<Seq<char>> {
    seq!["preference"@, "ongoing_project"@, "workflow_rule"@, "constraint"@]
}

/// Words that mark an intention or a need.
pub open spec fn action_needles() -> Seq<Seq<char>> {
    seq![
        "prefer"@, "wants"@, "needs"@, "should"@, "must"@, "working on"@, "project"@,
        "goal"@, "constraint"@,
    ]
}

/// The candidate is actionable: its memory type is one of the actionable
/// ones, or its lower-cased statement and summary (joined by a space) hold
/// one of the needles.
pub open spec fn actionable(c: MemoryCandidateRaw) -> bool {
    actionable_memory_types().contains(c.memory_type@) || {
        let lc = lowercase(c.statement@) + " "@ + lowercase(c.summary@);
        exists|i: int| 0 <= i < action_needles().len() && contains(lc, #[trigger] action_needles()[i])
    }
}

/// The candidate is marked `private` or `highly_private`.
pub open spec fn sensitive(c: MemoryCandidateRaw) -> bool {
    c.sensitivity@ == "private"@ || c.sensitivity@ == "highly_private"@
}

/// What the worker observed of a candidate, before weighing the model's own
/// confidence.
#[derive(Debug, Clone, Copy, PartialEq, Eq, Structural)]
pub struct CandidateSignals {
    pub explicit_user_statement: bool,
    pub repeated_signal_count: u32,
    pub has_named_entities: bool,
    pub is_actionable: bool,
    pub is_sensitive: bool,
    pub has_source_refs: bool,
}

/// The signals of a candidate in a conversation.
pub open spec fn signals_of(messages: Seq<Message>, c: MemoryCandidateRaw) -> CandidateSignals {
    CandidateSignals {
        explicit_user_statement: explicitly_stated(messages, c),
        repeated_signal_count: repeated_signals(messages, c) as u32,
        has_named_entities: c.related_entity_names@.len() > 0 || has_named_entity_shape(c.statement@),
        is_actionable: actionable(c),
        is_sensitive: sensitive(c),
        has_source_refs: c.source_refs@.len() > 0,
    }
}

/// Why a candidate was set aside without review.
#[derive(Debug, Clone, Copy, PartialEq, Eq, Structural)]
pub enum RejectReason {
    /// The model named no message the candidate came from.
    NoSourceRefs,
    /// The rescored confidence is under the acceptance threshold.
    ConfidenceBelowThreshold,
}

impl RejectReason {
    pub open spec fn name(self) -> Seq<char> {
        match self {
            RejectReason::NoSourceRefs => "no_source_refs"@,
            RejectReason::ConfidenceBelowThreshold => "confidence_below_threshold"@,
        }
    }

    /// The name under which the rejection is logged.
    pub fn as_str(&self) -> (s: &'static str)
        ensures
            s@ == self.name(),
    {
        match self {
            RejectReason::NoSourceRefs => "no_source_refs",
            RejectReason::ConfidenceBelowThreshold => "confidence_below_threshold",
        }
    }
}

/// Whether, and why, a candidate is rejected: one without source references
/// always is; otherwise one whose rescored confidence is under the threshold.
pub open spec fn rejection(signals: CandidateSignals, below_threshold: bool) -> Option<RejectReason> {
    if !signals.has_source_refs {
        Some(RejectReason::NoSourceRefs)
    } else if below_threshold {
        Some(RejectReason::ConfidenceBelowThreshold)
    } else {
        None
    }
}

// ---------------------------------------------------------------------------
// The model's reply
// ---------------------------------------------------------------------------

/// Why the extraction model's reply could not be used.
#[derive(Debug, Clone)]
pub enum ExtractionError {
    /// The reply is not JSON and holds no `{`.
    NoOpeningBrace,
    /// The reply is not JSON, holds a `{` but no `}`.
    NoClosingBrace,
    /// The text from the first `{` to the last `}` is not JSON either.
    UnparsableSlice(String),
    /// The schema's text is not JSON.
    SchemaUnreadable,
    /// `jsonschema` refused the schema, with this message.
    SchemaUncompilable(String),
    /// The reply breaks the schema; the validator's messages joined by `; `.
    SchemaViolations(String),
}

impl ExtractionError {
    /// The message that reports the error.
    pub fn message(&self) -> (m: String)
        ensures
            m@ == match self {
                ExtractionError::NoOpeningBrace => "no opening brace found"@,
                ExtractionError::NoClosingBrace => "no closing brace found"@,
                ExtractionError::UnparsableSlice(t) => "failed to parse extracted JSON slice: "@ + t@,
                ExtractionError::SchemaUnreadable => "failed to parse extraction schema JSON"@,
                ExtractionError::SchemaUncompilable(e) => "failed to compile JSON schema: "@ + e@,
                ExtractionError::SchemaViolations(e) => "extractor JSON failed schema validation: "@ + e@,
            },
    {
        let mut m = String::new();
        match self {
            ExtractionError::NoOpeningBrace => append(&mut m, "no opening brace found"),
            ExtractionError::NoClosingBrace => append(&mut m, "no closing brace found"),
            ExtractionError::UnparsableSlice(t) => {
                append(&mut m, "failed to parse extracted JSON slice: ");
                append(&mut m, t.as_str());
            },
            ExtractionError::SchemaUnreadable => append(&mut m, "failed to parse extraction schema JSON"),
            ExtractionError::SchemaUncompilable(e) => {
                append(&mut m, "failed to compile JSON schema: ");
                append(&mut m, e.as_str());
            },
            ExtractionError::SchemaViolations(e) => {
                append(&mut m, "extractor JSON failed schema validation: ");
                append(&mut m, e.as_str());
            },
        }
        assert(m@ =~= match self {
            ExtractionError::NoOpeningBrace => "no opening brace found"@,
            ExtractionError::NoClosingBrace => "no closing brace found"@,
            ExtractionError::UnparsableSlice(t) => "failed to parse extracted JSON slice: "@ + t@,
            ExtractionError::SchemaUnreadable => "failed to parse extraction schema JSON"@,
            ExtractionError::SchemaUncompilable(e) => "failed to compile JSON schema: "@ + e@,
            ExtractionError::SchemaViolations(e) => "extractor JSON failed schema validation: "@ + e@,
        });
        m
    }
}

/// `i` is the index of the first `c` in `s`.
pub open spec fn first_at(s: Seq<char>, c: char, i: int) -> bool {
    0 <= i < s.len() && s[i] == c && forall|j: int| 0 <= j < i ==> s[j] != c
}

/// `i` is the index of the last `c` in `s`.
pub open spec fn last_at(s: Seq<char>, c: char, i: int) -> bool {
    0 <= i < s.len() && s[i] == c && forall|j: int| i < j < s.len() ==> s[j] != c
}

/// No `}` comes before every `{`: the last `}` does not stand before the
/// first `{`.
pub open spec fn braces_in_order(s: Seq<char>) -> bool {
    forall|o: int, e: int| first_at(s, '{', o) && last_at(s, '}', e) ==> o <= e
}

/// The text from the first `{` to the last `}` of `s`, both included.
pub open spec fn braced_slice(s: Seq<char>, o: int, e: int) -> Seq<char> {
    s.subrange(o, e + 1)
}

/// What reading the reply gives: the reply itself where it is JSON, else the
/// text from its first `{` to its last `}` where that is JSON, else the
/// error.
pub open spec fn extraction_outcome_ok(text: Seq<char>, r: Result<JsonDoc, ExtractionError>) -> bool {
    match r {
        Ok(d) => if is_json(text) {
            d.source() == text
        } else {
            exists|o: int, e: int|
                first_at(text, '{', o) && last_at(text, '}', e) && d.source() == #[trigger] braced_slice(text, o, e)
                    && is_json(braced_slice(text, o, e))
        },
        Err(ExtractionError::NoOpeningBrace) => !is_json(text) && !text.contains('{'),
        Err(ExtractionError::NoClosingBrace) => !is_json(text) && text.contains('{') && !text.contains('}'),
        Err(ExtractionError::UnparsableSlice(slice)) => !is_json(text) && exists|o: int, e: int|
            first_at(text, '{', o) && last_at(text, '}', e) && slice@ == braced_slice(text, o, e)
                && !is_json(#[trigger] braced_slice(text, o, e)),
        Err(_) => false,
    }
}

fn find_first(chars: &Vec<char>, c: char) -> (r: Option<usize>)
    ensures
        match r {
            Some(i) => first_at(chars@, c, i as int),
            None => !chars@.contains(c),
        },
{
    let mut i: usize = 0;
    while i < chars.len()
        invariant
            i <= chars.len(),
            forall|j: int| 0 <= j < i ==> chars@[j] != c,
        decreases chars.len() - i,
    {
        if chars[i] == c {
            return Some(i);
        }
        i = i + 1;
    }
    None
}

fn find_last(chars: &Vec<char>, c: char) -> (r: Option<usize>)
    ensures
        match r {
            Some(i) => last_at(chars@, c, i as int),
            None => !chars@.contains(c),
        },
{
    let mut i: usize = chars.len();
    while i > 0
        invariant
            i <= chars.len(),
            forall|j: int| i <= j < chars.len() ==> chars@[j] != c,
        decreases i,
    {
        if chars[i - 1] == c {
            return Some(i - 1);
        }
        i = i - 1;
    }
    None
}

proof fn lemma_first_unique(s: Seq<char>, c: char, a: int, b: int)
    requires
        first_at(s, c, a),
        first_at(s, c, b),
    ensures
        a == b,
{
}

proof fn lemma_last_unique(s: Seq<char>, c: char, a: int, b: int)
    requires
        last_at(s, c, a),
        last_at(s, c, b),
    ensures
        a == b,
{
}

impl ExtractionWorker {
    /// Reads the JSON object in the extraction model's reply, which may
    /// surround it with prose: see `extraction_outcome_ok`. Where the reply is
    /// not JSON and its last `}` stands before its first `{`, there is no
    /// slice to read, and the reply is not accepted here.
    pub fn extract_json_object(text: &str) -> (r: Result<JsonDoc, ExtractionError>)
        requires
            is_json(text@) || braces_in_order(text@),
        ensures
            extraction_outcome_ok(text@, r),
    {
        if let Some(d) = read_json(text) {
            return Ok(d);
        }
        let chars = chars_of(text);
        let start = match find_first(&chars, '{') {
            Some(i) => i,
            None => return Err(ExtractionError::NoOpeningBrace),
        };
        let end = match find_last(&chars, '}') {
            Some(i) => i,
            None => return Err(ExtractionError::NoClosingBrace),
        };
        assert(start <= end);
        let slice = text.substring_char(start, end + 1);
        assert(slice@ == braced_slice(text@, start as int, end as int));
        match read_json(slice) {
            Some(d) => Ok(d),
            None => Err(ExtractionError::UnparsableSlice(slice.to_owned())),
        }
    }

    /// The same reading, for any reply: `None` where the reply is not JSON and
    /// its last `}` stands before its first `{`.
    pub fn try_extract_json_object(text: &str) -> (r: Option<Result<JsonDoc, ExtractionError>>)
        ensures
            r is None <==> !is_json(text@) && !braces_in_order(text@),
            r matches Some(res) ==> extraction_outcome_ok(text@, res),
    {
        if read_json(text).is_some() {
            return Some(Self::extract_json_object(text));
        }
        let chars = chars_of(text);
        match (find_first(&chars, '{'), find_last(&chars, '}')) {
            (Some(o), Some(e)) => {
                if o > e {
                    return None;
                }
                proof {
                    assert forall|a: int, b: int| first_at(text@, '{', a) && last_at(text@, '}', b) implies a <= b by {
                        lemma_first_unique(text@, '{', a, o as int);
                        lemma_last_unique(text@, '}', b, e as int);
                    }
                }
            },
            _ => {},
        }
        Some(Self::extract_json_object(text))
    }

    /// Checks the extracted JSON against the extraction schema, given as text:
    /// a schema text that is not JSON is unreadable, one that `jsonschema`
    /// refuses is uncompilable with the refusal's message, and otherwise the
    /// instance is valid exactly where the validator reports no error.
    pub fn validate_against_schema(schema_text: &str, instance: &JsonDoc) -> (r: Result<(), ExtractionError>)
        ensures
            r is Ok <==> is_json(schema_text@) && schema_refusal(schema_text@) is None
                && schema_violations(schema_text@, instance.source()).len() == 0,
            r matches Err(ExtractionError::SchemaUnreadable) <==> !is_json(schema_text@),
            r matches Err(ExtractionError::SchemaUncompilable(m)) ==> is_json(schema_text@)
                && schema_refusal(schema_text@) == Some(m@),
            r matches Err(ExtractionError::SchemaViolations(m)) ==> is_json(schema_text@)
                && schema_refusal(schema_text@) is None
                && m@ == join(schema_violations(schema_text@, instance.source()), "; "@),
            is_json(schema_text@) && schema_refusal(schema_text@) is Some ==> r matches Err(ExtractionError::SchemaUncompilable(_)),
            r matches Err(e) ==> (e matches ExtractionError::SchemaUnreadable || e matches ExtractionError::SchemaUncompilable(_)
                || e matches ExtractionError::SchemaViolations(_)),
    {
        let schema_doc = match read_json(schema_text) {
            Some(d) => d,
            None => return Err(ExtractionError::SchemaUnreadable),
        };
        let schema = match compile(&schema_doc) {
            Ok(s) => s,
            Err(e) => return Err(ExtractionError::SchemaUncompilable(e)),
        };
        let errors = schema_errors(&schema, instance);
        Self::validation_result(&errors)
    }

    /// What the validator's messages mean for the reply: valid where there
    /// are none, else a violation reporting them all, joined by `; `.
    pub fn validation_result(errors: &Vec<String>) -> (r: Result<(), ExtractionError>)
        ensures
            r is Ok <==> errors@.len() == 0,
            r matches Err(e) ==> (e matches ExtractionError::SchemaViolations(m) && m@ == join(views(errors@), "; "@)),
    {
        if errors.len() > 0 {
            return Err(ExtractionError::SchemaViolations(join_strings(errors, "; ")));
        }
        Ok(())
    }

    /// The user prompt of the extraction call, around the messages rendered
    /// as pretty JSON.
    pub fn build_extractor_user_prompt(messages_json: &str) -> (p: String)
        ensures
            p@ == "Analyze the recent conversation and return only JSON.\n\nRecent messages:\n"@ + messages_json@,
    {
        let mut p = "Analyze the recent conversation and return only JSON.\n\nRecent messages:\n".to_owned();
        append(&mut p, messages_json);
        p
    }

    /// The system prompt of the extraction call: the template with its three
    /// placeholders replaced, in order, by the rendered entities, memories and
    /// messages.
    pub fn build_extractor_system_prompt(
        template: &str,
        active_entities_json: &str,
        recent_memories_json: &str,
        messages_json: &str,
    ) -> (p: String)
        ensures
            p@ == replace_all(
                replace_all(
                    replace_all(template@, "{{ACTIVE_ENTITIES_JSON}}"@, active_entities_json@),
                    "{{RECENT_MEMORIES_JSON}}"@,
                    recent_memories_json@,
                ),
                "{{MESSAGES_JSON}}"@,
                messages_json@,
            ),
    {
        proof {
            reveal_strlit("{{ACTIVE_ENTITIES_JSON}}");
            reveal_strlit("{{RECENT_MEMORIES_JSON}}");
            reveal_strlit("{{MESSAGES_JSON}}");
        }
        let a = replace_all_str(template, "{{ACTIVE_ENTITIES_JSON}}", active_entities_json);
        let b = replace_all_str(a.as_str(), "{{RECENT_MEMORIES_JSON}}", recent_memories_json);
        replace_all_str(b.as_str(), "{{MESSAGES_JSON}}", messages_json)
    }

    /// The salient tokens of `s`: see `salient_tokens_of`.
    pub fn salient_tokens(s: &str) -> (tokens: Vec<String>)
        ensures
            views(tokens@) == salient_tokens_of(s@),
    {
        let lower = to_lowercase(s);
        let all = split_pieces(lower.as_str(), Separator::NonAlphanumeric);
        let mut out: Vec<String> = Vec::new();
        let mut i: usize = 0;
        while i < all.len()
            invariant
                i <= all.len(),
                views(all@) == pieces(lowercase(s@), Separator::NonAlphanumeric),
                views(out@) == views(all@).take(i as int).filter(salient()),
            decreases all.len() - i,
        {
            let ghost w = all@[i as int]@;
            proof {
                assert(views(all@).take(i + 1) =~= views(all@).take(i as int).push(w));
                views(all@).take(i as int).lemma_filter_push(w, salient());
            }
            let piece = all[i].as_str();
            if piece.as_bytes().len() > 3 && !is_stop_word(piece) {
                out.push(all[i].clone());
                assert(views(out@) =~= views(all@).take(i as int).filter(salient()).push(w));
            }
            i = i + 1;
        }
        assert(views(all@).take(all.len() as int) =~= views(all@));
        out
    }

    /// Whether the salient tokens of two texts overlap by at least 72%.
    pub fn overlap_reaches_threshold(a: &str, b: &str) -> (r: bool)
        ensures
            r == overlap_reaches(a@, b@),
    {
        let ta = Self::salient_tokens(a);
        let tb = Self::salient_tokens(b);
        let da = distinct(&ta);
        let db = distinct(&tb);
        let ghost x = token_set(a@);
        let ghost y = token_set(b@);
        proof {
            views(da@).unique_seq_to_set();
            views(db@).unique_seq_to_set();
        }
        if da.len() == 0 || db.len() == 0 {
            return false;
        }
        let mut inter: usize = 0;
        let mut i: usize = 0;
        while i < da.len()
            invariant
                i <= da.len(),
                inter <= i,
                views(db@).to_set() == y,
                inter == views(da@).take(i as int).filter(|t: Seq<char>| y.contains(t)).len(),
            decreases da.len() - i,
        {
            let t = da[i].as_str();
            let mut found = false;
            let mut k: usize = 0;
            while k < db.len()
                invariant
                    k <= db.len(),
                    found == exists|j: int| 0 <= j < k && views(db@)[j] == t@,
                decreases db.len() - k,
            {
                if !found && str_eq(db[k].as_str(), t) {
                    assert(views(db@)[k as int] == t@);
                    found = true;
                }
                k = k + 1;
            }
            proof {
                assert(views(da@).take(i + 1) =~= views(da@).take(i as int).push(t@));
                views(da@).take(i as int).lemma_filter_push(t@, |t: Seq<char>| y.contains(t));
                if found {
                    let j = choose|j: int| 0 <= j < db.len() && views(db@)[j] == t@;
                    assert(views(db@).contains(t@));
                }
                if y.contains(t@) {
                    assert(views(db@).contains(t@));
                }
            }
            if found {
                inter = inter + 1;
            }
            i = i + 1;
        }
        proof {
            assert(views(da@).take(da.len() as int) =~= views(da@));
            lemma_filter_in_set_len(views(da@), y);
            vstd::set_lib::lemma_set_intersect_union_lens(x, y);
        }
        let union: u128 = (da.len() - inter) as u128 + db.len() as u128;
        (inter as u128) * 25 >= union * 18
    }

    /// Whether some user message states the candidate: see `explicitly_stated`.
    pub fn explicit_user_statement(messages: &Vec<Message>, raw: &MemoryCandidateRaw) -> (r: bool)
        ensures
            r == explicitly_stated(messages@, *raw),
    {
        let statement_lc = to_lowercase(raw.statement.as_str());
        let summary_lc = to_lowercase(raw.summary.as_str());
        let statement_chars = chars_of(statement_lc.as_str());
        let summary_chars = chars_of(summary_lc.as_str());
        let mut i: usize = 0;
        while i < messages.len()
            invariant
                i <= messages.len(),
                statement_chars@ == lowercase(raw.statement@),
                statement_lc@ == lowercase(raw.statement@),
                summary_chars@ == lowercase(raw.summary@),
                forall|j: int| 0 <= j < i && messages@[j].role == MessageRole::User ==> !#[trigger] stated_in(messages@[j].content@, *raw),
            decreases messages.len() - i,
        {
            let m = &messages[i];
            if m.role == MessageRole::User {
                let lc = to_lowercase(m.content.as_str());
                let lc_chars = chars_of(lc.as_str());
                if contains_chars(&lc_chars, &statement_chars)
                    || (summary_chars.len() > 0 && contains_chars(&lc_chars, &summary_chars))
                    || Self::overlap_reaches_threshold(lc.as_str(), statement_lc.as_str()) {
                    assert(stated_in(messages@[i as int].content@, *raw));
                    return true;
                }
            }
            i = i + 1;
        }
        false
    }

    /// How many messages hold at least two of the statement's salient tokens:
    /// see `repeated_signals`.
    pub fn repeated_signal_count(messages: &Vec<Message>, raw: &MemoryCandidateRaw) -> (n: u32)
        requires
            messages.len() <= u32::MAX,
        ensures
            n == repeated_signals(messages@, *raw),
    {
        let tokens = Self::salient_tokens(raw.statement.as_str());
        let ghost ts = views(tokens@);
        if tokens.len() == 0 {
            return 0;
        }
        let ghost counted = |m: Message| hits(ts, lowercase(m.content@)) >= 2;
        let mut count: u32 = 0;
        let mut i: usize = 0;
        while i < messages.len()
            invariant
                i <= messages.len(),
                messages.len() <= u32::MAX,
                ts == views(tokens@),
                ts == salient_tokens_of(raw.statement@),
                counted == (|m: Message| hits(ts, lowercase(m.content@)) >= 2),
                count == messages@.take(i as int).filter(counted).len(),
                count <= i,
            decreases messages.len() - i,
        {
            let lc = to_lowercase(messages[i].content.as_str());
            let lc_chars = chars_of(lc.as_str());
            let mut h: usize = 0;
            let mut k: usize = 0;
            while k < tokens.len()
                invariant
                    k <= tokens.len(),
                    ts == views(tokens@),
                    h == ts.take(k as int).filter(|t: Seq<char>| contains(lc_chars@, t)).len(),
                    h <= k,
                decreases tokens.len() - k,
            {
                let tc = chars_of(tokens[k].as_str());
                proof {
                    assert(ts.take(k + 1) =~= ts.take(k as int).push(tc@));
                    ts.take(k as int).lemma_filter_push(tc@, |t: Seq<char>| contains(lc_chars@, t));
                }
                if contains_chars(&lc_chars, &tc) {
                    h = h + 1;
                }
                k = k + 1;
            }
            proof {
                assert(ts.take(tokens.len() as int) =~= ts);
                assert(messages@.take(i + 1) =~= messages@.take(i as int).push(messages@[i as int]));
                messages@.take(i as int).lemma_filter_push(messages@[i as int], counted);
            }
            if h >= 2 {
                count = count + 1;
            }
            i = i + 1;
        }
        assert(messages@.take(messages.len() as int) =~= messages@);
        count
    }

    /// Whether the text names something the way a proper name is written. The
    /// pattern is a fixed, valid one; were it refused, no text would count.
    pub fn contains_named_entity_shape(s: &str) -> (r: bool)
        ensures
            r == has_named_entity_shape(s@),
    {
        let pattern = "\\b[A-Z][a-zA-Z0-9]+(?:\\s+[A-Z][a-zA-Z0-9]+)+\\b";
        match regex_is_match(pattern, s) {
            Some(b) => b,
            None => false,
        }
    }

    /// Whether the candidate is actionable: see `actionable`.
    pub fn is_actionable(raw: &MemoryCandidateRaw) -> (r: bool)
        ensures
            r == actionable(*raw),
    {
        let kinds = vec!["preference", "ongoing_project", "workflow_rule", "constraint"];
        assert(kinds@.map_values(|k: &str| k@) =~= actionable_memory_types());
        let mut i: usize = 0;
        while i < kinds.len()
            invariant
                i <= kinds.len(),
                kinds@.map_values(|k: &str| k@) == actionable_memory_types(),
                forall|j: int| 0 <= j < i ==> actionable_memory_types()[j] != raw.memory_type@,
            decreases kinds.len() - i,
        {
            if str_eq(kinds[i], raw.memory_type.as_str()) {
                assert(actionable_memory_types()[i as int] == raw.memory_type@);
                return true;
            }
            i = i + 1;
        }
        let mut lc = to_lowercase(raw.statement.as_str());
        append(&mut lc, " ");
        let summary_lc = to_lowercase(raw.summary.as_str());
        append(&mut lc, summary_lc.as_str());
        let lc_chars = chars_of(lc.as_str());
        let needles = vec!["prefer", "wants", "needs", "should", "must", "working on", "project", "goal", "constraint"];
        assert(needles@.map_values(|k: &str| k@) =~= action_needles());
        let mut k: usize = 0;
        while k < needles.len()
            invariant
                k <= needles.len(),
                needles@.map_values(|k: &str| k@) == action_needles(),
                lc_chars@ == lowercase(raw.statement@) + " "@ + lowercase(raw.summary@),
                forall|j: int| 0 <= j < k ==> !contains(lc_chars@, #[trigger] action_needles()[j]),
            decreases needles.len() - k,
        {
            let nc = chars_of(needles[k]);
            if contains_chars(&lc_chars, &nc) {
                assert(action_needles()[k as int] == nc@);
                return true;
            }
            k = k + 1;
        }
        false
    }

    /// Whether the candidate is marked sensitive: see `sensitive`.
    pub fn is_sensitive(raw: &MemoryCandidateRaw) -> (r: bool)
        ensures
            r == sensitive(*raw),
    {
        str_eq(raw.sensitivity.as_str(), "private") || str_eq(raw.sensitivity.as_str(), "highly_private")
    }

    /// The signals of one candidate in the conversation: see `signals_of`.
    pub fn candidate_signals(messages: &Vec<Message>, raw: &MemoryCandidateRaw) -> (s: CandidateSignals)
        requires
            messages.len() <= u32::MAX,
        ensures
            s == signals_of(messages@, *raw),
    {
        let explicit_user_statement = Self::explicit_user_statement(messages, raw);
        let repeated_signal_count = Self::repeated_signal_count(messages, raw);
        let has_named_entities = raw.related_entity_names.len() > 0
            || Self::contains_named_entity_shape(raw.statement.as_str());
        let is_actionable = Self::is_actionable(raw);
        let is_sensitive = Self::is_sensitive(raw);
        CandidateSignals {
            explicit_user_statement,
            repeated_signal_count,
            has_named_entities,
            is_actionable,
            is_sensitive,
            has_source_refs: raw.source_refs.len() > 0,
        }
    }

    /// The signals of each candidate, in order.
    pub fn score_candidates(messages: &Vec<Message>, candidates: &Vec<MemoryCandidateRaw>) -> (out: Vec<CandidateSignals>)
        requires
            messages.len() <= u32::MAX,
        ensures
            out@.len() == candidates@.len(),
            forall|i: int| 0 <= i < candidates@.len() ==> #[trigger] out@[i] == signals_of(messages@, candidates@[i]),
    {
        let mut out: Vec<CandidateSignals> = Vec::new();
        let mut i: usize = 0;
        while i < candidates.len()
            invariant
                i <= candidates.len(),
                messages.len() <= u32::MAX,
                out@.len() == i,
                forall|j: int| 0 <= j < i ==> #[trigger] out@[j] == signals_of(messages@, candidates@[j]),
            decreases candidates.len() - i,
        {
            out.push(Self::candidate_signals(messages, &candidates[i]));
            i = i + 1;
        }
        out
    }

    /// Whether, and why, a candidate is rejected: see `rejection`.
    pub fn auto_reject_reason(signals: &CandidateSignals, below_threshold: bool) -> (r: Option<RejectReason>)
        ensures
            r == rejection(*signals, below_threshold),
    {
        if !signals.has_source_refs {
            Some(RejectReason::NoSourceRefs)
        } else if below_threshold {
            Some(RejectReason::ConfidenceBelowThreshold)
        } else {
            None
        }
    }
}


/// A user message states a candidate when, lower-cased, it holds the
/// candidate's lower-cased statement, or its non-empty lower-cased summary,
/// or its salient tokens and the statement's overlap by at least 72%
/// (shared tokens at least 18/25 of all their tokens, both sides non-empty).
pub proof fn lemma_user_message_states_candidate(messages: Seq<Message>, c: MemoryCandidateRaw, i: int)
    requires
        0 <= i < messages.len(),
        messages[i].role == MessageRole::User,
        ({
            let lc = lowercase(messages[i].content@);
            let st = lowercase(c.statement@);
            let su = lowercase(c.summary@);
            let x = salient_tokens_of(lc).to_set();
            let y = salient_tokens_of(st).to_set();
            ||| contains(lc, st)
            ||| su.len() > 0 && contains(lc, su)
            ||| x.len() > 0 && y.len() > 0 && 25 * x.intersect(y).len() >= 18 * x.union(y).len()
        }),
    ensures
        explicitly_stated(messages, c),
{
    assert(stated_in(messages[i].content@, c));
}

/// Only user messages state a candidate: where the candidate is explicitly
/// stated, some user message holds it, its summary, or enough of its tokens.
pub proof fn lemma_only_user_messages_state(messages: Seq<Message>, c: MemoryCandidateRaw)
    requires
        explicitly_stated(messages, c),
    ensures
        exists|i: int| 0 <= i < messages.len() && #[trigger] messages[i].role == MessageRole::User && ({
            let lc = lowercase(messages[i].content@);
            let st = lowercase(c.statement@);
            let su = lowercase(c.summary@);
            let x = salient_tokens_of(lc).to_set();
            let y = salient_tokens_of(st).to_set();
            ||| contains(lc, st)
            ||| su.len() > 0 && contains(lc, su)
            ||| x.len() > 0 && y.len() > 0 && 25 * x.intersect(y).len() >= 18 * x.union(y).len()
        }),
{
    let i = choose|i: int| 0 <= i < messages.len() && messages[i].role == MessageRole::User
        && #[trigger] stated_in(messages[i].content@, c);
    assert(messages[i].role == MessageRole::User);
}

/// The rejection rules: a candidate without source references is rejected
/// for that, whatever else holds; one with source references is rejected for
/// low confidence exactly when its rescored confidence is under the
/// threshold, whatever its other signals; otherwise it is kept for review.
pub proof fn lemma_rejection_rules(signals: CandidateSignals, below_threshold: bool)
    ensures
        !signals.has_source_refs ==> rejection(signals, below_threshold) == Some(RejectReason::NoSourceRefs),
        signals.has_source_refs && below_threshold ==> rejection(signals, below_threshold) == Some(
            RejectReason::ConfidenceBelowThreshold,
        ),
        signals.has_source_refs && !below_threshold ==> rejection(signals, below_threshold) is None,
{
}

} // verus!
