use vstd::prelude::*;

use crate::models::routing::{ModelOption, PrivacyLevel, RouteDecision, RouteReason};
use crate::text::{append, concat3, chars_of, contains, contains_chars, decimal, push_decimal, to_lowercase, lowercase};

verus! {

/// Queries longer than this many characters go to the cloud reasoning model:
/// they likely need more than a local model handles well.
pub const LONG_QUERY_THRESHOLD: usize = 600;

/// Keywords that mark a query as holding sensitive personal data, which must
/// stay on the device.
pub open spec fn privacy_keywords() -> Seq<Seq<char>> {
    seq![
        "password"@, "secret"@, "private"@, "ssn"@, "credit card"@, "bank"@,
        "medical"@, "health"@, "diagnosis"@, "prescription"@, "salary"@, "income"@,
        "address"@, "passport"@, "license"@,
    ]
}

/// Keywords that suggest multi-step reasoning.
pub open spec fn reasoning_keywords() -> Seq<Seq<char>> {
    seq![
        "explain why"@, "compare"@, "analyse"@, "analyze"@, "pros and cons"@,
        "step by step"@, "reason"@, "evaluate"@, "argue"@, "synthesize"@,
    ]
}

/// The first of `keywords`, in their order, that occurs in `text`.
pub open spec fn first_keyword(keywords: Seq<Seq<char>>, text: Seq<char>) -> Option<Seq<char>>
    decreases keywords.len(),
{
    if keywords.len() == 0 {
        None
    } else if contains(text, keywords[0]) {
        Some(keywords[0])
    } else {
        first_keyword(keywords.drop_first(), text)
    }
}

/// Where a query goes: the model, the reason, the privacy level and the
/// explanation shown to the user. Privacy keywords (in the lower-cased query)
/// are checked first, then the query's length in characters, then reasoning
/// keywords; anything else is a simple query.
pub open spec fn route_of(query: Seq<char>) -> (ModelOption, RouteReason, PrivacyLevel, Seq<char>) {
    let lower = lowercase(query);
    if let Some(k) = first_keyword(privacy_keywords(), lower) {
        (
            ModelOption::LocalGeneral,
            RouteReason::PrivacyKeywordDetected,
            PrivacyLevel::Sensitive,
            "Privacy keyword '"@ + k + "' detected — routing to local model to keep data on-device."@,
        )
    } else if query.len() > LONG_QUERY_THRESHOLD {
        (
            ModelOption::CloudReasoning,
            RouteReason::QueryTooLong,
            PrivacyLevel::Public,
            "Query length "@ + decimal(query.len()) + " chars exceeds threshold "@ + decimal(
                LONG_QUERY_THRESHOLD as nat,
            ) + " — routing to cloud_reasoning."@,
        )
    } else if let Some(k) = first_keyword(reasoning_keywords(), lower) {
        (
            ModelOption::CloudReasoning,
            RouteReason::ComplexReasoning,
            PrivacyLevel::Public,
            "Reasoning keyword '"@ + k + "' detected — routing to cloud_reasoning."@,
        )
    } else {
        (
            ModelOption::CloudFast,
            RouteReason::SimpleQuery,
            PrivacyLevel::Public,
            "Short, non-sensitive query — routing to cloud_fast for low latency."@,
        )
    }
}

/// If `first_keyword` finds nothing, no keyword occurs in the text; if it
/// finds one, that keyword is among them and occurs in the text.
pub proof fn lemma_first_keyword(keywords: Seq<Seq<char>>, text: Seq<char>)
    ensures
        first_keyword(keywords, text) is None <==> forall|i: int| 0 <= i < keywords.len() ==> !contains(text, #[trigger] keywords[i]),
        first_keyword(keywords, text) matches Some(k) ==> keywords.contains(k) && contains(text, k),
    decreases keywords.len(),
{
    if keywords.len() > 0 {
        let rest = keywords.drop_first();
        lemma_first_keyword(rest, text);
        assert forall|i: int| 0 < i < keywords.len() implies #[trigger] keywords[i] == rest[i - 1] by {}
        if first_keyword(keywords, text) is None {
            assert forall|i: int| 0 <= i < keywords.len() implies !contains(text, #[trigger] keywords[i]) by {
                if i > 0 {
                    assert(keywords[i] == rest[i - 1]);
                }
            }
        }
        if let Some(k) = first_keyword(rest, text) {
            let j = choose|j: int| 0 <= j < rest.len() && rest[j] == k;
            assert(keywords[j + 1] == k);
        }
        if forall|i: int| 0 <= i < keywords.len() ==> !contains(text, #[trigger] keywords[i]) {
            assert forall|i: int| 0 <= i < rest.len() implies !contains(text, #[trigger] rest[i]) by {
                assert(rest[i] == keywords[i + 1]);
            }
        }
    }
}

/// A privacy keyword always wins: wherever one occurs in the lower-cased
/// query, the query stays on the local model and is marked sensitive,
/// whatever its length or other keywords.
pub proof fn lemma_privacy_keyword_wins(query: Seq<char>, i: int)
    requires
        0 <= i < privacy_keywords().len(),
        contains(lowercase(query), privacy_keywords()[i]),
    ensures
        route_of(query).0 == ModelOption::LocalGeneral,
        route_of(query).1 == RouteReason::PrivacyKeywordDetected,
        route_of(query).2 == PrivacyLevel::Sensitive,
{
    lemma_first_keyword(privacy_keywords(), lowercase(query));
}

/// Cloud by exception: a query goes to a cloud model only when no privacy
/// keyword occurs in it, and then it is marked public; it is marked sensitive
/// exactly when it stays local.
pub proof fn lemma_cloud_only_without_privacy_keywords(query: Seq<char>)
    ensures
        route_of(query).0 != ModelOption::LocalGeneral ==> forall|i: int|
            0 <= i < privacy_keywords().len() ==> !contains(lowercase(query), #[trigger] privacy_keywords()[i]),
        route_of(query).0 != ModelOption::LocalGeneral ==> route_of(query).2 == PrivacyLevel::Public,
        (route_of(query).2 == PrivacyLevel::Sensitive) <==> (route_of(query).0 == ModelOption::LocalGeneral),
{
    lemma_first_keyword(privacy_keywords(), lowercase(query));
}

/// A query with no privacy keyword that is longer than the threshold goes to
/// the cloud reasoning model because of its length.
pub proof fn lemma_long_query_goes_to_reasoning(query: Seq<char>)
    requires
        forall|i: int| 0 <= i < privacy_keywords().len() ==> !contains(lowercase(query), #[trigger] privacy_keywords()[i]),
        query.len() > LONG_QUERY_THRESHOLD,
    ensures
        route_of(query).0 == ModelOption::CloudReasoning,
        route_of(query).1 == RouteReason::QueryTooLong,
        route_of(query).2 == PrivacyLevel::Public,
{
    lemma_first_keyword(privacy_keywords(), lowercase(query));
}

/// A short query with neither privacy nor reasoning keywords goes to the fast
/// cloud model as a simple query.
pub proof fn lemma_plain_short_query_goes_fast(query: Seq<char>)
    requires
        forall|i: int| 0 <= i < privacy_keywords().len() ==> !contains(lowercase(query), #[trigger] privacy_keywords()[i]),
        forall|i: int| 0 <= i < reasoning_keywords().len() ==> !contains(lowercase(query), #[trigger] reasoning_keywords()[i]),
        query.len() <= LONG_QUERY_THRESHOLD,
    ensures
        route_of(query).0 == ModelOption::CloudFast,
        route_of(query).1 == RouteReason::SimpleQuery,
        route_of(query).2 == PrivacyLevel::Public,
{
    lemma_first_keyword(privacy_keywords(), lowercase(query));
    lemma_first_keyword(reasoning_keywords(), lowercase(query));
}

/// A privacy keyword keeps the query local: wherever one of "password",
/// "secret", "private", "ssn", "credit card", "bank", "medical", "health",
/// "diagnosis", "prescription", "salary", "income", "address", "passport" or
/// "license" occurs in the lower-cased query, it goes to the local model and
/// is marked sensitive, whatever else it holds.
pub proof fn lemma_listed_privacy_keyword_stays_local(query: Seq<char>, k: Seq<char>)
    requires
        seq!["password"@, "secret"@, "private"@, "ssn"@, "credit card"@, "bank"@, "medical"@, "health"@, "diagnosis"@, "prescription"@, "salary"@, "income"@, "address"@, "passport"@, "license"@].contains(k),
        contains(lowercase(query), k),
    ensures
        route_of(query).0 == ModelOption::LocalGeneral,
        route_of(query).1 == RouteReason::PrivacyKeywordDetected,
        route_of(query).2 == PrivacyLevel::Sensitive,
{
    let listed = seq!["password"@, "secret"@, "private"@, "ssn"@, "credit card"@, "bank"@, "medical"@, "health"@, "diagnosis"@, "prescription"@, "salary"@, "income"@, "address"@, "passport"@, "license"@];
    assert(listed =~= privacy_keywords());
    let j = choose|j: int| 0 <= j < listed.len() && listed[j] == k;
    lemma_privacy_keyword_wins(query, j);
}

/// A reasoning keyword sends a query to the reasoning model: a query of at
/// most 600 characters with no privacy keyword, whose lower-cased text holds
/// one of "explain why", "compare", "analyse", "analyze", "pros and cons",
/// "step by step", "reason", "evaluate", "argue" or "synthesize", goes to the
/// cloud reasoning model as complex reasoning, marked public.
pub proof fn lemma_listed_reasoning_keyword_goes_to_reasoning(query: Seq<char>, k: Seq<char>)
    requires
        forall|i: int| 0 <= i < privacy_keywords().len() ==> !contains(lowercase(query), #[trigger] privacy_keywords()[i]),
        query.len() <= 600,
        seq!["explain why"@, "compare"@, "analyse"@, "analyze"@, "pros and cons"@, "step by step"@, "reason"@, "evaluate"@, "argue"@, "synthesize"@].contains(k),
        contains(lowercase(query), k),
    ensures
        route_of(query).0 == ModelOption::CloudReasoning,
        route_of(query).1 == RouteReason::ComplexReasoning,
        route_of(query).2 == PrivacyLevel::Public,
{
    let listed = seq!["explain why"@, "compare"@, "analyse"@, "analyze"@, "pros and cons"@, "step by step"@, "reason"@, "evaluate"@, "argue"@, "synthesize"@];
    assert(listed =~= reasoning_keywords());
    let j = choose|j: int| 0 <= j < listed.len() && listed[j] == k;
    lemma_first_keyword(privacy_keywords(), lowercase(query));
    lemma_first_keyword(reasoning_keywords(), lowercase(query));
    assert(reasoning_keywords()[j] == k);
}

/// Decides which model answers a query.
pub struct RoutingService;

fn privacy_keyword_list() -> (v: Vec<&'static str>)
    ensures
        v@.map_values(|k: &str| k@) == privacy_keywords(),
{
    let v = vec![
        "password", "secret", "private", "ssn", "credit card", "bank",
        "medical", "health", "diagnosis", "prescription", "salary", "income",
        "address", "passport", "license",
    ];
    assert(v@.map_values(|k: &str| k@) =~= privacy_keywords());
    v
}

fn reasoning_keyword_list() -> (v: Vec<&'static str>)
    ensures
        v@.map_values(|k: &str| k@) == reasoning_keywords(),
{
    let v = vec![
        "explain why", "compare", "analyse", "analyze", "pros and cons",
        "step by step", "reason", "evaluate", "argue", "synthesize",
    ];
    assert(v@.map_values(|k: &str| k@) =~= reasoning_keywords());
    v
}

/// The first of `keywords` that occurs in `text`.
fn find_first_keyword(keywords: &Vec<&'static str>, text: &Vec<char>) -> (r: Option<&'static str>)
    ensures
        match r {
            Some(k) => first_keyword(keywords@.map_values(|k: &str| k@), text@) == Some(k@),
            None => first_keyword(keywords@.map_values(|k: &str| k@), text@) is None,
        },
{
    let ghost all = keywords@.map_values(|k: &str| k@);
    let mut i: usize = 0;
    assert(all.skip(0) =~= all);
    while i < keywords.len()
        invariant
            i <= keywords.len(),
            all == keywords@.map_values(|k: &str| k@),
            first_keyword(all, text@) == first_keyword(all.skip(i as int), text@),
        decreases keywords.len() - i,
    {
        let k = keywords[i];
        let kc = chars_of(k);
        assert(all.skip(i as int)[0] == k@);
        assert(all.skip(i as int).drop_first() =~= all.skip(i + 1));
        if contains_chars(text, &kc) {
            return Some(k);
        }
        i = i + 1;
    }
    None
}

impl RoutingService {
    pub fn new() -> (s: RoutingService) {
        RoutingService
    }

    /// Routes a query: see `route_of`.
    pub fn route(&self, query: &str) -> (d: RouteDecision)
        ensures
            (d.model_chosen, d.reason, d.privacy_level, d.explanation@) == route_of(query@),
            d.conversation_id is None,
            d.message_id is None,
    {
        let lower = to_lowercase(query);
        let lower_chars = chars_of(lower.as_str());

        // 1. Privacy check — always wins; keep data local.
        if let Some(keyword) = find_first_keyword(&privacy_keyword_list(), &lower_chars) {
            let explanation = concat3(
                "Privacy keyword '",
                keyword,
                "' detected — routing to local model to keep data on-device.",
            );
            return RouteDecision::new(
                ModelOption::LocalGeneral,
                RouteReason::PrivacyKeywordDetected,
                PrivacyLevel::Sensitive,
                explanation,
            );
        }

        // 2. Long query — send to cloud reasoning for better quality.
        let len = chars_of(query).len();
        if len > LONG_QUERY_THRESHOLD {
            let mut explanation = "Query length ".to_owned();
            push_decimal(&mut explanation, len as u64);
            append(&mut explanation, " chars exceeds threshold ");
            push_decimal(&mut explanation, LONG_QUERY_THRESHOLD as u64);
            append(&mut explanation, " — routing to cloud_reasoning.");
            return RouteDecision::new(
                ModelOption::CloudReasoning,
                RouteReason::QueryTooLong,
                PrivacyLevel::Public,
                explanation,
            );
        }

        // 3. Reasoning keywords — cloud reasoning model.
        if let Some(keyword) = find_first_keyword(&reasoning_keyword_list(), &lower_chars) {
            let explanation = concat3("Reasoning keyword '", keyword, "' detected — routing to cloud_reasoning.");
            return RouteDecision::new(
                ModelOption::CloudReasoning,
                RouteReason::ComplexReasoning,
                PrivacyLevel::Public,
                explanation,
            );
        }

        // 4. Default — short, non-sensitive query goes to cloud_fast.
        let explanation = "Short, non-sensitive query — routing to cloud_fast for low latency.".to_owned();
        RouteDecision::new(ModelOption::CloudFast, RouteReason::SimpleQuery, PrivacyLevel::Public, explanation)
    }
}

} // verus!
