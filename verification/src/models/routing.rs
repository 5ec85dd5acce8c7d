use vstd::prelude::*;

use crate::models::UnknownValue;
use crate::text::str_eq;
use crate::stamp::{new_id, reads_as_utc_timestamp, utc_now, uuid_v4_text};

verus! {

/// How far a query may travel.
#[derive(Debug, Clone, Copy, PartialEq, Eq, Structural)]
pub enum PrivacyLevel {
    /// Safe to send to any model including cloud
    Public,
    /// Send to local model only
    Sensitive,
    /// Never leave device; block cloud routing
    Restricted,
}

impl PrivacyLevel {
    /// The name under which a privacy level is stored and shown.
    pub open spec fn name(self) -> Seq<char> {
        match self {
            PrivacyLevel::Public => "public"@,
            PrivacyLevel::Sensitive => "sensitive"@,
            PrivacyLevel::Restricted => "restricted"@,
        }
    }

    /// The privacy level with the given name, if there is one.
    pub open spec fn from_name(s: Seq<char>) -> Option<PrivacyLevel> {
        if s == "public"@ {
            Some(PrivacyLevel::Public)
        } else if s == "sensitive"@ {
            Some(PrivacyLevel::Sensitive)
        } else if s == "restricted"@ {
            Some(PrivacyLevel::Restricted)
        } else {
            None
        }
    }

    /// The name of this privacy level.
    pub fn as_str(&self) -> (s: &'static str)
        ensures
            s@ == self.name(),
    {
        match self {
            PrivacyLevel::Public => "public",
            PrivacyLevel::Sensitive => "sensitive",
            PrivacyLevel::Restricted => "restricted",
        }
    }

    /// The privacy level named `s`; any other text is refused.
    pub fn parse(s: &str) -> (r: Result<PrivacyLevel, UnknownValue>)
        ensures
            match r {
                Ok(v) => PrivacyLevel::from_name(s@) == Some(v),
                Err(e) => PrivacyLevel::from_name(s@) is None && e.expected@ == "privacy level"@ && e.value@ == s@,
            },
    {
        if str_eq(s, "public") {
            Ok(PrivacyLevel::Public)
        } else if str_eq(s, "sensitive") {
            Ok(PrivacyLevel::Sensitive)
        } else if str_eq(s, "restricted") {
            Ok(PrivacyLevel::Restricted)
        } else {
            Err(UnknownValue::new("privacy level", s))
        }
    }
}

/// Reading back the name of a privacy level gives that privacy level, and a name is
/// read as a privacy level only when it is that privacy level's name.
pub proof fn lemma_privacy_level_names_round_trip(v: PrivacyLevel, s: Seq<char>)
    ensures
        PrivacyLevel::from_name(v.name()) == Some(v),
        PrivacyLevel::from_name(s) == Some(v) <==> s == v.name(),
{
    reveal_strlit("public");
    assert("public"@ =~= seq!['p', 'u', 'b', 'l', 'i', 'c']);
    reveal_strlit("sensitive");
    assert("sensitive"@ =~= seq!['s', 'e', 'n', 's', 'i', 't', 'i', 'v', 'e']);
    reveal_strlit("restricted");
    assert("restricted"@ =~= seq!['r', 'e', 's', 't', 'r', 'i', 'c', 't', 'e', 'd']);
}
/// Why a query went to the model it went to.
#[derive(Debug, Clone, Copy, PartialEq, Eq, Structural)]
pub enum RouteReason {
    PrivacyKeywordDetected,
    QueryTooLong,
    SimpleQuery,
    ComplexReasoning,
    UserForced,
    PolicyOverride,
}

impl RouteReason {
    /// The name under which a route reason is stored and shown.
    pub open spec fn name(self) -> Seq<char> {
        match self {
            RouteReason::PrivacyKeywordDetected => "privacy_keyword_detected"@,
            RouteReason::QueryTooLong => "query_too_long"@,
            RouteReason::SimpleQuery => "simple_query"@,
            RouteReason::ComplexReasoning => "complex_reasoning"@,
            RouteReason::UserForced => "user_forced"@,
            RouteReason::PolicyOverride => "policy_override"@,
        }
    }

    /// The name of this route reason.
    pub fn as_str(&self) -> (s: &'static str)
        ensures
            s@ == self.name(),
    {
        match self {
            RouteReason::PrivacyKeywordDetected => "privacy_keyword_detected",
            RouteReason::QueryTooLong => "query_too_long",
            RouteReason::SimpleQuery => "simple_query",
            RouteReason::ComplexReasoning => "complex_reasoning",
            RouteReason::UserForced => "user_forced",
            RouteReason::PolicyOverride => "policy_override",
        }
    }

}
/// The model slots a query can be routed to.
#[derive(Debug, Clone, Copy, PartialEq, Eq, Structural)]
pub enum ModelOption {
    LocalGeneral,
    CloudFast,
    CloudReasoning,
}

impl ModelOption {
    /// The name under which a model option is stored and shown.
    pub open spec fn name(self) -> Seq<char> {
        match self {
            ModelOption::LocalGeneral => "local_general"@,
            ModelOption::CloudFast => "cloud_fast"@,
            ModelOption::CloudReasoning => "cloud_reasoning"@,
        }
    }

    /// The model option with the given name, if there is one.
    pub open spec fn from_name(s: Seq<char>) -> Option<ModelOption> {
        if s == "local_general"@ {
            Some(ModelOption::LocalGeneral)
        } else if s == "cloud_fast"@ {
            Some(ModelOption::CloudFast)
        } else if s == "cloud_reasoning"@ {
            Some(ModelOption::CloudReasoning)
        } else {
            None
        }
    }

    /// The name of this model option.
    pub fn as_str(&self) -> (s: &'static str)
        ensures
            s@ == self.name(),
    {
        match self {
            ModelOption::LocalGeneral => "local_general",
            ModelOption::CloudFast => "cloud_fast",
            ModelOption::CloudReasoning => "cloud_reasoning",
        }
    }

    /// The model option named `s`; any other text is refused.
    pub fn parse(s: &str) -> (r: Result<ModelOption, UnknownValue>)
        ensures
            match r {
                Ok(v) => ModelOption::from_name(s@) == Some(v),
                Err(e) => ModelOption::from_name(s@) is None && e.expected@ == "model option"@ && e.value@ == s@,
            },
    {
        if str_eq(s, "local_general") {
            Ok(ModelOption::LocalGeneral)
        } else if str_eq(s, "cloud_fast") {
            Ok(ModelOption::CloudFast)
        } else if str_eq(s, "cloud_reasoning") {
            Ok(ModelOption::CloudReasoning)
        } else {
            Err(UnknownValue::new("model option", s))
        }
    }
}

/// Reading back the name of a model option gives that model option, and a name is
/// read as a model option only when it is that model option's name.
pub proof fn lemma_model_option_names_round_trip(v: ModelOption, s: Seq<char>)
    ensures
        ModelOption::from_name(v.name()) == Some(v),
        ModelOption::from_name(s) == Some(v) <==> s == v.name(),
{
    reveal_strlit("local_general");
    assert("local_general"@ =~= seq!['l', 'o', 'c', 'a', 'l', '_', 'g', 'e', 'n', 'e', 'r', 'a', 'l']);
    reveal_strlit("cloud_fast");
    assert("cloud_fast"@ =~= seq!['c', 'l', 'o', 'u', 'd', '_', 'f', 'a', 's', 't']);
    reveal_strlit("cloud_reasoning");
    assert("cloud_reasoning"@ =~= seq!['c', 'l', 'o', 'u', 'd', '_', 'r', 'e', 'a', 's', 'o', 'n', 'i', 'n', 'g']);
}
/// Where a query went and why.
#[derive(Debug, Clone)]
pub struct RouteDecision {
    pub id: String,
    pub conversation_id: Option<String>,
    pub message_id: Option<String>,
    pub model_chosen: ModelOption,
    pub reason: RouteReason,
    pub privacy_level: PrivacyLevel,
    pub explanation: String,
    /// RFC 3339 text.
    pub created_at: String,
}

impl RouteDecision {
    /// A decision with a fresh identifier, made now, not yet tied to a
    /// conversation or message.
    pub fn new(model_chosen: ModelOption, reason: RouteReason, privacy_level: PrivacyLevel, explanation: String) -> (d: RouteDecision)
        ensures
            d.model_chosen == model_chosen,
            d.reason == reason,
            d.privacy_level == privacy_level,
            d.explanation == explanation,
            d.conversation_id is None,
            d.message_id is None,
            uuid_v4_text(d.id@),
            reads_as_utc_timestamp(d.created_at@),
    {
        let id = new_id();
        let created_at = utc_now();
        RouteDecision {
            id,
            conversation_id: None,
            message_id: None,
            model_chosen,
            reason,
            privacy_level,
            explanation,
            created_at,
        }
    }
}

} // verus!
