use vstd::prelude::*;

use crate::text::{append, str_eq};

verus! {

/// The two Anthropic models a cloud slot can use.
#[derive(Debug, Clone, Copy, PartialEq, Eq, Structural)]
pub enum ApiModel {
    /// The fast, small model.
    Fast,
    /// The larger model, for reasoning.
    Reasoning,
}

/// The Anthropic model behind a registry slot.
pub open spec fn model_of(slot: Seq<char>) -> ApiModel {
    if slot == "cloud_reasoning"@ {
        ApiModel::Reasoning
    } else {
        ApiModel::Fast
    }
}

/// The Anthropic model behind a registry slot: the reasoning slot gets the
/// larger model, every other slot (the fast slot among them) the fast one.
pub fn model_id_for(slot: &str) -> (m: ApiModel)
    ensures
        m == model_of(slot@),
{
    proof {
        reveal_strlit("cloud_fast");
        reveal_strlit("cloud_reasoning");
        assert("cloud_fast"@.len() != "cloud_reasoning"@.len());
    }
    if str_eq(slot, "cloud_fast") {
        ApiModel::Fast
    } else if str_eq(slot, "cloud_reasoning") {
        ApiModel::Reasoning
    } else {
        ApiModel::Fast
    }
}

/// The model identifier a request for a registry slot names, given the
/// identifiers configured for the fast and the reasoning model: the
/// reasoning one for the reasoning slot, the fast one for every other slot.
pub fn request_model_id<'a>(slot: &str, fast_id: &'a str, reasoning_id: &'a str) -> (id: &'a str)
    ensures
        id@ == match model_of(slot@) {
            ApiModel::Fast => fast_id@,
            ApiModel::Reasoning => reasoning_id@,
        },
{
    match model_id_for(slot) {
        ApiModel::Fast => fast_id,
        ApiModel::Reasoning => reasoning_id,
    }
}

/// The number of tokens a reply may take when the request sets none.
pub const DEFAULT_MAX_TOKENS: u32 = 1024;

/// The reply limit of a request: its own, or the default.
pub fn max_tokens_for(requested: Option<u32>) -> (n: u32)
    ensures
        n == match requested {
            Some(m) => m,
            None => DEFAULT_MAX_TOKENS,
        },
{
    match requested {
        Some(m) => m,
        None => DEFAULT_MAX_TOKENS,
    }
}

/// A block of the API's reply.
#[derive(Debug, Clone)]
pub struct ContentBlock {
    /// The block's `type`.
    pub kind: String,
    pub text: Option<String>,
}

/// The text of the blocks of type `text` that carry text, in order, run
/// together.
pub open spec fn reply_text(blocks: Seq<ContentBlock>) -> Seq<char>
    decreases blocks.len(),
{
    if blocks.len() == 0 {
        Seq::empty()
    } else {
        let b = blocks.last();
        reply_text(blocks.drop_last()) + if b.kind@ == "text"@ && b.text is Some {
            b.text->0@
        } else {
            Seq::empty()
        }
    }
}

/// The reply's text: see `reply_text`.
pub fn join_text_blocks(blocks: &Vec<ContentBlock>) -> (text: String)
    ensures
        text@ == reply_text(blocks@),
{
    let mut text = String::new();
    let mut i: usize = 0;
    while i < blocks.len()
        invariant
            i <= blocks.len(),
            text@ == reply_text(blocks@.take(i as int)),
        decreases blocks.len() - i,
    {
        let b = &blocks[i];
        assert(blocks@.take(i + 1).drop_last() =~= blocks@.take(i as int));
        assert(blocks@.take(i + 1).last() == *b);
        if str_eq(b.kind.as_str(), "text") {
            if let Some(t) = &b.text {
                append(&mut text, t.as_str());
            }
        }
        assert(text@ =~= reply_text(blocks@.take(i + 1)));
        i = i + 1;
    }
    assert(blocks@.take(blocks.len() as int) =~= blocks@);
    text
}

} // verus!
