use vstd::prelude::*;

verus! {

/// What a model answered.
#[derive(Debug, Clone)]
pub struct ModelResponse {
    pub model: String,
    pub content: String,
    pub input_tokens: u32,
    pub output_tokens: u32,
}

} // verus!
