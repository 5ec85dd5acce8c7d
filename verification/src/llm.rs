//! The language models a turn can be sent to.
pub mod anthropic;
pub mod traits;

use vstd::prelude::*;

use crate::text::{append, utf8_len, byte_len, str_eq};
use traits::ModelResponse;

verus! {

/// The input-token estimate of the stub adapters: a quarter of the prompts'
/// bytes, the byte count taken modulo 2^32 as a `u32` conversion does.
pub open spec fn stub_input_tokens(system_prompt: Seq<char>, user_prompt: Seq<char>) -> u32 {
    (((utf8_len(system_prompt) + utf8_len(user_prompt)) % 0x1_0000_0000) / 4) as u32
}

/// The text of a stub reply: a header naming where it ran and the model,
/// then the system and user prompts.
pub open spec fn stub_content(place: Seq<char>, model: Seq<char>, system_prompt: Seq<char>, user_prompt: Seq<char>) -> Seq<char> {
    "["@ + place + ":"@ + model + "] stub response\n--- system ---\n"@ + system_prompt + "\n--- user ---\n"@
        + user_prompt
}

fn stub_response(place: &str, model: &String, system_prompt: &str, user_prompt: &str) -> (r: ModelResponse)
    ensures
        r.model == *model,
        r.content@ == stub_content(place@, model@, system_prompt@, user_prompt@),
        r.input_tokens == stub_input_tokens(system_prompt@, user_prompt@),
        r.output_tokens == 32,
{
    let mut content = "[".to_owned();
    append(&mut content, place);
    append(&mut content, ":");
    append(&mut content, model.as_str());
    append(&mut content, "] stub response\n--- system ---\n");
    append(&mut content, system_prompt);
    append(&mut content, "\n--- user ---\n");
    append(&mut content, user_prompt);
    assert(content@ =~= stub_content(place@, model@, system_prompt@, user_prompt@));
    let bytes: u128 = byte_len(system_prompt) as u128 + byte_len(user_prompt) as u128;
    let input_tokens = ((bytes % 0x1_0000_0000) / 4) as u32;
    ModelResponse { model: model.clone(), content, input_tokens, output_tokens: 32 }
}

/// A stand-in for a local model: it answers with the prompts it was given.
pub struct DummyLocalAdapter {
    pub model_name: String,
}

impl DummyLocalAdapter {
    /// The stub reply to a request with these prompts.
    pub fn respond(&self, system_prompt: &str, user_prompt: &str) -> (r: ModelResponse)
        ensures
            r.model == self.model_name,
            r.content@ == stub_content("LOCAL"@, self.model_name@, system_prompt@, user_prompt@),
            r.input_tokens == stub_input_tokens(system_prompt@, user_prompt@),
            r.output_tokens == 32,
    {
        stub_response("LOCAL", &self.model_name, system_prompt, user_prompt)
    }
}

/// A stand-in for a cloud model: it answers with the prompts it was given.
pub struct DummyCloudAdapter {
    pub model_name: String,
}

impl DummyCloudAdapter {
    /// The stub reply to a request with these prompts.
    pub fn respond(&self, system_prompt: &str, user_prompt: &str) -> (r: ModelResponse)
        ensures
            r.model == self.model_name,
            r.content@ == stub_content("CLOUD"@, self.model_name@, system_prompt@, user_prompt@),
            r.input_tokens == stub_input_tokens(system_prompt@, user_prompt@),
            r.output_tokens == 32,
    {
        stub_response("CLOUD", &self.model_name, system_prompt, user_prompt)
    }
}


/// The adapters by slot name that a list of registrations leaves: each
/// registration sets its name, a later one replacing an earlier.
pub open spec fn registered<A>(slots: Seq<(String, A)>) -> Map<Seq<char>, A>
    decreases slots.len(),
{
    if slots.len() == 0 {
        Map::empty()
    } else {
        registered(slots.drop_last()).insert(slots.last().0@, slots.last().1)
    }
}

/// Where the last registration of `k` stands at `i` (or, for `i == -1`,
/// there is none), the adapters hold `k` exactly then, with that adapter.
proof fn lemma_registered_lookup<A>(slots: Seq<(String, A)>, k: Seq<char>, i: int)
    requires
        -1 <= i < slots.len(),
        forall|j: int| i < j < slots.len() ==> #[trigger] slots[j].0@ != k,
        i >= 0 ==> slots[i].0@ == k,
    ensures
        i >= 0 ==> registered(slots).contains_key(k) && registered(slots)[k] == slots[i].1,
        i == -1 ==> !registered(slots).contains_key(k),
    decreases slots.len(),
{
    if slots.len() > 0 && i < slots.len() - 1 {
        let init = slots.drop_last();
        assert forall|j: int| i < j < init.len() implies #[trigger] init[j].0@ != k by {
            assert(init[j] == slots[j]);
        }
        if i >= 0 {
            assert(init[i] == slots[i]);
        }
        assert(slots.last() == slots[slots.len() - 1]);
        lemma_registered_lookup(init, k, i);
    }
}

/// The model adapters, each under the name of its slot. Registering a name
/// again replaces its adapter.
pub struct ModelRegistry<A> {
    slots: Vec<(String, A)>,
}

impl<A> ModelRegistry<A> {
    /// The adapter registered under each name.
    pub closed spec fn adapters(&self) -> Map<Seq<char>, A> {
        registered(self.slots@)
    }

    /// A registry with no adapter.
    pub fn new() -> (r: Self)
        ensures
            r.adapters() == Map::<Seq<char>, A>::empty(),
    {
        ModelRegistry { slots: Vec::new() }
    }

    /// Registers the adapter under the name, replacing any adapter the name had.
    pub fn register(&mut self, name: String, adapter: A)
        ensures
            final(self).adapters() == old(self).adapters().insert(name@, adapter),
    {
        self.slots.push((name, adapter));
        assert(self.slots@.drop_last() =~= old(self).slots@);
    }

    /// The adapter registered under the name, if there is one.
    pub fn get(&self, name: &str) -> (r: Option<&A>)
        ensures
            match r {
                Some(a) => self.adapters().contains_key(name@) && *a == self.adapters()[name@],
                None => !self.adapters().contains_key(name@),
            },
    {
        let mut j = self.slots.len();
        while j > 0
            invariant
                j <= self.slots.len(),
                forall|m: int| j <= m < self.slots.len() ==> #[trigger] self.slots@[m].0@ != name@,
            decreases j,
        {
            j = j - 1;
            if str_eq(self.slots[j].0.as_str(), name) {
                proof {
                    lemma_registered_lookup(self.slots@, name@, j as int);
                }
                return Some(&self.slots[j].1);
            }
        }
        proof {
            lemma_registered_lookup(self.slots@, name@, -1);
        }
        None
    }

    /// The adapter registered under the name, or the message that it is not
    /// registered: `model '<name>' not found in registry`.
    pub fn require(&self, name: &str) -> (r: Result<&A, String>)
        ensures
            match r {
                Ok(a) => self.adapters().contains_key(name@) && *a == self.adapters()[name@],
                Err(m) => !self.adapters().contains_key(name@)
                    && m@ == "model '"@ + name@ + "' not found in registry"@,
            },
    {
        match self.get(name) {
            Some(a) => Ok(a),
            None => {
                let mut m = "model '".to_owned();
                append(&mut m, name);
                append(&mut m, "' not found in registry");
                Err(m)
            },
        }
    }
}

impl<A> Default for ModelRegistry<A> {
    /// A registry with no adapter.
    fn default() -> (r: Self)
        ensures
            r.adapters() == Map::<Seq<char>, A>::empty(),
    {
        ModelRegistry::new()
    }
}

} // verus!
