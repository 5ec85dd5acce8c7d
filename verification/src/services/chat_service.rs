use vstd::prelude::*;

use crate::models::chat::SendChatTurnResponse;
use crate::models::message::{Message, MessageRole};
use crate::models::routing::{ModelOption, RouteDecision};
use crate::llm::ModelRegistry;
use crate::services::routing_service::{lemma_privacy_keyword_wins, privacy_keywords, route_of, RoutingService};
use crate::text::{contains, lowercase};
use crate::stamp::reads_as_utc_timestamp;
use crate::text::{join, join_strings, split_words, take_at_most, utf8_len, views, words};

verus! {

/// How many keywords of the user's message look memories up.
pub const TURN_KEYWORDS: usize = 8;

/// How many memories a turn's prompt carries at most.
pub const TURN_MEMORY_LIMIT: u32 = 5;

/// How many recent messages the context snapshot reads.
pub const CONTEXT_MESSAGES: u32 = 20;

/// How many keywords of the recent messages look memories up for the snapshot.
pub const CONTEXT_KEYWORDS: usize = 10;

/// How many memories the context snapshot carries at most.
pub const CONTEXT_MEMORY_LIMIT: u32 = 10;

/// Holds of words longer than four bytes.
pub open spec fn long_word() -> spec_fn(Seq<char>) -> bool {
    |w: Seq<char>| utf8_len(w) > 4
}

/// The first `n` words of the text that are longer than four bytes.
pub open spec fn keywords_of(text: Seq<char>, n: nat) -> Seq<Seq<char>> {
    take_at_most(words(text).filter(long_word()), n)
}

/// The keywords of a text are at most `n`, and each is longer than four bytes.
pub proof fn lemma_keywords_are_few_and_long(text: Seq<char>, n: nat)
    ensures
        keywords_of(text, n).len() <= n,
        forall|i: int| 0 <= i < keywords_of(text, n).len() ==> utf8_len(#[trigger] keywords_of(text, n)[i]) > 4,
{
    let all = words(text).filter(long_word());
    assert forall|i: int| 0 <= i < keywords_of(text, n).len() implies utf8_len(#[trigger] keywords_of(text, n)[i]) > 4 by {
        assert(keywords_of(text, n)[i] == all[i]);
        words(text).lemma_filter_pred(long_word(), i);
    }
}

/// No long word is passed over: a whitespace-separated word of the text
/// longer than four bytes is a keyword whenever fewer than `n` such words
/// come before it, and it stands after exactly those.
pub proof fn lemma_long_words_become_keywords(text: Seq<char>, n: nat, i: int)
    requires
        0 <= i < words(text).len(),
        utf8_len(words(text)[i]) > 4,
        words(text).take(i).filter(|w: Seq<char>| utf8_len(w) > 4).len() < n,
    ensures
        ({
            let p = words(text).take(i).filter(|w: Seq<char>| utf8_len(w) > 4).len() as int;
            p < keywords_of(text, n).len() && keywords_of(text, n)[p] == words(text)[i]
        }),
{
    let ws = words(text);
    let long = |w: Seq<char>| utf8_len(w) > 4;
    assert(long_word() =~= long);
    let before = ws.take(i).filter(long);
    let p = before.len() as int;
    assert(ws.take(i + 1) =~= ws.take(i).push(ws[i]));
    ws.take(i).lemma_filter_push(ws[i], long);
    assert(ws =~= ws.take(i + 1) + ws.skip(i + 1));
    Seq::filter_distributes_over_add(ws.take(i + 1), ws.skip(i + 1), long);
    let all = ws.filter(long);
    assert(all == before.push(ws[i]) + ws.skip(i + 1).filter(long));
    assert(all[p] == ws[i]);
    if n <= all.len() {
        assert(keywords_of(text, n) == all.take(n as int));
    }
}

/// When a text has at most `n` words longer than four bytes, every one of
/// them is a keyword.
pub proof fn lemma_few_long_words_all_keywords(text: Seq<char>, n: nat)
    requires
        words(text).filter(|w: Seq<char>| utf8_len(w) > 4).len() <= n,
    ensures
        keywords_of(text, n) == words(text).filter(|w: Seq<char>| utf8_len(w) > 4),
{
    assert(long_word() =~= (|w: Seq<char>| utf8_len(w) > 4));
}

/// The first `n` words of the text that are longer than four bytes, which
/// look memories up.
pub fn keywords(text: &str, n: usize) -> (out: Vec<String>)
    ensures
        views(out@) == keywords_of(text@, n as nat),
{
    let all = split_words(text);
    let mut out: Vec<String> = Vec::new();
    let mut i: usize = 0;
    while i < all.len() && out.len() < n
        invariant
            i <= all.len(),
            out.len() <= n,
            views(all@) == words(text@),
            views(out@) == views(all@).take(i as int).filter(long_word()),
        decreases all.len() - i,
    {
        let ghost w = all@[i as int]@;
        proof {
            assert(views(all@).take(i + 1) =~= views(all@).take(i as int).push(w));
            views(all@).take(i as int).lemma_filter_push(w, long_word());
        }
        if all[i].as_str().as_bytes().len() > 4 {
            out.push(all[i].clone());
            assert(views(out@) =~= views(all@).take(i as int).filter(long_word()).push(w));
        }
        i = i + 1;
    }
    proof {
        let f = views(all@).filter(long_word());
        let g = views(all@).take(i as int).filter(long_word());
        assert(views(all@) =~= views(all@).take(i as int) + views(all@).skip(i as int));
        Seq::filter_distributes_over_add(views(all@).take(i as int), views(all@).skip(i as int), long_word());
        assert(f == g + views(all@).skip(i as int).filter(long_word()));
        if out.len() < n {
            assert(i == all.len());
            assert(views(all@).skip(i as int) =~= Seq::<Seq<char>>::empty());
            reveal(Seq::filter);
            assert(f =~= g);
        } else {
            assert(f.take(n as int) =~= g);
        }
    }
    out
}

/// The text of messages run together, separated by spaces.
pub open spec fn combined_text(messages: Seq<Message>) -> Seq<char> {
    join(messages.map_values(|m: Message| m.content@), " "@)
}

/// The keywords of the recent messages that look memories up for the context
/// snapshot.
pub fn context_keywords(messages: &Vec<Message>) -> (out: Vec<String>)
    ensures
        views(out@) == keywords_of(combined_text(messages@), CONTEXT_KEYWORDS as nat),
{
    let mut contents: Vec<String> = Vec::new();
    let mut i: usize = 0;
    while i < messages.len()
        invariant
            i <= messages.len(),
            views(contents@) == messages@.take(i as int).map_values(|m: Message| m.content@),
        decreases messages.len() - i,
    {
        let c = messages[i].content.clone();
        let ghost before = views(contents@);
        contents.push(c);
        assert(views(contents@) =~= before.push(messages@[i as int].content@));
        assert(messages@.take(i + 1) =~= messages@.take(i as int).push(messages@[i as int]));
        assert(views(contents@) =~= messages@.take(i + 1).map_values(|m: Message| m.content@));
        i = i + 1;
    }
    assert(messages@.take(messages.len() as int) =~= messages@);
    let combined = join_strings(&contents, " ");
    keywords(combined.as_str(), CONTEXT_KEYWORDS)
}

/// The routing of a turn's user message, tied to its conversation and message.
pub fn route_turn(router: &RoutingService, conversation_id: &str, user_message_id: &str, user_content: &str) -> (d: RouteDecision)
    ensures
        (d.model_chosen, d.reason, d.privacy_level, d.explanation@) == route_of(user_content@),
        d.conversation_id matches Some(c) && c@ == conversation_id@,
        d.message_id matches Some(m) && m@ == user_message_id@,
{
    let mut decision = router.route(user_content);
    decision.conversation_id = Some(conversation_id.to_owned());
    decision.message_id = Some(user_message_id.to_owned());
    decision
}

/// The assistant's message of a turn: the model's reply, marked with the
/// slot that wrote it.
pub fn assistant_message(conversation_id: &str, content: String, model: ModelOption) -> (m: Message)
    ensures
        m.conversation_id@ == conversation_id@,
        m.role == MessageRole::Assistant,
        m.content == content,
        m.model_used matches Some(u) && u@ == model.name(),
        reads_as_utc_timestamp(m.created_at@),
{
    let mut m = Message::new(conversation_id.to_owned(), MessageRole::Assistant, content);
    m.model_used = Some(model.as_str().to_owned());
    m
}

/// What a turn hands back: the model used is the slot the query was routed to.
pub fn turn_response(assistant_message: Message, route_decision: RouteDecision) -> (r: SendChatTurnResponse)
    ensures
        r.assistant_message == assistant_message,
        r.route_decision == route_decision,
        r.model_used@ == route_decision.model_chosen.name(),
{
    let model_used = route_decision.model_chosen.as_str().to_owned();
    SendChatTurnResponse { assistant_message, route_decision, model_used }
}


/// The adapter that answers a routed turn: the one registered under the
/// name of the chosen slot, or the message that none is.
pub fn adapter_for_turn<'a, A>(registry: &'a ModelRegistry<A>, decision: &RouteDecision) -> (r: Result<&'a A, String>)
    ensures
        match r {
            Ok(a) => registry.adapters().contains_key(decision.model_chosen.name())
                && *a == registry.adapters()[decision.model_chosen.name()],
            Err(m) => !registry.adapters().contains_key(decision.model_chosen.name())
                && m@ == "model '"@ + decision.model_chosen.name() + "' not found in registry"@,
        },
{
    registry.require(decision.model_chosen.as_str())
}

/// Local by default: a turn whose message holds a privacy keyword (in any
/// case) is answered by the adapter registered for the local slot, and by
/// no other.
pub proof fn lemma_private_turn_stays_local<A>(registry: ModelRegistry<A>, query: Seq<char>, i: int)
    requires
        0 <= i < privacy_keywords().len(),
        contains(lowercase(query), privacy_keywords()[i]),
    ensures
        route_of(query).0.name() == "local_general"@,
        registry.adapters().contains_key(route_of(query).0.name()) <==> registry.adapters().contains_key("local_general"@),
        registry.adapters()[route_of(query).0.name()] == registry.adapters()["local_general"@],
{
    lemma_privacy_keyword_wins(query, i);
}

} // verus!
