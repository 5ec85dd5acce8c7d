use vstd::prelude::*;

use crate::models::message::Message;
use crate::models::routing::RouteDecision;

verus! {

/// What a chat turn hands back: the assistant's message, where the query was
/// routed, and the model slot that answered.
#[derive(Debug, Clone)]
pub struct SendChatTurnResponse {
    pub assistant_message: Message,
    pub route_decision: RouteDecision,
    pub model_used: String,
}

} // verus!
