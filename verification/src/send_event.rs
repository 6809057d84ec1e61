//! The topic of plain messages.

use crate::event::{announce, published_message, published_status, AppState};
use crate::status::StatusCode;
use vstd::prelude::*;

verus! {

/// A message to publish.
#[derive(Debug)]
pub struct PostEventPayload {
    message: String,
}

impl View for PostEventPayload {
    type V = Seq<char>;

    closed spec fn view(&self) -> Seq<char> {
        self.message@
    }
}

impl PostEventPayload {
    /// A payload that holds `message`.
    pub fn new(message: String) -> (payload: Self)
        ensures
            payload@ == message@,
    {
        PostEventPayload { message }
    }

    /// The message.
    pub fn message(&self) -> (message: &str)
        ensures
            message@ == self@,
    {
        self.message.as_str()
    }
}

/// Publishes a message and replies to the publisher: status 200 and the
/// number of subscriptions that the message reached when there is one at
/// least, status 202 when there is none.
pub fn handler(state: &AppState<String>, payload: PostEventPayload) -> (reply: (StatusCode, String))
    ensures
        reply.0.success(),
        exists|delivered_to: nat|
            reply.0 == published_status(delivered_to) && reply.1@ == #[trigger] published_message(
                delivered_to,
            ),
{
    let delivered_to = state.publish(payload.message);
    announce(delivered_to)
}

} // verus!
