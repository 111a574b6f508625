//! What a long-poll response carries, and how a message is shown.

use vstd::prelude::*;

verus! {

/// The continuation cursor of the long-poll protocol: a timetoken and a region.
pub struct SubscriptionInfo {
    pub tt: String,
    pub tr: i32,
}

impl View for SubscriptionInfo {
    type V = (Seq<char>, i32);

    open spec fn view(&self) -> (Seq<char>, i32) {
        (self.tt@, self.tr)
    }
}

/// One message received on a channel.
pub struct Message {
    pub channel: String,
    pub user_id: String,
    pub payload: String,
}

impl View for Message {
    /// Channel, sender and payload.
    type V = (Seq<char>, Seq<char>, Seq<char>);

    open spec fn view(&self) -> (Seq<char>, Seq<char>, Seq<char>) {
        (self.channel@, self.user_id@, self.payload@)
    }
}

/// The views of a sequence of messages.
pub open spec fn messages_view(s: Seq<Message>) -> Seq<(Seq<char>, Seq<char>, Seq<char>)> {
    s.map_values(|m: Message| m@)
}

/// One decoded long-poll response: the cursor to continue from, and the
/// messages in the order the backend sent them.
pub struct SubscriptionResult {
    pub message_info: SubscriptionInfo,
    pub messages: Vec<Message>,
}

/// A line of the chat as it is shown.
pub struct ChatMessage {
    pub text: String,
}

} // verus!
