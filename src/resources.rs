//! Per-session values shared by the components: the channel and how a
//! received message is shown.

use vstd::prelude::*;
use vstd::string::*;

use crate::messages::{ChatMessage, Message};

verus! {

/// `s` with every match of `from` replaced by `to`, matches taken from the
/// left without overlapping.
pub open spec fn replaced(s: Seq<char>, from: Seq<char>, to: Seq<char>) -> Seq<char>
    decreases s.len(),
{
    if from.len() == 0 || s.len() < from.len() {
        s
    } else if s.take(from.len() as int) == from {
        to + replaced(s.skip(from.len() as int), from, to)
    } else {
        seq![s[0]] + replaced(s.skip(1), from, to)
    }
}

/// Relies on `str::replace`: every non-overlapping match of `from`, found
/// from the left, is replaced by `to`.
#[verifier::external_body]
fn replace_all(s: &str, from: &str, to: &str) -> (r: String)
    requires
        from@.len() > 0,
    ensures
        r@ == replaced(s@, from@, to@),
{
    s.replace(from, to)
}

/// The channel that messages are published to.
pub struct ChannelResource(pub String);

/// How a received message is shown. The placeholders `{username}`,
/// `{message}` and `{channel}` are filled in, in that order.
pub struct MessageFormat(pub String);

/// The text of `format` filled in with a message's sender, payload and channel.
pub open spec fn formatted(format: Seq<char>, m: (Seq<char>, Seq<char>, Seq<char>)) -> Seq<char> {
    replaced(
        replaced(replaced(format, "{username}"@, m.1), "{message}"@, m.2),
        "{channel}"@,
        m.0,
    )
}

impl MessageFormat {
    /// The chat line that shows `message`.
    pub fn format(&self, message: &Message) -> (r: ChatMessage)
        ensures
            r.text@ == formatted(self.0@, message@),
    {
        proof {
            reveal_strlit("{username}");
            reveal_strlit("{message}");
            reveal_strlit("{channel}");
        }
        let a = replace_all(self.0.as_str(), "{username}", message.user_id.as_str());
        let b = replace_all(a.as_str(), "{message}", message.payload.as_str());
        let text = replace_all(b.as_str(), "{channel}", message.channel.as_str());
        ChatMessage { text }
    }
}

} // verus!
