//! What happens, once per frame, to an operation that has finished.
//!
//! A finished publish is retired; its failure, if any, is reported and the
//! message is dropped. A finished long poll is retired and handed to the
//! subscription loop, whose messages become chat lines.

use vstd::prelude::*;

use crate::error::BevyPNError;
use crate::messages::{messages_view, ChatMessage, Message, SubscriptionResult};
use crate::resources::{formatted, MessageFormat};
use crate::subscription::{appended_subscribe, SubscriptionLoop};
use crate::tasks::{handles_of, registered_kind, without, TaskKind, TaskRegistry};

verus! {

/// What a finished operation produced.
pub enum TaskOutcome {
    Published(Result<(), BevyPNError>),
    Subscribed(Result<SubscriptionResult, BevyPNError>),
}

/// Which kind of operation failed.
#[derive(Clone, Copy, Debug, PartialEq, Eq, Structural)]
pub enum Operation {
    Publish,
    Subscribe,
}

/// What one finished operation leaves for the sink and for diagnostics.
pub struct TaskReport {
    /// Chat lines to show, in the order the messages came.
    pub lines: Vec<ChatMessage>,
    /// A failure to report.
    pub failure: Option<(Operation, BevyPNError)>,
}

/// The texts of some chat lines.
pub open spec fn lines_view(lines: Seq<ChatMessage>) -> Seq<Seq<char>> {
    lines.map_values(|l: ChatMessage| l.text@)
}

/// The chat lines that show `messages` in `format`.
pub open spec fn formatted_all(
    format: Seq<char>,
    messages: Seq<(Seq<char>, Seq<char>, Seq<char>)>,
) -> Seq<Seq<char>> {
    messages.map_values(|m: (Seq<char>, Seq<char>, Seq<char>)| formatted(format, m))
}

/// Shows each message in `format`, in order.
pub fn format_messages(format: &MessageFormat, messages: &Vec<Message>) -> (r: Vec<ChatMessage>)
    ensures
        lines_view(r@) == formatted_all(format.0@, messages_view(messages@)),
{
    let mut r: Vec<ChatMessage> = Vec::new();
    let mut i: usize = 0;
    while i < messages.len()
        invariant
            i <= messages@.len(),
            r@.len() == i,
            forall|k: int| 0 <= k < i ==> (#[trigger] r@[k]).text@ == formatted(format.0@, messages@[k]@),
        decreases messages@.len() - i,
    {
        r.push(format.format(&messages[i]));
        i = i + 1;
    }
    assert(lines_view(r@) =~= formatted_all(format.0@, messages_view(messages@)));
    r
}

/// Handles the operation registered under `handle`, which finished with
/// `outcome`.
///
/// A handle that is not registered (never, or no longer) changes nothing, so
/// that each operation is handled at most once. A registered one is retired.
/// A failed publish is reported. A long poll goes to the subscription loop,
/// which enqueues the next one; its messages come back as chat lines and its
/// failure is reported. An outcome of the other kind than the operation is
/// dropped.
pub fn tasks_handler(
    registry: &mut TaskRegistry,
    subscription: &mut SubscriptionLoop,
    format: &MessageFormat,
    handle: u64,
    outcome: TaskOutcome,
) -> (report: TaskReport)
    requires
        old(registry).wf(),
        old(registry).has_room(1),
    ensures
        final(registry).wf(),
        final(subscription).identity() == old(subscription).identity(),
        ({
            let before = old(registry).pending_view();
            let next = old(registry).next_handle_view();
            let unchanged_loop = final(subscription).cursor() == old(subscription).cursor()
                && final(subscription).outstanding() == old(subscription).outstanding();
            if !handles_of(before).contains(handle) {
                &&& final(registry).pending_view() == before
                &&& final(registry).next_handle_view() == next
                &&& unchanged_loop
                &&& report.lines@.len() == 0
                &&& report.failure is None
            } else if registered_kind(before, handle) is Subscribe && outcome is Subscribed {
                &&& final(registry).next_handle_view() == next + 1
                &&& appended_subscribe(
                    without(before, handle),
                    final(registry).pending_view(),
                    next,
                    final(subscription).cursor(),
                )
                &&& final(subscription).outstanding() == Some(next)
                &&& match outcome {
                    TaskOutcome::Subscribed(Ok(res)) => {
                        &&& final(subscription).cursor() == res.message_info@
                        &&& lines_view(report.lines@) == formatted_all(
                            format.0@,
                            messages_view(res.messages@),
                        )
                        &&& report.failure is None
                    },
                    TaskOutcome::Subscribed(Err(e)) => {
                        &&& final(subscription).cursor() == old(subscription).cursor()
                        &&& report.lines@.len() == 0
                        &&& report.failure == Some((Operation::Subscribe, e))
                    },
                    _ => false,
                }
            } else {
                &&& final(registry).pending_view() == without(before, handle)
                &&& final(registry).next_handle_view() == next
                &&& unchanged_loop
                &&& report.lines@.len() == 0
                &&& report.failure == match outcome {
                    TaskOutcome::Published(Err(e)) => if registered_kind(before, handle) is Publish {
                        Some((Operation::Publish, e))
                    } else {
                        None
                    },
                    _ => None,
                }
            }
        }),
{
    let kind = match registry.retire(handle) {
        Some(kind) => kind,
        None => return TaskReport { lines: Vec::new(), failure: None },
    };
    match (kind, outcome) {
        (TaskKind::Subscribe(_), TaskOutcome::Subscribed(result)) => {
            let step = subscription.on_subscribe_result(registry, result);
            let lines = format_messages(format, &step.messages);
            assert(lines_view(lines@).len() == lines@.len());
            assert(messages_view(step.messages@).len() == step.messages@.len());
            let failure = match step.error {
                Some(e) => Some((Operation::Subscribe, e)),
                None => None,
            };
            TaskReport { lines, failure }
        },
        (TaskKind::Publish(_), TaskOutcome::Published(Err(e))) => {
            TaskReport { lines: Vec::new(), failure: Some((Operation::Publish, e)) }
        },
        _ => TaskReport { lines: Vec::new(), failure: None },
    }
}

} // verus!
