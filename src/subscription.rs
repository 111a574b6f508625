//! The long-poll subscription loop.
//!
//! The loop holds exactly one cursor. It is idle until started; from then on
//! exactly one subscribe operation is outstanding at a time. When one
//! completes, the next is enqueued at once: from the cursor that came back on
//! success, or from the unchanged cursor on failure, so that no message is
//! skipped.

use vstd::prelude::*;
use vstd::string::*;

use crate::error::BevyPNError;
use crate::messages::{messages_view, Message, SubscriptionInfo, SubscriptionResult};
use crate::tasks::{PendingTask, SubscribeTask, TaskKind, TaskRegistry};

verus! {

/// The decimal digits of a natural number.
pub open spec fn digits(n: nat) -> Seq<char>
    decreases n,
{
    let d = seq!['0', '1', '2', '3', '4', '5', '6', '7', '8', '9'][(n % 10) as int];
    if n < 10 {
        seq![d]
    } else {
        digits(n / 10).push(d)
    }
}

/// An integer written in decimal, with a leading `-` when negative.
pub open spec fn decimal(n: int) -> Seq<char> {
    if n < 0 {
        seq!['-'] + digits((-n) as nat)
    } else {
        digits(n as nat)
    }
}

/// Relies on `i32`'s `Display` (through `to_string`): the number in decimal,
/// with a leading `-` when negative and no leading zeros.
#[verifier::external_body]
fn i32_to_string(n: i32) -> (r: String)
    ensures
        r@ == decimal(n as int),
{
    n.to_string()
}

/// Who subscribes to what, and the cursor the next request starts from.
pub struct PubNubSubscribeResource {
    pub tt: String,
    pub tr: i32,
    pub subscribe_key: String,
    pub channel: String,
    pub user_id: String,
}

/// A long-poll request: a path and its query parameters, in order.
pub struct SubscribeRequest {
    pub path: String,
    pub query_parameters: Vec<(String, String)>,
}

/// The path that a long poll on `channel` under `subscribe_key` goes to.
pub open spec fn subscribe_path(subscribe_key: Seq<char>, channel: Seq<char>) -> Seq<char> {
    "v2/subscribe/"@ + subscribe_key + "/"@ + channel + "/0"@
}

/// The query of a long poll from `cursor` by `user_id`.
pub open spec fn subscribe_query(cursor: (Seq<char>, i32), user_id: Seq<char>) -> Seq<
    (Seq<char>, Seq<char>),
> {
    seq![("tt"@, cursor.0), ("tr"@, decimal(cursor.1 as int)), ("uuid"@, user_id)]
}

impl PubNubSubscribeResource {
    /// A subscription that starts from now.
    pub fn new(subscribe_key: String, channel: String, user_id: String) -> (r: Self)
        ensures
            r.cursor() == ("0"@, 0i32),
            r.subscribe_key@ == subscribe_key@,
            r.channel@ == channel@,
            r.user_id@ == user_id@,
    {
        PubNubSubscribeResource { tt: String::from_str("0"), tr: 0, subscribe_key, channel, user_id }
    }

    pub open spec fn cursor(&self) -> (Seq<char>, i32) {
        (self.tt@, self.tr)
    }

    /// The request that one long poll from `cursor` sends.
    pub fn subscribe_request(&self, cursor: &SubscriptionInfo) -> (r: SubscribeRequest)
        ensures
            r.path@ == subscribe_path(self.subscribe_key@, self.channel@),
            r.query_parameters@.map_values(|p: (String, String)| (p.0@, p.1@)) == subscribe_query(
                cursor@,
                self.user_id@,
            ),
    {
        let mut path = String::from_str("v2/subscribe/");
        path.append(self.subscribe_key.as_str());
        path.append("/");
        path.append(self.channel.as_str());
        path.append("/0");
        let mut query: Vec<(String, String)> = Vec::new();
        query.push((String::from_str("tt"), cursor.tt.clone()));
        query.push((String::from_str("tr"), i32_to_string(cursor.tr)));
        query.push((String::from_str("uuid"), self.user_id.clone()));
        assert(query@.map_values(|p: (String, String)| (p.0@, p.1@)) =~= subscribe_query(
            cursor@,
            self.user_id@,
        ));
        SubscribeRequest { path, query_parameters: query }
    }
}

/// The body of a long-poll response, or why there is none.
///
/// A failed transport passes its error on; a response without a body, or
/// with an empty one, is `EmptyBody` on `"Subscribe"`.
pub fn subscribe_body(response: Result<Option<Vec<u8>>, BevyPNError>) -> (r: Result<
    Vec<u8>,
    BevyPNError,
>)
    ensures
        match response {
            Err(e) => r == Err::<Vec<u8>, BevyPNError>(e),
            Ok(Some(b)) => if b@.len() > 0 {
                r == Ok::<Vec<u8>, BevyPNError>(b)
            } else {
                r matches Err(BevyPNError::EmptyBody { on }) && on@ == "Subscribe"@
            },
            Ok(None) => r matches Err(BevyPNError::EmptyBody { on }) && on@ == "Subscribe"@,
        },
{
    match response {
        Err(e) => Err(e),
        Ok(Some(b)) => {
            if b.len() > 0 {
                Ok(b)
            } else {
                Err(BevyPNError::EmptyBody { on: String::from_str("Subscribe") })
            }
        },
        Ok(None) => Err(BevyPNError::EmptyBody { on: String::from_str("Subscribe") }),
    }
}

/// What handling one completed long poll produced.
pub struct SubscribeStep {
    /// Messages for the sink, in the order received.
    pub messages: Vec<Message>,
    /// The failure to report, if the poll failed.
    pub error: Option<BevyPNError>,
    /// The handle of the long poll enqueued next.
    pub next: u64,
}

/// `after` is `before` with one more operation, a long poll from `cursor`,
/// under the handle `next`.
pub open spec fn appended_subscribe(
    before: Seq<PendingTask>,
    after: Seq<PendingTask>,
    next: u64,
    cursor: (Seq<char>, i32),
) -> bool {
    let n = before.len();
    &&& after.len() == n + 1
    &&& after.take(n as int) == before
    &&& after[n as int].handle == next
    &&& after[n as int].kind matches TaskKind::Subscribe(t) && t.cursor@ == cursor
}

/// The registry gained exactly one operation, a long poll from `cursor`,
/// under the next handle.
pub open spec fn enqueued_subscribe(
    before: &TaskRegistry,
    after: &TaskRegistry,
    cursor: (Seq<char>, i32),
) -> bool {
    &&& after.next_handle_view() == before.next_handle_view() + 1
    &&& appended_subscribe(
        before.pending_view(),
        after.pending_view(),
        before.next_handle_view(),
        cursor,
    )
}

/// The cursor after one completed long poll: the one that came back on
/// success, the same one on failure.
pub open spec fn next_cursor(
    cursor: (Seq<char>, i32),
    result: Result<SubscriptionResult, BevyPNError>,
) -> (Seq<char>, i32) {
    match result {
        Ok(res) => res.message_info@,
        Err(_) => cursor,
    }
}

/// The cursor after a sequence of completed long polls, handled in order.
pub open spec fn cursor_after(
    cursor: (Seq<char>, i32),
    results: Seq<Result<SubscriptionResult, BevyPNError>>,
) -> (Seq<char>, i32)
    decreases results.len(),
{
    if results.len() == 0 {
        cursor
    } else {
        next_cursor(cursor_after(cursor, results.drop_last()), results.last())
    }
}

/// After any sequence of completed long polls the cursor is the one of the
/// last success, failures after it leaving it unchanged; with no success at
/// all it is the cursor the loop started from.
pub proof fn lemma_cursor_follows_last_success(
    cursor: (Seq<char>, i32),
    results: Seq<Result<SubscriptionResult, BevyPNError>>,
)
    ensures
        forall|i: int|
            0 <= i < results.len() && (#[trigger] results[i]) is Ok && (forall|j: int|
                i < j < results.len() ==> #[trigger] results[j] is Err) ==> cursor_after(cursor, results)
                == results[i]->Ok_0.message_info@,
        (forall|j: int| 0 <= j < results.len() ==> #[trigger] results[j] is Err) ==> cursor_after(
            cursor,
            results,
        ) == cursor,
    decreases results.len(),
{
    if results.len() > 0 {
        let init = results.drop_last();
        lemma_cursor_follows_last_success(cursor, init);
        assert forall|i: int|
            0 <= i < results.len() && (#[trigger] results[i]) is Ok && (forall|j: int|
                i < j < results.len() ==> #[trigger] results[j] is Err) implies cursor_after(cursor, results)
            == results[i]->Ok_0.message_info@ by {
            if i < results.len() - 1 {
                assert(results[results.len() - 1] is Err);
                assert(init[i] == results[i]);
                assert forall|j: int| i < j < init.len() implies #[trigger] init[j] is Err by {
                    assert(init[j] == results[j]);
                }
            }
        }
        if forall|j: int| 0 <= j < results.len() ==> #[trigger] results[j] is Err {
            assert(results[results.len() - 1] is Err);
            assert forall|j: int| 0 <= j < init.len() implies #[trigger] init[j] is Err by {
                assert(init[j] == results[j]);
            }
        }
    }
}

pub struct SubscriptionLoop {
    resource: PubNubSubscribeResource,
    outstanding: Option<u64>,
}

impl SubscriptionLoop {
    pub closed spec fn cursor(&self) -> (Seq<char>, i32) {
        self.resource.cursor()
    }

    /// The handle of the long poll in flight; `None` while idle.
    pub closed spec fn outstanding(&self) -> Option<u64> {
        self.outstanding
    }

    pub closed spec fn identity(&self) -> (Seq<char>, Seq<char>, Seq<char>) {
        (self.resource.subscribe_key@, self.resource.channel@, self.resource.user_id@)
    }

    /// An idle loop over the given subscription.
    pub fn new(resource: PubNubSubscribeResource) -> (r: Self)
        ensures
            r.cursor() == resource.cursor(),
            r.identity() == (resource.subscribe_key@, resource.channel@, resource.user_id@),
            r.outstanding() is None,
    {
        SubscriptionLoop { resource, outstanding: None }
    }

    pub fn resource(&self) -> (r: &PubNubSubscribeResource)
        ensures
            r.cursor() == self.cursor(),
            (r.subscribe_key@, r.channel@, r.user_id@) == self.identity(),
    {
        &self.resource
    }

    /// The handle of the long poll in flight, if any.
    pub fn outstanding_handle(&self) -> (r: Option<u64>)
        ensures
            r == self.outstanding(),
    {
        self.outstanding
    }

    fn current_cursor(&self) -> (r: SubscriptionInfo)
        ensures
            r@ == self.cursor(),
    {
        SubscriptionInfo { tt: self.resource.tt.clone(), tr: self.resource.tr }
    }

    /// Leaves the idle state: enqueues the first long poll, from the current
    /// cursor. A loop that is already polling is left as it is.
    pub fn start(&mut self, registry: &mut TaskRegistry) -> (r: Option<u64>)
        requires
            old(registry).wf(),
            old(registry).has_room(1),
        ensures
            final(registry).wf(),
            final(self).cursor() == old(self).cursor(),
            final(self).identity() == old(self).identity(),
            old(self).outstanding() is None ==> {
                &&& r == Some(old(registry).next_handle_view())
                &&& final(self).outstanding() == r
                &&& enqueued_subscribe(old(registry), final(registry), old(self).cursor())
            },
            old(self).outstanding() is Some ==> {
                &&& r is None
                &&& final(self).outstanding() == old(self).outstanding()
                &&& *final(registry) == *old(registry)
            },
    {
        if self.outstanding.is_some() {
            return None;
        }
        let h = self.poll_again(registry);
        Some(h)
    }

    /// Enqueues a long poll from the current cursor and records it as the one
    /// in flight.
    fn poll_again(&mut self, registry: &mut TaskRegistry) -> (h: u64)
        requires
            old(registry).wf(),
            old(registry).has_room(1),
        ensures
            final(registry).wf(),
            h == old(registry).next_handle_view(),
            final(self).outstanding() == Some(h),
            final(self).cursor() == old(self).cursor(),
            final(self).identity() == old(self).identity(),
            enqueued_subscribe(old(registry), final(registry), old(self).cursor()),
    {
        let cursor = self.current_cursor();
        let ghost before = *registry;
        let h = registry.enqueue(TaskKind::Subscribe(SubscribeTask { cursor }));
        assert(registry.pending_view().take(before.pending_view().len() as int)
            =~= before.pending_view());
        self.outstanding = Some(h);
        h
    }

    /// Handles one completed long poll and enqueues the next.
    ///
    /// On success the cursor becomes the one that came back, and the messages
    /// go to the sink unchanged and in order. On failure the cursor stays,
    /// nothing goes to the sink, and the error is handed back for reporting.
    /// Either way exactly one new long poll is enqueued, from the cursor that
    /// now holds.
    pub fn on_subscribe_result(
        &mut self,
        registry: &mut TaskRegistry,
        result: Result<SubscriptionResult, BevyPNError>,
    ) -> (step: SubscribeStep)
        requires
            old(registry).wf(),
            old(registry).has_room(1),
        ensures
            final(registry).wf(),
            final(self).identity() == old(self).identity(),
            step.next == old(registry).next_handle_view(),
            final(self).outstanding() == Some(step.next),
            enqueued_subscribe(old(registry), final(registry), final(self).cursor()),
            final(self).cursor() == next_cursor(old(self).cursor(), result),
            match result {
                Ok(res) => {
                    &&& final(self).cursor() == res.message_info@
                    &&& messages_view(step.messages@) == messages_view(res.messages@)
                    &&& step.error is None
                },
                Err(e) => {
                    &&& final(self).cursor() == old(self).cursor()
                    &&& step.messages@.len() == 0
                    &&& step.error == Some(e)
                },
            },
    {
        match result {
            Ok(res) => {
                self.resource.tt = res.message_info.tt;
                self.resource.tr = res.message_info.tr;
                let next = self.poll_again(registry);
                SubscribeStep { messages: res.messages, error: None, next }
            },
            Err(e) => {
                let next = self.poll_again(registry);
                SubscribeStep { messages: Vec::new(), error: Some(e), next }
            },
        }
    }
}

} // verus!
