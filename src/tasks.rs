//! The registry of operations that run off the frame loop.
//!
//! Each enqueued operation gets a fresh handle. Once per frame the caller
//! reports which handles have finished, and the registry hands back each of
//! those operations exactly once, removing it; the others stay registered.

use vstd::multiset::Multiset;
use vstd::prelude::*;

use crate::messages::SubscriptionInfo;

verus! {

/// A message to publish on a channel.
pub struct PublishTask {
    pub message: String,
    pub channel: String,
}

/// One long-poll request, made from the given cursor.
pub struct SubscribeTask {
    pub cursor: SubscriptionInfo,
}

/// The two kinds of operation, which are retired differently.
pub enum TaskKind {
    Publish(PublishTask),
    Subscribe(SubscribeTask),
}

/// An operation that has been enqueued and not yet retired.
pub struct PendingTask {
    pub handle: u64,
    pub kind: TaskKind,
}

pub struct TaskRegistry {
    next_handle: u64,
    pending: Vec<PendingTask>,
}

/// The handles of a sequence of pending operations.
pub open spec fn handles_of(s: Seq<PendingTask>) -> Seq<u64> {
    s.map_values(|t: PendingTask| t.handle)
}

/// No handle occurs twice.
pub open spec fn unique_handles(s: Seq<PendingTask>) -> bool {
    forall|i: int, j: int|
        0 <= i < s.len() && 0 <= j < s.len() && i != j ==> #[trigger] s[i].handle != #[trigger] s[j].handle
}

/// Whether an operation's handle is among `finished`.
pub open spec fn is_finished(finished: Seq<u64>) -> spec_fn(PendingTask) -> bool {
    |t: PendingTask| finished.contains(t.handle)
}

/// Whether an operation's handle is not among `finished`.
pub open spec fn is_unfinished(finished: Seq<u64>) -> spec_fn(PendingTask) -> bool {
    |t: PendingTask| !finished.contains(t.handle)
}

/// The operations of `s` whose handle is among `finished`.
pub open spec fn finished_in(s: Seq<PendingTask>, finished: Seq<u64>) -> Seq<PendingTask> {
    s.filter(is_finished(finished))
}

/// The operations of `s` whose handle is not among `finished`.
pub open spec fn unfinished_in(s: Seq<PendingTask>, finished: Seq<u64>) -> Seq<PendingTask> {
    s.filter(is_unfinished(finished))
}

/// The position of the operation registered under `handle`.
pub open spec fn position_of(s: Seq<PendingTask>, handle: u64) -> int {
    choose|j: int| 0 <= j < s.len() && #[trigger] s[j].handle == handle
}

/// The kind of the operation registered under `handle`.
pub open spec fn registered_kind(s: Seq<PendingTask>, handle: u64) -> TaskKind {
    s[position_of(s, handle)].kind
}

/// The operations of `s` but the one registered under `handle`.
pub open spec fn without(s: Seq<PendingTask>, handle: u64) -> Seq<PendingTask> {
    s.remove(position_of(s, handle))
}

/// Whether `h` is among `handles`.
fn contains_handle(handles: &Vec<u64>, h: u64) -> (r: bool)
    ensures
        r == handles@.contains(h),
{
    let mut j: usize = 0;
    while j < handles.len()
        invariant
            j <= handles@.len(),
            !handles@.take(j as int).contains(h),
        decreases handles@.len() - j,
    {
        if handles[j] == h {
            assert(handles@[j as int] == h);
            return true;
        }
        assert(handles@.take(j + 1) =~= handles@.take(j as int).push(handles@[j as int]));
        j = j + 1;
    }
    assert(handles@.take(j as int) =~= handles@);
    false
}

/// Filtering keeps handles unique, and keeps only operations that were there.
proof fn lemma_filter_keeps_handles(s: Seq<PendingTask>, p: spec_fn(PendingTask) -> bool)
    requires
        unique_handles(s),
    ensures
        unique_handles(s.filter(p)),
        forall|t: PendingTask| s.filter(p).contains(t) ==> s.contains(t),
    decreases s.len(),
{
    broadcast use Seq::lemma_filter_contains_rev;

    if s.len() == 0 {
        reveal(Seq::filter);
    } else {
        let d = s.drop_last();
        let x = s.last();
        assert(d.push(x) =~= s);
        d.lemma_filter_push(x, p);
        assert(unique_handles(d)) by {
            assert forall|i: int, j: int|
                0 <= i < d.len() && 0 <= j < d.len() && i != j implies #[trigger] d[i].handle
                != #[trigger] d[j].handle by {
                assert(d[i] == s[i] && d[j] == s[j]);
            }
        }
        lemma_filter_keeps_handles(d, p);
        let f = d.filter(p);
        if p(x) {
            assert forall|i: int, j: int|
                0 <= i < f.len() + 1 && 0 <= j < f.len() + 1 && i != j implies #[trigger] f.push(
                x,
            )[i].handle != #[trigger] f.push(x)[j].handle by {
                if i == f.len() || j == f.len() {
                    let k = if i == f.len() {
                        j
                    } else {
                        i
                    };
                    assert(f.contains(f[k]));
                    assert(d.contains(f[k]));
                    let m = choose|m: int| 0 <= m < d.len() && d[m] == f[k];
                    assert(s[m] == d[m]);
                    assert(s[s.len() - 1] == x);
                }
            }
        }
    }
}

/// What registered operations remain, and which were handed back in order,
/// after draining `s` once per frame with each frame's finished handles.
pub open spec fn drained_over(s: Seq<PendingTask>, ticks: Seq<Seq<u64>>) -> (
    Seq<PendingTask>,
    Seq<PendingTask>,
)
    decreases ticks.len(),
{
    if ticks.len() == 0 {
        (s, Seq::<PendingTask>::empty())
    } else {
        let prev = drained_over(s, ticks.drop_last());
        (unfinished_in(prev.0, ticks.last()), prev.1 + finished_in(prev.0, ticks.last()))
    }
}

/// Draining splits the operations in two without losing or repeating any.
proof fn lemma_drain_partitions(s: Seq<PendingTask>, finished: Seq<u64>)
    ensures
        finished_in(s, finished).to_multiset().add(unfinished_in(s, finished).to_multiset())
            =~= s.to_multiset(),
    decreases s.len(),
{
    broadcast use vstd::seq_lib::group_to_multiset_ensures;
    broadcast use vstd::multiset::group_multiset_axioms;

    if s.len() == 0 {
        reveal(Seq::filter);
        assert(finished_in(s, finished) =~= s);
        assert(unfinished_in(s, finished) =~= s);
    } else {
        let d = s.drop_last();
        let x = s.last();
        assert(d.push(x) =~= s);
        d.lemma_filter_push(x, is_finished(finished));
        d.lemma_filter_push(x, is_unfinished(finished));
        lemma_drain_partitions(d, finished);
    }
}

/// Distinct handles make distinct operations.
proof fn lemma_unique_handles_no_duplicates(s: Seq<PendingTask>)
    requires
        unique_handles(s),
    ensures
        s.no_duplicates(),
{
    assert forall|i: int, j: int| 0 <= i < s.len() && 0 <= j < s.len() && i != j implies s[i] != s[j] by {
        assert(s[i].handle != s[j].handle);
    }
}

/// Draining once per frame hands every operation back at most once, and
/// every operation is at all times either handed back or still registered,
/// whatever order the operations finish in. An operation still registered
/// was reported finished in no frame; so once every handle has been
/// reported, each operation has been handed back exactly once.
pub proof fn lemma_drain_each_once(s: Seq<PendingTask>, ticks: Seq<Seq<u64>>)
    requires
        unique_handles(s),
    ensures
        ({
            let (rest, got) = drained_over(s, ticks);
            &&& got.to_multiset().add(rest.to_multiset()) =~= s.to_multiset()
            &&& forall|t: PendingTask| #[trigger] got.to_multiset().count(t) <= 1
            &&& forall|t: PendingTask, k: int|
                #[trigger] rest.contains(t) && 0 <= k < ticks.len() ==> !(#[trigger] ticks[k]).contains(
                    t.handle,
                )
            &&& (forall|t: PendingTask|
                s.contains(t) ==> exists|k: int|
                    0 <= k < ticks.len() && (#[trigger] ticks[k]).contains(t.handle)) ==> {
                &&& rest.len() == 0
                &&& got.len() == s.len()
                &&& forall|t: PendingTask| s.contains(t) ==> #[trigger] got.to_multiset().count(t) == 1
            }
        }),
    decreases ticks.len(),
{
    broadcast use vstd::seq_lib::group_to_multiset_ensures;
    broadcast use vstd::multiset::group_multiset_axioms;
    broadcast use vstd::seq_lib::lemma_multiset_commutative;
    broadcast use Seq::lemma_filter_contains_rev;

    lemma_unique_handles_no_duplicates(s);
    s.lemma_multiset_has_no_duplicates();
    let (rest, got) = drained_over(s, ticks);
    if ticks.len() == 0 {
    } else {
        let init = ticks.drop_last();
        let f = ticks.last();
        lemma_drain_each_once(s, init);
        let (r0, g0) = drained_over(s, init);
        lemma_drain_partitions(r0, f);
        assert(got.to_multiset() =~= g0.to_multiset().add(finished_in(r0, f).to_multiset()));
        assert(got.to_multiset().add(rest.to_multiset()) =~= s.to_multiset());
        assert forall|t: PendingTask, k: int|
            #[trigger] rest.contains(t) && 0 <= k < ticks.len() implies !(#[trigger] ticks[k]).contains(
                t.handle,
            ) by {
            assert(r0.contains(t));
            let i = choose|i: int| 0 <= i < rest.len() && rest[i] == t;
            r0.lemma_filter_pred(is_unfinished(f), i);
            if k < init.len() {
                assert(init[k] == ticks[k]);
            }
        }
    }
    assert forall|t: PendingTask| #[trigger] got.to_multiset().count(t) <= 1 by {
        if got.to_multiset().count(t) > 0 {
            assert(s.to_multiset().count(t) > 0);
        }
    }
    if forall|t: PendingTask|
        s.contains(t) ==> exists|k: int| 0 <= k < ticks.len() && (#[trigger] ticks[k]).contains(t.handle) {
        if rest.len() > 0 {
            let t = rest[0];
            assert(rest.contains(t));
            assert(rest.to_multiset().count(t) > 0);
            assert(s.to_multiset().count(t) > 0);
            assert(s.contains(t));
            let k = choose|k: int| 0 <= k < ticks.len() && (#[trigger] ticks[k]).contains(t.handle);
        }
        assert(rest.to_multiset() =~= Multiset::<PendingTask>::empty());
        assert(got.to_multiset() =~= s.to_multiset());
        assert(got.len() == got.to_multiset().len());
        assert(s.len() == s.to_multiset().len());
        assert forall|t: PendingTask| s.contains(t) implies #[trigger] got.to_multiset().count(t) == 1 by {
            assert(s.to_multiset().contains(t));
        }
    }
}

/// Once the operation under `handle` is retired, no operation is registered
/// under that handle any more: reporting it again finds nothing.
pub proof fn lemma_retired_handle_is_gone(s: Seq<PendingTask>, handle: u64)
    requires
        unique_handles(s),
        handles_of(s).contains(handle),
    ensures
        !handles_of(without(s, handle)).contains(handle),
        without(s, handle).len() == s.len() - 1,
{
    let k = choose|k: int| 0 <= k < s.len() && handles_of(s)[k] == handle;
    assert(s[k].handle == handle);
    let j = position_of(s, handle);
    let w = without(s, handle);
    s.remove_ensures(j);
    if handles_of(w).contains(handle) {
        let m = choose|m: int| 0 <= m < w.len() && handles_of(w)[m] == handle;
        let m2 = if m < j {
            m
        } else {
            m + 1
        };
        assert(w[m] == s[m2]);
        assert(s[m2].handle == s[j].handle);
    }
}

impl TaskRegistry {
    pub closed spec fn pending_view(&self) -> Seq<PendingTask> {
        self.pending@
    }

    pub closed spec fn next_handle_view(&self) -> u64 {
        self.next_handle
    }

    /// Handles are unique and every handle given out so far is below the next one.
    pub open spec fn wf(&self) -> bool {
        &&& unique_handles(self.pending_view())
        &&& forall|i: int|
            0 <= i < self.pending_view().len() ==> #[trigger] self.pending_view()[i].handle
                < self.next_handle_view()
    }

    /// Room for `n` more handles.
    pub open spec fn has_room(&self, n: nat) -> bool {
        self.next_handle_view() + n <= u64::MAX
    }

    pub fn new() -> (r: TaskRegistry)
        ensures
            r.wf(),
            r.pending_view() == Seq::<PendingTask>::empty(),
            r.next_handle_view() == 0,
    {
        TaskRegistry { next_handle: 0, pending: Vec::new() }
    }

    /// Registers an operation under a fresh handle and returns the handle.
    pub fn enqueue(&mut self, kind: TaskKind) -> (h: u64)
        requires
            old(self).wf(),
            old(self).has_room(1),
        ensures
            final(self).wf(),
            h == old(self).next_handle_view(),
            final(self).next_handle_view() == h + 1,
            !handles_of(old(self).pending_view()).contains(h),
            final(self).pending_view() == old(self).pending_view().push(
                PendingTask { handle: h, kind },
            ),
    {
        let h = self.next_handle;
        proof {
            if handles_of(self.pending@).contains(h) {
                let k = choose|k: int| 0 <= k < self.pending@.len() && handles_of(self.pending@)[k] == h;
                assert(self.pending@[k].handle < self.next_handle);
            }
        }
        self.pending.push(PendingTask { handle: h, kind });
        self.next_handle = h + 1;
        h
    }

    /// The handle that the next enqueued operation gets.
    pub fn next_handle(&self) -> (r: u64)
        ensures
            r == self.next_handle_view(),
    {
        self.next_handle
    }

    /// The number of operations not yet retired.
    pub fn len(&self) -> (r: usize)
        ensures
            r == self.pending_view().len(),
    {
        self.pending.len()
    }

    /// The `i`-th operation not yet retired, in order of enqueueing.
    pub fn task_at(&self, i: usize) -> (r: &PendingTask)
        requires
            i < self.pending_view().len(),
        ensures
            *r == self.pending_view()[i as int],
    {
        &self.pending[i]
    }

    /// Retires the operation registered under `handle`, if any, and returns
    /// its kind. Once retired, a handle is never handed back again.
    pub fn retire(&mut self, handle: u64) -> (r: Option<TaskKind>)
        requires
            old(self).wf(),
        ensures
            final(self).wf(),
            final(self).next_handle_view() == old(self).next_handle_view(),
            match r {
                Some(kind) => {
                    &&& handles_of(old(self).pending_view()).contains(handle)
                    &&& kind == registered_kind(old(self).pending_view(), handle)
                    &&& final(self).pending_view() == without(old(self).pending_view(), handle)
                },
                None => {
                    &&& !handles_of(old(self).pending_view()).contains(handle)
                    &&& final(self).pending_view() == old(self).pending_view()
                },
            },
    {
        let mut j: usize = 0;
        while j < self.pending.len()
            invariant
                j <= self.pending@.len(),
                self.pending@ == old(self).pending@,
                self.next_handle == old(self).next_handle,
                old(self).wf(),
                forall|k: int| 0 <= k < j ==> #[trigger] self.pending@[k].handle != handle,
            decreases self.pending@.len() - j,
        {
            if self.pending[j].handle == handle {
                let ghost before = self.pending@;
                let t = self.pending.remove(j);
                proof {
                    before.remove_ensures(j as int);
                    assert(unique_handles(before));
                    assert(before[j as int].handle == handle);
                    let p = position_of(before, handle);
                    assert(p == j);
                    assert(handles_of(before)[j as int] == handle);
                    assert forall|a: int, b: int|
                        0 <= a < self.pending@.len() && 0 <= b < self.pending@.len() && a != b
                        implies #[trigger] self.pending@[a].handle != #[trigger] self.pending@[b].handle by {
                        let a2 = if a < j { a } else { a + 1 };
                        let b2 = if b < j { b } else { b + 1 };
                        assert(self.pending@[a] == before[a2]);
                        assert(self.pending@[b] == before[b2]);
                    }
                    assert forall|k: int| 0 <= k < self.pending@.len() implies #[trigger] self.pending@[k].handle
                        < self.next_handle by {
                        let k2 = if k < j { k } else { k + 1 };
                        assert(self.pending@[k] == before[k2]);
                    }
                }
                return Some(t.kind);
            }
            j = j + 1;
        }
        proof {
            if handles_of(self.pending@).contains(handle) {
                let k = choose|k: int| 0 <= k < self.pending@.len() && handles_of(self.pending@)[k] == handle;
                assert(self.pending@[k].handle == handle);
            }
        }
        None
    }

    /// Retires every registered operation whose handle is among `finished`
    /// and returns them, in order of enqueueing. The others stay, in order.
    /// A handle that is not registered, or no longer, is ignored.
    pub fn drain_completed(&mut self, finished: &Vec<u64>) -> (done: Vec<PendingTask>)
        requires
            old(self).wf(),
        ensures
            final(self).wf(),
            final(self).next_handle_view() == old(self).next_handle_view(),
            done@ == finished_in(old(self).pending_view(), finished@),
            final(self).pending_view() == unfinished_in(old(self).pending_view(), finished@),
    {
        let ghost old_pending = self.pending@;
        let ghost fin = finished@;
        let mut rest: Vec<PendingTask> = Vec::new();
        std::mem::swap(&mut rest, &mut self.pending);
        let mut done: Vec<PendingTask> = Vec::new();
        let mut kept: Vec<PendingTask> = Vec::new();
        let ghost mut i: int = 0;
        while rest.len() > 0
            invariant
                0 <= i <= old_pending.len(),
                rest@ == old_pending.skip(i),
                done@ == finished_in(old_pending.take(i), fin),
                kept@ == unfinished_in(old_pending.take(i), fin),
                fin == finished@,
            decreases rest@.len(),
        {
            let t = rest.remove(0);
            assert(t == old_pending[i]);
            assert(old_pending.take(i + 1) =~= old_pending.take(i).push(t));
            assert(rest@ =~= old_pending.skip(i + 1));
            let is_done = contains_handle(finished, t.handle);
            proof {
                old_pending.take(i).lemma_filter_push(t, is_finished(fin));
                old_pending.take(i).lemma_filter_push(t, is_unfinished(fin));
            }
            if is_done {
                done.push(t);
            } else {
                kept.push(t);
            }
            proof {
                i = i + 1;
            }
        }
        assert(old_pending.take(i) =~= old_pending);
        self.pending = kept;
        proof {
            lemma_filter_keeps_handles(old_pending, is_unfinished(fin));
            assert forall|k: int| 0 <= k < self.pending@.len() implies #[trigger] self.pending@[k].handle
                < self.next_handle by {
                assert(self.pending@ == old_pending.filter(is_unfinished(fin)));
                assert(old_pending.filter(is_unfinished(fin)).contains(self.pending@[k]));
                assert(old_pending.contains(self.pending@[k]));
                let m = choose|m: int| 0 <= m < old_pending.len() && old_pending[m] == self.pending@[k];
            }
        }
        done
    }
}

} // verus!
