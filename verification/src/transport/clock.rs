//! Delivery of frames at their presentation time.
use vstd::prelude::*;

use crate::frames::{EnvelopeView, Frame, FrameEnvelope};

verus! {

/// The presentation time by which an envelope is ordered.
pub open spec fn due_time(e: EnvelopeView) -> u64 {
    match e.pts {
        Some(pts) => pts,
        None => 0,
    }
}

/// Whether one envelope goes before another: by presentation time, then by id.
pub open spec fn goes_before(a: EnvelopeView, b: EnvelopeView) -> bool {
    due_time(a) < due_time(b) || (due_time(a) == due_time(b) && a.id < b.id)
}

/// Whether no envelope goes before one that stands ahead of it.
pub open spec fn in_order(queue: Seq<EnvelopeView>) -> bool {
    forall|i: int, j: int| 0 <= i < j < queue.len() ==> !goes_before(queue[j], queue[i])
}

/// The envelopes in a list.
pub open spec fn envelopes_of(list: Seq<FrameEnvelope>) -> Seq<EnvelopeView> {
    list.map_values(|e: FrameEnvelope| e@)
}

/// Where an envelope belongs in an ordered queue: behind all that do not go
/// after it, looking at the first `n`.
pub open spec fn place(queue: Seq<EnvelopeView>, e: EnvelopeView, n: nat) -> nat
    decreases n,
{
    if n == 0 || !goes_before(e, queue[n - 1]) {
        n
    } else {
        place(queue, e, (n - 1) as nat)
    }
}

/// A queue with one more envelope in its place.
pub open spec fn merged(queue: Seq<EnvelopeView>, e: EnvelopeView) -> Seq<EnvelopeView> {
    queue.insert(place(queue, e, queue.len()) as int, e)
}

/// How many envelopes at the head of a queue are due once `elapsed` has passed.
pub open spec fn due_count(queue: Seq<EnvelopeView>, elapsed: u64) -> nat
    decreases queue.len(),
{
    if queue.len() == 0 || due_time(queue[0]) > elapsed {
        0
    } else {
        1 + due_count(queue.skip(1), elapsed)
    }
}

proof fn lemma_place(queue: Seq<EnvelopeView>, e: EnvelopeView, n: nat)
    requires
        n <= queue.len(),
        in_order(queue),
    ensures
        place(queue, e, n) <= n,
        forall|i: int| 0 <= i < place(queue, e, n) ==> !goes_before(e, #[trigger] queue[i]),
        forall|i: int| place(queue, e, n) <= i < n ==> goes_before(e, #[trigger] queue[i]),
    decreases n,
{
    if n > 0 && goes_before(e, queue[n - 1]) {
        lemma_place(queue, e, (n - 1) as nat);
    } else if n > 0 {
        assert forall|i: int| 0 <= i < n implies !goes_before(e, #[trigger] queue[i]) by {
            if i < n - 1 {
                assert(!goes_before(queue[n - 1], queue[i]));
            }
        }
    }
}

/// Merging keeps a queue in order and loses no envelope.
pub proof fn lemma_merging_keeps_order(queue: Seq<EnvelopeView>, e: EnvelopeView)
    requires
        in_order(queue),
    ensures
        in_order(merged(queue, e)),
        merged(queue, e).to_multiset() == queue.to_multiset().insert(e),
{
    broadcast use vstd::seq_lib::group_to_multiset_ensures;

    lemma_place(queue, e, queue.len());
    let k = place(queue, e, queue.len()) as int;
    let all = merged(queue, e);
    assert forall|i: int, j: int| 0 <= i < j < all.len() implies !goes_before(all[j], all[i]) by {
        if i < k && j == k {
            assert(!goes_before(e, queue[i]));
        } else if i == k {
            assert(goes_before(e, queue[j - 1]));
        }
    }
}

/// Delivers frames at their presentation timestamp.
///
/// Frames are kept ordered by presentation time. The earliest one is delivered
/// once its time, counted from the start of the queue, has come. Frames that
/// arrive meanwhile are merged in.
#[derive(Debug)]
pub struct ClockQueue {
    start_time: u64,
    queue: Vec<FrameEnvelope>,
    done: bool,
}

/// The state of a [`ClockQueue`].
pub struct ClockModel {
    pub start_time: u64,
    pub queue: Seq<EnvelopeView>,
    /// Whether the queue has come to its end.
    pub done: bool,
}

impl View for ClockQueue {
    type V = ClockModel;

    closed spec fn view(&self) -> ClockModel {
        ClockModel {
            start_time: self.start_time,
            queue: envelopes_of(self.queue@),
            done: self.done,
        }
    }
}

impl ClockQueue {
    /// The queue is in order.
    pub open spec fn wf(&self) -> bool {
        in_order(self@.queue)
    }

    pub fn new(now: u64) -> (r: Self)
        ensures
            r.wf(),
            r@ == (ClockModel { start_time: now, queue: Seq::empty(), done: false }),
    {
        let r = ClockQueue { start_time: now, queue: Vec::new(), done: false };
        proof {
            assert(envelopes_of(r.queue@) =~= Seq::empty());
        }
        r
    }

    /// Whether the queue has come to its end.
    pub fn is_done(&self) -> (r: bool)
        ensures
            r == self@.done,
    {
        self.done
    }

    /// When the earliest frame is due, if there is one.
    pub fn next_due(&self) -> (r: Option<u64>)
        ensures
            r == if self@.queue.len() == 0 {
                None::<u64>
            } else if self@.start_time + due_time(self@.queue[0]) <= u64::MAX {
                Some((self@.start_time + due_time(self@.queue[0])) as u64)
            } else {
                Some(u64::MAX)
            },
    {
        if self.queue.len() == 0 {
            return None;
        }
        let pts: u64 = envelope_due(&self.queue[0]);
        if pts <= u64::MAX - self.start_time {
            Some(self.start_time + pts)
        } else {
            Some(u64::MAX)
        }
    }

    /// A frame arrives. An end frame ends the queue: what is left in it is
    /// delivered at once, in order.
    pub fn receive(&mut self, envelope: FrameEnvelope) -> (r: Vec<FrameEnvelope>)
        requires
            old(self).wf(),
        ensures
            final(self).wf(),
            if envelope@.frame is End {
                &&& final(self)@ == ClockModel { queue: Seq::empty(), done: true, ..old(self)@ }
                &&& envelopes_of(r@) == old(self)@.queue
            } else {
                &&& final(self)@ == ClockModel {
                    queue: merged(old(self)@.queue, envelope@),
                    ..old(self)@
                }
                &&& r@.len() == 0
                &&& final(self)@.queue.to_multiset() == old(self)@.queue.to_multiset().insert(
                    envelope@,
                )
            },
    {
        let ghost pre = self@.queue;
        let mut out: Vec<FrameEnvelope> = Vec::new();
        if matches!(envelope.frame, Frame::End) {
            self.done = true;
            out.append(&mut self.queue);
            proof {
                assert(envelopes_of(out@) =~= pre);
                assert(self@.queue =~= Seq::empty());
            }
            return out;
        }
        let ghost e = envelope@;
        let mut n: usize = self.queue.len();
        while n > 0 && precedes(&envelope, &self.queue[n - 1])
            invariant
                n <= self.queue@.len(),
                pre == envelopes_of(self.queue@),
                e == envelope@,
                place(pre, e, pre.len()) == place(pre, e, n as nat),
            decreases n,
        {
            assert(pre[n - 1] == self.queue@[n - 1]@);
            n = n - 1;
        }
        self.queue.insert(n, envelope);
        proof {
            lemma_place(pre, e, pre.len());
            assert(n > 0 ==> pre[n - 1] == self.queue@[n - 1]@);
            assert(self@.queue =~= merged(pre, e));
            lemma_merging_keeps_order(pre, e);
        }
        out
    }

    /// Takes the frames that are due at `now`, in order.
    pub fn deliver_due(&mut self, now: u64) -> (r: Vec<FrameEnvelope>)
        requires
            old(self).wf(),
        ensures
            final(self).wf(),
            ({
                let elapsed = if now >= old(self)@.start_time {
                    (now - old(self)@.start_time) as u64
                } else {
                    0
                };
                let n = due_count(old(self)@.queue, elapsed) as int;
                &&& envelopes_of(r@) == old(self)@.queue.take(n)
                &&& final(self)@ == ClockModel { queue: old(self)@.queue.skip(n), ..old(self)@ }
            }),
            envelopes_of(r@) + final(self)@.queue == old(self)@.queue,
            forall|i: int|
                0 <= i < r@.len() ==> due_time(#[trigger] envelopes_of(r@)[i]) <= now || due_time(
                    envelopes_of(r@)[i],
                ) == 0,
    {
        let elapsed: u64 = if now >= self.start_time {
            now - self.start_time
        } else {
            0
        };
        let ghost pre = self@.queue;
        let mut out: Vec<FrameEnvelope> = Vec::new();
        proof {
            assert(pre.skip(0) =~= pre);
            assert(envelopes_of(out@) =~= pre.take(0));
        }
        while self.queue.len() > 0 && envelope_due(&self.queue[0]) <= elapsed
            invariant
                self.start_time == old(self).start_time,
                self.done == old(self).done,
                out@.len() <= pre.len(),
                envelopes_of(self.queue@) == pre.skip(out@.len() as int),
                envelopes_of(out@) == pre.take(out@.len() as int),
                due_count(pre, elapsed) == out@.len() + due_count(
                    pre.skip(out@.len() as int),
                    elapsed,
                ),
            decreases self.queue@.len(),
        {
            let ghost before = envelopes_of(self.queue@);
            let ghost k = out@.len() as int;
            assert(before[0] == self.queue@[0]@);
            assert(before.len() == self.queue@.len());
            let envelope = self.queue.remove(0);
            proof {
                assert(envelopes_of(self.queue@) =~= before.skip(1));
                assert(before.skip(1) =~= pre.skip(k + 1));
                assert(pre[k] == before[0]);
            }
            out.push(envelope);
            proof {
                assert(envelopes_of(out@) =~= pre.take(k).push(pre[k]));
                assert(pre.take(k).push(pre[k]) =~= pre.take(k + 1));
            }
        }
        proof {
            let n = out@.len() as int;
            if self.queue@.len() > 0 {
                assert(envelopes_of(self.queue@)[0] == self.queue@[0]@);
            }
            assert(due_count(pre.skip(n), elapsed) == 0);
            assert(self@.queue == pre.skip(n));
            assert(pre.take(n) + pre.skip(n) =~= pre);
            lemma_delivery_in_order(pre, elapsed);
            assert forall|i: int| 0 <= i < out@.len() implies due_time(
                #[trigger] envelopes_of(out@)[i],
            ) <= elapsed by {
                assert(envelopes_of(out@)[i] == pre[i]);
            }
            assert forall|i: int, j: int| 0 <= i < j < pre.skip(n).len() implies !goes_before(
                pre.skip(n)[j],
                pre.skip(n)[i],
            ) by {
                assert(!goes_before(pre[n + j], pre[n + i]));
            }
        }
        out
    }

    /// The source of frames is gone: the queue ends, and what is left in it is
    /// dropped.
    pub fn close(&mut self)
        ensures
            final(self).wf(),
            final(self)@ == (ClockModel { queue: Seq::empty(), done: true, ..old(self)@ }),
    {
        self.done = true;
        self.queue.clear();
        proof {
            assert(self@.queue =~= Seq::empty());
        }
    }
}

/// The presentation time by which an envelope is ordered.
fn envelope_due(e: &FrameEnvelope) -> (r: u64)
    ensures
        r == due_time(e@),
{
    match e.pts {
        Some(pts) => pts,
        None => 0,
    }
}

/// Whether one envelope goes before another.
fn precedes(a: &FrameEnvelope, b: &FrameEnvelope) -> (r: bool)
    ensures
        r == goes_before(a@, b@),
{
    let x: u64 = envelope_due(a);
    let y: u64 = envelope_due(b);
    x < y || (x == y && a.id < b.id)
}

/// Frames leave the queue in the order of their presentation times: none that
/// stays goes before one that is delivered.
pub proof fn lemma_delivery_in_order(queue: Seq<EnvelopeView>, elapsed: u64)
    requires
        in_order(queue),
    ensures
        due_count(queue, elapsed) <= queue.len(),
        forall|i: int|
            0 <= i < due_count(queue, elapsed) ==> due_time(#[trigger] queue[i]) <= elapsed,
        forall|i: int|
            due_count(queue, elapsed) <= i < queue.len() ==> due_time(#[trigger] queue[i])
                > elapsed,
    decreases queue.len(),
{
    if queue.len() > 0 {
        let rest = queue.skip(1);
        assert forall|i: int, j: int| 0 <= i < j < rest.len() implies !goes_before(
            rest[j],
            rest[i],
        ) by {
            assert(!goes_before(queue[j + 1], queue[i + 1]));
        }
        lemma_delivery_in_order(rest, elapsed);
        if due_time(queue[0]) <= elapsed {
            assert forall|i: int| 0 <= i < due_count(queue, elapsed) implies due_time(
                #[trigger] queue[i],
            ) <= elapsed by {
                if i > 0 {
                    assert(queue[i] == rest[i - 1]);
                }
            }
            assert forall|i: int| due_count(queue, elapsed) <= i < queue.len() implies due_time(
                #[trigger] queue[i],
            ) > elapsed by {
                assert(queue[i] == rest[i - 1]);
            }
        } else {
            assert forall|i: int| 0 <= i < queue.len() implies due_time(#[trigger] queue[i])
                > elapsed by {
                if i > 0 {
                    assert(!goes_before(queue[i], queue[0]));
                }
            }
        }
    }
}

} // verus!
