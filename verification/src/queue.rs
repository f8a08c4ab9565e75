//! The windows' event queues, `crossbeam_queue::SegQueue`s of events.
//!
//! `SegQueue` is a first-in first-out queue that many threads may use at
//! once through `&self`. The library only reaches a queue through `&mut`, so
//! no other push or pop can come between the calls below, and each call acts
//! on the queue as a plain sequence.
use vstd::prelude::*;
use crossbeam_queue::SegQueue;
use crate::types::Event;
use crate::queue_test;

verus! {

#[verifier::external_type_specification]
#[verifier::external_body]
#[verifier::reject_recursive_types(T)]
pub struct ExSegQueue<T>(SegQueue<T>);

/// The events held by a queue, oldest first.
pub uninterp spec fn queued_events(q: SegQueue<Event>) -> Seq<Event>;

/// `SegQueue::new`: the queue starts empty.
#[verifier::external_body]
pub(crate) fn new_event_queue() -> (q: SegQueue<Event>)
    ensures
        queued_events(q) == Seq::<Event>::empty(),
{
    SegQueue::new()
}

/// `SegQueue::push`: appends `e` at the tail of the queue.
#[verifier::external_body]
pub(crate) fn push_event(q: &mut SegQueue<Event>, e: Event)
    ensures
        queued_events(*final(q)) == queued_events(*old(q)).push(e),
{
    q.push(e)
}

/// `SegQueue::pop`: removes and returns the head of the queue, or returns
/// `None` and leaves the queue as it was when it is empty.
#[verifier::external_body]
pub(crate) fn pop_event(q: &mut SegQueue<Event>) -> (r: Option<Event>)
    ensures
        queued_events(*old(q)).len() == 0 ==> r is None && queued_events(*final(q))
            == queued_events(*old(q)),
        queued_events(*old(q)).len() > 0 ==> r == Some(queued_events(*old(q))[0])
            && queued_events(*final(q)) == queued_events(*old(q)).drop_first(),
{
    q.pop()
}


/// The events held by a queue of the flat event model, oldest first.
pub uninterp spec fn queued_flat_events(q: SegQueue<queue_test::Event>) -> Seq<queue_test::Event>;

/// `SegQueue::new`: the queue starts empty.
#[verifier::external_body]
pub(crate) fn new_flat_queue() -> (q: SegQueue<queue_test::Event>)
    ensures
        queued_flat_events(q) == Seq::<queue_test::Event>::empty(),
{
    SegQueue::new()
}

/// `SegQueue::push`: appends `e` at the tail of the queue.
#[verifier::external_body]
pub(crate) fn push_flat_event(q: &mut SegQueue<queue_test::Event>, e: queue_test::Event)
    ensures
        queued_flat_events(*final(q)) == queued_flat_events(*old(q)).push(e),
{
    q.push(e)
}

/// `SegQueue::pop`: removes and returns the head of the queue, or returns
/// `None` and leaves the queue as it was when it is empty.
#[verifier::external_body]
pub(crate) fn pop_flat_event(q: &mut SegQueue<queue_test::Event>) -> (r: Option<queue_test::Event>)
    ensures
        queued_flat_events(*old(q)).len() == 0 ==> r is None && queued_flat_events(*final(q))
            == queued_flat_events(*old(q)),
        queued_flat_events(*old(q)).len() > 0 ==> r == Some(queued_flat_events(*old(q))[0])
            && queued_flat_events(*final(q)) == queued_flat_events(*old(q)).drop_first(),
{
    q.pop()
}

} // verus!
