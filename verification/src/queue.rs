use vstd::prelude::*;
use crossbeam_queue::SegQueue;
use crate::connection::GnsConnectionEvent;

verus! {

#[verifier::external_type_specification]
#[verifier::external_body]
#[verifier::reject_recursive_types(T)]
pub struct ExSegQueue<T>(SegQueue<T>);

/// The queue into which the connection-status hook pushes events and from which
/// the socket pops them.
pub type EventQueue = SegQueue<GnsConnectionEvent>;

/// `SegQueue::new`: a fresh, empty queue.
///
/// Nothing is stated of the result: the queue is shared with the hook, which may push
/// into it at any time through a shared reference, so no contract of this crate
/// speaks of its contents.
#[verifier::external_body]
pub(crate) fn new_event_queue() -> (r: Box<EventQueue>) {
    Box::new(SegQueue::new())
}

/// `SegQueue::pop`: takes the oldest event, or `None` when the queue is empty.
///
/// What comes back depends on what the hook pushed in the meantime, so nothing is
/// stated of it.
#[verifier::external_body]
pub(crate) fn pop_event(queue: &EventQueue) -> (r: Option<GnsConnectionEvent>) {
    queue.pop()
}

} // verus!
