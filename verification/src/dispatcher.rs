//! The dispatcher that builds consume queues from the commit log.

use std::sync::Arc;

use vstd::prelude::*;

verus! {

/// Hands what is appended to the commit log on to the store `CQ` of the consume queues.
pub struct CommitLogDispatcherBuildConsumeQueue<CQ> {
    consume_queue_store: Arc<CQ>,
}

impl<CQ> CommitLogDispatcherBuildConsumeQueue<CQ> {
    /// The store of the consume queues.
    pub closed spec fn queues(&self) -> CQ {
        *self.consume_queue_store
    }

    /// A dispatcher for a store.
    pub fn new(consume_queue_store: Arc<CQ>) -> (r: Self)
        ensures
            r.queues() == *consume_queue_store,
    {
        CommitLogDispatcherBuildConsumeQueue { consume_queue_store }
    }

    /// The store of the consume queues.
    pub fn consume_queue_store(&self) -> (r: &Arc<CQ>)
        ensures
            **r == self.queues(),
    {
        &self.consume_queue_store
    }
}

} // verus!
