//! Sessions that were used and whose record of last use is yet to be written.

use crate::auth::session::SessionMetadata;
use std::collections::HashMap;
use vstd::prelude::*;

verus! {

broadcast use vstd::std_specs::hash::group_hash_axioms;

/// The touches waiting to be written, at most one for each session: a later
/// touch of a session replaces the earlier one.
pub struct SessionQueue {
    queue: HashMap<i64, SessionMetadata>,
}

impl View for SessionQueue {
    type V = Map<i64, SessionMetadata>;

    closed spec fn view(&self) -> Map<i64, SessionMetadata> {
        self.queue@
    }
}

impl SessionQueue {
    /// A queue in which nothing waits.
    pub fn new() -> (queue: SessionQueue)
        ensures
            queue@ == Map::<i64, SessionMetadata>::empty(),
    {
        SessionQueue { queue: HashMap::new() }
    }

    /// Notes that session `id` was just used. The metadata given last is the
    /// one that waits for that session; other sessions are left as they were.
    pub fn add(&mut self, id: i64, metadata: SessionMetadata)
        ensures
            final(self)@ == old(self)@.insert(id, metadata),
    {
        self.queue.insert(id, metadata);
    }

    /// The number of sessions with a touch waiting.
    pub fn len(&self) -> (n: usize)
        ensures
            n == self@.len(),
    {
        self.queue.len()
    }

    /// Hands out every waiting touch and leaves the queue empty.
    pub fn take(&mut self) -> (taken: HashMap<i64, SessionMetadata>)
        ensures
            taken@ == old(self)@,
            final(self)@ == Map::<i64, SessionMetadata>::empty(),
    {
        let mut taken: HashMap<i64, SessionMetadata> = HashMap::new();
        std::mem::swap(&mut self.queue, &mut taken);
        taken
    }
}

} // verus!
