//! Sessions and what a request says of its sender.

use crate::time::Timestamp;
use vstd::prelude::*;

verus! {

/// A session as the session store keeps it: its own id, the id of the user
/// it belongs to, and the instant at which it runs out.
#[derive(Clone, Copy, Debug, PartialEq, Eq, Structural)]
pub struct Session {
    pub id: i64,
    pub user_id: i64,
    pub expires: Timestamp,
}

impl Session {
    /// A session authenticates at `now` only while its expiry lies strictly
    /// after `now`.
    pub open spec fn valid_at(self, now: Timestamp) -> bool {
        now.before(self.expires)
    }

    /// Decides whether the session still authenticates at `now`.
    pub fn is_valid_at(&self, now: &Timestamp) -> (b: bool)
        ensures
            b == self.valid_at(*now),
    {
        now.is_before(&self.expires)
    }
}

/// What a request tells of its sender, kept with the session it used.
#[derive(Clone, Debug, PartialEq, Eq)]
pub struct SessionMetadata {
    pub ip: String,
    pub user_agent: String,
}

} // verus!
