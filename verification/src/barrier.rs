//! The barrier of a roundtrip: a flag that the peer's reply sets.

use std::sync::atomic::{AtomicBool, Ordering};
use std::sync::Arc;
use vstd::prelude::*;

use crate::protocol::RawEvent;

verus! {

/// The capability object of the callback of one synchronisation request. The
/// peer answers such a request once it has handled every request before it;
/// the answer sets the flag, which every clone of this value shares.
#[derive(Debug)]
pub struct SyncData {
    done: Arc<AtomicBool>,
}

/// `Arc::clone`: another owner of the same flag. It points to the allocation
/// that `flag` points to, so what it holds is what `flag` holds.
#[verifier::external_body]
fn share(flag: &Arc<AtomicBool>) -> (r: Arc<AtomicBool>)
    ensures
        r == *flag,
{
    Arc::clone(flag)
}

impl Clone for SyncData {
    /// The same barrier once more: the clone shares the flag.
    fn clone(&self) -> (r: Self)
        ensures
            r == *self,
    {
        SyncData { done: share(&self.done) }
    }
}

impl SyncData {
    /// A barrier that the peer has not answered.
    pub fn new() -> Self {
        SyncData { done: Arc::new(AtomicBool::new(false)) }
    }

    /// Takes the peer's answer: sets the flag. The event creates no object and
    /// goes to no queue.
    pub fn event(&self, msg: RawEvent) {
        self.done.store(true, Ordering::Release);
    }

    /// Told that the callback is gone. Nothing is to be done.
    pub fn destroyed(&self, object_id: u32) {
    }

    /// Whether the peer has answered. Another thread may set the flag at any
    /// time; once set it stays set.
    pub fn is_done(&self) -> bool {
        self.done.load(Ordering::Acquire)
    }
}

} // verus!
