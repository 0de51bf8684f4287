//! Dispatching that waits for the connection: the blocking dispatch and the
//! roundtrip, each as steps between which the caller does the reading.
//!
//! The queue never touches the connection. Where a step needs events that
//! have not been read yet, it says so; the caller flushes its requests, reads
//! once from the connection, which hands the events that came to their
//! capability objects, and calls again with the outcome.

use vstd::prelude::*;

use crate::barrier::SyncData;
use crate::channel::QueueEvent;
use crate::dispatch::{dispatched, Dispatch};
use crate::error::{DispatchError, WaylandError};
use crate::queue::{EventQueue, QueueHandle};

verus! {

/// What the caller of a step has to do next.
#[derive(Debug, PartialEq, Eq)]
pub enum Next {
    /// Flush the requests, read once from the connection, waiting for it if
    /// need be, and call again with the outcome.
    Read,
    /// Call again; nothing is to be done in between.
    Repeat,
    /// Nothing: this is the result.
    Finished(Result<usize, DispatchError>),
}

/// What happened since the last step of a roundtrip.
#[derive(Debug, PartialEq, Eq)]
pub enum Progress {
    /// The synchronisation request was sent, or (`false`) could not be.
    Sent(bool),
    /// The read that the last step asked for ended so.
    Read(Result<(), WaylandError>),
    /// Nothing: the last step asked to be called again.
    Repeated,
}

/// A roundtrip under way: its barrier, and the events dispatched so far.
#[derive(Debug)]
pub struct Roundtrip {
    barrier: SyncData,
    dispatched: usize,
}

/// `a + b`, or `usize::MAX` where that is less.
pub open spec fn sat_add(a: usize, b: usize) -> usize {
    if a + b > usize::MAX {
        usize::MAX
    } else {
        (a + b) as usize
    }
}

fn add_saturating(a: usize, b: usize) -> (r: usize)
    ensures
        r == sat_add(a, b),
{
    if b > usize::MAX - a {
        usize::MAX
    } else {
        a + b
    }
}

impl Roundtrip {
    /// The number of events dispatched so far.
    pub closed spec fn dispatched(self) -> usize {
        self.dispatched
    }

    /// A roundtrip that has dispatched nothing, with a barrier that the peer
    /// has not answered. The caller sends the synchronisation request on the
    /// root object, with `barrier()` as the capability object of its callback,
    /// and goes on with `EventQueue::roundtrip`.
    pub fn new() -> (rt: Self)
        ensures
            rt.dispatched() == 0,
    {
        Roundtrip { barrier: SyncData::new(), dispatched: 0 }
    }

    /// The barrier that this roundtrip waits for.
    pub closed spec fn own_barrier(self) -> SyncData {
        self.barrier
    }

    /// The barrier, to be bound to the callback of the request: the one that
    /// this roundtrip waits for, sharing its flag.
    pub fn barrier(&self) -> (b: SyncData)
        ensures
            b == self.own_barrier(),
    {
        self.barrier.clone()
    }
}

/// Whether a blocking dispatch that was told `read`, on a queue known to hold
/// `before` with the state `pre` and the handle `qhandle`, may answer `next`
/// and leave `after` and `post`.
///
/// Told nothing, it dispatches what is pending; where that handled no event
/// it asks for a read. Told that the read went well, it dispatches again and
/// is finished, whatever that handled. Told that the read failed, it fails with that
/// error and touches nothing.
pub open spec fn blocked<State: Dispatch>(
    before: Seq<QueueEvent>,
    pre: State,
    qhandle: QueueHandle<State>,
    read: Option<Result<(), WaylandError>>,
    next: Next,
    after: Seq<QueueEvent>,
    post: State,
) -> bool {
    match read {
        None => match next {
            Next::Read => dispatched(before, pre, qhandle, Ok(0), after, post),
            Next::Finished(r) => r != Ok::<usize, DispatchError>(0) && dispatched(
                before,
                pre,
                qhandle,
                r,
                after,
                post,
            ),
            Next::Repeat => false,
        },
        Some(Ok(_)) => match next {
            Next::Finished(r) => dispatched(before, pre, qhandle, r, after, post),
            _ => false,
        },
        Some(Err(e)) => next == Next::Finished(Err(DispatchError::Backend(e))) && after == before
            && post == pre,
    }
}

/// Whether a step of a roundtrip that has dispatched `total` events, told
/// `progress` and finding the barrier answered or not (`done`), on a queue
/// known to hold `before` with the state `pre` and the handle `qhandle`, may
/// answer `next` and leave `after`, `post` and the count `total_after`.
///
/// A request that could not be sent ends the roundtrip with a broken pipe, a
/// read that failed with its error, and an event that was refused with its
/// error. After a read what is pending is dispatched and the step asks to be
/// called again. Else, where the barrier is answered the roundtrip is
/// finished, with the count; where it is not, what is pending is dispatched,
/// and the step asks for a read where that handled nothing, and to be called
/// again where it handled something. The count grows by what each dispatch
/// handled, and stops at `usize::MAX`.
pub open spec fn stepped<State: Dispatch>(
    before: Seq<QueueEvent>,
    pre: State,
    qhandle: QueueHandle<State>,
    total: usize,
    progress: Progress,
    done: bool,
    next: Next,
    after: Seq<QueueEvent>,
    post: State,
    total_after: usize,
) -> bool {
    let untouched = after == before && post == pre && total_after == total;
    match progress {
        Progress::Sent(false) => untouched && match next {
            Next::Finished(Err(DispatchError::Backend(e))) => e is Io,
            _ => false,
        },
        Progress::Read(Err(e)) => untouched && next == Next::Finished(
            Err(DispatchError::Backend(e)),
        ),
        Progress::Read(Ok(_)) => match next {
            Next::Repeat => exists|n: usize|
                (#[trigger] dispatched(before, pre, qhandle, Ok(n), after, post)) && total_after
                    == sat_add(total, n),
            Next::Finished(r) => r is Err && dispatched(before, pre, qhandle, r, after, post)
                && total_after == total,
            Next::Read => false,
        },
        _ => if done {
            untouched && next == Next::Finished(Ok(total))
        } else {
            match next {
                Next::Read => dispatched(before, pre, qhandle, Ok(0), after, post)
                    && total_after == total,
                Next::Repeat => exists|n: usize|
                    (#[trigger] dispatched(before, pre, qhandle, Ok(n), after, post)) && n > 0
                        && total_after == sat_add(total, n),
                Next::Finished(r) => r is Err && dispatched(before, pre, qhandle, r, after, post)
                    && total_after == total,
            }
        },
    }
}

impl<State: Dispatch> EventQueue<State> {
    /// One step of a dispatch that waits for events where none is pending.
    ///
    /// The first call is told `None`. Where it asks for a read, the caller
    /// reads and calls once more, with the outcome of the read; that call
    /// finishes.
    pub fn blocking_dispatch(
        &mut self,
        data: &mut State,
        read: Option<Result<(), WaylandError>>,
    ) -> (next: Next)
        ensures
            blocked(
                old(self).pending(),
                *old(data),
                old(self).own_handle(),
                read,
                next,
                final(self).pending(),
                *final(data),
            ),
            final(self).own_handle() == old(self).own_handle(),
            old(self).ended() ==> final(self).ended(),
    {
        match read {
            None => {
                let r = self.dispatch_pending(data);
                match r {
                    Ok(0) => Next::Read,
                    _ => Next::Finished(r),
                }
            },
            Some(Ok(_)) => Next::Finished(self.dispatch_pending(data)),
            Some(Err(e)) => Next::Finished(Err(DispatchError::Backend(e))),
        }
    }

    /// One step of a roundtrip, for a given state of the barrier.
    pub fn roundtrip_step(
        &mut self,
        data: &mut State,
        rt: &mut Roundtrip,
        progress: Progress,
        done: bool,
    ) -> (next: Next)
        ensures
            stepped(
                old(self).pending(),
                *old(data),
                old(self).own_handle(),
                old(rt).dispatched(),
                progress,
                done,
                next,
                final(self).pending(),
                *final(data),
                final(rt).dispatched(),
            ),
            final(self).own_handle() == old(self).own_handle(),
            old(self).ended() ==> final(self).ended(),
            final(rt).own_barrier() == old(rt).own_barrier(),
    {
        match progress {
            Progress::Sent(false) => Next::Finished(
                Err(DispatchError::Backend(WaylandError::connection_gone())),
            ),
            Progress::Read(Err(e)) => Next::Finished(Err(DispatchError::Backend(e))),
            Progress::Read(Ok(_)) => {
                match self.dispatch_pending(data) {
                    Ok(n) => {
                        rt.dispatched = add_saturating(rt.dispatched, n);
                        Next::Repeat
                    },
                    Err(e) => Next::Finished(Err(e)),
                }
            },
            _ => {
                if done {
                    return Next::Finished(Ok(rt.dispatched));
                }
                match self.dispatch_pending(data) {
                    Ok(0) => Next::Read,
                    Ok(n) => {
                        rt.dispatched = add_saturating(rt.dispatched, n);
                        Next::Repeat
                    },
                    Err(e) => Next::Finished(Err(e)),
                }
            },
        }
    }

    /// One step of a roundtrip: a wait until the peer has handled every
    /// request sent before it, dispatching what comes meanwhile.
    ///
    /// The caller makes a `Roundtrip`, sends the synchronisation request with
    /// its barrier, and calls this with `Progress::Sent`; then it does what
    /// each answer asks and calls again, until the answer is
    /// `Next::Finished`, which holds the number of events dispatched. Each
    /// call looks at the barrier once and then does what `roundtrip_step` does
    /// for what it saw.
    pub fn roundtrip(&mut self, data: &mut State, rt: &mut Roundtrip, progress: Progress) -> (next:
        Next)
        ensures
            exists|done: bool| #[trigger]
                stepped(
                    old(self).pending(),
                    *old(data),
                    old(self).own_handle(),
                    old(rt).dispatched(),
                    progress,
                    done,
                    next,
                    final(self).pending(),
                    *final(data),
                    final(rt).dispatched(),
                ),
            final(self).own_handle() == old(self).own_handle(),
            old(self).ended() ==> final(self).ended(),
            final(rt).own_barrier() == old(rt).own_barrier(),
    {
        let done = rt.barrier.is_done();
        self.roundtrip_step(data, rt, progress, done)
    }
}

} // verus!
