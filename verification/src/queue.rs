//! The queue of pending events and the handles that feed it.

use futures_channel::mpsc::{UnboundedReceiver, UnboundedSender};
use std::marker::PhantomData;
use std::task::Context;
use vstd::prelude::*;

use crate::channel::{
    clone_sender, count_buffered, ended, event_of, open_channel, pending, poll_receive,
    send_event, takes_front, try_receive, Polled, QueueEvent,
};
use crate::dispatch::{
    agree, called_back, delivered, delivered_push, dispatched, drained, rest, take, Dispatch,
    Taken,
};
use crate::error::DispatchError;
use crate::object_data::QueueProxyData;

verus! {

/// A handle on an event queue, used to bind objects to it when they are made.
/// It may be cloned, moved to other threads, and may outlive the queue.
#[derive(Debug)]
pub struct QueueHandle<State> {
    tx: UnboundedSender<QueueEvent>,
    state: PhantomData<State>,
}

impl<State> Clone for QueueHandle<State> {
    /// Another handle on the same queue.
    fn clone(&self) -> (r: Self)
        ensures
            r == *self,
    {
        QueueHandle { tx: clone_sender(&self.tx), state: PhantomData }
    }
}

impl<State> QueueHandle<State> {
    /// Puts `ev` on the queue; `false` where the queue is gone, and `ev` with
    /// it.
    pub(crate) fn send(&self, ev: QueueEvent) -> bool {
        send_event(&self.tx, ev)
    }

    /// Makes the capability object of an object of interface `interface`,
    /// bound to this handle's queue, with the user data `user_data`.
    pub fn make_data(&self, interface: &str, user_data: u64) -> (r: QueueProxyData<State>)
        ensures
            r.interface_name() == interface@,
            r.bound_to() == *self,
            r.user_data() == user_data,
    {
        QueueProxyData::new(interface, self.clone(), user_data)
    }
}

/// What one step of a poll of the queue came to.
#[derive(Debug, PartialEq, Eq)]
pub enum Polling {
    /// An event was handled: poll again.
    Repeat,
    /// The queue is empty, and the task will be woken when an event comes.
    Pending,
    /// The state refused an event.
    Failed(DispatchError),
    /// The queue is empty and closed: it has ended. A queue keeps a handle on
    /// itself, and a channel with a sending end is not closed by itself.
    Closed,
}

/// Whether `out` may be the outcome of one step of a poll of a queue that was
/// known to hold `before`, with the state `pre` and the handle `qhandle`,
/// leaving the queue with `after`, ended or not, and the state `post`.
///
/// The oldest event is taken and given to the state, which handles or
/// refuses it. Where there is none the state is left alone, and the outcome
/// is `Closed` where the queue has ended and `Pending` where it has not.
pub open spec fn polled<State: Dispatch>(
    before: Seq<QueueEvent>,
    pre: State,
    qhandle: QueueHandle<State>,
    out: Polling,
    after: Seq<QueueEvent>,
    ended_after: bool,
    post: State,
) -> bool {
    match out {
        Polling::Repeat => !ended_after && exists|ev: QueueEvent|
            takes_front(before, Some(ev), after) && #[trigger] called_back(
                pre,
                ev,
                qhandle,
                post,
                Ok(()),
            ),
        Polling::Failed(e) => !ended_after && exists|ev: QueueEvent|
            takes_front(before, Some(ev), after) && #[trigger] called_back(
                pre,
                ev,
                qhandle,
                post,
                Err(e),
            ),
        Polling::Pending => !ended_after && takes_front(before, None, after) && post == pre,
        Polling::Closed => ended_after && takes_front(before, None, after) && post == pre,
    }
}

/// An event taken from the front of the queue extends what was taken so far,
/// and leaves behind it what was left of the events first known.
proof fn took_front(
    before: Seq<QueueEvent>,
    taken: Seq<QueueEvent>,
    held: Seq<QueueEvent>,
    ev: QueueEvent,
    after: Seq<QueueEvent>,
)
    requires
        agree(before, taken),
        rest(before, taken.len() as int).is_prefix_of(held),
        takes_front(held, Some(ev), after),
    ensures
        agree(before, taken.push(ev)),
        rest(before, taken.len() as int + 1).is_prefix_of(after),
        taken.push(ev).drop_last() == taken,
        taken.push(ev).last() == ev,
{
    if taken.len() < before.len() {
        assert(rest(before, taken.len() as int)[0] == held[0]);
        assert(rest(before, taken.len() as int + 1) =~= rest(before, taken.len() as int).skip(1));
    }
    assert(taken.push(ev).drop_last() =~= taken);
}

/// An event queue: the events that the objects bound to it have received and
/// that the application's state has not handled yet, oldest first.
#[derive(Debug)]
pub struct EventQueue<State> {
    rx: UnboundedReceiver<QueueEvent>,
    handle: QueueHandle<State>,
}

impl<State> EventQueue<State> {
    /// The events that the queue was last known to hold, oldest first.
    pub closed spec fn pending(self) -> Seq<QueueEvent> {
        pending(self.rx)
    }

    /// Whether the queue has ended: it was found empty and closed.
    pub closed spec fn ended(self) -> bool {
        ended(self.rx)
    }

    /// The handle that the queue keeps on itself.
    pub closed spec fn own_handle(self) -> QueueHandle<State> {
        self.handle
    }
}

impl<State: Dispatch> EventQueue<State> {
    /// A new queue, which holds nothing.
    pub fn new() -> (q: Self)
        ensures
            q.pending().len() == 0,
            !q.ended(),
    {
        let (tx, rx) = open_channel();
        EventQueue { rx, handle: QueueHandle { tx, state: PhantomData } }
    }

    /// A handle on this queue: a clone of the one that the queue keeps on
    /// itself, so that what is sent through it comes to this queue.
    pub fn handle(&self) -> (h: QueueHandle<State>)
        ensures
            h == self.own_handle(),
    {
        self.handle.clone()
    }

    /// Dispatches at most `limit` of the pending events: takes them off the
    /// queue oldest first and gives each to the state, with the queue's own
    /// handle, until `limit` events are handled, the queue is empty or the
    /// state refuses an event. It never waits. Returns the number of events
    /// handled, or the error of the event that was refused; that event is gone
    /// too, and those behind it stay for the next call.
    pub fn dispatch_up_to(&mut self, data: &mut State, limit: usize) -> (r: Result<
        usize,
        DispatchError,
    >)
        ensures
            drained(
                old(self).pending(),
                *old(data),
                old(self).own_handle(),
                limit,
                r,
                final(self).pending(),
                *final(data),
            ),
            final(self).own_handle() == old(self).own_handle(),
            old(self).ended() ==> final(self).ended(),
    {
        let ghost before = self.pending();
        let ghost pre = *data;
        let ghost mut taken: Seq<QueueEvent> = Seq::empty();
        let mut handled: usize = 0;
        while handled < limit
            invariant
                before == old(self).pending(),
                pre == *old(data),
                self.handle == old(self).handle,
                old(self).ended() ==> self.ended(),
                taken.len() == handled,
                handled <= limit,
                agree(before, taken),
                rest(before, taken.len() as int).is_prefix_of(self.pending()),
                delivered(pre, taken, self.handle, *data),
            decreases limit - handled,
        {
            let ghost held = self.pending();
            let ghost mid = *data;
            let answer = try_receive(&mut self.rx);
            let ghost got = event_of(answer);
            match take(answer, data, &self.handle) {
                Taken::Handled => {
                    proof {
                        took_front(before, taken, held, got->0, self.pending());
                        delivered_push(pre, taken, self.handle, mid, got->0, *data);
                        taken = taken.push(got->0);
                    }
                    handled += 1;
                },
                Taken::Refused(e) => {
                    proof {
                        took_front(before, taken, held, got->0, self.pending());
                        assert(delivered(pre, taken.push(got->0).drop_last(), self.handle, *data));
                    }
                    return Err(e);
                },
                _ => {
                    return Ok(handled);
                },
            }
        }
        Ok(handled)
    }

    /// Dispatches the pending events: the events that the queue holds when
    /// the call begins, oldest first, each given to the state with the queue's
    /// own handle. Events that come while it runs stay for the next call. It
    /// never waits. Returns the number of events handled, or the error of the
    /// event that the state refused; that event is gone too, and those behind
    /// it stay for the next call.
    pub fn dispatch_pending(&mut self, data: &mut State) -> (r: Result<usize, DispatchError>)
        ensures
            dispatched(
                old(self).pending(),
                *old(data),
                old(self).own_handle(),
                r,
                final(self).pending(),
                *final(data),
            ),
            final(self).own_handle() == old(self).own_handle(),
            old(self).ended() ==> final(self).ended(),
    {
        let limit = count_buffered(&self.rx);
        let ghost before = self.pending();
        let ghost pre = *data;
        let r = self.dispatch_up_to(data, limit);
        assert(drained(before, pre, self.own_handle(), limit, r, self.pending(), *data));
        r
    }

    /// One step of a poll of the queue: takes the oldest event and gives it to
    /// the state, with the queue's own handle; where the queue is empty,
    /// registers the task of `cx` to be woken by the next event. It never
    /// waits. The caller polls again after each event that was handled, until
    /// the answer is another.
    pub fn poll_dispatch_pending(&mut self, cx: &mut Context<'_>, data: &mut State) -> (out:
        Polling)
        ensures
            polled(
                old(self).pending(),
                *old(data),
                old(self).own_handle(),
                out,
                final(self).pending(),
                final(self).ended(),
                *final(data),
            ),
            final(self).own_handle() == old(self).own_handle(),
            old(self).ended() ==> final(self).ended(),
    {
        let answer = poll_receive(&mut self.rx, cx);
        let ghost got = event_of(answer);
        match take(answer, data, &self.handle) {
            Taken::Handled => {
                assert(called_back(*old(data), got->0, self.handle, *data, Ok(())));
                Polling::Repeat
            },
            Taken::Refused(e) => {
                assert(called_back(*old(data), got->0, self.handle, *data, Err(e)));
                Polling::Failed(e)
            },
            Taken::Empty => Polling::Pending,
            Taken::Closed => Polling::Closed,
        }
    }
}

} // verus!
