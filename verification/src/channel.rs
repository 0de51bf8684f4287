//! The channel between the capability objects and their queue.
//!
//! The channel is `futures_channel::mpsc`'s unbounded one. Nothing in this
//! file is proved: each item states what the channel's source shows, and the
//! rest of the library is proved from that.

use futures_channel::mpsc::{TryRecvError, UnboundedReceiver, UnboundedSender};
use futures_core::stream::Stream;
use std::pin::Pin;
use std::task::{Context, Poll};
use vstd::prelude::*;

use crate::protocol::RawEvent;

verus! {

/// An event on its way to the handler: the message, and what its capability
/// object knows of the protocol object it came to.
#[derive(Clone, Debug, PartialEq, Eq)]
pub struct QueueEvent {
    /// The name of the interface of the object that received the event.
    pub interface: String,
    /// The user data that the object's capability object was made with.
    pub udata: u64,
    /// The message.
    pub msg: RawEvent,
}

/// What the receiving end gave when it was asked for an event.
pub enum Polled {
    /// An event.
    Event(QueueEvent),
    /// Nothing for now. Where the receiving end was polled, the task will be
    /// woken when an event is sent.
    Empty,
    /// Nothing, and nothing will come: the channel is closed and empty.
    Closed,
}

/// `futures_channel::mpsc::UnboundedSender`, opaque.
#[verifier::external_type_specification]
#[verifier::external_body]
#[verifier::reject_recursive_types(T)]
pub struct ExUnboundedSender<T>(UnboundedSender<T>);

/// `futures_channel::mpsc::UnboundedReceiver`, opaque.
#[verifier::external_type_specification]
#[verifier::external_body]
#[verifier::reject_recursive_types(T)]
pub struct ExUnboundedReceiver<T>(UnboundedReceiver<T>);

/// `std::task::Context`, opaque.
#[verifier::external_type_specification]
#[verifier::external_body]
pub struct ExContext<'a>(Context<'a>);

/// The events that the receiving end held when it was last asked, oldest
/// first. Sending ends add behind them at any time without the receiving end
/// being touched, so at the next call it may hold more than this names, never
/// less, and never in another order.
pub uninterp spec fn pending(rx: UnboundedReceiver<QueueEvent>) -> Seq<QueueEvent>;

/// Whether the receiving end has come to the end of its stream. It does so
/// when it is asked and finds the channel closed and empty; from then on it
/// gives nothing and says so each time.
pub uninterp spec fn ended(rx: UnboundedReceiver<QueueEvent>) -> bool;

/// The event of an answer, if it holds one.
pub open spec fn event_of(answer: Polled) -> Option<QueueEvent> {
    match answer {
        Polled::Event(ev) => Some(ev),
        _ => None,
    }
}

/// Whether `r` is a result that the receiving end may give for one event asked
/// of it, when it was known to hold `before` and is left holding `after`: what
/// was held comes out oldest first and the rest stays in order, with later
/// arrivals behind it; nothing comes out only where nothing is left.
pub open spec fn takes_front(
    before: Seq<QueueEvent>,
    r: Option<QueueEvent>,
    after: Seq<QueueEvent>,
) -> bool {
    match r {
        Some(ev) => before.len() > 0 ==> ev == before[0] && before.skip(1).is_prefix_of(after),
        None => before.len() == 0 && after.len() == 0,
    }
}

/// `futures_channel::mpsc::unbounded`: a new channel, which holds nothing and
/// has not ended.
#[verifier::external_body]
pub(crate) fn open_channel() -> (r: (UnboundedSender<QueueEvent>, UnboundedReceiver<QueueEvent>))
    ensures
        pending(r.1).len() == 0,
        !ended(r.1),
{
    futures_channel::mpsc::unbounded()
}

/// `UnboundedSender::clone`: another sending end of the same channel. All
/// that a sending end holds is its channel, so the clone holds what `tx`
/// holds.
#[verifier::external_body]
pub(crate) fn clone_sender(tx: &UnboundedSender<QueueEvent>) -> (r: UnboundedSender<QueueEvent>)
    ensures
        r == *tx,
{
    tx.clone()
}

/// `UnboundedSender::unbounded_send`: puts the event behind those that the
/// channel holds and returns `true`, or, where the receiving end is gone,
/// drops the event and returns `false`. It never waits. (The channel gives up
/// with a panic once it holds more events than memory can.)
#[verifier::external_body]
pub(crate) fn send_event(tx: &UnboundedSender<QueueEvent>, ev: QueueEvent) -> bool {
    tx.unbounded_send(ev).is_ok()
}

/// `Stream::size_hint` of the receiving end, its lower bound: the number of
/// events that were sent and not taken yet. Events sent since the receiving
/// end was last asked are counted too, so the number is at least that of the
/// events it was known to hold.
#[verifier::external_body]
pub(crate) fn count_buffered(rx: &UnboundedReceiver<QueueEvent>) -> (n: usize)
    ensures
        n >= pending(*rx).len(),
{
    rx.size_hint().0
}

/// `UnboundedReceiver::try_recv`: takes the oldest event out of the channel
/// without waiting; where it holds none, says whether the channel is closed,
/// and if so the receiving end has ended. One that has ended says so again.
#[verifier::external_body]
pub(crate) fn try_receive(rx: &mut UnboundedReceiver<QueueEvent>) -> (r: Polled)
    ensures
        takes_front(pending(*old(rx)), event_of(r), pending(*final(rx))),
        ended(*final(rx)) == (r is Closed),
        ended(*old(rx)) ==> r is Closed,
{
    match rx.try_recv() {
        Ok(ev) => Polled::Event(ev),
        Err(TryRecvError::Empty) => Polled::Empty,
        Err(TryRecvError::Closed) => Polled::Closed,
    }
}

/// `Stream::poll_next` of the receiving end: takes the oldest event out of the
/// channel; where it holds none, registers the task of `cx` to be woken by the
/// next send, or, where the channel is closed, reports the end, and the
/// receiving end has ended. One that has ended reports the end again.
#[verifier::external_body]
pub(crate) fn poll_receive(rx: &mut UnboundedReceiver<QueueEvent>, cx: &mut Context<'_>) -> (r:
    Polled)
    ensures
        takes_front(pending(*old(rx)), event_of(r), pending(*final(rx))),
        ended(*final(rx)) == (r is Closed),
        ended(*old(rx)) ==> r is Closed,
{
    match Pin::new(rx).poll_next(cx) {
        Poll::Ready(Some(ev)) => Polled::Event(ev),
        Poll::Ready(None) => Polled::Closed,
        Poll::Pending => Polled::Empty,
    }
}

} // verus!
