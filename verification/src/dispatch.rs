//! The binding between an application's state and the events of its objects.

use vstd::prelude::*;

use crate::channel::{Polled, QueueEvent};
use crate::error::DispatchError;
use crate::object_data::QueueProxyData;
use crate::protocol::RawEvent;
use crate::queue::QueueHandle;

verus! {

/// The handlers of an application state.
///
/// The queue reads each message that one of the state's objects received as
/// an event, with `parse_event`, and hands the event to `event`, in the order
/// in which the messages came. Where an event creates an object, the state
/// names the capability object of the new object, with
/// `event_created_child`; a state has such a child for the events that
/// `has_child` names and for no others.
pub trait Dispatch: Sized {
    /// The events of the state's objects, in typed form.
    type Event;

    /// What `parse_event` may give for a message `msg` that came to an object
    /// of interface `interface`. An implementation that says nothing of its
    /// parser keeps the default, which allows everything.
    open spec fn parses(
        interface: Seq<char>,
        msg: RawEvent,
        r: Result<Self::Event, DispatchError>,
    ) -> bool {
        true
    }

    /// What `event` may do: whether handling `event`, for an object with the
    /// user data `data`, given the handle `qhandle`, in state `pre` may leave
    /// the state `post`. An implementation that says nothing of its handler
    /// keeps the default, which allows everything.
    open spec fn handles(
        pre: Self,
        event: Self::Event,
        data: u64,
        qhandle: QueueHandle<Self>,
        post: Self,
    ) -> bool {
        true
    }

    /// Whether the state has a child for event `opcode` of an object of
    /// interface `interface`. A state has none unless its implementation says
    /// so here.
    open spec fn has_child(interface: Seq<char>, opcode: u16) -> bool {
        false
    }

    /// Which capability objects `event_created_child` may give for event
    /// `opcode` of an object of interface `interface`, given the handle
    /// `qhandle`. An implementation that says nothing of its children keeps
    /// the default, which allows every one.
    open spec fn names_child(
        interface: Seq<char>,
        opcode: u16,
        qhandle: QueueHandle<Self>,
        child: QueueProxyData<Self>,
    ) -> bool {
        true
    }

    /// Reads a message that came to an object of interface `interface` as an
    /// event, or refuses it.
    fn parse_event(interface: &str, msg: RawEvent) -> (r: Result<Self::Event, DispatchError>)
        ensures
            Self::parses(interface@, msg, r),
    ;

    /// Handles an event of an object that was made with the user data `data`.
    /// New objects that the handler makes are bound to the queue through
    /// `qhandle`.
    fn event(state: &mut Self, event: Self::Event, data: u64, qhandle: &QueueHandle<Self>)
        ensures
            Self::handles(*old(state), event, data, *qhandle, *final(state)),
    ;

    /// Whether the state has a child for event `opcode` of an object of
    /// interface `interface`.
    fn knows_child(interface: &str, opcode: u16) -> (r: bool)
        ensures
            r == Self::has_child(interface@, opcode),
    ;

    /// The capability object for the object that event `opcode` of an object
    /// of interface `interface` creates. It is asked only for the events for
    /// which the state has a child: an event that creates an object for which
    /// it has none must not be taken at all, since the new id would be left
    /// without a capability object.
    fn event_created_child(interface: &str, opcode: u16, qhandle: &QueueHandle<Self>) -> (child:
        QueueProxyData<Self>)
        requires
            Self::has_child(interface@, opcode),
        ensures
            Self::names_child(interface@, opcode, *qhandle, child),
    ;
}

/// Whether giving `ev` to the state `pre`, with the handle `qhandle`, may
/// leave the state `post` with the result `r`: a message that is refused
/// leaves the state as it was; one that is read as an event is handled, once.
pub open spec fn called_back<State: Dispatch>(
    pre: State,
    ev: QueueEvent,
    qhandle: QueueHandle<State>,
    post: State,
    r: Result<(), DispatchError>,
) -> bool {
    match r {
        Err(e) => State::parses(ev.interface@, ev.msg, Err(e)) && post == pre,
        Ok(_) => exists|event: State::Event|
            State::parses(ev.interface@, ev.msg, Ok(event)) && #[trigger] State::handles(
                pre,
                event,
                ev.udata,
                qhandle,
                post,
            ),
    }
}

/// Gives one queued event to the state: reads its message as an event of the
/// object's interface and calls the handler with it, the object's user data
/// and `qhandle`. A message that cannot be read so is refused with the
/// parser's error, and the state is not touched.
pub fn queue_callback<State: Dispatch>(
    ev: QueueEvent,
    data: &mut State,
    qhandle: &QueueHandle<State>,
) -> (r: Result<(), DispatchError>)
    ensures
        called_back(*old(data), ev, *qhandle, *final(data), r),
{
    let QueueEvent { interface, udata, msg } = ev;
    match State::parse_event(interface.as_str(), msg) {
        Err(e) => Err(e),
        Ok(event) => {
            State::event(data, event, udata, qhandle);
            Ok(())
        },
    }
}

/// What became of one answer of the channel.
#[derive(Debug, PartialEq, Eq)]
pub enum Taken {
    /// The channel gave an event, and the state handled it.
    Handled,
    /// The channel gave an event, and the state refused it.
    Refused(DispatchError),
    /// The channel gave nothing for now.
    Empty,
    /// The channel gave nothing and is closed.
    Closed,
}

/// Whether `out` is what becomes of the channel's answer `answer`, with the
/// state `pre` and the handle `qhandle`, leaving the state `post`: an event is
/// given to the state, and anything else leaves the state alone.
pub open spec fn took<State: Dispatch>(
    answer: Polled,
    pre: State,
    qhandle: QueueHandle<State>,
    out: Taken,
    post: State,
) -> bool {
    match answer {
        Polled::Event(ev) => match out {
            Taken::Handled => called_back(pre, ev, qhandle, post, Ok(())),
            Taken::Refused(e) => called_back(pre, ev, qhandle, post, Err(e)),
            _ => false,
        },
        Polled::Empty => out == Taken::Empty && post == pre,
        Polled::Closed => out == Taken::Closed && post == pre,
    }
}

/// Deals with one answer of the channel: gives the event to the state, where
/// the answer holds one, and passes on that there was none, where it does
/// not.
pub fn take<State: Dispatch>(answer: Polled, data: &mut State, qhandle: &QueueHandle<State>) -> (out:
    Taken)
    ensures
        took(answer, *old(data), *qhandle, out, *final(data)),
{
    match answer {
        Polled::Event(ev) => match queue_callback(ev, data, qhandle) {
            Ok(_) => Taken::Handled,
            Err(e) => Taken::Refused(e),
        },
        Polled::Empty => Taken::Empty,
        Polled::Closed => Taken::Closed,
    }
}

/// Whether giving the events `evs` to the state one after the other, each
/// with the handle `qhandle` and with success, may lead from state `pre` to
/// state `post`.
pub open spec fn delivered<State: Dispatch>(
    pre: State,
    evs: Seq<QueueEvent>,
    qhandle: QueueHandle<State>,
    post: State,
) -> bool
    decreases evs.len(),
{
    if evs.len() == 0 {
        pre == post
    } else {
        exists|mid: State|
            delivered(pre, evs.drop_last(), qhandle, mid) && #[trigger] called_back(
                mid,
                evs.last(),
                qhandle,
                post,
                Ok(()),
            )
    }
}

/// One more event given with success extends a run of events.
pub proof fn delivered_push<State: Dispatch>(
    pre: State,
    evs: Seq<QueueEvent>,
    qhandle: QueueHandle<State>,
    mid: State,
    ev: QueueEvent,
    post: State,
)
    requires
        delivered(pre, evs, qhandle, mid),
        called_back(mid, ev, qhandle, post, Ok(())),
    ensures
        delivered(pre, evs.push(ev), qhandle, post),
{
    let next = evs.push(ev);
    assert(next.drop_last() =~= evs);
    assert(next.last() == ev);
}

/// Whether `taken` starts as `before` does, as far as both go.
pub open spec fn agree(before: Seq<QueueEvent>, taken: Seq<QueueEvent>) -> bool {
    forall|i: int| 0 <= i < before.len() && i < taken.len() ==> #[trigger] taken[i] == before[i]
}

/// What is left of `before` once its first `n` events are gone.
pub open spec fn rest(before: Seq<QueueEvent>, n: int) -> Seq<QueueEvent> {
    if 0 <= n <= before.len() {
        before.skip(n)
    } else {
        Seq::empty()
    }
}

/// Whether `r` may be the result of draining at most `limit` events from a
/// queue that was known to hold `before`, with the state `pre` and the handle
/// `qhandle`, leaving the queue with `after` and the state `post`.
///
/// The events are taken oldest first, and each is given to the state once,
/// in that order; events that arrived since the queue was last asked follow
/// those of `before`. With `Ok(n)`, `n` events were handled, not more than
/// `limit`, and fewer only where the queue was found empty. With `Err(e)`,
/// the last event taken was refused with `e`; it is gone with those before
/// it, and what followed it is still on the queue.
pub open spec fn drained<State: Dispatch>(
    before: Seq<QueueEvent>,
    pre: State,
    qhandle: QueueHandle<State>,
    limit: usize,
    r: Result<usize, DispatchError>,
    after: Seq<QueueEvent>,
    post: State,
) -> bool {
    match r {
        Ok(n) => exists|taken: Seq<QueueEvent>|
            (#[trigger] delivered(pre, taken, qhandle, post)) && taken.len() == n && n <= limit
                && agree(before, taken) && rest(before, n as int).is_prefix_of(after) && (n < limit
                ==> after.len() == 0),
        Err(e) => exists|taken: Seq<QueueEvent>|
            (#[trigger] delivered(pre, taken.drop_last(), qhandle, post)) && 0 < taken.len()
                <= limit && agree(before, taken) && called_back(
                post,
                taken.last(),
                qhandle,
                post,
                Err(e),
            ) && rest(before, taken.len() as int).is_prefix_of(after),
    }
}

/// Whether `r` may be the result of dispatching what is pending on a queue
/// that was known to hold `before`: a drain of at most as many events as the
/// queue held when the dispatch began, which are those of `before` and what
/// arrived since the queue was last asked.
pub open spec fn dispatched<State: Dispatch>(
    before: Seq<QueueEvent>,
    pre: State,
    qhandle: QueueHandle<State>,
    r: Result<usize, DispatchError>,
    after: Seq<QueueEvent>,
    post: State,
) -> bool {
    exists|limit: usize|
        limit >= before.len() && #[trigger] drained(before, pre, qhandle, limit, r, after, post)
}

} // verus!
