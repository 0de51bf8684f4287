//! The capability object of a protocol object whose events go to a queue.

use vstd::prelude::*;

use crate::channel::QueueEvent;
use crate::dispatch::Dispatch;
use crate::protocol::RawEvent;
use crate::queue::QueueHandle;

verus! {

/// The capability object of one protocol object: it puts each event of the
/// object on the queue that it is bound to, and names the capability object of
/// a child that an event creates before the event is handled.
#[derive(Debug)]
pub struct QueueProxyData<State> {
    interface: String,
    handle: QueueHandle<State>,
    /// The user data associated with this object.
    pub udata: u64,
}

/// What became of an event that came to a capability object.
#[derive(Debug)]
pub struct Received<State> {
    /// The capability object of the object that the event created, for the
    /// transport to register under the new id before it reads on.
    pub child: Option<QueueProxyData<State>>,
    /// Whether the event is on the queue. It is not where the queue is gone:
    /// the event is then dropped.
    pub queued: bool,
}

impl<State> QueueProxyData<State> {
    /// The name of the interface of this object.
    pub closed spec fn interface_name(self) -> Seq<char> {
        self.interface@
    }

    /// The user data that this object was made with.
    pub closed spec fn user_data(self) -> u64 {
        self.udata
    }

    /// The handle of the queue that this object is bound to.
    pub closed spec fn bound_to(self) -> QueueHandle<State> {
        self.handle
    }

    /// Whether `ev` is `msg` as this object puts it on its queue.
    pub open spec fn wraps(self, msg: RawEvent, ev: QueueEvent) -> bool {
        ev.interface@ == self.interface_name() && ev.udata == self.user_data() && ev.msg == msg
    }

    pub(crate) fn new(interface: &str, handle: QueueHandle<State>, udata: u64) -> (r: Self)
        ensures
            r.interface_name() == interface@,
            r.bound_to() == handle,
            r.user_data() == udata,
    {
        QueueProxyData { interface: interface.to_string(), handle, udata }
    }

    /// The name of the interface of this object.
    pub fn interface(&self) -> (r: &str)
        ensures
            r@ == self.interface_name(),
    {
        self.interface.as_str()
    }

    /// `msg` as this object puts it on its queue: with the object's interface
    /// and user data beside it.
    pub fn queue_event(&self, msg: RawEvent) -> (ev: QueueEvent)
        ensures
            self.wraps(msg, ev),
    {
        QueueEvent { interface: self.interface.clone(), udata: self.udata, msg }
    }

    /// Told that the protocol object is gone. Nothing is to be done.
    pub fn destroyed(&self, object_id: u32) {
    }
}

impl<State: Dispatch> QueueProxyData<State> {
    /// Whether this object can take `msg`: the message creates no object, or
    /// the state has a child for it.
    pub open spec fn takes(self, msg: RawEvent) -> bool {
        msg.creates_object() ==> State::has_child(self.interface_name(), msg.opcode)
    }

    /// Whether this object can take `msg`. A message that it cannot take
    /// creates an object for which the state has no child; the caller must
    /// stop the process instead of going on without one.
    pub fn can_take(&self, msg: &RawEvent) -> (r: bool)
        ensures
            r == self.takes(*msg),
    {
        match msg.new_id() {
            Some(id) => id == crate::protocol::NULL_ID || State::knows_child(
                self.interface.as_str(),
                msg.opcode,
            ),
            None => true,
        }
    }

    /// Takes an event that came to this object.
    ///
    /// Where the event creates an object, the state names the child's
    /// capability object first, through `Dispatch::event_created_child` and
    /// with the handle that this object is bound to; the child is returned for
    /// the transport to register before it reads on. Then the event is put on
    /// the queue, without waiting; where the queue is gone it is dropped, which
    /// is no error.
    pub fn event(&self, msg: RawEvent) -> (got: Received<State>)
        requires
            self.takes(msg),
        ensures
            got.child.is_some() == msg.creates_object(),
            msg.creates_object() ==> State::names_child(
                self.interface_name(),
                msg.opcode,
                self.bound_to(),
                got.child->0,
            ),
    {
        let creates = match msg.new_id() {
            Some(id) => id != crate::protocol::NULL_ID,
            None => false,
        };
        let child = if creates {
            Some(State::event_created_child(self.interface.as_str(), msg.opcode, &self.handle))
        } else {
            None
        };
        let queued = self.handle.send(self.queue_event(msg));
        Received { child, queued }
    }

}

} // verus!
