//! The event-dispatch core of a client for an object-based display protocol:
//! capability objects that queue the events of their protocol object, the queue
//! that hands them to the application's handlers in order, and the barrier
//! that waits for the peer.

pub mod barrier;
pub mod blocking;
pub mod channel;
pub mod dispatch;
pub mod error;
pub mod laws;
pub mod object_data;
pub mod protocol;
pub mod queue;

pub use barrier::SyncData;
pub use blocking::{Next, Progress, Roundtrip};
pub use channel::{Polled, QueueEvent};
pub use dispatch::{queue_callback, take, Dispatch, Taken};
pub use error::{DispatchError, ProtocolError, WaylandError};
pub use object_data::{QueueProxyData, Received};
pub use protocol::{Argument, RawEvent};
pub use queue::{EventQueue, Polling, QueueHandle};
