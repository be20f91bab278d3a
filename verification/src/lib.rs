//! Logging with decoupled delivery: messages flow through a bounded,
//! thread-isolated dispatch queue to one of several sinks (console, file,
//! network), and the network sink serializes each message into a fixed
//! binary wire format sent over UDP to a receiver that decodes and
//! re-filters them.

use vstd::prelude::*;

pub mod format;
pub mod protocol;
pub mod queue;
pub mod receiver;
pub mod sender;

verus! {

pub use crate::protocol::Level;
pub use crate::protocol::Message;

} // verus!
