//! An outbound message queue for a protocol stack in which many request handlers produce
//! messages for remote peers and one background processor drains and sends them.
//!
//! Handlers do not touch the queue while they produce messages: each opens a
//! [`MessageQueueNotifierGuard`], buffers its messages there, and releases the guard
//! once, which appends the whole batch to the queue and says whether to wake the
//! processor: once for a batch with entries, not at all for an empty one.


pub mod queue;

pub mod laws;

pub use queue::{MessageQueue, MessageQueueNotifierGuard};
