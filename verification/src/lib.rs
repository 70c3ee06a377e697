//! Verified core of a hotplug input-device monitor and a virtual input-device
//! writer.
//!
//! The monitor half decides, for every directory entry and notification that
//! the watch directory produces, whether the entry names an input-event node
//! and what to do about it; adopted devices travel to the consumer through a
//! single-slot handoff channel. The writer half encodes normalized input
//! events into kernel `(class, code, value)` triples, accumulates the
//! capability registrations a virtual device is created with, and resolves
//! the non-blocking retry protocol for raw event writes.
//!
//! All kernel and filesystem interaction stays outside this crate; the types
//! here consume plain values (entry names as byte strings, kernel return
//! codes) and are verified for every such value.

pub mod channel;
pub mod error;
pub mod event;
pub mod monitor;
pub mod writer;
