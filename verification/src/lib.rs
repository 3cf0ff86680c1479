//! Inter-process message passing built on per-process message queues.
//!
//! The library keeps the decisions of the IPC entities: how an entity id
//! carries its kind, how a received message is routed to the task that waits
//! for it, which task an event source hands to the scheduler and with which
//! priority. The shared queues themselves, the notification mechanism and the
//! async plumbing are driven by the caller, who hands the library what they
//! observed and performs what the library decides.
pub mod interface;
pub mod item;
pub mod queue_based;
pub mod sched_based;
pub mod stash;
pub mod text;
