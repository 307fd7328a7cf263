//! A ticket store behind an actor. One thread owns the store and serves the
//! commands of a queue, one at a time and in the order they arrive; clients
//! hold the sending end, and every command brings the channel on which its
//! answer goes back.
//!
//! - [`data`]: tickets, drafts and statuses.
//! - [`store`]: the index from identifier to ticket, and what holds of it.
//! - [`actor`]: what serving requests means, and what clients may rely on.
//! - [`channels`], [`ack`], [`bounded`]: three actors, from inserts that
//!   nobody answers to a bounded queue that refuses requests when it is full.
//! - [`locks`]: a store whose tickets are edited under locks of their own.
//! - [`mpsc`]: the channels of the standard library, as the actors use them.
//! - [`saturating`]: a `u16` whose addition saturates.
//!
//! The library starts no thread. To run an actor, hand its `server` the
//! receiving end of a queue on a thread of its own.

pub mod ack;
pub mod actor;
pub mod bounded;
pub mod channels;
pub mod data;
pub mod locks;
pub mod mpsc;
pub mod saturating;
pub mod store;
