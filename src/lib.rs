//! Bounded-wait retrieval and one-item lookahead over a sequential source.
//!
//! The adapters in this crate keep at most one item ahead of the source they
//! read from. Every item taken from the source reaches the consumer exactly
//! once and in the order the source produced it, whether it was first shown
//! by a peek, and whatever deadlines elapsed on the way.

pub mod channel;
pub mod error;
pub mod guarantees;
pub mod lookahead;
pub mod relay;
pub mod synchronous;
