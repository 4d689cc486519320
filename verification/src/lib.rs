//! A peer-to-peer key-value store organised as a Chord overlay ring.
//!
//! Every peer owns a contiguous arc of a circular 64-bit identifier space
//! and stores the values whose keys hash into that arc.  This crate holds
//! the verified core of such a peer: identifier arithmetic on the ring,
//! the per-peer state machine (predecessor / successor / second successor),
//! routing and ownership decisions, join, leave, stabilization and
//! successor-failure recovery, and the in-memory store.  The transports
//! (RPC framing and the HTTP data plane) live outside the library and
//! drive it through the decision functions defined here.

pub mod bucket;
pub mod laws;
pub mod network;
pub mod node;
pub mod routing;
pub mod store;
