//! Plugin-to-host message bridge for a pinball host's C-ABI message bus.
//!
//! The host publishes events on a message bus addressed by numeric message
//! identifiers. A plugin registers native closures for the identifiers it
//! cares about; the bridge keeps one live subscription per identifier,
//! routes every delivered event to the closure registered for it, and
//! drives the load/unload lifecycle, including the bootstrap handshake
//! that acquires the host's secondary domain API.
//!
//! Everything that decides or computes lives here: string marshaling
//! towards the C boundary, the subscription table, the lifecycle state
//! machine, and a host double for tests. The foreign calls themselves
//! (raw function-pointer tables) stay outside, in an unverified shell
//! that hands this crate plain values and obeys its contracts.

pub mod encoding;
pub mod errors;
pub mod fpscounter;
pub mod lifecycle;
pub mod messages;
pub mod options;
pub mod subs;
pub mod testhost;
