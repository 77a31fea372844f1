//! Rendezvous connect: establish a direct, authenticated, bidirectional
//! connection between two peers that know each other only through connection
//! descriptors exchanged out-of-band.
//!
//! Both peers call the connect routine simultaneously. A peer may be reachable
//! by several paths at once — direct listen addresses, an incoming connection
//! the remote initiates toward us, or a relay-assisted path — and any path may
//! fail, hang, or be attempted by a spoofing third party. This library holds
//! the decision core of that race: handshake validation, per-attempt outcome
//! classification, and the first-success/aggregate-failure race semantics.
//! The surrounding event loop, sockets and timers are ordinary unverified
//! plumbing that feeds events into these functions and acts on their results.

pub mod decimal;
pub mod errors;
pub mod handshake;
pub mod race;
pub mod connect;
pub mod relay;

use vstd::prelude::*;

verus! {

/// The identity a peer claims and is expected to have. Peer identities are
/// opaque comparable values; this library holds them as plain integers.
pub type Uid = u64;

/// The network identity ("name hash"): an opaque value identifying which
/// logical network a peer belongs to, held as a plain integer. A mismatch
/// means the peer is from a different network, never a transient fault.
pub type NameHash = u64;

} // verus!
