//! Two-level error taxonomy, matching the two temporal scopes of failure.
//!
//! `SingleConnectionError` is scoped to one candidate path; the orchestrator
//! keeps racing other paths when one fails. `ConnectError` is scoped to the
//! whole operation; one of its variants aggregates the full ordered list of
//! per-attempt failures, so the caller sees why every path failed, not just
//! that they did.
//!
//! Faults raised by the unverified transport layer (socket I/O, framing, the
//! relay negotiation) reach this library as their human-readable renderings:
//! the fault itself happens outside the verified core, only its description is
//! carried along for diagnostics.

use vstd::prelude::*;
use crate::NameHash;

verus! {

/// A failure of one candidate connection attempt.
#[derive(Debug, PartialEq, Eq)]
pub enum SingleConnectionError {
    /// I/O fault while initiating or accepting the connection (rendering of
    /// the underlying fault).
    Io(String),
    /// Socket/framing fault on an established raw connection (rendering of
    /// the underlying fault).
    Socket(String),
    /// The remote peer closed the connection before the handshake arrived.
    ConnectionDropped,
    /// The peer claimed an identity other than the expected one. Carries the
    /// decimal renderings of the received and the expected identity, in that
    /// order.
    InvalidUid(String, String),
    /// The peer belongs to a different logical network. Carries the network
    /// identity the peer claimed.
    InvalidNameHash(NameHash),
    /// The first message on the connection was not a Connect handshake.
    UnexpectedMessage,
    /// This attempt exceeded its per-attempt time ceiling.
    TimedOut,
    /// The relay channel was cancelled before it could deliver a connection.
    DeadChannel,
    /// The relay-assisted negotiation itself failed (rendering of the
    /// underlying cause).
    RendezvousConnect(String),
}

/// A failure of the whole connect operation.
#[derive(Debug, PartialEq, Eq)]
pub enum ConnectError {
    /// The caller asked to connect to its own identity; no attempt is made.
    RequestedConnectToSelf,
    /// I/O fault while upgrading the winning raw connection into a peer
    /// handle (rendering of the underlying fault).
    Io(String),
    /// Socket fault while finalising the handshake (rendering of the
    /// underlying fault).
    ChooseConnection(String),
    /// Every attempt failed. Carries each per-attempt failure, in the order
    /// the attempts completed.
    AllConnectionsFailed(Vec<SingleConnectionError>),
    /// The whole operation exceeded its time ceiling.
    TimedOut,
}

} // verus!
