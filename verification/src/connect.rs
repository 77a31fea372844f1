//! The connect operation: fast rejection, the race, and finalisation.
//!
//! The unverified event loop around this library opens sockets, exchanges
//! handshake frames and runs timers; every decision it acts on comes from
//! here. `prepare_connect` rejects a self-connect before any I/O and builds
//! the request sent on every path; `connect` decides the outcome of a whole
//! completion sequence; `complete_connect` turns the winning candidate and
//! the result of the transport-level upgrade into the final peer handle.

use vstd::prelude::*;
use crate::{NameHash, Uid};
use crate::errors::ConnectError;
use crate::handshake::ConnectRequest;
use crate::race::{all_failed, failure_list, run_race, wins_at, SingleAttemptOutcome};

verus! {

/// The established peer: the token of the raw connection that won the race,
/// held by the transport layer, and the confirmed remote identity.
#[derive(Clone, Copy, Debug, PartialEq, Eq, Structural)]
pub struct Peer {
    pub token: usize,
    pub uid: Uid,
}

/// Rejects a connect to our own identity before any network resource is
/// consumed; otherwise builds the connect request sent on every candidate
/// path.
pub fn prepare_connect(our_uid: Uid, their_uid: Uid, our_name_hash: NameHash) -> (r: Result<
    ConnectRequest,
    ConnectError,
>)
    ensures
        our_uid == their_uid ==> r == Err::<ConnectRequest, _>(
            ConnectError::RequestedConnectToSelf,
        ),
        our_uid != their_uid ==> r == Ok::<ConnectRequest, ConnectError>(
            ConnectRequest { uid: our_uid, name_hash: our_name_hash },
        ),
{
    if our_uid == their_uid {
        Err(ConnectError::RequestedConnectToSelf)
    } else {
        Ok(ConnectRequest { uid: our_uid, name_hash: our_name_hash })
    }
}

/// Decides a whole connect operation: a self-connect is rejected whatever the
/// attempts did; otherwise the first successful attempt of the completion
/// sequence wins, and if every attempt failed the operation fails with all
/// per-attempt failures in completion order.
pub fn connect(
    our_uid: Uid,
    their_uid: Uid,
    our_name_hash: NameHash,
    outcomes: Vec<SingleAttemptOutcome>,
) -> (r: Result<(usize, Uid), ConnectError>)
    ensures
        our_uid == their_uid ==> r == Err::<(usize, Uid), _>(
            ConnectError::RequestedConnectToSelf,
        ),
        our_uid != their_uid ==> {
            &&& r is Ok <==> !all_failed(outcomes@)
            &&& r matches Ok((token, uid)) ==> exists|i: int|
                #[trigger] wins_at(outcomes@, i) && outcomes@[i]
                    == SingleAttemptOutcome::Success(token, uid)
            &&& r matches Err(e) ==> e matches ConnectError::AllConnectionsFailed(v) && v@
                == failure_list(outcomes@)
        },
{
    if our_uid == their_uid {
        return Err(ConnectError::RequestedConnectToSelf);
    }
    run_race(outcomes)
}

/// Finalises the race: the winning candidate is upgraded into a peer object
/// by the transport layer, outside this library; a fault in that upgrade is
/// the whole operation's I/O failure, otherwise the peer handle confirms the
/// winning connection and remote identity.
pub fn complete_connect(winner_token: usize, winner_uid: Uid, upgrade: Result<(), String>) -> (r:
    Result<Peer, ConnectError>)
    ensures
        upgrade is Ok ==> r == Ok::<Peer, ConnectError>(
            Peer { token: winner_token, uid: winner_uid },
        ),
        upgrade matches Err(fault) ==> (r matches Err(ConnectError::Io(m)) && m == fault),
{
    match upgrade {
        Ok(()) => Ok(Peer { token: winner_token, uid: winner_uid }),
        Err(fault) => Err(ConnectError::Io(fault)),
    }
}

} // verus!
