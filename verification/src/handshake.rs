//! The handshake exchanged on every candidate connection, and its validation.
//!
//! The first application-level message on any raw connection must be a
//! Connect handshake carrying the peer's claimed identity and network
//! identity. Anything else is a protocol violation; a connection that closes
//! first is a dropped connection. A validated handshake is the only way a
//! candidate connection can win the race.

use vstd::prelude::*;
use crate::{NameHash, Uid};
use crate::decimal::{dec_digits, u64_to_string};
use crate::errors::SingleConnectionError;

verus! {

/// The handshake payload: the identity and the network identity the sending
/// peer claims.
#[derive(Clone, Copy, Debug, PartialEq, Eq, Structural)]
pub struct ConnectRequest {
    pub uid: Uid,
    pub name_hash: NameHash,
}

/// Wire envelope for handshake-phase traffic. Only the Connect variant takes
/// part in establishing a connection; `Other` stands for every remaining
/// variant of the envelope, all of which cause rejection here.
#[derive(Clone, Copy, Debug, PartialEq, Eq, Structural)]
pub enum HandshakeMessage {
    Connect(ConnectRequest),
    Other,
}

/// A request is valid when the claimed identity equals the expected one and
/// the claimed network identity equals ours.
pub open spec fn valid_request(expected_uid: Uid, our_name_hash: NameHash, req: ConnectRequest) -> bool {
    req.uid == expected_uid && req.name_hash == our_name_hash
}

/// Checks a received connect request against the expected identity and our
/// network identity. Identity is checked first; both mismatches are equally
/// fatal for this attempt.
pub fn validate_connect_request(
    expected_uid: Uid,
    our_name_hash: NameHash,
    connect_request: &ConnectRequest,
) -> (r: Result<(), SingleConnectionError>)
    ensures
        r is Ok <==> valid_request(expected_uid, our_name_hash, *connect_request),
        connect_request.uid != expected_uid ==> (r matches Err(
            SingleConnectionError::InvalidUid(received, expected),
        ) && received@ == dec_digits(connect_request.uid as nat) && expected@ == dec_digits(
            expected_uid as nat,
        )),
        connect_request.uid == expected_uid && connect_request.name_hash != our_name_hash ==> r
            == Err::<(), _>(SingleConnectionError::InvalidNameHash(connect_request.name_hash)),
{
    if connect_request.uid != expected_uid {
        return Err(
            SingleConnectionError::InvalidUid(
                u64_to_string(connect_request.uid),
                u64_to_string(expected_uid),
            ),
        );
    }
    if our_name_hash != connect_request.name_hash {
        return Err(SingleConnectionError::InvalidNameHash(connect_request.name_hash));
    }
    Ok(())
}

/// Classifies the first message received on a candidate connection after our
/// own request was sent: no message means the peer dropped the connection, a
/// non-Connect message is a protocol violation, and a Connect message is
/// validated. On success, returns the confirmed remote identity.
pub fn handle_first_message(
    expected_uid: Uid,
    our_name_hash: NameHash,
    first_message: Option<HandshakeMessage>,
) -> (r: Result<Uid, SingleConnectionError>)
    ensures
        r is Ok <==> (first_message matches Some(HandshakeMessage::Connect(req))
            && valid_request(expected_uid, our_name_hash, req)),
        first_message is None ==> r == Err::<Uid, _>(SingleConnectionError::ConnectionDropped),
        first_message == Some(HandshakeMessage::Other) ==> r == Err::<Uid, _>(
            SingleConnectionError::UnexpectedMessage,
        ),
        first_message matches Some(HandshakeMessage::Connect(req)) ==> {
            &&& valid_request(expected_uid, our_name_hash, req) ==> r == Ok::<
                Uid,
                SingleConnectionError,
            >(req.uid)
            &&& req.uid != expected_uid ==> (r matches Err(
                SingleConnectionError::InvalidUid(received, expected),
            ) && received@ == dec_digits(req.uid as nat) && expected@ == dec_digits(
                expected_uid as nat,
            ))
            &&& req.uid == expected_uid && req.name_hash != our_name_hash ==> r == Err::<Uid, _>(
                SingleConnectionError::InvalidNameHash(req.name_hash),
            )
        },
{
    match first_message {
        None => Err(SingleConnectionError::ConnectionDropped),
        Some(HandshakeMessage::Connect(req)) => {
            match validate_connect_request(expected_uid, our_name_hash, &req) {
                Ok(()) => Ok(req.uid),
                Err(e) => Err(e),
            }
        },
        Some(HandshakeMessage::Other) => Err(SingleConnectionError::UnexpectedMessage),
    }
}

/// Decides the response to one item of the direct-incoming stream: an
/// already-accepted connection whose connect request arrived with it. A valid
/// request is answered with our own request over the same connection; an
/// invalid one fails this attempt with the validation error.
pub fn incoming_response(
    our_connect_request: ConnectRequest,
    expected_uid: Uid,
    our_name_hash: NameHash,
    connect_request: &ConnectRequest,
) -> (r: Result<HandshakeMessage, SingleConnectionError>)
    ensures
        r is Ok <==> valid_request(expected_uid, our_name_hash, *connect_request),
        valid_request(expected_uid, our_name_hash, *connect_request) ==> r == Ok::<
            HandshakeMessage,
            SingleConnectionError,
        >(HandshakeMessage::Connect(our_connect_request)),
        connect_request.uid != expected_uid ==> (r matches Err(
            SingleConnectionError::InvalidUid(received, expected),
        ) && received@ == dec_digits(connect_request.uid as nat) && expected@ == dec_digits(
            expected_uid as nat,
        )),
        connect_request.uid == expected_uid && connect_request.name_hash != our_name_hash ==> r
            == Err::<HandshakeMessage, _>(
            SingleConnectionError::InvalidNameHash(connect_request.name_hash),
        ),
{
    match validate_connect_request(expected_uid, our_name_hash, connect_request) {
        Ok(()) => Ok(HandshakeMessage::Connect(our_connect_request)),
        Err(e) => Err(e),
    }
}

/// An attempt whose request claims a wrong identity never validates, whatever
/// its other fields hold: no such candidate can be reported as a success.
pub proof fn lemma_identity_enforcement(expected_uid: Uid, our_name_hash: NameHash, req: ConnectRequest)
    requires
        req.uid != expected_uid,
    ensures
        !valid_request(expected_uid, our_name_hash, req),
{
}

/// An attempt whose request claims a wrong network identity never validates:
/// a peer from a different logical network can never win the race.
pub proof fn lemma_network_enforcement(expected_uid: Uid, our_name_hash: NameHash, req: ConnectRequest)
    requires
        req.name_hash != our_name_hash,
    ensures
        !valid_request(expected_uid, our_name_hash, req),
{
}

} // verus!
