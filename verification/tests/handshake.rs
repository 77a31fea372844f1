use rendezvous_connect::handshake::{
    handle_first_message, incoming_response, validate_connect_request, ConnectRequest,
    HandshakeMessage,
};
use rendezvous_connect::errors::SingleConnectionError;

#[test]
fn matching_request_validates() {
    let req = ConnectRequest {
        uid: 2,
        name_hash: 7,
    };
    assert_eq!(validate_connect_request(2, 7, &req), Ok(()));
}

#[test]
fn wrong_identity_is_invalid_uid_with_renderings() {
    let req = ConnectRequest {
        uid: 9,
        name_hash: 7,
    };
    assert_eq!(
        validate_connect_request(2, 7, &req),
        Err(SingleConnectionError::InvalidUid(
            String::from("9"),
            String::from("2")
        ))
    );
}

#[test]
fn wrong_identity_is_checked_before_the_name_hash() {
    // Both fields are wrong: the identity mismatch is reported.
    let req = ConnectRequest {
        uid: 9,
        name_hash: 8,
    };
    assert_eq!(
        validate_connect_request(2, 7, &req),
        Err(SingleConnectionError::InvalidUid(
            String::from("9"),
            String::from("2")
        ))
    );
}

#[test]
fn wrong_network_identity_is_invalid_name_hash() {
    let req = ConnectRequest {
        uid: 2,
        name_hash: 8,
    };
    assert_eq!(
        validate_connect_request(2, 7, &req),
        Err(SingleConnectionError::InvalidNameHash(8))
    );
}

#[test]
fn dropped_connection_before_any_message() {
    assert_eq!(
        handle_first_message(2, 7, None),
        Err(SingleConnectionError::ConnectionDropped)
    );
}

#[test]
fn unexpected_first_message_variant() {
    assert_eq!(
        handle_first_message(2, 7, Some(HandshakeMessage::Other)),
        Err(SingleConnectionError::UnexpectedMessage)
    );
}

#[test]
fn valid_first_message_confirms_the_remote_identity() {
    let msg = HandshakeMessage::Connect(ConnectRequest {
        uid: 2,
        name_hash: 7,
    });
    assert_eq!(handle_first_message(2, 7, Some(msg)), Ok(2));
}

#[test]
fn first_message_with_wrong_identity_fails() {
    let msg = HandshakeMessage::Connect(ConnectRequest {
        uid: 3,
        name_hash: 7,
    });
    assert_eq!(
        handle_first_message(2, 7, Some(msg)),
        Err(SingleConnectionError::InvalidUid(
            String::from("3"),
            String::from("2")
        ))
    );
}

#[test]
fn first_message_from_another_network_fails() {
    let msg = HandshakeMessage::Connect(ConnectRequest {
        uid: 2,
        name_hash: 6,
    });
    assert_eq!(
        handle_first_message(2, 7, Some(msg)),
        Err(SingleConnectionError::InvalidNameHash(6))
    );
}

#[test]
fn valid_incoming_request_is_answered_with_our_request() {
    let ours = ConnectRequest {
        uid: 1,
        name_hash: 7,
    };
    let theirs = ConnectRequest {
        uid: 2,
        name_hash: 7,
    };
    assert_eq!(
        incoming_response(ours, 2, 7, &theirs),
        Ok(HandshakeMessage::Connect(ConnectRequest {
            uid: 1,
            name_hash: 7
        }))
    );
}

#[test]
fn invalid_incoming_request_is_not_answered() {
    let ours = ConnectRequest {
        uid: 1,
        name_hash: 7,
    };
    let theirs = ConnectRequest {
        uid: 5,
        name_hash: 7,
    };
    assert_eq!(
        incoming_response(ours, 2, 7, &theirs),
        Err(SingleConnectionError::InvalidUid(
            String::from("5"),
            String::from("2")
        ))
    );
}
