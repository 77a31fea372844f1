use rendezvous_connect::connect::{complete_connect, connect, prepare_connect, Peer};
use rendezvous_connect::errors::{ConnectError, SingleConnectionError};
use rendezvous_connect::handshake::ConnectRequest;
use rendezvous_connect::race::SingleAttemptOutcome;

#[test]
fn self_connect_is_rejected_before_any_attempt() {
    assert_eq!(
        prepare_connect(41, 41, 7),
        Err(ConnectError::RequestedConnectToSelf)
    );
    // Even a completion sequence holding a success cannot override it.
    let outcomes = vec![SingleAttemptOutcome::Success(0, 41)];
    assert_eq!(
        connect(41, 41, 7, outcomes),
        Err(ConnectError::RequestedConnectToSelf)
    );
}

#[test]
fn prepare_builds_our_request() {
    assert_eq!(
        prepare_connect(1, 2, 99),
        Ok(ConnectRequest {
            uid: 1,
            name_hash: 99
        })
    );
}

#[test]
fn race_single_success_wins_regardless_of_order() {
    let interleavings: Vec<Vec<SingleAttemptOutcome>> = vec![
        vec![
            SingleAttemptOutcome::Success(5, 2),
            SingleAttemptOutcome::Failure(SingleConnectionError::ConnectionDropped),
            SingleAttemptOutcome::Failure(SingleConnectionError::TimedOut),
        ],
        vec![
            SingleAttemptOutcome::Failure(SingleConnectionError::ConnectionDropped),
            SingleAttemptOutcome::Success(5, 2),
            SingleAttemptOutcome::Failure(SingleConnectionError::TimedOut),
        ],
        vec![
            SingleAttemptOutcome::Failure(SingleConnectionError::ConnectionDropped),
            SingleAttemptOutcome::Failure(SingleConnectionError::TimedOut),
            SingleAttemptOutcome::Success(5, 2),
        ],
    ];
    for outcomes in interleavings {
        assert_eq!(connect(1, 2, 7, outcomes), Ok((5, 2)));
    }
}

#[test]
fn race_takes_the_first_success() {
    let outcomes = vec![
        SingleAttemptOutcome::Failure(SingleConnectionError::UnexpectedMessage),
        SingleAttemptOutcome::Success(3, 2),
        SingleAttemptOutcome::Success(9, 2),
    ];
    assert_eq!(connect(1, 2, 7, outcomes), Ok((3, 2)));
}

#[test]
fn exhaustion_reports_every_failure_in_completion_order() {
    let outcomes = vec![
        SingleAttemptOutcome::Failure(SingleConnectionError::TimedOut),
        SingleAttemptOutcome::Failure(SingleConnectionError::ConnectionDropped),
        SingleAttemptOutcome::Failure(SingleConnectionError::Io(String::from("refused"))),
    ];
    assert_eq!(
        connect(1, 2, 7, outcomes),
        Err(ConnectError::AllConnectionsFailed(vec![
            SingleConnectionError::TimedOut,
            SingleConnectionError::ConnectionDropped,
            SingleConnectionError::Io(String::from("refused")),
        ]))
    );
}

#[test]
fn empty_attempt_set_with_dead_relay_fails_with_only_the_relay_failure() {
    // No direct addresses and no inbound messages: the only outcome is the
    // relay channel reporting dead.
    let outcomes = vec![SingleAttemptOutcome::Failure(
        SingleConnectionError::DeadChannel,
    )];
    assert_eq!(
        connect(1, 2, 7, outcomes),
        Err(ConnectError::AllConnectionsFailed(vec![
            SingleConnectionError::DeadChannel
        ]))
    );
}

#[test]
fn no_attempts_at_all_is_a_failure_with_an_empty_list() {
    assert_eq!(
        connect(1, 2, 7, Vec::new()),
        Err(ConnectError::AllConnectionsFailed(Vec::new()))
    );
}

#[test]
fn upgrade_fault_surfaces_as_io_error() {
    assert_eq!(
        complete_connect(5, 2, Err(String::from("broken pipe"))),
        Err(ConnectError::Io(String::from("broken pipe")))
    );
}

#[test]
fn upgrade_success_yields_the_peer_handle() {
    assert_eq!(
        complete_connect(5, 2, Ok(())),
        Ok(Peer { token: 5, uid: 2 })
    );
}
