use warqueen::sending::ResultPoll;
use warqueen::transport_errors::{ConnectionError, SendingError, StoppedError, WriteError};
use warqueen::{SendingResult, SendingState, SendingStateHandle};

#[test]
fn each_result_answers_one_question() {
    let all = [
        SendingResult::Sent,
        SendingResult::WeClosed,
        SendingResult::PeerClosedOrDied,
        SendingResult::Error,
    ];
    let expected = [(true, false, false), (false, true, false), (false, true, false), (false, false, true)];
    for (result, (sent, closed, error)) in all.iter().zip(expected.iter()) {
        assert_eq!(result.sent(), *sent);
        assert_eq!(result.failed_due_to_connection_closed(), *closed);
        assert_eq!(result.failed_due_to_error(), *error);
    }
}

#[test]
fn connection_errors_classified() {
    assert_eq!(SendingResult::from_connection_error(ConnectionError::LocallyClosed), SendingResult::WeClosed);
    for e in [
        ConnectionError::ApplicationClosed,
        ConnectionError::ConnectionClosed,
        ConnectionError::Reset,
        ConnectionError::TimedOut,
    ] {
        assert_eq!(SendingResult::from_connection_error(e), SendingResult::PeerClosedOrDied);
    }
    for e in [
        ConnectionError::VersionMismatch,
        ConnectionError::TransportError,
        ConnectionError::CidsExhausted,
    ] {
        assert_eq!(SendingResult::from_connection_error(e), SendingResult::Error);
    }
}

#[test]
fn sending_outcomes_classified() {
    assert_eq!(SendingResult::from_result(Ok(())), SendingResult::Sent);
    assert_eq!(
        SendingResult::from_result(Err(SendingError::OpenUni(ConnectionError::LocallyClosed))),
        SendingResult::WeClosed
    );
    assert_eq!(
        SendingResult::from_result(Err(SendingError::OpenUni(ConnectionError::VersionMismatch))),
        SendingResult::Error
    );
    assert_eq!(
        SendingResult::from_result(Err(SendingError::WriteAll(WriteError::ConnectionLost(ConnectionError::Reset)))),
        SendingResult::PeerClosedOrDied
    );
    assert_eq!(SendingResult::from_result(Err(SendingError::WriteAll(WriteError::Stopped(3)))), SendingResult::Error);
    assert_eq!(SendingResult::from_result(Err(SendingError::WriteAll(WriteError::ClosedStream))), SendingResult::Error);
    assert_eq!(SendingResult::from_result(Err(SendingError::WriteAll(WriteError::ZeroRttRejected))), SendingResult::Error);
    assert_eq!(
        SendingResult::from_result(Err(SendingError::Stopped(StoppedError::ConnectionLost(ConnectionError::TimedOut)))),
        SendingResult::PeerClosedOrDied
    );
    assert_eq!(
        SendingResult::from_result(Err(SendingError::Stopped(StoppedError::ConnectionLost(ConnectionError::LocallyClosed)))),
        SendingResult::WeClosed
    );
    assert_eq!(SendingResult::from_result(Err(SendingError::Stopped(StoppedError::ZeroRttRejected))), SendingResult::Error);
}

#[test]
fn state_of_a_reported_result() {
    let (sender, receiver) = tokio::sync::oneshot::channel();
    let handle = SendingStateHandle::from_result_receiver(receiver);
    sender.send(SendingResult::PeerClosedOrDied).unwrap();
    assert!(matches!(handle.get_state(), SendingState::Result(SendingResult::PeerClosedOrDied)));
}

#[test]
fn state_of_a_pending_result_gives_the_handle_back() {
    let (sender, receiver) = tokio::sync::oneshot::channel();
    let handle = SendingStateHandle::from_result_receiver(receiver);
    let handle = match handle.get_state() {
        SendingState::StillBeingSent(handle) => handle,
        SendingState::Result(_) => panic!("nothing was sent yet"),
    };
    sender.send(SendingResult::Sent).unwrap();
    assert!(matches!(handle.get_state(), SendingState::Result(SendingResult::Sent)));
}

#[test]
fn state_of_an_abandoned_result_is_an_error() {
    let (sender, receiver) = tokio::sync::oneshot::channel::<SendingResult>();
    let handle = SendingStateHandle::from_result_receiver(receiver);
    drop(sender);
    assert!(matches!(handle.get_state(), SendingState::Result(SendingResult::Error)));
}

#[test]
fn state_after_each_poll() {
    let (_sender, receiver) = tokio::sync::oneshot::channel::<SendingResult>();
    let handle = SendingStateHandle::from_result_receiver(receiver);
    let handle = match handle.state_after(ResultPoll::Empty) {
        SendingState::StillBeingSent(handle) => handle,
        SendingState::Result(_) => panic!("an empty poll gives the handle back"),
    };
    let (_sender2, receiver2) = tokio::sync::oneshot::channel::<SendingResult>();
    let other = SendingStateHandle::from_result_receiver(receiver2);
    assert!(matches!(handle.state_after(ResultPoll::Closed), SendingState::Result(SendingResult::Error)));
    assert!(matches!(
        other.state_after(ResultPoll::Received(SendingResult::WeClosed)),
        SendingState::Result(SendingResult::WeClosed)
    ));
}
