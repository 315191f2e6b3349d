use warqueen::client::{
    client_event_for_connection_error, connection_attempt_outcome, ClientPoll, ClientState,
    ConnectedOrTimeout, DisconnectAction, SendAction,
};
use warqueen::transport_errors::ConnectionError;
use warqueen::{ClientDisconnectionDetails, ClientEvent, SendingResult};

#[test]
fn new_client_is_connecting_and_quiet() {
    let mut state: ClientState<u32, u8> = ClientState::new();
    assert!(state.is_connecting());
    assert_eq!(state.connected(), None);
    assert_eq!(state.poll_event(), ClientPoll::Nothing);
    assert!(state.is_connecting());
}

#[test]
fn messages_sent_while_connecting_are_sent_in_order_on_connection() {
    let mut state: ClientState<u32, u8> = ClientState::new();
    assert_eq!(state.send_message(1), SendAction::Queued);
    assert_eq!(state.poll_event(), ClientPoll::Nothing);
    assert_eq!(state.send_message(2), SendAction::Queued);
    assert_eq!(state.connect_if_possible(None), Vec::<u8>::new());
    assert_eq!(state.send_message(3), SendAction::Queued);
    assert!(state.is_connecting());
    assert_eq!(state.connect_if_possible(Some(ConnectedOrTimeout::Connected(7))), vec![1, 2, 3]);
    assert!(!state.is_connecting());
    assert_eq!(state.connected(), Some(&7));
}

#[test]
fn connected_event_comes_once_and_first() {
    let mut state: ClientState<u32, u8> = ClientState::new();
    assert_eq!(state.connect_if_possible(Some(ConnectedOrTimeout::Connected(7))), Vec::<u8>::new());
    assert_eq!(state.poll_event(), ClientPoll::Connected);
    assert_eq!(state.poll_event(), ClientPoll::FromServer);
    assert_eq!(state.poll_event(), ClientPoll::FromServer);
}

#[test]
fn message_sent_when_connected_is_sent_at_once() {
    let mut state: ClientState<u32, u8> = ClientState::new();
    state.connect_if_possible(Some(ConnectedOrTimeout::Connected(7)));
    assert_eq!(state.send_message(9), SendAction::SendNow(9));
    assert_eq!(state.poll_event(), ClientPoll::Connected);
    assert_eq!(state.send_message(10), SendAction::SendNow(10));
}

#[test]
fn outcome_is_ignored_once_connected() {
    let mut state: ClientState<u32, u8> = ClientState::new();
    state.connect_if_possible(Some(ConnectedOrTimeout::Connected(7)));
    assert_eq!(state.connect_if_possible(Some(ConnectedOrTimeout::Timeout)), Vec::<u8>::new());
    assert_eq!(state.connected(), Some(&7));
    assert_eq!(state.connect_if_possible(Some(ConnectedOrTimeout::Connected(8))), Vec::<u8>::new());
    assert_eq!(state.connected(), Some(&7));
}

#[test]
fn timeout_yields_failed_to_connect_once() {
    let mut state: ClientState<u32, u8> = ClientState::new();
    assert_eq!(state.send_message(1), SendAction::Queued);
    assert_eq!(state.connect_if_possible(Some(ConnectedOrTimeout::Timeout)), Vec::<u8>::new());
    assert!(!state.is_connecting());
    assert_eq!(state.connected(), None);
    assert_eq!(state.poll_event(), ClientPoll::FailedToConnect);
    assert_eq!(state.poll_event(), ClientPoll::Nothing);
    assert_eq!(state.poll_event(), ClientPoll::Nothing);
    assert_eq!(state.send_message(2), SendAction::Refused(2, SendingResult::PeerClosedOrDied));
    assert!(matches!(state.disconnect(), DisconnectAction::AlreadyDisconnected));
    assert_eq!(state.send_message(3), SendAction::Refused(3, SendingResult::PeerClosedOrDied));
}

#[test]
fn disconnect_while_connecting_fails_waiting_messages() {
    let mut state: ClientState<u32, u8> = ClientState::new();
    state.send_message(4);
    state.send_message(5);
    match state.disconnect() {
        DisconnectAction::FailPending { pending, result } => {
            assert_eq!(pending, vec![4, 5]);
            assert_eq!(result, SendingResult::WeClosed);
        }
        _ => panic!("the waiting messages must fail"),
    }
    assert_eq!(state.send_message(6), SendAction::Refused(6, SendingResult::WeClosed));
    assert_eq!(state.poll_event(), ClientPoll::Nothing);
    assert_eq!(state.connect_if_possible(Some(ConnectedOrTimeout::Connected(7))), Vec::<u8>::new());
    assert_eq!(state.connected(), None);
}

#[test]
fn disconnect_when_connected_hands_back_the_connection() {
    let mut state: ClientState<u32, u8> = ClientState::new();
    state.connect_if_possible(Some(ConnectedOrTimeout::Connected(7)));
    match state.disconnect() {
        DisconnectAction::Close(connection) => assert_eq!(connection, 7),
        _ => panic!("the connection must be closed"),
    }
    assert_eq!(state.connected(), None);
    assert_eq!(state.send_message(6), SendAction::Refused(6, SendingResult::WeClosed));
    assert_eq!(state.poll_event(), ClientPoll::Nothing);
    assert!(matches!(state.disconnect(), DisconnectAction::AlreadyDisconnected));
}

#[test]
fn lost_connection_to_server_events() {
    assert_eq!(
        client_event_for_connection_error::<u8>(ConnectionError::ApplicationClosed),
        Some(ClientEvent::Disconnected(ClientDisconnectionDetails::NoDetails))
    );
    assert_eq!(
        client_event_for_connection_error::<u8>(ConnectionError::ConnectionClosed),
        Some(ClientEvent::Disconnected(ClientDisconnectionDetails::NoDetails))
    );
    assert_eq!(
        client_event_for_connection_error::<u8>(ConnectionError::TimedOut),
        Some(ClientEvent::Disconnected(ClientDisconnectionDetails::Timeout))
    );
    assert_eq!(client_event_for_connection_error::<u8>(ConnectionError::LocallyClosed), None);
}

#[test]
fn connection_attempt_outcomes() {
    assert_eq!(connection_attempt_outcome(Ok::<u32, ConnectionError>(3)), ConnectedOrTimeout::Connected(3));
    assert_eq!(
        connection_attempt_outcome(Err::<u32, ConnectionError>(ConnectionError::TimedOut)),
        ConnectedOrTimeout::Timeout
    );
}
