use warqueen::server::{
    client_on_server_event_for_stream, connection_error_to_client_on_server_event, next_port_to_try,
    ports_to_bind,
};
use warqueen::transport_errors::{ConnectionError, ReadError, ReadToEndError};
use warqueen::{ClientOnServerDisconnectionDetails, ClientOnServerEvent};

#[test]
fn lost_connection_to_client_events() {
    assert_eq!(
        connection_error_to_client_on_server_event::<u8>(ConnectionError::ApplicationClosed),
        Some(ClientOnServerEvent::Disconnected(ClientOnServerDisconnectionDetails::NoDetails))
    );
    assert_eq!(
        connection_error_to_client_on_server_event::<u8>(ConnectionError::ConnectionClosed),
        Some(ClientOnServerEvent::Disconnected(ClientOnServerDisconnectionDetails::NoDetails))
    );
    assert_eq!(
        connection_error_to_client_on_server_event::<u8>(ConnectionError::TimedOut),
        Some(ClientOnServerEvent::Disconnected(ClientOnServerDisconnectionDetails::Timeout))
    );
    assert_eq!(connection_error_to_client_on_server_event::<u8>(ConnectionError::LocallyClosed), None);
}

#[test]
fn stream_read_events() {
    assert_eq!(client_on_server_event_for_stream::<u8>(Ok(5)), Some(ClientOnServerEvent::Message(5)));
    assert_eq!(
        client_on_server_event_for_stream::<u8>(Err(ReadToEndError::Read(ReadError::ConnectionLost(
            ConnectionError::TimedOut
        )))),
        Some(ClientOnServerEvent::Disconnected(ClientOnServerDisconnectionDetails::Timeout))
    );
    assert_eq!(
        client_on_server_event_for_stream::<u8>(Err(ReadToEndError::Read(ReadError::ConnectionLost(
            ConnectionError::ApplicationClosed
        )))),
        Some(ClientOnServerEvent::Disconnected(ClientOnServerDisconnectionDetails::NoDetails))
    );
    assert_eq!(
        client_on_server_event_for_stream::<u8>(Err(ReadToEndError::Read(ReadError::ConnectionLost(
            ConnectionError::LocallyClosed
        )))),
        None
    );
}

#[test]
fn ports_tried_one_after_the_other() {
    assert_eq!(next_port_to_try(21001), 21002);
    assert_eq!(next_port_to_try(0), 1);
    assert_eq!(next_port_to_try(65534), 65535);
    assert_eq!(next_port_to_try(65535), 0);
    let mut port: u16 = 65533;
    let mut tried = vec![];
    for _ in 0..5 {
        tried.push(port);
        port = next_port_to_try(port);
    }
    assert_eq!(tried, vec![65533, 65534, 65535, 0, 1]);
}

#[test]
fn port_bound_first() {
    assert_eq!(ports_to_bind(Some(21001)), (21001, true));
    assert_eq!(ports_to_bind(Some(0)), (0, true));
    assert_eq!(ports_to_bind(None), (0, false));
}
