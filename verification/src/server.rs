//! The decisions of the server side: what the transport's outcomes stand for,
//! and which ports the listener tries.

use vstd::prelude::*;
use crate::client::{
    is_handled_connection_error, spec_disconnection_details, spec_handled_connection_error,
    ClientDisconnectionDetails,
};
use crate::transport_errors::{ConnectionError, ReadError, ReadToEndError};

verus! {

/// Describes an event that happened regarding the connection to a client.
#[derive(Debug, PartialEq, Eq)]
pub enum ClientOnServerEvent<R> {
    /// The client sent us a message.
    Message(R),
    /// We got disconnected from the client.
    Disconnected(ClientOnServerDisconnectionDetails),
}

/// Details about a disconnection event [`ClientOnServerEvent::Disconnected`].
#[derive(Debug, Clone, Copy, PartialEq, Eq, Structural)]
pub enum ClientOnServerDisconnectionDetails {
    NoDetails,
    /// The client timed out (failed to react in time to stuff).
    Timeout,
}

/// The disconnection event, if any, that a lost connection to a client stands for.
pub open spec fn spec_client_on_server_event<R>(error: ConnectionError) -> Option<ClientOnServerEvent<R>> {
    match error {
        ConnectionError::ApplicationClosed | ConnectionError::ConnectionClosed => Some(
            ClientOnServerEvent::Disconnected(ClientOnServerDisconnectionDetails::NoDetails),
        ),
        ConnectionError::TimedOut => Some(
            ClientOnServerEvent::Disconnected(ClientOnServerDisconnectionDetails::Timeout),
        ),
        _ => None,
    }
}

/// The event that a lost connection to a client stands for: a disconnection
/// (with its details) when the client closed it or timed out, none when we
/// closed it ourselves.
pub fn connection_error_to_client_on_server_event<R>(error: ConnectionError) -> (event: Option<
    ClientOnServerEvent<R>,
>)
    requires
        spec_handled_connection_error(error),
    ensures
        event == spec_client_on_server_event::<R>(error),
{
    match error {
        ConnectionError::ApplicationClosed => Some(
            ClientOnServerEvent::Disconnected(ClientOnServerDisconnectionDetails::NoDetails),
        ),
        ConnectionError::ConnectionClosed => Some(
            ClientOnServerEvent::Disconnected(ClientOnServerDisconnectionDetails::NoDetails),
        ),
        ConnectionError::TimedOut => Some(
            ClientOnServerEvent::Disconnected(ClientOnServerDisconnectionDetails::Timeout),
        ),
        _ => None,
    }
}

/// A lost connection is handled (reported rather than a panic) exactly when
/// it is reported as a disconnection or when we closed it ourselves. The
/// client and the server report the same disconnections: a timeout as a
/// timeout, a close by the peer without details, and nothing when we closed
/// the connection ourselves.
pub proof fn lemma_lost_connections_reported<R>(error: ConnectionError)
    ensures
        spec_handled_connection_error(error) <==> (spec_disconnection_details(error) is Some
            || error is LocallyClosed),
        spec_handled_connection_error(error) <==> (spec_client_on_server_event::<R>(error) is Some
            || error is LocallyClosed),
        error is TimedOut ==> spec_disconnection_details(error) == Some(
            ClientDisconnectionDetails::Timeout,
        ) && spec_client_on_server_event::<R>(error) == Some(
            ClientOnServerEvent::<R>::Disconnected(ClientOnServerDisconnectionDetails::Timeout),
        ),
        (error is ApplicationClosed || error is ConnectionClosed) ==> spec_disconnection_details(error)
            == Some(ClientDisconnectionDetails::NoDetails) && spec_client_on_server_event::<R>(error)
            == Some(
            ClientOnServerEvent::<R>::Disconnected(ClientOnServerDisconnectionDetails::NoDetails),
        ),
        error is LocallyClosed ==> spec_disconnection_details(error) is None
            && spec_client_on_server_event::<R>(error) is None,
        !(error is ApplicationClosed || error is ConnectionClosed || error is TimedOut
            || error is LocallyClosed) ==> !spec_handled_connection_error(error),
{
}

/// The failures to read a stream from a client that the server knows how to
/// report: a connection lost in a way it can report.
pub open spec fn spec_handled_read_failure(error: ReadToEndError) -> bool {
    match error {
        ReadToEndError::Read(ReadError::ConnectionLost(e)) => spec_handled_connection_error(e),
        _ => false,
    }
}

/// The outcomes of reading a stream from a client that the server knows how
/// to report: a message, or a failure it knows how to report.
pub open spec fn spec_handled_stream_read<R>(result: Result<R, ReadToEndError>) -> bool {
    match result {
        Ok(_) => true,
        Err(error) => spec_handled_read_failure(error),
    }
}

/// Does the server know how to report the failure `error` to read a stream?
pub fn is_handled_read_failure(error: ReadToEndError) -> (handled: bool)
    ensures
        handled == spec_handled_read_failure(error),
{
    match error {
        ReadToEndError::Read(ReadError::ConnectionLost(e)) => is_handled_connection_error(e),
        _ => false,
    }
}

/// The event that reading a whole stream from a client stands for: the
/// message read, or what the lost connection stands for.
pub fn client_on_server_event_for_stream<R>(result: Result<R, ReadToEndError>) -> (event: Option<
    ClientOnServerEvent<R>,
>)
    requires
        spec_handled_stream_read(result),
    ensures
        match result {
            Ok(message) => event == Some(ClientOnServerEvent::Message(message)),
            Err(ReadToEndError::Read(ReadError::ConnectionLost(e))) => event
                == spec_client_on_server_event::<R>(e),
            Err(_) => false,
        },
{
    match result {
        Ok(message) => Some(ClientOnServerEvent::Message(message)),
        Err(ReadToEndError::Read(ReadError::ConnectionLost(error))) => {
            connection_error_to_client_on_server_event(error)
        },
        Err(_) => None,
    }
}

/// The port bound first, and whether the ports that follow it are tried
/// when it is not available: the desired port, followed by the others; or,
/// when no port is asked for, the wildcard port 0 (the system picks a free
/// one), alone.
pub fn ports_to_bind(desired_port: Option<u16>) -> (plan: (u16, bool))
    ensures
        plan == match desired_port {
            Some(port) => (port, true),
            None => (0u16, false),
        },
{
    match desired_port {
        Some(port) => (port, true),
        None => (0, false),
    }
}

/// The port tried after `port` when it was not available: the next one,
/// wrapping around after the last.
pub open spec fn spec_next_port(port: u16) -> u16 {
    if port == u16::MAX {
        0
    } else {
        (port + 1) as u16
    }
}

/// The port tried after `port` when it was not available.
pub fn next_port_to_try(port: u16) -> (next: u16)
    ensures
        next == spec_next_port(port),
{
    port.wrapping_add(1)
}

/// The port tried after `tries` ports, starting at `desired`, were not available.
pub open spec fn spec_port_after(desired: u16, tries: nat) -> u16
    decreases tries,
{
    if tries == 0 {
        desired
    } else {
        spec_next_port(spec_port_after(desired, (tries - 1) as nat))
    }
}

/// The listener tries the desired port, then the port that follows, and the
/// next, and so on, wrapping around after the last port: after `tries`
/// unavailable ports it tries `desired + tries` modulo the number of ports,
/// so that any port is tried after fewer tries than there are ports.
pub proof fn lemma_ports_tried_in_order(desired: u16, tries: nat)
    ensures
        spec_port_after(desired, tries) == (desired + tries) % 0x10000,
        forall|port: u16|
            #![trigger spec_port_after(desired, ((port - desired) % 0x10000) as nat)]
            spec_port_after(desired, ((port - desired) % 0x10000) as nat) == port,
{
    lemma_port_after_mod(desired, tries);
    assert forall|port: u16| #![trigger spec_port_after(desired, ((port - desired) % 0x10000) as nat)]
        spec_port_after(desired, ((port - desired) % 0x10000) as nat) == port by {
        lemma_port_after_mod(desired, ((port - desired) % 0x10000) as nat);
    }
}

proof fn lemma_port_after_mod(desired: u16, tries: nat)
    ensures
        spec_port_after(desired, tries) == (desired + tries) % 0x10000,
    decreases tries,
{
    if tries > 0 {
        lemma_port_after_mod(desired, (tries - 1) as nat);
    }
}

} // verus!
