//! The life cycle of a connection to a server, from the client's side.
//!
//! A client connection is first connecting, then connected, then
//! disconnected (or it goes from connecting to disconnected when the server
//! never answers). [`ClientState`] holds that phase and takes every decision
//! that depends on it: where a message sent goes, which event a poll yields,
//! what a disconnection has to do. The transport objects of the connected
//! phase (`C`) and the messages waiting to be sent (`P`) are carried through
//! unchanged.

use vstd::prelude::*;
use crate::sending::SendingResult;
use crate::transport_errors::ConnectionError;

verus! {

/// Describes an event that happened regarding the connection to a server.
#[derive(Debug, PartialEq, Eq)]
pub enum ClientEvent<R> {
    /// We actually established a connection with the server.
    Connected,
    /// The server sent us a message.
    Message(R),
    /// We got disconnected from the server.
    Disconnected(ClientDisconnectionDetails),
    /// We could not even establish a connection (in a reasonable amount of time).
    FailedToConnect,
}

/// Details about a disconnection event [`ClientEvent::Disconnected`].
#[derive(Debug, Clone, Copy, PartialEq, Eq, Structural)]
pub enum ClientDisconnectionDetails {
    NoDetails,
    /// The server timed out (failed to react in time to stuff).
    Timeout,
}

/// Who ended a connection.
#[derive(Debug, Clone, Copy, PartialEq, Eq, Structural)]
pub enum WhoClosed {
    Us,
    ThePeer,
    /// We timeouted waiting for a connection with the peer to be established.
    /// The peer might as well not exist.
    ThePeerDidntEvenConnect { failed_to_connect_event_already_polled: bool },
}

/// How an attempt to connect ended.
#[derive(Debug, PartialEq, Eq)]
pub enum ConnectedOrTimeout<C> {
    Connected(C),
    Timeout,
}

/// The phase of a client connection, with what each phase holds.
pub enum ClientState<C, P> {
    /// The connection is still in the process of being established.
    /// A message sent meanwhile waits here until the connection is established.
    Connecting { pending_sent_messages: Vec<P> },
    /// The connection is established.
    Connected { connected: C, connected_event_already_polled: bool },
    Disconnected(WhoClosed),
}

/// What a client connection is, mathematically: its phase, with the messages
/// waiting to be sent as a sequence.
pub enum ClientModel<C, P> {
    Connecting(Seq<P>),
    Connected(C, bool),
    Disconnected(WhoClosed),
}

impl<C, P> View for ClientState<C, P> {
    type V = ClientModel<C, P>;

    open spec fn view(&self) -> ClientModel<C, P> {
        match self {
            ClientState::Connecting { pending_sent_messages } => ClientModel::Connecting(
                pending_sent_messages@,
            ),
            ClientState::Connected { connected, connected_event_already_polled } => {
                ClientModel::Connected(*connected, *connected_event_already_polled)
            },
            ClientState::Disconnected(who) => ClientModel::Disconnected(*who),
        }
    }
}

/// What to do with a message that is being sent.
#[derive(Debug, PartialEq, Eq)]
pub enum SendAction<P> {
    /// It waits for the connection to be established; it is handed back then.
    Queued,
    /// Send it now on the established connection.
    SendNow(P),
    /// It cannot be sent; it fails at once with the given result.
    Refused(P, SendingResult),
}

/// What a poll yields.
#[derive(Debug, Clone, Copy, PartialEq, Eq, Structural)]
pub enum ClientPoll {
    /// No event.
    Nothing,
    /// The event [`ClientEvent::Connected`].
    Connected,
    /// The event [`ClientEvent::FailedToConnect`].
    FailedToConnect,
    /// The next event is the next one received from the server, if any.
    FromServer,
}

/// What closing a client connection has to do.
pub enum DisconnectAction<C, P> {
    /// The connection was not established yet: each message waiting to be
    /// sent fails with `result`.
    FailPending { pending: Vec<P>, result: SendingResult },
    /// Close the established connection, and wait for it to be properly closed.
    Close(C),
    /// The connection was already closed: nothing to do.
    AlreadyDisconnected,
}

/// [`DisconnectAction`] with the messages as a sequence.
pub enum DisconnectStep<C, P> {
    FailPending(Seq<P>, SendingResult),
    Close(C),
    AlreadyDisconnected,
}

impl<C, P> View for DisconnectAction<C, P> {
    type V = DisconnectStep<C, P>;

    open spec fn view(&self) -> DisconnectStep<C, P> {
        match self {
            DisconnectAction::FailPending { pending, result } => DisconnectStep::FailPending(
                pending@,
                *result,
            ),
            DisconnectAction::Close(c) => DisconnectStep::Close(*c),
            DisconnectAction::AlreadyDisconnected => DisconnectStep::AlreadyDisconnected,
        }
    }
}

/// The model of a connection that was just created.
pub open spec fn spec_initial<C, P>() -> ClientModel<C, P> {
    ClientModel::Connecting(Seq::empty())
}

/// Taking in the outcome of the connection attempt, if there is one: the new
/// model, and the messages to send now, in the order in which they were sent.
pub open spec fn spec_connect_step<C, P>(
    m: ClientModel<C, P>,
    outcome: Option<ConnectedOrTimeout<C>>,
) -> (ClientModel<C, P>, Seq<P>) {
    match m {
        ClientModel::Connecting(pending) => match outcome {
            Some(ConnectedOrTimeout::Connected(c)) => (ClientModel::Connected(c, false), pending),
            Some(ConnectedOrTimeout::Timeout) => (
                ClientModel::Disconnected(
                    WhoClosed::ThePeerDidntEvenConnect {
                        failed_to_connect_event_already_polled: false,
                    },
                ),
                Seq::empty(),
            ),
            None => (m, Seq::empty()),
        },
        _ => (m, Seq::empty()),
    }
}

/// The result of a message sent on a closed connection.
pub open spec fn spec_result_when_closed(who: WhoClosed) -> SendingResult {
    match who {
        WhoClosed::Us => SendingResult::WeClosed,
        _ => SendingResult::PeerClosedOrDied,
    }
}

/// Sending a message: the new model and what to do with the message.
pub open spec fn spec_send_step<C, P>(m: ClientModel<C, P>, message: P) -> (
    ClientModel<C, P>,
    SendAction<P>,
) {
    match m {
        ClientModel::Connecting(pending) => (
            ClientModel::Connecting(pending.push(message)),
            SendAction::Queued,
        ),
        ClientModel::Connected(_, _) => (m, SendAction::SendNow(message)),
        ClientModel::Disconnected(who) => (
            m,
            SendAction::Refused(message, spec_result_when_closed(who)),
        ),
    }
}

/// Polling for an event: the new model and what the poll yields.
pub open spec fn spec_poll_step<C, P>(m: ClientModel<C, P>) -> (ClientModel<C, P>, ClientPoll) {
    match m {
        ClientModel::Connecting(_) => (m, ClientPoll::Nothing),
        ClientModel::Connected(c, already_polled) => (
            ClientModel::Connected(c, true),
            if already_polled {
                ClientPoll::FromServer
            } else {
                ClientPoll::Connected
            },
        ),
        ClientModel::Disconnected(
            WhoClosed::ThePeerDidntEvenConnect { failed_to_connect_event_already_polled },
        ) => (
            ClientModel::Disconnected(
                WhoClosed::ThePeerDidntEvenConnect { failed_to_connect_event_already_polled: true },
            ),
            if failed_to_connect_event_already_polled {
                ClientPoll::Nothing
            } else {
                ClientPoll::FailedToConnect
            },
        ),
        ClientModel::Disconnected(_) => (m, ClientPoll::Nothing),
    }
}

/// Closing the connection: the new model and what the closing has to do.
pub open spec fn spec_disconnect_step<C, P>(m: ClientModel<C, P>) -> (
    ClientModel<C, P>,
    DisconnectStep<C, P>,
) {
    match m {
        ClientModel::Connecting(pending) => (
            ClientModel::Disconnected(WhoClosed::Us),
            DisconnectStep::FailPending(pending, SendingResult::WeClosed),
        ),
        ClientModel::Connected(c, _) => (
            ClientModel::Disconnected(WhoClosed::Us),
            DisconnectStep::Close(c),
        ),
        ClientModel::Disconnected(_) => (m, DisconnectStep::AlreadyDisconnected),
    }
}

impl<C, P> ClientState<C, P> {
    /// A connection that starts connecting, with no message waiting.
    pub fn new() -> (s: Self)
        ensures
            s@ == spec_initial::<C, P>(),
    {
        ClientState::Connecting { pending_sent_messages: Vec::new() }
    }

    /// Takes the state out, leaving a closed connection in its place.
    fn take(&mut self) -> (s: Self)
        ensures
            s == *old(self),
            *final(self) == ClientState::<C, P>::Disconnected(WhoClosed::Us),
    {
        let mut s = ClientState::Disconnected(WhoClosed::Us);
        std::mem::swap(self, &mut s);
        s
    }

    /// Is the connection still being established?
    pub fn is_connecting(&self) -> (r: bool)
        ensures
            r == (self@ is Connecting),
    {
        match self {
            ClientState::Connecting { .. } => true,
            _ => false,
        }
    }

    /// The transport objects of the established connection, if it is established.
    pub fn connected(&self) -> (r: Option<&C>)
        ensures
            match self@ {
                ClientModel::Connected(c, _) => r == Some(&c),
                _ => r is None,
            },
    {
        match self {
            ClientState::Connected { connected, .. } => Some(connected),
            _ => None,
        }
    }

    /// Transitions to the connected phase if the connection was finally
    /// established, or to the disconnected phase if the attempt timed out.
    /// When connected, returns the messages sent meanwhile, in the order in
    /// which they were sent, to be sent now.
    pub fn connect_if_possible(&mut self, outcome: Option<ConnectedOrTimeout<C>>) -> (flushed: Vec<P>)
        ensures
            (final(self)@, flushed@) == spec_connect_step(old(self)@, outcome),
    {
        let state = self.take();
        match state {
            ClientState::Connecting { pending_sent_messages } => match outcome {
                Some(ConnectedOrTimeout::Connected(connected)) => {
                    *self = ClientState::Connected { connected, connected_event_already_polled: false };
                    pending_sent_messages
                },
                Some(ConnectedOrTimeout::Timeout) => {
                    *self = ClientState::Disconnected(
                        WhoClosed::ThePeerDidntEvenConnect {
                            failed_to_connect_event_already_polled: false,
                        },
                    );
                    Vec::new()
                },
                None => {
                    *self = ClientState::Connecting { pending_sent_messages };
                    Vec::new()
                },
            },
            other => {
                *self = other;
                Vec::new()
            },
        }
    }

    /// Decides what becomes of a message sent to the server: it waits while
    /// connecting, it is sent at once when connected, and it fails at once
    /// when disconnected.
    pub fn send_message(&mut self, message: P) -> (action: SendAction<P>)
        ensures
            (final(self)@, action) == spec_send_step(old(self)@, message),
    {
        let state = self.take();
        match state {
            ClientState::Connecting { mut pending_sent_messages } => {
                pending_sent_messages.push(message);
                *self = ClientState::Connecting { pending_sent_messages };
                SendAction::Queued
            },
            ClientState::Connected { connected, connected_event_already_polled } => {
                *self = ClientState::Connected { connected, connected_event_already_polled };
                SendAction::SendNow(message)
            },
            ClientState::Disconnected(who_closed) => {
                *self = ClientState::Disconnected(who_closed);
                let result = match who_closed {
                    WhoClosed::Us => SendingResult::WeClosed,
                    WhoClosed::ThePeer => SendingResult::PeerClosedOrDied,
                    WhoClosed::ThePeerDidntEvenConnect { .. } => SendingResult::PeerClosedOrDied,
                };
                SendAction::Refused(message, result)
            },
        }
    }

    /// Decides what a poll for an event yields: the connected event once,
    /// first, when connected, then what the server sends; the failed to
    /// connect event once when the attempt timed out; nothing otherwise.
    pub fn poll_event(&mut self) -> (poll: ClientPoll)
        ensures
            (final(self)@, poll) == spec_poll_step(old(self)@),
    {
        let state = self.take();
        match state {
            ClientState::Connecting { pending_sent_messages } => {
                *self = ClientState::Connecting { pending_sent_messages };
                ClientPoll::Nothing
            },
            ClientState::Connected { connected, connected_event_already_polled } => {
                *self = ClientState::Connected { connected, connected_event_already_polled: true };
                if connected_event_already_polled {
                    ClientPoll::FromServer
                } else {
                    ClientPoll::Connected
                }
            },
            ClientState::Disconnected(
                WhoClosed::ThePeerDidntEvenConnect { failed_to_connect_event_already_polled },
            ) => {
                *self = ClientState::Disconnected(
                    WhoClosed::ThePeerDidntEvenConnect {
                        failed_to_connect_event_already_polled: true,
                    },
                );
                if failed_to_connect_event_already_polled {
                    ClientPoll::Nothing
                } else {
                    ClientPoll::FailedToConnect
                }
            },
            ClientState::Disconnected(who_closed) => {
                *self = ClientState::Disconnected(who_closed);
                ClientPoll::Nothing
            },
        }
    }

    /// Closes the connection: the messages still waiting fail with
    /// [`SendingResult::WeClosed`], an established connection is handed
    /// back to be closed, and closing a closed connection does nothing.
    pub fn disconnect(&mut self) -> (action: DisconnectAction<C, P>)
        ensures
            (final(self)@, action@) == spec_disconnect_step(old(self)@),
    {
        let state = self.take();
        match state {
            ClientState::Connecting { pending_sent_messages } => {
                *self = ClientState::Disconnected(WhoClosed::Us);
                DisconnectAction::FailPending {
                    pending: pending_sent_messages,
                    result: SendingResult::WeClosed,
                }
            },
            ClientState::Connected { connected, .. } => {
                *self = ClientState::Disconnected(WhoClosed::Us);
                DisconnectAction::Close(connected)
            },
            ClientState::Disconnected(who_closed) => {
                *self = ClientState::Disconnected(who_closed);
                DisconnectAction::AlreadyDisconnected
            },
        }
    }
}

/// The transport errors that a connection of this library knows how to report.
pub open spec fn spec_handled_connection_error(error: ConnectionError) -> bool {
    ||| error is ApplicationClosed
    ||| error is ConnectionClosed
    ||| error is LocallyClosed
    ||| error is TimedOut
}

/// Does a connection of this library know how to report `error`?
pub fn is_handled_connection_error(error: ConnectionError) -> (handled: bool)
    ensures
        handled == spec_handled_connection_error(error),
{
    match error {
        ConnectionError::ApplicationClosed
        | ConnectionError::ConnectionClosed
        | ConnectionError::LocallyClosed
        | ConnectionError::TimedOut => true,
        _ => false,
    }
}

/// The event, if any, that a lost connection stands for.
pub open spec fn spec_disconnection_details(error: ConnectionError) -> Option<ClientDisconnectionDetails> {
    match error {
        ConnectionError::ApplicationClosed | ConnectionError::ConnectionClosed => Some(
            ClientDisconnectionDetails::NoDetails,
        ),
        ConnectionError::TimedOut => Some(ClientDisconnectionDetails::Timeout),
        _ => None,
    }
}

/// The event that a lost connection to the server stands for: a
/// disconnection (with its details) when the server closed it or timed out,
/// none when we closed it ourselves.
pub fn client_event_for_connection_error<R>(error: ConnectionError) -> (event: Option<ClientEvent<R>>)
    requires
        spec_handled_connection_error(error),
    ensures
        event == match spec_disconnection_details(error) {
            Some(details) => Some(ClientEvent::<R>::Disconnected(details)),
            None => None,
        },
{
    match error {
        ConnectionError::ApplicationClosed => Some(
            ClientEvent::Disconnected(ClientDisconnectionDetails::NoDetails),
        ),
        ConnectionError::ConnectionClosed => Some(
            ClientEvent::Disconnected(ClientDisconnectionDetails::NoDetails),
        ),
        ConnectionError::TimedOut => Some(ClientEvent::Disconnected(ClientDisconnectionDetails::Timeout)),
        _ => None,
    }
}

/// The outcome of an attempt to connect: connected, or timed out.
pub fn connection_attempt_outcome<C>(result: Result<C, ConnectionError>) -> (outcome: ConnectedOrTimeout<C>)
    requires
        result matches Err(e) ==> e is TimedOut,
    ensures
        match result {
            Ok(c) => outcome == ConnectedOrTimeout::Connected(c),
            Err(_) => outcome == ConnectedOrTimeout::<C>::Timeout,
        },
{
    match result {
        Ok(connection) => ConnectedOrTimeout::Connected(connection),
        Err(_) => ConnectedOrTimeout::Timeout,
    }
}

} // verus!
