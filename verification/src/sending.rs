//! The outcome of sending one message.

use vstd::prelude::*;
use crate::transport_errors::{ConnectionError, SendingError, StoppedError, WriteError};
use tokio::sync::oneshot::error::TryRecvError;
use tokio::sync::oneshot::Receiver;

verus! {

/// Was the message successfully sent, or did it fail (and why)?
#[derive(Debug, Clone, Copy, PartialEq, Eq, Structural)]
pub enum SendingResult {
    /// The message was sent with success!
    Sent,
    /// We (ourselves, not the peer) closed the connection before the message was entirely sent.
    WeClosed,
    /// The peer closed the connection (either intentionally or due to a panic/crash/shutdown)
    /// before the message was entirely received.
    PeerClosedOrDied,
    /// An error occured which prevented the sending of the message.
    Error,
}

/// The sending result that a lost connection stands for.
pub open spec fn spec_result_for_connection_error(error: ConnectionError) -> SendingResult {
    match error {
        ConnectionError::LocallyClosed => SendingResult::WeClosed,
        ConnectionError::ApplicationClosed
        | ConnectionError::ConnectionClosed
        | ConnectionError::Reset
        | ConnectionError::TimedOut => SendingResult::PeerClosedOrDied,
        ConnectionError::VersionMismatch
        | ConnectionError::TransportError
        | ConnectionError::CidsExhausted => SendingResult::Error,
    }
}

/// The sending result that the outcome of the sending steps stands for: the
/// connection error where a step lost the connection, `Error` for any other failure.
pub open spec fn spec_result_for_sending(result: Result<(), SendingError>) -> SendingResult {
    match result {
        Ok(()) => SendingResult::Sent,
        Err(SendingError::OpenUni(e)) => spec_result_for_connection_error(e),
        Err(SendingError::WriteAll(WriteError::ConnectionLost(e))) => spec_result_for_connection_error(e),
        Err(SendingError::Stopped(StoppedError::ConnectionLost(e))) => spec_result_for_connection_error(e),
        Err(_) => SendingResult::Error,
    }
}

/// The connection error that ended the sending, when a step of it lost the connection.
pub open spec fn spec_lost_connection(result: Result<(), SendingError>) -> Option<ConnectionError> {
    match result {
        Err(SendingError::OpenUni(e)) => Some(e),
        Err(SendingError::WriteAll(WriteError::ConnectionLost(e))) => Some(e),
        Err(SendingError::Stopped(StoppedError::ConnectionLost(e))) => Some(e),
        _ => None,
    }
}

/// Every sending result answers yes to exactly one of the three questions:
/// was it sent, did it fail because the connection closed, did it fail
/// because of an error.
pub proof fn lemma_sending_result_partition(r: SendingResult)
    ensures
        (r is Sent) || (r is WeClosed || r is PeerClosedOrDied) || (r is Error),
        (r is Sent) ==> !(r is WeClosed || r is PeerClosedOrDied) && !(r is Error),
        (r is WeClosed || r is PeerClosedOrDied) ==> !(r is Sent) && !(r is Error),
        (r is Error) ==> !(r is Sent) && !(r is WeClosed || r is PeerClosedOrDied),
{
}

/// A message is reported sent exactly when every step of its sending
/// succeeded; it is reported as failed because the connection closed only
/// when a step lost the connection, and as closed by us exactly when we
/// closed the connection ourselves.
pub proof fn lemma_sending_outcome(result: Result<(), SendingError>)
    ensures
        (spec_result_for_sending(result) is Sent) <==> (result is Ok),
        (spec_result_for_sending(result) is WeClosed) <==> (spec_lost_connection(result) == Some(
            ConnectionError::LocallyClosed,
        )),
        (spec_result_for_sending(result) is PeerClosedOrDied) ==> (spec_lost_connection(result) is Some),
{
}

/// Which step of the sending lost the connection does not matter: the
/// result is decided by the connection error alone.
pub proof fn lemma_result_independent_of_step(error: ConnectionError)
    ensures
        spec_result_for_sending(Err(SendingError::OpenUni(error))) == spec_result_for_sending(
            Err(SendingError::WriteAll(WriteError::ConnectionLost(error))),
        ),
        spec_result_for_sending(Err(SendingError::OpenUni(error))) == spec_result_for_sending(
            Err(SendingError::Stopped(StoppedError::ConnectionLost(error))),
        ),
        spec_result_for_sending(Err(SendingError::OpenUni(error))) == spec_result_for_connection_error(
            error,
        ),
{
}

/// A sending that lost the connection because the peer closed it, reset it
/// or went silent fails with `PeerClosedOrDied`; because we closed it, with
/// `WeClosed`; because the protocol failed, with `Error`. A sending that
/// failed without losing the connection fails with `Error`.
pub proof fn lemma_lost_connection_classified(result: Result<(), SendingError>)
    ensures
        spec_lost_connection(result) matches Some(e) ==> {
            &&& (e is ApplicationClosed || e is ConnectionClosed || e is Reset || e is TimedOut)
                <==> spec_result_for_sending(result) == SendingResult::PeerClosedOrDied
            &&& (e is LocallyClosed) <==> spec_result_for_sending(result) == SendingResult::WeClosed
            &&& (e is VersionMismatch || e is TransportError || e is CidsExhausted)
                <==> spec_result_for_sending(result) == SendingResult::Error
        },
        (result is Err && spec_lost_connection(result) is None) ==> spec_result_for_sending(result)
            == SendingResult::Error,
{
}

impl SendingResult {
    /// Has the message been successfully sent?
    pub fn sent(&self) -> (r: bool)
        ensures
            r == (*self is Sent),
    {
        match self {
            SendingResult::Sent => true,
            _ => false,
        }
    }

    /// Has the message failed to be sent due to the connection being closed?
    ///
    /// Ignoring such situation might be appropriate.
    pub fn failed_due_to_connection_closed(&self) -> (r: bool)
        ensures
            r == (*self is WeClosed || *self is PeerClosedOrDied),
    {
        match self {
            SendingResult::WeClosed | SendingResult::PeerClosedOrDied => true,
            _ => false,
        }
    }

    /// Has the message failed to be sent due to some error
    /// (and not due to the connection being closed)?
    pub fn failed_due_to_error(&self) -> (r: bool)
        ensures
            r == (*self is Error),
    {
        match self {
            SendingResult::Error => true,
            _ => false,
        }
    }

    /// Classifies the outcome of the sending steps of one message.
    pub fn from_result(result: Result<(), SendingError>) -> (r: SendingResult)
        ensures
            r == spec_result_for_sending(result),
    {
        match result {
            Ok(()) => SendingResult::Sent,
            Err(SendingError::OpenUni(connection_error)) => SendingResult::from_connection_error(
                connection_error,
            ),
            Err(SendingError::WriteAll(WriteError::ConnectionLost(connection_error))) => {
                SendingResult::from_connection_error(connection_error)
            },
            Err(SendingError::Stopped(StoppedError::ConnectionLost(connection_error))) => {
                SendingResult::from_connection_error(connection_error)
            },
            Err(_) => SendingResult::Error,
        }
    }

    /// Classifies a lost connection: closed by us, closed (or gone) on the
    /// peer's side, or an error.
    pub fn from_connection_error(connection_error: ConnectionError) -> (r: SendingResult)
        ensures
            r == spec_result_for_connection_error(connection_error),
    {
        match connection_error {
            ConnectionError::LocallyClosed => SendingResult::WeClosed,
            ConnectionError::ApplicationClosed
            | ConnectionError::ConnectionClosed
            | ConnectionError::Reset
            | ConnectionError::TimedOut => SendingResult::PeerClosedOrDied,
            ConnectionError::VersionMismatch
            | ConnectionError::TransportError
            | ConnectionError::CidsExhausted => SendingResult::Error,
        }
    }
}


/// The receiving half of tokio's one-shot channel, through which the task
/// that sends a message reports its result.
#[verifier::external_type_specification]
#[verifier::external_body]
#[verifier::reject_recursive_types(T)]
pub struct ExOneshotReceiver<T>(tokio::sync::oneshot::Receiver<T>);

/// The error of awaiting that receiver: the sending half was dropped
/// without sending a value.
#[verifier::external_type_specification]
#[verifier::external_body]
pub struct ExOneshotRecvError(tokio::sync::oneshot::error::RecvError);

/// When a message is sent, it is sent asynchronously over a period.
/// This handle allows to get to know if the message was really properly sent in the end
/// or if something went wrong and what, the information is not available immediately.
pub struct SendingStateHandle {
    result_receiver: Receiver<SendingResult>,
}

/// Has the message finished being sent? With what [`SendingResult`]?
pub enum SendingState {
    /// The message is still in the process of being sent.
    /// It will finish being sent (or fail) later.
    /// The [`SendingStateHandle`] used to get this sending state is given back
    /// to try again later.
    StillBeingSent(SendingStateHandle),
    /// The message is not being sent anymore.
    /// It has either being successfully sent (in the case of [`SendingResult::Sent`])
    /// or its sending has failed (any other `SendingResult` variant.)
    Result(SendingResult),
}

/// What looking into the result channel found.
#[derive(Debug, Clone, Copy, PartialEq, Eq, Structural)]
pub enum ResultPoll {
    /// The sending task reported this result.
    Received(SendingResult),
    /// The sending task has not reported yet.
    Empty,
    /// The sending task is gone without reporting (or the result was already taken).
    Closed,
}

/// Calls `tokio::sync::oneshot::Receiver::try_recv`, telling its three
/// outcomes apart. What comes back depends on whether the sending task has
/// reported yet, so nothing is promised of it; when nothing was there, the
/// receiver is left as it was (tokio returns before clearing it).
#[verifier::external_body]
fn try_receive_result(receiver: &mut Receiver<SendingResult>) -> (poll: ResultPoll)
    ensures
        poll is Empty ==> *final(receiver) == *old(receiver),
{
    match receiver.try_recv() {
        Ok(result) => ResultPoll::Received(result),
        Err(TryRecvError::Empty) => ResultPoll::Empty,
        Err(TryRecvError::Closed) => ResultPoll::Closed,
    }
}

impl SendingStateHandle {
    /// The channel through which the result of the sending comes.
    pub closed spec fn receiver(&self) -> Receiver<SendingResult> {
        self.result_receiver
    }

    /// A handle on the result that comes through `result_receiver`.
    pub fn from_result_receiver(result_receiver: Receiver<SendingResult>) -> (handle: SendingStateHandle)
        ensures
            handle.receiver() == result_receiver,
    {
        SendingStateHandle { result_receiver }
    }

    /// Has the message finished being sent? If yes, was is successfully sent?
    /// The returned sending state answers these questions, and if the answer is that the message
    /// is still being sent then it gives back this handle to ask again later.
    pub fn get_state(self) -> (state: SendingState)
        ensures
            state matches SendingState::StillBeingSent(handle) ==> handle == self,
    {
        let mut handle = self;
        let poll = try_receive_result(&mut handle.result_receiver);
        handle.state_after(poll)
    }

    /// The sending state that what was found in the result channel stands
    /// for: the result received; [`SendingResult::Error`] when the sending
    /// task is gone without a result; this handle back when there is no
    /// result yet.
    pub fn state_after(self, poll: ResultPoll) -> (state: SendingState)
        ensures
            match poll {
                ResultPoll::Received(result) => state == SendingState::Result(result),
                ResultPoll::Closed => state == SendingState::Result(SendingResult::Error),
                ResultPoll::Empty => state == SendingState::StillBeingSent(self),
            },
    {
        match poll {
            ResultPoll::Received(result) => SendingState::Result(result),
            ResultPoll::Closed => SendingState::Result(SendingResult::Error),
            ResultPoll::Empty => SendingState::StillBeingSent(self),
        }
    }
}

} // verus!
