//! What holds of a client connection over any sequence of operations.

use vstd::prelude::*;
use crate::client::{
    spec_connect_step, spec_disconnect_step, spec_initial, spec_poll_step, spec_send_step, ClientModel,
    ClientPoll, ConnectedOrTimeout, DisconnectStep, SendAction, WhoClosed,
};
use crate::sending::SendingResult;

verus! {

/// One operation on a client connection.
pub enum ClientOp<C, P> {
    /// Taking in the outcome of the connection attempt, if it ended.
    ConnectIfPossible(Option<ConnectedOrTimeout<C>>),
    /// Sending a message.
    Send(P),
    /// Polling for an event.
    Poll,
    /// Closing the connection.
    Disconnect,
}

/// The model after one operation.
pub open spec fn spec_apply<C, P>(m: ClientModel<C, P>, op: ClientOp<C, P>) -> ClientModel<C, P> {
    match op {
        ClientOp::ConnectIfPossible(outcome) => spec_connect_step(m, outcome).0,
        ClientOp::Send(message) => spec_send_step(m, message).0,
        ClientOp::Poll => spec_poll_step(m).0,
        ClientOp::Disconnect => spec_disconnect_step(m).0,
    }
}

/// The model after a sequence of operations.
pub open spec fn spec_run<C, P>(m: ClientModel<C, P>, ops: Seq<ClientOp<C, P>>) -> ClientModel<C, P>
    decreases ops.len(),
{
    if ops.len() == 0 {
        m
    } else {
        spec_apply(spec_run(m, ops.drop_last()), ops.last())
    }
}

/// What the polls of a sequence of operations yield, in order.
pub open spec fn spec_polls<C, P>(m: ClientModel<C, P>, ops: Seq<ClientOp<C, P>>) -> Seq<ClientPoll>
    decreases ops.len(),
{
    if ops.len() == 0 {
        Seq::empty()
    } else {
        let before = spec_polls(m, ops.drop_last());
        if ops.last() is Poll {
            before.push(spec_poll_step(spec_run(m, ops.drop_last())).1)
        } else {
            before
        }
    }
}

/// The messages of a sequence of operations that are sent, in order.
pub open spec fn spec_sent<C, P>(ops: Seq<ClientOp<C, P>>) -> Seq<P>
    decreases ops.len(),
{
    if ops.len() == 0 {
        Seq::empty()
    } else {
        let before = spec_sent(ops.drop_last());
        match ops.last() {
            ClientOp::Send(message) => before.push(message),
            _ => before,
        }
    }
}

/// A sequence of operations in which the connection attempt does not end
/// and the connection is not closed.
pub open spec fn spec_keeps_connecting<C, P>(ops: Seq<ClientOp<C, P>>) -> bool {
    forall|i: int|
        0 <= i < ops.len() ==> match #[trigger] ops[i] {
            ClientOp::ConnectIfPossible(Some(_)) => false,
            ClientOp::Disconnect => false,
            _ => true,
        }
}

/// `event` occurs at most once in `polls`.
pub open spec fn spec_at_most_once(polls: Seq<ClientPoll>, event: ClientPoll) -> bool {
    forall|i: int, j: int|
        0 <= i < j < polls.len() && #[trigger] polls[i] == event ==> #[trigger] polls[j] != event
}

/// `event` does not occur in `polls`.
pub open spec fn spec_never(polls: Seq<ClientPoll>, event: ClientPoll) -> bool {
    forall|i: int| 0 <= i < polls.len() ==> #[trigger] polls[i] != event
}

/// Every poll that reads from the server comes after the connected event.
pub open spec fn spec_server_after_connected(polls: Seq<ClientPoll>) -> bool {
    forall|i: int|
        0 <= i < polls.len() && #[trigger] polls[i] == ClientPoll::FromServer ==> exists|j: int|
            0 <= j < i && #[trigger] polls[j] == ClientPoll::Connected
}

/// What the polls so far and the phase reached say of each other.
spec fn spec_events_inv<C, P>(m: ClientModel<C, P>, polls: Seq<ClientPoll>) -> bool {
    &&& spec_at_most_once(polls, ClientPoll::Connected)
    &&& spec_at_most_once(polls, ClientPoll::FailedToConnect)
    &&& spec_never(polls, ClientPoll::Connected) || spec_never(polls, ClientPoll::FailedToConnect)
    &&& spec_server_after_connected(polls)
    &&& match m {
        ClientModel::Connecting(_) => spec_never(polls, ClientPoll::Connected) && spec_never(
            polls,
            ClientPoll::FailedToConnect,
        ),
        ClientModel::Connected(_, already_polled) => {
            &&& spec_never(polls, ClientPoll::FailedToConnect)
            &&& !already_polled ==> spec_never(polls, ClientPoll::Connected)
            &&& already_polled ==> !spec_never(polls, ClientPoll::Connected)
        },
        ClientModel::Disconnected(
            WhoClosed::ThePeerDidntEvenConnect { failed_to_connect_event_already_polled },
        ) => {
            &&& spec_never(polls, ClientPoll::Connected)
            &&& !failed_to_connect_event_already_polled ==> spec_never(
                polls,
                ClientPoll::FailedToConnect,
            )
        },
        ClientModel::Disconnected(_) => true,
    }
}

/// Appending one poll result keeps the properties of the polls that it does not break.
proof fn lemma_push_poll(polls: Seq<ClientPoll>, e: ClientPoll)
    ensures
        forall|x: ClientPoll|
            spec_at_most_once(polls, x) && (e == x ==> spec_never(polls, x)) ==> #[trigger] spec_at_most_once(
                polls.push(e),
                x,
            ),
        forall|x: ClientPoll|
            spec_never(polls, x) && e != x ==> #[trigger] spec_never(polls.push(e), x),
        forall|x: ClientPoll| !spec_never(polls, x) ==> !#[trigger] spec_never(polls.push(e), x),
        spec_server_after_connected(polls) && (e == ClientPoll::FromServer ==> !spec_never(
            polls,
            ClientPoll::Connected,
        )) ==> spec_server_after_connected(polls.push(e)),
{
    let polls2 = polls.push(e);
    assert forall|i: int| 0 <= i < polls.len() implies #[trigger] polls2[i] == polls[i] by {}
    assert forall|x: ClientPoll|
        spec_at_most_once(polls, x) && (e == x ==> spec_never(polls, x)) implies #[trigger] spec_at_most_once(
        polls2,
        x,
    ) by {
        assert forall|i: int, j: int|
            0 <= i < j < polls2.len() && #[trigger] polls2[i] == x implies #[trigger] polls2[j] != x by {
            if j < polls.len() {
                assert(polls2[i] == polls[i] && polls2[j] == polls[j]);
            } else {
                assert(polls2[i] == polls[i]);
            }
        }
    }
    assert forall|x: ClientPoll| !spec_never(polls, x) implies !#[trigger] spec_never(polls2, x) by {
        let i = choose|i: int| 0 <= i < polls.len() && #[trigger] polls[i] == x;
        assert(polls2[i] == x);
    }
    if spec_server_after_connected(polls) && (e == ClientPoll::FromServer ==> !spec_never(
        polls,
        ClientPoll::Connected,
    )) {
        assert forall|i: int|
            0 <= i < polls2.len() && #[trigger] polls2[i] == ClientPoll::FromServer implies exists|j: int|
            0 <= j < i && #[trigger] polls2[j] == ClientPoll::Connected by {
            if i < polls.len() {
                assert(polls[i] == ClientPoll::FromServer);
                let j = choose|j: int| 0 <= j < i && #[trigger] polls[j] == ClientPoll::Connected;
                assert(polls2[j] == ClientPoll::Connected);
            } else {
                let j = choose|j: int| 0 <= j < polls.len() && #[trigger] polls[j] == ClientPoll::Connected;
                assert(polls2[j] == ClientPoll::Connected);
            }
        }
    }
}

/// A poll keeps the invariant.
proof fn lemma_events_inv_poll<C, P>(m: ClientModel<C, P>, polls: Seq<ClientPoll>)
    requires
        spec_events_inv(m, polls),
    ensures
        spec_events_inv(spec_poll_step(m).0, polls.push(spec_poll_step(m).1)),
{
    let e = spec_poll_step(m).1;
    lemma_push_poll(polls, e);
    let polls2 = polls.push(e);
    if let ClientModel::Connected(_, already_polled) = m {
        if !already_polled {
            assert(polls2[polls.len() as int] == ClientPoll::Connected);
        }
    }
}

/// Any other operation keeps the invariant, with the polls unchanged.
proof fn lemma_events_inv_other<C, P>(m: ClientModel<C, P>, polls: Seq<ClientPoll>, op: ClientOp<C, P>)
    requires
        spec_events_inv(m, polls),
        !(op is Poll),
    ensures
        spec_events_inv(spec_apply(m, op), polls),
{
}

proof fn lemma_events_inv<C, P>(ops: Seq<ClientOp<C, P>>)
    ensures
        spec_events_inv(spec_run(spec_initial::<C, P>(), ops), spec_polls(spec_initial::<C, P>(), ops)),
    decreases ops.len(),
{
    if ops.len() > 0 {
        let prefix = ops.drop_last();
        lemma_events_inv(prefix);
        let m = spec_run(spec_initial::<C, P>(), prefix);
        let polls = spec_polls(spec_initial::<C, P>(), prefix);
        if ops.last() is Poll {
            lemma_events_inv_poll(m, polls);
        } else {
            lemma_events_inv_other(m, polls, ops.last());
        }
    }
}

/// Over any sequence of operations on a new client connection, the connected
/// event is polled at most once, the failed to connect event at most once,
/// never both, and nothing is read from the server before the connected event.
pub proof fn lemma_client_events_well_ordered<C, P>(ops: Seq<ClientOp<C, P>>)
    ensures
        spec_at_most_once(spec_polls(spec_initial::<C, P>(), ops), ClientPoll::Connected),
        spec_at_most_once(spec_polls(spec_initial::<C, P>(), ops), ClientPoll::FailedToConnect),
        spec_never(spec_polls(spec_initial::<C, P>(), ops), ClientPoll::Connected) || spec_never(
            spec_polls(spec_initial::<C, P>(), ops),
            ClientPoll::FailedToConnect,
        ),
        spec_server_after_connected(spec_polls(spec_initial::<C, P>(), ops)),
{
    lemma_events_inv(ops);
}

/// A sequence of operations in which the connection attempt never succeeds.
pub open spec fn spec_never_connects<C, P>(ops: Seq<ClientOp<C, P>>) -> bool {
    forall|i: int|
        0 <= i < ops.len() ==> !(#[trigger] ops[i] matches ClientOp::ConnectIfPossible(
            Some(ConnectedOrTimeout::Connected(_)),
        ))
}

/// If the connection is never established, the connected event is never
/// polled and nothing is ever read from the server.
pub proof fn lemma_no_connected_event_without_connection<C, P>(ops: Seq<ClientOp<C, P>>)
    requires
        spec_never_connects(ops),
    ensures
        !(spec_run(spec_initial::<C, P>(), ops) is Connected),
        spec_never(spec_polls(spec_initial::<C, P>(), ops), ClientPoll::Connected),
        spec_never(spec_polls(spec_initial::<C, P>(), ops), ClientPoll::FromServer),
    decreases ops.len(),
{
    if ops.len() > 0 {
        let prefix = ops.drop_last();
        assert forall|i: int| 0 <= i < prefix.len() implies !(#[trigger] prefix[i] matches ClientOp::ConnectIfPossible(
            Some(ConnectedOrTimeout::Connected(_)),
        )) by {
            assert(prefix[i] == ops[i]);
        }
        lemma_no_connected_event_without_connection(prefix);
        assert(ops.last() == ops[ops.len() - 1]);
        let polls = spec_polls(spec_initial::<C, P>(), prefix);
        if ops.last() is Poll {
            let e = spec_poll_step(spec_run(spec_initial::<C, P>(), prefix)).1;
            assert forall|i: int| 0 <= i < polls.len() implies #[trigger] polls.push(e)[i] == polls[i] by {}
        }
    }
}

/// While the connection is being established, whatever else happens, every
/// message sent waits, after those already waiting, in the order in which it
/// was sent.
pub proof fn lemma_messages_wait_in_order<C, P>(pending: Seq<P>, ops: Seq<ClientOp<C, P>>)
    requires
        spec_keeps_connecting(ops),
    ensures
        spec_run(ClientModel::Connecting(pending), ops) == ClientModel::<C, P>::Connecting(
            pending + spec_sent(ops),
        ),
    decreases ops.len(),
{
    if ops.len() > 0 {
        let prefix = ops.drop_last();
        assert forall|i: int| 0 <= i < prefix.len() implies match #[trigger] prefix[i] {
            ClientOp::ConnectIfPossible(Some(_)) => false,
            ClientOp::Disconnect => false,
            _ => true,
        } by {
            assert(prefix[i] == ops[i]);
        }
        lemma_messages_wait_in_order(pending, prefix);
        let last = ops.last();
        assert(last == ops[ops.len() - 1]);
        match last {
            ClientOp::Send(message) => {
                assert(pending + spec_sent(prefix).push(message) == (pending + spec_sent(
                    prefix,
                )).push(message));
            },
            _ => {},
        }
    }
}

/// The messages sent to the server before the connection is established are
/// all sent when it is established, in the order in which they were sent.
pub proof fn lemma_pending_messages_sent_on_connection<C, P>(ops: Seq<ClientOp<C, P>>, connected: C)
    requires
        spec_keeps_connecting(ops),
    ensures
        spec_connect_step(
            spec_run(spec_initial::<C, P>(), ops),
            Some(ConnectedOrTimeout::Connected(connected)),
        ) == (ClientModel::<C, P>::Connected(connected, false), spec_sent(ops)),
{
    lemma_messages_wait_in_order(Seq::<P>::empty(), ops);
    assert(Seq::<P>::empty() + spec_sent(ops) == spec_sent(ops));
}

/// Once we closed a connection that was established or being established,
/// it stays closed by us: a message sent then fails with `WeClosed`, a poll
/// yields nothing, and closing it again does nothing.
pub proof fn lemma_closed_by_us<C, P>(m: ClientModel<C, P>, message: P)
    requires
        !(m is Disconnected),
    ensures
        spec_disconnect_step(m).0 == ClientModel::<C, P>::Disconnected(WhoClosed::Us),
        spec_send_step(spec_disconnect_step(m).0, message) == (
            spec_disconnect_step(m).0,
            SendAction::Refused(message, SendingResult::WeClosed),
        ),
        spec_poll_step(spec_disconnect_step(m).0) == (spec_disconnect_step(m).0, ClientPoll::Nothing),
        spec_disconnect_step(spec_disconnect_step(m).0) == (
            spec_disconnect_step(m).0,
            DisconnectStep::<C, P>::AlreadyDisconnected,
        ),
{
}

/// Closing a connection a second time changes nothing and has nothing to do.
pub proof fn lemma_disconnect_idempotent<C, P>(m: ClientModel<C, P>)
    ensures
        spec_disconnect_step(spec_disconnect_step(m).0) == (
            spec_disconnect_step(m).0,
            DisconnectStep::<C, P>::AlreadyDisconnected,
        ),
{
}

/// Sending a message never changes what a poll yields: the events of a
/// connection do not depend on the messages sent on it.
pub proof fn lemma_sending_keeps_events<C, P>(m: ClientModel<C, P>, message: P)
    ensures
        spec_poll_step(spec_send_step(m, message).0).1 == spec_poll_step(m).1,
{
}

/// A message sent on a closed connection fails at once, with `WeClosed`
/// when we closed it and with `PeerClosedOrDied` otherwise, and the
/// connection is left exactly as it was.
pub proof fn lemma_send_on_closed<C, P>(who: WhoClosed, message: P)
    ensures
        spec_send_step(ClientModel::<C, P>::Disconnected(who), message).0
            == ClientModel::<C, P>::Disconnected(who),
        spec_send_step(ClientModel::<C, P>::Disconnected(who), message).1 == SendAction::Refused(
            message,
            if who is Us {
                SendingResult::WeClosed
            } else {
                SendingResult::PeerClosedOrDied
            },
        ),
{
}

/// The closed phase in which the failed to connect event is still owed.
pub open spec fn spec_failed_not_yet_polled<C, P>() -> ClientModel<C, P> {
    ClientModel::Disconnected(
        WhoClosed::ThePeerDidntEvenConnect { failed_to_connect_event_already_polled: false },
    )
}

proof fn lemma_failed_owed_until_polled<C, P>(ops: Seq<ClientOp<C, P>>)
    ensures
        spec_polls(spec_failed_not_yet_polled::<C, P>(), ops).len() == 0 ==> spec_run(
            spec_failed_not_yet_polled::<C, P>(),
            ops,
        ) == spec_failed_not_yet_polled::<C, P>(),
        spec_polls(spec_failed_not_yet_polled::<C, P>(), ops).len() > 0 ==> spec_polls(
            spec_failed_not_yet_polled::<C, P>(),
            ops,
        )[0] == ClientPoll::FailedToConnect,
    decreases ops.len(),
{
    if ops.len() > 0 {
        let prefix = ops.drop_last();
        lemma_failed_owed_until_polled(prefix);
        let polls = spec_polls(spec_failed_not_yet_polled::<C, P>(), prefix);
        if polls.len() > 0 && ops.last() is Poll {
            let e = spec_poll_step(spec_run(spec_failed_not_yet_polled::<C, P>(), prefix)).1;
            assert(polls.push(e)[0] == polls[0]);
        }
    }
}

/// Once the connection attempt timed out, the first poll, whatever was done
/// before it (messages sent, outcomes taken in, closing), yields the failed
/// to connect event; with `lemma_client_events_well_ordered`, a client
/// whose attempt timed out and that polls gets that event exactly once.
pub proof fn lemma_failed_to_connect_delivered<C, P>(pending: Seq<P>, ops: Seq<ClientOp<C, P>>)
    ensures
        spec_polls(
            spec_connect_step(
                ClientModel::<C, P>::Connecting(pending),
                Some(ConnectedOrTimeout::Timeout),
            ).0,
            ops,
        ).len() > 0 ==> spec_polls(
            spec_connect_step(
                ClientModel::<C, P>::Connecting(pending),
                Some(ConnectedOrTimeout::Timeout),
            ).0,
            ops,
        )[0] == ClientPoll::FailedToConnect,
{
    lemma_failed_owed_until_polled(ops);
}

} // verus!
