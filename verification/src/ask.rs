//! Asking an actor for a reply.

use crate::actor_ref::{delivered, ActorRef, Delivery, NetworkTransport};
use crate::context::handed;
use crate::error::ActorError;
use crate::message::Message;
use std::time::Duration;
use tokio::sync::oneshot;
use vstd::prelude::*;

verus! {

/// Sending half of a channel for one value.
#[verifier::external_type_specification]
#[verifier::external_body]
#[verifier::reject_recursive_types(T)]
pub struct ExOneshotSender<T>(tokio::sync::oneshot::Sender<T>);

/// Receiving half of a channel for one value.
#[verifier::external_type_specification]
#[verifier::external_body]
#[verifier::reject_recursive_types(T)]
pub struct ExOneshotReceiver<T>(tokio::sync::oneshot::Receiver<T>);

/// The error of a receiver whose other half was dropped.
#[verifier::external_type_specification]
#[verifier::external_body]
pub struct ExOneshotRecvError(tokio::sync::oneshot::error::RecvError);

/// Why an ask gave no reply.
#[derive(Debug)]
pub enum AskError {
    /// No reply came in time.
    Timeout { timeout: Duration },
    /// The reply channel was dropped without a reply.
    ChannelClosed,
    /// The message could not be sent.
    ActorError(ActorError),
}

/// The way back for the reply to an ask, for one reply.
#[derive(Debug)]
#[verifier::reject_recursive_types(R)]
pub struct ReplyTo<R> {
    pub sender: oneshot::Sender<R>,
}

/// How the wait for a reply ended.
pub enum Waited<R> {
    /// The reply came.
    Replied(R),
    /// The reply channel was dropped without a reply.
    Dropped,
    /// The time was up.
    TimedOut,
}

/// Calls `tokio::sync::oneshot::channel`. Claims nothing of the two halves.
#[verifier::external_body]
fn new_oneshot<R>() -> (ends: (oneshot::Sender<R>, oneshot::Receiver<R>)) {
    oneshot::channel()
}

/// Calls `send` of `tokio::sync::oneshot::Sender`. Whether anybody still waits
/// depends on the receiver. Claims that a value that nobody waits for comes
/// back as it was.
#[verifier::external_body]
fn send_oneshot<R>(sender: oneshot::Sender<R>, value: R) -> (res: Result<(), R>)
    ensures
        res is Err ==> res->Err_0 == value,
{
    sender.send(value)
}

/// The two halves were opened as one reply channel.
pub closed spec fn reply_opened<R>(tx: oneshot::Sender<R>, rx: oneshot::Receiver<R>) -> bool {
    call_ensures(new_oneshot::<R>, (), (tx, rx))
}

/// The reply channel was handed `value` and gave this answer.
pub closed spec fn replied<R>(tx: oneshot::Sender<R>, value: R, answer: Result<(), R>) -> bool {
    call_ensures(send_oneshot::<R>, (tx, value), answer)
}

/// A reply channel ends at `rx`, `make_msg` made a message with its other end,
/// and the message was handed to the actor.
pub open spec fn asked<M: Message, N: NetworkTransport<M>, R, F: FnOnce(ReplyTo<R>) -> M>(
    actor_ref: ActorRef<M, N>,
    make_msg: F,
    rx: oneshot::Receiver<R>,
) -> bool {
    exists|reply_to: ReplyTo<R>, message: M|
        reply_opened(reply_to.sender, rx) && #[trigger] call_ensures(
            make_msg,
            (reply_to,),
            message,
        ) && handed(actor_ref, message, None)
}

impl<R> ReplyTo<R> {
    /// Send the reply. If nobody waits for it any more, it is dropped.
    pub fn reply(self, value: R)
        ensures
            exists|answer: Result<(), R>| replied(self.sender, value, answer),
    {
        let answer: Result<(), R> = send_oneshot(self.sender, value);
        assert(replied(self.sender, value, answer));
    }
}

/// Ask an actor: it is sent the message that `make_msg` makes with the way back
/// for the reply. The reply arrives at what is returned.
pub fn ask<M: Message, N: NetworkTransport<M>, R, F: FnOnce(ReplyTo<R>) -> M>(
    actor_ref: &ActorRef<M, N>,
    make_msg: F,
) -> (res: Result<oneshot::Receiver<R>, AskError>)
    requires
        forall|reply_to: ReplyTo<R>| call_requires(make_msg, (reply_to,)),
    ensures
        res matches Ok(rx) && asked(*actor_ref, make_msg, rx),
{
    let (tx, rx) = new_oneshot();
    let reply_to: ReplyTo<R> = ReplyTo { sender: tx };
    assert(reply_opened(reply_to.sender, rx));
    let message: M = make_msg(reply_to);
    match actor_ref.tell(message, None) {
        Ok(_) => Ok(rx),
        Err(e) => Err(AskError::ActorError(e)),
    }
}

impl<M: Message, N: NetworkTransport<M>> ActorRef<M, N> {
    /// Ask this actor: it is sent the message that `make_msg` makes with the way
    /// back for the reply. The reply arrives at what is returned.
    pub fn ask<R, F: FnOnce(ReplyTo<R>) -> M>(&self, make_msg: F) -> (res: Result<
        oneshot::Receiver<R>,
        AskError,
    >)
        requires
            forall|reply_to: ReplyTo<R>| call_requires(make_msg, (reply_to,)),
        ensures
            res matches Ok(rx) && asked(*self, make_msg, rx),
    {
        ask(self, make_msg)
    }
}

/// What an ask gives, by how the wait for the reply ended.
pub fn ask_outcome<R>(waited: Waited<R>, timeout: Duration) -> (res: Result<R, AskError>)
    ensures
        res == match waited {
            Waited::Replied(value) => Ok::<R, AskError>(value),
            Waited::Dropped => Err(AskError::ChannelClosed),
            Waited::TimedOut => Err(AskError::Timeout { timeout }),
        },
{
    match waited {
        Waited::Replied(value) => Ok(value),
        Waited::Dropped => Err(AskError::ChannelClosed),
        Waited::TimedOut => Err(AskError::Timeout { timeout }),
    }
}

impl From<ActorError> for AskError {
    fn from(e: ActorError) -> (res: AskError) {
        AskError::ActorError(e)
    }
}

impl vstd::std_specs::convert::FromSpecImpl<ActorError> for AskError {
    open spec fn obeys_from_spec() -> bool {
        true
    }

    open spec fn from_spec(e: ActorError) -> AskError {
        AskError::ActorError(e)
    }
}

/// What an ask gives goes by how the wait ended: the reply that came, or an error
/// that says what happened.
pub proof fn law_asks_end_as_their_wait_does<R>(
    waited: Waited<R>,
    timeout: Duration,
    res: Result<R, AskError>,
)
    requires
        call_ensures(ask_outcome::<R>, (waited, timeout), res),
    ensures
        waited matches Waited::Replied(value) ==> (res matches Ok(reply) && reply == value),
        waited is Dropped ==> (res matches Err(e) && e is ChannelClosed),
        waited is TimedOut ==> (res matches Err(AskError::Timeout { timeout: t }) && t == timeout),
{
}

/// An actor that is asked is handed a message with the other end of the channel
/// at which the reply arrives, and the message has no sender.
pub proof fn law_asked_actors_know_where_to_reply<
    M: Message,
    N: NetworkTransport<M>,
    R,
    F: FnOnce(ReplyTo<R>) -> M,
>(actor_ref: &ActorRef<M, N>, make_msg: F, res: Result<oneshot::Receiver<R>, AskError>)
    requires
        call_ensures(ask::<M, N, R, F>, (actor_ref, make_msg), res) || call_ensures(
            ActorRef::<M, N>::ask::<R, F>,
            (actor_ref, make_msg),
            res,
        ),
    ensures
        res matches Ok(rx) && exists|reply_to: ReplyTo<R>, message: M, outcome: Delivery|
            reply_opened(reply_to.sender, rx) && #[trigger] call_ensures(
                make_msg,
                (reply_to,),
                message,
            ) && #[trigger] delivered(*actor_ref, message, None, outcome),
{
}

/// A reply goes to the channel that the asker waits at, as it is.
pub proof fn law_replies_go_back<R>(reply_to: ReplyTo<R>, value: R)
    requires
        call_ensures(ReplyTo::<R>::reply, (reply_to, value), ()),
    ensures
        exists|answer: Result<(), R>| replied(reply_to.sender, value, answer),
{
}

/// Reply channels are opened and used by the calls that are named for it.
proof fn law_reply_channels_are_used_as_asked<R>(
    tx: oneshot::Sender<R>,
    rx: oneshot::Receiver<R>,
    value: R,
    answer: Result<(), R>,
)
    ensures
        reply_opened(tx, rx) ==> call_ensures(new_oneshot::<R>, (), (tx, rx)),
        replied(tx, value, answer) ==> call_ensures(send_oneshot::<R>, (tx, value), answer),
{
}

/// An actor error is an ask error that holds it.
pub proof fn law_actor_errors_become_ask_errors(e: ActorError, res: AskError)
    requires
        call_ensures(<AskError as From<ActorError>>::from, (e,), res),
    ensures
        res matches AskError::ActorError(inner) && inner == e,
{
}

} // verus!
