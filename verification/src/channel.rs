//! The channels of an actor: a bounded one for messages and an unbounded one
//! for system messages.

use crate::message::{ActorMessage, ActorState, Message, SystemMessage};
use std::sync::Arc;
use tokio::sync::mpsc;
use vstd::prelude::*;

verus! {

/// Sending half of a bounded channel.
#[verifier::external_type_specification]
#[verifier::external_body]
#[verifier::reject_recursive_types(T)]
pub struct ExSender<T>(tokio::sync::mpsc::Sender<T>);

/// Receiving half of a bounded channel.
#[verifier::external_type_specification]
#[verifier::external_body]
#[verifier::reject_recursive_types(T)]
pub struct ExReceiver<T>(tokio::sync::mpsc::Receiver<T>);

/// Sending half of an unbounded channel.
#[verifier::external_type_specification]
#[verifier::external_body]
#[verifier::reject_recursive_types(T)]
pub struct ExUnboundedSender<T>(tokio::sync::mpsc::UnboundedSender<T>);

/// Receiving half of an unbounded channel.
#[verifier::external_type_specification]
#[verifier::external_body]
#[verifier::reject_recursive_types(T)]
pub struct ExUnboundedReceiver<T>(tokio::sync::mpsc::UnboundedReceiver<T>);

/// A lock that asynchronous readers and writers wait for.
#[verifier::external_type_specification]
#[verifier::external_body]
#[verifier::reject_recursive_types(T)]
pub struct ExRwLock<T: ?Sized>(tokio::sync::RwLock<T>);

/// What a message channel answers to an envelope. A refused envelope comes
/// back.
#[derive(Debug)]
pub enum Offer<M: Message> {
    /// The envelope is in the channel.
    Accepted,
    /// The channel holds as many envelopes as it may.
    Full(ActorMessage<M>),
    /// Nobody receives any more.
    Closed(ActorMessage<M>),
}

/// The capacities with which a message channel can be opened.
pub open spec fn valid_capacity(capacity: usize) -> bool {
    0 < capacity <= usize::MAX / 8
}

/// Calls `tokio::sync::mpsc::channel`, which panics on a capacity of 0 and on
/// one over `Semaphore::MAX_PERMITS`, an eighth of the largest `usize`. Claims
/// nothing of the two halves.
#[verifier::external_body]
fn new_channel<M: Message>(capacity: usize) -> (ends: (
    mpsc::Sender<ActorMessage<M>>,
    mpsc::Receiver<ActorMessage<M>>,
))
    requires
        valid_capacity(capacity),
{
    mpsc::channel(capacity)
}

/// Calls `tokio::sync::mpsc::unbounded_channel`. Claims nothing of the two
/// halves.
#[verifier::external_body]
fn new_unbounded_channel() -> (ends: (
    mpsc::UnboundedSender<SystemMessage>,
    mpsc::UnboundedReceiver<SystemMessage>,
)) {
    mpsc::unbounded_channel()
}

/// Calls `try_send` of `tokio::sync::mpsc::Sender`. Whether the channel has
/// room, is full or is closed depends on the receiver. Claims that a refused
/// envelope comes back as it was.
#[verifier::external_body]
fn try_send<M: Message>(tx: &mpsc::Sender<ActorMessage<M>>, envelope: ActorMessage<M>) -> (res:
    Offer<M>)
    ensures
        match res {
            Offer::Accepted => true,
            Offer::Full(back) => back == envelope,
            Offer::Closed(back) => back == envelope,
        },
{
    match tx.try_send(envelope) {
        Ok(()) => Offer::Accepted,
        Err(mpsc::error::TrySendError::Full(back)) => Offer::Full(back),
        Err(mpsc::error::TrySendError::Closed(back)) => Offer::Closed(back),
    }
}

/// Calls `send` of `tokio::sync::mpsc::UnboundedSender`. Whether the channel is
/// closed depends on the receiver. Claims that a refused message comes back as
/// it was.
#[verifier::external_body]
fn send_unbounded(tx: &mpsc::UnboundedSender<SystemMessage>, message: SystemMessage) -> (res:
    Result<(), SystemMessage>)
    ensures
        res is Err ==> res->Err_0 == message,
{
    match tx.send(message) {
        Ok(()) => Ok(()),
        Err(refused) => Err(refused.0),
    }
}

/// Calls `tokio::sync::RwLock::new`. Claims nothing of the lock.
#[verifier::external_body]
fn new_lock(state: ActorState) -> (lock: tokio::sync::RwLock<ActorState>) {
    tokio::sync::RwLock::new(state)
}

/// The two halves were opened as one message channel with this capacity.
pub closed spec fn opened_with<M: Message>(
    capacity: usize,
    tx: mpsc::Sender<ActorMessage<M>>,
    rx: mpsc::Receiver<ActorMessage<M>>,
) -> bool {
    call_ensures(new_channel::<M>, (capacity,), (tx, rx))
}

/// The two halves were opened as one channel of system messages.
pub closed spec fn signals_opened(
    tx: mpsc::UnboundedSender<SystemMessage>,
    rx: mpsc::UnboundedReceiver<SystemMessage>,
) -> bool {
    call_ensures(new_unbounded_channel, (), (tx, rx))
}

/// The message channel was handed `envelope` and gave this answer.
pub closed spec fn offered<M: Message>(
    tx: mpsc::Sender<ActorMessage<M>>,
    envelope: ActorMessage<M>,
    answer: Offer<M>,
) -> bool {
    call_ensures(try_send::<M>, (&tx, envelope), answer)
}

/// The system channel was handed `message` and gave this answer.
pub closed spec fn signalled(
    tx: mpsc::UnboundedSender<SystemMessage>,
    message: SystemMessage,
    answer: Result<(), SystemMessage>,
) -> bool {
    call_ensures(send_unbounded, (&tx, message), answer)
}

/// The lock was made around `state`.
pub closed spec fn locked_around(lock: tokio::sync::RwLock<ActorState>, state: ActorState) -> bool {
    call_ensures(new_lock, (state,), lock)
}

/// Whether a message channel can be opened with this capacity.
pub fn capacity_is_valid(capacity: usize) -> (yes: bool)
    ensures
        yes == valid_capacity(capacity),
{
    0 < capacity && capacity <= usize::MAX / 8
}

/// Open a message channel.
pub fn open_messages<M: Message>(capacity: usize) -> (ends: (
    mpsc::Sender<ActorMessage<M>>,
    mpsc::Receiver<ActorMessage<M>>,
))
    requires
        valid_capacity(capacity),
    ensures
        opened_with(capacity, ends.0, ends.1),
{
    new_channel(capacity)
}

/// Open a channel of system messages.
pub fn open_signals() -> (ends: (
    mpsc::UnboundedSender<SystemMessage>,
    mpsc::UnboundedReceiver<SystemMessage>,
))
    ensures
        signals_opened(ends.0, ends.1),
{
    new_unbounded_channel()
}

/// Hand an envelope to a message channel, without waiting for room.
pub fn offer<M: Message>(tx: &mpsc::Sender<ActorMessage<M>>, envelope: ActorMessage<M>) -> (answer:
    Offer<M>)
    ensures
        offered(*tx, envelope, answer),
        answer matches Offer::Full(back) ==> back == envelope,
        answer matches Offer::Closed(back) ==> back == envelope,
{
    try_send(tx, envelope)
}

/// Hand a message to a system channel.
pub fn signal(tx: &mpsc::UnboundedSender<SystemMessage>, message: SystemMessage) -> (answer: Result<
    (),
    SystemMessage,
>)
    ensures
        signalled(*tx, message, answer),
        answer matches Err(back) ==> back == message,
{
    send_unbounded(tx, message)
}

/// Share a state between those who read it and the one who writes it.
pub fn share_state(state: ActorState) -> (cell: Arc<tokio::sync::RwLock<ActorState>>)
    ensures
        locked_around(*cell, state),
{
    Arc::new(new_lock(state))
}

/// A message channel can be opened with every capacity from one up to an eighth
/// of the largest number of its type, and with no other.
pub proof fn law_capacities_have_limits(capacity: usize, yes: bool)
    ensures
        valid_capacity(capacity) <==> 1 <= capacity && capacity <= usize::MAX / 8,
        1 <= capacity <= usize::MAX / 8 ==> call_requires(
            capacity_is_valid,
            (capacity,),
        ),
        call_ensures(capacity_is_valid, (capacity,), yes) ==> (yes <==> 1 <= capacity && capacity
            <= usize::MAX / 8),
{
}

/// A channel is opened with the capacity that is asked for, and what is handed to
/// a channel is what it answers to.
proof fn law_channels_are_used_as_asked<M: Message>(
    capacity: usize,
    ends: (mpsc::Sender<ActorMessage<M>>, mpsc::Receiver<ActorMessage<M>>),
    signals: (mpsc::UnboundedSender<SystemMessage>, mpsc::UnboundedReceiver<SystemMessage>),
    envelope: ActorMessage<M>,
    answer: Offer<M>,
    message: SystemMessage,
    reply: Result<(), SystemMessage>,
    cell: Arc<tokio::sync::RwLock<ActorState>>,
    state: ActorState,
)
    ensures
        call_ensures(open_messages::<M>, (capacity,), ends) ==> call_ensures(
            new_channel::<M>,
            (capacity,),
            ends,
        ),
        opened_with(capacity, ends.0, ends.1) ==> call_ensures(new_channel::<M>, (capacity,), ends),
        call_ensures(open_signals, (), signals) ==> call_ensures(
            new_unbounded_channel,
            (),
            signals,
        ),
        signals_opened(signals.0, signals.1) ==> call_ensures(new_unbounded_channel, (), signals),
        call_ensures(offer::<M>, (&ends.0, envelope), answer) ==> call_ensures(
            try_send::<M>,
            (&ends.0, envelope),
            answer,
        ),
        offered(ends.0, envelope, answer) ==> call_ensures(
            try_send::<M>,
            (&ends.0, envelope),
            answer,
        ),
        call_ensures(signal, (&signals.0, message), reply) ==> call_ensures(
            send_unbounded,
            (&signals.0, message),
            reply,
        ),
        signalled(signals.0, message, reply) ==> call_ensures(
            send_unbounded,
            (&signals.0, message),
            reply,
        ),
        call_ensures(share_state, (state,), cell) ==> call_ensures(new_lock, (state,), *cell),
        locked_around(*cell, state) ==> call_ensures(new_lock, (state,), *cell),
{
}

/// What a channel refuses comes back as it was handed in.
pub proof fn law_refused_messages_come_back<M: Message>(
    tx: &mpsc::Sender<ActorMessage<M>>,
    envelope: ActorMessage<M>,
    answer: Offer<M>,
    sys_tx: &mpsc::UnboundedSender<SystemMessage>,
    message: SystemMessage,
    reply: Result<(), SystemMessage>,
)
    ensures
        call_ensures(offer::<M>, (tx, envelope), answer) ==> match answer {
            Offer::Accepted => true,
            Offer::Full(back) => back == envelope,
            Offer::Closed(back) => back == envelope,
        },
        call_ensures(signal, (sys_tx, message), reply) ==> (reply matches Err(back) ==> back
            == message),
{
}

} // verus!
