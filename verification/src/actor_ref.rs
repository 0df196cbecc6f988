//! References to actors.

use crate::address::{address_text, parsed_address, ActorAddress, AddressView};
use crate::channel::{self, offered, Offer};
use crate::error::{ActorError, ActorFault};
use crate::erased::{erased_as, Erased};
use crate::incarnation::{drawn, is_version_4, parsed_uuid, uuid_text, IncarnationId};
use crate::mailbox::{flag_read, sent_system, unit_result, Mailbox};
use crate::message::{
    ActorMessage, ActorState, IdentityView, Message, Signal, SystemMessage,
};
use crate::wire::{self, parsed_wire, plain_address, wire_text, WireError, WireFault};
use std::sync::Arc;
use vstd::prelude::*;
use vstd::string::StringExecFns;

verus! {

/// Takes messages to other nodes.
pub trait NetworkTransport<M: Message>: Send + Sync + 'static {
    /// Send a message to the actor at an address.
    fn send(&self, target_address: &ActorAddress, message: ActorMessage<M>) -> Result<
        (),
        ActorError,
    >;

    /// Whether a node can be reached.
    fn is_reachable(&self, node_id: &str) -> bool;
}

/// A transport that reaches no node.
#[derive(Debug)]
pub struct DummyTransport;

impl<M: Message> NetworkTransport<M> for DummyTransport {
    fn send(&self, target_address: &ActorAddress, message: ActorMessage<M>) -> (res: Result<
        (),
        ActorError,
    >)
        ensures
            unit_result(res) == Err::<(), ActorFault>(
                ActorFault::NetworkError("DummyTransport: not implemented"@),
            ),
    {
        Err(ActorError::NetworkError("DummyTransport: not implemented".to_owned()))
    }

    fn is_reachable(&self, node_id: &str) -> bool
        returns
            false,
    {
        false
    }
}

/// The way to an actor on another node.
#[derive(Debug)]
pub struct RemoteEndpoint<N> {
    /// The node that is asked for before a message is sent.
    pub target_node: String,
    /// What takes the messages there.
    pub transport: Arc<N>,
}

/// The way to an actor.
#[derive(Debug)]
#[verifier::reject_recursive_types(M)]
pub enum ActorRouting<M: Message, N> {
    Local(Arc<Mailbox<M>>),
    Remote(RemoteEndpoint<N>),
}

/// A reference to one incarnation of an actor that accepts messages of type
/// `M`. `N` is the transport to actors on other nodes.
#[derive(Debug)]
#[verifier::reject_recursive_types(M)]
pub struct ActorRef<M: Message, N = DummyTransport> {
    /// Where the actor lives.
    pub address: ActorAddress,
    /// Which incarnation at that address.
    pub incarnation_id: IncarnationId,
    /// How it is reached; this never leaves the process.
    pub routing: ActorRouting<M, N>,
}

/// What became of a message.
#[derive(Debug)]
pub enum Delivery {
    /// The mailbox or the transport took it.
    Accepted,
    /// The mailbox was full; the message was dropped.
    MailboxFull,
    /// The actor had stopped; the message was dropped.
    ActorStopped,
    /// The actor's node could not be reached; the message was dropped.
    Unreachable,
    /// The transport failed; the message was dropped.
    TransportFailed(ActorError),
}

/// A reference with its address as a view.
#[verifier::ext_equal]
#[verifier::reject_recursive_types(M)]
pub struct RefView<M: Message, N> {
    pub address: AddressView,
    pub incarnation_id: IncarnationId,
    pub routing: ActorRouting<M, N>,
}

impl<M: Message, N> View for ActorRef<M, N> {
    type V = RefView<M, N>;

    open spec fn view(&self) -> RefView<M, N> {
        RefView {
            address: self.address@,
            incarnation_id: self.incarnation_id,
            routing: self.routing,
        }
    }
}

/// The view of an optional reference.
pub open spec fn ref_option<M: Message, N>(r: Option<ActorRef<M, N>>) -> Option<RefView<M, N>> {
    match r {
        Some(r) => Some(r@),
        None => None,
    }
}

/// The sender of a message, if it is reached by transports of type `N`.
pub open spec fn sender_of<M: Message, N: NetworkTransport<M>>(
    envelope: ActorMessage<M>,
) -> Option<Arc<ActorRef<M, N>>> {
    let ActorMessage::Tell { sender, .. } = envelope;
    match sender {
        Some(e) => erased_as::<ActorRef<M, N>>(e),
        None => None,
    }
}

/// `envelope` holds this message from this sender.
pub open spec fn envelope_of<M: Message, N: NetworkTransport<M>>(
    envelope: ActorMessage<M>,
    message: M,
    sender: Option<ActorRef<M, N>>,
) -> bool {
    let ActorMessage::Tell { message: m, sender: s } = envelope;
    &&& m == message
    &&& s is Some <==> sender is Some
    &&& sender matches Some(r) ==> sender_of::<M, N>(envelope) == Some(Arc::new(r))
}

impl<M: Message> ActorMessage<M> {
    /// The sender of the message, if it has one that is reached by transports of
    /// type `N`.
    pub fn sender<N: NetworkTransport<M>>(&self) -> (res: Option<Arc<ActorRef<M, N>>>)
        ensures
            res == sender_of::<M, N>(*self),
    {
        let ActorMessage::Tell { sender, .. } = self;
        match sender {
            Some(e) => e.downcast::<ActorRef<M, N>>(),
            None => None,
        }
    }
}

/// What becomes of an envelope for another node, by whether the node can be
/// reached: it is passed on, or dropped.
pub fn pass_on<M: Message>(reachable: bool, envelope: ActorMessage<M>) -> (res: Result<
    ActorMessage<M>,
    Delivery,
>)
    ensures
        res == if reachable {
            Ok::<ActorMessage<M>, Delivery>(envelope)
        } else {
            Err(Delivery::Unreachable)
        },
{
    if reachable {
        Ok(envelope)
    } else {
        Err(Delivery::Unreachable)
    }
}

/// What an answer of a message channel means for the message.
pub open spec fn offer_outcome<M: Message>(answer: Offer<M>) -> Delivery {
    match answer {
        Offer::Accepted => Delivery::Accepted,
        Offer::Full(_) => Delivery::MailboxFull,
        Offer::Closed(_) => Delivery::ActorStopped,
    }
}

/// What an answer of a transport means for the message.
pub open spec fn send_outcome(answer: Result<(), ActorError>) -> Delivery {
    match answer {
        Ok(_) => Delivery::Accepted,
        Err(e) => Delivery::TransportFailed(e),
    }
}

/// The transport was asked whether it reaches the endpoint's node and gave this
/// answer.
pub open spec fn reach_asked<M: Message, N: NetworkTransport<M>>(
    endpoint: RemoteEndpoint<N>,
    answer: bool,
) -> bool {
    exists|node: &str|
        node@ == endpoint.target_node@ && #[trigger] call_ensures(
            <N as NetworkTransport<M>>::is_reachable,
            (&*endpoint.transport, node),
            answer,
        )
}

/// `outcome` came of handing the message to the actor: a local actor's mailbox
/// was offered an envelope with it; for a remote actor the transport was asked
/// whether it reaches the node and, only if so, handed an envelope.
pub open spec fn delivered<M: Message, N: NetworkTransport<M>>(
    to: ActorRef<M, N>,
    message: M,
    sender: Option<ActorRef<M, N>>,
    outcome: Delivery,
) -> bool {
    match to.routing {
        ActorRouting::Local(mailbox) => exists|envelope: ActorMessage<M>, answer: Offer<M>|
            envelope_of(envelope, message, sender) && #[trigger] offered(
                *mailbox.msg_tx,
                envelope,
                answer,
            ) && outcome == offer_outcome(answer),
        ActorRouting::Remote(endpoint) => {
            ||| reach_asked::<M, N>(endpoint, false) && outcome == Delivery::Unreachable
            ||| reach_asked::<M, N>(endpoint, true) && exists|
                envelope: ActorMessage<M>,
                answer: Result<(), ActorError>,
            |
                envelope_of(envelope, message, sender) && #[trigger] call_ensures(
                    <N as NetworkTransport<M>>::send,
                    (&*endpoint.transport, &to.address, envelope),
                    answer,
                ) && outcome == send_outcome(answer)
        },
    }
}

impl<M: Message, N> ActorRef<M, N> {
    /// The identity that this reference names.
    pub open spec fn identity_view(&self) -> IdentityView {
        IdentityView { address: self.address@, incarnation_id: self.incarnation_id }
    }

    /// A local reference names the incarnation of its mailbox.
    pub open spec fn wf(&self) -> bool {
        self.routing matches ActorRouting::Local(mailbox) ==> mailbox.any.incarnation_id
            == self.incarnation_id
    }

    /// A reference to the actor behind `mailbox`.
    pub fn new_local(address: ActorAddress, mailbox: Arc<Mailbox<M>>) -> (r: Self)
        ensures
            r.address == address,
            r.incarnation_id == mailbox.any.incarnation_id,
            r.routing == ActorRouting::<M, N>::Local(mailbox),
            r.wf(),
    {
        let incarnation_id: IncarnationId = mailbox.any.incarnation_id;
        ActorRef { address, incarnation_id, routing: ActorRouting::Local(mailbox) }
    }

    /// A reference to an actor on another node. Its incarnation id is drawn
    /// anew, as the true one is not known.
    pub fn new_remote(address: ActorAddress, transport: Arc<N>) -> (r: Self)
        ensures
            r.address == address,
            drawn(r.incarnation_id.bits),
            is_version_4(r.incarnation_id.bits),
            r.routing matches ActorRouting::Remote(endpoint) && endpoint.target_node@
                == address.node_id@ && endpoint.transport == transport,
    {
        let target_node: String = address.node_id.clone();
        ActorRef {
            address,
            incarnation_id: IncarnationId::fresh(),
            routing: ActorRouting::Remote(RemoteEndpoint { target_node, transport }),
        }
    }

    /// Whether the actor lives on this node.
    pub fn is_local(&self) -> (yes: bool)
        ensures
            yes == (self.routing is Local),
    {
        match &self.routing {
            ActorRouting::Local(_) => true,
            ActorRouting::Remote(_) => false,
        }
    }

    /// The cell that holds the actor's state. The state of a remote actor is
    /// not observable.
    pub fn state_cell(&self) -> (res: Option<&Arc<tokio::sync::RwLock<ActorState>>>)
        ensures
            match self.routing {
                ActorRouting::Local(mailbox) => res == Some(&mailbox.any.state),
                ActorRouting::Remote(_) => res is None,
            },
    {
        match &self.routing {
            ActorRouting::Local(mailbox) => Some(&mailbox.any.state),
            ActorRouting::Remote(_) => None,
        }
    }

    /// Whether the actor's runner is still active. A remote actor is taken to
    /// be alive.
    pub fn is_alive(&self) -> (alive: bool)
        ensures
            match self.routing {
                ActorRouting::Local(mailbox) => flag_read(*mailbox.any.alive, alive),
                ActorRouting::Remote(_) => alive,
            },
    {
        match &self.routing {
            ActorRouting::Local(mailbox) => mailbox.any.is_alive(),
            ActorRouting::Remote(_) => true,
        }
    }

    /// Stop the actor after the message in hand.
    pub fn stop(&self) -> (res: Result<(), ActorError>)
        ensures
            match self.routing {
                ActorRouting::Local(mailbox) => sent_system(
                    *mailbox.any.sys_tx,
                    Signal::PoisonPill,
                    res,
                ),
                ActorRouting::Remote(_) => unit_result(res) == Err::<(), ActorFault>(
                    ActorFault::MessageDeliveryFailed("Remote actor stop not yet implemented"@),
                ),
            },
    {
        match &self.routing {
            ActorRouting::Local(mailbox) => mailbox.any.send_system(SystemMessage::PoisonPill),
            ActorRouting::Remote(_) => Err(
                ActorError::MessageDeliveryFailed(
                    "Remote actor stop not yet implemented".to_owned(),
                ),
            ),
        }
    }

    /// Where the actor lives.
    pub fn address(&self) -> (a: &ActorAddress)
        ensures
            *a == self.address,
    {
        &self.address
    }

    /// Which incarnation of the actor this is. Clones of a reference share it;
    /// an actor that is restarted, or spawned later at the same address, has
    /// another one.
    pub fn incarnation_id(&self) -> (id: IncarnationId)
        ensures
            id == self.incarnation_id,
    {
        self.incarnation_id
    }

    /// Name the actor for people.
    pub fn to_string(&self) -> (text: String)
        ensures
            text@ == "ActorRef("@ + wire_text(self.identity_view()) + ")"@,
    {
        let inner: String = wire::to_wire(&self.address, self.incarnation_id);
        "ActorRef(".to_owned().concat(inner.as_str()).concat(")")
    }

    /// The text by which this reference crosses process boundaries. With a
    /// plain address, reading it gives the same address and id.
    pub fn serialize(&self) -> (text: String)
        ensures
            text@ == wire_text(self.identity_view()),
            plain_address(self.address@) ==> parsed_wire(text@) == Ok::<IdentityView, WireFault>(
                self.identity_view(),
            ),
    {
        wire::to_wire(&self.address, self.incarnation_id)
    }
}

impl<M: Message> ActorRef<M, DummyTransport> {
    /// Read the text of a reference. What comes out reaches nobody until it is
    /// resolved.
    pub fn deserialize(s: &str) -> (res: Result<Self, WireError>)
        ensures
            match res {
                Ok(r) => {
                    &&& parsed_wire(s@) == Ok::<IdentityView, WireFault>(r.identity_view())
                    &&& r.routing matches ActorRouting::Remote(endpoint)
                        && endpoint.target_node@.len() == 0
                },
                Err(e) => parsed_wire(s@) == Err::<IdentityView, WireFault>(e@),
            },
    {
        match wire::from_wire(s) {
            Ok(id) => Ok(
                ActorRef {
                    address: id.address,
                    incarnation_id: id.incarnation_id,
                    routing: ActorRouting::Remote(
                        RemoteEndpoint {
                            target_node: String::new(),
                            transport: Arc::new(DummyTransport),
                        },
                    ),
                },
            ),
            Err(e) => Err(e),
        }
    }
}

impl<M: Message, N: NetworkTransport<M>> ActorRef<M, N> {
    /// Hand a message to the actor and say what became of it.
    pub fn deliver(&self, message: M, sender: Option<ActorRef<M, N>>) -> (outcome: Delivery)
        ensures
            delivered(*self, message, sender, outcome),
    {
        let from: Option<Erased> = match sender {
            Some(r) => Some(Erased::new(Arc::new(r))),
            None => None,
        };
        let envelope: ActorMessage<M> = ActorMessage::Tell { message, sender: from };
        assert(envelope_of(envelope, message, sender));
        match &self.routing {
            ActorRouting::Local(mailbox) => {
                match channel::offer(&mailbox.msg_tx, envelope) {
                    Offer::Accepted => Delivery::Accepted,
                    Offer::Full(_) => Delivery::MailboxFull,
                    Offer::Closed(_) => Delivery::ActorStopped,
                }
            },
            ActorRouting::Remote(endpoint) => {
                let node: &str = endpoint.target_node.as_str();
                let reachable: bool = endpoint.transport.is_reachable(node);
                assert(reach_asked::<M, N>(*endpoint, reachable));
                match pass_on(reachable, envelope) {
                    Ok(passed) => match endpoint.transport.send(&self.address, passed) {
                        Ok(_) => Delivery::Accepted,
                        Err(e) => Delivery::TransportFailed(e),
                    },
                    Err(dropped) => dropped,
                }
            },
        }
    }

    /// Send a message and forget it. A message that does not arrive is dropped;
    /// the sender does not learn of it.
    pub fn tell(&self, message: M, sender: Option<ActorRef<M, N>>) -> (res: Result<(), ActorError>)
        ensures
            res is Ok,
            exists|outcome: Delivery| #[trigger]
                delivered(*self, message, sender, outcome),
    {
        let _outcome: Delivery = self.deliver(message, sender);
        Ok(())
    }
}

impl<M: Message, N> Clone for ActorRef<M, N> {
    fn clone(&self) -> (copy: Self)
        ensures
            copy@ == self@,
    {
        let routing: ActorRouting<M, N> = match &self.routing {
            ActorRouting::Local(mailbox) => ActorRouting::Local(Arc::clone(mailbox)),
            ActorRouting::Remote(endpoint) => ActorRouting::Remote(
                RemoteEndpoint {
                    target_node: endpoint.target_node.clone(),
                    transport: Arc::clone(&endpoint.transport),
                },
            ),
        };
        ActorRef { address: self.address.clone(), incarnation_id: self.incarnation_id, routing }
    }
}

impl<M: Message, N> PartialEq for ActorRef<M, N> {
    fn eq(&self, other: &Self) -> (same: bool) {
        self.incarnation_id == other.incarnation_id && self.address == other.address
    }
}

impl<M: Message, N> vstd::std_specs::cmp::PartialEqSpecImpl for ActorRef<M, N> {
    open spec fn obeys_eq_spec() -> bool {
        true
    }

    /// Two references are equal if they name the same incarnation at the same
    /// address.
    open spec fn eq_spec(&self, other: &Self) -> bool {
        self.identity_view() == other.identity_view()
    }
}

impl<M: Message, N> Eq for ActorRef<M, N> {

}

/// A message to a reference that was read and not resolved goes nowhere.
pub proof fn law_unresolved_refs_reach_nobody<M: Message>(
    to: ActorRef<M, DummyTransport>,
    message: M,
    sender: Option<ActorRef<M, DummyTransport>>,
    outcome: Delivery,
)
    requires
        to.routing is Remote,
        delivered(to, message, sender, outcome),
    ensures
        outcome == Delivery::Unreachable,
{
}

/// A reference to an actor of this node leads to the mailbox that it was made
/// for, and one to an actor elsewhere to the node of its address, by the
/// transport that it was made for.
pub proof fn law_refs_lead_where_they_were_made_for<M: Message, N>(
    address: ActorAddress,
    mailbox: Arc<Mailbox<M>>,
    transport: Arc<N>,
    r: ActorRef<M, N>,
)
    ensures
        call_ensures(ActorRef::<M, N>::new_local, (address, mailbox), r) ==> r.address == address
            && r.incarnation_id == mailbox.any.incarnation_id && (
        r.routing matches ActorRouting::Local(way) && way == mailbox),
        call_ensures(ActorRef::<M, N>::new_remote, (address, transport), r) ==> r.address
            == address && drawn(r.incarnation_id.bits) && (
        r.routing matches ActorRouting::Remote(way) && way.target_node@ == address.node_id@
            && way.transport == transport),
{
}

/// A message to an actor of this node is offered to its mailbox, with the
/// reference of its sender if it has one. What became of it is what the mailbox
/// answered.
pub proof fn law_local_messages_are_offered_to_the_mailbox<M: Message, N: NetworkTransport<M>>(
    to: &ActorRef<M, N>,
    message: M,
    sender: Option<ActorRef<M, N>>,
    mailbox: Arc<Mailbox<M>>,
    outcome: Delivery,
)
    requires
        call_ensures(ActorRef::<M, N>::deliver, (to, message, sender), outcome) || delivered(
            *to,
            message,
            sender,
            outcome,
        ),
        to.routing == ActorRouting::<M, N>::Local(mailbox),
    ensures
        exists|from: Option<Erased>, answer: Offer<M>| #[trigger]
            offered(*mailbox.msg_tx, ActorMessage::Tell { message, sender: from }, answer) && (from
                is Some <==> sender is Some) && (sender matches Some(r) ==> erased_as::<
                ActorRef<M, N>,
            >(from->0) == Some(Arc::new(r))) && match answer {
                Offer::Accepted => outcome is Accepted,
                Offer::Full(_) => outcome is MailboxFull,
                Offer::Closed(_) => outcome is ActorStopped,
            },
{
    let (envelope, answer) = choose|envelope: ActorMessage<M>, answer: Offer<M>|
        envelope_of(envelope, message, sender) && #[trigger] offered(
            *mailbox.msg_tx,
            envelope,
            answer,
        ) && outcome == offer_outcome(answer);
    let ActorMessage::Tell { message: m, sender: from } = envelope;
    assert(envelope == ActorMessage::Tell { message, sender: from });
    assert(offered(*mailbox.msg_tx, ActorMessage::Tell { message, sender: from }, answer));
}

/// A message to an actor elsewhere goes out if its node can be reached, to the
/// address of the reference and with the reference of its sender. Otherwise it
/// is dropped. What became of it is what the transport said.
pub proof fn law_remote_messages_are_sent_if_the_node_is_reached<
    M: Message,
    N: NetworkTransport<M>,
>(
    to: &ActorRef<M, N>,
    message: M,
    sender: Option<ActorRef<M, N>>,
    way: RemoteEndpoint<N>,
    outcome: Delivery,
)
    requires
        call_ensures(ActorRef::<M, N>::deliver, (to, message, sender), outcome) || delivered(
            *to,
            message,
            sender,
            outcome,
        ),
        to.routing == ActorRouting::<M, N>::Remote(way),
    ensures
        outcome is Unreachable ==> exists|node: &str|
            node@ == way.target_node@ && #[trigger] call_ensures(
                <N as NetworkTransport<M>>::is_reachable,
                (&*way.transport, node),
                false,
            ),
        !(outcome is Unreachable) ==> exists|node: &str|
            node@ == way.target_node@ && #[trigger] call_ensures(
                <N as NetworkTransport<M>>::is_reachable,
                (&*way.transport, node),
                true,
            ),
        !(outcome is Unreachable) ==> exists|from: Option<Erased>, answer: Result<(), ActorError>|
            #[trigger] call_ensures(
                <N as NetworkTransport<M>>::send,
                (&*way.transport, &to.address, ActorMessage::Tell { message, sender: from }),
                answer,
            ) && (from is Some <==> sender is Some) && (sender matches Some(r) ==> erased_as::<
                ActorRef<M, N>,
            >(from->0) == Some(Arc::new(r))) && match answer {
                Ok(_) => outcome is Accepted,
                Err(e) => outcome == Delivery::TransportFailed(e),
            },
{
    if !(outcome is Unreachable) {
        let (envelope, answer) = choose|envelope: ActorMessage<M>, answer: Result<(), ActorError>|
            envelope_of(envelope, message, sender) && #[trigger] call_ensures(
                <N as NetworkTransport<M>>::send,
                (&*way.transport, &to.address, envelope),
                answer,
            ) && outcome == send_outcome(answer);
        let ActorMessage::Tell { message: m, sender: from } = envelope;
        assert(envelope == ActorMessage::Tell { message, sender: from });
        assert(call_ensures(
            <N as NetworkTransport<M>>::send,
            (&*way.transport, &to.address, ActorMessage::Tell { message, sender: from }),
            answer,
        ));
    }
}

/// Telling an actor something hands the message over and always goes well for
/// the one who tells.
pub proof fn law_telling_hands_over_and_goes_well<M: Message, N: NetworkTransport<M>>(
    to: &ActorRef<M, N>,
    message: M,
    sender: Option<ActorRef<M, N>>,
    res: Result<(), ActorError>,
)
    requires
        call_ensures(ActorRef::<M, N>::tell, (to, message, sender), res),
    ensures
        res is Ok,
        exists|outcome: Delivery| #[trigger] delivered(*to, message, sender, outcome),
{
}

/// An envelope for another node is passed on as it is exactly where the node can
/// be reached.
pub proof fn law_envelopes_are_passed_on_if_reachable<M: Message>(
    reachable: bool,
    envelope: ActorMessage<M>,
    res: Result<ActorMessage<M>, Delivery>,
)
    requires
        call_ensures(pass_on::<M>, (reachable, envelope), res),
    ensures
        reachable ==> (res matches Ok(passed) && passed == envelope),
        !reachable ==> (res matches Err(outcome) && outcome is Unreachable),
{
}

/// The sender that a message came with is the one that it was sent by.
pub proof fn law_senders_are_those_who_sent<M: Message, N: NetworkTransport<M>>(
    message: M,
    from: Option<Erased>,
    res: Option<Arc<ActorRef<M, N>>>,
)
    requires
        call_ensures(
            ActorMessage::<M>::sender::<N>,
            (&(ActorMessage::Tell { message, sender: from }),),
            res,
        ),
    ensures
        from is None ==> res is None,
        from matches Some(e) ==> res == erased_as::<ActorRef<M, N>>(e),
{
}

/// The transport that reaches no node says so of every node, and sends nothing.
pub proof fn law_dummies_reach_nobody<M: Message>(
    transport: &DummyTransport,
    node: &str,
    yes: bool,
    address: &ActorAddress,
    envelope: ActorMessage<M>,
    res: Result<(), ActorError>,
)
    ensures
        call_ensures(
            <DummyTransport as NetworkTransport<M>>::is_reachable,
            (transport, node),
            yes,
        ) ==> !yes,
        call_ensures(
            <DummyTransport as NetworkTransport<M>>::send,
            (transport, address, envelope),
            res,
        ) ==> (res matches Err(e) && e@ == ActorFault::NetworkError(
            "DummyTransport: not implemented"@,
        )),
{
}

/// What a reference tells of its actor: where it lives, which incarnation it is,
/// whether it is on this node, and what its mailbox holds of it. An actor
/// elsewhere is taken to be alive, and its state is not known.
pub proof fn law_refs_tell_of_their_actor<M: Message, N>(
    r: &ActorRef<M, N>,
    local: bool,
    cell: Option<&Arc<tokio::sync::RwLock<ActorState>>>,
    alive: bool,
    address: &ActorAddress,
    id: IncarnationId,
    copy: ActorRef<M, N>,
)
    ensures
        call_ensures(ActorRef::<M, N>::is_local, (r,), local) ==> (local <==> r.routing is Local),
        call_ensures(ActorRef::<M, N>::state_cell, (r,), cell) ==> match r.routing {
            ActorRouting::Local(mailbox) => cell matches Some(c) && *c == mailbox.any.state,
            ActorRouting::Remote(_) => cell is None,
        },
        call_ensures(ActorRef::<M, N>::is_alive, (r,), alive) ==> match r.routing {
            ActorRouting::Local(mailbox) => flag_read(*mailbox.any.alive, alive),
            ActorRouting::Remote(_) => alive,
        },
        call_ensures(ActorRef::<M, N>::address, (r,), address) ==> *address == r.address,
        call_ensures(ActorRef::<M, N>::incarnation_id, (r,), id) ==> id == r.incarnation_id,
        call_ensures(<ActorRef<M, N> as Clone>::clone, (r,), copy) ==> copy.address@ == r.address@
            && copy.incarnation_id == r.incarnation_id && copy.routing == r.routing,
{
}

/// Stopping an actor of this node hands it a poison pill. An actor elsewhere
/// cannot be stopped.
pub proof fn law_stopping_hands_over_a_poison_pill<M: Message, N>(
    r: &ActorRef<M, N>,
    res: Result<(), ActorError>,
)
    requires
        call_ensures(ActorRef::<M, N>::stop, (r,), res),
    ensures
        r.routing matches ActorRouting::Local(mailbox) ==> exists|
            m: SystemMessage,
            answer: Result<(), SystemMessage>,
        |
            m@ == Signal::PoisonPill && #[trigger] channel::signalled(
                *mailbox.any.sys_tx,
                m,
                answer,
            ) && (res is Ok <==> answer is Ok),
        r.routing is Remote ==> (res matches Err(e) && e@ == ActorFault::MessageDeliveryFailed(
            "Remote actor stop not yet implemented"@,
        )),
{
}

/// Two references are equal exactly when they name the same incarnation at the
/// same address, whichever way they lead there.
pub proof fn law_equal_refs_name_the_same_incarnation<M: Message, N>(
    a: &ActorRef<M, N>,
    b: &ActorRef<M, N>,
)
    ensures
        vstd::std_specs::cmp::PartialEqSpec::eq_spec(a, b) <==> a.incarnation_id
            == b.incarnation_id && a.address@.node_id == b.address@.node_id && a.address@.path
            == b.address@.path,
{
}

/// A reference is written as its address, a `#` and its id; for people, with its
/// kind around that.
pub proof fn law_refs_are_written_as_address_and_id<M: Message, N>(
    r: &ActorRef<M, N>,
    text: String,
)
    ensures
        call_ensures(ActorRef::<M, N>::serialize, (r,), text) ==> text@ == address_text(
            r.address@,
        ) + seq!['#'] + uuid_text(r.incarnation_id.bits),
        call_ensures(ActorRef::<M, N>::to_string, (r,), text) ==> text@ == "ActorRef("@ + (
        address_text(r.address@) + seq!['#'] + uuid_text(r.incarnation_id.bits)) + ")"@,
{
}

/// A text without a `#` is not read as a reference.
pub proof fn law_texts_without_hash_are_no_refs<M: Message>(
    text: &str,
    res: Result<ActorRef<M, DummyTransport>, WireError>,
)
    requires
        call_ensures(ActorRef::<M, DummyTransport>::deserialize, (text,), res),
        !text@.contains('#'),
    ensures
        res matches Err(e) && e is Format,
{
    crate::text::lemma_first_position(text@, '#');
}

/// A reference that was read has the address before the first `#` of its text
/// and the id behind it, and leads nowhere until it is resolved.
pub proof fn law_read_refs_have_the_address_and_id_of_their_text<M: Message>(
    text: &str,
    address: Seq<char>,
    id: Seq<char>,
    res: Result<ActorRef<M, DummyTransport>, WireError>,
)
    requires
        call_ensures(ActorRef::<M, DummyTransport>::deserialize, (text,), res),
        text@ == address + seq!['#'] + id,
        !address.contains('#'),
    ensures
        res is Ok <==> parsed_address(address) is Ok && parsed_uuid(id) is Some,
        res matches Ok(r) ==> r.address@ == parsed_address(address)->Ok_0 && r.incarnation_id.bits
            == parsed_uuid(id)->Some_0 && (r.routing matches ActorRouting::Remote(way)
            && way.target_node@.len() == 0),
{
    let s = text@;
    let n = address.len();
    assert forall|i: int| 0 <= i < n implies s[i] != '#' by {
        assert(s[i] == address[i]);
        assert(address.contains(address[i]));
    }
    assert(s[n as int] == '#');
    crate::text::lemma_first_position_is(s, '#', n);
    assert(s.take(n as int) =~= address);
    assert(s.skip(n as int + 1) =~= id);
}

} // verus!
