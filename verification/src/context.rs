//! What an actor can do while it handles a message.

use crate::actor_ref::{
    delivered, ref_option, ActorRef, ActorRouting, Delivery, NetworkTransport, RefView,
};
use crate::address::{ActorAddress, AddressError, AddressView};
use crate::channel::{signalled, valid_capacity};
use crate::children::{stops_each_once, without_address, Children};
use crate::erased::erased_as;
use crate::error::{ActorError, ActorFault};
use crate::incarnation::{drawn, is_version_4, IncarnationId};
use crate::mailbox::{sent_system, told, AnyMailbox, Mailbox, Notice};
use crate::message::{ActorMessage, Message, Signal, SystemMessage};
use crate::props::{default_props, ActorProps, PropsView};
use crate::registry::place;
use crate::resolver::refers_to;
use crate::system::{
    actor_at, mailbox_capacity, pre_start_failed, registered_after, spawn_result, ActorSystem, Spawn, Ticket,
};
use std::sync::Arc;
use std::time::Duration;
use tokio::sync::mpsc;
use vstd::prelude::*;

verus! {

/// The environment of an actor.
#[verifier::reject_recursive_types(M)]
pub struct ActorContext<M: Message, N> {
    /// A reference to the actor itself.
    pub actor_ref: ActorRef<M, N>,
    /// Its children.
    pub children: Children,
    /// Where its parent lives.
    pub parent: Option<ActorAddress>,
    /// Its configuration.
    pub props: ActorProps,
}

/// A message that is to be delivered later.
#[verifier::reject_recursive_types(M)]
pub struct Scheduled<M: Message, N> {
    /// Names the undertaking.
    pub task_id: IncarnationId,
    /// How long to wait.
    pub delay: Duration,
    /// Who gets the message.
    pub target: ActorRef<M, N>,
    /// Who sends it.
    pub sender: ActorRef<M, N>,
    /// The message.
    pub message: M,
}

/// The view of an optional address.
pub open spec fn address_option(a: Option<ActorAddress>) -> Option<AddressView> {
    match a {
        Some(a) => Some(a@),
        None => None,
    }
}

/// The props that are used when these are given, or none.
pub open spec fn props_or_default(props: Option<ActorProps>) -> PropsView {
    match props {
        Some(p) => p@,
        None => default_props(),
    }
}

/// Something came of handing the message to the actor.
pub open spec fn handed<M: Message, N: NetworkTransport<M>>(
    to: ActorRef<M, N>,
    message: M,
    sender: Option<RefView<M, N>>,
) -> bool {
    exists|from: Option<ActorRef<M, N>>, outcome: Delivery|
        ref_option(from) == sender && #[trigger] delivered(to, message, from, outcome)
}

/// Hand the result of some work to an actor as a message. Of work that failed
/// the actor does not hear.
pub fn pipe_result<M: Message, N: NetworkTransport<M>, E>(
    to: &ActorRef<M, N>,
    result: Result<M, E>,
) -> (outcome: Option<Delivery>)
    ensures
        match result {
            Ok(message) => outcome matches Some(d) && delivered(*to, message, None, d),
            Err(_) => outcome is None,
        },
{
    match result {
        Ok(message) => Some(to.deliver(message, None)),
        Err(_) => None,
    }
}

/// Hand the result of some work to an actor, as the message that `map` makes of
/// it.
pub fn pipe_mapped<M: Message, N: NetworkTransport<M>, T, E, F: FnOnce(Result<T, E>) -> M>(
    to: &ActorRef<M, N>,
    result: Result<T, E>,
    map: F,
) -> (outcome: Delivery)
    requires
        call_requires(map, (result,)),
    ensures
        exists|message: M| #[trigger]
            call_ensures(map, (result,), message) && delivered(*to, message, None, outcome),
{
    let message: M = map(result);
    to.deliver(message, None)
}

impl<M: Message, N: NetworkTransport<M>> Scheduled<M, N> {
    /// Deliver the message.
    pub fn deliver(self) -> (outcome: Delivery)
        ensures
            delivered(
                self.target,
                self.message,
                Some(self.sender),
                outcome,
            ),
    {
        self.target.deliver(self.message, Some(self.sender))
    }
}

impl<M: Message, N> ActorContext<M, N> {
    /// The context of an actor without children.
    pub fn new(
        actor_ref: ActorRef<M, N>,
        parent: Option<ActorAddress>,
        props: ActorProps,
    ) -> (context: Self)
        ensures
            context.actor_ref == actor_ref,
            context.children@ == Map::<Seq<char>, Arc<AnyMailbox>>::empty(),
            context.parent == parent,
            context.props == props,
    {
        ActorContext { actor_ref, children: Children::new(), parent, props }
    }

    /// Stop this actor after the message in hand.
    pub fn stop_self(&self)
        ensures
            self.actor_ref.routing matches ActorRouting::Local(mailbox) ==> told(
                *mailbox.any.sys_tx,
                Signal::StopSelf,
            ),
    {
        match &self.actor_ref.routing {
            ActorRouting::Local(mailbox) => {
                let res: Result<(), ActorError> = mailbox.any.send_system(SystemMessage::StopSelf);
                assert(sent_system(*mailbox.any.sys_tx, Signal::StopSelf, res));
            },
            ActorRouting::Remote(_) => {},
        }
    }

    /// A reference to the actor itself.
    pub fn actor_ref(&self) -> (r: &ActorRef<M, N>)
        ensures
            *r == self.actor_ref,
    {
        &self.actor_ref
    }

    /// Where the parent lives, if the actor is a child.
    pub fn parent_address(&self) -> (res: Option<&ActorAddress>)
        ensures
            match res {
                Some(a) => self.parent == Some(*a),
                None => self.parent is None,
            },
    {
        self.parent.as_ref()
    }

    /// How the actor was configured.
    pub fn props(&self) -> (props: &ActorProps)
        ensures
            *props == self.props,
    {
        &self.props
    }

    /// How many children the actor has.
    pub fn children_count(&self) -> (n: usize)
        ensures
            self.children@.dom().finite(),
            n == self.children@.dom().len(),
    {
        self.children.len()
    }

    /// The child with this name.
    pub fn get_child(&self, name: &str) -> (res: Option<&Arc<AnyMailbox>>)
        ensures
            match res {
                Some(child) => self.children@.contains_key(name@) && self.children@[name@]
                    == *child,
                None => !self.children@.contains_key(name@),
            },
    {
        self.children.get(name)
    }

    /// Go on as the next incarnation, with the mailbox of that.
    pub fn renew(&mut self, mailbox: &Arc<Mailbox<M>>)
        ensures
            final(self).actor_ref.address@ == old(self).actor_ref.address@,
            final(self).actor_ref.incarnation_id == mailbox.any.incarnation_id,
            final(self).actor_ref.routing == ActorRouting::<M, N>::Local(*mailbox),
            final(self).children == old(self).children,
            final(self).parent == old(self).parent,
            final(self).props == old(self).props,
    {
        self.actor_ref = ActorRef::new_local(self.actor_ref.address.clone(), Arc::clone(mailbox));
    }

    /// The live actor at an address.
    pub fn select<C: Message, P>(&self, system: &ActorSystem, address: &ActorAddress) -> (res:
        Option<ActorRef<C, P>>)
        ensures
            refers_to(res, actor_at::<C>(system@.registry, address@)),
    {
        system.get_actor(address)
    }

    /// Stop a child.
    pub fn stop_child(&mut self, name: &str) -> (res: Result<(), ActorError>)
        ensures
            final(self).children@ == old(self).children@.remove(name@),
            old(self).children@.contains_key(name@) ==> sent_system(
                *old(self).children@[name@].sys_tx,
                Signal::PoisonPill,
                res,
            ),
            !old(self).children@.contains_key(name@) ==> res is Ok,
            final(self).actor_ref == old(self).actor_ref,
            final(self).parent == old(self).parent,
            final(self).props == old(self).props,
    {
        self.children.stop_child(name)
    }

    /// Forget all children, and say how each is told to stop.
    pub fn stop_all_children(&mut self) -> (list: Vec<Notice>)
        ensures
            final(self).children@ == Map::<Seq<char>, Arc<AnyMailbox>>::empty(),
            exists|order: Seq<Seq<char>>| #[trigger]
                stops_each_once(list@, order, old(self).children@),
            final(self).actor_ref == old(self).actor_ref,
            final(self).parent == old(self).parent,
            final(self).props == old(self).props,
    {
        self.children.stop_all_children()
    }

    /// Forget the child at an address.
    pub fn remove_child_by_address(&mut self, address: &ActorAddress)
        ensures
            final(self).children@ == without_address(
                old(self).actor_ref.address@,
                old(self).children@,
                address@,
            ),
            final(self).actor_ref == old(self).actor_ref,
            final(self).parent == old(self).parent,
            final(self).props == old(self).props,
    {
        self.children.remove_child_by_address(&self.actor_ref.address, address)
    }

    /// Prepare a child: its address stands below this actor's. Its factory and
    /// `pre_start` are then run, and `finish_spawn_child` decides.
    pub fn spawn_child<C: Message, P>(
        &self,
        system: &ActorSystem,
        name: &str,
        props: Option<ActorProps>,
    ) -> (res: Result<Spawn<C, P>, ActorError>)
        requires
            ActorAddress::child_address(self.actor_ref.address@, name@) matches Ok(a)
                && !system@.registry.contains_key(place(a)) ==> valid_capacity(
                mailbox_capacity(system@.config, props_or_default(props)),
            ),
        ensures
            match ActorAddress::child_address(self.actor_ref.address@, name@) {
                Err(fault) => res matches Err(e) && e@ == ActorFault::ActorCreationFailed(
                    AddressError::message(fault),
                ),
                Ok(a) => spawn_result(
                    system@,
                    a,
                    props_or_default(props),
                    Some(self.actor_ref.address@),
                    res,
                ),
            },
            res matches Ok(spawn) ==> ActorAddress::stands_below(
                spawn.ticket@.address,
                self.actor_ref.address@,
            ) && spawn.ticket@.address.path.last() == name@,
            res matches Ok(spawn) ==> (props matches Some(p) ==> spawn.context.props@ == p@
                && spawn.runner@.props == p@),
    {
        let props: ActorProps = match props {
            Some(p) => p,
            None => ActorProps::new(),
        };
        match self.actor_ref.address.child(name) {
            Ok(child_address) => {
                assert(child_address@.path.drop_last() =~= self.actor_ref.address@.path);
                let parent: Option<ActorAddress> = Some(self.actor_ref.address.clone());
                system.spawn_actor_with_address(child_address, props, parent)
            },
            Err(e) => Err(ActorError::ActorCreationFailed(e.to_string())),
        }
    }

    /// Decide on a prepared child by how its `pre_start` ended: one that started
    /// is registered and becomes a child, under the last segment of its address.
    pub fn finish_spawn_child<C: Message, P>(
        &mut self,
        system: &mut ActorSystem,
        ticket: &Ticket<C>,
        started: Result<(), &str>,
    ) -> (res: Result<ActorRef<C, P>, ActorError>)
        requires
            ActorAddress::stands_below(ticket@.address, old(self).actor_ref.address@),
        ensures
            match started {
                Ok(_) => {
                    &&& res matches Ok(r) && refers_to(
                        Some(r),
                        Some((ticket@.address, ticket@.mailbox)),
                    )
                    &&& registered_after(
                        old(system)@,
                        final(system)@,
                        ticket@.address,
                        ticket@.mailbox,
                    )
                    &&& final(self).children@ == old(self).children@.insert(
                        ticket@.address.path.last(),
                        ticket@.mailbox.any,
                    )
                },
                Err(text) => {
                    &&& res matches Err(e) && e@ == pre_start_failed(text@)
                    &&& final(system)@ == old(system)@
                    &&& final(self).children@ == old(self).children@
                },
            },
            final(self).actor_ref == old(self).actor_ref,
            final(self).parent == old(self).parent,
            final(self).props == old(self).props,
    {
        match system.finish_spawn(ticket, started) {
            Ok(child_ref) => {
                let name: &str = ticket.address().name().unwrap();
                self.children.insert(name, Arc::clone(&ticket.mailbox().any));
                Ok(child_ref)
            },
            Err(e) => Err(e),
        }
    }

    /// Have a message delivered to `target` later.
    pub fn schedule_once(&self, delay: Duration, target: &ActorRef<M, N>, message: M) -> (task:
        Scheduled<M, N>)
        ensures
            drawn(task.task_id.bits),
            is_version_4(task.task_id.bits),
            task.delay == delay,
            task.target@ == target@,
            task.sender@ == self.actor_ref@,
            task.message == message,
    {
        Scheduled {
            task_id: IncarnationId::fresh(),
            delay,
            target: target.clone(),
            sender: self.actor_ref.clone(),
            message,
        }
    }

    /// Have a message delivered to this actor later.
    pub fn schedule_to_self(&self, delay: Duration, message: M) -> (task: Scheduled<M, N>)
        ensures
            drawn(task.task_id.bits),
            is_version_4(task.task_id.bits),
            task.delay == delay,
            task.target@ == self.actor_ref@,
            task.sender@ == self.actor_ref@,
            task.message == message,
    {
        self.schedule_once(delay, &self.actor_ref, message)
    }
}

impl<M: Message, N: NetworkTransport<M>> ActorContext<M, N> {
    /// Send a message to another actor, with this one as its sender.
    pub fn send_to(&self, target: &ActorRef<M, N>, message: M) -> (res: Result<(), ActorError>)
        ensures
            res is Ok,
            handed(*target, message, Some(self.actor_ref@)),
    {
        let sender: ActorRef<M, N> = self.actor_ref.clone();
        assert(ref_option(Some(sender)) == Some(self.actor_ref@));
        target.tell(message, Some(sender))
    }

    /// Hand the result of some work to this actor as a message. Of work that
    /// failed it does not hear.
    pub fn pipe_to_self<E>(&self, result: Result<M, E>) -> (outcome: Option<Delivery>)
        ensures
            match result {
                Ok(message) => outcome matches Some(d) && delivered(
                    self.actor_ref,
                    message,
                    None,
                    d,
                ),
                Err(_) => outcome is None,
            },
    {
        pipe_result(&self.actor_ref, result)
    }

    /// Hand the result of some work to this actor, as the message that `map`
    /// makes of it.
    pub fn pipe_to_self_map<T, E, F: FnOnce(Result<T, E>) -> M>(
        &self,
        result: Result<T, E>,
        map: F,
    ) -> (outcome: Delivery)
        requires
            call_requires(map, (result,)),
        ensures
            exists|message: M| #[trigger]
                call_ensures(map, (result,), message) && delivered(
                    self.actor_ref,
                    message,
                    None,
                    outcome,
                ),
    {
        pipe_mapped(&self.actor_ref, result, map)
    }
}

/// The context of an actor is made of what it is given, without children, and
/// tells what it was made of.
pub proof fn law_contexts_tell_what_they_were_made_of<M: Message, N>(
    context: &ActorContext<M, N>,
    r: ActorRef<M, N>,
    above: Option<ActorAddress>,
    given: ActorProps,
    me: &ActorRef<M, N>,
    parent: Option<&ActorAddress>,
    props: &ActorProps,
    n: usize,
    name: &str,
    child: Option<&Arc<AnyMailbox>>,
)
    ensures
        call_ensures(ActorContext::<M, N>::new, (r, above, given), *context) ==> context.actor_ref
            == r && context.parent == above && context.props == given
            && context.children@.is_empty(),
        call_ensures(ActorContext::<M, N>::actor_ref, (context,), me) ==> *me == context.actor_ref,
        call_ensures(ActorContext::<M, N>::parent_address, (context,), parent) ==> (parent is Some
            <==> context.parent is Some) && (parent matches Some(p) ==> context.parent == Some(*p)),
        call_ensures(ActorContext::<M, N>::props, (context,), props) ==> *props == context.props,
        call_ensures(ActorContext::<M, N>::children_count, (context,), n) ==> n
            == context.children@.dom().len(),
        call_ensures(ActorContext::<M, N>::get_child, (context, name), child) ==> (child is Some
            <==> context.children@.contains_key(name@)) && (child matches Some(c) ==> *c
            == context.children@[name@]),
{
}

/// A renewed context speaks for the new incarnation of the same actor: its
/// address, its children, its parent and its props stay.
pub proof fn law_renewed_contexts_keep_all_but_the_incarnation<M: Message, N>(
    context: &mut ActorContext<M, N>,
    mailbox: &Arc<Mailbox<M>>,
)
    requires
        call_ensures(ActorContext::<M, N>::renew, (context, mailbox), ()),
    ensures
        final(context).actor_ref.address@ == old(context).actor_ref.address@,
        final(context).actor_ref.incarnation_id == mailbox.any.incarnation_id,
        final(context).actor_ref.routing matches ActorRouting::Local(way) && way == *mailbox,
        final(context).children == old(context).children,
        final(context).parent == old(context).parent,
        final(context).props == old(context).props,
{
}

/// An actor that stops itself hands itself the signal for it.
pub proof fn law_actors_stop_themselves_by_a_signal<M: Message, N>(
    context: &ActorContext<M, N>,
    mailbox: Arc<Mailbox<M>>,
)
    requires
        call_ensures(ActorContext::<M, N>::stop_self, (context,), ()),
        context.actor_ref.routing == ActorRouting::<M, N>::Local(mailbox),
    ensures
        exists|m: SystemMessage, answer: Result<(), SystemMessage>|
            m@ == Signal::StopSelf && #[trigger] signalled(*mailbox.any.sys_tx, m, answer),
{
}

/// Whatever an actor does to its children leaves the rest of its context alone.
/// A child that is stopped is told so and forgotten, the child at an address is
/// forgotten, and all children are told to stop exactly once.
pub proof fn law_children_are_stopped_and_forgotten<M: Message, N>(
    context: &mut ActorContext<M, N>,
    name: &str,
    address: &ActorAddress,
    res: Result<(), ActorError>,
    list: Vec<Notice>,
    other: Seq<char>,
)
    requires
        call_ensures(ActorContext::<M, N>::stop_child, (context, name), res) || call_ensures(
            ActorContext::<M, N>::stop_all_children,
            (context,),
            list,
        ) || call_ensures(ActorContext::<M, N>::remove_child_by_address, (context, address), ()),
    ensures
        final(context).actor_ref == old(context).actor_ref,
        final(context).parent == old(context).parent,
        final(context).props == old(context).props,
        call_ensures(ActorContext::<M, N>::stop_child, (context, name), res) ==> {
            let before = old(context).children@;
            let after = final(context).children@;
            &&& !after.contains_key(name@)
            &&& after == before.remove(name@)
            &&& !before.contains_key(name@) ==> res is Ok
            &&& before.contains_key(name@) ==> exists|
                m: SystemMessage,
                answer: Result<(), SystemMessage>,
            |
                m@ == Signal::PoisonPill && #[trigger] signalled(
                    *before[name@].sys_tx,
                    m,
                    answer,
                ) && (res is Ok <==> answer is Ok)
        },
        call_ensures(ActorContext::<M, N>::stop_all_children, (context,), list) ==> {
            let before = old(context).children@;
            &&& final(context).children@.is_empty()
            &&& list@.len() == before.dom().len()
            &&& before.contains_key(other) ==> exists|k: int|
                0 <= k < list@.len() && (#[trigger] list@[k]).to == before[other]
                    && list@[k].message@ == Signal::PoisonPill
        },
        call_ensures(ActorContext::<M, N>::remove_child_by_address, (context, address), ()) ==> {
            let own = old(context).actor_ref.address@;
            let before = old(context).children@;
            let after = final(context).children@;
            let gone = address@.node_id == own.node_id && address@.path == own.path.push(other);
            &&& after.contains_key(other) <==> before.contains_key(other) && !gone
            &&& after.contains_key(other) ==> after[other] == before[other]
        },
{
    let own = old(context).actor_ref.address@;
    let before = old(context).children@;
    if address@.path.len() > 0 {
        assert(address@.path =~= address@.path.drop_last().push(address@.path.last()));
    }
    assert(own.path.push(other).drop_last() =~= own.path);
    if call_ensures(ActorContext::<M, N>::stop_all_children, (context,), list) {
        let order = choose|order: Seq<Seq<char>>| #[trigger]
            stops_each_once(list@, order, before);
        order.unique_seq_to_set();
        assert(order.to_set() =~= before.dom());
        if before.contains_key(other) {
            assert(order.contains(other));
            let k = choose|k: int| 0 <= k < order.len() && order[k] == other;
            assert(list@[k]@.to == before[order[k]]);
            assert(list@[k].to == before[other]);
        }
    }
}

/// A message for later holds what it was scheduled with: how long to wait, who
/// gets it, and this actor as its sender. When it is delivered, it is delivered
/// as that.
pub proof fn law_scheduled_messages_are_delivered_as_scheduled<
    M: Message,
    N: NetworkTransport<M>,
>(
    context: &ActorContext<M, N>,
    delay: Duration,
    target: &ActorRef<M, N>,
    message: M,
    task: Scheduled<M, N>,
    outcome: Delivery,
)
    ensures
        call_ensures(
            ActorContext::<M, N>::schedule_once,
            (context, delay, target, message),
            task,
        ) ==> task.delay == delay && task.target.address@ == target.address@
            && task.target.incarnation_id == target.incarnation_id && task.target.routing
            == target.routing && task.sender.address@ == context.actor_ref.address@
            && task.sender.incarnation_id == context.actor_ref.incarnation_id
            && task.sender.routing == context.actor_ref.routing && task.message == message && drawn(
            task.task_id.bits,
        ),
        call_ensures(ActorContext::<M, N>::schedule_to_self, (context, delay, message), task)
            ==> task.delay == delay && task.target.address@ == context.actor_ref.address@
            && task.target.incarnation_id == context.actor_ref.incarnation_id
            && task.target.routing == context.actor_ref.routing && task.sender.address@
            == context.actor_ref.address@ && task.sender.incarnation_id
            == context.actor_ref.incarnation_id && task.sender.routing == context.actor_ref.routing
            && task.message == message && drawn(task.task_id.bits),
        call_ensures(Scheduled::<M, N>::deliver, (task,), outcome) ==> delivered(
            task.target,
            task.message,
            Some(task.sender),
            outcome,
        ),
{
}

/// What an actor sends to another has this actor as its sender, and sending goes
/// well for it.
pub proof fn law_actors_send_in_their_own_name<M: Message, N: NetworkTransport<M>>(
    context: &ActorContext<M, N>,
    target: &ActorRef<M, N>,
    message: M,
    res: Result<(), ActorError>,
)
    requires
        call_ensures(ActorContext::<M, N>::send_to, (context, target, message), res),
    ensures
        res is Ok,
        exists|from: ActorRef<M, N>, outcome: Delivery|
            from.address@ == context.actor_ref.address@ && from.incarnation_id
                == context.actor_ref.incarnation_id && from.routing == context.actor_ref.routing
                && #[trigger] delivered(*target, message, Some(from), outcome),
{
    let (from, outcome) = choose|from: Option<ActorRef<M, N>>, outcome: Delivery|
        ref_option(from) == Some(context.actor_ref@) && #[trigger] delivered(
            *target,
            message,
            from,
            outcome,
        );
    let sender = from->0;
    assert(from == Some(sender));
    assert(sender.address@ == context.actor_ref@.address);
    assert(delivered(*target, message, Some(sender), outcome));
}

/// The result of some work comes to this actor as a message without a sender.
/// Where the work failed and no message is made of that, nothing comes.
pub proof fn law_results_come_back_as_messages<
    M: Message,
    N: NetworkTransport<M>,
    T,
    E,
    F: FnOnce(Result<T, E>) -> M,
>(
    context: &ActorContext<M, N>,
    result: Result<M, E>,
    outcome: Option<Delivery>,
    work: Result<T, E>,
    map: F,
    mapped: Delivery,
)
    ensures
        call_ensures(ActorContext::<M, N>::pipe_to_self::<E>, (context, result), outcome)
            || call_ensures(pipe_result::<M, N, E>, (&context.actor_ref, result), outcome)
            ==> match result {
            Ok(message) => outcome matches Some(d) && delivered(
                context.actor_ref,
                message,
                None,
                d,
            ),
            Err(_) => outcome is None,
        },
        call_ensures(
            ActorContext::<M, N>::pipe_to_self_map::<T, E, F>,
            (context, work, map),
            mapped,
        ) || call_ensures(
            pipe_mapped::<M, N, T, E, F>,
            (&context.actor_ref, work, map),
            mapped,
        ) ==> exists|message: M| #[trigger]
            call_ensures(map, (work,), message) && delivered(
                context.actor_ref,
                message,
                None,
                mapped,
            ),
{
}

/// An actor that is looked up is found exactly where one is registered at the
/// address that accepts the message; the reference that comes back leads to it.
pub proof fn law_selected_actors_are_the_registered_ones<M: Message, N, C: Message, P>(
    context: &ActorContext<M, N>,
    system: &ActorSystem,
    address: &ActorAddress,
    res: Option<ActorRef<C, P>>,
)
    requires
        call_ensures(ActorContext::<M, N>::select::<C, P>, (context, system, address), res),
    ensures
        ({
            let here = (address@.node_id, address@.path);
            let entry = system@.registry[here];
            let way = erased_as::<mpsc::Sender<ActorMessage<C>>>(entry.typed);
            &&& res is Some <==> system@.registry.contains_key(here) && way is Some
            &&& res matches Some(r) ==> r.address@ == address@ && r.incarnation_id
                == entry.mailbox.incarnation_id && (r.routing matches ActorRouting::Local(mailbox)
                && mailbox.any == entry.mailbox && way == Some(mailbox.msg_tx))
        }),
{
}

/// A prepared child can be decided on by the actor that it stands right below.
pub proof fn law_parents_decide_on_their_children<M: Message, N, C: Message, P>(
    context: &mut ActorContext<M, N>,
    system: &mut ActorSystem,
    ticket: &Ticket<C>,
    started: Result<(), &str>,
    name: Seq<char>,
)
    requires
        ticket@.address.node_id == old(context).actor_ref.address@.node_id,
        ticket@.address.path == old(context).actor_ref.address@.path.push(name),
    ensures
        call_requires(
            ActorContext::<M, N>::finish_spawn_child::<C, P>,
            (context, system, ticket, started),
        ),
{
    assert(old(context).actor_ref.address@.path.push(name).drop_last()
        =~= old(context).actor_ref.address@.path);
}

} // verus!
