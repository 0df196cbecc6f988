//! The actor system: the live actors and what they share.

use crate::actor_ref::{ActorRef, ActorRouting};
use crate::address::{
    address_text, checked_path, copy_texts, lemma_first_invalid, valid_segment, ActorAddress,
    ActorPath, AddressError, AddressFault, AddressView,
};
use crate::channel::{self, locked_around, opened_with, signals_opened, valid_capacity};
use crate::children::Children;
use crate::config::{ActorSystemConfig, ConfigView};
use crate::context::{address_option, ActorContext};
use crate::erased::{erased_as, Erased};
use crate::error::{ActorError, ActorFault};
use crate::extension::{found, registered, Extension, ExtensionRegistry};
use crate::incarnation::{drawn, is_version_4, uuid_text, IncarnationId};
use crate::mailbox::{
    flag_made, flag_written, new_flag, renewal_of, AnyMailbox, Mailbox, Notice, NoticeView,
};
use crate::lifecycle::sound;
use crate::message::{ActorMessage, ActorState, IdentityView, Message, Signal, SystemMessage};
use crate::props::{default_props, ActorProps, PropsView, SupervisionStrategy};
use crate::registry::{
    key_place, lists_all, place, registered_at, Place, Registry, RegistryEntry,
};
use crate::resolver::{incarnation_at, mailbox_at, refers_to, resolved, ActorRefResolver};
use crate::runner::{
    awaits, child_in, children_after, created, next, registry_moves, ActorRunner, EventView,
    RunnerView,
};
use crate::wire::{parsed_wire, WireFault};
use std::sync::Arc;
use tokio::sync::mpsc;
use vstd::prelude::*;
use vstd::string::StringExecFns;

verus! {

/// How long a shutdown waits between two looks at the registry.
pub const SHUTDOWN_POLL_MS: u64 = 5;

/// How long a shutdown waits in all.
pub const SHUTDOWN_DEADLINE_SECS: u64 = 5;

/// The live actors and what they share.
pub struct ActorSystem {
    config: ActorSystemConfig,
    node_id: String,
    registry: Registry,
    extensions: ExtensionRegistry,
}

/// A system over views.
#[verifier::ext_equal]
pub struct SystemView {
    pub config: ConfigView,
    pub node_id: Seq<char>,
    pub registry: Map<Place, Arc<RegistryEntry>>,
    pub extensions: Seq<Erased>,
}

impl View for ActorSystem {
    type V = SystemView;

    closed spec fn view(&self) -> SystemView {
        SystemView {
            config: self.config@,
            node_id: self.node_id@,
            registry: self.registry@,
            extensions: self.extensions@,
        }
    }
}

/// Stands for an actor on its way until it has started: where it is to be
/// registered, and with which mailbox.
#[verifier::reject_recursive_types(M)]
pub struct Ticket<M: Message> {
    address: ActorAddress,
    mailbox: Arc<Mailbox<M>>,
}

/// A ticket over views.
#[verifier::ext_equal]
#[verifier::reject_recursive_types(M)]
pub struct TicketView<M: Message> {
    pub address: AddressView,
    pub mailbox: Arc<Mailbox<M>>,
}

impl<M: Message> View for Ticket<M> {
    type V = TicketView<M>;

    closed spec fn view(&self) -> TicketView<M> {
        TicketView { address: self.address@, mailbox: self.mailbox }
    }
}

impl<M: Message> Ticket<M> {
    /// Where the actor is to be registered.
    pub fn address(&self) -> (a: &ActorAddress)
        ensures
            a@ == self@.address,
    {
        &self.address
    }

    /// The mailbox of the actor.
    pub fn mailbox(&self) -> (mailbox: &Arc<Mailbox<M>>)
        ensures
            *mailbox == self@.mailbox,
    {
        &self.mailbox
    }
}

/// An actor on its way: it has a mailbox and a context, but no instance has
/// started and it is not registered.
#[verifier::reject_recursive_types(M)]
pub struct Spawn<M: Message, N> {
    /// The environment of the actor.
    pub context: ActorContext<M, N>,
    /// What is handed in when it has started.
    pub ticket: Ticket<M>,
    /// What decides on its life, once its first instance has started.
    pub runner: ActorRunner,
    /// The way to the actor.
    pub mailbox: Arc<Mailbox<M>>,
    /// Where its messages arrive.
    pub receiver: mpsc::Receiver<ActorMessage<M>>,
    /// Where its signals arrive.
    pub system_receiver: mpsc::UnboundedReceiver<SystemMessage>,
}

/// How far a shutdown has come.
#[derive(Debug, Clone, Copy, PartialEq, Eq, Structural)]
pub enum ShutdownProgress {
    /// No actor is left.
    Complete,
    /// The time is up, and this many actors are left.
    TimedOut { left: usize },
    /// Look again later.
    Wait,
}

/// The capacity of the mailbox of an actor with these props.
pub open spec fn mailbox_capacity(config: ConfigView, props: PropsView) -> usize {
    match props.mailbox_size {
        Some(size) => size,
        None => config.default_mailbox_size,
    }
}

/// The error of a spawn at an address in use.
pub open spec fn already_exists(a: AddressView) -> ActorFault {
    ActorFault::ActorCreationFailed("Actor already exists at address: "@ + address_text(a))
}

/// The error of a spawn whose `pre_start` failed with this text.
pub open spec fn pre_start_failed(text: Seq<char>) -> ActorFault {
    ActorFault::ActorCreationFailed("Actor pre_start failed: "@ + text)
}

/// The address of a user's actor with this name.
pub open spec fn user_address(node_id: Seq<char>, name: Seq<char>) -> Result<
    AddressView,
    AddressFault,
> {
    match checked_path(seq!["user"@, name]) {
        Err(fault) => Err(fault),
        Ok(path) => if node_id.len() == 0 {
            Err(AddressFault::EmptyNodeId)
        } else {
            Ok(AddressView { node_id, path })
        },
    }
}

/// `spawn` is a new incarnation with this address, configuration and parent,
/// and with fresh channels.
pub open spec fn spawn_of<M: Message, N>(
    spawn: Spawn<M, N>,
    a: AddressView,
    props: PropsView,
    parent: Option<AddressView>,
    capacity: usize,
) -> bool {
    &&& spawn.context.actor_ref.address@ == a
    &&& spawn.context.actor_ref.incarnation_id == spawn.mailbox.any.incarnation_id
    &&& spawn.context.actor_ref.routing == ActorRouting::<M, N>::Local(spawn.mailbox)
    &&& spawn.ticket@ == (TicketView { address: a, mailbox: spawn.mailbox })
    &&& spawn.context.children@ == Map::<Seq<char>, Arc<AnyMailbox>>::empty()
    &&& address_option(spawn.context.parent) == parent
    &&& spawn.context.props@ == props
    &&& spawn.runner@ == created(a, parent, props)
    &&& drawn(spawn.mailbox.any.incarnation_id.bits)
    &&& is_version_4(spawn.mailbox.any.incarnation_id.bits)
    &&& opened_with(capacity, *spawn.mailbox.msg_tx, spawn.receiver)
    &&& signals_opened(*spawn.mailbox.any.sys_tx, spawn.system_receiver)
    &&& locked_around(*spawn.mailbox.any.state, ActorState::Starting)
    &&& flag_made(*spawn.mailbox.any.alive, true)
}

/// `res` is what a spawn at this address gives.
pub open spec fn spawn_result<M: Message, N>(
    system: SystemView,
    a: AddressView,
    props: PropsView,
    parent: Option<AddressView>,
    res: Result<Spawn<M, N>, ActorError>,
) -> bool {
    match res {
        Ok(spawn) => !system.registry.contains_key(place(a)) && spawn_of(
            spawn,
            a,
            props,
            parent,
            mailbox_capacity(system.config, props),
        ),
        Err(e) => system.registry.contains_key(place(a)) && e@ == already_exists(a),
    }
}

/// `res` is what a spawn of a user's actor with this name gives.
pub open spec fn user_spawn_result<M: Message, N>(
    system: SystemView,
    name: Seq<char>,
    props: PropsView,
    res: Result<Spawn<M, N>, ActorError>,
) -> bool {
    match user_address(system.node_id, name) {
        Err(fault) => res matches Err(e) && e@ == ActorFault::ActorCreationFailed(
            AddressError::message(fault),
        ),
        Ok(a) => spawn_result(system, a, props, None, res),
    }
}

/// A spawn of a user's actor with this name does not ask for an impossible
/// mailbox.
pub open spec fn can_spawn_user(system: SystemView, name: Seq<char>, props: PropsView) -> bool {
    user_address(system.node_id, name) matches Ok(a) && !system.registry.contains_key(place(a))
        ==> valid_capacity(mailbox_capacity(system.config, props))
}

/// The address to which the child with this name of the actor at `own` can come
/// back, or why it cannot.
pub open spec fn child_place(system: SystemView, own: AddressView, name: Seq<char>) -> Result<
    AddressView,
    ActorFault,
> {
    match ActorAddress::child_address(own, name) {
        Err(fault) => Err(ActorFault::ActorCreationFailed(AddressError::message(fault))),
        Ok(a) => if system.registry.contains_key(place(a)) {
            Err(already_exists(a))
        } else {
            Ok(a)
        },
    }
}

/// The actor that accepts `M` at an address, with the address.
pub open spec fn actor_at<M: Message>(
    registry: Map<Place, Arc<RegistryEntry>>,
    a: AddressView,
) -> Option<(AddressView, Arc<Mailbox<M>>)> {
    incarnation_at::<M>(registry, a, None)
}

/// `list` holds one reference to each live actor that accepts `M`.
pub open spec fn lists_actors<M: Message, N>(
    list: Seq<ActorRef<M, N>>,
    registry: Map<Place, Arc<RegistryEntry>>,
) -> bool {
    &&& forall|k: int|
        0 <= k < list.len() ==> refers_to(
            Some(#[trigger] list[k]),
            actor_at::<M>(registry, list[k].address@),
        )
    &&& forall|a: AddressView| #[trigger]
        mailbox_at::<M>(registry, a) is Some ==> exists|k: int|
            0 <= k < list.len() && (#[trigger] list[k]).address@ == a
    &&& forall|k: int, l: int|
        0 <= k < l < list.len() ==> (#[trigger] list[k]).address@ != (#[trigger] list[l]).address@
}

/// `list` tells each live actor to stop, once: the one at each place the actor
/// whose place stands there in `order`.
pub open spec fn stops_each_actor_once(
    list: Seq<Notice>,
    order: Seq<Place>,
    registry: Map<Place, Arc<RegistryEntry>>,
) -> bool {
    &&& list.len() == order.len()
    &&& order.no_duplicates()
    &&& forall|p: Place| order.contains(p) <==> #[trigger] registry.contains_key(p)
    &&& forall|k: int|
        0 <= k < list.len() ==> registry.contains_key(#[trigger] order[k]) && list[k]@ == (
        NoticeView { to: registry[order[k]].mailbox, message: Signal::PoisonPill })
}

/// The actor behind `mailbox` was registered at the address, and nothing else
/// changed.
pub open spec fn registered_after<M: Message>(
    before: SystemView,
    after: SystemView,
    a: AddressView,
    mailbox: Arc<Mailbox<M>>,
) -> bool {
    &&& registered_at(before.registry, after.registry, a, mailbox)
    &&& after == (SystemView { registry: after.registry, ..before })
}

impl ActorSystem {
    /// A system without actors. `node_var` is the value of the `NODE_ID`
    /// environment variable; a system without one names itself.
    pub fn new(config: ActorSystemConfig, node_var: Option<String>) -> (res: Result<
        Self,
        ActorError,
    >)
        ensures
            res matches Ok(system) && system@.config == config@ && system@.registry == Map::<
                Place,
                Arc<RegistryEntry>,
            >::empty() && system@.extensions == Seq::<Erased>::empty() && match node_var {
                Some(id) => system@.node_id == id@,
                None => exists|bits: u128|
                    drawn(bits) && is_version_4(bits) && system@.node_id == "node-"@
                        + #[trigger] uuid_text(bits),
            },
    {
        let node_id: String = match node_var {
            Some(id) => id,
            None => {
                let id: IncarnationId = IncarnationId::fresh();
                let text: String = id.to_string();
                assert(drawn(id.bits) && is_version_4(id.bits) && text@ == uuid_text(id.bits));
                "node-".to_owned().concat(text.as_str())
            },
        };
        Ok(
            ActorSystem {
                config,
                node_id,
                registry: Registry::new(),
                extensions: ExtensionRegistry::new(),
            },
        )
    }

    /// The id of the node.
    pub fn node_id(&self) -> (id: &str)
        ensures
            id@ == self@.node_id,
    {
        self.node_id.as_str()
    }

    /// The configuration of the system.
    pub fn config(&self) -> (config: &ActorSystemConfig)
        ensures
            config@ == self@.config,
    {
        &self.config
    }

    /// The registry of live actors.
    pub fn registry_mut(&mut self) -> (registry: &mut Registry)
        ensures
            registry@ == old(self)@.registry,
            final(self)@ == (SystemView { registry: final(registry)@, ..old(self)@ }),
    {
        &mut self.registry
    }

    /// The capacity of the mailbox of an actor with these props.
    pub fn mailbox_capacity_of(&self, props: &ActorProps) -> (capacity: usize)
        ensures
            capacity == mailbox_capacity(self@.config, props@),
            props.mailbox_size is None ==> capacity == self@.config.default_mailbox_size,
            props.mailbox_size matches Some(size) ==> capacity == size,
    {
        match props.mailbox_size {
            Some(size) => size,
            None => self.config.default_mailbox_size,
        }
    }

    /// Prepare a user's actor. Its factory and `pre_start` are then run, and
    /// `finish_spawn` decides.
    pub fn spawn_actor<M: Message, N>(&self, name: &str, props: ActorProps) -> (res: Result<
        Spawn<M, N>,
        ActorError,
    >)
        requires
            can_spawn_user(self@, name@, props@),
        ensures
            user_spawn_result(self@, name@, props@, res),
    {
        let path: ActorPath = match ActorPath::user(name) {
            Ok(path) => path,
            Err(e) => {
                return Err(ActorError::ActorCreationFailed(e.to_string()));
            },
        };
        match ActorAddress::new(self.node_id.as_str(), path) {
            Ok(address) => self.spawn_actor_with_address(address, props, None),
            Err(e) => Err(ActorError::ActorCreationFailed(e.to_string())),
        }
    }

    /// Prepare an actor at an address. Its factory and `pre_start` are then run,
    /// and `finish_spawn` decides.
    pub fn spawn_actor_with_address<M: Message, N>(
        &self,
        address: ActorAddress,
        props: ActorProps,
        parent: Option<ActorAddress>,
    ) -> (res: Result<Spawn<M, N>, ActorError>)
        requires
            !self@.registry.contains_key(place(address@)) ==> valid_capacity(
                mailbox_capacity(self@.config, props@),
            ),
        ensures
            spawn_result(self@, address@, props@, address_option(parent), res),
    {
        if self.registry.contains(&address) {
            let text: String = address.to_string();
            return Err(
                ActorError::ActorCreationFailed(
                    "Actor already exists at address: ".to_owned().concat(text.as_str()),
                ),
            );
        }
        let capacity: usize = self.mailbox_capacity_of(&props);
        let (msg_tx, receiver) = channel::open_messages(capacity);
        let (sys_tx, system_receiver) = channel::open_signals();
        let mailbox: Arc<Mailbox<M>> = Arc::new(
            Mailbox::new(
                IncarnationId::fresh(),
                msg_tx,
                sys_tx,
                ActorState::Starting,
                new_flag(true),
            ),
        );
        let actor_ref: ActorRef<M, N> = ActorRef::new_local(address.clone(), Arc::clone(&mailbox));
        let parent_copy: Option<ActorAddress> = match &parent {
            Some(a) => Some(a.clone()),
            None => None,
        };
        let ticket: Ticket<M> = Ticket {
            address: address.clone(),
            mailbox: Arc::clone(&mailbox),
        };
        let runner: ActorRunner = ActorRunner::new(address, parent_copy, props.clone());
        let context: ActorContext<M, N> = ActorContext::new(actor_ref, parent, props);
        Ok(Spawn { context, ticket, runner, mailbox, receiver, system_receiver })
    }

    /// Decide on a prepared actor by how its `pre_start` ended: one that started
    /// is registered, in place of any other at its address.
    pub fn finish_spawn<M: Message, N>(
        &mut self,
        ticket: &Ticket<M>,
        started: Result<(), &str>,
    ) -> (res: Result<ActorRef<M, N>, ActorError>)
        ensures
            match started {
                Ok(_) => {
                    &&& res matches Ok(r) && refers_to(
                        Some(r),
                        Some((ticket@.address, ticket@.mailbox)),
                    )
                    &&& registered_after(
                        old(self)@,
                        final(self)@,
                        ticket@.address,
                        ticket@.mailbox,
                    )
                },
                Err(text) => {
                    &&& res matches Err(e) && e@ == pre_start_failed(text@)
                    &&& final(self)@ == old(self)@
                },
            },
    {
        match started {
            Ok(_) => {
                self.registry.register(&ticket.address, &ticket.mailbox);
                Ok(ActorRef::new_local(ticket.address.clone(), Arc::clone(&ticket.mailbox)))
            },
            Err(text) => Err(
                ActorError::ActorCreationFailed("Actor pre_start failed: ".to_owned().concat(text)),
            ),
        }
    }

    /// Register the next incarnation of the actor behind `mailbox`, which is
    /// restarted.
    pub fn renew<M: Message>(&mut self, address: &ActorAddress, mailbox: &Arc<Mailbox<M>>) -> (
        fresh: Arc<Mailbox<M>>)
        ensures
            renewal_of(*fresh, **mailbox),
            registered_after(old(self)@, final(self)@, address@, fresh),
    {
        self.registry.renew(address, mailbox)
    }

    /// The address of a child that ended, if it is free for the child to come
    /// back to.
    fn free_child_address(&self, own: &ActorAddress, name: &str) -> (res: Result<
        ActorAddress,
        ActorError,
    >)
        ensures
            match res {
                Ok(a) => child_place(self@, own@, name@) == Ok::<AddressView, ActorFault>(a@),
                Err(e) => child_place(self@, own@, name@) == Err::<AddressView, ActorFault>(e@),
            },
    {
        let address: ActorAddress = match own.child(name) {
            Ok(address) => address,
            Err(e) => {
                return Err(ActorError::ActorCreationFailed(e.to_string()));
            },
        };
        if self.registry.contains(&address) {
            let text: String = address.to_string();
            return Err(
                ActorError::ActorCreationFailed(
                    "Actor already exists at address: ".to_owned().concat(text.as_str()),
                ),
            );
        }
        Ok(address)
    }

    /// Decide on a failed child of the actor at `own` that is restarted, by how the
    /// `pre_start` of its fresh instance ended: one that started is registered as
    /// a new incarnation and stands among the children again.
    pub fn restart_child<C: Message, P>(
        &mut self,
        own: &ActorAddress,
        name: &str,
        children: &mut Children,
        mailbox: &Arc<Mailbox<C>>,
        started: Result<(), &str>,
    ) -> (res: Result<ActorRef<C, P>, ActorError>)
        ensures
            match (child_place(old(self)@, own@, name@), started) {
                (Ok(a), Ok(_)) => res matches Ok(r) && r.address@ == a && (
                r.routing matches ActorRouting::Local(fresh) && r.incarnation_id
                    == fresh.any.incarnation_id && renewal_of(*fresh, **mailbox)
                    && registered_after(old(self)@, final(self)@, a, fresh)
                    && final(children)@ == old(children)@.insert(name@, fresh.any)
                    && flag_written(*fresh.any.alive, true)),
                (Ok(_), Err(text)) => res matches Err(e) && e@ == pre_start_failed(text@)
                    && final(self)@ == old(self)@ && final(children)@ == old(children)@,
                (Err(fault), _) => res matches Err(e) && e@ == fault && final(self)@ == old(self)@
                    && final(children)@ == old(children)@,
            },
    {
        let address: ActorAddress = match self.free_child_address(own, name) {
            Ok(address) => address,
            Err(e) => {
                return Err(e);
            },
        };
        match started {
            Ok(_) => {
                let fresh: Arc<Mailbox<C>> = self.registry.renew(&address, mailbox);
                fresh.any.mark_alive();
                children.insert(name, Arc::clone(&fresh.any));
                Ok(ActorRef::new_local(address, fresh))
            },
            Err(text) => Err(
                ActorError::ActorCreationFailed("Actor pre_start failed: ".to_owned().concat(text)),
            ),
        }
    }

    /// Take a failed child of the actor at `own` back, which goes on with the same
    /// instance: it is registered as the same incarnation and stands among the
    /// children again.
    pub fn resume_child<C: Message, P>(
        &mut self,
        own: &ActorAddress,
        name: &str,
        children: &mut Children,
        mailbox: &Arc<Mailbox<C>>,
    ) -> (res: Result<ActorRef<C, P>, ActorError>)
        ensures
            match child_place(old(self)@, own@, name@) {
                Ok(a) => res matches Ok(r) && r.address@ == a && r.incarnation_id
                    == mailbox.any.incarnation_id && r.routing == ActorRouting::<C, P>::Local(
                    *mailbox,
                ) && registered_after(old(self)@, final(self)@, a, *mailbox) && final(children)@
                    == old(children)@.insert(name@, mailbox.any) && flag_written(
                    *mailbox.any.alive,
                    true,
                ),
                Err(fault) => res matches Err(e) && e@ == fault && final(self)@ == old(self)@
                    && final(children)@ == old(children)@,
            },
    {
        match self.free_child_address(own, name) {
            Ok(address) => {
                self.registry.register(&address, mailbox);
                mailbox.any.mark_alive();
                children.insert(name, Arc::clone(&mailbox.any));
                Ok(ActorRef::new_local(address, Arc::clone(mailbox)))
            },
            Err(e) => Err(e),
        }
    }

    /// Prepare a user's actor with the default props.
    pub fn actor_of<M: Message, N>(&self, name: &str) -> (res: Result<Spawn<M, N>, ActorError>)
        requires
            can_spawn_user(self@, name@, default_props()),
        ensures
            user_spawn_result(self@, name@, default_props(), res),
    {
        self.spawn_actor(name, ActorProps::new())
    }

    /// Prepare a user's actor with these props.
    pub fn actor_of_props<M: Message, N>(&self, name: &str, props: ActorProps) -> (res: Result<
        Spawn<M, N>,
        ActorError,
    >)
        requires
            can_spawn_user(self@, name@, props@),
        ensures
            user_spawn_result(self@, name@, props@, res),
    {
        self.spawn_actor(name, props)
    }

    /// Whether an actor lives at the address.
    pub fn contains_actor(&self, address: &ActorAddress) -> (yes: bool)
        ensures
            yes == self@.registry.contains_key(place(address@)),
    {
        self.registry.contains(address)
    }

    /// The actor that accepts `M` at an address.
    pub fn get_actor<M: Message, N>(&self, address: &ActorAddress) -> (res: Option<ActorRef<M, N>>)
        ensures
            refers_to(res, actor_at::<M>(self@.registry, address@)),
    {
        self.resolver().find(address, None)
    }

    /// All live actors that accept `M`, in any order.
    pub fn get_all_actors<M: Message, N>(&self) -> (list: Vec<ActorRef<M, N>>)
        ensures
            lists_actors(list@, self@.registry),
    {
        let entries: Vec<((String, Vec<String>), Arc<RegistryEntry>)> = self.registry.entries();
        let mut list: Vec<ActorRef<M, N>> = Vec::new();
        let mut i: usize = 0;
        while i < entries.len()
            invariant
                lists_all(entries@, self@.registry),
                i <= entries@.len(),
                forall|k: int|
                    0 <= k < list@.len() ==> refers_to(
                        Some(#[trigger] list@[k]),
                        actor_at::<M>(self@.registry, list@[k].address@),
                    ),
                forall|k: int|
                    0 <= k < list@.len() ==> exists|j: int|
                        0 <= j < i && key_place((#[trigger] entries@[j]).0) == place(
                            (#[trigger] list@[k]).address@,
                        ),
                forall|j: int, a: AddressView|
                    0 <= j < i && key_place((#[trigger] entries@[j]).0) == #[trigger] place(a)
                        && mailbox_at::<M>(self@.registry, a) is Some ==> exists|k: int|
                        0 <= k < list@.len() && (#[trigger] list@[k]).address@ == a,
                forall|k: int, l: int|
                    0 <= k < l < list@.len() ==> (#[trigger] list@[k]).address@ != (
                    #[trigger] list@[l]).address@,
            decreases entries@.len() - i,
        {
            let ghost before = list@;
            let ghost here = entries@[i as int];
            match entries[i].1.mailbox_for::<M>() {
                Some(mailbox) => {
                    let address: ActorAddress = ActorAddress {
                        node_id: entries[i].0.0.clone(),
                        path: ActorPath { segments: copy_texts(&entries[i].0.1) },
                    };
                    assert(place(address@) == key_place(here.0));
                    let actor_ref: ActorRef<M, N> = ActorRef::new_local(address, mailbox);
                    list.push(actor_ref);
                    assert(list@[before.len() as int].address@ == address@);
                    assert forall|k: int| 0 <= k < list@.len() implies exists|j: int|
                        0 <= j < i + 1 && key_place((#[trigger] entries@[j]).0) == place(
                            (#[trigger] list@[k]).address@,
                        ) by {
                        if k == before.len() {
                            assert(key_place(entries@[i as int].0) == place(list@[k].address@));
                        } else {
                            assert(list@[k] == before[k]);
                        }
                    }
                    assert forall|j: int, a: AddressView|
                        0 <= j < i + 1 && key_place((#[trigger] entries@[j]).0)
                            == #[trigger] place(a) && mailbox_at::<M>(
                            self@.registry,
                            a,
                        ) is Some implies exists|k: int|
                        0 <= k < list@.len() && (#[trigger] list@[k]).address@ == a by {
                        if j == i {
                            assert(a == address@);
                            assert(list@[before.len() as int].address@ == a);
                        } else {
                            let k = choose|k: int|
                                0 <= k < before.len() && (#[trigger] before[k]).address@ == a;
                            assert(list@[k] == before[k]);
                        }
                    }
                },
                None => {},
            }
            i = i + 1;
        }
        assert forall|a: AddressView| #[trigger]
            mailbox_at::<M>(self@.registry, a) is Some implies exists|k: int|
            0 <= k < list@.len() && (#[trigger] list@[k]).address@ == a by {
            let j = choose|j: int|
                0 <= j < entries@.len() && key_place((#[trigger] entries@[j]).0) == place(a);
            assert(key_place(entries@[j].0) == place(a));
        }
        list
    }

    /// How every live actor is told to stop.
    pub fn shutdown(&self) -> (list: Vec<Notice>)
        ensures
            exists|order: Seq<Place>| #[trigger]
                stops_each_actor_once(list@, order, self@.registry),
    {
        let entries: Vec<((String, Vec<String>), Arc<RegistryEntry>)> = self.registry.entries();
        let mut list: Vec<Notice> = Vec::new();
        let mut i: usize = 0;
        while i < entries.len()
            invariant
                i <= entries@.len(),
                list@.len() == i,
                forall|k: int|
                    0 <= k < i ==> (#[trigger] list@[k])@ == (NoticeView {
                        to: entries@[k].1.mailbox,
                        message: Signal::PoisonPill,
                    }),
            decreases entries@.len() - i,
        {
            list.push(
                Notice {
                    to: Arc::clone(&entries[i].1.mailbox),
                    message: SystemMessage::PoisonPill,
                },
            );
            i = i + 1;
        }
        proof {
            let order = Seq::new(entries@.len(), |k: int| key_place(entries@[k].0));
            assert(stops_each_actor_once(list@, order, self@.registry)) by {
                assert forall|p: Place| order.contains(p) <==> #[trigger]
                    self@.registry.contains_key(p) by {
                    if order.contains(p) {
                        let k = choose|k: int| 0 <= k < order.len() && order[k] == p;
                        assert(key_place(entries@[k].0) == p);
                    }
                    if self@.registry.contains_key(p) {
                        let k = choose|k: int|
                            0 <= k < entries@.len() && key_place((#[trigger] entries@[k]).0) == p;
                        assert(order[k] == p);
                    }
                }
                assert forall|j: int, k: int| 0 <= j < k < order.len() implies order[j]
                    != order[k] by {
                    assert(key_place(entries@[j].0) != key_place(entries@[k].0));
                }
                assert forall|k: int| 0 <= k < list@.len() implies self@.registry.contains_key(
                    #[trigger] order[k],
                ) && list@[k]@ == (NoticeView {
                    to: self@.registry[order[k]].mailbox,
                    message: Signal::PoisonPill,
                }) by {
                    assert(order[k] == key_place(entries@[k].0));
                }
            }
        }
        list
    }

    /// How far a shutdown has come: it waits until no actor is left or the time
    /// is up.
    pub fn shutdown_progress(&self, time_is_up: bool) -> (progress: ShutdownProgress)
        ensures
            progress == if self@.registry == Map::<Place, Arc<RegistryEntry>>::empty() {
                ShutdownProgress::Complete
            } else if time_is_up {
                ShutdownProgress::TimedOut { left: self@.registry.dom().len() as usize }
            } else {
                ShutdownProgress::Wait
            },
    {
        if self.registry.is_empty() {
            ShutdownProgress::Complete
        } else if time_is_up {
            ShutdownProgress::TimedOut { left: self.registry.len() }
        } else {
            ShutdownProgress::Wait
        }
    }

    /// Register an extension. None of its type may be registered yet.
    pub fn register_extension<T: Extension>(&mut self, extension: T)
        requires
            found::<T>(old(self)@.extensions) is None,
        ensures
            registered(old(self)@.extensions, final(self)@.extensions, Arc::new(extension)),
            found::<T>(final(self)@.extensions) == Some(Arc::new(extension)),
            final(self)@ == (SystemView { extensions: final(self)@.extensions, ..old(self)@ }),
    {
        self.extensions.register(extension)
    }

    /// The extension of type `T`, which must be registered.
    pub fn extension<T: Extension>(&self) -> (extension: Arc<T>)
        requires
            found::<T>(self@.extensions) is Some,
        ensures
            found::<T>(self@.extensions) == Some(extension),
    {
        self.extensions.get::<T>()
    }

    /// The extension of type `T`, if it is registered.
    pub fn extension_optional<T: Extension>(&self) -> (res: Option<Arc<T>>)
        ensures
            res == found::<T>(self@.extensions),
    {
        self.extensions.get_optional::<T>()
    }

    /// The extension of type `T`, which is made and registered if it was not
    /// yet.
    pub fn get_or_create_extension<T: Extension>(&mut self) -> (extension: Arc<T>)
        ensures
            found::<T>(final(self)@.extensions) == Some(extension),
            found::<T>(old(self)@.extensions) is Some ==> final(self)@ == old(self)@,
            found::<T>(old(self)@.extensions) is None ==> registered(
                old(self)@.extensions,
                final(self)@.extensions,
                extension,
            ) && exists|made: T| #[trigger]
                call_ensures(T::new_extension, (), made) && extension == Arc::new(made),
            final(self)@ == (SystemView { extensions: final(self)@.extensions, ..old(self)@ }),
    {
        self.extensions.get_or_create::<T>()
    }

    /// A resolver for the live actors of this system.
    pub fn resolver(&self) -> (resolver: ActorRefResolver<'_>)
        ensures
            resolver@ == self@.registry,
    {
        ActorRefResolver::new(&self.registry)
    }
}

/// An address is in use from the time an actor was registered there: another
/// spawn at it is refused.
pub proof fn law_addresses_are_unique<M: Message, C: Message, N>(
    before: SystemView,
    after: SystemView,
    a: AddressView,
    mailbox: Arc<Mailbox<M>>,
    props: PropsView,
    parent: Option<AddressView>,
    again: Result<Spawn<C, N>, ActorError>,
)
    requires
        registered_after(before, after, a, mailbox),
        spawn_result(after, a, props, parent, again),
    ensures
        again matches Err(e) && e@ == already_exists(a),
{
}

/// The text of a reference to an actor that was registered resolves to that
/// actor.
pub proof fn law_registered_actors_resolve<M: Message>(
    before: SystemView,
    after: SystemView,
    id: IdentityView,
    mailbox: Arc<Mailbox<M>>,
    text: Seq<char>,
)
    requires
        registered_after(before, after, id.address, mailbox),
        mailbox.any.incarnation_id == id.incarnation_id,
        parsed_wire(text) == Ok::<IdentityView, WireFault>(id),
    ensures
        resolved::<M>(after.registry, text) == Some((id.address, mailbox)),
        actor_at::<M>(after.registry, id.address) == Some((id.address, mailbox)),
{
    crate::resolver::law_live_references_resolve::<M>(after.registry, text, id, mailbox);
}

/// Registering an actor leaves the actors at other addresses alone.
pub proof fn law_registration_keeps_other_actors<M: Message, C: Message>(
    before: SystemView,
    after: SystemView,
    a: AddressView,
    b: AddressView,
    mailbox: Arc<Mailbox<M>>,
)
    requires
        registered_after(before, after, a, mailbox),
        a != b,
    ensures
        actor_at::<C>(after.registry, b) == actor_at::<C>(before.registry, b),
{
}

/// An actor that ended is found no more, and its address is free again.
pub proof fn law_ended_actors_are_gone<M: Message, N>(
    before: SystemView,
    after: SystemView,
    r: RunnerView,
    e: EventView,
    was: Arc<Mailbox<M>>,
    now: Arc<Mailbox<M>>,
    props: PropsView,
    parent: Option<AddressView>,
    again: Result<Spawn<M, N>, ActorError>,
)
    requires
        sound(r),
        awaits(r.phase, e),
        next(r, e).phase is Done,
        registry_moves(r, e, before.registry, after.registry, was, now),
        spawn_result(after, r.address, props, parent, again),
    ensures
        actor_at::<M>(after.registry, r.address) is None,
        again is Ok,
{
    crate::lifecycle::law_actors_leave_the_registry_when_they_end(
        r,
        e,
        before.registry,
        after.registry,
        was,
        now,
        r.address,
    );
}

/// A failed child that its parent restarts comes back: when its fresh instance has
/// started, it stands among the children under its new mailbox, it is registered,
/// and it stays there when the parent goes on.
pub proof fn law_restarted_children_come_back<C: Message>(
    before: SystemView,
    after: SystemView,
    r: RunnerView,
    name: Seq<char>,
    children: Map<Seq<char>, Arc<AnyMailbox>>,
    was: Arc<Mailbox<C>>,
    fresh: Arc<Mailbox<C>>,
)
    requires
        r.phase is Supervising,
        child_place(before, r.address, name) == Ok::<AddressView, ActorFault>(child_in(r.phase)),
        renewal_of(*fresh, *was),
        registered_after(before, after, child_in(r.phase), fresh),
    ensures
        ({
            let decided = EventView::Supervised(SupervisionStrategy::Restart);
            let busy = next(r, decided);
            let back = children_after(
                busy,
                EventView::ChildRestarted(None),
                children_after(r, decided, children).insert(name, fresh.any),
            );
            &&& back == children.insert(name, fresh.any)
            &&& actor_at::<C>(after.registry, child_in(r.phase)) == Some(
                (child_in(r.phase), fresh),
            )
            &&& next(busy, EventView::ChildRestarted(None)).state == r.state
        }),
{
}

/// A failed child that its parent resumes comes back as the same incarnation.
pub proof fn law_resumed_children_come_back<C: Message>(
    before: SystemView,
    after: SystemView,
    r: RunnerView,
    name: Seq<char>,
    children: Map<Seq<char>, Arc<AnyMailbox>>,
    mailbox: Arc<Mailbox<C>>,
)
    requires
        r.phase is Supervising,
        child_place(before, r.address, name) == Ok::<AddressView, ActorFault>(child_in(r.phase)),
        registered_after(before, after, child_in(r.phase), mailbox),
    ensures
        ({
            let decided = EventView::Supervised(SupervisionStrategy::Resume);
            let busy = next(r, decided);
            let back = children_after(
                busy,
                EventView::ChildResumed(None),
                children_after(r, decided, children).insert(name, mailbox.any),
            );
            &&& back == children.insert(name, mailbox.any)
            &&& actor_at::<C>(after.registry, child_in(r.phase)) == Some(
                (child_in(r.phase), mailbox),
            )
            &&& next(busy, EventView::ChildResumed(None)).state == r.state
        }),
{
}

/// How long a shutdown waits: five seconds in all, with a look at the registry
/// every five milliseconds.
pub proof fn law_shutdowns_wait_five_seconds()
    ensures
        SHUTDOWN_POLL_MS == 5,
        SHUTDOWN_DEADLINE_SECS == 5,
{
}

/// A shutdown tells every live actor to stop, each exactly once, and nobody else.
pub proof fn law_shutdowns_tell_every_actor_once(
    system: &ActorSystem,
    list: Vec<Notice>,
    p: (Seq<char>, Seq<Seq<char>>),
)
    requires
        call_ensures(ActorSystem::shutdown, (system,), list),
    ensures
        list@.len() == system@.registry.dom().len(),
        system@.registry.contains_key(p) ==> exists|k: int|
            0 <= k < list@.len() && (#[trigger] list@[k]).to == system@.registry[p].mailbox,
        forall|k: int|
            0 <= k < list@.len() ==> (#[trigger] list@[k]).message@ == Signal::PoisonPill && exists|
                q: (Seq<char>, Seq<Seq<char>>),
            | #[trigger]
                system@.registry.contains_key(q) && list@[k].to == system@.registry[q].mailbox,
{
    let registry = system@.registry;
    let order = choose|order: Seq<Place>| #[trigger] stops_each_actor_once(list@, order, registry);
    order.unique_seq_to_set();
    assert(order.to_set() =~= registry.dom());
    if registry.contains_key(p) {
        assert(order.contains(p));
        let k = choose|k: int| 0 <= k < order.len() && order[k] == p;
        assert(list@[k]@.to == registry[order[k]].mailbox);
        assert(list@[k].to == registry[p].mailbox);
    }
    assert forall|k: int| 0 <= k < list@.len() implies (#[trigger] list@[k]).message@
        == Signal::PoisonPill && exists|q: (Seq<char>, Seq<Seq<char>>)| #[trigger]
        registry.contains_key(q) && list@[k].to == registry[q].mailbox by {
        assert(registry.contains_key(order[k]));
        assert(list@[k]@.to == registry[order[k]].mailbox);
    }
}

/// A shutdown is complete exactly when no actor is left, whatever the time. Until
/// then it waits, and when the time is up it says how many are left.
pub proof fn law_shutdowns_wait_for_the_last_actor(
    system: &ActorSystem,
    time_is_up: bool,
    progress: ShutdownProgress,
)
    requires
        call_ensures(ActorSystem::shutdown_progress, (system, time_is_up), progress),
    ensures
        progress is Complete <==> system@.registry.is_empty(),
        progress is TimedOut <==> !system@.registry.is_empty() && time_is_up,
        progress matches ShutdownProgress::TimedOut { left } ==> left
            == system@.registry.dom().len() as usize,
        progress is Wait <==> !system@.registry.is_empty() && !time_is_up,
{
    if system@.registry.is_empty() {
        assert(system@.registry =~= Map::<Place, Arc<RegistryEntry>>::empty());
    }
}

/// An actor is found at its address exactly where it is registered there and
/// accepts the message; the reference that comes back leads to it.
pub proof fn law_actors_are_found_at_their_address<M: Message, N>(
    system: &ActorSystem,
    address: &ActorAddress,
    yes: bool,
    res: Option<ActorRef<M, N>>,
)
    ensures
        ({
            let here = (address@.node_id, address@.path);
            let entry = system@.registry[here];
            let way = erased_as::<mpsc::Sender<ActorMessage<M>>>(entry.typed);
            &&& call_ensures(ActorSystem::contains_actor, (system, address), yes) ==> (yes
                <==> system@.registry.contains_key(here))
            &&& call_ensures(ActorSystem::get_actor::<M, N>, (system, address), res) ==> {
                &&& res is Some <==> system@.registry.contains_key(here) && way is Some
                &&& res matches Some(r) ==> r.address@ == address@ && r.incarnation_id
                    == entry.mailbox.incarnation_id && (
                r.routing matches ActorRouting::Local(mailbox) && mailbox.any == entry.mailbox
                    && way == Some(mailbox.msg_tx))
            }
        }),
{
}

/// The list of all actors holds each actor that accepts the message exactly once,
/// and nothing else.
pub proof fn law_all_actors_are_listed_once<M: Message, N>(
    system: &ActorSystem,
    list: Vec<ActorRef<M, N>>,
    a: AddressView,
)
    requires
        call_ensures(ActorSystem::get_all_actors::<M, N>, (system,), list),
    ensures
        system@.registry.contains_key((a.node_id, a.path)) && erased_as::<
            mpsc::Sender<ActorMessage<M>>,
        >(system@.registry[(a.node_id, a.path)].typed) is Some ==> exists|k: int|
            0 <= k < list@.len() && (#[trigger] list@[k]).address@ == a,
        forall|k: int|
            0 <= k < list@.len() ==> {
                let b = (#[trigger] list@[k]).address@;
                let entry = system@.registry[(b.node_id, b.path)];
                let way = erased_as::<mpsc::Sender<ActorMessage<M>>>(entry.typed);
                &&& system@.registry.contains_key((b.node_id, b.path))
                &&& list@[k].incarnation_id == entry.mailbox.incarnation_id
                &&& list@[k].routing matches ActorRouting::Local(mailbox) && mailbox.any
                    == entry.mailbox && way == Some(mailbox.msg_tx)
            },
        forall|k: int, l: int|
            0 <= k < l < list@.len() ==> (#[trigger] list@[k]).address@ != (
            #[trigger] list@[l]).address@,
{
    assert(mailbox_at::<M>(system@.registry, a) is Some ==> exists|k: int|
        0 <= k < list@.len() && (#[trigger] list@[k]).address@ == a);
}

/// A restarted actor is registered under its address as a new incarnation, which
/// has all that the one before it had but the id.
pub proof fn law_renewed_actors_are_registered<M: Message>(
    system: &mut ActorSystem,
    address: &ActorAddress,
    was: &Arc<Mailbox<M>>,
    fresh: Arc<Mailbox<M>>,
)
    requires
        call_ensures(ActorSystem::renew::<M>, (system, address, was), fresh),
    ensures
        ({
            let here = (address@.node_id, address@.path);
            let after = final(system)@.registry;
            &&& fresh.msg_tx == was.msg_tx
            &&& fresh.any.sys_tx == was.any.sys_tx
            &&& fresh.any.state == was.any.state
            &&& fresh.any.alive == was.any.alive
            &&& drawn(fresh.any.incarnation_id.bits)
            &&& after.contains_key(here)
            &&& after[here].mailbox == fresh.any
            &&& erased_as::<mpsc::Sender<ActorMessage<M>>>(after[here].typed) == Some(fresh.msg_tx)
            &&& after.remove(here) == old(system)@.registry.remove(here)
            &&& final(system)@.config == old(system)@.config
            &&& final(system)@.node_id == old(system)@.node_id
            &&& final(system)@.extensions == old(system)@.extensions
        }),
{
}

/// A failed child is restarted if its name is a segment, its address is free and
/// its fresh instance started. It is then registered as a new incarnation over
/// the same channels, stands among the children under it, and is alive. Otherwise
/// nothing changes, and the error says why.
pub proof fn law_children_are_restarted_in_their_place<C: Message, P>(
    system: &mut ActorSystem,
    own: &ActorAddress,
    name: &str,
    children: &mut Children,
    mailbox: &Arc<Mailbox<C>>,
    started: Result<(), &str>,
    res: Result<ActorRef<C, P>, ActorError>,
)
    requires
        call_ensures(
            ActorSystem::restart_child::<C, P>,
            (system, own, name, children, mailbox, started),
            res,
        ),
        forall|i: int|
            0 <= i < own@.path.len() ==> (#[trigger] own@.path[i]).len() > 0
                && !own@.path[i].contains('/'),
    ensures
        ({
            let a = AddressView { node_id: own@.node_id, path: own@.path.push(name@) };
            let here = (a.node_id, a.path);
            let proper = name@.len() > 0 && !name@.contains('/');
            let taken = old(system)@.registry.contains_key(here);
            let after = final(system)@;
            &&& res is Ok <==> proper && !taken && started is Ok
            &&& !proper ==> (res matches Err(e) && e@ == ActorFault::ActorCreationFailed(
                "Invalid path segment: "@ + name@,
            ))
            &&& proper && taken ==> (res matches Err(e) && e@ == ActorFault::ActorCreationFailed(
                "Actor already exists at address: "@ + address_text(a),
            ))
            &&& proper && !taken ==> (started matches Err(text) ==> (res matches Err(e) && e@
                == ActorFault::ActorCreationFailed("Actor pre_start failed: "@ + text@)))
            &&& res is Err ==> after == old(system)@ && final(children)@ == old(children)@
            &&& res matches Ok(r) ==> r.address@ == a && (
            r.routing matches ActorRouting::Local(fresh) && {
                &&& r.incarnation_id == fresh.any.incarnation_id
                &&& fresh.msg_tx == mailbox.msg_tx
                &&& fresh.any.sys_tx == mailbox.any.sys_tx
                &&& fresh.any.state == mailbox.any.state
                &&& fresh.any.alive == mailbox.any.alive
                &&& drawn(fresh.any.incarnation_id.bits)
                &&& flag_written(*fresh.any.alive, true)
                &&& final(children)@ == old(children)@.insert(name@, fresh.any)
                &&& after.registry.contains_key(here)
                &&& after.registry[here].mailbox == fresh.any
                &&& erased_as::<mpsc::Sender<ActorMessage<C>>>(after.registry[here].typed) == Some(
                    fresh.msg_tx,
                )
                &&& after.registry.remove(here) == old(system)@.registry.remove(here)
                &&& after.config == old(system)@.config
                &&& after.node_id == old(system)@.node_id
                &&& after.extensions == old(system)@.extensions
            })
        }),
{
    lemma_child_places(old(system)@, own@, name@);
}

/// A failed child is resumed if its name is a segment and its address is free. It
/// is then registered as the incarnation that it was, stands among the children
/// again, and is alive. Otherwise nothing changes, and the error says why.
pub proof fn law_children_are_resumed_in_their_place<C: Message, P>(
    system: &mut ActorSystem,
    own: &ActorAddress,
    name: &str,
    children: &mut Children,
    mailbox: &Arc<Mailbox<C>>,
    res: Result<ActorRef<C, P>, ActorError>,
)
    requires
        call_ensures(
            ActorSystem::resume_child::<C, P>,
            (system, own, name, children, mailbox),
            res,
        ),
        forall|i: int|
            0 <= i < own@.path.len() ==> (#[trigger] own@.path[i]).len() > 0
                && !own@.path[i].contains('/'),
    ensures
        ({
            let a = AddressView { node_id: own@.node_id, path: own@.path.push(name@) };
            let here = (a.node_id, a.path);
            let proper = name@.len() > 0 && !name@.contains('/');
            let taken = old(system)@.registry.contains_key(here);
            let after = final(system)@;
            &&& res is Ok <==> proper && !taken
            &&& !proper ==> (res matches Err(e) && e@ == ActorFault::ActorCreationFailed(
                "Invalid path segment: "@ + name@,
            ))
            &&& proper && taken ==> (res matches Err(e) && e@ == ActorFault::ActorCreationFailed(
                "Actor already exists at address: "@ + address_text(a),
            ))
            &&& res is Err ==> after == old(system)@ && final(children)@ == old(children)@
            &&& res matches Ok(r) ==> {
                &&& r.address@ == a
                &&& r.incarnation_id == mailbox.any.incarnation_id
                &&& r.routing matches ActorRouting::Local(way) && way == *mailbox
                &&& flag_written(*mailbox.any.alive, true)
                &&& final(children)@ == old(children)@.insert(name@, mailbox.any)
                &&& after.registry.contains_key(here)
                &&& after.registry[here].mailbox == mailbox.any
                &&& erased_as::<mpsc::Sender<ActorMessage<C>>>(after.registry[here].typed) == Some(
                    mailbox.msg_tx,
                )
                &&& after.registry.remove(here) == old(system)@.registry.remove(here)
                &&& after.config == old(system)@.config
                &&& after.node_id == old(system)@.node_id
                &&& after.extensions == old(system)@.extensions
            }
        }),
{
    lemma_child_places(old(system)@, own@, name@);
}

/// Where a child of an actor with a proper path comes back to.
proof fn lemma_child_places(system: SystemView, own: AddressView, name: Seq<char>)
    requires
        forall|i: int|
            0 <= i < own.path.len() ==> (#[trigger] own.path[i]).len() > 0
                && !own.path[i].contains('/'),
    ensures
        ({
            let a = AddressView { node_id: own.node_id, path: own.path.push(name) };
            let proper = name.len() > 0 && !name.contains('/');
            &&& !proper ==> child_place(system, own, name) == Err::<AddressView, ActorFault>(
                ActorFault::ActorCreationFailed("Invalid path segment: "@ + name),
            )
            &&& proper && system.registry.contains_key((a.node_id, a.path)) ==> child_place(
                system,
                own,
                name,
            ) == Err::<AddressView, ActorFault>(
                ActorFault::ActorCreationFailed(
                    "Actor already exists at address: "@ + address_text(a),
                ),
            )
            &&& proper && !system.registry.contains_key((a.node_id, a.path)) ==> child_place(
                system,
                own,
                name,
            ) == Ok::<AddressView, ActorFault>(a)
        }),
{
    let below = own.path.push(name);
    lemma_first_invalid(below);
    if name.len() > 0 && !name.contains('/') {
        assert forall|i: int| 0 <= i < below.len() implies valid_segment(#[trigger] below[i]) by {
            if i < own.path.len() {
                assert(below[i] == own.path[i]);
            }
        }
    }
}

/// A system tells what it was made of, and hands out its own registry and
/// extensions.
pub proof fn law_systems_tell_what_they_were_made_of<T: Extension>(
    system: &mut ActorSystem,
    id: &str,
    config: &ActorSystemConfig,
    extension: T,
    got: Arc<T>,
    found_one: Option<Arc<T>>,
)
    ensures
        call_ensures(ActorSystem::node_id, (&*old(system),), id) ==> id@ == old(system)@.node_id,
        call_ensures(ActorSystem::config, (&*old(system),), config) ==> config@
            == old(system)@.config,
        call_ensures(ActorSystem::extension::<T>, (&*old(system),), got) ==> found::<T>(
            old(system)@.extensions,
        ) == Some(got),
        call_ensures(ActorSystem::extension_optional::<T>, (&*old(system),), found_one)
            ==> found_one == found::<T>(old(system)@.extensions),
        call_ensures(ActorSystem::register_extension::<T>, (system, extension), ()) ==> {
            &&& found::<T>(final(system)@.extensions) == Some(Arc::new(extension))
            &&& final(system)@.extensions.drop_last() == old(system)@.extensions
            &&& final(system)@.registry == old(system)@.registry
            &&& final(system)@.config == old(system)@.config
            &&& final(system)@.node_id == old(system)@.node_id
        },
        call_ensures(ActorSystem::get_or_create_extension::<T>, (system,), got) ==> {
            let before = old(system)@.extensions;
            let after = final(system)@.extensions;
            &&& found::<T>(after) == Some(got)
            &&& found::<T>(before) is Some ==> final(system)@ == old(system)@
            &&& found::<T>(before) is None ==> after.drop_last() == before && exists|made: T|
                #[trigger] call_ensures(T::new_extension, (), made) && got == Arc::new(made)
            &&& final(system)@.registry == old(system)@.registry
            &&& final(system)@.config == old(system)@.config
            &&& final(system)@.node_id == old(system)@.node_id
        },
{
    let before = old(system)@.extensions;
    assert forall|e: Erased| #[trigger] before.push(e).drop_last() == before by {
        assert(before.push(e).drop_last() =~= before);
    }
}

/// What is done to the registry that a system hands out is done to the system's
/// own, and to nothing else of it.
pub proof fn law_systems_hand_out_their_own_registry(
    system: &mut ActorSystem,
    registry: &mut Registry,
)
    requires
        call_ensures(ActorSystem::registry_mut, (system,), registry),
    ensures
        old(registry)@ == old(system)@.registry,
        final(system)@.registry == final(registry)@,
        final(system)@.config == old(system)@.config,
        final(system)@.node_id == old(system)@.node_id,
        final(system)@.extensions == old(system)@.extensions,
{
}

/// The resolver of a system finds the actors of that system.
pub proof fn law_resolvers_find_the_actors_of_their_system<'a>(
    system: &'a ActorSystem,
    registry: &'a Registry,
    resolver: ActorRefResolver<'a>,
)
    ensures
        call_ensures(ActorSystem::resolver, (system,), resolver) ==> resolver@ == system@.registry,
        call_ensures(ActorRefResolver::<'a>::new, (registry,), resolver) ==> resolver@
            == registry@,
{
}

} // verus!
