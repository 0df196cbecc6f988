//! What holds of actors that are spawned, and of those that are not.

use crate::actor_ref::{ActorRef, ActorRouting};
use crate::address::{
    address_text, first_invalid, lemma_first_invalid, valid_segment, ActorAddress, AddressView,
};
use crate::channel::{locked_around, opened_with, signals_opened};
use crate::config::ActorSystemConfig;
use crate::context::ActorContext;
use crate::erased::erased_as;
use crate::error::{ActorError, ActorFault};
use crate::incarnation::{drawn, is_version_4, uuid_text};
use crate::mailbox::{flag_made, AnyMailbox, Mailbox};
use crate::message::{ActorMessage, ActorState, Message, StateView};
use crate::props::{ActorProps, SupervisionStrategy};
use crate::system::{ActorSystem, Spawn, Ticket};
use std::sync::Arc;
use tokio::sync::mpsc;
use vstd::prelude::*;

verus! {

/// The mailbox of an actor has the capacity that its props give, and the one
/// that the system is configured with where they give none.
pub proof fn law_capacities_go_by_props_and_configuration(
    system: &ActorSystem,
    props: &ActorProps,
    capacity: usize,
)
    requires
        call_ensures(ActorSystem::mailbox_capacity_of, (system, props), capacity),
    ensures
        props.mailbox_size is None ==> capacity == system@.config.default_mailbox_size,
        props.mailbox_size matches Some(size) ==> capacity == size,
{
}

/// An actor is prepared where none lives yet, and only there. It is at the
/// address that was asked for, under the parent that was given, with the props
/// that were given, and its context and its runner agree on all of that. It has
/// no children, it is known by the id of its mailbox, and it has yet to begin.
pub proof fn law_spawned_actors_are_as_asked_for<M: Message, N>(
    system: &ActorSystem,
    address: ActorAddress,
    props: ActorProps,
    parent: Option<ActorAddress>,
    res: Result<Spawn<M, N>, ActorError>,
)
    requires
        call_ensures(
            ActorSystem::spawn_actor_with_address::<M, N>,
            (system, address, props, parent),
            res,
        ),
    ensures
        res is Ok <==> !system@.registry.contains_key((address@.node_id, address@.path)),
        res matches Err(e) ==> e@ == ActorFault::ActorCreationFailed(
            "Actor already exists at address: "@ + address_text(address@),
        ),
        res matches Ok(spawn) ==> {
            &&& spawn.context.props@ == props@
            &&& spawn.runner@.props == props@
            &&& spawn.context.actor_ref.address@ == address@
            &&& spawn.runner@.address == address@
            &&& spawn.ticket@.address == address@
            &&& match parent {
                Some(p) => (spawn.context.parent matches Some(q) && q@ == p@)
                    && spawn.runner@.parent == Some(p@),
                None => spawn.context.parent is None && spawn.runner@.parent is None,
            }
            &&& spawn.context.children@ == Map::<Seq<char>, Arc<AnyMailbox>>::empty()
            &&& spawn.context.actor_ref.incarnation_id == spawn.mailbox.any.incarnation_id
            &&& spawn.context.actor_ref.routing == ActorRouting::<M, N>::Local(spawn.mailbox)
            &&& spawn.ticket@.mailbox == spawn.mailbox
            &&& spawn.runner@.phase is Created
            &&& spawn.runner@.state == StateView::Starting
            &&& spawn.runner@.restart_count == 0
            &&& spawn.runner@.alive
        },
{
}

/// The message channel of a prepared actor was opened with the capacity of its
/// props, and with that of the system's configuration where they give none. Its
/// id was drawn at random, and it starts out alive.
pub proof fn law_spawned_actors_have_fresh_channels<M: Message, N>(
    system: &ActorSystem,
    address: ActorAddress,
    props: ActorProps,
    parent: Option<ActorAddress>,
    res: Result<Spawn<M, N>, ActorError>,
)
    requires
        call_ensures(
            ActorSystem::spawn_actor_with_address::<M, N>,
            (system, address, props, parent),
            res,
        ),
    ensures
        res matches Ok(spawn) ==> {
            &&& props.mailbox_size is None ==> opened_with(
                system@.config.default_mailbox_size,
                *spawn.mailbox.msg_tx,
                spawn.receiver,
            )
            &&& props.mailbox_size matches Some(size) ==> opened_with(
                size,
                *spawn.mailbox.msg_tx,
                spawn.receiver,
            )
            &&& signals_opened(*spawn.mailbox.any.sys_tx, spawn.system_receiver)
            &&& locked_around(*spawn.mailbox.any.state, ActorState::Starting)
            &&& flag_made(*spawn.mailbox.any.alive, true)
            &&& drawn(spawn.mailbox.any.incarnation_id.bits)
            &&& is_version_4(spawn.mailbox.any.incarnation_id.bits)
        },
{
}

/// A child is prepared with the props that were given, every one of them, and
/// with the default ones where none were given. It stands right below the actor
/// that spawns it, which is its parent.
pub proof fn law_children_are_spawned_as_asked_for<M: Message, N, C: Message, P>(
    context: &ActorContext<M, N>,
    system: &ActorSystem,
    name: &str,
    props: Option<ActorProps>,
    res: Result<Spawn<C, P>, ActorError>,
)
    requires
        call_ensures(
            ActorContext::<M, N>::spawn_child::<C, P>,
            (context, system, name, props),
            res,
        ),
    ensures
        res matches Ok(spawn) ==> {
            let own = context.actor_ref.address@;
            &&& props matches Some(p) ==> spawn.context.props@ == p@ && spawn.runner@.props == p@
            &&& props is None ==> {
                &&& spawn.runner@.props == spawn.context.props@
                &&& spawn.context.props.supervision_strategy == SupervisionStrategy::Stop
                &&& spawn.context.props.max_restarts == 3
                &&& spawn.context.props.restart_window_secs == 60
                &&& spawn.context.props.mailbox_size is None
                &&& spawn.context.props.dispatcher is None
                &&& spawn.context.props.backoff_base_ms == 100
                &&& spawn.context.props.backoff_max_ms == 60_000
            }
            &&& spawn.context.actor_ref.address@.node_id == own.node_id
            &&& spawn.context.actor_ref.address@.path == own.path.push(name@)
            &&& spawn.runner@.address == spawn.context.actor_ref.address@
            &&& spawn.ticket@.address == spawn.context.actor_ref.address@
            &&& spawn.ticket@.mailbox == spawn.mailbox
            &&& spawn.runner@.parent == Some(own)
            &&& spawn.context.parent matches Some(parent) && parent@ == own
            &&& spawn.context.actor_ref.incarnation_id == spawn.mailbox.any.incarnation_id
            &&& spawn.context.actor_ref.routing == ActorRouting::<C, P>::Local(spawn.mailbox)
            &&& spawn.context.children@ == Map::<Seq<char>, Arc<AnyMailbox>>::empty()
            &&& spawn.runner@.phase is Created
            &&& spawn.runner@.state == StateView::Starting
            &&& spawn.runner@.restart_count == 0
            &&& spawn.runner@.alive
            &&& (match props {
                Some(p) => p.mailbox_size,
                None => None,
            }) matches Some(size) ==> opened_with(size, *spawn.mailbox.msg_tx, spawn.receiver)
            &&& (match props {
                Some(p) => p.mailbox_size,
                None => None,
            }) is None ==> opened_with(
                system@.config.default_mailbox_size,
                *spawn.mailbox.msg_tx,
                spawn.receiver,
            )
        },
{
}

/// A child is prepared if and only if its name is a segment of a path and its
/// address is free. Otherwise the error says which of the two failed.
pub proof fn law_children_are_spawned_where_they_can_be<M: Message, N, C: Message, P>(
    context: &ActorContext<M, N>,
    system: &ActorSystem,
    name: &str,
    props: Option<ActorProps>,
    res: Result<Spawn<C, P>, ActorError>,
)
    requires
        call_ensures(
            ActorContext::<M, N>::spawn_child::<C, P>,
            (context, system, name, props),
            res,
        ),
        forall|i: int|
            0 <= i < context.actor_ref.address@.path.len() ==> (
            #[trigger] context.actor_ref.address@.path[i]).len() > 0
                && !context.actor_ref.address@.path[i].contains('/'),
    ensures
        ({
            let own = context.actor_ref.address@;
            let taken = system@.registry.contains_key((own.node_id, own.path.push(name@)));
            let proper = name@.len() > 0 && !name@.contains('/');
            &&& res is Ok <==> proper && !taken
            &&& !proper ==> (res matches Err(e) && e@ == ActorFault::ActorCreationFailed(
                "Invalid path segment: "@ + name@,
            ))
            &&& proper && taken ==> (res matches Err(e) && e@ == ActorFault::ActorCreationFailed(
                "Actor already exists at address: "@ + address_text(
                    AddressView { node_id: own.node_id, path: own.path.push(name@) },
                ),
            ))
        }),
{
    let path = context.actor_ref.address@.path.push(name@);
    if name@.len() > 0 && !name@.contains('/') {
        assert forall|i: int| 0 <= i < path.len() implies valid_segment(#[trigger] path[i]) by {
            if i < context.actor_ref.address@.path.len() {
                assert(path[i] == context.actor_ref.address@.path[i]);
            }
        }
        lemma_first_invalid(path);
    }
}

/// A user's actor is prepared if and only if its name is a segment of a path and
/// its address is free. It lives under `user` on the node of the system, it has
/// no parent, and it has the props that were given.
pub proof fn law_user_actors_are_spawned_as_asked_for<M: Message, N>(
    system: &ActorSystem,
    name: &str,
    props: ActorProps,
    res: Result<Spawn<M, N>, ActorError>,
)
    requires
        call_ensures(ActorSystem::spawn_actor::<M, N>, (system, name, props), res) || call_ensures(
            ActorSystem::actor_of_props::<M, N>,
            (system, name, props),
            res,
        ),
        system@.node_id.len() > 0,
    ensures
        ({
            let path = seq!["user"@, name@];
            let taken = system@.registry.contains_key((system@.node_id, path));
            let proper = name@.len() > 0 && !name@.contains('/');
            &&& res is Ok <==> proper && !taken
            &&& !proper ==> (res matches Err(e) && e@ == ActorFault::ActorCreationFailed(
                "Invalid path segment: "@ + name@,
            ))
            &&& proper && taken ==> (res matches Err(e) && e@ == ActorFault::ActorCreationFailed(
                "Actor already exists at address: "@ + address_text(
                    AddressView { node_id: system@.node_id, path },
                ),
            ))
            &&& res matches Ok(spawn) ==> {
                &&& spawn.context.props@ == props@
                &&& spawn.runner@.props == props@
                &&& spawn.context.actor_ref.address@.node_id == system@.node_id
                &&& spawn.context.actor_ref.address@.path == path
                &&& spawn.context.actor_ref.incarnation_id == spawn.mailbox.any.incarnation_id
                &&& spawn.context.actor_ref.routing == ActorRouting::<M, N>::Local(spawn.mailbox)
                &&& spawn.context.children@ == Map::<Seq<char>, Arc<AnyMailbox>>::empty()
                &&& spawn.context.parent is None
                &&& spawn.runner@.address == spawn.context.actor_ref.address@
                &&& spawn.runner@.parent is None
                &&& spawn.runner@.phase is Created
                &&& spawn.runner@.restart_count == 0
                &&& spawn.ticket@.address == spawn.context.actor_ref.address@
                &&& spawn.ticket@.mailbox == spawn.mailbox
                &&& props.mailbox_size matches Some(size) ==> opened_with(
                    size,
                    *spawn.mailbox.msg_tx,
                    spawn.receiver,
                )
                &&& props.mailbox_size is None ==> opened_with(
                    system@.config.default_mailbox_size,
                    *spawn.mailbox.msg_tx,
                    spawn.receiver,
                )
            }
        }),
{
    lemma_user_paths(name@);
}

/// A user's actor for which no props were given has the default ones, and is
/// prepared where one with props would be.
pub proof fn law_user_actors_have_default_props<M: Message, N>(
    system: &ActorSystem,
    name: &str,
    res: Result<Spawn<M, N>, ActorError>,
)
    requires
        call_ensures(ActorSystem::actor_of::<M, N>, (system, name), res),
        system@.node_id.len() > 0,
    ensures
        ({
            let path = seq!["user"@, name@];
            &&& res is Ok <==> name@.len() > 0 && !name@.contains('/')
                && !system@.registry.contains_key((system@.node_id, path))
            &&& res matches Ok(spawn) ==> {
                &&& spawn.runner@.props == spawn.context.props@
                &&& spawn.context.props.supervision_strategy == SupervisionStrategy::Stop
                &&& spawn.context.props.max_restarts == 3
                &&& spawn.context.props.restart_window_secs == 60
                &&& spawn.context.props.mailbox_size is None
                &&& spawn.context.props.dispatcher is None
                &&& spawn.context.props.backoff_base_ms == 100
                &&& spawn.context.props.backoff_max_ms == 60_000
                &&& spawn.context.actor_ref.address@.node_id == system@.node_id
                &&& spawn.context.actor_ref.address@.path == path
                &&& opened_with(
                    system@.config.default_mailbox_size,
                    *spawn.mailbox.msg_tx,
                    spawn.receiver,
                )
            }
        }),
{
    lemma_user_paths(name@);
}

/// Which names make a path of a user's actor.
proof fn lemma_user_paths(name: Seq<char>)
    ensures
        first_invalid(seq!["user"@, name]) == if name.len() > 0 && !name.contains('/') {
            2nat
        } else {
            1nat
        },
{
    reveal_strlit("user");
    let path = seq!["user"@, name];
    let rest = path.skip(1);
    assert(rest =~= seq![name]);
    assert(rest.skip(1) =~= Seq::<Seq<char>>::empty());
    assert(!path[0].contains('/'));
    reveal_with_fuel(first_invalid, 3);
}

/// A prepared actor that started is registered under its address, with its
/// mailbox, and the reference that comes back leads to it. No other registration
/// and nothing else of the system changes. One that did not start leaves no trace,
/// and the error says why.
pub proof fn law_started_actors_are_registered<M: Message, N>(
    system: &mut ActorSystem,
    ticket: &Ticket<M>,
    started: Result<(), &str>,
    res: Result<ActorRef<M, N>, ActorError>,
)
    requires
        call_ensures(ActorSystem::finish_spawn::<M, N>, (system, ticket, started), res),
    ensures
        started matches Err(text) ==> final(system)@ == old(system)@ && (res matches Err(e) && e@
            == ActorFault::ActorCreationFailed("Actor pre_start failed: "@ + text@)),
        started is Ok ==> {
            let place = (ticket@.address.node_id, ticket@.address.path);
            let after = final(system)@.registry;
            &&& after.contains_key(place)
            &&& after[place].mailbox == ticket@.mailbox.any
            &&& erased_as::<mpsc::Sender<ActorMessage<M>>>(after[place].typed) == Some(
                ticket@.mailbox.msg_tx,
            )
            &&& after.remove(place) == old(system)@.registry.remove(place)
            &&& final(system)@.config == old(system)@.config
            &&& final(system)@.node_id == old(system)@.node_id
            &&& final(system)@.extensions == old(system)@.extensions
            &&& res matches Ok(r) && r.address@ == ticket@.address && r.incarnation_id
                == ticket@.mailbox.any.incarnation_id && r.routing == ActorRouting::<M, N>::Local(
                ticket@.mailbox,
            )
        },
{
}

/// A child that started is registered and stands among the children of its
/// parent under the last segment of its address. The other children stay, and one
/// that did not start is no child.
pub proof fn law_started_children_are_kept<M: Message, N, C: Message, P>(
    context: &mut ActorContext<M, N>,
    system: &mut ActorSystem,
    ticket: &Ticket<C>,
    started: Result<(), &str>,
    res: Result<ActorRef<C, P>, ActorError>,
)
    requires
        call_ensures(
            ActorContext::<M, N>::finish_spawn_child::<C, P>,
            (context, system, ticket, started),
            res,
        ),
    ensures
        final(context).actor_ref == old(context).actor_ref,
        final(context).parent == old(context).parent,
        final(context).props == old(context).props,
        started matches Err(text) ==> final(system)@ == old(system)@ && final(context).children@
            == old(context).children@ && (res matches Err(e) && e@
            == ActorFault::ActorCreationFailed("Actor pre_start failed: "@ + text@)),
        started is Ok ==> {
            let name = ticket@.address.path.last();
            let place = (ticket@.address.node_id, ticket@.address.path);
            let after = final(system)@.registry;
            &&& final(context).children@.contains_key(name)
            &&& final(context).children@[name] == ticket@.mailbox.any
            &&& final(context).children@.remove(name) == old(context).children@.remove(name)
            &&& after.contains_key(place)
            &&& after[place].mailbox == ticket@.mailbox.any
            &&& erased_as::<mpsc::Sender<ActorMessage<C>>>(after[place].typed) == Some(
                ticket@.mailbox.msg_tx,
            )
            &&& after.remove(place) == old(system)@.registry.remove(place)
            &&& final(system)@.config == old(system)@.config
            &&& final(system)@.node_id == old(system)@.node_id
            &&& final(system)@.extensions == old(system)@.extensions
            &&& res matches Ok(r) && r.address@ == ticket@.address && r.incarnation_id
                == ticket@.mailbox.any.incarnation_id && r.routing == ActorRouting::<C, P>::Local(
                ticket@.mailbox,
            )
        },
{
    let name = ticket@.address.path.last();
    assert(old(context).children@.insert(name, ticket@.mailbox.any).remove(name)
        =~= old(context).children@.remove(name));
}

/// A system starts out empty, with the configuration that it was given. Its node
/// has the id that it was given, or one that nothing but chance decides.
pub proof fn law_systems_start_empty(
    config: ActorSystemConfig,
    node_var: Option<String>,
    res: Result<ActorSystem, ActorError>,
)
    requires
        call_ensures(ActorSystem::new, (config, node_var), res),
    ensures
        res matches Ok(system) && system@.config == config@ && system@.registry.is_empty()
            && system@.extensions.len() == 0 && (node_var matches Some(id) ==> system@.node_id
            == id@) && (node_var is None ==> exists|bits: u128|
            drawn(bits) && system@.node_id == "node-"@ + #[trigger] uuid_text(bits)),
{
}

/// Every actor can be spawned whose mailbox has a capacity that a channel can be
/// opened with, and a spawn that is refused needs no such capacity.
pub proof fn law_actors_can_be_spawned<M: Message, N, C: Message, P>(
    system: &ActorSystem,
    address: ActorAddress,
    name: &str,
    props: ActorProps,
    parent: Option<ActorAddress>,
    context: &ActorContext<M, N>,
    given: Option<ActorProps>,
    capacity: usize,
)
    requires
        1 <= capacity <= usize::MAX / 8,
    ensures
        (props.mailbox_size == Some(capacity) || props.mailbox_size is None
            && system@.config.default_mailbox_size == capacity) ==> call_requires(
            ActorSystem::spawn_actor_with_address::<M, N>,
            (system, address, props, parent),
        ) && call_requires(ActorSystem::spawn_actor::<M, N>, (system, name, props))
            && call_requires(ActorSystem::actor_of_props::<M, N>, (system, name, props)),
        system@.config.default_mailbox_size == capacity ==> call_requires(
            ActorSystem::actor_of::<M, N>,
            (system, name),
        ),
        system@.registry.contains_key((address@.node_id, address@.path)) ==> call_requires(
            ActorSystem::spawn_actor_with_address::<M, N>,
            (system, address, props, parent),
        ),
        (given matches Some(p) && p.mailbox_size == Some(capacity)) ==> call_requires(
            ActorContext::<M, N>::spawn_child::<C, P>,
            (context, system, name, given),
        ),
        (given matches Some(p) ==> p.mailbox_size is None) && system@.config.default_mailbox_size
            == capacity ==> call_requires(
            ActorContext::<M, N>::spawn_child::<C, P>,
            (context, system, name, given),
        ),
{
}

/// A ticket shows the address and the mailbox that it stands for.
pub proof fn law_tickets_show_what_they_stand_for<M: Message>(
    ticket: &Ticket<M>,
    address: &ActorAddress,
    mailbox: &Arc<Mailbox<M>>,
)
    ensures
        call_ensures(Ticket::<M>::address, (ticket,), address) ==> address@ == ticket@.address,
        call_ensures(Ticket::<M>::mailbox, (ticket,), mailbox) ==> *mailbox == ticket@.mailbox,
{
}

/// On a node without a name no user's actor is prepared.
pub proof fn law_nameless_nodes_have_no_user_actors<M: Message, N>(
    system: &ActorSystem,
    name: &str,
    props: ActorProps,
    res: Result<Spawn<M, N>, ActorError>,
)
    requires
        call_ensures(ActorSystem::spawn_actor::<M, N>, (system, name, props), res) || call_ensures(
            ActorSystem::actor_of_props::<M, N>,
            (system, name, props),
            res,
        ) || call_ensures(ActorSystem::actor_of::<M, N>, (system, name), res),
        system@.node_id.len() == 0,
    ensures
        name@.len() > 0 && !name@.contains('/') ==> (res matches Err(e) && e@
            == ActorFault::ActorCreationFailed("Empty node ID"@)),
        name@.len() == 0 || name@.contains('/') ==> (res matches Err(e) && e@
            == ActorFault::ActorCreationFailed("Invalid path segment: "@ + name@)),
{
    lemma_user_paths(name@);
}

} // verus!
