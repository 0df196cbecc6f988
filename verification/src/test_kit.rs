//! An actor system for tests, with probes.

use crate::actor_ref::ActorRef;
use crate::address::{lemma_first_invalid, AddressError};
use crate::channel::valid_capacity;
use crate::config::{default_config, ActorSystemConfig};
use crate::erased::Erased;
use crate::error::{ActorError, ActorFault};
use crate::incarnation::{drawn, is_version_4, uuid_text, IncarnationId};
use crate::mailbox::Notice;
use crate::message::{Message, Signal};
use crate::probe::TestProbe;
use crate::props::{default_props, ActorProps, SupervisionStrategy};
use crate::registry::{no_actors, place, Place};
use crate::system::{
    already_exists, can_spawn_user, mailbox_capacity, registered_after, spawn_of, stops_each_actor_once,
    user_address, user_spawn_result, ActorSystem, Spawn,
};
use crate::test_message::TestMessage;
use vstd::prelude::*;
use vstd::string::StringExecFns;

verus! {

/// A probe without regard to the type of its messages.
pub struct TestProbeRef<N> {
    /// Names the probe.
    pub id: IncarnationId,
    /// A reference to the probe's actor.
    pub actor_ref: ActorRef<TestMessage, N>,
}

/// An actor system with probes.
pub struct ActorTestKit<N> {
    /// The system.
    pub system: ActorSystem,
    /// The probes that were made.
    pub probes: Vec<TestProbeRef<N>>,
}

/// A probe together with its actor, which is registered but does not run yet.
#[verifier::reject_recursive_types(M)]
pub struct ProbeSpawn<M: Message, N> {
    pub probe: TestProbe<M, N>,
    pub actor: Spawn<TestMessage, N>,
}

/// The name of the actor of the probe with this id.
pub open spec fn probe_name(id: IncarnationId) -> Seq<char> {
    "test-probe-"@ + uuid_text(id.bits)
}

/// `res` is what making the probe with this id gives, and `after` the kit then: a
/// probe whose actor is registered, unless the actor's address is refused or in
/// use.
pub open spec fn probe_result<M: Message, N>(
    before: ActorTestKit<N>,
    after: ActorTestKit<N>,
    id: IncarnationId,
    res: Result<ProbeSpawn<M, N>, ActorError>,
) -> bool {
    match user_address(before.system@.node_id, probe_name(id)) {
        Err(fault) => {
            &&& res matches Err(e) && e@ == ActorFault::ActorCreationFailed(
                AddressError::message(fault),
            )
            &&& after == before
        },
        Ok(a) => if before.system@.registry.contains_key(place(a)) {
            &&& res matches Err(e) && e@ == already_exists(a)
            &&& after == before
        } else {
            &&& res matches Ok(made) && made.probe.id == id && made.probe@ == Seq::<M>::empty()
                && made.probe.actor_ref@ == made.actor.context.actor_ref@ && spawn_of(
                made.actor,
                a,
                default_props(),
                None,
                mailbox_capacity(before.system@.config, default_props()),
            ) && registered_after(before.system@, after.system@, a, made.actor.mailbox)
                && after.probes@.len() == before.probes@.len() + 1 && after.probes@.drop_last()
                == before.probes@ && after.probes@.last().id == id
                && after.probes@.last().actor_ref@ == made.probe.actor_ref@
        },
    }
}

/// On a node with a name, the only thing that keeps a probe from being made is an
/// actor at its address.
pub proof fn law_probes_are_made_unless_their_address_is_in_use<M: Message, N>(
    before: ActorTestKit<N>,
    after: ActorTestKit<N>,
    id: IncarnationId,
    res: Result<ProbeSpawn<M, N>, ActorError>,
)
    requires
        probe_result(before, after, id, res),
        before.system@.node_id.len() > 0,
    ensures
        res is Ok <==> !before.system@.registry.contains_key(
            (before.system@.node_id, seq!["user"@, probe_name(id)]),
        ),
{
    lemma_probe_names_are_valid(id);
}

/// The name of a probe's actor can stand in a path.
proof fn lemma_probe_names_are_valid(id: IncarnationId)
    ensures
        crate::address::checked_path(seq!["user"@, probe_name(id)]) == Ok::<
            Seq<Seq<char>>,
            crate::address::AddressFault,
        >(seq!["user"@, probe_name(id)]),
{
    reveal_strlit("test-probe-");
    reveal_strlit("user");
    crate::incarnation::law_uuid_text_holds_no_mark(id.bits);
    let name = probe_name(id);
    assert forall|i: int| 0 <= i < name.len() implies name[i] != '/' by {
        if i >= 11 {
            assert(name[i] == uuid_text(id.bits)[i - 11]);
            assert(uuid_text(id.bits).contains(uuid_text(id.bits)[i - 11]));
        }
    }
    let path = seq!["user"@, name];
    assert(crate::address::valid_segment(path[0]));
    assert(crate::address::valid_segment(path[1]));
    lemma_first_invalid(path);
}

impl<N> ActorTestKit<N> {
    /// A kit around a system with the default configuration.
    pub fn new(node_var: Option<String>) -> (kit: Self)
        ensures
            kit.system@.config == default_config(),
            kit.system@.registry == no_actors(),
            kit.system@.extensions == Seq::<Erased>::empty(),
            kit.probes@.len() == 0,
            match node_var {
                Some(id) => kit.system@.node_id == id@,
                None => exists|bits: u128|
                    drawn(bits) && is_version_4(bits) && kit.system@.node_id == "node-"@
                        + #[trigger] uuid_text(bits),
            },
    {
        ActorTestKit::with_config(ActorSystemConfig::default(), node_var)
    }

    /// A kit around a system with this configuration.
    pub fn with_config(config: ActorSystemConfig, node_var: Option<String>) -> (kit: Self)
        ensures
            kit.system@.config == config@,
            kit.system@.registry == no_actors(),
            kit.system@.extensions == Seq::<Erased>::empty(),
            kit.probes@.len() == 0,
            match node_var {
                Some(id) => kit.system@.node_id == id@,
                None => exists|bits: u128|
                    drawn(bits) && is_version_4(bits) && kit.system@.node_id == "node-"@
                        + #[trigger] uuid_text(bits),
            },
    {
        ActorTestKit { system: ActorSystem::new(config, node_var).unwrap(), probes: Vec::new() }
    }

    /// The system.
    pub fn system(&self) -> (system: &ActorSystem)
        ensures
            *system == self.system,
    {
        &self.system
    }

    /// Prepare an actor with the default props.
    pub fn spawn(&self, name: &str) -> (res: Result<Spawn<TestMessage, N>, ActorError>)
        requires
            can_spawn_user(self.system@, name@, default_props()),
        ensures
            user_spawn_result(self.system@, name@, default_props(), res),
    {
        self.system.spawn_actor(name, ActorProps::new())
    }

    /// Prepare an actor with these props.
    pub fn spawn_with_props(&self, name: &str, props: ActorProps) -> (res: Result<
        Spawn<TestMessage, N>,
        ActorError,
    >)
        requires
            can_spawn_user(self.system@, name@, props@),
        ensures
            user_spawn_result(self.system@, name@, props@, res),
    {
        self.system.spawn_actor(name, props)
    }

    /// Make the probe with this id for messages of type `M`, and register its
    /// actor, which has nothing to do before it starts.
    pub fn create_probe_named<M: Message>(&mut self, id: IncarnationId) -> (res: Result<
        ProbeSpawn<M, N>,
        ActorError,
    >)
        requires
            valid_capacity(mailbox_capacity(old(self).system@.config, default_props())),
        ensures
            probe_result(*old(self), *final(self), id, res),
    {
        let id_text: String = id.to_string();
        let name: String = "test-probe-".to_owned().concat(id_text.as_str());
        assert(name@ == probe_name(id));
        match self.spawn(name.as_str()) {
            Ok(actor) => {
                let actor_ref: ActorRef<TestMessage, N> = match self.system.finish_spawn(
                    &actor.ticket,
                    Ok(()),
                ) {
                    Ok(actor_ref) => actor_ref,
                    Err(e) => {
                        return Err(e);
                    },
                };
                self.probes.push(TestProbeRef { id, actor_ref: actor_ref.clone() });
                assert(self.probes@.drop_last() =~= old(self).probes@);
                Ok(ProbeSpawn { probe: TestProbe::new(actor_ref, id), actor })
            },
            Err(e) => Err(e),
        }
    }

    /// Make a probe for messages of type `M` under an id that is drawn for it.
    ///
    /// The kit's node must have a name. Should the actor's name, which holds the
    /// id, be in use all the same, there is no probe.
    pub fn create_test_probe<M: Message>(&mut self) -> (res: Result<ProbeSpawn<M, N>, ActorError>)
        requires
            valid_capacity(mailbox_capacity(old(self).system@.config, default_props())),
        ensures
            exists|id: IncarnationId| #[trigger]
                drawn(id.bits) && is_version_4(id.bits) && probe_result(
                    *old(self),
                    *final(self),
                    id,
                    res,
                ),
    {
        let id: IncarnationId = IncarnationId::fresh();
        self.create_probe_named(id)
    }

    /// How every live actor of the system is told to stop.
    pub fn shutdown(&self) -> (list: Vec<Notice>)
        ensures
            exists|order: Seq<Place>| #[trigger]
                stops_each_actor_once(list@, order, self.system@.registry),
    {
        self.system.shutdown()
    }

    /// The probes that were made, in the order in which they were.
    pub fn probes(&self) -> (list: &Vec<TestProbeRef<N>>)
        ensures
            *list == self.probes,
    {
        &self.probes
    }
}

/// A kit starts without actors and without probes, around a system with the
/// configuration that it was given, or the default one.
pub proof fn law_kits_start_empty<N>(
    kit: ActorTestKit<N>,
    config: ActorSystemConfig,
    node_var: Option<String>,
)
    requires
        call_ensures(ActorTestKit::<N>::new, (node_var,), kit) || call_ensures(
            ActorTestKit::<N>::with_config,
            (config, node_var),
            kit,
        ),
    ensures
        kit.system@.registry.is_empty(),
        kit.system@.extensions.len() == 0,
        kit.probes@.len() == 0,
        node_var matches Some(id) ==> kit.system@.node_id == id@,
        call_ensures(ActorTestKit::<N>::with_config, (config, node_var), kit)
            ==> kit.system@.config == config@,
        call_ensures(ActorTestKit::<N>::new, (node_var,), kit)
            ==> kit.system@.config.default_mailbox_size == 1000 && kit.system@.config.max_actors
            == 1_000_000 && !kit.system@.config.distributed,
{
}

/// The actors of a kit are spawned as those of its system are: under `user`, with
/// the props that were given, or the default ones.
pub proof fn law_kits_spawn_as_their_system<N>(
    kit: &ActorTestKit<N>,
    name: &str,
    props: ActorProps,
    res: Result<Spawn<TestMessage, N>, ActorError>,
)
    requires
        kit.system@.node_id.len() > 0,
        call_ensures(ActorTestKit::<N>::spawn, (kit, name), res) || call_ensures(
            ActorTestKit::<N>::spawn_with_props,
            (kit, name, props),
            res,
        ),
    ensures
        res is Ok <==> name@.len() > 0 && !name@.contains('/')
            && !kit.system@.registry.contains_key((kit.system@.node_id, seq!["user"@, name@])),
        res matches Ok(spawn) ==> {
            &&& spawn.context.actor_ref.address@.node_id == kit.system@.node_id
            &&& spawn.context.actor_ref.address@.path == seq!["user"@, name@]
            &&& spawn.runner@.props == spawn.context.props@
            &&& spawn.context.parent is None
        },
        call_ensures(ActorTestKit::<N>::spawn_with_props, (kit, name, props), res) ==> (
        res matches Ok(spawn) ==> spawn.context.props@ == props@),
        call_ensures(ActorTestKit::<N>::spawn, (kit, name), res) ==> (res matches Ok(spawn)
            ==> spawn.context.props.supervision_strategy == SupervisionStrategy::Stop
            && spawn.context.props.max_restarts == 3 && spawn.context.props.mailbox_size is None),
{
    reveal_strlit("user");
    let path = seq!["user"@, name@];
    lemma_first_invalid(path);
    assert(crate::address::valid_segment(path[0]));
    assert(path[1] == name@);
}

/// A probe is made under its id, with an empty queue, for an actor that is
/// registered under the name of the probe. The kit lists it behind the probes
/// that were made before. A probe that is not made changes nothing.
pub proof fn law_probes_are_registered_under_their_name<M: Message, N>(
    kit: &mut ActorTestKit<N>,
    id: IncarnationId,
    res: Result<ProbeSpawn<M, N>, ActorError>,
)
    requires
        call_ensures(ActorTestKit::<N>::create_probe_named::<M>, (kit, id), res),
        old(kit).system@.node_id.len() > 0,
    ensures
        ({
            let name = "test-probe-"@ + uuid_text(id.bits);
            let here = (old(kit).system@.node_id, seq!["user"@, name]);
            let after = final(kit).system@.registry;
            &&& res is Ok <==> !old(kit).system@.registry.contains_key(here)
            &&& res is Err ==> *final(kit) == *old(kit)
            &&& res matches Ok(made) ==> {
                &&& made.probe.id == id
                &&& made.probe.messages@.len() == 0
                &&& made.probe.actor_ref.address@.node_id == here.0
                &&& made.probe.actor_ref.address@.path == here.1
                &&& made.probe.actor_ref.incarnation_id == made.actor.mailbox.any.incarnation_id
                &&& after.contains_key(here)
                &&& after[here].mailbox == made.actor.mailbox.any
                &&& after.remove(here) == old(kit).system@.registry.remove(here)
                &&& final(kit).probes@.drop_last() == old(kit).probes@
                &&& final(kit).probes@.last().id == id
                &&& final(kit).probes@.last().actor_ref.address@ == made.probe.actor_ref.address@
            }
        }),
{
    lemma_probe_names_are_valid(id);
    let here = (old(kit).system@.node_id, seq!["user"@, probe_name(id)]);
    let before = old(kit).system@.registry;
    if let Ok(made) = res {
        let mailbox = made.actor.mailbox;
        let entry = choose|entry: crate::registry::RegistryEntry| #[trigger]
            crate::registry::entry_of(entry, mailbox) && final(kit).system@.registry
                == before.insert(here, std::sync::Arc::new(entry));
        assert(before.insert(here, std::sync::Arc::new(entry)).remove(here) =~= before.remove(
            here,
        ));
    }
}

/// A kit shows its system and its probes, and its shutdown tells every actor of
/// its system to stop.
pub proof fn law_kits_show_what_they_hold<N>(
    kit: &ActorTestKit<N>,
    system: &ActorSystem,
    probes: &Vec<TestProbeRef<N>>,
    list: Vec<Notice>,
    p: (Seq<char>, Seq<Seq<char>>),
)
    ensures
        call_ensures(ActorTestKit::<N>::system, (kit,), system) ==> *system == kit.system,
        call_ensures(ActorTestKit::<N>::probes, (kit,), probes) ==> *probes == kit.probes,
        call_ensures(ActorTestKit::<N>::shutdown, (kit,), list) ==> list@.len()
            == kit.system@.registry.dom().len() && (kit.system@.registry.contains_key(p) ==> exists|
            k: int,
        |
            0 <= k < list@.len() && (#[trigger] list@[k]).to == kit.system@.registry[p].mailbox
                && list@[k].message@ == Signal::PoisonPill),
{
    let registry = kit.system@.registry;
    if call_ensures(ActorTestKit::<N>::shutdown, (kit,), list) {
        let order = choose|order: Seq<Place>| #[trigger]
            stops_each_actor_once(list@, order, registry);
        order.unique_seq_to_set();
        assert(order.to_set() =~= registry.dom());
        if registry.contains_key(p) {
            assert(order.contains(p));
            let k = choose|k: int| 0 <= k < order.len() && order[k] == p;
            assert(list@[k]@.to == registry[order[k]].mailbox);
            assert(list@[k].to == registry[p].mailbox);
        }
    }
}

/// A probe for which no id was given is made under an id that was drawn at
/// random.
pub proof fn law_probes_are_made_under_drawn_ids<M: Message, N>(
    kit: &mut ActorTestKit<N>,
    res: Result<ProbeSpawn<M, N>, ActorError>,
)
    requires
        call_ensures(ActorTestKit::<N>::create_test_probe::<M>, (kit,), res),
    ensures
        res matches Ok(made) ==> drawn(made.probe.id.bits) && is_version_4(made.probe.id.bits)
            && made.probe.messages@.len() == 0 && final(kit).probes@.last().id == made.probe.id
            && final(kit).probes@.drop_last() == old(kit).probes@,
        res is Err ==> *final(kit) == *old(kit),
{
}

} // verus!
