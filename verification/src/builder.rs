//! Step-by-step configuration of an actor system.

use crate::config::{default_config, ActorSystemConfig, ConfigView};
use crate::erased::Erased;
use crate::error::ActorError;
use crate::incarnation::{drawn, is_version_4, uuid_text};
use crate::registry::{Place, RegistryEntry};
use crate::system::ActorSystem;
use crate::text::texts;
use std::sync::Arc;
use vstd::prelude::*;

verus! {

/// Collects the configuration of an actor system.
pub struct ActorSystemBuilder {
    config: ActorSystemConfig,
}

impl View for ActorSystemBuilder {
    type V = ConfigView;

    closed spec fn view(&self) -> ConfigView {
        self.config@
    }
}

impl ActorSystemBuilder {
    /// Begin with the default configuration.
    pub fn new() -> (builder: Self)
        ensures
            builder@ == default_config(),
    {
        ActorSystemBuilder { config: ActorSystemConfig::default() }
    }

    /// Set how many actors the system is meant for.
    pub fn with_max_actors(self, max_actors: usize) -> (builder: Self)
        ensures
            builder@ == (ConfigView { max_actors, ..self@ }),
    {
        ActorSystemBuilder { config: ActorSystemConfig { max_actors, ..self.config } }
    }

    /// Set the mailbox capacity of actors whose props name none.
    pub fn with_mailbox_size(self, size: usize) -> (builder: Self)
        ensures
            builder@ == (ConfigView { default_mailbox_size: size, ..self@ }),
    {
        ActorSystemBuilder {
            config: ActorSystemConfig { default_mailbox_size: size, ..self.config },
        }
    }

    /// Have the system talk to other nodes.
    pub fn with_distributed(self, bind_address: String) -> (builder: Self)
        ensures
            builder@ == (ConfigView {
                distributed: true,
                bind_address: Some(bind_address@),
                ..self@
            }),
    {
        ActorSystemBuilder {
            config: ActorSystemConfig {
                distributed: true,
                bind_address: Some(bind_address),
                ..self.config
            },
        }
    }

    /// Set the nodes that are asked for others.
    pub fn with_seed_nodes(self, seed_nodes: Vec<String>) -> (builder: Self)
        ensures
            builder@ == (ConfigView { seed_nodes: texts(seed_nodes@), ..self@ }),
    {
        ActorSystemBuilder { config: ActorSystemConfig { seed_nodes, ..self.config } }
    }

    /// Build the system, where `node_var` is the value of the `NODE_ID`
    /// environment variable.
    pub fn build(self, node_var: Option<String>) -> (res: Result<ActorSystem, ActorError>)
        ensures
            res matches Ok(system) && system@.config == self@ && system@.registry == Map::<
                Place,
                Arc<RegistryEntry>,
            >::empty() && system@.extensions == Seq::<Erased>::empty() && match node_var {
                Some(id) => system@.node_id == id@,
                None => exists|bits: u128|
                    drawn(bits) && is_version_4(bits) && system@.node_id == "node-"@
                        + #[trigger] uuid_text(bits),
            },
    {
        ActorSystem::new(self.config, node_var)
    }
}

impl Default for ActorSystemBuilder {
    fn default() -> (builder: Self)
        ensures
            builder@ == default_config(),
    {
        ActorSystemBuilder::new()
    }
}

/// A builder starts from the default configuration: a million actors, mailboxes
/// for a thousand messages, one node on its own and four threads.
pub proof fn law_builders_start_from_the_defaults(builder: ActorSystemBuilder)
    requires
        call_ensures(ActorSystemBuilder::new, (), builder) || call_ensures(
            <ActorSystemBuilder as Default>::default,
            (),
            builder,
        ),
    ensures
        builder@.max_actors == 1_000_000,
        builder@.default_mailbox_size == 1000,
        !builder@.distributed,
        builder@.bind_address is None,
        builder@.seed_nodes.len() == 0,
        builder@.thread_pool_size == 4,
{
}

/// Each step of a builder sets what it is named after to what it was given, and
/// leaves the rest as it was.
pub proof fn law_steps_change_what_they_name(
    before: ActorSystemBuilder,
    after: ActorSystemBuilder,
    n: usize,
    address: String,
    nodes: Vec<String>,
)
    ensures
        call_ensures(ActorSystemBuilder::with_max_actors, (before, n), after) ==> after@ == (
        ConfigView { max_actors: n, ..before@ }),
        call_ensures(ActorSystemBuilder::with_mailbox_size, (before, n), after) ==> after@ == (
        ConfigView { default_mailbox_size: n, ..before@ }),
        call_ensures(ActorSystemBuilder::with_distributed, (before, address), after) ==> after@ == (
        ConfigView { distributed: true, bind_address: Some(address@), ..before@ }),
        call_ensures(ActorSystemBuilder::with_seed_nodes, (before, nodes), after) ==> after@ == (
        ConfigView { seed_nodes: after@.seed_nodes, ..before@ }) && after@.seed_nodes.len()
            == nodes@.len() && forall|i: int|
            0 <= i < nodes@.len() ==> #[trigger] after@.seed_nodes[i] == nodes@[i]@,
{
}

/// A system is built with what the builder collected: it is empty, and its node
/// has the id that it was given, or one that was drawn at random.
pub proof fn law_systems_are_built_as_configured(
    builder: ActorSystemBuilder,
    node_var: Option<String>,
    res: Result<ActorSystem, ActorError>,
)
    requires
        call_ensures(ActorSystemBuilder::build, (builder, node_var), res),
    ensures
        res matches Ok(system) && system@.config == builder@ && system@.registry.is_empty()
            && system@.extensions.len() == 0 && (node_var matches Some(id) ==> system@.node_id
            == id@) && (node_var is None ==> exists|bits: u128|
            drawn(bits) && is_version_4(bits) && system@.node_id == "node-"@
                + #[trigger] uuid_text(bits)),
{
}

} // verus!
