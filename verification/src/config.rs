//! Configuration of an actor system.

use crate::address::copy_texts;
use crate::text::texts;
use vstd::prelude::*;

verus! {

/// Configuration of an actor system.
#[derive(Debug)]
pub struct ActorSystemConfig {
    /// How many actors the system is meant for.
    pub max_actors: usize,
    /// Mailbox capacity of actors whose props name none.
    pub default_mailbox_size: usize,
    /// Whether the system talks to other nodes.
    pub distributed: bool,
    /// Where the system listens for other nodes.
    pub bind_address: Option<String>,
    /// The nodes that are asked for others.
    pub seed_nodes: Vec<String>,
    /// How many threads the system is meant for.
    pub thread_pool_size: usize,
}

/// A configuration over views.
#[verifier::ext_equal]
pub struct ConfigView {
    pub max_actors: usize,
    pub default_mailbox_size: usize,
    pub distributed: bool,
    pub bind_address: Option<Seq<char>>,
    pub seed_nodes: Seq<Seq<char>>,
    pub thread_pool_size: usize,
}

impl View for ActorSystemConfig {
    type V = ConfigView;

    open spec fn view(&self) -> ConfigView {
        ConfigView {
            max_actors: self.max_actors,
            default_mailbox_size: self.default_mailbox_size,
            distributed: self.distributed,
            bind_address: match self.bind_address {
                Some(a) => Some(a@),
                None => None,
            },
            seed_nodes: texts(self.seed_nodes@),
            thread_pool_size: self.thread_pool_size,
        }
    }
}

/// The configuration that a system has unless something else is said.
pub open spec fn default_config() -> ConfigView {
    ConfigView {
        max_actors: 1_000_000,
        default_mailbox_size: 1000,
        distributed: false,
        bind_address: None,
        seed_nodes: Seq::empty(),
        thread_pool_size: 4,
    }
}

impl Default for ActorSystemConfig {
    fn default() -> (config: Self)
        ensures
            config@ == default_config(),
    {
        let config: ActorSystemConfig = ActorSystemConfig {
            max_actors: 1_000_000,
            default_mailbox_size: 1000,
            distributed: false,
            bind_address: None,
            seed_nodes: Vec::new(),
            thread_pool_size: 4,
        };
        assert(config@.seed_nodes =~= Seq::<Seq<char>>::empty());
        config
    }
}

impl Clone for ActorSystemConfig {
    fn clone(&self) -> (copy: Self)
        ensures
            copy@ == self@,
    {
        ActorSystemConfig {
            max_actors: self.max_actors,
            default_mailbox_size: self.default_mailbox_size,
            distributed: self.distributed,
            bind_address: match &self.bind_address {
                Some(a) => Some(a.clone()),
                None => None,
            },
            seed_nodes: copy_texts(&self.seed_nodes),
            thread_pool_size: self.thread_pool_size,
        }
    }
}

/// The configuration that a system has unless something else is said.
pub proof fn law_default_configurations_are_local(config: ActorSystemConfig)
    requires
        call_ensures(<ActorSystemConfig as Default>::default, (), config),
    ensures
        config.max_actors == 1_000_000,
        config.default_mailbox_size == 1000,
        !config.distributed,
        config.bind_address is None,
        config.seed_nodes@.len() == 0,
        config.thread_pool_size == 4,
{
    assert(config@.seed_nodes.len() == 0);
}

/// The view of a configuration shows all of it, and a copy has all of it.
pub proof fn law_configurations_are_shown_as_they_are(
    config: &ActorSystemConfig,
    copy: ActorSystemConfig,
)
    ensures
        config@.max_actors == config.max_actors,
        config@.default_mailbox_size == config.default_mailbox_size,
        config@.distributed == config.distributed,
        config@.bind_address is Some <==> config.bind_address is Some,
        config.bind_address matches Some(a) ==> config@.bind_address == Some(a@),
        config@.seed_nodes.len() == config.seed_nodes@.len(),
        forall|i: int|
            0 <= i < config.seed_nodes@.len() ==> #[trigger] config@.seed_nodes[i]
                == config.seed_nodes@[i]@,
        config@.thread_pool_size == config.thread_pool_size,
        call_ensures(<ActorSystemConfig as Clone>::clone, (config,), copy) ==> copy@ == config@,
{
}

} // verus!
