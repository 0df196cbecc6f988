//! The decisions of an actor runtime: how actors are named, spawned, found,
//! sent messages, supervised and stopped.
//!
//! What waits, sleeps or calls into user code is left to whoever drives the
//! library.

pub mod actor_ref;
pub mod address;
pub mod ask;
pub mod builder;
pub mod channel;
pub mod children;
pub mod config;
pub mod context;
pub mod erased;
pub mod error;
pub mod extension;
pub mod factory;
pub mod incarnation;
pub mod lifecycle;
pub mod mailbox;
pub mod message;
pub mod probe;
pub mod props;
pub mod registry;
pub mod resolver;
pub mod runner;
pub mod spawning;
pub mod system;
pub mod test_context;
pub mod test_kit;
pub mod test_message;
pub mod text;
pub mod transitions;
pub mod wire;

pub use crate::actor_ref::{ActorRef, DummyTransport, NetworkTransport};
pub use crate::address::{ActorAddress, ActorPath, AddressError};
pub use crate::ask::{ask, AskError, ReplyTo};
pub use crate::builder::ActorSystemBuilder;
pub use crate::config::ActorSystemConfig;
pub use crate::context::ActorContext;
pub use crate::error::ActorError;
pub use crate::extension::{Extension, ExtensionRegistry};
pub use crate::message::{ActorMessage, ActorState, Message, SystemMessage};
pub use crate::props::{ActorProps, SupervisionStrategy};
pub use crate::resolver::ActorRefResolver;
pub use crate::system::ActorSystem;
