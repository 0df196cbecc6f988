use aktor::actor_ref::ActorRef;
use aktor::address::{ActorAddress, ActorPath};
use aktor::channel::{open_messages, open_signals};
use aktor::erased::Erased;
use aktor::incarnation::IncarnationId;
use aktor::mailbox::{new_flag, Mailbox};
use aktor::message::{ActorMessage, ActorState, Message};
use aktor::registry::{Registry, RegistryEntry};
use aktor::resolver::ActorRefResolver;
use std::sync::Arc;
use tokio::sync::mpsc;

#[derive(Debug, Clone)]
struct Ping;
impl Message for Ping {
    fn type_id(&self) -> &'static str {
        "Ping"
    }
}

#[derive(Debug, Clone)]
struct Pong;
impl Message for Pong {
    fn type_id(&self) -> &'static str {
        "Pong"
    }
}

fn make_entry<M: Message>(
    name: &str,
) -> (
    ActorAddress,
    IncarnationId,
    RegistryEntry,
    mpsc::Receiver<ActorMessage<M>>,
) {
    let (msg_tx, msg_rx) = open_messages::<M>(8);
    let (sys_tx, _) = open_signals();
    let path = ActorPath::user(name).unwrap();
    let address = ActorAddress::local(path);
    let iid = IncarnationId::fresh();
    let mb = Arc::new(Mailbox::<M>::new(
        iid,
        msg_tx,
        sys_tx,
        ActorState::Running,
        new_flag(true),
    ));
    let entry = RegistryEntry {
        mailbox: Arc::clone(&mb.any),
        typed: Erased::new(Arc::clone(&mb.msg_tx)),
    };
    (address, iid, entry, msg_rx)
}

#[test]
fn resolve_by_address_only() {
    let mut registry = Registry::new();
    let (address, _iid, entry, _rx) = make_entry::<Ping>("my-actor");
    registry.insert(&address, entry);

    let resolver = ActorRefResolver::new(&registry);
    let r: Option<ActorRef<Ping>> = resolver.resolve(&address.to_string());
    assert!(r.is_some());
    assert_eq!(r.unwrap().address(), &address);
}

#[test]
fn resolve_with_matching_uid() {
    let mut registry = Registry::new();
    let (address, iid, entry, _rx) = make_entry::<Ping>("my-actor");
    registry.insert(&address, entry);

    let addr_str = format!("{}#{}", address.to_string(), iid.to_string());
    let resolver = ActorRefResolver::new(&registry);
    let r: Option<ActorRef<Ping>> = resolver.resolve(&addr_str);
    assert!(r.is_some());
}

#[test]
fn resolve_with_stale_uid_returns_none() {
    let mut registry = Registry::new();
    let (address, _live_iid, entry, _rx) = make_entry::<Ping>("my-actor");
    registry.insert(&address, entry);

    let stale_uid = IncarnationId::fresh();
    let addr_str = format!("{}#{}", address.to_string(), stale_uid.to_string());
    let resolver = ActorRefResolver::new(&registry);
    let r: Option<ActorRef<Ping>> = resolver.resolve(&addr_str);
    assert!(r.is_none(), "stale uid must return None");
}

#[test]
fn resolve_unknown_address_returns_none() {
    let registry = Registry::new();
    let resolver = ActorRefResolver::new(&registry);
    let r: Option<ActorRef<Ping>> = resolver.resolve("local://user/ghost");
    assert!(r.is_none());
}

#[test]
fn resolve_wrong_type_returns_none() {
    let mut registry = Registry::new();
    let (address, _iid, entry, _rx) = make_entry::<Ping>("my-actor");
    registry.insert(&address, entry);

    let resolver = ActorRefResolver::new(&registry);
    let r: Option<ActorRef<Pong>> = resolver.resolve(&address.to_string());
    assert!(r.is_none(), "wrong message type must return None");
}

#[test]
fn resolved_ref_can_send_messages() {
    let mut registry = Registry::new();
    let (address, _iid, entry, mut msg_rx) = make_entry::<Ping>("sender-test");
    registry.insert(&address, entry);

    let resolver = ActorRefResolver::new(&registry);
    let actor_ref: ActorRef<Ping> = resolver.resolve(&address.to_string()).unwrap();
    actor_ref.tell(Ping, None).unwrap();

    let received = msg_rx.try_recv().unwrap();
    assert!(matches!(received, ActorMessage::Tell { .. }));
}

#[test]
fn nothing_lives_at_an_address_without_an_entry() {
    let mut registry = Registry::new();
    let (address, iid, entry, _rx) = make_entry::<Ping>("my-actor");
    registry.insert(&address, entry);
    let ghost = ActorAddress::local(ActorPath::user("ghost").unwrap());
    assert!(!registry.contains(&ghost));
    assert!(registry.contains(&address));
    assert_eq!(registry.len(), 1);
    assert!(!registry.is_empty());

    let resolver = ActorRefResolver::new(&registry);
    let none: Option<ActorRef<Ping>> = resolver.resolve(&ghost.to_string());
    assert!(none.is_none());
    let bad_id: Option<ActorRef<Ping>> =
        resolver.resolve(&format!("{}#not-an-id", address.to_string()));
    assert!(bad_id.is_none());
    let live: ActorRef<Ping> = resolver.find(&address, None).unwrap();
    assert_eq!(live.incarnation_id(), iid);

    let exact: Option<ActorRef<Ping>> = resolver.find(&address, Some(iid));
    assert!(exact.is_some());
    let stale: Option<ActorRef<Ping>> = resolver.find(&address, Some(IncarnationId { bits: 1 }));
    assert!(stale.is_none());

    registry.remove(&address);
    assert!(registry.is_empty());
    assert!(registry.get(&address).is_none());
}

#[test]
fn another_incarnation_replaces_the_first() {
    let mut registry = Registry::new();
    let (address, first, entry, _rx) = make_entry::<Ping>("again");
    registry.insert(&address, entry);
    let (_, second, entry, _rx) = make_entry::<Ping>("again");
    registry.insert(&address, entry);
    assert_eq!(registry.len(), 1);
    assert_eq!(registry.entries().len(), 1);

    let resolver = ActorRefResolver::new(&registry);
    let text = |id: IncarnationId| format!("{}#{}", address.to_string(), id.to_string());
    let stale: Option<ActorRef<Ping>> = resolver.resolve(&text(first));
    assert!(stale.is_none());
    let live: Option<ActorRef<Ping>> = resolver.resolve(&text(second));
    assert_eq!(live.unwrap().incarnation_id(), second);
}
