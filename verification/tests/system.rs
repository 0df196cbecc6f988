use aktor::actor_ref::{ActorRef, Delivery, DummyTransport};
use aktor::address::{ActorAddress, ActorPath};
use aktor::builder::ActorSystemBuilder;
use aktor::channel::capacity_is_valid;
use aktor::config::ActorSystemConfig;
use aktor::context::{pipe_mapped, pipe_result, ActorContext};
use aktor::error::ActorError;
use aktor::extension::Extension;
use aktor::mailbox::send_all;
use aktor::message::{ActorMessage, ActorState, Message, SystemMessage};
use aktor::props::ActorProps;
use aktor::system::{ActorSystem, Spawn};
use std::sync::Arc;
use std::time::Duration;

#[derive(Debug, Clone, PartialEq)]
struct TestMessage {
    data: String,
}

impl Message for TestMessage {
    fn type_id(&self) -> &'static str {
        "TestMessage"
    }
}

#[derive(Debug)]
struct OtherMessage;

impl Message for OtherMessage {
    fn type_id(&self) -> &'static str {
        "OtherMessage"
    }
}

fn msg(data: &str) -> TestMessage {
    TestMessage { data: data.into() }
}

type Pending = Spawn<TestMessage, DummyTransport>;
type Ref = ActorRef<TestMessage>;

fn new_system() -> ActorSystem {
    ActorSystem::new(ActorSystemConfig::default(), None).unwrap()
}

fn finish(system: &mut ActorSystem, spawn: &Pending) -> Ref {
    system
        .finish_spawn(&spawn.ticket, Ok(()))
        .unwrap()
}

fn text_of(e: ActorError) -> String {
    match e {
        ActorError::ActorCreationFailed(text) => text,
        other => panic!("unexpected {other:?}"),
    }
}

#[test]
fn context_test_actor_system_creation() {
    let system = new_system();
    assert!(!system.node_id().is_empty());
    assert!(system.node_id().starts_with("node-"));
    assert_eq!(system.node_id().len(), 41);
}

#[test]
fn the_node_variable_names_the_node() {
    let system = ActorSystem::new(ActorSystemConfig::default(), Some("n7".into())).unwrap();
    assert_eq!(system.node_id(), "n7");
}

#[test]
fn context_test_actor_spawning() {
    let mut system = new_system();
    let spawn: Pending = system.spawn_actor("test-actor", ActorProps::default()).unwrap();
    let actor_ref = finish(&mut system, &spawn);
    assert!(actor_ref.is_local());
    assert_eq!(actor_ref.address().name(), Some("test-actor"));
}

#[test]
fn context_test_message_sending() {
    let mut system = new_system();
    let mut spawn: Pending = system.spawn_actor("test-actor", ActorProps::default()).unwrap();
    let actor_ref = finish(&mut system, &spawn);
    assert!(actor_ref.tell(msg("Hello"), None).is_ok());
    let ActorMessage::Tell { message, .. } = spawn.receiver.try_recv().unwrap();
    assert_eq!(message.data, "Hello");
}

#[test]
fn test_actor_of() {
    let mut system = new_system();
    let spawn: Pending = system.actor_of("test-actor").unwrap();
    let actor_ref = finish(&mut system, &spawn);
    assert!(actor_ref.is_local());
    assert_eq!(actor_ref.address().name(), Some("test-actor"));
    assert!(actor_ref.tell(msg("factory test"), None).is_ok());
}

#[test]
fn test_actor_of_props() {
    let mut system = new_system();
    let props = ActorProps::new()
        .with_mailbox_size(5000)
        .with_dispatcher("custom-dispatcher");
    assert_eq!(system.mailbox_capacity_of(&props), 5000);
    let spawn: Pending = system.actor_of_props("props-actor", props).unwrap();
    let actor_ref = finish(&mut system, &spawn);
    assert!(actor_ref.is_local());
    assert!(actor_ref.tell(msg("props test"), None).is_ok());
    assert_eq!(spawn.context.props().mailbox_size, Some(5000));
    assert_eq!(spawn.receiver.max_capacity(), 5000);
}

#[test]
fn test_actor_name_uniqueness() {
    let mut system = new_system();
    let spawn: Pending = system.actor_of("unique-name").unwrap();
    let actor1 = finish(&mut system, &spawn);
    assert!(actor1.is_local());
    let result: Result<Pending, ActorError> = system.actor_of("unique-name");
    assert!(result.is_err());
    if let Err(ActorError::ActorCreationFailed(msg)) = result {
        assert!(msg.contains("Actor already exists"));
        assert_eq!(
            msg,
            format!("Actor already exists at address: {}", actor1.address().to_string())
        );
    } else {
        panic!("Expected ActorCreationFailed error");
    }
}

#[test]
fn test_root_actor_has_no_parent() {
    let system = new_system();
    let spawn: Pending = system.spawn_actor("root", ActorProps::default()).unwrap();
    assert!(spawn.context.parent_address().is_none());
}

#[test]
fn test_child_actor_receives_parent_ref() {
    let mut system = new_system();
    let parent: Pending = system.spawn_actor("parent", ActorProps::default()).unwrap();
    let parent_ref = finish(&mut system, &parent);
    let child_address = parent_ref.address().child("child").unwrap();
    let child: Pending = system
        .spawn_actor_with_address(
            child_address,
            ActorProps::default(),
            Some(parent_ref.address().clone()),
        )
        .unwrap();
    assert_eq!(
        child.context.parent_address().map(|a| a.to_string()),
        Some(parent_ref.address().to_string())
    );
}

#[test]
fn test_pre_start_runs_before_first_message() {
    let mut system = new_system();
    let mut parent: Pending = system.spawn_actor("pre-start-actor", ActorProps::default()).unwrap();
    let child: Pending = parent.context.spawn_child(&system, "child", None).unwrap();
    let child_ref: Ref = parent
        .context
        .finish_spawn_child(&mut system, &child.ticket, Ok(()))
        .unwrap();
    assert!(
        system.contains_actor(child_ref.address()),
        "child spawned in pre_start must be registered before spawn_actor returns"
    );
    assert!(!system.contains_actor(&parent.runner.address));
    finish(&mut system, &parent);
    assert!(system.contains_actor(&parent.runner.address));
}

#[test]
fn test_leaf_actor_children_none_by_default() {
    let system = new_system();
    let spawn: Pending = system.spawn_actor("leaf", ActorProps::default()).unwrap();
    assert_eq!(spawn.context.children_count(), 0);
    assert!(spawn.context.get_child("any").is_none());
}

#[test]
fn a_failed_start_leaves_no_trace() {
    let mut system = new_system();
    let spawn: Pending = system.spawn_actor("broken", ActorProps::default()).unwrap();
    let res: Result<Ref, ActorError> =
        system.finish_spawn(&spawn.ticket, Err("no disk"));
    assert_eq!(text_of(res.unwrap_err()), "Actor pre_start failed: no disk");
    assert!(!system.contains_actor(&spawn.runner.address));

    let mut parent: Pending = system.spawn_actor("parent", ActorProps::default()).unwrap();
    let child: Pending = parent.context.spawn_child(&system, "child", None).unwrap();
    let res: Result<Ref, ActorError> = parent.context.finish_spawn_child(&mut system, &child.ticket, Err("no disk"));
    assert!(res.is_err());
    assert_eq!(parent.context.children_count(), 0);
}

#[test]
fn bad_names_are_refused() {
    let system = new_system();
    let res: Result<Pending, ActorError> = system.spawn_actor("a/b", ActorProps::default());
    assert_eq!(text_of(res.err().unwrap()), "Invalid path segment: a/b");
    let spawn: Pending = system.spawn_actor("ok", ActorProps::default()).unwrap();
    let res: Result<Pending, ActorError> = spawn.context.spawn_child(&system, "", None);
    assert_eq!(text_of(res.err().unwrap()), "Invalid path segment: ");
    let nameless = ActorSystem::new(ActorSystemConfig::default(), Some(String::new())).unwrap();
    let res: Result<Pending, ActorError> = nameless.spawn_actor("ok", ActorProps::default());
    assert_eq!(text_of(res.err().unwrap()), "Empty node ID");
}

#[test]
fn mailboxes_have_a_capacity() {
    assert!(!capacity_is_valid(0));
    assert!(capacity_is_valid(1));
    assert!(capacity_is_valid(usize::MAX / 8));
    assert!(!capacity_is_valid(usize::MAX / 8 + 1));
}

#[test]
fn a_new_actor_starts_and_is_alive() {
    let mut system = new_system();
    let spawn: Pending = system.spawn_actor("fresh", ActorProps::default()).unwrap();
    let r = finish(&mut system, &spawn);
    assert_eq!(spawn.ticket.address(), r.address());
    assert_eq!(spawn.ticket.mailbox().any.incarnation_id(), r.incarnation_id());
    assert!(r.is_alive());
    let cell = r.state_cell().unwrap();
    assert_eq!(*cell.try_read().unwrap(), ActorState::Starting);
    assert_eq!(spawn.receiver.max_capacity(), 1000);
}

#[test]
fn live_actors_can_be_looked_up() {
    let mut system = new_system();
    let spawn: Pending = system.spawn_actor("here", ActorProps::default()).unwrap();
    let r = finish(&mut system, &spawn);
    let other: Spawn<OtherMessage, DummyTransport> =
        system.spawn_actor("other", ActorProps::default()).unwrap();
    let _: ActorRef<OtherMessage> = system
        .finish_spawn(&other.ticket, Ok(()))
        .unwrap();

    let found: Option<Ref> = system.get_actor(r.address());
    assert_eq!(found, Some(r.clone()));
    let selected: Option<Ref> = spawn.context.select(&system, r.address());
    assert_eq!(selected, Some(r.clone()));
    let wrong: Option<Ref> = system.get_actor(&other.runner.address);
    assert!(wrong.is_none());
    let all: Vec<Ref> = system.get_all_actors();
    assert_eq!(all, vec![r.clone()]);
    let resolved: Option<Ref> = system.resolver().resolve(&r.serialize());
    assert_eq!(resolved, Some(r.clone()));

    system.registry_mut().remove(r.address());
    let gone: Option<Ref> = system.resolver().resolve(&r.serialize());
    assert!(gone.is_none());
    assert!(system.spawn_actor::<TestMessage, DummyTransport>("here", ActorProps::default()).is_ok());
}

fn with_child(
    system: &mut ActorSystem,
) -> (Pending, Pending) {
    let mut parent: Pending = system.spawn_actor("parent", ActorProps::default()).unwrap();
    let child: Pending = parent.context.spawn_child(system, "child", None).unwrap();
    let _: Ref = parent
        .context
        .finish_spawn_child(system, &child.ticket, Ok(()))
        .unwrap();
    (parent, child)
}

#[test]
fn children_are_stopped_by_name() {
    let mut system = new_system();
    let (mut parent, mut child) = with_child(&mut system);
    assert_eq!(parent.context.children_count(), 1);
    assert!(parent.context.get_child("child").is_some());
    parent.context.stop_child("stranger").unwrap();
    assert_eq!(parent.context.children_count(), 1);
    parent.context.stop_child("child").unwrap();
    assert_eq!(parent.context.children_count(), 0);
    assert_eq!(child.system_receiver.try_recv(), Ok(SystemMessage::PoisonPill));
    assert!(child.system_receiver.try_recv().is_err());
}

#[test]
fn a_dead_child_cannot_be_told_to_stop() {
    let mut system = new_system();
    let (mut parent, child) = with_child(&mut system);
    drop(child.system_receiver);
    match parent.context.stop_child("child") {
        Err(ActorError::MessageDeliveryFailed(text)) => assert_eq!(text, "System channel closed"),
        other => panic!("unexpected {other:?}"),
    }
    assert_eq!(parent.context.children_count(), 0);
}

#[test]
fn all_children_are_stopped() {
    let mut system = new_system();
    let (mut parent, mut first) = with_child(&mut system);
    let second: Pending = parent.context.spawn_child(&system, "second", None).unwrap();
    let _: Ref = parent
        .context
        .finish_spawn_child(&mut system, &second.ticket, Ok(()))
        .unwrap();
    assert_eq!(parent.context.children_count(), 2);
    let notices = parent.context.stop_all_children();
    assert_eq!(notices.len(), 2);
    assert_eq!(parent.context.children_count(), 0);
    drop(second.system_receiver);
    let answers = send_all(notices);
    assert_eq!(answers.len(), 2);
    assert_eq!(answers.iter().filter(|a| a.is_ok()).count(), 1);
    assert_eq!(first.system_receiver.try_recv(), Ok(SystemMessage::PoisonPill));
    assert!(first.system_receiver.try_recv().is_err());
    assert!(parent.context.stop_all_children().is_empty());
}

#[test]
fn children_are_forgotten_by_address() {
    let mut system = new_system();
    let (mut parent, child) = with_child(&mut system);
    let stranger = ActorAddress::local(ActorPath::user("stranger").unwrap());
    parent.context.remove_child_by_address(&stranger);
    assert_eq!(parent.context.children_count(), 1);
    parent.context.remove_child_by_address(&child.runner.address);
    assert_eq!(parent.context.children_count(), 0);
}

#[test]
fn a_grandchild_with_the_name_of_a_child_is_not_that_child() {
    let mut system = new_system();
    let (mut parent, child) = with_child(&mut system);
    let own = parent.runner.address.clone();
    let grandchild = own.child("other").unwrap().child("child").unwrap();
    assert!(child.runner.address.is_child_of(&own));
    assert!(!grandchild.is_child_of(&own));
    assert!(!own.is_child_of(&own));
    parent.context.remove_child_by_address(&grandchild);
    assert_eq!(parent.context.children_count(), 1);
    let elsewhere = ActorAddress::new("elsewhere", child.runner.address.path.clone()).unwrap();
    parent.context.remove_child_by_address(&elsewhere);
    assert_eq!(parent.context.children_count(), 1);
}

#[test]
fn messages_from_a_context_name_their_sender() {
    let mut system = new_system();
    let from: Pending = system.spawn_actor("from", ActorProps::default()).unwrap();
    let mut to: Pending = system.spawn_actor("to", ActorProps::default()).unwrap();
    let to_ref = finish(&mut system, &to);
    from.context.send_to(&to_ref, msg("hi")).unwrap();
    let envelope = to.receiver.try_recv().unwrap();
    let sender = envelope.sender::<DummyTransport>().unwrap();
    assert_eq!(&*sender, from.context.actor_ref());
    let ActorMessage::Tell { message, .. } = envelope;
    assert_eq!(message.data, "hi");
}

#[test]
fn scheduled_messages_are_delivered_to_their_target() {
    let mut system = new_system();
    let mut spawn: Pending = system.spawn_actor("timer", ActorProps::default()).unwrap();
    let r = finish(&mut system, &spawn);
    let delay = Duration::from_millis(20);
    let task = spawn.context.schedule_to_self(delay, msg("tick"));
    assert_eq!(task.delay, delay);
    assert_eq!(task.target, r);
    let other = spawn.context.schedule_once(delay, &r, msg("tock"));
    assert_ne!(task.task_id, other.task_id);
    assert!(spawn.receiver.try_recv().is_err(), "tick must not arrive before delay");
    assert!(matches!(task.deliver(), Delivery::Accepted));
    let envelope = spawn.receiver.try_recv().unwrap();
    assert_eq!(*envelope.sender::<DummyTransport>().unwrap(), r);
    let ActorMessage::Tell { message, .. } = envelope;
    assert_eq!(message.data, "tick");
}

#[test]
fn test_pipe_to_self_err_is_dropped() {
    let mut system = new_system();
    let mut spawn: Pending = system.spawn_actor("err-pipe-actor", ActorProps::default()).unwrap();
    finish(&mut system, &spawn);
    let outcome = spawn.context.pipe_to_self(Err::<TestMessage, &str>("simulated failure"));
    assert!(outcome.is_none());
    assert!(spawn.receiver.try_recv().is_err());
}

#[test]
fn test_pipe_to_self_delivers_future_result_as_message() {
    let mut system = new_system();
    let mut spawn: Pending = system.spawn_actor("pipe-actor", ActorProps::default()).unwrap();
    let r = finish(&mut system, &spawn);
    let outcome = pipe_result(&r, Ok::<TestMessage, ()>(msg("piped")));
    assert!(matches!(outcome, Some(Delivery::Accepted)));
    let ActorMessage::Tell { message, sender } = spawn.receiver.try_recv().unwrap();
    assert_eq!(message.data, "piped");
    assert!(sender.is_none());
}

fn done_or_failed(r: Result<String, String>) -> TestMessage {
    match r {
        Ok(s) => msg(&format!("ok:{s}")),
        Err(e) => msg(&format!("err:{e}")),
    }
}

#[test]
fn test_pipe_to_self_map_ok() {
    let mut system = new_system();
    let mut spawn: Pending = system.spawn_actor("pipe-map-ok", ActorProps::default()).unwrap();
    finish(&mut system, &spawn);
    spawn.context.pipe_to_self_map(Ok::<_, String>("hello".to_string()), done_or_failed);
    let ActorMessage::Tell { message, .. } = spawn.receiver.try_recv().unwrap();
    assert_eq!(message.data, "ok:hello", "pipe_to_self_map must deliver Ok arm as Done");
}

#[test]
fn test_pipe_to_self_map_err() {
    let mut system = new_system();
    let mut spawn: Pending = system.spawn_actor("pipe-map-err", ActorProps::default()).unwrap();
    let r = finish(&mut system, &spawn);
    pipe_mapped(&r, Err::<String, _>("boom".to_string()), done_or_failed);
    let ActorMessage::Tell { message, .. } = spawn.receiver.try_recv().unwrap();
    assert_eq!(message.data, "err:boom", "pipe_to_self_map must deliver Err arm as Failed");
}

#[test]
fn a_restarted_actor_is_a_new_incarnation() {
    let mut system = new_system();
    let mut spawn: Pending = system.spawn_actor("again", ActorProps::default()).unwrap();
    let r = finish(&mut system, &spawn);
    let fresh = system.renew(r.address(), &spawn.mailbox);
    spawn.context.renew(&fresh);
    let now = spawn.context.actor_ref().clone();
    assert_ne!(now, r);
    assert_eq!(now.address(), r.address());
    let stale: Option<Ref> = system.resolver().resolve(&r.serialize());
    assert!(stale.is_none());
    let plain: Option<Ref> = system.resolver().resolve(&r.address().to_string());
    assert_eq!(plain, Some(now.clone()));
    let exact: Option<Ref> = system.resolver().resolve(&now.serialize());
    assert_eq!(exact, Some(now));
    r.tell(msg("still heard"), None).unwrap();
    assert!(spawn.receiver.try_recv().is_ok());
}

#[test]
fn a_context_knows_itself() {
    let system = new_system();
    let spawn: Pending = system.spawn_actor("me", ActorProps::default()).unwrap();
    let context: &ActorContext<TestMessage, DummyTransport> = &spawn.context;
    assert_eq!(context.actor_ref().address(), &spawn.runner.address);
    assert_eq!(context.props().max_restarts, 3);
}

#[test]
fn test_actor_system_builder() {
    let system = ActorSystemBuilder::new()
        .with_max_actors(50000)
        .with_mailbox_size(500)
        .build(None)
        .unwrap();

    assert_eq!(system.config().max_actors, 50000);
    assert_eq!(system.config().default_mailbox_size, 500);
    assert!(!system.config().distributed);
}

#[test]
fn test_distributed_config() {
    let system = ActorSystemBuilder::new()
        .with_distributed("0.0.0.0:8080".to_string())
        .with_seed_nodes(vec!["node1:8080".to_string(), "node2:8080".to_string()])
        .build(None)
        .unwrap();

    assert!(system.config().distributed);
    assert_eq!(
        system.config().bind_address,
        Some("0.0.0.0:8080".to_string())
    );
    assert_eq!(system.config().seed_nodes.len(), 2);
}

#[test]
fn configurations_have_defaults() {
    let config = ActorSystemConfig::default();
    assert_eq!(config.max_actors, 1_000_000);
    assert_eq!(config.default_mailbox_size, 1000);
    assert!(!config.distributed);
    assert_eq!(config.bind_address, None);
    assert!(config.seed_nodes.is_empty());
    assert_eq!(config.thread_pool_size, 4);
    let built = ActorSystemBuilder::default().build(Some("n".into())).unwrap();
    assert_eq!(built.config().clone().thread_pool_size, 4);
    assert_eq!(built.node_id(), "n");
}

struct Counter(u32);

impl Extension for Counter {
    fn new_extension() -> Self {
        Counter(7)
    }
}

#[test]
fn a_system_shares_its_extensions() {
    let mut system = new_system();
    assert!(system.extension_optional::<Counter>().is_none());
    let made = system.get_or_create_extension::<Counter>();
    assert_eq!(made.0, 7);
    assert!(Arc::ptr_eq(&made, &system.extension::<Counter>()));

    let mut other = new_system();
    other.register_extension(Counter(9));
    assert_eq!(other.extension::<Counter>().0, 9);
    assert_eq!(other.get_or_create_extension::<Counter>().0, 9);
}
