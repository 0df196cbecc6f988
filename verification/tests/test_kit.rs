use aktor::actor_ref::DummyTransport;
use aktor::config::ActorSystemConfig;
use aktor::error::ActorError;
use aktor::incarnation::IncarnationId;
use aktor::message::{ActorMessage, Message, SystemMessage};
use aktor::probe::{ExpectationResult, TestProbe};
use aktor::props::ActorProps;
use aktor::test_context::TestContext;
use aktor::test_kit::ActorTestKit;
use aktor::test_message::TestMessage;

#[derive(Debug, Clone, PartialEq)]
struct EchoMessage {
    content: String,
}

impl Message for EchoMessage {
    fn type_id(&self) -> &'static str {
        "EchoMessage"
    }
}

#[derive(Debug, Clone, PartialEq)]
struct OtherMessage;

impl Message for OtherMessage {
    fn type_id(&self) -> &'static str {
        "OtherMessage"
    }
}

fn echo(content: &str) -> EchoMessage {
    EchoMessage {
        content: content.to_string(),
    }
}

fn wrapped(content: &str) -> TestMessage {
    TestMessage::new(echo(content), "EchoMessage")
}

type Kit = ActorTestKit<DummyTransport>;
type Probe = TestProbe<EchoMessage, DummyTransport>;

fn probe() -> Probe {
    let mut kit = Kit::new(None);
    kit.create_test_probe::<EchoMessage>().unwrap().probe
}

#[test]
fn test_actor_test_kit_creation() {
    let test_kit = Kit::new(None);
    assert!(test_kit.system().node_id().starts_with("node-"));

    assert!(test_kit.shutdown().is_empty());
}

#[test]
fn test_test_probe_creation() {
    let mut test_kit = Kit::new(None);
    let mut made = test_kit.create_test_probe::<EchoMessage>().unwrap();

    assert_eq!(made.probe.message_count(), 0);
    assert!(test_kit.system().contains_actor(made.probe.actor_ref().address()));
    assert_eq!(
        made.probe.actor_ref().address().name().unwrap(),
        format!("test-probe-{}", made.probe.probe_id().to_string())
    );
    assert_eq!(test_kit.probes().len(), 1);
    assert_eq!(test_kit.probes()[0].id, made.probe.probe_id());
    assert_eq!(&test_kit.probes()[0].actor_ref, made.probe.actor_ref());

    for notice in test_kit.shutdown() {
        notice.send().unwrap();
    }
    assert_eq!(made.actor.system_receiver.try_recv(), Ok(SystemMessage::PoisonPill));
}

#[test]
fn a_kit_makes_many_probes() {
    let mut kit = Kit::new(None);
    let first = kit.create_test_probe::<EchoMessage>().unwrap().probe;
    let second = kit.create_test_probe::<OtherMessage>().unwrap().probe;
    let third = kit.create_test_probe::<EchoMessage>().unwrap().probe;
    assert_ne!(first.probe_id(), second.probe_id());
    assert_ne!(first.probe_id(), third.probe_id());
    let ids: Vec<_> = kit.probes().iter().map(|p| p.id).collect();
    assert_eq!(ids, vec![first.probe_id(), second.probe_id(), third.probe_id()]);
    assert!(kit.system().contains_actor(first.actor_ref().address()));
    assert!(kit.system().contains_actor(second.actor_ref().address()));
    assert!(kit.system().contains_actor(third.actor_ref().address()));
}

#[test]
fn a_probe_is_named_by_its_id() {
    let mut kit = Kit::new(Some("n".into()));
    let id = IncarnationId { bits: 7 };
    let made = kit.create_probe_named::<EchoMessage>(id).unwrap();
    assert_eq!(made.probe.probe_id(), id);
    assert_eq!(
        made.probe.actor_ref().address().to_string(),
        "actor://n/user/test-probe-00000000-0000-0000-0000-000000000007"
    );
    match kit.create_probe_named::<EchoMessage>(id) {
        Err(ActorError::ActorCreationFailed(text)) => assert_eq!(
            text,
            "Actor already exists at address: \
             actor://n/user/test-probe-00000000-0000-0000-0000-000000000007"
        ),
        _ => panic!("unexpected probe"),
    }
    assert_eq!(kit.probes().len(), 1);
    assert!(kit.create_probe_named::<EchoMessage>(IncarnationId { bits: 8 }).is_ok());
}

#[test]
fn a_kit_without_a_node_name_makes_no_probes() {
    let mut kit = Kit::with_config(ActorSystemConfig::default(), Some(String::new()));
    match kit.create_test_probe::<EchoMessage>() {
        Err(ActorError::ActorCreationFailed(text)) => assert_eq!(text, "Empty node ID"),
        _ => panic!("unexpected probe"),
    }
    assert!(kit.probes().is_empty());
}

#[test]
fn kits_spawn_actors() {
    let kit = Kit::new(None);
    let spawn = kit.spawn("echo").unwrap();
    assert_eq!(spawn.runner.address.name(), Some("echo"));
    let spawn = kit.spawn_with_props("big", ActorProps::new().with_mailbox_size(7)).unwrap();
    assert_eq!(spawn.receiver.max_capacity(), 7);
}

#[test]
fn test_message_expectation() {
    let mut test_kit = Kit::new(None);
    let mut made = test_kit.create_test_probe::<EchoMessage>().unwrap();
    made.probe.actor_ref().tell(wrapped("test"), None).unwrap();
    let ActorMessage::Tell { message, .. } = made.actor.receiver.try_recv().unwrap();
    made.probe.handle(&message);

    let result = made.probe.expect_any_message_timeout(true).unwrap();
    assert!(result.is_success());
    assert_eq!(result.unwrap(), echo("test"));

    assert_eq!(test_kit.shutdown().len(), 1);
}

#[test]
fn a_probe_keeps_messages_of_its_type_in_order() {
    let mut p = probe();
    p.handle(&wrapped("one"));
    p.handle(&TestMessage::new(OtherMessage, "OtherMessage"));
    p.handle(&wrapped("two"));
    assert_eq!(p.message_count(), 2);
    assert_eq!(p.peek_message(), Some(echo("one")));
    assert_eq!(p.drain_messages(), vec![echo("one"), echo("two")]);
    assert_eq!(p.message_count(), 0);
    assert_eq!(p.peek_message(), None);
}

#[test]
fn an_expected_message_is_taken_out() {
    let mut p = probe();
    assert!(p.expect_message_timeout(&echo("one"), false).is_none());
    assert!(p.expect_message_timeout(&echo("one"), true).unwrap().is_timeout());
    p.handle(&wrapped("one"));
    p.handle(&wrapped("two"));
    let met = p.expect_message_timeout(&echo("one"), true).unwrap();
    assert!(met.is_success());
    assert!(!met.is_timeout());
    match p.expect_message_timeout(&echo("one"), false).unwrap() {
        ExpectationResult::WrongContent { expected, actual } => {
            assert_eq!(expected, "EchoMessage { content: \"one\" }");
            assert_eq!(actual, "EchoMessage { content: \"two\" }");
        }
        other => panic!("unexpected {other:?}"),
    }
    assert!(p.expect_any_message(999).is_none());
    assert!(p.expect_any_message(1000).unwrap().is_timeout());
    assert!(p.expect_message(&echo("one"), 999).is_none());
    assert!(p.expect_message(&echo("one"), 1000).unwrap().is_timeout());
    p.handle(&wrapped("late"));
    assert!(p.expect_message(&echo("late"), 5000).unwrap().is_success());
    p.handle(&wrapped("any"));
    assert_eq!(p.expect_any_message(0).unwrap().unwrap(), echo("any"));
    assert!(p.expect_any_message_timeout(false).is_none());
    assert!(p.expect_any_message_timeout(true).unwrap().is_timeout());
}

#[test]
fn a_probe_tells_when_no_message_came() {
    let mut p = probe();
    assert!(p.expect_no_message().is_success());
    for _ in 0..12 {
        p.handle(&wrapped("x"));
    }
    match p.expect_no_message() {
        ExpectationResult::WrongContent { expected, actual } => {
            assert_eq!(expected, "no message");
            assert_eq!(actual, "12 messages in queue");
        }
        other => panic!("unexpected {other:?}"),
    }
    assert_eq!(p.message_count(), 12);
}

#[test]
fn wrong_types_are_no_success() {
    let r: ExpectationResult<()> = ExpectationResult::WrongType {
        expected: "A",
        actual: "B",
    };
    assert!(!r.is_success());
    assert!(!r.is_timeout());
}

#[test]
fn test_messages_hold_any_message() {
    let m = wrapped("inside");
    assert_eq!(m.type_id(), "TestMessage");
    assert_eq!(m.extract::<EchoMessage>(), Some(&echo("inside")));
    assert!(m.extract::<OtherMessage>().is_none());
    let id = m.id;
    let back = m.into_inner::<OtherMessage>().unwrap_err();
    assert_eq!(back.id, id);
    assert_eq!(back.into_inner::<EchoMessage>().unwrap(), echo("inside"));
}

#[test]
fn copies_of_test_messages_hold_a_text() {
    let m = wrapped("inside");
    let copy = m.clone();
    assert_eq!(copy.id, m.id);
    assert_eq!(copy.type_label, "EchoMessage");
    assert!(copy.extract::<EchoMessage>().is_none());
    assert_eq!(
        copy.content.get::<String>().unwrap(),
        "Cloned TestMessage (original type: EchoMessage)"
    );
}

#[test]
fn test_test_context_synchronous_testing() {
    let mut test_context = TestContext::<EchoMessage>::new();
    let mut mock_context = test_context.mock_actor_context();

    let message = EchoMessage {
        content: "sync test".to_string(),
    };

    assert!(!mock_context.is_ask_request());
    assert!(mock_context.correlation_id().is_none());

    mock_context.record_sent_message(message.clone());

    let sent_messages = test_context.sent_messages();
    assert_eq!(sent_messages.len(), 1);
    assert_eq!(sent_messages[0].content, "sync test");
}

#[test]
fn test_test_context_ask_testing() {
    let mut test_context = TestContext::<EchoMessage>::new_ask();
    let mut mock_context = test_context.mock_actor_context();

    assert!(mock_context.is_ask_request());
    assert!(mock_context.correlation_id().is_some());

    let response_message = EchoMessage {
        content: "ask response".to_string(),
    };

    let result = mock_context.mock_respond(response_message.clone());
    assert!(result.is_ok());

    let response = test_context.response();
    assert!(response.is_some());
    assert_eq!(response.unwrap().content, "ask response");
}

#[test]
fn test_test_context_error_handling() {
    let mut test_context = TestContext::<EchoMessage>::new();
    let mut mock_context = test_context.mock_actor_context();

    let response_message = EchoMessage {
        content: "should fail".to_string(),
    };

    let result = mock_context.mock_respond(response_message);
    assert!(result.is_err());

    if let Err(ActorError::MessageDeliveryFailed(msg)) = result {
        assert!(msg.contains("not an ask request"));
        assert_eq!(msg, "Cannot respond: not an ask request");
    } else {
        panic!("Expected MessageDeliveryFailed error");
    }
}

#[test]
fn test_contexts_can_be_cleared() {
    let mut test_context = TestContext::<EchoMessage>::new_ask();
    let mut mock_context = test_context.mock_actor_context();
    mock_context.record_sent_message(echo("sent"));
    mock_context.mock_respond(echo("reply")).unwrap();
    test_context.clear();
    assert!(test_context.sent_messages().is_empty());
    assert!(test_context.response().is_none());
    assert!(test_context.mock_actor_context().is_ask_request());
    assert!(!TestContext::<EchoMessage>::default().mock_actor_context().is_ask_request());
}
