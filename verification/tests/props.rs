use aktor::message::Message;
use aktor::props::{ActorProps, SupervisionStrategy};

#[test]
fn test_props_builder() {
    let props = ActorProps::new()
        .with_mailbox_size(2000)
        .with_dispatcher("test-dispatcher")
        .with_supervision(SupervisionStrategy::Restart)
        .with_restart(5, 120);
    assert_eq!(props.mailbox_size, Some(2000));
    assert_eq!(props.dispatcher, Some("test-dispatcher".to_string()));
    assert_eq!(props.supervision_strategy, SupervisionStrategy::Restart);
    assert_eq!(props.max_restarts, 5);
    assert_eq!(props.restart_window_secs, 120);
}

#[test]
fn test_with_restart_sets_strategy() {
    let props = ActorProps::new()
        .with_supervision(SupervisionStrategy::Restart)
        .with_restart(5, 120);

    assert_eq!(props.supervision_strategy, SupervisionStrategy::Restart);
    assert_eq!(props.max_restarts, 5);
    assert_eq!(props.restart_window_secs, 120);
}

#[test]
fn restart_limits_imply_the_restart_strategy() {
    let props = ActorProps::new().with_restart(1, 2);
    assert_eq!(props.supervision_strategy, SupervisionStrategy::Restart);
}

#[test]
fn defaults() {
    let props = ActorProps::default();
    assert_eq!(props.supervision_strategy, SupervisionStrategy::Stop);
    assert_eq!(props.max_restarts, 3);
    assert_eq!(props.restart_window_secs, 60);
    assert_eq!(props.mailbox_size, None);
    assert_eq!(props.dispatcher, None);
    assert_eq!(props.backoff_base_ms, 100);
    assert_eq!(props.backoff_max_ms, 60_000);
}

#[test]
fn failed_children_are_stopped_unless_decided() {
    assert_eq!(SupervisionStrategy::unless_decided(), SupervisionStrategy::Stop);
}

#[test]
fn backoff_limits_can_be_set() {
    let props = ActorProps::new().with_backoff(200, 30_000);
    assert_eq!(props.backoff_base_ms, 200);
    assert_eq!(props.backoff_max_ms, 30_000);
    let copy = props.clone();
    assert_eq!(copy.backoff_base_ms, 200);
}

#[test]
fn backoff_doubles_up_to_its_limit() {
    let props = ActorProps::new();
    assert_eq!(props.compute_backoff(0), 100);
    assert_eq!(props.compute_backoff(1), 100);
    assert_eq!(props.compute_backoff(2), 200);
    assert_eq!(props.compute_backoff(3), 400);
    assert_eq!(props.compute_backoff(10), 51_200);
    assert_eq!(props.compute_backoff(11), 60_000);
    assert_eq!(props.compute_backoff(u32::MAX), 60_000);
}

#[test]
fn backoff_edge_cases() {
    assert_eq!(ActorProps::new().with_backoff(0, 10).compute_backoff(u32::MAX), 0);
    assert_eq!(ActorProps::new().with_backoff(10, 0).compute_backoff(3), 0);
    assert_eq!(ActorProps::new().with_backoff(500, 100).compute_backoff(1), 100);
    let wide = ActorProps::new().with_backoff(1, u64::MAX);
    assert_eq!(wide.compute_backoff(64), 1u64 << 63);
    assert_eq!(wide.compute_backoff(65), u64::MAX);
    assert_eq!(wide.compute_backoff(1000), u64::MAX);
}

#[test]
fn spread_delays_are_limited() {
    let props = ActorProps::new().with_backoff(10, 100);
    assert_eq!(props.limit_backoff(99), 99);
    assert_eq!(props.limit_backoff(100), 100);
    assert_eq!(props.limit_backoff(120), 100);
}

#[derive(Debug, Clone)]
struct TestMessage {
    content: String,
}

impl Message for TestMessage {
    fn type_id(&self) -> &'static str {
        "TestMessage"
    }
}

#[derive(Default)]
struct TestActor {
    received_messages: Vec<String>,
}

#[test]
fn test_test_actor_functionality() {
    let actor = TestActor::default();
    let message = TestMessage {
        content: "test message".to_string(),
    };
    assert_eq!(actor.received_messages.len(), 0);
    assert_eq!(message.content, "test message");
    assert_eq!(Message::type_id(&message), "TestMessage");
}
