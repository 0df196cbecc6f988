use aktor::actor_ref::{pass_on, ActorRef, ActorRouting, Delivery, DummyTransport, NetworkTransport};
use aktor::address::{ActorAddress, ActorPath};
use aktor::channel::{open_messages, open_signals};
use aktor::error::ActorError;
use aktor::incarnation::IncarnationId;
use aktor::mailbox::{new_flag, Mailbox};
use aktor::message::{ActorMessage, ActorState, Message, SystemMessage};
use aktor::wire::WireError;
use std::future::Future;
use std::sync::atomic::{AtomicBool, Ordering};
use std::sync::{Arc, Mutex};
use tokio::sync::mpsc;

#[derive(Debug, Clone, PartialEq)]
struct TestMsg;

impl Message for TestMsg {
    fn type_id(&self) -> &'static str {
        "TestMsg"
    }
}

fn wait<F: Future>(future: F) -> F::Output {
    tokio::runtime::Builder::new_current_thread()
        .build()
        .unwrap()
        .block_on(future)
}

fn make_ref(name: &str) -> ActorRef<TestMsg> {
    let (msg_tx, _) = open_messages(1024);
    let (sys_tx, _) = open_signals();
    let path = ActorPath::user(name).unwrap();
    let address = ActorAddress::local(path);
    let mb = Arc::new(Mailbox::new(
        IncarnationId::fresh(),
        msg_tx,
        sys_tx,
        ActorState::Starting,
        new_flag(true),
    ));
    ActorRef::new_local(address, mb)
}

fn bounded(capacity: usize) -> (ActorRef<TestMsg>, mpsc::Receiver<ActorMessage<TestMsg>>) {
    let (msg_tx, msg_rx) = open_messages(capacity);
    let (sys_tx, _) = open_signals();
    let address = ActorAddress::local(ActorPath::user("bounded").unwrap());
    let mb = Arc::new(Mailbox::new(
        IncarnationId::fresh(),
        msg_tx,
        sys_tx,
        ActorState::Running,
        new_flag(true),
    ));
    (ActorRef::new_local(address, mb), msg_rx)
}

fn state_of(r: &ActorRef<TestMsg>) -> Option<ActorState> {
    wait(async {
        match r.state_cell() {
            Some(cell) => Some(cell.read().await.clone()),
            None => None,
        }
    })
}

#[test]
fn test_local_ref_creation() {
    let r = make_ref("test-actor");
    let path = ActorPath::user("test-actor").unwrap();
    assert!(r.is_local());
    assert_eq!(r.address(), &ActorAddress::local(path));
    assert_eq!(state_of(&r), Some(ActorState::Starting));
}

#[test]
fn test_remote_ref_creation() {
    let path = ActorPath::user("test-actor").unwrap();
    let address = ActorAddress::new("remote-node", path).unwrap();
    let r: ActorRef<TestMsg> = ActorRef::new_remote(address.clone(), Arc::new(DummyTransport));
    assert!(!r.is_local());
    assert_eq!(r.address(), &address);
    assert_eq!(state_of(&r), None);
}

#[test]
fn test_state_transitions() {
    let r = make_ref("test-actor");
    assert_eq!(state_of(&r), Some(ActorState::Starting));

    for state in [ActorState::Running, ActorState::Stopping] {
        let written = state.clone();
        wait(async {
            *r.state_cell().unwrap().write().await = written;
        });
        assert_eq!(state_of(&r), Some(state));
    }
}

#[test]
fn test_equality_clone_is_equal() {
    let a = make_ref("actor");
    let b = a.clone();
    assert_eq!(a, b);
    assert_eq!(a.incarnation_id(), b.incarnation_id());
}

#[test]
fn test_equality_different_incarnation_same_address() {
    let a = make_ref("actor");
    let b = make_ref("actor");
    assert_ne!(a, b, "different incarnation_ids → not equal");
}

#[test]
fn test_is_alive_and_stop() {
    let (msg_tx, _msg_rx) = open_messages(1024);
    let (sys_tx, mut sys_rx) = open_signals();
    let path = ActorPath::user("stoppable").unwrap();
    let address = ActorAddress::local(path);
    let alive = Arc::new(AtomicBool::new(true));
    let mb = Arc::new(Mailbox::<TestMsg>::new(
        IncarnationId::fresh(),
        msg_tx,
        sys_tx,
        ActorState::Running,
        alive.clone(),
    ));
    let r: ActorRef<TestMsg> = ActorRef::new_local(address, mb);

    assert!(r.is_alive());
    r.stop().unwrap();
    assert_eq!(wait(sys_rx.recv()), Some(SystemMessage::PoisonPill));

    alive.store(false, Ordering::Release);
    assert!(!r.is_alive());
}

#[test]
fn the_runner_can_mark_an_actor_dead() {
    let r = make_ref("actor");
    assert!(r.is_alive());
    match &r.routing {
        ActorRouting::Local(mailbox) => mailbox.any.mark_dead(),
        ActorRouting::Remote(_) => panic!("not local"),
    }
    assert!(!r.is_alive());
    match &r.routing {
        ActorRouting::Local(mailbox) => mailbox.any.mark_alive(),
        ActorRouting::Remote(_) => panic!("not local"),
    }
    assert!(r.is_alive());
}

#[test]
fn a_new_incarnation_keeps_the_channels() {
    let (to, mut rx) = bounded(4);
    let fresh = match &to.routing {
        ActorRouting::Local(mailbox) => Arc::new(mailbox.renewed()),
        ActorRouting::Remote(_) => panic!("not local"),
    };
    let again: ActorRef<TestMsg> = ActorRef::new_local(to.address().clone(), fresh);
    assert_ne!(again, to, "different incarnation_ids → not equal");
    again.tell(TestMsg, None).unwrap();
    to.tell(TestMsg, None).unwrap();
    assert!(rx.try_recv().is_ok());
    assert!(rx.try_recv().is_ok());
    match &to.routing {
        ActorRouting::Local(mailbox) => mailbox.any.mark_dead(),
        ActorRouting::Remote(_) => panic!("not local"),
    }
    assert!(!again.is_alive());
}

#[test]
fn a_closed_system_channel_refuses_the_stop() {
    let r = make_ref("actor");
    match r.stop() {
        Err(ActorError::MessageDeliveryFailed(text)) => assert_eq!(text, "System channel closed"),
        other => panic!("unexpected {other:?}"),
    }
}

#[test]
fn remote_actors_cannot_be_stopped() {
    let address = ActorAddress::local(ActorPath::user("far").unwrap());
    let r: ActorRef<TestMsg> = ActorRef::new_remote(address, Arc::new(DummyTransport));
    assert!(r.is_alive());
    match r.stop() {
        Err(ActorError::MessageDeliveryFailed(text)) => {
            assert_eq!(text, "Remote actor stop not yet implemented")
        }
        other => panic!("unexpected {other:?}"),
    }
}

#[test]
fn messages_carry_their_sender() {
    let (to, mut rx) = bounded(4);
    let from = make_ref("from");
    to.tell(TestMsg, Some(from.clone())).unwrap();
    to.tell(TestMsg, None).unwrap();
    let envelope = rx.try_recv().unwrap();
    let sender = envelope.sender::<DummyTransport>().unwrap();
    assert_eq!(*sender, from);
    assert!(sender.is_local());
    let other = envelope.sender::<Recorder>();
    assert!(other.is_none());
    let ActorMessage::Tell { message, .. } = envelope;
    assert_eq!(message, TestMsg);
    let envelope = rx.try_recv().unwrap();
    assert!(envelope.sender::<DummyTransport>().is_none());
}

#[test]
fn undelivered_messages_are_dropped() {
    let (to, rx) = bounded(1);
    assert!(matches!(to.deliver(TestMsg, None), Delivery::Accepted));
    assert!(matches!(to.deliver(TestMsg, None), Delivery::MailboxFull));
    assert!(to.tell(TestMsg, None).is_ok());
    drop(rx);
    assert!(matches!(to.deliver(TestMsg, None), Delivery::ActorStopped));
    assert!(to.tell(TestMsg, None).is_ok());
}

#[derive(Debug)]
struct Recorder {
    reachable: &'static str,
    sent: Mutex<Vec<String>>,
    fails: bool,
}

impl NetworkTransport<TestMsg> for Recorder {
    fn send(
        &self,
        target_address: &ActorAddress,
        _message: ActorMessage<TestMsg>,
    ) -> Result<(), ActorError> {
        self.sent.lock().unwrap().push(target_address.to_string());
        if self.fails {
            Err(ActorError::NetworkError("down".to_string()))
        } else {
            Ok(())
        }
    }

    fn is_reachable(&self, node_id: &str) -> bool {
        node_id == self.reachable
    }
}

#[test]
fn remote_messages_go_through_the_transport() {
    let address = ActorAddress::from_str("actor://node2/user/far").unwrap();
    let there = Arc::new(Recorder {
        reachable: "node2",
        sent: Mutex::new(Vec::new()),
        fails: false,
    });
    let r: ActorRef<TestMsg, Recorder> = ActorRef::new_remote(address.clone(), there.clone());
    assert!(matches!(r.deliver(TestMsg, None), Delivery::Accepted));
    assert_eq!(*there.sent.lock().unwrap(), vec!["actor://node2/user/far"]);

    let elsewhere = Arc::new(Recorder {
        reachable: "node3",
        sent: Mutex::new(Vec::new()),
        fails: false,
    });
    let r: ActorRef<TestMsg, Recorder> = ActorRef::new_remote(address.clone(), elsewhere.clone());
    assert!(matches!(r.deliver(TestMsg, None), Delivery::Unreachable));
    assert!(elsewhere.sent.lock().unwrap().is_empty());

    let broken = Arc::new(Recorder {
        reachable: "node2",
        sent: Mutex::new(Vec::new()),
        fails: true,
    });
    let r: ActorRef<TestMsg, Recorder> = ActorRef::new_remote(address, broken);
    assert!(matches!(
        r.deliver(TestMsg, None),
        Delivery::TransportFailed(ActorError::NetworkError(_))
    ));
    assert!(r.tell(TestMsg, None).is_ok());
}

#[test]
fn envelopes_are_passed_on_to_reachable_nodes_only() {
    let envelope = || ActorMessage::Tell {
        message: TestMsg,
        sender: None,
    };
    assert!(pass_on(true, envelope()).is_ok());
    assert!(matches!(pass_on(false, envelope()), Err(Delivery::Unreachable)));
}

#[test]
fn references_read_back() {
    let r = make_ref("wire");
    let text = r.serialize();
    assert_eq!(
        text,
        format!("actor://localhost/user/wire#{}", r.incarnation_id().to_string())
    );
    assert_eq!(r.to_string(), format!("ActorRef({text})"));
    let back = ActorRef::<TestMsg>::deserialize(&text).unwrap();
    assert_eq!(back, r);
    assert!(!back.is_local());
    assert!(matches!(back.deliver(TestMsg, None), Delivery::Unreachable));
    match &back.routing {
        ActorRouting::Remote(endpoint) => assert_eq!(endpoint.target_node, ""),
        ActorRouting::Local(_) => panic!("not remote"),
    }
}

#[test]
fn a_hash_in_a_name_does_not_read_back() {
    let r = make_ref("a#b");
    let text = r.serialize();
    assert!(text.starts_with("actor://localhost/user/a#b#"));
    assert!(matches!(
        ActorRef::<TestMsg>::deserialize(&text),
        Err(WireError::Incarnation(_))
    ));
}

#[test]
fn unreadable_references_are_refused() {
    let read = |s: &str| ActorRef::<TestMsg>::deserialize(s);
    let e = read("actor://localhost/user/a").unwrap_err();
    assert!(matches!(e, WireError::Format));
    assert_eq!(e.to_string(), "expected format '<address>#<incarnation_id>'");
    let e = read("nowhere#67e55044-10b1-426f-9247-bb680e5fe0c8").unwrap_err();
    assert!(matches!(e, WireError::Address(_)));
    assert_eq!(
        e.to_string(),
        "Invalid address format: Address must start with 'actor://': nowhere"
    );
    let e = read("actor://localhost/user/a#nothing").unwrap_err();
    assert!(matches!(e, WireError::Incarnation(_)));
    assert!(!e.to_string().is_empty());
    assert_ne!(e.to_string(), "nothing");
}

#[test]
fn the_dummy_transport_refuses_everything() {
    let address = ActorAddress::local(ActorPath::user("a").unwrap());
    let envelope = ActorMessage::Tell {
        message: TestMsg,
        sender: None,
    };
    match DummyTransport.send(&address, envelope) {
        Err(ActorError::NetworkError(text)) => assert_eq!(text, "DummyTransport: not implemented"),
        other => panic!("unexpected {other:?}"),
    }
    assert!(!NetworkTransport::<TestMsg>::is_reachable(&DummyTransport, "localhost"));
}

#[test]
fn incarnation_ids_are_uuids() {
    let id = IncarnationId {
        bits: 0x67e55044_10b1_426f_9247_bb680e5fe0c8,
    };
    assert_eq!(id.to_string(), "67e55044-10b1-426f-9247-bb680e5fe0c8");
    assert_eq!(
        IncarnationId::parse("67E55044-10B1-426F-9247-BB680E5FE0C8").unwrap(),
        id
    );
    assert!(IncarnationId::parse("67e55044").is_err());
    assert_eq!(
        IncarnationId { bits: 0 }.to_string(),
        "00000000-0000-0000-0000-000000000000"
    );
    let fresh = IncarnationId::fresh();
    assert_eq!(fresh.to_string().as_bytes()[14], b'4');
    assert_ne!(fresh, IncarnationId::fresh());
    assert_eq!(IncarnationId::parse(&fresh.to_string()).unwrap(), fresh);
}

#[test]
fn states_and_signals_compare_by_content() {
    assert_eq!(ActorState::Failed("x".into()), ActorState::Failed("x".into()));
    assert_ne!(ActorState::Failed("x".into()), ActorState::Failed("y".into()));
    assert_ne!(ActorState::Running, ActorState::Stopped);
    assert_eq!(ActorState::BackingOff(2).clone(), ActorState::BackingOff(2));
    let a = ActorAddress::local(ActorPath::user("a").unwrap());
    let b = ActorAddress::local(ActorPath::user("b").unwrap());
    assert_eq!(
        SystemMessage::ActorStopped { address: a.clone() },
        SystemMessage::ActorStopped { address: a.clone() }
    );
    assert_ne!(
        SystemMessage::ChildFailed { child: a.clone(), error: "e".into() },
        SystemMessage::ChildFailed { child: b, error: "e".into() }
    );
    assert_ne!(SystemMessage::PoisonPill, SystemMessage::StopSelf);
}
