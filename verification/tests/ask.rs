use aktor::actor_ref::{ActorRef, DummyTransport};
use aktor::ask::{ask, ask_outcome, AskError, ReplyTo, Waited};
use aktor::config::ActorSystemConfig;
use aktor::error::ActorError;
use aktor::message::{ActorMessage, Message};
use aktor::props::ActorProps;
use aktor::system::{ActorSystem, Spawn};
use std::time::Duration;
use tokio::sync::oneshot;

#[derive(Debug)]
enum EchoMsg {
    Echo {
        content: String,
        reply_to: ReplyTo<EchoResponse>,
    },
}

impl Message for EchoMsg {
    fn type_id(&self) -> &'static str {
        "EchoMsg"
    }
}

#[derive(Debug, Clone, PartialEq)]
struct EchoResponse {
    echoed: String,
}

type Pending = Spawn<EchoMsg, DummyTransport>;

fn echo_actor() -> (ActorRef<EchoMsg>, Pending) {
    let mut system = ActorSystem::new(ActorSystemConfig::default(), None).unwrap();
    let spawn: Pending = system.spawn_actor("echo", ActorProps::default()).unwrap();
    let r = system
        .finish_spawn(&spawn.ticket, Ok(()))
        .unwrap();
    (r, spawn)
}

fn serve_one(spawn: &mut Pending) {
    let ActorMessage::Tell { message, .. } = spawn.receiver.try_recv().unwrap();
    let EchoMsg::Echo { content, reply_to } = message;
    reply_to.reply(EchoResponse {
        echoed: format!("Echo: {content}"),
    });
}

fn waited<R>(mut rx: oneshot::Receiver<R>) -> Waited<R> {
    match rx.try_recv() {
        Ok(value) => Waited::Replied(value),
        Err(oneshot::error::TryRecvError::Closed) => Waited::Dropped,
        Err(oneshot::error::TryRecvError::Empty) => Waited::TimedOut,
    }
}

#[test]
fn test_reply_to_sends_value() {
    let (tx, mut rx) = oneshot::channel::<u64>();
    let reply_to = ReplyTo { sender: tx };
    reply_to.reply(42);
    assert_eq!(rx.try_recv().unwrap(), 42);
}

#[test]
fn test_reply_to_dropped_receiver_does_not_panic() {
    let (tx, rx) = oneshot::channel::<u64>();
    let reply_to = ReplyTo { sender: tx };
    drop(rx);
    reply_to.reply(42);
}

#[test]
fn test_ask_basic() {
    let (actor_ref, mut spawn) = echo_actor();
    let rx = actor_ref
        .ask(|rt| EchoMsg::Echo {
            content: "hello".into(),
            reply_to: rt,
        })
        .unwrap();
    serve_one(&mut spawn);
    let response = ask_outcome(waited(rx), Duration::from_secs(1)).unwrap();
    assert_eq!(response.echoed, "Echo: hello");
}

#[test]
fn test_ask_free_function() {
    let (actor_ref, mut spawn) = echo_actor();
    let rx = ask(&actor_ref, |rt| EchoMsg::Echo {
        content: "free fn".into(),
        reply_to: rt,
    })
    .unwrap();
    serve_one(&mut spawn);
    let response: EchoResponse = ask_outcome(waited(rx), Duration::from_secs(1)).unwrap();
    assert_eq!(response.echoed, "Echo: free fn");
}

#[test]
fn test_ask_multiple_sequential() {
    let (actor_ref, mut spawn) = echo_actor();
    for i in 0..5 {
        let rx = ask(&actor_ref, |rt| EchoMsg::Echo {
            content: format!("msg-{i}"),
            reply_to: rt,
        })
        .unwrap();
        serve_one(&mut spawn);
        let response = ask_outcome(waited(rx), Duration::from_secs(1)).unwrap();
        assert_eq!(response.echoed, format!("Echo: msg-{i}"));
    }
}

#[test]
fn test_ask_timeout() {
    let (actor_ref, _spawn) = echo_actor();
    let timeout = Duration::from_millis(50);
    let rx = ask(&actor_ref, |rt| EchoMsg::Echo {
        content: "slow".into(),
        reply_to: rt,
    })
    .unwrap();
    match ask_outcome(waited(rx), timeout) {
        Err(AskError::Timeout { timeout: t }) => assert_eq!(t, timeout),
        other => panic!("unexpected {other:?}"),
    }
}

#[test]
fn test_channel_closed_when_actor_stops() {
    let (actor_ref, spawn) = echo_actor();
    let rx = ask(&actor_ref, |rt| EchoMsg::Echo {
        content: "doomed".into(),
        reply_to: rt,
    })
    .unwrap();
    drop(spawn);
    let result = ask_outcome(waited(rx), Duration::from_secs(5));
    assert!(matches!(result, Err(AskError::ChannelClosed)));
}

#[test]
fn actor_errors_become_ask_errors() {
    let e: AskError = ActorError::NetworkError("down".into()).into();
    assert!(matches!(e, AskError::ActorError(ActorError::NetworkError(_))));
}
