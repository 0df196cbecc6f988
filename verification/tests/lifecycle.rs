use aktor::actor_ref::{ActorRef, ActorRouting, DummyTransport};
use aktor::address::ActorAddress;
use aktor::config::ActorSystemConfig;
use aktor::context::ActorContext;
use aktor::error::ActorError;
use aktor::factory::{ActorFactory, DefaultActorFactory};
use aktor::mailbox::{send_all, Mailbox};
use aktor::message::{ActorMessage, ActorState, Message, SystemMessage};
use aktor::props::{ActorProps, SupervisionStrategy};
use aktor::runner::{dispatch_one, Action, ActorRunner, Event};
use aktor::system::{ActorSystem, ShutdownProgress, Spawn};
use std::sync::atomic::{AtomicBool, AtomicUsize, Ordering};
use std::sync::{Arc, Mutex};
use tokio::sync::mpsc;

#[derive(Debug, Clone)]
struct TestMessage {
    data: String,
}

impl Message for TestMessage {
    fn type_id(&self) -> &'static str {
        "TestMessage"
    }
}

fn msg(data: &str) -> TestMessage {
    TestMessage { data: data.into() }
}

type Ctx = ActorContext<TestMessage, DummyTransport>;
type Ref = ActorRef<TestMessage>;

/// An actor of these tests. A failure stands for a panic with its text.
trait Behaviour {
    fn pre_start(&mut self, _ctx: &mut Ctx, _sys: &mut ActorSystem) -> Result<(), String> {
        Ok(())
    }
    fn handle(
        &mut self,
        m: TestMessage,
        ctx: &mut Ctx,
        sys: &mut ActorSystem,
    ) -> Result<(), &'static str>;
    fn on_child_failed(&mut self, _child: &ActorAddress, _e: &ActorError) -> SupervisionStrategy {
        SupervisionStrategy::Stop
    }
}

/// A spawned actor that runs when `turn` is called.
struct Live<A> {
    actor: A,
    factory: Box<dyn Fn() -> A>,
    runner: ActorRunner,
    context: Ctx,
    mailbox: Arc<Mailbox<TestMessage>>,
    receiver: mpsc::Receiver<ActorMessage<TestMessage>>,
    system_receiver: mpsc::UnboundedReceiver<SystemMessage>,
    states: Vec<ActorState>,
    slept: Vec<(u32, u64)>,
    post_stops: usize,
    ran_secs: u64,
}

fn new_system() -> ActorSystem {
    ActorSystem::new(ActorSystemConfig::default(), None).unwrap()
}

fn launch<A: Behaviour>(
    sys: &mut ActorSystem,
    spawn: Spawn<TestMessage, DummyTransport>,
    factory: impl Fn() -> A + 'static,
) -> Result<(Ref, Live<A>), ActorError> {
    let ticket = spawn.ticket;
    let mut live = Live {
        actor: factory(),
        factory: Box::new(factory),
        runner: spawn.runner,
        context: spawn.context,
        mailbox: spawn.mailbox,
        receiver: spawn.receiver,
        system_receiver: spawn.system_receiver,
        states: Vec::new(),
        slept: Vec::new(),
        post_stops: 0,
        ran_secs: 0,
    };
    let started = live.actor.pre_start(&mut live.context, sys);
    let started = match &started {
        Ok(()) => Ok(()),
        Err(text) => Err(text.as_str()),
    };
    let r = sys.finish_spawn(&ticket, started)?;
    Ok((r, live))
}

fn spawn<A: Behaviour>(
    sys: &mut ActorSystem,
    name: &str,
    props: ActorProps,
    factory: impl Fn() -> A + 'static,
) -> Result<(Ref, Live<A>), ActorError> {
    let spawn = sys.spawn_actor(name, props)?;
    launch(sys, spawn, factory)
}

impl<A: Behaviour> Live<A> {
    /// Hand an event to the runner and do as it says.
    fn feed(&mut self, event: Event, sys: &mut ActorSystem) {
        assert!(self.runner.awaits(&event));
        let step = self.runner.step(
            event,
            &mut self.mailbox,
            &mut self.context.children,
            sys.registry_mut(),
        );
        self.context.renew(&self.mailbox);
        self.states.extend(step.publish);
        if let Some(notice) = step.notice {
            let _ = notice.send();
        }
        assert_eq!(step.action, self.runner.action());
    }

    /// Run until there is nothing more to do, or a child is to come back.
    fn turn(&mut self, sys: &mut ActorSystem) {
        let mut inbox = None;
        loop {
            let event = match self.runner.action() {
                Action::Begin => Event::Begun,
                Action::AwaitEither => match self.system_receiver.try_recv() {
                    Ok(m) => Event::System(m),
                    Err(mpsc::error::TryRecvError::Disconnected) => Event::SystemClosed,
                    Err(mpsc::error::TryRecvError::Empty) => match self.receiver.try_recv() {
                        Ok(m) => {
                            inbox = Some(m);
                            Event::User
                        }
                        Err(mpsc::error::TryRecvError::Disconnected) => Event::UserClosed,
                        Err(mpsc::error::TryRecvError::Empty) => return,
                    },
                },
                Action::PollSystem => match self.system_receiver.try_recv() {
                    Ok(m) => Event::System(m),
                    Err(_) => Event::SystemEmpty,
                },
                Action::PollUser => match self.receiver.try_recv() {
                    Ok(m) => {
                        inbox = Some(m);
                        Event::User
                    }
                    Err(_) => Event::UserEmpty,
                },
                Action::Handle => {
                    let ActorMessage::Tell { message, .. } = inbox.take().unwrap();
                    let res = match self.actor.handle(message, &mut self.context, sys) {
                        Ok(()) => dispatch_one(false, None, None),
                        Err(text) => dispatch_one(true, Some(text), None),
                    };
                    match res {
                        Ok(()) => Event::Handled(None),
                        Err(ActorError::Panic(text)) => Event::Handled(Some(text)),
                        Err(other) => panic!("unexpected {other:?}"),
                    }
                }
                Action::Supervise => {
                    let (child, error) = self.runner.failed_child().unwrap();
                    Event::Supervised(self.actor.on_child_failed(child, &error))
                }
                Action::RestartChild | Action::ResumeChild => return,
                Action::PostStop => {
                    self.post_stops += 1;
                    Event::PostStopped { ran_secs: self.ran_secs }
                }
                Action::Sleep { attempt, ms } => {
                    self.slept.push((attempt, ms));
                    Event::BackedOff
                }
                Action::Start => {
                    self.actor = (self.factory)();
                    Event::Started(self.actor.pre_start(&mut self.context, sys).err())
                }
                Action::Exit => return,
            };
            self.feed(event, sys);
        }
    }

    /// Begin anew, after the parent took the actor back.
    fn come_back(&mut self, r: &Ref) {
        self.mailbox = match &r.routing {
            ActorRouting::Local(mailbox) => mailbox.clone(),
            ActorRouting::Remote(_) => panic!("not local"),
        };
        self.context.renew(&self.mailbox);
        self.runner = ActorRunner::new(
            self.runner.address.clone(),
            self.context.parent_address().cloned(),
            self.context.props().clone(),
        );
    }
}

#[derive(Debug, Default)]
struct TestActor {
    received_messages: Vec<String>,
}

impl Behaviour for TestActor {
    fn handle(
        &mut self,
        m: TestMessage,
        _: &mut Ctx,
        _: &mut ActorSystem,
    ) -> Result<(), &'static str> {
        self.received_messages.push(m.data);
        Ok(())
    }
}

#[test]
fn test_poison_pill_removes_actor_from_system() {
    let mut system = new_system();
    let (actor_ref, mut live) =
        spawn(&mut system, "pill-target", ActorProps::default(), TestActor::default).unwrap();
    assert!(system.contains_actor(actor_ref.address()));
    actor_ref.stop().unwrap();
    live.turn(&mut system);
    assert!(
        !system.contains_actor(actor_ref.address()),
        "actor should have been removed after PoisonPill"
    );
    assert_eq!(
        live.states,
        vec![ActorState::Running, ActorState::Stopping, ActorState::Stopped]
    );
    assert!(!actor_ref.is_alive());
    assert_eq!(live.post_stops, 1);
}

#[derive(Debug, Default)]
struct SelfStoppingActor;

impl Behaviour for SelfStoppingActor {
    fn handle(
        &mut self,
        _: TestMessage,
        ctx: &mut Ctx,
        _: &mut ActorSystem,
    ) -> Result<(), &'static str> {
        ctx.stop_self();
        Ok(())
    }
}

#[test]
fn test_stop_self_removes_actor_from_system() {
    let mut system = new_system();
    let (actor_ref, mut live) =
        spawn(&mut system, "self-stopper", ActorProps::default(), SelfStoppingActor::default)
            .unwrap();
    actor_ref.tell(msg("go"), None).unwrap();
    live.turn(&mut system);
    assert!(
        !system.contains_actor(actor_ref.address()),
        "actor should have been removed after stop_self()"
    );
}

#[test]
fn test_all_messages_delivered_across_batch_boundary() {
    let mut system = new_system();
    let (actor_ref, mut live) =
        spawn(&mut system, "counter", ActorProps::default(), TestActor::default).unwrap();
    let count = 25;
    for i in 0..count {
        actor_ref.tell(msg(&i.to_string()), None).unwrap();
    }
    live.turn(&mut system);
    assert_eq!(live.actor.received_messages.len(), count);
    let expected: Vec<String> = (0..count).map(|i| i.to_string()).collect();
    assert_eq!(live.actor.received_messages, expected);
}

#[test]
fn a_stop_signal_overtakes_queued_messages() {
    let mut system = new_system();
    let (actor_ref, mut live) =
        spawn(&mut system, "overtaken", ActorProps::default(), TestActor::default).unwrap();
    actor_ref.tell(msg("never"), None).unwrap();
    actor_ref.stop().unwrap();
    live.turn(&mut system);
    assert!(live.actor.received_messages.is_empty());
    assert!(!system.contains_actor(actor_ref.address()));
}

/// Fails on the first message that any instance receives.
struct PanicOnceActor {
    panicked: Arc<AtomicBool>,
    handled: Arc<AtomicUsize>,
}

impl Behaviour for PanicOnceActor {
    fn handle(
        &mut self,
        _: TestMessage,
        _: &mut Ctx,
        _: &mut ActorSystem,
    ) -> Result<(), &'static str> {
        if !self.panicked.swap(true, Ordering::SeqCst) {
            return Err("intentional test panic");
        }
        self.handled.fetch_add(1, Ordering::Relaxed);
        Ok(())
    }
}

#[test]
fn test_restart_after_panic() {
    let panicked = Arc::new(AtomicBool::new(false));
    let handled = Arc::new(AtomicUsize::new(0));
    let panicked2 = panicked.clone();
    let handled2 = handled.clone();

    let mut system = new_system();
    let props = ActorProps::new().with_restart(3, 60).with_backoff(10, 100);
    let (actor_ref, mut live) = spawn(&mut system, "panic-once", props, move || PanicOnceActor {
        panicked: panicked2.clone(),
        handled: handled2.clone(),
    })
    .unwrap();

    // First message → panic → restart
    actor_ref.tell(msg("boom"), None).unwrap();
    live.turn(&mut system);

    // Second message → handled normally after restart
    actor_ref.tell(msg("ok"), None).unwrap();
    live.turn(&mut system);

    assert!(panicked.load(Ordering::SeqCst), "actor should have panicked");
    assert_eq!(
        handled.load(Ordering::Relaxed),
        1,
        "second message must be handled after restart"
    );
    assert!(
        system.contains_actor(actor_ref.address()),
        "actor must still be live after restart"
    );
    assert_eq!(
        live.states,
        vec![
            ActorState::Running,
            ActorState::Failed("intentional test panic".into()),
            ActorState::BackingOff(1),
            ActorState::Starting,
            ActorState::Running,
        ]
    );
    assert_eq!(live.slept, vec![(1, 10)]);
    assert!(actor_ref.is_alive());
    let stale: Option<Ref> = system.resolver().resolve(&actor_ref.serialize());
    assert!(stale.is_none(), "a restart makes older references stale");
    let now: Option<Ref> = system.resolver().resolve(&actor_ref.address().to_string());
    assert_eq!(now.as_ref(), Some(live.context.actor_ref()));
}

#[derive(Default)]
struct AlwaysPanics;

impl Behaviour for AlwaysPanics {
    fn handle(
        &mut self,
        _: TestMessage,
        _: &mut Ctx,
        _: &mut ActorSystem,
    ) -> Result<(), &'static str> {
        Err("always panics")
    }
}

#[test]
fn test_stop_strategy_removes_actor_on_panic() {
    let mut system = new_system();
    // Default props → Stop strategy
    let (actor_ref, mut live) =
        spawn(&mut system, "always-panics", ActorProps::default(), AlwaysPanics::default).unwrap();
    actor_ref.tell(msg("boom"), None).unwrap();
    live.turn(&mut system);
    assert!(
        !system.contains_actor(actor_ref.address()),
        "actor with Stop strategy must be removed after panic"
    );
    assert_eq!(live.states.last(), Some(&ActorState::Failed("always panics".into())));
    assert_eq!(live.post_stops, 1);
}

struct CountsStarts {
    count: Arc<AtomicUsize>,
}

impl Behaviour for CountsStarts {
    fn pre_start(&mut self, _: &mut Ctx, _: &mut ActorSystem) -> Result<(), String> {
        self.count.fetch_add(1, Ordering::Relaxed);
        Ok(())
    }
    fn handle(
        &mut self,
        _: TestMessage,
        _: &mut Ctx,
        _: &mut ActorSystem,
    ) -> Result<(), &'static str> {
        Err("always panics")
    }
}

#[test]
fn test_exhausted_restarts_removes_actor() {
    let mut system = new_system();
    let restart_count = Arc::new(AtomicUsize::new(0));
    let rc = restart_count.clone();
    let props = ActorProps::new().with_restart(2, 60).with_backoff(10, 50);
    let (actor_ref, mut live) = spawn(&mut system, "exhausted", props, move || CountsStarts {
        count: rc.clone(),
    })
    .unwrap();

    // Each incarnation (initial + 2 restarts) gets one message to panic on.
    actor_ref.tell(msg("boom-1"), None).unwrap();
    actor_ref.tell(msg("boom-2"), None).unwrap();
    actor_ref.tell(msg("boom-3"), None).unwrap();
    live.turn(&mut system);

    assert!(
        !system.contains_actor(actor_ref.address()),
        "actor must be removed after exhausting restarts"
    );
    // pre_start called: 1 initial + 2 restarts = 3
    assert_eq!(restart_count.load(Ordering::Relaxed), 3);
    assert_eq!(live.slept, vec![(1, 10), (2, 20)]);
    assert_eq!(live.runner.restart_count, 2);
}

#[test]
fn a_long_run_grants_all_restarts_again() {
    let mut system = new_system();
    let count = Arc::new(AtomicUsize::new(0));
    let c = count.clone();
    let props = ActorProps::new().with_restart(1, 60).with_backoff(10, 50);
    let (actor_ref, mut live) =
        spawn(&mut system, "steady", props, move || CountsStarts { count: c.clone() }).unwrap();
    live.ran_secs = 60;
    for i in 0..5 {
        actor_ref.tell(msg(&format!("boom-{i}")), None).unwrap();
    }
    live.turn(&mut system);
    assert!(system.contains_actor(actor_ref.address()));
    assert_eq!(count.load(Ordering::Relaxed), 6);
    assert_eq!(live.slept, vec![(1, 10); 5]);
    live.ran_secs = 59;
    actor_ref.tell(msg("boom"), None).unwrap();
    live.turn(&mut system);
    assert!(!system.contains_actor(actor_ref.address()));
}

#[test]
fn a_resuming_actor_goes_on_after_a_failure() {
    let panicked = Arc::new(AtomicBool::new(false));
    let handled = Arc::new(AtomicUsize::new(0));
    let (p, h) = (panicked.clone(), handled.clone());
    let mut system = new_system();
    let props = ActorProps::new().with_supervision(SupervisionStrategy::Resume);
    let (actor_ref, mut live) = spawn(&mut system, "resuming", props, move || PanicOnceActor {
        panicked: p.clone(),
        handled: h.clone(),
    })
    .unwrap();
    for _ in 0..3 {
        actor_ref.tell(msg("boom"), None).unwrap();
    }
    live.turn(&mut system);
    assert!(panicked.load(Ordering::SeqCst));
    assert_eq!(handled.load(Ordering::Relaxed), 2);
    assert_eq!(live.states, vec![ActorState::Running]);
    assert_eq!(live.post_stops, 0);
}

struct FailsToRestart {
    starts: Arc<AtomicUsize>,
}

impl Behaviour for FailsToRestart {
    fn pre_start(&mut self, _: &mut Ctx, _: &mut ActorSystem) -> Result<(), String> {
        if self.starts.fetch_add(1, Ordering::Relaxed) == 0 {
            Ok(())
        } else {
            Err("no database".to_string())
        }
    }
    fn handle(
        &mut self,
        _: TestMessage,
        _: &mut Ctx,
        _: &mut ActorSystem,
    ) -> Result<(), &'static str> {
        Err("lost connection")
    }
}

#[test]
fn a_failed_restart_uses_up_restarts_without_cleaning_up() {
    let mut system = new_system();
    let starts = Arc::new(AtomicUsize::new(0));
    let s = starts.clone();
    let props = ActorProps::new().with_restart(2, 60).with_backoff(10, 50);
    let (actor_ref, mut live) =
        spawn(&mut system, "flaky", props, move || FailsToRestart { starts: s.clone() }).unwrap();
    actor_ref.tell(msg("boom"), None).unwrap();
    live.turn(&mut system);
    assert_eq!(
        live.states,
        vec![
            ActorState::Running,
            ActorState::Failed("lost connection".into()),
            ActorState::BackingOff(1),
            ActorState::Starting,
            ActorState::Failed("no database".into()),
            ActorState::BackingOff(2),
            ActorState::Starting,
            ActorState::Failed("no database".into()),
        ]
    );
    assert_eq!(live.post_stops, 1);
    assert!(!system.contains_actor(actor_ref.address()));
}

struct ParentActor {
    child: Arc<Mutex<Option<(Ref, Live<SelfStoppingActor>)>>>,
    reported_count: Arc<AtomicUsize>,
}

impl Behaviour for ParentActor {
    fn pre_start(&mut self, ctx: &mut Ctx, sys: &mut ActorSystem) -> Result<(), String> {
        let spawn = ctx.spawn_child(sys, "child", None).unwrap();
        let ticket = spawn.ticket;
        let live = Live {
            actor: SelfStoppingActor,
            factory: Box::new(SelfStoppingActor::default),
            runner: spawn.runner,
            context: spawn.context,
            mailbox: spawn.mailbox,
            receiver: spawn.receiver,
            system_receiver: spawn.system_receiver,
            states: Vec::new(),
            slept: Vec::new(),
            post_stops: 0,
            ran_secs: 0,
        };
        let r: Ref = ctx
            .finish_spawn_child(sys, &ticket, Ok(()))
            .unwrap();
        *self.child.lock().unwrap() = Some((r, live));
        Ok(())
    }
    fn handle(
        &mut self,
        m: TestMessage,
        ctx: &mut Ctx,
        _: &mut ActorSystem,
    ) -> Result<(), &'static str> {
        match m.data.as_str() {
            "trigger" => {
                if let Some((child, _)) = &*self.child.lock().unwrap() {
                    child.tell(msg("go"), None).unwrap();
                }
            }
            "report" => self.reported_count.store(ctx.children_count(), Ordering::Relaxed),
            _ => {}
        }
        Ok(())
    }
}

#[test]
fn test_self_stopping_child_removed_from_parent_children_map() {
    let reported_count = Arc::new(AtomicUsize::new(99));
    let child = Arc::new(Mutex::new(None));
    let mut system = new_system();
    let (rc, c) = (reported_count.clone(), child.clone());
    let (parent_ref, mut parent) =
        spawn(&mut system, "parent", ActorProps::default(), move || ParentActor {
            child: c.clone(),
            reported_count: rc.clone(),
        })
        .unwrap();
    let child_addr = parent_ref.address().child("child").unwrap();
    assert!(system.contains_actor(&child_addr));
    parent_ref.tell(msg("report"), None).unwrap();
    parent.turn(&mut system);
    assert_eq!(reported_count.load(Ordering::Relaxed), 1);

    parent_ref.tell(msg("trigger"), None).unwrap();
    parent.turn(&mut system);
    let (_, mut live) = child.lock().unwrap().take().unwrap();
    live.turn(&mut system);
    assert!(!system.contains_actor(&child_addr));

    parent_ref.tell(msg("report"), None).unwrap();
    parent.turn(&mut system);
    assert_eq!(
        reported_count.load(Ordering::Relaxed),
        0,
        "parent's children map must be empty after child self-stops"
    );
}

struct SupervisorActor {
    notified: Arc<AtomicUsize>,
    texts: Arc<Mutex<Vec<String>>>,
    decision: SupervisionStrategy,
}

impl Behaviour for SupervisorActor {
    fn handle(
        &mut self,
        _: TestMessage,
        _: &mut Ctx,
        _: &mut ActorSystem,
    ) -> Result<(), &'static str> {
        Ok(())
    }
    fn on_child_failed(&mut self, child: &ActorAddress, e: &ActorError) -> SupervisionStrategy {
        self.notified.fetch_add(1, Ordering::Relaxed);
        if let ActorError::ActorCreationFailed(text) = e {
            self.texts.lock().unwrap().push(format!("{}: {}", child.to_string(), text));
        }
        self.decision
    }
}

fn supervisor(
    decision: SupervisionStrategy,
) -> (Arc<AtomicUsize>, Arc<Mutex<Vec<String>>>, impl Fn() -> SupervisorActor) {
    let notified = Arc::new(AtomicUsize::new(0));
    let texts = Arc::new(Mutex::new(Vec::new()));
    let (n, t) = (notified.clone(), texts.clone());
    (notified, texts, move || SupervisorActor {
        notified: n.clone(),
        texts: t.clone(),
        decision,
    })
}

fn spawn_child_of<A: Behaviour, B: Behaviour>(
    sys: &mut ActorSystem,
    parent: &mut Live<A>,
    name: &str,
    props: Option<ActorProps>,
    factory: impl Fn() -> B + 'static,
) -> (Ref, Live<B>) {
    let spawn = parent.context.spawn_child(sys, name, props).unwrap();
    let ticket = spawn.ticket;
    let live = Live {
        actor: factory(),
        factory: Box::new(factory),
        runner: spawn.runner,
        context: spawn.context,
        mailbox: spawn.mailbox,
        receiver: spawn.receiver,
        system_receiver: spawn.system_receiver,
        states: Vec::new(),
        slept: Vec::new(),
        post_stops: 0,
        ran_secs: 0,
    };
    let r = parent
        .context
        .finish_spawn_child(sys, &ticket, Ok(()))
        .unwrap();
    (r, live)
}

#[test]
fn test_on_child_failed_called_when_child_panics() {
    let mut system = new_system();
    let (notified, texts, factory) = supervisor(SupervisionStrategy::Stop);
    let (_, mut parent) =
        spawn(&mut system, "supervisor", ActorProps::default(), factory).unwrap();
    let (child_ref, mut child) =
        spawn_child_of(&mut system, &mut parent, "child", None, AlwaysPanics::default);
    child_ref.tell(msg("boom"), None).unwrap();
    child.turn(&mut system);
    parent.turn(&mut system);
    assert_eq!(
        notified.load(Ordering::Relaxed),
        1,
        "on_child_failed must be called exactly once when child panics"
    );
    assert_eq!(
        *texts.lock().unwrap(),
        vec![format!("{}: always panics", child_ref.address().to_string())]
    );
    assert_eq!(parent.context.children_count(), 0);
}

#[test]
fn an_escalated_failure_reaches_the_grandparent() {
    let mut system = new_system();
    let (top_notified, top_texts, top_factory) = supervisor(SupervisionStrategy::Stop);
    let (notified, _, factory) = supervisor(SupervisionStrategy::Escalate);
    let (_, mut top) = spawn(&mut system, "top", ActorProps::default(), top_factory).unwrap();
    let (_, mut middle) = spawn_child_of(&mut system, &mut top, "middle", None, factory);
    let props = ActorProps::new().with_restart(1, 60);
    let (child_ref, mut child) =
        spawn_child_of(&mut system, &mut middle, "child", Some(props), AlwaysPanics::default);
    assert_eq!(child_ref.address().path.segments, vec!["user", "top", "middle", "child"]);
    child_ref.tell(msg("boom-1"), None).unwrap();
    child_ref.tell(msg("boom-2"), None).unwrap();
    child.turn(&mut system);
    middle.turn(&mut system);
    top.turn(&mut system);
    assert_eq!(notified.load(Ordering::Relaxed), 1);
    assert_eq!(top_notified.load(Ordering::Relaxed), 1);
    assert_eq!(
        *top_texts.lock().unwrap(),
        vec![format!(
            "{}: exhausted 1 restarts; last error: always panics",
            child_ref.address().to_string()
        )]
    );
    assert_eq!(middle.context.children_count(), 0);
    assert_eq!(top.context.children_count(), 1);
    assert_eq!(middle.states, vec![ActorState::Running]);
}

/// A supervisor with a child that fails once, and the decision on it taken.
fn failed_child(
    system: &mut ActorSystem,
    decision: SupervisionStrategy,
) -> (Live<SupervisorActor>, Ref, Live<PanicOnceActor>, Arc<AtomicUsize>) {
    let (notified, _, factory) = supervisor(decision);
    let (_, mut parent) = spawn(system, "supervisor", ActorProps::default(), factory).unwrap();
    let panicked = Arc::new(AtomicBool::new(false));
    let handled = Arc::new(AtomicUsize::new(0));
    let h = handled.clone();
    let (child_ref, mut child) =
        spawn_child_of(system, &mut parent, "child", None, move || PanicOnceActor {
            panicked: panicked.clone(),
            handled: h.clone(),
        });
    child_ref.tell(msg("boom"), None).unwrap();
    child_ref.tell(msg("later"), None).unwrap();
    child.turn(system);
    assert!(!system.contains_actor(child_ref.address()));
    assert!(!child_ref.is_alive());
    parent.turn(system);
    assert_eq!(notified.load(Ordering::Relaxed), 1);
    (parent, child_ref, child, handled)
}

#[test]
fn a_parent_can_restart_its_child() {
    let mut system = new_system();
    let (mut parent, child_ref, mut child, handled) =
        failed_child(&mut system, SupervisionStrategy::Restart);
    assert_eq!(parent.runner.action(), Action::RestartChild);
    assert_eq!(parent.runner.returning_child(), Some(child_ref.address()));
    assert_eq!(parent.context.children_count(), 1);

    child.actor = (child.factory)();
    let own = parent.runner.address.clone();
    let back: Ref = system
        .restart_child(&own, "child", &mut parent.context.children, &child.mailbox, Ok(()))
        .unwrap();
    parent.feed(Event::ChildRestarted(None), &mut system);
    assert_eq!(parent.runner.action(), Action::AwaitEither);
    assert_eq!(parent.context.children_count(), 1);
    assert!(system.contains_actor(child_ref.address()));
    assert_eq!(back.address(), child_ref.address());
    assert_ne!(back, child_ref, "a restarted child is a new incarnation");
    assert!(back.is_alive());
    let stale: Option<Ref> = system.resolver().resolve(&child_ref.serialize());
    assert!(stale.is_none());

    child.come_back(&back);
    child_ref.tell(msg("again"), None).unwrap();
    child.turn(&mut system);
    assert_eq!(handled.load(Ordering::Relaxed), 2);
}

#[test]
fn a_parent_can_resume_its_child() {
    let mut system = new_system();
    let (mut parent, child_ref, mut child, handled) =
        failed_child(&mut system, SupervisionStrategy::Resume);
    assert_eq!(parent.runner.action(), Action::ResumeChild);
    assert_eq!(parent.context.children_count(), 1);

    let own = parent.runner.address.clone();
    let back: Ref = system
        .resume_child(&own, "child", &mut parent.context.children, &child.mailbox)
        .unwrap();
    parent.feed(Event::ChildResumed(None), &mut system);
    assert_eq!(parent.context.children_count(), 1);
    assert_eq!(back, child_ref);
    assert!(child_ref.is_alive());
    let live: Option<Ref> = system.resolver().resolve(&child_ref.serialize());
    assert_eq!(live, Some(child_ref.clone()));

    child.come_back(&back);
    child.turn(&mut system);
    assert_eq!(handled.load(Ordering::Relaxed), 1);
}

#[test]
fn a_child_that_does_not_come_back_is_forgotten() {
    let mut system = new_system();
    let (mut parent, child_ref, child, _) =
        failed_child(&mut system, SupervisionStrategy::Restart);
    let own = parent.runner.address.clone();
    let res: Result<Ref, ActorError> = system.restart_child(
        &own,
        "child",
        &mut parent.context.children,
        &child.mailbox,
        Err("no disk"),
    );
    match res {
        Err(ActorError::ActorCreationFailed(text)) => {
            assert_eq!(text, "Actor pre_start failed: no disk")
        }
        other => panic!("unexpected {other:?}"),
    }
    assert_eq!(parent.context.children_count(), 1);
    parent.feed(Event::ChildRestarted(Some("no disk".into())), &mut system);
    assert_eq!(parent.context.children_count(), 0);
    assert!(!system.contains_actor(child_ref.address()));

    let (mut parent, _, child, _) = {
        let mut system = new_system();
        let all = failed_child(&mut system, SupervisionStrategy::Resume);
        let own = all.0.runner.address.clone();
        let mut parent = all.0;
        let taken: Result<Spawn<TestMessage, DummyTransport>, ActorError> =
            parent.context.spawn_child(&system, "child", None);
        let other = taken.unwrap();
        let _: Ref = system
            .finish_spawn(&other.ticket, Ok(()))
            .unwrap();
        let res: Result<Ref, ActorError> =
            system.resume_child(&own, "child", &mut parent.context.children, &all.2.mailbox);
        assert!(res.is_err(), "the address is in use again");
        parent.feed(Event::ChildResumed(Some("in use".into())), &mut system);
        (parent, all.1, all.2, all.3)
    };
    assert_eq!(parent.context.children_count(), 0);
    let mut nowhere = new_system();
    let root = parent.runner.address.clone();
    let bad: Result<Ref, ActorError> =
        nowhere.resume_child(&root, "a/b", &mut parent.context.children, &child.mailbox);
    assert!(bad.is_err());
}

#[test]
fn only_escalation_reaches_the_grandparent() {
    for decision in [
        SupervisionStrategy::Stop,
        SupervisionStrategy::Restart,
        SupervisionStrategy::Resume,
    ] {
        let mut system = new_system();
        let (top_notified, _, top_factory) = supervisor(SupervisionStrategy::Stop);
        let (notified, _, factory) = supervisor(decision);
        let (_, mut top) = spawn(&mut system, "top", ActorProps::default(), top_factory).unwrap();
        let (_, mut middle) = spawn_child_of(&mut system, &mut top, "middle", None, factory);
        let (child_ref, mut child) =
            spawn_child_of(&mut system, &mut middle, "child", None, AlwaysPanics::default);
        child_ref.tell(msg("boom"), None).unwrap();
        child.turn(&mut system);
        middle.turn(&mut system);
        top.turn(&mut system);
        assert_eq!(notified.load(Ordering::Relaxed), 1);
        assert_eq!(top_notified.load(Ordering::Relaxed), 0);
    }
}

#[test]
fn an_escalated_failure_does_not_touch_a_child_of_the_same_name() {
    let mut system = new_system();
    let (_, _, top_factory) = supervisor(SupervisionStrategy::Stop);
    let (_, _, factory) = supervisor(SupervisionStrategy::Escalate);
    let (_, mut top) = spawn(&mut system, "top", ActorProps::default(), top_factory).unwrap();
    let (_, _namesake) =
        spawn_child_of(&mut system, &mut top, "w", None, TestActor::default);
    let (_, mut middle) = spawn_child_of(&mut system, &mut top, "middle", None, factory);
    let (child_ref, mut child) =
        spawn_child_of(&mut system, &mut middle, "w", None, AlwaysPanics::default);
    child_ref.tell(msg("boom"), None).unwrap();
    child.turn(&mut system);
    middle.turn(&mut system);
    top.turn(&mut system);
    assert_eq!(middle.context.children_count(), 0);
    assert_eq!(top.context.children_count(), 2);
}

#[test]
fn signals_are_taken_between_drained_messages() {
    let mut system = new_system();
    let (notified, _, factory) = supervisor(SupervisionStrategy::Stop);
    let (parent_ref, mut parent) =
        spawn(&mut system, "draining", ActorProps::default(), factory).unwrap();
    let (child_ref, mut child) =
        spawn_child_of(&mut system, &mut parent, "child", None, AlwaysPanics::default);
    parent_ref.tell(msg("one"), None).unwrap();
    parent.feed(Event::Begun, &mut system);
    assert_eq!(parent.runner.action(), Action::AwaitEither);
    parent.feed(Event::User, &mut system);
    assert_eq!(parent.runner.action(), Action::Handle);
    parent.feed(Event::Handled(None), &mut system);
    assert_eq!(parent.runner.action(), Action::PollSystem);
    assert!(!parent.runner.awaits(&Event::User));
    child_ref.tell(msg("boom"), None).unwrap();
    child.turn(&mut system);
    parent.turn(&mut system);
    assert_eq!(notified.load(Ordering::Relaxed), 1);
    assert_eq!(parent.runner.action(), Action::AwaitEither);
}

#[test]
fn closed_channels_end_an_actor() {
    for event in [Event::SystemClosed, Event::UserClosed] {
        let mut system = new_system();
        let (actor_ref, mut live) =
            spawn(&mut system, "closed", ActorProps::default(), TestActor::default).unwrap();
        live.turn(&mut system);
        live.feed(event, &mut system);
        assert_eq!(live.runner.action(), Action::PostStop);
        assert_eq!(live.states.last(), Some(&ActorState::Stopping));
        live.turn(&mut system);
        assert!(!system.contains_actor(actor_ref.address()));
        assert_eq!(live.runner.action(), Action::Exit);
        assert!(!live.runner.alive);
    }
}

#[test]
fn panics_are_described_by_their_payload() {
    let text = |s: Option<&str>, t: Option<&str>| match dispatch_one(true, s, t) {
        Err(ActorError::Panic(text)) => text,
        other => panic!("unexpected {other:?}"),
    };
    assert_eq!(text(Some("borrowed"), None), "borrowed");
    assert_eq!(text(None, Some("owned")), "owned");
    assert_eq!(text(None, None), "unknown panic payload");
    assert!(dispatch_one(false, None, None).is_ok());
}

#[test]
fn a_shutdown_waits_for_all_actors() {
    let mut system = new_system();
    let (_, mut a) = spawn(&mut system, "a", ActorProps::default(), TestActor::default).unwrap();
    let (_, mut b) = spawn(&mut system, "b", ActorProps::default(), TestActor::default).unwrap();
    let notices = system.shutdown();
    assert_eq!(notices.len(), 2);
    let answers = send_all(notices);
    assert_eq!(answers.len(), 2);
    assert!(answers.iter().all(|a| a.is_ok()));
    assert_eq!(system.shutdown_progress(false), ShutdownProgress::Wait);
    a.turn(&mut system);
    assert_eq!(system.shutdown_progress(false), ShutdownProgress::Wait);
    assert_eq!(system.shutdown_progress(true), ShutdownProgress::TimedOut { left: 1 });
    b.turn(&mut system);
    assert_eq!(system.shutdown_progress(false), ShutdownProgress::Complete);
    assert_eq!(system.shutdown_progress(true), ShutdownProgress::Complete);
}

#[test]
fn default_factories_make_default_actors() {
    let factory: DefaultActorFactory<TestActor> = DefaultActorFactory::default();
    assert!(factory.create().received_messages.is_empty());
}
