//! The life of an actor: which signals and messages it takes, when it stops,
//! and when and how often it is restarted.
//!
//! The runner decides; whoever drives it does what its `Action` asks for and
//! hands back what came of it as an `Event`.

use crate::address::{ActorAddress, AddressView};
use crate::children::{without_address, Children};
use crate::error::{panic_text, text_option, ActorError, ActorFault};
use crate::mailbox::{
    flag_written, renewal_of, unit_result, AnyMailbox, Mailbox, Notice, NoticeView,
};
use crate::message::{ActorState, Message, Signal, StateView, SystemMessage};
use crate::props::{backoff_ms, ActorProps, PropsView, SupervisionStrategy};
use crate::registry::{place, registered_at, Place, Registry, RegistryEntry};
use crate::text::{decimal, decimal_text};
use std::sync::Arc;
use vstd::prelude::*;
use vstd::string::StringExecFns;

verus! {

/// What a runner waits for.
#[derive(Debug)]
pub enum Phase {
    /// The runner has not begun. The first instance has been started.
    Created,
    /// For a signal or a message, whichever comes first.
    Waiting,
    /// For the actor to handle a message.
    Handling,
    /// For a look at the system channel, while queued messages are drained.
    PollingSystem,
    /// For a look at the mailbox, while queued messages are drained.
    PollingUser,
    /// For the actor to say what becomes of a failed child.
    Supervising { child: ActorAddress, error: String, draining: bool },
    /// For a failed child to be made anew.
    RestartingChild { child: ActorAddress, draining: bool },
    /// For a failed child to go on.
    ResumingChild { child: ActorAddress, draining: bool },
    /// For the actor to clean up, after the failure with this text or without
    /// one.
    Ending { failure: Option<String> },
    /// For the delay before a restart to pass.
    BackingOff,
    /// For a fresh instance to start.
    Starting,
    /// For nothing; the actor is gone.
    Done,
}

/// What happened.
#[derive(Debug)]
pub enum Event {
    /// The runner was set off.
    Begun,
    /// A signal was received.
    System(SystemMessage),
    /// No more signals can come.
    SystemClosed,
    /// No signal is queued.
    SystemEmpty,
    /// A message was received.
    User,
    /// No more messages can come.
    UserClosed,
    /// No message is queued.
    UserEmpty,
    /// The actor handled the message, or failed with this error text.
    Handled(Option<String>),
    /// The actor decided on its failed child.
    Supervised(SupervisionStrategy),
    /// The failed child was made anew and started, or that failed with this text.
    ChildRestarted(Option<String>),
    /// The failed child goes on, or that failed with this text.
    ChildResumed(Option<String>),
    /// The actor cleaned up. It had been running for this many seconds.
    PostStopped { ran_secs: u64 },
    /// The delay has passed.
    BackedOff,
    /// The fresh instance started, or failed with this error text.
    Started(Option<String>),
}

/// What is to be done next.
#[derive(Debug, Clone, Copy, PartialEq, Eq, Structural)]
pub enum Action {
    /// Hand in `Event::Begun`.
    Begin,
    /// Wait for a signal or a message; if both are there, take the signal.
    AwaitEither,
    /// Have the actor handle the message that was received.
    Handle,
    /// Look for a queued signal.
    PollSystem,
    /// Look for a queued message.
    PollUser,
    /// Ask the actor what becomes of its failed child.
    Supervise,
    /// Make a fresh instance of the failed child with its factory, and start it.
    RestartChild,
    /// Let the failed child go on with the same instance.
    ResumeChild,
    /// Have the actor clean up.
    PostStop,
    /// Wait this many milliseconds, with a spread, before the restart with this
    /// number.
    Sleep { attempt: u32, ms: u64 },
    /// Make a fresh instance and start it.
    Start,
    /// Nothing more.
    Exit,
}

/// What follows from an event.
pub struct Step {
    /// The states to publish, one after the other.
    pub publish: Vec<ActorState>,
    /// A signal to send.
    pub notice: Option<Notice>,
    /// What is to be done next.
    pub action: Action,
}

/// Runs one actor.
#[derive(Debug)]
pub struct ActorRunner {
    /// Where the actor lives.
    pub address: ActorAddress,
    /// Where its parent lives.
    pub parent: Option<ActorAddress>,
    /// How it is supervised.
    pub props: ActorProps,
    /// How many restarts it has used up.
    pub restart_count: u32,
    /// What it waits for.
    pub phase: Phase,
    /// The state it published last.
    pub state: ActorState,
    /// Whether it can still handle messages.
    pub alive: bool,
}

/// A phase over views.
pub enum PhaseView {
    Created,
    Waiting,
    Handling,
    PollingSystem,
    PollingUser,
    Supervising { child: AddressView, error: Seq<char>, draining: bool },
    RestartingChild { child: AddressView, draining: bool },
    ResumingChild { child: AddressView, draining: bool },
    Ending { failure: Option<Seq<char>> },
    BackingOff,
    Starting,
    Done,
}

/// An event over views.
pub enum EventView {
    Begun,
    System(Signal),
    SystemClosed,
    SystemEmpty,
    User,
    UserClosed,
    UserEmpty,
    Handled(Option<Seq<char>>),
    Supervised(SupervisionStrategy),
    ChildRestarted(Option<Seq<char>>),
    ChildResumed(Option<Seq<char>>),
    PostStopped { ran_secs: u64 },
    BackedOff,
    Started(Option<Seq<char>>),
}

/// A runner over views.
#[verifier::ext_equal]
pub struct RunnerView {
    pub address: AddressView,
    pub parent: Option<AddressView>,
    pub props: PropsView,
    pub restart_count: u32,
    pub phase: PhaseView,
    pub state: StateView,
    pub alive: bool,
}

/// The view of an optional text.
pub open spec fn owned_text(s: Option<String>) -> Option<Seq<char>> {
    match s {
        Some(t) => Some(t@),
        None => None,
    }
}

impl View for Phase {
    type V = PhaseView;

    open spec fn view(&self) -> PhaseView {
        match self {
            Phase::Created => PhaseView::Created,
            Phase::Waiting => PhaseView::Waiting,
            Phase::Handling => PhaseView::Handling,
            Phase::PollingSystem => PhaseView::PollingSystem,
            Phase::PollingUser => PhaseView::PollingUser,
            Phase::Supervising { child, error, draining } => PhaseView::Supervising {
                child: child@,
                error: error@,
                draining: *draining,
            },
            Phase::RestartingChild { child, draining } => PhaseView::RestartingChild {
                child: child@,
                draining: *draining,
            },
            Phase::ResumingChild { child, draining } => PhaseView::ResumingChild {
                child: child@,
                draining: *draining,
            },
            Phase::Ending { failure } => PhaseView::Ending { failure: owned_text(*failure) },
            Phase::BackingOff => PhaseView::BackingOff,
            Phase::Starting => PhaseView::Starting,
            Phase::Done => PhaseView::Done,
        }
    }
}

impl View for Event {
    type V = EventView;

    open spec fn view(&self) -> EventView {
        match self {
            Event::Begun => EventView::Begun,
            Event::System(message) => EventView::System(message@),
            Event::SystemClosed => EventView::SystemClosed,
            Event::SystemEmpty => EventView::SystemEmpty,
            Event::User => EventView::User,
            Event::UserClosed => EventView::UserClosed,
            Event::UserEmpty => EventView::UserEmpty,
            Event::Handled(error) => EventView::Handled(owned_text(*error)),
            Event::Supervised(strategy) => EventView::Supervised(*strategy),
            Event::ChildRestarted(error) => EventView::ChildRestarted(owned_text(*error)),
            Event::ChildResumed(error) => EventView::ChildResumed(owned_text(*error)),
            Event::PostStopped { ran_secs } => EventView::PostStopped { ran_secs: *ran_secs },
            Event::BackedOff => EventView::BackedOff,
            Event::Started(error) => EventView::Started(owned_text(*error)),
        }
    }
}

impl View for ActorRunner {
    type V = RunnerView;

    open spec fn view(&self) -> RunnerView {
        RunnerView {
            address: self.address@,
            parent: match self.parent {
                Some(p) => Some(p@),
                None => None,
            },
            props: self.props@,
            restart_count: self.restart_count,
            phase: self.phase@,
            state: self.state@,
            alive: self.alive,
        }
    }
}

/// The view of an optional notice.
pub open spec fn notice_view(notice: Option<Notice>) -> Option<NoticeView> {
    match notice {
        Some(n) => Some(n@),
        None => None,
    }
}

/// The views of a list of states.
pub open spec fn states(list: Seq<ActorState>) -> Seq<StateView> {
    Seq::new(list.len(), |i: int| list[i]@)
}

/// The runner of an actor that has just been started for the first time.
pub open spec fn created(
    address: AddressView,
    parent: Option<AddressView>,
    props: PropsView,
) -> RunnerView {
    RunnerView {
        address,
        parent,
        props,
        restart_count: 0,
        phase: PhaseView::Created,
        state: StateView::Starting,
        alive: true,
    }
}

/// The phases in which each event can come.
pub open spec fn awaits(phase: PhaseView, e: EventView) -> bool {
    match e {
        EventView::Begun => phase is Created,
        EventView::System(_) => phase is Waiting || phase is PollingSystem,
        EventView::SystemClosed => phase is Waiting,
        EventView::SystemEmpty => phase is PollingSystem,
        EventView::User => phase is Waiting || phase is PollingUser,
        EventView::UserClosed => phase is Waiting,
        EventView::UserEmpty => phase is PollingUser,
        EventView::Handled(_) => phase is Handling,
        EventView::Supervised(_) => phase is Supervising,
        EventView::ChildRestarted(_) => phase is RestartingChild,
        EventView::ChildResumed(_) => phase is ResumingChild,
        EventView::PostStopped { .. } => phase is Ending,
        EventView::BackedOff => phase is BackingOff,
        EventView::Started(_) => phase is Starting,
    }
}

/// The failed child that a phase is about.
pub open spec fn child_in(phase: PhaseView) -> AddressView {
    match phase {
        PhaseView::Supervising { child, .. } => child,
        PhaseView::RestartingChild { child, .. } => child,
        PhaseView::ResumingChild { child, .. } => child,
        _ => arbitrary(),
    }
}

/// Whether messages are being drained in a phase that is about a failed child.
pub open spec fn is_draining(phase: PhaseView) -> bool {
    match phase {
        PhaseView::Supervising { draining, .. } => draining,
        PhaseView::RestartingChild { draining, .. } => draining,
        PhaseView::ResumingChild { draining, .. } => draining,
        _ => arbitrary(),
    }
}

/// What the parent is told of an actor that used up its restarts.
pub open spec fn exhausted_text(max_restarts: u32, error: Seq<char>) -> Seq<char> {
    "exhausted "@ + decimal(max_restarts as nat) + " restarts; last error: "@ + error
}

/// The runner in a phase of its running life.
pub open spec fn running(r: RunnerView, phase: PhaseView) -> RunnerView {
    RunnerView { phase, ..r }
}

/// The runner when it goes back to looking for signals: while messages are
/// drained it polls, otherwise it waits.
pub open spec fn looking(r: RunnerView, draining: bool) -> RunnerView {
    running(
        r,
        if draining {
            PhaseView::PollingSystem
        } else {
            PhaseView::Waiting
        },
    )
}

/// The runner that was told to stop.
pub open spec fn stopping(r: RunnerView) -> RunnerView {
    RunnerView { phase: PhaseView::Ending { failure: None }, state: StateView::Stopping, ..r }
}

/// The runner that is gone.
pub open spec fn gone(r: RunnerView) -> RunnerView {
    RunnerView { phase: PhaseView::Done, alive: false, ..r }
}

/// Whether a failure ends the actor: by its strategy, or because it has no
/// restart left.
pub open spec fn failure_ends(r: RunnerView) -> bool {
    match r.props.supervision_strategy {
        SupervisionStrategy::Stop => true,
        SupervisionStrategy::Escalate => true,
        SupervisionStrategy::Resume => false,
        SupervisionStrategy::Restart => r.restart_count >= r.props.max_restarts,
    }
}

/// The runner after a failure.
pub open spec fn after_failure(r: RunnerView) -> RunnerView {
    if failure_ends(r) {
        gone(r)
    } else if r.props.supervision_strategy == SupervisionStrategy::Resume {
        RunnerView { phase: PhaseView::Waiting, state: StateView::Running, ..r }
    } else {
        let n = (r.restart_count + 1) as u32;
        RunnerView {
            restart_count: n,
            phase: PhaseView::BackingOff,
            state: StateView::BackingOff(n),
            ..r
        }
    }
}

/// What the parent is told of a failure that ends the actor.
pub open spec fn failure_report(r: RunnerView, error: Seq<char>) -> Signal {
    Signal::ChildFailed {
        child: r.address,
        error: if r.props.supervision_strategy == SupervisionStrategy::Restart {
            exhausted_text(r.props.max_restarts, error)
        } else {
            error
        },
    }
}

/// The runner when its actor has cleaned up: an actor that ran for the whole
/// restart window has all its restarts again.
pub open spec fn rested(r: RunnerView, ran_secs: u64) -> RunnerView {
    RunnerView {
        restart_count: if ran_secs >= r.props.restart_window_secs {
            0
        } else {
            r.restart_count
        },
        ..r
    }
}

/// The runner with this state.
pub open spec fn in_state(r: RunnerView, state: StateView) -> RunnerView {
    RunnerView { state, ..r }
}

/// The runner after an event.
pub open spec fn next(r: RunnerView, e: EventView) -> RunnerView {
    match e {
        EventView::Begun => RunnerView {
            phase: PhaseView::Waiting,
            state: StateView::Running,
            ..r
        },
        EventView::System(signal) => match signal {
            Signal::PoisonPill => stopping(r),
            Signal::StopSelf => stopping(r),
            Signal::ActorStopped { .. } => r,
            Signal::ChildFailed { child, error } => running(
                r,
                PhaseView::Supervising { child, error, draining: r.phase is PollingSystem },
            ),
        },
        EventView::SystemClosed => stopping(r),
        EventView::SystemEmpty => running(r, PhaseView::PollingUser),
        EventView::User => running(r, PhaseView::Handling),
        EventView::UserClosed => stopping(r),
        EventView::UserEmpty => running(r, PhaseView::Waiting),
        EventView::Handled(error) => match error {
            Some(text) => if r.props.supervision_strategy == SupervisionStrategy::Resume {
                running(r, PhaseView::PollingSystem)
            } else {
                RunnerView {
                    phase: PhaseView::Ending { failure: Some(text) },
                    state: StateView::Failed(text),
                    ..r
                }
            },
            None => running(r, PhaseView::PollingSystem),
        },
        EventView::Supervised(strategy) => match strategy {
            SupervisionStrategy::Stop => looking(r, is_draining(r.phase)),
            SupervisionStrategy::Escalate => looking(r, is_draining(r.phase)),
            SupervisionStrategy::Restart => running(
                r,
                PhaseView::RestartingChild { child: child_in(r.phase), draining: is_draining(r.phase) },
            ),
            SupervisionStrategy::Resume => running(
                r,
                PhaseView::ResumingChild { child: child_in(r.phase), draining: is_draining(r.phase) },
            ),
        },
        EventView::ChildRestarted(_) => looking(r, is_draining(r.phase)),
        EventView::ChildResumed(_) => looking(r, is_draining(r.phase)),
        EventView::PostStopped { ran_secs } => match r.phase->failure {
            None => gone(in_state(rested(r, ran_secs), StateView::Stopped)),
            Some(_) => after_failure(rested(r, ran_secs)),
        },
        EventView::BackedOff => RunnerView {
            phase: PhaseView::Starting,
            state: StateView::Starting,
            ..r
        },
        EventView::Started(error) => match error {
            None => RunnerView { phase: PhaseView::Waiting, state: StateView::Running, ..r },
            Some(text) => after_failure(in_state(r, StateView::Failed(text))),
        },
    }
}

/// The last that the actor has its parent told, if the event ends it.
pub open spec fn farewell(r: RunnerView, e: EventView) -> Option<Signal> {
    match e {
        EventView::PostStopped { ran_secs } => match r.phase->failure {
            None => Some(Signal::ActorStopped { address: r.address }),
            Some(error) => if failure_ends(rested(r, ran_secs)) {
                Some(failure_report(r, error))
            } else {
                None
            },
        },
        EventView::Started(Some(error)) => if failure_ends(r) {
            Some(failure_report(r, error))
        } else {
            None
        },
        _ => None,
    }
}

/// The states that a failure has published.
pub open spec fn failure_states(r: RunnerView) -> Seq<StateView> {
    if failure_ends(r) {
        seq![]
    } else {
        seq![after_failure(r).state]
    }
}

/// The states that an event has published.
pub open spec fn published(r: RunnerView, e: EventView) -> Seq<StateView> {
    match e {
        EventView::Begun => seq![StateView::Running],
        EventView::System(Signal::PoisonPill) => seq![StateView::Stopping],
        EventView::System(Signal::StopSelf) => seq![StateView::Stopping],
        EventView::SystemClosed => seq![StateView::Stopping],
        EventView::UserClosed => seq![StateView::Stopping],
        EventView::Handled(Some(text)) => if r.props.supervision_strategy
            == SupervisionStrategy::Resume {
            seq![]
        } else {
            seq![StateView::Failed(text)]
        },
        EventView::PostStopped { ran_secs } => match r.phase->failure {
            None => seq![StateView::Stopped],
            Some(_) => failure_states(rested(r, ran_secs)),
        },
        EventView::BackedOff => seq![StateView::Starting],
        EventView::Started(None) => seq![StateView::Running],
        EventView::Started(Some(text)) => seq![StateView::Failed(text)] + failure_states(r),
        _ => seq![],
    }
}

/// The children after an event: one that stopped is forgotten, and so is one that
/// failed, unless it is restarted or resumed and that succeeds.
pub open spec fn children_after(
    r: RunnerView,
    e: EventView,
    children: Map<Seq<char>, Arc<AnyMailbox>>,
) -> Map<Seq<char>, Arc<AnyMailbox>> {
    match e {
        EventView::System(Signal::ActorStopped { address }) => without_address(
            r.address,
            children,
            address,
        ),
        EventView::Supervised(SupervisionStrategy::Stop) => without_address(
            r.address,
            children,
            child_in(r.phase),
        ),
        EventView::Supervised(SupervisionStrategy::Escalate) => without_address(
            r.address,
            children,
            child_in(r.phase),
        ),
        EventView::ChildRestarted(Some(_)) => without_address(r.address, children, child_in(r.phase)),
        EventView::ChildResumed(Some(_)) => without_address(r.address, children, child_in(r.phase)),
        _ => children,
    }
}

/// How the registry and the actor's mailbox change with an event: at the start of
/// a fresh instance the actor is registered as a new incarnation, and at no other
/// event does the mailbox change.
pub open spec fn registry_moves<M: Message>(
    r: RunnerView,
    e: EventView,
    before: Map<Place, Arc<RegistryEntry>>,
    after: Map<Place, Arc<RegistryEntry>>,
    was: Arc<Mailbox<M>>,
    now: Arc<Mailbox<M>>,
) -> bool {
    if e is BackedOff {
        renewal_of(*now, *was) && registered_at(before, after, r.address, now)
    } else {
        now == was && after == registry_after(r, e, before)
    }
}

/// The registry after an event that starts no fresh instance: an actor that ends
/// is taken out.
pub open spec fn registry_after(
    r: RunnerView,
    e: EventView,
    registry: Map<Place, Arc<RegistryEntry>>,
) -> Map<Place, Arc<RegistryEntry>> {
    if farewell(r, e) is Some {
        registry.remove(place(r.address))
    } else {
        registry
    }
}

/// A signal for the parent, if there is one and it is registered.
pub open spec fn to_parent(
    r: RunnerView,
    registry: Map<Place, Arc<RegistryEntry>>,
    message: Signal,
) -> Option<NoticeView> {
    match r.parent {
        Some(p) => if registry.contains_key(place(p)) {
            Some(NoticeView { to: registry[place(p)].mailbox, message })
        } else {
            None
        },
        None => None,
    }
}

/// The signal that an event has sent: what the actor has its parent told when
/// it ends, or a failure that it escalates.
pub open spec fn noticed(
    r: RunnerView,
    e: EventView,
    registry: Map<Place, Arc<RegistryEntry>>,
) -> Option<NoticeView> {
    match farewell(r, e) {
        Some(message) => to_parent(r, registry_after(r, e, registry), message),
        None => if e == EventView::Supervised(SupervisionStrategy::Escalate) {
            to_parent(
                r,
                registry,
                Signal::ChildFailed { child: child_in(r.phase), error: r.phase->error },
            )
        } else {
            None
        },
    }
}

/// What is to be done in each phase.
pub open spec fn action_in(r: RunnerView) -> Action {
    match r.phase {
        PhaseView::Created => Action::Begin,
        PhaseView::Waiting => Action::AwaitEither,
        PhaseView::Handling => Action::Handle,
        PhaseView::PollingSystem => Action::PollSystem,
        PhaseView::PollingUser => Action::PollUser,
        PhaseView::Supervising { .. } => Action::Supervise,
        PhaseView::RestartingChild { .. } => Action::RestartChild,
        PhaseView::ResumingChild { .. } => Action::ResumeChild,
        PhaseView::Ending { .. } => Action::PostStop,
        PhaseView::BackingOff => Action::Sleep {
            attempt: r.restart_count,
            ms: backoff_ms(
                r.restart_count,
                r.props.backoff_base_ms,
                r.props.backoff_max_ms,
            ) as u64,
        },
        PhaseView::Starting => Action::Start,
        PhaseView::Done => Action::Exit,
    }
}

/// What handling a message gave: nothing, or the panic with this payload.
pub fn dispatch_one(
    panicked: bool,
    payload_str: Option<&str>,
    payload_string: Option<&str>,
) -> (res: Result<(), ActorError>)
    ensures
        unit_result(res) == if panicked {
            Err::<(), ActorFault>(
                ActorFault::Panic(
                    panic_text(text_option(payload_str), text_option(payload_string)),
                ),
            )
        } else {
            Ok(())
        },
{
    if panicked {
        Err(ActorError::Panic(crate::error::extract_panic_message(payload_str, payload_string)))
    } else {
        Ok(())
    }
}

impl Phase {
    /// The phase in which signals are looked for.
    fn looking(draining: bool) -> (phase: Phase)
        ensures
            phase@ == if draining {
                PhaseView::PollingSystem
            } else {
                PhaseView::Waiting
            },
    {
        if draining {
            Phase::PollingSystem
        } else {
            Phase::Waiting
        }
    }
}

impl ActorRunner {
    /// A runner for an actor whose first instance has been started.
    pub fn new(address: ActorAddress, parent: Option<ActorAddress>, props: ActorProps) -> (runner:
        Self)
        ensures
            runner@ == created(
                address@,
                match parent {
                    Some(p) => Some(p@),
                    None => None,
                },
                props@,
            ),
    {
        ActorRunner {
            address,
            parent,
            props,
            restart_count: 0,
            phase: Phase::Created,
            state: ActorState::Starting,
            alive: true,
        }
    }

    /// Whether the event can come now.
    pub fn awaits(&self, event: &Event) -> (yes: bool)
        ensures
            yes == awaits(self@.phase, event@),
    {
        match (event, &self.phase) {
            (Event::Begun, Phase::Created) => true,
            (Event::System(_), Phase::Waiting) => true,
            (Event::System(_), Phase::PollingSystem) => true,
            (Event::SystemClosed, Phase::Waiting) => true,
            (Event::SystemEmpty, Phase::PollingSystem) => true,
            (Event::User, Phase::Waiting) => true,
            (Event::User, Phase::PollingUser) => true,
            (Event::UserClosed, Phase::Waiting) => true,
            (Event::UserEmpty, Phase::PollingUser) => true,
            (Event::Handled(_), Phase::Handling) => true,
            (Event::Supervised(_), Phase::Supervising { .. }) => true,
            (Event::ChildRestarted(_), Phase::RestartingChild { .. }) => true,
            (Event::ChildResumed(_), Phase::ResumingChild { .. }) => true,
            (Event::PostStopped { .. }, Phase::Ending { .. }) => true,
            (Event::BackedOff, Phase::BackingOff) => true,
            (Event::Started(_), Phase::Starting) => true,
            _ => false,
        }
    }

    /// What is to be done now.
    pub fn action(&self) -> (action: Action)
        ensures
            action == action_in(self@),
    {
        match &self.phase {
            Phase::Created => Action::Begin,
            Phase::Waiting => Action::AwaitEither,
            Phase::Handling => Action::Handle,
            Phase::PollingSystem => Action::PollSystem,
            Phase::PollingUser => Action::PollUser,
            Phase::Supervising { .. } => Action::Supervise,
            Phase::RestartingChild { .. } => Action::RestartChild,
            Phase::ResumingChild { .. } => Action::ResumeChild,
            Phase::Ending { .. } => Action::PostStop,
            Phase::BackingOff => Action::Sleep {
                attempt: self.restart_count,
                ms: self.props.compute_backoff(self.restart_count),
            },
            Phase::Starting => Action::Start,
            Phase::Done => Action::Exit,
        }
    }

    /// The failed child on which the actor is to decide, with the error that it
    /// is shown.
    pub fn failed_child(&self) -> (res: Option<(&ActorAddress, ActorError)>)
        ensures
            match res {
                Some((child, error)) => self@.phase matches PhaseView::Supervising {
                    child: c,
                    error: text,
                    ..
                } && child@ == c && error@ == ActorFault::ActorCreationFailed(text),
                None => !(self@.phase is Supervising),
            },
    {
        match &self.phase {
            Phase::Supervising { child, error, .. } => Some(
                (child, ActorError::ActorCreationFailed(error.clone())),
            ),
            _ => None,
        }
    }

    /// The failed child that is to be restarted or resumed.
    pub fn returning_child(&self) -> (res: Option<&ActorAddress>)
        ensures
            match res {
                Some(child) => match self@.phase {
                    PhaseView::RestartingChild { child: c, .. } => child@ == c,
                    PhaseView::ResumingChild { child: c, .. } => child@ == c,
                    _ => false,
                },
                None => !(self@.phase is RestartingChild) && !(self@.phase is ResumingChild),
            },
    {
        match &self.phase {
            Phase::RestartingChild { child, .. } => Some(child),
            Phase::ResumingChild { child, .. } => Some(child),
            _ => None,
        }
    }

    /// A signal for the parent, if there is one and it is registered.
    fn notice_parent(&self, registry: &Registry, message: SystemMessage) -> (notice: Option<Notice>)
        ensures
            notice_view(notice) == to_parent(self@, registry@, message@),
    {
        match &self.parent {
            Some(parent) => match registry.get(parent) {
                Some(entry) => Some(Notice { to: Arc::clone(&entry.mailbox), message }),
                None => None,
            },
            None => None,
        }
    }

    /// End the actor: it is not alive any more and leaves the registry, and its
    /// parent is told.
    fn leave(
        &mut self,
        mailbox: &AnyMailbox,
        registry: &mut Registry,
        message: SystemMessage,
    ) -> (notice: Option<Notice>)
        ensures
            flag_written(*mailbox.alive, false),
            final(self)@ == gone(old(self)@),
            final(registry)@ == old(registry)@.remove(place(old(self)@.address)),
            notice_view(notice) == to_parent(
                old(self)@,
                old(registry)@.remove(place(old(self)@.address)),
                message@,
            ),
    {
        self.alive = false;
        self.phase = Phase::Done;
        mailbox.mark_dead();
        registry.remove(&self.address);
        self.notice_parent(registry, message)
    }

    /// Decide on a failure of the actor: it ends, goes on, or waits for its
    /// restart.
    fn handle_failure(
        &mut self,
        error: &str,
        mailbox: &AnyMailbox,
        registry: &mut Registry,
    ) -> (res: (Vec<ActorState>, Option<Notice>))
        ensures
            failure_ends(old(self)@) ==> flag_written(*mailbox.alive, false),
            final(self)@ == after_failure(old(self)@),
            states(res.0@) == failure_states(old(self)@),
            final(registry)@ == if failure_ends(old(self)@) {
                old(registry)@.remove(place(old(self)@.address))
            } else {
                old(registry)@
            },
            notice_view(res.1) == if failure_ends(old(self)@) {
                to_parent(old(self)@, final(registry)@, failure_report(old(self)@, error@))
            } else {
                None
            },
    {
        let mut publish: Vec<ActorState> = Vec::new();
        let notice: Option<Notice> = match self.props.supervision_strategy {
            SupervisionStrategy::Stop | SupervisionStrategy::Escalate => {
                let message: SystemMessage = SystemMessage::ChildFailed {
                    child: self.address.clone(),
                    error: error.to_owned(),
                };
                self.leave(mailbox, registry, message)
            },
            SupervisionStrategy::Resume => {
                self.phase = Phase::Waiting;
                self.state = ActorState::Running;
                publish.push(ActorState::Running);
                None
            },
            SupervisionStrategy::Restart => {
                if self.restart_count >= self.props.max_restarts {
                    let limit: String = decimal_text(self.props.max_restarts as u64);
                    let text: String = "exhausted ".to_owned().concat(limit.as_str()).concat(
                        " restarts; last error: ",
                    ).concat(error);
                    let message: SystemMessage = SystemMessage::ChildFailed {
                        child: self.address.clone(),
                        error: text,
                    };
                    self.leave(mailbox, registry, message)
                } else {
                    self.restart_count = self.restart_count + 1;
                    self.phase = Phase::BackingOff;
                    self.state = ActorState::BackingOff(self.restart_count);
                    publish.push(ActorState::BackingOff(self.restart_count));
                    None
                }
            },
        };
        assert(states(publish@) =~= failure_states(old(self)@));
        (publish, notice)
    }

    /// Do as the actor decided on its failed child. One that is stopped is
    /// forgotten, and so is one whose failure is escalated, which goes to the
    /// parent. One that is restarted or resumed stays until that is done.
    pub fn apply_child_supervision(
        &mut self,
        strategy: SupervisionStrategy,
        children: &mut Children,
        registry: &Registry,
    ) -> (notice: Option<Notice>)
        requires
            old(self)@.phase is Supervising,
        ensures
            final(self)@ == next(old(self)@, EventView::Supervised(strategy)),
            final(children)@ == children_after(
                old(self)@,
                EventView::Supervised(strategy),
                old(children)@,
            ),
            notice_view(notice) == noticed(
                old(self)@,
                EventView::Supervised(strategy),
                registry@,
            ),
    {
        let mut notice: Option<Notice> = None;
        let mut after: Phase = Phase::Waiting;
        match &self.phase {
            Phase::Supervising { child, error, draining } => {
                match strategy {
                    SupervisionStrategy::Stop => {
                        after = Phase::looking(*draining);
                        children.remove_child_by_address(&self.address, child);
                    },
                    SupervisionStrategy::Restart => {
                        after = Phase::RestartingChild { child: child.clone(), draining: *draining };
                    },
                    SupervisionStrategy::Resume => {
                        after = Phase::ResumingChild { child: child.clone(), draining: *draining };
                    },
                    SupervisionStrategy::Escalate => {
                        let message: SystemMessage = SystemMessage::ChildFailed {
                            child: child.clone(),
                            error: error.clone(),
                        };
                        notice = self.notice_parent(registry, message);
                        after = Phase::looking(*draining);
                        children.remove_child_by_address(&self.address, child);
                    },
                }
            },
            _ => {},
        }
        self.phase = after;
        notice
    }

    /// Go on when a failed child is back, or forget it if it did not come back.
    fn child_returned(&mut self, failed: bool, children: &mut Children)
        requires
            old(self)@.phase is RestartingChild || old(self)@.phase is ResumingChild,
        ensures
            final(self)@ == looking(old(self)@, is_draining(old(self)@.phase)),
            final(children)@ == if failed {
                without_address(old(self)@.address, old(children)@, child_in(old(self)@.phase))
            } else {
                old(children)@
            },
    {
        let mut after: Phase = Phase::Waiting;
        match &self.phase {
            Phase::RestartingChild { child, draining } => {
                after = Phase::looking(*draining);
                if failed {
                    children.remove_child_by_address(&self.address, child);
                }
            },
            Phase::ResumingChild { child, draining } => {
                after = Phase::looking(*draining);
                if failed {
                    children.remove_child_by_address(&self.address, child);
                }
            },
            _ => {},
        }
        self.phase = after;
    }

    /// Stop without a failure.
    fn begin_stop(&mut self, publish: &mut Vec<ActorState>)
        ensures
            final(self)@ == stopping(old(self)@),
            final(publish)@ == old(publish)@.push(ActorState::Stopping),
    {
        self.state = ActorState::Stopping;
        publish.push(ActorState::Stopping);
        self.phase = Phase::Ending { failure: None };
    }

    /// Take an event in, and say what follows from it.
    pub fn step<M: Message>(
        &mut self,
        event: Event,
        mailbox: &mut Arc<Mailbox<M>>,
        children: &mut Children,
        registry: &mut Registry,
    ) -> (step: Step)
        requires
            awaits(old(self)@.phase, event@),
        ensures
            final(self)@ == next(old(self)@, event@),
            final(children)@ == children_after(old(self)@, event@, old(children)@),
            registry_moves(
                old(self)@,
                event@,
                old(registry)@,
                final(registry)@,
                *old(mailbox),
                *final(mailbox),
            ),
            farewell(old(self)@, event@) is Some ==> flag_written(*old(mailbox).any.alive, false),
            states(step.publish@) == published(old(self)@, event@),
            notice_view(step.notice) == noticed(old(self)@, event@, old(registry)@),
            step.action == action_in(next(old(self)@, event@)),
    {
        let mut publish: Vec<ActorState> = Vec::new();
        let mut notice: Option<Notice> = None;
        match event {
            Event::Begun => {
                self.phase = Phase::Waiting;
                self.state = ActorState::Running;
                publish.push(ActorState::Running);
            },
            Event::System(message) => {
                match message {
                    SystemMessage::PoisonPill => self.begin_stop(&mut publish),
                    SystemMessage::StopSelf => self.begin_stop(&mut publish),
                    SystemMessage::ActorStopped { address } => {
                        children.remove_child_by_address(&self.address, &address);
                    },
                    SystemMessage::ChildFailed { child, error } => {
                        let draining: bool = matches!(&self.phase, Phase::PollingSystem);
                        self.phase = Phase::Supervising { child, error, draining };
                    },
                }
            },
            Event::SystemClosed => self.begin_stop(&mut publish),
            Event::SystemEmpty => {
                self.phase = Phase::PollingUser;
            },
            Event::User => {
                self.phase = Phase::Handling;
            },
            Event::UserClosed => self.begin_stop(&mut publish),
            Event::UserEmpty => {
                self.phase = Phase::Waiting;
            },
            Event::Handled(error) => {
                match error {
                    Some(text) => {
                        if self.props.supervision_strategy == SupervisionStrategy::Resume {
                            self.phase = Phase::PollingSystem;
                        } else {
                            self.state = ActorState::Failed(text.clone());
                            publish.push(ActorState::Failed(text.clone()));
                            self.phase = Phase::Ending { failure: Some(text) };
                        }
                    },
                    None => {
                        self.phase = Phase::PollingSystem;
                    },
                }
            },
            Event::Supervised(strategy) => {
                notice = self.apply_child_supervision(strategy, children, registry);
            },
            Event::ChildRestarted(error) => self.child_returned(error.is_some(), children),
            Event::ChildResumed(error) => self.child_returned(error.is_some(), children),
            Event::PostStopped { ran_secs } => {
                if ran_secs >= self.props.restart_window_secs {
                    self.restart_count = 0;
                }
                let failure: Option<String> = match &self.phase {
                    Phase::Ending { failure: Some(text) } => Some(text.clone()),
                    _ => None,
                };
                match failure {
                    None => {
                        self.state = ActorState::Stopped;
                        publish.push(ActorState::Stopped);
                        let message: SystemMessage = SystemMessage::ActorStopped {
                            address: self.address.clone(),
                        };
                        notice = self.leave(&mailbox.any, registry, message);
                    },
                    Some(text) => {
                        let (said, told) = self.handle_failure(
                            text.as_str(),
                            &mailbox.any,
                            registry,
                        );
                        publish = said;
                        notice = told;
                    },
                }
            },
            Event::BackedOff => {
                let fresh: Arc<Mailbox<M>> = registry.renew(&self.address, mailbox);
                *mailbox = fresh;
                self.phase = Phase::Starting;
                self.state = ActorState::Starting;
                publish.push(ActorState::Starting);
            },
            Event::Started(error) => {
                match error {
                    None => {
                        self.phase = Phase::Waiting;
                        self.state = ActorState::Running;
                        publish.push(ActorState::Running);
                    },
                    Some(text) => {
                        self.state = ActorState::Failed(text.clone());
                        let (mut said, told) = self.handle_failure(
                            text.as_str(),
                            &mailbox.any,
                            registry,
                        );
                        publish.push(ActorState::Failed(text));
                        publish.append(&mut said);
                        notice = told;
                    },
                }
            },
        }
        assert(states(publish@) =~= published(old(self)@, event@));
        let action: Action = self.action();
        Step { publish, notice, action }
    }
}

} // verus!
