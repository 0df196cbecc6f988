//! What travels between actors.

use crate::address::{ActorAddress, AddressView};
use crate::erased::Erased;
use crate::incarnation::IncarnationId;
use vstd::prelude::*;

verus! {

/// A message that an actor accepts.
pub trait Message: Send + Sync + std::fmt::Debug + 'static {
    /// The name of the message's type.
    fn type_id(&self) -> &'static str;
}

/// Names one incarnation of an actor: where it lives and which one it is.
#[derive(Debug)]
pub struct ActorIdentity {
    pub address: ActorAddress,
    pub incarnation_id: IncarnationId,
}

/// An identity as the view of its address and its id.
#[verifier::ext_equal]
pub struct IdentityView {
    pub address: AddressView,
    pub incarnation_id: IncarnationId,
}

impl View for ActorIdentity {
    type V = IdentityView;

    open spec fn view(&self) -> IdentityView {
        IdentityView { address: self.address@, incarnation_id: self.incarnation_id }
    }
}

/// Envelope of a message on its way to an actor.
///
/// A message that waits for a reply carries its reply channel itself, so there
/// is one kind of envelope.
#[derive(Debug)]
pub enum ActorMessage<M: Message> {
    /// A message, and a reference to its sender if it has one.
    Tell { message: M, sender: Option<Erased> },
}

/// Signals between actors, apart from the messages that users define.
#[derive(Debug)]
pub enum SystemMessage {
    /// Stop after the message in hand.
    PoisonPill,
    /// The actor asked itself to stop.
    StopSelf,
    /// A child has stopped and can be forgotten.
    ActorStopped { address: ActorAddress },
    /// A child has failed and has ended.
    ChildFailed { child: ActorAddress, error: String },
}

/// A system message over views.
pub enum Signal {
    PoisonPill,
    StopSelf,
    ActorStopped { address: AddressView },
    ChildFailed { child: AddressView, error: Seq<char> },
}

impl View for SystemMessage {
    type V = Signal;

    open spec fn view(&self) -> Signal {
        match self {
            SystemMessage::PoisonPill => Signal::PoisonPill,
            SystemMessage::StopSelf => Signal::StopSelf,
            SystemMessage::ActorStopped { address } => Signal::ActorStopped { address: address@ },
            SystemMessage::ChildFailed { child, error } => Signal::ChildFailed {
                child: child@,
                error: error@,
            },
        }
    }
}

impl PartialEq for SystemMessage {
    fn eq(&self, other: &Self) -> (same: bool) {
        match (self, other) {
            (SystemMessage::PoisonPill, SystemMessage::PoisonPill) => true,
            (SystemMessage::StopSelf, SystemMessage::StopSelf) => true,
            (
                SystemMessage::ActorStopped { address: a },
                SystemMessage::ActorStopped { address: b },
            ) => *a == *b,
            (
                SystemMessage::ChildFailed { child: a, error: x },
                SystemMessage::ChildFailed { child: b, error: y },
            ) => *a == *b && *x == *y,
            _ => false,
        }
    }
}

impl vstd::std_specs::cmp::PartialEqSpecImpl for SystemMessage {
    open spec fn obeys_eq_spec() -> bool {
        true
    }

    open spec fn eq_spec(&self, other: &Self) -> bool {
        self@ == other@
    }
}

impl Eq for SystemMessage {

}

/// Where an actor stands in its life.
#[derive(Debug)]
pub enum ActorState {
    /// `pre_start` is running.
    Starting,
    /// Accepting and processing messages.
    Running,
    /// Received a stop signal.
    Stopping,
    /// Fully stopped; no more messages will be processed.
    Stopped,
    /// Panicked, or returned an error.
    Failed(String),
    /// Waits before the restart with this number.
    BackingOff(u32),
}

/// A state with its text as a view.
pub enum StateView {
    Starting,
    Running,
    Stopping,
    Stopped,
    Failed(Seq<char>),
    BackingOff(u32),
}

impl View for ActorState {
    type V = StateView;

    open spec fn view(&self) -> StateView {
        match self {
            ActorState::Starting => StateView::Starting,
            ActorState::Running => StateView::Running,
            ActorState::Stopping => StateView::Stopping,
            ActorState::Stopped => StateView::Stopped,
            ActorState::Failed(text) => StateView::Failed(text@),
            ActorState::BackingOff(n) => StateView::BackingOff(*n),
        }
    }
}

impl Clone for ActorState {
    fn clone(&self) -> (copy: Self)
        ensures
            copy@ == self@,
    {
        match self {
            ActorState::Starting => ActorState::Starting,
            ActorState::Running => ActorState::Running,
            ActorState::Stopping => ActorState::Stopping,
            ActorState::Stopped => ActorState::Stopped,
            ActorState::Failed(text) => ActorState::Failed(text.clone()),
            ActorState::BackingOff(n) => ActorState::BackingOff(*n),
        }
    }
}

impl PartialEq for ActorState {
    fn eq(&self, other: &Self) -> (same: bool) {
        match (self, other) {
            (ActorState::Starting, ActorState::Starting) => true,
            (ActorState::Running, ActorState::Running) => true,
            (ActorState::Stopping, ActorState::Stopping) => true,
            (ActorState::Stopped, ActorState::Stopped) => true,
            (ActorState::Failed(a), ActorState::Failed(b)) => *a == *b,
            (ActorState::BackingOff(a), ActorState::BackingOff(b)) => *a == *b,
            _ => false,
        }
    }
}

impl vstd::std_specs::cmp::PartialEqSpecImpl for ActorState {
    open spec fn obeys_eq_spec() -> bool {
        true
    }

    open spec fn eq_spec(&self, other: &Self) -> bool {
        self@ == other@
    }
}

impl Eq for ActorState {

}

/// The view of a signal or a state is of the same kind and holds the same
/// address, text or number.
pub proof fn law_signals_and_states_are_shown_as_they_are(
    message: &SystemMessage,
    state: &ActorState,
)
    ensures
        match message {
            SystemMessage::PoisonPill => message@ == Signal::PoisonPill,
            SystemMessage::StopSelf => message@ == Signal::StopSelf,
            SystemMessage::ActorStopped { address } => message@ == (Signal::ActorStopped {
                address: address@,
            }),
            SystemMessage::ChildFailed { child, error } => message@ == (Signal::ChildFailed {
                child: child@,
                error: error@,
            }),
        },
        match state {
            ActorState::Starting => state@ == StateView::Starting,
            ActorState::Running => state@ == StateView::Running,
            ActorState::Stopping => state@ == StateView::Stopping,
            ActorState::Stopped => state@ == StateView::Stopped,
            ActorState::Failed(text) => state@ == StateView::Failed(text@),
            ActorState::BackingOff(n) => state@ == StateView::BackingOff(*n),
        },
{
}

/// Two signals are equal exactly when they are of one kind and hold the same
/// address and text, and two states when they are of one kind and hold the same
/// text or number.
pub proof fn law_equal_signals_and_states_say_the_same(
    a: &SystemMessage,
    b: &SystemMessage,
    x: &ActorState,
    y: &ActorState,
)
    ensures
        vstd::std_specs::cmp::PartialEqSpec::eq_spec(a, b) <==> match (a, b) {
            (SystemMessage::PoisonPill, SystemMessage::PoisonPill) => true,
            (SystemMessage::StopSelf, SystemMessage::StopSelf) => true,
            (
                SystemMessage::ActorStopped { address: m },
                SystemMessage::ActorStopped { address: n },
            ) => m@ == n@,
            (
                SystemMessage::ChildFailed { child: m, error: s },
                SystemMessage::ChildFailed { child: n, error: t },
            ) => m@ == n@ && s@ == t@,
            _ => false,
        },
        vstd::std_specs::cmp::PartialEqSpec::eq_spec(x, y) <==> match (x, y) {
            (ActorState::Starting, ActorState::Starting) => true,
            (ActorState::Running, ActorState::Running) => true,
            (ActorState::Stopping, ActorState::Stopping) => true,
            (ActorState::Stopped, ActorState::Stopped) => true,
            (ActorState::Failed(s), ActorState::Failed(t)) => s@ == t@,
            (ActorState::BackingOff(m), ActorState::BackingOff(n)) => *m == *n,
            _ => false,
        },
{
}

} // verus!
