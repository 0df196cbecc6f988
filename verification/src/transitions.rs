//! What each event does to an actor and to those around it.

use crate::address::{ActorAddress, AddressView};
use crate::children::Children;
use crate::erased::erased_as;
use crate::error::{ActorError, ActorFault};
use crate::incarnation::{drawn, is_version_4};
use crate::mailbox::{flag_written, AnyMailbox, Mailbox, Notice, NoticeView};
use crate::message::{ActorMessage, Message, Signal, StateView, SystemMessage};
use crate::props::{ActorProps, PropsView, SupervisionStrategy};
use crate::registry::{Registry, RegistryEntry};
use crate::runner::{
    action_in, awaits, children_after, created, dispatch_one, farewell, next, noticed, published,
    registry_moves, states, Action, ActorRunner, Event, EventView, Phase, PhaseView, RunnerView,
    Step,
};
use crate::text::decimal;
use std::sync::Arc;
use tokio::sync::mpsc;
use vstd::arithmetic::power2::pow2;
use vstd::prelude::*;

verus! {

/// A new actor is at the address, under the parent and with the props that it
/// was given. It has used no restart, it is alive, and it has yet to begin.
pub proof fn law_new_actors_have_yet_to_begin(
    address: AddressView,
    parent: Option<AddressView>,
    props: PropsView,
)
    ensures
        created(address, parent, props).address == address,
        created(address, parent, props).parent == parent,
        created(address, parent, props).props == props,
        created(address, parent, props).restart_count == 0,
        created(address, parent, props).phase is Created,
        created(address, parent, props).state == StateView::Starting,
        created(address, parent, props).alive,
{
}

/// Each phase waits for its own events: an idle actor for either channel, an
/// actor that looks for more work for the channel that it looks at, and an actor
/// that waits for something to be done for the end of that.
pub proof fn law_each_phase_has_its_events(phase: PhaseView, e: EventView)
    ensures
        awaits(phase, e) <==> match phase {
            PhaseView::Created => e is Begun,
            PhaseView::Waiting => e is System || e is SystemClosed || e is User || e is UserClosed,
            PhaseView::Handling => e is Handled,
            PhaseView::PollingSystem => e is System || e is SystemEmpty,
            PhaseView::PollingUser => e is User || e is UserEmpty,
            PhaseView::Supervising { .. } => e is Supervised,
            PhaseView::RestartingChild { .. } => e is ChildRestarted,
            PhaseView::ResumingChild { .. } => e is ChildResumed,
            PhaseView::Ending { .. } => e is PostStopped,
            PhaseView::BackingOff => e is BackedOff,
            PhaseView::Starting => e is Started,
            PhaseView::Done => false,
        },
{
}

/// In each phase the actor asks for what the phase waits for.
pub proof fn law_actions_fit_the_phase(r: RunnerView)
    ensures
        action_in(r) is Begin <==> r.phase is Created,
        action_in(r) is AwaitEither <==> r.phase is Waiting,
        action_in(r) is Handle <==> r.phase is Handling,
        action_in(r) is PollSystem <==> r.phase is PollingSystem,
        action_in(r) is PollUser <==> r.phase is PollingUser,
        action_in(r) is Supervise <==> r.phase is Supervising,
        action_in(r) is RestartChild <==> r.phase is RestartingChild,
        action_in(r) is ResumeChild <==> r.phase is ResumingChild,
        action_in(r) is PostStop <==> r.phase is Ending,
        action_in(r) is Sleep <==> r.phase is BackingOff,
        action_in(r) is Start <==> r.phase is Starting,
        action_in(r) is Exit <==> r.phase is Done,
{
}

/// The delay before a restart is the base delay times two to the number of
/// restarts before it, and no longer than the longest delay. It is asked for
/// under the number of the restart.
pub proof fn law_restarts_are_delayed_exponentially(r: RunnerView)
    requires
        r.phase is BackingOff,
        r.restart_count >= 1,
    ensures
        action_in(r) matches Action::Sleep { attempt, ms } && attempt == r.restart_count && ms
            <= r.props.backoff_max_ms && ms <= r.props.backoff_base_ms * pow2(
            (r.restart_count - 1) as nat,
        ) && (ms == r.props.backoff_max_ms || ms == r.props.backoff_base_ms * pow2(
            (r.restart_count - 1) as nat,
        )),
{
    let p = pow2((r.restart_count - 1) as nat);
    let base = r.props.backoff_base_ms;
    assert(0 <= base * p) by (nonlinear_arith);
}

/// Before the first restart the delay is the base delay, or the longest delay
/// where that is shorter.
pub proof fn law_first_restarts_wait_the_base_delay(r: RunnerView)
    requires
        r.phase is BackingOff,
        r.restart_count == 1,
    ensures
        r.props.backoff_base_ms <= r.props.backoff_max_ms ==> action_in(r) == (Action::Sleep {
            attempt: 1,
            ms: r.props.backoff_base_ms,
        }),
        r.props.backoff_base_ms >= r.props.backoff_max_ms ==> action_in(r) == (Action::Sleep {
            attempt: 1,
            ms: r.props.backoff_max_ms,
        }),
{
    vstd::arithmetic::power2::lemma2_to64();
    let base = r.props.backoff_base_ms;
    let p = pow2(0);
    assert(base * p == base) by (nonlinear_arith)
        requires
            p == 1,
    ;
}

/// From one restart to the next the delay that is asked for doubles, until it
/// reaches the longest delay.
pub proof fn law_delays_double_from_restart_to_restart(r: RunnerView, s: RunnerView)
    requires
        r.phase is BackingOff,
        s.phase is BackingOff,
        r.restart_count >= 1,
        s.restart_count == r.restart_count + 1,
        s.props.backoff_base_ms == r.props.backoff_base_ms,
        s.props.backoff_max_ms == r.props.backoff_max_ms,
    ensures
        action_in(r) matches Action::Sleep { attempt: m, ms: earlier } && (action_in(
            s,
        ) matches Action::Sleep { attempt: n, ms: later } && m == r.restart_count && n
            == s.restart_count && later == if 2 * earlier <= r.props.backoff_max_ms {
            2 * earlier
        } else {
            r.props.backoff_max_ms as int
        }),
{
    let d = (r.restart_count - 1) as nat;
    vstd::arithmetic::power2::lemma_pow2_unfold(d + 1);
    let base = r.props.backoff_base_ms;
    let p = pow2(d);
    let q = pow2(d + 1);
    assert((s.restart_count - 1) as nat == d + 1);
    assert(0 <= base * p) by (nonlinear_arith);
    assert(base * q == 2 * (base * p)) by (nonlinear_arith)
        requires
            q == 2 * p,
    ;
}

/// No event moves an actor, gives it another parent or changes its props.
pub proof fn law_events_leave_the_identity(r: RunnerView, e: EventView)
    ensures
        next(r, e).address == r.address,
        next(r, e).parent == r.parent,
        next(r, e).props == r.props,
{
}

/// An actor is alive until it is done, and being done is the end of it.
pub proof fn law_actors_die_when_they_are_done(r: RunnerView, e: EventView)
    requires
        awaits(r.phase, e),
    ensures
        next(r, e).alive <==> r.alive && !(next(r, e).phase is Done),
{
}

/// A restart is counted when the actor begins to wait for it, and only there. A
/// run as long as the window is the one thing that takes the count back to
/// nothing.
pub proof fn law_restarts_are_counted_one_by_one(r: RunnerView, e: EventView)
    requires
        awaits(r.phase, e),
    ensures
        ({
            let forgiven = e matches EventView::PostStopped { ran_secs } && ran_secs
                >= r.props.restart_window_secs;
            let used: int = if forgiven {
                0
            } else {
                r.restart_count as int
            };
            next(r, e).restart_count == if next(r, e).phase is BackingOff {
                used + 1
            } else {
                used
            }
        }),
{
}

/// A signal that some actor stopped leaves the actor that gets it as it was:
/// nothing is published, nobody is told, and no registration changes.
pub proof fn law_stopped_actors_do_not_disturb(
    r: RunnerView,
    address: AddressView,
    registry: Map<(Seq<char>, Seq<Seq<char>>), Arc<RegistryEntry>>,
)
    requires
        r.phase is Waiting || r.phase is PollingSystem,
    ensures
        next(r, EventView::System(Signal::ActorStopped { address })) == r,
        published(r, EventView::System(Signal::ActorStopped { address })).len() == 0,
        farewell(r, EventView::System(Signal::ActorStopped { address })) is None,
        noticed(r, EventView::System(Signal::ActorStopped { address }), registry) is None,
{
}

/// An actor that has not failed comes to its end only when it is told to stop
/// or one of its channels closes while it is idle, and it does so at once.
pub proof fn law_actors_stop_only_when_told(r: RunnerView, e: EventView)
    requires
        awaits(r.phase, e),
    ensures
        ({
            let told = e == EventView::System(Signal::PoisonPill) || e == EventView::System(
                Signal::StopSelf,
            ) || e is SystemClosed || e is UserClosed;
            &&& next(r, e).phase == (PhaseView::Ending { failure: None }) <==> told
            &&& told ==> next(r, e) == (RunnerView {
                phase: PhaseView::Ending { failure: None },
                state: StateView::Stopping,
                ..r
            }) && published(r, e) == seq![StateView::Stopping]
        }),
{
}

/// An actor comes to its end by a failure only when handling a message failed,
/// with the error of that message, and only where failures are not passed over.
pub proof fn law_actors_fail_only_by_a_message(r: RunnerView, e: EventView, error: Seq<char>)
    requires
        awaits(r.phase, e),
    ensures
        ({
            let failed = e == EventView::Handled(Some(error)) && r.props.supervision_strategy
                != SupervisionStrategy::Resume;
            &&& next(r, e).phase == (PhaseView::Ending { failure: Some(error) }) <==> failed
            &&& failed ==> next(r, e) == (RunnerView {
                phase: PhaseView::Ending { failure: Some(error) },
                state: StateView::Failed(error),
                ..r
            }) && published(r, e) == seq![StateView::Failed(error)]
        }),
{
}

/// A message is handled when one came, whether the actor was idle or looked for
/// more. Nothing else has a message handled, and nothing else changes by it.
pub proof fn law_messages_are_handled_as_they_come(r: RunnerView, e: EventView)
    requires
        awaits(r.phase, e),
    ensures
        next(r, e).phase is Handling <==> e is User,
        e is User ==> next(r, e) == (RunnerView { phase: PhaseView::Handling, ..r }) && published(
            r,
            e,
        ).len() == 0,
{
}

/// After a message the actor looks for signals, and then for another message.
/// Where there is neither, it is idle again. A failure that is passed over is no
/// different.
pub proof fn law_a_handled_message_leaves_the_actor_idle(
    r: RunnerView,
    outcome: Option<Seq<char>>,
)
    requires
        r.phase is Waiting,
        outcome is None || r.props.supervision_strategy == SupervisionStrategy::Resume,
    ensures
        ({
            let handling = next(r, EventView::User);
            let signals = next(handling, EventView::Handled(outcome));
            let messages = next(signals, EventView::SystemEmpty);
            &&& awaits(handling.phase, EventView::Handled(outcome))
            &&& signals == (RunnerView { phase: PhaseView::PollingSystem, ..r })
            &&& messages == (RunnerView { phase: PhaseView::PollingUser, ..r })
            &&& next(messages, EventView::UserEmpty) == r
            &&& next(messages, EventView::User) == handling
            &&& published(r, EventView::User).len() == 0
            &&& published(handling, EventView::Handled(outcome)).len() == 0
            &&& published(signals, EventView::SystemEmpty).len() == 0
            &&& published(messages, EventView::UserEmpty).len() == 0
        }),
{
}

/// Where no message waits and no signal waits, looking for them changes nothing
/// but where the actor looks next.
pub proof fn law_looking_in_vain_changes_nothing_else(r: RunnerView)
    ensures
        r.phase is Handling ==> next(r, EventView::Handled(None)) == (RunnerView {
            phase: PhaseView::PollingSystem,
            ..r
        }),
        r.phase is PollingSystem ==> next(r, EventView::SystemEmpty) == (RunnerView {
            phase: PhaseView::PollingUser,
            ..r
        }),
        r.phase is PollingUser ==> next(r, EventView::UserEmpty) == (RunnerView {
            phase: PhaseView::Waiting,
            ..r
        }),
{
}

/// A failed child is decided on at once: the actor holds the child and its error
/// until the decision is there.
pub proof fn law_failed_children_are_decided_on(
    r: RunnerView,
    e: EventView,
    child: AddressView,
    error: Seq<char>,
)
    requires
        awaits(r.phase, e),
    ensures
        next(r, e).phase is Supervising <==> (e matches EventView::System(
            Signal::ChildFailed { .. },
        )),
        e == EventView::System(Signal::ChildFailed { child, error }) ==> next(r, e) == (
        RunnerView {
            phase: PhaseView::Supervising { child, error, draining: r.phase is PollingSystem },
            ..r
        }),
{
}

/// Whatever is decided of a failed child, and whatever comes of it, the actor
/// itself goes on as if the child had not failed.
pub proof fn law_supervising_leaves_the_actor_as_it_was(
    r: RunnerView,
    child: AddressView,
    error: Seq<char>,
    strategy: SupervisionStrategy,
    outcome: Option<Seq<char>>,
)
    requires
        r.phase is Waiting || r.phase is PollingSystem,
    ensures
        ({
            let failed = EventView::System(Signal::ChildFailed { child, error });
            let deciding = next(r, failed);
            let decided = next(deciding, EventView::Supervised(strategy));
            let draining = r.phase is PollingSystem;
            &&& awaits(r.phase, failed)
            &&& awaits(deciding.phase, EventView::Supervised(strategy))
            &&& published(r, failed).len() == 0
            &&& published(deciding, EventView::Supervised(strategy)).len() == 0
            &&& strategy == SupervisionStrategy::Stop || strategy == SupervisionStrategy::Escalate
                ==> decided == r
            &&& strategy == SupervisionStrategy::Restart ==> decided == (RunnerView {
                phase: PhaseView::RestartingChild { child, draining },
                ..r
            }) && next(decided, EventView::ChildRestarted(outcome)) == r && published(
                decided,
                EventView::ChildRestarted(outcome),
            ).len() == 0
            &&& strategy == SupervisionStrategy::Resume ==> decided == (RunnerView {
                phase: PhaseView::ResumingChild { child, draining },
                ..r
            }) && next(decided, EventView::ChildResumed(outcome)) == r && published(
                decided,
                EventView::ChildResumed(outcome),
            ).len() == 0
        }),
{
}

/// A decision on a child that the actor holds is about that child, and takes the
/// actor back to where it was when it was told of the failure.
pub proof fn law_decisions_are_about_the_child_at_hand(
    r: RunnerView,
    child: AddressView,
    error: Seq<char>,
    draining: bool,
    outcome: Option<Seq<char>>,
)
    ensures
        ({
            let back = if draining {
                PhaseView::PollingSystem
            } else {
                PhaseView::Waiting
            };
            &&& r.phase == (PhaseView::Supervising { child, error, draining }) ==> {
                &&& next(r, EventView::Supervised(SupervisionStrategy::Stop)) == (RunnerView {
                    phase: back,
                    ..r
                })
                &&& next(r, EventView::Supervised(SupervisionStrategy::Escalate)) == (RunnerView {
                    phase: back,
                    ..r
                })
                &&& next(r, EventView::Supervised(SupervisionStrategy::Restart)) == (RunnerView {
                    phase: PhaseView::RestartingChild { child, draining },
                    ..r
                })
                &&& next(r, EventView::Supervised(SupervisionStrategy::Resume)) == (RunnerView {
                    phase: PhaseView::ResumingChild { child, draining },
                    ..r
                })
            }
            &&& r.phase == (PhaseView::RestartingChild { child, draining }) ==> next(
                r,
                EventView::ChildRestarted(outcome),
            ) == (RunnerView { phase: back, ..r })
            &&& r.phase == (PhaseView::ResumingChild { child, draining }) ==> next(
                r,
                EventView::ChildResumed(outcome),
            ) == (RunnerView { phase: back, ..r })
        }),
{
}

/// An actor that begins, and a fresh instance that started, is idle and running.
/// A fresh instance is started when the delay is over.
pub proof fn law_actors_run_once_they_started(r: RunnerView)
    ensures
        r.phase is Created ==> next(r, EventView::Begun) == (RunnerView {
            phase: PhaseView::Waiting,
            state: StateView::Running,
            ..r
        }) && published(r, EventView::Begun) == seq![StateView::Running],
        r.phase is BackingOff ==> next(r, EventView::BackedOff) == (RunnerView {
            phase: PhaseView::Starting,
            state: StateView::Starting,
            ..r
        }) && published(r, EventView::BackedOff) == seq![StateView::Starting],
        r.phase is Starting ==> next(r, EventView::Started(None)) == (RunnerView {
            phase: PhaseView::Waiting,
            state: StateView::Running,
            ..r
        }) && published(r, EventView::Started(None)) == seq![StateView::Running],
{
}

/// An actor that was told to stop is done, and stopped, once it was left to
/// clean up. Its parent is told that it stopped.
pub proof fn law_stopping_actors_end_stopped(r: RunnerView, ran_secs: u64)
    requires
        r.phase == (PhaseView::Ending { failure: None }),
    ensures
        next(r, EventView::PostStopped { ran_secs }).phase is Done,
        next(r, EventView::PostStopped { ran_secs }).state == StateView::Stopped,
        !next(r, EventView::PostStopped { ran_secs }).alive,
        published(r, EventView::PostStopped { ran_secs }) == seq![StateView::Stopped],
        farewell(r, EventView::PostStopped { ran_secs }) == Some(
            Signal::ActorStopped { address: r.address },
        ),
{
}

/// What a failure leads to goes by the strategy of the actor. One that stops or
/// escalates ends the actor, and so does one that restarts, once the restarts are
/// used up; otherwise a restart is waited for. An actor that ends keeps the state
/// that it failed in, and the parent is told the error.
///
/// A failure after a run as long as the window finds all restarts unused.
pub proof fn law_failures_go_by_the_strategy(r: RunnerView, error: Seq<char>, ran_secs: u64)
    requires
        r.phase == (PhaseView::Ending { failure: Some(error) }),
    ensures
        ({
            let e = EventView::PostStopped { ran_secs };
            let after = next(r, e);
            let used: int = if ran_secs >= r.props.restart_window_secs {
                0
            } else {
                r.restart_count as int
            };
            match r.props.supervision_strategy {
                SupervisionStrategy::Stop => after.phase is Done,
                SupervisionStrategy::Escalate => after.phase is Done,
                SupervisionStrategy::Restart => if used < r.props.max_restarts {
                    after.phase is BackingOff
                } else {
                    after.phase is Done
                },
                SupervisionStrategy::Resume => after.phase is Waiting,
            }
        }),
        ({
            let e = EventView::PostStopped { ran_secs };
            let after = next(r, e);
            &&& after.phase is Done ==> after.state == r.state && published(r, e).len() == 0
                && farewell(r, e) == Some(
                Signal::ChildFailed {
                    child: r.address,
                    error: if r.props.supervision_strategy == SupervisionStrategy::Restart {
                        "exhausted "@ + decimal(r.props.max_restarts as nat)
                            + " restarts; last error: "@ + error
                    } else {
                        error
                    },
                },
            )
            &&& after.phase is BackingOff ==> after.state == StateView::BackingOff(
                after.restart_count,
            ) && published(r, e) == seq![after.state] && farewell(r, e) is None
            &&& after.phase is Waiting ==> after.state == StateView::Running && published(r, e)
                == seq![after.state] && farewell(r, e) is None
        }),
{
}

/// A fresh instance that does not start is a failure like any other, but none
/// that comes after a run: no restart is given back.
pub proof fn law_failed_starts_are_failures(r: RunnerView, error: Seq<char>)
    requires
        r.phase is Starting,
    ensures
        ({
            let after = next(r, EventView::Started(Some(error)));
            match r.props.supervision_strategy {
                SupervisionStrategy::Stop => after.phase is Done,
                SupervisionStrategy::Escalate => after.phase is Done,
                SupervisionStrategy::Restart => if r.restart_count < r.props.max_restarts {
                    after.phase is BackingOff
                } else {
                    after.phase is Done
                },
                SupervisionStrategy::Resume => after.phase is Waiting,
            }
        }),
        ({
            let e = EventView::Started(Some(error));
            let after = next(r, e);
            &&& after.phase is Done ==> after.state == StateView::Failed(error) && published(r, e)
                == seq![StateView::Failed(error)] && farewell(r, e) == Some(
                Signal::ChildFailed {
                    child: r.address,
                    error: if r.props.supervision_strategy == SupervisionStrategy::Restart {
                        "exhausted "@ + decimal(r.props.max_restarts as nat)
                            + " restarts; last error: "@ + error
                    } else {
                        error
                    },
                },
            )
            &&& after.phase is BackingOff ==> after.state == StateView::BackingOff(
                after.restart_count,
            ) && published(r, e) == seq![StateView::Failed(error), after.state] && farewell(r, e)
                is None
            &&& after.phase is Waiting ==> after.state == StateView::Running && published(r, e)
                == seq![StateView::Failed(error), after.state] && farewell(r, e) is None
        }),
{
}

/// An actor leaves a word for its parent exactly when it is done.
pub proof fn law_only_actors_that_are_done_say_farewell(r: RunnerView, e: EventView)
    requires
        awaits(r.phase, e),
    ensures
        farewell(r, e) is Some <==> next(r, e).phase is Done,
{
}

/// An event by which the actor neither starts, stops nor fails publishes nothing,
/// and leaves its state and the count of its restarts as they were.
pub proof fn law_quiet_events_publish_nothing(r: RunnerView, e: EventView)
    requires
        awaits(r.phase, e),
        !(e is Begun || e is SystemClosed || e is UserClosed || e is PostStopped || e is BackedOff
            || e is Started),
        e != EventView::System(Signal::PoisonPill),
        e != EventView::System(Signal::StopSelf),
        e is Handled ==> e == EventView::Handled(None) || r.props.supervision_strategy
            == SupervisionStrategy::Resume,
    ensures
        published(r, e).len() == 0,
        next(r, e).state == r.state,
        next(r, e).restart_count == r.restart_count,
        next(r, e).alive == r.alive,
{
}

/// A child is forgotten exactly when it is gone: when the actor is told that it
/// stopped, when it is decided that it stays stopped or that its failure goes up,
/// or when it could not be restarted or resumed. Every other child is kept, with
/// its mailbox.
pub proof fn law_only_children_that_are_gone_are_forgotten(
    r: RunnerView,
    e: EventView,
    children: Map<Seq<char>, Arc<AnyMailbox>>,
    name: Seq<char>,
)
    requires
        awaits(r.phase, e),
    ensures
        ({
            let own = AddressView {
                node_id: r.address.node_id,
                path: r.address.path.push(name),
            };
            let gone = match (e, r.phase) {
                (EventView::System(Signal::ActorStopped { address }), _) => address == own,
                (
                    EventView::Supervised(strategy),
                    PhaseView::Supervising { child, .. },
                ) => child == own && (strategy == SupervisionStrategy::Stop || strategy
                    == SupervisionStrategy::Escalate),
                (
                    EventView::ChildRestarted(Some(_)),
                    PhaseView::RestartingChild { child, .. },
                ) => child == own,
                (
                    EventView::ChildResumed(Some(_)),
                    PhaseView::ResumingChild { child, .. },
                ) => child == own,
                _ => false,
            };
            let after = children_after(r, e, children);
            &&& after.contains_key(name) <==> children.contains_key(name) && !gone
            &&& after.contains_key(name) ==> after[name] == children[name]
        }),
{
    let own = AddressView { node_id: r.address.node_id, path: r.address.path.push(name) };
    assert(own.path.drop_last() =~= r.address.path);
    assert(own.path.last() == name);
    assert forall|a: AddressView|
        a.node_id == r.address.node_id && a.path.len() > 0 && a.path.drop_last() == r.address.path
            && a.path.last() == name implies a == own by {
        assert(a.path =~= own.path);
    }
}

/// Every event but those that tell of a child that is gone leaves the children
/// as they were.
pub proof fn law_other_events_leave_the_children(
    r: RunnerView,
    e: EventView,
    children: Map<Seq<char>, Arc<AnyMailbox>>,
)
    requires
        awaits(r.phase, e),
        !(e matches EventView::System(Signal::ActorStopped { .. })),
        e != EventView::Supervised(SupervisionStrategy::Stop),
        e != EventView::Supervised(SupervisionStrategy::Escalate),
        !(e matches EventView::ChildRestarted(Some(_))),
        !(e matches EventView::ChildResumed(Some(_))),
    ensures
        children_after(r, e, children) == children,
{
}

/// An actor that is done is taken out of the registry, and a fresh instance is
/// put in its place under the channels of the one before it. No other event, and
/// no registration but the actor's own, is touched.
pub proof fn law_registrations_change_only_at_an_end<M: Message>(
    r: RunnerView,
    e: EventView,
    before: Map<(Seq<char>, Seq<Seq<char>>), Arc<RegistryEntry>>,
    after: Map<(Seq<char>, Seq<Seq<char>>), Arc<RegistryEntry>>,
    was: &Arc<Mailbox<M>>,
    now: &Arc<Mailbox<M>>,
    p: (Seq<char>, Seq<Seq<char>>),
)
    requires
        awaits(r.phase, e),
        registry_moves(r, e, before, after, *was, *now),
    ensures
        p != (r.address.node_id, r.address.path) ==> (after.contains_key(p)
            <==> before.contains_key(p)),
        p != (r.address.node_id, r.address.path) && before.contains_key(p) ==> after[p]
            == before[p],
        next(r, e).phase is Done ==> !after.contains_key((r.address.node_id, r.address.path)),
        !(next(r, e).phase is Done) && !(e is BackedOff) ==> after == before,
        !(e is BackedOff) ==> *now == *was,
        now.msg_tx == was.msg_tx,
        now.any.sys_tx == was.any.sys_tx,
        now.any.state == was.any.state,
        now.any.alive == was.any.alive,
        e is BackedOff ==> {
            let own = (r.address.node_id, r.address.path);
            &&& drawn(now.any.incarnation_id.bits)
            &&& is_version_4(now.any.incarnation_id.bits)
            &&& after.contains_key(own)
            &&& after[own].mailbox == now.any
            &&& erased_as::<mpsc::Sender<ActorMessage<M>>>(after[own].typed) == Some(now.msg_tx)
        },
{
}

/// Somebody is told something only when the actor is done or a failure goes up.
/// It is the parent that is told, at the mailbox that the parent is registered
/// with; an actor that has no parent, or whose parent is not registered, tells
/// nobody.
pub proof fn law_only_the_parent_is_told(
    r: RunnerView,
    e: EventView,
    registry: Map<(Seq<char>, Seq<Seq<char>>), Arc<RegistryEntry>>,
)
    requires
        awaits(r.phase, e),
    ensures
        noticed(r, e, registry) matches Some(notice) ==> {
            &&& next(r, e).phase is Done || e == EventView::Supervised(
                SupervisionStrategy::Escalate,
            )
            &&& r.parent matches Some(parent) && registry.contains_key(
                (parent.node_id, parent.path),
            ) && notice.to == registry[(parent.node_id, parent.path)].mailbox
        },
        next(r, e).phase is Done ==> (noticed(r, e, registry) matches Some(notice) ==> farewell(
            r,
            e,
        ) == Some(notice.message)),
        next(r, e).phase is Done && (r.parent matches Some(parent) && parent != r.address
            && registry.contains_key((parent.node_id, parent.path))) ==> noticed(r, e, registry)
            is Some,
{
}

/// A failure that goes up is told the parent as it was: the child that failed,
/// and its error.
pub proof fn law_escalated_failures_reach_the_parent(
    r: RunnerView,
    child: AddressView,
    error: Seq<char>,
    draining: bool,
    registry: Map<(Seq<char>, Seq<Seq<char>>), Arc<RegistryEntry>>,
)
    requires
        r.phase == (PhaseView::Supervising { child, error, draining }),
    ensures
        ({
            let e = EventView::Supervised(SupervisionStrategy::Escalate);
            match r.parent {
                Some(parent) => if registry.contains_key((parent.node_id, parent.path)) {
                    noticed(r, e, registry) == Some(
                        NoticeView {
                            to: registry[(parent.node_id, parent.path)].mailbox,
                            message: Signal::ChildFailed { child, error },
                        },
                    )
                } else {
                    noticed(r, e, registry) is None
                },
                None => noticed(r, e, registry) is None,
            }
        }),
{
}

/// A step takes the actor, its children, its registration and its mailbox from
/// where they were to where the event takes them. It gives back the states to
/// publish, the word for the parent and what is to be done in the phase that was
/// reached. An actor that is done is marked as dead.
pub proof fn law_steps_follow_their_events<M: Message>(
    runner: &mut ActorRunner,
    event: Event,
    mailbox: &mut Arc<Mailbox<M>>,
    children: &mut Children,
    registry: &mut Registry,
    step: Step,
)
    requires
        call_ensures(ActorRunner::step::<M>, (runner, event, mailbox, children, registry), step),
    ensures
        final(runner)@ == next(old(runner)@, event@),
        final(children)@ == children_after(old(runner)@, event@, old(children)@),
        registry_moves(
            old(runner)@,
            event@,
            old(registry)@,
            final(registry)@,
            *old(mailbox),
            *final(mailbox),
        ),
        step.action == action_in(final(runner)@),
        step.publish@.len() == published(old(runner)@, event@).len(),
        forall|i: int|
            0 <= i < step.publish@.len() ==> (#[trigger] step.publish@[i])@ == published(
                old(runner)@,
                event@,
            )[i],
        step.notice is Some <==> noticed(old(runner)@, event@, old(registry)@) is Some,
        step.notice matches Some(notice) ==> noticed(old(runner)@, event@, old(registry)@) == Some(
            NoticeView { to: notice.to, message: notice.message@ },
        ),
        farewell(old(runner)@, event@) is Some ==> flag_written(*old(mailbox).any.alive, false),
{
    assert forall|i: int| 0 <= i < step.publish@.len() implies (#[trigger] step.publish@[i])@
        == published(old(runner)@, event@)[i] by {
        assert(states(step.publish@)[i] == step.publish@[i]@);
    }
}

/// A step leaves the children as they were, but for one that is gone: one that the
/// actor was told has stopped, one that stays stopped, one whose failure goes up,
/// and one that could not be restarted or resumed.
pub proof fn law_steps_keep_the_children<M: Message>(
    runner: &mut ActorRunner,
    event: Event,
    mailbox: &mut Arc<Mailbox<M>>,
    children: &mut Children,
    registry: &mut Registry,
    step: Step,
    name: Seq<char>,
)
    requires
        awaits(old(runner)@.phase, event@),
        call_ensures(ActorRunner::step::<M>, (runner, event, mailbox, children, registry), step),
    ensures
        ({
            let own = old(runner).address@;
            let child = AddressView { node_id: own.node_id, path: own.path.push(name) };
            let before = old(children)@;
            let after = final(children)@;
            let gone = match (event, old(runner).phase) {
                (Event::System(SystemMessage::ActorStopped { address }), _) => address@ == child,
                (
                    Event::Supervised(SupervisionStrategy::Stop),
                    Phase::Supervising { child: failed, .. },
                ) => failed@ == child,
                (
                    Event::Supervised(SupervisionStrategy::Escalate),
                    Phase::Supervising { child: failed, .. },
                ) => failed@ == child,
                (
                    Event::ChildRestarted(Some(_)),
                    Phase::RestartingChild { child: failed, .. },
                ) => failed@ == child,
                (
                    Event::ChildResumed(Some(_)),
                    Phase::ResumingChild { child: failed, .. },
                ) => failed@ == child,
                _ => false,
            };
            &&& after.contains_key(name) <==> before.contains_key(name) && !gone
            &&& after.contains_key(name) ==> after[name] == before[name]
        }),
{
    law_only_children_that_are_gone_are_forgotten(
        old(runner)@,
        event@,
        old(children)@,
        name,
    );
}

/// What a runner asks for is what its phase calls for, and it takes an event in
/// exactly where its phase waits for it.
pub proof fn law_runners_say_what_they_wait_for(
    runner: &ActorRunner,
    event: &Event,
    action: Action,
    yes: bool,
)
    ensures
        call_ensures(ActorRunner::action, (runner,), action) ==> action == action_in(runner@),
        call_ensures(ActorRunner::awaits, (runner, event), yes) ==> (yes <==> awaits(
            runner@.phase,
            event@,
        )),
{
}

/// The delay that a runner asks for doubles from restart to restart until it is
/// the longest one, and the first one is the base delay, if that is not longer.
pub proof fn law_runners_wait_ever_longer(
    earlier: &ActorRunner,
    later: &ActorRunner,
    first: Action,
    second: Action,
)
    requires
        call_ensures(ActorRunner::action, (earlier,), first),
        call_ensures(ActorRunner::action, (later,), second),
        earlier.phase is BackingOff,
        later.phase is BackingOff,
        earlier.restart_count >= 1,
        later.restart_count == earlier.restart_count + 1,
        later.props@ == earlier.props@,
    ensures
        first matches Action::Sleep { attempt: m, ms: a } && (second matches Action::Sleep {
            attempt: n,
            ms: b,
        } && {
            let base = earlier.props.backoff_base_ms;
            let longest = earlier.props.backoff_max_ms;
            &&& m == earlier.restart_count
            &&& n == later.restart_count
            &&& 2 * a <= longest ==> b == 2 * a
            &&& 2 * a > longest ==> b == longest
            &&& m == 1 && base <= longest ==> a == base
            &&& m == 1 && base > longest ==> a == longest
        }),
{
    law_delays_double_from_restart_to_restart(earlier@, later@);
    if earlier.restart_count == 1 {
        law_first_restarts_wait_the_base_delay(earlier@);
    }
}

/// The view of a runner shows all of it.
pub proof fn law_runners_are_shown_as_they_are(runner: &ActorRunner)
    ensures
        runner@.address == runner.address@,
        runner@.parent is Some <==> runner.parent is Some,
        runner.parent matches Some(parent) ==> runner@.parent == Some(parent@),
        runner@.props == runner.props@,
        runner@.restart_count == runner.restart_count,
        runner@.state == runner.state@,
        runner@.alive == runner.alive,
        match runner.phase {
            Phase::Created => runner@.phase is Created,
            Phase::Waiting => runner@.phase is Waiting,
            Phase::Handling => runner@.phase is Handling,
            Phase::PollingSystem => runner@.phase is PollingSystem,
            Phase::PollingUser => runner@.phase is PollingUser,
            Phase::Supervising { child, error, draining } => runner@.phase == (
            PhaseView::Supervising { child: child@, error: error@, draining }),
            Phase::RestartingChild { child, draining } => runner@.phase == (
            PhaseView::RestartingChild { child: child@, draining }),
            Phase::ResumingChild { child, draining } => runner@.phase == (
            PhaseView::ResumingChild { child: child@, draining }),
            Phase::Ending { failure: Some(text) } => runner@.phase == (PhaseView::Ending {
                failure: Some(text@),
            }),
            Phase::Ending { failure: None } => runner@.phase == (PhaseView::Ending {
                failure: None,
            }),
            Phase::BackingOff => runner@.phase is BackingOff,
            Phase::Starting => runner@.phase is Starting,
            Phase::Done => runner@.phase is Done,
        },
{
}

/// The view of an event is of the same kind and holds the same signal, text,
/// decision or time.
pub proof fn law_events_are_shown_as_they_are(event: &Event)
    ensures
        match event {
            Event::Begun => event@ == EventView::Begun,
            Event::System(message) => event@ == EventView::System(message@),
            Event::SystemClosed => event@ == EventView::SystemClosed,
            Event::SystemEmpty => event@ == EventView::SystemEmpty,
            Event::User => event@ == EventView::User,
            Event::UserClosed => event@ == EventView::UserClosed,
            Event::UserEmpty => event@ == EventView::UserEmpty,
            Event::Handled(None) => event@ == EventView::Handled(None),
            Event::Handled(Some(text)) => event@ == EventView::Handled(Some(text@)),
            Event::Supervised(strategy) => event@ == EventView::Supervised(*strategy),
            Event::ChildRestarted(None) => event@ == EventView::ChildRestarted(None),
            Event::ChildRestarted(Some(text)) => event@ == EventView::ChildRestarted(Some(text@)),
            Event::ChildResumed(None) => event@ == EventView::ChildResumed(None),
            Event::ChildResumed(Some(text)) => event@ == EventView::ChildResumed(Some(text@)),
            Event::PostStopped { ran_secs } => event@ == (EventView::PostStopped {
                ran_secs: *ran_secs,
            }),
            Event::BackedOff => event@ == EventView::BackedOff,
            Event::Started(None) => event@ == EventView::Started(None),
            Event::Started(Some(text)) => event@ == EventView::Started(Some(text@)),
        },
{
}

/// A runner is made for the actor that it is given: where it lives, its parent
/// and its props.
pub proof fn law_runners_are_made_as_given(
    address: ActorAddress,
    parent: Option<ActorAddress>,
    props: ActorProps,
    runner: ActorRunner,
)
    requires
        call_ensures(ActorRunner::new, (address, parent, props), runner),
    ensures
        runner.address@ == address@,
        runner.parent is Some <==> parent is Some,
        parent matches Some(p) ==> runner@.parent == Some(p@),
        runner.props@ == props@,
        runner.restart_count == 0,
        runner@.phase is Created,
        runner@.state == StateView::Starting,
        runner.alive,
{
}

/// The child on which an actor is to decide, and the one that it takes back, are
/// those that its phase holds. The error that it is shown holds the child's.
pub proof fn law_runners_name_the_child_at_hand(
    runner: &ActorRunner,
    failed: Option<(&ActorAddress, ActorError)>,
    returning: Option<&ActorAddress>,
)
    ensures
        call_ensures(ActorRunner::failed_child, (runner,), failed) ==> match runner.phase {
            Phase::Supervising { child, error, .. } => failed matches Some((c, e)) && c@ == child@
                && e@ == ActorFault::ActorCreationFailed(error@),
            _ => failed is None,
        },
        call_ensures(ActorRunner::returning_child, (runner,), returning) ==> match runner.phase {
            Phase::RestartingChild { child, .. } => returning matches Some(c) && c@ == child@,
            Phase::ResumingChild { child, .. } => returning matches Some(c) && c@ == child@,
            _ => returning is None,
        },
{
}

/// A decision on a failed child does what the step with that decision does.
pub proof fn law_decisions_are_carried_out(
    runner: &mut ActorRunner,
    strategy: SupervisionStrategy,
    children: &mut Children,
    registry: &Registry,
    notice: Option<Notice>,
)
    requires
        call_ensures(
            ActorRunner::apply_child_supervision,
            (runner, strategy, children, registry),
            notice,
        ),
    ensures
        final(runner)@ == next(old(runner)@, EventView::Supervised(strategy)),
        final(children)@ == children_after(
            old(runner)@,
            EventView::Supervised(strategy),
            old(children)@,
        ),
        notice is Some <==> noticed(old(runner)@, EventView::Supervised(strategy), registry@)
            is Some,
        notice matches Some(n) ==> noticed(
            old(runner)@,
            EventView::Supervised(strategy),
            registry@,
        ) == Some(NoticeView { to: n.to, message: n.message@ }),
{
}

/// Handling a message gives nothing unless it panicked. A panic is an error with
/// the text that the panic carries.
pub proof fn law_panics_are_errors(
    panicked: bool,
    payload_str: Option<&str>,
    payload_string: Option<&str>,
    res: Result<(), ActorError>,
)
    requires
        call_ensures(dispatch_one, (panicked, payload_str, payload_string), res),
    ensures
        res is Err <==> panicked,
        res matches Err(e) ==> match (payload_str, payload_string) {
            (Some(s), _) => e@ == ActorFault::Panic(s@),
            (None, Some(s)) => e@ == ActorFault::Panic(s@),
            (None, None) => e@ == ActorFault::Panic("unknown panic payload"@),
        },
{
}

/// A runner takes in every event that its phase waits for, and a decision
/// wherever there is a failed child to decide on.
pub proof fn law_runners_take_in_what_they_wait_for<M: Message>(
    runner: &mut ActorRunner,
    event: Event,
    mailbox: &mut Arc<Mailbox<M>>,
    children: &mut Children,
    registry: &mut Registry,
    strategy: SupervisionStrategy,
)
    ensures
        (match old(runner).phase {
            Phase::Created => event is Begun,
            Phase::Waiting => event is System || event is SystemClosed || event is User || event
                is UserClosed,
            Phase::Handling => event is Handled,
            Phase::PollingSystem => event is System || event is SystemEmpty,
            Phase::PollingUser => event is User || event is UserEmpty,
            Phase::Supervising { .. } => event is Supervised,
            Phase::RestartingChild { .. } => event is ChildRestarted,
            Phase::ResumingChild { .. } => event is ChildResumed,
            Phase::Ending { .. } => event is PostStopped,
            Phase::BackingOff => event is BackedOff,
            Phase::Starting => event is Started,
            Phase::Done => false,
        }) ==> call_requires(
            ActorRunner::step::<M>,
            (runner, event, mailbox, children, registry),
        ),
        old(runner).phase is Supervising ==> call_requires(
            ActorRunner::apply_child_supervision,
            (runner, strategy, children, &*old(registry)),
        ),
{
}

} // verus!
