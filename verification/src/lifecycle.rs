//! What holds of every life that a runner leads.

use crate::address::AddressView;
use crate::children::without_address;
use crate::mailbox::{renewal_of, AnyMailbox, Mailbox};
use crate::message::{Message, Signal, StateView};
use crate::props::SupervisionStrategy;
use crate::registry::{place, registered_at, Place, RegistryEntry};
use crate::runner::{
    action_in, awaits, child_in, children_after, created, farewell, next, noticed, published,
    registry_moves, to_parent, Action, EventView, PhaseView, RunnerView,
};
use std::sync::Arc;
use vstd::prelude::*;

verus! {

/// The phases in which an actor is running.
pub open spec fn is_running(phase: PhaseView) -> bool {
    ||| phase is Waiting
    ||| phase is Handling
    ||| phase is PollingSystem
    ||| phase is PollingUser
    ||| phase is Supervising
    ||| phase is RestartingChild
    ||| phase is ResumingChild
}

/// What holds of a runner at all times: it has used no more restarts than it
/// was granted, it is alive until it is done, and the state that it published
/// is that of its phase.
pub open spec fn sound(r: RunnerView) -> bool {
    &&& r.restart_count <= r.props.max_restarts
    &&& r.alive == !(r.phase is Done)
    &&& r.phase is Created ==> r.state == StateView::Starting
    &&& is_running(r.phase) ==> r.state == StateView::Running
    &&& match r.phase {
        PhaseView::Ending { failure: None } => r.state == StateView::Stopping,
        PhaseView::Ending { failure: Some(text) } => r.state == StateView::Failed(text)
            && r.props.supervision_strategy != SupervisionStrategy::Resume,
        PhaseView::BackingOff => r.state == StateView::BackingOff(r.restart_count)
            && r.restart_count > 0 && r.props.supervision_strategy == SupervisionStrategy::Restart,
        PhaseView::Starting => r.state == StateView::Starting && r.restart_count > 0
            && r.props.supervision_strategy == SupervisionStrategy::Restart,
        PhaseView::Done => r.state == StateView::Stopped || r.state is Failed,
        _ => true,
    }
}

/// `life` is a life of a runner that took these events in, one after the other.
pub open spec fn is_life(life: Seq<RunnerView>, events: Seq<EventView>) -> bool {
    &&& life.len() == events.len() + 1
    &&& exists|r: RunnerView|
        life[0] == #[trigger] created(r.address, r.parent, r.props)
    &&& forall|i: int|
        0 <= i < events.len() ==> awaits(life[i].phase, #[trigger] events[i]) && life[i + 1] == next(
            life[i],
            events[i],
        )
}

/// A runner starts sound.
pub proof fn law_created_runners_are_sound(r: RunnerView)
    ensures
        sound(created(r.address, r.parent, r.props)),
{
}

/// Every event leaves a sound runner sound. Where the actor lives, its parent
/// and its props never change.
pub proof fn law_events_keep_runners_sound(r: RunnerView, e: EventView)
    requires
        sound(r),
        awaits(r.phase, e),
    ensures
        sound(next(r, e)),
        next(r, e).address == r.address,
        next(r, e).parent == r.parent,
        next(r, e).props == r.props,
{
}

/// A runner is sound throughout its life.
pub proof fn law_lives_are_sound(life: Seq<RunnerView>, events: Seq<EventView>, i: int)
    requires
        is_life(life, events),
        0 <= i < life.len(),
    ensures
        sound(life[i]),
        life[i].address == life[0].address,
        life[i].parent == life[0].parent,
        life[i].props == life[0].props,
    decreases i,
{
    if i > 0 {
        law_lives_are_sound(life, events, i - 1);
        let e = events[i - 1];
        law_events_keep_runners_sound(life[i - 1], e);
    }
}

/// The states that were published end with the state that the runner is in,
/// unless nothing was published and the state stayed.
pub proof fn law_published_states_are_current(r: RunnerView, e: EventView)
    requires
        sound(r),
        awaits(r.phase, e),
    ensures
        published(r, e).len() > 0 ==> published(r, e).last() == next(r, e).state,
        published(r, e).len() == 0 ==> next(r, e).state == r.state,
{
}

/// A runner that is done stays done: no event comes any more.
pub proof fn law_done_is_final(r: RunnerView, e: EventView)
    requires
        r.phase is Done,
    ensures
        !awaits(r.phase, e),
{
}

/// A runner that is not done waits for some event.
pub proof fn law_runners_never_get_stuck(r: RunnerView)
    requires
        !(r.phase is Done),
    ensures
        exists|e: EventView| awaits(r.phase, e),
{
    let e = match r.phase {
        PhaseView::Created => EventView::Begun,
        PhaseView::Waiting => EventView::User,
        PhaseView::Handling => EventView::Handled(None),
        PhaseView::PollingSystem => EventView::SystemEmpty,
        PhaseView::PollingUser => EventView::UserEmpty,
        PhaseView::Supervising { .. } => EventView::Supervised(SupervisionStrategy::Stop),
        PhaseView::RestartingChild { .. } => EventView::ChildRestarted(None),
        PhaseView::ResumingChild { .. } => EventView::ChildResumed(None),
        PhaseView::Ending { .. } => EventView::PostStopped { ran_secs: 0 },
        PhaseView::BackingOff => EventView::BackedOff,
        PhaseView::Starting => EventView::Started(None),
        PhaseView::Done => EventView::Begun,
    };
    assert(awaits(r.phase, e));
}

/// An actor leaves the registry at the event that ends it, and at no other. At the
/// start of a fresh instance it is registered as a new incarnation. No event
/// changes what stands at another address.
pub proof fn law_actors_leave_the_registry_when_they_end<M: Message>(
    r: RunnerView,
    e: EventView,
    before: Map<Place, Arc<RegistryEntry>>,
    after: Map<Place, Arc<RegistryEntry>>,
    was: Arc<Mailbox<M>>,
    now: Arc<Mailbox<M>>,
    other: AddressView,
)
    requires
        sound(r),
        awaits(r.phase, e),
        registry_moves(r, e, before, after, was, now),
    ensures
        next(r, e).phase is Done ==> after == before.remove(place(r.address)),
        next(r, e).phase is Starting ==> registered_at(before, after, r.address, now) && renewal_of(
            *now,
            *was,
        ),
        !(next(r, e).phase is Done) && !(next(r, e).phase is Starting) ==> after == before,
        other != r.address ==> after.contains_key(place(other)) == before.contains_key(place(other))
            && (before.contains_key(place(other)) ==> after[place(other)] == before[place(other)]),
{
}

/// The parent hears of the end of an actor at the event that ends it, if it is
/// registered then, and at no other event: with `ActorStopped` after a stop,
/// and with `ChildFailed` after a failure. An actor that is its own parent
/// hears nothing.
pub proof fn law_parents_hear_of_each_end_once(
    r: RunnerView,
    e: EventView,
    registry: Map<Place, Arc<RegistryEntry>>,
)
    requires
        sound(r),
        awaits(r.phase, e),
    ensures
        next(r, e).phase is Done <==> farewell(r, e) is Some,
        farewell(r, e) matches Some(word) ==> noticed(r, e, registry) == to_parent(
            r,
            registry.remove(place(r.address)),
            word,
        ) && (next(r, e).state == StateView::Stopped <==> word == Signal::ActorStopped {
            address: r.address,
        }) && (next(r, e).state is Failed <==> (word matches Signal::ChildFailed { child, .. }
            && child == r.address)),
        r.parent == Some(r.address) && farewell(r, e) is Some ==> noticed(r, e, registry) is None,
        noticed(r, e, registry) matches Some(n) && farewell(r, e) is None ==> e
            == EventView::Supervised(SupervisionStrategy::Escalate),
{
}

/// Only a decision to escalate reaches the parent: as the failure that the child
/// reported. No decision changes how the actor itself stands.
pub proof fn law_only_escalation_reaches_the_parent(
    r: RunnerView,
    strategy: SupervisionStrategy,
    registry: Map<Place, Arc<RegistryEntry>>,
)
    requires
        r.phase is Supervising,
    ensures
        strategy != SupervisionStrategy::Escalate ==> noticed(
            r,
            EventView::Supervised(strategy),
            registry,
        ) is None,
        noticed(r, EventView::Supervised(SupervisionStrategy::Escalate), registry) == to_parent(
            r,
            registry,
            Signal::ChildFailed { child: child_in(r.phase), error: r.phase->error },
        ),
        next(r, EventView::Supervised(strategy)).state == r.state,
        next(r, EventView::Supervised(strategy)).restart_count == r.restart_count,
{
}

/// A failed child stays among the children while it is restarted or resumed, and
/// after that if it succeeded. One that is stopped, whose failure is escalated, or
/// that did not come back is forgotten.
pub proof fn law_failed_children_are_kept_or_forgotten(
    r: RunnerView,
    strategy: SupervisionStrategy,
    children: Map<Seq<char>, Arc<AnyMailbox>>,
    error: Seq<char>,
)
    requires
        r.phase is Supervising,
    ensures
        ({
            let decided = EventView::Supervised(strategy);
            let busy = next(r, decided);
            let child = child_in(r.phase);
            let rest = without_address(r.address, children, child);
            &&& strategy == SupervisionStrategy::Restart ==> {
                &&& children_after(r, decided, children) == children
                &&& busy.phase matches PhaseView::RestartingChild { child: c, .. } && c == child
                &&& action_in(busy) == Action::RestartChild
                &&& children_after(busy, EventView::ChildRestarted(None), children) == children
                &&& children_after(busy, EventView::ChildRestarted(Some(error)), children) == rest
            }
            &&& strategy == SupervisionStrategy::Resume ==> {
                &&& children_after(r, decided, children) == children
                &&& busy.phase matches PhaseView::ResumingChild { child: c, .. } && c == child
                &&& action_in(busy) == Action::ResumeChild
                &&& children_after(busy, EventView::ChildResumed(None), children) == children
                &&& children_after(busy, EventView::ChildResumed(Some(error)), children) == rest
            }
            &&& strategy == SupervisionStrategy::Stop || strategy == SupervisionStrategy::Escalate
                ==> children_after(r, decided, children) == rest
        }),
{
}

/// While a child that failed comes back or does not, the actor itself stays as it
/// is, and then looks for signals and messages as before.
pub proof fn law_returning_children_do_not_disturb(r: RunnerView, strategy: SupervisionStrategy)
    requires
        sound(r),
        r.phase is Supervising,
    ensures
        ({
            let busy = next(r, EventView::Supervised(strategy));
            let stopped = next(r, EventView::Supervised(SupervisionStrategy::Stop));
            &&& strategy == SupervisionStrategy::Restart ==> forall|e: EventView| #[trigger]
                awaits(busy.phase, e) ==> next(busy, e) == stopped
            &&& strategy == SupervisionStrategy::Resume ==> forall|e: EventView| #[trigger]
                awaits(busy.phase, e) ==> next(busy, e) == stopped
        }),
{
}

/// A signal to stop is final: the actor handles no further message, cleans up,
/// and is done, whatever its strategy.
pub proof fn law_stop_signals_are_final(r: RunnerView, signal: Signal, e: EventView)
    requires
        awaits(r.phase, EventView::System(signal)),
        signal == Signal::PoisonPill || signal == Signal::StopSelf,
        awaits(next(r, EventView::System(signal)).phase, e),
    ensures
        e is PostStopped,
        next(next(r, EventView::System(signal)), e).phase is Done,
        next(next(r, EventView::System(signal)), e).state == StateView::Stopped,
{
}

/// With the strategy to resume, no failure of a message changes anything but
/// that the next signals and messages are looked for.
pub proof fn law_resuming_actors_survive_failures(r: RunnerView, error: Seq<char>)
    requires
        r.phase is Handling,
        r.props.supervision_strategy == SupervisionStrategy::Resume,
    ensures
        next(r, EventView::Handled(Some(error))) == next(r, EventView::Handled(None)),
        published(r, EventView::Handled(Some(error))).len() == 0,
{
}

/// While messages are drained, a message is only taken once no signal is
/// queued.
pub proof fn law_signals_come_before_messages(r: RunnerView, e: EventView)
    requires
        awaits(r.phase, e),
        next(r, e).phase is PollingUser,
    ensures
        r.phase is PollingSystem,
        e is SystemEmpty,
{
}

/// With the strategy to stop or to escalate, the first failure of a message
/// ends the actor once it has cleaned up.
pub proof fn law_stop_strategy_ends_at_the_first_failure(
    r: RunnerView,
    error: Seq<char>,
    ran_secs: u64,
)
    requires
        r.phase is Handling,
        r.props.supervision_strategy == SupervisionStrategy::Stop
            || r.props.supervision_strategy == SupervisionStrategy::Escalate,
    ensures
        ({
            let failed = next(r, EventView::Handled(Some(error)));
            let cleaned = EventView::PostStopped { ran_secs };
            &&& awaits(failed.phase, cleaned)
            &&& next(failed, cleaned).phase is Done
            &&& farewell(failed, cleaned) == Some(
                Signal::ChildFailed { child: r.address, error },
            )
        }),
{
}

/// How many of the events start a fresh instance.
pub open spec fn restarts(events: Seq<EventView>) -> nat
    decreases events.len(),
{
    if events.len() == 0 {
        0
    } else {
        restarts(events.drop_last()) + if events.last() == EventView::BackedOff {
            1nat
        } else {
            0nat
        }
    }
}

/// No run lasted for the whole restart window.
pub open spec fn only_short_runs(events: Seq<EventView>, window_secs: u64) -> bool {
    forall|i: int|
        0 <= i < events.len() ==> ((#[trigger] events[i]) matches EventView::PostStopped {
            ran_secs,
        } ==> ran_secs < window_secs)
}

/// As long as no run lasts for the whole window, the restart count is the
/// number of restarts, with the one that is waited for.
proof fn lemma_restarts_are_counted(life: Seq<RunnerView>, events: Seq<EventView>)
    requires
        is_life(life, events),
        only_short_runs(events, life[0].props.restart_window_secs),
    ensures
        life.last().phase is BackingOff ==> life.last().restart_count == restarts(events) + 1,
        !(life.last().phase is BackingOff) ==> life.last().restart_count == restarts(events),
    decreases events.len(),
{
    if events.len() > 0 {
        let shorter = events.drop_last();
        let before = life.drop_last();
        lemma_shorter_life(life, events);
        assert forall|i: int| 0 <= i < shorter.len() implies ((#[trigger] shorter[i]) matches EventView::PostStopped {
            ran_secs,
        } ==> ran_secs < life[0].props.restart_window_secs) by {
            assert(shorter[i] == events[i]);
        }
        lemma_restarts_are_counted(before, shorter);
        let n = events.len() - 1;
        law_lives_are_sound(life, events, n as int);
        let e = events[n as int];
        assert(life[n as int] == before.last());
        assert(life.last() == next(life[n as int], e));
    }
}

/// As long as no run lasts for the whole restart window, an actor is restarted
/// no more often than it was granted.
pub proof fn law_restarts_are_bounded(life: Seq<RunnerView>, events: Seq<EventView>)
    requires
        is_life(life, events),
        only_short_runs(events, life[0].props.restart_window_secs),
    ensures
        restarts(events) <= life[0].props.max_restarts,
{
    lemma_restarts_are_counted(life, events);
    law_lives_are_sound(life, events, life.len() - 1);
}

/// An actor that fails with no restart left ends, and one with a restart left
/// is restarted, if its strategy is to restart.
pub proof fn law_restart_strategy_uses_up_its_restarts(
    r: RunnerView,
    error: Seq<char>,
    ran_secs: u64,
)
    requires
        sound(r),
        r.phase is Handling,
        r.props.supervision_strategy == SupervisionStrategy::Restart,
    ensures
        ({
            let failed = next(r, EventView::Handled(Some(error)));
            let cleaned = next(failed, EventView::PostStopped { ran_secs });
            let used = if ran_secs >= r.props.restart_window_secs {
                0
            } else {
                r.restart_count
            };
            &&& cleaned.phase is Done <==> used == r.props.max_restarts
            &&& cleaned.phase is BackingOff <==> used < r.props.max_restarts
            &&& cleaned.phase is BackingOff ==> {
                &&& cleaned.restart_count == used + 1
                &&& next(cleaned, EventView::BackedOff).phase is Starting
                &&& next(next(cleaned, EventView::BackedOff), EventView::Started(None)).state
                    == StateView::Running
            }
        }),
{
}

/// How many of the events receive a message.
pub open spec fn received(events: Seq<EventView>) -> nat
    decreases events.len(),
{
    if events.len() == 0 {
        0
    } else {
        received(events.drop_last()) + if events.last() is User {
            1nat
        } else {
            0nat
        }
    }
}

/// The messages that were handled, if those that were received are the first of
/// `queue`: when the actor is done with a message, it is the one received last.
pub open spec fn handled<T>(events: Seq<EventView>, queue: Seq<T>) -> Seq<T>
    decreases events.len(),
{
    if events.len() == 0 {
        Seq::empty()
    } else if events.last() is Handled {
        handled(events.drop_last(), queue).push(queue[received(events.drop_last()) - 1])
    } else {
        handled(events.drop_last(), queue)
    }
}

/// A life without its last event is a life.
proof fn lemma_shorter_life(life: Seq<RunnerView>, events: Seq<EventView>)
    requires
        is_life(life, events),
        events.len() > 0,
    ensures
        is_life(life.drop_last(), events.drop_last()),
        awaits(life.drop_last().last().phase, events.last()),
        life.last() == next(life.drop_last().last(), events.last()),
        life.drop_last()[0] == life[0],
{
    let shorter = events.drop_last();
    let before = life.drop_last();
    assert forall|i: int| 0 <= i < shorter.len() implies awaits(
        before[i].phase,
        #[trigger] shorter[i],
    ) && before[i + 1] == next(before[i], shorter[i]) by {
        assert(shorter[i] == events[i]);
    }
    assert(before[0] == life[0]);
    let n = events.len() - 1;
    let e = events[n as int];
    assert(life[n as int] == before.last());
}

/// A message is in hand exactly after it was received.
pub proof fn law_received_messages_are_taken_in_hand(
    life: Seq<RunnerView>,
    events: Seq<EventView>,
    i: int,
)
    requires
        is_life(life, events),
        0 <= i < events.len(),
    ensures
        life[i + 1].phase is Handling <==> events[i] is User,
        events[i] is User ==> !(life[i].phase is Handling),
        life[i].phase is Handling <==> events[i] is Handled,
{
    let e = events[i];
}

/// Every message that was received is handled once and in the order in which it
/// was received, but for the one that is in hand.
pub proof fn law_messages_are_handled_once_and_in_order<T>(
    life: Seq<RunnerView>,
    events: Seq<EventView>,
    queue: Seq<T>,
)
    requires
        is_life(life, events),
        received(events) <= queue.len(),
    ensures
        life.last().phase is Handling ==> received(events) > 0 && handled(events, queue)
            == queue.take(received(events) - 1),
        !(life.last().phase is Handling) ==> handled(events, queue) == queue.take(
            received(events) as int,
        ),
    decreases events.len(),
{
    if events.len() == 0 {
        assert(handled(events, queue) =~= queue.take(0));
    } else {
        lemma_shorter_life(life, events);
        law_messages_are_handled_once_and_in_order(life.drop_last(), events.drop_last(), queue);
        let n = received(events.drop_last()) as int;
        if events.last() is Handled {
            assert(queue.take(n - 1).push(queue[n - 1]) =~= queue.take(n));
        }
    }
}

/// Nothing ends, fails or signals to the actor among the events.
pub open spec fn undisturbed(events: Seq<EventView>) -> bool {
    forall|i: int|
        0 <= i < events.len() ==> {
            let e = #[trigger] events[i];
            &&& !(e is System)
            &&& !(e is SystemClosed)
            &&& !(e is UserClosed)
            &&& e is Handled ==> e == EventView::Handled(None)
        }
}

/// An actor to which nothing is signalled and that does not fail keeps running,
/// with the one instance that it began with.
pub proof fn law_undisturbed_actors_keep_running(life: Seq<RunnerView>, events: Seq<EventView>)
    requires
        is_life(life, events),
        undisturbed(events),
    ensures
        life.last().phase is Created || is_running(life.last().phase),
        restarts(events) == 0,
    decreases events.len(),
{
    if events.len() > 0 {
        lemma_shorter_life(life, events);
        let shorter = events.drop_last();
        assert forall|i: int| 0 <= i < shorter.len() implies shorter[i] == events[i] by {}
        law_undisturbed_actors_keep_running(life.drop_last(), shorter);
        let e = events[events.len() - 1];
    }
}

} // verus!
