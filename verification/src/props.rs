//! How an actor is created and supervised.

use vstd::arithmetic::power2::pow2;
use vstd::prelude::*;

verus! {

/// What becomes of an actor that failed.
#[derive(Debug, Clone, Copy, PartialEq, Eq, Structural)]
pub enum SupervisionStrategy {
    /// Restart it with a fresh instance from its factory.
    Restart,
    /// Stop it for good.
    Stop,
    /// Stop it and hand the failure to the parent.
    Escalate,
    /// Go on with the same instance.
    Resume,
}

impl SupervisionStrategy {
    /// What becomes of a failed child of an actor that decides nothing else.
    pub fn unless_decided() -> (strategy: Self)
        ensures
            strategy == SupervisionStrategy::Stop,
    {
        SupervisionStrategy::Stop
    }
}

/// Configuration of an actor. The spread that is put on the delay before a
/// restart is not part of it.
#[derive(Debug)]
pub struct ActorProps {
    /// What becomes of the actor when it fails.
    pub supervision_strategy: SupervisionStrategy,
    /// How many restarts are granted.
    pub max_restarts: u32,
    /// An actor that ran this many seconds is granted all its restarts again.
    pub restart_window_secs: u64,
    /// Capacity of the mailbox; `None` for the default of the system.
    pub mailbox_size: Option<usize>,
    /// Name of the dispatcher.
    pub dispatcher: Option<String>,
    /// Delay before the first restart, in milliseconds.
    pub backoff_base_ms: u64,
    /// Longest delay before a restart, in milliseconds.
    pub backoff_max_ms: u64,
}

/// Props over views.
#[verifier::ext_equal]
pub struct PropsView {
    pub supervision_strategy: SupervisionStrategy,
    pub max_restarts: u32,
    pub restart_window_secs: u64,
    pub mailbox_size: Option<usize>,
    pub dispatcher: Option<Seq<char>>,
    pub backoff_base_ms: u64,
    pub backoff_max_ms: u64,
}

impl View for ActorProps {
    type V = PropsView;

    open spec fn view(&self) -> PropsView {
        PropsView {
            supervision_strategy: self.supervision_strategy,
            max_restarts: self.max_restarts,
            restart_window_secs: self.restart_window_secs,
            mailbox_size: self.mailbox_size,
            dispatcher: match self.dispatcher {
                Some(name) => Some(name@),
                None => None,
            },
            backoff_base_ms: self.backoff_base_ms,
            backoff_max_ms: self.backoff_max_ms,
        }
    }
}

/// The props that an actor has unless something else is said.
pub open spec fn default_props() -> PropsView {
    PropsView {
        supervision_strategy: SupervisionStrategy::Stop,
        max_restarts: 3,
        restart_window_secs: 60,
        mailbox_size: None,
        dispatcher: None,
        backoff_base_ms: 100,
        backoff_max_ms: 60_000,
    }
}

/// The smaller of two numbers.
pub open spec fn smaller(a: int, b: int) -> int {
    if a <= b {
        a
    } else {
        b
    }
}

/// How often the base delay is doubled before restart `attempt`.
pub open spec fn doublings(attempt: u32) -> nat {
    if attempt == 0 {
        0
    } else {
        (attempt - 1) as nat
    }
}

/// The delay before restart `attempt`, before any spread is put on it: the base
/// delay, doubled for each attempt after the first, up to the longest delay.
pub open spec fn backoff_ms(attempt: u32, base: u64, longest: u64) -> int {
    smaller(base * pow2(doublings(attempt)), longest as int)
}

impl ActorProps {
    /// The default props.
    pub fn new() -> (props: Self)
        ensures
            props@ == default_props(),
    {
        ActorProps {
            supervision_strategy: SupervisionStrategy::Stop,
            max_restarts: 3,
            restart_window_secs: 60,
            mailbox_size: None,
            dispatcher: None,
            backoff_base_ms: 100,
            backoff_max_ms: 60_000,
        }
    }

    /// Set the capacity of the mailbox.
    pub fn with_mailbox_size(self, size: usize) -> (props: Self)
        ensures
            props@ == (PropsView { mailbox_size: Some(size), ..self@ }),
    {
        ActorProps { mailbox_size: Some(size), ..self }
    }

    /// Set the name of the dispatcher.
    pub fn with_dispatcher(self, dispatcher: &str) -> (props: Self)
        ensures
            props@ == (PropsView { dispatcher: Some(dispatcher@), ..self@ }),
    {
        ActorProps { dispatcher: Some(dispatcher.to_owned()), ..self }
    }

    /// Set what becomes of the actor when it fails.
    pub fn with_supervision(self, strategy: SupervisionStrategy) -> (props: Self)
        ensures
            props@ == (PropsView { supervision_strategy: strategy, ..self@ }),
    {
        ActorProps { supervision_strategy: strategy, ..self }
    }

    /// Have the actor restarted, within these limits.
    pub fn with_restart(self, max_restarts: u32, window_secs: u64) -> (props: Self)
        ensures
            props@ == (PropsView {
                supervision_strategy: SupervisionStrategy::Restart,
                max_restarts,
                restart_window_secs: window_secs,
                ..self@
            }),
    {
        ActorProps {
            supervision_strategy: SupervisionStrategy::Restart,
            max_restarts,
            restart_window_secs: window_secs,
            ..self
        }
    }

    /// Set the first and the longest delay before a restart.
    pub fn with_backoff(self, base_ms: u64, max_ms: u64) -> (props: Self)
        ensures
            props@ == (PropsView { backoff_base_ms: base_ms, backoff_max_ms: max_ms, ..self@ }),
    {
        ActorProps { backoff_base_ms: base_ms, backoff_max_ms: max_ms, ..self }
    }

    /// The delay before restart `attempt`, in milliseconds, before any spread is
    /// put on it.
    pub fn compute_backoff(&self, attempt: u32) -> (ms: u64)
        ensures
            ms == backoff_ms(attempt, self.backoff_base_ms, self.backoff_max_ms),
    {
        let longest: u64 = self.backoff_max_ms;
        let mut ms: u64 = if self.backoff_base_ms < longest {
            self.backoff_base_ms
        } else {
            longest
        };
        let mut left: u32 = if attempt == 0 {
            0
        } else {
            attempt - 1
        };
        let ghost total: nat = left as nat;
        proof {
            vstd::arithmetic::power2::lemma2_to64();
            assert((total - left) as nat == 0);
            assert(self.backoff_base_ms * pow2(0) == self.backoff_base_ms) by (nonlinear_arith)
                requires
                    pow2(0) == 1,
            ;
        }
        while left > 0 && 0 < ms && ms < longest
            invariant
                left <= total,
                longest == self.backoff_max_ms,
                ms == smaller(self.backoff_base_ms * pow2((total - left) as nat), longest as int),
            decreases left,
        {
            let ghost done: nat = (total - left) as nat;
            let ghost base: int = self.backoff_base_ms as int;
            proof {
                vstd::arithmetic::power2::lemma_pow2_unfold(done + 1);
                assert(base * pow2(done + 1) == 2 * (base * pow2(done))) by (nonlinear_arith)
                    requires
                        pow2(done + 1) == 2 * pow2(done),
                ;
            }
            ms = if ms <= longest - ms {
                ms + ms
            } else {
                longest
            };
            left = left - 1;
            assert((total - left) as nat == done + 1);
        }
        proof {
            lemma_backoff_settles(
                self.backoff_base_ms as nat,
                (total - left) as nat,
                total,
                longest as nat,
            );
        }
        ms
    }

    /// A delay that a spread was put on, up to the longest delay.
    pub fn limit_backoff(&self, ms: u64) -> (limited: u64)
        ensures
            limited == smaller(ms as int, self.backoff_max_ms as int),
    {
        if ms <= self.backoff_max_ms {
            ms
        } else {
            self.backoff_max_ms
        }
    }
}

impl Default for ActorProps {
    fn default() -> (props: Self)
        ensures
            props@ == default_props(),
    {
        ActorProps::new()
    }
}

impl Clone for ActorProps {
    fn clone(&self) -> (copy: Self)
        ensures
            copy@ == self@,
    {
        ActorProps {
            supervision_strategy: self.supervision_strategy,
            max_restarts: self.max_restarts,
            restart_window_secs: self.restart_window_secs,
            mailbox_size: self.mailbox_size,
            dispatcher: match &self.dispatcher {
                Some(name) => Some(name.clone()),
                None => None,
            },
            backoff_base_ms: self.backoff_base_ms,
            backoff_max_ms: self.backoff_max_ms,
        }
    }
}

/// Once the delay is 0 or the longest, doubling it on changes nothing.
proof fn lemma_backoff_settles(base: nat, done: nat, total: nat, longest: nat)
    requires
        done <= total,
        done == total || base * pow2(done) >= longest || smaller(
            (base * pow2(done)) as int,
            longest as int,
        ) == 0,
    ensures
        smaller((base * pow2(done)) as int, longest as int) == smaller(
            (base * pow2(total)) as int,
            longest as int,
        ),
{
    if done < total {
        vstd::arithmetic::power2::lemma_pow2_pos(done);
        vstd::arithmetic::power2::lemma_pow2_strictly_increases(done, total);
        let p = pow2(done);
        let q = pow2(total);
        assert(base * p <= base * q) by (nonlinear_arith)
            requires
                p <= q,
        ;
        if base * p < longest {
            assert(base == 0) by (nonlinear_arith)
                requires
                    base * p == 0,
                    p > 0,
            ;
        }
    }
}

/// The delay before a restart is never longer than the longest delay, and no
/// restart waits for less time than the one before it.
pub proof fn law_backoff_grows_up_to_its_limit(
    earlier: u32,
    later: u32,
    base: u64,
    longest: u64,
)
    requires
        earlier <= later,
    ensures
        0 <= backoff_ms(earlier, base, longest) <= backoff_ms(later, base, longest) <= longest,
{
    let d = doublings(earlier);
    let e = doublings(later);
    if d < e {
        vstd::arithmetic::power2::lemma_pow2_strictly_increases(d, e);
    }
    let p = pow2(d);
    let q = pow2(e);
    assert(0 <= base * p <= base * q) by (nonlinear_arith)
        requires
            p <= q,
    ;
}

/// Before the limit is reached, each restart after the first waits twice as
/// long as the one before it.
pub proof fn law_backoff_doubles(attempt: u32, base: u64, longest: u64)
    requires
        1 <= attempt < u32::MAX,
        2 * backoff_ms(attempt, base, longest) <= longest,
    ensures
        backoff_ms((attempt + 1) as u32, base, longest) == 2 * backoff_ms(attempt, base, longest),
{
    let d = doublings(attempt);
    vstd::arithmetic::power2::lemma_pow2_unfold(d + 1);
    let p = pow2(d);
    let q = pow2(d + 1);
    assert(base * q == 2 * (base * p)) by (nonlinear_arith)
        requires
            q == 2 * p,
    ;
}

/// The props that an actor has unless something else is said: a failure stops
/// it, and where it is restarted instead, it is so three times within a minute,
/// after a tenth of a second at first and after a minute at most.
pub proof fn law_default_props_stop_on_failure(props: ActorProps)
    requires
        call_ensures(ActorProps::new, (), props) || call_ensures(
            <ActorProps as Default>::default,
            (),
            props,
        ),
    ensures
        props.supervision_strategy == SupervisionStrategy::Stop,
        props.max_restarts == 3,
        props.restart_window_secs == 60,
        props.mailbox_size is None,
        props.dispatcher is None,
        props.backoff_base_ms == 100,
        props.backoff_max_ms == 60_000,
{
}

/// Each setter sets what it is named after to what it was given, and leaves the
/// rest as it was. Asking for restarts is the one that chooses a strategy too.
pub proof fn law_setters_change_what_they_name(
    before: ActorProps,
    after: ActorProps,
    size: usize,
    dispatcher: &str,
    strategy: SupervisionStrategy,
    restarts: u32,
    secs: u64,
    base_ms: u64,
    max_ms: u64,
)
    ensures
        call_ensures(ActorProps::with_mailbox_size, (before, size), after) ==> after@ == (
        PropsView { mailbox_size: Some(size), ..before@ }),
        call_ensures(ActorProps::with_dispatcher, (before, dispatcher), after) ==> after@ == (
        PropsView { dispatcher: Some(dispatcher@), ..before@ }),
        call_ensures(ActorProps::with_supervision, (before, strategy), after) ==> after@ == (
        PropsView { supervision_strategy: strategy, ..before@ }),
        call_ensures(ActorProps::with_restart, (before, restarts, secs), after) ==> after@ == (
        PropsView {
            supervision_strategy: SupervisionStrategy::Restart,
            max_restarts: restarts,
            restart_window_secs: secs,
            ..before@
        }),
        call_ensures(ActorProps::with_backoff, (before, base_ms, max_ms), after) ==> after@ == (
        PropsView { backoff_base_ms: base_ms, backoff_max_ms: max_ms, ..before@ }),
        call_ensures(<ActorProps as Clone>::clone, (&before,), after) ==> after@ == before@,
{
}

/// The view of props shows each of them.
pub proof fn law_props_are_shown_as_they_are(props: &ActorProps)
    ensures
        props@.supervision_strategy == props.supervision_strategy,
        props@.max_restarts == props.max_restarts,
        props@.restart_window_secs == props.restart_window_secs,
        props@.mailbox_size == props.mailbox_size,
        props@.dispatcher is Some <==> props.dispatcher is Some,
        props.dispatcher matches Some(name) ==> props@.dispatcher == Some(name@),
        props@.backoff_base_ms == props.backoff_base_ms,
        props@.backoff_max_ms == props.backoff_max_ms,
{
}

/// The delay before restart `attempt` is the base delay times two to the number
/// of attempts before it, up to the longest delay. An attempt without a number
/// counts as the first.
pub proof fn law_backoff_is_exponential(props: &ActorProps, attempt: u32, ms: u64)
    requires
        call_ensures(ActorProps::compute_backoff, (props, attempt), ms),
    ensures
        ({
            let earlier: nat = if attempt == 0 {
                0
            } else {
                (attempt - 1) as nat
            };
            &&& ms <= props.backoff_max_ms
            &&& ms <= props.backoff_base_ms * pow2(earlier)
            &&& ms == props.backoff_max_ms || ms == props.backoff_base_ms * pow2(earlier)
        }),
        attempt <= 1 && props.backoff_base_ms <= props.backoff_max_ms ==> ms
            == props.backoff_base_ms,
        attempt <= 1 && props.backoff_base_ms > props.backoff_max_ms ==> ms
            == props.backoff_max_ms,
{
    vstd::arithmetic::power2::lemma2_to64();
    let base = props.backoff_base_ms;
    let p = pow2(0);
    assert(base * p == base) by (nonlinear_arith)
        requires
            p == 1,
    ;
}

/// From one attempt to the next the delay doubles, until it is the longest.
pub proof fn law_backoff_doubles_up_to_the_longest(
    props: &ActorProps,
    attempt: u32,
    earlier: u64,
    later: u64,
)
    requires
        1 <= attempt < u32::MAX,
        call_ensures(ActorProps::compute_backoff, (props, attempt), earlier),
        call_ensures(ActorProps::compute_backoff, (props, (attempt + 1) as u32), later),
    ensures
        2 * earlier <= props.backoff_max_ms ==> later == 2 * earlier,
        2 * earlier > props.backoff_max_ms ==> later == props.backoff_max_ms,
{
    let d = (attempt - 1) as nat;
    vstd::arithmetic::power2::lemma_pow2_unfold(d + 1);
    let base = props.backoff_base_ms;
    let p = pow2(d);
    let q = pow2(d + 1);
    assert(base * q == 2 * (base * p)) by (nonlinear_arith)
        requires
            q == 2 * p,
    ;
}

/// A delay is cut at the longest one, and left alone below that.
pub proof fn law_delays_are_cut_at_the_longest(props: &ActorProps, ms: u64, limited: u64)
    requires
        call_ensures(ActorProps::limit_backoff, (props, ms), limited),
    ensures
        ms <= props.backoff_max_ms ==> limited == ms,
        ms > props.backoff_max_ms ==> limited == props.backoff_max_ms,
{
}

/// A failed child on which nothing is decided stays stopped.
pub proof fn law_undecided_children_stay_stopped(strategy: SupervisionStrategy)
    requires
        call_ensures(SupervisionStrategy::unless_decided, (), strategy),
    ensures
        strategy == SupervisionStrategy::Stop,
{
}

} // verus!
