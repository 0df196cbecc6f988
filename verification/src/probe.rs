//! Probes: actors that keep what they are sent, for tests to look at.

use crate::actor_ref::ActorRef;
use crate::erased::boxed_as;
use crate::incarnation::IncarnationId;
use crate::message::Message;
use crate::test_message::TestMessage;
use crate::text::{decimal, decimal_text};
use std::collections::VecDeque;
use vstd::prelude::*;
use vstd::string::StringExecFns;

verus! {

/// How long an expectation waits unless something else is said.
pub const EXPECT_TIMEOUT_MS: u64 = 1000;

/// How long an expectation waits between two looks at the queue.
pub const EXPECT_POLL_MS: u64 = 10;

/// What came of an expectation.
#[derive(Debug)]
#[allow(inconsistent_fields)]
pub enum ExpectationResult<T> {
    /// The expected message came.
    Success(T),
    /// No message came in time.
    Timeout,
    /// A message of another type came.
    WrongType { expected: &'static str, actual: &'static str },
    /// Another message came.
    WrongContent { expected: String, actual: String },
}

impl<T> ExpectationResult<T> {
    /// The message of an expectation that was met.
    pub fn unwrap(self) -> (value: T)
        requires
            self is Success,
        ensures
            self == ExpectationResult::Success(value),
    {
        let res: Option<T> = match self {
            ExpectationResult::Success(value) => Some(value),
            _ => None,
        };
        res.unwrap()
    }

    /// Whether the expectation was met.
    pub fn is_success(&self) -> (yes: bool)
        ensures
            yes == (self is Success),
    {
        matches!(self, ExpectationResult::Success(_))
    }

    /// Whether no message came in time.
    pub fn is_timeout(&self) -> (yes: bool)
        ensures
            yes == (self is Timeout),
    {
        matches!(self, ExpectationResult::Timeout)
    }
}

/// Formats a value with `{:?}`. Claims nothing of the text, which is up to the
/// value's type.
#[verifier::external_body]
fn debug_text<T: std::fmt::Debug>(value: &T) -> (text: String) {
    format!("{:?}", value)
}

/// `text` is how the type of `value` describes it.
pub closed spec fn describes<T: std::fmt::Debug>(value: T, text: String) -> bool {
    call_ensures(debug_text::<T>, (&value,), text)
}

/// Keeps the messages of type `M` that its actor is sent.
#[verifier::reject_recursive_types(M)]
pub struct TestProbe<M: Message, N> {
    /// A reference to the probe's actor.
    pub actor_ref: ActorRef<TestMessage, N>,
    /// Names the probe.
    pub id: IncarnationId,
    /// The messages that came and were not taken out yet.
    pub messages: VecDeque<M>,
}

/// What an expectation makes of the first queued message: it is the expected
/// one, or the two are described.
pub open spec fn expectation_met<M: PartialEq + std::fmt::Debug>(
    expected: M,
    message: M,
    res: ExpectationResult<M>,
) -> bool {
    exists|same: bool| #[trigger]
        call_ensures(M::eq, (&message, &expected), same) && if same {
            res == ExpectationResult::Success(message)
        } else {
            res matches ExpectationResult::WrongContent { expected: e, actual: a } && describes(
                expected,
                e,
            ) && describes(message, a)
        }
}

/// The text that counts the messages in a queue.
pub open spec fn queue_text(n: nat) -> Seq<char> {
    decimal(n) + " messages in queue"@
}

impl<M: Message, N> View for TestProbe<M, N> {
    type V = Seq<M>;

    open spec fn view(&self) -> Seq<M> {
        self.messages@
    }
}

impl<M: Message, N> TestProbe<M, N> {
    /// Everything about the probe but its queue stays.
    pub open spec fn same_probe(&self, other: &Self) -> bool {
        self.actor_ref == other.actor_ref && self.id == other.id
    }

    /// A probe with an empty queue.
    pub fn new(actor_ref: ActorRef<TestMessage, N>, id: IncarnationId) -> (probe: Self)
        ensures
            probe.actor_ref == actor_ref,
            probe.id == id,
            probe@ == Seq::<M>::empty(),
    {
        TestProbe { actor_ref, id, messages: VecDeque::new() }
    }

    /// A reference to the probe's actor.
    pub fn actor_ref(&self) -> (r: &ActorRef<TestMessage, N>)
        ensures
            *r == self.actor_ref,
    {
        &self.actor_ref
    }

    /// The name of the probe.
    pub fn probe_id(&self) -> (id: IncarnationId)
        ensures
            id == self.id,
    {
        self.id
    }

    /// Keep a message that the probe's actor was sent. A message of another type
    /// is ignored.
    pub fn handle(&mut self, msg: &TestMessage) where M: Clone
        ensures
            match boxed_as::<M>(msg.content) {
                Some(message) => exists|copy: M| #[trigger]
                    cloned(message, copy) && final(self)@ == old(self)@.push(copy),
                None => final(self)@ == old(self)@,
            },
            final(self).same_probe(old(self)),
    {
        match msg.extract::<M>() {
            Some(message) => {
                let copy: M = message.clone();
                self.messages.push_back(copy);
                assert(cloned(boxed_as::<M>(msg.content).unwrap(), copy));
            },
            None => {},
        }
    }

    /// Look whether the expected message has come: the first queued message is
    /// taken out and held against it. Without a message the expectation goes on,
    /// or ends if the time is up.
    pub fn expect_message_timeout(&mut self, expected: &M, time_is_up: bool) -> (res: Option<
        ExpectationResult<M>,
    >) where M: PartialEq
        ensures
            old(self)@.len() > 0 ==> final(self)@ == old(self)@.drop_first() && (res matches Some(r)
                && expectation_met(*expected, old(self)@[0], r)),
            old(self)@.len() == 0 ==> final(self)@ == old(self)@ && res == if time_is_up {
                Some(ExpectationResult::<M>::Timeout)
            } else {
                None
            },
            final(self).same_probe(old(self)),
    {
        match self.messages.pop_front() {
            Some(message) => {
                assert(self.messages@ =~= old(self)@.drop_first());
                if message == *expected {
                    Some(ExpectationResult::Success(message))
                } else {
                    Some(
                        ExpectationResult::WrongContent {
                            expected: debug_text(expected),
                            actual: debug_text(&message),
                        },
                    )
                }
            },
            None => {
                if time_is_up {
                    Some(ExpectationResult::Timeout)
                } else {
                    None
                }
            },
        }
    }

    /// Look whether the expected message has come, for as long as an expectation
    /// waits unless something else is said.
    pub fn expect_message(&mut self, expected: &M, waited_ms: u64) -> (res: Option<
        ExpectationResult<M>,
    >) where M: PartialEq
        ensures
            old(self)@.len() > 0 ==> final(self)@ == old(self)@.drop_first() && (res matches Some(r)
                && expectation_met(*expected, old(self)@[0], r)),
            old(self)@.len() == 0 ==> final(self)@ == old(self)@ && res == if waited_ms
                >= EXPECT_TIMEOUT_MS {
                Some(ExpectationResult::<M>::Timeout)
            } else {
                None
            },
            final(self).same_probe(old(self)),
    {
        self.expect_message_timeout(expected, waited_ms >= EXPECT_TIMEOUT_MS)
    }

    /// Look whether any message has come: the first queued message is taken out.
    /// Without a message the expectation goes on, or ends if the time is up.
    pub fn expect_any_message_timeout(&mut self, time_is_up: bool) -> (res: Option<
        ExpectationResult<M>,
    >)
        ensures
            old(self)@.len() > 0 ==> final(self)@ == old(self)@.drop_first() && res == Some(
                ExpectationResult::Success(old(self)@[0]),
            ),
            old(self)@.len() == 0 ==> final(self)@ == old(self)@ && res == if time_is_up {
                Some(ExpectationResult::<M>::Timeout)
            } else {
                None
            },
            final(self).same_probe(old(self)),
    {
        match self.messages.pop_front() {
            Some(message) => {
                assert(self.messages@ =~= old(self)@.drop_first());
                Some(ExpectationResult::Success(message))
            },
            None => {
                if time_is_up {
                    Some(ExpectationResult::Timeout)
                } else {
                    None
                }
            },
        }
    }

    /// Look whether any message has come, for as long as an expectation waits
    /// unless something else is said.
    pub fn expect_any_message(&mut self, waited_ms: u64) -> (res: Option<ExpectationResult<M>>)
        ensures
            old(self)@.len() > 0 ==> final(self)@ == old(self)@.drop_first() && res == Some(
                ExpectationResult::Success(old(self)@[0]),
            ),
            old(self)@.len() == 0 ==> final(self)@ == old(self)@ && res == if waited_ms
                >= EXPECT_TIMEOUT_MS {
                Some(ExpectationResult::<M>::Timeout)
            } else {
                None
            },
            final(self).same_probe(old(self)),
    {
        self.expect_any_message_timeout(waited_ms >= EXPECT_TIMEOUT_MS)
    }

    /// Look whether no message has come.
    pub fn expect_no_message(&self) -> (res: ExpectationResult<()>)
        ensures
            if self@.len() == 0 {
                res == ExpectationResult::Success(())
            } else {
                res matches ExpectationResult::WrongContent { expected, actual } && expected@
                    == "no message"@ && actual@ == queue_text(self@.len())
            },
    {
        let n: usize = self.messages.len();
        if n == 0 {
            ExpectationResult::Success(())
        } else {
            ExpectationResult::WrongContent {
                expected: "no message".to_owned(),
                actual: decimal_text(n as u64).concat(" messages in queue"),
            }
        }
    }

    /// The number of queued messages.
    pub fn message_count(&self) -> (n: usize)
        ensures
            n == self@.len(),
    {
        self.messages.len()
    }

    /// Take all queued messages out.
    pub fn drain_messages(&mut self) -> (list: Vec<M>)
        ensures
            list@ == old(self)@,
            final(self)@ == Seq::<M>::empty(),
            final(self).same_probe(old(self)),
    {
        let mut list: Vec<M> = Vec::new();
        while self.messages.len() > 0
            invariant
                list@ + self.messages@ == old(self)@,
                self.same_probe(old(self)),
            decreases self.messages@.len(),
        {
            let ghost before = list@ + self.messages@;
            match self.messages.pop_front() {
                Some(message) => list.push(message),
                None => {},
            }
            assert(list@ + self.messages@ =~= before);
        }
        assert(list@ =~= old(self)@);
        assert(self@ =~= Seq::<M>::empty());
        list
    }

    /// A copy of the first queued message.
    pub fn peek_message(&self) -> (res: Option<M>) where M: Clone
        ensures
            match res {
                Some(copy) => self@.len() > 0 && cloned(self@[0], copy),
                None => self@.len() == 0,
            },
    {
        if self.messages.len() == 0 {
            None
        } else {
            Some(self.messages[0].clone())
        }
    }
}

/// How long an expectation waits: a second in all unless something else is said,
/// with a look at the queue every hundredth of a second.
pub proof fn law_expectations_wait_a_second()
    ensures
        EXPECT_TIMEOUT_MS == 1000,
        EXPECT_POLL_MS == 10,
{
}

/// A probe keeps copies of the messages of its type, in the order in which they
/// come, and ignores all others. It starts with none.
pub proof fn law_probes_keep_messages_in_order<M: Message + Clone, N>(
    probe: &mut TestProbe<M, N>,
    r: ActorRef<TestMessage, N>,
    id: IncarnationId,
    msg: &TestMessage,
)
    ensures
        call_ensures(TestProbe::<M, N>::new, (r, id), *old(probe)) ==> old(probe).actor_ref == r
            && old(probe).id == id && old(probe).messages@.len() == 0,
        call_ensures(TestProbe::<M, N>::handle, (probe, msg), ()) ==> {
            let before = old(probe).messages@;
            let after = final(probe).messages@;
            &&& final(probe).actor_ref == old(probe).actor_ref
            &&& final(probe).id == old(probe).id
            &&& boxed_as::<M>(msg.content) is None ==> after == before
            &&& boxed_as::<M>(msg.content) matches Some(message) ==> after.len() == before.len() + 1
                && after.drop_last() == before && cloned(message, after.last())
        },
{
    let before = old(probe).messages@;
    assert forall|copy: M| #[trigger] before.push(copy).drop_last() == before by {
        assert(before.push(copy).drop_last() =~= before);
    }
}

/// An expectation takes the first message that came and holds it against the
/// expected one. Where none came it goes on until the time is up, and nothing is
/// taken.
pub proof fn law_expectations_look_at_the_first_message<M: Message + PartialEq, N>(
    probe: &mut TestProbe<M, N>,
    expected: &M,
    time_is_up: bool,
    waited_ms: u64,
    res: Option<ExpectationResult<M>>,
)
    requires
        call_ensures(
            TestProbe::<M, N>::expect_message_timeout,
            (probe, expected, time_is_up),
            res,
        ) || (call_ensures(TestProbe::<M, N>::expect_message, (probe, expected, waited_ms), res)
            && time_is_up == (waited_ms >= 1000)),
    ensures
        ({
            let before = old(probe).messages@;
            let after = final(probe).messages@;
            &&& final(probe).actor_ref == old(probe).actor_ref
            &&& final(probe).id == old(probe).id
            &&& before.len() == 0 ==> after == before && (res is Some <==> time_is_up) && (
            res matches Some(r) ==> r is Timeout)
            &&& before.len() > 0 ==> after == before.drop_first() && exists|same: bool| #[trigger]
                call_ensures(M::eq, (&before[0], expected), same) && match res {
                    Some(ExpectationResult::Success(message)) => same && message == before[0],
                    Some(ExpectationResult::WrongContent { expected: e, actual: a }) => !same
                        && describes(*expected, e) && describes(before[0], a),
                    _ => false,
                }
        }),
{
}

/// An expectation of any message takes the first one that came. Where none came
/// it goes on until the time is up.
pub proof fn law_any_message_is_the_first_message<M: Message, N>(
    probe: &mut TestProbe<M, N>,
    time_is_up: bool,
    waited_ms: u64,
    res: Option<ExpectationResult<M>>,
)
    requires
        call_ensures(
            TestProbe::<M, N>::expect_any_message_timeout,
            (probe, time_is_up),
            res,
        ) || (call_ensures(TestProbe::<M, N>::expect_any_message, (probe, waited_ms), res)
            && time_is_up == (waited_ms >= 1000)),
    ensures
        ({
            let before = old(probe).messages@;
            let after = final(probe).messages@;
            &&& final(probe).actor_ref == old(probe).actor_ref
            &&& final(probe).id == old(probe).id
            &&& before.len() == 0 ==> after == before && (res is Some <==> time_is_up) && (
            res matches Some(r) ==> r is Timeout)
            &&& before.len() > 0 ==> after == before.drop_first() && res == Some(
                ExpectationResult::Success(before[0]),
            )
        }),
{
}

/// The queue of a probe is counted, found empty or not, and emptied, in the order
/// in which its messages came.
pub proof fn law_queues_are_counted_and_emptied<M: Message, N>(
    probe: &mut TestProbe<M, N>,
    res: ExpectationResult<()>,
    n: usize,
    list: Vec<M>,
)
    ensures
        call_ensures(TestProbe::<M, N>::expect_no_message, (&*old(probe),), res) ==> {
            &&& res is Success <==> old(probe).messages@.len() == 0
            &&& old(probe).messages@.len() > 0 ==> (res matches ExpectationResult::WrongContent {
                expected,
                actual,
            } && expected@ == "no message"@ && actual@ == decimal(old(probe).messages@.len())
                + " messages in queue"@)
        },
        call_ensures(TestProbe::<M, N>::message_count, (&*old(probe),), n) ==> n
            == old(probe).messages@.len(),
        call_ensures(TestProbe::<M, N>::drain_messages, (probe,), list) ==> list@
            == old(probe).messages@ && final(probe).messages@.len() == 0 && final(probe).actor_ref
            == old(probe).actor_ref && final(probe).id == old(probe).id,
{
}

/// What came of an expectation is told apart, and the message of one that was met
/// is the one that came.
pub proof fn law_results_are_told_apart<T>(res: ExpectationResult<T>, value: T, yes: bool)
    ensures
        call_ensures(ExpectationResult::<T>::unwrap, (res,), value) ==> (
        res matches ExpectationResult::Success(v) && v == value),
        call_ensures(ExpectationResult::<T>::is_success, (&res,), yes) ==> (yes <==> res
            is Success),
        call_ensures(ExpectationResult::<T>::is_timeout, (&res,), yes) ==> (yes <==> res
            is Timeout),
{
}

/// A message is described by how its type describes it.
proof fn law_descriptions_are_those_of_the_type<T: std::fmt::Debug>(value: T, text: String)
    ensures
        describes(value, text) ==> call_ensures(debug_text::<T>, (&value,), text),
{
}

/// A probe tells its actor and its name.
pub proof fn law_probes_tell_their_actor_and_name<M: Message, N>(
    probe: &TestProbe<M, N>,
    r: &ActorRef<TestMessage, N>,
    id: IncarnationId,
)
    ensures
        call_ensures(TestProbe::<M, N>::actor_ref, (probe,), r) ==> *r == probe.actor_ref,
        call_ensures(TestProbe::<M, N>::probe_id, (probe,), id) ==> id == probe.id,
{
}

/// Peeking shows a copy of the message that came first, and leaves the queue.
pub proof fn law_peeking_shows_the_first_message<M: Message + Clone, N>(
    probe: &TestProbe<M, N>,
    res: Option<M>,
)
    requires
        call_ensures(TestProbe::<M, N>::peek_message, (probe,), res),
    ensures
        res is Some <==> probe.messages@.len() > 0,
        res matches Some(copy) ==> cloned(probe.messages@[0], copy),
{
}

} // verus!
