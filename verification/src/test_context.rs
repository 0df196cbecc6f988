//! A stand-in for the context of an actor, for tests of single handlers.

use crate::error::{ActorError, ActorFault};
use crate::incarnation::{drawn, is_version_4, IncarnationId};
use crate::mailbox::unit_result;
use vstd::prelude::*;

verus! {

/// Records what an actor does while it handles a message.
pub struct TestContext<M> {
    /// The messages that the actor sent.
    pub sent_messages: Vec<M>,
    /// Whether the message waits for a reply.
    pub is_ask: bool,
    /// The reply.
    pub response: Option<M>,
}

/// The context that the actor is shown. What it does is recorded.
pub struct MockActorContext<'a, M> {
    pub context: &'a mut TestContext<M>,
}

impl<M> TestContext<M> {
    /// A context for a message that waits for no reply.
    pub fn new() -> (context: Self)
        ensures
            context.sent_messages@ == Seq::<M>::empty(),
            !context.is_ask,
            context.response is None,
    {
        TestContext { sent_messages: Vec::new(), is_ask: false, response: None }
    }

    /// A context for a message that waits for a reply.
    pub fn new_ask() -> (context: Self)
        ensures
            context.sent_messages@ == Seq::<M>::empty(),
            context.is_ask,
            context.response is None,
    {
        TestContext { sent_messages: Vec::new(), is_ask: true, response: None }
    }

    /// The context to show to the actor.
    pub fn mock_actor_context(&mut self) -> (mock: MockActorContext<'_, M>)
        ensures
            *mock.context == *old(self),
            *final(mock.context) == *final(self),
    {
        MockActorContext { context: self }
    }

    /// Copies of the messages that the actor sent.
    pub fn sent_messages(&self) -> (list: Vec<M>) where M: Clone
        ensures
            list@.len() == self.sent_messages@.len(),
            forall|i: int|
                0 <= i < list@.len() ==> cloned(self.sent_messages@[i], #[trigger] list@[i]),
    {
        self.sent_messages.clone()
    }

    /// A copy of the reply.
    pub fn response(&self) -> (res: Option<M>) where M: Clone
        ensures
            match self.response {
                Some(reply) => res matches Some(copy) && cloned(reply, copy),
                None => res is None,
            },
    {
        self.response.clone()
    }

    /// Forget what was recorded.
    pub fn clear(&mut self)
        ensures
            final(self).sent_messages@ == Seq::<M>::empty(),
            final(self).response is None,
            final(self).is_ask == old(self).is_ask,
    {
        self.sent_messages.clear();
        self.response = None;
    }
}

impl<M> Default for TestContext<M> {
    fn default() -> (context: Self)
        ensures
            context.sent_messages@ == Seq::<M>::empty(),
            !context.is_ask,
            context.response is None,
    {
        TestContext::new()
    }
}

impl<'a, M> MockActorContext<'a, M> {
    /// What is recorded so far.
    pub open spec fn recorded(&self) -> TestContext<M> {
        *self.context
    }

    /// Record a message as sent.
    pub fn record_sent_message(&mut self, message: M)
        ensures
            final(self).context.sent_messages@ == old(self).context.sent_messages@.push(message),
            final(self).context.is_ask == old(self).context.is_ask,
            final(self).context.response == old(self).context.response,
            *final(final(self).context) == *final(old(self).context),
    {
        self.context.sent_messages.push(message);
    }

    /// Record a reply. Only a message that waits for one can be replied to.
    pub fn mock_respond(&mut self, response: M) -> (res: Result<(), ActorError>)
        ensures
            unit_result(res) == if old(self).context.is_ask {
                Ok(())
            } else {
                Err::<(), ActorFault>(
                    ActorFault::MessageDeliveryFailed("Cannot respond: not an ask request"@),
                )
            },
            final(self).context.response == if old(self).context.is_ask {
                Some(response)
            } else {
                old(self).context.response
            },
            final(self).context.sent_messages == old(self).context.sent_messages,
            final(self).context.is_ask == old(self).context.is_ask,
            *final(final(self).context) == *final(old(self).context),
    {
        if !self.context.is_ask {
            return Err(
                ActorError::MessageDeliveryFailed("Cannot respond: not an ask request".to_owned()),
            );
        }
        self.context.response = Some(response);
        Ok(())
    }

    /// Whether the message waits for a reply.
    pub fn is_ask_request(&self) -> (yes: bool)
        ensures
            yes == self.recorded().is_ask,
    {
        self.context.is_ask
    }

    /// An id for a message that waits for a reply.
    pub fn correlation_id(&self) -> (res: Option<IncarnationId>)
        ensures
            match res {
                Some(id) => self.recorded().is_ask && drawn(id.bits) && is_version_4(id.bits),
                None => !self.recorded().is_ask,
            },
    {
        if self.context.is_ask {
            Some(IncarnationId::fresh())
        } else {
            None
        }
    }
}

/// A context for a test starts with nothing recorded, and waits for a reply or
/// not as it was made to.
pub proof fn law_contexts_start_with_nothing_recorded<M>(context: TestContext<M>)
    ensures
        call_ensures(TestContext::<M>::new, (), context) || call_ensures(
            <TestContext<M> as Default>::default,
            (),
            context,
        ) ==> !context.is_ask && context.sent_messages@.len() == 0 && context.response is None,
        call_ensures(TestContext::<M>::new_ask, (), context) ==> context.is_ask
            && context.sent_messages@.len() == 0 && context.response is None,
{
}

/// Clearing a context forgets what was recorded, and not what it waits for.
pub proof fn law_cleared_contexts_have_nothing_recorded<M>(context: &mut TestContext<M>)
    requires
        call_ensures(TestContext::<M>::clear, (context,), ()),
    ensures
        final(context).sent_messages@.len() == 0,
        final(context).response is None,
        final(context).is_ask == old(context).is_ask,
{
}

/// What an actor sends is recorded behind what it sent before, and nothing else
/// is recorded of it.
pub proof fn law_sent_messages_are_recorded_in_order<'a, M>(
    mock: &mut MockActorContext<'a, M>,
    message: M,
)
    requires
        call_ensures(MockActorContext::<'a, M>::record_sent_message, (mock, message), ()),
    ensures
        final(mock).context.sent_messages@.len() == old(mock).context.sent_messages@.len() + 1,
        final(mock).context.sent_messages@.last() == message,
        final(mock).context.sent_messages@.drop_last() == old(mock).context.sent_messages@,
        final(mock).context.is_ask == old(mock).context.is_ask,
        final(mock).context.response == old(mock).context.response,
{
    assert(old(mock).context.sent_messages@.push(message).drop_last()
        =~= old(mock).context.sent_messages@);
}

/// A reply is recorded exactly where one is waited for; elsewhere it is refused
/// and nothing changes.
pub proof fn law_only_asks_are_replied_to<'a, M>(
    mock: &mut MockActorContext<'a, M>,
    response: M,
    res: Result<(), ActorError>,
)
    requires
        call_ensures(MockActorContext::<'a, M>::mock_respond, (mock, response), res),
    ensures
        res is Ok <==> old(mock).context.is_ask,
        res is Ok ==> final(mock).context.response == Some(response),
        res matches Err(e) ==> e@ == ActorFault::MessageDeliveryFailed(
            "Cannot respond: not an ask request"@,
        ) && final(mock).context.response == old(mock).context.response,
        final(mock).context.sent_messages == old(mock).context.sent_messages,
        final(mock).context.is_ask == old(mock).context.is_ask,
{
}

/// A message that waits for a reply is known as one, and has an id.
pub proof fn law_only_asks_have_ids<'a, M>(
    mock: &MockActorContext<'a, M>,
    context: TestContext<M>,
    yes: bool,
    id: Option<IncarnationId>,
)
    requires
        *mock.context == context,
    ensures
        call_ensures(MockActorContext::<'a, M>::is_ask_request, (mock,), yes) ==> (yes
            <==> context.is_ask),
        call_ensures(MockActorContext::<'a, M>::correlation_id, (mock,), id) ==> (id is Some
            <==> context.is_ask) && (id matches Some(i) ==> drawn(i.bits)),
{
}

/// What is shown of a context are copies of what was recorded.
pub proof fn law_recorded_messages_are_copied<M: Clone>(
    context: &TestContext<M>,
    list: Vec<M>,
    res: Option<M>,
)
    ensures
        call_ensures(TestContext::<M>::sent_messages, (context,), list) ==> list@.len()
            == context.sent_messages@.len() && forall|i: int|
            0 <= i < list@.len() ==> cloned(context.sent_messages@[i], #[trigger] list@[i]),
        call_ensures(TestContext::<M>::response, (context,), res) ==> (res is Some
            <==> context.response is Some) && (res matches Some(copy) ==> cloned(
            context.response->0,
            copy,
        )),
{
}

/// What the actor is shown is the context itself: what is recorded there is
/// recorded in it.
pub proof fn law_shown_contexts_are_the_context<'a, M>(
    context: &'a mut TestContext<M>,
    mock: MockActorContext<'a, M>,
)
    requires
        call_ensures(TestContext::<M>::mock_actor_context, (context,), mock),
    ensures
        *old(mock.context) == *old(context),
        *final(mock.context) == *final(context),
{
}

} // verus!
