//! A message that can hold any other, for tests.

use crate::erased::{boxed_as, ErasedBox};
use crate::incarnation::{drawn, is_version_4, IncarnationId};
use crate::message::Message;
use vstd::prelude::*;
use vstd::string::StringExecFns;

verus! {

/// A message that holds a message of any type.
#[derive(Debug)]
pub struct TestMessage {
    /// The message.
    pub content: ErasedBox,
    /// The name of its type.
    pub type_label: &'static str,
    /// Tells the message apart from others.
    pub id: IncarnationId,
}

/// What a copy of a message holds in place of its content.
pub open spec fn copy_text(type_label: Seq<char>) -> Seq<char> {
    "Cloned TestMessage (original type: "@ + type_label + ")"@
}

impl TestMessage {
    /// Wrap a message, with the name of its type.
    pub fn new<M: Message>(message: M, type_label: &'static str) -> (wrapped: Self)
        ensures
            boxed_as::<M>(wrapped.content) == Some(message),
            wrapped.type_label == type_label,
            drawn(wrapped.id.bits),
            is_version_4(wrapped.id.bits),
    {
        TestMessage {
            content: ErasedBox::new(message),
            type_label,
            id: IncarnationId::fresh(),
        }
    }

    /// The message, if it is an `M`.
    pub fn extract<M: Message>(&self) -> (res: Option<&M>)
        ensures
            match res {
                Some(message) => boxed_as::<M>(self.content) == Some(*message),
                None => boxed_as::<M>(self.content) is None,
            },
    {
        self.content.get::<M>()
    }

    /// Take the message out, if it is an `M`; the wrapper comes back otherwise.
    pub fn into_inner<M: Message>(self) -> (res: Result<M, TestMessage>)
        ensures
            match res {
                Ok(message) => boxed_as::<M>(self.content) == Some(message),
                Err(back) => boxed_as::<M>(self.content) is None && back == self,
            },
    {
        match self.content.take::<M>() {
            Ok(message) => Ok(message),
            Err(content) => Err(
                TestMessage { content, type_label: self.type_label, id: self.id },
            ),
        }
    }
}

impl Message for TestMessage {
    fn type_id(&self) -> (name: &'static str)
        ensures
            name@ == "TestMessage"@,
    {
        "TestMessage"
    }
}

impl Clone for TestMessage {
    /// A message cannot be copied without knowing its type. The copy holds a
    /// text instead.
    fn clone(&self) -> (copy: Self)
        ensures
            boxed_as::<String>(copy.content) matches Some(text) && text@ == copy_text(
                self.type_label@,
            ),
            copy.type_label == self.type_label,
            copy.id == self.id,
    {
        let text: String = "Cloned TestMessage (original type: ".to_owned().concat(
            self.type_label,
        ).concat(")");
        TestMessage { content: ErasedBox::new(text), type_label: self.type_label, id: self.id }
    }
}

/// A wrapped message is found again as what it was, and taken out as that. Under
/// another type it is not there, and the wrapper comes back as it was.
pub proof fn law_wrapped_messages_are_found<M: Message>(
    message: M,
    type_label: &'static str,
    wrapped: TestMessage,
    seen: Option<&M>,
    taken: Result<M, TestMessage>,
)
    ensures
        call_ensures(TestMessage::new::<M>, (message, type_label), wrapped) ==> boxed_as::<M>(
            wrapped.content,
        ) == Some(message) && wrapped.type_label == type_label && drawn(wrapped.id.bits),
        call_ensures(TestMessage::extract::<M>, (&wrapped,), seen) ==> (seen is Some
            <==> boxed_as::<M>(wrapped.content) is Some) && (seen matches Some(m) ==> boxed_as::<
            M,
        >(wrapped.content) == Some(*m)),
        call_ensures(TestMessage::into_inner::<M>, (wrapped,), taken) ==> (taken is Ok
            <==> boxed_as::<M>(wrapped.content) is Some) && (taken matches Ok(m) ==> boxed_as::<M>(
            wrapped.content,
        ) == Some(m)) && (taken matches Err(back) ==> back == wrapped),
{
}

/// A copy of a wrapped message has its label and its id, and holds a text that
/// names the label.
pub proof fn law_copies_hold_a_text(wrapped: &TestMessage, copy: TestMessage)
    requires
        call_ensures(<TestMessage as Clone>::clone, (wrapped,), copy),
    ensures
        copy.type_label == wrapped.type_label,
        copy.id == wrapped.id,
        boxed_as::<String>(copy.content) matches Some(text) && text@
            == "Cloned TestMessage (original type: "@ + wrapped.type_label@ + ")"@,
{
}

/// All wrapped messages have one type of their own.
pub proof fn law_wrapped_messages_have_their_own_type(wrapped: &TestMessage, name: &'static str)
    requires
        call_ensures(<TestMessage as Message>::type_id, (wrapped,), name),
    ensures
        name@ == "TestMessage"@,
{
}

} // verus!
