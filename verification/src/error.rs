//! Errors of the actor runtime.

use vstd::prelude::*;

verus! {

/// What can go wrong with an actor.
#[derive(Debug)]
pub enum ActorError {
    /// The actor could not be created.
    ActorCreationFailed(String),
    /// A message could not be handed over.
    MessageDeliveryFailed(String),
    /// The network refused a message.
    NetworkError(String),
    /// The actor panicked.
    Panic(String),
}

/// An actor error with its text.
pub enum ActorFault {
    ActorCreationFailed(Seq<char>),
    MessageDeliveryFailed(Seq<char>),
    NetworkError(Seq<char>),
    Panic(Seq<char>),
}

impl View for ActorError {
    type V = ActorFault;

    open spec fn view(&self) -> ActorFault {
        match self {
            ActorError::ActorCreationFailed(s) => ActorFault::ActorCreationFailed(s@),
            ActorError::MessageDeliveryFailed(s) => ActorFault::MessageDeliveryFailed(s@),
            ActorError::NetworkError(s) => ActorFault::NetworkError(s@),
            ActorError::Panic(s) => ActorFault::Panic(s@),
        }
    }
}

/// The text of a panic payload, given what it holds: a borrowed text, an owned
/// one, or neither.
pub open spec fn panic_text(as_str: Option<Seq<char>>, as_string: Option<Seq<char>>) -> Seq<char> {
    match (as_str, as_string) {
        (Some(s), _) => s,
        (None, Some(s)) => s,
        (None, None) => "unknown panic payload"@,
    }
}

/// The view of an optional text.
pub open spec fn text_option(s: Option<&str>) -> Option<Seq<char>> {
    match s {
        Some(t) => Some(t@),
        None => None,
    }
}

/// Describe a panic by its payload, as the caller found it to be: a `&str`, a
/// `String`, or something else.
pub fn extract_panic_message(as_str: Option<&str>, as_string: Option<&str>) -> (text: String)
    ensures
        text@ == panic_text(text_option(as_str), text_option(as_string)),
{
    match as_str {
        Some(s) => s.to_owned(),
        None => match as_string {
            Some(s) => s.to_owned(),
            None => "unknown panic payload".to_owned(),
        },
    }
}

/// A panic is described by the text that it carries, borrowed or owned, and one
/// without a text by a text that says so.
pub proof fn law_panics_are_described_by_their_texts(
    as_str: Option<&str>,
    as_string: Option<&str>,
    text: String,
)
    requires
        call_ensures(extract_panic_message, (as_str, as_string), text),
    ensures
        as_str matches Some(s) ==> text@ == s@,
        as_str is None ==> (as_string matches Some(s) ==> text@ == s@),
        as_str is None && as_string is None ==> text@ == "unknown panic payload"@,
{
}

/// The view of an error is an error of the same kind with the same text.
pub proof fn law_errors_are_shown_as_they_are(e: &ActorError)
    ensures
        match e {
            ActorError::ActorCreationFailed(s) => e@ == ActorFault::ActorCreationFailed(s@),
            ActorError::MessageDeliveryFailed(s) => e@ == ActorFault::MessageDeliveryFailed(s@),
            ActorError::NetworkError(s) => e@ == ActorFault::NetworkError(s@),
            ActorError::Panic(s) => e@ == ActorFault::Panic(s@),
        },
{
}

} // verus!
