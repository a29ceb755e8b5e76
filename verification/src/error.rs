use vstd::prelude::*;

use async_channel::SendError;
use tokio::sync::oneshot::error::RecvError;

verus! {

/// The error of `tokio`'s oneshot receiver when its sender is dropped first.
#[verifier::external_type_specification]
#[verifier::external_body]
pub struct ExRecvError(RecvError);

/// The error of `async-channel`'s `send` when the channel is closed; it hands the
/// message back.
#[verifier::external_type_specification]
#[verifier::external_body]
#[verifier::reject_recursive_types(T)]
pub struct ExSendError<T>(SendError<T>);

/// Every way in which talking to an actor can fail.
#[derive(Clone, Copy, PartialEq, Eq, Structural)]
pub enum ActixSendError {
    Canceled,
    Closed,
    Timeout,
    Blocking,
    TypeCast,
    Subscribe,
    Broadcast,
}

/// The name of the cause that the error reports.
pub open spec fn cause_text(e: ActixSendError) -> Seq<char> {
    match e {
        ActixSendError::Canceled => "Canceled"@,
        ActixSendError::Closed => "Closed"@,
        ActixSendError::Timeout => "Timeout"@,
        ActixSendError::Blocking => "Blocking"@,
        ActixSendError::TypeCast => "TypeCast"@,
        ActixSendError::Subscribe => "Subscribe"@,
        ActixSendError::Broadcast => "Broadcast"@,
    }
}

/// The sentence that explains the cause.
pub open spec fn description_text(e: ActixSendError) -> Seq<char> {
    match e {
        ActixSendError::Canceled => "Oneshot channel is closed before we send anything through it"@,
        ActixSendError::Closed => "Actor's message channel is closed"@,
        ActixSendError::Timeout => "Could not process the message in time"@,
        ActixSendError::Blocking => "Failed to run blocking code"@,
        ActixSendError::TypeCast => "Failed to downcast from dyn Any to a concrete type"@,
        ActixSendError::Subscribe => "This address can not be subscribed"@,
        ActixSendError::Broadcast => "This address can not broadcasting"@,
    }
}

/// The debug rendering of the error: its name, its cause and its description.
pub open spec fn debug_text(e: ActixSendError) -> Seq<char> {
    "ActixSendError { cause: \""@ + cause_text(e) + "\", description: \""@ + description_text(e)
        + "\" }"@
}

/// The display rendering of the error: its debug rendering in parentheses.
pub open spec fn display_text(e: ActixSendError) -> Seq<char> {
    "("@ + debug_text(e) + ")"@
}

impl ActixSendError {
    /// The name of the cause.
    pub fn cause(&self) -> (s: &'static str)
        ensures
            s@ == cause_text(*self),
    {
        match self {
            ActixSendError::Canceled => "Canceled",
            ActixSendError::Closed => "Closed",
            ActixSendError::Timeout => "Timeout",
            ActixSendError::Blocking => "Blocking",
            ActixSendError::TypeCast => "TypeCast",
            ActixSendError::Subscribe => "Subscribe",
            ActixSendError::Broadcast => "Broadcast",
        }
    }

    /// The sentence that explains the cause.
    pub fn description(&self) -> (s: &'static str)
        ensures
            s@ == description_text(*self),
    {
        match self {
            ActixSendError::Canceled => "Oneshot channel is closed before we send anything through it",
            ActixSendError::Closed => "Actor's message channel is closed",
            ActixSendError::Timeout => "Could not process the message in time",
            ActixSendError::Blocking => "Failed to run blocking code",
            ActixSendError::TypeCast => "Failed to downcast from dyn Any to a concrete type",
            ActixSendError::Subscribe => "This address can not be subscribed",
            ActixSendError::Broadcast => "This address can not broadcasting",
        }
    }

    /// The debug rendering: `ActixSendError { cause: "..", description: ".." }`.
    pub fn debug_string(&self) -> (s: String)
        ensures
            s@ == debug_text(*self),
    {
        let mut s = String::from_str("ActixSendError { cause: \"");
        s.append(self.cause());
        s.append("\", description: \"");
        s.append(self.description());
        s.append("\" }");
        s
    }

    /// The display rendering: the debug rendering in parentheses.
    pub fn display_string(&self) -> (s: String)
        ensures
            s@ == display_text(*self),
    {
        let debug = self.debug_string();
        let mut s = String::from_str("(");
        s.append(debug.as_str());
        s.append(")");
        s
    }
}

/// A oneshot reply that never came: the request was canceled.
impl From<RecvError> for ActixSendError {
    fn from(_err: RecvError) -> (r: Self) {
        ActixSendError::Canceled
    }
}

impl vstd::std_specs::convert::FromSpecImpl<RecvError> for ActixSendError {
    open spec fn obeys_from_spec() -> bool {
        true
    }

    open spec fn from_spec(v: RecvError) -> Self {
        ActixSendError::Canceled
    }
}

/// A message that could not be queued: the actor's channel is closed.
impl<M> From<SendError<M>> for ActixSendError {
    fn from(_err: SendError<M>) -> (r: Self) {
        ActixSendError::Closed
    }
}

impl<M> vstd::std_specs::convert::FromSpecImpl<SendError<M>> for ActixSendError {
    open spec fn obeys_from_spec() -> bool {
        true
    }

    open spec fn from_spec(v: SendError<M>) -> Self {
        ActixSendError::Closed
    }
}

} // verus!
