use vstd::prelude::*;

use crate::error::ActixSendError;

verus! {

/// Maps the result of an actor's message enum back to the result type of one
/// message; `Err(TypeCast)` when the result belongs to another message.
pub trait MapResult<M>: Sized {
    type Output;

    fn map(msg: M) -> Result<Self::Output, ActixSendError>;
}

/// How an attempt to queue a message ended.
#[derive(Clone, Copy, PartialEq, Eq, Structural, Debug)]
pub enum Delivery {
    /// The message was queued.
    Sent,
    /// The actor's channel is closed (or the receiving actor is gone).
    Closed,
    /// The message could not be queued within the timeout.
    TimedOut,
}

/// The result of queueing a message: a timeout is `Timeout`, a closed channel `Closed`.
pub fn delivery_result(d: Delivery) -> (r: Result<(), ActixSendError>)
    ensures
        d == Delivery::Sent ==> r is Ok,
        d == Delivery::Closed ==> r == Err::<(), ActixSendError>(ActixSendError::Closed),
        d == Delivery::TimedOut ==> r == Err::<(), ActixSendError>(ActixSendError::Timeout),
{
    match d {
        Delivery::Sent => Ok(()),
        Delivery::Closed => Err(ActixSendError::Closed),
        Delivery::TimedOut => Err(ActixSendError::Timeout),
    }
}

/// The state of a reply that was asked for.
pub enum Reply<T> {
    /// The actor answered with this value.
    Value(T),
    /// The actor dropped the reply channel without answering.
    Dropped,
    /// No answer yet.
    Pending,
}

/// What a stream of requests hands out once its reply is polled: the answer,
/// `Canceled` when the actor dropped the reply channel, or nothing yet (the
/// stream keeps waiting on the same reply).
pub fn reply_outcome<T>(reply: Reply<T>) -> (r: Option<Result<T, ActixSendError>>)
    ensures
        reply matches Reply::Value(v) ==> r == Some(Ok::<T, ActixSendError>(v)),
        reply is Dropped ==> r == Some(Err::<T, ActixSendError>(ActixSendError::Canceled)),
        reply is Pending ==> r is None,
{
    match reply {
        Reply::Value(v) => Some(Ok(v)),
        Reply::Dropped => Some(Err(ActixSendError::Canceled)),
        Reply::Pending => None,
    }
}

/// The answers of all subscribers to one message, one per subscriber and in
/// the order given: a subscriber that cannot take this message type answers
/// `TypeCast`.
pub open spec fn subscribe_results_spec(answers: Seq<Option<Result<(), ActixSendError>>>) -> Seq<
    Result<(), ActixSendError>,
> {
    answers.map_values(
        |a: Option<Result<(), ActixSendError>>|
            match a {
                Some(r) => r,
                None => Err(ActixSendError::TypeCast),
            },
    )
}

/// Collects the subscribers' answers; `None` stands for a subscriber whose
/// actor cannot handle the message type.
pub fn subscribe_results(answers: Vec<Option<Result<(), ActixSendError>>>) -> (r: Vec<
    Result<(), ActixSendError>,
>)
    ensures
        r@ == subscribe_results_spec(answers@),
{
    let mut out: Vec<Result<(), ActixSendError>> = Vec::new();
    let mut i: usize = 0;
    while i < answers.len()
        invariant
            i <= answers@.len(),
            out@ =~= subscribe_results_spec(answers@).take(i as int),
        decreases answers@.len() - i,
    {
        let a = match answers[i] {
            Some(r) => r,
            None => Err(ActixSendError::TypeCast),
        };
        out.push(a);
        i = i + 1;
    }
    assert(subscribe_results_spec(answers@).take(answers@.len() as int) =~= subscribe_results_spec(answers@));
    out
}

/// Whether the drop of a strong address that found `previous` strong
/// addresses, itself included, dropped the last one; the actors then shut
/// down.
pub fn last_address_dropped(previous: usize) -> (r: bool)
    ensures
        r == (previous == 1),
{
    previous == 1
}

/// The answer of an address without the feature that was asked for: a single
/// error (`Broadcast` or `Subscribe`).
pub fn feature_disabled<T>(e: ActixSendError) -> (r: Vec<Result<T, ActixSendError>>)
    ensures
        r@ == seq![Err::<T, ActixSendError>(e)],
{
    let mut v: Vec<Result<T, ActixSendError>> = Vec::new();
    v.push(Err(e));
    v
}

} // verus!
