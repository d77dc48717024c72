//! How a call on a handle turns into messages, and how their fate turns into the call's result.

use vstd::prelude::*;
use crate::error::Error;

verus! {

/// A message that is sent and then left alone: see [`post_result`].
pub struct Post<'a, S, E> {
    /// The channel that `event` is sent on.
    pub to: &'a S,
    pub event: E,
}

/// A message whose sender waits for a reply: see [`request_result`].
pub struct Request<'a, S, E> {
    /// The channel that `event` is sent on.
    pub to: &'a S,
    pub event: E,
}

/// A message that stops a thread and whose sender waits until it has stopped: see [`stop_result`].
pub struct Stop<S, E> {
    /// The channel that `event` is sent on.
    pub to: S,
    pub event: E,
}

/// The result of a call that made a [`Post`], given whether the message could be sent.
///
/// `None` stands for a call that cannot return, because the thread it talks to is gone.
pub fn post_result(delivered: bool) -> (result: Option<Result<(), Error>>)
    ensures
        delivered ==> result == Some(Ok::<(), Error>(())),
        !delivered ==> result is None,
{
    if delivered {
        Some(Ok(()))
    } else {
        None
    }
}

/// The result of a call that made a [`Request`], given the reply. Whether the message could be sent
/// is not asked: if it could not, no reply comes.
///
/// `None` stands for a reply that cannot come any more, because the thread it is expected from is
/// gone, and for the call that cannot return on that account.
pub fn request_result<T>(reply: Option<Result<T, Error>>) -> (result: Option<Result<T, Error>>)
    ensures
        result == reply,
{
    reply
}

/// Whether a [`Stop`] is over: the message was sent, and the thread acknowledged it. Otherwise the
/// stopping handle cannot go on.
pub fn stop_result(delivered: bool, acknowledged: bool) -> (stopped: bool)
    ensures
        stopped <==> delivered && acknowledged,
{
    delivered && acknowledged
}

} // verus!
