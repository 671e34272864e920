//! The typed, asynchronous request/reply transport used for every
//! inter-module call.
//!
//! A request carries its payload together with an embedded single-use reply
//! channel. Sending delivers the request to the receiving task's inbound
//! queue and returns at once; the requester then awaits the reply channel.
//! The reply channel's sending half is consumed by the one call that answers
//! it, so a request can be answered at most once, by construction.
//!
//! The queues themselves are tokio's unbounded multi-producer single-consumer
//! channels, and the reply channels tokio's oneshot channels, both taken on
//! trust through the declarations below; everything this crate states about
//! registries and payloads holds whatever those channels do at run time.

use vstd::prelude::*;

verus! {

/// A transport-level failure, distinct from every domain error: the peer
/// task or its channel is gone.
#[derive(Clone, Copy, Debug, PartialEq, Eq, Structural)]
pub enum MessageError {
    /// The receiving task's inbound queue is closed; the request was never
    /// delivered.
    SendFailure,
    /// The reply channel closed without a reply; whether the operation was
    /// applied on the other side is unknown.
    ReceiveFailure,
}

/// Relies on tokio's `mpsc::UnboundedSender`: the sending half of an
/// unbounded queue.
#[verifier::external_type_specification]
#[verifier::external_body]
#[verifier::reject_recursive_types(T)]
pub struct ExUnboundedSender<T>(tokio::sync::mpsc::UnboundedSender<T>);

/// Relies on tokio's `mpsc::UnboundedReceiver`: the receiving half of an
/// unbounded queue.
#[verifier::external_type_specification]
#[verifier::external_body]
#[verifier::reject_recursive_types(T)]
pub struct ExUnboundedReceiver<T>(tokio::sync::mpsc::UnboundedReceiver<T>);

/// Relies on tokio's `mpsc::error::SendError`: the rejected message, handed
/// back when the queue is closed.
#[verifier::external_type_specification]
#[verifier::external_body]
#[verifier::reject_recursive_types(T)]
pub struct ExSendError<T>(tokio::sync::mpsc::error::SendError<T>);

/// Relies on tokio's `oneshot::Sender`: the sending half of a single-use
/// channel, consumed by its one send.
#[verifier::external_type_specification]
#[verifier::external_body]
#[verifier::reject_recursive_types(T)]
pub struct ExOneshotSender<T>(tokio::sync::oneshot::Sender<T>);

/// Relies on tokio's `oneshot::Receiver`: the awaitable receiving half of a
/// single-use channel.
#[verifier::external_type_specification]
#[verifier::external_body]
#[verifier::reject_recursive_types(T)]
pub struct ExOneshotReceiver<T>(tokio::sync::oneshot::Receiver<T>);

/// Relies on tokio's `oneshot::error::RecvError`: the error a requester's
/// await resolves to when the replying side was dropped without answering.
#[verifier::external_type_specification]
#[verifier::external_body]
pub struct ExOneshotRecvError(tokio::sync::oneshot::error::RecvError);

/// Relies on tokio's `mpsc::unbounded_channel`: a fresh queue's two
/// endpoints.
pub assume_specification<T>[ tokio::sync::mpsc::unbounded_channel::<T> ]() -> (r: (
    tokio::sync::mpsc::UnboundedSender<T>,
    tokio::sync::mpsc::UnboundedReceiver<T>,
));

/// Relies on tokio's `UnboundedSender::send`: delivers the message without
/// waiting, failing exactly when the receiving half is closed; which of the
/// two happens depends on the run-time state of the peer task.
pub assume_specification<T>[ tokio::sync::mpsc::UnboundedSender::<T>::send ](
    s: &tokio::sync::mpsc::UnboundedSender<T>,
    message: T,
) -> (r: Result<(), tokio::sync::mpsc::error::SendError<T>>);

/// Relies on tokio's `Clone` for `UnboundedSender`: one more sending handle
/// to the same queue.
pub assume_specification<T>[ <tokio::sync::mpsc::UnboundedSender<T> as Clone>::clone ](
    s: &tokio::sync::mpsc::UnboundedSender<T>,
) -> (r: tokio::sync::mpsc::UnboundedSender<T>);

/// Relies on tokio's `oneshot::channel`: a fresh single-use channel's two
/// endpoints.
pub assume_specification<T>[ tokio::sync::oneshot::channel::<T> ]() -> (r: (
    tokio::sync::oneshot::Sender<T>,
    tokio::sync::oneshot::Receiver<T>,
));

/// Relies on tokio's `oneshot::Sender::send`: consumes the sender, so at
/// most one value ever crosses the channel, and hands the value back
/// unchanged exactly when the receiver is already gone.
pub assume_specification<T>[ tokio::sync::oneshot::Sender::<T>::send ](
    s: tokio::sync::oneshot::Sender<T>,
    t: T,
) -> (r: Result<(), T>)
    ensures
        r matches Err(v) ==> v == t,
;

/// A task's handle for sending typed messages into another task's inbound
/// queue. Delivery is first-in first-out per sender.
#[verifier::reject_recursive_types(T)]
pub struct MessageSender<T> {
    sender: tokio::sync::mpsc::UnboundedSender<T>,
}

/// A task's private inbound queue end; the owning task's loop awaits on it
/// and processes one message fully before taking the next.
#[verifier::reject_recursive_types(T)]
pub struct MessageReceiver<T> {
    receiver: tokio::sync::mpsc::UnboundedReceiver<T>,
}

/// A fresh queue: many senders may hold clones of the first endpoint, the
/// receiving task alone holds the second.
pub fn message_channel<T>() -> (MessageSender<T>, MessageReceiver<T>) {
    let (sender, receiver) = tokio::sync::mpsc::unbounded_channel();
    (MessageSender { sender }, MessageReceiver { receiver })
}

impl<T> MessageSender<T> {
    /// Delivers `message` to the receiving task's queue and returns at once;
    /// the send itself never blocks on a reply. Fails exactly when the
    /// receiving task's queue is gone — so the one failure it can report is
    /// `SendFailure`, never a reply-side error.
    pub fn send(&self, message: T) -> (r: Result<(), MessageError>)
        ensures
            r matches Err(e) ==> e == MessageError::SendFailure,
    {
        match self.sender.send(message) {
            Ok(()) => Ok(()),
            Err(_) => Err(MessageError::SendFailure),
        }
    }
}

impl<T> Clone for MessageSender<T> {
    fn clone(&self) -> Self {
        MessageSender { sender: self.sender.clone() }
    }
}

impl<T> MessageReceiver<T> {
    /// Surrenders the raw queue end to the task loop that awaits on it.
    pub fn into_inner(self) -> tokio::sync::mpsc::UnboundedReceiver<T> {
        self.receiver
    }
}

/// What a remote call's caller sees once the two layers of its outcome are
/// flattened: the transport failed, or the peer answered with a domain
/// error. The two layers stay distinct by construction — a transport failure
/// is never dressed up as a domain error, nor the reverse.
#[derive(Debug, PartialEq)]
pub enum CallError<E> {
    /// The request or its reply never crossed: the peer task is gone.
    Transport(MessageError),
    /// The peer answered, refusing the operation for a domain reason.
    Domain(E),
}

/// Flattens a remote call's two result layers — the transport verdict around
/// the domain result — into a single call-site result, so call sites read
/// like ordinary calls.
pub fn flatten_reply<T, E>(outcome: Result<Result<T, E>, MessageError>) -> (r: Result<
    T,
    CallError<E>,
>)
    ensures
        (match outcome {
            Ok(Ok(v)) => r == Ok::<T, CallError<E>>(v),
            Ok(Err(e)) => r == Err::<T, CallError<E>>(CallError::Domain(e)),
            Err(m) => r == Err::<T, CallError<E>>(CallError::Transport(m)),
        }),
{
    match outcome {
        Ok(Ok(v)) => Ok(v),
        Ok(Err(e)) => Err(CallError::Domain(e)),
        Err(m) => Err(CallError::Transport(m)),
    }
}

/// The sending half of one request's reply channel. It is consumed by its
/// one `send`, which is what makes "respond to a request exactly once" hold
/// at the type level rather than by convention.
#[verifier::reject_recursive_types(R)]
pub struct ReplySender<R> {
    sender: tokio::sync::oneshot::Sender<R>,
}

impl<R> ReplySender<R> {
    /// Sends the reply, consuming the channel; hands the reply back
    /// unchanged exactly when the requester is already gone.
    pub fn send(self, response: R) -> (r: Result<(), R>)
        ensures
            r matches Err(v) ==> v == response,
    {
        self.sender.send(response)
    }
}

/// A request as it travels to a receiving task: the payload, and the
/// single-use channel its reply must be sent on.
#[verifier::reject_recursive_types(R)]
pub struct Request<D, R> {
    pub data: D,
    pub reply: ReplySender<R>,
}

impl<D, R> Request<D, R> {
    /// A new request around `data`, paired with the receiver on which the
    /// requester awaits the reply.
    pub fn new(data: D) -> (r: (Request<D, R>, tokio::sync::oneshot::Receiver<R>))
        ensures
            r.0.data == data,
    {
        let (sender, receiver) = tokio::sync::oneshot::channel();
        (Request { data, reply: ReplySender { sender } }, receiver)
    }
}

} // verus!
