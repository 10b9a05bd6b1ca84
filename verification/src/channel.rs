//! The unbounded channel that carries runnable tasks to the event loop thread.
//!
//! Nothing here is proved: every item states what the channel crate does, for the one way in
//! which this library uses it. Both ends of a channel stay together inside one owner, which
//! never clones them, so a channel changes only through the receiver that is borrowed mutably.
use async_task::Runnable;
use crossbeam_channel::{Receiver, SendError, Sender, TryRecvError};
use vstd::prelude::*;

verus! {

/// `async_task::Runnable`, a task that is ready to be polled once. Carried through unread.
#[verifier::external_type_specification]
#[verifier::external_body]
#[verifier::reject_recursive_types(M)]
pub struct ExRunnable<M>(async_task::Runnable<M>);

/// `async_task::Task`, the handle by which the output of a task is awaited. Carried through
/// unread.
#[verifier::external_type_specification]
#[verifier::external_body]
#[verifier::reject_recursive_types(T)]
#[verifier::reject_recursive_types(M)]
pub struct ExTask<T, M>(async_task::Task<T, M>);

/// `crossbeam_channel::Sender`, the end of a channel that messages enter by.
#[verifier::external_type_specification]
#[verifier::external_body]
#[verifier::reject_recursive_types(T)]
pub struct ExSender<T>(crossbeam_channel::Sender<T>);

/// `crossbeam_channel::Receiver`, the end of a channel that messages leave by.
#[verifier::external_type_specification]
#[verifier::external_body]
#[verifier::reject_recursive_types(T)]
pub struct ExReceiver<T>(crossbeam_channel::Receiver<T>);

/// `crossbeam_channel::SendError`, which gives back a message that could not be sent.
#[verifier::external_type_specification]
#[verifier::external_body]
#[verifier::reject_recursive_types(T)]
pub struct ExSendError<T>(crossbeam_channel::SendError<T>);

/// `crossbeam_channel::TryRecvError`, the reason why no message was received.
#[verifier::external_type_specification]
#[verifier::external_body]
pub struct ExTryRecvError(crossbeam_channel::TryRecvError);

/// The messages that wait in the channel of `rx`, the oldest first.
pub uninterp spec fn queued(rx: Receiver<Runnable>) -> Seq<Runnable>;

/// Whether `tx` and `rx` are the two ends, and the only ones, of one unbounded channel.
pub uninterp spec fn linked(tx: Sender<Runnable>, rx: Receiver<Runnable>) -> bool;

/// `crossbeam_channel::unbounded`: makes a channel without messages and gives out its only two
/// ends.
#[verifier::external_body]
pub(crate) fn unbounded() -> (ends: (Sender<Runnable>, Receiver<Runnable>))
    ensures
        linked(ends.0, ends.1),
        queued(ends.1) == Seq::<Runnable>::empty(),
{
    crossbeam_channel::unbounded()
}

/// `crossbeam_channel::Sender::send`: puts a message behind those that wait. It fails only where
/// every receiver is gone, and here `rx` is still held. The call itself needs `tx` alone; `rx` is
/// borrowed because the messages that wait are counted to it.
#[verifier::external_body]
pub(crate) fn send(tx: &Sender<Runnable>, rx: &mut Receiver<Runnable>, runnable: Runnable) -> (sent:
    Result<(), SendError<Runnable>>)
    requires
        linked(*tx, *old(rx)),
    ensures
        sent is Ok,
        linked(*tx, *final(rx)),
        queued(*final(rx)) == queued(*old(rx)).push(runnable),
{
    tx.send(runnable)
}

/// `crossbeam_channel::Receiver::is_empty`: whether no message waits.
#[verifier::external_body]
pub(crate) fn is_empty(rx: &Receiver<Runnable>) -> (empty: bool)
    requires
        exists|tx: Sender<Runnable>| linked(tx, *rx),
    ensures
        empty == (queued(*rx).len() == 0),
{
    rx.is_empty()
}

/// `crossbeam_channel::Receiver::try_recv`: takes the oldest message, and fails, without
/// waiting, where there is none.
#[verifier::external_body]
pub(crate) fn try_recv(rx: &mut Receiver<Runnable>) -> (received: Result<Runnable, TryRecvError>)
    requires
        exists|tx: Sender<Runnable>| linked(tx, *old(rx)),
    ensures
        forall|tx: Sender<Runnable>| linked(tx, *old(rx)) ==> linked(tx, *final(rx)),
        queued(*old(rx)).len() > 0 ==> received == Ok::<Runnable, TryRecvError>(
            queued(*old(rx))[0],
        ) && queued(*final(rx)) == queued(*old(rx)).drop_first(),
        queued(*old(rx)).len() == 0 ==> received is Err && queued(*final(rx)) == queued(*old(rx)),
{
    rx.try_recv()
}

} // verus!
