//! What the library relies on from `std::sync::mpsc` and `std::sync::Arc`.
//!
//! A channel is filled and emptied by other threads, so what a send or a
//! receive gives back depends on the state of the whole program: of those
//! results only what std documents for every outcome is promised (a refused
//! send carries its message back). A clone of a handle is a second handle on
//! the same channel (or the same shared counter), and is treated as equal to
//! the handle it was made from.

use crate::scheduler::CompMsg;
use std::sync::atomic::AtomicUsize;
use std::sync::mpsc::{Receiver, RecvError, SendError, Sender, SyncSender, TryRecvError};
use std::sync::Arc;
use vstd::prelude::*;

verus! {

#[verifier::external_type_specification]
#[verifier::external_body]
#[verifier::reject_recursive_types(T)]
pub struct ExSyncSender<T>(SyncSender<T>);

#[verifier::external_type_specification]
#[verifier::external_body]
#[verifier::reject_recursive_types(T)]
pub struct ExSender<T>(Sender<T>);

#[verifier::external_type_specification]
#[verifier::external_body]
#[verifier::reject_recursive_types(T)]
pub struct ExReceiver<T>(Receiver<T>);

/// `SendError<T>` is `pub struct SendError<T>(pub T)`: its one field, public,
/// is the packet that could not be sent, and Verus is let see it.
#[verifier::external_type_specification]
#[verifier::reject_recursive_types(T)]
pub struct ExSendError<T>(SendError<T>);

#[verifier::external_type_specification]
#[verifier::external_body]
pub struct ExRecvError(RecvError);

#[verifier::external_type_specification]
#[verifier::external_body]
pub struct ExTryRecvError(TryRecvError);

/// `std::sync::mpsc::sync_channel`: a new bounded channel. Nothing is claimed
/// of the two handles beyond their types.
pub assume_specification<T>[ std::sync::mpsc::sync_channel::<T> ](bound: usize) -> (SyncSender<
    T,
>, Receiver<T>);

/// `SyncSender::send`: blocks until there is room, then hands the message to
/// the channel; `Err` once the receiving half is gone, and the error carries
/// the unsent message back (as std documents). Which of the two comes back
/// depends on other threads, so only that payload is claimed.
pub assume_specification<T>[ SyncSender::<T>::send ](sender: &SyncSender<T>, t: T) -> (r: Result<
    (),
    SendError<T>,
>)
    ensures
        r matches Err(e) ==> e.0 == t,
;

/// `Sender::send`: hands the message to an unbounded channel; `Err` once the
/// receiving half is gone, and the error carries the unsent message back (as
/// std documents). Which of the two comes back depends on other threads, so
/// only that payload is claimed.
pub assume_specification<T>[ Sender::<T>::send ](sender: &Sender<T>, t: T) -> (r: Result<
    (),
    SendError<T>,
>)
    ensures
        r matches Err(e) ==> e.0 == t,
;

/// `Receiver::recv`: blocks until a message arrives, `Err` once every sender
/// is gone. The outcome depends on other threads: nothing is claimed of it.
pub assume_specification<T>[ Receiver::<T>::recv ](receiver: &Receiver<T>) -> Result<T, RecvError>;

/// `Receiver::try_recv`: a pending message, or `Err` when there is none (or
/// every sender is gone). The outcome depends on other threads: nothing is
/// claimed of it.
pub assume_specification<T>[ Receiver::<T>::try_recv ](receiver: &Receiver<T>) -> Result<
    T,
    TryRecvError,
>;

/// A channel answer as a traced receiver records it: the packet, or `None`
/// for a refusal (nothing waiting, or every sender gone).
pub open spec fn read_of<T, E>(outcome: Result<T, E>) -> Option<T> {
    match outcome {
        Ok(m) => Some(m),
        Err(_) => None,
    }
}

/// A receiving half that keeps, as ghost state, every answer its channel gave
/// through it, and how many of them it waited for.
///
/// The fields are private to this module: the record moves only through
/// `try_recv` and `recv` below, whose contracts say what each answer adds.
#[verifier::reject_recursive_types(T)]
pub struct TracedReceiver<T> {
    receiver: Receiver<T>,
    answers: Ghost<Seq<Option<T>>>,
    waits: Ghost<nat>,
}

impl<T> TracedReceiver<T> {
    /// The channel read.
    pub closed spec fn channel(&self) -> Receiver<T> {
        self.receiver
    }

    /// Every answer the channel gave through this handle, oldest first.
    pub closed spec fn answers(&self) -> Seq<Option<T>> {
        self.answers@
    }

    /// How many of those answers came from a blocking receive.
    pub closed spec fn waits(&self) -> nat {
        self.waits@
    }

    /// A traced handle on `receiver`, with nothing recorded yet.
    pub(crate) fn new(receiver: Receiver<T>) -> (r: Self)
        ensures
            r.channel() == receiver,
            r.answers() == Seq::<Option<T>>::empty(),
            r.waits() == 0,
    {
        TracedReceiver { receiver, answers: Ghost(Seq::empty()), waits: Ghost(0) }
    }

    /// `Receiver::try_recv` on the traced channel: a pending message, or `Err`
    /// when there is none (or every sender is gone); it never blocks. Which
    /// comes back depends on other threads; what is claimed is that the
    /// answer is recorded, and nothing else.
    #[verifier::external_body]
    pub(crate) fn try_recv(&mut self) -> (r: Result<T, TryRecvError>)
        ensures
            final(self).channel() == old(self).channel(),
            final(self).answers() == old(self).answers().push(read_of(r)),
            final(self).waits() == old(self).waits(),
    {
        self.receiver.try_recv()
    }

    /// `Receiver::recv` on the traced channel: blocks until a message
    /// arrives, `Err` once every sender is gone. Which comes back depends on
    /// other threads; what is claimed is that the answer is recorded as one
    /// that was waited for.
    #[verifier::external_body]
    pub(crate) fn recv(&mut self) -> (r: Result<T, RecvError>)
        ensures
            final(self).channel() == old(self).channel(),
            final(self).answers() == old(self).answers().push(read_of(r)),
            final(self).waits() == old(self).waits() + 1,
    {
        self.receiver.recv()
    }
}

/// `<SyncSender<T> as Clone>::clone`: a second handle on the same channel,
/// which the library treats as equal to the first.
#[verifier::external_body]
pub(crate) fn clone_sync_sender<T>(sender: &SyncSender<T>) -> (r: SyncSender<T>)
    ensures
        r == *sender,
{
    sender.clone()
}

/// `<Sender<CompMsg> as Clone>::clone`: a second handle on the scheduler's
/// channel, which the library treats as equal to the first.
#[verifier::external_body]
pub(crate) fn clone_scheduler(sender: &Sender<CompMsg>) -> (r: Sender<CompMsg>)
    ensures
        r == *sender,
{
    sender.clone()
}

/// `<Arc<AtomicUsize> as Clone>::clone`: a second pointer to the same shared
/// counter, which Verus models as the counter itself.
#[verifier::external_body]
pub(crate) fn share_counter(counter: &Arc<AtomicUsize>) -> (r: Arc<AtomicUsize>)
    ensures
        r == *counter,
{
    counter.clone()
}

} // verus!
