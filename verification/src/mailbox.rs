use tokio::sync::mpsc;
use tokio::sync::oneshot;
use vstd::prelude::*;

verus! {

/// `tokio::sync::oneshot::Sender`: the sending end of a channel for a single
/// value. Nothing is known of what is inside.
#[verifier::external_type_specification]
#[verifier::external_body]
#[verifier::reject_recursive_types(A)]
pub struct ExReplySender<A>(oneshot::Sender<A>);

/// `tokio::sync::oneshot::Receiver`: the receiving end of a channel for a
/// single value. Nothing is known of what is inside.
#[verifier::external_type_specification]
#[verifier::external_body]
#[verifier::reject_recursive_types(A)]
pub struct ExReplyReceiver<A>(oneshot::Receiver<A>);

/// `tokio::sync::oneshot::error::RecvError`: what a receiving end yields
/// when its sender went away without sending. It is the output of the
/// receiving end as a future, which is why it is named here.
#[verifier::external_type_specification]
#[verifier::external_body]
pub struct ExReplyLost(oneshot::error::RecvError);

/// `tokio::sync::mpsc::Sender`: a sending end of a bounded queue. Nothing is
/// known of what is inside.
#[verifier::external_type_specification]
#[verifier::external_body]
#[verifier::reject_recursive_types(M)]
pub struct ExMailboxSender<M>(mpsc::Sender<M>);

/// `tokio::sync::mpsc::Receiver`: the receiving end of a bounded queue.
/// Nothing is known of what is inside.
#[verifier::external_type_specification]
#[verifier::external_body]
#[verifier::reject_recursive_types(M)]
pub struct ExMailboxReceiver<M>(mpsc::Receiver<M>);

/// The largest capacity that a mailbox can be opened with.
pub const MAX_CAPACITY: usize = usize::MAX >> 3;

/// `tokio::sync::mpsc::channel`: opens a bounded queue and returns its two
/// ends. It panics on a capacity of zero or above the semaphore's limit,
/// which `requires` leaves out. Nothing is claimed of the ends.
#[verifier::external_body]
pub(crate) fn open_mailbox<M>(capacity: usize) -> (ends: (mpsc::Sender<M>, mpsc::Receiver<M>))
    requires
        0 < capacity <= MAX_CAPACITY,
{
    mpsc::channel(capacity)
}

/// `tokio::sync::oneshot::channel`: opens a channel for a single value and
/// returns its two ends. Nothing is claimed of them.
#[verifier::external_body]
pub(crate) fn open_reply<A>() -> (ends: (oneshot::Sender<A>, oneshot::Receiver<A>)) {
    oneshot::channel()
}

/// `tokio::sync::oneshot::Sender::send`: hands `value` to the receiving end.
/// Where that end is gone, the call fails and gives the same value back.
#[verifier::external_body]
pub(crate) fn send_reply<A>(respond_to: oneshot::Sender<A>, value: A) -> (r: Result<(), A>)
    ensures
        r matches Err(back) ==> back == value,
{
    respond_to.send(value)
}

/// `Clone::clone` of `tokio::sync::mpsc::Sender`: a further sending end of
/// the same queue. Nothing is claimed of it.
#[verifier::external_body]
pub(crate) fn share_sender<M>(sender: &mpsc::Sender<M>) -> (r: mpsc::Sender<M>) {
    sender.clone()
}

/// Whether a reply found its receiver.
#[derive(Debug, PartialEq, Eq, Clone, Copy)]
pub enum Delivery {
    /// The receiving end was there to take the reply.
    Delivered,
    /// The caller had gone; the reply was discarded.
    Dropped,
}

/// Sends the one reply that a request is owed, and says whether anyone was
/// there to take it. A reply that nobody takes is no failure of the actor.
/// Whether the receiving end is still there is not for the sender to know
/// beforehand, so nothing is promised of the answer; [`Delivery::of`] says
/// what each result of the send means.
pub fn deliver<A>(respond_to: oneshot::Sender<A>, value: A) -> (d: Delivery)
{
    Delivery::of(send_reply(respond_to, value))
}

impl Delivery {
    /// What the result of a send means: a send that succeeded found its
    /// receiver; one that gave the value back found nobody, and the value is
    /// discarded.
    pub fn of<A>(sent: Result<(), A>) -> (d: Delivery)
        ensures
            d == match sent {
                Ok(()) => Delivery::Delivered,
                Err(_) => Delivery::Dropped,
            },
    {
        match sent {
            Ok(()) => Delivery::Delivered,
            Err(_) => Delivery::Dropped,
        }
    }
}

} // verus!
