//! Channels between tasks.
//!
//! What is stated here of Tokio's channels is believed, not proved. Whether the
//! other end of a channel still exists and what it has done depends on the other
//! tasks, so nothing is claimed of that.
use tokio::sync::{mpsc, oneshot};
use vstd::prelude::*;

verus! {

/// The sending half of a Tokio channel that carries one value.
#[verifier::external_type_specification]
#[verifier::external_body]
#[verifier::reject_recursive_types(T)]
pub struct ExOneshotSender<T>(oneshot::Sender<T>);

/// The receiving half of a Tokio channel that carries one value.
#[verifier::external_type_specification]
#[verifier::external_body]
#[verifier::reject_recursive_types(T)]
pub struct ExOneshotReceiver<T>(oneshot::Receiver<T>);

/// What Tokio's [`oneshot::Receiver`] reports when the sender was dropped
/// without having sent a value.
#[verifier::external_type_specification]
#[verifier::external_body]
pub struct ExOneshotRecvError(oneshot::error::RecvError);

/// The sending half of a bounded Tokio channel.
#[verifier::external_type_specification]
#[verifier::external_body]
#[verifier::reject_recursive_types(T)]
pub struct ExMpscSender<T>(mpsc::Sender<T>);

/// The receiving half of a bounded Tokio channel.
#[verifier::external_type_specification]
#[verifier::external_body]
#[verifier::reject_recursive_types(T)]
pub struct ExMpscReceiver<T>(mpsc::Receiver<T>);

/// The sending half of an unbounded Tokio channel.
#[verifier::external_type_specification]
#[verifier::external_body]
#[verifier::reject_recursive_types(T)]
pub struct ExMpscUnboundedSender<T>(mpsc::UnboundedSender<T>);

/// [`oneshot::channel`] returns the two halves of a new channel. Nothing more is
/// claimed of them here; that two halves were returned together is what makes
/// them [`halves`] of one channel.
pub assume_specification<T>[ oneshot::channel::<T> ]() -> (r: (
    oneshot::Sender<T>,
    oneshot::Receiver<T>,
));

/// [`oneshot::Sender::send`] hands the value back if it could not be sent
/// because the receiver is gone.
pub assume_specification<T>[ oneshot::Sender::<T>::send ](
    sender: oneshot::Sender<T>,
    t: T,
) -> (r: Result<(), T>)
    ensures
        r matches Err(unsent) ==> unsent == t,
;

/// Whether these are the two halves of one channel: whether some call of
/// [`oneshot::channel`] has returned them together.
pub open spec fn halves<R>(tx: oneshot::Sender<R>, rx: oneshot::Receiver<R>) -> bool {
    call_ensures(oneshot::channel::<R>, (), (tx, rx))
}

/// A value that is about to be sent.
#[verifier::reject_recursive_types(R)]
pub struct Delivery<R> {
    /// The value.
    pub value: R,
    /// Where it has to be sent.
    pub tx: oneshot::Sender<R>,
}

impl<R> Delivery<R> {
    /// Sends the value. If the receiver was dropped in the meantime, which is up to
    /// its owner, the value is handed back.
    ///
    /// The result is what [`oneshot::Sender::send`] gave for this sender and this value.
    pub fn send(self) -> (r: Result<(), R>)
        ensures
            call_ensures(oneshot::Sender::<R>::send, (self.tx, self.value), r),
            r matches Err(unsent) ==> unsent == self.value,
    {
        self.tx.send(self.value)
    }
}

/// Whether what this sender sends arrives at this receiver: whether the receiver
/// is the one that [`oneshot::channel`] has returned with this sender.
pub uninterp spec fn oneshot_feeds(tx: oneshot::Sender<()>, rx: oneshot::Receiver<()>) -> bool;

/// [`oneshot::channel`] returns the two halves of a new channel: what the
/// sender sends arrives at the receiver and at no other one.
#[verifier::external_body]
pub(crate) fn signal_channel() -> (r: (oneshot::Sender<()>, oneshot::Receiver<()>))
    ensures
        oneshot_feeds(r.0, r.1),
        forall|rx: oneshot::Receiver<()>| #[trigger] oneshot_feeds(r.0, rx) ==> rx == r.1,
{
    oneshot::channel()
}

/// Whether some call of [`oneshot::Sender::send`] on this sender has had this
/// outcome: whether the signal could be sent.
pub uninterp spec fn signal_gave(tx: oneshot::Sender<()>, sent: bool) -> bool;

/// [`oneshot::Sender::send`] sends a signal, unless the receiver is gone. Which of
/// these it was is up to the task that owns the receiver.
#[verifier::external_body]
pub(crate) fn signal(tx: oneshot::Sender<()>) -> (r: bool)
    ensures
        signal_gave(tx, r),
{
    tx.send(()).is_ok()
}

/// Whether what this sender sends arrives at this receiver: whether the receiver
/// is the one that [`mpsc::channel`] has returned with this sender, or with the
/// one that it is a clone of.
pub uninterp spec fn mpsc_feeds(tx: mpsc::Sender<()>, rx: mpsc::Receiver<()>) -> bool;

/// What [`mpsc::Sender::max_capacity`] gives: the number of messages for which the
/// channel of this sender has room.
pub uninterp spec fn mpsc_room(tx: mpsc::Sender<()>) -> nat;

/// [`mpsc::channel`] returns the two halves of a new channel with room for this
/// number of messages: what the sender sends arrives at the receiver and at no
/// other one. It panics if the channel has no room for a message, or for more of
/// them than Tokio's semaphore can count.
#[verifier::external_body]
pub(crate) fn request_channel(buffer: usize) -> (r: (mpsc::Sender<()>, mpsc::Receiver<()>))
    requires
        0 < buffer <= usize::MAX / 8,
    ensures
        mpsc_feeds(r.0, r.1),
        forall|rx: mpsc::Receiver<()>| #[trigger] mpsc_feeds(r.0, rx) ==> rx == r.1,
        mpsc_room(r.0) == buffer,
{
    mpsc::channel(buffer)
}

/// Whether some call of [`mpsc::Sender::is_closed`] on this sender has given
/// this answer.
pub uninterp spec fn is_closed_gave(tx: mpsc::Sender<()>, closed: bool) -> bool;

/// [`mpsc::Sender::is_closed`] tells whether the receiver is gone. Which answer it
/// gives is up to the task that owns the receiver.
#[verifier::external_body]
pub(crate) fn is_closed(sender: &mpsc::Sender<()>) -> (r: bool)
    ensures
        is_closed_gave(*sender, r),
{
    sender.is_closed()
}

/// The clone of an [`mpsc::Sender`] belongs to the channel of the original: what
/// it sends arrives where it arrives from the original.
#[verifier::external_body]
pub(crate) fn clone_sender(sender: &mpsc::Sender<()>) -> (r: mpsc::Sender<()>)
    ensures
        forall|rx: mpsc::Receiver<()>| #[trigger]
            mpsc_feeds(r, rx) == mpsc_feeds(*sender, rx),
        mpsc_room(r) == mpsc_room(*sender),
{
    sender.clone()
}

/// What became of a request to abort a task.
#[derive(Clone, Copy, Debug, PartialEq, Eq, Structural)]
pub enum AbortOutcome {
    /// The request was sent to the task.
    Requested,
    /// An earlier request has not been taken notice of yet.
    AlreadyRequested,
    /// The task has ended.
    TaskGone,
    /// There is no way to abort the task anymore, or there never was one.
    NotAbortable,
}

/// Whether some call of [`mpsc::Sender::try_send`] on this sender has had this
/// outcome.
pub uninterp spec fn try_send_gave(tx: mpsc::Sender<()>, outcome: AbortOutcome) -> bool;

/// [`mpsc::Sender::try_send`] puts the message into the channel, unless the
/// channel is full or its receiver is gone. Which of these it was is up to the
/// task that owns the receiver.
#[verifier::external_body]
pub(crate) fn try_request(sender: &mpsc::Sender<()>) -> (r: AbortOutcome)
    ensures
        r !is NotAbortable,
        try_send_gave(*sender, r),
{
    match sender.try_send(()) {
        Ok(()) => AbortOutcome::Requested,
        Err(mpsc::error::TrySendError::Full(())) => AbortOutcome::AlreadyRequested,
        Err(mpsc::error::TrySendError::Closed(())) => AbortOutcome::TaskGone,
    }
}

} // verus!
