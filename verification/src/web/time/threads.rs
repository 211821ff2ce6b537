//! Thread-safe sleep.
//!
//! Timers are bound to the JavaScript thread that created them, so on a target
//! with thread support all timers are registered on one dedicated thread and
//! their expiry is signalled back over a channel.
use crate::duration::Duration;
use crate::poll::Poll;
use crate::web::channel::{signal, signal_channel};
use crate::web::time::js::JsSleep;
use tokio::sync::{mpsc, oneshot};
use vstd::prelude::*;

verus! {

/// A sleep that is requested from the thread that registers the timers.
pub struct SleepReq {
    /// How long to sleep.
    pub duration: Duration,
    /// Where the expiry is signalled.
    pub wake_tx: oneshot::Sender<()>,
}

/// Whether some call of [`mpsc::UnboundedSender::send`] on this sender with this
/// request has had this outcome: whether the request could be sent.
pub uninterp spec fn post_gave(
    tx: mpsc::UnboundedSender<SleepReq>,
    req: SleepReq,
    sent: bool,
) -> bool;

/// [`mpsc::UnboundedSender::send`] hands the message back if it could not be sent
/// because the receiver is gone, which is up to the thread that owns it.
#[verifier::external_body]
fn post(sender: &mpsc::UnboundedSender<SleepReq>, req: SleepReq) -> (r: Result<(), SleepReq>)
    ensures
        post_gave(*sender, req, r is Ok),
        r matches Err(unsent) ==> unsent == req,
{
    sender.send(req).map_err(|unsent| unsent.0)
}

/// Thread-safe sleep wrapper.
pub struct Sleep {
    /// Where the expiry arrives.
    pub wake_rx: oneshot::Receiver<()>,
}

/// The thread that registers the timers has failed.
#[derive(Clone, Copy, Debug, PartialEq, Eq, Structural)]
pub struct SleepThreadFailed;

impl SleepThreadFailed {
    /// The display representation of this error.
    pub fn to_string(&self) -> (r: String)
        ensures
            r@ == "sleep thread failed"@,
    {
        "sleep thread failed".to_string()
    }
}

impl Sleep {
    /// Whether signalling the expiry of the request ends this sleep.
    pub open spec fn ended_by(self, req: SleepReq) -> bool {
        crate::web::channel::oneshot_feeds(req.wake_tx, self.wake_rx)
    }

    /// Whether signalling the expiry of the request ends this sleep and no other one.
    pub open spec fn ended_alone_by(self, req: SleepReq) -> bool {
        &&& self.ended_by(req)
        &&& forall|other: Sleep| #[trigger] other.ended_by(req) ==> other == self
    }

    /// A sleep of the specified duration and the request that has to be sent to
    /// the thread that registers the timers.
    pub fn request(duration: Duration) -> (r: (Self, SleepReq))
        ensures
            r.1.duration == duration,
            r.0.ended_alone_by(r.1),
    {
        let (wake_tx, wake_rx) = signal_channel();
        (Sleep { wake_rx }, SleepReq { duration, wake_tx })
    }

    /// Starts a sleep of the specified duration on the thread that registers the
    /// timers. If that has failed, the request is handed back.
    pub fn new(duration: Duration, sleep_tx: &mpsc::UnboundedSender<SleepReq>) -> (r: Result<
        Self,
        SleepReq,
    >)
        ensures
            match r {
                Ok(sleep) => exists|req: SleepReq|
                    req.duration == duration && sleep.ended_alone_by(req) && #[trigger] post_gave(
                        *sleep_tx,
                        req,
                        true,
                    ),
                Err(req) => req.duration == duration && post_gave(*sleep_tx, req, false),
            },
    {
        let (sleep, req) = Self::request(duration);
        match post(sleep_tx, req) {
            Ok(()) => Ok(sleep),
            Err(unsent) => Err(unsent),
        }
    }

    /// Waits until the sleep duration has elapsed, given what was received from
    /// the thread that registers the timers.
    pub fn poll(received: Poll<Result<(), oneshot::error::RecvError>>) -> (r: Poll<
        Result<(), SleepThreadFailed>,
    >)
        ensures
            r == match received {
                Poll::Ready(Ok(_)) => Poll::Ready(Ok(())),
                Poll::Ready(Err(_)) => Poll::Ready(Err(SleepThreadFailed)),
                Poll::Pending => Poll::Pending,
            },
    {
        match received {
            Poll::Ready(Ok(())) => Poll::Ready(Ok(())),
            Poll::Ready(Err(_)) => Poll::Ready(Err(SleepThreadFailed)),
            Poll::Pending => Poll::Pending,
        }
    }
}

/// A requested sleep on the thread that registers the timers.
pub struct SleepJob {
    /// Where the expiry is signalled, as long as the job has not ended.
    pub wake_tx: Option<oneshot::Sender<()>>,
}

/// How a requested sleep has ended.
#[derive(Clone, Copy, Debug, PartialEq, Eq, Structural)]
pub enum SleepJobEnd {
    /// The sleep duration has elapsed and this was signalled.
    Expired,
    /// Nobody waits for the sleep anymore.
    Abandoned,
}

impl SleepJob {
    /// Accepts a request.
    ///
    /// Returns the job, the sleep that it performs and the delay in milliseconds for
    /// which the timer of the sleep has to be armed first.
    pub fn accept<W>(req: SleepReq) -> (r: (Self, JsSleep<W>, i32))
        ensures
            r.0.wake_tx == Some(req.wake_tx),
            r.1.wf(),
            !r.1.fired(),
            r.1.waker() is None,
            r.1.timer() is None,
            crate::web::time::js::timeouts(req.duration@) == seq![r.2 as nat] + r.1.due(),
            req.duration@ <= r.2 * 1_000_000 + r.1.remaining_nanos() < req.duration@ + 1_000_000,
            r.1.remaining_nanos() > 0 ==> r.2 == i32::MAX,
    {
        let (sleep, timeout) = JsSleep::new(req.duration);
        (SleepJob { wake_tx: Some(req.wake_tx) }, sleep, timeout)
    }

    /// Takes note of what polling the sleep and polling whether the requester is
    /// gone gave. The sleep comes first.
    pub fn advance(&mut self, sleep: Poll<()>, gone: Poll<()>) -> (r: Poll<SleepJobEnd>)
        ensures
            r == match (sleep, gone) {
                (Poll::Ready(_), _) => Poll::Ready(SleepJobEnd::Expired),
                (Poll::Pending, Poll::Ready(_)) => Poll::Ready(SleepJobEnd::Abandoned),
                (Poll::Pending, Poll::Pending) => Poll::Pending,
            },
            sleep is Ready && old(self).wake_tx is Some ==> exists|sent: bool| #[trigger]
                crate::web::channel::signal_gave(old(self).wake_tx->Some_0, sent),
            r is Ready ==> final(self).wake_tx is None,
            r is Pending ==> *final(self) == *old(self),
    {
        match sleep {
            Poll::Ready(()) => {
                if let Some(wake_tx) = self.wake_tx.take() {
                    let _ = signal(wake_tx);
                }
                Poll::Ready(SleepJobEnd::Expired)
            },
            Poll::Pending => match gone {
                Poll::Ready(()) => {
                    self.wake_tx = None;
                    Poll::Ready(SleepJobEnd::Abandoned)
                },
                Poll::Pending => Poll::Pending,
            },
        }
    }
}

/// A requested sleep is for the duration that was asked for, and signalling its expiry
/// reaches the one who asked and nobody else.
pub proof fn law_request_belongs_to_its_sleep(
    duration: Duration,
    requested: (Sleep, SleepReq),
    wake_rx: oneshot::Receiver<()>,
)
    requires
        call_ensures(Sleep::request, (duration,), requested),
    ensures
        requested.1.duration == duration,
        crate::web::channel::oneshot_feeds(requested.1.wake_tx, wake_rx) <==> wake_rx
            == requested.0.wake_rx,
{
    let other = Sleep { wake_rx };
    assert(other.ended_by(requested.1) ==> other == requested.0);
    assert(requested.0.ended_by(requested.1));
}

/// A sleep that was started has sent a request for the duration that was asked for, whose
/// expiry reaches that sleep and no other one. If the request could not be sent, it is
/// handed back.
pub proof fn law_started_sleep_was_requested(
    duration: Duration,
    sleep_tx: mpsc::UnboundedSender<SleepReq>,
    started: Result<Sleep, SleepReq>,
) -> (req: SleepReq)
    requires
        call_ensures(Sleep::new, (duration, &sleep_tx), started),
    ensures
        req.duration == duration,
        post_gave(sleep_tx, req, started is Ok),
        started matches Ok(sleep) ==> forall|wake_rx: oneshot::Receiver<()>| #[trigger]
            crate::web::channel::oneshot_feeds(req.wake_tx, wake_rx) <==> wake_rx
                == sleep.wake_rx,
        started matches Err(unsent) ==> unsent == req,
{
    match started {
        Ok(sleep) => {
            let req = choose|req: SleepReq|
                req.duration == duration && sleep.ended_alone_by(req) && #[trigger] post_gave(
                    sleep_tx,
                    req,
                    true,
                );
            assert forall|wake_rx: oneshot::Receiver<()>| #[trigger]
                crate::web::channel::oneshot_feeds(req.wake_tx, wake_rx) <==> wake_rx
                    == sleep.wake_rx by {
                let other = Sleep { wake_rx };
                assert(other.ended_by(req) ==> other == sleep);
                assert(sleep.ended_by(req));
            }
            req
        },
        Err(req) => req,
    }
}

/// A request that was accepted is served by timers that last the requested duration,
/// rounded up by less than a millisecond, the first of which is armed at once.
pub proof fn law_accepted_request_lasts_the_duration<W>(
    req: SleepReq,
    accepted: (SleepJob, JsSleep<W>, i32),
    left: Duration,
)
    requires
        call_ensures(SleepJob::accept::<W>, (req,), accepted),
        call_ensures(JsSleep::<W>::remaining, (&accepted.1,), left),
    ensures
        accepted.0.wake_tx == Some(req.wake_tx),
        !accepted.1.fired(),
        req.duration@ <= accepted.2 * 1_000_000 + left@ < req.duration@ + 1_000_000,
        left@ > 0 ==> accepted.2 == i32::MAX,
{
}

/// A requested sleep that has elapsed is signalled, even if the requester is gone; one
/// that has not and whose requester is gone is abandoned; any other one goes on.
pub proof fn law_sleep_is_signalled_when_it_has_elapsed(
    job: &mut SleepJob,
    sleep: Poll<()>,
    gone: Poll<()>,
    progress: Poll<SleepJobEnd>,
)
    requires
        job.wake_tx is Some,
        call_ensures(SleepJob::advance, (job, sleep, gone), progress),
    ensures
        sleep is Ready ==> progress == Poll::Ready(SleepJobEnd::Expired),
        sleep is Ready ==> exists|sent: bool| #[trigger]
            crate::web::channel::signal_gave(old(job).wake_tx->Some_0, sent),
        sleep is Pending && gone is Ready ==> progress == Poll::Ready(SleepJobEnd::Abandoned),
        sleep is Pending && gone is Pending ==> progress is Pending && final(job).wake_tx
            == old(job).wake_tx,
{
}

} // verus!
