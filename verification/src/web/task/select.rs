//! Selection between the work of a task and a request to abort it.
//!
//! A task that was spawned on its own is asked for its result first, so what can
//! be joined is joined. A task of a set is aborted first: once its set was dropped,
//! it does not run any further.
use crate::poll::Poll;
use vstd::prelude::*;

verus! {

/// What polling the channel over which a task is aborted gave.
#[derive(Clone, Copy, Debug, PartialEq, Eq, Structural)]
pub enum AbortPoll {
    /// The task has not been aborted so far.
    Pending,
    /// The task was aborted.
    Requested,
    /// Nobody is left who could abort the task.
    Closed,
}

/// What a task has come to.
#[derive(Debug, PartialEq, Eq)]
pub enum Selected<R> {
    /// The work of the task was completed with this result.
    Completed(R),
    /// The task was aborted.
    Aborted,
    /// The task goes on.
    Pending,
}

/// The choice between the work of a task that was spawned on its own and a request
/// to abort it.
///
/// The work is always polled first, so a task that can complete does so even if
/// it was aborted. Once nobody is left who could abort the task, only its work
/// is waited for.
#[derive(Debug)]
pub struct TaskSelect {
    abort_open: bool,
}

/// What a task that was spawned on its own comes to, given whether it can still be
/// aborted and what polling its work and its abort channel gave.
pub open spec fn selected<R>(open: bool, work: Poll<R>, abort: AbortPoll) -> Selected<R> {
    match work {
        Poll::Ready(result) => Selected::Completed(result),
        Poll::Pending => if open && abort is Requested {
            Selected::Aborted
        } else {
            Selected::Pending
        },
    }
}

/// Whether a task can still be aborted afterwards.
pub open spec fn stays_open<R>(open: bool, work: Poll<R>, abort: AbortPoll) -> bool {
    open && !(work is Pending && abort is Closed)
}

impl TaskSelect {
    /// Whether the task can still be aborted.
    pub closed spec fn open(self) -> bool {
        self.abort_open
    }

    /// The choice for a task that was just started.
    pub fn new() -> (r: Self)
        ensures
            r.open(),
    {
        TaskSelect { abort_open: true }
    }

    /// Whether the abort channel has to be polled, given what polling the work gave.
    pub fn polls_abort<R>(&self, work: &Poll<R>) -> (r: bool)
        ensures
            r == (self.open() && work is Pending),
    {
        match work {
            Poll::Ready(_) => false,
            Poll::Pending => self.abort_open,
        }
    }

    /// Chooses, given what polling the work and the abort channel gave.
    pub fn select<R>(&mut self, work: Poll<R>, abort: AbortPoll) -> (r: Selected<R>)
        ensures
            r == selected(old(self).open(), work, abort),
            final(self).open() == stays_open(old(self).open(), work, abort),
    {
        match work {
            Poll::Ready(result) => Selected::Completed(result),
            Poll::Pending => {
                if !self.abort_open {
                    return Selected::Pending;
                }
                match abort {
                    AbortPoll::Pending => Selected::Pending,
                    AbortPoll::Requested => Selected::Aborted,
                    AbortPoll::Closed => {
                        self.abort_open = false;
                        Selected::Pending
                    },
                }
            },
        }
    }
}

/// The choice between the work of a task of a set and a request to abort it.
///
/// The abort channel is always polled first, so the work of an aborted task is not
/// polled again. Once nobody is left who could abort the task, only its work is
/// waited for.
#[derive(Debug)]
pub struct SetSelect {
    abort_open: bool,
}

/// What a task of a set comes to, given whether it can still be aborted and what
/// polling its abort channel and its work gave.
pub open spec fn selected_in_set<R>(open: bool, work: Poll<R>, abort: AbortPoll) -> Selected<R> {
    if open && abort is Requested {
        Selected::Aborted
    } else {
        match work {
            Poll::Ready(result) => Selected::Completed(result),
            Poll::Pending => Selected::Pending,
        }
    }
}

/// Whether a task of a set can still be aborted afterwards.
pub open spec fn stays_open_in_set(open: bool, abort: AbortPoll) -> bool {
    open && abort !is Closed
}

impl SetSelect {
    /// Whether the task can still be aborted.
    pub closed spec fn open(self) -> bool {
        self.abort_open
    }

    /// The choice for a task that was just started.
    pub fn new() -> (r: Self)
        ensures
            r.open(),
    {
        SetSelect { abort_open: true }
    }

    /// Whether the abort channel has to be polled.
    pub fn polls_abort(&self) -> (r: bool)
        ensures
            r == self.open(),
    {
        self.abort_open
    }

    /// Whether the work has to be polled, given what polling the abort channel gave.
    pub fn polls_work(&self, abort: AbortPoll) -> (r: bool)
        ensures
            r == !(self.open() && abort is Requested),
    {
        !(self.abort_open && matches!(abort, AbortPoll::Requested))
    }

    /// Chooses, given what polling the work and the abort channel gave.
    pub fn select<R>(&mut self, work: Poll<R>, abort: AbortPoll) -> (r: Selected<R>)
        ensures
            r == selected_in_set(old(self).open(), work, abort),
            final(self).open() == stays_open_in_set(old(self).open(), abort),
    {
        if !self.polls_work(abort) {
            return Selected::Aborted;
        }
        if let AbortPoll::Closed = abort {
            self.abort_open = false;
        }
        match work {
            Poll::Ready(result) => Selected::Completed(result),
            Poll::Pending => Selected::Pending,
        }
    }
}

/// A task that was spawned on its own and whose work is completed is not aborted,
/// even if it was requested.
pub proof fn law_completion_wins_over_abort<R>(open: bool, result: R, abort: AbortPoll)
    ensures
        selected(open, Poll::Ready(result), abort) == Selected::Completed(result),
{
}

/// What a task that was spawned on its own comes to in a series of polls: `works` and `aborts` are what
/// polling its work and its abort channel gives each time.
pub open spec fn run<R>(open: bool, works: Seq<Poll<R>>, aborts: Seq<AbortPoll>) -> Selected<R>
    decreases works.len(),
{
    if works.len() == 0 || aborts.len() == 0 {
        Selected::Pending
    } else {
        match selected(open, works.first(), aborts.first()) {
            Selected::Pending => run(
                stays_open(open, works.first(), aborts.first()),
                works.drop_first(),
                aborts.drop_first(),
            ),
            ended => ended,
        }
    }
}

/// A task that nobody can abort anymore runs until its work is completed: in no
/// series of polls it is aborted, whatever the abort channel gives.
pub proof fn law_detached_task_is_never_aborted<R>(works: Seq<Poll<R>>, aborts: Seq<AbortPoll>)
    ensures
        run(false, works, aborts) !is Aborted,
    decreases works.len(),
{
    if works.len() > 0 && aborts.len() > 0 {
        law_detached_task_is_never_aborted(works.drop_first(), aborts.drop_first());
    }
}

/// Once the abort channel of a task was found closed, the task runs until its work
/// is completed.
pub proof fn law_closed_abort_channel_detaches<R>(
    open: bool,
    works: Seq<Poll<R>>,
    aborts: Seq<AbortPoll>,
)
    requires
        works.len() > 0,
        aborts.len() > 0,
        aborts.first() is Closed,
    ensures
        run(open, works, aborts) !is Aborted,
{
    law_detached_task_is_never_aborted(works.drop_first(), aborts.drop_first());
}

/// What a task of a set comes to in a series of polls: `works` and `aborts` are what
/// polling its work and its abort channel gives each time.
pub open spec fn run_in_set<R>(
    open: bool,
    works: Seq<Poll<R>>,
    aborts: Seq<AbortPoll>,
) -> Selected<R>
    decreases works.len(),
{
    if works.len() == 0 || aborts.len() == 0 {
        Selected::Pending
    } else {
        match selected_in_set(open, works.first(), aborts.first()) {
            Selected::Pending => run_in_set(
                stays_open_in_set(open, aborts.first()),
                works.drop_first(),
                aborts.drop_first(),
            ),
            ended => ended,
        }
    }
}

/// A task of a set that was requested to abort before it was polled is aborted,
/// whatever its work would give: it does not run at all.
pub proof fn law_aborted_set_task_does_not_run<R>(works: Seq<Poll<R>>, aborts: Seq<AbortPoll>)
    requires
        works.len() > 0,
        aborts.len() > 0,
        aborts.first() is Requested,
    ensures
        run_in_set(true, works, aborts) is Aborted,
{
}

/// A task of a set that is requested to abort while it runs is aborted in the poll
/// in which the request is found, whatever its work would give from then on: it
/// does not run any further.
pub proof fn law_aborted_set_task_stops_immediately<R>(
    works: Seq<Poll<R>>,
    aborts: Seq<AbortPoll>,
    count: nat,
)
    requires
        count < works.len(),
        count < aborts.len(),
        forall|i: int| 0 <= i < count ==> #[trigger] works[i] is Pending,
        forall|i: int| 0 <= i < count ==> #[trigger] aborts[i] is Pending,
        aborts[count as int] is Requested,
    ensures
        run_in_set(true, works, aborts) is Aborted,
    decreases count,
{
    if count > 0 {
        assert(works[0] is Pending);
        assert(aborts[0] is Pending);
        assert forall|i: int| 0 <= i < count - 1 implies #[trigger] works.drop_first()[i]
            is Pending by {
            assert(works.drop_first()[i] == works[i + 1]);
        }
        assert forall|i: int| 0 <= i < count - 1 implies #[trigger] aborts.drop_first()[i]
            is Pending by {
            assert(aborts.drop_first()[i] == aborts[i + 1]);
        }
        law_aborted_set_task_stops_immediately(
            works.drop_first(),
            aborts.drop_first(),
            (count - 1) as nat,
        );
    }
}

/// A task of a set that nobody can abort anymore runs until its work is completed:
/// in no series of polls it is aborted, whatever the abort channel gives.
pub proof fn law_detached_set_task_is_never_aborted<R>(works: Seq<Poll<R>>, aborts: Seq<AbortPoll>)
    ensures
        run_in_set(false, works, aborts) !is Aborted,
    decreases works.len(),
{
    if works.len() > 0 && aborts.len() > 0 {
        law_detached_set_task_is_never_aborted(works.drop_first(), aborts.drop_first());
    }
}

/// A task of a set is aborted only on request: as long as nobody requests it, no
/// series of polls aborts it.
pub proof fn law_abort_in_set_needs_a_request<R>(
    open: bool,
    works: Seq<Poll<R>>,
    aborts: Seq<AbortPoll>,
)
    requires
        forall|i: int| 0 <= i < aborts.len() ==> #[trigger] aborts[i] !is Requested,
    ensures
        run_in_set(open, works, aborts) !is Aborted,
    decreases works.len(),
{
    if works.len() > 0 && aborts.len() > 0 {
        assert(aborts[0] !is Requested);
        assert forall|i: int| 0 <= i < aborts.drop_first().len() implies #[trigger] aborts.drop_first()[i]
            !is Requested by {
            assert(aborts.drop_first()[i] == aborts[i + 1]);
        }
        law_abort_in_set_needs_a_request(
            stays_open_in_set(open, aborts.first()),
            works.drop_first(),
            aborts.drop_first(),
        );
    }
}

/// A task that was spawned on its own is aborted only on request, and only while its work is pending: as
/// long as nobody requests it, no series of polls aborts it.
pub proof fn law_abort_needs_a_request<R>(open: bool, works: Seq<Poll<R>>, aborts: Seq<AbortPoll>)
    requires
        forall|i: int| 0 <= i < aborts.len() ==> #[trigger] aborts[i] !is Requested,
    ensures
        run(open, works, aborts) !is Aborted,
    decreases works.len(),
{
    if works.len() > 0 && aborts.len() > 0 {
        assert(aborts[0] !is Requested);
        assert forall|i: int| 0 <= i < aborts.drop_first().len() implies #[trigger] aborts.drop_first()[i]
            !is Requested by {
            assert(aborts.drop_first()[i] == aborts[i + 1]);
        }
        law_abort_needs_a_request(
            stays_open(open, works.first(), aborts.first()),
            works.drop_first(),
            aborts.drop_first(),
        );
    }
}

/// A poll of a task that was spawned on its own, in full. `open` is whether the abort
/// channel has to be polled while the work is pending, before and after; at first it
/// has to. The task completes if its work is completed; otherwise it is aborted if this
/// was requested and could be, and goes on if not. The abort channel has to be polled
/// again unless it is closed.
pub proof fn law_poll_of_a_task<R>(
    started: TaskSelect,
    open_at_first: bool,
    select: &mut TaskSelect,
    open: bool,
    work: Poll<R>,
    abort: AbortPoll,
    polls_abort: bool,
    chosen: Selected<R>,
    open_after: bool,
    pending: Poll<R>,
)
    requires
        pending is Pending,
        call_ensures(TaskSelect::new, (), started),
        call_ensures(TaskSelect::polls_abort::<R>, (&started, &pending), open_at_first),
        call_ensures(TaskSelect::polls_abort::<R>, (&*select, &pending), open),
        call_ensures(TaskSelect::polls_abort::<R>, (&*select, &work), polls_abort),
        call_ensures(TaskSelect::select::<R>, (select, work, abort), chosen),
        call_ensures(TaskSelect::polls_abort::<R>, (&*final(select), &pending), open_after),
    ensures
        open_at_first,
        polls_abort <==> open && work is Pending,
        work matches Poll::Ready(result) ==> chosen == Selected::Completed(result),
        work is Pending && abort is Requested && open ==> chosen is Aborted,
        work is Pending && !(abort is Requested && open) ==> chosen is Pending,
        open_after <==> open && !(work is Pending && abort is Closed),
{
}

/// A poll of a task of a set, in full. `open` is whether the abort channel has to be
/// polled, before and after; at first it has to. The task is aborted, without its work
/// being polled, if this was requested and could be; otherwise it completes if its work
/// is completed, and goes on if not. The abort channel has to be polled again unless it
/// is closed.
pub proof fn law_poll_of_a_set_task<R>(
    started: SetSelect,
    open_at_first: bool,
    select: &mut SetSelect,
    open: bool,
    work: Poll<R>,
    abort: AbortPoll,
    polls_work: bool,
    chosen: Selected<R>,
    open_after: bool,
)
    requires
        call_ensures(SetSelect::new, (), started),
        call_ensures(SetSelect::polls_abort, (&started,), open_at_first),
        call_ensures(SetSelect::polls_abort, (&*select,), open),
        call_ensures(SetSelect::polls_work, (&*select, abort), polls_work),
        call_ensures(SetSelect::select::<R>, (select, work, abort), chosen),
        call_ensures(SetSelect::polls_abort, (&*final(select),), open_after),
    ensures
        open_at_first,
        polls_work <==> !(open && abort is Requested),
        !polls_work ==> chosen is Aborted,
        polls_work ==> match work {
            Poll::Ready(result) => chosen == Selected::Completed(result),
            Poll::Pending => chosen is Pending,
        },
        open_after <==> open && abort !is Closed,
{
}

} // verus!
