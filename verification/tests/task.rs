//! Tests for spawning, aborting and joining tasks.

use std::future::Future;
use std::pin::Pin;
use std::task::{Context, Waker};
use tokio::sync::oneshot;
use wokio::ext::{HandleExt, JoinSetExt};
use wokio::poll::Poll;
use wokio::web::channel::AbortOutcome;
use wokio::web::runtime::{Handle, TryCurrentError};
use wokio::web::task::join_set::{blocking_work, AbortHandle, JoinSet, JoinSetTask};
use wokio::web::task::select::{AbortPoll, Selected, SetSelect, TaskSelect};
use wokio::web::task::{
    is_blocking_allowed, settle, spawn, spawn_blocking, spawn_blocking_named, spawn_named,
    BlockingTask, CaughtPanic, JoinError, JoinErrorRepr, JoinHandle, MaybeSend, SpawnedTask,
};

/// The payload of a panic.
type Payload = &'static str;

type Joined<T> = Result<T, JoinError<Payload>>;

fn caught(message: Payload) -> CaughtPanic<Payload> {
    CaughtPanic { payload: message, string: None, literal: Some(message) }
}

fn poll_once<F: Future>(future: Pin<&mut F>) -> Poll<F::Output> {
    match future.poll(&mut Context::from_waker(Waker::noop())) {
        std::task::Poll::Ready(output) => Poll::Ready(output),
        std::task::Poll::Pending => Poll::Pending,
    }
}

/// What polling the abort channel of a spawned task gives.
fn abort_poll(abort_rx: &mut oneshot::Receiver<()>) -> AbortPoll {
    match abort_rx.try_recv() {
        Ok(()) => AbortPoll::Requested,
        Err(oneshot::error::TryRecvError::Empty) => AbortPoll::Pending,
        Err(oneshot::error::TryRecvError::Closed) => AbortPoll::Closed,
    }
}

/// Polls a spawned task once. Returns whether it has ended.
fn drive<F: Future + Unpin>(task: &mut SpawnedTask<F, F::Output, Payload>) -> bool {
    let work = match poll_once(Pin::new(&mut task.work)) {
        Poll::Ready(output) => Poll::Ready(Ok(output)),
        Poll::Pending => Poll::Pending,
    };
    let abort = if task.driver.polls_abort(&work) {
        abort_poll(&mut task.abort_rx)
    } else {
        AbortPoll::Pending
    };
    match task.driver.advance(work, abort) {
        Poll::Ready(delivery) => {
            let _ = delivery.send();
            true
        }
        Poll::Pending => false,
    }
}

/// Joins a task that has ended.
fn join<T>(handle: &mut JoinHandle<T, Payload>) -> Poll<Joined<T>> {
    let received = match &mut handle.result_rx {
        Some(result_rx) => match result_rx.try_recv() {
            Ok(result) => Poll::Ready(Ok(result)),
            Err(oneshot::error::TryRecvError::Empty) => Poll::Pending,
            Err(oneshot::error::TryRecvError::Closed) => Poll::Ready(Err(recv_error())),
        },
        None => Poll::Pending,
    };
    handle.poll(received)
}

fn recv_error() -> oneshot::error::RecvError {
    let (tx, rx) = oneshot::channel::<()>();
    drop(tx);
    rx.blocking_recv().unwrap_err()
}

fn joined<T>(handle: &mut JoinHandle<T, Payload>) -> Joined<T> {
    match join(handle) {
        Poll::Ready(result) => result,
        Poll::Pending => panic!("task has not ended"),
    }
}

fn value<T>(result: Joined<T>) -> T {
    match result {
        Ok(value) => value,
        Err(err) => panic!("{}", err.to_string()),
    }
}

fn error<T>(result: Joined<T>) -> JoinError<Payload> {
    match result {
        Ok(_) => panic!("task has not failed"),
        Err(err) => err,
    }
}

/// Runs a spawned blocking function and joins it.
fn run<T>(
    handle: &mut JoinHandle<T, Payload>,
    task: BlockingTask<impl FnOnce() -> T, T, Payload>,
) -> T {
    let output = (task.work)();
    assert!(task.driver.finish(Ok(output)).send().is_ok());
    value(joined(handle))
}

#[test]
fn spawn_and_join() {
    let (mut handle, mut task) = spawn(Box::pin(async { 42 }));
    assert!(matches!(join(&mut handle), Poll::Pending));
    assert!(drive(&mut task));
    assert_eq!(value(joined(&mut handle)), 42);
}

#[test]
fn spawn_named_drops_the_name() {
    let (mut handle, mut task) = spawn_named("free function", Box::pin(async { 42 }));
    assert!(drive(&mut task));
    assert_eq!(value(joined(&mut handle)), 42);

    let current = Handle::current();
    let (mut handle, mut task) = current.spawn_named("handle method", Box::pin(async { 43 }));
    assert!(drive(&mut task));
    assert_eq!(value(joined(&mut handle)), 43);
}

#[test]
fn abort_task() {
    let (mut handle, mut task) = spawn(std::future::pending::<()>());
    assert!(!drive(&mut task));
    assert_eq!(handle.abort(), AbortOutcome::Requested);
    assert_eq!(handle.abort(), AbortOutcome::NotAbortable);
    assert!(drive(&mut task));
    let err = error(joined(&mut handle));
    assert!(err.is_cancelled());
    assert!(!err.is_panic() && !err.is_failed() && !err.is_spawn());
    assert_eq!(err.to_string(), "task was cancelled");
    assert_eq!(err.to_debug(), "Aborted");
}

#[test]
fn completed_task_is_not_aborted() {
    let (mut handle, mut task) = spawn(std::future::ready(7));
    assert_eq!(handle.abort(), AbortOutcome::Requested);
    assert!(drive(&mut task));
    assert_eq!(value(joined(&mut handle)), 7);
}

#[test]
fn abort_of_a_dropped_task_finds_it_gone() {
    let (mut handle, task) = spawn::<_, Payload>(std::future::pending::<()>());
    drop(task);
    assert_eq!(handle.abort(), AbortOutcome::TaskGone);
    let err = error(joined(&mut handle));
    assert!(err.is_failed());
    assert_eq!(err.to_string(), "task failed");
    assert_eq!(err.to_debug(), "Failed");
}

#[test]
fn detached_task_keeps_running() {
    let (handle, mut task) = spawn::<_, Payload>(std::future::pending::<()>());
    drop(handle);
    assert!(!drive(&mut task));
    assert!(!task.driver.polls_abort(&Poll::Pending));
    assert!(!drive(&mut task));
}

#[test]
fn result_of_a_detached_task_is_handed_back() {
    let (handle, mut task) = spawn::<_, Payload>(std::future::ready(5));
    drop(handle);
    match task.driver.advance(Poll::Ready(Ok(5)), AbortPoll::Pending) {
        Poll::Ready(delivery) => match delivery.send() {
            Err(Ok(unsent)) => assert_eq!(unsent, 5),
            _ => panic!("result must be handed back"),
        },
        Poll::Pending => panic!("task must have ended"),
    }
}

#[test]
fn task_select_prefers_the_work() {
    let mut select = TaskSelect::new();
    assert!(select.polls_abort(&Poll::<u32>::Pending));
    assert!(!select.polls_abort(&Poll::Ready(1)));
    assert_eq!(select.select(Poll::<u32>::Pending, AbortPoll::Pending), Selected::Pending);
    assert_eq!(select.select(Poll::Ready(1), AbortPoll::Requested), Selected::Completed(1));
    assert_eq!(select.select(Poll::<u32>::Pending, AbortPoll::Requested), Selected::Aborted);
}

#[test]
fn task_select_ignores_a_closed_abort_channel() {
    let mut select = TaskSelect::new();
    assert_eq!(select.select(Poll::<u32>::Pending, AbortPoll::Closed), Selected::Pending);
    assert!(!select.polls_abort(&Poll::<u32>::Pending));
    assert_eq!(select.select(Poll::<u32>::Pending, AbortPoll::Requested), Selected::Pending);
    assert_eq!(select.select(Poll::Ready(1), AbortPoll::Closed), Selected::Completed(1));
}

#[test]
fn spawn_blocking_functions() {
    let (mut handle, task) = spawn_blocking(|| 42);
    assert_eq!(handle.abort(), AbortOutcome::NotAbortable);
    assert_eq!(run(&mut handle, task), 42);

    let (mut handle, task) = spawn_blocking_named("blocking", || 43);
    assert_eq!(run(&mut handle, task), 43);

    let (mut handle, task) = Handle::current().spawn_blocking_named("blocking", || 44);
    assert_eq!(run(&mut handle, task), 44);
}

#[test]
fn failed_worker_is_reported() {
    let (handle, _task) = spawn_blocking::<_, u32, Payload>(|| 42);
    let io_error = std::io::Error::new(std::io::ErrorKind::OutOfMemory, "no workers");
    let mut handle = handle.started(Err(io_error));
    assert!(handle.result_rx.is_none());
    let err = error(joined(&mut handle));
    assert!(err.is_spawn());
    assert_eq!(err.to_string(), "spawning worker failed: no workers");
    assert!(err.to_debug().starts_with("Spawn(Custom {"));
    assert!(matches!(err.reason(), JoinErrorRepr::Spawn(err) if err.to_string() == "no workers"));
    assert_eq!(err.display_with("x"), "spawning worker failed: x");
    assert_eq!(err.debug_with("", "x"), "Spawn(x)");
}

#[test]
fn started_worker_changes_nothing() {
    let (handle, task) = spawn_blocking::<_, u32, Payload>(|| 42);
    let mut handle = handle.started(Ok(()));
    assert_eq!(run(&mut handle, task), 42);
}

#[test]
fn panicking_task_yields_panic_payload() {
    let (mut handle, mut task) = spawn::<_, Payload>(std::future::pending::<u32>());
    match task.driver.advance(Poll::Ready(Err(caught("boom"))), AbortPoll::Pending) {
        Poll::Ready(delivery) => assert!(delivery.send().is_ok()),
        Poll::Pending => panic!("task must have ended"),
    }
    let err = error(joined(&mut handle));
    assert!(err.is_panic());
    assert_eq!(err.to_string(), "task panicked with message boom");
    assert_eq!(err.to_debug(), "Panicked(\"boom\")");
    assert_eq!(err.into_panic(), "boom");
}

#[test]
fn panicking_blocking_function_yields_panic_payload() {
    let (mut handle, task) = spawn_blocking::<_, u32, Payload>(|| 42);
    assert!(task.driver.finish(Err(caught("boom"))).send().is_ok());
    let err = error(joined(&mut handle));
    match err.try_into_panic() {
        Ok(payload) => assert_eq!(payload, "boom"),
        Err(_) => panic!("panic expected"),
    }
}

#[test]
fn panic_message_is_taken_from_strings() {
    let text = |string: Option<&str>, literal| {
        let panic = CaughtPanic { payload: 1, string: string.map(String::from), literal };
        let err = JoinError::new(JoinErrorRepr::panicked(panic));
        (err.to_string(), err.to_debug())
    };
    assert_eq!(
        text(Some("a\"b"), None),
        ("task panicked with message a\"b".into(), "Panicked(\"a\\\"b\")".into())
    );
    assert_eq!(
        text(None, Some("c")),
        ("task panicked with message c".into(), "Panicked(\"c\")".into())
    );
    assert_eq!(text(None, None), ("task panicked".into(), "Panicked(\"...\")".into()));
}

#[test]
fn error_without_panic_is_handed_back() {
    let err = JoinError::<Payload>::new(JoinErrorRepr::Aborted);
    match err.try_into_panic() {
        Ok(_) => panic!("no panic expected"),
        Err(err) => assert!(err.is_cancelled()),
    }
}

#[test]
fn settle_gives_the_result_of_a_task() {
    assert!(matches!(settle::<u32, Payload>(Selected::Completed(Ok(3))), Poll::Ready(Ok(3))));
    assert!(matches!(settle::<u32, Payload>(Selected::Pending), Poll::Pending));
    match settle::<u32, Payload>(Selected::Aborted) {
        Poll::Ready(Err(err)) => assert!(err.is_cancelled()),
        _ => panic!("error expected"),
    }
    match settle::<u32, Payload>(Selected::Completed(Err(caught("x")))) {
        Poll::Ready(Err(err)) => assert_eq!(err.into_panic(), "x"),
        _ => panic!("error expected"),
    }
}

#[test]
fn runtime_is_always_available() {
    assert_eq!(Handle::try_current(), Ok(Handle::current()));
    assert_eq!(TryCurrentError.to_string(), "no runtime available");
}

#[test]
fn platform_capabilities() {
    assert!(is_blocking_allowed(true));
    assert!(!is_blocking_allowed(false));
    assert!(wokio::native::is_blocking_allowed());
}

#[test]
fn nothing_is_required_of_tasks_on_the_web() {
    fn assert_maybe_send<T: MaybeSend + ?Sized>() {}
    assert_maybe_send::<std::rc::Rc<u32>>();
    assert_maybe_send::<str>();

    fn assert_native<T: wokio::native::MaybeSend + wokio::native::MaybeSync>() {}
    assert_native::<u32>();
}

/// Polls a task of a set once. Returns what it has come to.
fn drive_set<F: Future + Unpin>(task: &mut JoinSetTask<F, F::Output>) -> &'static str {
    let abort = if task.driver.polls_abort() {
        match task.abort_rx.try_recv() {
            Ok(()) => AbortPoll::Requested,
            Err(tokio::sync::mpsc::error::TryRecvError::Empty) => AbortPoll::Pending,
            Err(tokio::sync::mpsc::error::TryRecvError::Disconnected) => AbortPoll::Closed,
        }
    } else {
        AbortPoll::Pending
    };
    let work = if task.driver.polls_work(abort) {
        poll_once(Pin::new(&mut task.work))
    } else {
        Poll::Pending
    };
    match task.driver.advance(work, abort) {
        Selected::Completed(delivery) => match delivery.send() {
            Ok(()) => "completed",
            Err(_) => "detached",
        },
        Selected::Aborted => "aborted",
        Selected::Pending => "pending",
    }
}

#[test]
fn join_set_runs_tasks() {
    let (tx, mut rx) = tokio::sync::mpsc::unbounded_channel();
    let mut set = JoinSet::new();
    assert!(set.is_empty());
    let mut tasks = Vec::new();
    for i in 1..=3 {
        let tx = tx.clone();
        let (_abort, task) = set.spawn_named(
            "worker",
            Box::pin(async move {
                let _ = tx.send(i);
            }),
        );
        tasks.push(task);
    }
    drop(tx);
    assert_eq!(set.len(), 3);
    assert!(!set.is_empty());
    for task in &mut tasks {
        assert_eq!(drive_set(task), "completed");
    }

    let mut sum = 0;
    while let Ok(i) = rx.try_recv() {
        sum += i;
    }
    assert_eq!(sum, 6);
}

#[test]
fn join_set_abort_all() {
    let (tx, mut rx) = oneshot::channel::<()>();
    let mut set = JoinSet::default();
    let (abort, mut first) = set.spawn(Box::pin(async move {
        std::future::pending::<()>().await;
        drop(tx);
    }) as Pin<Box<dyn Future<Output = ()>>>);
    let (_, mut second) =
        set.spawn(Box::pin(std::future::pending()) as Pin<Box<dyn Future<Output = ()>>>);
    assert_eq!(drive_set(&mut first), "pending");
    assert_eq!(set.abort_all(), vec![AbortOutcome::Requested, AbortOutcome::Requested]);
    assert_eq!(set.len(), 2);
    assert_eq!(abort.abort(), AbortOutcome::AlreadyRequested);
    assert_eq!(rx.try_recv(), Err(oneshot::error::TryRecvError::Empty));
    assert_eq!(drive_set(&mut first), "aborted");
    assert_eq!(drive_set(&mut second), "aborted");

    // The sender is dropped together with the aborted task.
    drop(first);
    assert_eq!(rx.try_recv(), Err(oneshot::error::TryRecvError::Closed));
    assert_eq!(set.abort_all(), vec![AbortOutcome::TaskGone, AbortOutcome::Requested]);
}

#[test]
fn dropped_join_set_aborts_its_tasks_immediately() {
    let (tx, mut rx) = tokio::sync::mpsc::unbounded_channel();
    let mut set = JoinSet::new();
    let (abort, mut task) = set.spawn(Box::pin(async move {
        let _ = tx.send(1);
    }));
    drop(abort);
    set.abort_all();
    drop(set);

    // The task was not polled yet and must not run at all.
    assert_eq!(drive_set(&mut task), "aborted");
    drop(task);
    assert_eq!(rx.try_recv(), Err(tokio::sync::mpsc::error::TryRecvError::Disconnected));
}

#[test]
fn set_task_that_was_aborted_while_it_ran_stops() {
    let mut set = JoinSet::new();
    let (tx, mut rx) = oneshot::channel::<u32>();
    let (_, mut task) = set.spawn(&mut rx);
    assert_eq!(drive_set(&mut task), "pending");

    // Its work could be completed now, but is not polled again.
    tx.send(1).unwrap();
    set.abort_all();
    assert_eq!(drive_set(&mut task), "aborted");
    drop(task);
    assert_eq!(rx.try_recv(), Ok(1));
}

#[test]
fn set_select_prefers_the_abort() {
    let mut select = SetSelect::new();
    assert!(select.polls_abort());
    assert!(select.polls_work(AbortPoll::Pending));
    assert!(select.polls_work(AbortPoll::Closed));
    assert!(!select.polls_work(AbortPoll::Requested));
    assert_eq!(select.select(Poll::<u32>::Pending, AbortPoll::Pending), Selected::Pending);
    assert_eq!(select.select(Poll::Ready(1), AbortPoll::Requested), Selected::Aborted);
    assert_eq!(select.select(Poll::Ready(1), AbortPoll::Pending), Selected::Completed(1));
    assert_eq!(select.select(Poll::<u32>::Pending, AbortPoll::Closed), Selected::Pending);
    assert!(!select.polls_abort());
    assert!(select.polls_work(AbortPoll::Requested));
    assert_eq!(select.select(Poll::Ready(1), AbortPoll::Requested), Selected::Completed(1));
}

#[test]
fn join_set_detach_all() {
    let mut set = JoinSet::new();
    let (abort, mut task) = set.spawn(std::future::pending::<()>());
    let (_, mut ready) = set.spawn(std::future::ready(()));
    set.detach_all();
    assert!(set.is_empty());
    assert_eq!(drive_set(&mut ready), "detached");

    // The handle still aborts the task, until it is dropped too.
    assert!(!abort.is_finished());
    assert_eq!(drive_set(&mut task), "pending");
    drop(abort);
    assert_eq!(drive_set(&mut task), "pending");
    assert!(!task.driver.polls_abort());
}

#[test]
fn abort_handle_aborts_its_task_only() {
    let mut set = JoinSet::new();
    let (abort, mut first) = set.spawn(std::future::pending::<()>());
    let (_, mut second) = set.spawn(std::future::pending::<()>());
    let copy: AbortHandle = abort.clone();
    assert_eq!(copy.abort(), AbortOutcome::Requested);
    assert_eq!(drive_set(&mut second), "pending");
    assert_eq!(drive_set(&mut first), "aborted");
    drop(first);
    assert!(abort.is_finished());
    assert_eq!(abort.abort(), AbortOutcome::TaskGone);
}

#[test]
fn join_set_builder() {
    let mut set = JoinSet::new();
    assert_eq!(set.build_task().name, "unnamed");
    let builder = set.build_task().name("worker");
    assert_eq!(builder.name, "worker");
    let (abort, mut task) = builder.spawn(std::future::pending::<()>()).unwrap();
    assert_eq!(set.len(), 1);
    abort.abort();
    assert_eq!(drive_set(&mut task), "aborted");

    let mut set = JoinSet::new();
    let (_, mut task, blocking) =
        set.build_task().name("blocking").spawn_blocking::<_, Payload>(|| 41).ok().unwrap();
    assert_eq!(run(&mut task.work, blocking), 41);
}

#[test]
fn set_task_fails_with_its_blocking_function() {
    let mut set = JoinSet::<u32>::new();
    let (_abort, mut task, blocking) = set.spawn_blocking::<_, Payload>(|| 42);
    assert!(matches!(blocking_work(join(&mut task.work)), Ok(Poll::Pending)));
    assert!(blocking.driver.finish(Err(caught("boom"))).send().is_ok());
    match blocking_work(join(&mut task.work)) {
        Ok(_) => panic!("panic expected"),
        Err(err) => assert_eq!(err.into_panic(), "boom"),
    }
}

#[test]
fn join_set_spawn_blocking_named() {
    let mut set = JoinSet::new();
    let (_abort, mut task, blocking) = set.spawn_blocking_named::<_, _, Payload>("blocking", || 42);
    assert_eq!(set.len(), 1);
    assert!(blocking.driver.finish(Ok((blocking.work)())).send().is_ok());
    let work = match blocking_work(join(&mut task.work)) {
        Ok(work) => work,
        Err(err) => panic!("{}", err.to_string()),
    };
    match task.driver.advance(work, AbortPoll::Pending) {
        Selected::Completed(delivery) => {
            assert_eq!(delivery.value, 42);
            assert!(delivery.send().is_ok());
        }
        _ => panic!("task must be completed"),
    }
}
