//! Tests for sleeps, instants, timeouts and intervals.

use tokio::sync::{mpsc, oneshot};
use wokio::duration::Duration;
use wokio::poll::Poll;
use wokio::web::global::{global_scope, GlobalScope};
use wokio::web::time::error::Elapsed;
use wokio::web::time::instant::Instant;
use wokio::web::time::js::{Expiry, JsSleep, MAX_TIMEOUT_MILLIS};
use wokio::web::time::threads::{Sleep, SleepJob, SleepJobEnd, SleepReq, SleepThreadFailed};
use wokio::web::time::{
    add_deadline, far_future, interval, interval_at, next_deadline, sleep, sleep_until, timeout,
    timeout_at, MissedTickBehavior, Timeout,
};

fn millis(millis: u64) -> Instant {
    Instant::from_micros(millis * 1_000)
}

/// Lets all timers of a sleep expire and returns the delays for which they were
/// armed, in milliseconds, up to the specified number.
fn delays(duration: Duration, limit: usize) -> Vec<i32> {
    let (mut sleep, first) = JsSleep::<u32>::new(duration);
    let mut delays = vec![first];
    let mut id = 1;
    sleep.armed(id);
    while delays.len() < limit {
        assert_eq!(sleep.timeout_id(), Some(id));
        match sleep.expired() {
            Expiry::Rearm(delay) => {
                delays.push(delay);
                id += 1;
                sleep.armed(id);
            }
            Expiry::Wake(_) => break,
        }
    }
    delays
}

#[test]
fn duration_parts() {
    let duration = Duration::new(3, 1_500_000_000);
    assert_eq!(duration.as_secs(), 4);
    assert_eq!(duration.subsec_nanos(), 500_000_000);
    assert_eq!(duration.as_nanos(), 4_500_000_000);
    assert_eq!(duration.as_micros(), 4_500_000);
    assert_eq!(Duration::from_nanos(1_999).as_micros(), 1);
    assert_eq!(Duration::max().as_secs(), u64::MAX);
    assert_eq!(Duration::max().subsec_nanos(), 999_999_999);
    assert!(Duration::from_secs(0).is_zero());
    assert!(!Duration::from_nanos(1).is_zero());
    assert_eq!(Duration::from_micros(7).as_nanos(), 7_000);
}

#[test]
fn duration_min_and_saturating_sub() {
    let (short, long) = (Duration::from_millis(1), Duration::from_secs(1));
    assert_eq!(short.min(long).as_nanos(), 1_000_000);
    assert_eq!(long.min(short).as_nanos(), 1_000_000);
    assert_eq!(long.saturating_sub(short).as_nanos(), 999_000_000);
    assert_eq!(short.saturating_sub(long).as_nanos(), 0);
}

#[test]
fn sleep_elapses() {
    let (mut sleep, delay) = sleep::<&str>(Duration::from_millis(50));
    assert_eq!(delay, 50);
    sleep.armed(7);
    assert_eq!(sleep.poll("task"), Poll::Pending);
    assert_eq!(sleep.timeout_id(), Some(7));
    assert!(matches!(sleep.expired(), Expiry::Wake(Some("task"))));
    assert_eq!(sleep.timeout_id(), None);
    assert_eq!(sleep.poll("task"), Poll::Ready(()));
    assert_eq!(sleep.cancel(), None);
}

#[test]
fn sleep_wakes_nobody_if_it_was_not_polled() {
    let (mut sleep, delay) = sleep::<u32>(Duration::from_secs(0));
    assert_eq!(delay, 0);
    sleep.armed(1);
    assert!(matches!(sleep.expired(), Expiry::Wake(None)));
    assert_eq!(sleep.poll(1), Poll::Ready(()));
}

#[test]
fn sleep_wakes_the_task_that_polled_last() {
    let (mut sleep, _) = sleep::<u32>(Duration::from_millis(1));
    sleep.armed(1);
    assert_eq!(sleep.poll(1), Poll::Pending);
    assert_eq!(sleep.poll(2), Poll::Pending);
    assert!(matches!(sleep.expired(), Expiry::Wake(Some(2))));
}

#[test]
fn dropped_sleep_clears_its_timer() {
    let (mut sleep, _) = sleep::<u32>(Duration::from_millis(1));
    assert_eq!(sleep.timeout_id(), None);
    sleep.armed(9);
    assert_eq!(sleep.cancel(), Some(9));
}

#[test]
fn sleep_is_rounded_up_to_whole_milliseconds() {
    assert_eq!(delays(Duration::from_nanos(1), 9), vec![1]);
    assert_eq!(delays(Duration::from_millis(3), 9), vec![3]);
    assert_eq!(delays(Duration::new(0, 3_000_001), 9), vec![4]);
}

#[test]
fn long_sleep_is_chunked() {
    let max = MAX_TIMEOUT_MILLIS;
    assert_eq!(delays(Duration::from_millis(max), 9), vec![i32::MAX]);
    assert_eq!(delays(Duration::from_millis(max + 1), 9), vec![i32::MAX, 1]);
    assert_eq!(delays(Duration::from_millis(2 * max + 5), 9), vec![i32::MAX, i32::MAX, 5]);
    let (sleep, _) = JsSleep::<u32>::new(Duration::from_millis(max + 1));
    assert_eq!(sleep.remaining().as_nanos(), 1_000_000);
}

#[test]
fn very_long_sleep_does_not_fire() {
    assert_eq!(delays(Duration::max(), 1_000), vec![i32::MAX; 1_000]);
}

#[test]
fn sleep_until_deadline() {
    assert_eq!(sleep_until(millis(150), millis(100)).as_nanos(), 50_000_000);
    assert_eq!(sleep_until(millis(100), millis(150)).as_nanos(), 0);
}

#[test]
fn instant_arithmetic_saturates() {
    let first = Instant::from_micros(0);
    let last = Instant::from_micros(u64::MAX);
    assert_eq!(first + Duration::max(), last);
    assert_eq!(last + Duration::from_micros(1), last);
    assert_eq!(first - Duration::from_micros(1), first);
    assert_eq!(last - Duration::max(), first);
    assert_eq!((first - last).as_nanos(), 0);
    assert_eq!((last - first).as_nanos(), u64::MAX as u128 * 1_000);
}

#[test]
fn instant_checked_arithmetic() {
    let last = Instant::from_micros(u64::MAX);
    assert_eq!(millis(1).checked_add(Duration::from_millis(2)), Some(millis(3)));
    assert_eq!(last.checked_add(Duration::from_nanos(999)), Some(last));
    assert_eq!(last.checked_add(Duration::from_micros(1)), None);
    assert_eq!(millis(0).checked_add(Duration::max()), None);
    assert_eq!(millis(3).checked_sub(Duration::from_millis(2)), Some(millis(1)));
    assert_eq!(millis(3).checked_sub(Duration::from_millis(4)), None);
    assert_eq!(millis(3).checked_sub(Duration::max()), None);
}

#[test]
fn instant_elapsed_is_what_was_added() {
    let start = millis(5);
    let mut later = start;
    later += Duration::from_millis(7);
    assert_eq!(later, millis(12));
    assert_eq!(start.elapsed(later).as_nanos(), 7_000_000);
    assert_eq!(later.duration_since(start).as_nanos(), 7_000_000);
    assert_eq!(start.saturating_duration_since(later).as_nanos(), 0);
    later -= Duration::from_millis(7);
    assert_eq!(later, start);
    assert!(start < millis(6));
    assert!(millis(6) > start);
}

#[test]
fn timeout_expires_and_passes() {
    assert_eq!(Timeout::<()>::poll(Poll::Ready(42), Poll::Pending), Poll::Ready(Ok(42)));
    assert_eq!(
        Timeout::<()>::poll(Poll::<u32>::Pending, Poll::Ready(())),
        Poll::Ready(Err(Elapsed {}))
    );
    assert_eq!(Timeout::<()>::poll(Poll::<u32>::Pending, Poll::Pending), Poll::Pending);
    // The future is polled first.
    assert_eq!(Timeout::<()>::poll(Poll::Ready(42), Poll::Ready(())), Poll::Ready(Ok(42)));
    assert_eq!(Elapsed {}.to_string(), "timeout elapsed");

    let (limit, future) = timeout(Duration::from_millis(50), "future").into_parts();
    assert_eq!(limit.as_nanos(), 50_000_000);
    assert_eq!(future, "future");
}

#[test]
fn timeout_at_expires_and_passes() {
    let (limit, future) = timeout_at(millis(150), 42, millis(100)).into_parts();
    assert_eq!(limit.as_nanos(), 50_000_000);
    assert_eq!(future, 42);
    let (limit, _) = timeout_at(millis(100), 42, millis(150)).into_parts();
    assert!(limit.is_zero());
}

#[test]
fn interval_ticks() {
    let mut interval = interval(Duration::from_millis(20), millis(100), millis(100));
    assert_eq!(interval.period().as_nanos(), 20_000_000);
    assert_eq!(interval.missed_tick_behavior(), MissedTickBehavior::Burst);

    // The first tick completes immediately.
    assert!(interval.sleep_duration().is_zero());
    assert_eq!(interval.poll_tick(Poll::Pending, millis(100), millis(100)), Poll::Pending);
    assert_eq!(
        interval.poll_tick(Poll::Ready(()), millis(100), millis(101)),
        Poll::Ready(millis(100))
    );
    assert_eq!(interval.sleep_duration().as_nanos(), 19_000_000);
    assert_eq!(
        interval.poll_tick(Poll::Ready(()), millis(121), millis(121)),
        Poll::Ready(millis(120))
    );
    assert_eq!(interval.sleep_duration().as_nanos(), 19_000_000);
    assert_eq!(
        interval.poll_tick(Poll::Ready(()), millis(140), millis(140)),
        Poll::Ready(millis(140))
    );
}

#[test]
fn interval_at_starts_at_deadline() {
    let mut interval = interval_at(millis(150), Duration::from_millis(20), millis(100));
    assert_eq!(interval.sleep_duration().as_nanos(), 50_000_000);
    assert_eq!(
        interval.poll_tick(Poll::Ready(()), millis(150), millis(150)),
        Poll::Ready(millis(150))
    );
    assert_eq!(interval.sleep_duration().as_nanos(), 20_000_000);
}

/// Ticks once on time, misses several ticks and returns the instant of the late
/// tick and how long the interval sleeps afterwards.
fn after_miss(behavior: MissedTickBehavior) -> (Poll<Instant>, u128) {
    let mut interval = interval(Duration::from_millis(20), millis(1_000), millis(1_000));
    interval.set_missed_tick_behavior(behavior);
    assert_eq!(interval.missed_tick_behavior(), behavior);
    interval.poll_tick(Poll::Ready(()), millis(1_000), millis(1_000));
    let tick = interval.poll_tick(Poll::Ready(()), millis(1_105), millis(1_105));
    (tick, interval.sleep_duration().as_nanos())
}

#[test]
fn interval_missed_tick_behavior() {
    let late = Poll::Ready(millis(1_020));
    assert_eq!(after_miss(MissedTickBehavior::Skip), (late, 15_000_000));
    assert_eq!(after_miss(MissedTickBehavior::Delay), (Poll::Ready(millis(1_020)), 20_000_000));
    assert_eq!(after_miss(MissedTickBehavior::Burst), (Poll::Ready(millis(1_020)), 0));
    assert_eq!(MissedTickBehavior::default(), MissedTickBehavior::Burst);
}

#[test]
fn interval_tolerates_five_milliseconds() {
    for (now, sleep) in [(1_005_000, 15_000_000), (1_005_001, 20_000_000)] {
        let now = Instant::from_micros(now);
        let mut interval = interval(Duration::from_millis(20), millis(1_000), millis(1_000));
        interval.set_missed_tick_behavior(MissedTickBehavior::Delay);
        interval.poll_tick(Poll::Ready(()), now, now);
        assert_eq!(interval.sleep_duration().as_nanos(), sleep);
    }
}

#[test]
fn interval_reset() {
    let mut interval = interval(Duration::from_millis(20), millis(100), millis(100));

    interval.reset_after(Duration::from_millis(60), millis(200), millis(200));
    assert_eq!(interval.sleep_duration().as_nanos(), 60_000_000);
    interval.reset(millis(200), millis(200));
    assert_eq!(interval.sleep_duration().as_nanos(), 20_000_000);
    interval.reset_immediately(millis(200), millis(201));
    assert!(interval.sleep_duration().is_zero());
    interval.reset_at(millis(205), millis(201));
    assert_eq!(interval.sleep_duration().as_nanos(), 4_000_000);
    assert_eq!(
        interval.poll_tick(Poll::Ready(()), millis(205), millis(205)),
        Poll::Ready(millis(205))
    );
}

#[test]
fn deadlines_that_are_not_representable_are_never_reached() {
    let clock = millis(1);
    let thirty_years = Instant::from_micros(946_080_000_001_000);
    assert_eq!(far_future(clock), thirty_years);
    assert_eq!(add_deadline(millis(5), Duration::max(), clock), thirty_years);
    assert_eq!(add_deadline(millis(5), Duration::from_millis(2), clock), millis(7));
    assert_eq!(far_future(Instant::from_micros(u64::MAX)), Instant::from_micros(u64::MAX));
}

#[test]
fn next_deadline_skips_to_the_schedule() {
    let period = Duration::from_millis(20);
    let skip = |timeout, now| {
        next_deadline(MissedTickBehavior::Skip, millis(timeout), millis(now), period, millis(now))
    };
    assert_eq!(skip(1_020, 1_105), millis(1_120));
    assert_eq!(skip(1_020, 1_100), millis(1_120));
    assert_eq!(skip(1_020, 1_101), millis(1_120));
    // An uncounted lag is ignored.
    let huge = Duration::from_secs(40_000_000_000);
    assert_eq!(
        next_deadline(
            MissedTickBehavior::Skip,
            millis(0),
            Instant::from_micros(30_000_000_000_000_000),
            huge,
            millis(0)
        ),
        Instant::from_micros(70_000_000_000_000_000)
    );
}

#[test]
fn window_comes_before_worker() {
    assert_eq!(global_scope(true, false), Some(GlobalScope::Window));
    assert_eq!(global_scope(true, true), Some(GlobalScope::Window));
    assert_eq!(global_scope(false, true), Some(GlobalScope::Worker));
    assert_eq!(global_scope(false, false), None);
}

#[test]
fn thread_safe_sleep_is_requested_and_woken() {
    let (sleep_tx, mut sleep_rx) = mpsc::unbounded_channel::<SleepReq>();
    let mut sleep = Sleep::new(Duration::from_millis(30), &sleep_tx).ok().unwrap();
    assert!(sleep.wake_rx.try_recv().is_err());

    let req = sleep_rx.try_recv().unwrap();
    assert_eq!(req.duration.as_nanos(), 30_000_000);

    let (mut job, mut js, delay) = SleepJob::accept::<u32>(req);
    assert_eq!(delay, 30);
    js.armed(1);
    assert_eq!(job.advance(js.poll(1), Poll::Pending), Poll::Pending);
    assert!(matches!(js.expired(), Expiry::Wake(Some(1))));
    assert_eq!(job.advance(js.poll(1), Poll::Pending), Poll::Ready(SleepJobEnd::Expired));
    assert!(job.wake_tx.is_none());

    assert_eq!(sleep.wake_rx.try_recv(), Ok(()));
    assert_eq!(Sleep::poll(Poll::Ready(Ok(()))), Poll::Ready(Ok(())));
    assert_eq!(Sleep::poll(Poll::Pending), Poll::Pending);
}

#[test]
fn thread_safe_sleep_is_abandoned_with_its_requester() {
    let (sleep, req) = Sleep::request(Duration::from_secs(1));
    let (mut job, _js, _delay) = SleepJob::accept::<u32>(req);
    assert!(!job.wake_tx.as_ref().unwrap().is_closed());
    drop(sleep);
    assert!(job.wake_tx.as_ref().unwrap().is_closed());
    assert_eq!(
        job.advance(Poll::Pending, Poll::Ready(())),
        Poll::Ready(SleepJobEnd::Abandoned)
    );
    assert!(job.wake_tx.is_none());
}

#[test]
fn thread_safe_sleep_reports_a_failed_thread() {
    let (sleep_tx, sleep_rx) = mpsc::unbounded_channel::<SleepReq>();
    drop(sleep_rx);
    let req = Sleep::new(Duration::from_millis(30), &sleep_tx).err().unwrap();
    assert_eq!(req.duration.as_nanos(), 30_000_000);

    let (tx, rx) = oneshot::channel::<()>();
    drop(tx);
    let received = Poll::Ready(rx.blocking_recv());
    assert_eq!(Sleep::poll(received), Poll::Ready(Err(SleepThreadFailed)));
    assert_eq!(SleepThreadFailed.to_string(), "sleep thread failed");
}
