//! Tests for the extensions to the Tokio API.

use wokio::duration::Duration;
use wokio::ext::{
    interval_stream, IntervalStream, MaybeSendFuture, ProbeAction, ProbeEvent, ThreadProbe,
};
use wokio::poll::Poll;
use wokio::web::time::instant::Instant;
use wokio::web::time::{interval, MissedTickBehavior};

fn millis(millis: u64) -> Instant {
    Instant::from_micros(millis * 1_000)
}

#[test]
fn threads_are_available_if_the_test_thread_signals() {
    for (started, received) in [(true, true), (true, false), (false, true), (false, false)] {
        let mut probe = ThreadProbe::new();
        assert_eq!(probe.action(), ProbeAction::Spawn);
        probe.handle(ProbeEvent::Spawned(started));
        if started {
            assert_eq!(probe.action(), ProbeAction::Wait);
        }
        probe.handle(ProbeEvent::Signalled(received));
        assert_eq!(probe.action(), ProbeAction::Done(started && received));
    }
}

#[test]
fn probe_result_is_cached() {
    let mut probe = ThreadProbe::Known(true);
    for event in [
        ProbeEvent::Spawned(false),
        ProbeEvent::Signalled(false),
        ProbeEvent::Spawned(true),
        ProbeEvent::Signalled(true),
    ] {
        probe.handle(event);
        assert_eq!(probe.action(), ProbeAction::Done(true));
    }
}

#[test]
fn probe_ignores_what_it_does_not_wait_for() {
    let mut probe = ThreadProbe::new();
    probe.handle(ProbeEvent::Signalled(true));
    assert_eq!(probe, ThreadProbe::Unknown);
    probe.handle(ProbeEvent::Spawned(true));
    probe.handle(ProbeEvent::Spawned(false));
    assert_eq!(probe, ThreadProbe::Waiting);
}

#[test]
fn interval_stream_ticks() {
    let mut stream = interval_stream(Duration::from_millis(10), millis(100), millis(100));
    assert!(stream.as_ref().sleep_duration().is_zero());
    for i in 0..3 {
        let now = millis(100 + 10 * i);
        assert_eq!(stream.poll_next(Poll::Ready(()), now, now), Poll::Ready(Some(now)));
        assert_eq!(stream.poll_next(Poll::Pending, now, now), Poll::Pending);
        assert_eq!(stream.as_ref().sleep_duration().as_nanos(), 10_000_000);
    }
}

#[test]
fn interval_stream_keeps_its_interval() {
    let mut source = interval(Duration::from_millis(10), millis(100), millis(100));
    source.set_missed_tick_behavior(MissedTickBehavior::Delay);
    let mut stream = IntervalStream::from(source);
    stream.as_mut().reset_at(millis(150), millis(100));
    let interval = stream.into_inner();
    assert_eq!(interval.period().as_nanos(), 10_000_000);
    assert_eq!(interval.missed_tick_behavior(), MissedTickBehavior::Delay);
    assert_eq!(interval.sleep_duration().as_nanos(), 50_000_000);
}

#[test]
fn every_future_can_be_run_on_the_web() {
    fn assert_runs<F: MaybeSendFuture>(_: F) {}
    let local = std::rc::Rc::new(1);
    assert_runs(async move { *local });
}
