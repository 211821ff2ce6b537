//! Tests for values that are bound to a thread.

use std::cmp::Ordering;
use std::collections::hash_map::DefaultHasher;
use std::hash::{Hash, Hasher};
use std::mem;
use std::rc::Rc;
use std::sync::atomic::{AtomicUsize, Ordering::SeqCst};
use std::sync::Arc;
use wokio::thread_bound::{
    drop_action, drop_diagnostic, thread_bound, use_diagnostic, DropAction, ForeignThread,
    ThreadBound, ThreadId,
};

const HOME: ThreadId = ThreadId { number: 1 };
const OTHER: ThreadId = ThreadId { number: 2 };

/// What a value that belongs to `HOME` reports on `OTHER`.
const FOREIGN: ForeignThread = ForeignThread { home: HOME, current: OTHER };

/// Counts its own drops, so double drops and skipped drops are both visible.
struct Counted(Arc<AtomicUsize>);

impl Counted {
    fn new() -> (Self, Arc<AtomicUsize>) {
        let count = Arc::new(AtomicUsize::new(0));
        (Self(count.clone()), count)
    }
}

impl Drop for Counted {
    fn drop(&mut self) {
        self.0.fetch_add(1, SeqCst);
    }
}

/// Drops a value on a thread, in the way the rules ask for.
///
/// Returns whether the process would have to abort.
fn drop_on<T>(tb: ThreadBound<T>, current: ThreadId) -> bool {
    match tb.drop_action(current) {
        DropAction::Nothing => {
            mem::forget(tb);
            false
        }
        DropAction::DropValue => {
            drop(tb);
            false
        }
        DropAction::Abort => {
            mem::forget(tb);
            true
        }
    }
}

/// Accesses a value on a thread, once the value was found usable there.
fn guarded<T, R>(
    tb: &ThreadBound<T>,
    current: ThreadId,
    access: impl FnOnce(&ThreadBound<T>, ThreadId) -> R,
) -> Result<R, ForeignThread> {
    tb.check(current)?;
    Ok(access(tb, current))
}

/// Accesses two values on a thread, once both were found usable there.
fn guarded_pair<T, R>(
    a: &ThreadBound<T>,
    b: &ThreadBound<T>,
    current: ThreadId,
    access: impl FnOnce(&ThreadBound<T>, &ThreadBound<T>, ThreadId) -> R,
) -> Result<R, ForeignThread> {
    a.check(current)?;
    b.check(current)?;
    Ok(access(a, b, current))
}

/// Modifies a value on a thread, once the value was found usable there.
fn guarded_mut<T, R>(
    tb: &mut ThreadBound<T>,
    current: ThreadId,
    access: impl FnOnce(&mut ThreadBound<T>, ThreadId) -> R,
) -> Result<R, ForeignThread> {
    tb.check(current)?;
    Ok(access(tb, current))
}

fn hash_of(v: &impl Hash) -> u64 {
    let mut h = DefaultHasher::new();
    v.hash(&mut h);
    h.finish()
}

#[test]
fn is_unpin_when_value_is_unpin() {
    fn assert_unpin<T: Unpin>() {}

    assert_unpin::<ThreadBound<u32>>();
}

#[test]
fn deref_and_deref_mut() {
    let mut tb = ThreadBound::new(vec![1, 2, 3], HOME);
    assert_eq!(tb.deref(HOME).len(), 3);
    tb.deref_mut(HOME).push(4);
    assert_eq!(*tb.deref(HOME), vec![1, 2, 3, 4]);
}

#[test]
fn thread_bound_fn_matches_new() {
    let tb = thread_bound(7u32, HOME);
    assert_eq!(*tb.deref(HOME), 7);
    assert_eq!(ThreadBound::thread_id(&tb), HOME);
}

#[test]
fn default_binds_to_current_thread() {
    let tb: ThreadBound<String> = ThreadBound::default(HOME);
    assert!(tb.deref(HOME).is_empty());
    assert_eq!(ThreadBound::thread_id(&tb), HOME);
}

#[test]
fn is_usable_on_home_thread() {
    let tb = ThreadBound::new(1u32, HOME);
    assert!(ThreadBound::is_usable(&tb, HOME));
    assert_eq!(tb.check(HOME), Ok(()));
}

#[test]
fn into_inner_returns_value_without_dropping_it() {
    let (counted, drops) = Counted::new();
    let tb = ThreadBound::new(counted, HOME);

    let counted = ThreadBound::into_inner(tb, HOME);
    assert_eq!(drops.load(SeqCst), 0, "into_inner must not drop the value");

    drop(counted);
    assert_eq!(drops.load(SeqCst), 1, "value must be dropped exactly once");
}

#[test]
fn drop_on_home_thread_drops_value_exactly_once() {
    let (counted, drops) = Counted::new();
    assert!(!drop_on(ThreadBound::new(counted, HOME), HOME));
    assert_eq!(drops.load(SeqCst), 1);
}

#[test]
fn clone_produces_an_independent_value() {
    let (counted, drops) = Counted::new();
    let tb = ThreadBound::new(Rc::new(counted), HOME);

    let cloned = tb.clone(HOME);
    assert_eq!(Rc::strong_count(tb.deref(HOME)), 2);
    assert_eq!(ThreadBound::thread_id(&cloned), ThreadBound::thread_id(&tb));

    drop_on(cloned, HOME);
    assert_eq!(drops.load(SeqCst), 0);
    drop_on(tb, HOME);
    assert_eq!(drops.load(SeqCst), 1);
}

#[test]
fn comparison_and_hashing_delegate_to_the_value() {
    let a = ThreadBound::new(1u32, HOME);
    let b = ThreadBound::new(2u32, HOME);

    assert!(a.eq(&ThreadBound::new(1u32, HOME), HOME));
    assert!(!a.eq(&b, HOME));
    assert!(a.eq_value(&1u32, HOME));
    assert_eq!(a.partial_cmp(&b, HOME), Some(Ordering::Less));
    assert_eq!(a.partial_cmp_value(&2u32, HOME), Some(Ordering::Less));
    assert_eq!(a.cmp(&b, HOME), Ordering::Less);
    assert_eq!(hash_of(a.deref(HOME)), hash_of(&1u32), "must hash like the inner value");
}

#[test]
fn borrow_and_display() {
    let mut tb = ThreadBound::new(String::from("hello"), HOME);
    let borrowed: &String = tb.borrow(HOME);
    assert_eq!(borrowed, "hello");
    let borrowed: &mut String = tb.borrow_mut(HOME);
    borrowed.push('!');

    assert_eq!(tb.deref(HOME).to_string(), "hello!");
}

#[test]
fn debug_shows_value_on_home_thread() {
    let tb = ThreadBound::new(42u32, HOME);
    assert_eq!(tb.shown(HOME), Some(&42));
    let repr = format!("{:?}", tb.shown(HOME));
    assert!(repr.contains("42"), "{repr}");
}

#[test]
fn thread_id_and_is_usable_readable_from_other_thread() {
    let tb = ThreadBound::new(Rc::new(1u32), HOME);

    assert_eq!(ThreadBound::thread_id(&tb), HOME);
    assert!(!ThreadBound::is_usable(&tb, OTHER));
}

#[test]
fn debug_hides_value_on_other_thread() {
    let tb = ThreadBound::new(42u32, HOME);
    assert_eq!(tb.shown(OTHER), None);
    let repr = format!("{:?}", tb.shown(OTHER));
    assert!(!repr.contains("42"), "value must not be read off-thread: {repr}");
}

#[test]
fn value_without_drop_glue_may_be_dropped_on_other_thread() {
    let tb = ThreadBound::new(42u32, HOME);
    assert_eq!(tb.drop_action(OTHER), DropAction::Nothing);

    let tb = ThreadBound::new("no drop glue", HOME);
    assert_eq!(tb.drop_action(OTHER), DropAction::Nothing);
}

#[test]
fn forget_discards_a_value_on_other_thread_without_aborting() {
    let (counted, drops) = Counted::new();
    let tb = ThreadBound::new(counted, HOME);

    mem::forget(tb);

    assert_eq!(drops.load(SeqCst), 0, "forget must leak rather than drop");
}

#[test]
fn deref_panics_on_other_thread() {
    let tb = ThreadBound::new(Rc::new(1u32), HOME);
    assert_eq!(guarded(&tb, HOME, |tb, id| **tb.deref(id)), Ok(1));
    assert_eq!(guarded(&tb, OTHER, |tb, id| **tb.deref(id)), Err(FOREIGN));
}

#[test]
fn deref_mut_panics_on_other_thread() {
    let mut tb = ThreadBound::new(vec![1u32], HOME);
    assert_eq!(guarded_mut(&mut tb, OTHER, |tb, id| tb.deref_mut(id).push(2)), Err(FOREIGN));
    assert_eq!(*tb.deref(HOME), vec![1]);
    assert_eq!(guarded_mut(&mut tb, HOME, |tb, id| tb.deref_mut(id).push(2)), Ok(()));
    assert_eq!(*tb.deref(HOME), vec![1, 2]);
}

#[test]
fn display_panics_on_other_thread() {
    let tb = ThreadBound::new(String::from("x"), HOME);
    assert_eq!(guarded(&tb, HOME, |tb, id| tb.deref(id).to_string()), Ok(String::from("x")));
    assert_eq!(guarded(&tb, OTHER, |tb, id| tb.deref(id).to_string()), Err(FOREIGN));
}

#[test]
fn clone_panics_on_other_thread() {
    let tb = ThreadBound::new(String::from("x"), HOME);
    assert_eq!(guarded(&tb, OTHER, |tb, id| tb.clone(id)).err(), Some(FOREIGN));

    // A clone belongs to the same thread and thus is not usable elsewhere either.
    let cloned = guarded(&tb, HOME, |tb, id| tb.clone(id)).ok().unwrap();
    assert_eq!(guarded(&cloned, HOME, |tb, id| tb.deref(id).clone()), Ok(String::from("x")));
    assert_eq!(guarded(&cloned, OTHER, |tb, id| tb.deref(id).clone()), Err(FOREIGN));
}

#[test]
fn eq_panics_on_other_thread() {
    let a = ThreadBound::new(1u32, HOME);
    let b = ThreadBound::new(1u32, HOME);
    assert_eq!(guarded_pair(&a, &b, HOME, |a, b, id| a.eq(b, id)), Ok(true));
    assert_eq!(guarded_pair(&a, &b, OTHER, |a, b, id| a.eq(b, id)), Err(FOREIGN));
    // Both values have to be usable.
    let foreign = ThreadBound::new(1u32, OTHER);
    assert_eq!(
        guarded_pair(&a, &foreign, HOME, |a, b, id| a.eq(b, id)),
        Err(ForeignThread { home: OTHER, current: HOME })
    );
}

#[test]
fn eq_against_bare_value_panics_on_other_thread() {
    let a = ThreadBound::new(1u32, HOME);
    assert_eq!(guarded(&a, HOME, |a, id| a.eq_value(&1u32, id)), Ok(true));
    assert_eq!(guarded(&a, OTHER, |a, id| a.eq_value(&1u32, id)), Err(FOREIGN));
}

#[test]
fn ord_panics_on_other_thread() {
    let a = ThreadBound::new(1u32, HOME);
    let b = ThreadBound::new(2u32, HOME);
    assert_eq!(guarded_pair(&a, &b, HOME, |a, b, id| a.cmp(b, id)), Ok(Ordering::Less));
    assert_eq!(guarded_pair(&a, &b, OTHER, |a, b, id| a.cmp(b, id)), Err(FOREIGN));
    assert_eq!(
        guarded_pair(&a, &b, HOME, |a, b, id| a.partial_cmp(b, id)),
        Ok(Some(Ordering::Less))
    );
    assert_eq!(guarded_pair(&a, &b, OTHER, |a, b, id| a.partial_cmp(b, id)), Err(FOREIGN));
}

#[test]
fn hash_panics_on_other_thread() {
    let tb = ThreadBound::new(1u32, HOME);
    assert_eq!(guarded(&tb, HOME, |tb, id| hash_of(tb.deref(id))), Ok(hash_of(&1u32)));
    assert_eq!(guarded(&tb, OTHER, |tb, id| hash_of(tb.deref(id))), Err(FOREIGN));
}

#[test]
fn borrow_panics_on_other_thread() {
    let tb = ThreadBound::new(String::from("x"), HOME);
    assert_eq!(guarded(&tb, HOME, |tb, id| tb.borrow(id).len()), Ok(1));
    assert_eq!(guarded(&tb, OTHER, |tb, id| tb.borrow(id).len()), Err(FOREIGN));
}

#[test]
fn panic_message_names_both_threads() {
    let msg = use_diagnostic("alloc::string::String", "ThreadId(2)", "ThreadId(1)");
    assert!(msg.contains("alloc::string::String"), "{msg}");
    assert!(msg.contains("belongs to thread"), "{msg}");
    assert_eq!(
        msg,
        "cannot use alloc::string::String on thread ThreadId(2) since it belongs to thread ThreadId(1)"
    );
}

#[test]
fn drop_on_wrong_thread_aborts() {
    let (counted, drops) = Counted::new();
    let tb = ThreadBound::new(counted, HOME);
    assert!(drop_on(tb, OTHER));
    assert_eq!(drops.load(SeqCst), 0);
    assert_eq!(
        drop_diagnostic("alloc::string::String", "ThreadId(2)", "ThreadId(1)"),
        "cannot drop alloc::string::String on thread ThreadId(2) since it belongs to thread ThreadId(1)"
    );
}

#[test]
fn into_inner_on_wrong_thread_aborts() {
    // The value is refused, is not marked as taken out and then cannot be dropped.
    let mut tb = ThreadBound::new(String::from("boom"), HOME);
    assert_eq!(tb.take(OTHER), Err(FOREIGN));
    assert_eq!(tb.drop_action(OTHER), DropAction::Abort);
}

#[test]
fn taken_value_is_not_dropped_anywhere() {
    let mut tb = ThreadBound::new(String::from("x"), HOME);
    assert_eq!(tb.take(HOME), Ok(()));
    assert_eq!(tb.drop_action(HOME), DropAction::Nothing);
    assert_eq!(tb.drop_action(OTHER), DropAction::Nothing);
}

#[test]
fn drop_rules_are_complete() {
    for needs_drop in [false, true] {
        for taken in [false, true] {
            for usable in [false, true] {
                let expected = match (needs_drop, taken, usable) {
                    (true, false, true) => DropAction::DropValue,
                    (true, false, false) => DropAction::Abort,
                    _ => DropAction::Nothing,
                };
                assert_eq!(drop_action(needs_drop, taken, usable), expected);
            }
        }
    }
}
