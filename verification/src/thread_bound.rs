//! Bind a value to a thread.
//!
//! A [`ThreadBound`] value may be used, and its destructor may be run, on the
//! thread that created it and on no other one. Which thread is the current one
//! is handed in.
use std::cmp::Ordering;
use vstd::prelude::*;
use vstd::std_specs::cmp::{OrdSpec, PartialEqSpec, PartialOrdSpec};

verus! {

/// Identifies a thread.
#[derive(Clone, Copy, Debug, PartialEq, Eq, Structural)]
pub struct ThreadId {
    /// Number of the thread, which no other thread has or had.
    pub number: u64,
}

/// A value was about to be used on a thread that it does not belong to.
#[derive(Clone, Copy, Debug, PartialEq, Eq, Structural)]
pub struct ForeignThread {
    /// The thread that the value belongs to.
    pub home: ThreadId,
    /// The current thread.
    pub current: ThreadId,
}

/// What has to be done with the inner value when a [`ThreadBound`] is dropped.
#[derive(Clone, Copy, Debug, PartialEq, Eq, Structural)]
pub enum DropAction {
    /// Nothing: there is no destructor to run, or the value was taken out.
    Nothing,
    /// Run the destructor of the value.
    DropValue,
    /// Abort the process, since the destructor cannot be run on this thread.
    ///
    /// This cannot be a panic. Unwinding would release the storage of the value
    /// without having run its destructor, on which a pinned value relies.
    Abort,
}

/// What has to be done when a [`ThreadBound`] is dropped, given whether its inner
/// value needs drop, was taken out and is usable from the current thread.
pub open spec fn dropping(needs_drop: bool, taken: bool, usable: bool) -> DropAction {
    if !needs_drop || taken {
        DropAction::Nothing
    } else if usable {
        DropAction::DropValue
    } else {
        DropAction::Abort
    }
}

/// What has to be done when a [`ThreadBound`] is dropped, given whether its inner
/// value needs drop, was taken out and is usable from the current thread.
pub fn drop_action(needs_drop: bool, taken: bool, usable: bool) -> (r: DropAction)
    ensures
        r == dropping(needs_drop, taken, usable),
{
    if needs_drop && !taken {
        if usable {
            DropAction::DropValue
        } else {
            DropAction::Abort
        }
    } else {
        DropAction::Nothing
    }
}

/// [`core::mem::needs_drop`] tells whether dropping a value of type `T` matters.
/// Nothing is claimed of the answer: it may be conservatively positive.
pub assume_specification<T: ?Sized>[ core::mem::needs_drop::<T> ]() -> (r: bool);

/// The diagnostic for the use of a value on a foreign thread, given the names of
/// its type, of the current thread and of the thread that it belongs to.
pub fn use_diagnostic(what: &str, current: &str, home: &str) -> (r: String)
    ensures
        r@ == "cannot use "@ + what@ + " on thread "@ + current@
            + " since it belongs to thread "@ + home@,
{
    "cannot use ".to_string().concat(what).concat(" on thread ").concat(current).concat(
        " since it belongs to thread ",
    ).concat(home)
}

/// The diagnostic for dropping a value on a foreign thread, given the names of
/// its type, of the current thread and of the thread that it belongs to.
pub fn drop_diagnostic(what: &str, current: &str, home: &str) -> (r: String)
    ensures
        r@ == "cannot drop "@ + what@ + " on thread "@ + current@
            + " since it belongs to thread "@ + home@,
{
    "cannot drop ".to_string().concat(what).concat(" on thread ").concat(current).concat(
        " since it belongs to thread ",
    ).concat(home)
}

/// Binds the value to the current thread.
pub fn thread_bound<T>(value: T, current: ThreadId) -> (r: ThreadBound<T>)
    ensures
        r.value() == value,
        r.home() == current,
        !r.taken(),
{
    ThreadBound::new(value, current)
}

/// Allows access to a value only from the thread that created this.
///
/// Whoever owns this has to [ask what to do](ThreadBound::drop_action) before
/// dropping it.
pub struct ThreadBound<T> {
    value: T,
    thread_id: ThreadId,
    taken: bool,
}

impl<T> ThreadBound<T> {
    /// The inner value.
    pub closed spec fn value(self) -> T {
        self.value
    }

    /// The thread that is allowed to access the inner value.
    pub closed spec fn home(self) -> ThreadId {
        self.thread_id
    }

    /// Whether the inner value may be accessed from the current thread.
    pub open spec fn usable(self, current: ThreadId) -> bool {
        current == self.home()
    }

    /// Whether the inner value was taken out.
    pub closed spec fn taken(self) -> bool {
        self.taken
    }

    /// Binds the value to the current thread.
    pub fn new(value: T, current: ThreadId) -> (r: Self)
        ensures
            r.value() == value,
            r.home() == current,
            !r.taken(),
    {
        ThreadBound { value, thread_id: current, taken: false }
    }

    /// Binds the default value to the current thread.
    pub fn default(current: ThreadId) -> (r: Self) where T: Default
        ensures
            T::default.ensures((), r.value()),
            r.home() == current,
            !r.taken(),
    {
        Self::new(T::default(), current)
    }

    /// The id of the thread that is allowed to access the inner value.
    pub fn thread_id(this: &Self) -> (r: ThreadId)
        ensures
            r == this.home(),
    {
        this.thread_id
    }

    /// Whether the value is usable from the current thread.
    pub fn is_usable(this: &Self, current: ThreadId) -> (r: bool)
        ensures
            r == this.usable(current),
    {
        current == this.thread_id
    }

    /// Checks that the value is usable from the current thread.
    pub fn check(&self, current: ThreadId) -> (r: Result<(), ForeignThread>)
        ensures
            r == if self.usable(current) {
                Ok(())
            } else {
                Err(ForeignThread { home: self.home(), current })
            },
    {
        if !Self::is_usable(self, current) {
            return Err(ForeignThread { home: self.thread_id, current });
        }
        Ok(())
    }

    /// Takes the inner value out.
    pub fn into_inner(this: Self, current: ThreadId) -> (r: T)
        requires
            this.usable(current),
        ensures
            r == this.value(),
    {
        this.value
    }

    /// Marks the inner value as taken out, so that it is not dropped along with this.
    pub fn take(&mut self, current: ThreadId) -> (r: Result<(), ForeignThread>)
        ensures
            r == if old(self).usable(current) {
                Ok(())
            } else {
                Err(ForeignThread { home: old(self).home(), current })
            },
            final(self).taken() == (old(self).taken() || r is Ok),
            final(self).value() == old(self).value(),
            final(self).home() == old(self).home(),
    {
        match self.check(current) {
            Ok(()) => {
                self.taken = true;
                Ok(())
            },
            Err(foreign) => Err(foreign),
        }
    }

    /// What has to be done with the inner value when this is dropped, according to
    /// whether [`core::mem::needs_drop`] says that its type needs drop.
    pub fn drop_action(&self, current: ThreadId) -> (r: DropAction)
        ensures
            exists|needs_drop: bool|
                call_ensures(core::mem::needs_drop::<T>, (), needs_drop) && r
                    == #[trigger] dropping(needs_drop, self.taken(), self.usable(current)),
    {
        let needs_drop = core::mem::needs_drop::<T>();
        let action = drop_action(needs_drop, self.taken, Self::is_usable(self, current));
        assert(action == dropping(needs_drop, self.taken(), self.usable(current)));
        action
    }

    /// The inner value.
    pub fn deref(&self, current: ThreadId) -> (r: &T)
        requires
            self.usable(current),
        ensures
            *r == self.value(),
    {
        &self.value
    }

    /// The inner value.
    pub fn deref_mut(&mut self, current: ThreadId) -> (r: &mut T)
        requires
            old(self).usable(current),
        ensures
            *r == old(self).value(),
            final(self).value() == *final(r),
            final(self).home() == old(self).home(),
            final(self).taken() == old(self).taken(),
    {
        &mut self.value
    }

    /// The inner value.
    pub fn borrow(&self, current: ThreadId) -> (r: &T)
        requires
            self.usable(current),
        ensures
            *r == self.value(),
    {
        &self.value
    }

    /// The inner value.
    pub fn borrow_mut(&mut self, current: ThreadId) -> (r: &mut T)
        requires
            old(self).usable(current),
        ensures
            *r == old(self).value(),
            final(self).value() == *final(r),
            final(self).home() == old(self).home(),
            final(self).taken() == old(self).taken(),
    {
        &mut self.value
    }

    /// The inner value as far as it may be shown: on a foreign thread it is hidden.
    pub fn shown(&self, current: ThreadId) -> (r: Option<&T>)
        ensures
            r == if self.usable(current) {
                Some(&self.value())
            } else {
                None
            },
    {
        if Self::is_usable(self, current) {
            Some(&self.value)
        } else {
            None
        }
    }

    /// A copy of the value, bound to the same thread.
    pub fn clone(&self, current: ThreadId) -> (r: Self) where T: Clone
        requires
            self.usable(current),
        ensures
            cloned(self.value(), r.value()),
            r.home() == self.home(),
            r.taken() == self.taken(),
    {
        ThreadBound {
            thread_id: self.thread_id,
            value: self.value.clone(),
            taken: self.taken,
        }
    }

    /// Whether both values are equal.
    pub fn eq(&self, other: &Self, current: ThreadId) -> (r: bool) where T: PartialEq
        requires
            self.usable(current),
            other.usable(current),
        ensures
            T::eq.ensures((&self.value(), &other.value()), r),
            T::obeys_eq_spec() ==> r == self.value().eq_spec(&other.value()),
    {
        self.value == other.value
    }

    /// Whether the inner value is equal to `other`.
    pub fn eq_value(&self, other: &T, current: ThreadId) -> (r: bool) where T: PartialEq
        requires
            self.usable(current),
        ensures
            T::eq.ensures((&self.value(), other), r),
            T::obeys_eq_spec() ==> r == self.value().eq_spec(other),
    {
        self.value == *other
    }

    /// The order of both values, if there is one.
    pub fn partial_cmp(&self, other: &Self, current: ThreadId) -> (r: Option<Ordering>) where
        T: PartialOrd,

        requires
            self.usable(current),
            other.usable(current),
        ensures
            T::partial_cmp.ensures((&self.value(), &other.value()), r),
            T::obeys_partial_cmp_spec() ==> r == self.value().partial_cmp_spec(&other.value()),
    {
        self.value.partial_cmp(&other.value)
    }

    /// The order of the inner value and `other`, if there is one.
    pub fn partial_cmp_value(&self, other: &T, current: ThreadId) -> (r: Option<Ordering>) where
        T: PartialOrd,

        requires
            self.usable(current),
        ensures
            T::partial_cmp.ensures((&self.value(), other), r),
            T::obeys_partial_cmp_spec() ==> r == self.value().partial_cmp_spec(other),
    {
        self.value.partial_cmp(other)
    }

    /// The order of both values.
    pub fn cmp(&self, other: &Self, current: ThreadId) -> (r: Ordering) where T: Ord
        requires
            self.usable(current),
            other.usable(current),
        ensures
            T::cmp.ensures((&self.value(), &other.value()), r),
            T::obeys_cmp_spec() ==> r == self.value().cmp_spec(&other.value()),
    {
        self.value.cmp(&other.value)
    }
}

/// The destructor of a value is run on the thread that the value belongs to and
/// on no other one, and never after the value was taken out.
pub proof fn law_destructor_runs_at_home_only(
    needs_drop: bool,
    taken: bool,
    current: ThreadId,
    home: ThreadId,
)
    ensures
        dropping(needs_drop, taken, current == home) is DropValue <==> needs_drop && !taken
            && current == home,
{
}

/// Dropping on a foreign thread aborts the process if a destructor would have to
/// be run, and does nothing otherwise; on the thread that the value belongs to it
/// never aborts.
pub proof fn law_foreign_drop_aborts_unless_it_does_nothing(
    needs_drop: bool,
    taken: bool,
    current: ThreadId,
    home: ThreadId,
)
    ensures
        dropping(needs_drop, taken, current == home) is Abort <==> needs_drop && !taken && current
            != home,
        !needs_drop ==> dropping(needs_drop, taken, current == home) is Nothing,
{
}

/// A value is usable from a thread if and only if that is the thread on which it was
/// bound. On any other one it is refused, which names both threads, it is hidden, it
/// is not taken out and its destructor is not run.
pub proof fn law_value_belongs_to_the_thread_that_bound_it<T>(
    value: T,
    home: ThreadId,
    current: ThreadId,
    bound: ThreadBound<T>,
    usable: bool,
    checked: Result<(), ForeignThread>,
    shown: Option<&T>,
    action: DropAction,
    taking: &mut ThreadBound<T>,
    taken: Result<(), ForeignThread>,
    action_after: DropAction,
)
    requires
        call_ensures(ThreadBound::<T>::new, (value, home), bound),
        call_ensures(ThreadBound::<T>::is_usable, (&bound, current), usable),
        call_ensures(ThreadBound::<T>::check, (&bound, current), checked),
        call_ensures(ThreadBound::<T>::shown, (&bound, current), shown),
        call_ensures(ThreadBound::<T>::drop_action, (&bound, current), action),
        *taking == bound,
        call_ensures(ThreadBound::<T>::take, (taking, current), taken),
        call_ensures(ThreadBound::<T>::drop_action, (&*final(taking), current), action_after),
    ensures
        usable <==> current == home,
        checked is Ok <==> current == home,
        checked matches Err(foreign) ==> foreign.home == home && foreign.current == current,
        shown == if current == home {
            Some(&value)
        } else {
            None
        },
        taken is Ok <==> current == home,
        taken matches Err(foreign) ==> foreign.home == home && foreign.current == current,
        action is DropValue ==> current == home,
        action is Abort ==> current != home,
        action is DropValue || action is Abort ==> call_ensures(
            core::mem::needs_drop::<T>,
            (),
            true,
        ),
        action is Nothing ==> call_ensures(core::mem::needs_drop::<T>, (), false),
        taken is Ok ==> action_after is Nothing,
        taken is Err ==> action_after !is DropValue,
{
}

/// What was bound to a thread is what comes out of it there, by every way to access
/// it, and nothing but the thread that it was bound on is its home.
pub proof fn law_bound_value_comes_back<T>(
    value: T,
    home: ThreadId,
    bound: ThreadBound<T>,
    also_bound: ThreadBound<T>,
    id: ThreadId,
    inner: T,
    read: &T,
    borrowed: &T,
)
    requires
        call_ensures(ThreadBound::<T>::new, (value, home), bound),
        call_ensures(thread_bound::<T>, (value, home), also_bound),
        call_ensures(ThreadBound::<T>::thread_id, (&bound,), id),
        call_ensures(ThreadBound::<T>::into_inner, (bound, home), inner),
        call_ensures(ThreadBound::<T>::deref, (&bound, home), read),
        call_ensures(ThreadBound::<T>::borrow, (&bound, home), borrowed),
    ensures
        id == home,
        inner == value,
        *read == value,
        *borrowed == value,
        also_bound.home() == bound.home(),
        also_bound.value() == bound.value(),
        also_bound.taken() == bound.taken(),
{
}

/// A clone belongs to the thread that the original belongs to.
pub proof fn law_clone_has_the_same_home<T: Clone>(
    bound: ThreadBound<T>,
    home: ThreadId,
    copy: ThreadBound<T>,
    id: ThreadId,
    copy_id: ThreadId,
    current: ThreadId,
    usable: bool,
    copy_usable: bool,
)
    requires
        call_ensures(ThreadBound::<T>::clone, (&bound, home), copy),
        call_ensures(ThreadBound::<T>::thread_id, (&bound,), id),
        call_ensures(ThreadBound::<T>::thread_id, (&copy,), copy_id),
        call_ensures(ThreadBound::<T>::is_usable, (&bound, current), usable),
        call_ensures(ThreadBound::<T>::is_usable, (&copy, current), copy_usable),
    ensures
        copy_id == id,
        copy_usable == usable,
        usable <==> current == id,
{
}

/// What has to be done when a value is dropped, in full: a destructor that exists and
/// was not made superfluous is run at home, and aborts the process elsewhere.
pub proof fn law_drop_rule_in_full(needs_drop: bool, taken: bool, usable: bool, action: DropAction)
    requires
        call_ensures(drop_action, (needs_drop, taken, usable), action),
    ensures
        action is DropValue <==> needs_drop && !taken && usable,
        action is Abort <==> needs_drop && !taken && !usable,
        action is Nothing <==> !needs_drop || taken,
{
}

/// What is written to a value on its thread is what the value is afterwards, and writing
/// changes neither the thread that it belongs to nor whether it was taken out.
pub proof fn law_written_value_stays<T>(
    bound: &mut ThreadBound<T>,
    home: ThreadId,
    written: &mut T,
    borrowed: &mut ThreadBound<T>,
    borrowed_written: &mut T,
    id: ThreadId,
    id_after: ThreadId,
    read: &T,
    borrowed_read: &T,
)
    requires
        call_ensures(ThreadBound::<T>::thread_id, (&*bound,), id),
        call_ensures(ThreadBound::<T>::deref_mut, (bound, home), written),
        call_ensures(ThreadBound::<T>::thread_id, (&*final(bound),), id_after),
        call_ensures(ThreadBound::<T>::deref, (&*final(bound), home), read),
        call_ensures(ThreadBound::<T>::borrow_mut, (borrowed, home), borrowed_written),
        call_ensures(ThreadBound::<T>::borrow, (&*final(borrowed), home), borrowed_read),
    ensures
        id_after == id,
        *read == *final(written),
        *borrowed_read == *final(borrowed_written),
        final(bound).taken() == old(bound).taken(),
        final(borrowed).taken() == old(borrowed).taken(),
        final(borrowed).home() == old(borrowed).home(),
{
}

/// The specification functions of a bound value show its fields.
proof fn law_bound_values_show_their_fields<T>(bound: ThreadBound<T>)
    ensures
        bound.value() == bound.value,
        bound.home() == bound.thread_id,
        bound.taken() == bound.taken,
{
}

} // verus!
