//! The lock with broadcast and recheck: every release wakes all waiting
//! threads, and each of them looks again at its own condition, going back to
//! sleep if it still does not hold.
//!
//! As with [`crate::mutex::Mutex`], holding the lock means holding the
//! protected value, which a release moves back into the lock's vault.
//!
//! What this strategy buys and costs:
//! - A wait can be bounded by a timeout. A wait that times out holds nothing.
//! - A release wakes every waiter, so its cost grows with their number. In
//!   which order woken threads get the lock is up to the scheduler.
//! - The lock does not poison. A holder that unwinds releases the lock through
//!   its guard like any other, and the next holder finds the value as it was
//!   left. A condition that panics while it is evaluated leaves the value
//!   where it was.
//! - `try_lock` reports a lock as taken also during the instant in which
//!   another thread is moving the value in or out, or evaluating a condition.

use crate::condition::{holds, total};
use crate::vault::{Loan, Vault};
use std::time::Duration;
use vstd::prelude::*;

verus! {

/// An exclusive lock around a value of type `T` on whose value threads can
/// wait, with or without a time limit.
#[verifier::reject_recursive_types(T)]
pub struct Monitor<T> {
    data: Vault<T>,
}

/// Exclusive access to the value of a [`Monitor`], for as long as the guard
/// lives. Dropping the guard releases the lock and wakes all waiters, each of
/// which then rechecks its own condition.
#[verifier::reject_recursive_types(T)]
pub struct MonitorGuard<'a, T> {
    loan: Loan<'a, T>,
    owner: &'a Monitor<T>,
}

impl<T> Monitor<T> {
    /// Any value may be protected.
    #[verifier::type_invariant]
    spec fn open_to_all(self) -> bool {
        forall|value: T| self.data.admits(value)
    }

    /// A free lock around `t`.
    pub fn new(t: T) -> (monitor: Self)
        ensures
            monitor.initial() == t,
    {
        Monitor { data: Vault::holding(t, Ghost(|value: T| true)) }
    }

    /// The value around which the lock was made. What the lock holds later
    /// is up to the threads that take it; this is where they start from.
    pub closed spec fn initial(&self) -> T {
        self.data.born()->0
    }

    /// Acquires the lock, blocking until it is free.
    ///
    /// The guard shows the value as the last holder left it.
    pub fn lock(&self) -> (guard: MonitorGuard<'_, T>)
        ensures
            guard.owner() == self,
            guard.wakes_all(),
    {
        proof {
            use_type_invariant(self);
        }
        MonitorGuard { loan: self.data.lend(true), owner: self }
    }

    /// Acquires the lock if it is free at this instant; never blocks.
    /// `None` means that it was not.
    pub fn try_lock(&self) -> (guard: Option<MonitorGuard<'_, T>>)
        ensures
            guard is Some ==> (guard->0).owner() == self && (guard->0).wakes_all(),
    {
        self.guard_of(self.data.try_take())
    }

    /// Acquires the lock once `condition` holds of the protected value,
    /// sleeping through every release after which it does not.
    pub fn lock_when<F: Fn(&T) -> bool>(&self, condition: F) -> (guard: MonitorGuard<'_, T>)
        requires
            total(condition),
        ensures
            guard.owner() == self,
            guard.wakes_all(),
            holds(condition, guard@),
    {
        match self.data.take_when(&condition) {
            Some(value) => self.guard(value),
            None => vstd::pervasive::unreached(),
        }
    }

    /// As [`Monitor::lock_when`], but waits no longer than `timeout`. `None`
    /// means that the time ran out; the lock is then not held.
    ///
    /// Whether the wait succeeds is up to the clock and to the other threads;
    /// a guard that comes back is one under which `condition` holds.
    pub fn lock_when_with_timeout<F: Fn(&T) -> bool>(&self, condition: F, timeout: Duration) -> (guard:
        Option<MonitorGuard<'_, T>>)
        requires
            total(condition),
        ensures
            guard is Some ==> (guard->0).owner() == self && (guard->0).wakes_all(),
            in_time(condition, seen(guard)),
    {
        self.guard_of(self.data.take_when_within(&condition, timeout))
    }
}

impl<T> Monitor<T> {
    /// A guard around `value`, which the caller has taken from this lock.
    fn guard(&self, value: T) -> (guard: MonitorGuard<'_, T>)
        ensures
            guard.owner() == self,
            guard.wakes_all(),
            guard@ == value,
    {
        proof {
            use_type_invariant(self);
        }
        MonitorGuard { loan: Loan::of(value, &self.data, true), owner: self }
    }

    /// A guard around what was found in the lock's vault, if anything was.
    fn guard_of(&self, found: Option<T>) -> (guard: Option<MonitorGuard<'_, T>>)
        ensures
            found is None ==> guard is None,
            found is Some ==> guard is Some && (guard->0).owner() == self && (guard->0).wakes_all()
                && (guard->0)@ == found->0,
    {
        match found {
            Some(value) => Some(self.guard(value)),
            None => None,
        }
    }
}

impl<'a, T> MonitorGuard<'a, T> {
    /// A live guard holds the value, on a loan from the vault of its lock
    /// that wakes every waiter when it ends.
    #[verifier::type_invariant]
    spec fn holding(self) -> bool {
        &&& self.loan.value() is Some
        &&& self.loan.home() == &self.owner.data
        &&& self.loan.wakes_all()
    }

    /// The lock this guard belongs to.
    pub closed spec fn owner(self) -> &'a Monitor<T> {
        self.owner
    }

    /// Whether dropping the guard wakes every thread that waits for the lock,
    /// so that each of them rechecks its condition.
    pub closed spec fn wakes_all(self) -> bool {
        self.loan.wakes_all()
    }

    /// Waits, in the middle of a critical section, until `condition` holds of
    /// the protected value. If it holds already, nothing happens; otherwise
    /// the lock is released for the wait and held again on return, with
    /// whatever other threads have made of the value in between.
    pub fn await_condition<F: Fn(&T) -> bool>(self, condition: F) -> (guard: MonitorGuard<'a, T>)
        requires
            total(condition),
        ensures
            guard.owner() == self.owner(),
            guard.wakes_all(),
            holds(condition, guard@),
            !call_ensures(condition, (&self@,), false) ==> guard@ == self@,
    {
        proof {
            use_type_invariant(&self);
        }
        if condition(self.loan.get()) {
            return self;
        }
        let owner = self.owner;
        {
            let _released = self;
        }
        owner.lock_when(condition)
    }

    /// As [`MonitorGuard::await_condition`], but waits no longer than
    /// `timeout`. `None` means that the time ran out; the lock is then not
    /// held.
    pub fn await_with_timeout<F: Fn(&T) -> bool>(self, condition: F, timeout: Duration) -> (guard:
        Option<MonitorGuard<'a, T>>)
        requires
            total(condition),
        ensures
            guard is Some ==> (guard->0).owner() == self.owner() && (guard->0).wakes_all(),
            in_time(condition, seen(guard)),
            !call_ensures(condition, (&self@,), false) ==> guard is Some && (guard->0)@ == self@,
    {
        proof {
            use_type_invariant(&self);
        }
        if condition(self.loan.get()) {
            return Some(self);
        }
        let owner = self.owner;
        {
            let _released = self;
        }
        owner.lock_when_with_timeout(condition, timeout)
    }
}

/// The value under the guard that a wait came back with, if it came back
/// with one.
pub open spec fn seen<'a, T>(guard: Option<MonitorGuard<'a, T>>) -> Option<T> {
    match guard {
        Some(guard) => Some(guard@),
        None => None,
    }
}

/// What a bounded wait for `condition` may come back with: a value of which
/// the condition holds, or, when the time has run out, nothing.
pub open spec fn in_time<T, F: Fn(&T) -> bool>(condition: F, outcome: Option<T>) -> bool {
    outcome is Some ==> holds(condition, outcome->0)
}

/// No false success: a bounded wait for a condition that holds of no value
/// comes back with nothing, and so with no lock held.
pub proof fn lemma_no_false_success<T, F: Fn(&T) -> bool>(condition: F, outcome: Option<T>)
    requires
        in_time(condition, outcome),
        forall|value: T| !holds(condition, value),
    ensures
        outcome is None,
{
}

impl<'a, T> View for MonitorGuard<'a, T> {
    type V = T;

    /// The protected value, as the holder of the guard sees it.
    closed spec fn view(&self) -> T {
        self.loan.value()->0
    }
}

impl<'a, T> std::ops::Deref for MonitorGuard<'a, T> {
    type Target = T;

    fn deref(&self) -> (value: &T)
        ensures
            *value == self@,
    {
        proof {
            use_type_invariant(self);
        }
        self.loan.get()
    }
}

impl<'a, T> std::ops::DerefMut for MonitorGuard<'a, T> {
    fn deref_mut(&mut self) -> (value: &mut T)
        ensures
            *value == old(self)@,
            final(self)@ == *final(value),
            final(self).owner() == old(self).owner(),
            final(self).wakes_all() == old(self).wakes_all(),
    {
        proof {
            use_type_invariant(&*self);
        }
        self.loan.get_mut()
    }
}

} // verus!
