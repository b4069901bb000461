//! The lock with direct hand-off: a thread that releases the lock looks for a
//! waiter whose condition now holds and, if there is one, passes the lock
//! straight to it, so that the lock is never free in between.
//!
//! Holding the lock means holding the protected value itself: acquiring moves
//! it out of the lock's vault, and releasing moves it back or into the slot of
//! the waiter that is served. The value exists once, so it is in one thread's
//! hands at a time.
//!
//! What this strategy buys and costs:
//! - A release wakes exactly the waiter it serves, whatever the number of
//!   waiters. Among several waiters whose conditions hold, the one that
//!   enrolled first is served; which of them that is, is up to the scheduler.
//! - A wait cannot be bounded or cancelled. A waiter whose condition holds at
//!   no release after its enrolment sleeps forever.
//! - The lock does not poison. A thread that unwinds while it has the lock,
//!   be it in a critical section or in a condition that panics, releases the
//!   lock like any other, and the next holder finds the value as it was left.
//! - `try_lock` reports a lock as taken also during the instant in which
//!   another thread is moving the value in or out.

use crate::condition::{holds, total};
use crate::registry::{offered, Registry, Waiter};
use crate::vault::{Loan, Vault};
use vstd::prelude::*;

verus! {

/// An exclusive lock around a value of type `T` whose acquisition can wait
/// for a condition on that value.
#[verifier::reject_recursive_types(T)]
pub struct Mutex<T> {
    data: Vault<T>,
    registry: Vault<Registry<T>>,
}

/// Exclusive access to the value of a [`Mutex`], for as long as the guard
/// lives. Dropping the guard releases the lock.
#[verifier::reject_recursive_types(T)]
pub struct MutexGuard<'a, T> {
    loan: Loan<'a, T>,
    owner: &'a Mutex<T>,
}

impl<T> Mutex<T> {
    /// Any value may be protected, and any registry may be stored.
    #[verifier::type_invariant]
    spec fn open_to_all(self) -> bool {
        &&& forall|value: T| self.data.admits(value)
        &&& forall|registry: Registry<T>| self.registry.admits(registry)
    }

    /// A free lock around `t`, with nobody waiting.
    pub fn new(t: T) -> (mutex: Self)
        ensures
            mutex.initial() == t,
            mutex.initial_waiters() == Seq::<Waiter<T>>::empty(),
    {
        let data = Vault::holding(t, Ghost(|value: T| true));
        let registry = Vault::holding(Registry::new(), Ghost(|registry: Registry<T>| true));
        Mutex { data, registry }
    }

    /// Takes the value on a loan that gives it back without a look at the registry.
    fn acquire(&self) -> (loan: Loan<'_, T>)
        ensures
            loan.value() is Some,
            loan.home() == &self.data,
            !loan.wakes_all(),
    {
        proof {
            use_type_invariant(self);
        }
        self.data.lend(false)
    }

    /// Takes the registry, blocking while another thread is working on it.
    fn open_registry(&self) -> (loan: Loan<'_, Registry<T>>)
        ensures
            loan.value() is Some,
    {
        proof {
            use_type_invariant(self);
        }
        self.registry.lend(false)
    }

    /// The value around which the lock was made.
    pub closed spec fn initial(&self) -> T {
        self.data.born()->0
    }

    /// The waiters with which the lock was made.
    pub closed spec fn initial_waiters(&self) -> Seq<Waiter<T>> {
        self.registry.born()->0@
    }

    /// Acquires the lock, blocking until it is free.
    pub fn lock(&self) -> (guard: MutexGuard<'_, T>)
        ensures
            guard.owner() == self,
    {
        MutexGuard { loan: self.acquire(), owner: self }
    }

    /// Acquires the lock once `condition` holds of the protected value.
    ///
    /// If the lock is free and the condition holds, this returns at once.
    /// Otherwise the caller gives the lock back, enrolls in the registry and
    /// sleeps until a releasing thread finds the condition true and hands the
    /// lock over; the condition is not evaluated again on waking. A release
    /// that happens after the lock was given back and before the enrolment
    /// does not see this waiter.
    pub fn lock_when<F: Fn(&T) -> bool + Send + 'static>(&self, condition: F) -> (guard:
        MutexGuard<'_, T>)
        requires
            total(condition),
        ensures
            guard.owner() == self,
            holds(condition, guard@),
    {
        {
            let loan = self.acquire();
            if condition(loan.get()) {
                return MutexGuard { loan, owner: self };
            }
        }
        let (waiter, slot) = Waiter::park(condition);
        {
            let mut registry = self.open_registry();
            registry.get_mut().enroll(waiter);
        }
        self.guard(slot.take())
    }

    /// Acquires the lock if it is free at this instant; never blocks.
    pub fn try_lock(&self) -> (guard: Option<MutexGuard<'_, T>>)
        ensures
            guard is Some ==> (guard->0).owner() == self,
    {
        self.guard_of(self.data.try_take())
    }

    /// The first half of the release protocol: looks through the registry,
    /// with the lock still held, for the first waiter whose condition holds
    /// of the value on loan, and hands the value, and with it the lock,
    /// straight to that waiter. Returns whether it did. If it did not, the
    /// loan still holds the value, and the end of the loan frees the lock.
    /// Of a loan that has ended already there is nothing to hand over.
    ///
    /// What comes back is what [`Registry::offer`] answers for the registry
    /// that the lock holds at this moment, whatever that registry is.
    pub(crate) fn hand_over(&self, loan: &mut Loan<'_, T>) -> (handed_over: bool)
        ensures
            old(loan).value() is None ==> !handed_over,
            old(loan).value() is Some ==> exists|before: Seq<Waiter<T>>, after: Seq<Waiter<T>>| #[trigger]
                offered(before, old(loan).value()->0, handed_over, after),
            final(loan).home() == old(loan).home(),
            final(loan).wakes_all() == old(loan).wakes_all(),
            handed_over ==> final(loan).value() is None,
            !handed_over ==> final(loan).value() == old(loan).value(),
    {
        if !loan.live() {
            return false;
        }
        let mut registry = self.open_registry();
        let ghost before = registry.value()->0@;
        let handed_over = registry.get_mut().offer(loan);
        assert(offered(before, old(loan).value()->0, handed_over, registry.value()->0@));
        handed_over
    }
}

impl<T> Mutex<T> {
    /// A guard around `value`, which the caller has taken from this lock or
    /// has been handed by a thread that had.
    fn guard(&self, value: T) -> (guard: MutexGuard<'_, T>)
        ensures
            guard.owner() == self,
            guard@ == value,
    {
        proof {
            use_type_invariant(self);
        }
        MutexGuard { loan: Loan::of(value, &self.data, false), owner: self }
    }

    /// A guard around what was found in the lock's vault, if anything was.
    fn guard_of(&self, found: Option<T>) -> (guard: Option<MutexGuard<'_, T>>)
        ensures
            found is None ==> guard is None,
            found is Some ==> guard is Some && (guard->0).owner() == self && (guard->0)@ == found->0,
    {
        match found {
            Some(value) => Some(self.guard(value)),
            None => None,
        }
    }
}

impl<T: Default> Default for Mutex<T> {
    /// A free lock around the default value of `T`.
    fn default() -> (mutex: Mutex<T>)
        ensures
            call_ensures(T::default, (), mutex.initial()),
    {
        Mutex::new(T::default())
    }
}

impl<T> From<T> for Mutex<T> {
    /// A free lock around `t`.
    fn from(t: T) -> (mutex: Mutex<T>)
        ensures
            mutex.initial() == t,
    {
        Mutex::new(t)
    }
}

impl<T> vstd::std_specs::convert::FromSpecImpl<T> for Mutex<T> {
    /// Every conversion makes a lock of its own, so the result is not a
    /// function of the value converted.
    open spec fn obeys_from_spec() -> bool {
        false
    }

    open spec fn from_spec(t: T) -> Mutex<T> {
        arbitrary()
    }
}

impl<'a, T> MutexGuard<'a, T> {
    /// A live guard holds the value, on a loan from the vault of its lock
    /// that wakes one thread when it ends.
    #[verifier::type_invariant]
    spec fn holding(self) -> bool {
        &&& self.loan.value() is Some
        &&& self.loan.home() == &self.owner.data
        &&& !self.loan.wakes_all()
    }

    /// The lock this guard belongs to.
    pub closed spec fn owner(self) -> &'a Mutex<T> {
        self.owner
    }
}

impl<'a, T> View for MutexGuard<'a, T> {
    type V = T;

    /// The protected value, as the holder of the guard sees it.
    closed spec fn view(&self) -> T {
        self.loan.value()->0
    }
}

impl<'a, T> std::ops::Deref for MutexGuard<'a, T> {
    type Target = T;

    fn deref(&self) -> (value: &T)
        ensures
            *value == self@,
    {
        proof {
            use_type_invariant(self);
        }
        self.loan.get()
    }
}

impl<'a, T> std::ops::DerefMut for MutexGuard<'a, T> {
    fn deref_mut(&mut self) -> (value: &mut T)
        ensures
            *value == old(self)@,
            final(self)@ == *final(value),
            final(self).owner() == old(self).owner(),
    {
        proof {
            use_type_invariant(&*self);
        }
        self.loan.get_mut()
    }
}

impl<'a, T> Drop for MutexGuard<'a, T> {
    /// Runs the release protocol, once: offers the lock to the waiters, and
    /// leaves it to the loan to free the lock if none of them took it.
    ///
    /// The body is one call and is not verified. A destructor has to be
    /// declared `no_unwind`, and the release protocol evaluates the waiters'
    /// conditions, of which that cannot be shown: a condition that panics
    /// unwinds through here. The value and the registry return to the lock
    /// all the same, by the loans that hold them.
    #[verifier::external_body]
    fn drop(&mut self)
        opens_invariants none
        no_unwind
    {
        self.owner.hand_over(&mut self.loan);
    }
}

} // verus!
