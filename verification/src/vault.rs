//! A one-place buffer shared between threads, built from a `parking_lot` mutex
//! and condition variable. Whoever takes the value out owns it exclusively
//! until it is put back; this is the only concurrency primitive the rest of
//! the crate stands on.
//!
//! A [`Loan`] is a value taken out together with the way back: however the
//! loan ends, by a return or by a panic that unwinds through it, the value
//! goes back into its vault.

use crate::condition::{holds, total};
use parking_lot::lock_api::Mutex as Lock;
use std::sync::Arc;
use std::time::Duration;
use vstd::prelude::*;

verus! {

#[verifier::external_type_specification]
#[verifier::external_body]
pub struct ExRawMutex(parking_lot::RawMutex);

#[verifier::external_type_specification]
#[verifier::external_body]
#[verifier::reject_recursive_types(R)]
#[verifier::reject_recursive_types(T)]
pub struct ExLock<R, T: ?Sized>(Lock<R, T>);

#[verifier::external_type_specification]
#[verifier::external_body]
pub struct ExCondvar(parking_lot::Condvar);

/// A cell that holds at most one value of type `T`.
///
/// Every value that enters the vault satisfies the admission predicate the
/// vault was created with, so every value that leaves it does too. The
/// condition variable is used with this vault's mutex and no other, as
/// `parking_lot` asks. Beside the cell, the vault remembers what the cell
/// held when the vault was made.
#[verifier::reject_recursive_types(T)]
pub struct Vault<T> {
    cell: Lock<parking_lot::RawMutex, Option<T>>,
    signal: parking_lot::Condvar,
    admission: Ghost<spec_fn(T) -> bool>,
    born: Ghost<Option<T>>,
}

/// `parking_lot::Mutex::new`: a fresh, unlocked mutex around `content`.
#[verifier::external_body]
fn new_cell<T>(content: Option<T>) -> (cell: Lock<parking_lot::RawMutex, Option<T>>) {
    Lock::new(content)
}

/// `parking_lot::Condvar::new`: a condition variable with no waiters.
#[verifier::external_body]
fn new_signal() -> (signal: parking_lot::Condvar) {
    parking_lot::Condvar::new()
}

/// `Arc::clone`: a second handle to the same allocation, hence to the same value.
#[verifier::external_body]
pub(crate) fn share<T>(handle: &Arc<T>) -> (twin: Arc<T>)
    ensures
        twin == *handle,
{
    Arc::clone(handle)
}

/// The value in an occupied cell, for writing.
pub(crate) fn present_mut<T>(content: &mut Option<T>) -> (value: &mut T)
    requires
        *old(content) is Some,
    ensures
        *value == old(content)->0,
        *final(content) == Some(*final(value)),
    no_unwind
{
    match content {
        Some(value) => value,
        None => vstd::pervasive::unreached(),
    }
}

/// Whether a thread waiting for `condition` has to go on waiting, given what
/// the cell holds: it has to while the cell is empty or the condition does
/// not hold of the value in it.
pub fn unready<T, F: Fn(&T) -> bool>(content: &Option<T>, condition: &F) -> (wait: bool)
    requires
        total(*condition),
    ensures
        !wait ==> *content is Some && holds(*condition, content->0),
        wait && *content is Some ==> call_ensures(*condition, (&content->0,), false),
{
    match content {
        Some(value) => !condition(value),
        None => true,
    }
}

impl<T> Vault<T> {
    /// What may be stored in this vault.
    pub closed spec fn admits(&self, value: T) -> bool {
        (self.admission@)(value)
    }

    /// What the vault held when it was made: the value with which its cell
    /// was created, or nothing.
    pub closed spec fn born(&self) -> Option<T> {
        self.born@
    }

    /// An empty vault that will accept the values satisfying `admission`.
    pub(crate) fn empty(Ghost(admission): Ghost<spec_fn(T) -> bool>) -> (vault: Self)
        ensures
            vault.born() is None,
            forall|value: T| vault.admits(value) == admission(value),
    {
        let cell = new_cell(None);
        Vault { cell, signal: new_signal(), admission: Ghost(admission), born: Ghost(None) }
    }

    /// A vault that starts out holding `value`.
    pub(crate) fn holding(value: T, Ghost(admission): Ghost<spec_fn(T) -> bool>) -> (vault: Self)
        requires
            admission(value),
        ensures
            vault.born() == Some(value),
            forall|other: T| vault.admits(other) == admission(other),
    {
        let ghost born = Some(value);
        let cell = new_cell(Some(value));
        Vault { cell, signal: new_signal(), admission: Ghost(admission), born: Ghost(born) }
    }

    /// `Mutex::lock` and `Option::replace`: stores `value` in the cell and
    /// returns what the cell held before. A value that comes out went in
    /// when the vault was made or by an earlier `put`, so it is one the vault
    /// admits; the precondition is what keeps that promise for the next
    /// taker.
    #[verifier::external_body]
    pub(crate) fn put(&self, value: T) -> (displaced: Option<T>)
        requires
            self.admits(value),
        ensures
            displaced is Some ==> self.admits(displaced->0),
        opens_invariants none
        no_unwind
    {
        self.cell.lock().replace(value)
    }

    /// `Condvar::notify_one`: wakes one thread blocked on this vault, if there is one.
    #[verifier::external_body]
    pub(crate) fn ring_one(&self)
        opens_invariants none
        no_unwind
    {
        self.signal.notify_one();
    }

    /// `Condvar::notify_all`: wakes every thread blocked on this vault.
    #[verifier::external_body]
    pub(crate) fn ring_all(&self)
        opens_invariants none
        no_unwind
    {
        self.signal.notify_all();
    }

    /// `Mutex::lock`, `Condvar::wait_while` and `Option::take`: blocks until
    /// the cell holds a value of which `condition` holds, and moves that value
    /// out. `wait_while` returns only once `unready` has answered `false` for
    /// the cell, with the mutex held from that answer to the `take`; and the
    /// value found there went in when the vault was made or by `put`, so it
    /// is one the vault admits. The call does not return for as long as no
    /// such value is there.
    #[verifier::external_body]
    pub(crate) fn take_when<F: Fn(&T) -> bool>(&self, condition: &F) -> (content: Option<T>)
        requires
            total(*condition),
        ensures
            content is Some,
            self.admits(content->0),
            holds(*condition, content->0),
    {
        let mut content = self.cell.lock();
        self.signal.wait_while(&mut content, |c| unready(c, condition));
        content.take()
    }

    /// `Mutex::lock`, `Condvar::wait_while_for` and `Option::take`: as
    /// `take_when`, but gives up once `timeout` has passed. `wait_while_for`
    /// reports a wait that was not cut short by the clock only after `unready`
    /// has answered `false`; on one that was cut short the cell is left alone.
    #[verifier::external_body]
    pub(crate) fn take_when_within<F: Fn(&T) -> bool>(
        &self,
        condition: &F,
        timeout: Duration,
    ) -> (content: Option<T>)
        requires
            total(*condition),
        ensures
            content is Some ==> self.admits(content->0) && holds(*condition, content->0),
    {
        let mut content = self.cell.lock();
        if self.signal.wait_while_for(&mut content, |c| unready(c, condition), timeout).timed_out() {
            None
        } else {
            content.take()
        }
    }

    /// Blocks until the vault holds a value, and moves it out.
    pub fn take(&self) -> (value: T)
        ensures
            self.admits(value),
    {
        let whatever = |value: &T| -> (yes: bool)
            ensures
                yes,
            { true };
        match self.take_when(&whatever) {
            Some(value) => value,
            None => vstd::pervasive::unreached(),
        }
    }

    /// `Mutex::try_lock` and `Option::take`: the value, if the mutex was free
    /// and the cell occupied at this instant; never blocks. A value that
    /// comes out went in when the vault was made or by `put`.
    #[verifier::external_body]
    pub(crate) fn try_take(&self) -> (content: Option<T>)
        ensures
            content is Some ==> self.admits(content->0),
    {
        match self.cell.try_lock() {
            Some(mut content) => content.take(),
            None => None,
        }
    }
}

/// A value on loan from a vault that admits every value. When the loan ends
/// with the value still in it, the value returns to the vault and the threads
/// blocked on the vault are woken: all of them if the loan was made for
/// broadcast, one of them otherwise.
#[verifier::reject_recursive_types(T)]
pub(crate) struct Loan<'a, T> {
    held: Option<T>,
    home: &'a Vault<T>,
    broadcast: bool,
}

impl<T> Vault<T> {
    /// Blocks until the vault holds a value, and takes it on loan.
    pub(crate) fn lend(&self, broadcast: bool) -> (loan: Loan<'_, T>)
        requires
            forall|value: T| self.admits(value),
        ensures
            loan.value() is Some,
            loan.home() == self,
            loan.wakes_all() == broadcast,
    {
        Loan { held: Some(self.take()), home: self, broadcast }
    }
}

impl<'a, T> Loan<'a, T> {
    /// Whatever the loan holds can go back.
    #[verifier::type_invariant]
    spec fn returnable(self) -> bool {
        forall|value: T| self.home.admits(value)
    }

    /// The value on loan, if the loan has not been ended.
    pub closed spec fn value(self) -> Option<T> {
        self.held
    }

    /// The vault the value returns to.
    pub closed spec fn home(self) -> &'a Vault<T> {
        self.home
    }

    /// Whether the end of the loan wakes every thread blocked on the vault,
    /// rather than one of them.
    pub closed spec fn wakes_all(self) -> bool {
        self.broadcast
    }

    /// Whether the loan still holds its value.
    pub(crate) fn live(&self) -> (live: bool)
        ensures
            live == self.value() is Some,
    {
        self.held.is_some()
    }

    /// A loan of `value`, which is taken to have come out of `home`.
    pub(crate) fn of(value: T, home: &'a Vault<T>, broadcast: bool) -> (loan: Self)
        requires
            forall|other: T| home.admits(other),
        ensures
            loan.value() == Some(value),
            loan.home() == home,
            loan.wakes_all() == broadcast,
    {
        Loan { held: Some(value), home, broadcast }
    }

    /// The value on loan, for reading.
    pub(crate) fn get(&self) -> (value: &T)
        requires
            self.value() is Some,
        ensures
            *value == self.value()->0,
    {
        match &self.held {
            Some(value) => value,
            None => vstd::pervasive::unreached(),
        }
    }

    /// The value on loan, for writing.
    pub(crate) fn get_mut(&mut self) -> (value: &mut T)
        requires
            old(self).value() is Some,
        ensures
            *value == old(self).value()->0,
            final(self).value() == Some(*final(value)),
            final(self).home() == old(self).home(),
            final(self).wakes_all() == old(self).wakes_all(),
        no_unwind
    {
        proof {
            use_type_invariant(&*self);
        }
        present_mut(&mut self.held)
    }

    /// Ends the loan without returning the value: the value is handed to the
    /// caller, and the vault stays empty.
    pub(crate) fn end(&mut self) -> (value: Option<T>)
        ensures
            value == old(self).value(),
            final(self).value() is None,
            final(self).home() == old(self).home(),
            final(self).wakes_all() == old(self).wakes_all(),
        opens_invariants none
        no_unwind
    {
        proof {
            use_type_invariant(&*self);
        }
        let mut value = None;
        std::mem::swap(&mut self.held, &mut value);
        value
    }
}

impl<'a, T> Drop for Loan<'a, T> {
    /// Returns the value, if the loan still holds it, and wakes who waits for it.
    fn drop(&mut self)
        opens_invariants none
        no_unwind
    {
        proof {
            use_type_invariant(&*self);
        }
        match self.end() {
            Some(value) => {
                let _ = self.home.put(value);
                if self.broadcast {
                    self.home.ring_all();
                } else {
                    self.home.ring_one();
                }
            },
            None => {},
        }
    }
}

} // verus!
