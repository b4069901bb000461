//! The wait registry: the threads parked on a lock, each with the condition
//! it waits for and the slot through which the lock will be handed to it.

use crate::condition::{holds, total, Condition};
use crate::vault::{share, Loan, Vault};
use std::sync::Arc;
use vstd::prelude::*;

verus! {

/// One parked thread: its condition, and the one-shot slot it sleeps on.
#[verifier::reject_recursive_types(T)]
pub struct Waiter<T> {
    condition: Box<dyn Condition<T>>,
    slot: Arc<Vault<T>>,
}

impl<T> Waiter<T> {
    /// The slot takes exactly the values for which the condition answers
    /// `true`, and the condition can be asked about any value.
    #[verifier::type_invariant]
    spec fn sound(self) -> bool {
        &&& forall|value: &T| self.condition.accepts(value)
        &&& forall|value: T| self.slot.admits(value) == self.condition.admits(&value, true)
    }

    /// The waiter's condition answers `true` for `value`.
    pub closed spec fn grants(self, value: T) -> bool {
        self.condition.admits(&value, true)
    }

    /// The waiter's condition answers `false` for `value`.
    pub closed spec fn rejects(self, value: T) -> bool {
        self.condition.admits(&value, false)
    }

    /// The slot this waiter sleeps on.
    pub closed spec fn slot(self) -> Arc<Vault<T>> {
        self.slot
    }

    /// A waiter for `condition`, together with the slot on which the waiting
    /// thread is to sleep. The slot is empty, and takes exactly the values
    /// of which `condition` holds.
    pub fn park<F: Fn(&T) -> bool + Send + 'static>(condition: F) -> (parked: (Self, Arc<Vault<T>>))
        requires
            total(condition),
        ensures
            parked.0.slot() == parked.1,
            parked.1.born() is None,
            forall|value: T| parked.1.admits(value) == holds(condition, value),
            forall|value: T| parked.0.grants(value) == call_ensures(condition, (&value,), true),
            forall|value: T| parked.0.rejects(value) == call_ensures(condition, (&value,), false),
    {
        let slot = Arc::new(Vault::empty(Ghost(|value: T| holds(condition, value))));
        let waiter = Waiter { condition: Box::new(condition), slot: share(&slot) };
        (waiter, slot)
    }

    /// Asks the waiter's condition about `value`.
    pub fn test(&self, value: &T) -> (verdict: bool)
        ensures
            verdict ==> self.grants(*value),
            !verdict ==> self.rejects(*value),
    {
        proof {
            use_type_invariant(self);
        }
        self.condition.test(value)
    }

    /// Hands `value` to the waiting thread and wakes it.
    pub fn serve(self, value: T)
        requires
            self.grants(value),
    {
        proof {
            use_type_invariant(&self);
        }
        let _ = self.slot.put(value);
        self.slot.ring_one();
    }
}

/// What `Registry::claim` may do to a registry holding `before` when the lock
/// is about to be released with `value`: serve the first waiter in scan order
/// whose condition answers `true`, having heard `false` from every waiter
/// before it, and remove that waiter alone; or, having heard `false` from
/// every waiter, serve none and leave the registry as it was.
pub open spec fn claimed<T>(
    before: Seq<Waiter<T>>,
    value: T,
    pick: Option<Waiter<T>>,
    after: Seq<Waiter<T>>,
) -> bool {
    match pick {
        Some(waiter) => exists|at: int|
            {
                &&& 0 <= at < before.len()
                &&& #[trigger] before[at] == waiter
                &&& waiter.grants(value)
                &&& passed_over(before, at, value)
                &&& after == before.remove(at)
            },
        None => after == before && passed_over(before, before.len() as int, value),
    }
}

/// Each of the first `upto` waiters answered `false` for `value`.
pub open spec fn passed_over<T>(waiters: Seq<Waiter<T>>, upto: int, value: T) -> bool {
    forall|at: int| 0 <= at < upto ==> (#[trigger] waiters[at]).rejects(value)
}

/// What `Registry::offer` may answer when the lock is about to be released
/// with `value`, and what it may leave of a registry holding `before`: `true`
/// with one waiter gone, as `claimed` allows a waiter to be picked; `false`
/// with the registry untouched, where `claimed` allows none to be.
pub open spec fn offered<T>(
    before: Seq<Waiter<T>>,
    value: T,
    handed_over: bool,
    after: Seq<Waiter<T>>,
) -> bool {
    if handed_over {
        exists|waiter: Waiter<T>| claimed(before, value, Some(waiter), after)
    } else {
        claimed(before, value, None, after)
    }
}

/// The waiters of one lock, in the order in which they enrolled.
#[verifier::reject_recursive_types(T)]
pub struct Registry<T> {
    waiters: Vec<Waiter<T>>,
}

impl<T> View for Registry<T> {
    type V = Seq<Waiter<T>>;

    closed spec fn view(&self) -> Seq<Waiter<T>> {
        self.waiters@
    }
}

impl<T> Registry<T> {
    /// A registry with nobody waiting.
    pub fn new() -> (registry: Self)
        ensures
            registry@ == Seq::<Waiter<T>>::empty(),
    {
        Registry { waiters: Vec::new() }
    }

    /// How many threads are waiting.
    pub fn len(&self) -> (count: usize)
        ensures
            count == self@.len(),
    {
        self.waiters.len()
    }

    /// Adds `waiter` behind those already enrolled.
    pub fn enroll(&mut self, waiter: Waiter<T>)
        ensures
            final(self)@ == old(self)@.push(waiter),
    {
        self.waiters.push(waiter);
    }

    /// The release scan: finds the first waiter whose condition holds of
    /// `value`, removes it from the registry and returns it. At most one
    /// waiter is taken, however many conditions hold.
    pub fn claim(&mut self, value: &T) -> (pick: Option<Waiter<T>>)
        ensures
            claimed(old(self)@, *value, pick, final(self)@),
    {
        let mut at: usize = 0;
        while at < self.waiters.len()
            invariant
                self.waiters@ == old(self).waiters@,
                at <= self.waiters.len(),
                passed_over(self.waiters@, at as int, *value),
            decreases self.waiters.len() - at,
        {
            if self.waiters[at].test(value) {
                let waiter = self.waiters.remove(at);
                return Some(waiter);
            }
            at += 1;
        }
        None
    }
}

impl<T> Registry<T> {
    /// The release protocol on the registry, for a thread that holds the
    /// lock's value on `loan`: looks for the first waiter whose condition
    /// holds of the value, strikes it off, and hands it the value, and with
    /// the value the lock; the loan is then ended and the waiter woken. If no
    /// condition holds, registry and loan stay as they were. Returns whether
    /// the value was handed over.
    pub(crate) fn offer(&mut self, loan: &mut Loan<'_, T>) -> (handed_over: bool)
        requires
            old(loan).value() is Some,
        ensures
            offered(old(self)@, old(loan).value()->0, handed_over, final(self)@),
            final(loan).home() == old(loan).home(),
            final(loan).wakes_all() == old(loan).wakes_all(),
            handed_over ==> final(loan).value() is None,
            !handed_over ==> final(loan).value() == old(loan).value(),
    {
        match self.claim(loan.get()) {
            Some(waiter) => {
                match loan.end() {
                    Some(value) => waiter.serve(value),
                    None => {},
                }
                true
            },
            None => false,
        }
    }
}

/// A release serves at most one waiter: the registry loses exactly the waiter
/// that was picked, and nothing when none was.
pub proof fn lemma_one_waiter_per_release<T>(
    before: Seq<Waiter<T>>,
    value: T,
    pick: Option<Waiter<T>>,
    after: Seq<Waiter<T>>,
)
    requires
        claimed(before, value, pick, after),
    ensures
        pick is Some ==> after.len() + 1 == before.len(),
        pick is None ==> after == before,
        pick is Some ==> before.contains(pick->0),
{
}

/// A waiter is handed the lock only if its condition answered `true` for the
/// value being released.
pub proof fn lemma_served_waiter_is_ready<T>(
    before: Seq<Waiter<T>>,
    value: T,
    pick: Option<Waiter<T>>,
    after: Seq<Waiter<T>>,
)
    requires
        claimed(before, value, pick, after),
    ensures
        pick is Some ==> (pick->0).grants(value),
{
}

/// No ready waiter is left behind: where every condition has a single answer
/// for `value` and the waiter at place `ready` answers `true`, a release with
/// `value` serves a waiter, and it is either that one or one enrolled before
/// it; in the second case the ready waiter moves one place towards the front.
/// So a waiter whose condition holds at every release is served after no more
/// releases than there are waiters in front of it, plus one.
pub proof fn lemma_ready_waiter_is_served<T>(
    before: Seq<Waiter<T>>,
    value: T,
    pick: Option<Waiter<T>>,
    after: Seq<Waiter<T>>,
    ready: int,
)
    requires
        claimed(before, value, pick, after),
        forall|at: int|
            0 <= at < before.len() ==> !((#[trigger] before[at]).grants(value) && before[at].rejects(
                value,
            )),
        0 <= ready < before.len(),
        before[ready].grants(value),
    ensures
        pick is Some,
        pick->0 == before[ready] || (0 < ready && after[ready - 1] == before[ready]),
{
    if pick is None {
        assert(before[ready].rejects(value));
    } else {
        let at = choose|at: int|
            {
                &&& 0 <= at < before.len()
                &&& #[trigger] before[at] == pick->0
                &&& passed_over(before, at, value)
                &&& after == before.remove(at)
            };
        if at > ready {
            assert(before[ready].rejects(value));
        }
    }
}

} // verus!
