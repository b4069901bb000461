//! Conditions over the protected data: what a waiting thread asks the lock to
//! establish before it is let in.

use vstd::prelude::*;

verus! {

/// A condition on a value of type `T` that can be handed to another thread
/// and evaluated there.
///
/// Every `Fn(&T) -> bool + Send` is one; the lock stores conditions behind
/// this trait so that waiters with different closures can share a registry.
pub(crate) trait Condition<T>: Send {
    /// Whether the condition may be evaluated on `value`.
    spec fn accepts(&self, value: &T) -> bool;

    /// Whether `verdict` is an answer the condition can give for `value`.
    spec fn admits(&self, value: &T, verdict: bool) -> bool;

    /// Evaluates the condition.
    fn test(&self, value: &T) -> (verdict: bool)
        requires
            self.accepts(value),
        ensures
            self.admits(value, verdict),
    ;
}

impl<T, F: Fn(&T) -> bool + Send> Condition<T> for F {
    open spec fn accepts(&self, value: &T) -> bool {
        call_requires(*self, (value,))
    }

    open spec fn admits(&self, value: &T, verdict: bool) -> bool {
        call_ensures(*self, (value,), verdict)
    }

    fn test(&self, value: &T) -> (verdict: bool) {
        self(value)
    }
}

/// A condition that can be evaluated on every value.
pub open spec fn total<T, F: Fn(&T) -> bool>(condition: F) -> bool {
    forall|value: &T| call_requires(condition, (value,))
}

/// The condition answered `true` for `value`.
pub open spec fn holds<T, F: Fn(&T) -> bool>(condition: F, value: T) -> bool {
    call_ensures(condition, (&value,), true)
}

} // verus!
