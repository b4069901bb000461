//! Exclusive locks whose acquisition can wait for a condition on the protected
//! value: `lock_when(condition)` blocks until the lock is free and the
//! condition holds, and returns a guard under which it does.
//!
//! There are two locks, alike in what they promise and different in how a
//! release wakes the threads that wait:
//! - [`Mutex`] looks for a waiter whose condition holds and hands the lock
//!   straight to it. One thread is woken per release; waits cannot time out.
//! - [`Monitor`] wakes every waiter and lets each recheck its own condition.
//!   Waits can be bounded; a release costs more the more threads wait.
//!
//! Neither lock promises an order in which it serves the threads that wait:
//! a [`Mutex`] scans its registry in the order of enrolment, but which thread
//! enrols first is up to the scheduler. Use one of the two for a given value;
//! they do not mix.
//!
//! Underneath both lies [`vault::Vault`], a one-place buffer over a
//! `parking_lot` mutex and condition variable: to hold a lock is to have taken
//! its value out of the vault. [`registry`] keeps the waiters of a [`Mutex`],
//! and [`render`] shows a lock as text without blocking.

pub mod condition;
pub mod monitor;
pub mod mutex;
pub mod registry;
pub mod render;
pub mod vault;

pub use monitor::{Monitor, MonitorGuard};
pub use mutex::{Mutex, MutexGuard};
