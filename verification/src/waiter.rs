//! A flag that a task waits on until another task signals it.
use vstd::prelude::*;
use portable_atomic::AtomicBool;
use crate::atomics::{atomic_bool_compare_exchange_weak, atomic_bool_new, atomic_bool_store};

verus! {

/// A flag that a task waits on until another signals it. The waiting task polls it with
/// `try_take`, which resets the flag when it finds it signaled.
pub struct Waiter {
    signaled: AtomicBool,
}

/// Whether an attempt to take the signal succeeded, from the outcome of the exchange of the
/// flag from signaled to reset.
pub fn taken(exchange: Result<bool, bool>) -> (r: bool)
    ensures
        r == exchange is Ok,
{
    exchange.is_ok()
}

impl Waiter {
    /// Creates a waiter that has not been signaled.
    pub fn new() -> (r: Self) {
        Self { signaled: atomic_bool_new(false) }
    }

    /// Signals the waiter.
    pub fn signal(&self) {
        atomic_bool_store(&self.signaled, true)
    }

    /// Resets the waiter.
    pub fn reset(&self) {
        atomic_bool_store(&self.signaled, false)
    }

    /// Tries to take the signal: `true` when the waiter was signaled, and is now reset;
    /// `false` when it was not signaled, or when the attempt failed spuriously (then it must
    /// be tried again).
    pub fn try_take(&self) -> (r: bool) {
        taken(atomic_bool_compare_exchange_weak(&self.signaled, true, false))
    }
}

} // verus!
