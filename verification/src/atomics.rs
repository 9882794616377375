//! The atomic byte that holds the state of a sensor driver, shared between tasks.
use vstd::prelude::*;
use portable_atomic::{AtomicBool, AtomicI32, AtomicU8, Ordering};
use crate::sensor::{spec_state_update, state_update};

verus! {

/// `portable_atomic::AtomicU8`, an atomic byte.
#[verifier::external_type_specification]
#[verifier::external_body]
pub struct ExAtomicU8(AtomicU8);

/// Calls `AtomicU8::new`, which creates an atomic byte holding `value`; what it holds later
/// depends on every task that shares it, so nothing is stated of it.
#[verifier::external_body]
pub(crate) fn atomic_u8_new(value: u8) -> AtomicU8 {
    AtomicU8::new(value)
}

/// Calls `AtomicU8::load` with acquire ordering. The byte read depends on the stores of every
/// task that shares the atomic, so nothing is stated of it.
#[verifier::external_body]
pub(crate) fn atomic_u8_load(atomic: &AtomicU8) -> u8 {
    atomic.load(Ordering::Acquire)
}

/// Calls `AtomicU8::store` with release ordering.
#[verifier::external_body]
pub(crate) fn atomic_u8_store(atomic: &AtomicU8, value: u8) {
    atomic.store(value, Ordering::Release)
}

/// Calls `AtomicU8::fetch_update` (release on success, acquire on load) with a function that
/// replaces any byte that reads as an initialized state by `new_state` and leaves the others
/// alone. As the crate documents it, the result is `Ok` of the byte the
/// function was last applied to when it returned `Some`, and `Err` of that byte when it
/// returned `None`.
#[verifier::external_body]
pub(crate) fn atomic_u8_update_state(atomic: &AtomicU8, new_state: u8) -> (r: Result<u8, u8>)
    ensures
        match r {
            Ok(prev) => spec_state_update(prev, new_state) is Some,
            Err(prev) => spec_state_update(prev, new_state) is None,
        },
{
    atomic.fetch_update(Ordering::Release, Ordering::Acquire, |s| state_update(s, new_state))
}

/// `portable_atomic::AtomicI32`, an atomic 32-bit integer.
#[verifier::external_type_specification]
#[verifier::external_body]
pub struct ExAtomicI32(AtomicI32);

/// `portable_atomic::AtomicBool`, an atomic flag.
#[verifier::external_type_specification]
#[verifier::external_body]
pub struct ExAtomicBool(AtomicBool);

/// Calls `AtomicI32::new`, which creates an atomic integer holding `value`.
#[verifier::external_body]
pub(crate) fn atomic_i32_new(value: i32) -> AtomicI32 {
    AtomicI32::new(value)
}

/// Calls `AtomicI32::load` with acquire ordering; the value read depends on every task that
/// shares the atomic.
#[verifier::external_body]
pub(crate) fn atomic_i32_load(atomic: &AtomicI32) -> i32 {
    atomic.load(Ordering::Acquire)
}

/// Calls `AtomicI32::store` with release ordering.
#[verifier::external_body]
pub(crate) fn atomic_i32_store(atomic: &AtomicI32, value: i32) {
    atomic.store(value, Ordering::Release)
}

/// Calls `AtomicBool::new`, which creates an atomic flag holding `value`.
#[verifier::external_body]
pub(crate) fn atomic_bool_new(value: bool) -> AtomicBool {
    AtomicBool::new(value)
}

/// Calls `AtomicBool::load` with acquire ordering; the flag read depends on every task that
/// shares the atomic.
#[verifier::external_body]
pub(crate) fn atomic_bool_load(atomic: &AtomicBool) -> bool {
    atomic.load(Ordering::Acquire)
}

/// Calls `AtomicBool::store` with release ordering.
#[verifier::external_body]
pub(crate) fn atomic_bool_store(atomic: &AtomicBool, value: bool) {
    atomic.store(value, Ordering::Release)
}

/// Calls `AtomicBool::compare_exchange_weak` (release on success, acquire on failure), which
/// writes `new` when the flag holds `current`, and may also fail spuriously. As the crate
/// documents it, `Ok` holds the previous value, which is `current`, when `new` was written;
/// `Err` holds the previous value otherwise. Which of the two comes back depends on the other
/// tasks and on the machine, so only the first fact is stated.
#[verifier::external_body]
pub(crate) fn atomic_bool_compare_exchange_weak(atomic: &AtomicBool, current: bool, new: bool) -> (r: Result<bool, bool>)
    ensures
        r matches Ok(prev) ==> prev == current,
{
    atomic.compare_exchange_weak(current, new, Ordering::Release, Ordering::Acquire)
}

} // verus!
