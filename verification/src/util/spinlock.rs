//! The spin locks that guard interrupt records and redistributors.
//!
//! The locks come from the `spin` crate.  Nothing about them is proved here:
//! this file only tells the verifier that the types exist and gives the two
//! calls the emulation makes a place to stand.

use vstd::prelude::*;

verus! {

/// `spin::mutex::Mutex`, opaque to the verifier.
#[verifier::external_type_specification]
#[verifier::external_body]
#[verifier::reject_recursive_types(T)]
#[verifier::reject_recursive_types(R)]
pub struct ExMutex<T: ?Sized, R>(spin::mutex::Mutex<T, R>);

/// `spin::mutex::MutexGuard`, opaque to the verifier.
#[verifier::external_type_specification]
#[verifier::external_body]
#[verifier::reject_recursive_types(T)]
pub struct ExMutexGuard<'a, T: 'a + ?Sized>(spin::mutex::MutexGuard<'a, T>);

/// `spin::relax::Spin`, the relax strategy that `spin::Mutex` names in its
/// type; opaque to the verifier.
#[verifier::external_type_specification]
#[verifier::external_body]
pub struct ExSpin(spin::relax::Spin);

/// Calls `spin::Mutex::new(())`: a fresh lock that nobody holds.  The
/// contract claims nothing about the value.
#[verifier::external_body]
pub(crate) fn lock_new() -> (lock: spin::Mutex<()>) {
    spin::Mutex::new(())
}

/// Calls `spin::Mutex::lock`, which spins until the lock is free and then
/// returns the guard; the lock is released when the guard is dropped.  The
/// contract claims nothing about the guard.  No function of this crate
/// returns while it holds a guard, and none takes a lock twice, so the call
/// waits only for holders outside the crate.
#[verifier::external_body]
pub(crate) fn lock_acquire<'a>(lock: &'a spin::Mutex<()>) -> (guard: spin::MutexGuard<'a, ()>) {
    lock.lock()
}

} // verus!
