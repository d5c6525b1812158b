//! The lock on the account store.
use std::sync::{LockResult, Mutex, MutexGuard, PoisonError};

use vstd::prelude::*;

verus! {

/// `std::sync::Mutex`, carried as an opaque value.
#[verifier::external_type_specification]
#[verifier::external_body]
#[verifier::reject_recursive_types(T)]
pub struct ExMutex<T: ?Sized>(Mutex<T>);

/// `std::sync::MutexGuard`, carried as an opaque value.
#[verifier::external_type_specification]
#[verifier::external_body]
#[verifier::reject_recursive_types(T)]
pub struct ExMutexGuard<'a, T: ?Sized + 'a>(MutexGuard<'a, T>);

/// `std::sync::PoisonError`, carried as an opaque value.
#[verifier::external_type_specification]
#[verifier::external_body]
#[verifier::reject_recursive_types(T)]
pub struct ExPoisonError<T>(PoisonError<T>);

/// [`Mutex::lock`]. Whether the lock is poisoned depends on what other threads did,
/// so nothing is claimed of the result.
pub assume_specification<T: ?Sized>[ Mutex::<T>::lock ](mutex: &Mutex<T>) -> LockResult<
    MutexGuard<'_, T>,
>;

/// `r` is the answer to an attempt to lock the store.
pub open spec fn locked_as<G>(attempt: LockResult<G>, r: Result<G, String>) -> bool {
    match attempt {
        Ok(guard) => r == Ok::<G, String>(guard),
        Err(_) => r matches Err(e) && e@ == "Failed to acquire store lock"@,
    }
}

/// The answer to an attempt to lock the store: the guard, or a message when the
/// lock is poisoned.
pub fn lock_outcome<G>(attempt: LockResult<G>) -> (r: Result<G, String>)
    ensures
        locked_as(attempt, r),
{
    match attempt {
        Ok(guard) => Ok(guard),
        Err(_) => Err("Failed to acquire store lock".to_string()),
    }
}

/// Locks the store. A poisoned lock is reported as an error.
///
/// The answer is that to an attempt to lock this very mutex; whether the attempt
/// succeeds depends on what other threads did.
pub fn lock_account_store<T>(mutex: &Mutex<T>) -> (r: Result<MutexGuard<'_, T>, String>)
    ensures
        exists|attempt: LockResult<MutexGuard<'_, T>>| #[trigger]
            call_ensures(Mutex::<T>::lock, (mutex,), attempt) && locked_as(attempt, r),
{
    lock_outcome(mutex.lock())
}

} // verus!
