//! The standard library's mutex, as the stacks and the wait cell use it.
//! Nothing is assumed of what a lock holds beyond exclusive access.
use std::sync::{Mutex, MutexGuard, PoisonError, TryLockError, TryLockResult};
use vstd::prelude::*;

verus! {

#[verifier::external_type_specification]
#[verifier::external_body]
#[verifier::reject_recursive_types(T)]
pub struct ExMutex<T: ?Sized>(Mutex<T>);

#[verifier::external_type_specification]
#[verifier::external_body]
#[verifier::reject_recursive_types(T)]
pub struct ExMutexGuard<'a, T: ?Sized + 'a>(MutexGuard<'a, T>);

#[verifier::external_type_specification]
#[verifier::external_body]
#[verifier::reject_recursive_types(T)]
pub struct ExPoisonError<T>(PoisonError<T>);

/// Relies on `Mutex::new`: an unlocked mutex holding `t`.
pub assume_specification<T>[ Mutex::<T>::new ](t: T) -> Mutex<T>;

#[verifier::external_type_specification]
#[verifier::reject_recursive_types(T)]
pub struct ExTryLockError<T>(TryLockError<T>);

/// Relies on `Mutex::try_lock`: never blocks; the guard when the lock was
/// free (marked poisoned if a holder panicked), else `WouldBlock`,
/// including when the calling thread holds the lock itself.
pub assume_specification<T: ?Sized>[ Mutex::<T>::try_lock ](m: &Mutex<T>) -> TryLockResult<MutexGuard<'_, T>>;

/// Relies on `PoisonError::into_inner`: the guard or reference inside.
pub assume_specification<T>[ PoisonError::<T>::into_inner ](e: PoisonError<T>) -> T;

/// Relies on `MutexGuard::deref_mut`: the content the held lock protects.
pub assume_specification<'a, 'b, T: ?Sized>[ <MutexGuard<'a, T> as std::ops::DerefMut>::deref_mut ](
    guard: &'b mut MutexGuard<'a, T>,
) -> &'b mut T;

/// The guard of `m` when it can be taken right now, recovering it from a
/// poisoned lock; `None` when another holder has it.
pub fn try_acquire<T>(m: &Mutex<T>) -> (r: Option<MutexGuard<'_, T>>) {
    match m.try_lock() {
        Ok(guard) => Some(guard),
        Err(TryLockError::Poisoned(e)) => Some(e.into_inner()),
        Err(TryLockError::WouldBlock) => None,
    }
}

} // verus!
