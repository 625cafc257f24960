//! A value shared between threads behind a readers-writer lock.
//!
//! Many readers may hold the cell at once; a writer holds it alone. What a
//! guard shows depends on what the other holders of the cell did before, so
//! nothing is said here about the value behind a guard: a caller that needs
//! more reads the value through the guard and passes it on. A cell whose
//! writer ended in a panic is poisoned: every later access to it gets `None`
//! and never a guard, and it is for the caller to give up. A thread that
//! holds a guard of a cell asks for no other guard of that cell: the lock
//! may then block for ever or end the thread.

use std::sync::{Arc, RwLock, RwLockReadGuard, RwLockWriteGuard};
use vstd::prelude::*;

verus! {

/// `std::sync::RwLock`. Nothing inside it is seen here.
#[verifier::external_type_specification]
#[verifier::external_body]
#[verifier::reject_recursive_types(T)]
pub struct ExRwLock<T: ?Sized>(RwLock<T>);

/// `std::sync::RwLockReadGuard`. Nothing inside it is seen here.
#[verifier::external_type_specification]
#[verifier::external_body]
#[verifier::reject_recursive_types(T)]
pub struct ExRwLockReadGuard<'a, T: ?Sized>(RwLockReadGuard<'a, T>);

/// `std::sync::RwLockWriteGuard`. Nothing inside it is seen here.
#[verifier::external_type_specification]
#[verifier::external_body]
#[verifier::reject_recursive_types(T)]
pub struct ExRwLockWriteGuard<'a, T: ?Sized + 'a>(RwLockWriteGuard<'a, T>);

/// `RwLock::new` makes an unlocked lock around the value. Nothing is claimed
/// of the lock.
pub assume_specification<T>[ RwLock::<T>::new ](t: T) -> (lock: RwLock<T>)
;

/// Runs `action` on the guard that an access to a cell gave, and hands
/// back what it returns. Without a guard, which is what a poisoned cell
/// gives, the action does not run and there is no result.
pub fn run_guarded<G, F, T>(access: Option<G>, action: F) -> (result: Option<T>) where
    F: FnOnce(G) -> T,

    requires
        access matches Some(guard) ==> call_requires(action, (guard,)),
    ensures
        access is None ==> result is None,
        access is Some ==> result is Some && call_ensures(
            action,
            (access.unwrap(),),
            result.unwrap(),
        ),
{
    match access {
        Some(guard) => {
            let returned = action(guard);
            let result = Some(returned);
            assert(result.unwrap() == returned);
            result
        },
        None => None,
    }
}

/// A cell shared by all its handles.
#[verifier::reject_recursive_types(S)]
pub struct Shared<S> {
    inner: Arc<RwLock<S>>,
}

impl<S> Shared<S> {
    /// A new cell that holds `inner`.
    pub fn new(inner: S) -> Self {
        Self { inner: Arc::new(RwLock::new(inner)) }
    }

    /// Calls `RwLock::read`, which waits until no writer holds the cell and
    /// gives an error for a poisoned cell, and `Result::ok` on what it gives:
    /// `None` stands for the error. Nothing is claimed of the guard, nor of
    /// when there is one.
    #[verifier::external_body]
    pub fn read_access(&self) -> (guard: Option<RwLockReadGuard<S>>) {
        self.inner.read().ok()
    }

    /// Calls `RwLock::write`, which waits until nobody else holds the cell
    /// and gives an error for a poisoned cell, and `Result::ok` on what it
    /// gives: `None` stands for the error. Nothing is claimed of the guard,
    /// nor of when there is one.
    #[verifier::external_body]
    pub fn write_access(&self) -> (guard: Option<RwLockWriteGuard<S>>) {
        self.inner.write().ok()
    }

    /// Runs `action` under a read guard and hands back what it returns, as
    /// [`run_guarded`] does with what [`Shared::read_access`] gives. `None`,
    /// and the action does not run, when the cell is poisoned.
    pub fn read_with<F, T>(&self, action: F) -> (result: Option<T>) where
        F: FnOnce(RwLockReadGuard<S>) -> T,

        requires
            forall|guard: RwLockReadGuard<S>| call_requires(action, (guard,)),
        ensures
            result is Some ==> exists|guard: RwLockReadGuard<S>|
                call_ensures(action, (guard,), result.unwrap()),
    {
        run_guarded(self.read_access(), action)
    }

    /// Runs `action` under the write guard and hands back what it returns,
    /// as [`run_guarded`] does with what [`Shared::write_access`] gives.
    /// `None`, and the action does not run, when the cell is poisoned.
    pub fn write_with<F, T>(&self, action: F) -> (result: Option<T>) where
        F: FnOnce(RwLockWriteGuard<S>) -> T,

        requires
            forall|guard: RwLockWriteGuard<S>| call_requires(action, (guard,)),
        ensures
            result is Some ==> exists|guard: RwLockWriteGuard<S>|
                call_ensures(action, (guard,), result.unwrap()),
    {
        run_guarded(self.write_access(), action)
    }

    /// Calls `Arc::clone`, which makes one more pointer to the same lock.
    #[verifier::external_body]
    fn share(&self) -> (handle: Arc<RwLock<S>>)
        ensures
            handle == self.inner,
    {
        Arc::clone(&self.inner)
    }
}

impl<S: Default> Default for Shared<S> {
    /// A new cell that holds the default value.
    fn default() -> Self {
        Shared::new(S::default())
    }
}

impl<S> Clone for Shared<S> {
    /// One more handle on the same cell.
    fn clone(&self) -> (handle: Self)
        ensures
            handle == *self,
    {
        Self { inner: self.share() }
    }
}

} // verus!
