//! Shared cells, guarded by the mutex of `parking_lot`.

use vstd::prelude::*;
use std::sync::Arc;
use crate::future::RclFuture;

verus! {

/// The raw lock inside `parking_lot::Mutex`, as an opaque type.
#[verifier::external_type_specification]
#[verifier::external_body]
pub struct ExRawMutex(parking_lot::RawMutex);

/// `lock_api::Mutex`, which `parking_lot::Mutex` is an alias of, as an opaque
/// type. What it guards is not part of its value: another holder of the mutex
/// may change it at any time.
#[verifier::external_type_specification]
#[verifier::external_body]
#[verifier::reject_recursive_types(R)]
#[verifier::reject_recursive_types(T)]
pub struct ExMutex<R, T: ?Sized>(parking_lot::lock_api::Mutex<R, T>);

/// The handle to a future that its holders share. It is the type
/// `Arc<parking_lot::Mutex<Box<RclFuture<T>>>>`: lock it to look at the
/// future.
pub type SharedFuture<T> = Arc<
    parking_lot::lock_api::Mutex<parking_lot::RawMutex, Box<RclFuture<T>>>,
>;

/// Calls `lock_api::Mutex::new` by its alias `parking_lot::Mutex::new`, which
/// makes an unlocked mutex around `value`. Nothing is claimed of the result.
#[verifier::external_body]
pub(crate) fn mutex_new<T>(value: T) -> (mutex: parking_lot::lock_api::Mutex<
    parking_lot::RawMutex,
    T,
>) {
    parking_lot::Mutex::new(value)
}

/// Calls `lock_api::Mutex::lock` on a `parking_lot::Mutex` and writes `value`
/// through the guard, which unlocks when it is dropped at the end. The call
/// waits while another holder has the mutex locked. Nothing is claimed of
/// what the mutex guards afterwards: another holder may have changed it
/// again.
#[verifier::external_body]
pub(crate) fn mutex_store<T>(
    mutex: &parking_lot::lock_api::Mutex<parking_lot::RawMutex, T>,
    value: T,
) {
    *mutex.lock() = value;
}

/// A fresh shared future that holds nothing yet.
pub(crate) fn new_shared_future<T>() -> (future: SharedFuture<T>) {
    Arc::new(mutex_new(Box::new(RclFuture::new())))
}

/// Resolves a shared future: what it guards from now on is a cell that holds
/// `value`.
pub(crate) fn resolve_shared_future<T>(future: &SharedFuture<T>, value: T) {
    let mut cell = RclFuture::new();
    cell.set_value(value);
    mutex_store(future, Box::new(cell));
}

} // verus!
