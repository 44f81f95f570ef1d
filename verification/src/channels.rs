//! Trusted bridges to the configuration channels and the shared run flag.
//! These are the crate's only unverified seams: each wrapper makes one call
//! into the standard library's synchronization primitives, and what it
//! returns depends on what other threads did, so nothing more is claimed of
//! any outcome.

use vstd::prelude::*;

use std::sync::mpsc::Receiver;
use std::sync::mpsc::Sender;
use std::sync::Arc;
use std::sync::Mutex;

verus! {

/// Declares `std::sync::mpsc::Sender` so that it can stand in fields and
/// signatures; its values stay opaque.
#[verifier::external_type_specification]
#[verifier::external_body]
#[verifier::reject_recursive_types(T)]
pub struct ExSender<T>(Sender<T>);

/// Declares `std::sync::mpsc::Receiver` so that it can stand in fields and
/// signatures; its values stay opaque.
#[verifier::external_type_specification]
#[verifier::external_body]
#[verifier::reject_recursive_types(T)]
pub struct ExReceiver<T>(Receiver<T>);

/// Declares `std::sync::Mutex` so that the shared run flag can stand in
/// fields and signatures; its values stay opaque.
#[verifier::external_type_specification]
#[verifier::external_body]
#[verifier::reject_recursive_types(T)]
pub struct ExMutex<T: ?Sized>(Mutex<T>);

/// Relies on `std::sync::mpsc::Sender::send`: queues the message without
/// blocking; it is refused only when the receiving end has been dropped, and
/// the result reports which of the two happened.
#[verifier::external_body]
pub(crate) fn channel_send<T>(tx: &Sender<T>, message: T) -> (delivered: bool) {
    tx.send(message).is_ok()
}

/// Relies on `std::sync::mpsc::Receiver::try_recv`: hands over a pending
/// message without blocking, or nothing when the queue is empty or the
/// sending end has been dropped.
#[verifier::external_body]
pub(crate) fn channel_try_recv<T>(rx: &Receiver<T>) -> (message: Option<T>) {
    rx.try_recv().ok()
}

/// Relies on `std::sync::Mutex::lock`: reads the shared run flag under the
/// lock, or reports nothing when the lock was poisoned by a writer that
/// panicked.
#[verifier::external_body]
pub(crate) fn run_flag_read(cell: &Arc<Mutex<bool>>) -> (value: Option<bool>) {
    match cell.lock() {
        Ok(guard) => Some(*guard),
        Err(_) => None,
    }
}

/// Relies on `std::sync::Mutex::lock`: overwrites the shared run flag under
/// the lock, and reports whether the write happened (a poisoned lock refuses
/// it).
#[verifier::external_body]
pub(crate) fn run_flag_write(cell: &Arc<Mutex<bool>>, value: bool) -> (written: bool) {
    match cell.lock() {
        Ok(mut guard) => {
            *guard = value;
            true
        },
        Err(_) => false,
    }
}

} // verus!
