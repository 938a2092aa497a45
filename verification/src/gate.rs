//! The wait gate: a shared "has fresh data" flag with a blocking
//! notification primitive. The poller sets the flag and wakes all waiters
//! after each publish; consumers that want to synchronize with frame
//! arrival block on it instead of polling.
//!
//! The flag is never cleared: once any frame has been published, every
//! later wait returns immediately. A waiter therefore learns "data has
//! arrived at least once", not "a new frame arrived since my last wait".
//!
//! Blocking and waking are the work of a mutex and a condition variable of
//! std, which Verus gives no specification; whether a wait ends by a signal
//! or by its timeout depends on the other threads and the clock, so the
//! trusted wrappers below promise nothing of their outcomes.

use crate::handles::arc_clone;
use std::sync::Arc;
use std::sync::Condvar;
use std::sync::Mutex;
use std::time::Duration;
use vstd::prelude::*;

verus! {

/// `std::sync::Mutex` is mutual exclusion around a value.
#[verifier::external_type_specification]
#[verifier::external_body]
#[verifier::reject_recursive_types(T)]
pub struct ExMutex<T: ?Sized>(Mutex<T>);

/// `std::sync::Condvar` is a condition variable for blocking and waking.
#[verifier::external_type_specification]
#[verifier::external_body]
pub struct ExCondvar(Condvar);

/// Relies on `std::sync::Mutex::new`: a fresh lock around `false`.
#[verifier::external_body]
fn mutex_new_false() -> Mutex<bool> {
    Mutex::new(false)
}

/// Relies on `std::sync::Condvar::new`: a fresh condition variable.
#[verifier::external_body]
fn condvar_new() -> Condvar {
    Condvar::new()
}

/// Relies on `Mutex::lock` and `Condvar::notify_all`: sets the flag under
/// the lock, then wakes every waiter. Panics only if a thread holding the
/// lock panicked (lock poisoning).
#[verifier::external_body]
fn gate_signal(gate: &(Mutex<bool>, Condvar)) {
    let mut flag = gate.0.lock().unwrap();
    *flag = true;
    gate.1.notify_all();
}

/// Relies on `Mutex::lock` and `Condvar::wait_while`: blocks until the flag
/// is observed true under the lock, immune to spurious wakeups. Panics only
/// on lock poisoning.
#[verifier::external_body]
fn gate_wait(gate: &(Mutex<bool>, Condvar)) {
    let flag = gate.0.lock().unwrap();
    let _flag = gate.1.wait_while(flag, |has: &mut bool| !*has).unwrap();
}

/// Relies on `Mutex::lock` and `Condvar::wait_timeout_while`: blocks until
/// the flag is observed true under the lock or the given time has elapsed,
/// immune to spurious wakeups; true exactly when the flag was observed
/// true. Panics only on lock poisoning.
#[verifier::external_body]
fn gate_wait_timeout(gate: &(Mutex<bool>, Condvar), timeout: Duration) -> bool {
    let flag = gate.0.lock().unwrap();
    let (_flag, res) = gate.1.wait_timeout_while(flag, timeout, |has: &mut bool| !*has).unwrap();
    !res.timed_out()
}

/// A shared handle to the wait gate. Every handle cloned from one `new`
/// call reaches the same flag and condition variable.
pub struct WaitGate {
    inner: Arc<(Mutex<bool>, Condvar)>,
}

impl WaitGate {
    /// Create a fresh gate whose flag is unset.
    pub fn new() -> WaitGate {
        WaitGate { inner: Arc::new((mutex_new_false(), condvar_new())) }
    }

    /// Another handle to the same gate.
    pub fn share(&self) -> WaitGate {
        WaitGate { inner: arc_clone(&self.inner) }
    }

    /// Set the flag and wake all waiters. Called by the poller after each
    /// publish.
    pub fn signal(&self) {
        gate_signal(&self.inner);
    }

    /// Block until the flag is set; returns at once if it already is.
    pub fn wait(&self) {
        gate_wait(&self.inner);
    }

    /// Block until the flag is set or the timeout elapses; true exactly
    /// when the flag was observed set.
    pub fn wait_timeout(&self, timeout: Duration) -> bool {
        gate_wait_timeout(&self.inner, timeout)
    }
}

} // verus!
