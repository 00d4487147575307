//! The pause gate: a flag that the run loop sets and clears, and at which
//! the input worker blocks while it is set.

use std::sync::{Arc, Condvar, Mutex, MutexGuard, PoisonError};
use vstd::prelude::*;

verus! {

/// `std::sync::Mutex`: a value that one thread at a time may reach.
#[verifier::external_type_specification]
#[verifier::external_body]
#[verifier::reject_recursive_types(T)]
pub struct ExMutex<T: ?Sized>(Mutex<T>);

/// `std::sync::MutexGuard`: the right to reach the value of a mutex, which
/// is given up when the guard is dropped.
#[verifier::external_type_specification]
#[verifier::external_body]
#[verifier::reject_recursive_types(T)]
pub struct ExMutexGuard<'a, T: ?Sized + 'a>(MutexGuard<'a, T>);

/// `std::sync::PoisonError`: what a mutex answers once a thread has panicked
/// while it held the guard.
#[verifier::external_type_specification]
#[verifier::external_body]
#[verifier::reject_recursive_types(T)]
pub struct ExPoisonError<T>(PoisonError<T>);

/// `std::sync::Condvar`: where threads block until another wakes them.
#[verifier::external_type_specification]
#[verifier::external_body]
pub struct ExCondvar(Condvar);

/// The flag that the holder of `guard` reads and writes.
pub uninterp spec fn guarded(guard: MutexGuard<'_, bool>) -> bool;

/// The mutex that `guard` holds, and will free when it is dropped.
pub uninterp spec fn mutex_of(guard: MutexGuard<'_, bool>) -> Mutex<bool>;

/// The flag that `mutex` was made around. It says how the mutex began, not
/// what it holds now.
pub uninterp spec fn made_with(mutex: Mutex<bool>) -> bool;

/// Trusted: `Mutex::new`. It makes a free mutex around `value`.
#[verifier::external_body]
fn new_flag(value: bool) -> (mutex: Mutex<bool>)
    ensures
        made_with(mutex) == value,
{
    Mutex::new(value)
}

/// `Condvar::new` makes a condition variable that nothing waits on.
pub assume_specification[ Condvar::new ]() -> (condvar: Condvar)
;

/// Trusted: `Mutex::lock`. It blocks until the mutex is free and hands out
/// a guard of that mutex, or the error of a mutex that a panicking holder
/// poisoned.
#[verifier::external_body]
fn acquire<'a>(mutex: &'a Mutex<bool>) -> (held: Result<
    MutexGuard<'a, bool>,
    PoisonError<MutexGuard<'a, bool>>,
>)
    ensures
        held matches Ok(guard) ==> mutex_of(guard) == *mutex,
{
    mutex.lock()
}

/// Trusted: assignment through `DerefMut` of `MutexGuard`. Afterwards the
/// guarded flag is `value`, and the guard holds the mutex that it held.
#[verifier::external_body]
fn store(guard: &mut MutexGuard<'_, bool>, value: bool)
    ensures
        guarded(*final(guard)) == value,
        mutex_of(*final(guard)) == mutex_of(*old(guard)),
{
    **guard = value;
}

/// Trusted: `Condvar::wait_while`, waiting as long as the guarded flag is
/// set. It gives the mutex up while blocked and takes the same mutex again
/// before it tests the flag, so the guard that comes back holds that mutex
/// and guards a cleared flag.
#[verifier::external_body]
fn park_while_set<'a>(condvar: &Condvar, guard: MutexGuard<'a, bool>) -> (woken: Result<
    MutexGuard<'a, bool>,
    PoisonError<MutexGuard<'a, bool>>,
>)
    ensures
        woken matches Ok(open) ==> !guarded(open) && mutex_of(open) == mutex_of(guard),
{
    condvar.wait_while(guard, |flag| *flag)
}

/// Trusted: `Condvar::notify_all`. It wakes every thread blocked on the
/// condition variable and returns nothing.
#[verifier::external_body]
fn wake_all(condvar: &Condvar) {
    condvar.notify_all()
}

/// Why an operation on a [`Lock`] gave up.
#[derive(Clone, Copy, Debug, PartialEq, Eq, Structural)]
pub enum LockError {
    /// A thread panicked while it held the flag, which is unusable from then
    /// on.
    Poisoned,
}

/// A flag shared between threads, with the means to block until it is
/// cleared. Clones share the one flag.
///
/// Any clone may set or clear the flag at any moment, so a contract has no
/// present value of the flag to speak of, and whether an operation ends
/// well is decided by the mutex alone. What an operation that ended well
/// can say is that the mutex of this lock was held with the flag as the
/// operation wrote or found it: see [`Lock::flag_was`]. That a waiter is
/// let through only while the flag is cleared is not derived from this; the
/// laws of [`crate::system`] take it as their premise.
#[derive(Clone)]
pub struct Lock {
    lock: Arc<(Mutex<bool>, Condvar)>,
}

impl Lock {
    /// Whether the flag was set when the lock was made. What the flag is
    /// now, no contract can say: any clone may have changed it since.
    pub closed spec fn made_set(&self) -> bool {
        made_with(self.lock.0)
    }

    /// Whether the mutex of this lock has been held with the flag at
    /// `value`: there is a guard of that mutex under which the flag is
    /// `value`. It speaks of a moment that was, not of the flag as it is
    /// now: both `flag_was(true)` and `flag_was(false)` may hold of a lock.
    pub closed spec fn flag_was(&self, value: bool) -> bool {
        exists|guard: MutexGuard<bool>|
            #![trigger guarded(guard)]
            mutex_of(guard) == self.lock.0 && guarded(guard) == value
    }

    /// A cleared flag that nobody waits on.
    pub fn new() -> (lock: Self)
        ensures
            !lock.made_set(),
    {
        Self { lock: Arc::new((new_flag(false), Condvar::new())) }
    }

    /// Sets the flag and wakes all waiters. Where it ends well, the flag
    /// was set while this call held the mutex; it ends otherwise only on a
    /// poisoned flag.
    pub fn lock(&self) -> (done: Result<(), LockError>)
        ensures
            match done {
                Ok(()) => self.flag_was(true),
                Err(error) => error == LockError::Poisoned,
            },
    {
        self.set(true)
    }

    /// Clears the flag and wakes all waiters. Where it ends well, the flag
    /// was cleared while this call held the mutex; it ends otherwise only
    /// on a poisoned flag.
    pub fn unlock(&self) -> (done: Result<(), LockError>)
        ensures
            match done {
                Ok(()) => self.flag_was(false),
                Err(error) => error == LockError::Poisoned,
            },
    {
        self.set(false)
    }

    /// Blocks the calling thread until the flag is cleared. The flag is
    /// tested again after each wake, under the mutex, so neither a wake
    /// without cause nor a flag that was set again in between lets the
    /// caller through: where the call ends well, this call held the mutex
    /// and found the flag cleared. It ends otherwise only on a poisoned
    /// flag.
    pub fn wait(&self) -> (done: Result<(), LockError>)
        ensures
            match done {
                Ok(()) => self.flag_was(false),
                Err(error) => error == LockError::Poisoned,
            },
    {
        let held = cleared(&self.lock.1, acquire(&self.lock.0));
        proof {
            if held is Ok {
                assert(mutex_of(held->Ok_0) == self.lock.0 && !guarded(held->Ok_0));
            }
        }
        released(held)
    }

    /// Writes the flag, gives the mutex up and then wakes all waiters.
    /// Where it ends well, the flag was `value` while this call held the
    /// mutex.
    fn set(&self, value: bool) -> (done: Result<(), LockError>)
        ensures
            match done {
                Ok(()) => self.flag_was(value),
                Err(error) => error == LockError::Poisoned,
            },
    {
        let held = written(acquire(&self.lock.0), value);
        proof {
            if held is Ok {
                assert(mutex_of(held->Ok_0) == self.lock.0 && guarded(held->Ok_0) == value);
            }
        }
        let done = released(held);
        if done.is_ok() {
            wake_all(&self.lock.1);
        }
        done
    }
}

/// Writes `value` to the flag, where the mutex could be taken, and keeps the
/// mutex; a failure to take it is passed on.
fn written<'a>(
    taken: Result<MutexGuard<'a, bool>, PoisonError<MutexGuard<'a, bool>>>,
    value: bool,
) -> (held: Result<MutexGuard<'a, bool>, PoisonError<MutexGuard<'a, bool>>>)
    ensures
        taken is Err ==> held == taken,
        taken is Ok ==> held is Ok,
        held matches Ok(guard) ==> guarded(guard) == value && taken is Ok && mutex_of(guard)
            == mutex_of(taken->Ok_0),
{
    match taken {
        Ok(mut guard) => {
            store(&mut guard, value);
            Ok(guard)
        },
        Err(poison) => Err(poison),
    }
}

/// Waits, where the mutex could be taken, until the flag is cleared, and
/// keeps the mutex; a failure to take it is passed on. Whether the wait
/// itself ends well is for the condition variable to say.
fn cleared<'a>(
    condvar: &Condvar,
    taken: Result<MutexGuard<'a, bool>, PoisonError<MutexGuard<'a, bool>>>,
) -> (held: Result<MutexGuard<'a, bool>, PoisonError<MutexGuard<'a, bool>>>)
    ensures
        taken is Err ==> held == taken,
        held matches Ok(guard) ==> !guarded(guard) && taken is Ok && mutex_of(guard) == mutex_of(
            taken->Ok_0,
        ),
{
    match taken {
        Ok(guard) => park_while_set(condvar, guard),
        Err(poison) => Err(poison),
    }
}

/// Gives the mutex up, if it is held, and says how the operation ended: well
/// where the mutex was held to the end, and with a poisoned flag where it
/// could not be taken.
fn released<'a>(
    held: Result<MutexGuard<'a, bool>, PoisonError<MutexGuard<'a, bool>>>,
) -> (done: Result<(), LockError>)
    ensures
        done == (if held is Ok {
            Ok::<(), LockError>(())
        } else {
            Err::<(), LockError>(LockError::Poisoned)
        }),
{
    match held {
        Ok(_guard) => Ok(()),
        Err(_) => Err(LockError::Poisoned),
    }
}

} // verus!
